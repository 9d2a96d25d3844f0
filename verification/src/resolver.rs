//! Application Source Resolver: locates an application definition either in
//! a local manifest or in a set of tagged content layers, and determines
//! the single applicable trigger type. Reading the manifest file, writing
//! the configuration layer and filling the digest-keyed module cache are
//! the embedding process's side; this module decides what those actions
//! must be and what the definition declares.

use vstd::prelude::*;

use crate::text::{
    ends_with_seq, split_on, split_str, starts_with_seq, str_ends_with, str_starts_with, trim_str,
    trimmed,
};

verus! {

/// Why resolution failed.
#[derive(Clone, Copy, PartialEq, Eq, Structural, Debug)]
pub enum ResolveError {
    /// No manifest at the well-known path.
    ManifestNotFound,
    /// The manifest text does not follow the manifest grammar.
    ManifestParseError,
    /// No layer is tagged as application configuration.
    MissingConfigLayer,
    /// More than one layer is tagged as application configuration.
    AmbiguousConfigLayer,
    /// The application declares no trigger.
    NoTriggerDeclared,
    /// The application declares more than one trigger type.
    MultipleTriggerTypesUnsupported,
}

/// A content-addressed layer: its declared media type, its digest, and its
/// bytes.
#[derive(Clone, Debug, PartialEq, Eq)]
pub struct Layer {
    pub media_type: String,
    pub digest: String,
    pub content: Vec<u8>,
}

/// Where the application definition comes from: a manifest at a local
/// path, or a set of tagged content layers.
pub enum AppSource {
    LocalManifest { path: String },
    OciLayers { layers: Vec<Layer> },
}

/// A parsed manifest: the declared trigger types, in order of declaration.
#[derive(Debug, PartialEq, Eq)]
pub struct Manifest {
    pub trigger_types: Vec<String>,
}

/// A locked application: the resolved, reloadable snapshot. Only what the
/// resolver inspects is modelled: the trigger types its triggers declare.
#[derive(Debug, PartialEq, Eq)]
pub struct LockedApp {
    pub trigger_types: Vec<String>,
}

/// A resolved application definition, from either source shape.
pub enum ResolvedAppSource {
    File { manifest_path: String, manifest: Manifest },
    OciRegistry { locked_app: LockedApp },
}

/// What the embedding process must do with a classified layer set: write
/// the configuration bytes to the well-known location, and place each
/// module-content layer into the digest-keyed local cache.
#[derive(Debug, PartialEq, Eq)]
pub struct OciResolution {
    pub config: Vec<u8>,
    pub cache_entries: Vec<CacheEntry>,
}

/// One module-content layer bound for the local cache.
#[derive(Debug, PartialEq, Eq)]
pub struct CacheEntry {
    pub digest: String,
    pub content: Vec<u8>,
}

/// The well-known manifest path inside the container.
pub fn manifest_path() -> (r: &'static str)
    ensures
        r@ == "/spin.toml"@,
{
    "/spin.toml"
}

/// The media type that tags a layer as application configuration.
pub open spec fn config_media_type() -> Seq<char> {
    "application/vnd.fermyon.spin.application.v1+config"@
}

/// The media type that tags a layer as module content.
pub open spec fn module_media_type() -> Seq<char> {
    "application/vnd.wasm.content.layer.v1+wasm"@
}

/// Chooses the source shape: with no layers the application definition is
/// the manifest at the well-known path; otherwise it is the layer set.
pub fn select_app_source(layers: Vec<Layer>) -> (r: AppSource)
    ensures
        layers@.len() == 0 ==> (r matches AppSource::LocalManifest { path } && path@
            == "/spin.toml"@),
        layers@.len() > 0 ==> (r matches AppSource::OciLayers { layers: l } && l@ == layers@),
{
    if layers.len() == 0 {
        AppSource::LocalManifest { path: manifest_path().to_owned() }
    } else {
        AppSource::OciLayers { layers }
    }
}

impl AppSource {
    /// The source, spelled as the logs name it.
    pub fn describe(&self) -> (r: String)
        ensures
            self matches AppSource::LocalManifest { path } ==> r@ == "File("@ + path@ + ")"@,
            self is OciLayers ==> r@ == "Oci"@,
    {
        match self {
            AppSource::LocalManifest { path } => {
                let mut s = String::from_str("File(");
                s.append(path.as_str());
                s.append(")");
                proof {
                    assert(s@ =~= "File("@ + path@ + ")"@);
                }
                s
            },
            AppSource::OciLayers { .. } => String::from_str("Oci"),
        }
    }
}

/// How many layers carry the given media type.
pub open spec fn count_media(layers: Seq<Layer>, media: Seq<char>) -> nat
    decreases layers.len(),
{
    if layers.len() == 0 {
        0
    } else {
        count_media(layers.drop_last(), media) + if layers.last().media_type@ == media {
            1nat
        } else {
            0nat
        }
    }
}

/// Index of the first layer tagged as application configuration, or the
/// length when there is none.
pub open spec fn first_config_idx(layers: Seq<Layer>) -> nat
    decreases layers.len(),
{
    if layers.len() == 0 {
        0
    } else if layers[0].media_type@ == config_media_type() {
        0
    } else {
        1 + first_config_idx(layers.subrange(1, layers.len() as int))
    }
}

proof fn lemma_first_config_idx_is(layers: Seq<Layer>, i: int)
    requires
        0 <= i <= layers.len(),
        forall|j: int| 0 <= j < i ==> (#[trigger] layers[j]).media_type@ != config_media_type(),
        i < layers.len() ==> layers[i].media_type@ == config_media_type(),
    ensures
        first_config_idx(layers) == i,
    decreases layers.len(),
{
    if layers.len() == 0 {
    } else if layers[0].media_type@ == config_media_type() {
        assert(i == 0);
    } else {
        let t = layers.subrange(1, layers.len() as int);
        assert(i >= 1);
        assert forall|j: int| 0 <= j < i - 1 implies (#[trigger] t[j]).media_type@
            != config_media_type() by {
            assert(t[j] == layers[j + 1]);
        }
        assert(i - 1 < t.len() ==> t[i - 1] == layers[i]);
        lemma_first_config_idx_is(t, i - 1);
    }
}

/// The module-content layers, each reduced to its digest and bytes, in
/// layer order.
pub open spec fn module_entries(layers: Seq<Layer>) -> Seq<(Seq<char>, Seq<u8>)>
    decreases layers.len(),
{
    if layers.len() == 0 {
        Seq::empty()
    } else {
        let rest = module_entries(layers.drop_last());
        if layers.last().media_type@ == module_media_type() {
            rest.push((layers.last().digest@, layers.last().content@))
        } else {
            rest
        }
    }
}

/// The digest and bytes a cache entry carries.
pub open spec fn entry_view(e: CacheEntry) -> (Seq<char>, Seq<u8>) {
    (e.digest@, e.content@)
}

fn clone_bytes(v: &Vec<u8>) -> (r: Vec<u8>)
    ensures
        r@ == v@,
{
    let r = v.clone();
    proof {
        assert forall|i: int| 0 <= i < v@.len() implies r@[i] == v@[i] by {
            assert(vstd::pervasive::cloned::<u8>(v[i], r[i]));
        }
        assert(r@ =~= v@);
    }
    r
}

/// Classifies a layer set: demands exactly one configuration layer, whose
/// bytes become the configuration to write, and routes every
/// module-content layer into the digest-keyed cache, in order. Layers with
/// any other media type are ignored.
pub fn resolve_layers(layers: &Vec<Layer>) -> (r: Result<OciResolution, ResolveError>)
    ensures
        count_media(layers@, config_media_type()) == 0 ==> r == Err::<OciResolution, ResolveError>(
            ResolveError::MissingConfigLayer,
        ),
        count_media(layers@, config_media_type()) >= 2 ==> r == Err::<OciResolution, ResolveError>(
            ResolveError::AmbiguousConfigLayer,
        ),
        count_media(layers@, config_media_type()) == 1 ==> (r matches Ok(res) && res.config@
            == layers@[first_config_idx(layers@) as int].content@ && res.cache_entries@.map_values(
            |e: CacheEntry| entry_view(e),
        ) == module_entries(layers@)),
{
    let config_tag: String = String::from_str(
        "application/vnd.fermyon.spin.application.v1+config",
    );
    let module_tag: String = String::from_str("application/vnd.wasm.content.layer.v1+wasm");
    let n = layers.len();
    let mut config: Option<Vec<u8>> = None;
    let mut config_count: usize = 0;
    let mut entries: Vec<CacheEntry> = Vec::new();
    let mut i: usize = 0;
    proof {
        assert(layers@.subrange(0, 0) =~= Seq::<Layer>::empty());
        assert(entries@.map_values(|e: CacheEntry| entry_view(e)) =~= Seq::<(
            Seq<char>,
            Seq<u8>,
        )>::empty());
    }
    while i < n
        invariant
            i <= n,
            n == layers@.len(),
            config_tag@ == config_media_type(),
            module_tag@ == module_media_type(),
            config_count == count_media(layers@.subrange(0, i as int), config_media_type()),
            config_count <= i,
            config is Some <==> config_count > 0,
            config matches Some(c) ==> first_config_idx(layers@) < i && c@ == layers@[
                first_config_idx(layers@) as int
            ].content@,
            config is None ==> forall|j: int|
                0 <= j < i ==> (#[trigger] layers@[j]).media_type@ != config_media_type(),
            entries@.map_values(|e: CacheEntry| entry_view(e)) == module_entries(
                layers@.subrange(0, i as int),
            ),
        decreases n - i,
    {
        let layer = &layers[i];
        let ghost prefix = layers@.subrange(0, i as int);
        proof {
            assert(layers@.subrange(0, i + 1).drop_last() =~= prefix);
            assert(layers@.subrange(0, i + 1).last() == layers@[i as int]);
            reveal_strlit("application/vnd.fermyon.spin.application.v1+config");
            reveal_strlit("application/vnd.wasm.content.layer.v1+wasm");
            assert(config_media_type().len() != module_media_type().len());
        }
        if layer.media_type == config_tag {
            if config.is_none() {
                proof {
                    lemma_first_config_idx_is(layers@, i as int);
                }
                config = Some(clone_bytes(&layer.content));
            }
            config_count = config_count + 1;
        } else if layer.media_type == module_tag {
            let ghost prev = entries@.map_values(|e: CacheEntry| entry_view(e));
            entries.push(CacheEntry { digest: layer.digest.clone(), content: clone_bytes(&layer.content) });
            proof {
                assert(entries@.map_values(|e: CacheEntry| entry_view(e)) =~= prev.push(
                    (layers@[i as int].digest@, layers@[i as int].content@),
                ));
            }
        }
        i = i + 1;
    }
    proof {
        assert(layers@.subrange(0, n as int) =~= layers@);
    }
    if config_count == 0 {
        Err(ResolveError::MissingConfigLayer)
    } else if config_count >= 2 {
        Err(ResolveError::AmbiguousConfigLayer)
    } else {
        match config {
            Some(c) => Ok(OciResolution { config: c, cache_entries: entries }),
            None => vstd::pervasive::unreached(),
        }
    }
}

/// The header prefix that declares a trigger in the manifest grammar.
pub open spec fn trigger_header_prefix() -> Seq<char> {
    seq!['[', '[', 't', 'r', 'i', 'g', 'g', 'e', 'r', '.']
}

/// The closing of a trigger header.
pub open spec fn trigger_header_suffix() -> Seq<char> {
    seq![']', ']']
}

/// A character allowed in a trigger type name.
pub open spec fn valid_trigger_char(c: char) -> bool {
    !(c == '[' || c == ']' || c == '.' || crate::text::is_blank(c))
}

/// A well-formed trigger type name: nonempty, without brackets, dots or
/// blanks.
pub open spec fn valid_trigger_name(name: Seq<char>) -> bool {
    name.len() > 0 && forall|i: int| 0 <= i < name.len() ==> valid_trigger_char(name[i])
}

/// What one manifest line contributes: a trigger type for a well-formed
/// trigger header `[[trigger.<type>]]` (after trimming), nothing for any
/// other line, and a parse error for a line that opens a trigger header
/// without closing it well.
pub open spec fn line_trigger(line: Seq<char>) -> Result<Option<Seq<char>>, ()> {
    let t = trimmed(line);
    if starts_with_seq(t, trigger_header_prefix()) {
        if ends_with_seq(t, trigger_header_suffix()) && t.len() >= trigger_header_prefix().len()
            + trigger_header_suffix().len() {
            let name = t.subrange(
                trigger_header_prefix().len() as int,
                t.len() - trigger_header_suffix().len(),
            );
            if valid_trigger_name(name) {
                Ok(Some(name))
            } else {
                Err(())
            }
        } else {
            Err(())
        }
    } else {
        Ok(None)
    }
}

/// The trigger types a sequence of manifest lines declares, in order, or a
/// parse error if any line is malformed.
pub open spec fn triggers_of_lines(lines: Seq<Seq<char>>) -> Result<Seq<Seq<char>>, ()>
    decreases lines.len(),
{
    if lines.len() == 0 {
        Ok(Seq::empty())
    } else {
        match triggers_of_lines(lines.drop_last()) {
            Err(e) => Err(e),
            Ok(acc) => match line_trigger(lines.last()) {
                Err(_) => Err(()),
                Ok(None) => Ok(acc),
                Ok(Some(name)) => Ok(acc.push(name)),
            },
        }
    }
}

proof fn lemma_triggers_err(lines: Seq<Seq<char>>, i: int)
    requires
        0 <= i < lines.len(),
        line_trigger(lines[i]) is Err,
    ensures
        triggers_of_lines(lines) is Err,
    decreases lines.len(),
{
    if i == lines.len() - 1 {
    } else {
        assert(lines.drop_last()[i] == lines[i]);
        lemma_triggers_err(lines.drop_last(), i);
    }
}

/// The trigger types a whole manifest text declares: its lines are the
/// pieces between newlines.
pub open spec fn manifest_triggers_spec(s: Seq<char>) -> Result<Seq<Seq<char>>, ()> {
    triggers_of_lines(split_on(s, '\n'))
}

/// Checks that every character of `name` may stand in a trigger type name.
fn check_trigger_name(name: &str) -> (r: bool)
    ensures
        r == valid_trigger_name(name@),
{
    let n = name.unicode_len();
    if n == 0 {
        return false;
    }
    let mut i: usize = 0;
    while i < n
        invariant
            i <= n,
            n == name@.len(),
            forall|j: int| 0 <= j < i ==> valid_trigger_char(name@[j]),
        decreases n - i,
    {
        let c = name.get_char(i);
        if c == '[' || c == ']' || c == '.' || c == ' ' || c == '\t' || c == '\r' {
            return false;
        }
        i = i + 1;
    }
    true
}

/// Parses a manifest: scans it line by line for trigger headers
/// `[[trigger.<type>]]` and collects the declared trigger types in order.
/// A line that opens a trigger header but does not close it well is a
/// `ManifestParseError`.
pub fn parse_manifest(text: &str) -> (r: Result<Manifest, ResolveError>)
    ensures
        r matches Ok(m) ==> manifest_triggers_spec(text@) == Ok::<_, ()>(
            m.trigger_types.deep_view(),
        ),
        r matches Err(e) ==> e == ResolveError::ManifestParseError && manifest_triggers_spec(
            text@,
        ) is Err,
{
    let lines = split_str(text, '\n');
    let ghost lines_view = split_on(text@, '\n');
    let n = lines.len();
    let mut triggers: Vec<String> = Vec::new();
    let mut i: usize = 0;
    proof {
        assert(lines_view.subrange(0, 0) =~= Seq::<Seq<char>>::empty());
        assert(triggers.deep_view() =~= Seq::<Seq<char>>::empty());
    }
    while i < n
        invariant
            i <= n,
            n == lines@.len(),
            lines_view == split_on(text@, '\n'),
            lines@.len() == lines_view.len(),
            forall|k: int| 0 <= k < lines@.len() ==> #[trigger] lines@[k]@ == lines_view[k],
            triggers_of_lines(lines_view.subrange(0, i as int)) == Ok::<_, ()>(
                triggers.deep_view(),
            ),
        decreases n - i,
    {
        let ghost prefix = lines_view.subrange(0, i as int);
        proof {
            assert(lines_view.subrange(0, i + 1).drop_last() =~= prefix);
            assert(lines_view.subrange(0, i + 1).last() == lines_view[i as int]);
        }
        let t = trim_str(lines[i].as_str());
        proof {
            reveal_strlit("[[trigger.");
            assert("[[trigger."@ =~= trigger_header_prefix());
            reveal_strlit("]]");
            assert("]]"@ =~= trigger_header_suffix());
        }
        if str_starts_with(t.as_str(), "[[trigger.") {
            let tn = t.as_str().unicode_len();
            if !str_ends_with(t.as_str(), "]]") || tn < 12 {
                proof {
                    assert(line_trigger(lines_view[i as int]) is Err);
                    lemma_triggers_err(lines_view, i as int);
                }
                return Err(ResolveError::ManifestParseError);
            }
            let name = t.as_str().substring_char(10, tn - 2);
            if !check_trigger_name(name) {
                proof {
                    assert(line_trigger(lines_view[i as int]) is Err);
                    lemma_triggers_err(lines_view, i as int);
                }
                return Err(ResolveError::ManifestParseError);
            }
            let ghost prev = triggers.deep_view();
            triggers.push(name.to_owned());
            proof {
                assert(triggers.deep_view() =~= prev.push(name@));
                assert(line_trigger(lines_view[i as int]) == Ok::<_, ()>(Some(name@)));
            }
        } else {
            proof {
                assert(line_trigger(lines_view[i as int]) == Ok::<Option<Seq<char>>, ()>(None));
            }
        }
        i = i + 1;
    }
    proof {
        assert(lines_view.subrange(0, n as int) =~= lines_view);
    }
    Ok(Manifest { trigger_types: triggers })
}

/// Resolves a local manifest from the text found (or not found) at the
/// well-known path: a missing file is `ManifestNotFound`, unparsable text
/// is `ManifestParseError`.
pub fn resolve_local_manifest(text: &Option<String>) -> (r: Result<Manifest, ResolveError>)
    ensures
        text is None ==> r == Err::<Manifest, ResolveError>(ResolveError::ManifestNotFound),
        text matches Some(s) ==> ((r matches Ok(m) && manifest_triggers_spec(s@) == Ok::<_, ()>(
            m.trigger_types.deep_view(),
        )) || (r == Err::<Manifest, ResolveError>(ResolveError::ManifestParseError)
            && manifest_triggers_spec(s@) is Err)),
{
    match text {
        None => Err(ResolveError::ManifestNotFound),
        Some(s) => parse_manifest(s.as_str()),
    }
}

/// All entries of `ts` name the same trigger type.
pub open spec fn all_same(ts: Seq<Seq<char>>) -> bool {
    forall|i: int| 0 <= i < ts.len() ==> #[trigger] ts[i] == ts[0]
}

/// The single applicable trigger type of a declared set: none at all is
/// `NoTriggerDeclared`, more than one distinct type is
/// `MultipleTriggerTypesUnsupported`, otherwise the one type.
pub open spec fn trigger_type_spec(ts: Seq<Seq<char>>) -> Result<Seq<char>, ResolveError> {
    if ts.len() == 0 {
        Err(ResolveError::NoTriggerDeclared)
    } else if !all_same(ts) {
        Err(ResolveError::MultipleTriggerTypesUnsupported)
    } else {
        Ok(ts[0])
    }
}

/// Determines the single trigger type of a declared set, as
/// `trigger_type_spec` says.
pub fn single_trigger_type(ts: &Vec<String>) -> (r: Result<String, ResolveError>)
    ensures
        match r {
            Ok(t) => trigger_type_spec(ts.deep_view()) == Ok::<_, ResolveError>(t@),
            Err(e) => trigger_type_spec(ts.deep_view()) == Err::<Seq<char>, _>(e),
        },
{
    let n = ts.len();
    if n == 0 {
        return Err(ResolveError::NoTriggerDeclared);
    }
    let first = &ts[0];
    let mut i: usize = 1;
    while i < n
        invariant
            1 <= i <= n,
            n == ts@.len(),
            first@ == ts.deep_view()[0],
            forall|j: int| 0 <= j < i ==> #[trigger] ts.deep_view()[j] == ts.deep_view()[0],
        decreases n - i,
    {
        if !(ts[i] == *first) {
            proof {
                assert(ts.deep_view()[i as int] != ts.deep_view()[0]);
            }
            return Err(ResolveError::MultipleTriggerTypesUnsupported);
        }
        i = i + 1;
    }
    Ok(first.clone())
}

impl ResolvedAppSource {
    /// The trigger types the resolved application declares.
    pub open spec fn declared_trigger_types(&self) -> Seq<Seq<char>> {
        match self {
            ResolvedAppSource::File { manifest, .. } => manifest.trigger_types.deep_view(),
            ResolvedAppSource::OciRegistry { locked_app } => locked_app.trigger_types.deep_view(),
        }
    }

    /// The single trigger type of the resolved application: exactly one
    /// trigger type must be declared, whichever source shape it came from.
    pub fn trigger_type(&self) -> (r: Result<String, ResolveError>)
        ensures
            match r {
                Ok(t) => trigger_type_spec(self.declared_trigger_types()) == Ok::<_, ResolveError>(
                    t@,
                ),
                Err(e) => trigger_type_spec(self.declared_trigger_types()) == Err::<Seq<char>, _>(
                    e,
                ),
            },
    {
        match self {
            ResolvedAppSource::File { manifest, .. } => single_trigger_type(
                &manifest.trigger_types,
            ),
            ResolvedAppSource::OciRegistry { locked_app } => single_trigger_type(
                &locked_app.trigger_types,
            ),
        }
    }
}

} // verus!
