//! Format detection: decides whether a launch request names a natively
//! executable file (ELF binary or interpreter script) or must be routed to
//! the embedded runtime. The decision is made from the argument list, the
//! process environment, the working directory, and a probe of the located
//! file (its kind, its permission bits, and its first bytes); reading the
//! file itself is the caller's affair.

use vstd::prelude::*;

use crate::text::{
    contains_char, first_index, has_char, path_join, path_join_spec, split_on, split_once_char,
    split_str,
};

verus! {

/// How a candidate executable is classified: run it as a native process, or
/// hand it to the embedded runtime.
#[derive(Clone, Copy, PartialEq, Eq, Structural, Debug)]
pub enum ExecutableClassification {
    Native,
    EmbeddedRuntime,
}

/// Why detection did not settle on a native executable. Every variant is a
/// routing signal towards the embedded runtime, not a fatal error.
#[derive(Clone, Copy, PartialEq, Eq, Structural, Debug)]
pub enum DetectError {
    /// The launch request carries no arguments at all.
    NoArguments,
    /// The first argument is the empty string.
    EmptyExecutable,
    /// The executable is a bare name and the environment defines no PATH.
    PathNotDefined,
    /// No candidate path named a regular file.
    FileNotFound,
    /// The located entry is not a regular file.
    NotRegularFile,
    /// The located file lacks the execute permission bit.
    NotExecutable,
    /// The first bytes are neither the ELF magic sequence nor a shebang.
    UnrecognizedHeader,
}

/// What a filesystem probe of one located candidate reports.
pub struct FileProbe {
    /// The entry exists and is a regular file.
    pub is_regular_file: bool,
    /// The permission bits of the entry.
    pub mode: u32,
    /// The first bytes of the file, at most four.
    pub header: Vec<u8>,
}

/// The four-byte ELF magic sequence opens the buffer.
pub open spec fn is_elf_header(h: Seq<u8>) -> bool {
    h.len() >= 4 && h[0] == 0x7f && h[1] == 0x45 && h[2] == 0x4c && h[3] == 0x46
}

/// The two-byte shebang marker opens the buffer.
pub open spec fn is_shebang_header(h: Seq<u8>) -> bool {
    h.len() >= 2 && h[0] == 0x23 && h[1] == 0x21
}

/// A header that marks a natively executable file.
pub open spec fn native_header(h: Seq<u8>) -> bool {
    is_elf_header(h) || is_shebang_header(h)
}

/// The world-execute permission bit is set.
pub open spec fn has_execute_bit(mode: u32) -> bool {
    mode & 1 != 0
}

/// Checks the first bytes of a file for the ELF magic sequence or a shebang
/// marker.
pub fn classify_header(h: &Vec<u8>) -> (r: bool)
    ensures
        r == native_header(h@),
{
    if h.len() >= 4 && h[0] == 0x7f && h[1] == 0x45 && h[2] == 0x4c && h[3] == 0x46 {
        return true;
    }
    if h.len() >= 2 && h[0] == 0x23 && h[1] == 0x21 {
        return true;
    }
    false
}

/// The exact outcome of probing one located candidate: which check fails
/// first, in the order the detector applies them, or success.
pub open spec fn detect_result_spec(probe: Option<FileProbe>) -> Result<(), DetectError> {
    match probe {
        None => Err(DetectError::FileNotFound),
        Some(p) => if !p.is_regular_file {
            Err(DetectError::NotRegularFile)
        } else if !has_execute_bit(p.mode) {
            Err(DetectError::NotExecutable)
        } else if !native_header(p.header@) {
            Err(DetectError::UnrecognizedHeader)
        } else {
            Ok(())
        },
    }
}

/// Decides whether the located entry is a natively executable Linux file:
/// a regular file, with the execute bit set, whose first bytes carry the
/// ELF magic sequence or a shebang marker. `None` stands for a candidate
/// that no probe found.
pub fn is_linux_executable(probe: &Option<FileProbe>) -> (r: Result<(), DetectError>)
    ensures
        r == detect_result_spec(*probe),
{
    match probe {
        None => Err(DetectError::FileNotFound),
        Some(p) => {
            if !p.is_regular_file {
                Err(DetectError::NotRegularFile)
            } else if p.mode & 1 == 0 {
                Err(DetectError::NotExecutable)
            } else if !classify_header(&p.header) {
                Err(DetectError::UnrecognizedHeader)
            } else {
                Ok(())
            }
        },
    }
}

/// Classifies the probe outcome. Only an existing regular file with the
/// execute bit and a native header is `Native`; every byte sequence that
/// lacks both markers, a missing file, and missing execute permission all
/// classify as `EmbeddedRuntime`.
pub fn classify_executable(probe: &Option<FileProbe>) -> (c: ExecutableClassification)
    ensures
        c is Native <==> (probe matches Some(p) && p.is_regular_file && has_execute_bit(p.mode)
            && native_header(p.header@)),
        c is EmbeddedRuntime <==> !(probe matches Some(p) && p.is_regular_file && has_execute_bit(
            p.mode,
        ) && native_header(p.header@)),
{
    match is_linux_executable(probe) {
        Ok(_) => ExecutableClassification::Native,
        Err(_) => ExecutableClassification::EmbeddedRuntime,
    }
}

/// The key of an environment entry `NAME=value`: everything before the
/// first equals sign, or the whole entry when there is none.
pub open spec fn env_key(entry: Seq<char>) -> Seq<char> {
    entry.subrange(0, first_index(entry, '=') as int)
}

/// The value of an environment entry `NAME=value`: everything after the
/// first equals sign, or empty when there is none.
pub open spec fn env_value(entry: Seq<char>) -> Seq<char> {
    if has_char(entry, '=') {
        entry.subrange(first_index(entry, '=') + 1 as int, entry.len() as int)
    } else {
        Seq::empty()
    }
}

/// The value of the first environment entry whose key is `name`.
pub open spec fn lookup_env_spec(env: Seq<Seq<char>>, name: Seq<char>) -> Option<Seq<char>>
    decreases env.len(),
{
    if env.len() == 0 {
        None
    } else if env_key(env[0]) == name {
        Some(env_value(env[0]))
    } else {
        lookup_env_spec(env.subrange(1, env.len() as int), name)
    }
}

proof fn lemma_lookup_env_at(env: Seq<Seq<char>>, name: Seq<char>, i: int)
    requires
        0 <= i < env.len(),
        forall|j: int| 0 <= j < i ==> env_key(#[trigger] env[j]) != name,
        env_key(env[i]) == name,
    ensures
        lookup_env_spec(env, name) == Some(env_value(env[i])),
    decreases env.len(),
{
    if i == 0 {
    } else {
        let t = env.subrange(1, env.len() as int);
        assert forall|j: int| 0 <= j < i - 1 implies env_key(#[trigger] t[j]) != name by {
            assert(t[j] == env[j + 1]);
        }
        assert(t[i - 1] == env[i]);
        lemma_lookup_env_at(t, name, i - 1);
    }
}

proof fn lemma_lookup_env_none(env: Seq<Seq<char>>, name: Seq<char>)
    requires
        forall|j: int| 0 <= j < env.len() ==> env_key(#[trigger] env[j]) != name,
    ensures
        lookup_env_spec(env, name) is None,
    decreases env.len(),
{
    if env.len() > 0 {
        let t = env.subrange(1, env.len() as int);
        assert forall|j: int| 0 <= j < t.len() implies env_key(#[trigger] t[j]) != name by {
            assert(t[j] == env[j + 1]);
        }
        lemma_lookup_env_none(t, name);
    }
}

/// Looks a name up in a list of `NAME=value` environment entries; the first
/// entry with that key wins.
pub fn lookup_env(env: &Vec<String>, name: &str) -> (r: Option<String>)
    ensures
        match r {
            Some(v) => lookup_env_spec(env.deep_view(), name@) == Some(v@),
            None => lookup_env_spec(env.deep_view(), name@) is None,
        },
{
    let n = env.len();
    let mut i: usize = 0;
    while i < n
        invariant
            i <= n,
            n == env.len(),
            forall|j: int| 0 <= j < i ==> env_key(#[trigger] env.deep_view()[j]) != name@,
        decreases n - i,
    {
        let entry = &env[i];
        let cut = split_once_char(entry.as_str(), '=');
        let key: String = match cut {
            Some(kv) => kv.0,
            None => entry.clone(),
        };
        proof {
            crate::text::lemma_first_index(entry@, '=');
            if !has_char(entry@, '=') {
                assert(env_key(entry@) =~= entry@);
            }
            assert(env.deep_view()[i as int] == entry@);
        }
        let name_owned = name.to_owned();
        if key == name_owned {
            let value: String = match split_once_char(entry.as_str(), '=') {
                Some(kv) => kv.1,
                None => String::new(),
            };
            proof {
                if !has_char(entry@, '=') {
                    assert(env_value(entry@) =~= Seq::<char>::empty());
                }
                lemma_lookup_env_at(env.deep_view(), name@, i as int);
            }
            return Some(value);
        }
        i = i + 1;
    }
    proof {
        lemma_lookup_env_none(env.deep_view(), name@);
    }
    None
}

/// The candidate paths that a PATH search produces for a bare executable
/// name: each PATH entry joined under the working directory, then joined
/// with the name, in PATH order.
pub open spec fn search_candidates_spec(path_value: Seq<char>, cwd: Seq<char>, exe: Seq<char>)
    -> Seq<Seq<char>> {
    split_on(path_value, ':').map_values(|p: Seq<char>| path_join_spec(path_join_spec(cwd, p), exe))
}

/// The candidate paths the detector will probe, or the reason none exist:
/// an executable containing a slash is resolved against the working
/// directory alone; a bare name is searched along PATH.
pub open spec fn candidates_spec(args: Seq<Seq<char>>, env: Seq<Seq<char>>, cwd: Seq<char>)
    -> Result<Seq<Seq<char>>, DetectError> {
    if args.len() == 0 {
        Err(DetectError::NoArguments)
    } else if args[0].len() == 0 {
        Err(DetectError::EmptyExecutable)
    } else if has_char(args[0], '/') {
        Ok(seq![path_join_spec(cwd, args[0])])
    } else {
        match lookup_env_spec(env, seq!['P', 'A', 'T', 'H']) {
            None => Err(DetectError::PathNotDefined),
            Some(pv) => Ok(search_candidates_spec(pv, cwd, args[0])),
        }
    }
}

/// Computes the candidate paths for the executable named by the first
/// argument, following `candidates_spec` exactly.
pub fn executable_candidates(args: &Vec<String>, env: &Vec<String>, cwd: &str) -> (r: Result<
    Vec<String>,
    DetectError,
>)
    ensures
        match r {
            Ok(v) => candidates_spec(args.deep_view(), env.deep_view(), cwd@) == Ok::<_,
                DetectError,
            >(v.deep_view()),
            Err(e) => candidates_spec(args.deep_view(), env.deep_view(), cwd@) == Err::<
                Seq<Seq<char>>,
                _,
            >(e),
        },
{
    if args.len() == 0 {
        return Err(DetectError::NoArguments);
    }
    let exe = &args[0];
    proof {
        assert(args.deep_view()[0] == exe@);
    }
    if exe.as_str().unicode_len() == 0 {
        return Err(DetectError::EmptyExecutable);
    }
    if contains_char(exe.as_str(), '/') {
        let joined = path_join(cwd, exe.as_str());
        let mut v: Vec<String> = Vec::new();
        v.push(joined);
        proof {
            assert(v.deep_view() =~= seq![path_join_spec(cwd@, exe@)]);
        }
        return Ok(v);
    }
    let path_value = lookup_env(env, "PATH");
    proof {
        reveal_strlit("PATH");
        assert("PATH"@ =~= seq!['P', 'A', 'T', 'H']);
    }
    match path_value {
        None => Err(DetectError::PathNotDefined),
        Some(pv) => {
            let entries = split_str(pv.as_str(), ':');
            let mut v: Vec<String> = Vec::new();
            let n = entries.len();
            let mut i: usize = 0;
            while i < n
                invariant
                    i <= n,
                    n == entries.len(),
                    entries@.len() == split_on(pv@, ':').len(),
                    forall|k: int| 0 <= k < entries@.len() ==> #[trigger] entries@[k]@ == split_on(
                        pv@,
                        ':',
                    )[k],
                    v.deep_view() =~= search_candidates_spec(pv@, cwd@, exe@).subrange(0, i as int),
                decreases n - i,
            {
                let dir_joined = path_join(cwd, entries[i].as_str());
                let full = path_join(dir_joined.as_str(), exe.as_str());
                let ghost prev = v.deep_view();
                v.push(full);
                proof {
                    let cs = search_candidates_spec(pv@, cwd@, exe@);
                    assert(entries@[i as int]@ == split_on(pv@, ':')[i as int]);
                    assert(full@ == cs[i as int]);
                    assert(v.deep_view() =~= prev.push(full@));
                    assert(v.deep_view() =~= cs.subrange(0, i + 1));
                }
                i = i + 1;
            }
            proof {
                assert(v.deep_view() =~= search_candidates_spec(pv@, cwd@, exe@));
            }
            Ok(v)
        },
    }
}

/// Picks the first candidate that a probe reported as a regular file:
/// the PATH-order search, decided from the probes alone.
pub fn first_match(found: &Vec<bool>) -> (r: Option<usize>)
    ensures
        match r {
            Some(i) => i < found@.len() && found@[i as int] && (forall|j: int|
                0 <= j < i ==> !found@[j]),
            None => forall|j: int| 0 <= j < found@.len() ==> !found@[j],
        },
{
    let n = found.len();
    let mut i: usize = 0;
    while i < n
        invariant
            i <= n,
            n == found.len(),
            forall|j: int| 0 <= j < i ==> !found@[j],
        decreases n - i,
    {
        if found[i] {
            return Some(i);
        }
        i = i + 1;
    }
    None
}

} // verus!
