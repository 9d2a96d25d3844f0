use shim_core::resolver::{
    parse_manifest, resolve_layers, resolve_local_manifest, select_app_source,
    single_trigger_type, AppSource, Layer, LockedApp, ResolveError, ResolvedAppSource,
};

const CONFIG_TAG: &str = "application/vnd.fermyon.spin.application.v1+config";
const MODULE_TAG: &str = "application/vnd.wasm.content.layer.v1+wasm";

fn layer(media_type: &str, digest: &str, content: &[u8]) -> Layer {
    Layer {
        media_type: media_type.to_string(),
        digest: digest.to_string(),
        content: content.to_vec(),
    }
}

#[test]
fn zero_triggers_fail_no_trigger_declared() {
    let m = parse_manifest("name = \"app\"\n").unwrap();
    assert!(m.trigger_types.is_empty());
    let resolved = ResolvedAppSource::File {
        manifest_path: "/spin.toml".to_string(),
        manifest: m,
    };
    assert_eq!(resolved.trigger_type(), Err(ResolveError::NoTriggerDeclared));
}

#[test]
fn two_trigger_types_fail_multiple_unsupported() {
    let text = "[[trigger.http]]\nroute = \"/\"\n[[trigger.redis]]\nchannel = \"c\"\n";
    let m = parse_manifest(text).unwrap();
    assert_eq!(m.trigger_types, vec!["http".to_string(), "redis".to_string()]);
    let resolved = ResolvedAppSource::File {
        manifest_path: "/spin.toml".to_string(),
        manifest: m,
    };
    assert_eq!(
        resolved.trigger_type(),
        Err(ResolveError::MultipleTriggerTypesUnsupported)
    );
}

#[test]
fn exactly_one_trigger_type_is_selected() {
    let text = "name = \"app\"\n[[trigger.http]]\nroute = \"/hello\"\n[[trigger.http]]\nroute = \"/bye\"\n";
    let m = parse_manifest(text).unwrap();
    assert_eq!(m.trigger_types, vec!["http".to_string(), "http".to_string()]);
    let resolved = ResolvedAppSource::File {
        manifest_path: "/spin.toml".to_string(),
        manifest: m,
    };
    assert_eq!(resolved.trigger_type(), Ok("http".to_string()));
}

#[test]
fn oci_trigger_types_are_selected_the_same_way() {
    let resolved = ResolvedAppSource::OciRegistry {
        locked_app: LockedApp { trigger_types: vec!["redis".to_string()] },
    };
    assert_eq!(resolved.trigger_type(), Ok("redis".to_string()));
    let resolved = ResolvedAppSource::OciRegistry {
        locked_app: LockedApp { trigger_types: vec![] },
    };
    assert_eq!(resolved.trigger_type(), Err(ResolveError::NoTriggerDeclared));
}

#[test]
fn malformed_trigger_header_is_a_parse_error() {
    assert_eq!(
        parse_manifest("[[trigger.http\n"),
        Err(ResolveError::ManifestParseError)
    );
    assert_eq!(
        parse_manifest("[[trigger.]]\n"),
        Err(ResolveError::ManifestParseError)
    );
    assert_eq!(
        parse_manifest("  [[trigger.ht tp]]\n"),
        Err(ResolveError::ManifestParseError)
    );
}

#[test]
fn trigger_headers_are_trimmed_and_ordered() {
    let m = parse_manifest("   [[trigger.sqs]]   \nx = 1\n\t[[trigger.http]]\r\n").unwrap();
    assert_eq!(m.trigger_types, vec!["sqs".to_string(), "http".to_string()]);
}

#[test]
fn missing_manifest_is_not_found() {
    assert_eq!(
        resolve_local_manifest(&None),
        Err(ResolveError::ManifestNotFound)
    );
    let m = resolve_local_manifest(&Some("[[trigger.http]]\n".to_string())).unwrap();
    assert_eq!(m.trigger_types, vec!["http".to_string()]);
}

#[test]
fn single_trigger_type_checks_distinctness() {
    assert_eq!(
        single_trigger_type(&vec![]),
        Err(ResolveError::NoTriggerDeclared)
    );
    assert_eq!(
        single_trigger_type(&vec!["http".to_string(), "http".to_string()]),
        Ok("http".to_string())
    );
    assert_eq!(
        single_trigger_type(&vec!["http".to_string(), "sqs".to_string()]),
        Err(ResolveError::MultipleTriggerTypesUnsupported)
    );
}

#[test]
fn empty_layer_set_means_local_manifest() {
    match select_app_source(vec![]) {
        AppSource::LocalManifest { path } => assert_eq!(path, "/spin.toml"),
        AppSource::OciLayers { .. } => panic!("expected the local manifest source"),
    }
    match select_app_source(vec![layer(CONFIG_TAG, "sha256:1", b"{}")]) {
        AppSource::OciLayers { layers } => assert_eq!(layers.len(), 1),
        AppSource::LocalManifest { .. } => panic!("expected the layer source"),
    }
}

#[test]
fn sources_describe_themselves() {
    let s = select_app_source(vec![]);
    assert_eq!(s.describe(), "File(/spin.toml)");
    let s = select_app_source(vec![layer(CONFIG_TAG, "sha256:1", b"{}")]);
    assert_eq!(s.describe(), "Oci");
}

#[test]
fn layer_set_needs_exactly_one_config_layer() {
    let only_modules = vec![layer(MODULE_TAG, "sha256:a", b"m1")];
    assert_eq!(
        resolve_layers(&only_modules).err(),
        Some(ResolveError::MissingConfigLayer)
    );
    let two_configs = vec![
        layer(CONFIG_TAG, "sha256:c1", b"{}"),
        layer(CONFIG_TAG, "sha256:c2", b"{}"),
    ];
    assert_eq!(
        resolve_layers(&two_configs).err(),
        Some(ResolveError::AmbiguousConfigLayer)
    );
}

#[test]
fn layer_set_routes_modules_to_the_cache() {
    let layers = vec![
        layer(MODULE_TAG, "sha256:a", b"m1"),
        layer(CONFIG_TAG, "sha256:c", b"{\"triggers\":[]}"),
        layer("application/other", "sha256:x", b"ignored"),
        layer(MODULE_TAG, "sha256:b", b"m2"),
    ];
    let r = resolve_layers(&layers).unwrap();
    assert_eq!(r.config, b"{\"triggers\":[]}".to_vec());
    assert_eq!(r.cache_entries.len(), 2);
    assert_eq!(r.cache_entries[0].digest, "sha256:a");
    assert_eq!(r.cache_entries[0].content, b"m1".to_vec());
    assert_eq!(r.cache_entries[1].digest, "sha256:b");
    assert_eq!(r.cache_entries[1].content, b"m2".to_vec());
}
