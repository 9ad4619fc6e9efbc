use cargo_metadata::{
    metadata, metadata_deps, parse_metadata, parse_output, CargoOpt, DependencyKind, Error, MetadataCommand,
};

fn doc(packages: &str, extra: &str) -> String {
    format!(r#"{{"packages": [{}], "workspace_members": [], "version": 1{}}}"#, packages, extra)
}

fn package(id: &str, deps: &str, targets: &str) -> String {
    format!(
        r#"{{"name": "p", "version": "0.1.0", "id": "{}", "source": null, "dependencies": [{}],
            "targets": [{}], "features": {{}}, "manifest_path": "/p/Cargo.toml"}}"#,
        id, deps, targets
    )
}

const LIB: &str = r#"{"kind": ["lib"], "crate_types": ["lib"], "name": "p", "src_path": "/p/src/lib.rs"}"#;

fn is_structural(r: Result<cargo_metadata::Metadata, Error>) -> bool {
    matches!(r, Err(Error::StructuralDecode(_)))
}

#[test]
fn unknown_members_are_ignored() {
    let plain = doc(&package("a", "", LIB), "");
    let target = r#"{"kind": ["lib"], "crate_types": ["lib"], "name": "p", "src_path": "/p/src/lib.rs",
                     "edition": "2018", "doctest": true}"#;
    let dep = r#"{"name": "q", "req": "^1", "kind": "build", "uses_default_features": true, "registry": null}"#;
    let mut pkg = package("a", dep, target);
    pkg.insert_str(1, r#""authors": ["x"], "#);
    let noisy = doc(&pkg, r#", "workspace_root": "/p", "extra": {"nested": [1, 2.5, null]}"#);
    let a = parse_metadata(&plain).unwrap();
    let b = parse_metadata(&noisy).unwrap();
    assert_eq!(a.packages[0].targets, b.packages[0].targets);
    assert_eq!(b.packages[0].dependencies.len(), 1);
    assert_eq!(b.packages[0].dependencies[0].kind, DependencyKind::Build);
}

#[test]
fn decode_encode_decode_is_stable() {
    let first = parse_metadata(&doc(&package("a", r#"{"name": "q", "req": "^1"}"#, LIB), "")).unwrap();
    // the same graph written back with every member present
    let written = r#"{"packages": [{"name": "p", "version": "0.1.0", "id": "a", "source": null,
        "dependencies": [{"name": "q", "source": null, "req": "^1", "kind": null, "optional": false,
                          "target": null, "rename": null}],
        "targets": [{"name": "p", "kind": ["lib"], "crate_types": ["lib"], "src_path": "/p/src/lib.rs"}],
        "features": {}, "manifest_path": "/p/Cargo.toml"}],
        "workspace_members": [], "resolve": null, "version": 1}"#;
    let second = parse_metadata(written).unwrap();
    assert_eq!(first, second);
}

#[test]
fn absent_defaults() {
    let target = r#"{"kind": ["example"], "name": "ex", "src_path": "/p/examples/ex.rs"}"#;
    let text = r#"{"packages": [PKG], "version": 1}"#.replace("PKG", &package("a", r#"{"name": "q", "req": "*"}"#, target));
    let m = parse_metadata(&text).unwrap();
    assert!(m.workspace_members.is_empty());
    assert!(m.resolve.is_none());
    assert!(m.packages[0].targets[0].crate_types.is_empty());
    let d = &m.packages[0].dependencies[0];
    assert_eq!(d.kind, DependencyKind::Normal);
    assert!(!d.optional);
    assert_eq!(d.target, None);
    assert_eq!(d.rename, None);
    assert_eq!(m.version, 1);
}

#[test]
fn dependency_kinds() {
    let deps = r#"{"name": "a", "req": "1", "kind": "normal"}, {"name": "b", "req": "1", "kind": "dev"},
                  {"name": "c", "req": "1", "kind": "build", "optional": true, "target": "cfg(unix)", "rename": "cc"}"#;
    let m = parse_metadata(&doc(&package("x", deps, LIB), "")).unwrap();
    let ds = &m.packages[0].dependencies;
    assert_eq!(ds[0].kind, DependencyKind::Normal);
    assert_eq!(ds[1].kind, DependencyKind::Development);
    assert_eq!(ds[2].kind, DependencyKind::Build);
    assert!(ds[2].optional);
    assert_eq!(ds[2].target.as_deref(), Some("cfg(unix)"));
    assert_eq!(ds[2].rename.as_deref(), Some("cc"));
    let bad = r#"{"name": "a", "req": "1", "kind": "sometimes"}"#;
    assert!(is_structural(parse_metadata(&doc(&package("x", bad, LIB), ""))));
}

#[test]
fn not_json_is_structural() {
    assert!(is_structural(parse_metadata("")));
    assert!(is_structural(parse_metadata("{\"packages\": [")));
    assert!(is_structural(parse_metadata("[1, 2]")));
}

#[test]
fn wrong_format_version_is_structural() {
    let text = doc(&package("a", "", LIB), "").replace("\"version\": 1}", "\"version\": 2}");
    assert!(is_structural(parse_metadata(&text)));
    let text = r#"{"packages": []}"#;
    assert!(is_structural(parse_metadata(text)));
    assert!(parse_metadata(r#"{"packages": [], "version": 1}"#).is_ok());
}

#[test]
fn missing_required_member_is_structural() {
    let target = r#"{"kind": ["lib"], "name": "p"}"#;
    assert!(is_structural(parse_metadata(&doc(&package("a", "", target), ""))));
    let text = doc(&package("a", "", LIB), "").replace("\"manifest_path\"", "\"manifest\"");
    assert!(is_structural(parse_metadata(&text)));
}

#[test]
fn duplicate_package_ids_are_structural() {
    let two = format!("{}, {}", package("a", "", LIB), package("a", "", LIB));
    assert!(is_structural(parse_metadata(&doc(&two, ""))));
}

#[test]
fn unknown_workspace_member_is_structural() {
    let text = doc(&package("a", "", LIB), "").replace("\"workspace_members\": []", "\"workspace_members\": [\"b\"]");
    assert!(is_structural(parse_metadata(&text)));
    let text = doc(&package("a", "", LIB), "").replace("\"workspace_members\": []", "\"workspace_members\": [\"a\"]");
    assert!(parse_metadata(&text).is_ok());
}

#[test]
fn dangling_node_dependency_is_structural() {
    let ok = r#", "resolve": {"nodes": [{"id": "a", "dependencies": []}]}"#;
    assert!(parse_metadata(&doc(&package("a", "", LIB), ok)).is_ok());
    let dangling = r#", "resolve": {"nodes": [{"id": "a", "dependencies": ["zzz"]}]}"#;
    assert!(is_structural(parse_metadata(&doc(&package("a", "", LIB), dangling))));
    let unknown_node = r#", "resolve": {"nodes": [{"id": "b", "dependencies": []}]}"#;
    assert!(is_structural(parse_metadata(&doc(&package("a", "", LIB), unknown_node))));
}

#[test]
fn invalid_utf8_is_encoding() {
    let r = parse_output(true, vec![b'{', 0xff, b'}'], &Vec::new());
    assert!(matches!(r, Err(Error::Encoding)));
}

#[test]
fn failure_status_wins_over_output() {
    let out = doc(&package("a", "", LIB), "").into_bytes();
    let r = parse_output(false, out, &b"  boom \n".to_vec());
    assert_eq!(r, Err(Error::ToolReported("boom".to_string())));
}

#[test]
fn failure_with_invalid_utf8_stderr() {
    let r = parse_output(false, Vec::new(), &vec![b'e', 0xff, b' ']);
    assert_eq!(r, Err(Error::ToolReported("e\u{fffd}".to_string())));
}

#[test]
fn error_message() {
    assert_eq!(Error::ToolReported("x".to_string()).message(), "x");
    assert_eq!(Error::StructuralDecode("y".to_string()).message(), "y");
    assert!(!Error::Encoding.message().is_empty());
}

#[test]
fn plain_entry_points() {
    let m = metadata(Some("a/Cargo.toml".to_string()));
    assert_eq!(m.args(), vec!["metadata", "--no-deps", "--format-version", "1", "--manifest-path", "a/Cargo.toml"]);
    let m = metadata_deps(None, true);
    assert_eq!(m.args(), vec!["metadata", "--format-version", "1"]);
    assert_eq!(metadata_deps(None, false).args(), metadata(None).args());
}

#[test]
fn feature_flags() {
    let cmd = MetadataCommand::new().features(CargoOpt::SomeFeatures(vec!["a".to_string(), "b".to_string()]));
    assert_eq!(cmd.args(), vec!["metadata", "--format-version", "1", "--features", "a", "--features", "b"]);
    let cmd = MetadataCommand::new().no_deps().features(CargoOpt::NoDefaultFeatures);
    assert_eq!(cmd.args(), vec!["metadata", "--no-deps", "--format-version", "1", "--no-default-features"]);
    let cmd = MetadataCommand::new().features(CargoOpt::SomeFeatures(Vec::new()));
    assert_eq!(cmd.args(), vec!["metadata", "--format-version", "1"]);
}

#[test]
fn program_resolution() {
    let cmd = MetadataCommand::new();
    assert_eq!(cmd.program(None), "cargo");
    assert_eq!(cmd.program(Some("/env/cargo".to_string())), "/env/cargo");
    let cmd = cmd.cargo_path("/my/cargo".to_string());
    assert_eq!(cmd.program(Some("/env/cargo".to_string())), "/my/cargo");
}
