use cargo_metadata::{parse_metadata, parse_output, CargoOpt, DependencyKind, Error, Metadata, MetadataCommand};
use semver::{Version, VersionReq};

const SELF_NO_DEPS: &str = r#"{
  "packages": [
    {
      "name": "cargo_metadata",
      "version": "0.5.0",
      "id": "cargo_metadata 0.5.0 (path+file:///work/cargo_metadata)",
      "license": "MIT",
      "source": null,
      "dependencies": [
        {"name": "serde", "source": "registry+https://github.com/rust-lang/crates.io-index",
         "req": ">=1.0, <2.0", "kind": null, "rename": null, "optional": false,
         "uses_default_features": true, "features": [], "target": null},
        {"name": "semver", "source": "registry+https://github.com/rust-lang/crates.io-index",
         "req": "^1", "kind": "dev", "optional": false,
         "uses_default_features": true, "features": [], "target": null}
      ],
      "targets": [
        {"kind": ["lib"], "crate_types": ["lib"], "name": "cargo_metadata",
         "src_path": "/work/cargo_metadata/src/lib.rs", "edition": "2015"},
        {"kind": ["test"], "crate_types": ["bin"], "name": "selftest",
         "src_path": "/work/cargo_metadata/tests/selftest.rs", "edition": "2015"}
      ],
      "features": {},
      "manifest_path": "/work/cargo_metadata/Cargo.toml",
      "metadata": {"cargo_metadata_test": {"some_field": true, "other_field": "foo"}}
    }
  ],
  "workspace_members": ["cargo_metadata 0.5.0 (path+file:///work/cargo_metadata)"],
  "resolve": null,
  "target_directory": "/work/cargo_metadata/target",
  "version": 1,
  "workspace_root": "/work/cargo_metadata"
}"#;

const SELF_WITH_DEPS: &str = r#"{
  "packages": [
    {
      "name": "serde",
      "version": "1.0.27",
      "id": "serde 1.0.27 (registry+https://github.com/rust-lang/crates.io-index)",
      "source": "registry+https://github.com/rust-lang/crates.io-index",
      "dependencies": [],
      "targets": [{"kind": ["lib"], "crate_types": ["lib"], "name": "serde", "src_path": "/reg/serde/src/lib.rs"}],
      "features": {"default": ["std"], "std": []},
      "manifest_path": "/reg/serde/Cargo.toml"
    },
    {
      "name": "cargo_metadata",
      "version": "0.5.0",
      "id": "cargo_metadata 0.5.0 (path+file:///work/cargo_metadata)",
      "source": null,
      "dependencies": [
        {"name": "serde", "source": "registry+https://github.com/rust-lang/crates.io-index",
         "req": ">=1.0.1, <2.0", "kind": null, "optional": false, "target": null}
      ],
      "targets": [
        {"kind": ["lib"], "crate_types": ["lib"], "name": "cargo_metadata",
         "src_path": "/work/cargo_metadata/src/lib.rs"},
        {"kind": ["test"], "crate_types": ["bin"], "name": "selftest",
         "src_path": "/work/cargo_metadata/tests/selftest.rs"}
      ],
      "features": {},
      "manifest_path": "/work/cargo_metadata/Cargo.toml"
    }
  ],
  "workspace_members": ["cargo_metadata 0.5.0 (path+file:///work/cargo_metadata)"],
  "resolve": {
    "nodes": [
      {"id": "cargo_metadata 0.5.0 (path+file:///work/cargo_metadata)",
       "dependencies": ["serde 1.0.27 (registry+https://github.com/rust-lang/crates.io-index)"]},
      {"id": "serde 1.0.27 (registry+https://github.com/rust-lang/crates.io-index)", "dependencies": []}
    ],
    "root": "cargo_metadata 0.5.0 (path+file:///work/cargo_metadata)"
  },
  "version": 1
}"#;

fn find_package<'a>(metadata: &'a Metadata, id: &str) -> &'a cargo_metadata::Package {
    metadata.packages.iter().find(|p| p.id == id).expect("no package with that id")
}

fn strings(v: &[&str]) -> Vec<String> {
    v.iter().map(|s| s.to_string()).collect()
}

#[test]
fn metadata() {
    let metadata = parse_output(true, SELF_NO_DEPS.as_bytes().to_vec(), &Vec::new()).unwrap();

    assert_eq!(metadata.packages[0].name, "cargo_metadata");
    assert_eq!(metadata.packages[0].targets.len(), 2);

    assert_eq!(metadata.packages[0].targets[0].name, "cargo_metadata");
    assert_eq!(metadata.packages[0].targets[0].kind[0], "lib");
    assert_eq!(metadata.packages[0].targets[0].crate_types[0], "lib");

    assert_eq!(metadata.packages[0].targets[1].name, "selftest");
    assert_eq!(metadata.packages[0].targets[1].kind[0], "test");
    assert_eq!(metadata.packages[0].targets[1].crate_types[0], "bin");
    assert!(metadata.resolve.is_none());
}

#[test]
fn builder_interface() {
    let cmd = MetadataCommand::new().manifest_path("Cargo.toml".to_string());
    assert_eq!(cmd.args(), strings(&["metadata", "--format-version", "1", "--manifest-path", "Cargo.toml"]));
    let cmd = MetadataCommand::new().manifest_path(String::from("Cargo.toml")).no_deps();
    assert_eq!(
        cmd.args(),
        strings(&["metadata", "--no-deps", "--format-version", "1", "--manifest-path", "Cargo.toml"])
    );
    let cmd = MetadataCommand::new().manifest_path("Cargo.toml".to_string()).features(CargoOpt::AllFeatures);
    assert_eq!(
        cmd.args(),
        strings(&["metadata", "--format-version", "1", "--manifest-path", "Cargo.toml", "--all-features"])
    );
    let cmd = MetadataCommand::new().manifest_path("Cargo.toml".to_string()).current_dir("/work".to_string());
    assert_eq!(cmd.current_dir, Some("/work".to_string()));
    assert_eq!(cmd.args(), strings(&["metadata", "--format-version", "1", "--manifest-path", "Cargo.toml"]));
}

#[test]
fn error1() {
    let stderr = b"error: the manifest-path must be a path to a Cargo.toml file\n".to_vec();
    match parse_output(false, Vec::new(), &stderr) {
        Err(Error::ToolReported(s)) => assert_eq!(
            s.trim(),
            "error: the manifest-path must be a path to a Cargo.toml file"
        ),
        _ => unreachable!(),
    }
}

#[test]
fn error2() {
    let stderr = b"error: manifest path `foo/Cargo.toml` does not exist\n".to_vec();
    match parse_output(false, Vec::new(), &stderr) {
        Err(Error::ToolReported(s)) => assert_eq!(
            s.trim(),
            "error: manifest path `foo/Cargo.toml` does not exist"
        ),
        _ => unreachable!(),
    }
}

#[test]
fn metadata_deps() {
    let metadata = parse_output(true, SELF_WITH_DEPS.as_bytes().to_vec(), &Vec::new()).unwrap();
    let this_id = metadata.workspace_members.first().expect("Did not find ourselves");
    let this = find_package(&metadata, this_id);

    assert_eq!(this.name, "cargo_metadata");
    assert_eq!(this.targets.len(), 2);

    assert_eq!(this.targets[0].name, "cargo_metadata");
    assert_eq!(this.targets[0].kind[0], "lib");
    assert_eq!(this.targets[0].crate_types[0], "lib");

    assert_eq!(this.targets[1].name, "selftest");
    assert_eq!(this.targets[1].kind[0], "test");
    assert_eq!(this.targets[1].crate_types[0], "bin");

    let dependencies = &this.dependencies;

    let serde = dependencies
        .iter()
        .find(|dep| dep.name == "serde")
        .expect("Did not find serde dependency");

    assert_eq!(serde.kind, DependencyKind::Normal);
    let req = VersionReq::parse(&serde.req).unwrap();
    assert!(!req.matches(&Version::parse("1.0.0").unwrap()));
    assert!(req.matches(&Version::parse("1.99.99").unwrap()));
    assert!(!req.matches(&Version::parse("2.0.0").unwrap()));
}

#[test]
fn workspace_members_are_packages() {
    let metadata = parse_metadata(SELF_WITH_DEPS).unwrap();
    assert!(!metadata.workspace_members.is_empty());
    for m in &metadata.workspace_members {
        assert!(metadata.packages.iter().any(|p| &p.id == m));
    }
    let nodes = &metadata.resolve.as_ref().unwrap().nodes;
    assert_eq!(nodes.len(), 2);
    assert_eq!(nodes[0].dependencies, strings(&["serde 1.0.27 (registry+https://github.com/rust-lang/crates.io-index)"]));
}

#[test]
fn features_are_decoded() {
    let metadata = parse_metadata(SELF_WITH_DEPS).unwrap();
    let serde = &metadata.packages[0];
    assert_eq!(serde.features.len(), 2);
    assert!(serde.features.contains(&("default".to_string(), strings(&["std"]))));
    assert!(serde.features.contains(&("std".to_string(), Vec::new())));
    assert_eq!(serde.source.as_deref(), Some("registry+https://github.com/rust-lang/crates.io-index"));
    assert_eq!(metadata.packages[1].source, None);
}
