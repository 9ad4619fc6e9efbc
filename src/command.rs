use vstd::prelude::*;
use crate::model::{opt_text, texts};

verus! {

/// Which features the tool enables.
#[derive(Clone, Debug, PartialEq, Eq)]
pub enum CargoOpt {
    /// Every feature of every package
    AllFeatures,
    /// No feature that is on by default
    NoDefaultFeatures,
    /// These features, beside the default ones
    SomeFeatures(Vec<String>),
}

/// The executable's name where nothing else names it.
pub open spec fn default_program() -> Seq<char> {
    "cargo"@
}

/// A `--features` flag with each name, in order.
pub open spec fn feature_list_args(names: Seq<Seq<char>>) -> Seq<Seq<char>>
    decreases names.len(),
{
    if names.len() == 0 {
        Seq::empty()
    } else {
        feature_list_args(names.drop_last()) + seq!["--features"@, names.last()]
    }
}

/// The flags that select features.
pub open spec fn feature_args(f: Option<CargoOpt>) -> Seq<Seq<char>> {
    match f {
        None => Seq::empty(),
        Some(CargoOpt::AllFeatures) => seq!["--all-features"@],
        Some(CargoOpt::NoDefaultFeatures) => seq!["--no-default-features"@],
        Some(CargoOpt::SomeFeatures(names)) => feature_list_args(texts(names@)),
    }
}

/// The tool's arguments:
/// `metadata [--no-deps] --format-version 1 [--manifest-path <path>] [feature flags]`.
pub open spec fn command_args(no_deps: bool, manifest_path: Option<Seq<char>>, features: Option<CargoOpt>) -> Seq<Seq<char>> {
    seq!["metadata"@]
        + (if no_deps { seq!["--no-deps"@] } else { Seq::empty() })
        + seq!["--format-version"@, "1"@]
        + match manifest_path {
            Some(p) => seq!["--manifest-path"@, p],
            None => Seq::empty(),
        }
        + feature_args(features)
}

/// How to run the tool's `metadata` subcommand. Each setter returns the
/// updated configuration; running it is left to the caller.
#[derive(Clone, Debug, PartialEq, Eq)]
pub struct MetadataCommand {
    /// The executable to run, where given explicitly
    pub cargo_path: Option<String>,
    /// The manifest to read; the tool finds one itself where absent
    pub manifest_path: Option<String>,
    /// The directory to run the tool in; the caller's where absent
    pub current_dir: Option<String>,
    /// Whether to skip resolving dependencies
    pub no_deps: bool,
    /// Which features to enable; the default ones where absent
    pub features: Option<CargoOpt>,
}

impl MetadataCommand {
    /// A configuration with every option at its default: dependencies resolved.
    pub fn new() -> (r: MetadataCommand)
        ensures
            r.cargo_path is None,
            r.manifest_path is None,
            r.current_dir is None,
            !r.no_deps,
            r.features is None,
    {
        MetadataCommand { cargo_path: None, manifest_path: None, current_dir: None, no_deps: false, features: None }
    }

    /// Runs this executable instead of the default one.
    pub fn cargo_path(self, path: String) -> (r: MetadataCommand)
        ensures
            r == (MetadataCommand { cargo_path: Some(path), ..self }),
    {
        MetadataCommand { cargo_path: Some(path), ..self }
    }

    /// Reads this manifest.
    pub fn manifest_path(self, path: String) -> (r: MetadataCommand)
        ensures
            r == (MetadataCommand { manifest_path: Some(path), ..self }),
    {
        MetadataCommand { manifest_path: Some(path), ..self }
    }

    /// Runs the tool in this directory.
    pub fn current_dir(self, path: String) -> (r: MetadataCommand)
        ensures
            r == (MetadataCommand { current_dir: Some(path), ..self }),
    {
        MetadataCommand { current_dir: Some(path), ..self }
    }

    /// Skips resolving dependencies.
    pub fn no_deps(self) -> (r: MetadataCommand)
        ensures
            r == (MetadataCommand { no_deps: true, ..self }),
    {
        MetadataCommand { no_deps: true, ..self }
    }

    /// Selects features.
    pub fn features(self, features: CargoOpt) -> (r: MetadataCommand)
        ensures
            r == (MetadataCommand { features: Some(features), ..self }),
    {
        MetadataCommand { features: Some(features), ..self }
    }

    /// The executable to run: the explicit one, else `from_env` (the value
    /// of the environment variable that names it), else `cargo`.
    pub fn program(&self, from_env: Option<String>) -> (r: String)
        ensures
            r@ == match (opt_text(self.cargo_path), opt_text(from_env)) {
                (Some(p), _) => p,
                (None, Some(p)) => p,
                (None, None) => default_program(),
            },
    {
        match &self.cargo_path {
            Some(p) => p.clone(),
            None => match from_env {
                Some(p) => p,
                None => "cargo".to_owned(),
            },
        }
    }

    /// The argument vector that runs the tool with this configuration.
    pub fn args(&self) -> (r: Vec<String>)
        ensures
            texts(r@) == command_args(self.no_deps, opt_text(self.manifest_path), self.features),
    {
        let mut out: Vec<String> = Vec::new();
        out.push("metadata".to_owned());
        if self.no_deps {
            out.push("--no-deps".to_owned());
        }
        out.push("--format-version".to_owned());
        out.push("1".to_owned());
        let ghost before_path = texts(out@);
        match &self.manifest_path {
            Some(p) => {
                out.push("--manifest-path".to_owned());
                out.push(p.clone());
            },
            None => {},
        }
        let ghost before_features = texts(out@);
        assert(before_features =~= seq!["metadata"@]
            + (if self.no_deps { seq!["--no-deps"@] } else { Seq::empty() })
            + seq!["--format-version"@, "1"@]
            + match opt_text(self.manifest_path) {
                Some(p) => seq!["--manifest-path"@, p],
                None => Seq::<Seq<char>>::empty(),
            });
        match &self.features {
            None => {},
            Some(CargoOpt::AllFeatures) => out.push("--all-features".to_owned()),
            Some(CargoOpt::NoDefaultFeatures) => out.push("--no-default-features".to_owned()),
            Some(CargoOpt::SomeFeatures(names)) => {
                let mut i: usize = 0;
                while i < names.len()
                    invariant
                        i <= names.len(),
                        texts(out@) == before_features + feature_list_args(texts(names@).take(i as int)),
                    decreases names.len() - i,
                {
                    let ghost prev = texts(out@);
                    out.push("--features".to_owned());
                    let name = names[i].clone();
                    assert(name@ == names@[i as int]@);
                    out.push(name);
                    proof {
                        let next = texts(names@).take(i + 1);
                        assert(next.drop_last() =~= texts(names@).take(i as int));
                        assert(next.last() == names@[i as int]@);
                        assert(texts(out@) =~= prev + seq!["--features"@, names@[i as int]@]);
                        assert(texts(out@) =~= before_features + feature_list_args(next));
                    }
                    i = i + 1;
                }
                assert(texts(names@).take(names.len() as int) =~= texts(names@));
            },
        }
        assert(texts(out@) =~= command_args(self.no_deps, opt_text(self.manifest_path), self.features));
        out
    }
}

/// The configuration for metadata without dependency resolution.
pub fn metadata(manifest_path: Option<String>) -> (r: MetadataCommand)
    ensures
        r.no_deps,
        r.manifest_path == manifest_path,
        r.cargo_path is None,
        r.current_dir is None,
        r.features is None,
{
    metadata_deps(manifest_path, false)
}

/// The configuration for metadata, with dependencies resolved where `deps` holds.
pub fn metadata_deps(manifest_path: Option<String>, deps: bool) -> (r: MetadataCommand)
    ensures
        r.no_deps == !deps,
        r.manifest_path == manifest_path,
        r.cargo_path is None,
        r.current_dir is None,
        r.features is None,
{
    MetadataCommand { cargo_path: None, manifest_path, current_dir: None, no_deps: !deps, features: None }
}

} // verus!
