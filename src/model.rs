use vstd::prelude::*;

verus! {

/// The texts that a vector of strings holds.
pub open spec fn texts(v: Seq<String>) -> Seq<Seq<char>> {
    v.map_values(|s: String| s@)
}

/// The text that an optional string holds.
pub open spec fn opt_text(o: Option<String>) -> Option<Seq<char>> {
    match o {
        Some(s) => Some(s@),
        None => None,
    }
}

/// A single target (lib, bin, example, ...) provided by a package.
#[derive(Clone, Debug, PartialEq, Eq)]
pub struct Target {
    /// Name as given in the manifest or generated from the file name
    pub name: String,
    /// Kind of target ("bin", "example", "test", "bench", "lib")
    pub kind: Vec<String>,
    /// Kinds of artifact built; empty where the tool reports none
    pub crate_types: Vec<String>,
    /// Path to the main source file of the target
    pub src_path: String,
}

pub struct TargetView {
    pub name: Seq<char>,
    pub kind: Seq<Seq<char>>,
    pub crate_types: Seq<Seq<char>>,
    pub src_path: Seq<char>,
}

impl View for Target {
    type V = TargetView;

    open spec fn view(&self) -> TargetView {
        TargetView {
            name: self.name@,
            kind: texts(self.kind@),
            crate_types: texts(self.crate_types@),
            src_path: self.src_path@,
        }
    }
}

/// How a package depends on another.
#[derive(Clone, Copy, Debug, PartialEq, Eq, Structural)]
pub enum DependencyKind {
    /// An ordinary dependency
    Normal,
    /// A dependency of tests, examples and benchmarks only
    Development,
    /// A dependency of the build script
    Build,
}

/// A dependency of a package, as its manifest declares it.
#[derive(Clone, Debug, PartialEq, Eq)]
pub struct Dependency {
    /// Name of the package depended on
    pub name: String,
    /// Where the package comes from; absent for a local path
    pub source: Option<String>,
    /// The version requirement, as written
    pub req: String,
    /// Whether it is a normal, development or build dependency
    pub kind: DependencyKind,
    /// Whether the dependency is optional
    pub optional: bool,
    /// The platform the dependency is restricted to, if any
    pub target: Option<String>,
    /// The name the package is known under, where it is renamed
    pub rename: Option<String>,
}

pub struct DependencyView {
    pub name: Seq<char>,
    pub source: Option<Seq<char>>,
    pub req: Seq<char>,
    pub kind: DependencyKind,
    pub optional: bool,
    pub target: Option<Seq<char>>,
    pub rename: Option<Seq<char>>,
}

impl View for Dependency {
    type V = DependencyView;

    open spec fn view(&self) -> DependencyView {
        DependencyView {
            name: self.name@,
            source: opt_text(self.source),
            req: self.req@,
            kind: self.kind,
            optional: self.optional,
            target: opt_text(self.target),
            rename: opt_text(self.rename),
        }
    }
}

/// The features of a package: each name, with the names it enables.
pub open spec fn feature_texts(f: Seq<(String, Vec<String>)>) -> Seq<(Seq<char>, Seq<Seq<char>>)> {
    f.map_values(|e: (String, Vec<String>)| (e.0@, texts(e.1@)))
}

/// A package.
#[derive(Clone, Debug, PartialEq, Eq)]
pub struct Package {
    /// Name as given in the manifest
    pub name: String,
    /// Version given in the manifest
    pub version: String,
    /// An opaque identifier for a package
    pub id: String,
    /// Where the package comes from; absent for a local path
    pub source: Option<String>,
    /// List of dependencies of this particular package
    pub dependencies: Vec<Dependency>,
    /// Targets provided by the package (lib, bin, example, test, ...)
    pub targets: Vec<Target>,
    /// Each feature, with the features it enables
    pub features: Vec<(String, Vec<String>)>,
    /// Path of the package's manifest
    pub manifest_path: String,
}

pub struct PackageView {
    pub name: Seq<char>,
    pub version: Seq<char>,
    pub id: Seq<char>,
    pub source: Option<Seq<char>>,
    pub dependencies: Seq<DependencyView>,
    pub targets: Seq<TargetView>,
    pub features: Seq<(Seq<char>, Seq<Seq<char>>)>,
    pub manifest_path: Seq<char>,
}

impl View for Package {
    type V = PackageView;

    open spec fn view(&self) -> PackageView {
        PackageView {
            name: self.name@,
            version: self.version@,
            id: self.id@,
            source: opt_text(self.source),
            dependencies: self.dependencies@.map_values(|d: Dependency| d@),
            targets: self.targets@.map_values(|t: Target| t@),
            features: feature_texts(self.features@),
            manifest_path: self.manifest_path@,
        }
    }
}

/// A node in a dependency graph.
#[derive(Clone, Debug, PartialEq, Eq)]
pub struct Node {
    /// An opaque identifier for a package
    pub id: String,
    /// List of opaque identifiers for this node's dependencies
    pub dependencies: Vec<String>,
}

pub struct NodeView {
    pub id: Seq<char>,
    pub dependencies: Seq<Seq<char>>,
}

impl View for Node {
    type V = NodeView;

    open spec fn view(&self) -> NodeView {
        NodeView { id: self.id@, dependencies: texts(self.dependencies@) }
    }
}

/// A dependency graph.
#[derive(Clone, Debug, PartialEq, Eq)]
pub struct Resolve {
    /// Nodes in a dependency graph
    pub nodes: Vec<Node>,
}

impl View for Resolve {
    type V = Seq<NodeView>;

    open spec fn view(&self) -> Seq<NodeView> {
        self.nodes@.map_values(|n: Node| n@)
    }
}

/// Starting point for the metadata that the tool reports.
#[derive(Clone, Debug, PartialEq, Eq)]
pub struct Metadata {
    /// A list of all packages referenced by this package (and the package itself)
    pub packages: Vec<Package>,
    /// A list of all workspace members
    pub workspace_members: Vec<String>,
    /// Dependency graph, present where dependencies were resolved
    pub resolve: Option<Resolve>,
    /// The version of the report's format
    pub version: u64,
}

pub struct MetadataView {
    pub packages: Seq<PackageView>,
    pub workspace_members: Seq<Seq<char>>,
    pub resolve: Option<Seq<NodeView>>,
    pub version: nat,
}

impl View for Metadata {
    type V = MetadataView;

    open spec fn view(&self) -> MetadataView {
        MetadataView {
            packages: self.packages@.map_values(|p: Package| p@),
            workspace_members: texts(self.workspace_members@),
            resolve: match self.resolve {
                Some(r) => Some(r@),
                None => None,
            },
            version: self.version as nat,
        }
    }
}

} // verus!
