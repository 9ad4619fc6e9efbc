use vstd::prelude::*;
use crate::json::{
    key_is,    JsonModel, array_items, bool_value, field, get_field, is_null_value, json_of, object_members,
    string_value, unsigned_value,
};
use crate::model::{
    Dependency, DependencyKind, DependencyView, Metadata, MetadataView, Node, NodeView, Package,
    PackageView, Resolve, Target, TargetView, feature_texts, opt_text, texts,
};

verus! {

/// The members of an object value, as a model.
pub open spec fn members_of(es: Seq<(String, serde_json::Value)>) -> Seq<(Seq<char>, JsonModel)> {
    es.map_values(|e: (String, serde_json::Value)| (e.0@, json_of(e.1)))
}

/// The items of an array value, as a model.
pub open spec fn items_of(xs: Seq<serde_json::Value>) -> Seq<JsonModel> {
    xs.map_values(|x: serde_json::Value| json_of(x))
}

pub open spec fn text_of(j: JsonModel) -> Option<Seq<char>> {
    match j {
        JsonModel::Str(s) => Some(s),
        _ => None,
    }
}

/// An array of strings.
pub open spec fn texts_of(j: JsonModel) -> Option<Seq<Seq<char>>> {
    match j {
        JsonModel::Arr(xs) => {
            if forall|i: int| 0 <= i < xs.len() ==> (#[trigger] xs[i]) is Str {
                Some(xs.map_values(|x: JsonModel| x->Str_0))
            } else {
                None
            }
        },
        _ => None,
    }
}

/// A member that must be present and hold a string.
pub open spec fn req_text(es: Seq<(Seq<char>, JsonModel)>, k: Seq<char>) -> Option<Seq<char>> {
    match field(es, k) {
        Some(j) => text_of(j),
        None => None,
    }
}

/// A member that may be absent or null, or else holds a string.
pub open spec fn opt_text_field(es: Seq<(Seq<char>, JsonModel)>, k: Seq<char>) -> Option<Option<Seq<char>>> {
    match field(es, k) {
        None => Some(None),
        Some(JsonModel::Null) => Some(None),
        Some(JsonModel::Str(s)) => Some(Some(s)),
        _ => None,
    }
}

/// A member that must be present and hold an array of strings.
pub open spec fn req_texts(es: Seq<(Seq<char>, JsonModel)>, k: Seq<char>) -> Option<Seq<Seq<char>>> {
    match field(es, k) {
        Some(j) => texts_of(j),
        None => None,
    }
}

/// A member that defaults to the empty array where absent.
pub open spec fn default_texts(es: Seq<(Seq<char>, JsonModel)>, k: Seq<char>) -> Option<Seq<Seq<char>>> {
    match field(es, k) {
        Some(j) => texts_of(j),
        None => Some(Seq::empty()),
    }
}

pub open spec fn decode_target(j: JsonModel) -> Option<TargetView> {
    match j {
        JsonModel::Obj(es) => {
            if req_text(es, "name"@) is Some && req_texts(es, "kind"@) is Some
                && default_texts(es, "crate_types"@) is Some && req_text(es, "src_path"@) is Some {
                Some(TargetView {
                    name: req_text(es, "name"@)->Some_0,
                    kind: req_texts(es, "kind"@)->Some_0,
                    crate_types: default_texts(es, "crate_types"@)->Some_0,
                    src_path: req_text(es, "src_path"@)->Some_0,
                })
            } else {
                None
            }
        },
        _ => None,
    }
}


/// An array of targets.
pub open spec fn decode_targets(j: JsonModel) -> Option<Seq<TargetView>> {
    match j {
        JsonModel::Arr(xs) => {
            if forall|i: int| 0 <= i < xs.len() ==> (#[trigger] decode_target(xs[i])) is Some {
                Some(xs.map_values(|x: JsonModel| decode_target(x)->Some_0))
            } else {
                None
            }
        },
        _ => None,
    }
}

/// The kind of a dependency: normal where absent or null.
pub open spec fn dependency_kind(es: Seq<(Seq<char>, JsonModel)>) -> Option<DependencyKind> {
    match field(es, "kind"@) {
        None => Some(DependencyKind::Normal),
        Some(JsonModel::Null) => Some(DependencyKind::Normal),
        Some(JsonModel::Str(s)) => {
            if s == "normal"@ {
                Some(DependencyKind::Normal)
            } else if s == "dev"@ {
                Some(DependencyKind::Development)
            } else if s == "build"@ {
                Some(DependencyKind::Build)
            } else {
                None
            }
        },
        _ => None,
    }
}

/// A boolean member that is false where absent.
pub open spec fn flag(es: Seq<(Seq<char>, JsonModel)>, k: Seq<char>) -> Option<bool> {
    match field(es, k) {
        None => Some(false),
        Some(JsonModel::Bool(b)) => Some(b),
        _ => None,
    }
}

pub open spec fn decode_dependency(j: JsonModel) -> Option<DependencyView> {
    match j {
        JsonModel::Obj(es) => {
            if req_text(es, "name"@) is Some && opt_text_field(es, "source"@) is Some
                && req_text(es, "req"@) is Some && dependency_kind(es) is Some
                && flag(es, "optional"@) is Some && opt_text_field(es, "target"@) is Some
                && opt_text_field(es, "rename"@) is Some {
                Some(DependencyView {
                    name: req_text(es, "name"@)->Some_0,
                    source: opt_text_field(es, "source"@)->Some_0,
                    req: req_text(es, "req"@)->Some_0,
                    kind: dependency_kind(es)->Some_0,
                    optional: flag(es, "optional"@)->Some_0,
                    target: opt_text_field(es, "target"@)->Some_0,
                    rename: opt_text_field(es, "rename"@)->Some_0,
                })
            } else {
                None
            }
        },
        _ => None,
    }
}

/// An array of dependencies.
pub open spec fn decode_dependencies(j: JsonModel) -> Option<Seq<DependencyView>> {
    match j {
        JsonModel::Arr(xs) => {
            if forall|i: int| 0 <= i < xs.len() ==> (#[trigger] decode_dependency(xs[i])) is Some {
                Some(xs.map_values(|x: JsonModel| decode_dependency(x)->Some_0))
            } else {
                None
            }
        },
        _ => None,
    }
}

/// An object whose every member holds an array of strings.
pub open spec fn decode_features(j: JsonModel) -> Option<Seq<(Seq<char>, Seq<Seq<char>>)>> {
    match j {
        JsonModel::Obj(es) => {
            if forall|i: int| 0 <= i < es.len() ==> (#[trigger] texts_of(es[i].1)) is Some {
                Some(es.map_values(|e: (Seq<char>, JsonModel)| (e.0, texts_of(e.1)->Some_0)))
            } else {
                None
            }
        },
        _ => None,
    }
}

/// A member that must be present and decode with `f`.
pub open spec fn req_with<T>(es: Seq<(Seq<char>, JsonModel)>, k: Seq<char>, f: spec_fn(JsonModel) -> Option<T>) -> Option<T> {
    match field(es, k) {
        Some(j) => f(j),
        None => None,
    }
}

pub open spec fn decode_package(j: JsonModel) -> Option<PackageView> {
    match j {
        JsonModel::Obj(es) => {
            let dependencies = req_with(es, "dependencies"@, |x: JsonModel| decode_dependencies(x));
            let targets = req_with(es, "targets"@, |x: JsonModel| decode_targets(x));
            let features = req_with(es, "features"@, |x: JsonModel| decode_features(x));
            if req_text(es, "name"@) is Some && req_text(es, "version"@) is Some
                && req_text(es, "id"@) is Some && opt_text_field(es, "source"@) is Some
                && dependencies is Some && targets is Some && features is Some
                && req_text(es, "manifest_path"@) is Some {
                Some(PackageView {
                    name: req_text(es, "name"@)->Some_0,
                    version: req_text(es, "version"@)->Some_0,
                    id: req_text(es, "id"@)->Some_0,
                    source: opt_text_field(es, "source"@)->Some_0,
                    dependencies: dependencies->Some_0,
                    targets: targets->Some_0,
                    features: features->Some_0,
                    manifest_path: req_text(es, "manifest_path"@)->Some_0,
                })
            } else {
                None
            }
        },
        _ => None,
    }
}

/// An array of packages.
pub open spec fn decode_packages(j: JsonModel) -> Option<Seq<PackageView>> {
    match j {
        JsonModel::Arr(xs) => {
            if forall|i: int| 0 <= i < xs.len() ==> (#[trigger] decode_package(xs[i])) is Some {
                Some(xs.map_values(|x: JsonModel| decode_package(x)->Some_0))
            } else {
                None
            }
        },
        _ => None,
    }
}

pub open spec fn decode_node(j: JsonModel) -> Option<NodeView> {
    match j {
        JsonModel::Obj(es) => {
            if req_text(es, "id"@) is Some && req_texts(es, "dependencies"@) is Some {
                Some(NodeView {
                    id: req_text(es, "id"@)->Some_0,
                    dependencies: req_texts(es, "dependencies"@)->Some_0,
                })
            } else {
                None
            }
        },
        _ => None,
    }
}

/// An array of nodes.
pub open spec fn decode_nodes(j: JsonModel) -> Option<Seq<NodeView>> {
    match j {
        JsonModel::Arr(xs) => {
            if forall|i: int| 0 <= i < xs.len() ==> (#[trigger] decode_node(xs[i])) is Some {
                Some(xs.map_values(|x: JsonModel| decode_node(x)->Some_0))
            } else {
                None
            }
        },
        _ => None,
    }
}

/// The dependency graph: absent or null, or an object with its nodes.
pub open spec fn decode_resolve(es: Seq<(Seq<char>, JsonModel)>) -> Option<Option<Seq<NodeView>>> {
    match field(es, "resolve"@) {
        None => Some(None),
        Some(JsonModel::Null) => Some(None),
        Some(JsonModel::Obj(rs)) => {
            match req_with(rs, "nodes"@, |x: JsonModel| decode_nodes(x)) {
                Some(nodes) => Some(Some(nodes)),
                None => None,
            }
        },
        _ => None,
    }
}

/// The one version of the report's format that this library reads.
pub const FORMAT_VERSION: u64 = 1;

/// The root object's shape, before its invariants are checked.
pub open spec fn decode_shape(j: JsonModel) -> Option<MetadataView> {
    match j {
        JsonModel::Obj(es) => {
            let packages = req_with(es, "packages"@, |x: JsonModel| decode_packages(x));
            if packages is Some && default_texts(es, "workspace_members"@) is Some
                && decode_resolve(es) is Some
                && field(es, "version"@) == Some(JsonModel::Int(FORMAT_VERSION as int)) {
                Some(MetadataView {
                    packages: packages->Some_0,
                    workspace_members: default_texts(es, "workspace_members"@)->Some_0,
                    resolve: decode_resolve(es)->Some_0,
                    version: FORMAT_VERSION as nat,
                })
            } else {
                None
            }
        },
        _ => None,
    }
}

/// Whether some package has the identifier `id`.
pub open spec fn has_id(ps: Seq<PackageView>, id: Seq<char>) -> bool {
    exists|k: int| 0 <= k < ps.len() && (#[trigger] ps[k]).id == id
}

/// The graph's invariants: package identifiers are unique, every workspace
/// member and every node names a package, and so does every dependency of a
/// node (node identifiers being package identifiers, this is the same as
/// naming a node or a package).
pub open spec fn well_formed(m: MetadataView) -> bool {
    &&& forall|i: int, k: int|
        0 <= i < k < m.packages.len() ==> (#[trigger] m.packages[i]).id != (#[trigger] m.packages[k]).id
    &&& forall|i: int| 0 <= i < m.workspace_members.len() ==> has_id(m.packages, #[trigger] m.workspace_members[i])
    &&& match m.resolve {
        None => true,
        Some(nodes) => {
            &&& forall|i: int| 0 <= i < nodes.len() ==> has_id(m.packages, (#[trigger] nodes[i]).id)
            &&& forall|i: int, k: int|
                0 <= i < nodes.len() && 0 <= k < nodes[i].dependencies.len()
                    ==> has_id(m.packages, #[trigger] nodes[i].dependencies[k])
        },
    }
}

/// What a JSON document decodes to: its shape, where that meets the invariants.
pub open spec fn decode_metadata(j: JsonModel) -> Option<MetadataView> {
    match decode_shape(j) {
        Some(m) => if well_formed(m) { Some(m) } else { None },
        None => None,
    }
}

/// A string member.
fn read_text(es: &Vec<(String, serde_json::Value)>, name: &str) -> (r: Option<String>)
    ensures
        r is Some <==> req_text(members_of(es@), name@) is Some,
        r is Some ==> req_text(members_of(es@), name@) == Some(r->Some_0@),
{
    match get_field(es, name) {
        Some(v) => string_value(v),
        None => None,
    }
}

/// An array of strings.
fn read_texts(v: &serde_json::Value) -> (r: Option<Vec<String>>)
    ensures
        r is Some <==> texts_of(json_of(*v)) is Some,
        r is Some ==> texts_of(json_of(*v)) == Some(texts(r->Some_0@)),
{
    let items = match array_items(v) {
        Some(items) => items,
        None => return None,
    };
    let ghost ms = items_of(items@);
    let mut out: Vec<String> = Vec::new();
    let mut i: usize = 0;
    while i < items.len()
        invariant
            i <= items.len(),
            ms == items_of(items@),
            json_of(*v) == JsonModel::Arr(ms),
            out@.len() == i,
            forall|k: int| 0 <= k < i ==> #[trigger] ms[k] == JsonModel::Str(out@[k]@),
        decreases items.len() - i,
    {
        match string_value(&items[i]) {
            Some(s) => out.push(s),
            None => {
                assert(!(ms[i as int] is Str));
                return None;
            },
        }
        i = i + 1;
    }
    assert(forall|k: int| 0 <= k < ms.len() ==> ms[k] is Str);
    assert(texts(out@) =~= ms.map_values(|x: JsonModel| x->Str_0));
    Some(out)
}

/// A member that must hold an array of strings.
fn read_req_texts(es: &Vec<(String, serde_json::Value)>, name: &str) -> (r: Option<Vec<String>>)
    ensures
        r is Some <==> req_texts(members_of(es@), name@) is Some,
        r is Some ==> req_texts(members_of(es@), name@) == Some(texts(r->Some_0@)),
{
    match get_field(es, name) {
        Some(v) => read_texts(v),
        None => None,
    }
}

/// A member that holds an array of strings, empty where absent.
fn read_default_texts(es: &Vec<(String, serde_json::Value)>, name: &str) -> (r: Option<Vec<String>>)
    ensures
        r is Some <==> default_texts(members_of(es@), name@) is Some,
        r is Some ==> default_texts(members_of(es@), name@) == Some(texts(r->Some_0@)),
{
    match get_field(es, name) {
        Some(v) => read_texts(v),
        None => {
            let out: Vec<String> = Vec::new();
            assert(texts(out@) =~= Seq::<Seq<char>>::empty());
            Some(out)
        },
    }
}

/// A member that may be absent or null, or else holds a string.
fn read_opt_text(es: &Vec<(String, serde_json::Value)>, name: &str) -> (r: Option<Option<String>>)
    ensures
        r is Some <==> opt_text_field(members_of(es@), name@) is Some,
        r is Some ==> opt_text_field(members_of(es@), name@) == Some(opt_text(r->Some_0)),
{
    match get_field(es, name) {
        None => Some(None),
        Some(v) => {
            if is_null_value(v) {
                Some(None)
            } else {
                match string_value(v) {
                    Some(s) => Some(Some(s)),
                    None => None,
                }
            }
        },
    }
}

impl Target {
    /// Decodes a target from its JSON object.
    pub fn from_json(v: &serde_json::Value) -> (r: Option<Target>)
        ensures
            r is Some <==> decode_target(json_of(*v)) is Some,
            r is Some ==> decode_target(json_of(*v)) == Some(r->Some_0@),
    {
        let es = match object_members(v) {
            Some(es) => es,
            None => return None,
        };
        let name = read_text(&es, "name");
        let kind = read_req_texts(&es, "kind");
        let crate_types = read_default_texts(&es, "crate_types");
        let src_path = read_text(&es, "src_path");
        match (name, kind, crate_types, src_path) {
            (Some(name), Some(kind), Some(crate_types), Some(src_path)) => {
                Some(Target { name, kind, crate_types, src_path })
            },
            _ => None,
        }
    }
}


/// An array whose every item decodes.
fn read_targets(v: &serde_json::Value) -> (r: Option<Vec<Target>>)
    ensures
        r is Some <==> decode_targets(json_of(*v)) is Some,
        r is Some ==> decode_targets(json_of(*v)) == Some(r->Some_0@.map_values(|x: Target| x@)),
{
    let items = match array_items(v) {
        Some(items) => items,
        None => return None,
    };
    let ghost ms = items_of(items@);
    let mut out: Vec<Target> = Vec::new();
    let mut i: usize = 0;
    while i < items.len()
        invariant
            i <= items.len(),
            ms == items_of(items@),
            json_of(*v) == JsonModel::Arr(ms),
            out@.len() == i,
            forall|k: int| 0 <= k < i ==> #[trigger] decode_target(ms[k]) == Some(out@[k]@),
        decreases items.len() - i,
    {
        match Target::from_json(&items[i]) {
            Some(x) => out.push(x),
            None => {
                assert(decode_target(ms[i as int]) is None);
                return None;
            },
        }
        i = i + 1;
    }
    assert(forall|k: int| 0 <= k < ms.len() ==> decode_target(ms[k]) is Some);
    assert(out@.map_values(|x: Target| x@) =~= ms.map_values(|x: JsonModel| decode_target(x)->Some_0));
    Some(out)
}

/// An array whose every item decodes.
fn read_dependencies(v: &serde_json::Value) -> (r: Option<Vec<Dependency>>)
    ensures
        r is Some <==> decode_dependencies(json_of(*v)) is Some,
        r is Some ==> decode_dependencies(json_of(*v)) == Some(r->Some_0@.map_values(|x: Dependency| x@)),
{
    let items = match array_items(v) {
        Some(items) => items,
        None => return None,
    };
    let ghost ms = items_of(items@);
    let mut out: Vec<Dependency> = Vec::new();
    let mut i: usize = 0;
    while i < items.len()
        invariant
            i <= items.len(),
            ms == items_of(items@),
            json_of(*v) == JsonModel::Arr(ms),
            out@.len() == i,
            forall|k: int| 0 <= k < i ==> #[trigger] decode_dependency(ms[k]) == Some(out@[k]@),
        decreases items.len() - i,
    {
        match Dependency::from_json(&items[i]) {
            Some(x) => out.push(x),
            None => {
                assert(decode_dependency(ms[i as int]) is None);
                return None;
            },
        }
        i = i + 1;
    }
    assert(forall|k: int| 0 <= k < ms.len() ==> decode_dependency(ms[k]) is Some);
    assert(out@.map_values(|x: Dependency| x@) =~= ms.map_values(|x: JsonModel| decode_dependency(x)->Some_0));
    Some(out)
}

/// An array whose every item decodes.
fn read_nodes(v: &serde_json::Value) -> (r: Option<Vec<Node>>)
    ensures
        r is Some <==> decode_nodes(json_of(*v)) is Some,
        r is Some ==> decode_nodes(json_of(*v)) == Some(r->Some_0@.map_values(|x: Node| x@)),
{
    let items = match array_items(v) {
        Some(items) => items,
        None => return None,
    };
    let ghost ms = items_of(items@);
    let mut out: Vec<Node> = Vec::new();
    let mut i: usize = 0;
    while i < items.len()
        invariant
            i <= items.len(),
            ms == items_of(items@),
            json_of(*v) == JsonModel::Arr(ms),
            out@.len() == i,
            forall|k: int| 0 <= k < i ==> #[trigger] decode_node(ms[k]) == Some(out@[k]@),
        decreases items.len() - i,
    {
        match Node::from_json(&items[i]) {
            Some(x) => out.push(x),
            None => {
                assert(decode_node(ms[i as int]) is None);
                return None;
            },
        }
        i = i + 1;
    }
    assert(forall|k: int| 0 <= k < ms.len() ==> decode_node(ms[k]) is Some);
    assert(out@.map_values(|x: Node| x@) =~= ms.map_values(|x: JsonModel| decode_node(x)->Some_0));
    Some(out)
}

/// An array whose every item decodes.
fn read_packages(v: &serde_json::Value) -> (r: Option<Vec<Package>>)
    ensures
        r is Some <==> decode_packages(json_of(*v)) is Some,
        r is Some ==> decode_packages(json_of(*v)) == Some(r->Some_0@.map_values(|x: Package| x@)),
{
    let items = match array_items(v) {
        Some(items) => items,
        None => return None,
    };
    let ghost ms = items_of(items@);
    let mut out: Vec<Package> = Vec::new();
    let mut i: usize = 0;
    while i < items.len()
        invariant
            i <= items.len(),
            ms == items_of(items@),
            json_of(*v) == JsonModel::Arr(ms),
            out@.len() == i,
            forall|k: int| 0 <= k < i ==> #[trigger] decode_package(ms[k]) == Some(out@[k]@),
        decreases items.len() - i,
    {
        match Package::from_json(&items[i]) {
            Some(x) => out.push(x),
            None => {
                assert(decode_package(ms[i as int]) is None);
                return None;
            },
        }
        i = i + 1;
    }
    assert(forall|k: int| 0 <= k < ms.len() ==> decode_package(ms[k]) is Some);
    assert(out@.map_values(|x: Package| x@) =~= ms.map_values(|x: JsonModel| decode_package(x)->Some_0));
    Some(out)
}

/// An object whose every member holds an array of strings.
fn read_features(v: &serde_json::Value) -> (r: Option<Vec<(String, Vec<String>)>>)
    ensures
        r is Some <==> decode_features(json_of(*v)) is Some,
        r is Some ==> decode_features(json_of(*v)) == Some(feature_texts(r->Some_0@)),
{
    let es = match object_members(v) {
        Some(es) => es,
        None => return None,
    };
    let ghost ms = members_of(es@);
    let mut out: Vec<(String, Vec<String>)> = Vec::new();
    let mut i: usize = 0;
    while i < es.len()
        invariant
            i <= es.len(),
            ms == members_of(es@),
            json_of(*v) == JsonModel::Obj(ms),
            out@.len() == i,
            forall|k: int| 0 <= k < i ==> #[trigger] texts_of(ms[k].1) == Some(texts(out@[k].1@))
                && ms[k].0 == out@[k].0@,
        decreases es.len() - i,
    {
        match read_texts(&es[i].1) {
            Some(x) => {
                let name = es[i].0.clone();
                out.push((name, x));
            },
            None => {
                assert(texts_of(ms[i as int].1) is None);
                return None;
            },
        }
        i = i + 1;
    }
    assert(forall|k: int| 0 <= k < ms.len() ==> texts_of(ms[k].1) is Some);
    assert(feature_texts(out@) =~= ms.map_values(
        |e: (Seq<char>, JsonModel)| (e.0, texts_of(e.1)->Some_0),
    ));
    Some(out)
}

/// A boolean member that is false where absent.
fn read_flag(es: &Vec<(String, serde_json::Value)>, name: &str) -> (r: Option<bool>)
    ensures
        r == flag(members_of(es@), name@),
{
    match get_field(es, name) {
        None => Some(false),
        Some(v) => bool_value(v),
    }
}

/// The kind of a dependency: normal where absent or null.
fn read_kind(es: &Vec<(String, serde_json::Value)>) -> (r: Option<DependencyKind>)
    ensures
        r == dependency_kind(members_of(es@)),
{
    match get_field(es, "kind") {
        None => Some(DependencyKind::Normal),
        Some(v) => {
            if is_null_value(v) {
                return Some(DependencyKind::Normal);
            }
            match string_value(v) {
                Some(s) => {
                    if key_is(&s, "normal") {
                        Some(DependencyKind::Normal)
                    } else if key_is(&s, "dev") {
                        Some(DependencyKind::Development)
                    } else if key_is(&s, "build") {
                        Some(DependencyKind::Build)
                    } else {
                        None
                    }
                },
                None => None,
            }
        },
    }
}

impl Dependency {
    /// Decodes a dependency from its JSON object.
    pub fn from_json(v: &serde_json::Value) -> (r: Option<Dependency>)
        ensures
            r is Some <==> decode_dependency(json_of(*v)) is Some,
            r is Some ==> decode_dependency(json_of(*v)) == Some(r->Some_0@),
    {
        let es = match object_members(v) {
            Some(es) => es,
            None => return None,
        };
        let name = read_text(&es, "name");
        let source = read_opt_text(&es, "source");
        let req = read_text(&es, "req");
        let kind = read_kind(&es);
        let optional = read_flag(&es, "optional");
        let target = read_opt_text(&es, "target");
        let rename = read_opt_text(&es, "rename");
        match (name, source, req, kind, optional, target, rename) {
            (Some(name), Some(source), Some(req), Some(kind), Some(optional), Some(target), Some(rename)) => {
                Some(Dependency { name, source, req, kind, optional, target, rename })
            },
            _ => None,
        }
    }
}

impl Node {
    /// Decodes a node of the dependency graph from its JSON object.
    pub fn from_json(v: &serde_json::Value) -> (r: Option<Node>)
        ensures
            r is Some <==> decode_node(json_of(*v)) is Some,
            r is Some ==> decode_node(json_of(*v)) == Some(r->Some_0@),
    {
        let es = match object_members(v) {
            Some(es) => es,
            None => return None,
        };
        let id = read_text(&es, "id");
        let dependencies = read_req_texts(&es, "dependencies");
        match (id, dependencies) {
            (Some(id), Some(dependencies)) => Some(Node { id, dependencies }),
            _ => None,
        }
    }
}

impl Package {
    /// Decodes a package from its JSON object.
    pub fn from_json(v: &serde_json::Value) -> (r: Option<Package>)
        ensures
            r is Some <==> decode_package(json_of(*v)) is Some,
            r is Some ==> decode_package(json_of(*v)) == Some(r->Some_0@),
    {
        let es = match object_members(v) {
            Some(es) => es,
            None => return None,
        };
        let name = read_text(&es, "name");
        let version = read_text(&es, "version");
        let id = read_text(&es, "id");
        let source = read_opt_text(&es, "source");
        let dependencies = match get_field(&es, "dependencies") {
            Some(x) => read_dependencies(x),
            None => None,
        };
        let targets = match get_field(&es, "targets") {
            Some(x) => read_targets(x),
            None => None,
        };
        let features = match get_field(&es, "features") {
            Some(x) => read_features(x),
            None => None,
        };
        let manifest_path = read_text(&es, "manifest_path");
        match (name, version, id, source, dependencies, targets, features, manifest_path) {
            (
                Some(name),
                Some(version),
                Some(id),
                Some(source),
                Some(dependencies),
                Some(targets),
                Some(features),
                Some(manifest_path),
            ) => Some(Package { name, version, id, source, dependencies, targets, features, manifest_path }),
            _ => None,
        }
    }
}

/// The dependency graph: absent or null, or an object with its nodes.
fn read_resolve(es: &Vec<(String, serde_json::Value)>) -> (r: Option<Option<Resolve>>)
    ensures
        r is Some <==> decode_resolve(members_of(es@)) is Some,
        r is Some ==> decode_resolve(members_of(es@)) == Some(
            match r->Some_0 {
                Some(g) => Some(g@),
                None => None,
            },
        ),
{
    let v = match get_field(es, "resolve") {
        None => return Some(None),
        Some(v) => v,
    };
    if is_null_value(v) {
        return Some(None);
    }
    let rs = match object_members(v) {
        Some(rs) => rs,
        None => return None,
    };
    match get_field(&rs, "nodes") {
        Some(x) => match read_nodes(x) {
            Some(nodes) => Some(Some(Resolve { nodes })),
            None => None,
        },
        None => None,
    }
}

/// Whether some package has the identifier `id`.
fn has_package(ps: &Vec<Package>, id: &String) -> (r: bool)
    ensures
        r == has_id(ps@.map_values(|p: Package| p@), id@),
{
    let ghost vs = ps@.map_values(|p: Package| p@);
    let mut i: usize = 0;
    while i < ps.len()
        invariant
            i <= ps.len(),
            vs == ps@.map_values(|p: Package| p@),
            forall|k: int| 0 <= k < i ==> (#[trigger] vs[k]).id != id@,
        decreases ps.len() - i,
    {
        if ps[i].id.eq(id) {
            assert(vs[i as int].id == id@);
            return true;
        }
        i = i + 1;
    }
    false
}

/// Whether every string of `ids` is the identifier of a package.
fn all_known(ps: &Vec<Package>, ids: &Vec<String>) -> (r: bool)
    ensures
        r == forall|k: int| 0 <= k < ids.len() ==> has_id(ps@.map_values(|p: Package| p@), #[trigger] ids@[k]@),
{
    let mut i: usize = 0;
    while i < ids.len()
        invariant
            i <= ids.len(),
            forall|k: int| 0 <= k < i ==> has_id(ps@.map_values(|p: Package| p@), #[trigger] ids@[k]@),
        decreases ids.len() - i,
    {
        if !has_package(ps, &ids[i]) {
            return false;
        }
        i = i + 1;
    }
    true
}

/// Whether no two packages share an identifier.
fn ids_unique(ps: &Vec<Package>) -> (r: bool)
    ensures
        r == forall|i: int, k: int| 0 <= i < k < ps.len() ==> (#[trigger] ps@[i]).id@ != (#[trigger] ps@[k]).id@,
{
    let mut i: usize = 0;
    while i < ps.len()
        invariant
            i <= ps.len(),
            forall|a: int, b: int| 0 <= a < b < ps.len() && a < i ==> (#[trigger] ps@[a]).id@ != (#[trigger] ps@[b]).id@,
        decreases ps.len() - i,
    {
        let mut k: usize = i + 1;
        while k < ps.len()
            invariant
                i < ps.len(),
                i + 1 <= k <= ps.len(),
                forall|a: int, b: int| 0 <= a < b < ps.len() && a < i ==> (#[trigger] ps@[a]).id@ != (#[trigger] ps@[b]).id@,
                forall|b: int| i < b < k ==> ps@[i as int].id@ != (#[trigger] ps@[b]).id@,
            decreases ps.len() - k,
        {
            if ps[i].id.eq(&ps[k].id) {
                return false;
            }
            k = k + 1;
        }
        i = i + 1;
    }
    true
}

/// Whether a decoded graph meets its invariants.
fn check_well_formed(m: &Metadata) -> (r: bool)
    ensures
        r == well_formed(m@),
{
    let ghost mv = m@;
    let ghost vs = m.packages@.map_values(|p: Package| p@);
    assert(mv.packages == vs);
    let unique = ids_unique(&m.packages);
    assert(unique == forall|i: int, k: int| 0 <= i < k < mv.packages.len() ==> (#[trigger] mv.packages[i]).id != (#[trigger] mv.packages[k]).id) by {
        if !unique {
            let (i, k) = choose|i: int, k: int| 0 <= i < k < m.packages@.len() && (#[trigger] m.packages@[i]).id@ == (#[trigger] m.packages@[k]).id@;
            assert(mv.packages[i].id == mv.packages[k].id);
        }
    }
    if !unique {
        return false;
    }
    let members = all_known(&m.packages, &m.workspace_members);
    assert(members == forall|i: int| 0 <= i < mv.workspace_members.len() ==> has_id(mv.packages, #[trigger] mv.workspace_members[i])) by {
        if members {
            assert forall|i: int| 0 <= i < mv.workspace_members.len() implies has_id(mv.packages, #[trigger] mv.workspace_members[i]) by {
                assert(mv.workspace_members[i] == m.workspace_members@[i]@);
            }
        } else {
            let i = choose|i: int| 0 <= i < m.workspace_members@.len() && !has_id(vs, #[trigger] m.workspace_members@[i]@);
            assert(mv.workspace_members[i] == m.workspace_members@[i]@);
        }
    }
    if !members {
        return false;
    }
    match &m.resolve {
        None => true,
        Some(g) => {
            let ghost nodes = g@;
            assert(mv.resolve == Some(nodes));
            let mut i: usize = 0;
            while i < g.nodes.len()
                invariant
                    i <= g.nodes.len(),
                    nodes == g.nodes@.map_values(|n: Node| n@),
                    mv == m@,
                    mv.resolve == Some(nodes),
                    mv.packages == vs,
                    vs == m.packages@.map_values(|p: Package| p@),
                    forall|a: int| 0 <= a < i ==> has_id(vs, (#[trigger] nodes[a]).id),
                    forall|a: int, k: int|
                        0 <= a < i && 0 <= k < nodes[a].dependencies.len()
                            ==> has_id(vs, #[trigger] nodes[a].dependencies[k]),
                decreases g.nodes.len() - i,
            {
                let n = &g.nodes[i];
                if !has_package(&m.packages, &n.id) {
                    assert(nodes[i as int].id == n.id@);
                    assert(!has_id(mv.packages, mv.resolve->Some_0[i as int].id));
                    return false;
                }
                let deps_known = all_known(&m.packages, &n.dependencies);
                if !deps_known {
                    proof {
                        let k = choose|k: int| 0 <= k < n.dependencies@.len() && !has_id(vs, #[trigger] n.dependencies@[k]@);
                        assert(nodes[i as int].dependencies[k] == n.dependencies@[k]@);
                        assert(!has_id(mv.packages, mv.resolve->Some_0[i as int].dependencies[k]));
                    }
                    return false;
                }
                assert forall|k: int| 0 <= k < nodes[i as int].dependencies.len() implies has_id(vs, #[trigger] nodes[i as int].dependencies[k]) by {
                    assert(nodes[i as int].dependencies[k] == n.dependencies@[k]@);
                }
                i = i + 1;
            }
            true
        },
    }
}

impl Metadata {
    /// Decodes a metadata graph from the tool's JSON document, checking
    /// the format version and the graph's invariants.
    pub fn from_json(v: &serde_json::Value) -> (r: Option<Metadata>)
        ensures
            r is Some <==> decode_metadata(json_of(*v)) is Some,
            r is Some ==> decode_metadata(json_of(*v)) == Some(r->Some_0@),
    {
        let es = match object_members(v) {
            Some(es) => es,
            None => return None,
        };
        let packages = match get_field(&es, "packages") {
            Some(x) => read_packages(x),
            None => None,
        };
        let workspace_members = read_default_texts(&es, "workspace_members");
        let resolve = read_resolve(&es);
        let version = match get_field(&es, "version") {
            Some(x) => unsigned_value(x),
            None => None,
        };
        match (packages, workspace_members, resolve, version) {
            (Some(packages), Some(workspace_members), Some(resolve), Some(version)) => {
                if version != FORMAT_VERSION {
                    return None;
                }
                let m = Metadata { packages, workspace_members, resolve, version };
                if check_well_formed(&m) {
                    Some(m)
                } else {
                    None
                }
            },
            _ => None,
        }
    }
}
} // verus!
