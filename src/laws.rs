use vstd::prelude::*;
use crate::decode::{
    FORMAT_VERSION, decode_dependencies, decode_dependency, decode_features, decode_metadata,
    decode_node, decode_nodes, decode_package, decode_packages, decode_shape, decode_target,
    decode_targets, has_id, texts_of, well_formed,
};
use crate::pipeline::decode_text;
use crate::json::{JsonModel, field, field_from};
use crate::model::{DependencyKind, DependencyView, MetadataView, NodeView, PackageView, TargetView};

verus! {

/// An array of strings.
pub open spec fn encode_texts(ss: Seq<Seq<char>>) -> JsonModel {
    JsonModel::Arr(ss.map_values(|s: Seq<char>| JsonModel::Str(s)))
}

/// A string, or null where absent.
pub open spec fn encode_opt(o: Option<Seq<char>>) -> JsonModel {
    match o {
        Some(s) => JsonModel::Str(s),
        None => JsonModel::Null,
    }
}

pub open spec fn encode_target(t: TargetView) -> JsonModel {
    JsonModel::Obj(seq![
        ("name"@, JsonModel::Str(t.name)),
        ("kind"@, encode_texts(t.kind)),
        ("crate_types"@, encode_texts(t.crate_types)),
        ("src_path"@, JsonModel::Str(t.src_path)),
    ])
}

pub open spec fn encode_kind(k: DependencyKind) -> JsonModel {
    match k {
        DependencyKind::Normal => JsonModel::Null,
        DependencyKind::Development => JsonModel::Str("dev"@),
        DependencyKind::Build => JsonModel::Str("build"@),
    }
}

pub open spec fn encode_dependency(d: DependencyView) -> JsonModel {
    JsonModel::Obj(seq![
        ("name"@, JsonModel::Str(d.name)),
        ("source"@, encode_opt(d.source)),
        ("req"@, JsonModel::Str(d.req)),
        ("kind"@, encode_kind(d.kind)),
        ("optional"@, JsonModel::Bool(d.optional)),
        ("target"@, encode_opt(d.target)),
        ("rename"@, encode_opt(d.rename)),
    ])
}

pub open spec fn encode_features(fs: Seq<(Seq<char>, Seq<Seq<char>>)>) -> JsonModel {
    JsonModel::Obj(fs.map_values(|e: (Seq<char>, Seq<Seq<char>>)| (e.0, encode_texts(e.1))))
}

pub open spec fn encode_package(p: PackageView) -> JsonModel {
    JsonModel::Obj(seq![
        ("name"@, JsonModel::Str(p.name)),
        ("version"@, JsonModel::Str(p.version)),
        ("id"@, JsonModel::Str(p.id)),
        ("source"@, encode_opt(p.source)),
        ("dependencies"@, JsonModel::Arr(p.dependencies.map_values(|d: DependencyView| encode_dependency(d)))),
        ("targets"@, JsonModel::Arr(p.targets.map_values(|t: TargetView| encode_target(t)))),
        ("features"@, encode_features(p.features)),
        ("manifest_path"@, JsonModel::Str(p.manifest_path)),
    ])
}

pub open spec fn encode_node(n: NodeView) -> JsonModel {
    JsonModel::Obj(seq![("id"@, JsonModel::Str(n.id)), ("dependencies"@, encode_texts(n.dependencies))])
}

/// The JSON document that a metadata graph is written as.
pub open spec fn encode_metadata(m: MetadataView) -> JsonModel {
    JsonModel::Obj(seq![
        ("packages"@, JsonModel::Arr(m.packages.map_values(|p: PackageView| encode_package(p)))),
        ("workspace_members"@, encode_texts(m.workspace_members)),
        ("resolve"@, match m.resolve {
            Some(nodes) => JsonModel::Obj(seq![
                ("nodes"@, JsonModel::Arr(nodes.map_values(|n: NodeView| encode_node(n)))),
            ]),
            None => JsonModel::Null,
        }),
        ("version"@, JsonModel::Int(m.version as int)),
    ])
}

/// In an object whose member names are distinct, each name finds its member.
proof fn lemma_field_distinct(es: Seq<(Seq<char>, JsonModel)>, i: int)
    requires
        0 <= i < es.len(),
        forall|a: int, b: int| 0 <= a < b < es.len() ==> es[a].0 != es[b].0,
    ensures
        field(es, es[i].0) == Some(es[i].1),
{
    lemma_field_from_before(es, es[i].0, i, 0);
}

proof fn lemma_field_from_before(es: Seq<(Seq<char>, JsonModel)>, k: Seq<char>, i: int, m: int)
    requires
        0 <= m <= i < es.len(),
        es[i].0 == k,
        forall|a: int| 0 <= a < i ==> es[a].0 != k,
    ensures
        field_from(es, k, m) == Some(es[i].1),
    decreases i - m,
{
    if m < i {
        lemma_field_from_before(es, k, i, m + 1);
    }
}

proof fn lemma_texts_round_trip(ss: Seq<Seq<char>>)
    ensures
        texts_of(encode_texts(ss)) == Some(ss),
{
    let xs = ss.map_values(|s: Seq<char>| JsonModel::Str(s));
    assert(forall|i: int| 0 <= i < xs.len() ==> (#[trigger] xs[i]) is Str);
    assert(xs.map_values(|x: JsonModel| x->Str_0) =~= ss);
}

proof fn lemma_target_round_trip(t: TargetView)
    ensures
        decode_target(encode_target(t)) == Some(t),
{
    reveal_strlit("name");
    reveal_strlit("kind");
    reveal_strlit("crate_types");
    reveal_strlit("src_path");
    let es = encode_target(t)->Obj_0;
    assert forall|a: int, b: int| 0 <= a < b < es.len() implies es[a].0 != es[b].0 by {
        assert(es[a].0.len() != es[b].0.len() || es[a].0[0] != es[b].0[0]);
    }
    lemma_field_distinct(es, 0);
    lemma_field_distinct(es, 1);
    lemma_field_distinct(es, 2);
    lemma_field_distinct(es, 3);
    lemma_texts_round_trip(t.kind);
    lemma_texts_round_trip(t.crate_types);
}


proof fn lemma_targets_round_trip(ts: Seq<TargetView>)
    ensures
        decode_targets(JsonModel::Arr(ts.map_values(|t: TargetView| encode_target(t)))) == Some(ts),
{
    let xs = ts.map_values(|t: TargetView| encode_target(t));
    assert forall|i: int| 0 <= i < xs.len() implies (#[trigger] decode_target(xs[i])) == Some(ts[i]) by {
        lemma_target_round_trip(ts[i]);
    }
    assert(xs.map_values(|x: JsonModel| decode_target(x)->Some_0) =~= ts);
}

proof fn lemma_dependency_round_trip(d: DependencyView)
    ensures
        decode_dependency(encode_dependency(d)) == Some(d),
{
    reveal_strlit("name");
    reveal_strlit("source");
    reveal_strlit("req");
    reveal_strlit("kind");
    reveal_strlit("optional");
    reveal_strlit("target");
    reveal_strlit("rename");
    reveal_strlit("normal");
    reveal_strlit("dev");
    reveal_strlit("build");
    let es = encode_dependency(d)->Obj_0;
    assert forall|a: int, b: int| 0 <= a < b < es.len() implies es[a].0 != es[b].0 by {
        assert(es[a].0.len() != es[b].0.len() || es[a].0[0] != es[b].0[0]);
    }
    lemma_field_distinct(es, 0);
    lemma_field_distinct(es, 1);
    lemma_field_distinct(es, 2);
    lemma_field_distinct(es, 3);
    lemma_field_distinct(es, 4);
    lemma_field_distinct(es, 5);
    lemma_field_distinct(es, 6);
    assert("dev"@ != "normal"@ && "build"@ != "normal"@ && "build"@ != "dev"@) by {
        assert("dev"@.len() != "normal"@.len());
        assert("build"@.len() != "normal"@.len());
        assert("build"@.len() != "dev"@.len());
    }
}

proof fn lemma_dependencies_round_trip(ds: Seq<DependencyView>)
    ensures
        decode_dependencies(JsonModel::Arr(ds.map_values(|d: DependencyView| encode_dependency(d)))) == Some(ds),
{
    let xs = ds.map_values(|d: DependencyView| encode_dependency(d));
    assert forall|i: int| 0 <= i < xs.len() implies (#[trigger] decode_dependency(xs[i])) == Some(ds[i]) by {
        lemma_dependency_round_trip(ds[i]);
    }
    assert(xs.map_values(|x: JsonModel| decode_dependency(x)->Some_0) =~= ds);
}

proof fn lemma_features_round_trip(fs: Seq<(Seq<char>, Seq<Seq<char>>)>)
    ensures
        decode_features(encode_features(fs)) == Some(fs),
{
    let es = encode_features(fs)->Obj_0;
    assert forall|i: int| 0 <= i < es.len() implies (#[trigger] texts_of(es[i].1)) == Some(fs[i].1) by {
        lemma_texts_round_trip(fs[i].1);
    }
    assert(es.map_values(|e: (Seq<char>, JsonModel)| (e.0, texts_of(e.1)->Some_0)) =~= fs);
}

proof fn lemma_package_round_trip(p: PackageView)
    ensures
        decode_package(encode_package(p)) == Some(p),
{
    reveal_strlit("name");
    reveal_strlit("version");
    reveal_strlit("id");
    reveal_strlit("source");
    reveal_strlit("dependencies");
    reveal_strlit("targets");
    reveal_strlit("features");
    reveal_strlit("manifest_path");
    let es = encode_package(p)->Obj_0;
    assert forall|a: int, b: int| 0 <= a < b < es.len() implies es[a].0 != es[b].0 by {
        assert(es[a].0.len() != es[b].0.len() || es[a].0[0] != es[b].0[0]);
    }
    lemma_field_distinct(es, 0);
    lemma_field_distinct(es, 1);
    lemma_field_distinct(es, 2);
    lemma_field_distinct(es, 3);
    lemma_field_distinct(es, 4);
    lemma_field_distinct(es, 5);
    lemma_field_distinct(es, 6);
    lemma_field_distinct(es, 7);
    lemma_dependencies_round_trip(p.dependencies);
    lemma_targets_round_trip(p.targets);
    lemma_features_round_trip(p.features);
}

proof fn lemma_packages_round_trip(ps: Seq<PackageView>)
    ensures
        decode_packages(JsonModel::Arr(ps.map_values(|p: PackageView| encode_package(p)))) == Some(ps),
{
    let xs = ps.map_values(|p: PackageView| encode_package(p));
    assert forall|i: int| 0 <= i < xs.len() implies (#[trigger] decode_package(xs[i])) == Some(ps[i]) by {
        lemma_package_round_trip(ps[i]);
    }
    assert(xs.map_values(|x: JsonModel| decode_package(x)->Some_0) =~= ps);
}

proof fn lemma_node_round_trip(n: NodeView)
    ensures
        decode_node(encode_node(n)) == Some(n),
{
    reveal_strlit("id");
    reveal_strlit("dependencies");
    let es = encode_node(n)->Obj_0;
    assert(es[0].0.len() != es[1].0.len());
    lemma_field_distinct(es, 0);
    lemma_field_distinct(es, 1);
    lemma_texts_round_trip(n.dependencies);
}

proof fn lemma_nodes_round_trip(ns: Seq<NodeView>)
    ensures
        decode_nodes(JsonModel::Arr(ns.map_values(|n: NodeView| encode_node(n)))) == Some(ns),
{
    let xs = ns.map_values(|n: NodeView| encode_node(n));
    assert forall|i: int| 0 <= i < xs.len() implies (#[trigger] decode_node(xs[i])) == Some(ns[i]) by {
        lemma_node_round_trip(ns[i]);
    }
    assert(xs.map_values(|x: JsonModel| decode_node(x)->Some_0) =~= ns);
}

/// Writing a well-formed graph of the current format as JSON and decoding
/// it again gives the same graph.
pub proof fn lemma_encode_decode(m: MetadataView)
    requires
        well_formed(m),
        m.version == FORMAT_VERSION,
    ensures
        decode_metadata(encode_metadata(m)) == Some(m),
{
    reveal_strlit("packages");
    reveal_strlit("workspace_members");
    reveal_strlit("resolve");
    reveal_strlit("version");
    reveal_strlit("nodes");
    let es = encode_metadata(m)->Obj_0;
    assert forall|a: int, b: int| 0 <= a < b < es.len() implies es[a].0 != es[b].0 by {
        assert(es[a].0.len() != es[b].0.len() || es[a].0[0] != es[b].0[0]);
    }
    lemma_field_distinct(es, 0);
    lemma_field_distinct(es, 1);
    lemma_field_distinct(es, 2);
    lemma_field_distinct(es, 3);
    lemma_packages_round_trip(m.packages);
    lemma_texts_round_trip(m.workspace_members);
    match m.resolve {
        Some(nodes) => {
            let rs = es[2].1->Obj_0;
            lemma_field_distinct(rs, 0);
            lemma_nodes_round_trip(nodes);
        },
        None => {},
    }
    assert(decode_shape(encode_metadata(m)) == Some(m));
}

/// Decoding a document, writing the graph back as JSON and decoding that
/// again gives the graph of the first decode.
pub proof fn lemma_round_trip(j: JsonModel)
    requires
        decode_metadata(j) is Some,
    ensures
        decode_metadata(encode_metadata(decode_metadata(j)->Some_0)) == decode_metadata(j),
{
    lemma_encode_decode(decode_metadata(j)->Some_0);
}

proof fn lemma_field_from_after_insert(
    es: Seq<(Seq<char>, JsonModel)>,
    p: int,
    e: (Seq<char>, JsonModel),
    name: Seq<char>,
    i: int,
)
    requires
        0 <= p <= i,
        p <= es.len(),
    ensures
        field_from(es.insert(p, e), name, i + 1) == field_from(es, name, i),
    decreases es.len() - i,
{
    if i < es.len() {
        assert(es.insert(p, e)[i + 1] == es[i]);
        lemma_field_from_after_insert(es, p, e, name, i + 1);
    }
}

proof fn lemma_field_from_before_insert(
    es: Seq<(Seq<char>, JsonModel)>,
    p: int,
    e: (Seq<char>, JsonModel),
    name: Seq<char>,
    i: int,
)
    requires
        0 <= i <= p <= es.len(),
        e.0 != name,
    ensures
        field_from(es.insert(p, e), name, i) == field_from(es, name, i),
    decreases p - i,
{
    if i == p {
        assert(es.insert(p, e)[p] == e);
        lemma_field_from_after_insert(es, p, e, name, p);
    } else {
        assert(es.insert(p, e)[i] == es[i]);
        lemma_field_from_before_insert(es, p, e, name, i + 1);
    }
}

/// A member of another name, added anywhere in an object, does not change
/// which value a name finds.
pub proof fn lemma_field_other_member(es: Seq<(Seq<char>, JsonModel)>, p: int, e: (Seq<char>, JsonModel), name: Seq<char>)
    requires
        0 <= p <= es.len(),
        e.0 != name,
    ensures
        field(es.insert(p, e), name) == field(es, name),
{
    lemma_field_from_before_insert(es, p, e, name, 0);
}

/// The member names that a target is decoded from.
pub open spec fn target_members() -> Seq<Seq<char>> {
    seq!["name"@, "kind"@, "crate_types"@, "src_path"@]
}

/// The member names that a dependency is decoded from.
pub open spec fn dependency_members() -> Seq<Seq<char>> {
    seq!["name"@, "source"@, "req"@, "kind"@, "optional"@, "target"@, "rename"@]
}

/// The member names that a package is decoded from.
pub open spec fn package_members() -> Seq<Seq<char>> {
    seq!["name"@, "version"@, "id"@, "source"@, "dependencies"@, "targets"@, "features"@, "manifest_path"@]
}

/// The member names that a node is decoded from.
pub open spec fn node_members() -> Seq<Seq<char>> {
    seq!["id"@, "dependencies"@]
}

/// The member names that the root object is decoded from.
pub open spec fn metadata_members() -> Seq<Seq<char>> {
    seq!["packages"@, "workspace_members"@, "resolve"@, "version"@]
}

/// A member that a target does not read, added anywhere, changes nothing.
pub proof fn lemma_target_unknown_member(es: Seq<(Seq<char>, JsonModel)>, p: int, e: (Seq<char>, JsonModel))
    requires
        0 <= p <= es.len(),
        !target_members().contains(e.0),
    ensures
        decode_target(JsonModel::Obj(es.insert(p, e))) == decode_target(JsonModel::Obj(es)),
{
    let ks = target_members();
    assert forall|k: int| 0 <= k < ks.len() implies field(es.insert(p, e), #[trigger] ks[k]) == field(es, ks[k]) by {
        lemma_field_other_member(es, p, e, ks[k]);
    }
    assert(ks[0] == "name"@ && ks[1] == "kind"@ && ks[2] == "crate_types"@ && ks[3] == "src_path"@);
}

/// A member that a dependency does not read, added anywhere, changes nothing.
pub proof fn lemma_dependency_unknown_member(es: Seq<(Seq<char>, JsonModel)>, p: int, e: (Seq<char>, JsonModel))
    requires
        0 <= p <= es.len(),
        !dependency_members().contains(e.0),
    ensures
        decode_dependency(JsonModel::Obj(es.insert(p, e))) == decode_dependency(JsonModel::Obj(es)),
{
    let ks = dependency_members();
    assert forall|k: int| 0 <= k < ks.len() implies field(es.insert(p, e), #[trigger] ks[k]) == field(es, ks[k]) by {
        lemma_field_other_member(es, p, e, ks[k]);
    }
    assert(ks[0] == "name"@ && ks[1] == "source"@ && ks[2] == "req"@ && ks[3] == "kind"@);
    assert(ks[4] == "optional"@ && ks[5] == "target"@ && ks[6] == "rename"@);
}

/// A member that a package does not read, added anywhere, changes nothing.
pub proof fn lemma_package_unknown_member(es: Seq<(Seq<char>, JsonModel)>, p: int, e: (Seq<char>, JsonModel))
    requires
        0 <= p <= es.len(),
        !package_members().contains(e.0),
    ensures
        decode_package(JsonModel::Obj(es.insert(p, e))) == decode_package(JsonModel::Obj(es)),
{
    let ks = package_members();
    assert forall|k: int| 0 <= k < ks.len() implies field(es.insert(p, e), #[trigger] ks[k]) == field(es, ks[k]) by {
        lemma_field_other_member(es, p, e, ks[k]);
    }
    assert(ks[0] == "name"@ && ks[1] == "version"@ && ks[2] == "id"@ && ks[3] == "source"@);
    assert(ks[4] == "dependencies"@ && ks[5] == "targets"@ && ks[6] == "features"@ && ks[7] == "manifest_path"@);
}

/// A member that a node does not read, added anywhere, changes nothing.
pub proof fn lemma_node_unknown_member(es: Seq<(Seq<char>, JsonModel)>, p: int, e: (Seq<char>, JsonModel))
    requires
        0 <= p <= es.len(),
        !node_members().contains(e.0),
    ensures
        decode_node(JsonModel::Obj(es.insert(p, e))) == decode_node(JsonModel::Obj(es)),
{
    let ks = node_members();
    assert forall|k: int| 0 <= k < ks.len() implies field(es.insert(p, e), #[trigger] ks[k]) == field(es, ks[k]) by {
        lemma_field_other_member(es, p, e, ks[k]);
    }
    assert(ks[0] == "id"@ && ks[1] == "dependencies"@);
}

/// A member that the root object does not read, added anywhere, changes
/// nothing that the document decodes to.
pub proof fn lemma_metadata_unknown_member(es: Seq<(Seq<char>, JsonModel)>, p: int, e: (Seq<char>, JsonModel))
    requires
        0 <= p <= es.len(),
        !metadata_members().contains(e.0),
    ensures
        decode_metadata(JsonModel::Obj(es.insert(p, e))) == decode_metadata(JsonModel::Obj(es)),
{
    let ks = metadata_members();
    assert forall|k: int| 0 <= k < ks.len() implies field(es.insert(p, e), #[trigger] ks[k]) == field(es, ks[k]) by {
        lemma_field_other_member(es, p, e, ks[k]);
    }
    assert(ks[0] == "packages"@ && ks[1] == "workspace_members"@ && ks[2] == "resolve"@ && ks[3] == "version"@);
}

/// Every workspace member of a decoded report is the identifier of one of
/// its packages, and so is every node of its dependency graph.
pub proof fn lemma_members_are_packages(s: Seq<char>)
    requires
        decode_text(s) is Some,
    ensures
        forall|i: int| 0 <= i < decode_text(s)->Some_0.workspace_members.len()
            ==> has_id(decode_text(s)->Some_0.packages, #[trigger] decode_text(s)->Some_0.workspace_members[i]),
        decode_text(s)->Some_0.resolve matches Some(nodes) ==> forall|i: int| 0 <= i < nodes.len()
            ==> has_id(decode_text(s)->Some_0.packages, (#[trigger] nodes[i]).id),
{
    assert(well_formed(decode_text(s)->Some_0));
}
} // verus!
