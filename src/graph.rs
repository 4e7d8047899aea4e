//! The dependency graph that `conan install` reports, and its traversal in
//! linking order.

use vstd::prelude::*;
use vstd::seq_lib::seq_to_set_is_finite;
use vstd::utf8::encode_utf8;

use crate::instructions::{CargoInstructions, Directive, DirectiveKind, include_order, text_of, texts};
use crate::json::{Json, contains_text, field, find_member, keys_of, member, object_items, string_items, strings_in};

verus! {

/// The number of distinct keys of `entries` that `path` does not hold.
pub open spec fn unvisited(entries: Seq<(String, Json)>, path: Seq<Seq<char>>) -> nat {
    keys_of(entries).to_set().difference(path.to_set()).len()
}

/// A key that has a member is one of the keys.
pub proof fn lemma_member_key(entries: Seq<(String, Json)>, key: Seq<char>)
    requires
        member(entries, key) is Some,
    ensures
        keys_of(entries).contains(key),
    decreases entries.len(),
{
    if entries[0].0@ == key {
        assert(keys_of(entries)[0] == key);
    } else {
        lemma_member_key(entries.drop_first(), key);
        let i = choose|i: int| 0 <= i < keys_of(entries.drop_first()).len() && keys_of(entries.drop_first())[i] == key;
        assert(keys_of(entries)[i + 1] == key);
    }
}

/// Adding a key that the path lacks to the path leaves fewer keys unvisited.
pub proof fn lemma_unvisited_shrinks(entries: Seq<(String, Json)>, path: Seq<Seq<char>>, key: Seq<char>)
    requires
        member(entries, key) is Some,
        !path.contains(key),
    ensures
        unvisited(entries, path.push(key)) < unvisited(entries, path),
{
    lemma_member_key(entries, key);
    let all = keys_of(entries).to_set();
    seq_to_set_is_finite(keys_of(entries));
    path.lemma_push_to_set_commute(key);
    let before = all.difference(path.to_set());
    let after = all.difference(path.push(key).to_set());
    assert(after =~= before.remove(key));
    assert(before.contains(key));
}

/// Whether a component lists at least one library.
pub open spec fn has_libs(component: Json) -> bool {
    field(component, "libs"@) matches Some(Json::Array(items)) && items@.len() > 0
}

/// One instruction of kind `kind` for each of `values`, in order.
pub open spec fn tagged(kind: DirectiveKind, values: Seq<Seq<char>>) -> Seq<Directive> {
    values.map_values(|v: Seq<char>| Directive { kind, value: v })
}

/// What a component contributes itself: search paths, libraries, system
/// libraries, include directories, then link arguments for executables and
/// for shared libraries.
pub open spec fn own_directives(component: Json) -> Seq<Directive> {
    tagged(DirectiveKind::LinkSearch, string_items(component, "libdirs"@))
        + tagged(DirectiveKind::LinkLib, string_items(component, "libs"@))
        + tagged(DirectiveKind::LinkLib, string_items(component, "system_libs"@))
        + tagged(DirectiveKind::Include, string_items(component, "includedirs"@))
        + tagged(DirectiveKind::LinkArgBins, string_items(component, "exelinkflags"@))
        + tagged(DirectiveKind::CdylibLinkArg, string_items(component, "sharedlinkflags"@))
}

/// The instructions of the component `name` of `cpp_info`, reached along the
/// components of `path`: none for an unknown component, one without libraries,
/// or one already on the path; else its own, then those of each component it
/// requires.
pub open spec fn component_directives(
    cpp_info: Seq<(String, Json)>,
    name: Seq<char>,
    path: Seq<Seq<char>>,
) -> Seq<Directive>
    decreases unvisited(cpp_info, path), 0nat,
{
    if path.contains(name) {
        Seq::empty()
    } else {
        match member(cpp_info, name) {
            Some(component) => {
                if has_libs(component) {
                    proof {
                        lemma_unvisited_shrinks(cpp_info, path, name);
                    }
                    own_directives(component) + requirement_directives(
                        cpp_info,
                        string_items(component, "requires"@),
                        path.push(name),
                    )
                } else {
                    Seq::empty()
                }
            },
            None => Seq::empty(),
        }
    }
}

/// The instructions of the components `names` of `cpp_info`, one after the other.
pub open spec fn requirement_directives(
    cpp_info: Seq<(String, Json)>,
    names: Seq<Seq<char>>,
    path: Seq<Seq<char>>,
) -> Seq<Directive>
    decreases unvisited(cpp_info, path), names.len(),
{
    if names.len() == 0 {
        Seq::empty()
    } else {
        requirement_directives(cpp_info, names.drop_last(), path) + component_directives(
            cpp_info,
            names.last(),
            path,
        )
    }
}

/// The instructions of the components `names` of `cpp_info`, each reached
/// on its own.
pub open spec fn components_directives(cpp_info: Seq<(String, Json)>, names: Seq<Seq<char>>) -> Seq<Directive>
    decreases names.len(),
{
    if names.len() == 0 {
        Seq::empty()
    } else {
        components_directives(cpp_info, names.drop_last()) + component_directives(
            cpp_info,
            names.last(),
            Seq::empty(),
        )
    }
}

/// The instructions of the node `id` of `nodes`, reached along the nodes of
/// `path`: none for an unknown node or one already on the path; else those of
/// each of its components in `cpp_info`, then those of each node in its
/// `dependencies`.
pub open spec fn node_directives(nodes: Seq<(String, Json)>, id: Seq<char>, path: Seq<Seq<char>>) -> Seq<Directive>
    decreases unvisited(nodes, path), 0nat,
{
    if path.contains(id) {
        Seq::empty()
    } else {
        match member(nodes, id) {
            Some(node) => {
                proof {
                    lemma_unvisited_shrinks(nodes, path, id);
                }
                let cpp_info = object_items(node, "cpp_info"@);
                components_directives(cpp_info, keys_of(cpp_info)) + dependency_directives(
                    nodes,
                    keys_of(object_items(node, "dependencies"@)),
                    path.push(id),
                )
            },
            None => Seq::empty(),
        }
    }
}

/// The instructions of the nodes `ids` of `nodes`, one after the other.
pub open spec fn dependency_directives(nodes: Seq<(String, Json)>, ids: Seq<Seq<char>>, path: Seq<Seq<char>>) -> Seq<Directive>
    decreases unvisited(nodes, path), ids.len(),
{
    if ids.len() == 0 {
        Seq::empty()
    } else {
        dependency_directives(nodes, ids.drop_last(), path) + node_directives(nodes, ids.last(), path)
    }
}

/// Traversing one well-formed document twice, each time after the same
/// instructions, renders byte-identical output and the same include list.
pub proof fn lemma_traversal_deterministic(doc: Json, before: Seq<Directive>, first: Seq<Directive>, second: Seq<Directive>)
    requires
        graph_directives(doc) is Ok,
        first == before + graph_directives(doc)->Ok_0,
        second == before + graph_directives(doc)->Ok_0,
    ensures
        encode_utf8(text_of(first)) == encode_utf8(text_of(second)),
        include_order(first) == include_order(second),
{
}

/// A component whose `libs` is absent or empty contributes no instruction
/// at all, and what it requires is not visited.
pub proof fn lemma_no_libs_no_directives(cpp_info: Seq<(String, Json)>, name: Seq<char>, path: Seq<Seq<char>>)
    requires
        member(cpp_info, name) matches Some(component) && !has_libs(component),
    ensures
        component_directives(cpp_info, name, path) == Seq::<Directive>::empty(),
{
}

/// The instructions of a component come in a fixed order: search paths,
/// libraries, system libraries, include directories, link arguments for
/// executables and for shared libraries, then those of each component it
/// requires, in full.
pub proof fn lemma_component_order(cpp_info: Seq<(String, Json)>, name: Seq<char>, path: Seq<Seq<char>>)
    requires
        member(cpp_info, name) matches Some(component) && has_libs(component),
        !path.contains(name),
    ensures
        ({
            let component = member(cpp_info, name)->0;
            component_directives(cpp_info, name, path)
                == tagged(DirectiveKind::LinkSearch, string_items(component, "libdirs"@))
                + tagged(DirectiveKind::LinkLib, string_items(component, "libs"@))
                + tagged(DirectiveKind::LinkLib, string_items(component, "system_libs"@))
                + tagged(DirectiveKind::Include, string_items(component, "includedirs"@))
                + tagged(DirectiveKind::LinkArgBins, string_items(component, "exelinkflags"@))
                + tagged(DirectiveKind::CdylibLinkArg, string_items(component, "sharedlinkflags"@))
                + requirement_directives(cpp_info, string_items(component, "requires"@), path.push(name))
        }),
{
}

/// Why a document is not a dependency graph.
#[derive(Clone, Copy, Debug, PartialEq, Eq, Structural)]
pub enum GraphError {
    /// The document is not a JSON object.
    RootNotObject,
    /// The root has no `graph` object.
    MissingGraph,
    /// The `graph` object has no `nodes` object.
    MissingNodes,
}

/// The members of `graph.nodes` of a document, or why there are none.
pub open spec fn graph_nodes(doc: Json) -> Result<Seq<(String, Json)>, GraphError> {
    match doc {
        Json::Object(_) => match field(doc, "graph"@) {
            Some(Json::Object(graph)) => match member(graph@, "nodes"@) {
                Some(Json::Object(nodes)) => Ok(nodes@),
                _ => Err(GraphError::MissingNodes),
            },
            _ => Err(GraphError::MissingGraph),
        },
        _ => Err(GraphError::RootNotObject),
    }
}

/// The instructions of a document, in linking order: those of node `0` and,
/// depth first, of the nodes it depends on.
pub open spec fn graph_directives(doc: Json) -> Result<Seq<Directive>, GraphError> {
    match graph_nodes(doc) {
        Ok(nodes) => Ok(node_directives(nodes, "0"@, Seq::empty())),
        Err(e) => Err(e),
    }
}

/// A Conan dependency graph: the JSON document that `conan install --format json` prints.
pub struct ConanDependencyGraph(pub Json);

impl ConanDependencyGraph {
    /// Adds the instructions of the graph to `cargo`, in linking order,
    /// starting from the consumer node `0`.
    ///
    /// A document without a `graph.nodes` object is refused, and nothing is added.
    pub fn traverse(&self, cargo: &mut CargoInstructions) -> (r: Result<(), GraphError>)
        requires
            old(cargo).wf(),
        ensures
            final(cargo).wf(),
            match graph_directives(self.0) {
                Ok(ds) => r is Ok && final(cargo)@ == old(cargo)@ + ds,
                Err(e) => r == Err::<(), GraphError>(e) && final(cargo)@ == old(cargo)@,
            },
    {
        let nodes = match self.find_nodes() {
            Ok(nodes) => nodes,
            Err(e) => return Err(e),
        };
        let mut path: Vec<String> = Vec::new();
        assert(texts(path@) =~= Seq::empty());
        Self::visit_dependency(nodes, cargo, "0", &mut path);
        Ok(())
    }

    /// The members of `graph.nodes`.
    fn find_nodes(&self) -> (r: Result<&Vec<(String, Json)>, GraphError>)
        ensures
            match graph_nodes(self.0) {
                Ok(ns) => r matches Ok(v) && v@ == ns,
                Err(e) => r matches Err(x) && x == e,
            },
    {
        match &self.0 {
            Json::Object(_) => {},
            _ => return Err(GraphError::RootNotObject),
        }
        let graph = match self.0.get_object("graph") {
            Some(graph) => graph,
            None => return Err(GraphError::MissingGraph),
        };
        match find_member(graph, "nodes") {
            Some(Json::Object(nodes)) => Ok(nodes),
            _ => Err(GraphError::MissingNodes),
        }
    }

    /// The node `id`, where there is one and it is an object.
    fn find_node<'a>(nodes: &'a Vec<(String, Json)>, id: &str) -> (r: Option<&'a Json>)
        ensures
            r matches Some(n) ==> member(nodes@, id@) == Some(*n) && n is Object,
            r is None ==> !(member(nodes@, id@) matches Some(Json::Object(_))),
    {
        match find_member(nodes, id) {
            Some(node) => match node {
                Json::Object(_) => Some(node),
                _ => None,
            },
            None => None,
        }
    }

    /// The component `name`, where there is one and it is an object.
    fn find_cpp_component<'a>(cpp_info: &'a Vec<(String, Json)>, name: &str) -> (r: Option<&'a Json>)
        ensures
            r matches Some(c) ==> member(cpp_info@, name@) == Some(*c) && c is Object,
            r is None ==> !(member(cpp_info@, name@) matches Some(Json::Object(_))),
    {
        match find_member(cpp_info, name) {
            Some(component) => match component {
                Json::Object(_) => Some(component),
                _ => None,
            },
            None => None,
        }
    }

    /// Adds the instructions of the node `id` and, depth first, of the nodes
    /// it depends on; a node already on `path` is not entered again.
    fn visit_dependency(nodes: &Vec<(String, Json)>, cargo: &mut CargoInstructions, id: &str, path: &mut Vec<String>)
        requires
            old(cargo).wf(),
        ensures
            final(cargo).wf(),
            final(cargo)@ == old(cargo)@ + node_directives(nodes@, id@, texts(old(path)@)),
            final(path)@ == old(path)@,
        decreases unvisited(nodes@, texts(old(path)@)),
    {
        let ghost start = cargo@;
        let ghost p0 = texts(path@);
        if contains_text(path, id) {
            assert(start + Seq::<Directive>::empty() =~= start);
            return;
        }
        let node = match Self::find_node(nodes, id) {
            Some(node) => node,
            None => {
                assert(start + Seq::<Directive>::empty() =~= start);
                return;
            },
        };
        proof {
            lemma_unvisited_shrinks(nodes@, p0, id@);
        }
        let ghost cpp = object_items(*node, "cpp_info"@);
        if let Some(cpp_info) = node.get_object("cpp_info") {
            let mut i: usize = 0;
            assert(start + components_directives(cpp, keys_of(cpp).take(0)) =~= start);
            while i < cpp_info.len()
                invariant
                    0 <= i <= cpp_info@.len(),
                    cpp_info@ == cpp,
                    cargo.wf(),
                    cargo@ == start + components_directives(cpp, keys_of(cpp).take(i as int)),
                decreases cpp_info@.len() - i,
            {
                let mut fresh: Vec<String> = Vec::new();
                assert(texts(fresh@) =~= Seq::<Seq<char>>::empty());
                Self::visit_cpp_component(cpp_info, cargo, cpp_info[i].0.as_str(), &mut fresh);
                assert(keys_of(cpp).take(i + 1).drop_last() =~= keys_of(cpp).take(i as int));
                i = i + 1;
            }
            assert(keys_of(cpp).take(i as int) =~= keys_of(cpp));
        } else {
            assert(keys_of(cpp) =~= Seq::empty());
            assert(start + components_directives(cpp, keys_of(cpp)) =~= start);
        }
        let ghost mid = cargo@;
        path.push(id.to_owned());
        let ghost pushed = path@;
        assert(pushed.drop_last() =~= old(path)@);
        assert(texts(path@) =~= p0.push(id@));
        let ghost deps = object_items(*node, "dependencies"@);
        if let Some(dependencies) = node.get_object("dependencies") {
            let mut j: usize = 0;
            assert(mid + dependency_directives(nodes@, keys_of(deps).take(0), p0.push(id@)) =~= mid);
            while j < dependencies.len()
                invariant
                    0 <= j <= dependencies@.len(),
                    dependencies@ == deps,
                    texts(path@) == p0.push(id@),
                    path@ == pushed,
                    pushed.drop_last() == old(path)@,
                    p0 == texts(old(path)@),
                    !p0.contains(id@),
                    unvisited(nodes@, p0.push(id@)) < unvisited(nodes@, p0),
                    cargo.wf(),
                    cargo@ == mid + dependency_directives(nodes@, keys_of(deps).take(j as int), p0.push(id@)),
                decreases dependencies@.len() - j,
            {
                Self::visit_dependency(nodes, cargo, dependencies[j].0.as_str(), path);
                assert(keys_of(deps).take(j + 1).drop_last() =~= keys_of(deps).take(j as int));
                j = j + 1;
            }
            assert(keys_of(deps).take(j as int) =~= keys_of(deps));
        } else {
            assert(keys_of(deps) =~= Seq::empty());
            assert(mid + dependency_directives(nodes@, keys_of(deps), p0.push(id@)) =~= mid);
        }
        path.pop();
        assert(path@ =~= old(path)@);
        assert(cargo@ =~= start + node_directives(nodes@, id@, p0));
    }

    /// Adds the instructions of the component `name` of `cpp_info` and then
    /// of the components it requires; a component already on `path` is not
    /// entered again.
    fn visit_cpp_component(
        cpp_info: &Vec<(String, Json)>,
        cargo: &mut CargoInstructions,
        name: &str,
        path: &mut Vec<String>,
    )
        requires
            old(cargo).wf(),
        ensures
            final(cargo).wf(),
            final(cargo)@ == old(cargo)@ + component_directives(cpp_info@, name@, texts(old(path)@)),
            final(path)@ == old(path)@,
        decreases unvisited(cpp_info@, texts(old(path)@)),
    {
        let ghost start = cargo@;
        let ghost p0 = texts(path@);
        if contains_text(path, name) {
            assert(start + Seq::<Directive>::empty() =~= start);
            return;
        }
        let component = match Self::find_cpp_component(cpp_info, name) {
            Some(component) => component,
            None => {
                assert(start + Seq::<Directive>::empty() =~= start);
                return;
            },
        };
        // A component that provides no library is skipped, with what it requires.
        match component.get_array("libs") {
            Some(libs) => {
                if libs.len() == 0 {
                    assert(start + Seq::<Directive>::empty() =~= start);
                    return;
                }
            },
            None => {
                assert(start + Seq::<Directive>::empty() =~= start);
                return;
            },
        }
        proof {
            lemma_unvisited_shrinks(cpp_info@, p0, name@);
        }
        Self::emit_strings(cargo, DirectiveKind::LinkSearch, component, "libdirs");
        Self::emit_strings(cargo, DirectiveKind::LinkLib, component, "libs");
        Self::emit_strings(cargo, DirectiveKind::LinkLib, component, "system_libs");
        Self::emit_strings(cargo, DirectiveKind::Include, component, "includedirs");
        Self::emit_strings(cargo, DirectiveKind::LinkArgBins, component, "exelinkflags");
        Self::emit_strings(cargo, DirectiveKind::CdylibLinkArg, component, "sharedlinkflags");
        let ghost mid = cargo@;
        assert(mid =~= start + own_directives(*component));
        path.push(name.to_owned());
        let ghost pushed = path@;
        assert(pushed.drop_last() =~= old(path)@);
        assert(texts(path@) =~= p0.push(name@));
        let ghost reqs = string_items(*component, "requires"@);
        if let Some(required_items) = component.get_array("requires") {
            let mut j: usize = 0;
            assert(mid + requirement_directives(cpp_info@, strings_in(required_items@.take(0)), p0.push(name@)) =~= mid);
            while j < required_items.len()
                invariant
                    0 <= j <= required_items@.len(),
                    strings_in(required_items@) == reqs,
                    texts(path@) == p0.push(name@),
                    path@ == pushed,
                    pushed.drop_last() == old(path)@,
                    p0 == texts(old(path)@),
                    unvisited(cpp_info@, p0.push(name@)) < unvisited(cpp_info@, p0),
                    cargo.wf(),
                    cargo@ == mid + requirement_directives(cpp_info@, strings_in(required_items@.take(j as int)), p0.push(name@)),
                decreases required_items@.len() - j,
            {
                assert(required_items@.take(j + 1).drop_last() =~= required_items@.take(j as int));
                if let Json::Str(required) = &required_items[j] {
                    Self::visit_cpp_component(cpp_info, cargo, required.as_str(), path);
                    assert(strings_in(required_items@.take(j as int)).push(required@).drop_last()
                        =~= strings_in(required_items@.take(j as int)));
                }
                j = j + 1;
            }
            assert(required_items@.take(j as int) =~= required_items@);
        } else {
            assert(mid + requirement_directives(cpp_info@, reqs, p0.push(name@)) =~= mid);
        }
        path.pop();
        assert(path@ =~= old(path)@);
        assert(cargo@ =~= start + component_directives(cpp_info@, name@, p0));
    }

    /// Adds one instruction of kind `kind` for each string of the array
    /// member `key` of `component`.
    fn emit_strings(cargo: &mut CargoInstructions, kind: DirectiveKind, component: &Json, key: &str)
        requires
            old(cargo).wf(),
        ensures
            final(cargo).wf(),
            final(cargo)@ == old(cargo)@ + tagged(kind, string_items(*component, key@)),
    {
        let items = match component.get_array(key) {
            Some(items) => items,
            None => {
                assert(old(cargo)@ + tagged(kind, Seq::empty()) =~= old(cargo)@);
                return;
            },
        };
        let ghost start = cargo@;
        let mut i: usize = 0;
        assert(start + tagged(kind, strings_in(items@.take(0))) =~= start);
        while i < items.len()
            invariant
                0 <= i <= items@.len(),
                cargo.wf(),
                cargo@ == start + tagged(kind, strings_in(items@.take(i as int))),
            decreases items@.len() - i,
        {
            assert(items@.take(i + 1).drop_last() =~= items@.take(i as int));
            if let Json::Str(s) = &items[i] {
                cargo.record(kind, s.as_str());
                assert(tagged(kind, strings_in(items@.take(i as int)).push(s@)) =~= tagged(
                    kind,
                    strings_in(items@.take(i as int)),
                ).push(Directive { kind, value: s@ }));
            }
            assert(cargo@ =~= start + tagged(kind, strings_in(items@.take(i + 1))));
            i = i + 1;
        }
        assert(items@.take(i as int) =~= items@);
    }
}

} // verus!
