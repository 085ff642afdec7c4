//! The dispatch interface synthesizer: the visitor of the generated nodes.
//!
//! The interface is named `"Visitor"`, is generic over a result type, and
//! carries exactly one method per node specification, in schema order —
//! each new method is appended after the previously generated ones.  The
//! method for a node is `visit_<file key>`, and its parameter is an
//! immutable reference to that node's generated type, referenced as
//! `<module key>::<type name>`.

use vstd::prelude::*;

use crate::nodes::{file_key, file_key_of, ty_name, ty_name_of};
use crate::schema::{NodeSpec, NodeView, node_views};
use vstd::string::{StringExecFns, StrSliceExecFns};

verus! {

/// The fixed name of the dispatch interface.
pub open spec fn visitor_name() -> Seq<char> {
    "Visitor"@
}

/// The method name a node contributes: `visit_` before its file key.
pub open spec fn method_name_of(name: Seq<char>) -> Seq<char> {
    "visit_"@ + file_key_of(name)
}

/// Mathematical image of a [`Method`].
pub ghost struct MethodView {
    pub name: Seq<char>,
    pub param_module: Seq<char>,
    pub param_ty: Seq<char>,
}

/// One method of the dispatch interface: its name and the generated node
/// type — referenced as `<param_module>::<param_ty>` — that it takes by
/// immutable reference.
#[derive(Debug, Clone, PartialEq, Eq)]
pub struct Method {
    pub name: String,
    pub param_module: String,
    pub param_ty: String,
}

impl View for Method {
    type V = MethodView;

    open spec fn view(&self) -> MethodView {
        MethodView {
            name: self.name@,
            param_module: self.param_module@,
            param_ty: self.param_ty@,
        }
    }
}

/// Mathematical image of a [`DispatchInterface`].
pub ghost struct DispatchView {
    pub name: Seq<char>,
    pub methods: Seq<MethodView>,
}

/// The dispatch-interface artifact: its fixed name and one method per
/// node, in schema order.
#[derive(Debug, Clone, PartialEq, Eq)]
pub struct DispatchInterface {
    pub name: String,
    pub methods: Vec<Method>,
}

impl View for DispatchInterface {
    type V = DispatchView;

    open spec fn view(&self) -> DispatchView {
        DispatchView {
            name: self.name@,
            methods: self.methods@.map_values(|m: Method| m@),
        }
    }
}

/// The method a node contributes to the dispatch interface.
pub open spec fn method_of(node: NodeView) -> MethodView {
    MethodView {
        name: method_name_of(node.name),
        param_module: file_key_of(node.name),
        param_ty: ty_name_of(node.name),
    }
}

/// What the dispatch interface synthesizer produces for a schema.
pub open spec fn synthesize_visitor_spec(nodes: Seq<NodeView>) -> DispatchView {
    DispatchView {
        name: visitor_name(),
        methods: nodes.map_values(|n: NodeView| method_of(n)),
    }
}

/// Synthesize the dispatch interface: one `visit_<file key>` method per
/// node, appended in schema order, taking the node's generated type by
/// reference.
pub fn synthesize_visitor(schema: &Vec<NodeSpec>) -> (r: DispatchInterface)
    ensures
        r@ == synthesize_visitor_spec(node_views(schema@)),
{
    let ghost nodes = node_views(schema@);
    let n = schema.len();
    let mut methods: Vec<Method> = Vec::new();
    let mut i: usize = 0;
    while i < n
        invariant
            n == schema@.len(),
            nodes == node_views(schema@),
            0 <= i <= n,
            methods@.len() == i,
            forall|j: int| 0 <= j < i ==> (#[trigger] methods@[j])@ == method_of(nodes[j]),
        decreases n - i,
    {
        let key = file_key(schema[i].name.as_str());
        let name = String::from_str("visit_").concat(key.as_str());
        methods.push(
            Method {
                name,
                param_module: key,
                param_ty: ty_name(schema[i].name.as_str()),
            },
        );
        i = i + 1;
    }
    let r = DispatchInterface { name: String::from_str("Visitor"), methods };
    proof {
        assert(r@.methods =~= synthesize_visitor_spec(nodes).methods);
        assert(r@ == synthesize_visitor_spec(nodes));
    }
    r
}

/// The dispatch interface mirrors the schema: exactly one method per node,
/// in schema order — method `i` belongs to node `i` — and each method's
/// parameter type is exactly the type the node synthesizer generates for
/// its node, behind that node's module key.
pub proof fn lemma_visitor_matches_schema(
    rules: Seq<crate::registry::ImportRuleView>,
    nodes: Seq<NodeView>,
)
    ensures
        synthesize_visitor_spec(nodes).methods.len() == nodes.len(),
        forall|i: int|
            0 <= i < nodes.len() ==> (#[trigger] synthesize_visitor_spec(nodes).methods[i]).name
                == method_name_of(nodes[i].name),
        forall|i: int|
            0 <= i < nodes.len() ==> (#[trigger] synthesize_visitor_spec(
                nodes,
            ).methods[i]).param_module == file_key_of(nodes[i].name),
        forall|i: int|
            0 <= i < nodes.len() && crate::nodes::synthesize_node_spec(rules, nodes[i]) is Some
                ==> (#[trigger] synthesize_visitor_spec(nodes).methods[i]).param_ty
                == crate::nodes::synthesize_node_spec(rules, nodes[i])->Some_0.ty_name,
{
}

} // verus!
