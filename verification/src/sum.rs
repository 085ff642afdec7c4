//! The sum type synthesizer: the closed union of all node kinds.
//!
//! The sum type is named `"Expr"` and carries exactly one variant per node
//! specification, in schema order.  Each variant holds one associated
//! value, the node's generated type, referenced through its per-node
//! module/file key rather than duplicated inline; one public module
//! declaration per node makes each payload type reachable from the sum
//! type's enclosing scope.  Variant names are the short node names — the
//! generation suffix is left off, so consumers pattern-match on
//! interpreter-facing names.

use vstd::prelude::*;

use crate::nodes::{file_key, file_key_of, ty_name, ty_name_of, sum_ty_name};
use crate::schema::{NodeSpec, NodeView, node_views};
use vstd::string::StringExecFns;

verus! {

/// Mathematical image of a [`Variant`].
pub ghost struct VariantView {
    pub name: Seq<char>,
    pub module_key: Seq<char>,
    pub payload_ty: Seq<char>,
}

/// One variant of the sum type: the short node name, and its payload type
/// referenced as `<module_key>::<payload_ty>`.
#[derive(Debug, Clone, PartialEq, Eq)]
pub struct Variant {
    pub name: String,
    pub module_key: String,
    pub payload_ty: String,
}

impl View for Variant {
    type V = VariantView;

    open spec fn view(&self) -> VariantView {
        VariantView {
            name: self.name@,
            module_key: self.module_key@,
            payload_ty: self.payload_ty@,
        }
    }
}

/// Mathematical image of a [`SumType`].
pub ghost struct SumTypeView {
    pub name: Seq<char>,
    pub modules: Seq<Seq<char>>,
    pub variants: Seq<VariantView>,
}

/// The sum-type artifact: its fixed name, one public module declaration per
/// node, and one variant per node, all in schema order.
#[derive(Debug, Clone, PartialEq, Eq)]
pub struct SumType {
    pub name: String,
    pub modules: Vec<String>,
    pub variants: Vec<Variant>,
}

impl View for SumType {
    type V = SumTypeView;

    open spec fn view(&self) -> SumTypeView {
        SumTypeView {
            name: self.name@,
            modules: crate::text::str_views(self.modules@),
            variants: self.variants@.map_values(|v: Variant| v@),
        }
    }
}

/// The variant a node contributes to the sum type.
pub open spec fn variant_of(node: NodeView) -> VariantView {
    VariantView {
        name: node.name,
        module_key: file_key_of(node.name),
        payload_ty: ty_name_of(node.name),
    }
}

/// What the sum type synthesizer produces for a schema.
pub open spec fn synthesize_sum_spec(nodes: Seq<NodeView>) -> SumTypeView {
    SumTypeView {
        name: sum_ty_name(),
        modules: nodes.map_values(|n: NodeView| file_key_of(n.name)),
        variants: nodes.map_values(|n: NodeView| variant_of(n)),
    }
}

/// Synthesize the sum type: one module declaration and one variant per
/// node, in schema order, each variant holding the node's generated type
/// behind its module/file key.
pub fn synthesize_sum(schema: &Vec<NodeSpec>) -> (r: SumType)
    ensures
        r@ == synthesize_sum_spec(node_views(schema@)),
{
    let ghost nodes = node_views(schema@);
    let n = schema.len();
    let mut modules: Vec<String> = Vec::new();
    let mut variants: Vec<Variant> = Vec::new();
    let mut i: usize = 0;
    while i < n
        invariant
            n == schema@.len(),
            nodes == node_views(schema@),
            0 <= i <= n,
            modules@.len() == i,
            variants@.len() == i,
            forall|j: int| 0 <= j < i ==> (#[trigger] modules@[j])@ == file_key_of(nodes[j].name),
            forall|j: int| 0 <= j < i ==> (#[trigger] variants@[j])@ == variant_of(nodes[j]),
        decreases n - i,
    {
        let key = file_key(schema[i].name.as_str());
        modules.push(key.clone());
        variants.push(
            Variant {
                name: schema[i].name.clone(),
                module_key: key,
                payload_ty: ty_name(schema[i].name.as_str()),
            },
        );
        i = i + 1;
    }
    let r = SumType { name: String::from_str("Expr"), modules, variants };
    proof {
        assert(r@.modules =~= synthesize_sum_spec(nodes).modules);
        assert(r@.variants =~= synthesize_sum_spec(nodes).variants);
        assert(r@ == synthesize_sum_spec(nodes));
    }
    r
}

/// The sum type mirrors the schema: exactly one variant per node, variant
/// `i` carrying node `i`'s short name, and its payload exactly the type the
/// node synthesizer generates for node `i`, behind that node's module key.
pub proof fn lemma_sum_matches_schema(
    rules: Seq<crate::registry::ImportRuleView>,
    nodes: Seq<NodeView>,
)
    ensures
        synthesize_sum_spec(nodes).variants.len() == nodes.len(),
        synthesize_sum_spec(nodes).modules.len() == nodes.len(),
        forall|i: int|
            0 <= i < nodes.len() ==> (#[trigger] synthesize_sum_spec(nodes).variants[i]).name
                == nodes[i].name,
        forall|i: int|
            0 <= i < nodes.len() ==> (#[trigger] synthesize_sum_spec(nodes).variants[i]).module_key
                == file_key_of(nodes[i].name),
        forall|i: int|
            0 <= i < nodes.len() && crate::nodes::synthesize_node_spec(rules, nodes[i]) is Some
                ==> (#[trigger] synthesize_sum_spec(nodes).variants[i]).payload_ty
                == crate::nodes::synthesize_node_spec(rules, nodes[i])->Some_0.ty_name,
{
}

} // verus!
