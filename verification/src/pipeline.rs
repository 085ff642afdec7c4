//! The generation pipeline: schema lines in, the three artifact families
//! out.
//!
//! A run parses the whole schema, synthesizes one node artifact per entry,
//! then the sum type and the dispatch interface, all in memory.  The first
//! malformed line or by-value self-reference aborts the run with its error
//! before any artifact is handed out — all or nothing, no partial result.
//! Handing the finished artifacts to a renderer, and writing them out, is
//! the caller's business.

use vstd::prelude::*;

use crate::error::{GenError, GenErrorView};
use crate::nodes::{
    GeneratedNodeType, GeneratedNodeView, file_key, file_key_of, synthesize_node,
    synthesize_node_spec, value_ref_field,
};
use crate::registry::{Registry, ImportRuleView};
use crate::schema::{NodeSpec, NodeView, node_views, parse_schema, parse_schema_spec};
use crate::sum::{SumType, SumTypeView, synthesize_sum, synthesize_sum_spec};
use crate::text::str_views;
use crate::visitor::{DispatchInterface, DispatchView, synthesize_visitor, synthesize_visitor_spec};

verus! {

/// Mathematical image of a [`NodeArtifact`].
pub ghost struct NodeArtifactView {
    pub file_key: Seq<char>,
    pub node_ty: GeneratedNodeView,
}

/// One per-node output unit: the node's generated type, under the
/// module/file key its artifact is filed by.
#[derive(Debug, Clone, PartialEq, Eq)]
pub struct NodeArtifact {
    pub file_key: String,
    pub node_ty: GeneratedNodeType,
}

impl View for NodeArtifact {
    type V = NodeArtifactView;

    open spec fn view(&self) -> NodeArtifactView {
        NodeArtifactView { file_key: self.file_key@, node_ty: self.node_ty@ }
    }
}

/// The images of a list of node artifacts, in order.
pub open spec fn artifact_views(arts: Seq<NodeArtifact>) -> Seq<NodeArtifactView> {
    arts.map_values(|a: NodeArtifact| a@)
}

/// Mathematical image of an [`Artifacts`].
pub ghost struct ArtifactsView {
    pub nodes: Seq<NodeArtifactView>,
    pub sum: SumTypeView,
    pub visitor: DispatchView,
}

/// Everything one run generates: one artifact per node in schema order,
/// the sum type, and the dispatch interface.
#[derive(Debug, Clone, PartialEq, Eq)]
pub struct Artifacts {
    pub nodes: Vec<NodeArtifact>,
    pub sum: SumType,
    pub visitor: DispatchInterface,
}

impl View for Artifacts {
    type V = ArtifactsView;

    open spec fn view(&self) -> ArtifactsView {
        ArtifactsView { nodes: artifact_views(self.nodes@), sum: self.sum@, visitor: self.visitor@ }
    }
}

/// What node synthesis produces over a whole schema: one artifact per node
/// in order, stopping at the first rejected node.
pub open spec fn synthesize_nodes_spec(rules: Seq<ImportRuleView>, nodes: Seq<NodeView>) -> Result<
    Seq<NodeArtifactView>,
    GenErrorView,
>
    decreases nodes.len(),
{
    if nodes.len() == 0 {
        Ok(Seq::empty())
    } else {
        match synthesize_node_spec(rules, nodes[0]) {
            Some(g) => match synthesize_nodes_spec(rules, nodes.skip(1)) {
                Ok(rest) => Ok(
                    seq![NodeArtifactView { file_key: file_key_of(nodes[0].name), node_ty: g }]
                        + rest,
                ),
                Err(e) => Err(e),
            },
            None => Err(
                GenErrorView::ValueSelfReference {
                    node: nodes[0].name,
                    field: value_ref_field(nodes[0].fields),
                },
            ),
        }
    }
}

/// What a whole run produces from its schema lines, against a registry:
/// either every artifact, or the error of the first malformed line or
/// rejected node.
pub open spec fn generate_spec(rules: Seq<ImportRuleView>, lines: Seq<Seq<char>>) -> Result<
    ArtifactsView,
    GenErrorView,
> {
    match parse_schema_spec(lines) {
        Ok(nodes) => match synthesize_nodes_spec(rules, nodes) {
            Ok(arts) => Ok(
                ArtifactsView {
                    nodes: arts,
                    sum: synthesize_sum_spec(nodes),
                    visitor: synthesize_visitor_spec(nodes),
                },
            ),
            Err(e) => Err(e),
        },
        Err(e) => Err(e),
    }
}

/// Synthesize every node artifact, in schema order; the first rejected
/// node aborts the run with its error.
fn synthesize_nodes(reg: &Registry, schema: &Vec<NodeSpec>) -> (r: Result<
    Vec<NodeArtifact>,
    GenError,
>)
    ensures
        (r is Ok) == (synthesize_nodes_spec(reg@, node_views(schema@)) is Ok),
        (r matches Ok(arts) ==> synthesize_nodes_spec(reg@, node_views(schema@)) == Ok::<
            Seq<NodeArtifactView>,
            GenErrorView,
        >(artifact_views(arts@))),
        (r matches Err(e) ==> synthesize_nodes_spec(reg@, node_views(schema@)) == Err::<
            Seq<NodeArtifactView>,
            GenErrorView,
        >(e@)),
{
    let ghost nodes = node_views(schema@);
    let n = schema.len();
    let mut out: Vec<NodeArtifact> = Vec::new();
    let mut i: usize = 0;
    proof {
        assert(nodes.skip(0) =~= nodes);
        if let Ok(rest) = synthesize_nodes_spec(reg@, nodes) {
            assert(artifact_views(out@) + rest =~= rest);
        }
    }
    while i < n
        invariant
            n == schema@.len(),
            nodes == node_views(schema@),
            0 <= i <= n,
            synthesize_nodes_spec(reg@, nodes) == (match synthesize_nodes_spec(
                reg@,
                nodes.skip(i as int),
            ) {
                Ok(rest) => Ok::<Seq<NodeArtifactView>, GenErrorView>(
                    artifact_views(out@) + rest,
                ),
                Err(e) => Err::<Seq<NodeArtifactView>, GenErrorView>(e),
            }),
        decreases n - i,
    {
        let ghost tail = nodes.skip(i as int);
        proof {
            assert(tail.len() > 0);
            assert(tail[0] == schema@[i as int]@);
            assert(tail.skip(1) =~= nodes.skip(i as int + 1));
        }
        match synthesize_node(reg, &schema[i]) {
            Ok(g) => {
                let key = file_key(schema[i].name.as_str());
                let ghost prev = out@;
                out.push(NodeArtifact { file_key: key, node_ty: g });
                proof {
                    let a = NodeArtifactView { file_key: file_key_of(tail[0].name), node_ty: g@ };
                    assert(artifact_views(out@) =~= artifact_views(prev) + seq![a]);
                    if let Ok(rest) = synthesize_nodes_spec(reg@, tail.skip(1)) {
                        assert((artifact_views(prev) + seq![a]) + rest =~= artifact_views(prev)
                            + (seq![a] + rest));
                    }
                }
            },
            Err(e) => {
                return Err(e);
            },
        }
        i = i + 1;
    }
    proof {
        assert(nodes.skip(i as int) =~= Seq::<NodeView>::empty());
        assert(artifact_views(out@) + Seq::<NodeArtifactView>::empty() =~= artifact_views(out@));
    }
    Ok(out)
}

/// Run the whole pipeline: parse the schema lines, then synthesize every
/// node artifact, the sum type and the dispatch interface, staged in memory
/// as one all-or-nothing result.  The first malformed line or by-value
/// self-reference aborts the run with its error and no artifact at all.
pub fn generate(reg: &Registry, lines: &Vec<String>) -> (r: Result<Artifacts, GenError>)
    ensures
        (r is Ok) == (generate_spec(reg@, str_views(lines@)) is Ok),
        (r matches Ok(arts) ==> generate_spec(reg@, str_views(lines@)) == Ok::<
            ArtifactsView,
            GenErrorView,
        >(arts@)),
        (r matches Err(e) ==> generate_spec(reg@, str_views(lines@)) == Err::<
            ArtifactsView,
            GenErrorView,
        >(e@)),
{
    let schema = match parse_schema(lines) {
        Ok(schema) => schema,
        Err(e) => {
            return Err(e);
        },
    };
    let nodes = match synthesize_nodes(reg, &schema) {
        Ok(nodes) => nodes,
        Err(e) => {
            return Err(e);
        },
    };
    let sum = synthesize_sum(&schema);
    let visitor = synthesize_visitor(&schema);
    Ok(Artifacts { nodes, sum, visitor })
}

/// Generation is deterministic: two runs over identical schema lines,
/// against the same registry, produce identical artifacts — or the
/// identical error.  Byte-identical rendered output then rests on the
/// renderer alone.
pub proof fn lemma_generation_deterministic(
    rules: Seq<ImportRuleView>,
    first: Seq<Seq<char>>,
    second: Seq<Seq<char>>,
)
    requires
        first == second,
    ensures
        generate_spec(rules, first) == generate_spec(rules, second),
{
}

} // verus!
