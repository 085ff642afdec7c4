//! The node synthesizer: one generated type definition per node
//! specification.
//!
//! The type name is the node name with the fixed `"Expr"` suffix, the
//! fields are copied verbatim with public visibility left to the renderer,
//! and the imports the fields require are resolved through the registry.
//! A field may reference the sum type itself, but only behind an owned
//! indirection — an owned box or an owning sequence — never by value: a sum
//! type embedded by value would make the type infinitely sized.  A node
//! that breaks this invariant is rejected.

use vstd::prelude::*;

use crate::error::{GenError, GenErrorView};
use crate::registry::{Registry, ImportRuleView, resolve_spec, resolve_imports};
use crate::schema::{FieldSpec, FieldView, NodeSpec, NodeView, field_views};
use crate::text::{lower, lower_str, refs_wrapped, refs_wrapped_exec, str_views};
use vstd::string::StringExecFns;

verus! {

/// The name of the sum type, and so the symbol whose whole-identifier
/// occurrences are self-references.
pub open spec fn sum_ty_name() -> Seq<char> {
    "Expr"@
}

/// The suffix every generated node type name carries.
pub open spec fn type_suffix() -> Seq<char> {
    "Expr"@
}

/// The opening of the owned-indirection wrapper in a type expression.
pub open spec fn owned_open() -> Seq<char> {
    "Owned<"@
}

/// The opening of the sequence wrapper, itself an owning heap indirection.
pub open spec fn sequence_open() -> Seq<char> {
    "Sequence<"@
}

/// The generated type name of a node: its name with the fixed suffix.
pub open spec fn ty_name_of(name: Seq<char>) -> Seq<char> {
    name + type_suffix()
}

/// The per-node module/file key: the lowercased node name with the fixed
/// `"_expr"` suffix.
pub open spec fn file_key_of(name: Seq<char>) -> Seq<char> {
    lower(name) + "_expr"@
}

/// Every self-reference in the type expression stands behind an owned
/// indirection: directly inside an owned or a sequence wrapper.
pub open spec fn self_refs_indirect(type_expr: Seq<char>) -> bool {
    refs_wrapped(type_expr, sum_ty_name(), owned_open(), sequence_open())
}

/// Every field of the node keeps its self-references behind an owned
/// indirection.
pub open spec fn node_indirect(fields: Seq<FieldView>) -> bool {
    forall|k: int| 0 <= k < fields.len() ==> self_refs_indirect(#[trigger] fields[k].type_expr)
}

/// The name of the first field embedding the sum type by value; meaningful
/// where `node_indirect(fields)` fails.
pub open spec fn value_ref_field(fields: Seq<FieldView>) -> Seq<char>
    decreases fields.len(),
{
    if fields.len() == 0 {
        Seq::empty()
    } else if !self_refs_indirect(fields[0].type_expr) {
        fields[0].name
    } else {
        value_ref_field(fields.skip(1))
    }
}

/// Mathematical image of a [`GeneratedNodeType`].
pub ghost struct GeneratedNodeView {
    pub ty_name: Seq<char>,
    pub fields: Seq<FieldView>,
    pub imports: Seq<Seq<char>>,
}

/// One generated artifact: a node's type definition, with the imports its
/// field type expressions require.
#[derive(Debug, Clone, PartialEq, Eq)]
pub struct GeneratedNodeType {
    pub ty_name: String,
    pub fields: Vec<FieldSpec>,
    pub imports: Vec<String>,
}

impl View for GeneratedNodeType {
    type V = GeneratedNodeView;

    open spec fn view(&self) -> GeneratedNodeView {
        GeneratedNodeView {
            ty_name: self.ty_name@,
            fields: field_views(self.fields@),
            imports: str_views(self.imports@),
        }
    }
}

/// What the node synthesizer produces for a node, against a registry:
/// `None` exactly where some field embeds the sum type by value.
pub open spec fn synthesize_node_spec(rules: Seq<ImportRuleView>, node: NodeView) -> Option<
    GeneratedNodeView,
> {
    if node_indirect(node.fields) {
        Some(
            GeneratedNodeView {
                ty_name: ty_name_of(node.name),
                fields: node.fields,
                imports: resolve_spec(rules, node.fields),
            },
        )
    } else {
        None
    }
}

/// Where the first `k` fields are indirect and field `k` is not, the
/// offending field named by `value_ref_field` is field `k`.
proof fn lemma_value_ref_field(fields: Seq<FieldView>, k: int)
    requires
        0 <= k < fields.len(),
        forall|j: int| 0 <= j < k ==> self_refs_indirect(#[trigger] fields[j].type_expr),
        !self_refs_indirect(fields[k].type_expr),
    ensures
        value_ref_field(fields) == fields[k].name,
    decreases k,
{
    if k == 0 {
    } else {
        assert forall|j: int| 0 <= j < k - 1 implies self_refs_indirect(
            #[trigger] fields.skip(1)[j].type_expr,
        ) by {
            assert(fields.skip(1)[j] == fields[j + 1]);
        }
        assert(fields.skip(1)[k - 1] == fields[k]);
        lemma_value_ref_field(fields.skip(1), k - 1);
    }
}

/// Copy one field verbatim.
fn copy_field(f: &FieldSpec) -> (r: FieldSpec)
    ensures
        r@ == f@,
{
    FieldSpec { name: f.name.clone(), type_expr: f.type_expr.clone() }
}

/// Copy a field list verbatim, order preserved.
fn copy_fields(fs: &Vec<FieldSpec>) -> (r: Vec<FieldSpec>)
    ensures
        field_views(r@) =~= field_views(fs@),
{
    let n = fs.len();
    let mut out: Vec<FieldSpec> = Vec::new();
    let mut i: usize = 0;
    while i < n
        invariant
            n == fs@.len(),
            0 <= i <= n,
            out@.len() == i,
            forall|j: int| 0 <= j < i ==> field_views(out@)[j] == field_views(fs@)[j],
        decreases n - i,
    {
        out.push(copy_field(&fs[i]));
        i = i + 1;
    }
    out
}

/// The generated type name of a node name: the name with the fixed suffix.
pub fn ty_name(name: &str) -> (r: String)
    ensures
        r@ == ty_name_of(name@),
{
    name.to_owned().concat("Expr")
}

/// The per-node module/file key of a node name.
pub fn file_key(name: &str) -> (r: String)
    ensures
        r@ == file_key_of(name@),
{
    lower_str(name).concat("_expr")
}

/// Synthesize the generated type of one node: the suffixed type name, the
/// fields verbatim and in order, and exactly the imports the registry
/// resolves for them.  A field that embeds the sum type by value is
/// rejected, so that every generated type is finite-sized.
pub fn synthesize_node(reg: &Registry, node: &NodeSpec) -> (r: Result<GeneratedNodeType, GenError>)
    ensures
        (r is Ok) == (synthesize_node_spec(reg@, node@) is Some),
        (r matches Ok(g) ==> synthesize_node_spec(reg@, node@) == Some(g@)),
        (r matches Err(e) ==> e@ == (GenErrorView::ValueSelfReference {
            node: node@.name,
            field: value_ref_field(node@.fields),
        })),
{
    let n = node.fields.len();
    let mut k: usize = 0;
    while k < n
        invariant
            n == node.fields@.len(),
            0 <= k <= n,
            forall|j: int|
                0 <= j < k ==> self_refs_indirect(
                    #[trigger] field_views(node.fields@)[j].type_expr,
                ),
        decreases n - k,
    {
        if !refs_wrapped_exec(node.fields[k].type_expr.as_str(), "Expr", "Owned<", "Sequence<") {
            proof {
                lemma_value_ref_field(field_views(node.fields@), k as int);
            }
            return Err(
                GenError::ValueSelfReference {
                    node: node.name.clone(),
                    field: node.fields[k].name.clone(),
                },
            );
        }
        k = k + 1;
    }
    let ty_name = node.name.as_str().to_owned().concat("Expr");
    let fields = copy_fields(&node.fields);
    let imports = resolve_imports(reg, &node.fields);
    Ok(GeneratedNodeType { ty_name, fields, imports })
}

/// Every self-referential field of a synthesized node stands behind an
/// owned indirection — an owned box or an owning sequence — never embedding
/// the sum type by value.
pub proof fn lemma_self_references_indirect(
    rules: Seq<ImportRuleView>,
    node: NodeView,
    g: GeneratedNodeView,
)
    requires
        synthesize_node_spec(rules, node) == Some(g),
    ensures
        forall|k: int| 0 <= k < g.fields.len() ==> self_refs_indirect(
            #[trigger] g.fields[k].type_expr,
        ),
{
}

} // verus!
