//! The errors a generation run can end with.  Every one of them is fatal:
//! the run aborts before any artifact is finalized.

use vstd::prelude::*;
use vstd::string::StringExecFns;

verus! {

/// Mathematical image of a [`GenError`].
pub ghost enum GenErrorView {
    /// Schema syntax: a node line without the `" : "` separator.
    MissingNodeSeparator { line: Seq<char> },
    /// Schema syntax: a field of a node line without the `": "` separator.
    MissingFieldSeparator { line: Seq<char>, field: Seq<char> },
    /// A field embeds the sum type by value instead of behind an owned
    /// indirection; such a type would be infinitely sized.
    ValueSelfReference { node: Seq<char>, field: Seq<char> },
}

/// Why a generation run failed.  The two separator variants are schema
/// syntax errors; the last one is the validation that keeps every
/// self-referential field behind an owned indirection.
#[derive(Debug, Clone, PartialEq, Eq)]
pub enum GenError {
    MissingNodeSeparator { line: String },
    MissingFieldSeparator { line: String, field: String },
    ValueSelfReference { node: String, field: String },
}

impl View for GenError {
    type V = GenErrorView;

    open spec fn view(&self) -> GenErrorView {
        match self {
            GenError::MissingNodeSeparator { line } => GenErrorView::MissingNodeSeparator {
                line: line@,
            },
            GenError::MissingFieldSeparator { line, field } => GenErrorView::MissingFieldSeparator {
                line: line@,
                field: field@,
            },
            GenError::ValueSelfReference { node, field } => GenErrorView::ValueSelfReference {
                node: node@,
                field: field@,
            },
        }
    }
}

/// The description an erroring run terminates with: it names the offending
/// schema text and, for syntax errors, the expected separator.
pub open spec fn message_of(e: GenErrorView) -> Seq<char> {
    match e {
        GenErrorView::MissingNodeSeparator { line } => "schema line '"@ + line
            + "' lacks the node separator ' : '"@,
        GenErrorView::MissingFieldSeparator { line, field } => "schema field '"@ + field
            + "' in line '"@ + line + "' lacks the field separator ': '"@,
        GenErrorView::ValueSelfReference { node, field } => "field '"@ + field + "' of node '"@
            + node + "' embeds the sum type by value; wrap it in an owned indirection"@,
    }
}

impl GenError {
    /// Render the error as the description of the offending schema line and
    /// the expected separator.
    pub fn message(&self) -> (r: String)
        ensures
            r@ == message_of(self@),
    {
        match self {
            GenError::MissingNodeSeparator { line } => {
                let r = String::from_str("schema line '").concat(line.as_str()).concat(
                    "' lacks the node separator ' : '",
                );
                assert(r@ =~= message_of(self@));
                r
            },
            GenError::MissingFieldSeparator { line, field } => {
                let r = String::from_str("schema field '").concat(field.as_str()).concat(
                    "' in line '",
                ).concat(line.as_str()).concat("' lacks the field separator ': '");
                assert(r@ =~= message_of(self@));
                r
            },
            GenError::ValueSelfReference { node, field } => {
                let r = String::from_str("field '").concat(field.as_str()).concat(
                    "' of node '",
                ).concat(node.as_str()).concat(
                    "' embeds the sum type by value; wrap it in an owned indirection",
                );
                assert(r@ =~= message_of(self@));
                r
            },
        }
    }
}

} // verus!
