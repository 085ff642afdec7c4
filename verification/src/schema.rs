//! The schema parser: raw schema lines, one per node kind, become an
//! ordered list of node specifications.
//!
//! A line reads `"<Name> : <field>, <field>, ..."` and each field reads
//! `"<name>: <type expression>"`.  The line is split at the first `" : "`,
//! the right-hand side at every `", "`, and each field at the first `": "`;
//! a missing separator is a fatal syntax error.  Input order is preserved
//! exactly, and type expressions are kept unparsed: their well-formedness is
//! no concern of this stage.

use vstd::prelude::*;

use crate::error::{GenError, GenErrorView};
use crate::text::{first_occurrence, has_occurrence, lemma_first_occurrence, find_first, str_views};
use vstd::string::StrSliceExecFns;

verus! {

/// Mathematical image of a [`FieldSpec`].
pub ghost struct FieldView {
    pub name: Seq<char>,
    pub type_expr: Seq<char>,
}

/// One field of a node: a name and an unparsed type expression.
#[derive(Debug, Clone, PartialEq, Eq)]
pub struct FieldSpec {
    pub name: String,
    pub type_expr: String,
}

impl View for FieldSpec {
    type V = FieldView;

    open spec fn view(&self) -> FieldView {
        FieldView { name: self.name@, type_expr: self.type_expr@ }
    }
}

/// Mathematical image of a [`NodeSpec`].
pub ghost struct NodeView {
    pub name: Seq<char>,
    pub fields: Seq<FieldView>,
}

/// One schema entry: a node kind's name and its ordered field list.
#[derive(Debug, Clone, PartialEq, Eq)]
pub struct NodeSpec {
    pub name: String,
    pub fields: Vec<FieldSpec>,
}

/// The images of a list of fields, in order.
pub open spec fn field_views(fs: Seq<FieldSpec>) -> Seq<FieldView> {
    fs.map_values(|f: FieldSpec| f@)
}

/// The images of a list of nodes, in order.
pub open spec fn node_views(ns: Seq<NodeSpec>) -> Seq<NodeView> {
    ns.map_values(|n: NodeSpec| n@)
}

impl View for NodeSpec {
    type V = NodeView;

    open spec fn view(&self) -> NodeView {
        NodeView { name: self.name@, fields: field_views(self.fields@) }
    }
}

/// The separator between a node's name and its field list.
pub open spec fn node_sep() -> Seq<char> {
    " : "@
}

/// The separator between a field's name and its type expression.
pub open spec fn field_sep() -> Seq<char> {
    ": "@
}

/// The separator between two fields.
pub open spec fn list_sep() -> Seq<char> {
    ", "@
}

/// What one raw field parses to: the text before the first `": "` names the
/// field, the text after it is the type expression; no `": "`, no field.
pub open spec fn parse_field_spec(text: Seq<char>) -> Option<FieldView> {
    if has_occurrence(text, field_sep()) {
        let i = first_occurrence(text, field_sep());
        Some(
            FieldView {
                name: text.subrange(0, i),
                type_expr: text.subrange(i + field_sep().len() as int, text.len() as int),
            },
        )
    } else {
        None
    }
}

/// What a node line's right-hand side parses to: the text is split at every
/// `", "` and each piece must parse as a field.
pub open spec fn parse_fields_spec(text: Seq<char>) -> Option<Seq<FieldView>>
    decreases text.len(),
    via parse_fields_spec_dec
{
    if has_occurrence(text, list_sep()) {
        let i = first_occurrence(text, list_sep());
        let head = parse_field_spec(text.subrange(0, i));
        let rest = parse_fields_spec(
            text.subrange(i + list_sep().len() as int, text.len() as int),
        );
        match (head, rest) {
            (Some(f), Some(fs)) => Some(seq![f] + fs),
            _ => None,
        }
    } else {
        match parse_field_spec(text) {
            Some(f) => Some(seq![f]),
            None => None,
        }
    }
}

#[via_fn]
proof fn parse_fields_spec_dec(text: Seq<char>) {
    if has_occurrence(text, list_sep()) {
        lemma_first_occurrence(text, list_sep());
        reveal_strlit(", ");
    }
}

/// The first raw field of the right-hand side `text` that lacks the field
/// separator; meaningful where `parse_fields_spec(text)` is `None`.
pub open spec fn unparsable_field(text: Seq<char>) -> Seq<char>
    decreases text.len(),
    via unparsable_field_dec
{
    if has_occurrence(text, list_sep()) {
        let i = first_occurrence(text, list_sep());
        if !has_occurrence(text.subrange(0, i), field_sep()) {
            text.subrange(0, i)
        } else {
            unparsable_field(text.subrange(i + list_sep().len() as int, text.len() as int))
        }
    } else {
        text
    }
}

#[via_fn]
proof fn unparsable_field_dec(text: Seq<char>) {
    if has_occurrence(text, list_sep()) {
        lemma_first_occurrence(text, list_sep());
        reveal_strlit(", ");
    }
}

/// What one schema line parses to: the text before the first `" : "` names
/// the node, the right-hand side gives its fields in order.
pub open spec fn parse_line_spec(line: Seq<char>) -> Option<NodeView> {
    if has_occurrence(line, node_sep()) {
        let i = first_occurrence(line, node_sep());
        match parse_fields_spec(line.subrange(i + node_sep().len() as int, line.len() as int)) {
            Some(fs) => Some(NodeView { name: line.subrange(0, i), fields: fs }),
            None => None,
        }
    } else {
        None
    }
}

/// The error a malformed schema line is rejected with.
pub open spec fn line_error(line: Seq<char>) -> GenErrorView {
    if has_occurrence(line, node_sep()) {
        let i = first_occurrence(line, node_sep());
        GenErrorView::MissingFieldSeparator {
            line,
            field: unparsable_field(
                line.subrange(i + node_sep().len() as int, line.len() as int),
            ),
        }
    } else {
        GenErrorView::MissingNodeSeparator { line }
    }
}

/// What one schema line parses to, with its error where it is malformed.
pub open spec fn line_result(line: Seq<char>) -> Result<NodeView, GenErrorView> {
    match parse_line_spec(line) {
        Some(n) => Ok(n),
        None => Err(line_error(line)),
    }
}

/// What a whole schema parses to: the lines in input order, stopping at the
/// first malformed line (fail-fast, no partial result).
pub open spec fn parse_schema_spec(ls: Seq<Seq<char>>) -> Result<Seq<NodeView>, GenErrorView>
    decreases ls.len(),
{
    if ls.len() == 0 {
        Ok(Seq::empty())
    } else {
        match line_result(ls[0]) {
            Ok(n) => match parse_schema_spec(ls.skip(1)) {
                Ok(rest) => Ok(seq![n] + rest),
                Err(e) => Err(e),
            },
            Err(e) => Err(e),
        }
    }
}

/// Parse one raw field, `"<name>: <type expression>"`.
fn parse_field(piece: &str) -> (r: Option<FieldSpec>)
    ensures
        match r {
            Some(f) => parse_field_spec(piece@) == Some(f@),
            None => parse_field_spec(piece@) is None,
        },
{
    proof {
        reveal_strlit(": ");
    }
    match find_first(piece, ": ") {
        Some(i) => {
            let n = piece.unicode_len();
            let name = piece.substring_char(0, i).to_owned();
            let type_expr = piece.substring_char(i + 2, n).to_owned();
            Some(FieldSpec { name, type_expr })
        },
        None => None,
    }
}

/// Parse the right-hand side of a node line into its ordered field list.
/// `line` is the whole line, carried along for the error description.
fn parse_fields(text: &str, line: &str) -> (r: Result<Vec<FieldSpec>, GenError>)
    ensures
        (r is Ok) == (parse_fields_spec(text@) is Some),
        (r matches Ok(fs) ==> parse_fields_spec(text@) == Some(field_views(fs@))),
        (r matches Err(e) ==> e@ == (GenErrorView::MissingFieldSeparator {
            line: line@,
            field: unparsable_field(text@),
        })),
    decreases text@.len(),
{
    proof {
        reveal_strlit(", ");
    }
    match find_first(text, ", ") {
        Some(i) => {
            let n = text.unicode_len();
            let head_str = text.substring_char(0, i);
            match parse_field(head_str) {
                Some(f) => {
                    let rest_str = text.substring_char(i + 2, n);
                    match parse_fields(rest_str, line) {
                        Ok(mut fs) => {
                            fs.insert(0, f);
                            proof {
                                assert(field_views(fs@) =~= seq![f@] + field_views(
                                    fs@.skip(1),
                                ));
                            }
                            Ok(fs)
                        },
                        Err(e) => Err(e),
                    }
                },
                None => Err(
                    GenError::MissingFieldSeparator {
                        line: line.to_owned(),
                        field: head_str.to_owned(),
                    },
                ),
            }
        },
        None => {
            match parse_field(text) {
                Some(f) => {
                    let fs = vec![f];
                    proof {
                        assert(field_views(fs@) =~= seq![f@]);
                    }
                    Ok(fs)
                },
                None => Err(
                    GenError::MissingFieldSeparator {
                        line: line.to_owned(),
                        field: text.to_owned(),
                    },
                ),
            }
        },
    }
}

/// Parse one schema line into a node specification; a missing separator is
/// rejected with the matching syntax error.
pub fn parse_schema_line(line: &str) -> (r: Result<NodeSpec, GenError>)
    ensures
        (r is Ok) == (parse_line_spec(line@) is Some),
        (r matches Ok(n) ==> parse_line_spec(line@) == Some(n@)),
        (r matches Err(e) ==> parse_line_spec(line@) is None && e@ == line_error(line@)),
{
    proof {
        reveal_strlit(" : ");
    }
    match find_first(line, " : ") {
        Some(i) => {
            let n = line.unicode_len();
            let name = line.substring_char(0, i).to_owned();
            let rhs = line.substring_char(i + 3, n);
            match parse_fields(rhs, line) {
                Ok(fields) => Ok(NodeSpec { name, fields }),
                Err(e) => Err(e),
            }
        },
        None => Err(GenError::MissingNodeSeparator { line: line.to_owned() }),
    }
}

/// Parse a whole schema, preserving input line order exactly; the first
/// malformed line aborts the parse with its error.
pub fn parse_schema(lines: &Vec<String>) -> (r: Result<Vec<NodeSpec>, GenError>)
    ensures
        (r is Ok) == (parse_schema_spec(str_views(lines@)) is Ok),
        (r matches Ok(ns) ==> parse_schema_spec(str_views(lines@)) == Ok::<
            Seq<NodeView>,
            GenErrorView,
        >(node_views(ns@))),
        (r matches Err(e) ==> parse_schema_spec(str_views(lines@)) == Err::<
            Seq<NodeView>,
            GenErrorView,
        >(e@)),
{
    let ghost all = str_views(lines@);
    let mut out: Vec<NodeSpec> = Vec::new();
    let mut i: usize = 0;
    proof {
        assert(all.skip(0) =~= all);
        if let Ok(rest) = parse_schema_spec(all) {
            assert(node_views(out@) + rest =~= rest);
        }
    }
    while i < lines.len()
        invariant
            0 <= i <= lines.len(),
            all == str_views(lines@),
            parse_schema_spec(all) == (match parse_schema_spec(all.skip(i as int)) {
                Ok(rest) => Ok::<Seq<NodeView>, GenErrorView>(node_views(out@) + rest),
                Err(e) => Err::<Seq<NodeView>, GenErrorView>(e),
            }),
        decreases lines.len() - i,
    {
        let ghost tail = all.skip(i as int);
        proof {
            assert(tail.len() > 0);
            assert(tail[0] == lines@[i as int]@);
            assert(tail.skip(1) =~= all.skip(i as int + 1));
        }
        match parse_schema_line(lines[i].as_str()) {
            Ok(n) => {
                let ghost prev = out@;
                out.push(n);
                proof {
                    assert(line_result(tail[0]) == Ok::<NodeView, GenErrorView>(n@));
                    assert(node_views(out@) =~= node_views(prev) + seq![n@]);
                    assert forall|rest: Seq<NodeView>|
                        (node_views(prev) + seq![n@]) + rest =~= node_views(prev) + (seq![n@]
                            + rest) by {}
                }
            },
            Err(e) => {
                proof {
                    assert(line_result(tail[0]) == Err::<NodeView, GenErrorView>(e@));
                    assert(parse_schema_spec(tail) == Err::<Seq<NodeView>, GenErrorView>(e@));
                }
                return Err(e);
            },
        }
        i = i + 1;
    }
    proof {
        assert(all.skip(i as int) =~= Seq::<Seq<char>>::empty());
        assert(parse_schema_spec(all.skip(i as int)) == Ok::<Seq<NodeView>, GenErrorView>(
            Seq::empty(),
        ));
        assert(node_views(out@) + Seq::<NodeView>::empty() =~= node_views(out@));
    }
    Ok(out)
}

} // verus!
