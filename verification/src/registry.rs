//! The type reference registry: a fixed, closed table mapping every external
//! symbol name a field may reference to the import its use requires.
//!
//! For a node's fields, a registered symbol requires exactly one import of
//! its declaration as soon as it occurs in any field's type expression —
//! however many fields or occurrences there are.  Detection matches whole
//! type identifiers, never bare substrings, and the applicable imports come
//! out in the registry's fixed order, so repeated runs over identical input
//! emit identical text.

use vstd::prelude::*;

use crate::schema::{FieldSpec, FieldView, field_views};
use crate::text::{mentions, mentions_exec, str_views};
use vstd::string::StrSliceExecFns;

verus! {

/// Mathematical image of an [`ImportRule`].
pub ghost struct ImportRuleView {
    pub symbol: Seq<char>,
    pub declaration: Seq<char>,
}

/// One registry entry: an external symbol name and the import declaration
/// that referencing it requires.
#[derive(Debug, Clone, PartialEq, Eq)]
pub struct ImportRule {
    pub symbol: String,
    pub declaration: String,
}

impl View for ImportRule {
    type V = ImportRuleView;

    open spec fn view(&self) -> ImportRuleView {
        ImportRuleView { symbol: self.symbol@, declaration: self.declaration@ }
    }
}

/// The images of a list of import rules, in order.
pub open spec fn rule_views(rs: Seq<ImportRule>) -> Seq<ImportRuleView> {
    rs.map_values(|r: ImportRule| r@)
}

/// A registry is well formed when its symbols are nonempty and pairwise
/// distinct: only then is "exactly one import per referenced symbol" owed.
pub open spec fn registry_wf(rules: Seq<ImportRuleView>) -> bool {
    &&& forall|i: int, j: int|
        0 <= i < j < rules.len() ==> rules[i].symbol != rules[j].symbol
    &&& forall|i: int| 0 <= i < rules.len() ==> (#[trigger] rules[i].symbol).len() > 0
}

/// The ordered table of registered external symbols.
#[derive(Debug, Clone, PartialEq, Eq)]
pub struct Registry {
    pub rules: Vec<ImportRule>,
}

impl View for Registry {
    type V = Seq<ImportRuleView>;

    open spec fn view(&self) -> Seq<ImportRuleView> {
        rule_views(self.rules@)
    }
}

/// `rule` applies to a node: its symbol occurs, as a whole identifier, in
/// at least one field's type expression.
pub open spec fn applies(rule: ImportRuleView, fields: Seq<FieldView>) -> bool {
    exists|k: int| 0 <= k < fields.len() && mentions(#[trigger] fields[k].type_expr, rule.symbol)
}

/// The declarations of exactly the applicable rules, in registry order.
pub open spec fn resolve_spec(rules: Seq<ImportRuleView>, fields: Seq<FieldView>) -> Seq<
    Seq<char>,
>
    decreases rules.len(),
{
    if rules.len() == 0 {
        Seq::empty()
    } else {
        (if applies(rules[0], fields) {
            seq![rules[0].declaration]
        } else {
            Seq::empty()
        }) + resolve_spec(rules.skip(1), fields)
    }
}

impl Registry {
    /// The standard registry: the sum type itself (for recursive
    /// references), the literal-value type and the token type, in
    /// lexicographic symbol order.
    pub fn standard() -> (r: Registry)
        ensures
            r@ =~= seq![
                ImportRuleView { symbol: "Expr"@, declaration: "use super::Expr;"@ },
                ImportRuleView {
                    symbol: "Literal"@,
                    declaration: "use crate::literal::Literal;"@,
                },
                ImportRuleView { symbol: "Token"@, declaration: "use crate::token::Token;"@ },
            ],
            registry_wf(r@),
    {
        let rules = vec![
            ImportRule {
                symbol: String::from_str("Expr"),
                declaration: String::from_str("use super::Expr;"),
            },
            ImportRule {
                symbol: String::from_str("Literal"),
                declaration: String::from_str("use crate::literal::Literal;"),
            },
            ImportRule {
                symbol: String::from_str("Token"),
                declaration: String::from_str("use crate::token::Token;"),
            },
        ];
        proof {
            reveal_strlit("Expr");
            reveal_strlit("Literal");
            reveal_strlit("Token");
            let rv = rule_views(rules@);
            assert(rv[0].symbol.len() == 4);
            assert(rv[1].symbol.len() == 7);
            assert(rv[2].symbol.len() == 5);
            assert forall|i: int, j: int| 0 <= i < j < rv.len() implies rv[i].symbol
                != rv[j].symbol by {
                assert(rv[i].symbol.len() != rv[j].symbol.len());
            }
        }
        Registry { rules }
    }

    /// Build a registry from caller-supplied rules; refused unless the
    /// symbols are nonempty and pairwise distinct.
    pub fn new(rules: Vec<ImportRule>) -> (r: Option<Registry>)
        ensures
            (r is Some) == registry_wf(rule_views(rules@)),
            (r matches Some(reg) ==> reg@ == rule_views(rules@)),
    {
        let n = rules.len();
        let mut i: usize = 0;
        while i < n
            invariant
                n == rules@.len(),
                0 <= i <= n,
                forall|p: int, q: int|
                    0 <= p < q < i ==> rule_views(rules@)[p].symbol != rule_views(
                        rules@,
                    )[q].symbol,
                forall|p: int|
                    0 <= p < i ==> (#[trigger] rule_views(rules@)[p].symbol).len() > 0,
            decreases n - i,
        {
            if rules[i].symbol.as_str().unicode_len() == 0 {
                proof {
                    assert(rule_views(rules@)[i as int].symbol.len() == 0);
                }
                return None;
            }
            let mut j: usize = 0;
            while j < i
                invariant
                    n == rules@.len(),
                    0 <= j <= i < n,
                    forall|q: int|
                        0 <= q < j ==> rule_views(rules@)[q].symbol != rule_views(
                            rules@,
                        )[i as int].symbol,
                decreases i - j,
            {
                if rules[j].symbol == rules[i].symbol {
                    proof {
                        assert(rule_views(rules@)[j as int].symbol == rule_views(
                            rules@,
                        )[i as int].symbol);
                    }
                    return None;
                }
                j = j + 1;
            }
            i = i + 1;
        }
        Some(Registry { rules })
    }
}

/// Does any of the node's field type expressions mention `sym` as a whole
/// identifier?
pub fn fields_mention(fields: &Vec<FieldSpec>, sym: &str) -> (r: bool)
    ensures
        r == applies(
            ImportRuleView { symbol: sym@, declaration: Seq::empty() },
            field_views(fields@),
        ),
{
    let n = fields.len();
    let mut k: usize = 0;
    while k < n
        invariant
            n == fields@.len(),
            0 <= k <= n,
            forall|p: int|
                0 <= p < k ==> !mentions(#[trigger] field_views(fields@)[p].type_expr, sym@),
        decreases n - k,
    {
        if mentions_exec(fields[k].type_expr.as_str(), sym) {
            proof {
                assert(0 <= k < field_views(fields@).len() && mentions(
                    field_views(fields@)[k as int].type_expr,
                    sym@,
                ));
            }
            return true;
        }
        k = k + 1;
    }
    false
}

/// `applies` depends on the rule's symbol alone, not its declaration.
proof fn lemma_applies_symbol_only(a: ImportRuleView, b: ImportRuleView, fields: Seq<FieldView>)
    requires
        a.symbol == b.symbol,
    ensures
        applies(a, fields) == applies(b, fields),
{
}

/// Resolve a node's imports: the declarations of exactly those registered
/// symbols that some field's type expression mentions, one each, in the
/// registry's fixed order.
pub fn resolve_imports(reg: &Registry, fields: &Vec<FieldSpec>) -> (r: Vec<String>)
    ensures
        str_views(r@) =~= resolve_spec(reg@, field_views(fields@)),
{
    let ghost rules = reg@;
    let ghost fviews = field_views(fields@);
    let n = reg.rules.len();
    let mut out: Vec<String> = Vec::new();
    let mut i: usize = 0;
    proof {
        assert(rules.skip(0) =~= rules);
        assert(str_views(out@) + resolve_spec(rules, fviews) =~= resolve_spec(rules, fviews));
    }
    while i < n
        invariant
            n == reg.rules@.len(),
            rules == reg@,
            fviews == field_views(fields@),
            0 <= i <= n,
            str_views(out@) + resolve_spec(rules.skip(i as int), fviews) =~= resolve_spec(
                rules,
                fviews,
            ),
        decreases n - i,
    {
        let ghost tail = rules.skip(i as int);
        proof {
            assert(tail.len() > 0);
            assert(tail[0] == reg.rules@[i as int]@);
            assert(tail.skip(1) =~= rules.skip(i as int + 1));
        }
        let ghost prev = out@;
        if fields_mention(fields, reg.rules[i].symbol.as_str()) {
            proof {
                lemma_applies_symbol_only(
                    ImportRuleView {
                        symbol: reg.rules@[i as int]@.symbol,
                        declaration: Seq::empty(),
                    },
                    tail[0],
                    fviews,
                );
            }
            out.push(reg.rules[i].declaration.clone());
            proof {
                assert(str_views(out@) =~= str_views(prev) + seq![tail[0].declaration]);
                assert((str_views(prev) + seq![tail[0].declaration]) + resolve_spec(
                    tail.skip(1),
                    fviews,
                ) =~= str_views(prev) + (seq![tail[0].declaration] + resolve_spec(
                    tail.skip(1),
                    fviews,
                )));
            }
        } else {
            proof {
                lemma_applies_symbol_only(
                    ImportRuleView {
                        symbol: reg.rules@[i as int]@.symbol,
                        declaration: Seq::empty(),
                    },
                    tail[0],
                    fviews,
                );
                assert(Seq::<Seq<char>>::empty() + resolve_spec(tail.skip(1), fviews)
                    =~= resolve_spec(tail.skip(1), fviews));
            }
        }
        i = i + 1;
    }
    proof {
        assert(rules.skip(i as int) =~= Seq::<ImportRuleView>::empty());
        assert(str_views(out@) + Seq::<Seq<char>>::empty() =~= str_views(out@));
    }
    out
}

/// A node referencing no registered symbol carries no import at all.
pub proof fn lemma_no_reference_no_import(rules: Seq<ImportRuleView>, fields: Seq<FieldView>)
    requires
        forall|r: int| 0 <= r < rules.len() ==> !applies(#[trigger] rules[r], fields),
    ensures
        resolve_spec(rules, fields).len() == 0,
    decreases rules.len(),
{
    if rules.len() > 0 {
        assert(rules[0] == rules.skip(0)[0]);
        assert forall|r: int| 0 <= r < rules.skip(1).len() implies !applies(
            #[trigger] rules.skip(1)[r],
            fields,
        ) by {
            assert(rules.skip(1)[r] == rules[r + 1]);
        }
        lemma_no_reference_no_import(rules.skip(1), fields);
    }
}

/// A node referencing exactly one registered symbol carries exactly the one
/// corresponding import — however many fields mention it, and however often.
pub proof fn lemma_one_reference_one_import(
    rules: Seq<ImportRuleView>,
    fields: Seq<FieldView>,
    j: int,
)
    requires
        0 <= j < rules.len(),
        applies(rules[j], fields),
        forall|r: int| 0 <= r < rules.len() && r != j ==> !applies(#[trigger] rules[r], fields),
    ensures
        resolve_spec(rules, fields) =~= seq![rules[j].declaration],
    decreases rules.len(),
{
    if j == 0 {
        assert forall|r: int| 0 <= r < rules.skip(1).len() implies !applies(
            #[trigger] rules.skip(1)[r],
            fields,
        ) by {
            assert(rules.skip(1)[r] == rules[r + 1]);
        }
        lemma_no_reference_no_import(rules.skip(1), fields);
        assert(resolve_spec(rules.skip(1), fields) =~= Seq::<Seq<char>>::empty());
    } else {
        assert(!applies(rules[0], fields));
        assert forall|r: int| 0 <= r < rules.skip(1).len() && r != j - 1 implies !applies(
            #[trigger] rules.skip(1)[r],
            fields,
        ) by {
            assert(rules.skip(1)[r] == rules[r + 1]);
        }
        assert(rules.skip(1)[j - 1] == rules[j]);
        lemma_one_reference_one_import(rules.skip(1), fields, j - 1);
    }
}

} // verus!
