//! Syntax nodes as the parser produces them and the evaluator consumes
//! them, together with their mathematical shape and a size measure used by
//! the recursive definitions over them.

use vstd::prelude::*;

verus! {

broadcast use
    vstd::seq::axiom_seq_index_decreases,
    vstd::seq::axiom_seq_subrange_decreases,
    vstd::std_specs::vec::axiom_vec_index_decreases,
    vstd::std_specs::vec::axiom_vec_decreases_to_view;

use crate::error::{LispError, ValueKind, ErrV};

/// One node of the parsed source tree. A number literal is carried as the
/// single-precision bits of its value.
#[derive(Debug, PartialEq)]
pub enum SExpression<'a> {
    Identifier(&'a str),
    Number(u32),
    List(Vec<SExpression<'a>>),
    Array(Vec<SExpression<'a>>),
}

/// The mathematical shape of a syntax node: identifiers as character
/// sequences, lists and arrays as sequences of child shapes.
pub enum SExprV {
    Ident(Seq<char>),
    Num(u32),
    List(Seq<SExprV>),
    Arr(Seq<SExprV>),
}

/// The shape of one syntax node.
pub open spec fn view_sexpr(e: SExpression) -> SExprV
    decreases e,
{
    match e {
        SExpression::Identifier(s) => SExprV::Ident(s@),
        SExpression::Number(n) => SExprV::Num(n),
        SExpression::List(v) => SExprV::List(view_exprs(v@)),
        SExpression::Array(v) => SExprV::Arr(view_exprs(v@)),
    }
}

/// The shapes of a sequence of syntax nodes, element by element.
pub open spec fn view_exprs(s: Seq<SExpression>) -> Seq<SExprV>
    decreases s,
{
    if s.len() == 0 {
        Seq::empty()
    } else {
        seq![view_sexpr(s[0])] + view_exprs(s.drop_first())
    }
}

/// A sequence of shapes is as long as the sequence it shapes.
pub broadcast proof fn lemma_view_exprs_len(s: Seq<SExpression>)
    ensures
        (#[trigger] view_exprs(s)).len() == s.len(),
    decreases s.len(),
{
    if s.len() > 0 {
        lemma_view_exprs_len(s.drop_first());
    }
}

/// The shape sequence shapes each node in place.
pub broadcast proof fn lemma_view_exprs_index(s: Seq<SExpression>, i: int)
    requires
        0 <= i < s.len(),
    ensures
        (#[trigger] view_exprs(s)[i]) == view_sexpr(s[i]),
    decreases s.len(),
{
    lemma_view_exprs_len(s);
    if i > 0 {
        lemma_view_exprs_index(s.drop_first(), i - 1);
    }
}

/// The shape of a suffix is the suffix of the shape.
pub proof fn lemma_view_exprs_suffix(s: Seq<SExpression>, k: int)
    requires
        0 <= k <= s.len(),
    ensures
        view_exprs(s.subrange(k, s.len() as int)) == view_exprs(s).subrange(k, s.len() as int),
    decreases s.len() - k,
{
    lemma_view_exprs_len(s);
    lemma_view_exprs_len(s.subrange(k, s.len() as int));
    let a = view_exprs(s.subrange(k, s.len() as int));
    let b = view_exprs(s).subrange(k, s.len() as int);
    assert forall|i: int| 0 <= i < a.len() implies a[i] == b[i] by {
        lemma_view_exprs_index(s.subrange(k, s.len() as int), i);
        lemma_view_exprs_index(s, k + i);
        assert(s.subrange(k, s.len() as int)[i] == s[k + i]);
    }
    assert(a =~= b);
}

/// The size of a node shape: itself plus all nodes below it. Recursive
/// definitions over trees decrease on it.
pub open spec fn vsize(e: SExprV) -> nat
    decreases e,
{
    match e {
        SExprV::Ident(_) => 1,
        SExprV::Num(_) => 1,
        SExprV::List(s) => 1 + vsize_seq(s),
        SExprV::Arr(s) => 1 + vsize_seq(s),
    }
}

/// The summed size of a sequence of node shapes.
pub open spec fn vsize_seq(s: Seq<SExprV>) -> nat
    decreases s,
{
    if s.len() == 0 {
        0
    } else {
        vsize(s[0]) + vsize_seq(s.drop_first())
    }
}

/// Every node weighs at least one.
pub broadcast proof fn lemma_vsize_pos(e: SExprV)
    ensures
        #[trigger] vsize(e) >= 1,
{
    match e {
        SExprV::Ident(_) => {},
        SExprV::Num(_) => {},
        SExprV::List(_) => {},
        SExprV::Arr(_) => {},
    }
}

/// Every element of a sequence weighs no more than the whole sequence.
pub broadcast proof fn lemma_vsize_seq_le(s: Seq<SExprV>, i: int)
    requires
        0 <= i < s.len(),
    ensures
        vsize(#[trigger] s[i]) <= vsize_seq(s),
    decreases s.len(),
{
    if i > 0 {
        lemma_vsize_seq_le(s.drop_first(), i - 1);
        assert(s.drop_first()[i - 1] == s[i]);
    }
}

/// Any contiguous part of a sequence weighs no more than the whole.
pub broadcast proof fn lemma_vsize_seq_subrange(s: Seq<SExprV>, i: int, j: int)
    requires
        0 <= i <= j <= s.len(),
    ensures
        vsize_seq(#[trigger] s.subrange(i, j)) <= vsize_seq(s),
    decreases s.len(),
{
    if i > 0 {
        assert(s.drop_first().subrange(i - 1, j - 1) =~= s.subrange(i, j));
        lemma_vsize_seq_subrange(s.drop_first(), i - 1, j - 1);
    } else {
        if j == s.len() {
            assert(s.subrange(0, j) =~= s);
        } else if s.len() > 0 && j > 0 {
            assert(s.subrange(0, j)[0] == s[0]);
            assert(s.subrange(0, j).drop_first() =~= s.drop_first().subrange(0, j - 1));
            lemma_vsize_seq_subrange(s.drop_first(), 0, j - 1);
        }
    }
}

impl<'a> SExpression<'a> {
    /// The syntax kind of this node, as named in errors.
    pub open spec fn spec_kind(self) -> ValueKind {
        match self {
            SExpression::Identifier(_) => ValueKind::Identifier,
            SExpression::Number(_) => ValueKind::Number,
            SExpression::List(_) => ValueKind::List,
            SExpression::Array(_) => ValueKind::Array,
        }
    }

    /// The identifier this node holds; any other node kind is a type
    /// mismatch naming what was found.
    pub fn expect_ident(self) -> (r: Result<&'a str, LispError>)
        ensures
            (match spec_expect_ident(view_sexpr(self)) {
                Ok(s) => r matches Ok(w) && w@ == s,
                Err(e) => r matches Err(le) && le@ == e,
            }),
    {
        match self {
            SExpression::Identifier(s) => Ok(s),
            SExpression::Number(_) => Err(LispError::TypeMismatch {
                expected: ValueKind::Identifier,
                found: ValueKind::Number,
            }),
            SExpression::List(_) => Err(LispError::TypeMismatch {
                expected: ValueKind::Identifier,
                found: ValueKind::List,
            }),
            SExpression::Array(_) => Err(LispError::TypeMismatch {
                expected: ValueKind::Identifier,
                found: ValueKind::Array,
            }),
        }
    }
}

/// The syntax kind of a node shape, as named in errors.
pub open spec fn shape_kind(e: SExprV) -> ValueKind {
    match e {
        SExprV::Ident(_) => ValueKind::Identifier,
        SExprV::Num(_) => ValueKind::Number,
        SExprV::List(_) => ValueKind::List,
        SExprV::Arr(_) => ValueKind::Array,
    }
}

/// The identifier a node shape holds, or the type mismatch it raises.
pub open spec fn spec_expect_ident(e: SExprV) -> Result<Seq<char>, ErrV> {
    match e {
        SExprV::Ident(s) => Ok(s),
        _ => Err(ErrV::TypeMismatch { expected: ValueKind::Identifier, found: shape_kind(e) }),
    }
}

/// Whether every node of a sequence is a number literal.
pub open spec fn spec_all_numbers(s: Seq<SExprV>) -> bool {
    forall|i: int| 0 <= i < s.len() ==> (#[trigger] s[i]) is Num
}

/// Whether every element of an argument list is a number literal; only such
/// a list is folded at compile time.
pub fn exprs_all_constant(v: &Vec<SExpression>) -> (r: bool)
    ensures
        r == spec_all_numbers(view_exprs(v@)),
{
    proof {
        lemma_view_exprs_len(v@);
    }
    let mut i: usize = 0;
    while i < v.len()
        invariant
            view_exprs(v@).len() == v@.len(),
            0 <= i <= v@.len(),
            forall|j: int| 0 <= j < i ==> (#[trigger] view_exprs(v@)[j]) is Num,
        decreases v@.len() - i,
    {
        match &v[i] {
            SExpression::Number(_) => {
                proof {
                    lemma_view_exprs_index(v@, i as int);
                }
            },
            _ => {
                proof {
                    lemma_view_exprs_index(v@, i as int);
                    assert(!(view_exprs(v@)[i as int] is Num));
                }
                return false;
            },
        }
        i = i + 1;
    }
    true
}

/// An argument list made only of constants can be folded at compile time.
pub trait ExpressionListExt {
    /// Whether every element is a number literal.
    fn is_constant(&self) -> bool;
}

impl<'a> ExpressionListExt for Vec<SExpression<'a>> {
    /// Whether every element is a number literal.
    fn is_constant(&self) -> bool {
        exprs_all_constant(self)
    }
}

} // verus!
