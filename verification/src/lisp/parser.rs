//! The reader that turns source text into syntax trees.
//!
//! Tokens are whitespace-delimited; a token that reads as a number is a
//! number literal, any other is an identifier. `(...)` produces a list and
//! `[...]` an array; the matching close bracket is found by counting only
//! that pair's characters, so each bracket grammar is matched locally.
//!
//! Every reader operation is specified against a functional parser over
//! character sequences; the executable code is proved to compute exactly
//! what the functional parser describes.

use vstd::prelude::*;

verus! {

broadcast use
    vstd::seq::axiom_seq_index_decreases,
    vstd::seq::axiom_seq_subrange_decreases,
    vstd::std_specs::vec::axiom_vec_index_decreases,
    vstd::std_specs::vec::axiom_vec_decreases_to_view,
    vstd::std_specs::control_flow::group_control_flow_axioms;

use crate::error::{LispError, ErrV};
use crate::lisp::sexpression::{SExpression, SExprV, view_sexpr, view_exprs, lemma_view_exprs_len,
    lemma_view_exprs_index};
use crate::numeric::{spec_parse_num, parse_num};
use vstd::string::StrSliceExecFns;

/// Whether a character counts as whitespace for tokenization.
pub uninterp spec fn spec_is_whitespace(c: char) -> bool;

/// Relies on `char::is_whitespace`: the Unicode white-space property of the
/// character alone.
#[verifier::external_body]
pub(crate) fn char_is_whitespace(c: char) -> (r: bool)
    ensures
        r == spec_is_whitespace(c),
{
    c.is_whitespace()
}

/// The input with its leading whitespace removed.
pub open spec fn spec_skip_ws(s: Seq<char>) -> Seq<char>
    decreases s.len(),
{
    if s.len() > 0 && spec_is_whitespace(s[0]) {
        spec_skip_ws(s.drop_first())
    } else {
        s
    }
}

/// Skipping whitespace never lengthens the input.
pub broadcast proof fn lemma_skip_ws_len(s: Seq<char>)
    ensures
        (#[trigger] spec_skip_ws(s)).len() <= s.len(),
    decreases s.len(),
{
    if s.len() > 0 && spec_is_whitespace(s[0]) {
        lemma_skip_ws_len(s.drop_first());
    }
}

/// What skipping leaves is empty or starts with a non-whitespace character,
/// so skipping it again changes nothing.
pub proof fn lemma_skip_ws_head(s: Seq<char>)
    ensures
        spec_skip_ws(s).len() > 0 ==> !spec_is_whitespace(spec_skip_ws(s)[0]),
        spec_skip_ws(spec_skip_ws(s)) == spec_skip_ws(s),
    decreases s.len(),
{
    if s.len() > 0 && spec_is_whitespace(s[0]) {
        lemma_skip_ws_head(s.drop_first());
    }
}

/// How many characters the next token spans: up to the first whitespace.
pub open spec fn spec_word_len(s: Seq<char>) -> int
    decreases s.len(),
{
    if s.len() == 0 {
        0
    } else if spec_is_whitespace(s[0]) {
        0
    } else {
        1 + spec_word_len(s.drop_first())
    }
}

/// The token span lies within the input.
pub broadcast proof fn lemma_word_len_range(s: Seq<char>)
    ensures
        0 <= #[trigger] spec_word_len(s) <= s.len(),
    decreases s.len(),
{
    if s.len() > 0 && !spec_is_whitespace(s[0]) {
        lemma_word_len_range(s.drop_first());
    }
}

/// The token span is the least index carrying whitespace, or the whole
/// input if none does.
pub proof fn lemma_word_len_at(s: Seq<char>, i: int)
    requires
        0 <= i <= s.len(),
        forall|j: int| 0 <= j < i ==> !spec_is_whitespace(s[j]),
        i < s.len() ==> spec_is_whitespace(s[i]),
    ensures
        spec_word_len(s) == i,
    decreases i,
{
    if i > 0 {
        lemma_word_len_at(s.drop_first(), i - 1);
    }
}

/// Consuming one expected character after skipping whitespace: the rest of
/// the input, or the error the reader reports.
pub open spec fn spec_expect(s: Seq<char>, c: char) -> Result<Seq<char>, ErrV> {
    let s1 = spec_skip_ws(s);
    if s1.len() == 0 {
        Err(ErrV::EndOfInput)
    } else if s1[0] != c {
        Err(ErrV::UnexpectedChar { found: s1[0], expected: c })
    } else {
        Ok(s1.drop_first())
    }
}

/// The index of the close bracket matching an already-consumed open
/// bracket, scanning from `i` at nesting `level` and counting only this
/// bracket pair's characters.
pub open spec fn spec_find_close(s: Seq<char>, open: char, close: char, level: int, i: int) -> Option<
    int,
>
    decreases s.len() - i,
{
    if i < 0 || i >= s.len() {
        Option::None
    } else {
        let l2 = if s[i] == open {
            level + 1
        } else if s[i] == close {
            level - 1
        } else {
            level
        };
        if l2 == 0 {
            Option::Some(i)
        } else {
            spec_find_close(s, open, close, l2, i + 1)
        }
    }
}

/// A found close bracket lies within the input, at or after the scan start.
pub broadcast proof fn lemma_find_close_range(s: Seq<char>, open: char, close: char, level: int, i: int)
    ensures
        (match #[trigger] spec_find_close(s, open, close, level, i) {
            Option::Some(p) => i <= p < s.len(),
            Option::None => true,
        }),
    decreases s.len() - i,
{
    if 0 <= i < s.len() {
        let l2 = if s[i] == open {
            level + 1
        } else if s[i] == close {
            level - 1
        } else {
            level
        };
        if l2 != 0 {
            lemma_find_close_range(s, open, close, l2, i + 1);
        }
    }
}

/// Splitting a bracketed region: the text between the brackets and the text
/// after the close bracket, or the error the reader reports.
pub open spec fn spec_list_split(s: Seq<char>, open: char, close: char) -> Result<
    (Seq<char>, Seq<char>),
    ErrV,
> {
    match spec_expect(s, open) {
        Err(e) => Err(e),
        Ok(rest) => match spec_find_close(rest, open, close, 1, 0) {
            Option::None => Err(ErrV::UnmatchedBracket { open }),
            Option::Some(p) => match spec_expect(rest.skip(p), close) {
                Err(e) => Err(e),
                Ok(after) => Ok((rest.take(p), after)),
            },
        },
    }
}

/// One parsed expression and the input it leaves, or the error the reader
/// reports.
pub open spec fn spec_parse_expr(s: Seq<char>) -> Result<(SExprV, Seq<char>), ErrV>
    decreases s.len(), 1int,
{
    if s.len() == 0 {
        Err(ErrV::EndOfInput)
    } else if s[0] == '(' {
        match spec_parse_bracketed(s, '(', ')') {
            Err(e) => Err(e),
            Ok((elems, rest)) => Ok((SExprV::List(elems), rest)),
        }
    } else if s[0] == '[' {
        match spec_parse_bracketed(s, '[', ']') {
            Err(e) => Err(e),
            Ok((elems, rest)) => Ok((SExprV::Arr(elems), rest)),
        }
    } else {
        let s1 = spec_skip_ws(s);
        let wl = spec_word_len(s1);
        let word = s1.take(wl);
        let rest = s1.skip(wl);
        match spec_parse_num(word) {
            Option::Some(bits) => Ok((SExprV::Num(bits), rest)),
            Option::None => Ok((SExprV::Ident(word), rest)),
        }
    }
}

/// A whole bracketed form: its elements and the input after the close
/// bracket, or the error the reader reports.
pub open spec fn spec_parse_bracketed(s: Seq<char>, open: char, close: char) -> Result<
    (Seq<SExprV>, Seq<char>),
    ErrV,
>
    decreases s.len(), 0int,
    via spec_parse_bracketed_decreases
{
    match spec_list_split(s, open, close) {
        Err(e) => Err(e),
        Ok((content, after)) => match spec_parse_elems(content) {
            Err(e) => Err(e),
            Ok(elems) => Ok((elems, after)),
        },
    }
}

#[via_fn]
proof fn spec_parse_bracketed_decreases(s: Seq<char>, open: char, close: char) {
    lemma_skip_ws_len(s);
    let s1 = spec_skip_ws(s);
    if s1.len() > 0 {
        lemma_find_close_range(s1.drop_first(), open, close, 1, 0);
    }
}

/// Expressions parsed one after another until the input is exhausted, or
/// the error the reader reports. This is the shape of a whole program and
/// of a bracketed form's inside alike.
pub open spec fn spec_parse_elems(s: Seq<char>) -> Result<Seq<SExprV>, ErrV>
    decreases s.len(), 2int,
    via spec_parse_elems_decreases
{
    let s1 = spec_skip_ws(s);
    if s1.len() == 0 {
        Ok(Seq::empty())
    } else {
        match spec_parse_expr(s1) {
            Err(e) => Err(e),
            Ok((v, rest)) => if rest.len() < s1.len() {
                match spec_parse_elems(rest) {
                    Err(e) => Err(e),
                    Ok(tail) => Ok(seq![v] + tail),
                }
            } else {
                // Never taken: an expression always consumes input
                // (lemma_parse_expr_consumes). The test keeps the recursion
                // visibly decreasing.
                Err(ErrV::EndOfInput)
            },
        }
    }
}

#[via_fn]
proof fn spec_parse_elems_decreases(s: Seq<char>) {
    lemma_skip_ws_len(s);
}

/// Parsing an expression from a nonempty input always consumes at least one
/// character.
pub proof fn lemma_parse_expr_consumes(s: Seq<char>)
    requires
        s.len() > 0,
    ensures
        (match spec_parse_expr(s) {
            Ok((v, rest)) => rest.len() < s.len(),
            Err(e) => true,
        }),
{
    lemma_skip_ws_len(s);
    lemma_skip_ws_head(s);
    let s1 = spec_skip_ws(s);
    if s[0] == '(' || s[0] == '[' {
        let open = s[0];
        let close: char = if s[0] == '(' { ')' } else { ']' };
        match spec_expect(s, open) {
            Ok(rest) => {
                match spec_find_close(rest, open, close, 1, 0) {
                    Option::Some(p) => {
                        lemma_find_close_range(rest, open, close, 1, 0);
                        lemma_skip_ws_len(rest.skip(p));
                    },
                    Option::None => {},
                }
            },
            Err(_) => {},
        }
    } else {
        if s1.len() > 0 {
            lemma_word_len_range(s1.drop_first());
            assert(spec_word_len(s1) >= 1);
        }
    }
}

/// The reader: a cursor over the remaining source text.
#[derive(Copy, Clone, Debug)]
pub struct ExprReader<'a> {
    input: &'a str,
}

impl<'a> View for ExprReader<'a> {
    type V = Seq<char>;

    closed spec fn view(&self) -> Seq<char> {
        self.input@
    }
}

impl<'a> ExprReader<'a> {
    /// A reader over the whole of the given text.
    pub fn new(input: &'a str) -> (r: ExprReader<'a>)
        ensures
            r@ == input@,
    {
        ExprReader { input }
    }

    /// Whether any input remains.
    pub fn is_empty(&self) -> (r: bool)
        ensures
            r == (self@.len() == 0),
    {
        self.input.is_empty()
    }

    /// The next character, or an error at the end of the input.
    pub fn peek(&self) -> (r: Result<char, LispError>)
        ensures
            (match r {
                Ok(c) => self@.len() > 0 && c == self@[0],
                Err(e) => self@.len() == 0 && e@ == ErrV::EndOfInput,
            }),
    {
        if self.input.is_empty() {
            Err(LispError::EndOfInput)
        } else {
            Ok(self.input.get_char(0))
        }
    }

    /// Skips leading whitespace.
    pub fn skip_whitespace(&mut self)
        ensures
            final(self)@ == spec_skip_ws(old(self)@),
    {
        loop
            invariant
                spec_skip_ws(self@) == spec_skip_ws(old(self)@),
            decreases self@.len(),
        {
            if self.input.is_empty() {
                return ;
            }
            let c = self.input.get_char(0);
            if !char_is_whitespace(c) {
                return ;
            }
            let len = self.input.unicode_len();
            proof {
                assert(self@.subrange(1, len as int) =~= self@.drop_first());
            }
            self.input = self.input.substring_char(1, len);
        }
    }

    /// Skips whitespace, then consumes exactly the expected character.
    pub fn expect(&mut self, c: char) -> (r: Result<(), LispError>)
        ensures
            (match spec_expect(old(self)@, c) {
                Ok(rest) => r is Ok && final(self)@ == rest,
                Err(e) => r matches Err(le) && le@ == e && final(self)@ == spec_skip_ws(
                    old(self)@,
                ),
            }),
    {
        self.skip_whitespace();
        if self.input.is_empty() {
            return Err(LispError::EndOfInput);
        }
        let next = self.input.get_char(0);
        if next != c {
            return Err(LispError::UnexpectedChar { found: next, expected: c });
        }
        let len = self.input.unicode_len();
        proof {
            assert(self@.subrange(1, len as int) =~= self@.drop_first());
        }
        self.input = self.input.substring_char(1, len);
        Ok(())
    }

    /// Skips whitespace, then takes the input up to the next whitespace as
    /// one word. At the end of the input the word is empty.
    pub fn parse_word(&mut self) -> (r: Result<&'a str, LispError>)
        ensures
            (match r {
                Ok(w) => {
                    let s1 = spec_skip_ws(old(self)@);
                    let wl = spec_word_len(s1);
                    w@ == s1.take(wl) && final(self)@ == s1.skip(wl)
                },
                Err(e) => false,
            }),
    {
        self.skip_whitespace();
        let len = self.input.unicode_len();
        let mut i: usize = 0;
        let mut word_end = len;
        let mut found = false;
        while i < len && !found
            invariant
                0 <= i <= len,
                len == self@.len(),
                forall|j: int| 0 <= j < i ==> !spec_is_whitespace(self@[j]),
                found ==> i < len && spec_is_whitespace(self@[i as int]),
                !found ==> word_end == len,
                found ==> word_end == i,
            decreases len - i, (if found { 0int } else { 1int }),
        {
            if char_is_whitespace(self.input.get_char(i)) {
                found = true;
                word_end = i;
            } else {
                i = i + 1;
            }
        }
        proof {
            lemma_word_len_at(self@, word_end as int);
            lemma_skip_ws_head(old(self)@);
        }
        let word = self.input.substring_char(0, word_end);
        proof {
            assert(word@ =~= self@.take(word_end as int));
            assert(self@.subrange(word_end as int, len as int) =~= self@.skip(word_end as int));
        }
        self.input = self.input.substring_char(word_end, len);
        Ok(word)
    }

    /// Parses one expression: a list at `(`, an array at `[`, otherwise one
    /// word read as a number literal or an identifier.
    pub fn parse_sexpression(&mut self) -> (r: Result<SExpression<'a>, LispError>)
        ensures
            (match spec_parse_expr(old(self)@) {
                Ok((v, rest)) => r matches Ok(e) && view_sexpr(e) == v && final(self)@ == rest,
                Err(er) => r matches Err(le) && le@ == er,
            }),
        decreases self@.len(), 1int,
    {
        let c = match self.peek() {
            Ok(c) => c,
            Err(e) => {
                return Err(e);
            },
        };
        if c == '(' {
            let list = match self.parse_list('(', ')') {
                Ok(l) => l,
                Err(e) => {
                    return Err(e);
                },
            };
            Ok(SExpression::List(list))
        } else if c == '[' {
            let list = match self.parse_list('[', ']') {
                Ok(l) => l,
                Err(e) => {
                    return Err(e);
                },
            };
            Ok(SExpression::Array(list))
        } else {
            let word = match self.parse_word() {
                Ok(w) => w,
                Err(e) => {
                    return Err(e);
                },
            };
            match parse_num(word) {
                Option::Some(bits) => Ok(SExpression::Number(bits)),
                Option::None => Ok(SExpression::Identifier(word)),
            }
        }
    }

    /// Parses a whole bracketed form into its elements, consuming the close
    /// bracket.
    pub fn parse_list(&mut self, open: char, close: char) -> (r: Result<
        Vec<SExpression<'a>>,
        LispError,
    >)
        ensures
            (match spec_parse_bracketed(old(self)@, open, close) {
                Ok((elems, rest)) => r matches Ok(v) && view_exprs(v@) == elems && final(self)@
                    == rest,
                Err(er) => r matches Err(le) && le@ == er,
            }),
        decreases self@.len(), 0int,
    {
        let mut list_parser = match self.list_parser(open, close) {
            Ok(p) => p,
            Err(e) => {
                return Err(e);
            },
        };
        proof {
            lemma_skip_ws_len(old(self)@);
            let s1 = spec_skip_ws(old(self)@);
            if s1.len() > 0 {
                lemma_find_close_range(s1.drop_first(), open, close, 1, 0);
            }
        }
        let ret = match parse_elements(&mut list_parser) {
            Ok(v) => v,
            Err(e) => {
                return Err(e);
            },
        };
        Ok(ret)
    }

    /// Captures the text between an open bracket and its matching close
    /// bracket as a fresh reader, consuming through the close bracket.
    fn list_parser(&mut self, open: char, close: char) -> (r: Result<ExprReader<'a>, LispError>)
        ensures
            (match spec_list_split(old(self)@, open, close) {
                Ok((content, after)) => r matches Ok(rd) && rd@ == content && final(self)@
                    == after,
                Err(er) => r matches Err(le) && le@ == er,
            }),
    {
        match self.expect(open) {
            Ok(()) => (),
            Err(e) => {
                return Err(e);
            },
        }
        let ghost rest0 = self@;
        let len = self.input.unicode_len();
        let mut i: usize = 0;
        let mut level: i128 = 1;
        let mut end: usize = 0;
        let mut found = false;
        while i < len && !found
            invariant
                0 <= i <= len,
                len == self@.len(),
                self@ == rest0,
                -(i as i128) <= level <= (i as i128) + 1,
                !found ==> spec_find_close(rest0, open, close, 1, 0) == spec_find_close(
                    rest0,
                    open,
                    close,
                    level as int,
                    i as int,
                ),
                found ==> i < len && spec_find_close(rest0, open, close, 1, 0)
                    == Option::Some(i as int) && end == i,
            decreases len - i, (if found { 0int } else { 1int }),
        {
            let c = self.input.get_char(i);
            let l2: i128 = if c == open {
                level + 1
            } else if c == close {
                level - 1
            } else {
                level
            };
            if l2 == 0 {
                end = i;
                found = true;
            } else {
                level = l2;
                i = i + 1;
            }
        }
        if !found {
            proof {
                assert(spec_find_close(rest0, open, close, 1, 0) is None);
            }
            return Err(LispError::UnmatchedBracket { open });
        }
        let list_str = self.input.substring_char(0, end);
        proof {
            assert(list_str@ =~= rest0.take(end as int));
            assert(self@.subrange(end as int, len as int) =~= rest0.skip(end as int));
        }
        self.input = self.input.substring_char(end, len);
        match self.expect(close) {
            Ok(()) => (),
            Err(e) => {
                return Err(e);
            },
        }
        Ok(ExprReader::new(list_str))
    }

    /// Parses the whole input as a sequence of top-level expressions.
    pub fn parse_toplevel(&mut self) -> (r: Result<Vec<SExpression<'a>>, LispError>)
        ensures
            (match spec_parse_elems(old(self)@) {
                Ok(elems) => r matches Ok(v) && view_exprs(v@) == elems,
                Err(er) => r matches Err(le) && le@ == er,
            }),
        decreases self@.len(), 3int,
    {
        parse_elements(self)
    }
}

/// Parses expressions one after another until the reader is exhausted.
fn parse_elements<'a>(r: &mut ExprReader<'a>) -> (res: Result<Vec<SExpression<'a>>, LispError>)
    ensures
        (match spec_parse_elems(old(r)@) {
            Ok(elems) => res matches Ok(v) && view_exprs(v@) == elems,
            Err(er) => res matches Err(le) && le@ == er,
        }),
    decreases r@.len(), 2int,
{
    let ghost entry = old(r)@;
    let mut out: Vec<SExpression<'a>> = Vec::new();
    r.skip_whitespace();
    proof {
        lemma_skip_ws_head(entry);
        lemma_skip_ws_len(entry);
        lemma_view_exprs_len(out@);
        assert(view_exprs(out@) =~= Seq::<SExprV>::empty());
    }
    while !r.is_empty()
        invariant
            entry == old(r)@,
            spec_skip_ws(r@) == r@,
            r@.len() <= entry.len(),
            (match spec_parse_elems(r@) {
                Ok(tail) => spec_parse_elems(entry) matches Ok(full) && full == view_exprs(out@)
                    + tail,
                Err(e) => spec_parse_elems(entry) matches Err(e2) && e2 == e,
            }),
        decreases r@.len(),
    {
        let ghost cur = r@;
        proof {
            lemma_parse_expr_consumes(cur);
        }
        proof {
            assert(cur.len() <= entry.len());
        }
        let e = match r.parse_sexpression() {
            Ok(e) => e,
            Err(err) => {
                proof {
                    assert(spec_skip_ws(cur) == cur);
                    assert(spec_parse_elems(cur) == Err::<Seq<SExprV>, ErrV>(err@));
                }
                return Err(err);
            },
        };
        let ghost v = view_sexpr(e);
        let ghost rest = r@;
        proof {
            // One expression was read: the functional parser takes the
            // recursive branch on what remains.
            assert(rest.len() < cur.len());
            assert(spec_parse_elems(cur) == (match spec_parse_elems(rest) {
                Err(e2) => Err::<Seq<SExprV>, ErrV>(e2),
                Ok(tail) => Ok(seq![v] + tail),
            }));
            lemma_view_exprs_push(out@, e);
        }
        let ghost out_pre = view_exprs(out@);
        out.push(e);
        r.skip_whitespace();
        proof {
            lemma_skip_ws_head(rest);
            lemma_skip_ws_len(rest);
            // Skipping is idempotent, so the parse of what remains is the
            // parse of its skipped form.
            assert(spec_skip_ws(r@) == r@);
            assert(spec_skip_ws(rest) == spec_skip_ws(r@));
            assert(spec_parse_elems(rest) == spec_parse_elems(r@));
            match spec_parse_elems(r@) {
                Ok(tail) => {
                    assert(spec_parse_elems(cur) == Ok::<Seq<SExprV>, ErrV>(seq![v] + tail));
                    assert(out_pre + (seq![v] + tail) =~= (out_pre.push(v)) + tail);
                },
                Err(_) => {},
            }
        }
    }
    proof {
        assert(spec_skip_ws(r@) == r@);
        assert(spec_parse_elems(r@) == Ok::<Seq<SExprV>, ErrV>(Seq::empty()));
        match spec_parse_elems(entry) {
            Ok(full) => {
                assert(full == view_exprs(out@) + Seq::<SExprV>::empty());
                assert(view_exprs(out@) + Seq::<SExprV>::empty() =~= view_exprs(out@));
            },
            Err(_) => {},
        }
    }
    Ok(out)
}

/// Appending one node appends its shape.
pub proof fn lemma_view_exprs_push(s: Seq<SExpression>, e: SExpression)
    ensures
        view_exprs(s.push(e)) == view_exprs(s).push(view_sexpr(e)),
{
    lemma_view_exprs_len(s);
    lemma_view_exprs_len(s.push(e));
    let a = view_exprs(s.push(e));
    let c = view_exprs(s).push(view_sexpr(e));
    assert forall|i: int| 0 <= i < a.len() implies a[i] == c[i] by {
        lemma_view_exprs_index(s.push(e), i);
        if i < s.len() {
            lemma_view_exprs_index(s, i);
            assert(s.push(e)[i] == s[i]);
        } else {
            assert(s.push(e)[i] == e);
        }
    }
    assert(a =~= c);
}

/// Padding a program with leading whitespace leaves its parse unchanged:
/// the parsed tree and any parse error depend only on what follows the
/// padding.
pub proof fn lemma_parse_ws_padding(pad: Seq<char>, s: Seq<char>)
    requires
        forall|i: int| 0 <= i < pad.len() ==> spec_is_whitespace(#[trigger] pad[i]),
    ensures
        spec_parse_elems(pad + s) == spec_parse_elems(s),
    decreases pad.len(),
{
    if pad.len() == 0 {
        assert(pad + s =~= s);
    } else {
        assert((pad + s)[0] == pad[0]);
        assert((pad + s).drop_first() =~= pad.drop_first() + s);
        lemma_parse_ws_padding(pad.drop_first(), s);
        assert(spec_skip_ws(pad + s) == spec_skip_ws(pad.drop_first() + s));
        assert(spec_skip_ws(pad.drop_first() + s) == spec_skip_ws(s)) by {
            lemma_skip_ws_agree(pad.drop_first(), s);
        }
        lemma_skip_ws_agree(pad, s);
    }
}

/// Skipping whitespace sees through an all-whitespace prefix.
pub proof fn lemma_skip_ws_agree(pad: Seq<char>, s: Seq<char>)
    requires
        forall|i: int| 0 <= i < pad.len() ==> spec_is_whitespace(#[trigger] pad[i]),
    ensures
        spec_skip_ws(pad + s) == spec_skip_ws(s),
    decreases pad.len(),
{
    if pad.len() == 0 {
        assert(pad + s =~= s);
    } else {
        assert((pad + s)[0] == pad[0]);
        assert((pad + s).drop_first() =~= pad.drop_first() + s);
        lemma_skip_ws_agree(pad.drop_first(), s);
    }
}

} // verus!
