//! The Lisp-like language: syntax tree, parser and evaluator, and the
//! compile pipeline that ties them together.

use vstd::prelude::*;

pub mod evaluation;
pub mod parser;
pub mod sexpression;

verus! {

use crate::error::{LispError, ErrV};
use crate::graph::{SynthGraph, GraphV, ParameterId};
use crate::lisp::evaluation::{evaluate_top_level, spec_evaluate_top_level};
use crate::lisp::parser::{ExprReader, spec_parse_elems};
use vstd::string::StrSliceExecFns;

/// How the voice allocator's per-key frequency and velocity values reach
/// the compiled graph's parameters. Each slot is populated at most once,
/// the first time the corresponding builtin is invoked.
#[derive(Copy, Clone, Debug, PartialEq)]
pub enum KeyInput {
    /// The program takes no key input; its voice pool is empty.
    NoInput,
    /// One voice, with optional frequency and velocity parameter slots.
    Mono { freq: Option<ParameterId>, vel: Option<ParameterId> },
}

/// What a finished compile hands back beside the graph.
#[derive(Copy, Clone, Debug)]
pub struct SynthInfo {
    pub key_input: KeyInput,
}

/// The comment-stripped form of source text: everything from a `;` to the
/// end of its line is dropped; line breaks are preserved. The flag says
/// whether the scan stands inside a comment.
pub open spec fn spec_strip_from(s: Seq<char>, in_comment: bool) -> Seq<char>
    decreases s.len(),
{
    if s.len() == 0 {
        Seq::empty()
    } else if s[0] == '\n' {
        seq!['\n'] + spec_strip_from(s.drop_first(), false)
    } else if in_comment {
        spec_strip_from(s.drop_first(), true)
    } else if s[0] == ';' {
        spec_strip_from(s.drop_first(), true)
    } else {
        seq![s[0]] + spec_strip_from(s.drop_first(), false)
    }
}

/// The comment-stripped form of source text.
pub open spec fn spec_strip_comments(s: Seq<char>) -> Seq<char> {
    spec_strip_from(s, false)
}

/// Relies on collecting characters into a `String`: the result holds
/// exactly the given characters in order.
#[verifier::external_body]
fn chars_to_string(v: &Vec<char>) -> (r: String)
    ensures
        r@ == v@,
{
    v.iter().collect()
}

/// Strips comments from source text: everything from a `;` to the end of
/// its line is dropped, line breaks are preserved.
pub fn strip_comments(input: &str) -> (r: String)
    ensures
        r@ == spec_strip_comments(input@),
{
    let len = input.unicode_len();
    let mut out: Vec<char> = Vec::new();
    let mut in_comment = false;
    let mut i: usize = 0;
    proof {
        assert(input@.skip(0) =~= input@);
        assert(out@ + spec_strip_from(input@, false) =~= spec_strip_from(input@, false));
    }
    while i < len
        invariant
            0 <= i <= len,
            len == input@.len(),
            spec_strip_from(input@, false) == out@ + spec_strip_from(
                input@.skip(i as int),
                in_comment,
            ),
        decreases len - i,
    {
        let ghost pre = input@.skip(i as int);
        let c = input.get_char(i);
        proof {
            assert(pre[0] == c);
            assert(pre.drop_first() =~= input@.skip(i + 1));
        }
        if c == '\n' {
            out.push('\n');
            in_comment = false;
        } else if in_comment {
        } else if c == ';' {
            in_comment = true;
        } else {
            out.push(c);
        }
        proof {
            assert(spec_strip_from(input@, false) == out@ + spec_strip_from(
                input@.skip(i + 1),
                in_comment,
            ));
        }
        i = i + 1;
    }
    proof {
        assert(input@.skip(len as int) =~= Seq::<char>::empty());
        assert(out@ + Seq::<char>::empty() =~= out@);
    }
    chars_to_string(&out)
}

/// Stripping comments from text that holds none leaves it unchanged, so
/// two programs that differ only in comments parse identically: the
/// commented one parses as its comment-free form.
pub proof fn lemma_strip_comment_free(s: Seq<char>)
    requires
        forall|i: int| 0 <= i < s.len() ==> s[i] != ';',
    ensures
        spec_strip_comments(s) == s,
{
    lemma_strip_from_comment_free(s);
}

/// The scan outside a comment copies comment-free text through unchanged.
proof fn lemma_strip_from_comment_free(s: Seq<char>)
    requires
        forall|i: int| 0 <= i < s.len() ==> s[i] != ';',
    ensures
        spec_strip_from(s, false) == s,
    decreases s.len(),
{
    if s.len() > 0 {
        assert(forall|i: int|
            0 <= i < s.drop_first().len() ==> #[trigger] s.drop_first()[i] != ';');
        lemma_strip_from_comment_free(s.drop_first());
        assert(seq![s[0]] + s.drop_first() =~= s);
    }
}

/// One whole compile from source text: comments stripped, the text parsed,
/// the tree evaluated against a fresh graph at the given sample rate.
pub open spec fn spec_create_synth(src: Seq<char>, rate: u32) -> Result<(GraphV, KeyInput), ErrV> {
    match spec_parse_elems(spec_strip_comments(src)) {
        Err(e) => Err(e),
        Ok(trees) => spec_evaluate_top_level(rate, trees),
    }
}

/// Compiles source text into a finished graph and its key-input
/// descriptor, or the single error that aborted the compile.
pub fn create_synth(input: &str, sample_rate: u32) -> (r: Result<(SynthGraph, SynthInfo), LispError>)
    ensures
        (match spec_create_synth(input@, sample_rate) {
            Ok((g, k)) => r matches Ok(p) && p.0@ == g && p.1.key_input == k,
            Err(e) => r matches Err(le) && le@ == e,
        }),
{
    let comment_free_input = strip_comments(input);
    let mut reader = ExprReader::new(comment_free_input.as_str());
    let top_level_exprs = match reader.parse_toplevel() {
        Ok(t) => t,
        Err(e) => {
            return Err(e);
        },
    };
    evaluate_top_level(sample_rate, top_level_exprs)
}

} // verus!
