use lisp_synth::{ExprReader, LispError, SExpression, strip_comments};

fn parse(src: &str) -> Result<Vec<SExpression<'_>>, LispError> {
    ExprReader::new(src).parse_toplevel()
}

#[test]
fn whitespace_equivalent_trees() {
    let a = parse("(+ 1 2 (sin 440))").unwrap();
    let b = parse("  ( +   1\n\t2 ( sin   440 )\n)  ").unwrap();
    assert_eq!(a, b);
}

#[test]
fn comment_equivalent_trees() {
    let plain = strip_comments("(gain 0.5)\n(output (sin 440))\n");
    let commented = strip_comments("(gain 0.5) ; master gain\n(output (sin 440)) ; voice\n");
    let a = ExprReader::new(plain.as_str()).parse_toplevel().unwrap();
    let b = ExprReader::new(commented.as_str()).parse_toplevel().unwrap();
    assert_eq!(a, b);
}

#[test]
fn strip_comments_drops_to_end_of_line() {
    assert_eq!(strip_comments("a;x\nb"), "a\nb");
    assert_eq!(strip_comments(";whole line\nkeep"), "\nkeep");
    assert_eq!(strip_comments("no comment"), "no comment");
}

#[test]
fn numbers_and_identifiers() {
    let t = parse("440 4.5 -2 osc saw2").unwrap();
    assert_eq!(
        t,
        vec![
            SExpression::Number(440.0f32.to_bits()),
            SExpression::Number(4.5f32.to_bits()),
            SExpression::Number((-2.0f32).to_bits()),
            SExpression::Identifier("osc"),
            SExpression::Identifier("saw2"),
        ]
    );
}

#[test]
fn arrays_and_lists_nest() {
    let t = parse("(seq [1 2] (x))").unwrap();
    assert_eq!(
        t,
        vec![SExpression::List(vec![
            SExpression::Identifier("seq"),
            SExpression::Array(vec![
                SExpression::Number(1.0f32.to_bits()),
                SExpression::Number(2.0f32.to_bits()),
            ]),
            SExpression::List(vec![SExpression::Identifier("x")]),
        ])]
    );
}

#[test]
fn unmatched_bracket_is_reported() {
    let e = parse("(sin 440").unwrap_err();
    assert!(matches!(e, LispError::UnmatchedBracket { open: '(' }));
}

#[test]
fn stray_close_bracket_is_a_word() {
    // Tokenization is whitespace-delimited: a close bracket outside any
    // open form is read as an ordinary word.
    let t = parse(") ]").unwrap();
    assert_eq!(
        t,
        vec![SExpression::Identifier(")"), SExpression::Identifier("]")]
    );
}
