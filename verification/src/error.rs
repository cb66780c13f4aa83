//! The one error type that compilation surfaces. Any error anywhere in a
//! compile aborts the whole compile; every variant carries the context a
//! caller needs to report it.

use vstd::prelude::*;

verus! {

/// The kind of value an evaluation produced or a coercion wanted, named in
/// type-mismatch errors.
#[derive(Copy, Clone, Debug, PartialEq, Eq, Structural)]
pub enum ValueKind {
    /// A constant number.
    Constant,
    /// An array of constants.
    Array,
    /// Any graph input: a constant or a graph handle.
    Input,
    /// A node reference.
    Node,
    /// A store reference.
    Store,
    /// A literal graph input.
    Literal,
    /// A parameter reference.
    Parameter,
    /// An identifier syntax node.
    Identifier,
    /// A number syntax node.
    Number,
    /// A parenthesized list syntax node.
    List,
}

/// A syntax or semantic error from one compile.
#[derive(Debug)]
pub enum LispError {
    /// The reader was asked for a character past the end of its input.
    EndOfInput,
    /// A specific delimiter was expected and another character was found.
    UnexpectedChar { found: char, expected: char },
    /// No balancing close bracket exists for this open bracket.
    UnmatchedBracket { open: char },
    /// A top-level item other than a parenthesized list.
    UnexpectedTopLevel { found: ValueKind },
    /// An empty list was evaluated.
    EmptyList,
    /// A value of one kind stood where another kind was required.
    TypeMismatch { expected: ValueKind, found: ValueKind },
    /// A form or function received the wrong number of arguments.
    Arity { name: String, required: usize, received: usize, at_least: bool },
    /// An identifier with no active binding.
    UnknownIdentifier { name: String },
    /// A function call under a name the builtin table lacks.
    UnknownFunction { name: String },
    /// A `bake` whose duration truncates to zero samples.
    ZeroLengthBake,
    /// The explicitly unimplemented `polyphonic` form.
    Unimplemented,
}

/// The mathematical shape of a `LispError`, with names as character
/// sequences.
pub enum ErrV {
    EndOfInput,
    UnexpectedChar { found: char, expected: char },
    UnmatchedBracket { open: char },
    UnexpectedTopLevel { found: ValueKind },
    EmptyList,
    TypeMismatch { expected: ValueKind, found: ValueKind },
    Arity { name: Seq<char>, required: nat, received: nat, at_least: bool },
    UnknownIdentifier { name: Seq<char> },
    UnknownFunction { name: Seq<char> },
    ZeroLengthBake,
    Unimplemented,
}

impl View for LispError {
    type V = ErrV;

    open spec fn view(&self) -> ErrV {
        match self {
            LispError::EndOfInput => ErrV::EndOfInput,
            LispError::UnexpectedChar { found, expected } => (ErrV::UnexpectedChar {
                found: *found,
                expected: *expected,
            }),
            LispError::UnmatchedBracket { open } => (ErrV::UnmatchedBracket { open: *open }),
            LispError::UnexpectedTopLevel { found } => (ErrV::UnexpectedTopLevel { found: *found }),
            LispError::EmptyList => ErrV::EmptyList,
            LispError::TypeMismatch { expected, found } => (ErrV::TypeMismatch {
                expected: *expected,
                found: *found,
            }),
            LispError::Arity { name, required, received, at_least } => (ErrV::Arity {
                name: name@,
                required: *required as nat,
                received: *received as nat,
                at_least: *at_least,
            }),
            LispError::UnknownIdentifier { name } => (ErrV::UnknownIdentifier { name: name@ }),
            LispError::UnknownFunction { name } => (ErrV::UnknownFunction { name: name@ }),
            LispError::ZeroLengthBake => ErrV::ZeroLengthBake,
            LispError::Unimplemented => ErrV::Unimplemented,
        }
    }
}

impl LispError {
    /// A short description of the error, for a host to log.
    pub fn describe(&self) -> String {
        match self {
            LispError::EndOfInput => "hit end of input".to_owned(),
            LispError::UnexpectedChar { .. } => "unexpected character".to_owned(),
            LispError::UnmatchedBracket { .. } => "couldn't find end of the list".to_owned(),
            LispError::UnexpectedTopLevel { .. } => "unexpected item at top level".to_owned(),
            LispError::EmptyList => "tried to evaluate an empty list".to_owned(),
            LispError::TypeMismatch { .. } => "evaluation result of the wrong kind".to_owned(),
            LispError::Arity { .. } => "wrong number of arguments".to_owned(),
            LispError::UnknownIdentifier { .. } => "unknown identifier".to_owned(),
            LispError::UnknownFunction { .. } => "unknown function".to_owned(),
            LispError::ZeroLengthBake => "can't bake a synth to a zero length buffer".to_owned(),
            LispError::Unimplemented => "unimplemented".to_owned(),
        }
    }
}

} // verus!
