//! A small Lisp-like language compiled into an audio synthesis graph, and a
//! voice allocator that routes live note events onto that graph's
//! parameters.
//!
//! Source text is parsed into a tree of syntax nodes, evaluated against a
//! fresh graph under construction, and the finished graph is returned with a
//! description of its key inputs. A fixed pool of voices then maps note
//! events onto the graph's frequency and velocity parameters.

use vstd::prelude::*;

mod error;
mod graph;
mod lisp;
mod midi;
mod model;
mod numeric;
mod voice_allocator;

pub use error::{LispError, ValueKind, ErrV};
pub use graph::{SynthGraph, GraphV, BufferEntry, BufferV, NodeKind, SynthInput, NodeId, StoreId,
    BufferId, ParameterId};
pub use lisp::sexpression::{SExpression, SExprV, ExpressionListExt, view_sexpr, view_exprs,
    exprs_all_constant};
pub use lisp::parser::{ExprReader, spec_parse_elems, spec_parse_expr, spec_is_whitespace,
    spec_skip_ws, lemma_parse_ws_padding};
pub use lisp::evaluation::{evaluate_top_level, spec_evaluate_top_level, spec_eval_program,
    spec_eval_top_form, spec_exec_function, spec_eval_expr, EvalResult, ResultV, EStateV,
    init_state, ArithOp, fold_nums, env_view, result_view, spec_lookup};
pub use lisp::{SynthInfo, KeyInput, create_synth, spec_create_synth, strip_comments,
    spec_strip_comments, spec_strip_from, lemma_strip_comment_free};
pub use midi::{NoteEvent, decode_midi_event, spec_decode_midi};
pub use model::Model;
pub use numeric::{ZERO_BITS, ONE_BITS, A440_BITS, spec_parse_num, add_bits, sub_bits, mul_bits,
    trunc_usize_bits};
pub use voice_allocator::{VoiceAllocator, Voice, ActiveKey, ParameterStore, key_freq_bits,
    key_freq, spec_note_on, spec_note_off, spec_try_start, spec_write, ratio_bits, pow2_bits};

verus! {

/// A command delivered from a control context to the processing context.
pub enum AudioCommand {
    /// Replace the active program with one compiled from this source text.
    SetModel(String),
}

} // verus!
