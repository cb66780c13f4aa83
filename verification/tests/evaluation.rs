use lisp_synth::{
    create_synth, BufferEntry, KeyInput, LispError, NodeId, NodeKind, ParameterId, SynthGraph,
    SynthInfo, SynthInput,
};

const RATE: u32 = 0x473B_8000; // 48000.0 as single-precision bits

fn compile(src: &str) -> Result<(SynthGraph, SynthInfo), LispError> {
    create_synth(src, RATE)
}

#[test]
fn constant_fold_creates_no_nodes() {
    // All three operators fold from the shared accumulator value 1.0, so
    // (+ 1 2 3) folds to 7.0 rather than 6.0; the fold builds no nodes.
    let (g, _) = compile("(gain (+ 1 2 3))").unwrap();
    assert_eq!(g.nodes.len(), 0);
    assert_eq!(g.gain, Some(7.0f32.to_bits()));
}

#[test]
fn constant_fold_multiply_and_subtract() {
    let (g, _) = compile("(gain (* 2 3))").unwrap();
    assert_eq!(g.gain, Some(6.0f32.to_bits()));
    let (g, _) = compile("(gain (- 5 1))").unwrap();
    assert_eq!(g.gain, Some((-5.0f32).to_bits()));
}

#[test]
fn mixed_operands_build_one_arithmetic_node() {
    let (g, _) = compile("(+ 1 (sin 440))").unwrap();
    assert_eq!(
        g.nodes,
        vec![
            NodeKind::Sine(SynthInput::Literal(440.0f32.to_bits())),
            NodeKind::Add(
                SynthInput::Literal(1.0f32.to_bits()),
                SynthInput::Node(NodeId(0)),
            ),
        ]
    );
}

#[test]
fn oscillator_arity_error() {
    let e = compile("(sin)").unwrap_err();
    match e {
        LispError::Arity { name, required, received, at_least } => {
            assert_eq!(name, "sin");
            assert_eq!(required, 1);
            assert_eq!(received, 0);
            assert!(!at_least);
        }
        other => panic!("unexpected error: {:?}", other),
    }
}

#[test]
fn unknown_identifier_is_named() {
    let e = compile("(gain foo)").unwrap_err();
    match e {
        LispError::UnknownIdentifier { name } => assert_eq!(name, "foo"),
        other => panic!("unexpected error: {:?}", other),
    }
}

#[test]
fn bake_zero_length_fails() {
    let e = compile("(bake 0 (sin 440))").unwrap_err();
    assert!(matches!(e, LispError::ZeroLengthBake));
}

#[test]
fn bake_one_second_wraps_a_sampler_buffer() {
    let (g, _) = compile("(bake 1 (sin 440))").unwrap();
    assert_eq!(g.buffers.len(), 1);
    match &g.buffers[0] {
        BufferEntry::Rendered { len, source } => {
            assert_eq!(*len, 48000);
            assert_eq!(source.nodes.len(), 1);
        }
        other => panic!("unexpected buffer: {:?}", other),
    }
    assert_eq!(g.nodes.len(), 1);
    assert!(matches!(
        g.nodes[0],
        NodeKind::Sampler { buffer, start } if buffer.0 == 0 && start == 0
    ));
}

#[test]
fn let_binds_and_rebinding_shadows() {
    let (g, _) = compile("(let f 220)\n(let f 330)\n(output (sin f))").unwrap();
    assert_eq!(
        g.nodes,
        vec![NodeKind::Sine(SynthInput::Literal(330.0f32.to_bits()))]
    );
    assert_eq!(g.output, Some(NodeId(0)));
}

#[test]
fn def_store_and_store_record_a_write() {
    let (g, _) = compile("(def-store s)\n(store s 2)").unwrap();
    assert_eq!(g.stores.len(), 1);
    assert_eq!(g.store_writes.len(), 1);
    let (sid, input) = g.store_writes[0];
    assert_eq!(sid.0, 0);
    assert_eq!(input, SynthInput::Literal(2.0f32.to_bits()));
}

#[test]
fn gain_requires_a_constant() {
    let e = compile("(gain (sin 440))").unwrap_err();
    assert!(matches!(
        e,
        LispError::TypeMismatch {
            expected: lisp_synth::ValueKind::Constant,
            found: lisp_synth::ValueKind::Node,
        }
    ));
}

#[test]
fn output_requires_a_node() {
    let e = compile("(output 1)").unwrap_err();
    assert!(matches!(
        e,
        LispError::TypeMismatch {
            expected: lisp_synth::ValueKind::Node,
            found: lisp_synth::ValueKind::Constant,
        }
    ));
}

#[test]
fn store_requires_a_store_reference() {
    let e = compile("(store 1 2)").unwrap_err();
    assert!(matches!(
        e,
        LispError::TypeMismatch {
            expected: lisp_synth::ValueKind::Store,
            found: lisp_synth::ValueKind::Constant,
        }
    ));
}

#[test]
fn array_elements_must_reduce_to_constants() {
    let e = compile("(sequencer [1 (sin 440)] 1)").unwrap_err();
    assert!(matches!(
        e,
        LispError::TypeMismatch {
            expected: lisp_synth::ValueKind::Constant,
            found: lisp_synth::ValueKind::Node,
        }
    ));
}

#[test]
fn empty_list_is_an_error() {
    let e = compile("()").unwrap_err();
    assert!(matches!(e, LispError::EmptyList));
}

#[test]
fn non_list_at_top_level_is_rejected() {
    let e = compile("42").unwrap_err();
    assert!(matches!(
        e,
        LispError::UnexpectedTopLevel { found: lisp_synth::ValueKind::Number }
    ));
}

#[test]
fn unknown_function_is_named() {
    let e = compile("(boing 1 2)").unwrap_err();
    match e {
        LispError::UnknownFunction { name } => assert_eq!(name, "boing"),
        other => panic!("unexpected error: {:?}", other),
    }
}

#[test]
fn polyphonic_is_unimplemented() {
    let e = compile("(polyphonic 1 2)").unwrap_err();
    assert!(matches!(e, LispError::Unimplemented));
    let e = compile("(polyphonic)").unwrap_err();
    assert!(matches!(
        e,
        LispError::Arity { required: 2, received: 0, at_least: true, .. }
    ));
}

#[test]
fn clamp_cannot_be_completed() {
    // The builtin table checks clamp for exactly two arguments yet reads
    // three values, so the call aborts either way.
    let e = compile("(clamp 1 2)").unwrap_err();
    assert!(matches!(
        e,
        LispError::Arity { required: 3, received: 2, at_least: false, .. }
    ));
    let e = compile("(clamp 1 2 3)").unwrap_err();
    assert!(matches!(
        e,
        LispError::Arity { required: 2, received: 3, at_least: false, .. }
    ));
}

#[test]
fn sequencer_reset_defaults_to_one() {
    let (g, _) = compile("(sequencer [1 2] (sqr 2))").unwrap();
    assert_eq!(g.buffers.len(), 1);
    match &g.buffers[0] {
        BufferEntry::Data(v) => {
            assert_eq!(v, &vec![1.0f32.to_bits(), 2.0f32.to_bits()]);
        }
        other => panic!("unexpected buffer: {:?}", other),
    }
    assert!(matches!(
        g.nodes[1],
        NodeKind::Sequencer { buffer, advance: SynthInput::Node(NodeId(0)), reset }
            if buffer.0 == 0 && reset == SynthInput::Literal(1.0f32.to_bits())
    ));
}

#[test]
fn envelope_stages_must_be_constants() {
    let e = compile("(ar (sin 1) 2 3)").unwrap_err();
    assert!(matches!(
        e,
        LispError::TypeMismatch {
            expected: lisp_synth::ValueKind::Constant,
            found: lisp_synth::ValueKind::Node,
        }
    ));
    let (g, _) = compile("(ar 0.1 0.5 (sqr 2))").unwrap();
    assert!(matches!(
        g.nodes[1],
        NodeKind::EnvAr { attack, release, gate: SynthInput::Node(NodeId(0)) }
            if attack == 0.1f32.to_bits() && release == 0.5f32.to_bits()
    ));
}

#[test]
fn key_inputs_materialize_once() {
    let (g, info) = compile("(let a (key-freq))\n(let b (key-freq))\n(output (sin (key-freq)))")
        .unwrap();
    assert_eq!(g.params.len(), 1);
    match info.key_input {
        KeyInput::Mono { freq, vel } => {
            assert_eq!(freq, Some(ParameterId(0)));
            assert_eq!(vel, None);
        }
        other => panic!("unexpected key input: {:?}", other),
    }
    let (g, info) = compile("(output (sin (key-freq)))\n(gain (+ 1 1))\n(let v (key-vel))")
        .unwrap();
    assert_eq!(g.params.len(), 2);
    assert!(matches!(
        info.key_input,
        KeyInput::Mono { freq: Some(ParameterId(0)), vel: Some(ParameterId(1)) }
    ));
}

#[test]
fn filters_take_cutoff_then_input() {
    let (g, _) = compile("(lp 800 (saw 110))").unwrap();
    assert!(matches!(
        g.nodes[1],
        NodeKind::Lowpass {
            input: SynthInput::Node(NodeId(0)),
            cutoff: SynthInput::Literal(c),
        } if c == 800.0f32.to_bits()
    ));
}
