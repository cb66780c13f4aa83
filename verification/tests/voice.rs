use lisp_synth::{
    decode_midi_event, key_freq, ActiveKey, KeyInput, NoteEvent, ParameterId, ParameterStore,
    VoiceAllocator,
};

fn mono_allocator() -> (VoiceAllocator, ParameterStore) {
    let alloc = VoiceAllocator::new(KeyInput::Mono {
        freq: Some(ParameterId(0)),
        vel: Some(ParameterId(1)),
    });
    let params = ParameterStore::new(2);
    (alloc, params)
}

#[test]
fn frequency_mapping_octaves() {
    assert_eq!(key_freq(64), 440.0f32.to_bits());
    assert_eq!(key_freq(76), 880.0f32.to_bits());
    assert_eq!(key_freq(52), 220.0f32.to_bits());
}

#[test]
fn note_cycle_leaves_pool_unbound() {
    let (mut alloc, mut params) = mono_allocator();
    alloc.note_on(&mut params, 60, 1.0f32.to_bits());
    alloc.note_on(&mut params, 60, 0.0f32.to_bits());
    alloc.note_off(&mut params, 60);
    assert_eq!(alloc.active_keys.len(), 0);
    assert_eq!(alloc.voices[0].allocated_key, None);
    assert_eq!(params.values[1], 0.0f32.to_bits());
    // The frequency parameter keeps key 60's value after release.
    assert_eq!(params.values[0], key_freq(60));
}

#[test]
fn second_key_waits_unallocated() {
    let (mut alloc, mut params) = mono_allocator();
    alloc.note_on(&mut params, 60, 1.0f32.to_bits());
    alloc.note_on(&mut params, 64, 1.0f32.to_bits());
    assert_eq!(alloc.active_keys.len(), 2);
    assert_eq!(
        alloc.active_keys[0],
        ActiveKey { key: 60, allocated_voice: Some(0) }
    );
    assert_eq!(
        alloc.active_keys[1],
        ActiveKey { key: 64, allocated_voice: None }
    );
    // The sole voice's parameters reflect only key 60.
    assert_eq!(params.values[0], key_freq(60));
    assert_eq!(params.values[1], 1.0f32.to_bits());
    assert_eq!(alloc.voices[0].allocated_key, Some(60));
}

#[test]
fn freed_voice_is_not_reallocated_to_waiting_keys() {
    let (mut alloc, mut params) = mono_allocator();
    alloc.note_on(&mut params, 60, 1.0f32.to_bits());
    alloc.note_on(&mut params, 64, 1.0f32.to_bits());
    alloc.note_off(&mut params, 60);
    // Key 64 stays active but silent; the freed voice stays unbound.
    assert_eq!(alloc.active_keys.len(), 1);
    assert_eq!(
        alloc.active_keys[0],
        ActiveKey { key: 64, allocated_voice: None }
    );
    assert_eq!(alloc.voices[0].allocated_key, None);
    // A fresh note-on for the waiting key can then allocate.
    alloc.note_on(&mut params, 64, 0.5f32.to_bits());
    assert_eq!(alloc.voices[0].allocated_key, Some(64));
    assert_eq!(params.values[0], key_freq(64));
}

#[test]
fn empty_pool_stays_silent() {
    let mut alloc = VoiceAllocator::new(KeyInput::NoInput);
    let mut params = ParameterStore::new(0);
    alloc.note_on(&mut params, 60, 1.0f32.to_bits());
    assert_eq!(alloc.voices.len(), 0);
    assert_eq!(alloc.active_keys.len(), 1);
    assert_eq!(alloc.active_keys[0].allocated_voice, None);
    alloc.note_off(&mut params, 60);
    assert_eq!(alloc.active_keys.len(), 0);
}

#[test]
fn retrigger_updates_velocity_only() {
    let (mut alloc, mut params) = mono_allocator();
    alloc.note_on(&mut params, 60, 1.0f32.to_bits());
    alloc.note_on(&mut params, 60, 0.25f32.to_bits());
    assert_eq!(alloc.active_keys.len(), 1);
    assert_eq!(params.values[0], key_freq(60));
    assert_eq!(params.values[1], 0.25f32.to_bits());
}

#[test]
fn midi_decoding_follows_the_convention() {
    assert_eq!(
        decode_midi_event(0x90, 60, 100),
        NoteEvent::On { key: 60, velocity: 100 }
    );
    assert_eq!(decode_midi_event(0x93, 60, 0), NoteEvent::Off { key: 60 });
    assert_eq!(decode_midi_event(0x85, 64, 40), NoteEvent::Off { key: 64 });
    assert_eq!(decode_midi_event(0x70, 10, 10), NoteEvent::Ignored);
    assert_eq!(decode_midi_event(0xB0, 1, 1), NoteEvent::Ignored);
}
