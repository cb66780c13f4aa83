//! The note-event decoder: the status-byte dispatch that turns a raw event
//! into a note action. A note-on with velocity zero is a note-off; that
//! translation is the decoder's responsibility, not the allocator's.

use vstd::prelude::*;

verus! {

/// One decoded note action.
#[derive(Copy, Clone, Debug, PartialEq, Eq, Structural)]
pub enum NoteEvent {
    /// A key went down with a nonzero velocity.
    On { key: u8, velocity: u8 },
    /// A key went up, or went down with velocity zero.
    Off { key: u8 },
    /// Anything that is not a note event.
    Ignored,
}

/// The action a raw three-byte event decodes to.
pub open spec fn spec_decode_midi(status: u8, data1: u8, data2: u8) -> NoteEvent {
    if 0x80 <= status <= 0x8F {
        NoteEvent::Off { key: data1 }
    } else if 0x90 <= status <= 0x9F {
        if data2 > 0 {
            NoteEvent::On { key: data1, velocity: data2 }
        } else {
            NoteEvent::Off { key: data1 }
        }
    } else {
        NoteEvent::Ignored
    }
}

/// Decodes one raw event: note-off range, note-on range with the
/// velocity-zero-as-note-off convention, anything else ignored.
pub fn decode_midi_event(status: u8, data1: u8, data2: u8) -> (e: NoteEvent)
    ensures
        e == spec_decode_midi(status, data1, data2),
{
    if 0x80 <= status && status <= 0x8F {
        NoteEvent::Off { key: data1 }
    } else if 0x90 <= status && status <= 0x9F {
        if data2 > 0 {
            NoteEvent::On { key: data1, velocity: data2 }
        } else {
            NoteEvent::Off { key: data1 }
        }
    } else {
        NoteEvent::Ignored
    }
}

} // verus!
