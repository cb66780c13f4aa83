//! One loaded program: its compiled graph, the voice allocator built from
//! its key-input descriptor, and the source text it came from, kept
//! verbatim as the program's saved state.

use vstd::prelude::*;

verus! {

use crate::error::LispError;
use crate::graph::SynthGraph;
use crate::lisp::{create_synth, spec_create_synth, KeyInput};
use crate::voice_allocator::{VoiceAllocator, Voice, ActiveKey};

/// One loaded program.
#[derive(Debug)]
pub struct Model {
    pub synth: SynthGraph,
    pub voice_allocator: VoiceAllocator,
    pub source: String,
}

impl Model {
    /// Compiles source text into a model: the graph, a fresh allocator
    /// sized by the key-input descriptor, and the text itself.
    pub fn from_string(sample_rate: u32, src: String) -> (r: Result<Model, LispError>)
        ensures
            (match spec_create_synth(src@, sample_rate) {
                Ok((g, k)) => r matches Ok(m) && m.synth@ == g && m.source@ == src@
                    && m.voice_allocator.active_keys@ == Seq::<ActiveKey>::empty() && (match k {
                    KeyInput::NoInput => m.voice_allocator.voices@ == Seq::<Voice>::empty(),
                    KeyInput::Mono { freq, vel } => m.voice_allocator.voices@ == seq![
                        (Voice {
                            freq_param: freq,
                            vel_param: vel,
                            allocated_key: Option::None,
                        }),
                    ],
                }),
                Err(e) => r matches Err(le) && le@ == e,
            }),
    {
        let (synth, synth_info) = match create_synth(src.as_str(), sample_rate) {
            Ok(p) => p,
            Err(e) => {
                return Err(e);
            },
        };
        Ok(
            Model {
                synth,
                voice_allocator: VoiceAllocator::new(synth_info.key_input),
                source: src,
            },
        )
    }
}

} // verus!
