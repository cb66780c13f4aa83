//! The voice allocator: a fixed pool of voices onto which an unbounded
//! stream of note events is mapped, with no allocation in the hot path.
//! Allocation is first-fit; a key with no free voice stays active but
//! silent, and a voice freed by a note-off is not handed to waiting keys.

use vstd::prelude::*;

verus! {

use crate::graph::ParameterId;
use crate::lisp::KeyInput;
use crate::numeric::{ZERO_BITS, A440_BITS, mul_bits, num_mul};

/// The live parameter values of a compiled graph, one single-precision bit
/// pattern per parameter slot, poked by the allocator on note events.
#[derive(Debug)]
pub struct ParameterStore {
    pub values: Vec<u32>,
}

impl View for ParameterStore {
    type V = Seq<u32>;

    open spec fn view(&self) -> Seq<u32> {
        self.values@
    }
}

impl ParameterStore {
    /// A store with the given number of slots, all zero.
    pub fn new(count: usize) -> (r: ParameterStore)
        ensures
            r@.len() == count,
            forall|i: int| 0 <= i < count ==> r@[i] == ZERO_BITS,
    {
        let mut values: Vec<u32> = Vec::new();
        let mut i: usize = 0;
        while i < count
            invariant
                i <= count,
                values@.len() == i,
                forall|j: int| 0 <= j < i ==> values@[j] == ZERO_BITS,
            decreases count - i,
        {
            values.push(ZERO_BITS);
            i = i + 1;
        }
        ParameterStore { values }
    }

    /// The value a parameter slot holds.
    pub fn get(&self, id: ParameterId) -> (r: u32)
        requires
            id.0 < self@.len(),
        ensures
            r == self@[id.0 as int],
    {
        self.values[id.0]
    }

    /// Pokes one parameter slot.
    pub fn set(&mut self, id: ParameterId, value: u32)
        requires
            id.0 < old(self)@.len(),
        ensures
            final(self)@ == old(self)@.update(id.0 as int, value),
    {
        self.values.set(id.0, value);
    }
}

/// The optional write of a value into a parameter slot: absent slots are
/// left alone.
pub open spec fn spec_write(params: Seq<u32>, p: Option<ParameterId>, value: u32) -> Seq<u32> {
    match p {
        Option::Some(id) => params.update(id.0 as int, value),
        Option::None => params,
    }
}

/// Single-precision bits of 2^(s/12) for a semitone step `s` in 0..12,
/// nearest rounding.
pub open spec fn ratio_bits(s: int) -> u32 {
    if s == 0 {
        0x3F80_0000
    } else if s == 1 {
        0x3F87_9C7D
    } else if s == 2 {
        0x3F8F_ACD6
    } else if s == 3 {
        0x3F98_37F0
    } else if s == 4 {
        0x3FA1_4518
    } else if s == 5 {
        0x3FAA_DC08
    } else if s == 6 {
        0x3FB5_04F3
    } else if s == 7 {
        0x3FBF_C887
    } else if s == 8 {
        0x3FCB_2FF5
    } else if s == 9 {
        0x3FD7_44FD
    } else if s == 10 {
        0x3FE4_11F0
    } else {
        0x3FF1_A1BF
    }
}

/// Single-precision bits of 2^e for an octave shift `e` in -6..=5: exact
/// powers of two.
pub open spec fn pow2_bits(e: int) -> u32 {
    if e == -6 {
        0x3C80_0000
    } else if e == -5 {
        0x3D00_0000
    } else if e == -4 {
        0x3D80_0000
    } else if e == -3 {
        0x3E00_0000
    } else if e == -2 {
        0x3E80_0000
    } else if e == -1 {
        0x3F00_0000
    } else if e == 0 {
        0x3F80_0000
    } else if e == 1 {
        0x4000_0000
    } else if e == 2 {
        0x4080_0000
    } else if e == 3 {
        0x4100_0000
    } else if e == 4 {
        0x4180_0000
    } else {
        0x4200_0000
    }
}

/// The frequency a key maps to: `440 * 2^((key - 64) / 12)`, computed as
/// 440 times the key's semitone ratio times its octave's power of two, in
/// single precision. Keys a whole octave count apart from key 64 map to
/// exact octaves of 440.
pub open spec fn key_freq_bits(key: u8) -> u32 {
    let u = key + 56;
    let o = u / 12;
    let s = u % 12;
    mul_bits(mul_bits(A440_BITS, ratio_bits(s as int)), pow2_bits(o - 10))
}

/// The frequency a key maps to, as executable code.
pub fn key_freq(key: u8) -> (r: u32)
    requires
        key < 128,
    ensures
        r == key_freq_bits(key),
{
    let u: usize = key as usize + 56;
    let o: usize = u / 12;
    let s: usize = u % 12;
    let ratio: u32 = if s == 0 {
        0x3F80_0000
    } else if s == 1 {
        0x3F87_9C7D
    } else if s == 2 {
        0x3F8F_ACD6
    } else if s == 3 {
        0x3F98_37F0
    } else if s == 4 {
        0x3FA1_4518
    } else if s == 5 {
        0x3FAA_DC08
    } else if s == 6 {
        0x3FB5_04F3
    } else if s == 7 {
        0x3FBF_C887
    } else if s == 8 {
        0x3FCB_2FF5
    } else if s == 9 {
        0x3FD7_44FD
    } else if s == 10 {
        0x3FE4_11F0
    } else {
        0x3FF1_A1BF
    };
    let pow2: u32 = if o == 4 {
        0x3C80_0000
    } else if o == 5 {
        0x3D00_0000
    } else if o == 6 {
        0x3D80_0000
    } else if o == 7 {
        0x3E00_0000
    } else if o == 8 {
        0x3E80_0000
    } else if o == 9 {
        0x3F00_0000
    } else if o == 10 {
        0x3F80_0000
    } else if o == 11 {
        0x4000_0000
    } else if o == 12 {
        0x4080_0000
    } else if o == 13 {
        0x4100_0000
    } else if o == 14 {
        0x4180_0000
    } else {
        0x4200_0000
    };
    proof {
        assert(ratio == ratio_bits(s as int));
        assert(pow2 == pow2_bits(o as int - 10));
    }
    num_mul(num_mul(A440_BITS, ratio), pow2)
}

/// One polyphonic execution slot: its parameter bindings and the key it is
/// currently bound to, if any.
#[derive(Copy, Clone, Debug, PartialEq)]
pub struct Voice {
    pub freq_param: Option<ParameterId>,
    pub vel_param: Option<ParameterId>,
    pub allocated_key: Option<u8>,
}

/// One active key: created on its first note-on, removed on note-off, in
/// arrival order.
#[derive(Copy, Clone, Debug, PartialEq)]
pub struct ActiveKey {
    pub allocated_voice: Option<usize>,
    pub key: u8,
}

/// The allocator: the active keys in arrival order and the fixed voice
/// pool.
#[derive(Debug)]
pub struct VoiceAllocator {
    pub active_keys: Vec<ActiveKey>,
    pub voices: Vec<Voice>,
}

/// The position of a key in the active list, scanning from `i`.
pub open spec fn spec_find_key_from(active: Seq<ActiveKey>, key: u8, i: int) -> Option<int>
    decreases active.len() - i,
{
    if i < 0 || i >= active.len() {
        Option::None
    } else if active[i].key == key {
        Option::Some(i)
    } else {
        spec_find_key_from(active, key, i + 1)
    }
}

/// The first free voice, scanning from `i`.
pub open spec fn spec_first_free_from(voices: Seq<Voice>, i: int) -> Option<int>
    decreases voices.len() - i,
{
    if i < 0 || i >= voices.len() {
        Option::None
    } else if voices[i].allocated_key is None {
        Option::Some(i)
    } else {
        spec_first_free_from(voices, i + 1)
    }
}

/// The first voice bound to a key, scanning from `i`.
pub open spec fn spec_find_voice_from(voices: Seq<Voice>, key: u8, i: int) -> Option<int>
    decreases voices.len() - i,
{
    if i < 0 || i >= voices.len() {
        Option::None
    } else if voices[i].allocated_key == Option::Some(key) {
        Option::Some(i)
    } else {
        spec_find_voice_from(voices, key, i + 1)
    }
}

/// First-fit allocation: the first free voice gets the key's frequency and
/// the note's velocity and is bound to the key; with no free voice nothing
/// changes.
pub open spec fn spec_try_start(voices: Seq<Voice>, params: Seq<u32>, key: u8, vel: u32) -> (
    Seq<Voice>,
    Seq<u32>,
    Option<usize>,
) {
    match spec_first_free_from(voices, 0) {
        Option::Some(j) => {
            let v = voices[j];
            (
                voices.update(j, Voice { allocated_key: Option::Some(key), ..v }),
                spec_write(spec_write(params, v.freq_param, key_freq_bits(key)), v.vel_param, vel),
                Option::Some(j as usize),
            )
        },
        Option::None => (voices, params, Option::None),
    }
}

/// The note-on transition: a known allocated key gets its velocity pushed;
/// a known unallocated key attempts allocation and, if it has a voice
/// after that, gets its velocity pushed; a new key attempts allocation and
/// joins the active list either way.
pub open spec fn spec_note_on(
    active: Seq<ActiveKey>,
    voices: Seq<Voice>,
    params: Seq<u32>,
    key: u8,
    vel: u32,
) -> (Seq<ActiveKey>, Seq<Voice>, Seq<u32>) {
    match spec_find_key_from(active, key, 0) {
        Option::Some(pos) => {
            let ak = active[pos];
            match ak.allocated_voice {
                Option::Some(j) => (
                    active,
                    voices,
                    spec_write(params, voices[j as int].vel_param, vel),
                ),
                Option::None => {
                    let (voices2, params2, alloc) = spec_try_start(voices, params, key, vel);
                    match alloc {
                        Option::Some(j) => (
                            active.update(
                                pos,
                                ActiveKey { allocated_voice: Option::Some(j), key },
                            ),
                            voices2,
                            spec_write(params2, voices2[j as int].vel_param, vel),
                        ),
                        Option::None => (active, voices, params),
                    }
                },
            }
        },
        Option::None => {
            let (voices2, params2, alloc) = spec_try_start(voices, params, key, vel);
            (active.push(ActiveKey { key, allocated_voice: alloc }), voices2, params2)
        },
    }
}

/// The note-off transition: the key's entry leaves the active list, and the
/// first voice bound to the key releases (velocity to zero, binding
/// cleared, frequency untouched). Waiting unallocated keys are not
/// reallocated.
pub open spec fn spec_note_off(
    active: Seq<ActiveKey>,
    voices: Seq<Voice>,
    params: Seq<u32>,
    key: u8,
) -> (Seq<ActiveKey>, Seq<Voice>, Seq<u32>) {
    let active2 = match spec_find_key_from(active, key, 0) {
        Option::Some(pos) => active.remove(pos),
        Option::None => active,
    };
    match spec_find_voice_from(voices, key, 0) {
        Option::Some(j) => (
            active2,
            voices.update(j, Voice { allocated_key: Option::None, ..voices[j] }),
            spec_write(params, voices[j].vel_param, ZERO_BITS),
        ),
        Option::None => (active2, voices, params),
    }
}

/// Whether every parameter slot the allocator's voices name exists in the
/// store.
pub open spec fn param_ok(p: Option<ParameterId>, params: Seq<u32>) -> bool {
    match p {
        Option::Some(id) => id.0 < params.len(),
        Option::None => true,
    }
}

impl VoiceAllocator {
    /// Whether the allocator fits a parameter store: every named parameter
    /// slot exists, and every allocated voice index is in the pool.
    pub open spec fn wf(self, params: Seq<u32>) -> bool {
        &&& forall|j: int|
            0 <= j < self.voices@.len() ==> param_ok(
                (#[trigger] self.voices@[j]).freq_param,
                params,
            ) && param_ok(self.voices@[j].vel_param, params)
        &&& forall|i: int|
            0 <= i < self.active_keys@.len() ==> match (
            #[trigger] self.active_keys@[i]).allocated_voice {
                Option::Some(j) => j < self.voices@.len(),
                Option::None => true,
            }
    }

    /// A pool fixed by the key-input descriptor: no voices without key
    /// input, one voice carrying the Mono parameter slots.
    pub fn new(key_input_params: KeyInput) -> (r: VoiceAllocator)
        ensures
            r.active_keys@ == Seq::<ActiveKey>::empty(),
            (match key_input_params {
                KeyInput::NoInput => r.voices@ == Seq::<Voice>::empty(),
                KeyInput::Mono { freq, vel } => r.voices@ == seq![
                    (Voice { freq_param: freq, vel_param: vel, allocated_key: Option::None }),
                ],
            }),
    {
        let mut voices: Vec<Voice> = Vec::new();
        match key_input_params {
            KeyInput::NoInput => {},
            KeyInput::Mono { freq, vel } => {
                voices.push(
                    Voice { freq_param: freq, vel_param: vel, allocated_key: Option::None },
                );
            },
        }
        proof {
            match key_input_params {
                KeyInput::NoInput => {
                    assert(voices@ =~= Seq::<Voice>::empty());
                },
                KeyInput::Mono { freq, vel } => {
                    assert(voices@ =~= seq![
                        (Voice { freq_param: freq, vel_param: vel, allocated_key: Option::None }),
                    ]);
                },
            }
        }
        let r = VoiceAllocator { active_keys: Vec::new(), voices };
        proof {
            assert(r.active_keys@ =~= Seq::<ActiveKey>::empty());
        }
        r
    }

    /// The position of a key in the active list, if it is active.
    fn find_key_pos(&self, key: u8) -> (r: Option<usize>)
        ensures
            (match spec_find_key_from(self.active_keys@, key, 0) {
                Option::Some(p) => r matches Some(q) && q == p && q
                    < self.active_keys@.len(),
                Option::None => r is None,
            }),
    {
        let mut i: usize = 0;
        while i < self.active_keys.len()
            invariant
                0 <= i <= self.active_keys@.len(),
                spec_find_key_from(self.active_keys@, key, 0) == spec_find_key_from(
                    self.active_keys@,
                    key,
                    i as int,
                ),
            decreases self.active_keys@.len() - i,
        {
            if self.active_keys[i].key == key {
                return Some(i);
            }
            i = i + 1;
        }
        None
    }

    /// First-fit allocation of a free voice for a key, setting its
    /// frequency and velocity parameters and binding the key.
    fn try_start_voice(&mut self, params: &mut ParameterStore, key: u8, vel: u32) -> (r: Option<
        usize,
    >)
        requires
            key < 128,
            old(self).wf(old(params)@),
        ensures
            final(self).wf(final(params)@),
            final(self).active_keys@ == old(self).active_keys@,
            final(self).voices@.len() == old(self).voices@.len(),
            r matches Some(j) ==> j < final(self).voices@.len(),
            final(params)@.len() == old(params)@.len(),
            ({
                let t = spec_try_start(old(self).voices@, old(params)@, key, vel);
                final(self).voices@ == t.0 && final(params)@ == t.1 && r == t.2
            }),
    {
        let freq = key_freq(key);
        let mut j: usize = 0;
        while j < self.voices.len()
            invariant
                0 <= j <= self.voices@.len(),
                freq == key_freq_bits(key),
                self.active_keys@ == old(self).active_keys@,
                self.voices@ == old(self).voices@,
                params@ == old(params)@,
                old(self).wf(old(params)@),
                spec_first_free_from(self.voices@, 0) == spec_first_free_from(
                    self.voices@,
                    j as int,
                ),
            decreases self.voices@.len() - j,
        {
            let is_free = match self.voices[j].allocated_key {
                Some(_) => false,
                None => true,
            };
            if is_free {
                let v = self.voices[j];
                match v.freq_param {
                    Some(id) => {
                        params.set(id, freq);
                    },
                    None => {},
                }
                match v.vel_param {
                    Some(id) => {
                        params.set(id, vel);
                    },
                    None => {},
                }
                self.voices.set(
                    j,
                    Voice { allocated_key: Some(key), freq_param: v.freq_param, vel_param: v.vel_param },
                );
                return Some(j);
            }
            j = j + 1;
        }
        None
    }

    /// A note-on event: push the velocity into the key's voice, allocating
    /// one first if the key has none; a key with no free voice stays
    /// active and silent. This is explicit behavior, not an error.
    pub fn note_on(&mut self, params: &mut ParameterStore, key: u8, vel: u32)
        requires
            key < 128,
            old(self).wf(old(params)@),
        ensures
            final(self).wf(final(params)@),
            ({
                let t = spec_note_on(
                    old(self).active_keys@,
                    old(self).voices@,
                    old(params)@,
                    key,
                    vel,
                );
                final(self).active_keys@ == t.0 && final(self).voices@ == t.1 && final(params)@
                    == t.2
            }),
    {
        let maybe_key_pos = self.find_key_pos(key);
        match maybe_key_pos {
            Some(pos) => {
                let ak = self.active_keys[pos];
                proof {
                    assert(self.active_keys@[pos as int] == ak);
                }
                match ak.allocated_voice {
                    Some(j) => {
                        let v = self.voices[j];
                        match v.vel_param {
                            Some(id) => {
                                params.set(id, vel);
                            },
                            None => {},
                        }
                    },
                    None => {
                        let started = self.try_start_voice(params, key, vel);
                        match started {
                            Some(j) => {
                                self.active_keys.set(
                                    pos,
                                    ActiveKey { allocated_voice: Some(j), key },
                                );
                                let v = self.voices[j];
                                match v.vel_param {
                                    Some(id) => {
                                        params.set(id, vel);
                                    },
                                    None => {},
                                }
                            },
                            None => {},
                        }
                    },
                }
            },
            None => {
                let started = self.try_start_voice(params, key, vel);
                self.active_keys.push(ActiveKey { key, allocated_voice: started });
            },
        }
    }

    /// A note-off event: the key leaves the active list; the voice bound to
    /// it releases its velocity to zero and is unbound, its frequency left
    /// unchanged. Waiting unallocated keys are not reallocated; that is a
    /// documented limitation.
    pub fn note_off(&mut self, params: &mut ParameterStore, key: u8)
        requires
            old(self).wf(old(params)@),
        ensures
            final(self).wf(final(params)@),
            ({
                let t = spec_note_off(old(self).active_keys@, old(self).voices@, old(params)@, key);
                final(self).active_keys@ == t.0 && final(self).voices@ == t.1 && final(params)@
                    == t.2
            }),
    {
        let maybe_key_pos = self.find_key_pos(key);
        match maybe_key_pos {
            Some(pos) => {
                self.active_keys.remove(pos);
            },
            None => {},
        }
        let ghost active2 = self.active_keys@;
        proof {
            assert(active2 == (match spec_find_key_from(old(self).active_keys@, key, 0) {
                Option::Some(pos) => old(self).active_keys@.remove(pos),
                Option::None => old(self).active_keys@,
            }));
        }
        let mut j: usize = 0;
        while j < self.voices.len()
            invariant
                0 <= j <= self.voices@.len(),
                self.active_keys@ == active2,
                active2 == (match spec_find_key_from(old(self).active_keys@, key, 0) {
                    Option::Some(pos) => old(self).active_keys@.remove(pos),
                    Option::None => old(self).active_keys@,
                }),
                self.voices@ == old(self).voices@,
                params@ == old(params)@,
                old(self).wf(old(params)@),
                self.wf(params@),
                spec_find_voice_from(self.voices@, key, 0) == spec_find_voice_from(
                    self.voices@,
                    key,
                    j as int,
                ),
            decreases self.voices@.len() - j,
        {
            let matches_key = match self.voices[j].allocated_key {
                Some(k) => k == key,
                None => false,
            };
            if matches_key {
                let v = self.voices[j];
                match v.vel_param {
                    Some(id) => {
                        params.set(id, ZERO_BITS);
                    },
                    None => {},
                }
                self.voices.set(
                    j,
                    Voice {
                        allocated_key: None,
                        freq_param: v.freq_param,
                        vel_param: v.vel_param,
                    },
                );
                return ;
            }
            j = j + 1;
        }
    }
}

} // verus!
