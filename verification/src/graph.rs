//! The synthesis graph under construction: the data the evaluator emits.
//! Handles are indices into the graph's own tables; an engine interprets the
//! finished description at run time.

use vstd::prelude::*;
use crate::numeric::ZERO_BITS;

verus! {

broadcast use
    vstd::seq::axiom_seq_index_decreases,
    vstd::std_specs::vec::axiom_vec_index_decreases,
    vstd::std_specs::vec::axiom_vec_decreases_to_view;

/// Reference to one constructed graph node.
#[derive(Copy, Clone, Debug, PartialEq, Eq, Structural)]
pub struct NodeId(pub usize);

/// Reference to one mutable value cell in the graph.
#[derive(Copy, Clone, Debug, PartialEq, Eq, Structural)]
pub struct StoreId(pub usize);

/// Reference to one sample buffer owned by the graph.
#[derive(Copy, Clone, Debug, PartialEq, Eq, Structural)]
pub struct BufferId(pub usize);

/// Reference to one external parameter slot of the graph.
#[derive(Copy, Clone, Debug, PartialEq, Eq, Structural)]
pub struct ParameterId(pub usize);

/// One input of a graph node: a literal value (as single-precision bits) or
/// a handle into the graph.
#[derive(Copy, Clone, Debug, PartialEq, Eq, Structural)]
pub enum SynthInput {
    Literal(u32),
    Node(NodeId),
    Store(StoreId),
    Parameter(ParameterId),
}

/// One node of the graph. Constant fields hold single-precision bits.
#[derive(Copy, Clone, Debug, PartialEq, Eq, Structural)]
pub enum NodeKind {
    Add(SynthInput, SynthInput),
    Sub(SynthInput, SynthInput),
    Multiply(SynthInput, SynthInput),
    Mix { a: SynthInput, b: SynthInput, amount: SynthInput },
    Sine(SynthInput),
    Triangle(SynthInput),
    Square(SynthInput),
    Saw(SynthInput),
    Lowpass { input: SynthInput, cutoff: SynthInput },
    Highpass { input: SynthInput, cutoff: SynthInput },
    EnvAr { attack: u32, release: u32, gate: SynthInput },
    EnvAdsr { attack: u32, decay: u32, sustain: u32, release: u32, gate: SynthInput },
    Sequencer { buffer: BufferId, advance: SynthInput, reset: SynthInput },
    Sampler { buffer: BufferId, start: u32 },
}

/// One sample buffer: either data given directly (a sequencer's steps), or
/// the fixed-length offline rendering of a nested graph, which the engine
/// produces when it takes the finished description.
#[derive(Debug)]
pub enum BufferEntry {
    Data(Vec<u32>),
    Rendered { len: usize, source: Box<SynthGraph> },
}

/// A synthesis graph under construction.
#[derive(Debug)]
pub struct SynthGraph {
    pub nodes: Vec<NodeKind>,
    pub buffers: Vec<BufferEntry>,
    pub stores: Vec<u32>,
    pub store_writes: Vec<(StoreId, SynthInput)>,
    pub params: Vec<u32>,
    pub gain: Option<u32>,
    pub output: Option<NodeId>,
}

/// The mathematical shape of a buffer.
pub enum BufferV {
    Data(Seq<u32>),
    Rendered { len: nat, source: GraphV },
}

/// The mathematical shape of a graph: what the evaluator's contracts speak
/// of.
pub struct GraphV {
    pub nodes: Seq<NodeKind>,
    pub buffers: Seq<BufferV>,
    pub stores: Seq<u32>,
    pub store_writes: Seq<(StoreId, SynthInput)>,
    pub params: Seq<u32>,
    pub gain: Option<u32>,
    pub output: Option<NodeId>,
}

/// The shape of a buffer entry, rendered buffers carrying the shape of the
/// nested graph they render.
pub open spec fn buffer_view(b: BufferEntry) -> BufferV
    decreases b,
{
    match b {
        BufferEntry::Data(v) => BufferV::Data(v@),
        BufferEntry::Rendered { len, source } => (BufferV::Rendered {
            len: len as nat,
            source: graph_view(*source),
        }),
    }
}

/// The shapes of a sequence of buffers, element by element.
pub open spec fn view_buffers(s: Seq<BufferEntry>) -> Seq<BufferV>
    decreases s,
{
    if s.len() == 0 {
        Seq::empty()
    } else {
        seq![buffer_view(s[0])] + view_buffers(s.drop_first())
    }
}

/// A sequence of buffer shapes is as long as the sequence it shapes.
pub broadcast proof fn lemma_view_buffers_len(s: Seq<BufferEntry>)
    ensures
        (#[trigger] view_buffers(s)).len() == s.len(),
    decreases s.len(),
{
    if s.len() > 0 {
        lemma_view_buffers_len(s.drop_first());
    }
}

/// The buffer shape sequence shapes each entry in place.
pub broadcast proof fn lemma_view_buffers_index(s: Seq<BufferEntry>, i: int)
    requires
        0 <= i < s.len(),
    ensures
        (#[trigger] view_buffers(s)[i]) == buffer_view(s[i]),
    decreases s.len(),
{
    lemma_view_buffers_len(s);
    if i > 0 {
        lemma_view_buffers_index(s.drop_first(), i - 1);
    }
}

/// Appending one buffer appends its shape.
pub proof fn lemma_view_buffers_push(s: Seq<BufferEntry>, b: BufferEntry)
    ensures
        view_buffers(s.push(b)) == view_buffers(s).push(buffer_view(b)),
{
    lemma_view_buffers_len(s);
    lemma_view_buffers_len(s.push(b));
    let a = view_buffers(s.push(b));
    let c = view_buffers(s).push(buffer_view(b));
    assert forall|i: int| 0 <= i < a.len() implies a[i] == c[i] by {
        lemma_view_buffers_index(s.push(b), i);
        if i < s.len() {
            lemma_view_buffers_index(s, i);
            assert(s.push(b)[i] == s[i]);
        } else {
            assert(s.push(b)[i] == b);
        }
    }
    assert(a =~= c);
}

/// The shape of a graph under construction.
pub open spec fn graph_view(g: SynthGraph) -> GraphV
    decreases g,
{
    GraphV {
        nodes: g.nodes@,
        buffers: view_buffers(g.buffers@),
        stores: g.stores@,
        store_writes: g.store_writes@,
        params: g.params@,
        gain: g.gain,
        output: g.output,
    }
}

impl View for SynthGraph {
    type V = GraphV;

    open spec fn view(&self) -> GraphV {
        graph_view(*self)
    }
}

/// The shape of an empty graph, as construction starts.
pub open spec fn empty_graph() -> GraphV {
    GraphV {
        nodes: Seq::empty(),
        buffers: Seq::empty(),
        stores: Seq::empty(),
        store_writes: Seq::empty(),
        params: Seq::empty(),
        gain: Option::None,
        output: Option::None,
    }
}

/// The number of samples a buffer holds.
pub open spec fn buffer_len(b: BufferV) -> nat {
    match b {
        BufferV::Data(v) => v.len(),
        BufferV::Rendered { len, .. } => len,
    }
}

impl SynthGraph {
    /// A fresh, empty graph.
    pub fn new() -> (g: SynthGraph)
        ensures
            g@ == empty_graph(),
    {
        let g = SynthGraph {
            nodes: Vec::new(),
            buffers: Vec::new(),
            stores: Vec::new(),
            store_writes: Vec::new(),
            params: Vec::new(),
            gain: Option::None,
            output: Option::None,
        };
        proof {
            assert(g@ =~= empty_graph());
        }
        g
    }

    /// Appends one node; its reference is its index.
    pub fn push_node(&mut self, kind: NodeKind) -> (id: NodeId)
        ensures
            final(self)@ == (GraphV { nodes: old(self)@.nodes.push(kind), ..old(self)@ }),
            id.0 == old(self)@.nodes.len(),
    {
        let id = NodeId(self.nodes.len());
        self.nodes.push(kind);
        proof {
            assert(final(self)@.buffers =~= old(self)@.buffers);
            assert(final(self)@ =~= (GraphV { nodes: old(self)@.nodes.push(kind), ..old(self)@ }));
        }
        id
    }

    /// Appends one data buffer; its reference is its index.
    pub fn new_buffer(&mut self, data: Vec<u32>) -> (id: BufferId)
        ensures
            final(self)@ == (GraphV {
                buffers: old(self)@.buffers.push(BufferV::Data(data@)),
                ..old(self)@
            }),
            id.0 == old(self)@.buffers.len(),
    {
        let id = BufferId(self.buffers.len());
        let ghost dv = data@;
        let ghost entries = self.buffers@;
        self.buffers.push(BufferEntry::Data(data));
        proof {
            lemma_view_buffers_len(entries);
            let e = self.buffers@.last();
            assert(self.buffers@ == entries.push(e));
            lemma_view_buffers_push(entries, e);
            assert(buffer_view(e) == BufferV::Data(dv));
            assert(final(self)@ =~= (GraphV {
                buffers: old(self)@.buffers.push(BufferV::Data(dv)),
                ..old(self)@
            }));
        }
        id
    }

    /// Appends one buffer to be rendered offline from a nested graph; its
    /// reference is its index.
    pub fn new_rendered_buffer(&mut self, len: usize, source: SynthGraph) -> (id: BufferId)
        ensures
            final(self)@ == (GraphV {
                buffers: old(self)@.buffers.push(BufferV::Rendered {
                    len: len as nat,
                    source: source@,
                }),
                ..old(self)@
            }),
            id.0 == old(self)@.buffers.len(),
    {
        let id = BufferId(self.buffers.len());
        let ghost entry = BufferV::Rendered { len: len as nat, source: source@ };
        let ghost entries = self.buffers@;
        self.buffers.push(BufferEntry::Rendered { len, source: Box::new(source) });
        proof {
            lemma_view_buffers_len(entries);
            let e = self.buffers@.last();
            assert(self.buffers@ == entries.push(e));
            lemma_view_buffers_push(entries, e);
            assert(buffer_view(e) == entry);
            assert(final(self)@ =~= (GraphV { buffers: old(self)@.buffers.push(entry), ..old(self)@ }));
        }
        id
    }

    /// Allocates a fresh mutable value cell, initially zero; its reference
    /// is its index.
    pub fn new_value_store(&mut self) -> (id: StoreId)
        ensures
            final(self)@ == (GraphV {
                stores: old(self)@.stores.push(ZERO_BITS),
                ..old(self)@
            }),
            id.0 == old(self)@.stores.len(),
    {
        let id = StoreId(self.stores.len());
        self.stores.push(ZERO_BITS);
        proof {
            assert(final(self)@.buffers =~= old(self)@.buffers);
            assert(final(self)@ =~= (GraphV { stores: old(self)@.stores.push(ZERO_BITS), ..old(self)@ }));
        }
        id
    }

    /// Records one write of an evaluated input into a store.
    pub fn new_store_write(&mut self, store: StoreId, value: SynthInput)
        ensures
            final(self)@ == (GraphV {
                store_writes: old(self)@.store_writes.push((store, value)),
                ..old(self)@
            }),
    {
        self.store_writes.push((store, value));
        proof {
            assert(final(self)@.buffers =~= old(self)@.buffers);
            assert(final(self)@ =~= (GraphV {
                store_writes: old(self)@.store_writes.push((store, value)),
                ..old(self)@
            }));
        }
    }

    /// Allocates a fresh external parameter slot, initially zero; its
    /// reference is its index.
    pub fn new_parameter(&mut self) -> (id: ParameterId)
        ensures
            final(self)@ == (GraphV {
                params: old(self)@.params.push(ZERO_BITS),
                ..old(self)@
            }),
            id.0 == old(self)@.params.len(),
    {
        let id = ParameterId(self.params.len());
        self.params.push(ZERO_BITS);
        proof {
            assert(final(self)@.buffers =~= old(self)@.buffers);
            assert(final(self)@ =~= (GraphV { params: old(self)@.params.push(ZERO_BITS), ..old(self)@ }));
        }
        id
    }

    /// Sets the graph's master gain, as single-precision bits.
    pub fn set_gain(&mut self, gain: u32)
        ensures
            final(self)@ == (GraphV { gain: Option::Some(gain), ..old(self)@ }),
    {
        self.gain = Option::Some(gain);
        proof {
            assert(final(self)@.buffers =~= old(self)@.buffers);
            assert(final(self)@ =~= (GraphV { gain: Option::Some(gain), ..old(self)@ }));
        }
    }

    /// Designates the final audio-producing node.
    pub fn set_output(&mut self, node: NodeId)
        ensures
            final(self)@ == (GraphV { output: Option::Some(node), ..old(self)@ }),
    {
        self.output = Option::Some(node);
        proof {
            assert(final(self)@.buffers =~= old(self)@.buffers);
            assert(final(self)@ =~= (GraphV { output: Option::Some(node), ..old(self)@ }));
        }
    }

    /// The nodes built so far.
    pub fn nodes(&self) -> (r: &Vec<NodeKind>)
        ensures
            r@ == self@.nodes,
    {
        &self.nodes
    }

    /// The buffers built so far.
    pub fn buffers(&self) -> (r: &Vec<BufferEntry>)
        ensures
            r@.len() == self@.buffers.len(),
            forall|i: int| 0 <= i < r@.len() ==> buffer_view(#[trigger] r@[i]) == self@.buffers[i],
    {
        proof {
            lemma_view_buffers_len(self.buffers@);
            assert forall|i: int| 0 <= i < self.buffers@.len() implies buffer_view(
                self.buffers@[i],
            ) == self@.buffers[i] by {
                lemma_view_buffers_index(self.buffers@, i);
            }
        }
        &self.buffers
    }

    /// How many value stores the graph holds.
    pub fn store_count(&self) -> (r: usize)
        ensures
            r == self@.stores.len(),
    {
        self.stores.len()
    }

    /// The recorded store writes, in order.
    pub fn store_writes(&self) -> (r: &Vec<(StoreId, SynthInput)>)
        ensures
            r@ == self@.store_writes,
    {
        &self.store_writes
    }

    /// How many external parameter slots the graph holds.
    pub fn param_count(&self) -> (r: usize)
        ensures
            r == self@.params.len(),
    {
        self.params.len()
    }

    /// The initial values of the external parameter slots, all zero.
    pub fn params(&self) -> (r: &Vec<u32>)
        ensures
            r@ == self@.params,
    {
        &self.params
    }

    /// The master gain, if one was set, as single-precision bits.
    pub fn gain(&self) -> (r: Option<u32>)
        ensures
            r == self@.gain,
    {
        self.gain
    }

    /// The designated output node, if one was set.
    pub fn output(&self) -> (r: Option<NodeId>)
        ensures
            r == self@.output,
    {
        self.output
    }
}

/// The length of a buffer entry, for callers that hold the graph.
impl BufferEntry {
    /// The number of samples this buffer holds.
    pub fn len(&self) -> (r: usize)
        ensures
            r == buffer_len(buffer_view(*self)),
    {
        match self {
            BufferEntry::Data(v) => v.len(),
            BufferEntry::Rendered { len, .. } => *len,
        }
    }
}

} // verus!
