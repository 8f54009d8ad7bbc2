//! The root of an audio session: the `AudioContext` owns the render clock,
//! the connection graph, the single destination node and the single
//! listener, and hands out fresh node handles.
//!
//! Times are microseconds of the context clock; positions and distances are
//! fixed-point numbers in millionths of a unit.

use vstd::prelude::*;


verus! {

/// Largest frame count a decoded buffer may carry, so that its duration in
/// microseconds fits the clock's range.
pub const MAX_FRAMES: u64 = 0x400_0000_0000;

/// A 3-component vector, each coordinate in fixed-point millionths.
#[derive(Debug, Clone, Copy, PartialEq, Eq, Structural)]
pub struct Vec3 {
    /// Coordinate along the x axis, in millionths.
    pub x: i64,
    /// Coordinate along the y axis, in millionths.
    pub y: i64,
    /// Coordinate along the z axis, in millionths.
    pub z: i64,
}

/// A directed connection from one node's output to another node's input.
#[derive(Debug, Clone, Copy, PartialEq, Eq, Structural)]
pub struct AudioEdge {
    /// Graph id of the node whose output feeds the edge.
    pub from: u64,
    /// Graph id of the node whose input the edge feeds.
    pub to: u64,
}

/// The audio output device could not be acquired when the context was
/// created.  This model's construction always succeeds; the type exists
/// because a rendering backend's may not.
#[derive(Debug, Clone, Copy, PartialEq, Eq, Structural)]
pub struct InitError;

/// The spatial reference frame for panner nodes: a position and an
/// orientation given by a forward and an up vector.  Exactly one per
/// context, mutated in place and never replaced.
#[derive(Debug, Clone, Copy, PartialEq, Eq, Structural)]
pub struct AudioListener {
    /// Where the listener stands, in millionths.
    pub position: Vec3,
    /// The direction the listener faces, in millionths.
    pub forward: Vec3,
    /// The direction out of the top of the listener's head, in millionths.
    pub up: Vec3,
}

impl AudioListener {
    /// Moves the listener; panner computations made afterwards see the new
    /// position at once.
    pub fn set_position(&mut self, pos: Vec3)
        ensures
            final(self).position == pos,
            final(self).forward == old(self).forward,
            final(self).up == old(self).up,
    {
        self.position = pos;
    }

    /// Turns the listener; panner computations made afterwards see the new
    /// orientation at once.
    pub fn set_orientation(&mut self, forward: Vec3, up: Vec3)
        ensures
            final(self).position == old(self).position,
            final(self).forward == forward,
            final(self).up == up,
    {
        self.forward = forward;
        self.up = up;
    }
}

/// Immutable decoded PCM data: a frame count at a sampling rate, from which
/// the duration derives.  Handles are shared by value; no node mutates the
/// underlying data, so copying a handle shares the same decoded signal.
#[derive(Debug, Clone, Copy, PartialEq, Eq, Structural)]
pub struct AudioBuffer {
    /// Number of sample frames the decoder produced.
    pub frames: u64,
    /// Frames per second of the decoded signal; always positive.
    pub sample_rate: u32,
}

impl AudioBuffer {
    /// A positive sampling rate and a duration that fits the clock.
    pub open spec fn wf(self) -> bool {
        self.sample_rate > 0 && self.frames <= MAX_FRAMES
    }

    /// Duration in microseconds: frames over rate, rounded down.
    pub open spec fn duration_micros(self) -> int {
        (self.frames as int) * 1_000_000 / (self.sample_rate as int)
    }

    /// Wraps the outcome of a backend decode: `frames` sample frames at
    /// `sample_rate` frames per second.
    pub fn from_decoded(frames: u64, sample_rate: u32) -> (r: AudioBuffer)
        requires
            sample_rate > 0,
            frames <= MAX_FRAMES,
        ensures
            r.frames == frames,
            r.sample_rate == sample_rate,
            r.wf(),
    {
        AudioBuffer { frames, sample_rate }
    }

    /// The buffer's duration in microseconds.
    pub fn duration(&self) -> (r: u64)
        requires
            self.wf(),
        ensures
            r == self.duration_micros(),
    {
        let num: u128 = (self.frames as u128) * 1_000_000;
        let q: u128 = num / (self.sample_rate as u128);
        proof {
            assert(q <= num) by (nonlinear_arith)
                requires
                    q == num / (self.sample_rate as u128),
                    self.sample_rate >= 1,
            ;
        }
        q as u64
    }
}

/// Root owner of an audio session: the clock, the connection graph, the one
/// destination node and the one listener.
#[derive(Debug)]
pub struct AudioContext {
    /// Every directed connection currently in the graph, in the order the
    /// connections were made.  Connecting the same pair twice keeps both
    /// edges; this model retains duplicates rather than coalescing them.
    pub edges: Vec<AudioEdge>,
    /// The next unused node id; allocation only ever increases it.
    pub next_node_id: u64,
    /// The id of the context's destination node.
    pub destination_id: u64,
    /// The context's single spatial listener.
    pub listener: AudioListener,
    /// The render clock, in microseconds; it never decreases.
    pub time_micros: u64,
}

impl AudioContext {
    /// Node ids handed out so far stay below the allocation cursor.
    pub open spec fn wf(self) -> bool {
        self.destination_id < self.next_node_id
    }

    /// Whether the graph holds an edge from `from` to `to`.
    pub open spec fn connected(self, from: u64, to: u64) -> bool {
        self.edges@.contains(AudioEdge { from, to })
    }

    /// Everything except the edge list agrees between two context states.
    pub open spec fn same_except_edges(self, other: AudioContext) -> bool {
        &&& self.next_node_id == other.next_node_id
        &&& self.destination_id == other.destination_id
        &&& self.listener == other.listener
        &&& self.time_micros == other.time_micros
    }

    /// Opens an audio session.  Acquiring the output device is the rendering
    /// backend's concern, so in this model construction always succeeds: the
    /// clock starts at zero, the graph is empty, the destination holds the
    /// first node id, and the listener faces along the negative z axis.
    pub fn new() -> (r: Result<AudioContext, InitError>)
        ensures
            match r {
                Ok(c) => {
                    &&& c.wf()
                    &&& c.edges@.len() == 0
                    &&& c.next_node_id == 1
                    &&& c.destination_id == 0
                    &&& c.time_micros == 0
                    &&& c.listener == (AudioListener {
                        position: Vec3 { x: 0i64, y: 0i64, z: 0i64 },
                        forward: Vec3 { x: 0i64, y: 0i64, z: -1_000_000i64 },
                        up: Vec3 { x: 0i64, y: 1_000_000i64, z: 0i64 },
                    })
                },
                Err(_) => false,
            },
    {
        Ok(
            AudioContext {
                edges: Vec::new(),
                next_node_id: 1,
                destination_id: 0,
                listener: AudioListener {
                    position: Vec3 { x: 0, y: 0, z: 0 },
                    forward: Vec3 { x: 0, y: 0, z: -1_000_000 },
                    up: Vec3 { x: 0, y: 1_000_000, z: 0 },
                },
                time_micros: 0,
            },
        )
    }

    /// The context's monotonic render-clock reading, in microseconds.
    pub fn current_time(&self) -> (r: u64)
        ensures
            r == self.time_micros,
    {
        self.time_micros
    }

    /// Moves the render clock forward; rendering backends do this on their
    /// own real-time path, and the clock never moves backwards.
    pub fn advance_time(&mut self, delta_micros: u64)
        requires
            old(self).time_micros + delta_micros <= u64::MAX,
        ensures
            final(self).time_micros == old(self).time_micros + delta_micros,
            final(self).edges == old(self).edges,
            final(self).next_node_id == old(self).next_node_id,
            final(self).destination_id == old(self).destination_id,
            final(self).listener == old(self).listener,
    {
        self.time_micros = self.time_micros + delta_micros;
    }

    /// Borrows the context's single listener for reading or mutation.
    pub fn listener(&mut self) -> (r: &mut AudioListener)
        ensures
            *r == old(self).listener,
            final(self).listener == *final(r),
            final(self).edges == old(self).edges,
            final(self).next_node_id == old(self).next_node_id,
            final(self).destination_id == old(self).destination_id,
            final(self).time_micros == old(self).time_micros,
    {
        &mut self.listener
    }

    /// Hands out an unused node id and moves the cursor past it.
    pub fn fresh_node_id(&mut self) -> (id: u64)
        requires
            old(self).next_node_id < u64::MAX,
        ensures
            id == old(self).next_node_id,
            final(self).next_node_id == old(self).next_node_id + 1,
            final(self).edges == old(self).edges,
            final(self).destination_id == old(self).destination_id,
            final(self).listener == old(self).listener,
            final(self).time_micros == old(self).time_micros,
            old(self).wf() ==> final(self).wf(),
    {
        let id = self.next_node_id;
        self.next_node_id = self.next_node_id + 1;
        id
    }

    /// Records a directed connection from `from` to `to`; earlier edges,
    /// including a duplicate of this pair, are all retained.
    pub fn add_edge(&mut self, from: u64, to: u64)
        ensures
            final(self).edges@ == old(self).edges@.push(AudioEdge { from, to }),
            final(self).same_except_edges(*old(self)),
            final(self).connected(from, to),
    {
        self.edges.push(AudioEdge { from, to });
        proof {
            assert(self.edges@[self.edges@.len() - 1] == AudioEdge { from, to });
            assert(self.edges@.contains(AudioEdge { from, to }));
        }
    }

    /// Removes every edge whose source is `from`; edges into `from` and all
    /// other edges are kept, in their original order.
    pub fn remove_edges_from(&mut self, from: u64)
        ensures
            final(self).edges@ == old(self).edges@.filter(|e: AudioEdge| e.from != from),
            final(self).same_except_edges(*old(self)),
            forall|i: int|
                0 <= i < final(self).edges@.len() ==> (#[trigger] final(self).edges@[i]).from
                    != from,
            forall|e: AudioEdge|
                old(self).edges@.contains(e) && e.from != from ==> final(self).edges@.contains(e),
    {
        let ghost all = self.edges@;
        let ghost pred = |e: AudioEdge| e.from != from;
        let mut kept: Vec<AudioEdge> = Vec::new();
        let mut i: usize = 0;
        proof {
            assert(all.take(0) =~= Seq::<AudioEdge>::empty());
            reveal_with_fuel(Seq::<_>::filter, 2);
        }
        while i < self.edges.len()
            invariant
                all == self.edges@,
                i <= all.len(),
                kept@ == all.take(i as int).filter(pred),
                pred == (|e: AudioEdge| e.from != from),
            decreases all.len() - i,
        {
            let e = self.edges[i];
            proof {
                reveal_with_fuel(Seq::<_>::filter, 2);
                assert(all.take(i + 1).drop_last() =~= all.take(i as int));
                assert(all.take(i + 1).last() == e);
            }
            if e.from != from {
                kept.push(e);
            }
            i += 1;
        }
        proof {
            assert(all.take(all.len() as int) =~= all);
        }
        self.edges = kept;
        proof {

            assert forall|i: int|
                0 <= i < self.edges@.len() implies (#[trigger] self.edges@[i]).from != from by {
                all.lemma_filter_pred(pred, i);
            }
            assert forall|e: AudioEdge|
                old(self).edges@.contains(e) && e.from != from implies self.edges@.contains(
                e,
            ) by {
                let j = choose|j: int| 0 <= j < all.len() && all[j] == e;
                all.lemma_filter_contains(pred, j);
            }
        }
    }
}

/// Fan-out and disconnection: connecting one source to two sinks leaves both
/// edges in the graph, and disconnecting the source then removes both, so
/// that neither sink stays connected to it.  The four states are the graph
/// before, after the first connect, after the second connect, and after the
/// disconnect, as [`AudioContext::add_edge`] and
/// [`AudioContext::remove_edges_from`] describe them.
pub proof fn lemma_fan_out_then_disconnect(
    c0: AudioContext,
    c1: AudioContext,
    c2: AudioContext,
    c3: AudioContext,
    src: u64,
    sink_a: u64,
    sink_b: u64,
)
    requires
        c1.edges@ == c0.edges@.push(AudioEdge { from: src, to: sink_a }),
        c2.edges@ == c1.edges@.push(AudioEdge { from: src, to: sink_b }),
        c3.edges@ == c2.edges@.filter(|e: AudioEdge| e.from != src),
    ensures
        c2.connected(src, sink_a),
        c2.connected(src, sink_b),
        !c3.connected(src, sink_a),
        !c3.connected(src, sink_b),
{
    let ea = AudioEdge { from: src, to: sink_a };
    let eb = AudioEdge { from: src, to: sink_b };
    assert(c2.edges@[c2.edges@.len() - 2] == ea);
    assert(c2.edges@[c2.edges@.len() - 1] == eb);
    assert(c2.edges@.contains(ea));
    assert(c2.edges@.contains(eb));
    let pred = |e: AudioEdge| e.from != src;
    assert forall|e: AudioEdge| c3.edges@.contains(e) implies e.from != src by {
        let i = choose|i: int| 0 <= i < c3.edges@.len() && c3.edges@[i] == e;
        c2.edges@.lemma_filter_pred(pred, i);
    }
}

} // verus!
