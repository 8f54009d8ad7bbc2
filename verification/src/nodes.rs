//! Node variants of the audio graph and the shared connection capability.
//!
//! Every node owns a graph id handed out by its context and zero or more
//! automation timelines.  The [`AudioNode`] trait gives each variant the same
//! connect and disconnect operations, built on one required method exposing
//! the node's graph handle.

use vstd::prelude::*;
use vstd::arithmetic::div_mod::lemma_div_pos_is_pos;
use crate::context::AudioBuffer;
use crate::context::AudioContext;
use crate::context::AudioEdge;
use crate::context::Vec3;
use crate::filter_type::BiquadFilterType;
use crate::param::AudioParam;
use crate::param::ParamEvent;
use crate::param::RampCurve;
use crate::param::VALUE_UNIT;

verus! {

/// A borrowed handle to a node's place in the connection graph.
#[derive(Debug, Clone, Copy, PartialEq, Eq, Structural)]
pub struct AudioNodeRef {
    /// The graph id the handle stands for.
    pub id: u64,
}

/// The capability every node variant shares: it can name its place in the
/// graph, and on top of that connect to and disconnect from other nodes.
pub trait AudioNode {
    /// The node's graph id.
    spec fn node_id(&self) -> u64;

    /// The node's graph handle.
    fn raw(&self) -> (r: AudioNodeRef)
        ensures
            r.id == self.node_id(),
    ;

    /// Adds a directed edge from this node's output to the node behind the
    /// handle `to`, and returns the handle, so that calls chain through the
    /// graph fluently.  Edges already present are kept: a node fans out to
    /// every sink it was connected to, and connecting the same pair twice
    /// keeps both edges.
    fn connect(&self, ctx: &mut AudioContext, to: AudioNodeRef) -> (r: AudioNodeRef)
        ensures
            final(ctx).edges@ == old(ctx).edges@.push(
                AudioEdge { from: self.node_id(), to: to.id },
            ),
            final(ctx).same_except_edges(*old(ctx)),
            final(ctx).connected(self.node_id(), to.id),
            r == to,
    {
        let from = self.raw();
        ctx.add_edge(from.id, to.id);
        to
    }

    /// Removes every outgoing edge of this node; incoming edges and all
    /// other nodes' edges are untouched.  A node with no outgoing edges is
    /// left as it is.
    fn disconnect(&self, ctx: &mut AudioContext)
        ensures
            final(ctx).edges@ == old(ctx).edges@.filter(
                |e: AudioEdge| e.from != self.node_id(),
            ),
            final(ctx).same_except_edges(*old(ctx)),
            forall|i: int|
                0 <= i < final(ctx).edges@.len() ==> (#[trigger] final(ctx).edges@[i]).from
                    != self.node_id(),
            forall|e: AudioEdge|
                old(ctx).edges@.contains(e) && e.from != self.node_id()
                    ==> final(ctx).edges@.contains(e),
    {
        let node = self.raw();
        ctx.remove_edges_from(node.id);
    }
}

/// The sink-only terminal of the graph; the final mix arrives here.  One per
/// context, handed out by [`AudioContext::destination`]; every handle names
/// the same logical node.
#[derive(Debug, Clone, Copy, PartialEq, Eq, Structural)]
pub struct AudioDestinationNode {
    /// The context's destination id.
    pub id: u64,
}

impl AudioNode for AudioDestinationNode {
    open spec fn node_id(&self) -> u64 {
        self.id
    }

    fn raw(&self) -> (r: AudioNodeRef)
        ensures
            r.id == self.node_id(),
    {
        AudioNodeRef { id: self.id }
    }
}

impl AudioContext {
    /// The context-lifetime destination node; every call returns a handle to
    /// the same logical node.
    pub fn destination(&self) -> (r: AudioDestinationNode)
        ensures
            r.id == self.destination_id,
    {
        AudioDestinationNode { id: self.destination_id }
    }
}

/// Scales the amplitude of its input by its `gain` parameter.
#[derive(Debug)]
pub struct GainNode {
    /// The node's graph id.
    pub id: u64,
    /// Amplitude factor, in millionths; one unit passes the signal through.
    pub gain: AudioParam,
}

impl GainNode {
    /// Creates a gain stage with unit gain.
    pub fn new(context: &mut AudioContext) -> (r: GainNode)
        requires
            old(context).next_node_id < u64::MAX,
        ensures
            r.id == old(context).next_node_id,
            final(context).next_node_id == old(context).next_node_id + 1,
            final(context).edges == old(context).edges,
            final(context).destination_id == old(context).destination_id,
            final(context).listener == old(context).listener,
            final(context).time_micros == old(context).time_micros,
            r.gain.base_value == VALUE_UNIT,
            r.gain.base_time == 0,
            r.gain.events@.len() == 0,
            r.gain.wf(),
    {
        let id = context.fresh_node_id();
        GainNode { id, gain: AudioParam::new(VALUE_UNIT) }
    }

    /// Borrows the gain timeline for reading or scheduling.
    pub fn gain(&mut self) -> (r: &mut AudioParam)
        ensures
            *r == old(self).gain,
            final(self).gain == *final(r),
            final(self).id == old(self).id,
    {
        &mut self.gain
    }
}

impl AudioNode for GainNode {
    open spec fn node_id(&self) -> u64 {
        self.id
    }

    fn raw(&self) -> (r: AudioNodeRef)
        ensures
            r.id == self.node_id(),
    {
        AudioNodeRef { id: self.id }
    }
}

/// Attenuation curve a panner applies with growing distance.
#[derive(Debug, Copy, Clone, PartialEq, Eq, Default, Hash, Structural)]
pub enum DistanceModel {
    /// Gain falls linearly between the reference and maximum distance.
    Linear,
    /// Gain falls with the inverse of the distance.
    #[default]
    Inverse,
    /// Gain falls exponentially with the distance.
    Exponential,
}

/// Spatializes its input relative to the context's listener.
#[derive(Debug, Clone, Copy, PartialEq, Eq, Structural)]
pub struct PannerNode {
    /// The node's graph id.
    pub id: u64,
    /// Where the source sounds from, in millionths.
    pub position: Vec3,
    /// How gain falls off with distance.
    pub distance_model: DistanceModel,
    /// Distance at which no attenuation is applied yet, in millionths.
    pub ref_distance: i64,
    /// Distance beyond which no further attenuation is applied, in
    /// millionths.
    pub max_distance: i64,
}

impl PannerNode {
    /// Creates a panner at the origin with the inverse distance model, a
    /// reference distance of one unit and a maximum distance of ten thousand
    /// units.
    pub fn new(context: &mut AudioContext) -> (r: PannerNode)
        requires
            old(context).next_node_id < u64::MAX,
        ensures
            r.id == old(context).next_node_id,
            final(context).next_node_id == old(context).next_node_id + 1,
            final(context).edges == old(context).edges,
            final(context).destination_id == old(context).destination_id,
            final(context).listener == old(context).listener,
            final(context).time_micros == old(context).time_micros,
            r.position == (Vec3 { x: 0i64, y: 0i64, z: 0i64 }),
            r.distance_model == DistanceModel::Inverse,
            r.ref_distance == VALUE_UNIT,
            r.max_distance == 10_000i64 * VALUE_UNIT,
    {
        let id = context.fresh_node_id();
        PannerNode {
            id,
            position: Vec3 { x: 0, y: 0, z: 0 },
            distance_model: DistanceModel::Inverse,
            ref_distance: VALUE_UNIT,
            max_distance: 10_000 * VALUE_UNIT,
        }
    }

    /// Selects the attenuation curve.
    pub fn set_distance_model(&mut self, model: DistanceModel)
        ensures
            *final(self) == (PannerNode { distance_model: model, ..*old(self) }),
    {
        self.distance_model = model;
    }

    /// Moves the sound source.
    pub fn set_position(&mut self, pos: Vec3)
        ensures
            *final(self) == (PannerNode { position: pos, ..*old(self) }),
    {
        self.position = pos;
    }

    /// Sets the distance inside which no attenuation applies.
    pub fn set_ref_distance(&mut self, ref_distance: i64)
        requires
            ref_distance >= 0,
        ensures
            *final(self) == (PannerNode { ref_distance, ..*old(self) }),
    {
        self.ref_distance = ref_distance;
    }

    /// Sets the distance beyond which attenuation stops growing.
    pub fn set_max_distance(&mut self, max_distance: i64)
        requires
            max_distance > 0,
        ensures
            *final(self) == (PannerNode { max_distance, ..*old(self) }),
    {
        self.max_distance = max_distance;
    }
}

impl AudioNode for PannerNode {
    open spec fn node_id(&self) -> u64 {
        self.id
    }

    fn raw(&self) -> (r: AudioNodeRef)
        ensures
            r.id == self.node_id(),
    {
        AudioNodeRef { id: self.id }
    }
}

/// Where a buffer source stands in its one-shot playback life cycle.
#[derive(Debug, Clone, Copy, PartialEq, Eq, Structural)]
pub enum PlaybackState {
    /// Created but not yet started.
    Idle,
    /// Started; rendering runs until the buffer ends, a scheduled stop time
    /// passes, or an explicit stop.
    Started,
    /// Explicitly stopped.
    Stopped,
}

/// Plays a decoded buffer into the graph, one-shot or looped.
#[derive(Debug)]
pub struct AudioBufferSourceNode {
    /// The node's graph id.
    pub id: u64,
    /// The decoded data to play, once bound.
    pub buffer: Option<AudioBuffer>,
    /// Playback speed, in millionths; one unit plays at the recorded rate.
    pub playback_rate: AudioParam,
    /// Whether playback wraps around at the end of the buffer.
    pub looped: bool,
    /// How far the one-shot life cycle has come.
    pub state: PlaybackState,
    /// Offset into the buffer at which playback began, in microseconds.
    pub start_offset: u64,
    /// Context time at which playback is scheduled to fall silent, if any.
    pub stop_time: Option<u64>,
}

impl AudioBufferSourceNode {
    /// Any bound buffer is a valid decode, a source that never started has
    /// no start offset yet, and one that started did so at an offset inside
    /// its buffer.
    pub open spec fn wf(self) -> bool {
        &&& (self.state == PlaybackState::Idle ==> self.start_offset == 0)
        &&& match self.buffer {
            Some(b) => b.wf() && (self.state != PlaybackState::Idle ==> self.start_offset
                <= b.duration_micros()),
            None => true,
        }
    }

    /// Creates an idle source with no buffer bound, unit playback rate and
    /// looping off.
    pub fn new(context: &mut AudioContext) -> (r: AudioBufferSourceNode)
        requires
            old(context).next_node_id < u64::MAX,
        ensures
            r.id == old(context).next_node_id,
            final(context).next_node_id == old(context).next_node_id + 1,
            final(context).edges == old(context).edges,
            final(context).destination_id == old(context).destination_id,
            final(context).listener == old(context).listener,
            final(context).time_micros == old(context).time_micros,
            r.buffer is None,
            r.playback_rate.base_value == VALUE_UNIT,
            r.playback_rate.base_time == 0,
            r.playback_rate.events@.len() == 0,
            r.playback_rate.wf(),
            r.looped == false,
            r.state == PlaybackState::Idle,
            r.start_offset == 0,
            r.stop_time is None,
            r.wf(),
    {
        let id = context.fresh_node_id();
        AudioBufferSourceNode {
            id,
            buffer: None,
            playback_rate: AudioParam::new(VALUE_UNIT),
            looped: false,
            state: PlaybackState::Idle,
            start_offset: 0,
            stop_time: None,
        }
    }

    /// Begins playback `offset` microseconds into the buffer at the next
    /// render boundary.  A source plays at most once; what restarting an
    /// already-started source would do is backend-defined, so only an idle
    /// source may start, and it starts at an offset inside the buffer it is
    /// bound to.
    pub fn start_with_offset(&mut self, offset: u64)
        requires
            old(self).state == PlaybackState::Idle,
            match old(self).buffer {
                Some(b) => offset <= b.duration_micros(),
                None => true,
            },
        ensures
            final(self).state == PlaybackState::Started,
            final(self).start_offset == offset,
            old(self).wf() ==> final(self).wf(),
            final(self).id == old(self).id,
            final(self).buffer == old(self).buffer,
            final(self).playback_rate == old(self).playback_rate,
            final(self).looped == old(self).looped,
            final(self).stop_time == old(self).stop_time,
    {
        self.state = PlaybackState::Started;
        self.start_offset = offset;
    }

    /// Silences the source at the next render boundary.  Stopping touches
    /// nothing else: the bound buffer, the parameters and the node's graph
    /// edges stay as they are, and a source that never started is simply
    /// recorded as stopped.
    pub fn stop(&mut self)
        ensures
            final(self).state == PlaybackState::Stopped,
            final(self).id == old(self).id,
            final(self).buffer == old(self).buffer,
            final(self).playback_rate == old(self).playback_rate,
            final(self).looped == old(self).looped,
            final(self).start_offset == old(self).start_offset,
            final(self).stop_time == old(self).stop_time,
            old(self).wf() ==> final(self).wf(),
    {
        proof {
            if self.wf() {
                match self.buffer {
                    Some(b) => {
                        lemma_div_pos_is_pos((b.frames as int) * 1_000_000, b.sample_rate as int);
                    },
                    None => {},
                }
            }
        }
        self.state = PlaybackState::Stopped;
    }

    /// Schedules the source to fall silent at context time `when`; the
    /// graph edges and the bound buffer are untouched.
    pub fn stop_at(&mut self, when: u64)
        ensures
            final(self).stop_time == Some(when),
            final(self).id == old(self).id,
            final(self).buffer == old(self).buffer,
            final(self).playback_rate == old(self).playback_rate,
            final(self).looped == old(self).looped,
            final(self).state == old(self).state,
            final(self).start_offset == old(self).start_offset,
    {
        self.stop_time = Some(when);
    }

    /// Switches looping on or off.
    pub fn set_loop(&mut self, looped: bool)
        ensures
            final(self).looped == looped,
            final(self).id == old(self).id,
            final(self).buffer == old(self).buffer,
            final(self).playback_rate == old(self).playback_rate,
            final(self).state == old(self).state,
            final(self).start_offset == old(self).start_offset,
            final(self).stop_time == old(self).stop_time,
    {
        self.looped = looped;
    }

    /// Binds the decoded data to play.  The handle shares the decoded
    /// signal; nothing is copied.  A source that already started must still
    /// start inside the new buffer.
    pub fn set_buffer(&mut self, buffer: AudioBuffer)
        requires
            buffer.wf(),
            old(self).state != PlaybackState::Idle ==> old(self).start_offset
                <= buffer.duration_micros(),
        ensures
            old(self).wf() ==> final(self).wf(),
            final(self).buffer == Some(buffer),
            final(self).id == old(self).id,
            final(self).playback_rate == old(self).playback_rate,
            final(self).looped == old(self).looped,
            final(self).state == old(self).state,
            final(self).start_offset == old(self).start_offset,
            final(self).stop_time == old(self).stop_time,
    {
        self.buffer = Some(buffer);
    }

    /// Borrows the playback-rate timeline for reading or scheduling.
    pub fn playback_rate(&mut self) -> (r: &mut AudioParam)
        ensures
            *r == old(self).playback_rate,
            final(self).playback_rate == *final(r),
            final(self).id == old(self).id,
            final(self).buffer == old(self).buffer,
            final(self).looped == old(self).looped,
            final(self).state == old(self).state,
            final(self).start_offset == old(self).start_offset,
            final(self).stop_time == old(self).stop_time,
    {
        &mut self.playback_rate
    }

    /// The offset at which playback was started, in microseconds, or zero
    /// for a source that never started.  Live render progress belongs to the
    /// rendering backend, not to this control-level model; for a well-formed
    /// source the reported offset never lies past the bound buffer's end.
    pub fn position(&self) -> (r: u64)
        ensures
            r == (if self.state == PlaybackState::Idle {
                0u64
            } else {
                self.start_offset
            }),
            self.wf() ==> match self.buffer {
                Some(b) => r <= b.duration_micros(),
                None => true,
            },
    {
        proof {
            if self.wf() {
                match self.buffer {
                    Some(b) => {
                        lemma_div_pos_is_pos((b.frames as int) * 1_000_000, b.sample_rate as int);
                    },
                    None => {},
                }
            }
        }
        match self.state {
            PlaybackState::Idle => 0,
            _ => self.start_offset,
        }
    }
}

impl AudioNode for AudioBufferSourceNode {
    open spec fn node_id(&self) -> u64 {
        self.id
    }

    fn raw(&self) -> (r: AudioNodeRef)
        ensures
            r.id == self.node_id(),
    {
        AudioNodeRef { id: self.id }
    }
}

/// Applies a second-order IIR transfer function to its input.
#[derive(Debug)]
pub struct BiquadFilterNode {
    /// The node's graph id.
    pub id: u64,
    /// Which of the eight transfer-function shapes applies.
    pub kind: BiquadFilterType,
    /// Center or cutoff frequency in hertz, in millionths.
    pub frequency: AudioParam,
    /// Boost in decibels for the shelf and peaking shapes, in millionths.
    pub gain: AudioParam,
    /// Quality factor, in millionths.
    pub q: AudioParam,
    /// Detuning of the frequency in cents, in millionths.
    pub detune: AudioParam,
}

impl BiquadFilterNode {
    /// Creates a lowpass filter at 350 Hz with unit quality, no gain and no
    /// detune.
    pub fn new(context: &mut AudioContext) -> (r: BiquadFilterNode)
        requires
            old(context).next_node_id < u64::MAX,
        ensures
            r.id == old(context).next_node_id,
            final(context).next_node_id == old(context).next_node_id + 1,
            final(context).edges == old(context).edges,
            final(context).destination_id == old(context).destination_id,
            final(context).listener == old(context).listener,
            final(context).time_micros == old(context).time_micros,
            r.kind == BiquadFilterType::Lowpass,
            r.frequency.base_value == 350i64 * VALUE_UNIT,
            r.frequency.base_time == 0 && r.frequency.events@.len() == 0 && r.frequency.wf(),
            r.gain.base_value == 0,
            r.gain.base_time == 0 && r.gain.events@.len() == 0 && r.gain.wf(),
            r.q.base_value == VALUE_UNIT,
            r.q.base_time == 0 && r.q.events@.len() == 0 && r.q.wf(),
            r.detune.base_value == 0,
            r.detune.base_time == 0 && r.detune.events@.len() == 0 && r.detune.wf(),
    {
        let id = context.fresh_node_id();
        BiquadFilterNode {
            id,
            kind: BiquadFilterType::Lowpass,
            frequency: AudioParam::new(350 * VALUE_UNIT),
            gain: AudioParam::new(0),
            q: AudioParam::new(VALUE_UNIT),
            detune: AudioParam::new(0),
        }
    }

    /// Borrows the frequency timeline for reading or scheduling.
    pub fn frequency(&mut self) -> (r: &mut AudioParam)
        ensures
            *r == old(self).frequency,
            final(self).frequency == *final(r),
            final(self).id == old(self).id,
            final(self).kind == old(self).kind,
            final(self).gain == old(self).gain,
            final(self).q == old(self).q,
            final(self).detune == old(self).detune,
    {
        &mut self.frequency
    }

    /// Borrows the gain timeline for reading or scheduling.
    pub fn gain(&mut self) -> (r: &mut AudioParam)
        ensures
            *r == old(self).gain,
            final(self).gain == *final(r),
            final(self).id == old(self).id,
            final(self).kind == old(self).kind,
            final(self).frequency == old(self).frequency,
            final(self).q == old(self).q,
            final(self).detune == old(self).detune,
    {
        &mut self.gain
    }

    /// Borrows the quality-factor timeline for reading or scheduling.
    pub fn q(&mut self) -> (r: &mut AudioParam)
        ensures
            *r == old(self).q,
            final(self).q == *final(r),
            final(self).id == old(self).id,
            final(self).kind == old(self).kind,
            final(self).frequency == old(self).frequency,
            final(self).gain == old(self).gain,
            final(self).detune == old(self).detune,
    {
        &mut self.q
    }

    /// Borrows the detune timeline for reading or scheduling.
    pub fn detune(&mut self) -> (r: &mut AudioParam)
        ensures
            *r == old(self).detune,
            final(self).detune == *final(r),
            final(self).id == old(self).id,
            final(self).kind == old(self).kind,
            final(self).frequency == old(self).frequency,
            final(self).gain == old(self).gain,
            final(self).q == old(self).q,
    {
        &mut self.detune
    }

    /// Selects the transfer-function shape; subsequently rendered samples
    /// use the new shape.
    pub fn set_type(&mut self, kind: BiquadFilterType)
        ensures
            final(self).kind == kind,
            final(self).id == old(self).id,
            final(self).frequency == old(self).frequency,
            final(self).gain == old(self).gain,
            final(self).q == old(self).q,
            final(self).detune == old(self).detune,
    {
        self.kind = kind;
    }
}

impl AudioNode for BiquadFilterNode {
    open spec fn node_id(&self) -> u64 {
        self.id
    }

    fn raw(&self) -> (r: AudioNodeRef)
        ensures
            r.id == self.node_id(),
    {
        AudioNodeRef { id: self.id }
    }
}

/// Builds the playback chain a spatial one-shot uses: a source bound to
/// `buffer`, through a lowpass filter whose cutoff ramps from silence to
/// `cutoff_target` at `ramp_end_time`, through a panner at `pan_position`,
/// into the destination; then starts the source from the top of the buffer.
pub fn build_playback_chain(
    ctx: &mut AudioContext,
    buffer: AudioBuffer,
    pan_position: Vec3,
    cutoff_target: i64,
    ramp_end_time: u64,
) -> (r: (AudioBufferSourceNode, BiquadFilterNode, PannerNode))
    requires
        old(ctx).next_node_id + 3 <= u64::MAX,
        ramp_end_time > old(ctx).time_micros,
        buffer.wf(),
    ensures
        r.0.id == old(ctx).next_node_id,
        r.1.id == old(ctx).next_node_id + 1,
        r.2.id == old(ctx).next_node_id + 2,
        final(ctx).next_node_id == old(ctx).next_node_id + 3,
        final(ctx).destination_id == old(ctx).destination_id,
        final(ctx).listener == old(ctx).listener,
        final(ctx).time_micros == old(ctx).time_micros,
        final(ctx).edges@ == old(ctx).edges@.push(AudioEdge { from: r.0.id, to: r.1.id }).push(
            AudioEdge { from: r.1.id, to: r.2.id },
        ).push(AudioEdge { from: r.2.id, to: final(ctx).destination_id }),
        final(ctx).connected(r.0.id, r.1.id),
        final(ctx).connected(r.1.id, r.2.id),
        final(ctx).connected(r.2.id, final(ctx).destination_id),
        r.0.buffer == Some(buffer),
        r.0.state == PlaybackState::Started,
        r.0.start_offset == 0,
        r.0.looped == false,
        r.1.kind == BiquadFilterType::Lowpass,
        r.1.frequency.base_value == 0,
        r.1.frequency.base_time == old(ctx).time_micros,
        r.1.frequency.events@ == seq![
            ParamEvent { target: cutoff_target, end_time: ramp_end_time, curve: RampCurve::Linear },
        ],
        r.1.frequency.wf(),
        r.1.q.base_value == VALUE_UNIT,
        r.2.position == pan_position,
{
    let now = ctx.current_time();
    let mut source = AudioBufferSourceNode::new(ctx);
    source.set_buffer(buffer);
    let mut filter = BiquadFilterNode::new(ctx);
    filter.frequency().set_value(0, now);
    filter.frequency().linear_ramp_to_value_at_time(cutoff_target, ramp_end_time);
    filter.q().set_value(VALUE_UNIT, now);
    filter.set_type(BiquadFilterType::Lowpass);
    let mut panner = PannerNode::new(ctx);
    panner.set_position(pan_position);
    source.connect(ctx, filter.raw());
    filter.connect(ctx, panner.raw());
    let destination = ctx.destination();
    panner.connect(ctx, destination.raw());
    source.start_with_offset(0);
    proof {
        assert(filter.frequency.events@ =~= seq![
            ParamEvent { target: cutoff_target, end_time: ramp_end_time, curve: RampCurve::Linear },
        ]);
        let e1 = AudioEdge { from: source.id, to: filter.id };
        let e2 = AudioEdge { from: filter.id, to: panner.id };
        assert(ctx.edges@[ctx.edges@.len() - 3] == e1);
        assert(ctx.edges@[ctx.edges@.len() - 2] == e2);
        assert(ctx.edges@.contains(e1));
        assert(ctx.edges@.contains(e2));
    }
    (source, filter, panner)
}

} // verus!

