//! Context, clock, listener, buffer and connection-graph behavior.

use audio_graph::AudioBuffer;
use audio_graph::AudioContext;
use audio_graph::AudioNode;
use audio_graph::GainNode;
use audio_graph::Vec3;

fn has_edge(ctx: &AudioContext, from: u64, to: u64) -> bool {
    ctx.edges.iter().any(|e| e.from == from && e.to == to)
}

#[test]
fn new_context_starts_empty_at_time_zero() {
    let ctx = AudioContext::new().unwrap();
    assert_eq!(ctx.current_time(), 0);
    assert_eq!(ctx.edges.len(), 0);
    assert_eq!(ctx.destination().id, ctx.destination_id);
}

#[test]
fn destination_is_always_the_same_logical_node() {
    let ctx = AudioContext::new().unwrap();
    assert_eq!(ctx.destination().id, ctx.destination().id);
}

#[test]
fn clock_is_monotone() {
    let mut ctx = AudioContext::new().unwrap();
    let t0 = ctx.current_time();
    ctx.advance_time(1_500_000);
    let t1 = ctx.current_time();
    assert!(t1 >= t0);
    assert_eq!(t1, 1_500_000);
}

#[test]
fn listener_mutations_are_visible_immediately() {
    let mut ctx = AudioContext::new().unwrap();
    ctx.listener().set_position(Vec3 { x: 1_000_000, y: 0, z: 0 });
    assert_eq!(ctx.listener().position, Vec3 { x: 1_000_000, y: 0, z: 0 });
    let forward = Vec3 { x: 0, y: 0, z: -1_000_000 };
    let up = Vec3 { x: 0, y: 1_000_000, z: 0 };
    ctx.listener().set_orientation(forward, up);
    assert_eq!(ctx.listener().forward, forward);
    assert_eq!(ctx.listener().up, up);
    assert_eq!(ctx.listener().position, Vec3 { x: 1_000_000, y: 0, z: 0 });
}

#[test]
fn fan_out_retains_both_edges_and_disconnect_removes_them() {
    let mut ctx = AudioContext::new().unwrap();
    let source = GainNode::new(&mut ctx);
    let sink_a = GainNode::new(&mut ctx);
    let sink_b = GainNode::new(&mut ctx);
    source.connect(&mut ctx, sink_a.raw());
    source.connect(&mut ctx, sink_b.raw());
    assert!(has_edge(&ctx, source.id, sink_a.id));
    assert!(has_edge(&ctx, source.id, sink_b.id));
    source.disconnect(&mut ctx);
    assert!(!has_edge(&ctx, source.id, sink_a.id));
    assert!(!has_edge(&ctx, source.id, sink_b.id));
}

#[test]
fn disconnect_keeps_incoming_and_unrelated_edges() {
    let mut ctx = AudioContext::new().unwrap();
    let a = GainNode::new(&mut ctx);
    let b = GainNode::new(&mut ctx);
    let c = GainNode::new(&mut ctx);
    a.connect(&mut ctx, b.raw());
    b.connect(&mut ctx, c.raw());
    c.connect(&mut ctx, a.raw());
    b.disconnect(&mut ctx);
    assert!(has_edge(&ctx, a.id, b.id));
    assert!(!has_edge(&ctx, b.id, c.id));
    assert!(has_edge(&ctx, c.id, a.id));
}

#[test]
fn disconnect_with_no_outgoing_edges_is_a_no_op() {
    let mut ctx = AudioContext::new().unwrap();
    let a = GainNode::new(&mut ctx);
    let b = GainNode::new(&mut ctx);
    a.connect(&mut ctx, b.raw());
    b.disconnect(&mut ctx);
    assert!(has_edge(&ctx, a.id, b.id));
    assert_eq!(ctx.edges.len(), 1);
}

#[test]
fn connecting_the_same_pair_twice_keeps_both_edges() {
    let mut ctx = AudioContext::new().unwrap();
    let a = GainNode::new(&mut ctx);
    let b = GainNode::new(&mut ctx);
    a.connect(&mut ctx, b.raw());
    a.connect(&mut ctx, b.raw());
    assert_eq!(ctx.edges.len(), 2);
}

#[test]
fn connect_returns_the_sink_handle_for_chaining() {
    let mut ctx = AudioContext::new().unwrap();
    let a = GainNode::new(&mut ctx);
    let b = GainNode::new(&mut ctx);
    let r = a.connect(&mut ctx, b.raw());
    assert_eq!(r.id, b.id);
}

#[test]
fn one_second_buffer_has_one_second_duration() {
    let buffer = AudioBuffer::from_decoded(48_000, 48_000);
    assert_eq!(buffer.duration(), 1_000_000);
}

#[test]
fn duration_follows_frames_over_rate() {
    assert_eq!(AudioBuffer::from_decoded(24_000, 48_000).duration(), 500_000);
    assert_eq!(AudioBuffer::from_decoded(44_100, 44_100).duration(), 1_000_000);
    assert_eq!(AudioBuffer::from_decoded(1, 3).duration(), 333_333);
    assert_eq!(AudioBuffer::from_decoded(0, 48_000).duration(), 0);
}

#[test]
fn buffer_handles_share_the_decoded_signal() {
    let buffer = AudioBuffer::from_decoded(48_000, 48_000);
    let other = buffer;
    assert_eq!(other, buffer);
    assert_eq!(other.duration(), buffer.duration());
}
