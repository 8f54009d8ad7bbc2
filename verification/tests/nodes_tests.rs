//! Node-variant behavior and the end-to-end playback chain.

use audio_graph::build_playback_chain;
use audio_graph::AudioBuffer;
use audio_graph::AudioContext;
use audio_graph::AudioNode;
use audio_graph::BiquadFilterNode;
use audio_graph::BiquadFilterType;
use audio_graph::DistanceModel;
use audio_graph::GainNode;
use audio_graph::AudioBufferSourceNode;
use audio_graph::PannerNode;
use audio_graph::PlaybackState;
use audio_graph::Vec3;
use audio_graph::VALUE_UNIT;

fn has_edge(ctx: &AudioContext, from: u64, to: u64) -> bool {
    ctx.edges.iter().any(|e| e.from == from && e.to == to)
}

#[test]
fn gain_node_defaults_to_unit_gain() {
    let mut ctx = AudioContext::new().unwrap();
    let mut gain = GainNode::new(&mut ctx);
    assert_eq!(gain.gain().value(0), VALUE_UNIT);
    gain.gain().set_value(VALUE_UNIT / 2, 0);
    assert_eq!(gain.gain().value(0), VALUE_UNIT / 2);
}

#[test]
fn nodes_get_distinct_ids() {
    let mut ctx = AudioContext::new().unwrap();
    let a = GainNode::new(&mut ctx);
    let b = PannerNode::new(&mut ctx);
    let c = AudioBufferSourceNode::new(&mut ctx);
    let d = BiquadFilterNode::new(&mut ctx);
    let mut ids = vec![ctx.destination().id, a.id, b.id, c.id, d.id];
    ids.sort();
    ids.dedup();
    assert_eq!(ids.len(), 5);
}

#[test]
fn panner_setters_update_the_node() {
    let mut ctx = AudioContext::new().unwrap();
    let mut panner = PannerNode::new(&mut ctx);
    assert_eq!(panner.distance_model, DistanceModel::Inverse);
    panner.set_distance_model(DistanceModel::Linear);
    panner.set_position(Vec3 { x: 1_000_000, y: 0, z: 0 });
    panner.set_ref_distance(2 * VALUE_UNIT);
    panner.set_max_distance(100 * VALUE_UNIT);
    assert_eq!(panner.distance_model, DistanceModel::Linear);
    assert_eq!(panner.position, Vec3 { x: 1_000_000, y: 0, z: 0 });
    assert_eq!(panner.ref_distance, 2 * VALUE_UNIT);
    assert_eq!(panner.max_distance, 100 * VALUE_UNIT);
}

#[test]
fn buffer_source_life_cycle() {
    let mut ctx = AudioContext::new().unwrap();
    let mut source = AudioBufferSourceNode::new(&mut ctx);
    assert_eq!(source.state, PlaybackState::Idle);
    assert_eq!(source.position(), 0);
    let buffer = AudioBuffer::from_decoded(48_000, 48_000);
    source.set_buffer(buffer);
    source.set_loop(true);
    assert!(source.looped);
    assert_eq!(source.playback_rate().value(0), VALUE_UNIT);
    source.start_with_offset(250_000);
    assert_eq!(source.state, PlaybackState::Started);
    assert_eq!(source.position(), 250_000);
    source.stop_at(900_000);
    assert_eq!(source.stop_time, Some(900_000));
    source.stop();
    assert_eq!(source.state, PlaybackState::Stopped);
}

#[test]
fn biquad_filter_defaults_and_type_switch() {
    let mut ctx = AudioContext::new().unwrap();
    let mut filter = BiquadFilterNode::new(&mut ctx);
    assert_eq!(filter.kind, BiquadFilterType::Lowpass);
    assert_eq!(filter.frequency().value(0), 350 * VALUE_UNIT);
    assert_eq!(filter.q().value(0), VALUE_UNIT);
    assert_eq!(filter.gain().value(0), 0);
    assert_eq!(filter.detune().value(0), 0);
    filter.set_type(BiquadFilterType::Highshelf);
    assert_eq!(filter.kind, BiquadFilterType::Highshelf);
}

#[test]
fn filter_schedules_frequency_automation() {
    let mut ctx = AudioContext::new().unwrap();
    let mut filter = BiquadFilterNode::new(&mut ctx);
    filter.frequency().set_value(0, 0);
    filter.frequency().linear_ramp_to_value_at_time(10_000 * VALUE_UNIT, 20_000_000);
    assert_eq!(filter.frequency().value(10_000_000), 5_000 * VALUE_UNIT);
    assert_eq!(filter.frequency().value(20_000_000), 10_000 * VALUE_UNIT);
}

#[test]
fn playback_chain_stays_wired_until_explicit_disconnect() {
    let mut ctx = AudioContext::new().unwrap();
    let buffer = AudioBuffer::from_decoded(48_000, 48_000);
    assert_eq!(buffer.duration(), 1_000_000);
    let (source, filter, panner) = build_playback_chain(
        &mut ctx,
        buffer,
        Vec3 { x: 1_000_000, y: 0, z: 0 },
        10_000 * VALUE_UNIT,
        20_000_000,
    );
    assert_eq!(source.state, PlaybackState::Started);
    assert_eq!(source.start_offset, 0);
    assert_eq!(source.buffer, Some(buffer));
    assert_eq!(panner.position, Vec3 { x: 1_000_000, y: 0, z: 0 });
    assert_eq!(filter.kind, BiquadFilterType::Lowpass);
    assert!(has_edge(&ctx, source.id, filter.id));
    assert!(has_edge(&ctx, filter.id, panner.id));
    assert!(has_edge(&ctx, panner.id, ctx.destination().id));
    ctx.advance_time(500_000);
    assert!(has_edge(&ctx, source.id, filter.id));
    source.disconnect(&mut ctx);
    assert!(!has_edge(&ctx, source.id, filter.id));
    assert!(has_edge(&ctx, filter.id, panner.id));
    assert!(has_edge(&ctx, panner.id, ctx.destination().id));
}

#[test]
fn stop_can_be_recorded_on_a_source_that_never_started() {
    let mut ctx = AudioContext::new().unwrap();
    let mut source = AudioBufferSourceNode::new(&mut ctx);
    source.stop();
    assert_eq!(source.state, PlaybackState::Stopped);
    let mut other = AudioBufferSourceNode::new(&mut ctx);
    other.stop_at(5_000_000);
    assert_eq!(other.stop_time, Some(5_000_000));
    assert_eq!(other.state, PlaybackState::Idle);
}
