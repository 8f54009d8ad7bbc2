//! A platform-independent model of a real-time audio graph: an
//! `AudioContext` that owns a clock, a destination and a listener; node
//! variants (gain, panner, buffer source, biquad filter) wired together by
//! directed edges; and per-parameter automation timelines sampled in
//! fixed-point arithmetic.
//!
//! Times are context-clock readings in microseconds; parameter values are
//! fixed-point numbers in millionths of a unit, so that the timeline
//! semantics can be stated and checked exactly.

pub mod context;
pub mod filter_type;
pub mod nodes;
pub mod param;

pub use context::AudioBuffer;
pub use context::AudioContext;
pub use context::AudioEdge;
pub use context::AudioListener;
pub use context::InitError;
pub use context::Vec3;
pub use filter_type::BiquadFilterType;
pub use filter_type::IncorrectBiquadFilterType;
pub use nodes::AudioBufferSourceNode;
pub use nodes::AudioDestinationNode;
pub use nodes::AudioNode;
pub use nodes::AudioNodeRef;
pub use nodes::BiquadFilterNode;
pub use nodes::build_playback_chain;
pub use nodes::DistanceModel;
pub use nodes::GainNode;
pub use nodes::PannerNode;
pub use nodes::PlaybackState;
pub use param::AudioParam;
pub use param::ParamEvent;
pub use param::RampCurve;
pub use param::VALUE_UNIT;
