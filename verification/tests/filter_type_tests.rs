//! The eight filter-type tokens round-trip through parse and format, and
//! nothing else parses.

use audio_graph::BiquadFilterType;

const ALL: [BiquadFilterType; 8] = [
    BiquadFilterType::Lowpass,
    BiquadFilterType::Highpass,
    BiquadFilterType::Bandpass,
    BiquadFilterType::Notch,
    BiquadFilterType::Allpass,
    BiquadFilterType::Peaking,
    BiquadFilterType::Lowshelf,
    BiquadFilterType::Highshelf,
];

#[test]
fn format_then_parse_round_trips() {
    for t in ALL {
        let token = t.as_str();
        assert_eq!(BiquadFilterType::parse(token).unwrap(), t);
    }
}

#[test]
fn parse_yields_each_shape() {
    assert_eq!(BiquadFilterType::parse("lowpass").unwrap(), BiquadFilterType::Lowpass);
    assert_eq!(BiquadFilterType::parse("highpass").unwrap(), BiquadFilterType::Highpass);
    assert_eq!(BiquadFilterType::parse("bandpass").unwrap(), BiquadFilterType::Bandpass);
    assert_eq!(BiquadFilterType::parse("notch").unwrap(), BiquadFilterType::Notch);
    assert_eq!(BiquadFilterType::parse("allpass").unwrap(), BiquadFilterType::Allpass);
    assert_eq!(BiquadFilterType::parse("peaking").unwrap(), BiquadFilterType::Peaking);
    assert_eq!(BiquadFilterType::parse("lowshelf").unwrap(), BiquadFilterType::Lowshelf);
    assert_eq!(BiquadFilterType::parse("highshelf").unwrap(), BiquadFilterType::Highshelf);
}

#[test]
fn format_emits_lowercase_tokens() {
    let tokens: Vec<&str> = ALL.iter().map(|t| t.as_str()).collect();
    assert_eq!(
        tokens,
        vec![
            "lowpass", "highpass", "bandpass", "notch", "allpass", "peaking", "lowshelf",
            "highshelf",
        ],
    );
}

#[test]
fn parse_rejects_other_strings() {
    for bad in ["", "Lowpass", "low", "lowpass ", " lowpass", "LOWPASS", "bandstop", "high-pass"] {
        assert!(BiquadFilterType::parse(bad).is_err(), "{bad:?} should not parse");
    }
}

#[test]
fn parse_error_has_a_message() {
    let err = BiquadFilterType::parse("sawtooth").unwrap_err();
    assert_eq!(err.message(), "Incorrect biquad filter type");
}
