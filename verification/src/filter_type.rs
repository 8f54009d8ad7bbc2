//! The closed set of biquad filter shapes and their textual form.
//!
//! Each shape has exactly one lowercase token; parsing accepts exactly those
//! eight tokens and nothing else, so that parse and format round-trip.

use vstd::prelude::*;
use vstd::string::StrSliceExecFns;

verus! {

/// Shape of the second-order transfer function applied by a biquad filter.
#[derive(Debug, Clone, Copy, PartialEq, Eq, Structural)]
pub enum BiquadFilterType {
    /// Passes frequencies below the cutoff, attenuates those above.
    Lowpass,
    /// Passes frequencies above the cutoff, attenuates those below.
    Highpass,
    /// Passes a band of frequencies, attenuates those outside it.
    Bandpass,
    /// Passes everything except a band of frequencies.
    Notch,
    /// Passes all frequencies, changing only their phase relationship.
    Allpass,
    /// Boosts or attenuates a band of frequencies.
    Peaking,
    /// Boosts or attenuates frequencies below the shelf frequency.
    Lowshelf,
    /// Boosts or attenuates frequencies above the shelf frequency.
    Highshelf,
}

/// The one token that names a filter shape.
pub open spec fn token_of(t: BiquadFilterType) -> Seq<char> {
    match t {
        BiquadFilterType::Lowpass => "lowpass"@,
        BiquadFilterType::Highpass => "highpass"@,
        BiquadFilterType::Bandpass => "bandpass"@,
        BiquadFilterType::Notch => "notch"@,
        BiquadFilterType::Allpass => "allpass"@,
        BiquadFilterType::Peaking => "peaking"@,
        BiquadFilterType::Lowshelf => "lowshelf"@,
        BiquadFilterType::Highshelf => "highshelf"@,
    }
}

/// What parsing a character sequence yields: the shape whose token it is,
/// or nothing when it is no token.
pub open spec fn parse_token(s: Seq<char>) -> Option<BiquadFilterType> {
    if s == token_of(BiquadFilterType::Lowpass) {
        Some(BiquadFilterType::Lowpass)
    } else if s == token_of(BiquadFilterType::Highpass) {
        Some(BiquadFilterType::Highpass)
    } else if s == token_of(BiquadFilterType::Bandpass) {
        Some(BiquadFilterType::Bandpass)
    } else if s == token_of(BiquadFilterType::Notch) {
        Some(BiquadFilterType::Notch)
    } else if s == token_of(BiquadFilterType::Allpass) {
        Some(BiquadFilterType::Allpass)
    } else if s == token_of(BiquadFilterType::Peaking) {
        Some(BiquadFilterType::Peaking)
    } else if s == token_of(BiquadFilterType::Lowshelf) {
        Some(BiquadFilterType::Lowshelf)
    } else if s == token_of(BiquadFilterType::Highshelf) {
        Some(BiquadFilterType::Highshelf)
    } else {
        None
    }
}

/// Error for a string that is none of the eight filter-type tokens.
#[derive(Debug, Clone, Copy, PartialEq, Eq, Structural)]
pub struct IncorrectBiquadFilterType;

impl IncorrectBiquadFilterType {
    /// A human-readable description of the failure.
    pub fn message(&self) -> (r: &'static str)
        ensures
            r@ == "Incorrect biquad filter type"@,
    {
        "Incorrect biquad filter type"
    }
}

/// Character-by-character string comparison.
fn str_eq(a: &str, b: &str) -> (r: bool)
    ensures
        r <==> a@ == b@,
{
    let la = a.unicode_len();
    let lb = b.unicode_len();
    if la != lb {
        return false;
    }
    let mut i: usize = 0;
    while i < la
        invariant
            la == a@.len(),
            la == b@.len(),
            i <= la,
            forall|j: int| 0 <= j < i ==> a@[j] == b@[j],
        decreases la - i,
    {
        if a.get_char(i) != b.get_char(i) {
            return false;
        }
        i += 1;
    }
    proof {
        assert(a@ =~= b@);
    }
    true
}

impl BiquadFilterType {
    /// Parses one of the eight lowercase tokens; any other string fails.
    pub fn parse(s: &str) -> (r: Result<BiquadFilterType, IncorrectBiquadFilterType>)
        ensures
            match r {
                Ok(t) => parse_token(s@) == Some(t),
                Err(_) => parse_token(s@) is None,
            },
    {
        if str_eq(s, "lowpass") {
            Ok(BiquadFilterType::Lowpass)
        } else if str_eq(s, "highpass") {
            Ok(BiquadFilterType::Highpass)
        } else if str_eq(s, "bandpass") {
            Ok(BiquadFilterType::Bandpass)
        } else if str_eq(s, "notch") {
            Ok(BiquadFilterType::Notch)
        } else if str_eq(s, "allpass") {
            Ok(BiquadFilterType::Allpass)
        } else if str_eq(s, "peaking") {
            Ok(BiquadFilterType::Peaking)
        } else if str_eq(s, "lowshelf") {
            Ok(BiquadFilterType::Lowshelf)
        } else if str_eq(s, "highshelf") {
            Ok(BiquadFilterType::Highshelf)
        } else {
            Err(IncorrectBiquadFilterType)
        }
    }

    /// The token this shape serializes to.
    pub fn as_str(&self) -> (r: &'static str)
        ensures
            r@ == token_of(*self),
    {
        match self {
            BiquadFilterType::Lowpass => "lowpass",
            BiquadFilterType::Highpass => "highpass",
            BiquadFilterType::Bandpass => "bandpass",
            BiquadFilterType::Notch => "notch",
            BiquadFilterType::Allpass => "allpass",
            BiquadFilterType::Peaking => "peaking",
            BiquadFilterType::Lowshelf => "lowshelf",
            BiquadFilterType::Highshelf => "highshelf",
        }
    }
}

/// Formatting then parsing yields the same shape: the eight tokens are
/// pairwise distinct, so each one parses back to the shape it names.
pub proof fn lemma_token_round_trip(t: BiquadFilterType)
    ensures
        parse_token(token_of(t)) == Some(t),
{
    reveal_strlit("lowpass");
    reveal_strlit("highpass");
    reveal_strlit("bandpass");
    reveal_strlit("notch");
    reveal_strlit("allpass");
    reveal_strlit("peaking");
    reveal_strlit("lowshelf");
    reveal_strlit("highshelf");
    assert("lowpass"@.len() == 7);
    assert("highpass"@.len() == 8);
    assert("bandpass"@.len() == 8);
    assert("notch"@.len() == 5);
    assert("allpass"@.len() == 7);
    assert("peaking"@.len() == 7);
    assert("lowshelf"@.len() == 8);
    assert("highshelf"@.len() == 9);
    assert("lowpass"@[0] == 'l' && "allpass"@[0] == 'a' && "peaking"@[0] == 'p');
    assert("highpass"@[0] == 'h' && "bandpass"@[0] == 'b' && "lowshelf"@[0] == 'l');
}

/// Parsing then formatting yields the original string: a successful parse
/// happens exactly on the token of the returned shape.
pub proof fn lemma_parse_token_inverts(s: Seq<char>)
    ensures
        match parse_token(s) {
            Some(t) => token_of(t) == s,
            None => forall|t: BiquadFilterType| token_of(t) != s,
        },
{
}

} // verus!
