//! Random names and the time of day.

use vstd::prelude::*;
use vstd::string::*;

verus! {

/// Whether `b` is an ASCII letter or digit.
pub open spec fn is_alphanumeric(b: u8) -> bool {
    (65 <= b <= 90) || (97 <= b <= 122) || (48 <= b <= 57)
}

/// The letters and digits of ASCII: capitals, small letters, digits.
pub open spec fn alphabet() -> Seq<char> {
    "ABCDEFGHIJKLMNOPQRSTUVWXYZabcdefghijklmnopqrstuvwxyz0123456789"@
}

/// The place in `alphabet` of the letter or digit `b`.
pub open spec fn alphabet_index(b: u8) -> int {
    if 65 <= b <= 90 {
        b - 65
    } else if 97 <= b <= 122 {
        b - 97 + 26
    } else {
        b - 48 + 52
    }
}

/// Draws one character with `rand::Rng::sample` from the thread's
/// generator, under the distribution `rand::distributions::Alphanumeric`.
/// Trusted: what is drawn is an ASCII letter or digit. Which one is left
/// to chance.
#[verifier::external_body]
fn sample_alphanumeric() -> (b: u8)
    ensures
        is_alphanumeric(b),
{
    rand::Rng::sample(&mut rand::thread_rng(), rand::distributions::Alphanumeric)
}

/// A reading of the system's clock.
#[verifier::external_type_specification]
#[verifier::external_body]
pub struct ExSystemTime(std::time::SystemTime);

/// The failure of a comparison of two clock readings.
#[verifier::external_type_specification]
#[verifier::external_body]
pub struct ExSystemTimeError(std::time::SystemTimeError);

/// Reads the system's clock. Nothing is claimed of the reading.
pub assume_specification[ std::time::SystemTime::now ]() -> (t: std::time::SystemTime);

/// The time from `earlier` to `t`, which fails where `earlier` is the
/// later of the two. Nothing more is claimed.
pub assume_specification[ std::time::SystemTime::duration_since ](
    t: &std::time::SystemTime,
    earlier: std::time::SystemTime,
) -> (r: Result<core::time::Duration, std::time::SystemTimeError>);

/// The whole seconds of a duration. Nothing is claimed of their number.
pub assume_specification[ core::time::Duration::as_secs ](d: &core::time::Duration) -> (s: u64);

/// The constant `std::time::UNIX_EPOCH`.
#[verifier::external_body]
fn unix_epoch() -> (t: std::time::SystemTime) {
    std::time::UNIX_EPOCH
}

/// The text that the drawn characters `drawn` spell.
pub open spec fn spelled(drawn: Seq<u8>) -> Seq<char> {
    Seq::new(drawn.len(), |i: int| alphabet()[alphabet_index(drawn[i])])
}

/// Spells the letters and digits `drawn` as text.
fn spell(drawn: &Vec<u8>) -> (s: String)
    requires
        forall|i: int| 0 <= i < drawn@.len() ==> is_alphanumeric(#[trigger] drawn@[i]),
    ensures
        s@ == spelled(drawn@),
{
    let letters = "ABCDEFGHIJKLMNOPQRSTUVWXYZabcdefghijklmnopqrstuvwxyz0123456789";
    proof {
        reveal_strlit("ABCDEFGHIJKLMNOPQRSTUVWXYZabcdefghijklmnopqrstuvwxyz0123456789");
        assert(letters@.len() == 62);
    }
    let mut out = String::new();
    let n: usize = drawn.len();
    let mut i: usize = 0;
    while i < n
        invariant
            n == drawn@.len(),
            i <= n,
            letters@ == alphabet(),
            letters@.len() == 62,
            forall|k: int| 0 <= k < drawn@.len() ==> is_alphanumeric(#[trigger] drawn@[k]),
            out@ == spelled(drawn@.subrange(0, i as int)),
        decreases n - i,
    {
        let b: u8 = drawn[i];
        let k: usize = if 65 <= b && b <= 90 {
            (b - 65) as usize
        } else if 97 <= b && b <= 122 {
            (b - 97) as usize + 26
        } else {
            (b - 48) as usize + 52
        };
        let piece = letters.substring_char(k, k + 1);
        let ghost before = out@;
        out.append(piece);
        proof {
            assert(piece@ =~= seq![alphabet()[alphabet_index(b)]]);
            assert(out@ =~= spelled(drawn@.subrange(0, i + 1)));
        }
        i = i + 1;
    }
    proof {
        assert(drawn@.subrange(0, n as int) =~= drawn@);
    }
    out
}

/// A text of `len` characters, each an ASCII letter or digit drawn at
/// random.
pub fn random_alphanumeric_string(len: usize) -> (s: String)
    ensures
        s@.len() == len,
        forall|i: int| 0 <= i < len ==> alphabet().contains(#[trigger] s@[i]),
{
    let mut drawn: Vec<u8> = Vec::new();
    let mut i: usize = 0;
    while i < len
        invariant
            i <= len,
            drawn@.len() == i,
            forall|k: int| 0 <= k < drawn@.len() ==> is_alphanumeric(#[trigger] drawn@[k]),
        decreases len - i,
    {
        drawn.push(sample_alphanumeric());
        i = i + 1;
    }
    let s = spell(&drawn);
    proof {
        reveal_strlit("ABCDEFGHIJKLMNOPQRSTUVWXYZabcdefghijklmnopqrstuvwxyz0123456789");
        assert forall|i: int| 0 <= i < len implies alphabet().contains(#[trigger] s@[i]) by {
            let k = alphabet_index(drawn@[i]);
            assert(0 <= k < 62);
            assert(s@[i] == alphabet()[k]);
        }
    }
    s
}

/// The seconds of a clock reading as a machine word.
pub fn whole_seconds(reading: Option<u64>) -> (r: Option<usize>)
    ensures
        r == match reading {
            Some(s) => Some(s as usize),
            None => None::<usize>,
        },
{
    match reading {
        Some(s) => Some(#[verifier::truncate] (s as usize)),
        None => None,
    }
}

/// The whole seconds since the Unix epoch, by the system's clock; nothing
/// where the clock stands before the epoch.
pub fn now() -> (r: Option<usize>) {
    let reading = match std::time::SystemTime::now().duration_since(unix_epoch()) {
        Ok(elapsed) => Some(elapsed.as_secs()),
        Err(_) => None,
    };
    whole_seconds(reading)
}

} // verus!
