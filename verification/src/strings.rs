//! String decoding and formatting helpers.
//!
//! Name fields of the replay header live in fixed-width, NUL-terminated
//! regions and are decoded leniently as UTF-8 (invalid sequences replaced,
//! never rejected). Durations and numeric labels are rendered with a verified
//! decimal formatter.

use vstd::prelude::*;
use vstd::slice::slice_subrange;
use vstd::string::StringExecFns;

use crate::types::GameSpeed;

verus! {

/// What `String::from_utf8_lossy` decodes `bytes` to. The decoding depends on
/// the bytes alone; stating it exactly would reproduce the UTF-8 tables, so
/// the result is named and contracts speak through the name.
pub uninterp spec fn utf8_lossy_of(bytes: Seq<u8>) -> Seq<char>;

/// Relies on `String::from_utf8_lossy`: the decoded characters are a function
/// of the bytes alone, and an empty input decodes to the empty string.
#[verifier::external_body]
pub fn utf8_lossy(bytes: &[u8]) -> (r: String)
    ensures
        r@ == utf8_lossy_of(bytes@),
        bytes@.len() == 0 ==> r@.len() == 0,
{
    String::from_utf8_lossy(bytes).into_owned()
}

/// The index of the first NUL byte of `s`, or `s.len()` if there is none.
pub open spec fn first_nul(s: Seq<u8>) -> int
    decreases s.len(),
{
    if s.len() == 0 {
        0
    } else if s[0] == 0 {
        0
    } else {
        1 + first_nul(s.subrange(1, s.len() as int))
    }
}

/// `first_nul` points at the first NUL: nothing before it is NUL, and it is
/// in bounds exactly when a NUL exists.
pub proof fn lemma_first_nul(s: Seq<u8>)
    ensures
        0 <= first_nul(s) <= s.len(),
        forall|j: int| 0 <= j < first_nul(s) ==> s[j] != 0,
        first_nul(s) < s.len() ==> s[first_nul(s)] == 0,
    decreases s.len(),
{
    if s.len() == 0 {
    } else if s[0] == 0 {
    } else {
        let t = s.subrange(1, s.len() as int);
        lemma_first_nul(t);
        assert forall|j: int| 0 <= j < first_nul(s) implies s[j] != 0 by {
            if j > 0 {
                assert(t[j - 1] == s[j]);
            }
        }
        if first_nul(s) < s.len() {
            assert(t[first_nul(t)] == s[first_nul(s)]);
        }
    }
}

/// The content of a NUL-terminated region: the bytes before its first NUL.
pub open spec fn nul_trim(s: Seq<u8>) -> Seq<u8> {
    s.take(first_nul(s))
}

/// Decodes the name held in a fixed-width, NUL-terminated region of `data`:
/// the bytes before the region's first NUL (or the whole region when no NUL
/// occurs), decoded leniently as UTF-8.
pub fn decode_cstr_region(data: &[u8], start: usize, width: usize) -> (r: String)
    requires
        start + width <= data@.len(),
        data@.len() <= usize::MAX,
    ensures
        r@ == utf8_lossy_of(
            nul_trim(data@.subrange(start as int, start as int + width as int)),
        ),
{
    let ghost region: Seq<u8> = data@.subrange(start as int, start as int + width as int);
    proof {
        lemma_first_nul(region);
    }
    let mut i: usize = 0;
    while i < width && data[start + i] != 0
        invariant
            start + width <= data@.len(),
            data@.len() <= usize::MAX,
            i <= width,
            region == data@.subrange(start as int, start as int + width as int),
            forall|j: int| 0 <= j < i ==> region[j] != 0,
        decreases width - i,
    {
        assert(region[i as int] == data@[start + i]);
        i = i + 1;
    }
    proof {
        if i < width {
            assert(region[i as int] == data@[start + i]);
            assert(first_nul(region) == i);
        } else {
            assert(first_nul(region) == i);
        }
    }
    let sub: &[u8] = slice_subrange(data, start, start + i);
    proof {
        assert(sub@ =~= region.take(i as int));
    }
    utf8_lossy(sub)
}

/// The character of a single decimal digit.
pub open spec fn spec_digit_char(d: int) -> char {
    if d == 0 {
        '0'
    } else if d == 1 {
        '1'
    } else if d == 2 {
        '2'
    } else if d == 3 {
        '3'
    } else if d == 4 {
        '4'
    } else if d == 5 {
        '5'
    } else if d == 6 {
        '6'
    } else if d == 7 {
        '7'
    } else if d == 8 {
        '8'
    } else {
        '9'
    }
}

/// The decimal rendering of a non-negative integer, most significant digit
/// first, with no leading zeros (a single zero for 0).
pub open spec fn spec_decimal(n: int) -> Seq<char>
    decreases n,
{
    if n <= 9 {
        seq![spec_digit_char(n)]
    } else {
        spec_decimal(n / 10).push(spec_digit_char(n % 10))
    }
}

/// The decimal rendering of `n` padded with a leading zero to at least two
/// digits.
pub open spec fn spec_decimal_pad2(n: int) -> Seq<char> {
    if n <= 9 {
        seq!['0'] + spec_decimal(n)
    } else {
        spec_decimal(n)
    }
}

fn digit_str(d: u64) -> (r: &'static str)
    requires
        d <= 9,
    ensures
        r@ == seq![spec_digit_char(d as int)],
{
    if d == 0 {
        proof {
            reveal_strlit("0");
            assert("0"@ =~= seq![spec_digit_char(0)]);
        }
        "0"
    } else if d == 1 {
        proof {
            reveal_strlit("1");
            assert("1"@ =~= seq![spec_digit_char(1)]);
        }
        "1"
    } else if d == 2 {
        proof {
            reveal_strlit("2");
            assert("2"@ =~= seq![spec_digit_char(2)]);
        }
        "2"
    } else if d == 3 {
        proof {
            reveal_strlit("3");
            assert("3"@ =~= seq![spec_digit_char(3)]);
        }
        "3"
    } else if d == 4 {
        proof {
            reveal_strlit("4");
            assert("4"@ =~= seq![spec_digit_char(4)]);
        }
        "4"
    } else if d == 5 {
        proof {
            reveal_strlit("5");
            assert("5"@ =~= seq![spec_digit_char(5)]);
        }
        "5"
    } else if d == 6 {
        proof {
            reveal_strlit("6");
            assert("6"@ =~= seq![spec_digit_char(6)]);
        }
        "6"
    } else if d == 7 {
        proof {
            reveal_strlit("7");
            assert("7"@ =~= seq![spec_digit_char(7)]);
        }
        "7"
    } else if d == 8 {
        proof {
            reveal_strlit("8");
            assert("8"@ =~= seq![spec_digit_char(8)]);
        }
        "8"
    } else {
        proof {
            reveal_strlit("9");
            assert("9"@ =~= seq![spec_digit_char(9)]);
        }
        "9"
    }
}

/// Appends the decimal rendering of `n` to `out`.
pub fn append_decimal(out: &mut String, n: u64)
    ensures
        final(out)@ == old(out)@ + spec_decimal(n as int),
    decreases n,
{
    if n > 9 {
        append_decimal(out, n / 10);
    }
    let s: &str = digit_str(n % 10);
    out.append(s);
    proof {
        if n <= 9 {
            assert(out@ =~= old(out)@ + spec_decimal(n as int));
        } else {
            assert(out@ =~= old(out)@ + spec_decimal(n as int));
        }
    }
}

/// Appends the decimal rendering of `n`, zero-padded to at least two digits.
pub fn append_decimal_pad2(out: &mut String, n: u64)
    ensures
        final(out)@ == old(out)@ + spec_decimal_pad2(n as int),
{
    if n <= 9 {
        let z: &str = digit_str(0);
        out.append(z);
    }
    append_decimal(out, n);
    proof {
        assert(out@ =~= old(out)@ + spec_decimal_pad2(n as int));
    }
}


/// The rendering of a game duration, as minutes, zero-padded seconds, the
/// frame count and the speed's name: `M:SS (N frames at SPEED)`.
pub open spec fn spec_format_duration(frames: u32, speed: GameSpeed) -> Seq<char> {
    let total_seconds = (speed.spec_time_per_step() as int * frames as int) / 1000;
    let minutes = total_seconds / 60;
    let seconds = total_seconds % 60;
    spec_decimal(minutes) + ":"@ + spec_decimal_pad2(seconds) + " ("@ + spec_decimal(frames as int)
        + " frames at "@ + speed.spec_label() + ")"@
}

/// Renders how long the replay runs for: the frame count times the duration
/// of one step at the recorded game speed.
pub fn format_duration(frames: u32, speed: GameSpeed) -> (r: String)
    ensures
        r@ == spec_format_duration(frames, speed),
{
    let step: u64 = speed.time_per_step();
    proof {
        assert(step <= 167);
        assert(step * (frames as u64) <= 167 * 0xffffffffu64) by (nonlinear_arith)
            requires
                step <= 167,
                frames <= 0xffffffffu32,
        ;
    }
    let total_ms: u64 = step * frames as u64;
    let total_seconds: u64 = total_ms / 1000;
    let minutes: u64 = total_seconds / 60;
    let seconds: u64 = total_seconds % 60;
    let mut out = String::new();
    append_decimal(&mut out, minutes);
    out.append(":");
    append_decimal_pad2(&mut out, seconds);
    out.append(" (");
    append_decimal(&mut out, frames as u64);
    out.append(" frames at ");
    let lbl = speed.label();
    out.append(lbl.as_str());
    out.append(")");
    proof {
        assert(out@ =~= spec_format_duration(frames, speed));
    }
    out
}

} // verus!
