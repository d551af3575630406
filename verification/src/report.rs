//! Benchmark summary arithmetic and formatting.
//!
//! Byte totals and elapsed milliseconds are turned into hundredths of a
//! binary megabyte, hundredths of a second and hundredths of a megabyte per
//! second, so that the two-decimal figures of the summary are exact integer
//! computations. Rounding is half up throughout.

use vstd::arithmetic::div_mod::{lemma_div_is_ordered, lemma_div_is_ordered_by_denominator};
use vstd::prelude::*;
use vstd::string::StringExecFns;

verus! {

/// One benchmark summary, with each two-decimal figure held as integer hundredths.
pub struct Summary {
    /// Total bytes the summary accounts for (for the echo server this is the
    /// doubled total, received plus echoed).
    pub transferred_bytes: u64,
    /// Elapsed wall-clock milliseconds the summary spans.
    pub elapsed_ms: u64,
    /// Total transferred in hundredths of a binary megabyte.
    pub mb_hundredths: u64,
    /// Elapsed time in hundredths of a second.
    pub secs_hundredths: u64,
    /// Bandwidth in hundredths of a megabyte per second; `None` when the
    /// clock resolved the run to zero milliseconds.
    pub mbps_hundredths: Option<u64>,
}

/// The summary owed for `transferred` bytes moved in `elapsed_ms` milliseconds.
pub open spec fn spec_summary(transferred: u64, elapsed_ms: u64) -> Summary {
    Summary {
        transferred_bytes: transferred,
        elapsed_ms: elapsed_ms,
        mb_hundredths: spec_mb_hundredths(transferred as int) as u64,
        secs_hundredths: spec_secs_hundredths(elapsed_ms as int) as u64,
        mbps_hundredths: if elapsed_ms >= 1 {
            Some(spec_mbps_hundredths(transferred as int, elapsed_ms as int) as u64)
        } else {
            None
        },
    }
}

/// Hundredths of a binary megabyte that `bytes` amounts to, rounded half up.
pub open spec fn spec_mb_hundredths(bytes: int) -> int {
    (bytes * 100 + 524288) / 1048576
}

/// Hundredths of a second that `elapsed_ms` milliseconds amount to, rounded half up.
pub open spec fn spec_secs_hundredths(elapsed_ms: int) -> int {
    (elapsed_ms + 5) / 10
}

/// Hundredths of a megabyte per second when `bytes` move in `elapsed_ms`
/// milliseconds, rounded half up: (bytes / 2^20 MB) / (elapsed_ms / 1000 s).
pub open spec fn spec_mbps_hundredths(bytes: int, elapsed_ms: int) -> int {
    (bytes * 100000 + 524288 * elapsed_ms) / (1048576 * elapsed_ms)
}

/// Hundredths of a binary megabyte that `bytes` amounts to.
pub fn mb_hundredths(bytes: u64) -> (r: u64)
    ensures
        r == spec_mb_hundredths(bytes as int),
{
    let wide: u128 = bytes as u128 * 100 + 524288;
    let q: u128 = wide / 1048576;
    proof {
        lemma_div_is_ordered(wide as int, 0xffff_ffff_ffff_ffffu64 as int * 100 + 524288, 1048576);
    }
    q as u64
}

/// Hundredths of a second that `elapsed_ms` milliseconds amount to.
pub fn secs_hundredths(elapsed_ms: u64) -> (r: u64)
    ensures
        r == spec_secs_hundredths(elapsed_ms as int),
{
    let wide: u128 = elapsed_ms as u128 + 5;
    let q: u128 = wide / 10;
    proof {
        lemma_div_is_ordered(wide as int, 0xffff_ffff_ffff_ffffu64 as int + 5, 10);
    }
    q as u64
}

/// Hundredths of a megabyte per second when `bytes` move in `elapsed_ms` milliseconds.
pub fn mbps_hundredths(bytes: u64, elapsed_ms: u64) -> (r: u64)
    requires
        1 <= elapsed_ms,
    ensures
        r == spec_mbps_hundredths(bytes as int, elapsed_ms as int),
{
    let numer: u128 = bytes as u128 * 100000 + 524288u128 * elapsed_ms as u128;
    let denom: u128 = 1048576u128 * elapsed_ms as u128;
    let q: u128 = numer / denom;
    proof {
        lemma_div_is_ordered_by_denominator(numer as int, 1048576, denom as int);
        lemma_div_is_ordered(
            numer as int,
            0xffff_ffff_ffff_ffffu64 as int * 624288,
            1048576,
        );
    }
    q as u64
}

/// The summary for `transferred` bytes moved in `elapsed_ms` milliseconds.
pub fn make_summary(transferred: u64, elapsed_ms: u64) -> (s: Summary)
    ensures
        s == spec_summary(transferred, elapsed_ms),
{
    Summary {
        transferred_bytes: transferred,
        elapsed_ms: elapsed_ms,
        mb_hundredths: mb_hundredths(transferred),
        secs_hundredths: secs_hundredths(elapsed_ms),
        mbps_hundredths: if elapsed_ms >= 1 {
            Some(mbps_hundredths(transferred, elapsed_ms))
        } else {
            None
        },
    }
}

/// The character for one decimal digit.
pub open spec fn spec_digit_char(d: int) -> char {
    if d == 0 {
        '0'
    } else if d == 1 {
        '1'
    } else if d == 2 {
        '2'
    } else if d == 3 {
        '3'
    } else if d == 4 {
        '4'
    } else if d == 5 {
        '5'
    } else if d == 6 {
        '6'
    } else if d == 7 {
        '7'
    } else if d == 8 {
        '8'
    } else {
        '9'
    }
}

/// The decimal digits of `n`, most significant first, with no leading zeros
/// except for `n == 0` itself.
pub open spec fn spec_decimal(n: int) -> Seq<char>
    decreases n,
{
    if n < 0 {
        Seq::empty()
    } else if n < 10 {
        seq![spec_digit_char(n)]
    } else {
        spec_decimal(n / 10) + seq![spec_digit_char(n % 10)]
    }
}

/// A value of `h` hundredths written with two decimal places: the decimal
/// digits of the whole part, a point, and exactly two fraction digits.
pub open spec fn spec_fmt_hundredths(h: int) -> Seq<char> {
    spec_decimal(h / 100) + seq!['.', spec_digit_char((h / 10) % 10), spec_digit_char(h % 10)]
}

fn digit_str(d: u64) -> (r: &'static str)
    requires
        d < 10,
    ensures
        r@ == seq![spec_digit_char(d as int)],
{
    proof {
        reveal_strlit("0");
        reveal_strlit("1");
        reveal_strlit("2");
        reveal_strlit("3");
        reveal_strlit("4");
        reveal_strlit("5");
        reveal_strlit("6");
        reveal_strlit("7");
        reveal_strlit("8");
        reveal_strlit("9");
    }
    let r = if d == 0 {
        "0"
    } else if d == 1 {
        "1"
    } else if d == 2 {
        "2"
    } else if d == 3 {
        "3"
    } else if d == 4 {
        "4"
    } else if d == 5 {
        "5"
    } else if d == 6 {
        "6"
    } else if d == 7 {
        "7"
    } else if d == 8 {
        "8"
    } else {
        "9"
    };
    proof {
        assert(r@ =~= seq![spec_digit_char(d as int)]);
    }
    r
}

/// The decimal digits of `n`, most significant first.
pub fn decimal_string(n: u64) -> (s: String)
    ensures
        s@ == spec_decimal(n as int),
{
    let mut m: u64 = n;
    let mut s: String = String::new();
    let mut done: bool = false;
    while !done
        invariant
            !done ==> spec_decimal(n as int) == spec_decimal(m as int) + s@,
            done ==> spec_decimal(n as int) == s@,
        decreases (if done { 0int } else { m as int + 1 }),
    {
        let digit = digit_str(m % 10);
        let prefixed = digit.to_owned().concat(s.as_str());
        if m < 10 {
            proof {
                assert(spec_decimal(m as int) == seq![spec_digit_char(m as int)]);
                assert(prefixed@ =~= spec_decimal(m as int) + s@);
            }
            s = prefixed;
            done = true;
        } else {
            proof {
                assert(spec_decimal(m as int) == spec_decimal(m as int / 10) + seq![
                    spec_digit_char(m as int % 10),
                ]);
                assert(spec_decimal(m as int / 10) + prefixed@ =~= spec_decimal(m as int) + s@);
            }
            s = prefixed;
            m = m / 10;
        }
    }
    s
}

/// `h` hundredths written with two decimal places, such as 305 as "3.05".
pub fn fmt_hundredths(h: u64) -> (s: String)
    ensures
        s@ == spec_fmt_hundredths(h as int),
{
    let whole = decimal_string(h / 100);
    let t = whole.concat(".");
    let t = t.concat(digit_str((h / 10) % 10));
    let t = t.concat(digit_str(h % 10));
    proof {
        reveal_strlit(".");
        assert(t@ =~= spec_fmt_hundredths(h as int));
    }
    t
}

/// The per-iteration progress line: the one-based iteration index and the
/// count of bytes received and echoed in that iteration.
pub fn progress_line(index: u64, bytes: u64) -> (line: String)
    ensures
        line@ == "["@ + spec_decimal(index as int) + "] Received and echoed "@ + spec_decimal(
            bytes as int,
        ) + " bytes"@,
{
    let line = "[".to_owned().concat(decimal_string(index).as_str()).concat(
        "] Received and echoed ",
    ).concat(decimal_string(bytes).as_str()).concat(" bytes");
    line
}

/// The four lines of the benchmark summary block: a header, total
/// transferred in MB, elapsed seconds, and bandwidth in MB/s, each figure
/// with two decimal places.
pub fn summary_lines(s: &Summary) -> (lines: Vec<String>)
    requires
        s.mbps_hundredths is Some,
    ensures
        lines@.len() == 4,
        lines@[0]@ == "[Benchmark Result]"@,
        lines@[1]@ == "  Total transferred: "@ + spec_fmt_hundredths(s.mb_hundredths as int)
            + " MB"@,
        lines@[2]@ == "  Elapsed time     : "@ + spec_fmt_hundredths(s.secs_hundredths as int)
            + " s"@,
        lines@[3]@ == "  Bandwidth        : "@ + spec_fmt_hundredths(
            s.mbps_hundredths->Some_0 as int,
        ) + " MB/s"@,
{
    let mbps = match s.mbps_hundredths {
        Some(v) => v,
        None => 0,
    };
    let mut lines: Vec<String> = Vec::new();
    lines.push("[Benchmark Result]".to_owned());
    lines.push("  Total transferred: ".to_owned().concat(fmt_hundredths(s.mb_hundredths).as_str()).concat(" MB"));
    lines.push("  Elapsed time     : ".to_owned().concat(fmt_hundredths(s.secs_hundredths).as_str()).concat(" s"));
    lines.push("  Bandwidth        : ".to_owned().concat(fmt_hundredths(mbps).as_str()).concat(" MB/s"));
    lines
}

} // verus!
