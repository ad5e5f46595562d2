//! Timers, durations and file sizes in the form bargo reports them.

use vstd::prelude::*;
use crate::text::{decimal, digit_char, push_decimal};

verus! {

#[verifier::external_type_specification]
#[verifier::external_body]
pub struct ExInstant(std::time::Instant);

/// Calls `std::time::Instant::now()`: the current instant of the monotonic
/// clock. What it returns depends on the time, so nothing is stated of it.
#[verifier::external_body]
pub(crate) fn instant_now() -> std::time::Instant {
    std::time::Instant::now()
}

/// Calls `Instant::elapsed` on `start` and splits the duration into whole
/// seconds (`Duration::as_secs`) and the nanoseconds past them
/// (`Duration::subsec_nanos`, documented to be below one billion). The
/// duration depends on the time; only that bound is stated.
#[verifier::external_body]
pub(crate) fn elapsed_since(start: &std::time::Instant) -> (res: (u64, u32))
    ensures
        res.1 < 1_000_000_000,
{
    let d = start.elapsed();
    (d.as_secs(), d.subsec_nanos())
}

/// `a / d` rounded to the nearest integer, ties to even.
pub open spec fn round_half_even(a: nat, d: nat) -> nat
    recommends
        d > 0,
{
    let q = a / d;
    let r = a % d;
    if 2 * r > d {
        q + 1
    } else if 2 * r < d {
        q
    } else if q % 2 == 0 {
        q
    } else {
        q + 1
    }
}

/// `num / den` written with one decimal, rounded to the nearest tenth
/// with ties to even, as `{:.1}` writes a number.
pub open spec fn one_decimal(num: nat, den: nat) -> Seq<char>
    recommends
        den > 0,
{
    let t = round_half_even(10 * num, den);
    decimal(t / 10) + seq!['.', digit_char(t % 10)]
}

fn push_one_decimal(out: &mut String, num: u128, den: u128)
    requires
        den > 0,
        num <= u64::MAX as u128 * 1_000_000_000 + 999_999_999,
        den <= 1_000_000_000,
    ensures
        final(out)@ == old(out)@ + one_decimal(num as nat, den as nat),
{
    let a = num * 10;
    let q = a / den;
    let r = a % den;
    let t: u128 = if 2 * r > den {
        q + 1
    } else if 2 * r < den {
        q
    } else if q % 2 == 0 {
        q
    } else {
        q + 1
    };
    push_decimal(out, t / 10);
    let d = t % 10;
    proof {
        reveal_strlit(".");
        reveal_strlit("0");
        reveal_strlit("1");
        reveal_strlit("2");
        reveal_strlit("3");
        reveal_strlit("4");
        reveal_strlit("5");
        reveal_strlit("6");
        reveal_strlit("7");
        reveal_strlit("8");
        reveal_strlit("9");
    }
    let tail: &str = if d == 0 {
        ".0"
    } else if d == 1 {
        ".1"
    } else if d == 2 {
        ".2"
    } else if d == 3 {
        ".3"
    } else if d == 4 {
        ".4"
    } else if d == 5 {
        ".5"
    } else if d == 6 {
        ".6"
    } else if d == 7 {
        ".7"
    } else if d == 8 {
        ".8"
    } else {
        ".9"
    };
    proof {
        reveal_strlit(".0");
        reveal_strlit(".1");
        reveal_strlit(".2");
        reveal_strlit(".3");
        reveal_strlit(".4");
        reveal_strlit(".5");
        reveal_strlit(".6");
        reveal_strlit(".7");
        reveal_strlit(".8");
        reveal_strlit(".9");
    }
    out.append(tail);
}

/// What `{:.1}` writes for the floating-point number of seconds that
/// `Duration::as_secs_f64` gives for `secs` seconds and `nanos`
/// nanoseconds: a name for what `seconds_one_decimal` returns.
pub uninterp spec fn seconds_text(secs: u64, nanos: u32) -> Seq<char>;

/// Calls `Duration::as_secs_f64` on the duration of `secs` seconds and
/// `nanos` nanoseconds and writes the floating-point number
/// it gives with one decimal (`{:.1}`). That text depends on the arguments
/// alone; it is named (`seconds_text`), not stated: it is the value of the
/// nearest floating-point number to the duration in seconds, rounded to a
/// tenth, which can differ from the exact duration rounded to a tenth.
/// `Duration::new` only turns the two arguments into the `Duration` that
/// `as_secs_f64` takes; it does not panic while `nanos` is below one
/// billion.
#[verifier::external_body]
fn seconds_one_decimal(secs: u64, nanos: u32) -> (res: String)
    requires
        nanos < 1_000_000_000,
    ensures
        res@ == seconds_text(secs, nanos),
{
    format!("{:.1}", std::time::Duration::new(secs, nanos).as_secs_f64())
}

/// A duration as bargo reports it: once it reaches a second, its seconds as
/// a floating-point number written with one decimal; below that, whole
/// milliseconds.
pub open spec fn duration_text(secs: u64, nanos: u32) -> Seq<char> {
    if secs > 0 {
        seconds_text(secs, nanos) + "s"@
    } else {
        decimal((nanos / 1_000_000) as nat) + "ms"@
    }
}

/// Formats a duration of `secs` seconds and `nanos` nanoseconds.
pub fn format_duration(secs: u64, nanos: u32) -> (res: String)
    requires
        nanos < 1_000_000_000,
    ensures
        res@ == duration_text(secs, nanos),
{
    let mut s = String::new();
    if secs > 0 {
        let t = seconds_one_decimal(secs, nanos);
        s.append(t.as_str());
        s.append("s");
    } else {
        push_decimal(&mut s, (nanos / 1_000_000) as u128);
        s.append("ms");
    }
    s
}

/// `t` is the text of some duration.
pub open spec fn is_duration_text(t: Seq<char>) -> bool {
    exists|secs: u64, nanos: u32| nanos < 1_000_000_000 && t == #[trigger] duration_text(secs, nanos)
}

/// A file size in human-readable form; `None` stands for a file whose
/// size could not be read.
pub open spec fn file_size_text(size: Option<u64>) -> Seq<char> {
    match size {
        None => "unknown size"@,
        Some(n) => if n < 1024 {
            decimal(n as nat) + " B"@
        } else if n < 1024 * 1024 {
            one_decimal(n as nat, 1024) + " KB"@
        } else {
            one_decimal(n as nat, 1024 * 1024) + " MB"@
        },
    }
}

/// Format file size in human-readable format; `size` is the file's length
/// in bytes, or `None` when its metadata could not be read.
pub fn format_file_size(size: Option<u64>) -> (res: String)
    ensures
        res@ == file_size_text(size),
{
    match size {
        None => String::from_str("unknown size"),
        Some(n) => {
            let mut s = String::new();
            if n < 1024 {
                push_decimal(&mut s, n as u128);
                s.append(" B");
            } else if n < 1024 * 1024 {
                push_one_decimal(&mut s, n as u128, 1024);
                s.append(" KB");
            } else {
                push_one_decimal(&mut s, n as u128, 1024 * 1024);
                s.append(" MB");
            }
            s
        },
    }
}

/// Timer for tracking operation duration.
pub struct Timer {
    start: std::time::Instant,
}

impl Timer {
    /// Start a new timer.
    pub fn start() -> (res: Self) {
        Timer { start: instant_now() }
    }

    /// Get elapsed time as a formatted string.
    pub fn elapsed(&self) -> (res: String)
        ensures
            is_duration_text(res@),
    {
        let (secs, nanos) = elapsed_since(&self.start);
        let res = format_duration(secs, nanos);
        assert(res@ == duration_text(secs, nanos));
        res
    }
}

/// The text of an operation result: what was produced, where, its size
/// and how long it took.
pub open spec fn operation_result_text(operation: Seq<char>, file_path: Seq<char>, size: Seq<char>, elapsed: Seq<char>) -> Seq<char> {
    operation + " → "@ + file_path + " ("@ + size + ", "@ + elapsed + ")"@
}

/// Formats an operation result from the file's size and the elapsed time.
pub fn render_operation_result(operation: &str, file_path: &str, size: Option<u64>, secs: u64, nanos: u32) -> (res: String)
    requires
        nanos < 1_000_000_000,
    ensures
        res@ == operation_result_text(operation@, file_path@, file_size_text(size), duration_text(secs, nanos)),
{
    let size_text = format_file_size(size);
    let elapsed = format_duration(secs, nanos);
    let mut s = String::from_str(operation);
    s.append(" → ");
    s.append(file_path);
    s.append(" (");
    s.append(size_text.as_str());
    s.append(", ");
    s.append(elapsed.as_str());
    s.append(")");
    s
}

/// Format operation result with file size and timing; `size` is the file's
/// length in bytes, or `None` when its metadata could not be read.
pub fn format_operation_result(operation: &str, file_path: &str, size: Option<u64>, timer: &Timer) -> (res: String)
    ensures
        exists|secs: u64, nanos: u32| nanos < 1_000_000_000 && res@ == #[trigger] operation_result_text(
            operation@,
            file_path@,
            file_size_text(size),
            duration_text(secs, nanos),
        ),
{
    let (secs, nanos) = elapsed_since(&timer.start);
    let res = render_operation_result(operation, file_path, size, secs, nanos);
    assert(res@ == operation_result_text(operation@, file_path@, file_size_text(size), duration_text(secs, nanos)));
    res
}

} // verus!
