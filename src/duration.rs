use vstd::prelude::*;
use vstd::string::*;

verus! {

/// Length of one work cycle, in seconds.
pub const WORK_CYCLE_SECS: u64 = 1500;

/// Length of the break between two work cycles, in seconds.
pub const BREAK_SECS: u64 = 300;

/// The character of a decimal digit `d < 10`.
pub open spec fn digit_char(d: nat) -> char {
    ((d + 48) as u8) as char
}

/// The decimal digits of `n`, most significant first, without leading zeros.
pub open spec fn decimal_digits(n: nat) -> Seq<char>
    decreases n,
{
    if n < 10 {
        seq![digit_char(n)]
    } else {
        decimal_digits(n / 10).push(digit_char(n % 10))
    }
}

/// `n` in decimal, padded with a zero to at least two digits.
pub open spec fn two_digits(n: nat) -> Seq<char> {
    if n < 10 {
        seq!['0'] + decimal_digits(n)
    } else {
        decimal_digits(n)
    }
}

/// A duration of `secs` seconds as `"{h}h {mm}m"` when it holds at least one
/// hour, else as `"{mm}m"`; leftover seconds are dropped.
pub open spec fn duration_text(secs: nat) -> Seq<char> {
    let hours = secs / 3600;
    let minutes = (secs % 3600) / 60;
    if hours > 0 {
        decimal_digits(hours) + "h "@ + two_digits(minutes) + "m"@
    } else {
        two_digits(minutes) + "m"@
    }
}

/// Total work time of `cycles` cycles, in seconds.
pub open spec fn work_secs(cycles: nat) -> nat {
    (WORK_CYCLE_SECS * cycles) as nat
}

/// Total break time between `cycles` cycles, in seconds.
pub open spec fn break_secs(cycles: nat) -> nat {
    if cycles > 1 {
        (BREAK_SECS * (cycles - 1)) as nat
    } else {
        0
    }
}

/// The work time of `cycles` cycles, followed by their break time when there
/// is any.
pub open spec fn cycles_text(cycles: nat) -> Seq<char> {
    if break_secs(cycles) == 0 {
        duration_text(work_secs(cycles))
    } else {
        duration_text(work_secs(cycles)) + " + "@ + duration_text(break_secs(cycles))
            + " (tot. break time)"@
    }
}

/// Relies on `u64`'s `Display` (through `ToString`): the decimal digits of `n`,
/// without sign, padding or leading zeros.
#[verifier::external_body]
fn decimal(n: u64) -> (r: String)
    ensures
        r@ == decimal_digits(n as nat),
{
    n.to_string()
}

fn padded_two_digits(n: u64) -> (r: String)
    ensures
        r@ == two_digits(n as nat),
{
    let digits = decimal(n);
    if n < 10 {
        let mut r = String::from_str("0");
        r.append(digits.as_str());
        proof {
            reveal_strlit("0");
        }
        assert(r@ =~= two_digits(n as nat));
        r
    } else {
        digits
    }
}

/// Renders a duration given in seconds as `"{h}h {mm}m"`, or `"{mm}m"` under
/// one hour.
pub fn format_duration(total_secs: u64) -> (r: String)
    ensures
        r@ == duration_text(total_secs as nat),
{
    let hours = total_secs / 3600;
    let minutes = (total_secs % 3600) / 60;
    let mm = padded_two_digits(minutes);
    if hours > 0 {
        let mut r = decimal(hours);
        r.append("h ");
        r.append(mm.as_str());
        r.append("m");
        r
    } else {
        let mut r = mm;
        r.append("m");
        r
    }
}

/// The work time of a task of `cycles` cycles, with its total break time
/// appended when there is any: `"1h 40m + 15m (tot. break time)"`.
pub fn calculate_cycles(cycles: u8) -> (r: String)
    ensures
        r@ == cycles_text(cycles as nat),
{
    let time = WORK_CYCLE_SECS * cycles as u64;
    let breaks = if cycles > 1 {
        BREAK_SECS * (cycles as u64 - 1)
    } else {
        0
    };
    if breaks == 0 {
        format_duration(time)
    } else {
        let mut r = format_duration(time);
        r.append(" + ");
        let b = format_duration(breaks);
        r.append(b.as_str());
        r.append(" (tot. break time)");
        r
    }
}

} // verus!
