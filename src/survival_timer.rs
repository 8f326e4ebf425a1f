use vstd::prelude::*;
use vstd::string::StringExecFns;
use crate::timer::Stopwatch;

verus! {

/// Time survived in the current session. It runs only while the session is
/// active and not paused.
pub struct SurvivalTimer(pub Stopwatch);

impl SurvivalTimer {
    /// A stopped timer at zero, as before any session.
    pub fn new() -> (r: Self)
        ensures
            r.0.elapsed_ms == 0,
            r.0.paused,
    {
        SurvivalTimer(Stopwatch { elapsed_ms: 0, paused: true })
    }

    pub fn elapsed_ms(&self) -> (r: u64)
        ensures
            r == self.0.elapsed_ms,
    {
        self.0.elapsed_ms
    }
}

/// Advances the timer by one frame's time, unless it is paused.
pub fn tick_timer(timer: &mut SurvivalTimer, delta_ms: u64)
    ensures
        final(timer).0.paused == old(timer).0.paused,
        old(timer).0.paused ==> final(timer).0.elapsed_ms == old(timer).0.elapsed_ms,
        !old(timer).0.paused ==> final(timer).0.elapsed_ms == (if old(timer).0.elapsed_ms
            + delta_ms > u64::MAX {
            u64::MAX as int
        } else {
            old(timer).0.elapsed_ms + delta_ms
        }),
{
    timer.0.tick(delta_ms);
}

/// On entering a session: back to zero, running.
pub fn start_timer(timer: &mut SurvivalTimer)
    ensures
        final(timer).0.elapsed_ms == 0,
        !final(timer).0.paused,
{
    timer.0.reset();
    timer.0.unpause();
}

/// On leaving a session: stopped, back to zero.
pub fn stop_timer(timer: &mut SurvivalTimer)
    ensures
        final(timer).0.elapsed_ms == 0,
        final(timer).0.paused,
{
    timer.0.pause();
    timer.0.reset();
}

pub fn pause_timer(timer: &mut SurvivalTimer)
    ensures
        final(timer).0.elapsed_ms == old(timer).0.elapsed_ms,
        final(timer).0.paused,
{
    timer.0.pause();
}

pub fn resume_timer(timer: &mut SurvivalTimer)
    ensures
        final(timer).0.elapsed_ms == old(timer).0.elapsed_ms,
        !final(timer).0.paused,
{
    timer.0.unpause();
}

pub open spec fn digit_char(d: nat) -> char {
    if d == 0 {
        '0'
    } else if d == 1 {
        '1'
    } else if d == 2 {
        '2'
    } else if d == 3 {
        '3'
    } else if d == 4 {
        '4'
    } else if d == 5 {
        '5'
    } else if d == 6 {
        '6'
    } else if d == 7 {
        '7'
    } else if d == 8 {
        '8'
    } else {
        '9'
    }
}

/// The decimal digits of `n`, without leading zeros.
pub open spec fn decimal(n: nat) -> Seq<char>
    decreases n,
{
    if n < 10 {
        seq![digit_char(n)]
    } else {
        decimal(n / 10) + seq![digit_char(n % 10)]
    }
}

/// The decimal digits of `n`, padded with a zero to at least two.
pub open spec fn two_digits(n: nat) -> Seq<char> {
    if n < 10 {
        seq!['0'] + decimal(n)
    } else {
        decimal(n)
    }
}

/// `mm:ss` for a number of whole seconds; minutes may take more digits.
pub open spec fn clock_text(total_secs: nat) -> Seq<char> {
    two_digits(total_secs / 60) + seq![':'] + two_digits(total_secs % 60)
}

fn digit_str(d: u64) -> (r: &'static str)
    requires
        d < 10,
    ensures
        r@ == seq![digit_char(d as nat)],
{
    proof {
        reveal_strlit("0");
        reveal_strlit("1");
        reveal_strlit("2");
        reveal_strlit("3");
        reveal_strlit("4");
        reveal_strlit("5");
        reveal_strlit("6");
        reveal_strlit("7");
        reveal_strlit("8");
        reveal_strlit("9");
    }
    if d == 0 {
        "0"
    } else if d == 1 {
        "1"
    } else if d == 2 {
        "2"
    } else if d == 3 {
        "3"
    } else if d == 4 {
        "4"
    } else if d == 5 {
        "5"
    } else if d == 6 {
        "6"
    } else if d == 7 {
        "7"
    } else if d == 8 {
        "8"
    } else {
        "9"
    }
}

fn append_decimal(s: &mut String, n: u64)
    ensures
        final(s)@ == old(s)@ + decimal(n as nat),
    decreases n,
{
    if n >= 10 {
        append_decimal(s, n / 10);
    }
    s.append(digit_str(n % 10));
    proof {
        if n >= 10 {
            assert(old(s)@ + decimal((n / 10) as nat) + seq![digit_char((n % 10) as nat)] =~= old(
                s,
            )@ + decimal(n as nat));
        } else {
            assert(n % 10 == n);
        }
    }
}

fn append_two_digits(s: &mut String, n: u64)
    ensures
        final(s)@ == old(s)@ + two_digits(n as nat),
{
    if n < 10 {
        proof {
            reveal_strlit("0");
        }
        s.append("0");
        append_decimal(s, n);
        proof {
            assert(old(s)@ + seq!['0'] + decimal(n as nat) =~= old(s)@ + two_digits(n as nat));
        }
    } else {
        append_decimal(s, n);
    }
}

/// Survival time for display: whole minutes and seconds as `mm:ss`.
pub fn format_time(total_secs: u64) -> (r: String)
    ensures
        r@ == clock_text(total_secs as nat),
{
    let minutes = total_secs / 60;
    let seconds = total_secs % 60;
    let mut s = String::new();
    append_two_digits(&mut s, minutes);
    proof {
        reveal_strlit(":");
    }
    s.append(":");
    append_two_digits(&mut s, seconds);
    proof {
        assert(s@ =~= clock_text(total_secs as nat));
    }
    s
}

} // verus!
