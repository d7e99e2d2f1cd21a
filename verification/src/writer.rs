//! Rendering duty commands as text. A sink accepts either a two-token
//! command naming the channel and the duty, or — when each channel has a
//! sink of its own — a single duty value followed by a newline. Both forms
//! are plain ASCII decimal.

use vstd::prelude::*;

verus! {

/// The decimal digits of `n`, most significant first, without sign or
/// padding (a single `0` for zero).
pub open spec fn spec_decimal(n: nat) -> Seq<u8>
    decreases n,
{
    if n < 10 {
        seq![(48 + n) as u8]
    } else {
        spec_decimal(n / 10).push((48 + n % 10) as u8)
    }
}

/// Append the decimal digits of `n` to `out`.
pub fn push_decimal(n: u32, out: &mut Vec<u8>)
    ensures
        final(out)@ == old(out)@ + spec_decimal(n as nat),
    decreases n,
{
    if n >= 10 {
        push_decimal(n / 10, out);
    }
    let d: u8 = (n % 10) as u8;
    out.push(48 + d);
    proof {
        assert(out@ =~= old(out)@ + spec_decimal(n as nat));
    }
}

/// The shared-endpoint command for one channel: the channel number and the
/// duty, separated by a single space.
pub fn led_command(led: u32, duty: u32) -> (command: Vec<u8>)
    ensures
        command@ == spec_decimal(led as nat) + seq![32u8] + spec_decimal(duty as nat),
{
    let mut command: Vec<u8> = Vec::new();
    push_decimal(led, &mut command);
    command.push(32);
    push_decimal(duty, &mut command);
    proof {
        assert(command@ =~= spec_decimal(led as nat) + seq![32u8] + spec_decimal(duty as nat));
    }
    command
}

/// The spelling of one per-channel command line.
pub open spec fn spec_duty_line(duty: nat) -> Seq<u8> {
    spec_decimal(duty) + seq![10u8]
}

/// The per-channel command: the duty alone, terminated by a line feed.
pub fn duty_line(duty: u32) -> (command: Vec<u8>)
    ensures
        command@ == spec_duty_line(duty as nat),
{
    let mut command: Vec<u8> = Vec::new();
    push_decimal(duty, &mut command);
    command.push(10);
    proof {
        assert(command@ =~= spec_duty_line(duty as nat));
    }
    command
}

/// One cycle's write plan over the per-channel sinks: the command line for
/// each channel whose sink could be acquired, and nothing for a channel whose
/// sink could not. Each channel's entry is fixed by that channel's own duty
/// and sink alone, so losing one sink never disturbs the other channels.
pub fn plan_writes(duties: (u32, u32, u32), sink_ok: (bool, bool, bool)) -> (plan: (
    Option<Vec<u8>>,
    Option<Vec<u8>>,
    Option<Vec<u8>>,
))
    ensures
        sink_ok.0 == (plan.0 is Some),
        sink_ok.1 == (plan.1 is Some),
        sink_ok.2 == (plan.2 is Some),
        (plan.0 matches Some(line) ==> line@ == spec_duty_line(duties.0 as nat)),
        (plan.1 matches Some(line) ==> line@ == spec_duty_line(duties.1 as nat)),
        (plan.2 matches Some(line) ==> line@ == spec_duty_line(duties.2 as nat)),
{
    let first = if sink_ok.0 {
        Option::Some(duty_line(duties.0))
    } else {
        Option::None
    };
    let second = if sink_ok.1 {
        Option::Some(duty_line(duties.1))
    } else {
        Option::None
    };
    let third = if sink_ok.2 {
        Option::Some(duty_line(duties.2))
    } else {
        Option::None
    };
    (first, second, third)
}

} // verus!
