//! Single-active-channel mapping: the speed domain is divided into fifteen
//! discrete levels, five per channel; exactly one channel is active at a
//! time, and the level's position within that channel picks the duty in
//! quarter steps. Levels past the defined range fall back to a safe default
//! (channel 1, duty 0). Every cycle drives the two inactive channels to zero
//! explicitly, since the sinks keep no state between writes.

use vstd::prelude::*;

verus! {

/// The discrete level of a speed: fifteen levels spanning the speed domain.
pub open spec fn spec_level(s: nat) -> nat {
    s * 15 / 100
}

/// The duty for a level's position within its channel, in quarter steps.
/// Positions outside 0..=4 give duty 0.
pub open spec fn spec_level_duty(position: int) -> i32 {
    if position == 0 {
        0
    } else if position == 1 {
        25
    } else if position == 2 {
        50
    } else if position == 3 {
        75
    } else if position == 4 {
        100
    } else {
        0
    }
}

/// The (channel, duty) pair selected for a speed: five levels per channel,
/// and anything past the last defined level falls back to channel 1, duty 0.
pub open spec fn spec_led_selection(s: nat) -> (u32, u32) {
    let level = spec_level(s);
    if level <= 4 {
        (1u32, spec_level_duty(level as int) as u32)
    } else if level <= 9 {
        (2u32, spec_level_duty(level - 5) as u32)
    } else if level <= 14 {
        (3u32, spec_level_duty(level - 10) as u32)
    } else {
        (1u32, 0u32)
    }
}

/// Law: a selection always addresses one of the three real channels, with a
/// duty that never exceeds 100.
pub proof fn lemma_selection_valid(s: nat)
    ensures
        1 <= spec_led_selection(s).0 <= 3,
        spec_led_selection(s).1 <= 100,
{
}

/// Duty for a level's position within its channel.
pub fn level_to_duty(level: i32) -> (duty: i32)
    ensures
        duty == spec_level_duty(level as int),
{
    match level {
        0 => 0,
        1 => 25,
        2 => 50,
        3 => 75,
        4 => 100,
        _ => 0,
    }
}

/// Map a speed reading to the active channel and its duty.
pub fn map_speed_to_led(speed: u32) -> (selection: (u32, u32))
    ensures
        selection == spec_led_selection(speed as nat),
{
    let level: u64 = speed as u64 * 15 / 100;
    if level <= 4 {
        let duty = level_to_duty(level as i32);
        (1, duty as u32)
    } else if level <= 9 {
        let duty = level_to_duty((level - 5) as i32);
        (2, duty as u32)
    } else if level <= 14 {
        let duty = level_to_duty((level - 10) as i32);
        (3, duty as u32)
    } else {
        (1, 0)
    }
}

/// The command for every channel in one cycle: the active channel gets
/// `duty`, each other channel is explicitly driven to zero.
pub fn channel_commands(active_led: u32, duty: u32) -> (commands: Vec<(u32, u32)>)
    ensures
        commands@.len() == 3,
        forall|i: int| 0 <= i < 3 ==> commands@[i].0 == i + 1,
        forall|i: int| 0 <= i < 3 ==> commands@[i].1 == (if i + 1 == active_led {
            duty
        } else {
            0u32
        }),
{
    let mut commands: Vec<(u32, u32)> = Vec::new();
    commands.push((1, if active_led == 1 { duty } else { 0 }));
    commands.push((2, if active_led == 2 { duty } else { 0 }));
    commands.push((3, if active_led == 3 { duty } else { 0 }));
    commands
}

} // verus!
