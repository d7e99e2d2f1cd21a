//! Independent-channel mapping: every channel may be active at once, and the
//! speed domain is partitioned into contiguous bands of five, each band
//! raising one channel's duty by a quarter step. A channel fills to 100%
//! before the next channel begins ramping, and everything above the last
//! explicit band saturates at full output on all three channels.

use vstd::prelude::*;

verus! {

/// The duty triple assigned to a speed by the band table.
pub open spec fn spec_duties(s: nat) -> (u32, u32, u32) {
    if s == 0 {
        (0u32, 0u32, 0u32)
    } else if s <= 5 {
        (25u32, 0u32, 0u32)
    } else if s <= 10 {
        (50u32, 0u32, 0u32)
    } else if s <= 15 {
        (75u32, 0u32, 0u32)
    } else if s <= 20 {
        (100u32, 0u32, 0u32)
    } else if s <= 25 {
        (100u32, 25u32, 0u32)
    } else if s <= 30 {
        (100u32, 50u32, 0u32)
    } else if s <= 35 {
        (100u32, 75u32, 0u32)
    } else if s <= 40 {
        (100u32, 100u32, 0u32)
    } else if s <= 45 {
        (100u32, 100u32, 25u32)
    } else if s <= 50 {
        (100u32, 100u32, 50u32)
    } else if s <= 55 {
        (100u32, 100u32, 75u32)
    } else {
        (100u32, 100u32, 100u32)
    }
}

/// The band table itself: each entry is a band's lower bound paired with its
/// output triple. A band runs up to (excluding) the next entry's lower bound;
/// the last band is open-ended, so every speed above the last explicit
/// boundary saturates to full output.
pub open spec fn band_table() -> Seq<(nat, (u32, u32, u32))> {
    seq![
        (0nat, (0u32, 0u32, 0u32)),
        (1nat, (25u32, 0u32, 0u32)),
        (6nat, (50u32, 0u32, 0u32)),
        (11nat, (75u32, 0u32, 0u32)),
        (16nat, (100u32, 0u32, 0u32)),
        (21nat, (100u32, 25u32, 0u32)),
        (26nat, (100u32, 50u32, 0u32)),
        (31nat, (100u32, 75u32, 0u32)),
        (36nat, (100u32, 100u32, 0u32)),
        (41nat, (100u32, 100u32, 25u32)),
        (46nat, (100u32, 100u32, 50u32)),
        (51nat, (100u32, 100u32, 75u32)),
        (56nat, (100u32, 100u32, 100u32)),
        (61nat, (100u32, 100u32, 100u32)),
    ]
}

/// Whether the band at index `i` covers the speed `s`.
pub open spec fn band_matches(s: nat, i: int) -> bool {
    &&& 0 <= i < band_table().len()
    &&& band_table()[i].0 <= s
    &&& (i + 1 < band_table().len() ==> s < band_table()[i + 1].0)
}

/// The index of the band that covers `s`.
pub open spec fn band_index(s: nat) -> int {
    if s == 0 {
        0
    } else if s <= 5 {
        1
    } else if s <= 10 {
        2
    } else if s <= 15 {
        3
    } else if s <= 20 {
        4
    } else if s <= 25 {
        5
    } else if s <= 30 {
        6
    } else if s <= 35 {
        7
    } else if s <= 40 {
        8
    } else if s <= 45 {
        9
    } else if s <= 50 {
        10
    } else if s <= 55 {
        11
    } else if s <= 60 {
        12
    } else {
        13
    }
}

/// Law: the band table is an exhaustive, non-overlapping partition of the
/// speed domain — every speed is covered by exactly one band.
pub proof fn lemma_bands_partition(s: nat)
    ensures
        band_matches(s, band_index(s)),
        forall|i: int, j: int| band_matches(s, i) && band_matches(s, j) ==> i == j,
{
}

/// Law: the mapping agrees with the band table — for any band that covers a
/// speed, the mapped duties are that band's output triple.
pub proof fn lemma_map_matches_band(s: nat, i: int)
    requires
        band_matches(s, i),
    ensures
        spec_duties(s) == band_table()[i].1,
{
}

/// The sum of the three duties: the total activated capacity of an output.
pub open spec fn spec_total_duty(duties: (u32, u32, u32)) -> int {
    duties.0 + duties.1 + duties.2
}

/// Law: the mapping is monotone — raising the speed never lowers any single
/// channel's duty, nor the total activated capacity.
pub proof fn lemma_map_monotonic(s1: nat, s2: nat)
    requires
        s1 <= s2,
    ensures
        spec_duties(s1).0 <= spec_duties(s2).0,
        spec_duties(s1).1 <= spec_duties(s2).1,
        spec_duties(s1).2 <= spec_duties(s2).2,
        spec_total_duty(spec_duties(s1)) <= spec_total_duty(spec_duties(s2)),
{
}

/// Law: every mapped duty is a percentage — it never exceeds 100.
pub proof fn lemma_duties_are_percentages(s: nat)
    ensures
        spec_duties(s).0 <= 100,
        spec_duties(s).1 <= 100,
        spec_duties(s).2 <= 100,
{
}

/// Map a speed reading to the duty of each of the three channels.
pub fn map_speed_to_leds(speed: u32) -> (duties: (u32, u32, u32))
    ensures
        duties == spec_duties(speed as nat),
{
    match speed {
        0 => (0, 0, 0),
        1..=5 => (25, 0, 0),
        6..=10 => (50, 0, 0),
        11..=15 => (75, 0, 0),
        16..=20 => (100, 0, 0),
        21..=25 => (100, 25, 0),
        26..=30 => (100, 50, 0),
        31..=35 => (100, 75, 0),
        36..=40 => (100, 100, 0),
        41..=45 => (100, 100, 25),
        46..=50 => (100, 100, 50),
        51..=55 => (100, 100, 75),
        56..=60 => (100, 100, 100),
        _ => (100, 100, 100),
    }
}

} // verus!
