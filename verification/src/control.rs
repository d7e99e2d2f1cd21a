//! One cycle of the control loop, minus the I/O: the reading obtained from
//! the source fixes the duty of every channel. The loop around it polls the
//! source, hands the raw text (or its absence) in, performs the planned
//! writes, and sleeps for the fixed interval; no state survives a cycle.

use vstd::prelude::*;

use crate::mapper::{map_speed_to_leds, spec_duties};
use crate::reader::{spec_speed_from_source, speed_from_source};

verus! {

/// The duty triple a cycle derives from one poll of the source.
pub open spec fn spec_cycle_duties(source: Option<Seq<u8>>) -> (u32, u32, u32) {
    spec_duties(spec_speed_from_source(source) as nat)
}

/// Run the compute half of one cycle: parse the poll's reading (an absent or
/// garbled reading degrades to 0) and map it through the band table.
pub fn cycle_duties(source: Option<&[u8]>) -> (duties: (u32, u32, u32))
    ensures
        duties == (match source {
            Option::Some(text) => spec_cycle_duties(Option::Some(text@)),
            Option::None => spec_cycle_duties(Option::None),
        }),
{
    let speed = speed_from_source(source);
    map_speed_to_leds(speed)
}

} // verus!
