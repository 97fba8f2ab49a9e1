//! Synchronized data compares by time: audio packets by their RTP timestamp,
//! motion-capture bundles by their time tag (seconds, then fraction).
use std::cmp::Ordering;

use vstd::prelude::*;

use crate::osc::OscTime;
use crate::vrl_packet::{OscData, RTPPacket};

verus! {

/// How two numbers compare.
pub open spec fn number_order(a: u32, b: u32) -> Ordering {
    if a < b {
        Ordering::Less
    } else if a > b {
        Ordering::Greater
    } else {
        Ordering::Equal
    }
}

/// How two time tags compare: by seconds, then by fraction.
pub open spec fn time_tag_order(a: OscTime, b: OscTime) -> Ordering {
    if a.seconds != b.seconds {
        number_order(a.seconds, b.seconds)
    } else {
        number_order(a.fractional, b.fractional)
    }
}

/// How two numbers compare.
pub fn order_numbers(a: u32, b: u32) -> (r: Ordering)
    ensures
        r == number_order(a, b),
{
    if a < b {
        Ordering::Less
    } else if a > b {
        Ordering::Greater
    } else {
        Ordering::Equal
    }
}

/// How two time tags compare: by seconds, then by fraction.
pub fn order_time_tags(a: OscTime, b: OscTime) -> (r: Ordering)
    ensures
        r == time_tag_order(a, b),
{
    if a.seconds != b.seconds {
        order_numbers(a.seconds, b.seconds)
    } else {
        order_numbers(a.fractional, b.fractional)
    }
}

impl PartialEq for OscData {
    fn eq(&self, other: &Self) -> (r: bool) {
        self.bundle.timetag == other.bundle.timetag
    }
}

impl vstd::std_specs::cmp::PartialEqSpecImpl for OscData {
    open spec fn obeys_eq_spec() -> bool {
        true
    }

    /// Bundles are equal when their time tags are.
    open spec fn eq_spec(&self, other: &Self) -> bool {
        self.bundle.timetag == other.bundle.timetag
    }
}

impl Eq for OscData {

}

impl PartialOrd for OscData {
    fn partial_cmp(&self, other: &Self) -> (r: Option<Ordering>) {
        Some(order_time_tags(self.bundle.timetag, other.bundle.timetag))
    }
}

impl vstd::std_specs::cmp::PartialOrdSpecImpl for OscData {
    open spec fn obeys_partial_cmp_spec() -> bool {
        true
    }

    /// Bundles are ordered by their time tags.
    open spec fn partial_cmp_spec(&self, other: &Self) -> Option<Ordering> {
        Some(time_tag_order(self.bundle.timetag, other.bundle.timetag))
    }
}

impl PartialEq for RTPPacket {
    fn eq(&self, other: &Self) -> (r: bool) {
        self.packet.timestamp == other.packet.timestamp
    }
}

impl vstd::std_specs::cmp::PartialEqSpecImpl for RTPPacket {
    open spec fn obeys_eq_spec() -> bool {
        true
    }

    /// Packets are equal when their timestamps are.
    open spec fn eq_spec(&self, other: &Self) -> bool {
        self.packet.timestamp == other.packet.timestamp
    }
}

impl Eq for RTPPacket {

}

impl PartialOrd for RTPPacket {
    fn partial_cmp(&self, other: &Self) -> (r: Option<Ordering>) {
        Some(order_numbers(self.packet.timestamp, other.packet.timestamp))
    }
}

impl vstd::std_specs::cmp::PartialOrdSpecImpl for RTPPacket {
    open spec fn obeys_partial_cmp_spec() -> bool {
        true
    }

    /// Packets are ordered by their timestamps.
    open spec fn partial_cmp_spec(&self, other: &Self) -> Option<Ordering> {
        Some(number_order(self.packet.timestamp, other.packet.timestamp))
    }
}

/// The synchronizer's time order on bundles is the comparison's order: a
/// bundle comes no later than another exactly where it does not compare greater.
pub proof fn lemma_time_le_is_order(a: OscTime, b: OscTime)
    ensures
        crate::vrl_packet::osc_time_le(a, b) <==> time_tag_order(a, b) != Ordering::Greater,
{
}

} // verus!
