//! Dates and times as the integers by which they are ordered.
use std::cmp::Ordering;
use vstd::prelude::*;
use vstd::std_specs::cmp::PartialOrdSpecImpl;

verus! {

/// A day of the proleptic Gregorian calendar, counted from 0001-01-01 as day 1.
#[derive(Debug, Clone, Copy, PartialEq, Eq, Hash, Structural)]
pub struct Date {
    pub day: i32,
}

/// A time of day: the seconds since midnight and the nanoseconds since that second began.
#[derive(Debug, Clone, Copy, PartialEq, Eq, Hash, Structural)]
pub struct TimeOfDay {
    pub second: u32,
    pub nanosecond: u32,
}

/// A moment in universal time.
#[derive(Debug, Clone, Copy, PartialEq, Eq, Hash, Structural)]
pub struct Instant {
    pub date: Date,
    pub time: TimeOfDay,
}

/// `first`, unless it is `Equal`: then `second` decides.
pub open spec fn then_order(first: Ordering, second: Ordering) -> Ordering {
    match first {
        Ordering::Equal => second,
        _ => first,
    }
}

/// How `left` stands to `right` in the order of the numbers.
pub open spec fn order_u32(left: u32, right: u32) -> Ordering {
    if left < right {
        Ordering::Less
    } else if left == right {
        Ordering::Equal
    } else {
        Ordering::Greater
    }
}

/// How `left` stands to `right` in the order of the numbers.
pub open spec fn order_u16(left: u16, right: u16) -> Ordering {
    if left < right {
        Ordering::Less
    } else if left == right {
        Ordering::Equal
    } else {
        Ordering::Greater
    }
}

/// How `left` stands to `right` in the order of the numbers.
pub open spec fn order_i32(left: i32, right: i32) -> Ordering {
    if left < right {
        Ordering::Less
    } else if left == right {
        Ordering::Equal
    } else {
        Ordering::Greater
    }
}

/// How `left` stands to `right` in the order of the numbers.
pub open spec fn order_i8(left: i8, right: i8) -> Ordering {
    if left < right {
        Ordering::Less
    } else if left == right {
        Ordering::Equal
    } else {
        Ordering::Greater
    }
}

pub fn compare_u32(left: u32, right: u32) -> (order: Ordering)
    ensures
        order == order_u32(left, right),
{
    if left < right {
        Ordering::Less
    } else if left == right {
        Ordering::Equal
    } else {
        Ordering::Greater
    }
}

pub fn compare_u16(left: u16, right: u16) -> (order: Ordering)
    ensures
        order == order_u16(left, right),
{
    if left < right {
        Ordering::Less
    } else if left == right {
        Ordering::Equal
    } else {
        Ordering::Greater
    }
}

pub fn compare_i32(left: i32, right: i32) -> (order: Ordering)
    ensures
        order == order_i32(left, right),
{
    if left < right {
        Ordering::Less
    } else if left == right {
        Ordering::Equal
    } else {
        Ordering::Greater
    }
}

pub fn compare_i8(left: i8, right: i8) -> (order: Ordering)
    ensures
        order == order_i8(left, right),
{
    if left < right {
        Ordering::Less
    } else if left == right {
        Ordering::Equal
    } else {
        Ordering::Greater
    }
}

/// `first`, unless it is `Equal`: then `second` decides.
pub fn then(first: Ordering, second: Ordering) -> (order: Ordering)
    ensures
        order == then_order(first, second),
{
    match first {
        Ordering::Equal => second,
        _ => first,
    }
}

impl Date {
    /// Earlier days come first.
    pub open spec fn order(&self, other: Date) -> Ordering {
        order_i32(self.day, other.day)
    }

    pub fn compare(&self, other: &Date) -> (order: Ordering)
        ensures
            order == self.order(*other),
    {
        compare_i32(self.day, other.day)
    }
}

impl TimeOfDay {
    /// Earlier seconds come first, and within a second earlier nanoseconds.
    pub open spec fn order(&self, other: TimeOfDay) -> Ordering {
        then_order(
            order_u32(self.second, other.second),
            order_u32(self.nanosecond, other.nanosecond),
        )
    }

    pub fn compare(&self, other: &TimeOfDay) -> (order: Ordering)
        ensures
            order == self.order(*other),
    {
        then(
            compare_u32(self.second, other.second),
            compare_u32(self.nanosecond, other.nanosecond),
        )
    }
}

impl Instant {
    /// Earlier days come first, and within a day earlier times.
    pub open spec fn order(&self, other: Instant) -> Ordering {
        then_order(self.date.order(other.date), self.time.order(other.time))
    }

    pub fn compare(&self, other: &Instant) -> (order: Ordering)
        ensures
            order == self.order(*other),
    {
        then(self.date.compare(&other.date), self.time.compare(&other.time))
    }
}

impl PartialOrd for Date {
    fn partial_cmp(&self, other: &Date) -> (order: Option<Ordering>) {
        Some(self.compare(other))
    }
}

impl PartialOrdSpecImpl for Date {
    open spec fn obeys_partial_cmp_spec() -> bool {
        true
    }

    open spec fn partial_cmp_spec(&self, other: &Date) -> Option<Ordering> {
        Some(self.order(*other))
    }
}

impl PartialOrd for TimeOfDay {
    fn partial_cmp(&self, other: &TimeOfDay) -> (order: Option<Ordering>) {
        Some(self.compare(other))
    }
}

impl PartialOrdSpecImpl for TimeOfDay {
    open spec fn obeys_partial_cmp_spec() -> bool {
        true
    }

    open spec fn partial_cmp_spec(&self, other: &TimeOfDay) -> Option<Ordering> {
        Some(self.order(*other))
    }
}

impl PartialOrd for Instant {
    fn partial_cmp(&self, other: &Instant) -> (order: Option<Ordering>) {
        Some(self.compare(other))
    }
}

impl PartialOrdSpecImpl for Instant {
    open spec fn obeys_partial_cmp_spec() -> bool {
        true
    }

    open spec fn partial_cmp_spec(&self, other: &Instant) -> Option<Ordering> {
        Some(self.order(*other))
    }
}

} // verus!
