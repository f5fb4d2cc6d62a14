//! Power (battery) widget state: scalar properties delivered by
//! independent property-change subscriptions on a system bus. Every field
//! is optional; display logic treats a missing required field as an
//! unknown state, never as zero.

use vstd::prelude::*;

verus! {

/// Snapshot of the display battery device. Each field is written only by
/// its own property subscription.
#[derive(Clone)]
pub struct Power {
    pub error_message: Option<String>,
    pub type_: Option<u32>,
    pub state: Option<u32>,
    pub percentage: Option<u32>,
    pub time_to_empty: Option<u64>,
    pub time_to_full: Option<u64>,
}

/// What the widget should draw: either a battery gauge (state plus a
/// threshold bucket of the percentage), a raw state it does not know, an
/// error, or a placeholder while required fields are missing.
#[derive(PartialEq, Eq, Structural, Clone, Copy, Debug)]
pub enum PowerIndicator {
    Error,
    Unknown,
    Charging(u8),
    Discharging(u8),
    Empty,
    FullyCharged,
    OtherState(u32),
}

/// The gauge buckets, from empty (0) upward; thresholds at
/// 10, 20, 40, 50, 70, 80 and 100 percent.
pub open spec fn spec_percent_bucket(p: int) -> u8 {
    if p >= 100 {
        7u8
    } else if p >= 80 {
        6u8
    } else if p >= 70 {
        5u8
    } else if p >= 50 {
        4u8
    } else if p >= 40 {
        3u8
    } else if p >= 20 {
        2u8
    } else if p >= 10 {
        1u8
    } else {
        0u8
    }
}

/// Map a percentage to its gauge bucket.
pub fn percent_bucket(p: u32) -> (b: u8)
    ensures
        b == spec_percent_bucket(p as int),
{
    if p >= 100 {
        7
    } else if p >= 80 {
        6
    } else if p >= 70 {
        5
    } else if p >= 50 {
        4
    } else if p >= 40 {
        3
    } else if p >= 20 {
        2
    } else if p >= 10 {
        1
    } else {
        0
    }
}

/// A time estimate in seconds is surfaced only when it is a meaningful
/// positive count; zero and negative readings mean "unknown".
pub open spec fn spec_estimate_seconds(raw: i64) -> Option<u64> {
    if raw > 0 {
        Some(raw as u64)
    } else {
        None
    }
}

/// Convert a raw signed seconds reading into the optional estimate.
pub fn estimate_seconds(raw: i64) -> (r: Option<u64>)
    ensures
        r == spec_estimate_seconds(raw),
{
    if raw > 0 {
        Some(raw as u64)
    } else {
        None
    }
}

/// The type code a display battery reports.
pub open spec fn spec_battery_type() -> u32 {
    2u32
}

/// What [`Power::indicator`] returns, as a function of the snapshot.
pub open spec fn spec_indicator(p: Power) -> PowerIndicator {
    if p.error_message is Some {
        PowerIndicator::Error
    } else if p.type_ == Some(spec_battery_type()) && p.state is Some && p.percentage is Some {
        let st = p.state->0;
        let bucket = spec_percent_bucket(p.percentage->0 as int);
        if st == 1 {
            PowerIndicator::Charging(bucket)
        } else if st == 2 {
            PowerIndicator::Discharging(bucket)
        } else if st == 3 {
            PowerIndicator::Empty
        } else if st == 4 {
            PowerIndicator::FullyCharged
        } else {
            PowerIndicator::OtherState(st)
        }
    } else {
        PowerIndicator::Unknown
    }
}

impl Power {
    /// Fresh snapshot: nothing known yet.
    pub fn new() -> (r: Power)
        ensures
            r.error_message is None,
            r.type_ is None,
            r.state is None,
            r.percentage is None,
            r.time_to_empty is None,
            r.time_to_full is None,
    {
        Power {
            error_message: None,
            type_: None,
            state: None,
            percentage: None,
            time_to_empty: None,
            time_to_full: None,
        }
    }

    /// A terminal setup failure: the widget renders the message from now on.
    pub fn set_error(&mut self, e: String)
        ensures
            final(self).error_message == Some(e),
            final(self).type_ == old(self).type_,
            final(self).state == old(self).state,
            final(self).percentage == old(self).percentage,
            final(self).time_to_empty == old(self).time_to_empty,
            final(self).time_to_full == old(self).time_to_full,
    {
        self.error_message = Some(e);
    }

    /// The device type property changed.
    pub fn set_type(&mut self, v: u32)
        ensures
            final(self).type_ == Some(v),
            final(self).error_message == old(self).error_message,
            final(self).state == old(self).state,
            final(self).percentage == old(self).percentage,
            final(self).time_to_empty == old(self).time_to_empty,
            final(self).time_to_full == old(self).time_to_full,
    {
        self.type_ = Some(v);
    }

    /// The charge state property changed.
    pub fn set_state(&mut self, v: u32)
        ensures
            final(self).state == Some(v),
            final(self).error_message == old(self).error_message,
            final(self).type_ == old(self).type_,
            final(self).percentage == old(self).percentage,
            final(self).time_to_empty == old(self).time_to_empty,
            final(self).time_to_full == old(self).time_to_full,
    {
        self.state = Some(v);
    }

    /// The percentage property changed (already reduced to whole percent).
    pub fn set_percentage(&mut self, v: u32)
        ensures
            final(self).percentage == Some(v),
            final(self).error_message == old(self).error_message,
            final(self).type_ == old(self).type_,
            final(self).state == old(self).state,
            final(self).time_to_empty == old(self).time_to_empty,
            final(self).time_to_full == old(self).time_to_full,
    {
        self.percentage = Some(v);
    }

    /// The time-to-empty property changed; non-positive readings clear it.
    pub fn set_time_to_empty(&mut self, raw: i64)
        ensures
            final(self).time_to_empty == spec_estimate_seconds(raw),
            final(self).error_message == old(self).error_message,
            final(self).type_ == old(self).type_,
            final(self).state == old(self).state,
            final(self).percentage == old(self).percentage,
            final(self).time_to_full == old(self).time_to_full,
    {
        self.time_to_empty = estimate_seconds(raw);
    }

    /// The time-to-full property changed; non-positive readings clear it.
    pub fn set_time_to_full(&mut self, raw: i64)
        ensures
            final(self).time_to_full == spec_estimate_seconds(raw),
            final(self).error_message == old(self).error_message,
            final(self).type_ == old(self).type_,
            final(self).state == old(self).state,
            final(self).percentage == old(self).percentage,
            final(self).time_to_empty == old(self).time_to_empty,
    {
        self.time_to_full = estimate_seconds(raw);
    }

    /// Decide what the widget draws from the current snapshot.
    pub fn indicator(&self) -> (r: PowerIndicator)
        ensures
            r == spec_indicator(*self),
    {
        if self.error_message.is_some() {
            PowerIndicator::Error
        } else if self.type_ == Some(2u32) && self.state.is_some() && self.percentage.is_some() {
            let st = *self.state.as_ref().unwrap();
            let bucket = percent_bucket(*self.percentage.as_ref().unwrap());
            if st == 1 {
                PowerIndicator::Charging(bucket)
            } else if st == 2 {
                PowerIndicator::Discharging(bucket)
            } else if st == 3 {
                PowerIndicator::Empty
            } else if st == 4 {
                PowerIndicator::FullyCharged
            } else {
                PowerIndicator::OtherState(st)
            }
        } else {
            PowerIndicator::Unknown
        }
    }
}

} // verus!
