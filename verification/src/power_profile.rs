//! Power-profile widget state: a single string property ("power-saver",
//! "balanced", "performance", or anything else) delivered by a
//! property-change subscription on a system bus.

use vstd::prelude::*;

verus! {

use crate::text::str_eq;

/// Snapshot of the active power profile.
#[derive(Clone)]
pub struct PowerProfile {
    pub error_message: Option<String>,
    pub active_profile: Option<String>,
}

/// The profiles the widget knows an icon for, and a fall-through for any
/// other name (rendered as the raw profile text).
#[derive(PartialEq, Eq, Structural, Clone, Copy, Debug)]
pub enum ProfileKind {
    PowerSaver,
    Balanced,
    Performance,
    Other,
}

/// What the widget should draw for the current snapshot.
#[derive(PartialEq, Eq, Structural, Clone, Copy, Debug)]
pub enum ProfileIndicator {
    Error,
    Unknown,
    Profile(ProfileKind),
}

/// Classification of a profile name.
pub open spec fn spec_profile_kind(p: Seq<char>) -> ProfileKind {
    if p == "power-saver"@ {
        ProfileKind::PowerSaver
    } else if p == "balanced"@ {
        ProfileKind::Balanced
    } else if p == "performance"@ {
        ProfileKind::Performance
    } else {
        ProfileKind::Other
    }
}

/// Classify a profile name.
pub fn profile_kind(p: &str) -> (r: ProfileKind)
    ensures
        r == spec_profile_kind(p@),
{
    if str_eq(p, "power-saver") {
        ProfileKind::PowerSaver
    } else if str_eq(p, "balanced") {
        ProfileKind::Balanced
    } else if str_eq(p, "performance") {
        ProfileKind::Performance
    } else {
        ProfileKind::Other
    }
}

/// What [`PowerProfile::indicator`] returns, as a function of the snapshot.
pub open spec fn spec_profile_indicator(p: PowerProfile) -> ProfileIndicator {
    if p.error_message is Some {
        ProfileIndicator::Error
    } else if p.active_profile is Some {
        ProfileIndicator::Profile(spec_profile_kind(p.active_profile->0@))
    } else {
        ProfileIndicator::Unknown
    }
}

impl PowerProfile {
    /// Fresh snapshot: nothing known yet.
    pub fn new() -> (r: PowerProfile)
        ensures
            r.error_message is None,
            r.active_profile is None,
    {
        PowerProfile { error_message: None, active_profile: None }
    }

    /// A terminal setup failure: the widget renders the message from now on.
    pub fn set_error(&mut self, e: String)
        ensures
            final(self).error_message == Some(e),
            final(self).active_profile == old(self).active_profile,
    {
        self.error_message = Some(e);
    }

    /// The active-profile property changed. A fetch failure after the
    /// change notification never reaches this point: the previous value is
    /// left in place by not calling it at all.
    pub fn set_active_profile(&mut self, p: String)
        ensures
            final(self).active_profile == Some(p),
            final(self).error_message == old(self).error_message,
    {
        self.active_profile = Some(p);
    }

    /// Decide what the widget draws from the current snapshot.
    pub fn indicator(&self) -> (r: ProfileIndicator)
        ensures
            r == spec_profile_indicator(*self),
    {
        if self.error_message.is_some() {
            ProfileIndicator::Error
        } else {
            match &self.active_profile {
                Some(p) => ProfileIndicator::Profile(profile_kind(p.as_str())),
                None => ProfileIndicator::Unknown,
            }
        }
    }
}

} // verus!
