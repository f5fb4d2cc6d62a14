//! The power menu's options: a fixed list, each with a stable id, a
//! display name and an icon glyph.

use vstd::prelude::*;

verus! {

/// One choice in the power menu.
#[derive(PartialEq, Eq, Structural, Clone, Copy, Debug)]
pub enum PowerMenuOption {
    Lock,
    Suspend,
    Hibernate,
    Reboot,
    Shutdown,
}

impl PowerMenuOption {
    /// Every option, in menu order.
    pub fn all() -> (r: Vec<PowerMenuOption>)
        ensures
            r@ == seq![
                PowerMenuOption::Lock,
                PowerMenuOption::Suspend,
                PowerMenuOption::Hibernate,
                PowerMenuOption::Reboot,
                PowerMenuOption::Shutdown,
            ],
    {
        let r = vec![
            PowerMenuOption::Lock,
            PowerMenuOption::Suspend,
            PowerMenuOption::Hibernate,
            PowerMenuOption::Reboot,
            PowerMenuOption::Shutdown,
        ];
        proof {
            assert(r@ =~= seq![
                PowerMenuOption::Lock,
                PowerMenuOption::Suspend,
                PowerMenuOption::Hibernate,
                PowerMenuOption::Reboot,
                PowerMenuOption::Shutdown,
            ]);
        }
        r
    }

    /// The option's stable identifier (used for element ids).
    pub fn id(&self) -> (r: &'static str)
        ensures
            self is Lock ==> r@ == "lock"@,
            self is Suspend ==> r@ == "suspend"@,
            self is Hibernate ==> r@ == "hibernate"@,
            self is Reboot ==> r@ == "reboot"@,
            self is Shutdown ==> r@ == "shutdown"@,
    {
        match self {
            PowerMenuOption::Lock => "lock",
            PowerMenuOption::Suspend => "suspend",
            PowerMenuOption::Hibernate => "hibernate",
            PowerMenuOption::Reboot => "reboot",
            PowerMenuOption::Shutdown => "shutdown",
        }
    }

    /// The option's display name.
    pub fn name(&self) -> (r: &'static str)
        ensures
            self is Lock ==> r@ == "Lock"@,
            self is Suspend ==> r@ == "Suspend"@,
            self is Hibernate ==> r@ == "Hibernate"@,
            self is Reboot ==> r@ == "Reboot"@,
            self is Shutdown ==> r@ == "Shutdown"@,
    {
        match self {
            PowerMenuOption::Lock => "Lock",
            PowerMenuOption::Suspend => "Suspend",
            PowerMenuOption::Hibernate => "Hibernate",
            PowerMenuOption::Reboot => "Reboot",
            PowerMenuOption::Shutdown => "Shutdown",
        }
    }

    /// The option's icon glyph.
    pub fn icon(&self) -> (r: &'static str)
        ensures
            self is Lock ==> r@ == "󰌿"@,
            self is Suspend ==> r@ == "󰏥"@,
            self is Hibernate ==> r@ == "󰤄"@,
            self is Reboot ==> r@ == "󰜉"@,
            self is Shutdown ==> r@ == "󰐥"@,
    {
        match self {
            PowerMenuOption::Lock => "󰌿",
            PowerMenuOption::Suspend => "󰏥",
            PowerMenuOption::Hibernate => "󰤄",
            PowerMenuOption::Reboot => "󰜉",
            PowerMenuOption::Shutdown => "󰐥",
        }
    }
}

} // verus!
