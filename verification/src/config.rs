//! Configuration values the engine reads: the per-category ignore policy
//! and a few small user-interface settings that belong to the same
//! configuration record.

use vstd::prelude::*;

use crate::clickpack::ClickType;

verus! {

/// Default used where a flag is on unless configured otherwise.
pub fn true_value() -> (b: bool)
    ensures
        b,
{
    true
}

/// Default audio stream buffer size, in frames.
pub fn default_buffer_size() -> (n: u32)
    ensures
        n == 512,
{
    512
}

/// Which page of the control surface is open.
#[derive(Clone, Copy, PartialEq, Eq, Structural, Debug)]
pub enum Stage {
    Clickpack,
    Audio,
    Options,
}

impl Default for Stage {
    fn default() -> (s: Self)
        ensures
            s == Stage::Clickpack,
    {
        Stage::Clickpack
    }
}

/// Per-category mute switches: eight independent toggles, one for each
/// click category. The `Silent` sentinel is always treated as ignored.
#[derive(Clone, Copy, PartialEq, Eq, Structural, Debug)]
pub struct IgnoredClickTypes {
    pub hardclicks: bool,
    pub hardreleases: bool,
    pub softclicks: bool,
    pub softreleases: bool,
    pub clicks: bool,
    pub releases: bool,
    pub microclicks: bool,
    pub microreleases: bool,
}

impl Default for IgnoredClickTypes {
    fn default() -> (p: Self)
        ensures
            p == IgnoredClickTypes::spec_none_ignored(),
    {
        IgnoredClickTypes {
            hardclicks: false,
            hardreleases: false,
            softclicks: false,
            softreleases: false,
            clicks: false,
            releases: false,
            microclicks: false,
            microreleases: false,
        }
    }
}

impl IgnoredClickTypes {
    /// The policy with every toggle off.
    pub open spec fn spec_none_ignored() -> IgnoredClickTypes {
        IgnoredClickTypes {
            hardclicks: false,
            hardreleases: false,
            softclicks: false,
            softreleases: false,
            clicks: false,
            releases: false,
            microclicks: false,
            microreleases: false,
        }
    }

    /// Whether the policy mutes `typ`; the `Silent` sentinel is always
    /// muted.
    pub open spec fn spec_is_ignored(self, typ: ClickType) -> bool {
        match typ {
            ClickType::HardClick => self.hardclicks,
            ClickType::HardRelease => self.hardreleases,
            ClickType::SoftClick => self.softclicks,
            ClickType::SoftRelease => self.softreleases,
            ClickType::Click => self.clicks,
            ClickType::Release => self.releases,
            ClickType::MicroClick => self.microclicks,
            ClickType::MicroRelease => self.microreleases,
            ClickType::Silent => true,
        }
    }

    /// Whether the policy mutes `typ`.
    pub fn is_ignored(&self, typ: ClickType) -> (b: bool)
        ensures
            b == self.spec_is_ignored(typ),
    {
        match typ {
            ClickType::HardClick => self.hardclicks,
            ClickType::HardRelease => self.hardreleases,
            ClickType::SoftClick => self.softclicks,
            ClickType::SoftRelease => self.softreleases,
            ClickType::Click => self.clicks,
            ClickType::Release => self.releases,
            ClickType::MicroClick => self.microclicks,
            ClickType::MicroRelease => self.microreleases,
            ClickType::Silent => true,
        }
    }

    /// Whether any toggle is on.
    pub open spec fn spec_any_ignored(self) -> bool {
        ||| self.hardclicks
        ||| self.hardreleases
        ||| self.softclicks
        ||| self.softreleases
        ||| self.clicks
        ||| self.releases
        ||| self.microclicks
        ||| self.microreleases
    }

    /// Whether any toggle is on.
    pub fn any_ignored(&self) -> (b: bool)
        ensures
            b == self.spec_any_ignored(),
    {
        self.hardclicks || self.hardreleases || self.softclicks || self.softreleases
            || self.clicks || self.releases || self.microclicks || self.microreleases
    }
}

/// When toast notifications are drawn.
#[derive(Clone, Copy, PartialEq, Eq, Structural, Debug)]
pub enum ToastVisibility {
    AlwaysVisible,
    VisibleWhenOpen,
    NeverVisible,
}

impl Default for ToastVisibility {
    fn default() -> (v: Self)
        ensures
            v == ToastVisibility::AlwaysVisible,
    {
        ToastVisibility::AlwaysVisible
    }
}

impl ToastVisibility {
    /// The label shown for this visibility choice.
    pub fn text(self) -> (s: &'static str)
        ensures
            self == ToastVisibility::AlwaysVisible ==> s@ == "Always Visible"@,
            self == ToastVisibility::VisibleWhenOpen ==> s@ == "Visible in Menu"@,
            self == ToastVisibility::NeverVisible ==> s@ == "Never Visible"@,
    {
        match self {
            ToastVisibility::AlwaysVisible => "Always Visible",
            ToastVisibility::VisibleWhenOpen => "Visible in Menu",
            ToastVisibility::NeverVisible => "Never Visible",
        }
    }
}

} // verus!
