//! Core vocabulary of the engine: buttons, click categories, classification
//! thresholds and the per-category sample bank.

use vstd::prelude::*;

verus! {

/// A logical input button.
#[derive(Clone, Copy, PartialEq, Eq, Structural, Debug)]
pub enum Button {
    Jump,
    Left,
    Right,
}

/// The closed set of click categories. `Silent` is the sentinel for "no
/// category assigned / suppressed"; a genuine button edge never classifies
/// to it.
#[derive(Clone, Copy, PartialEq, Eq, Structural, Debug)]
pub enum ClickType {
    HardClick,
    HardRelease,
    SoftClick,
    SoftRelease,
    Click,
    Release,
    MicroClick,
    MicroRelease,
    Silent,
}

impl Default for ClickType {
    fn default() -> (c: Self)
        ensures
            c == ClickType::Silent,
    {
        ClickType::Silent
    }
}

/// One observed input transition: which button, which direction, and the
/// session-relative time in microseconds at which it happened.
#[derive(Clone, Copy, PartialEq, Eq, Structural, Debug)]
pub struct ButtonEdge {
    pub button: Button,
    pub pressed: bool,
    pub timestamp: u64,
}

/// Ascending classification thresholds, in microseconds of gap since the
/// previous edge of the same button. A gap below `micro` is a micro click,
/// a gap below `soft` a soft click, a gap below `hard` a plain click, and a
/// gap of `hard` or more a hard click. Each threshold is an exclusive upper
/// bound on the faster category, so a gap exactly on a boundary falls into
/// the slower, more emphatic bucket.
#[derive(Clone, Copy, PartialEq, Eq, Structural, Debug)]
pub struct Timings {
    pub micro: u64,
    pub soft: u64,
    pub hard: u64,
}

impl Timings {
    /// The thresholds are ordered ascending.
    pub open spec fn wf(self) -> bool {
        self.micro <= self.soft <= self.hard
    }
}

/// The category selected for a gap of `delta` microseconds, for a press
/// (`pushed == true`) or a release.
pub open spec fn spec_bucket(delta: u64, timings: Timings, pushed: bool) -> ClickType {
    if delta < timings.micro {
        if pushed {
            ClickType::MicroClick
        } else {
            ClickType::MicroRelease
        }
    } else if delta < timings.soft {
        if pushed {
            ClickType::SoftClick
        } else {
            ClickType::SoftRelease
        }
    } else if delta < timings.hard {
        if pushed {
            ClickType::Click
        } else {
            ClickType::Release
        }
    } else {
        if pushed {
            ClickType::HardClick
        } else {
            ClickType::HardRelease
        }
    }
}

/// Bucket a gap against the ordered thresholds. The result is never the
/// `Silent` sentinel: every genuine edge gets a category.
pub fn bucket_delta(delta: u64, timings: &Timings, pushed: bool) -> (c: ClickType)
    ensures
        c == spec_bucket(delta, *timings, pushed),
        c != ClickType::Silent,
{
    if delta < timings.micro {
        if pushed {
            ClickType::MicroClick
        } else {
            ClickType::MicroRelease
        }
    } else if delta < timings.soft {
        if pushed {
            ClickType::SoftClick
        } else {
            ClickType::SoftRelease
        }
    } else if delta < timings.hard {
        if pushed {
            ClickType::Click
        } else {
            ClickType::Release
        }
    } else {
        if pushed {
            ClickType::HardClick
        } else {
            ClickType::HardRelease
        }
    }
}

/// Which player set a loaded clickpack serves.
#[derive(Clone, Copy, PartialEq, Eq, Structural, Debug)]
pub enum LoadClickpackFor {
    All,
    Player1,
    Player2,
}

impl Default for LoadClickpackFor {
    fn default() -> (l: Self)
        ensures
            l == LoadClickpackFor::All,
    {
        LoadClickpackFor::All
    }
}

/// A partially populated sample bank: for each category, zero or one handle
/// into the loaded sample set. A missing entry is expected and silent, not
/// an error.
#[derive(Clone, PartialEq, Eq, Structural, Debug)]
pub struct SampleBank {
    pub hardclick: Option<u64>,
    pub hardrelease: Option<u64>,
    pub softclick: Option<u64>,
    pub softrelease: Option<u64>,
    pub click: Option<u64>,
    pub release: Option<u64>,
    pub microclick: Option<u64>,
    pub microrelease: Option<u64>,
}

impl Default for SampleBank {
    fn default() -> (b: Self)
        ensures
            b == SampleBank::spec_empty(),
    {
        SampleBank {
            hardclick: None,
            hardrelease: None,
            softclick: None,
            softrelease: None,
            click: None,
            release: None,
            microclick: None,
            microrelease: None,
        }
    }
}

impl SampleBank {
    /// The bank with no sample loaded for any category.
    pub open spec fn spec_empty() -> SampleBank {
        SampleBank {
            hardclick: None,
            hardrelease: None,
            softclick: None,
            softrelease: None,
            click: None,
            release: None,
            microclick: None,
            microrelease: None,
        }
    }

    /// The sample stored for a category; the `Silent` sentinel category has no
    /// sample by definition.
    pub open spec fn spec_sample_for(self, typ: ClickType) -> Option<u64> {
        match typ {
            ClickType::HardClick => self.hardclick,
            ClickType::HardRelease => self.hardrelease,
            ClickType::SoftClick => self.softclick,
            ClickType::SoftRelease => self.softrelease,
            ClickType::Click => self.click,
            ClickType::Release => self.release,
            ClickType::MicroClick => self.microclick,
            ClickType::MicroRelease => self.microrelease,
            ClickType::Silent => None,
        }
    }

    /// Look up the sample for a category.
    pub fn sample_for(&self, typ: ClickType) -> (s: Option<u64>)
        ensures
            s == self.spec_sample_for(typ),
    {
        match typ {
            ClickType::HardClick => self.hardclick,
            ClickType::HardRelease => self.hardrelease,
            ClickType::SoftClick => self.softclick,
            ClickType::SoftRelease => self.softrelease,
            ClickType::Click => self.click,
            ClickType::Release => self.release,
            ClickType::MicroClick => self.microclick,
            ClickType::MicroRelease => self.microrelease,
            ClickType::Silent => None,
        }
    }
}

} // verus!
