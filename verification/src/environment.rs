//! Session environment: which clickpack is selected for which player set,
//! first-launch bookkeeping, and the remembered output device. Reading and
//! writing the on-disk record is the host's job; this type owns the
//! in-memory state and its update rules.

use vstd::prelude::*;

use crate::clickpack::LoadClickpackFor;

verus! {

/// Where a selected clickpack comes from: none chosen yet, one known by
/// name, or one at an explicit filesystem path (kept as text).
#[derive(Clone, PartialEq, Eq, Debug)]
pub enum ClickpackEnv {
    Unset,
    Name(String),
    Path(String),
}

impl ClickpackEnv {
    /// Duplicate the selection; the copy equals the original.
    pub fn duplicate(&self) -> (r: ClickpackEnv)
        ensures
            r == *self,
    {
        match self {
            ClickpackEnv::Unset => ClickpackEnv::Unset,
            ClickpackEnv::Name(s) => ClickpackEnv::Name(s.clone()),
            ClickpackEnv::Path(p) => ClickpackEnv::Path(p.clone()),
        }
    }
}

/// The version string recorded in a fresh environment.
pub open spec fn spec_default_version() -> Seq<char> {
    "0.1.42"@
}

/// The selection list with every entry for the player target `load_for`
/// dropped, the order of the rest kept.
pub open spec fn spec_keep_other_targets(
    s: Seq<(ClickpackEnv, LoadClickpackFor)>,
    load_for: LoadClickpackFor,
) -> Seq<(ClickpackEnv, LoadClickpackFor)>
    decreases s.len(),
{
    if s.len() == 0 {
        s
    } else {
        let prefix = spec_keep_other_targets(s.drop_last(), load_for);
        if s.last().1 != load_for {
            prefix.push(s.last())
        } else {
            prefix
        }
    }
}

/// In-memory environment record. `clickpack_ord` lists the active clickpack
/// selections in order, at most one per player target; a selection for all
/// players replaces the whole list.
#[derive(Clone, Debug)]
pub struct Env {
    pub version: String,
    pub clickpack_ord: Vec<(ClickpackEnv, LoadClickpackFor)>,
    pub is_first_launch: bool,
    pub selected_device: String,
}

impl Default for Env {
    fn default() -> (e: Self)
        ensures
            e.version@ == spec_default_version(),
            e.clickpack_ord@.len() == 1,
            e.clickpack_ord@[0] == (ClickpackEnv::Unset, LoadClickpackFor::All),
            e.is_first_launch,
            e.selected_device@.len() == 0,
    {
        let mut ord: Vec<(ClickpackEnv, LoadClickpackFor)> = Vec::new();
        ord.push((ClickpackEnv::Unset, LoadClickpackFor::All));
        Env {
            version: "0.1.42".to_owned(),
            clickpack_ord: ord,
            is_first_launch: true,
            selected_device: String::new(),
        }
    }
}

impl Env {
    /// A fresh environment: default version, no clickpack chosen, first
    /// launch pending, no device remembered.
    pub fn new() -> (e: Self)
        ensures
            e.version@ == spec_default_version(),
            e.clickpack_ord@.len() == 1,
            e.clickpack_ord@[0] == (ClickpackEnv::Unset, LoadClickpackFor::All),
            e.is_first_launch,
            e.selected_device@.len() == 0,
    {
        Self::default()
    }

    /// Record a clickpack selection. A selection for all players replaces
    /// the whole list; a selection for one player target drops any previous
    /// entry for that same target and appends the new one, keeping the
    /// order of the others.
    pub fn update(&mut self, clickpack_env: ClickpackEnv, load_for: LoadClickpackFor)
        ensures
            load_for == LoadClickpackFor::All ==> final(self).clickpack_ord@ =~= seq![
                (clickpack_env, load_for),
            ],
            load_for != LoadClickpackFor::All ==> final(self).clickpack_ord@
                =~= spec_keep_other_targets(old(self).clickpack_ord@, load_for).push(
                (clickpack_env, load_for),
            ),
            final(self).version@ == old(self).version@,
            final(self).is_first_launch == old(self).is_first_launch,
            final(self).selected_device@ == old(self).selected_device@,
    {
        match load_for {
            LoadClickpackFor::All => {
                let mut ord: Vec<(ClickpackEnv, LoadClickpackFor)> = Vec::new();
                ord.push((clickpack_env, load_for));
                self.clickpack_ord = ord;
            },
            _ => {
                let ghost orig = self.clickpack_ord@;
                let mut kept: Vec<(ClickpackEnv, LoadClickpackFor)> = Vec::new();
                let mut i: usize = 0;
                proof {
                    assert(orig.take(0) =~= Seq::<(ClickpackEnv, LoadClickpackFor)>::empty());
                }
                while i < self.clickpack_ord.len()
                    invariant
                        i <= self.clickpack_ord@.len(),
                        self.clickpack_ord@ == orig,
                        kept@ == spec_keep_other_targets(orig.take(i as int), load_for),
                    decreases self.clickpack_ord@.len() - i,
                {
                    let ghost kept_before = kept@;
                    let pair: &(ClickpackEnv, LoadClickpackFor) = &self.clickpack_ord[i];
                    proof {
                        assert(*pair == orig[i as int]);
                    }
                    if pair.1 != load_for {
                        kept.push((pair.0.duplicate(), pair.1));
                        proof {
                            assert((pair.0, pair.1) == orig[i as int]);
                            assert(kept@ == kept_before.push(orig[i as int]));
                        }
                    }
                    proof {
                        let taken = orig.take(i as int + 1);
                        assert(taken.drop_last() =~= orig.take(i as int));
                        assert(taken.drop_last() == orig.take(i as int));
                        assert(taken.last() == orig[i as int]);
                        assert(kept@ == spec_keep_other_targets(taken, load_for));
                    }
                    i = i + 1;
                }
                proof {
                    assert(orig.take(orig.len() as int) =~= orig);
                }
                kept.push((clickpack_env, load_for));
                self.clickpack_ord = kept;
            },
        }
    }

    /// The selection that currently leads the list, or the empty selection
    /// where the list is empty.
    pub fn get_clickpack_env(&self) -> (r: (ClickpackEnv, LoadClickpackFor))
        ensures
            self.clickpack_ord@.len() > 0 ==> r == self.clickpack_ord@[0],
            self.clickpack_ord@.len() == 0 ==> r == (
                ClickpackEnv::Unset,
                LoadClickpackFor::All,
            ),
    {
        if self.clickpack_ord.len() > 0 {
            let first: &(ClickpackEnv, LoadClickpackFor) = &self.clickpack_ord[0];
            (first.0.duplicate(), first.1)
        } else {
            (ClickpackEnv::Unset, LoadClickpackFor::All)
        }
    }

    /// Whether this is the first launch recorded for this environment.
    pub fn is_first_launch(&self) -> (b: bool)
        ensures
            b == self.is_first_launch,
    {
        self.is_first_launch
    }

    /// Record whether the first launch is still pending.
    pub fn set_first_launch(&mut self, first_launch: bool)
        ensures
            final(self).is_first_launch == first_launch,
            final(self).version@ == old(self).version@,
            final(self).clickpack_ord@ == old(self).clickpack_ord@,
            final(self).selected_device@ == old(self).selected_device@,
    {
        self.is_first_launch = first_launch;
    }

    /// The recorded version string.
    pub fn get_version(&self) -> (v: &str)
        ensures
            v@ == self.version@,
    {
        self.version.as_str()
    }

    /// Overwrite the recorded version string.
    pub fn set_version(&mut self, version: String)
        ensures
            final(self).version@ == version@,
            final(self).is_first_launch == old(self).is_first_launch,
            final(self).clickpack_ord@ == old(self).clickpack_ord@,
            final(self).selected_device@ == old(self).selected_device@,
    {
        self.version = version;
    }
}

} // verus!
