//! Small register-keyed maps.
//!
//! The register snapshots the unwinder produces and the move-substitution
//! table of the push heuristic key a handful of entries by register.  Both
//! are association lists whose mathematical view is a `Map`; a later entry
//! for the same register overrides an earlier one.

use crate::regs::Register;
use vstd::prelude::*;

verus! {

/// The map an association list denotes; later entries win.
pub open spec fn reg_map_of(s: Seq<(Register, u32)>) -> Map<Register, u32>
    decreases s.len(),
{
    if s.len() == 0 {
        Map::empty()
    } else {
        reg_map_of(s.drop_last()).insert(s.last().0, s.last().1)
    }
}

/// A register snapshot: values keyed by register.
#[derive(Clone, Debug)]
pub struct RegMap {
    entries: Vec<(Register, u32)>,
}

impl View for RegMap {
    type V = Map<Register, u32>;

    closed spec fn view(&self) -> Map<Register, u32> {
        reg_map_of(self.entries@)
    }
}

impl RegMap {
    /// An empty snapshot.
    pub fn new() -> (r: Self)
        ensures
            r@ == Map::<Register, u32>::empty(),
    {
        Self { entries: Vec::new() }
    }

    /// Binds `reg` to `val`, overriding any earlier binding.
    pub fn insert(&mut self, reg: Register, val: u32)
        ensures
            final(self)@ == old(self)@.insert(reg, val),
    {
        self.entries.push((reg, val));
        proof {
            assert(self.entries@.drop_last() =~= old(self).entries@);
        }
    }

    /// The value bound to `reg`, if any.
    pub fn get(&self, reg: Register) -> (r: Option<u32>)
        ensures
            match r {
                Some(v) => self@.contains_key(reg) && self@[reg] == v,
                None => !self@.contains_key(reg),
            },
    {
        let mut i: usize = self.entries.len();
        proof {
            assert(self.entries@.take(i as int) =~= self.entries@);
        }
        while i > 0
            invariant
                i <= self.entries@.len(),
                reg_map_of(self.entries@).contains_key(reg) == reg_map_of(
                    self.entries@.take(i as int),
                ).contains_key(reg),
                reg_map_of(self.entries@).contains_key(reg) ==> reg_map_of(self.entries@)[reg]
                    == reg_map_of(self.entries@.take(i as int))[reg],
            decreases i,
        {
            i = i - 1;
            proof {
                assert(self.entries@.take(i + 1).drop_last() =~= self.entries@.take(i as int));
                assert(self.entries@.take(i + 1).last() == self.entries@[i as int]);
            }
            if self.entries[i].0 == reg {
                return Some(self.entries[i].1);
            }
        }
        proof {
            assert(self.entries@.take(0) =~= Seq::<(Register, u32)>::empty());
        }
        None
    }
}

/// The map an association list of register pairs denotes; later entries
/// win.
pub open spec fn reg_reg_map_of(s: Seq<(Register, Register)>) -> Map<Register, Register>
    decreases s.len(),
{
    if s.len() == 0 {
        Map::empty()
    } else {
        reg_reg_map_of(s.drop_last()).insert(s.last().0, s.last().1)
    }
}

/// A register-to-register substitution table.
#[derive(Clone, Debug)]
pub struct RegRegMap {
    entries: Vec<(Register, Register)>,
}

impl View for RegRegMap {
    type V = Map<Register, Register>;

    closed spec fn view(&self) -> Map<Register, Register> {
        reg_reg_map_of(self.entries@)
    }
}

impl RegRegMap {
    /// An empty table.
    pub fn new() -> (r: Self)
        ensures
            r@ == Map::<Register, Register>::empty(),
    {
        Self { entries: Vec::new() }
    }

    /// Binds `reg` to `sub`, overriding any earlier binding.
    pub fn insert(&mut self, reg: Register, sub: Register)
        ensures
            final(self)@ == old(self)@.insert(reg, sub),
    {
        self.entries.push((reg, sub));
        proof {
            assert(self.entries@.drop_last() =~= old(self).entries@);
        }
    }

    /// The register substituted for `reg`, if any.
    pub fn get(&self, reg: Register) -> (r: Option<Register>)
        ensures
            match r {
                Some(v) => self@.contains_key(reg) && self@[reg] == v,
                None => !self@.contains_key(reg),
            },
    {
        let mut i: usize = self.entries.len();
        proof {
            assert(self.entries@.take(i as int) =~= self.entries@);
        }
        while i > 0
            invariant
                i <= self.entries@.len(),
                reg_reg_map_of(self.entries@).contains_key(reg) == reg_reg_map_of(
                    self.entries@.take(i as int),
                ).contains_key(reg),
                reg_reg_map_of(self.entries@).contains_key(reg) ==> reg_reg_map_of(
                    self.entries@,
                )[reg] == reg_reg_map_of(self.entries@.take(i as int))[reg],
            decreases i,
        {
            i = i - 1;
            proof {
                assert(self.entries@.take(i + 1).drop_last() =~= self.entries@.take(i as int));
                assert(self.entries@.take(i + 1).last() == self.entries@[i as int]);
            }
            if self.entries[i].0 == reg {
                return Some(self.entries[i].1);
            }
        }
        proof {
            assert(self.entries@.take(0) =~= Seq::<(Register, Register)>::empty());
        }
        None
    }
}

} // verus!
