//! A set of modifiers, one flag per modifier.

use vstd::prelude::*;

use crate::layout::Mod;

verus! {

/// A set of modifiers.
#[derive(Debug)]
pub struct ModSet {
    shift: bool,
    ctrl: bool,
    alt: bool,
    sup: bool,
}

impl View for ModSet {
    type V = Set<Mod>;

    closed spec fn view(&self) -> Set<Mod> {
        Set::new(|m: Mod| self.flag(m))
    }
}

impl ModSet {
    closed spec fn flag(&self, m: Mod) -> bool {
        match m {
            Mod::Shift => self.shift,
            Mod::Ctrl => self.ctrl,
            Mod::Alt => self.alt,
            Mod::Super => self.sup,
        }
    }

    /// The empty set.
    pub fn new() -> (r: Self)
        ensures
            r@ == Set::<Mod>::empty(),
    {
        let r = ModSet { shift: false, ctrl: false, alt: false, sup: false };
        assert(r@ =~= Set::<Mod>::empty());
        r
    }

    pub fn contains(&self, m: Mod) -> (r: bool)
        ensures
            r == self@.contains(m),
    {
        match m {
            Mod::Shift => self.shift,
            Mod::Ctrl => self.ctrl,
            Mod::Alt => self.alt,
            Mod::Super => self.sup,
        }
    }

    fn set_flag(&mut self, m: Mod, on: bool)
        ensures
            forall|n: Mod| #[trigger] final(self).flag(n) == if n == m { on } else { old(self).flag(n) },
    {
        match m {
            Mod::Shift => self.shift = on,
            Mod::Ctrl => self.ctrl = on,
            Mod::Alt => self.alt = on,
            Mod::Super => self.sup = on,
        }
    }

    /// Adds a modifier; true if it was not there.
    pub fn insert(&mut self, m: Mod) -> (r: bool)
        ensures
            final(self)@ == old(self)@.insert(m),
            r == !old(self)@.contains(m),
    {
        let was = self.contains(m);
        self.set_flag(m, true);
        assert(self@ =~= old(self)@.insert(m));
        !was
    }

    /// Removes a modifier; true if it was there.
    pub fn remove(&mut self, m: Mod) -> (r: bool)
        ensures
            final(self)@ == old(self)@.remove(m),
            r == old(self)@.contains(m),
    {
        let was = self.contains(m);
        self.set_flag(m, false);
        assert(self@ =~= old(self)@.remove(m));
        was
    }

    pub fn is_empty(&self) -> (r: bool)
        ensures
            r == (self@ == Set::<Mod>::empty()),
    {
        let r = !(self.shift || self.ctrl || self.alt || self.sup);
        if !r {
            if self.shift {
                assert(self@.contains(Mod::Shift));
            } else if self.ctrl {
                assert(self@.contains(Mod::Ctrl));
            } else if self.alt {
                assert(self@.contains(Mod::Alt));
            } else {
                assert(self@.contains(Mod::Super));
            }
        } else {
            assert(self@ =~= Set::<Mod>::empty());
        }
        r
    }

    pub fn clear(&mut self)
        ensures
            final(self)@ == Set::<Mod>::empty(),
    {
        self.shift = false;
        self.ctrl = false;
        self.alt = false;
        self.sup = false;
        assert(self@ =~= Set::<Mod>::empty());
    }
}

} // verus!
