//! The status flags that every arithmetic or logic operation computes anew.

use vstd::prelude::*;

verus! {

/// The four status flags.
#[derive(Clone, Copy, Debug, PartialEq, Eq, Structural)]
pub enum Flags {
    Zero,
    Carry,
    Sign,
    Overflow,
}

/// What a flags register holds: one truth value for each flag.
pub struct FlagsView {
    pub zero: bool,
    pub carry: bool,
    pub sign: bool,
    pub overflow: bool,
}

impl FlagsView {
    /// All four flags clear.
    pub open spec fn cleared() -> FlagsView {
        FlagsView { zero: false, carry: false, sign: false, overflow: false }
    }

    /// Whether `flag` is set.
    pub open spec fn has(self, flag: Flags) -> bool {
        match flag {
            Flags::Zero => self.zero,
            Flags::Carry => self.carry,
            Flags::Sign => self.sign,
            Flags::Overflow => self.overflow,
        }
    }

    /// These flags with `flag` given the value `on`.
    pub open spec fn with(self, flag: Flags, on: bool) -> FlagsView {
        match flag {
            Flags::Zero => FlagsView { zero: on, ..self },
            Flags::Carry => FlagsView { carry: on, ..self },
            Flags::Sign => FlagsView { sign: on, ..self },
            Flags::Overflow => FlagsView { overflow: on, ..self },
        }
    }

    /// `flag` alone if `on` holds, and nothing otherwise.
    pub open spec fn one(flag: Flags, on: bool) -> Seq<Flags> {
        if on {
            seq![flag]
        } else {
            Seq::empty()
        }
    }

    /// The flags that are set, in the order Zero, Carry, Sign, Overflow.
    pub open spec fn listed(self) -> Seq<Flags> {
        Self::one(Flags::Zero, self.zero) + Self::one(Flags::Carry, self.carry) + Self::one(
            Flags::Sign,
            self.sign,
        ) + Self::one(Flags::Overflow, self.overflow)
    }
}

/// A register of the four status flags.
#[derive(Clone, Copy, Debug)]
pub struct FlagsRegister {
    zero: bool,
    carry: bool,
    sign: bool,
    overflow: bool,
}

impl View for FlagsRegister {
    type V = FlagsView;

    closed spec fn view(&self) -> FlagsView {
        FlagsView { zero: self.zero, carry: self.carry, sign: self.sign, overflow: self.overflow }
    }
}

impl FlagsRegister {
    /// A register with every flag clear.
    pub fn new() -> (register: Self)
        ensures
            register@ == FlagsView::cleared(),
    {
        Self { zero: false, carry: false, sign: false, overflow: false }
    }

    /// Sets `flag` and leaves the other three as they were.
    pub fn set(&mut self, flag: Flags)
        ensures
            final(self)@ == old(self)@.with(flag, true),
    {
        match flag {
            Flags::Zero => {
                self.zero = true;
            },
            Flags::Carry => {
                self.carry = true;
            },
            Flags::Sign => {
                self.sign = true;
            },
            Flags::Overflow => {
                self.overflow = true;
            },
        }
    }

    /// Clears `flag` and leaves the other three as they were.
    pub fn unset(&mut self, flag: Flags)
        ensures
            final(self)@ == old(self)@.with(flag, false),
    {
        match flag {
            Flags::Zero => {
                self.zero = false;
            },
            Flags::Carry => {
                self.carry = false;
            },
            Flags::Sign => {
                self.sign = false;
            },
            Flags::Overflow => {
                self.overflow = false;
            },
        }
    }

    /// Whether `flag` is set.
    pub fn is_set(&self, flag: Flags) -> (on: bool)
        ensures
            on == self@.has(flag),
    {
        match flag {
            Flags::Zero => self.zero,
            Flags::Carry => self.carry,
            Flags::Sign => self.sign,
            Flags::Overflow => self.overflow,
        }
    }

    /// The flags that are set, in the order Zero, Carry, Sign, Overflow.
    pub fn get_flags(&self) -> (result: Vec<Flags>)
        ensures
            result@ == self@.listed(),
    {
        let mut result: Vec<Flags> = Vec::new();
        if self.zero {
            result.push(Flags::Zero);
        }
        if self.carry {
            result.push(Flags::Carry);
        }
        if self.sign {
            result.push(Flags::Sign);
        }
        if self.overflow {
            result.push(Flags::Overflow);
        }
        result
    }

    /// The list of the set flags holds a flag exactly when it is set, and
    /// holds none twice.
    pub proof fn listed_is_exact(flags: FlagsView, flag: Flags)
        ensures
            flags.listed().contains(flag) <==> flags.has(flag),
            flags.listed().no_duplicates(),
    {
        let listed = flags.listed();
        let zero = FlagsView::one(Flags::Zero, flags.zero);
        let carry = FlagsView::one(Flags::Carry, flags.carry);
        let sign = FlagsView::one(Flags::Sign, flags.sign);
        if flags.has(flag) {
            let place = match flag {
                Flags::Zero => 0,
                Flags::Carry => zero.len(),
                Flags::Sign => zero.len() + carry.len(),
                Flags::Overflow => zero.len() + carry.len() + sign.len(),
            };
            assert(listed[place as int] == flag);
        }
    }

    /// A flag that was set is set, one that was cleared is clear, and neither
    /// touches another flag.
    pub proof fn set_then_read(before: FlagsView, flag: Flags, other: Flags, on: bool)
        ensures
            before.with(flag, on).has(flag) == on,
            other != flag ==> before.with(flag, on).has(other) == before.has(other),
    {
    }
}

} // verus!
