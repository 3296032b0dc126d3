//! Spin index, spin count and the spin-polarization flag.
use vstd::prelude::*;
use vstd::std_specs::convert::TryFromSpecImpl;

verus! {

/// Index of a spin component as the files write it: 1 or 2.
#[derive(Debug, Clone, Copy, PartialEq, Eq, PartialOrd, Ord, Structural)]
pub enum SpinIndex {
    /// The first (or only) component.
    One,
    /// The second component, present only in spin-polarized data.
    Two,
}

/// A `u32` other than 1 or 2 was given as a spin index.
#[derive(Debug, Clone, Copy, PartialEq, Eq, Structural)]
pub struct SpinIndexConvertError;

impl SpinIndexConvertError {
    /// The message of this error.
    pub fn message(&self) -> (r: String)
        ensures
            r@ == "Try to convert to `SpinIndex` from value out of 1 and 2."@,
    {
        "Try to convert to `SpinIndex` from value out of 1 and 2.".to_string()
    }
}

impl TryFrom<u32> for SpinIndex {
    type Error = SpinIndexConvertError;

    fn try_from(value: u32) -> (r: Result<Self, Self::Error>) {
        match value {
            1 => Ok(SpinIndex::One),
            2 => Ok(SpinIndex::Two),
            _ => Err(SpinIndexConvertError),
        }
    }
}

impl TryFromSpecImpl<u32> for SpinIndex {
    open spec fn obeys_try_from_spec() -> bool {
        true
    }

    open spec fn try_from_spec(value: u32) -> Result<Self, Self::Error> {
        SpinIndex::from_code(value)
    }
}

impl SpinIndex {
    /// The spin index that a number of the weight file stands for: 1 or 2, and
    /// an error for any other.
    pub open spec fn from_code(value: u32) -> Result<SpinIndex, SpinIndexConvertError> {
        if value == 1 {
            Ok(SpinIndex::One)
        } else if value == 2 {
            Ok(SpinIndex::Two)
        } else {
            Err(SpinIndexConvertError)
        }
    }
}

/// Whether a calculation was spin-polarized.
#[derive(Debug, Clone, Copy, PartialEq, Eq, PartialOrd, Ord, Structural)]
pub enum SpinPolarized {
    /// Two spin channels.
    True,
    /// One spin channel.
    False,
}

impl SpinPolarized {
    /// Number of spin channels that data of this kind carries.
    pub open spec fn channels(self) -> nat {
        match self {
            SpinPolarized::True => 2,
            SpinPolarized::False => 1,
        }
    }
}

/// Number of spin components of a calculation.
#[derive(Debug, Clone, Copy, PartialEq, Eq, PartialOrd, Ord, Structural)]
pub enum NumSpins {
    /// One component: not spin-polarized.
    One,
    /// Two components: spin-polarized.
    Two,
}

impl NumSpins {
    /// The number of spins that a number of the weight file stands for: 1 or
    /// 2, and an error for any other.
    pub open spec fn from_code(value: u32) -> Result<NumSpins, NumSpinsConvertError> {
        if value == 1 {
            Ok(NumSpins::One)
        } else if value == 2 {
            Ok(NumSpins::Two)
        } else {
            Err(NumSpinsConvertError)
        }
    }

    /// The count as a number.
    pub open spec fn count(self) -> nat {
        match self {
            NumSpins::One => 1,
            NumSpins::Two => 2,
        }
    }

    /// Returns the spin count, either 1 or 2.
    pub fn spin_count(&self) -> (n: usize)
        ensures
            n == self.count(),
    {
        match self {
            NumSpins::One => 1,
            NumSpins::Two => 2,
        }
    }
}

/// A `u32` other than 1 or 2 was given as a number of spins.
#[derive(Debug, Clone, Copy, PartialEq, Eq, Structural)]
pub struct NumSpinsConvertError;

impl NumSpinsConvertError {
    /// The message of this error.
    pub fn message(&self) -> (r: String)
        ensures
            r@ == "Try to convert to `NumSpins` from value out of 1 and 2."@,
    {
        "Try to convert to `NumSpins` from value out of 1 and 2.".to_string()
    }
}

impl TryFrom<u32> for NumSpins {
    type Error = NumSpinsConvertError;

    fn try_from(value: u32) -> (r: Result<Self, Self::Error>) {
        match value {
            1 => Ok(NumSpins::One),
            2 => Ok(NumSpins::Two),
            _ => Err(NumSpinsConvertError),
        }
    }
}

impl TryFromSpecImpl<u32> for NumSpins {
    open spec fn obeys_try_from_spec() -> bool {
        true
    }

    open spec fn try_from_spec(value: u32) -> Result<Self, Self::Error> {
        NumSpins::from_code(value)
    }
}

} // verus!
