//! The angular momentum of an orbital and its numeric code.
use vstd::prelude::*;
use vstd::std_specs::convert::{FromSpecImpl, TryFromSpecImpl};

verus! {

/// Angular momentum quantum number `l` of an orbital.
#[derive(Debug, Clone, Copy, PartialEq, Eq, PartialOrd, Ord, Hash, Structural)]
pub enum AngularMomentum {
    /// l = 0
    S,
    /// l = 1
    P,
    /// l = 2
    D,
    /// l = 3
    F,
}

impl AngularMomentum {
    /// The angular momentum that a code of the weight file stands for: 0 to 3
    /// for S, P, D, F, and an error that keeps the code for any other.
    pub open spec fn from_code(value: u32) -> Result<AngularMomentum, AngularMomentumConvertError> {
        if value == 0 {
            Ok(AngularMomentum::S)
        } else if value == 1 {
            Ok(AngularMomentum::P)
        } else if value == 2 {
            Ok(AngularMomentum::D)
        } else if value == 3 {
            Ok(AngularMomentum::F)
        } else {
            Err(AngularMomentumConvertError(value))
        }
    }

    /// The code under which the weight file writes this angular momentum.
    pub open spec fn code(self) -> u32 {
        match self {
            AngularMomentum::S => 0,
            AngularMomentum::P => 1,
            AngularMomentum::D => 2,
            AngularMomentum::F => 3,
        }
    }
}

/// A `u32` above 3 was given as an angular momentum; it is kept in the error.
#[derive(Debug, Clone, Copy, PartialEq, Eq, Structural)]
pub struct AngularMomentumConvertError(pub u32);

impl AngularMomentumConvertError {
    /// The rejected value.
    pub fn value(&self) -> (v: u32)
        ensures
            v == self.0,
    {
        self.0
    }
}

impl TryFrom<u32> for AngularMomentum {
    type Error = AngularMomentumConvertError;

    fn try_from(value: u32) -> (r: Result<Self, Self::Error>) {
        match value {
            0 => Ok(AngularMomentum::S),
            1 => Ok(AngularMomentum::P),
            2 => Ok(AngularMomentum::D),
            3 => Ok(AngularMomentum::F),
            other => Err(AngularMomentumConvertError(other)),
        }
    }
}

impl TryFromSpecImpl<u32> for AngularMomentum {
    open spec fn obeys_try_from_spec() -> bool {
        true
    }

    open spec fn try_from_spec(value: u32) -> Result<Self, Self::Error> {
        AngularMomentum::from_code(value)
    }
}

impl From<AngularMomentum> for u32 {
    fn from(value: AngularMomentum) -> (r: u32) {
        match value {
            AngularMomentum::S => 0,
            AngularMomentum::P => 1,
            AngularMomentum::D => 2,
            AngularMomentum::F => 3,
        }
    }
}

impl FromSpecImpl<AngularMomentum> for u32 {
    open spec fn obeys_from_spec() -> bool {
        true
    }

    open spec fn from_spec(value: AngularMomentum) -> u32 {
        value.code()
    }
}

/// Converting an angular momentum to its code and back gives it again, and a
/// code converts to an angular momentum exactly when it is at most 3.
pub proof fn lemma_angular_momentum_code_round_trip(am: AngularMomentum, code: u32)
    ensures
        AngularMomentum::from_code(am.code()) == Ok::<AngularMomentum, AngularMomentumConvertError>(am),
        AngularMomentum::from_code(code) is Ok <==> code <= 3,
        AngularMomentum::from_code(code) matches Ok(a) ==> a.code() == code,
        AngularMomentum::from_code(code) matches Err(e) ==> e.0 == code,
{
}

} // verus!
