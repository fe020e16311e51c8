//! One authentication input of the chain.

use vstd::prelude::*;

verus! {

/// An authenticator as chosen for a factor.
pub struct FidoItem {
    /// Name under which the device is shown and prompted for.
    pub device_name: String,
}

/// One factor of the chain. The order of the factors is part of the key.
pub enum Factor {
    /// A memorized password.
    Password(String),
    /// A hardware authenticator.
    Fido(FidoItem),
}

/// For each factor, whether it is a hardware authenticator.
pub open spec fn kinds_of(factors: Seq<Factor>) -> Seq<bool> {
    Seq::new(factors.len(), |i: int| factors[i] is Fido)
}

impl Factor {
    /// Whether this factor is a hardware authenticator.
    pub fn is_fido(&self) -> (fido: bool)
        ensures
            fido == (self is Fido),
    {
        match self {
            Factor::Password(_) => false,
            Factor::Fido(_) => true,
        }
    }
}

} // verus!
