use vstd::prelude::*;

verus! {

/// The entry address of a resolved foreign callable: never zero.
#[derive(Clone, Copy, Debug, PartialEq, Eq, Structural)]
pub struct Address {
    value: usize,
}

impl Address {
    #[verifier::type_invariant]
    spec fn non_null(self) -> bool {
        self.value != 0
    }

    /// The machine address as a number.
    pub closed spec fn addr(self) -> usize {
        self.value
    }

    /// The address that a machine value denotes: none for the null value.
    pub closed spec fn from_addr(value: usize) -> Option<Address> {
        if value == 0 {
            None
        } else {
            Some(Address { value })
        }
    }

    /// The null value denotes no address.
    pub proof fn lemma_null_is_none()
        ensures
            Address::from_addr(0) is None,
    {
    }

    /// Wraps a machine address; zero is the null address and yields `None`.
    pub fn new(value: usize) -> (r: Option<Address>)
        ensures
            r == Address::from_addr(value),
            r is Some <==> value != 0,
            r matches Some(a) ==> a.addr() == value,
    {
        if value == 0 {
            None
        } else {
            Some(Address { value })
        }
    }

    /// The machine address as a number; never zero.
    pub fn get(&self) -> (r: usize)
        ensures
            r == self.addr(),
            r != 0,
            Address::from_addr(r) == Some(*self),
    {
        proof {
            use_type_invariant(self);
        }
        self.value
    }

}

} // verus!
