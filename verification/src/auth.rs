use vstd::prelude::*;
use crate::Principal;

verus! {

/// The outcome of the host's authorization oracle for one invocation: the
/// principals that cryptographically authorized the current call.
///
/// The oracle itself (signature checking, call-context binding) belongs to
/// the host environment; the core only consumes its verdict. A value of this
/// type is built per call by whoever embeds the core and is read-only inside
/// it.
pub struct Authorizations {
    granted: Vec<Principal>,
}

impl View for Authorizations {
    type V = Seq<Principal>;

    closed spec fn view(&self) -> Seq<Principal> {
        self.granted@
    }
}

impl Authorizations {
    /// An invocation that nobody authorized.
    pub fn new() -> (r: Authorizations)
        ensures
            r@ == Seq::<Principal>::empty(),
    {
        Authorizations { granted: Vec::new() }
    }

    /// Records that `p` authorized the current call.
    pub fn grant(&mut self, p: Principal)
        ensures
            final(self)@ == old(self)@.push(p),
    {
        self.granted.push(p);
    }

    /// Whether `p` authorized the current call.
    pub fn allows(&self, p: Principal) -> (r: bool)
        ensures
            r == self@.contains(p),
    {
        let mut i: usize = 0;
        while i < self.granted.len()
            invariant
                i <= self.granted.len(),
                forall|j: int| 0 <= j < i ==> self.granted@[j] != p,
            decreases self.granted.len() - i,
        {
            if self.granted[i] == p {
                return true;
            }
            i = i + 1;
        }
        false
    }
}

} // verus!

