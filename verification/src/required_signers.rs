//! The accounts that have to sign a project or a report, each in a role.

use vstd::prelude::*;
use crate::primitives::AccountId;
use crate::account::RoleMask;

verus! {

/// An account together with the role in which it has to sign.
pub type RequiredSigner = (AccountId, RoleMask);

/// The signers that one project or one annual report asks for. No pair is held
/// twice.
#[derive(Debug)]
pub struct RequiredSigners {
    signers: Vec<RequiredSigner>,
}

impl View for RequiredSigners {
    type V = Set<RequiredSigner>;

    closed spec fn view(&self) -> Set<RequiredSigner> {
        self.signers@.to_set()
    }
}

impl RequiredSigners {
    #[verifier::type_invariant]
    spec fn no_pair_twice(&self) -> bool {
        self.signers@.no_duplicates()
    }

    /// No signers.
    pub fn new() -> (signers: Self)
        ensures
            signers@ == Set::<RequiredSigner>::empty(),
    {
        let signers = RequiredSigners { signers: Vec::new() };
        assert(signers.signers@.to_set() =~= Set::<RequiredSigner>::empty());
        signers
    }

    /// Where `signer` stands in the list, if it does.
    fn position(&self, signer: RequiredSigner) -> (found: Option<usize>)
        ensures
            match found {
                Some(i) => i < self.signers@.len() && self.signers@[i as int] == signer,
                None => !self.signers@.contains(signer),
            },
    {
        let mut i: usize = 0;
        while i < self.signers.len()
            invariant
                i <= self.signers@.len(),
                forall|j: int| 0 <= j < i ==> self.signers@[j] != signer,
            decreases self.signers@.len() - i,
        {
            if self.signers[i].0 == signer.0 && self.signers[i].1 == signer.1 {
                return Some(i);
            }
            i += 1;
        }
        None
    }

    /// Whether `signer` is among the signers.
    pub fn contains(&self, signer: RequiredSigner) -> (found: bool)
        ensures
            found == self@.contains(signer),
    {
        self.position(signer).is_some()
    }

    /// The signers as a list, each once.
    pub fn to_vec(&self) -> (signers: Vec<RequiredSigner>)
        ensures
            signers@.no_duplicates(),
            signers@.to_set() == self@,
    {
        proof {
            use_type_invariant(self);
        }
        let mut signers: Vec<RequiredSigner> = Vec::new();
        let mut i: usize = 0;
        while i < self.signers.len()
            invariant
                i <= self.signers@.len(),
                signers@ == self.signers@.subrange(0, i as int),
            decreases self.signers@.len() - i,
        {
            signers.push(self.signers[i]);
            assert(signers@ =~= self.signers@.subrange(0, i + 1));
            i += 1;
        }
        assert(signers@ =~= self.signers@);
        signers
    }

    /// Adds `signer`, unless it is there already.
    pub fn assign(&mut self, signer: RequiredSigner)
        ensures
            final(self)@ == old(self)@.insert(signer),
    {
        proof {
            use_type_invariant(&*self);
        }
        if self.position(signer).is_none() {
            proof {
                self.signers@.lemma_push_to_set_commute(signer);
            }
            let mut signers: Vec<RequiredSigner> = Vec::new();
            std::mem::swap(&mut signers, &mut self.signers);
            signers.push(signer);
            self.signers = signers;
        } else {
            assert(self@.insert(signer) =~= self@);
        }
    }

    /// Takes `signer` out, if it is there.
    pub fn remove(&mut self, signer: RequiredSigner)
        ensures
            final(self)@ == old(self)@.remove(signer),
    {
        proof {
            use_type_invariant(&*self);
        }
        match self.position(signer) {
            Some(i) => {
                let ghost before = self.signers@;
                let mut signers: Vec<RequiredSigner> = Vec::new();
                std::mem::swap(&mut signers, &mut self.signers);
                signers.remove(i);
                self.signers = signers;
                proof {
                    let after = self.signers@;
                    assert(after == before.remove(i as int));
                    assert forall|s: RequiredSigner| after.to_set().contains(s) <==> before.to_set().remove(
                        signer,
                    ).contains(s) by {
                        if after.contains(s) {
                            let j = choose|j: int| 0 <= j < after.len() && after[j] == s;
                            if j < i {
                                assert(before[j] == s);
                            } else {
                                assert(before[j + 1] == s);
                            }
                        }
                        if before.contains(s) && s != signer {
                            let j = choose|j: int| 0 <= j < before.len() && before[j] == s;
                            if j < i {
                                assert(after[j] == s);
                            } else {
                                assert(after[j - 1] == s);
                            }
                        }
                    }
                    assert(after.to_set() =~= before.to_set().remove(signer));
                }
            },
            None => {
                assert(self@.remove(signer) =~= self@);
            },
        }
    }
}

impl Clone for RequiredSigners {
    fn clone(&self) -> (copy: Self)
        ensures
            copy@ == self@,
    {
        RequiredSigners { signers: self.to_vec() }
    }
}

} // verus!
