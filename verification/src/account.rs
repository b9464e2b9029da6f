//! The signer identity chosen for a session: supplied by the external
//! signer provider, immutable once obtained.

use vstd::prelude::*;
use crate::signature::SignatureScheme;

verus! {

/// An account offered by a signer extension.
pub struct Account {
    /// Account name shown to the user.
    pub name: String,
    /// Name of the extension the account came from.
    pub source: String,
    /// The account's declared key type.
    pub ty: SignatureScheme,
    /// Chain-specific textual encoding of the public key, handed verbatim
    /// to the signer.
    pub address: String,
    /// The 32 raw bytes of the public key, as the extrinsic layout needs
    /// them.
    pub public_key: Vec<u8>,
}

/// Two accounts with the same fields.
pub open spec fn same_account(a: &Account, b: &Account) -> bool {
    &&& a.name@ == b.name@
    &&& a.source@ == b.source@
    &&& a.ty == b.ty
    &&& a.address@ == b.address@
    &&& a.public_key@ == b.public_key@
}

impl Account {
    /// The public key has the chain's account-id size.
    pub open spec fn wf(&self) -> bool {
        self.public_key@.len() == 32
    }

    /// Field-wise equality, as the staleness check of the session needs
    /// it.
    pub fn same_as(&self, other: &Account) -> (r: bool)
        ensures
            r == same_account(self, other),
    {
        if !(self.name == other.name && self.source == other.source
            && self.address == other.address) {
            return false;
        }
        let ty_eq = match (self.ty, other.ty) {
            (SignatureScheme::Sr25519, SignatureScheme::Sr25519) => true,
            (SignatureScheme::Ed25519, SignatureScheme::Ed25519) => true,
            (SignatureScheme::Ecdsa, SignatureScheme::Ecdsa) => true,
            _ => false,
        };
        if !ty_eq {
            return false;
        }
        if self.public_key.len() != other.public_key.len() {
            return false;
        }
        let mut i: usize = 0;
        while i < self.public_key.len()
            invariant
                i <= self.public_key@.len(),
                self.public_key@.len() == other.public_key@.len(),
                forall|j: int| 0 <= j < i ==> self.public_key@[j] == other.public_key@[j],
            decreases self.public_key@.len() - i,
        {
            if self.public_key[i] != other.public_key[i] {
                return false;
            }
            i = i + 1;
        }
        proof {
            assert(self.public_key@ =~= other.public_key@);
        }
        true
    }
}

impl Clone for Account {
    fn clone(&self) -> (r: Self)
        ensures
            same_account(&r, self),
            r.wf() == self.wf(),
    {
        Account {
            name: self.name.clone(),
            source: self.source.clone(),
            ty: self.ty,
            address: self.address.clone(),
            public_key: self.public_key.clone(),
        }
    }
}

} // verus!
