use vstd::prelude::*;
use crate::tools::{sha256, sha256_digest};

verus! {

/// The wasm module of a canister, with its SHA-256 hash.
pub struct CanisterCode {
    module: Vec<u8>,
    module_hash: [u8; 32],
}

impl CanisterCode {
    /// The bytes of the module.
    pub closed spec fn module_view(&self) -> Seq<u8> {
        self.module@
    }

    /// The bytes of the hash that this code carries.
    pub closed spec fn module_hash_view(&self) -> Seq<u8> {
        self.module_hash@
    }

    /// The hash that this code carries is the SHA-256 digest of its module.
    pub open spec fn hash_is_right(&self) -> bool {
        self.module_hash_view() == sha256_digest(self.module_view())
    }

    /// The code of a module, with the module's hash computed.
    pub fn new(module: Vec<u8>) -> (code: CanisterCode)
        ensures
            code.module_view() == module@,
            code.module_hash_view() == sha256_digest(module@),
    {
        let module_hash: [u8; 32] = sha256(module.as_slice());
        CanisterCode { module, module_hash }
    }

    /// The code of a module together with a hash that it was handed with, as it arrives in
    /// a call; the hash is not checked here.
    pub fn from_module_and_hash(module: Vec<u8>, module_hash: [u8; 32]) -> (code: CanisterCode)
        ensures
            code.module_view() == module@,
            code.module_hash_view() == module_hash@,
    {
        CanisterCode { module, module_hash }
    }

    /// The module.
    pub fn module(&self) -> (m: &Vec<u8>)
        ensures
            m@ == self.module_view(),
    {
        &self.module
    }

    /// The hash that this code carries.
    pub fn module_hash(&self) -> (h: &[u8; 32])
        ensures
            h@ == self.module_hash_view(),
    {
        &self.module_hash
    }

    /// Replaces the module, and its hash with the digest of the new module.
    pub fn change_module(&mut self, module: Vec<u8>)
        ensures
            final(self).module_view() == module@,
            final(self).module_hash_view() == sha256_digest(module@),
    {
        *self = Self::new(module);
    }

    /// A copy of this code.
    pub fn copy(&self) -> (code: CanisterCode)
        ensures
            code.module_view() == self.module_view(),
            code.module_hash_view() == self.module_hash_view(),
    {
        CanisterCode { module: self.module.clone(), module_hash: self.module_hash }
    }
}

impl Clone for CanisterCode {
    fn clone(&self) -> (code: CanisterCode)
        ensures
            code.module_view() == self.module_view(),
            code.module_hash_view() == self.module_hash_view(),
    {
        self.copy()
    }
}

} // verus!
