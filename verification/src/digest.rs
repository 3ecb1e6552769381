//! The digest that shows that both read mounts were really read.
use std::collections::hash_map::DefaultHasher;
use std::hash::Hasher;
use vstd::prelude::*;
use vstd::std_specs::hash::DefaultHasherAdditionalSpecFns;

verus! {

/// The digest of the deploy bytes followed by the exec bytes: what the standard
/// library's default hasher yields once it was fed the two as one run of bytes.
pub open spec fn spec_mount_digest(deploy: Seq<u8>, exec: Seq<u8>) -> u64 {
    DefaultHasher::spec_finish(seq![deploy + exec])
}

/// Hashes the contents of the two read mounts, deploy first.
pub fn mount_digest(deploy: &[u8], exec: &[u8]) -> (digest: u64)
    ensures
        digest == spec_mount_digest(deploy@, exec@),
{
    let mut bytes: Vec<u8> = Vec::new();
    bytes.extend_from_slice(deploy);
    bytes.extend_from_slice(exec);
    assert(bytes@ =~= deploy@ + exec@);
    let mut hasher = DefaultHasher::new();
    hasher.write(bytes.as_slice());
    assert(hasher@ =~= seq![deploy@ + exec@]);
    hasher.finish()
}

} // verus!
