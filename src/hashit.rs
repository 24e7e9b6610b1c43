//! Hashing helpers.
use std::collections::hash_map::DefaultHasher;
use std::hash::{Hash, Hasher};
use vstd::std_specs::hash::DefaultHasherAdditionalSpecFns;
use vstd::string::StringSliceAdditionalSpecFns;
use vstd::prelude::*;

verus! {

/// The SeaHash digest (with the crate's fixed seed) of a byte sequence.
pub uninterp spec fn seahash_of(b: Seq<u8>) -> u64;

/// Relies on `seahash::hash`: the digest depends on the bytes alone.
#[verifier::external_body]
fn seahash(b: &[u8]) -> (r: u64)
    ensures
        r == seahash_of(b@),
{
    seahash::hash(b)
}

/// SeaHash of the UTF-8 bytes of `string`.
pub fn hash_string(string: &str) -> (r: u64)
    ensures
        r == seahash_of(string.spec_bytes()),
{
    seahash(string.as_bytes())
}

/// SeaHash of the UTF-8 bytes of `string`, cut to its low 32 bits as an `i32`.
pub fn hash_str_i32(string: &str) -> (r: i32)
    ensures
        r == seahash_of(string.spec_bytes()) as i32,
{
    let h: u64 = seahash(string.as_bytes());
    h as i32
}

/// Relies on `Hash::hash` of `T`: feeds `obj` into the hasher; what it writes
/// is up to `T`'s impl.
#[verifier::external_body]
fn feed<T: Hash>(obj: &T, hasher: &mut DefaultHasher) {
    obj.hash(hasher)
}

/// Hashes `obj` with std's default hasher (fixed keys).
pub fn hashify<T: Hash>(obj: T) -> (r: u64)
    ensures
        exists|writes: Seq<Seq<u8>>| r == DefaultHasher::spec_finish(writes),
{
    let mut hasher = DefaultHasher::new();
    feed(&obj, &mut hasher);
    hasher.finish()
}

} // verus!
