//! The 16-bit checksum guarding the wire packets.
//!
//! The checksum itself is computed by the `pruefung` crate; this module
//! gives its result a name that the packet contracts speak of.

use core::hash::Hasher;
use pruefung::fletcher16::Fletcher16;
use vstd::prelude::*;

verus! {

/// The 16-bit checksum of a byte sequence, as pruefung's Fletcher16 hasher
/// computes it.
pub uninterp spec fn checksum16_of(data: Seq<u8>) -> u16;

/// Relies on pruefung's Fletcher16 hasher, fed through core::hash::Hasher:
/// the checksum depends on the bytes written alone.
#[verifier::external_body]
pub(crate) fn checksum16(data: &Vec<u8>) -> (c: u16)
    ensures
        c == checksum16_of(data@),
{
    let mut hasher = Fletcher16::default();
    hasher.write(data.as_slice());
    hasher.finish() as u16
}

} // verus!
