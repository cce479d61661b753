//! The anchor store's pure part: where an alias's artifact lives. One
//! artifact per alias, at `<data dir>/gpg-alias/<alias>.asc`; the existence
//! check and the directory creation happen outside and come back to the
//! machine as a `StoreChecked` or `StoreUnavailable` event.

use vstd::prelude::*;
use crate::text::copy_bytes;

verus! {

/// The name of the anchor directory under the data directory: `gpg-alias`.
pub open spec fn anchor_dir_bytes() -> Seq<u8> {
    seq![0x67u8, 0x70, 0x67, 0x2d, 0x61, 0x6c, 0x69, 0x61, 0x73]
}

/// The suffix of every artifact file name: `.asc`.
pub open spec fn anchor_suffix() -> Seq<u8> {
    seq![0x2eu8, 0x61, 0x73, 0x63]
}

/// The anchor directory's name as bytes.
pub fn anchor_dir_name() -> (r: Vec<u8>)
    ensures
        r@ == anchor_dir_bytes(),
{
    let mut r: Vec<u8> = Vec::new();
    r.push(0x67);
    r.push(0x70);
    r.push(0x67);
    r.push(0x2d);
    r.push(0x61);
    r.push(0x6c);
    r.push(0x69);
    r.push(0x61);
    r.push(0x73);
    proof {
        assert(r@ =~= anchor_dir_bytes());
    }
    r
}

/// The artifact file name an alias derives to: the alias with `.asc`
/// appended. Deterministic, so each alias has exactly one artifact place.
pub fn anchor_file_name(alias: &Vec<u8>) -> (r: Vec<u8>)
    ensures
        r@ == alias@ + anchor_suffix(),
{
    let mut r = copy_bytes(alias);
    r.push(0x2e);
    r.push(0x61);
    r.push(0x73);
    r.push(0x63);
    proof {
        assert(r@ =~= alias@ + anchor_suffix());
    }
    r
}

} // verus!
