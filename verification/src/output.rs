//! The recipient-argument output form: each resolved key identifier
//! prefixed with `-r `, the whole joined by single spaces, for pasting onto
//! an encrypting command line.

use vstd::prelude::*;

verus! {

/// The `-r ` prefix as bytes.
pub open spec fn recipient_flag() -> Seq<u8> {
    seq![0x2du8, 0x72, 0x20]
}

/// The first `n` identifiers in recipient-argument form.
pub open spec fn recipients_upto(ids: Seq<Vec<u8>>, n: int) -> Seq<u8>
    decreases n,
{
    if n <= 0 {
        Seq::<u8>::empty()
    } else {
        let head = recipients_upto(ids, n - 1);
        let sep: Seq<u8> = if n > 1 {
            seq![0x20u8]
        } else {
            Seq::<u8>::empty()
        };
        head + sep + recipient_flag() + ids[n - 1]@
    }
}

/// The whole list in recipient-argument form.
pub open spec fn recipients_line(ids: Seq<Vec<u8>>) -> Seq<u8> {
    recipients_upto(ids, ids.len() as int)
}

/// Append one byte string to another.
pub fn append_bytes(dst: &mut Vec<u8>, src: &Vec<u8>)
    ensures
        final(dst)@ == old(dst)@ + src@,
{
    let mut i: usize = 0;
    while i < src.len()
        invariant
            i <= src.len(),
            dst@ == old(dst)@ + src@.subrange(0, i as int),
        decreases src.len() - i,
    {
        dst.push(src[i]);
        proof {
            assert(dst@ =~= old(dst)@ + src@.subrange(0, i + 1));
        }
        i = i + 1;
    }
    proof {
        assert(old(dst)@ + src@.subrange(0, src.len() as int) =~= old(dst)@ + src@);
    }
}

/// Render the resolved identifiers as recipient arguments: `-r` before
/// each, one space between one pair and the next, nothing else.
pub fn format_recipients(ids: &Vec<Vec<u8>>) -> (r: Vec<u8>)
    ensures
        r@ == recipients_line(ids@),
{
    let mut r: Vec<u8> = Vec::new();
    let mut i: usize = 0;
    while i < ids.len()
        invariant
            i <= ids.len(),
            r@ == recipients_upto(ids@, i as int),
        decreases ids.len() - i,
    {
        if i > 0 {
            r.push(0x20);
        }
        r.push(0x2d);
        r.push(0x72);
        r.push(0x20);
        append_bytes(&mut r, &ids[i]);
        proof {
            assert(r@ =~= recipients_upto(ids@, i + 1));
        }
        i = i + 1;
    }
    r
}

} // verus!
