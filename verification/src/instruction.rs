use vstd::prelude::*;

use vstd::bytes::spec_u64_from_le_bytes;
use vstd::bytes::u64_from_le_bytes;
use vstd::slice::slice_subrange;

use crate::error::TransferError;

verus! {

/// The eight-byte tag that the asset layer puts in front of the
/// instruction data when it calls the hook mid-transfer: the leading
/// bytes of the SHA-256 digest of the label
/// `spl-transfer-hook-interface:execute`.
pub open spec fn execute_discriminator() -> Seq<u8> {
    seq![105u8, 37u8, 101u8, 197u8, 75u8, 251u8, 102u8, 26u8]
}

/// What unpacking raw instruction data yields: the transfer amount of a
/// well-formed transfer-execution instruction, or a refusal.  The data
/// is well formed exactly when it opens with the execution tag and
/// carries at least eight further bytes, which hold the amount in
/// little-endian order; trailing bytes beyond those are ignored.
pub open spec fn parse_execute_amount(data: Seq<u8>) -> Result<u64, TransferError> {
    if data.len() >= 16 && data.subrange(0, 8) == execute_discriminator() {
        Ok(spec_u64_from_le_bytes(data.subrange(8, 16)))
    } else {
        Err(TransferError::InvalidInstruction)
    }
}

/// Whether `data` opens with the transfer-execution tag.
fn has_execute_discriminator(data: &Vec<u8>) -> (r: bool)
    ensures
        r == (data@.len() >= 8 && data@.subrange(0, 8) == execute_discriminator()),
{
    if data.len() < 8 {
        return false;
    }
    let mut tag: Vec<u8> = Vec::new();
    tag.push(105);
    tag.push(37);
    tag.push(101);
    tag.push(197);
    tag.push(75);
    tag.push(251);
    tag.push(102);
    tag.push(26);
    proof {
        assert(tag@ =~= execute_discriminator());
    }
    let mut i: usize = 0;
    while i < 8
        invariant
            i <= 8,
            data@.len() >= 8,
            tag@ == execute_discriminator(),
            tag@.len() == 8,
            forall|k: int| 0 <= k < i ==> data@[k] == execute_discriminator()[k],
        decreases 8 - i,
    {
        if data[i] != tag[i] {
            proof {
                assert(data@.subrange(0, 8)[i as int] != execute_discriminator()[i as int]);
            }
            return false;
        }
        i += 1;
    }
    proof {
        assert(data@.subrange(0, 8) =~= execute_discriminator());
    }
    true
}

/// The dispatcher the asset layer reaches when it calls the hook over
/// the wire: it unpacks raw instruction data and hands back the amount
/// of the in-flight transfer.  Data that is not a transfer-execution
/// instruction is refused with `InvalidInstruction`; the caller then
/// aborts the enclosing transfer.
pub fn fallback(data: &Vec<u8>) -> (r: Result<u64, TransferError>)
    ensures
        r == parse_execute_amount(data@),
{
    if !has_execute_discriminator(data) || data.len() < 16 {
        return Err(TransferError::InvalidInstruction);
    }
    let amount_bytes = slice_subrange(data.as_slice(), 8, 16);
    let amount = u64_from_le_bytes(amount_bytes);
    Ok(amount)
}

} // verus!
