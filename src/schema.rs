use vstd::prelude::*;

use crate::layer3::{decode_ie, ie_matches, ie_next, ie_ok, IeFormat, IeValue};
use crate::reader::{BitReader, DecodeError};

verus! {

/// The position after the first `k` IEs of schema `s`, decoded from `p`.
pub open spec fn schema_pos(d: Seq<u8>, p: nat, s: Seq<IeFormat>, k: nat) -> nat
    decreases k,
{
    if k == 0 {
        p
    } else {
        ie_next(d, schema_pos(d, p, s, (k - 1) as nat), s[k - 1])
    }
}

/// The first `k` IEs of `s` all decode from `p`.
pub open spec fn schema_ok_upto(d: Seq<u8>, p: nat, s: Seq<IeFormat>, k: nat) -> bool
    decreases k,
{
    k == 0 || (schema_ok_upto(d, p, s, (k - 1) as nat) && ie_ok(
        d,
        schema_pos(d, p, s, (k - 1) as nat),
        s[k - 1],
    ))
}

/// Every IE of schema `s` decodes, in order, from `p`.
pub open spec fn schema_ok(d: Seq<u8>, p: nat, s: Seq<IeFormat>) -> bool {
    schema_ok_upto(d, p, s, s.len())
}

/// `vals` are the IEs of schema `s` decoded in order from `p`.
pub open spec fn schema_matches(d: Seq<u8>, p: nat, s: Seq<IeFormat>, vals: Seq<IeValue>) -> bool {
    &&& vals.len() == s.len()
    &&& forall|i: int|
        0 <= i < s.len() ==> ie_matches(d, schema_pos(d, p, s, i as nat), s[i], #[trigger] vals[i])
}

proof fn lemma_ok_upto_prefix(d: Seq<u8>, p: nat, s: Seq<IeFormat>, j: nat, k: nat)
    requires
        j <= k,
        schema_ok_upto(d, p, s, k),
    ensures
        schema_ok_upto(d, p, s, j),
    decreases k,
{
    if j < k {
        lemma_ok_upto_prefix(d, p, s, j, (k - 1) as nat);
    }
}

/// Decodes the IEs of schema `s` in order: mandatory ones must be there, and
/// each optional one is tried once, where it stands.
pub fn decode_schema(reader: &mut BitReader, s: &Vec<IeFormat>) -> (r: Result<Vec<IeValue>, DecodeError>)
    requires
        old(reader).wf(),
    ensures
        final(reader).wf(),
        final(reader).data() == old(reader).data(),
        r.is_ok() == schema_ok(old(reader).data(), old(reader).pos(), s@),
        r matches Err(e) ==> e == DecodeError::ShortRead,
        r matches Ok(vals) ==> schema_matches(old(reader).data(), old(reader).pos(), s@, vals@),
        r is Ok ==> final(reader).pos() == schema_pos(old(reader).data(), old(reader).pos(), s@, s@.len()),
{
    let ghost d = reader.data();
    let ghost p = reader.pos();
    let mut vals: Vec<IeValue> = Vec::new();
    let mut k: usize = 0;
    while k < s.len()
        invariant
            reader.wf(),
            reader.data() == d,
            d == old(reader).data(),
            p == old(reader).pos(),
            k <= s@.len(),
            schema_ok_upto(d, p, s@, k as nat),
            reader.pos() == schema_pos(d, p, s@, k as nat),
            vals@.len() == k,
            forall|i: int|
                0 <= i < k ==> ie_matches(d, schema_pos(d, p, s@, i as nat), s@[i], #[trigger] vals@[i]),
        decreases s@.len() - k,
    {
        let v = match decode_ie(reader, s[k]) {
            Ok(v) => v,
            Err(e) => {
                proof {
                    if schema_ok(d, p, s@) {
                        lemma_ok_upto_prefix(d, p, s@, (k + 1) as nat, s@.len());
                    }
                }
                return Err(e);
            },
        };
        vals.push(v);
        k = k + 1;
    }
    Ok(vals)
}

} // verus!
