//! The commitment scheme over the modelled store.
//!
//! The host's authenticated storage folds its contents into a short root
//! digest; the modelled store does the same with a deterministic mixing
//! fold over its plain values, so that every commitment is a function of
//! exactly the data it covers. The fold is definitional: nothing here is
//! claimed about collisions, only which data each digest is computed from.
use vstd::prelude::*;

use crate::state::ItemModel;
use crate::types::Digest;
use crate::types::PublicKey;

verus! {

/// Lane multipliers of the mixing fold, one odd constant per limb.
pub const MIX_M0: u64 = 0x9e3779b97f4a7c15;

pub const MIX_M1: u64 = 0xbf58476d1ce4e5b9;

pub const MIX_M2: u64 = 0x94d049bb133111eb;

pub const MIX_M3: u64 = 0xd6e8feb86659fd93;

/// One step of the fold: absorb a 64-bit word into every limb.
#[verifier::opaque]
pub open spec fn spec_absorb_word(h: Digest, x: u64) -> Digest {
    Digest {
        d0: h.d0.wrapping_mul(MIX_M0).wrapping_add(x).wrapping_add(1),
        d1: h.d1.wrapping_mul(MIX_M1).wrapping_add(x).wrapping_add(2),
        d2: h.d2.wrapping_mul(MIX_M2).wrapping_add(x).wrapping_add(3),
        d3: h.d3.wrapping_mul(MIX_M3).wrapping_add(x).wrapping_add(4),
    }
}

pub fn absorb_word(h: Digest, x: u64) -> (r: Digest)
    ensures
        r == spec_absorb_word(h, x),
{
    proof {
        reveal(spec_absorb_word);
    }
    Digest {
        d0: h.d0.wrapping_mul(MIX_M0).wrapping_add(x).wrapping_add(1),
        d1: h.d1.wrapping_mul(MIX_M1).wrapping_add(x).wrapping_add(2),
        d2: h.d2.wrapping_mul(MIX_M2).wrapping_add(x).wrapping_add(3),
        d3: h.d3.wrapping_mul(MIX_M3).wrapping_add(x).wrapping_add(4),
    }
}

/// Absorb a whole digest, limb by limb.
pub open spec fn spec_absorb_digest(h: Digest, d: Digest) -> Digest {
    spec_absorb_word(
        spec_absorb_word(spec_absorb_word(spec_absorb_word(h, d.d0), d.d1), d.d2),
        d.d3,
    )
}

pub fn absorb_digest(h: Digest, d: Digest) -> (r: Digest)
    ensures
        r == spec_absorb_digest(h, d),
{
    absorb_word(absorb_word(absorb_word(absorb_word(h, d.d0), d.d1), d.d2), d.d3)
}

/// Absorb a public key, limb by limb.
pub open spec fn spec_absorb_key(h: Digest, k: PublicKey) -> Digest {
    spec_absorb_word(
        spec_absorb_word(spec_absorb_word(spec_absorb_word(h, k.k0), k.k1), k.k2),
        k.k3,
    )
}

pub fn absorb_key(h: Digest, k: PublicKey) -> (r: Digest)
    ensures
        r == spec_absorb_key(h, k),
{
    absorb_word(absorb_word(absorb_word(absorb_word(h, k.k0), k.k1), k.k2), k.k3)
}

/// Absorb a byte string, one byte per step, length first.
pub open spec fn spec_absorb_bytes_from(h: Digest, bs: Seq<u8>) -> Digest
    decreases bs.len(),
{
    if bs.len() == 0 {
        h
    } else {
        spec_absorb_word(spec_absorb_bytes_from(h, bs.drop_last()), bs.last() as u64)
    }
}

pub open spec fn spec_absorb_bytes(h: Digest, bs: Seq<u8>) -> Digest {
    spec_absorb_bytes_from(spec_absorb_word(h, bs.len() as u64), bs)
}

pub fn absorb_bytes(h: Digest, bs: &[u8]) -> (r: Digest)
    ensures
        r == spec_absorb_bytes(h, bs@),
{
    let mut acc = absorb_word(h, bs.len() as u64);
    let ghost start = acc;
    let mut i: usize = 0;
    while i < bs.len()
        invariant
            i <= bs.len(),
            acc == spec_absorb_bytes_from(start, bs@.take(i as int)),
        decreases bs.len() - i,
    {
        acc = absorb_word(acc, bs[i] as u64);
        proof {
            assert(bs@.take(i + 1 as int).drop_last() =~= bs@.take(i as int));
            assert(bs@.take(i + 1 as int).last() == bs@[i as int]);
        }
        i = i + 1;
    }
    proof {
        assert(bs@.take(bs@.len() as int) =~= bs@);
    }
    acc
}

/// Commitment over an item's history: the ordered transaction digests,
/// folded from an all-zero seed, length first.
pub open spec fn spec_history_fold(h: Digest, s: Seq<Digest>) -> Digest
    decreases s.len(),
{
    if s.len() == 0 {
        h
    } else {
        spec_absorb_digest(spec_history_fold(h, s.drop_last()), s.last())
    }
}

pub open spec fn history_commitment(s: Seq<Digest>) -> Digest {
    spec_history_fold(spec_absorb_word(Digest::spec_zero(), s.len() as u64), s)
}

pub fn compute_history_commitment(hist: &Vec<Digest>) -> (r: Digest)
    ensures
        r == history_commitment(hist@),
{
    let mut acc = absorb_word(Digest::zero(), hist.len() as u64);
    let ghost start = acc;
    let mut i: usize = 0;
    while i < hist.len()
        invariant
            i <= hist.len(),
            acc == spec_history_fold(start, hist@.take(i as int)),
        decreases hist.len() - i,
    {
        acc = absorb_digest(acc, hist[i]);
        proof {
            assert(hist@.take(i + 1 as int).drop_last() =~= hist@.take(i as int));
            assert(hist@.take(i + 1 as int).last() == hist@[i as int]);
        }
        i = i + 1;
    }
    proof {
        assert(hist@.take(hist@.len() as int) =~= hist@);
    }
    acc
}

/// Commitment over the item map: the records in the store's order,
/// folded from an all-zero seed, count first.
pub open spec fn spec_items_fold(h: Digest, items: Seq<ItemModel>) -> Digest
    decreases items.len(),
{
    if items.len() == 0 {
        h
    } else {
        spec_absorb_digest(spec_items_fold(h, items.drop_last()), item_commitment(items.last()))
    }
}

pub open spec fn items_commitment(items: Seq<ItemModel>) -> Digest {
    spec_items_fold(spec_absorb_word(Digest::spec_zero(), items.len() as u64), items)
}

/// Commitment over a single item record: every field of the record,
/// the name as its UTF-8 bytes.
#[verifier::opaque]
pub open spec fn item_commitment(it: ItemModel) -> Digest {
    spec_absorb_digest(
        spec_absorb_word(
            spec_absorb_word(
                spec_absorb_key(
                    spec_absorb_key(
                        spec_absorb_bytes(
                            spec_absorb_word(Digest::spec_zero(), it.item_id),
                            vstd::utf8::encode_utf8(it.name),
                        ),
                        it.owner_pub_key,
                    ),
                    it.customer_pub_key,
                ),
                it.bid,
            ),
            it.history_len,
        ),
        it.history_hash,
    )
}

} // verus!
