//! The typed, invariant-preserving store of items and their histories.
//!
//! The host's authenticated storage engine is an external collaborator;
//! here the store is held as plain data, keyed by item identifier, with
//! the commitments of `crate::commit` computed over it. Every mutation
//! keeps each record's cached `history_len` and `history_hash` in
//! lock-step with the item's history sequence.
use vstd::prelude::*;

use crate::commit::absorb_digest;
use crate::commit::absorb_word;
use crate::commit::compute_history_commitment;
use crate::commit::item_commitment;
use crate::commit::items_commitment;
use crate::commit::spec_items_fold;
use crate::state::apply_create;
use crate::state::apply_raise;
use crate::state::entry_inv;
use crate::state::state_inv;
use crate::state::AuctionState;
use crate::state::EntryModel;
use crate::state::ItemModel;
use crate::types::Digest;
use crate::types::PublicKey;

verus! {

/// One auctioned item: identifier, display name, creator, current highest
/// bidder, current bid, and the cached length and commitment of its history.
#[derive(Clone, Debug, PartialEq)]
pub struct AuctionItem {
    pub item_id: u64,
    pub name: String,
    pub owner_pub_key: PublicKey,
    pub customer_pub_key: PublicKey,
    pub bid: u64,
    pub history_len: u64,
    pub history_hash: Digest,
}

impl View for AuctionItem {
    type V = ItemModel;

    open spec fn view(&self) -> ItemModel {
        ItemModel {
            item_id: self.item_id,
            name: self.name@,
            owner_pub_key: self.owner_pub_key,
            customer_pub_key: self.customer_pub_key,
            bid: self.bid,
            history_len: self.history_len,
            history_hash: self.history_hash,
        }
    }
}

impl AuctionItem {
    pub fn new(
        item_id: u64,
        name: String,
        owner_pub_key: &PublicKey,
        customer_pub_key: &PublicKey,
        bid: u64,
        history_len: u64,
        history_hash: &Digest,
    ) -> (r: AuctionItem)
        ensures
            r@ == (ItemModel {
                item_id,
                name: name@,
                owner_pub_key: *owner_pub_key,
                customer_pub_key: *customer_pub_key,
                bid,
                history_len,
                history_hash: *history_hash,
            }),
    {
        AuctionItem {
            item_id,
            name,
            owner_pub_key: *owner_pub_key,
            customer_pub_key: *customer_pub_key,
            bid,
            history_len,
            history_hash: *history_hash,
        }
    }

    /// A copy of this record whose bid, bidder and history snapshot are
    /// replaced by the accepted bid's; everything else is carried over.
    pub fn raise_bid(self, new_bid: u64, customer_pub_key: &PublicKey, history_hash: &Digest) -> (r:
        AuctionItem)
        requires
            new_bid > self.bid,
            self.history_len < u64::MAX,
        ensures
            r@ == (ItemModel {
                item_id: self@.item_id,
                name: self@.name,
                owner_pub_key: self@.owner_pub_key,
                customer_pub_key: *customer_pub_key,
                bid: new_bid,
                history_len: (self@.history_len + 1) as u64,
                history_hash: *history_hash,
            }),
    {
        AuctionItem {
            item_id: self.item_id,
            name: self.name,
            owner_pub_key: self.owner_pub_key,
            customer_pub_key: *customer_pub_key,
            bid: new_bid,
            history_len: self.history_len + 1,
            history_hash: *history_hash,
        }
    }
}

/// The commitment over one item record.
pub fn compute_item_commitment(it: &AuctionItem) -> (r: Digest)
    ensures
        r == item_commitment(it@),
{
    proof {
        reveal(item_commitment);
    }
    let mut acc = absorb_word(Digest::zero(), it.item_id);
    acc = crate::commit::absorb_bytes(acc, it.name.as_str().as_bytes());
    acc = crate::commit::absorb_key(acc, it.owner_pub_key);
    acc = crate::commit::absorb_key(acc, it.customer_pub_key);
    acc = absorb_word(acc, it.bid);
    acc = absorb_word(acc, it.history_len);
    acc = absorb_digest(acc, it.history_hash);
    acc
}

/// One stored slot: an item record beside its history sequence.
struct ItemEntry {
    item: AuctionItem,
    history: Vec<Digest>,
}

impl View for ItemEntry {
    type V = EntryModel;

    closed spec fn view(&self) -> EntryModel {
        EntryModel { item: self.item@, history: self.history@ }
    }
}

/// First entry with the given identifier, scanned from the front.
spec fn seq_lookup(s: Seq<ItemEntry>, id: u64) -> Option<EntryModel>
    decreases s.len(),
{
    if s.len() == 0 {
        None
    } else if s[0].item.item_id == id {
        Some(s[0]@)
    } else {
        seq_lookup(s.drop_first(), id)
    }
}

proof fn lemma_lookup_exists(s: Seq<ItemEntry>, id: u64)
    ensures
        (seq_lookup(s, id) is Some) <==> exists|i: int|
            0 <= i < s.len() && s[i].item.item_id == id,
    decreases s.len(),
{
    if s.len() > 0 {
        lemma_lookup_exists(s.drop_first(), id);
        if s[0].item.item_id == id {
        } else if seq_lookup(s.drop_first(), id) is Some {
            let i = choose|i: int|
                0 <= i < s.drop_first().len() && s.drop_first()[i].item.item_id == id;
            assert(s[i + 1].item.item_id == id);
        } else {
            if exists|i: int| 0 <= i < s.len() && s[i].item.item_id == id {
                let i = choose|i: int| 0 <= i < s.len() && s[i].item.item_id == id;
                assert(s.drop_first()[i - 1].item.item_id == id);
            }
        }
    }
}

proof fn lemma_lookup_at(s: Seq<ItemEntry>, id: u64, i: int)
    requires
        0 <= i < s.len(),
        s[i].item.item_id == id,
        forall|p: int, q: int|
            #![trigger s[p].item.item_id, s[q].item.item_id]
            0 <= p < q < s.len() ==> s[p].item.item_id != s[q].item.item_id,
    ensures
        seq_lookup(s, id) == Some(s[i]@),
    decreases s.len(),
{
    if i == 0 {
    } else {
        assert(s[0].item.item_id != s[i].item.item_id);
        assert(s.drop_first()[i - 1] == s[i]);
        lemma_lookup_at(s.drop_first(), id, i - 1);
    }
}

proof fn lemma_lookup_push(s: Seq<ItemEntry>, e: ItemEntry, k: u64)
    ensures
        seq_lookup(s.push(e), k) == (if seq_lookup(s, k) is Some {
            seq_lookup(s, k)
        } else if e.item.item_id == k {
            Some(e@)
        } else {
            None::<EntryModel>
        }),
    decreases s.len(),
{
    if s.len() == 0 {
        assert(s.push(e)[0] == e);
        assert(s.push(e).drop_first() =~= Seq::<ItemEntry>::empty());
        assert(seq_lookup(s, k) is None);
        if e.item.item_id == k {
            assert(seq_lookup(s.push(e), k) == Some(e@));
        } else {
            assert(seq_lookup(s.push(e), k) == seq_lookup(Seq::<ItemEntry>::empty(), k));
            assert(seq_lookup(s.push(e), k) is None);
        }
    } else {
        assert(s.push(e)[0] == s[0]);
        assert(s.push(e).drop_first() =~= s.drop_first().push(e));
        lemma_lookup_push(s.drop_first(), e, k);
        if s[0].item.item_id == k {
            assert(seq_lookup(s, k) == Some(s[0]@));
            assert(seq_lookup(s.push(e), k) == Some(s[0]@));
        } else {
            assert(seq_lookup(s.push(e), k) == seq_lookup(s.drop_first().push(e), k));
            assert(seq_lookup(s, k) == seq_lookup(s.drop_first(), k));
        }
    }
}

proof fn lemma_lookup_update(s: Seq<ItemEntry>, i: int, e: ItemEntry, k: u64)
    requires
        0 <= i < s.len(),
        s[i].item.item_id == e.item.item_id,
        forall|p: int, q: int|
            #![trigger s[p].item.item_id, s[q].item.item_id]
            0 <= p < q < s.len() ==> s[p].item.item_id != s[q].item.item_id,
    ensures
        seq_lookup(s.update(i, e), k) == (if e.item.item_id == k {
            Some(e@)
        } else {
            seq_lookup(s, k)
        }),
    decreases s.len(),
{
    let t = s.update(i, e);
    if i == 0 {
        assert(t[0] == e);
        assert(t.drop_first() =~= s.drop_first());
        if e.item.item_id == k {
        } else if s[0].item.item_id == k {
            // the old head carried this identifier, so no later entry does
            lemma_lookup_exists(s.drop_first(), k);
            if seq_lookup(s.drop_first(), k) is Some {
                let j = choose|j: int|
                    0 <= j < s.drop_first().len() && s.drop_first()[j].item.item_id == k;
                assert(s[0].item.item_id == s[j + 1].item.item_id);
                assert(false);
            }
        }
    } else {
        assert(t[0] == s[0]);
        assert(t.drop_first() =~= s.drop_first().update(i - 1, e));
        assert(s.drop_first()[i - 1] == s[i]);
        lemma_lookup_update(s.drop_first(), i - 1, e, k);
        if s[0].item.item_id == k {
            assert(s[0].item.item_id != s[i].item.item_id);
        }
    }
}

/// A copy of a digest sequence, element by element.
fn copy_digests(v: &Vec<Digest>) -> (r: Vec<Digest>)
    ensures
        r@ == v@,
{
    let mut r: Vec<Digest> = Vec::new();
    let mut i: usize = 0;
    while i < v.len()
        invariant
            i <= v.len(),
            r@ == v@.take(i as int),
        decreases v.len() - i,
    {
        r.push(v[i]);
        proof {
            assert(v@.take(i + 1 as int) =~= v@.take(i as int).push(v@[i as int]));
        }
        i = i + 1;
    }
    proof {
        assert(v@.take(v@.len() as int) =~= v@);
    }
    r
}

/// The store: every item beside its history, in the order the items were
/// created. Reads and writes go through the typed operations below, which
/// keep the store well formed.
pub struct Schema {
    entries: Vec<ItemEntry>,
}

impl View for Schema {
    type V = AuctionState;

    closed spec fn view(&self) -> AuctionState {
        AuctionState {
            entries: Map::new(
                |id: u64| seq_lookup(self.entries@, id) is Some,
                |id: u64| seq_lookup(self.entries@, id).unwrap(),
            ),
        }
    }
}

impl Schema {
    /// Identifiers are unique and every stored entry is well formed.
    pub closed spec fn wf(self) -> bool {
        &&& forall|p: int, q: int|
            #![trigger self.entries@[p].item.item_id, self.entries@[q].item.item_id]
            0 <= p < q < self.entries@.len() ==> self.entries@[p].item.item_id
                != self.entries@[q].item.item_id
        &&& forall|i: int| 0 <= i < self.entries@.len() ==> entry_inv(#[trigger] self.entries@[i]@)
    }

    /// A well-formed store satisfies the model invariant: every entry is
    /// keyed by its own identifier, its `history_len` is its history's
    /// length, and its `history_hash` is that history's commitment.
    pub proof fn lemma_wf_state_inv(self)
        requires
            self.wf(),
        ensures
            state_inv(self@),
    {
        assert forall|id: u64| #[trigger] self@.entries.contains_key(id) implies entry_inv(
            self@.entries[id],
        ) && self@.entries[id].item.item_id == id by {
            lemma_lookup_exists(self.entries@, id);
            let i = choose|i: int|
                0 <= i < self.entries@.len() && self.entries@[i].item.item_id == id;
            lemma_lookup_at(self.entries@, id, i);
            assert(self@.entries[id] == self.entries@[i]@);
            assert(entry_inv(self.entries@[i]@));
        }
    }

    /// An empty store.
    pub fn new() -> (s: Schema)
        ensures
            s.wf(),
            s@ == AuctionState::empty(),
    {
        let s = Schema { entries: Vec::new() };
        proof {
            assert(s@.entries =~= Map::<u64, EntryModel>::empty());
            assert(s@ =~= AuctionState::empty());
        }
        s
    }

    /// Index of the entry holding this identifier, if any.
    fn find_index(&self, item_id: u64) -> (r: Option<usize>)
        ensures
            match r {
                Some(i) => i < self.entries@.len() && self.entries@[i as int].item.item_id
                    == item_id,
                None => forall|j: int|
                    0 <= j < self.entries@.len() ==> self.entries@[j].item.item_id != item_id,
            },
    {
        let mut i: usize = 0;
        while i < self.entries.len()
            invariant
                i <= self.entries@.len(),
                forall|j: int| 0 <= j < i ==> self.entries@[j].item.item_id != item_id,
            decreases self.entries@.len() - i,
        {
            if self.entries[i].item.item_id == item_id {
                return Some(i);
            }
            i = i + 1;
        }
        None
    }

    /// Point lookup of an item record.
    pub fn item(&self, item_id: u64) -> (r: Option<AuctionItem>)
        requires
            self.wf(),
        ensures
            match r {
                Some(it) => self@.entries.contains_key(item_id) && it@
                    == self@.entries[item_id].item,
                None => !self@.entries.contains_key(item_id),
            },
    {
        match self.find_index(item_id) {
            Some(i) => {
                proof {
                    lemma_lookup_at(self.entries@, item_id, i as int);
                }
                let e = &self.entries[i];
                Some(
                    AuctionItem {
                        item_id: e.item.item_id,
                        name: e.item.name.clone(),
                        owner_pub_key: e.item.owner_pub_key,
                        customer_pub_key: e.item.customer_pub_key,
                        bid: e.item.bid,
                        history_len: e.item.history_len,
                        history_hash: e.item.history_hash,
                    },
                )
            },
            None => {
                proof {
                    lemma_lookup_exists(self.entries@, item_id);
                }
                None
            },
        }
    }

    /// The ordered transaction digests of an item's history; empty when the
    /// item does not exist.
    pub fn item_history(&self, item_id: u64) -> (r: Vec<Digest>)
        requires
            self.wf(),
        ensures
            self@.entries.contains_key(item_id) ==> r@ == self@.entries[item_id].history,
            !self@.entries.contains_key(item_id) ==> r@ == Seq::<Digest>::empty(),
    {
        match self.find_index(item_id) {
            Some(i) => {
                proof {
                    lemma_lookup_at(self.entries@, item_id, i as int);
                }
                copy_digests(&self.entries[i].history)
            },
            None => {
                proof {
                    lemma_lookup_exists(self.entries@, item_id);
                }
                Vec::new()
            },
        }
    }

    /// All item records, in the store's native order. Each stored item
    /// appears exactly once; no order may be assumed by consumers.
    pub fn items(&self) -> (r: Vec<AuctionItem>)
        requires
            self.wf(),
        ensures
            forall|i: int|
                0 <= i < r@.len() ==> self@.entries.contains_key(#[trigger] r@[i]@.item_id) && r@[i]@
                    == self@.entries[r@[i]@.item_id].item,
            forall|id: u64| #[trigger]
                self@.entries.contains_key(id) ==> exists|i: int|
                    0 <= i < r@.len() && r@[i]@.item_id == id,
            forall|i: int, j: int|
                #![trigger r@[i]@.item_id, r@[j]@.item_id]
                0 <= i < j < r@.len() ==> r@[i]@.item_id != r@[j]@.item_id,
    {
        let mut r: Vec<AuctionItem> = Vec::new();
        let mut i: usize = 0;
        while i < self.entries.len()
            invariant
                self.wf(),
                i <= self.entries@.len(),
                r@.len() == i,
                forall|j: int| 0 <= j < i ==> r@[j]@ == #[trigger] self.entries@[j]@.item,
            decreases self.entries@.len() - i,
        {
            let e = &self.entries[i];
            r.push(
                AuctionItem {
                    item_id: e.item.item_id,
                    name: e.item.name.clone(),
                    owner_pub_key: e.item.owner_pub_key,
                    customer_pub_key: e.item.customer_pub_key,
                    bid: e.item.bid,
                    history_len: e.item.history_len,
                    history_hash: e.item.history_hash,
                },
            );
            i = i + 1;
        }
        proof {
            assert forall|i2: int| 0 <= i2 < r@.len() implies self@.entries.contains_key(
                #[trigger] r@[i2]@.item_id,
            ) && r@[i2]@ == self@.entries[r@[i2]@.item_id].item by {
                assert(r@[i2]@ == self.entries@[i2]@.item);
                lemma_lookup_at(self.entries@, self.entries@[i2].item.item_id, i2);
            }
            assert forall|id: u64| #[trigger] self@.entries.contains_key(id) implies exists|i2: int|
                0 <= i2 < r@.len() && r@[i2]@.item_id == id by {
                lemma_lookup_exists(self.entries@, id);
                let i2 = choose|i2: int|
                    0 <= i2 < self.entries@.len() && self.entries@[i2].item.item_id == id;
                assert(r@[i2]@ == self.entries@[i2]@.item);
                assert(r@[i2]@.item_id == id);
            }
            assert forall|i2: int, j2: int|
                #![trigger r@[i2]@.item_id, r@[j2]@.item_id]
                0 <= i2 < j2 < r@.len() implies r@[i2]@.item_id != r@[j2]@.item_id by {
                assert(r@[i2]@ == self.entries@[i2]@.item);
                assert(r@[j2]@ == self.entries@[j2]@.item);
                assert(self.entries@[i2].item.item_id != self.entries@[j2].item.item_id);
            }
        }
        r
    }

    /// The root commitment of the item map, over the store's native order.
    pub closed spec fn commitment(self) -> Digest {
        items_commitment(self.entries@.map(|i: int, e: ItemEntry| e@.item))
    }

    /// The published state commitment: the root commitment of the item map
    /// alone, as a one-element vector.
    #[verifier::rlimit(100)]
    pub fn state_hash(&self) -> (r: Vec<Digest>)
        requires
            self.wf(),
        ensures
            r@ == seq![self.commitment()],
    {
        let ghost items = self.entries@.map(|i: int, e: ItemEntry| e@.item);
        let mut acc = absorb_word(Digest::zero(), self.entries.len() as u64);
        let ghost start = acc;
        let mut i: usize = 0;
        proof {
            assert(items.len() == self.entries@.len());
        }
        while i < self.entries.len()
            invariant
                i <= self.entries@.len(),
                items.len() == self.entries@.len(),
                forall|j: int| 0 <= j < items.len() ==> items[j] == #[trigger] self.entries@[j]@.item,
                acc == spec_items_fold(start, items.take(i as int)),
            decreases self.entries@.len() - i,
        {
            let c = compute_item_commitment(&self.entries[i].item);
            acc = absorb_digest(acc, c);
            proof {
                assert(items[i as int] == self.entries@[i as int]@.item);
                assert(c == item_commitment(items[i as int]));
                assert(items.take(i + 1 as int).drop_last() =~= items.take(i as int));
                assert(items.take(i + 1 as int).last() == items[i as int]);
                assert(spec_items_fold(start, items.take(i + 1 as int)) == crate::commit::spec_absorb_digest(
                    spec_items_fold(start, items.take(i as int)),
                    item_commitment(items[i as int]),
                ));
            }
            i = i + 1;
        }
        proof {
            assert(items.take(items.len() as int) =~= items);
        }
        let mut r: Vec<Digest> = Vec::new();
        r.push(acc);
        proof {
            assert(r@ =~= seq![self.commitment()]);
        }
        r
    }

    /// Create an item: a fresh one-entry history holding the transaction
    /// digest, and a record with the initial bid and the creator as both
    /// owner and customer. The caller has already checked the identifier
    /// is free.
    pub fn create_item(
        &mut self,
        item_id: u64,
        name: &str,
        owner_key: &PublicKey,
        transaction: &Digest,
    )
        requires
            old(self).wf(),
            !old(self)@.entries.contains_key(item_id),
        ensures
            final(self).wf(),
            final(self)@ == apply_create(old(self)@, item_id, name@, *owner_key, *transaction).0,
    {
        let mut history: Vec<Digest> = Vec::new();
        history.push(*transaction);
        proof {
            assert(history@ =~= seq![*transaction]);
        }
        let history_hash = compute_history_commitment(&history);
        let item = AuctionItem {
            item_id,
            name: name.to_owned(),
            owner_pub_key: *owner_key,
            customer_pub_key: *owner_key,
            bid: crate::INITIAL_BID,
            history_len: history.len() as u64,
            history_hash,
        };
        let entry = ItemEntry { item, history };
        let ghost old_entries = self.entries@;
        let ghost new_entry = entry;
        self.entries.push(entry);
        proof {
            lemma_lookup_exists(old_entries, item_id);
            assert forall|k: u64| true implies seq_lookup(self.entries@, k) == (
            if seq_lookup(old_entries, k) is Some {
                seq_lookup(old_entries, k)
            } else if k == item_id {
                Some(new_entry@)
            } else {
                None::<EntryModel>
            }) by {
                assert(self.entries@ =~= old_entries.push(new_entry));
                lemma_lookup_push(old_entries, new_entry, k);
            }
            assert(self@.entries =~= apply_create(
                old(self)@,
                item_id,
                name@,
                *owner_key,
                *transaction,
            ).0.entries);
            assert(self@ =~= apply_create(
                old(self)@,
                item_id,
                name@,
                *owner_key,
                *transaction,
            ).0);
            assert forall|p: int, q: int|
                #![trigger self.entries@[p].item.item_id, self.entries@[q].item.item_id]
                0 <= p < q < self.entries@.len() implies self.entries@[p].item.item_id
                != self.entries@[q].item.item_id by {
                if q == self.entries@.len() - 1 {
                    assert(self.entries@[p] == old_entries[p]);
                }
            }
            assert forall|i: int|
                0 <= i < self.entries@.len() implies entry_inv(#[trigger] self.entries@[i]@) by {
                if i < self.entries@.len() - 1 {
                    assert(self.entries@[i] == old_entries[i]);
                } else {
                    assert(self.entries@[i] == new_entry);
                }
            }
        }
    }

    /// Record an accepted bid: append the transaction digest to the item's
    /// history and replace the stored record with the raised one. The
    /// caller has already checked that the item is stored as given and
    /// that the bid exceeds the current one.
    pub fn raise_bid(
        &mut self,
        item: AuctionItem,
        bid: u64,
        customer_key: &PublicKey,
        transaction: &Digest,
    )
        requires
            old(self).wf(),
            old(self)@.entries.contains_key(item@.item_id),
            old(self)@.entries[item@.item_id].item == item@,
            bid > item@.bid,
            item@.history_len < u64::MAX,
        ensures
            final(self).wf(),
            final(self)@ == apply_raise(
                old(self)@,
                item@.item_id,
                bid,
                *customer_key,
                *transaction,
            ).0,
    {
        let idx = match self.find_index(item.item_id) {
            Some(i) => i,
            None => {
                proof {
                    lemma_lookup_exists(self.entries@, item@.item_id);
                }
                unreached()
            },
        };
        proof {
            lemma_lookup_at(self.entries@, item@.item_id, idx as int);
        }
        let mut history = copy_digests(&self.entries[idx].history);
        history.push(*transaction);
        let history_hash = compute_history_commitment(&history);
        let new_item = item.raise_bid(bid, customer_key, &history_hash);
        let entry = ItemEntry { item: new_item, history };
        let ghost old_entries = self.entries@;
        let ghost new_entry = entry;
        let ghost the_id = item@.item_id;
        self.entries.set(idx, entry);
        proof {
            assert(self.entries@ =~= old_entries.update(idx as int, new_entry));
            assert forall|k: u64| true implies seq_lookup(self.entries@, k) == (
            if k == the_id {
                Some(new_entry@)
            } else {
                seq_lookup(old_entries, k)
            }) by {
                lemma_lookup_update(old_entries, idx as int, new_entry, k);
            }
            assert(new_entry@.history =~= old(self)@.entries[the_id].history.push(*transaction));
            assert(self@.entries =~= apply_raise(
                old(self)@,
                the_id,
                bid,
                *customer_key,
                *transaction,
            ).0.entries);
            assert(self@ =~= apply_raise(
                old(self)@,
                the_id,
                bid,
                *customer_key,
                *transaction,
            ).0);
            assert forall|i: int|
                0 <= i < self.entries@.len() implies entry_inv(#[trigger] self.entries@[i]@) by {
                if i != idx as int {
                    assert(self.entries@[i] == old_entries[i]);
                }
            }
        }
    }
}

} // verus!
