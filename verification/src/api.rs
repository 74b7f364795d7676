//! The read-only query surface the host's API layer serves from.
//!
//! The host keeps a global log of every committed transaction, keyed by
//! digest; it is modelled here as plain data, so that reconstructing an
//! item's history from its stored digests is verified end to end. The
//! HTTP plumbing itself, and handing a submitted transaction to the
//! host's pending pool, stay with the host.
use vstd::prelude::*;

use crate::schema::AuctionItem;
use crate::schema::Schema;
use crate::transactions::AuctionItemTransactions;
use crate::types::Digest;

verus! {

/// Query naming one item.
#[derive(Clone, Copy, Debug, PartialEq, Eq, Structural)]
pub struct AuctionItemQuery {
    pub item_id: u64,
}

/// An item's reconstructed history: the original transactions, oldest
/// first.
#[derive(Clone, Debug, PartialEq)]
pub struct AuctionItemHistory {
    pub transactions: Vec<AuctionItemTransactions>,
}

/// Answer to an item query: the history when the item exists.
#[derive(Clone, Debug, PartialEq)]
pub struct AuctionItemInfo {
    pub item_history: Option<AuctionItemHistory>,
}

/// Answer to a submitted transaction: the digest it is filed under.
#[derive(Clone, Copy, Debug, PartialEq, Eq, Structural)]
pub struct TransactionResponse {
    pub tx_hash: Digest,
}

/// First transaction filed under the given digest, scanned from the front.
spec fn log_lookup(s: Seq<(Digest, AuctionItemTransactions)>, d: Digest) -> Option<
    AuctionItemTransactions,
>
    decreases s.len(),
{
    if s.len() == 0 {
        None
    } else if s[0].0 == d {
        Some(s[0].1)
    } else {
        log_lookup(s.drop_first(), d)
    }
}

proof fn lemma_log_lookup_first(s: Seq<(Digest, AuctionItemTransactions)>, d: Digest, i: int)
    requires
        0 <= i < s.len(),
        s[i].0 == d,
        forall|j: int| 0 <= j < i ==> s[j].0 != d,
    ensures
        log_lookup(s, d) == Some(s[i].1),
    decreases s.len(),
{
    if i > 0 {
        assert(s.drop_first()[i - 1] == s[i]);
        lemma_log_lookup_first(s.drop_first(), d, i - 1);
    }
}

proof fn lemma_log_lookup_none(s: Seq<(Digest, AuctionItemTransactions)>, d: Digest)
    requires
        forall|j: int| 0 <= j < s.len() ==> s[j].0 != d,
    ensures
        log_lookup(s, d) is None,
    decreases s.len(),
{
    if s.len() > 0 {
        lemma_log_lookup_none(s.drop_first(), d);
    }
}

proof fn lemma_log_lookup_push(
    s: Seq<(Digest, AuctionItemTransactions)>,
    e: (Digest, AuctionItemTransactions),
    d: Digest,
)
    ensures
        log_lookup(s.push(e), d) == (if log_lookup(s, d) is Some {
            log_lookup(s, d)
        } else if e.0 == d {
            Some(e.1)
        } else {
            None::<AuctionItemTransactions>
        }),
    decreases s.len(),
{
    if s.len() == 0 {
        assert(s.push(e)[0] == e);
        assert(s.push(e).drop_first() =~= Seq::<(Digest, AuctionItemTransactions)>::empty());
        assert(log_lookup(s, d) is None);
        if e.0 == d {
            assert(log_lookup(s.push(e), d) == Some(e.1));
        } else {
            assert(log_lookup(s.push(e), d) == log_lookup(
                Seq::<(Digest, AuctionItemTransactions)>::empty(),
                d,
            ));
            assert(log_lookup(s.push(e), d) is None);
        }
    } else {
        assert(s.push(e)[0] == s[0]);
        assert(s.push(e).drop_first() =~= s.drop_first().push(e));
        lemma_log_lookup_push(s.drop_first(), e, d);
        if s[0].0 == d {
            assert(log_lookup(s, d) == Some(s[0].1));
            assert(log_lookup(s.push(e), d) == Some(s[0].1));
        } else {
            assert(log_lookup(s.push(e), d) == log_lookup(s.drop_first().push(e), d));
            assert(log_lookup(s, d) == log_lookup(s.drop_first(), d));
        }
    }
}

/// The host's global log of committed transactions, keyed by the digest
/// of each signed payload. A digest filed once is never re-filed: the
/// first filing wins.
pub struct TransactionLog {
    entries: Vec<(Digest, AuctionItemTransactions)>,
}

impl TransactionLog {
    /// The transaction filed under a digest, if any.
    pub closed spec fn spec_get(self, d: Digest) -> Option<AuctionItemTransactions> {
        log_lookup(self.entries@, d)
    }

    pub open spec fn contains(self, d: Digest) -> bool {
        self.spec_get(d) is Some
    }

    /// An empty log.
    pub fn new() -> (r: TransactionLog)
        ensures
            forall|d: Digest| !r.contains(d),
    {
        let r = TransactionLog { entries: Vec::new() };
        proof {
            assert forall|d: Digest| !r.contains(d) by {
                assert(r.spec_get(d) is None);
            }
        }
        r
    }

    /// File a transaction under its digest; an already-filed digest keeps
    /// its first filing.
    pub fn put(&mut self, tx_digest: Digest, tx: AuctionItemTransactions)
        ensures
            final(self).spec_get(tx_digest) == (if old(self).contains(tx_digest) {
                old(self).spec_get(tx_digest)
            } else {
                Some(tx)
            }),
            forall|d: Digest|
                d != tx_digest ==> final(self).spec_get(d) == old(self).spec_get(d),
    {
        let ghost old_entries = self.entries@;
        self.entries.push((tx_digest, tx));
        proof {
            assert forall|d: Digest| true implies log_lookup(self.entries@, d) == (
            if log_lookup(old_entries, d) is Some {
                log_lookup(old_entries, d)
            } else if d == tx_digest {
                Some(tx)
            } else {
                None::<AuctionItemTransactions>
            }) by {
                assert(self.entries@ =~= old_entries.push((tx_digest, tx)));
                lemma_log_lookup_push(old_entries, (tx_digest, tx), d);
            }
        }
    }

    /// Look a digest up.
    pub fn get(&self, tx_digest: &Digest) -> (r: Option<&AuctionItemTransactions>)
        ensures
            match r {
                Some(tx) => self.spec_get(*tx_digest) == Some(*tx),
                None => self.spec_get(*tx_digest) is None,
            },
    {
        let mut i: usize = 0;
        while i < self.entries.len()
            invariant
                i <= self.entries@.len(),
                forall|j: int| 0 <= j < i ==> self.entries@[j].0 != *tx_digest,
            decreases self.entries@.len() - i,
        {
            if self.entries[i].0 == *tx_digest {
                proof {
                    lemma_log_lookup_first(self.entries@, *tx_digest, i as int);
                }
                return Some(&self.entries[i].1);
            }
            i = i + 1;
        }
        proof {
            lemma_log_lookup_none(self.entries@, *tx_digest);
        }
        None
    }
}

/// A copy of a transaction with the same payload.
fn copy_transaction(tx: &AuctionItemTransactions) -> (r: AuctionItemTransactions)
    ensures
        r@ == tx@,
{
    match tx {
        AuctionItemTransactions::CreateItem(t) => AuctionItemTransactions::CreateItem(
            crate::transactions::CreateItem {
                item_id: t.item_id,
                name: t.name.clone(),
                owner_key: t.owner_key,
            },
        ),
        AuctionItemTransactions::RaiseBid(t) => AuctionItemTransactions::RaiseBid(
            crate::transactions::RaiseBid {
                item_id: t.item_id,
                bid: t.bid,
                customer_key: t.customer_key,
            },
        ),
    }
}

/// The read endpoints, over a point-in-time snapshot of the store.
pub struct PublicApi;

impl PublicApi {
    /// An item's fully reconstructed history: each stored digest looked up
    /// in the host's transaction log, oldest first; nothing for an item
    /// that does not exist. Every digest an existing item's history holds
    /// must still be filed in the log.
    pub fn item_info(schema: &Schema, log: &TransactionLog, query: AuctionItemQuery) -> (r:
        AuctionItemInfo)
        requires
            schema.wf(),
            schema@.entries.contains_key(query.item_id) ==> forall|j: int|
                0 <= j < schema@.entries[query.item_id].history.len() ==> log.contains(
                    #[trigger] schema@.entries[query.item_id].history[j],
                ),
        ensures
            (r.item_history is Some) <==> schema@.entries.contains_key(query.item_id),
            schema@.entries.contains_key(query.item_id) ==> ({
                let h = schema@.entries[query.item_id].history;
                let txs = r.item_history.unwrap().transactions;
                &&& txs@.len() == h.len()
                &&& forall|j: int|
                    0 <= j < h.len() ==> #[trigger] txs@[j]@ == log.spec_get(h[j]).unwrap()@
            }),
    {
        match schema.item(query.item_id) {
            None => AuctionItemInfo { item_history: None },
            Some(_) => {
                let history = schema.item_history(query.item_id);
                let ghost h = schema@.entries[query.item_id].history;
                let mut transactions: Vec<AuctionItemTransactions> = Vec::new();
                let mut i: usize = 0;
                while i < history.len()
                    invariant
                        i <= history@.len(),
                        history@ == h,
                        forall|j: int|
                            0 <= j < h.len() ==> (log.contains(#[trigger] h[j])),
                        transactions@.len() == i,
                        forall|j: int|
                            0 <= j < i ==> #[trigger] transactions@[j]@ == log.spec_get(
                                h[j],
                            ).unwrap()@,
                    decreases history@.len() - i,
                {
                    let tx = match log.get(&history[i]) {
                        Some(tx) => tx,
                        None => unreached(),
                    };
                    transactions.push(copy_transaction(tx));
                    i = i + 1;
                }
                AuctionItemInfo { item_history: Some(AuctionItemHistory { transactions }) }
            },
        }
    }

    /// All items currently stored, each exactly once, in the store's
    /// native order.
    pub fn get_items(schema: &Schema) -> (r: Vec<AuctionItem>)
        requires
            schema.wf(),
        ensures
            forall|i: int|
                0 <= i < r@.len() ==> schema@.entries.contains_key(#[trigger] r@[i]@.item_id)
                    && r@[i]@ == schema@.entries[r@[i]@.item_id].item,
            forall|id: u64| #[trigger]
                schema@.entries.contains_key(id) ==> exists|i: int|
                    0 <= i < r@.len() && r@[i]@.item_id == id,
            forall|i: int, j: int|
                #![trigger r@[i]@.item_id, r@[j]@.item_id]
                0 <= i < j < r@.len() ==> r@[i]@.item_id != r@[j]@.item_id,
    {
        schema.items()
    }
}

} // verus!
