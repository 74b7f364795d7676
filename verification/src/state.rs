//! The mathematical model of the ledger and its transition rules.
//!
//! A state maps each item identifier to the item record and the item's
//! history of transaction digests. The two transition kinds are given as
//! spec functions from state and transaction to next state and result;
//! the executable code in the rest of the crate is proved to follow them
//! exactly, and the laws of the ledger are proved about them here.
use vstd::prelude::*;

use crate::commit::history_commitment;
use crate::transactions::Error;
use crate::types::Digest;
use crate::types::PublicKey;

verus! {

/// Model of one item record.
#[verifier::ext_equal]
pub ghost struct ItemModel {
    pub item_id: u64,
    pub name: Seq<char>,
    pub owner_pub_key: PublicKey,
    pub customer_pub_key: PublicKey,
    pub bid: u64,
    pub history_len: u64,
    pub history_hash: Digest,
}

/// Model of one stored entry: the item record and its history sequence.
#[verifier::ext_equal]
pub ghost struct EntryModel {
    pub item: ItemModel,
    pub history: Seq<Digest>,
}

/// Model of the whole store: item identifier to entry.
#[verifier::ext_equal]
pub ghost struct AuctionState {
    pub entries: Map<u64, EntryModel>,
}

impl AuctionState {
    pub open spec fn empty() -> AuctionState {
        AuctionState { entries: Map::empty() }
    }
}

/// Model of one transaction payload.
pub ghost enum TransactionModel {
    CreateItem { item_id: u64, name: Seq<char>, owner_key: PublicKey },
    RaiseBid { item_id: u64, bid: u64, customer_key: PublicKey },
}

/// The cached fields of a record agree with its history: `history_len` is
/// the history's length and `history_hash` its commitment, the history is
/// never empty, and the bid never sits below the initial bid.
pub open spec fn entry_inv(e: EntryModel) -> bool {
    &&& e.item.history_len == e.history.len()
    &&& e.item.history_hash == history_commitment(e.history)
    &&& e.history.len() >= 1
    &&& e.item.bid >= crate::INITIAL_BID
}

/// Every entry is well formed and keyed by its own item identifier.
pub open spec fn state_inv(s: AuctionState) -> bool {
    forall|id: u64| #[trigger]
        s.entries.contains_key(id) ==> entry_inv(s.entries[id]) && s.entries[id].item.item_id
            == id
}

/// The `CreateItem` transition: rejected when the identifier is taken,
/// otherwise the item appears with the initial bid, the creator as both
/// owner and customer, and a one-entry history.
pub open spec fn apply_create(
    s: AuctionState,
    item_id: u64,
    name: Seq<char>,
    owner_key: PublicKey,
    tx_digest: Digest,
) -> (AuctionState, Result<(), Error>) {
    if s.entries.contains_key(item_id) {
        (s, Err(Error::ItemAlreadyExists))
    } else {
        let history = seq![tx_digest];
        let item = ItemModel {
            item_id,
            name,
            owner_pub_key: owner_key,
            customer_pub_key: owner_key,
            bid: crate::INITIAL_BID,
            history_len: 1,
            history_hash: history_commitment(history),
        };
        (
            AuctionState { entries: s.entries.insert(item_id, EntryModel { item, history }) },
            Ok(()),
        )
    }
}

/// The `RaiseBid` transition: rejected when the item is missing or the bid
/// does not exceed the current one; otherwise the bid and customer are
/// replaced and the transaction digest is appended to the history.
pub open spec fn apply_raise(
    s: AuctionState,
    item_id: u64,
    bid: u64,
    customer_key: PublicKey,
    tx_digest: Digest,
) -> (AuctionState, Result<(), Error>) {
    if !s.entries.contains_key(item_id) {
        (s, Err(Error::ItemNotFound))
    } else if bid <= s.entries[item_id].item.bid {
        (s, Err(Error::SmallBid))
    } else {
        let e = s.entries[item_id];
        let history = e.history.push(tx_digest);
        let item = ItemModel {
            item_id: e.item.item_id,
            name: e.item.name,
            owner_pub_key: e.item.owner_pub_key,
            customer_pub_key: customer_key,
            bid,
            history_len: (e.item.history_len + 1) as u64,
            history_hash: history_commitment(history),
        };
        (
            AuctionState { entries: s.entries.insert(item_id, EntryModel { item, history }) },
            Ok(()),
        )
    }
}

/// One transition of either kind.
pub open spec fn apply_transaction(
    s: AuctionState,
    tx: TransactionModel,
    tx_digest: Digest,
) -> (AuctionState, Result<(), Error>) {
    match tx {
        TransactionModel::CreateItem { item_id, name, owner_key } => apply_create(
            s,
            item_id,
            name,
            owner_key,
            tx_digest,
        ),
        TransactionModel::RaiseBid { item_id, bid, customer_key } => apply_raise(
            s,
            item_id,
            bid,
            customer_key,
            tx_digest,
        ),
    }
}

/// The item identifier a transaction is about.
pub open spec fn tx_item_id(tx: TransactionModel) -> u64 {
    match tx {
        TransactionModel::CreateItem { item_id, .. } => item_id,
        TransactionModel::RaiseBid { item_id, .. } => item_id,
    }
}

/// A whole run: the ordered transactions applied one after the other,
/// rejected ones leaving the state as they found it.
pub open spec fn apply_all(s: AuctionState, txs: Seq<(TransactionModel, Digest)>) -> AuctionState
    decreases txs.len(),
{
    if txs.len() == 0 {
        s
    } else {
        apply_all(apply_transaction(s, txs[0].0, txs[0].1).0, txs.drop_first())
    }
}

/// LAW: a creation on a free identifier succeeds, and the item then holds
/// the initial bid, the creator as both owner and customer, and a history
/// of exactly the creating transaction's digest.
pub proof fn lemma_create_initializes(
    s: AuctionState,
    item_id: u64,
    name: Seq<char>,
    owner_key: PublicKey,
    tx_digest: Digest,
)
    requires
        !s.entries.contains_key(item_id),
    ensures
        ({
            let (s2, r) = apply_create(s, item_id, name, owner_key, tx_digest);
            &&& r == Ok::<(), Error>(())
            &&& s2.entries.contains_key(item_id)
            &&& s2.entries[item_id].item.bid == crate::INITIAL_BID
            &&& s2.entries[item_id].item.owner_pub_key == owner_key
            &&& s2.entries[item_id].item.customer_pub_key == owner_key
            &&& s2.entries[item_id].item.name == name
            &&& s2.entries[item_id].item.history_len == 1
            &&& s2.entries[item_id].history =~= seq![tx_digest]
        }),
{
}

/// LAW: creating an identifier that is already taken fails with
/// `ItemAlreadyExists` and leaves the state exactly as it was.
pub proof fn lemma_duplicate_create_rejected(
    s: AuctionState,
    item_id: u64,
    name: Seq<char>,
    owner_key: PublicKey,
    tx_digest: Digest,
)
    requires
        s.entries.contains_key(item_id),
    ensures
        apply_create(s, item_id, name, owner_key, tx_digest) == (
            s,
            Err::<(), Error>(Error::ItemAlreadyExists),
        ),
{
}

/// LAW: a bid on an identifier with no item behind it fails with
/// `ItemNotFound` and leaves the state exactly as it was.
pub proof fn lemma_missing_item_bid_rejected(
    s: AuctionState,
    item_id: u64,
    bid: u64,
    customer_key: PublicKey,
    tx_digest: Digest,
)
    requires
        !s.entries.contains_key(item_id),
    ensures
        apply_raise(s, item_id, bid, customer_key, tx_digest) == (
            s,
            Err::<(), Error>(Error::ItemNotFound),
        ),
{
}

/// LAW: a bid that does not exceed the item's current bid fails with
/// `SmallBid` and leaves the state exactly as it was.
pub proof fn lemma_small_bid_rejected(
    s: AuctionState,
    item_id: u64,
    bid: u64,
    customer_key: PublicKey,
    tx_digest: Digest,
)
    requires
        s.entries.contains_key(item_id),
        bid <= s.entries[item_id].item.bid,
    ensures
        apply_raise(s, item_id, bid, customer_key, tx_digest) == (
            s,
            Err::<(), Error>(Error::SmallBid),
        ),
{
}

/// LAW: an accepted bid strictly increases the item's bid, makes the
/// bidder the customer, and appends exactly the transaction's digest to
/// the item's history; the item's identity fields are untouched.
pub proof fn lemma_accepted_bid_increases(
    s: AuctionState,
    item_id: u64,
    bid: u64,
    customer_key: PublicKey,
    tx_digest: Digest,
)
    requires
        s.entries.contains_key(item_id),
        bid > s.entries[item_id].item.bid,
    ensures
        ({
            let (s2, r) = apply_raise(s, item_id, bid, customer_key, tx_digest);
            &&& r == Ok::<(), Error>(())
            &&& s2.entries.contains_key(item_id)
            &&& s2.entries[item_id].item.bid == bid
            &&& s2.entries[item_id].item.bid > s.entries[item_id].item.bid
            &&& s2.entries[item_id].item.customer_pub_key == customer_key
            &&& s2.entries[item_id].item.owner_pub_key == s.entries[item_id].item.owner_pub_key
            &&& s2.entries[item_id].item.name == s.entries[item_id].item.name
            &&& s2.entries[item_id].history =~= s.entries[item_id].history.push(tx_digest)
        }),
{
}

/// LAW: every transition keeps the model invariant: each stored record's
/// cached `history_len` and `history_hash` stay the length and the
/// commitment of exactly that item's history sequence.
pub proof fn lemma_transaction_preserves_invariant(
    s: AuctionState,
    tx: TransactionModel,
    tx_digest: Digest,
)
    requires
        state_inv(s),
        s.entries.contains_key(tx_item_id(tx)) ==> s.entries[tx_item_id(tx)].item.history_len
            < u64::MAX,
    ensures
        state_inv(apply_transaction(s, tx, tx_digest).0),
{
    let s2 = apply_transaction(s, tx, tx_digest).0;
    assert forall|id: u64| #[trigger] s2.entries.contains_key(id) implies entry_inv(
        s2.entries[id],
    ) && s2.entries[id].item.item_id == id by {
        if id != tx_item_id(tx) {
            assert(s.entries.contains_key(id));
            assert(s2.entries[id] == s.entries[id]);
        }
    }
}

/// LAW: for the item a transaction touches, an accepted transition appends
/// exactly one digest to its history — the transaction's own — so
/// `history_len` counts the accepted transitions for that identifier; a
/// rejected transition changes nothing, and no other item's entry moves.
pub proof fn lemma_history_tracks_transitions(
    s: AuctionState,
    tx: TransactionModel,
    tx_digest: Digest,
)
    ensures
        ({
            let (s2, r) = apply_transaction(s, tx, tx_digest);
            &&& (r is Ok && s.entries.contains_key(tx_item_id(tx)) ==> s2.entries[tx_item_id(
                tx,
            )].history =~= s.entries[tx_item_id(tx)].history.push(tx_digest))
            &&& (r is Ok && !s.entries.contains_key(tx_item_id(tx)) ==> s2.entries[tx_item_id(
                tx,
            )].history =~= seq![tx_digest])
            &&& (r is Err ==> s2 == s)
            &&& forall|id: u64|
                id != tx_item_id(tx) && #[trigger] s.entries.contains_key(id)
                    ==> s2.entries.contains_key(id) && s2.entries[id] == s.entries[id]
        }),
{
}

/// LAW: the state — and with it everything computed from it, such as the
/// published root commitment — changes exactly on accepted transitions: a
/// rejected transition is a no-op, an accepted one always moves the map.
pub proof fn lemma_state_changes_iff_accepted(
    s: AuctionState,
    tx: TransactionModel,
    tx_digest: Digest,
)
    ensures
        ({
            let (s2, r) = apply_transaction(s, tx, tx_digest);
            r is Ok <==> s2 != s
        }),
{
    let (s2, r) = apply_transaction(s, tx, tx_digest);
    if r is Ok {
        let id = tx_item_id(tx);
        assert(s2.entries.contains_key(id));
        if s.entries.contains_key(id) {
            assert(s2.entries[id].history.len() == s.entries[id].history.len() + 1);
        }
        assert(s2.entries != s.entries);
    }
}

/// LAW: an item, once created, persists through any run of transitions,
/// and its bid never goes down; with `lemma_accepted_bid_increases` this
/// makes the bids observed for an item strictly increasing over the
/// accepted bids of any run.
pub proof fn lemma_bids_monotone_over_run(
    s: AuctionState,
    txs: Seq<(TransactionModel, Digest)>,
    id: u64,
)
    requires
        s.entries.contains_key(id),
    ensures
        apply_all(s, txs).entries.contains_key(id),
        apply_all(s, txs).entries[id].item.bid >= s.entries[id].item.bid,
    decreases txs.len(),
{
    if txs.len() > 0 {
        let s1 = apply_transaction(s, txs[0].0, txs[0].1).0;
        assert(s1.entries.contains_key(id) && s1.entries[id].item.bid >= s.entries[id].item.bid);
        lemma_bids_monotone_over_run(s1, txs.drop_first(), id);
    }
}

} // verus!
