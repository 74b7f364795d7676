//! The two transaction kinds and their execution against the store.
//!
//! A transaction arrives from the host already ordered and carrying the
//! digest of its signed payload; the host has dropped it if the signature
//! did not verify under the key that `author` names. Execution either
//! applies the transition of `crate::state` exactly, or rejects and leaves
//! the store untouched.
use vstd::prelude::*;

use crate::schema::Schema;
use crate::state::apply_transaction;
use crate::state::TransactionModel;
use crate::types::Digest;
use crate::types::PublicKey;

verus! {

/// The terminal rejections a transition can end in.
#[derive(Clone, Copy, Debug, PartialEq, Eq, Structural)]
pub enum Error {
    /// Creation named an identifier that is already taken.
    ItemAlreadyExists,
    /// A bid named an identifier with no item behind it.
    ItemNotFound,
    /// A bid did not exceed the item's current bid.
    SmallBid,
}

impl Error {
    /// The stable numeric code of each rejection, as the host reports it.
    pub open spec fn spec_code(self) -> u8 {
        match self {
            Error::ItemAlreadyExists => 0,
            Error::ItemNotFound => 1,
            Error::SmallBid => 3,
        }
    }

    pub fn code(&self) -> (r: u8)
        ensures
            r == self.spec_code(),
    {
        match self {
            Error::ItemAlreadyExists => 0,
            Error::ItemNotFound => 1,
            Error::SmallBid => 3,
        }
    }

    /// The human-readable description of each rejection.
    pub fn description(&self) -> (r: &'static str)
        ensures
            self is ItemAlreadyExists ==> r@ == "Auction item already exists"@,
            self is ItemNotFound ==> r@ == "Auction item doesn't exist"@,
            self is SmallBid ==> r@ == "Bid is too small"@,
    {
        match self {
            Error::ItemAlreadyExists => "Auction item already exists",
            Error::ItemNotFound => "Auction item doesn't exist",
            Error::SmallBid => "Bid is too small",
        }
    }
}

/// Payload of an item creation, signed by `owner_key`.
#[derive(Clone, Debug, PartialEq)]
pub struct CreateItem {
    pub item_id: u64,
    pub name: String,
    pub owner_key: PublicKey,
}

impl View for CreateItem {
    type V = TransactionModel;

    open spec fn view(&self) -> TransactionModel {
        TransactionModel::CreateItem {
            item_id: self.item_id,
            name: self.name@,
            owner_key: self.owner_key,
        }
    }
}

impl CreateItem {
    pub fn new(item_id: u64, name: String, owner_key: &PublicKey) -> (r: CreateItem)
        ensures
            r@ == (TransactionModel::CreateItem { item_id, name: name@, owner_key: *owner_key }),
    {
        CreateItem { item_id, name, owner_key: *owner_key }
    }

    /// Execute against the store: reject when the identifier is taken,
    /// otherwise create the item, exactly as `apply_create` states.
    pub fn execute(&self, schema: &mut Schema, tx_digest: &Digest) -> (r: Result<(), Error>)
        requires
            old(schema).wf(),
        ensures
            final(schema).wf(),
            (final(schema)@, r) == apply_transaction(old(schema)@, self@, *tx_digest),
            r is Err ==> *final(schema) == *old(schema),
            r is Ok <==> !old(schema)@.entries.contains_key(self.item_id),
    {
        match schema.item(self.item_id) {
            None => {
                schema.create_item(self.item_id, self.name.as_str(), &self.owner_key, tx_digest);
                Ok(())
            },
            Some(_) => Err(Error::ItemAlreadyExists),
        }
    }
}

/// Payload of a bid raise, signed by `customer_key`.
#[derive(Clone, Debug, PartialEq)]
pub struct RaiseBid {
    pub item_id: u64,
    pub bid: u64,
    pub customer_key: PublicKey,
}

impl View for RaiseBid {
    type V = TransactionModel;

    open spec fn view(&self) -> TransactionModel {
        TransactionModel::RaiseBid {
            item_id: self.item_id,
            bid: self.bid,
            customer_key: self.customer_key,
        }
    }
}

impl RaiseBid {
    pub fn new(item_id: u64, bid: u64, customer_key: &PublicKey) -> (r: RaiseBid)
        ensures
            r@ == (TransactionModel::RaiseBid { item_id, bid, customer_key: *customer_key }),
    {
        RaiseBid { item_id, bid, customer_key: *customer_key }
    }

    /// Execute against the store: reject a missing item or a bid that does
    /// not exceed the current one, otherwise record the bid, exactly as
    /// `apply_raise` states.
    pub fn execute(&self, schema: &mut Schema, tx_digest: &Digest) -> (r: Result<(), Error>)
        requires
            old(schema).wf(),
            old(schema)@.entries.contains_key(self.item_id) ==> old(schema)@.entries[self.item_id].item.history_len
                < u64::MAX,
        ensures
            final(schema).wf(),
            (final(schema)@, r) == apply_transaction(old(schema)@, self@, *tx_digest),
            r is Err ==> *final(schema) == *old(schema),
            r is Ok <==> old(schema)@.entries.contains_key(self.item_id) && self.bid > old(
                schema,
            )@.entries[self.item_id].item.bid,
    {
        proof {
            schema.lemma_wf_state_inv();
        }
        match schema.item(self.item_id) {
            Some(item) => {
                if self.bid > item.bid {
                    schema.raise_bid(item, self.bid, &self.customer_key, tx_digest);
                    Ok(())
                } else {
                    Err(Error::SmallBid)
                }
            },
            None => Err(Error::ItemNotFound),
        }
    }
}

/// The fixed set of transaction kinds this service accepts.
#[derive(Clone, Debug, PartialEq)]
pub enum AuctionItemTransactions {
    CreateItem(CreateItem),
    RaiseBid(RaiseBid),
}

impl View for AuctionItemTransactions {
    type V = TransactionModel;

    open spec fn view(&self) -> TransactionModel {
        match self {
            AuctionItemTransactions::CreateItem(tx) => tx@,
            AuctionItemTransactions::RaiseBid(tx) => tx@,
        }
    }
}

impl AuctionItemTransactions {
    /// The key the host must have verified the payload's signature under:
    /// the owner for a creation, the bidder for a bid.
    pub fn author(&self) -> (r: &PublicKey)
        ensures
            match self@ {
                TransactionModel::CreateItem { owner_key, .. } => *r == owner_key,
                TransactionModel::RaiseBid { customer_key, .. } => *r == customer_key,
            },
    {
        match self {
            AuctionItemTransactions::CreateItem(tx) => &tx.owner_key,
            AuctionItemTransactions::RaiseBid(tx) => &tx.customer_key,
        }
    }

    /// The item identifier the transaction is about.
    pub fn item_id(&self) -> (r: u64)
        ensures
            r == crate::state::tx_item_id(self@),
    {
        match self {
            AuctionItemTransactions::CreateItem(tx) => tx.item_id,
            AuctionItemTransactions::RaiseBid(tx) => tx.item_id,
        }
    }

    /// Execute one ordered transaction of either kind against the store.
    pub fn execute(&self, schema: &mut Schema, tx_digest: &Digest) -> (r: Result<(), Error>)
        requires
            old(schema).wf(),
            old(schema)@.entries.contains_key(crate::state::tx_item_id(self@)) ==> old(
                schema,
            )@.entries[crate::state::tx_item_id(self@)].item.history_len < u64::MAX,
        ensures
            final(schema).wf(),
            (final(schema)@, r) == apply_transaction(old(schema)@, self@, *tx_digest),
            r is Err ==> *final(schema) == *old(schema),
    {
        match self {
            AuctionItemTransactions::CreateItem(tx) => tx.execute(schema, tx_digest),
            AuctionItemTransactions::RaiseBid(tx) => tx.execute(schema, tx_digest),
        }
    }
}

} // verus!
