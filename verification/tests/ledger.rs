use auction::api::{AuctionItemQuery, PublicApi, TransactionLog};
use auction::schema::Schema;
use auction::transactions::{AuctionItemTransactions, CreateItem, Error, RaiseBid};
use auction::types::{Digest, PublicKey};
use auction::{Service, ServiceFactory, INITIAL_BID, SERVICE_ID};

fn key(tag: u64) -> PublicKey {
    PublicKey::new(tag, tag.wrapping_mul(3), tag.wrapping_mul(5), tag.wrapping_mul(7))
}

fn digest(tag: u64) -> Digest {
    Digest::new(tag, tag.wrapping_add(1), tag.wrapping_add(2), tag.wrapping_add(3))
}

#[test]
fn create_sets_initial_bid_and_customer() {
    let mut schema = Schema::new();
    let owner = key(1);
    let tx = CreateItem::new(7, String::from("Lamp"), &owner);
    let r = tx.execute(&mut schema, &digest(100));
    assert!(r.is_ok());
    let item = schema.item(7).unwrap();
    assert_eq!(item.bid, INITIAL_BID);
    assert_eq!(item.bid, 50);
    assert_eq!(item.customer_pub_key, owner);
    assert_eq!(item.owner_pub_key, owner);
    assert_eq!(item.name, "Lamp");
    assert_eq!(item.item_id, 7);
    assert_eq!(item.history_len, 1);
}

#[test]
fn duplicate_create_rejected_and_state_unchanged() {
    let mut schema = Schema::new();
    let owner = key(1);
    let other = key(2);
    let first = CreateItem::new(7, String::from("Lamp"), &owner);
    assert!(first.execute(&mut schema, &digest(100)).is_ok());
    let before_item = schema.item(7).unwrap();
    let before_hash = schema.state_hash();
    let before_history = schema.item_history(7);

    let second = CreateItem::new(7, String::from("Impostor"), &other);
    let r = second.execute(&mut schema, &digest(101));
    assert_eq!(r, Err(Error::ItemAlreadyExists));
    assert_eq!(schema.item(7).unwrap(), before_item);
    assert_eq!(schema.state_hash(), before_hash);
    assert_eq!(schema.item_history(7), before_history);
}

#[test]
fn small_bid_rejected_and_state_unchanged() {
    let mut schema = Schema::new();
    let owner = key(1);
    let bidder = key(2);
    CreateItem::new(7, String::from("Lamp"), &owner)
        .execute(&mut schema, &digest(100))
        .unwrap();

    // equal to the current bid is not enough
    let equal = RaiseBid::new(7, INITIAL_BID, &bidder);
    let before_hash = schema.state_hash();
    assert_eq!(equal.execute(&mut schema, &digest(101)), Err(Error::SmallBid));
    assert_eq!(schema.state_hash(), before_hash);
    assert_eq!(schema.item(7).unwrap().bid, INITIAL_BID);
    assert_eq!(schema.item(7).unwrap().history_len, 1);

    // below the current bid is not enough either
    let below = RaiseBid::new(7, 10, &bidder);
    assert_eq!(below.execute(&mut schema, &digest(102)), Err(Error::SmallBid));
    assert_eq!(schema.state_hash(), before_hash);
}

#[test]
fn bid_on_missing_item_rejected() {
    let mut schema = Schema::new();
    let bidder = key(2);
    let before_hash = schema.state_hash();
    let r = RaiseBid::new(99, 1000, &bidder).execute(&mut schema, &digest(100));
    assert_eq!(r, Err(Error::ItemNotFound));
    assert_eq!(schema.state_hash(), before_hash);
    assert!(schema.item(99).is_none());
}

#[test]
fn accepted_bids_strictly_increase() {
    let mut schema = Schema::new();
    let owner = key(1);
    CreateItem::new(1, String::from("Vase"), &owner)
        .execute(&mut schema, &digest(100))
        .unwrap();
    let mut last = schema.item(1).unwrap().bid;
    let bids = [51u64, 75, 200, 201, 10_000];
    for (i, &b) in bids.iter().enumerate() {
        let bidder = key(10 + i as u64);
        RaiseBid::new(1, b, &bidder)
            .execute(&mut schema, &digest(200 + i as u64))
            .unwrap();
        let now = schema.item(1).unwrap().bid;
        assert!(now > last);
        assert_eq!(now, b);
        last = now;
    }
}

#[test]
fn scenario_vase_auction() {
    let mut schema = Schema::new();
    let a = key(1);
    let b = key(2);
    let c = key(3);

    CreateItem::new(1, String::from("Vase"), &a)
        .execute(&mut schema, &digest(100))
        .unwrap();
    let item = schema.item(1).unwrap();
    assert_eq!(item.bid, 50);
    assert_eq!(item.customer_pub_key, a);
    assert_eq!(item.history_len, 1);

    RaiseBid::new(1, 75, &b).execute(&mut schema, &digest(101)).unwrap();
    let item = schema.item(1).unwrap();
    assert_eq!(item.bid, 75);
    assert_eq!(item.customer_pub_key, b);
    assert_eq!(item.history_len, 2);

    let after_b_item = schema.item(1).unwrap();
    let after_b_hash = schema.state_hash();
    let after_b_history = schema.item_history(1);
    let r = RaiseBid::new(1, 60, &c).execute(&mut schema, &digest(102));
    assert_eq!(r, Err(Error::SmallBid));
    assert_eq!(schema.item(1).unwrap(), after_b_item);
    assert_eq!(schema.state_hash(), after_b_hash);
    assert_eq!(schema.item_history(1), after_b_history);

    RaiseBid::new(1, 100, &c).execute(&mut schema, &digest(103)).unwrap();
    let item = schema.item(1).unwrap();
    assert_eq!(item.bid, 100);
    assert_eq!(item.customer_pub_key, c);
    assert_eq!(item.history_len, 3);
}

#[test]
fn history_records_each_accepted_transition() {
    let mut schema = Schema::new();
    let owner = key(1);
    let bidder = key(2);
    let d1 = digest(100);
    let d2 = digest(101);
    CreateItem::new(4, String::from("Chair"), &owner)
        .execute(&mut schema, &d1)
        .unwrap();
    assert_eq!(schema.item_history(4), vec![d1]);
    assert_eq!(schema.item(4).unwrap().history_len, 1);

    RaiseBid::new(4, 60, &bidder).execute(&mut schema, &d2).unwrap();
    assert_eq!(schema.item_history(4), vec![d1, d2]);
    assert_eq!(schema.item(4).unwrap().history_len, 2);

    // a rejected transition appends nothing
    let r = RaiseBid::new(4, 60, &bidder).execute(&mut schema, &digest(102));
    assert_eq!(r, Err(Error::SmallBid));
    assert_eq!(schema.item_history(4), vec![d1, d2]);
    assert_eq!(schema.item(4).unwrap().history_len, 2);
}

#[test]
fn history_of_missing_item_is_empty() {
    let schema = Schema::new();
    assert!(schema.item_history(123).is_empty());
}

#[test]
fn commitment_changes_exactly_on_accepted_transitions() {
    let mut schema = Schema::new();
    let owner = key(1);
    let bidder = key(2);
    let h0 = schema.state_hash();

    CreateItem::new(1, String::from("Vase"), &owner)
        .execute(&mut schema, &digest(100))
        .unwrap();
    let h1 = schema.state_hash();
    assert_ne!(h0, h1);

    // rejected transitions leave the commitment alone
    let r = CreateItem::new(1, String::from("Vase"), &owner).execute(&mut schema, &digest(101));
    assert!(r.is_err());
    assert_eq!(schema.state_hash(), h1);
    let r = RaiseBid::new(1, 10, &bidder).execute(&mut schema, &digest(102));
    assert!(r.is_err());
    assert_eq!(schema.state_hash(), h1);

    RaiseBid::new(1, 75, &bidder).execute(&mut schema, &digest(103)).unwrap();
    let h2 = schema.state_hash();
    assert_ne!(h1, h2);
}

#[test]
fn commitment_is_deterministic_over_replays() {
    let build = || {
        let mut schema = Schema::new();
        CreateItem::new(1, String::from("Vase"), &key(1))
            .execute(&mut schema, &digest(100))
            .unwrap();
        CreateItem::new(2, String::from("Lamp"), &key(2))
            .execute(&mut schema, &digest(101))
            .unwrap();
        RaiseBid::new(1, 90, &key(3))
            .execute(&mut schema, &digest(102))
            .unwrap();
        schema
    };
    let a = build();
    let b = build();
    assert_eq!(a.state_hash(), b.state_hash());
}

#[test]
fn get_items_returns_every_item_once() {
    let mut schema = Schema::new();
    CreateItem::new(1, String::from("Vase"), &key(1))
        .execute(&mut schema, &digest(100))
        .unwrap();
    CreateItem::new(2, String::from("Lamp"), &key(2))
        .execute(&mut schema, &digest(101))
        .unwrap();
    let mut ids: Vec<u64> = PublicApi::get_items(&schema).iter().map(|it| it.item_id).collect();
    ids.sort();
    assert_eq!(ids, vec![1, 2]);
    let items = schema.items();
    assert_eq!(items.len(), 2);
}

#[test]
fn item_info_reconstructs_history() {
    let mut schema = Schema::new();
    let mut log = TransactionLog::new();
    let owner = key(1);
    let bidder = key(2);
    let d1 = digest(100);
    let d2 = digest(101);

    let create = CreateItem::new(1, String::from("Vase"), &owner);
    create.execute(&mut schema, &d1).unwrap();
    log.put(d1, AuctionItemTransactions::CreateItem(create.clone()));

    let bid = RaiseBid::new(1, 75, &bidder);
    bid.execute(&mut schema, &d2).unwrap();
    log.put(d2, AuctionItemTransactions::RaiseBid(bid.clone()));

    let info = PublicApi::item_info(&schema, &log, AuctionItemQuery { item_id: 1 });
    let history = info.item_history.expect("item exists");
    assert_eq!(history.transactions.len(), 2);
    assert_eq!(
        history.transactions[0],
        AuctionItemTransactions::CreateItem(create)
    );
    assert_eq!(history.transactions[1], AuctionItemTransactions::RaiseBid(bid));

    let missing = PublicApi::item_info(&schema, &log, AuctionItemQuery { item_id: 9 });
    assert!(missing.item_history.is_none());
}

#[test]
fn transaction_log_keeps_first_filing() {
    let mut log = TransactionLog::new();
    let d = digest(5);
    let first = AuctionItemTransactions::CreateItem(CreateItem::new(1, String::from("A"), &key(1)));
    let second =
        AuctionItemTransactions::CreateItem(CreateItem::new(2, String::from("B"), &key(2)));
    assert!(log.get(&d).is_none());
    log.put(d, first.clone());
    log.put(d, second);
    assert_eq!(log.get(&d), Some(&first));
}

#[test]
fn error_codes_and_descriptions() {
    assert_eq!(Error::ItemAlreadyExists.code(), 0);
    assert_eq!(Error::ItemNotFound.code(), 1);
    assert_eq!(Error::SmallBid.code(), 3);
    assert_eq!(Error::ItemAlreadyExists.description(), "Auction item already exists");
    assert_eq!(Error::ItemNotFound.description(), "Auction item doesn't exist");
    assert_eq!(Error::SmallBid.description(), "Bid is too small");
}

#[test]
fn author_is_the_signing_key() {
    let owner = key(1);
    let bidder = key(2);
    let create =
        AuctionItemTransactions::CreateItem(CreateItem::new(1, String::from("Vase"), &owner));
    let raise = AuctionItemTransactions::RaiseBid(RaiseBid::new(1, 75, &bidder));
    assert_eq!(*create.author(), owner);
    assert_eq!(*raise.author(), bidder);
    assert_eq!(create.item_id(), 1);
    assert_eq!(raise.item_id(), 1);
}

#[test]
fn dispatch_executes_both_kinds() {
    let mut schema = Schema::new();
    let owner = key(1);
    let bidder = key(2);
    let create =
        AuctionItemTransactions::CreateItem(CreateItem::new(1, String::from("Vase"), &owner));
    assert!(create.execute(&mut schema, &digest(100)).is_ok());
    let raise = AuctionItemTransactions::RaiseBid(RaiseBid::new(1, 75, &bidder));
    assert!(raise.execute(&mut schema, &digest(101)).is_ok());
    let again = AuctionItemTransactions::RaiseBid(RaiseBid::new(1, 75, &bidder));
    assert_eq!(again.execute(&mut schema, &digest(102)), Err(Error::SmallBid));
    assert_eq!(schema.item(1).unwrap().bid, 75);
}

#[test]
fn service_identity_and_state_hash() {
    let service = Service;
    assert_eq!(service.service_id(), SERVICE_ID);
    assert_eq!(service.service_id(), 12);
    assert_eq!(service.service_name(), "auction");
    let mut factory = ServiceFactory;
    assert_eq!(factory.service_name(), "auction");
    let made = factory.make_service();

    let mut schema = Schema::new();
    CreateItem::new(1, String::from("Vase"), &key(1))
        .execute(&mut schema, &digest(100))
        .unwrap();
    assert_eq!(made.state_hash(&schema), schema.state_hash());
    assert_eq!(made.state_hash(&schema).len(), 1);
}

#[test]
fn items_are_independent() {
    let mut schema = Schema::new();
    CreateItem::new(1, String::from("Vase"), &key(1))
        .execute(&mut schema, &digest(100))
        .unwrap();
    CreateItem::new(2, String::from("Lamp"), &key(2))
        .execute(&mut schema, &digest(101))
        .unwrap();
    RaiseBid::new(1, 80, &key(3))
        .execute(&mut schema, &digest(102))
        .unwrap();
    assert_eq!(schema.item(1).unwrap().bid, 80);
    assert_eq!(schema.item(2).unwrap().bid, INITIAL_BID);
    assert_eq!(schema.item_history(2).len(), 1);
}

#[test]
fn commitment_covers_name_and_owner() {
    let base = || {
        let mut schema = Schema::new();
        CreateItem::new(1, String::from("Vase"), &key(1))
            .execute(&mut schema, &digest(100))
            .unwrap();
        schema
    };
    let a = base();

    let mut renamed = Schema::new();
    CreateItem::new(1, String::from("Base"), &key(1))
        .execute(&mut renamed, &digest(100))
        .unwrap();
    assert_ne!(a.state_hash(), renamed.state_hash());

    let mut reowned = Schema::new();
    CreateItem::new(1, String::from("Vase"), &key(9))
        .execute(&mut reowned, &digest(100))
        .unwrap();
    assert_ne!(a.state_hash(), reowned.state_hash());
}

#[test]
fn record_constructors_carry_fields() {
    let owner = key(1);
    let bidder = key(2);
    let h1 = digest(100);
    let h2 = digest(101);
    let item = auction::schema::AuctionItem::new(3, String::from("Desk"), &owner, &owner, 50, 1, &h1);
    assert_eq!(item.item_id, 3);
    assert_eq!(item.customer_pub_key, owner);
    let raised = item.raise_bid(66, &bidder, &h2);
    assert_eq!(raised.item_id, 3);
    assert_eq!(raised.name, "Desk");
    assert_eq!(raised.owner_pub_key, owner);
    assert_eq!(raised.customer_pub_key, bidder);
    assert_eq!(raised.bid, 66);
    assert_eq!(raised.history_len, 2);
    assert_eq!(raised.history_hash, h2);
}
