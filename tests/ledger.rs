use metabricks::error::MetaBricksError;
use metabricks::ledger::{
    get_brick_info, initialize, purchase_brick, purchase_guard, update_authority, BrickStatus,
    ProgramState, PurchaseRecord, TOTAL_BRICKS,
};

fn fresh() -> ProgramState {
    initialize([1u8; 32], 254)
}

#[test]
fn initialize_sets_inventory() {
    let s = fresh();
    assert_eq!(s.authority, [1u8; 32]);
    assert_eq!(s.total_bricks, 432);
    assert_eq!(TOTAL_BRICKS, 432);
    assert_eq!(s.bricks_sold, 0);
    assert_eq!(s.total_revenue, 0);
    assert_eq!(s.bump, 254);
}

#[test]
fn first_purchase_sells_then_second_fails() {
    let mut s = fresh();
    let rec = purchase_brick(&mut s, &None, 7, 500, "ipfs://a".to_string(), [2u8; 32], 1_700_000_000, 251, true)
        .unwrap();
    assert!(rec.is_sold);
    assert_eq!(rec.brick_id, 7);
    assert_eq!(rec.buyer, [2u8; 32]);
    assert_eq!(rec.price_lamports, 500);
    assert_eq!(rec.purchase_timestamp, 1_700_000_000);
    assert_eq!(rec.metadata_uri, "ipfs://a");
    assert_eq!(rec.bump, 251);
    assert_eq!(s.bricks_sold, 1);
    assert_eq!(s.total_revenue, 500);
    let before = s;
    let again = purchase_brick(&mut s, &Some(rec), 7, 900, "x".to_string(), [3u8; 32], 5, 251, true);
    assert_eq!(again, Err(MetaBricksError::BrickAlreadySold));
    assert_eq!(s, before);
}

#[test]
fn out_of_range_ids_refused() {
    for id in [0u32, 433, u32::MAX] {
        let mut s = fresh();
        let r = purchase_brick(&mut s, &None, id, 1, String::new(), [2u8; 32], 0, 0, true);
        assert_eq!(r, Err(MetaBricksError::InvalidBrickId));
        assert_eq!(s, fresh());
    }
    assert_eq!(purchase_guard(&None, 1, &String::new()), Ok(()));
    assert_eq!(purchase_guard(&None, 432, &String::new()), Ok(()));
}

#[test]
fn two_attempts_on_one_brick_sell_it_once() {
    let mut s = fresh();
    let first = purchase_brick(&mut s, &None, 7, 100, "a".to_string(), [2u8; 32], 10, 250, true);
    let record = first.clone().ok();
    let second = purchase_brick(&mut s, &record, 7, 100, "b".to_string(), [3u8; 32], 11, 250, true);
    assert!(first.is_ok());
    assert_eq!(second, Err(MetaBricksError::BrickAlreadySold));
    assert_eq!(s.bricks_sold, 1);
    assert_eq!(s.total_revenue, 100);
}

#[test]
fn failed_payment_moves_nothing() {
    let mut s = fresh();
    let r = purchase_brick(&mut s, &None, 3, 100, "a".to_string(), [2u8; 32], 10, 250, false);
    assert_eq!(r, Err(MetaBricksError::DelegatedCallFailed));
    assert_eq!(s, fresh());
}

#[test]
fn unsold_record_can_be_bought() {
    let mut s = fresh();
    let unsold = PurchaseRecord {
        brick_id: 3,
        buyer: [0u8; 32],
        purchase_timestamp: 0,
        price_lamports: 0,
        metadata_uri: String::new(),
        is_sold: false,
        bump: 0,
    };
    assert!(purchase_brick(&mut s, &Some(unsold), 3, 1, "a".to_string(), [2u8; 32], 1, 1, true).is_ok());
    assert_eq!(s.bricks_sold, 1);
}

#[test]
fn uri_budget_is_two_hundred_bytes() {
    let mut s = fresh();
    let ok = "a".repeat(200);
    let long = "a".repeat(201);
    assert_eq!(purchase_guard(&None, 1, &ok), Ok(()));
    let r = purchase_brick(&mut s, &None, 1, 1, long, [2u8; 32], 1, 1, true);
    assert_eq!(r, Err(MetaBricksError::MetadataTooLong));
    assert_eq!(s, fresh());
    assert_eq!(purchase_guard(&None, 1, &"é".repeat(101)), Err(MetaBricksError::MetadataTooLong));
}

#[test]
fn update_authority_by_stranger_refused() {
    let mut s = fresh();
    assert_eq!(update_authority(&mut s, [8u8; 32], [9u8; 32]), Err(MetaBricksError::Unauthorized));
    assert_eq!(s, fresh());
}

#[test]
fn update_authority_by_authority_changes_only_it() {
    let mut s = fresh();
    s.bricks_sold = 4;
    s.total_revenue = 77;
    let before = s;
    assert_eq!(update_authority(&mut s, [1u8; 32], [9u8; 32]), Ok(()));
    assert_eq!(s, ProgramState { authority: [9u8; 32], ..before });
}

#[test]
fn brick_info_reports_state() {
    assert_eq!(get_brick_info(&None, 12), BrickStatus::Available { brick_id: 12 });
    let rec = PurchaseRecord {
        brick_id: 12,
        buyer: [4u8; 32],
        purchase_timestamp: -5,
        price_lamports: 42,
        metadata_uri: "m".to_string(),
        is_sold: true,
        bump: 3,
    };
    assert_eq!(
        get_brick_info(&Some(rec.clone()), 12),
        BrickStatus::Sold {
            brick_id: 12,
            buyer: [4u8; 32],
            purchase_timestamp: -5,
            price_lamports: 42,
            metadata_uri: "m".to_string(),
        }
    );
    let unsold = PurchaseRecord { is_sold: false, ..rec };
    assert_eq!(get_brick_info(&Some(unsold), 12), BrickStatus::Available { brick_id: 12 });
}

#[test]
fn counter_overflow_refused_before_sale() {
    let mut s = fresh();
    s.total_revenue = u64::MAX - 1;
    let before = s;
    let r = purchase_brick(&mut s, &None, 5, 2, String::new(), [2u8; 32], 0, 0, true);
    assert_eq!(r, Err(MetaBricksError::CounterOverflow));
    assert_eq!(s, before);
    assert!(purchase_brick(&mut s, &None, 5, 1, String::new(), [2u8; 32], 0, 0, true).is_ok());
    assert_eq!(s.total_revenue, u64::MAX);
    let mut full = fresh();
    full.bricks_sold = u32::MAX;
    let r = purchase_brick(&mut full, &None, 5, 0, String::new(), [2u8; 32], 0, 0, true);
    assert_eq!(r, Err(MetaBricksError::CounterOverflow));
}
