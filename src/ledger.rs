use vstd::prelude::*;
use vstd::utf8::encode_utf8;
use crate::error::MetaBricksError;

verus! {

/// Number of bricks in the inventory; ids run from 1 to this value.
pub const TOTAL_BRICKS: u32 = 432;

/// Largest metadata uri, in UTF-8 bytes, that a purchase record holds.
pub const MAX_RECORD_URI_LEN: usize = 200;

/// The program's singleton aggregate record.
#[derive(Clone, Copy, Debug, PartialEq, Eq)]
pub struct ProgramState {
    pub authority: [u8; 32],
    pub total_bricks: u32,
    pub bricks_sold: u32,
    pub total_revenue: u64,
    pub bump: u8,
}

/// The record of one brick's sale.
#[derive(Clone, Debug, PartialEq, Eq)]
pub struct PurchaseRecord {
    pub brick_id: u32,
    pub buyer: [u8; 32],
    pub purchase_timestamp: i64,
    pub price_lamports: u64,
    pub metadata_uri: String,
    pub is_sold: bool,
    pub bump: u8,
}

/// What a query reports of one brick.
#[derive(Clone, Debug, PartialEq, Eq)]
pub enum BrickStatus {
    Available { brick_id: u32 },
    Sold {
        brick_id: u32,
        buyer: [u8; 32],
        purchase_timestamp: i64,
        price_lamports: u64,
        metadata_uri: String,
    },
}

/// True when two identities hold the same bytes.
pub fn same_key(a: &[u8; 32], b: &[u8; 32]) -> (r: bool)
    ensures
        r == (a@ == b@),
{
    let mut i: usize = 0;
    while i < 32
        invariant
            0 <= i <= 32,
            a@.len() == 32,
            b@.len() == 32,
            forall|j: int| 0 <= j < i ==> a@[j] == b@[j],
        decreases 32 - i,
    {
        if a[i] != b[i] {
            return false;
        }
        i = i + 1;
    }
    assert(a@ =~= b@);
    true
}

/// A brick id lies in the inventory.
pub open spec fn valid_brick_id(brick_id: u32) -> bool {
    1 <= brick_id <= TOTAL_BRICKS
}

/// The existing record, if any, marks the brick sold.
pub open spec fn already_sold(record: Option<PurchaseRecord>) -> bool {
    record matches Some(r) && r.is_sold
}

/// The error a purchase meets before any payment is asked for, if any.
pub open spec fn purchase_guard_error(
    record: Option<PurchaseRecord>,
    brick_id: u32,
    metadata_uri: Seq<char>,
) -> Option<MetaBricksError> {
    if !valid_brick_id(brick_id) {
        Some(MetaBricksError::InvalidBrickId)
    } else if already_sold(record) {
        Some(MetaBricksError::BrickAlreadySold)
    } else if encode_utf8(metadata_uri).len() > MAX_RECORD_URI_LEN {
        Some(MetaBricksError::MetadataTooLong)
    } else {
        None
    }
}

/// One more sale at `price_lamports` would not fit the counters.
pub open spec fn counters_overflow(s: ProgramState, price_lamports: u64) -> bool {
    s.bricks_sold == u32::MAX || s.total_revenue + price_lamports > u64::MAX
}

/// The error a purchase meets before payment: the guard's, else a counter
/// that would overflow.
pub open spec fn presale_error(
    s: ProgramState,
    record: Option<PurchaseRecord>,
    brick_id: u32,
    price_lamports: u64,
    metadata_uri: Seq<char>,
) -> Option<MetaBricksError> {
    match purchase_guard_error(record, brick_id, metadata_uri) {
        Some(e) => Some(e),
        None => if counters_overflow(s, price_lamports) {
            Some(MetaBricksError::CounterOverflow)
        } else {
            None
        },
    }
}

/// The error a purchase ends with, if any: the checks before payment, else a
/// failed payment.
pub open spec fn purchase_error(
    s: ProgramState,
    record: Option<PurchaseRecord>,
    brick_id: u32,
    price_lamports: u64,
    metadata_uri: Seq<char>,
    payment_confirmed: bool,
) -> Option<MetaBricksError> {
    match presale_error(s, record, brick_id, price_lamports, metadata_uri) {
        Some(e) => Some(e),
        None => if payment_confirmed {
            None
        } else {
            Some(MetaBricksError::DelegatedCallFailed)
        },
    }
}

/// The program state after one sale at `price_lamports`.
pub open spec fn after_sale(s: ProgramState, price_lamports: u64) -> ProgramState {
    ProgramState {
        bricks_sold: (s.bricks_sold + 1) as u32,
        total_revenue: (s.total_revenue + price_lamports) as u64,
        ..s
    }
}

/// The state that `initialize` creates for `authority`.
pub fn initialize(authority: [u8; 32], bump: u8) -> (r: ProgramState)
    ensures
        r.authority == authority,
        r.total_bricks == TOTAL_BRICKS,
        r.bricks_sold == 0,
        r.total_revenue == 0,
        r.bump == bump,
{
    ProgramState { authority, total_bricks: TOTAL_BRICKS, bricks_sold: 0, total_revenue: 0, bump }
}

/// Checks a purchase before the payment is made; mutates nothing.
pub fn purchase_guard(record: &Option<PurchaseRecord>, brick_id: u32, metadata_uri: &String) -> (r:
    Result<(), MetaBricksError>)
    ensures
        match purchase_guard_error(*record, brick_id, metadata_uri@) {
            Some(e) => r == Err::<(), MetaBricksError>(e),
            None => r is Ok,
        },
{
    if brick_id < 1 || brick_id > TOTAL_BRICKS {
        return Err(MetaBricksError::InvalidBrickId);
    }
    match record {
        Some(rec) => {
            if rec.is_sold {
                return Err(MetaBricksError::BrickAlreadySold);
            }
        },
        None => {},
    }
    let uri_len = metadata_uri.as_str().as_bytes().len();
    if uri_len > MAX_RECORD_URI_LEN {
        return Err(MetaBricksError::MetadataTooLong);
    }
    Ok(())
}

/// Checks that one more sale at `price_lamports` fits the counters.
pub fn check_counters(state: &ProgramState, price_lamports: u64) -> (r: Result<(), MetaBricksError>)
    ensures
        counters_overflow(*state, price_lamports) ==> r == Err::<(), MetaBricksError>(
            MetaBricksError::CounterOverflow,
        ),
        !counters_overflow(*state, price_lamports) ==> r is Ok,
{
    if state.bricks_sold == u32::MAX || state.total_revenue > u64::MAX - price_lamports {
        Err(MetaBricksError::CounterOverflow)
    } else {
        Ok(())
    }
}

/// Sells a brick. The guard and the counters are checked first; then the payment, which the
/// payment program has confirmed or not; only then are the record written and
/// the counters moved. On any error `state` is unchanged.
pub fn purchase_brick(
    state: &mut ProgramState,
    record: &Option<PurchaseRecord>,
    brick_id: u32,
    price_lamports: u64,
    metadata_uri: String,
    buyer: [u8; 32],
    purchase_timestamp: i64,
    bump: u8,
    payment_confirmed: bool,
) -> (r: Result<PurchaseRecord, MetaBricksError>)
    ensures
        match purchase_error(
            *old(state),
            *record,
            brick_id,
            price_lamports,
            metadata_uri@,
            payment_confirmed,
        ) {
            Some(e) => r matches Err(x) && x == e && *final(state) == *old(state),
            None => r matches Ok(rec) && {
                &&& rec.brick_id == brick_id
                &&& rec.buyer == buyer
                &&& rec.purchase_timestamp == purchase_timestamp
                &&& rec.price_lamports == price_lamports
                &&& rec.metadata_uri@ == metadata_uri@
                &&& rec.is_sold
                &&& rec.bump == bump
                &&& *final(state) == after_sale(*old(state), price_lamports)
            },
        },
{
    match purchase_guard(record, brick_id, &metadata_uri) {
        Err(e) => return Err(e),
        Ok(()) => {},
    }
    match check_counters(state, price_lamports) {
        Err(e) => return Err(e),
        Ok(()) => {},
    }
    if !payment_confirmed {
        return Err(MetaBricksError::DelegatedCallFailed);
    }
    state.bricks_sold = state.bricks_sold + 1;
    state.total_revenue = state.total_revenue + price_lamports;
    Ok(
        PurchaseRecord {
            brick_id,
            buyer,
            purchase_timestamp,
            price_lamports,
            metadata_uri,
            is_sold: true,
            bump,
        },
    )
}

/// Reports a brick's state. An absent or unsold record reads as available.
pub fn get_brick_info(record: &Option<PurchaseRecord>, brick_id: u32) -> (r: BrickStatus)
    ensures
        match *record {
            Some(rec) => if rec.is_sold {
                r matches BrickStatus::Sold {
                    brick_id: id,
                    buyer,
                    purchase_timestamp,
                    price_lamports,
                    metadata_uri,
                } && id == rec.brick_id && buyer == rec.buyer && purchase_timestamp
                    == rec.purchase_timestamp && price_lamports == rec.price_lamports
                    && metadata_uri@ == rec.metadata_uri@
            } else {
                r == BrickStatus::Available { brick_id }
            },
            None => r == BrickStatus::Available { brick_id },
        },
{
    match record {
        Some(rec) => {
            if rec.is_sold {
                BrickStatus::Sold {
                    brick_id: rec.brick_id,
                    buyer: rec.buyer,
                    purchase_timestamp: rec.purchase_timestamp,
                    price_lamports: rec.price_lamports,
                    metadata_uri: rec.metadata_uri.clone(),
                }
            } else {
                BrickStatus::Available { brick_id }
            }
        },
        None => BrickStatus::Available { brick_id },
    }
}

/// Hands the authority to `new_authority` when `signer` is the current one.
pub fn update_authority(state: &mut ProgramState, signer: [u8; 32], new_authority: [u8; 32]) -> (r:
    Result<(), MetaBricksError>)
    ensures
        old(state).authority@ == signer@ ==> r is Ok && *final(state) == (ProgramState {
            authority: new_authority,
            ..*old(state)
        }),
        old(state).authority@ != signer@ ==> r == Err::<(), MetaBricksError>(
            MetaBricksError::Unauthorized,
        ) && *final(state) == *old(state),
{
    if !same_key(&state.authority, &signer) {
        return Err(MetaBricksError::Unauthorized);
    }
    state.authority = new_authority;
    Ok(())
}

/// Total price of a sales history.
pub open spec fn revenue_of(sales: Seq<(u32, u64)>) -> int
    decreases sales.len(),
{
    if sales.len() == 0 {
        0
    } else {
        revenue_of(sales.drop_last()) + sales.last().1
    }
}

/// The brick appears in the sales history.
pub open spec fn sold_in(sales: Seq<(u32, u64)>, brick_id: u32) -> bool {
    exists|i: int| 0 <= i < sales.len() && #[trigger] sales[i].0 == brick_id
}

/// The state agrees with a history of sales: each sold brick once, ids in
/// the inventory, `bricks_sold` the number of sales and `total_revenue` their
/// total price.
pub open spec fn ledger_matches(s: ProgramState, sales: Seq<(u32, u64)>) -> bool {
    &&& s.total_bricks == TOTAL_BRICKS
    &&& s.bricks_sold == sales.len()
    &&& s.total_revenue == revenue_of(sales)
    &&& forall|i: int| 0 <= i < sales.len() ==> valid_brick_id(#[trigger] sales[i].0)
    &&& forall|i: int, j: int|
        0 <= i < j < sales.len() ==> #[trigger] sales[i].0 != #[trigger] sales[j].0
}

/// A fresh program state matches the empty history.
pub proof fn lemma_initial_ledger(authority: [u8; 32], bump: u8)
    ensures
        ledger_matches(
            ProgramState {
                authority,
                total_bricks: TOTAL_BRICKS,
                bricks_sold: 0,
                total_revenue: 0,
                bump,
            },
            Seq::empty(),
        ),
{
}

/// A brick sells once, and the counters follow the sales. Where the state
/// matches a history and the brick's record is sold exactly when the history
/// holds the brick, a purchase that passes every check is of an unsold brick;
/// its new state matches the history with this sale appended, so
/// `bricks_sold` grows by one and `total_revenue` by the price. The sold
/// record it writes makes every later purchase of that brick fail with
/// `BrickAlreadySold`, which leaves the state unchanged (see `purchase_brick`).
pub proof fn lemma_brick_sells_once(
    s: ProgramState,
    sales: Seq<(u32, u64)>,
    record: Option<PurchaseRecord>,
    brick_id: u32,
    price_lamports: u64,
    metadata_uri: Seq<char>,
    sold: PurchaseRecord,
    later_state: ProgramState,
    later_price: u64,
    later_uri: Seq<char>,
    later_payment: bool,
)
    requires
        ledger_matches(s, sales),
        already_sold(record) <==> sold_in(sales, brick_id),
        purchase_error(s, record, brick_id, price_lamports, metadata_uri, true) is None,
        sold.is_sold,
    ensures
        !sold_in(sales, brick_id),
        ledger_matches(after_sale(s, price_lamports), sales.push((brick_id, price_lamports))),
        after_sale(s, price_lamports).bricks_sold == s.bricks_sold + 1,
        after_sale(s, price_lamports).total_revenue == s.total_revenue + price_lamports,
        after_sale(s, price_lamports).authority == s.authority,
        purchase_error(later_state, Some(sold), brick_id, later_price, later_uri, later_payment)
            == Some(MetaBricksError::BrickAlreadySold),
{
    let t = sales.push((brick_id, price_lamports));
    assert(t.drop_last() =~= sales);
    assert forall|i: int, j: int| 0 <= i < j < t.len() implies #[trigger] t[i].0 != #[trigger] t[j].0 by {
        if j == sales.len() {
            assert(sales[i].0 == t[i].0);
        } else {
            assert(sales[i].0 == t[i].0 && sales[j].0 == t[j].0);
        }
    }
    assert forall|i: int| 0 <= i < t.len() implies valid_brick_id(#[trigger] t[i].0) by {
        if i < sales.len() {
            assert(t[i] == sales[i]);
        }
    }
}

/// Ids outside the inventory, `0` and `433` among them, are refused with
/// `InvalidBrickId` whatever the state, record, price, uri or payment.
pub proof fn lemma_out_of_range_refused(
    s: ProgramState,
    record: Option<PurchaseRecord>,
    brick_id: u32,
    price_lamports: u64,
    metadata_uri: Seq<char>,
    payment_confirmed: bool,
)
    requires
        brick_id == 0 || brick_id > TOTAL_BRICKS,
    ensures
        purchase_error(s, record, brick_id, price_lamports, metadata_uri, payment_confirmed) == Some(
            MetaBricksError::InvalidBrickId,
        ),
{
}

} // verus!
