use vstd::prelude::*;
use vstd::bytes::lemma_auto_spec_u32_to_from_le_bytes;
use vstd::utf8::encode_utf8;
use crate::accounts::{
    AccountRef, brick_seeds, check_derivation, derives_key, make_brick_seeds, make_state_seeds,
    program_address_of, state_seeds,
};
use crate::error::MetaBricksError;
use crate::ledger::{
    BrickStatus, ProgramState, PurchaseRecord, after_sale, check_counters, counters_overflow, get_brick_info, purchase_brick,
    purchase_error, same_key, update_authority, initialize, TOTAL_BRICKS, valid_brick_id, MAX_RECORD_URI_LEN,
};
use crate::records::{
    decode_program_state, decode_purchase_record, encode_program_state, encode_purchase_record,
    holds_record, lemma_record_fields, record_bytes, state_bytes, PROGRAM_STATE_LEN,
};

verus! {

/// The system program's identity: 32 zero bytes.
pub open spec fn system_program_key() -> Seq<u8> {
    Seq::new(32, |i: int| 0u8)
}

pub fn system_program_id() -> (r: [u8; 32])
    ensures
        r@ == system_program_key(),
{
    let r = [0u8; 32];
    assert(r@ =~= system_program_key());
    r
}

/// The bytes hold a stored purchase record that is sold.
pub open spec fn stored_sold(b: Seq<u8>) -> bool {
    exists|rec: PurchaseRecord| holds_record(b, rec) && rec.is_sold
}

/// Two records stored in the same bytes agree on the sold flag.
pub proof fn lemma_stored_flag_unique(b: Seq<u8>, r1: PurchaseRecord, r2: PurchaseRecord)
    requires
        holds_record(b, r1),
        holds_record(b, r2),
    ensures
        r1.is_sold == r2.is_sold,
{
    lemma_auto_spec_u32_to_from_le_bytes();
    lemma_record_fields(b, r1);
    lemma_record_fields(b, r2);
}

/// What a purchase learned from its accounts: the program state, the brick's
/// existing record if it has one, the record's bump seed and the buyer.
pub struct PurchaseContext {
    pub state: ProgramState,
    pub record: Option<PurchaseRecord>,
    pub record_bump: u8,
    pub buyer: [u8; 32],
    pub treasury: [u8; 32],
}

/// The payment a purchase asks the token program for.
#[derive(Clone, Copy, Debug, PartialEq, Eq)]
pub struct PaymentTransfer {
    pub from: [u8; 32],
    pub to: [u8; 32],
    pub authority: [u8; 32],
    pub amount: u64,
}

/// The payment of a validated purchase: the price, from the buyer, who
/// signs, to the treasury.
pub fn payment_transfer(ctx: &PurchaseContext, price_lamports: u64) -> (r: PaymentTransfer)
    ensures
        r == (PaymentTransfer {
            from: ctx.buyer,
            to: ctx.treasury,
            authority: ctx.buyer,
            amount: price_lamports,
        }),
{
    PaymentTransfer { from: ctx.buyer, to: ctx.treasury, authority: ctx.buyer, amount: price_lamports }
}

/// The account checks of a purchase, in order. The accounts are: the brick's
/// purchase record, the program state, the buyer, the treasury, the token
/// program and the system program.
pub open spec fn purchase_accounts_error(
    program_id: Seq<u8>,
    accounts: Seq<AccountRef>,
    brick_id: u32,
) -> Option<MetaBricksError> {
    if accounts.len() < 6 {
        Some(MetaBricksError::MissingAccount)
    } else if !accounts[2].is_signer {
        Some(MetaBricksError::MissingSignature)
    } else if accounts[1].owner@ != program_id || (accounts[0].owner@ != program_id
        && accounts[0].owner@ != system_program_key()) {
        Some(MetaBricksError::WrongOwner)
    } else if !derives_key(state_seeds(), program_id, accounts[1].key@) || !derives_key(
        brick_seeds(brick_id),
        program_id,
        accounts[0].key@,
    ) {
        Some(MetaBricksError::InvalidDerivation)
    } else if accounts[1].data@.len() < PROGRAM_STATE_LEN || (accounts[0].owner@ == program_id
        && !(exists|rec: PurchaseRecord| holds_record(accounts[0].data@, rec))) {
        Some(MetaBricksError::InvalidAccountData)
    } else {
        None
    }
}

/// Everything a purchase checks before payment: the accounts, then the
/// brick id, whether the brick's record is sold, and the uri's size.
pub open spec fn purchase_check_error(
    program_id: Seq<u8>,
    accounts: Seq<AccountRef>,
    brick_id: u32,
    metadata_uri: Seq<char>,
) -> Option<MetaBricksError> {
    match purchase_accounts_error(program_id, accounts, brick_id) {
        Some(e) => Some(e),
        None => if !valid_brick_id(brick_id) {
            Some(MetaBricksError::InvalidBrickId)
        } else if accounts[0].owner@ == program_id && stored_sold(accounts[0].data@) {
            Some(MetaBricksError::BrickAlreadySold)
        } else if encode_utf8(metadata_uri).len() > MAX_RECORD_URI_LEN {
            Some(MetaBricksError::MetadataTooLong)
        } else {
            None
        },
    }
}

/// Validates a purchase's accounts and request before any payment is made.
pub fn validate_purchase(
    program_id: &[u8; 32],
    accounts: &Vec<AccountRef>,
    brick_id: u32,
    price_lamports: u64,
    metadata_uri: &String,
) -> (r: Result<PurchaseContext, MetaBricksError>)
    ensures
        match purchase_check_error(program_id@, accounts@, brick_id, metadata_uri@) {
            Some(e) => r matches Err(x) && x == e,
            None => match r {
                Err(x) => x == MetaBricksError::CounterOverflow && exists|st: ProgramState|
                    accounts@[1].data@.subrange(0, PROGRAM_STATE_LEN as int) == state_bytes(st)
                        && counters_overflow(st, price_lamports),
                Ok(ctx) => !counters_overflow(ctx.state, price_lamports) && {
                &&& accounts@[1].data@.subrange(0, PROGRAM_STATE_LEN as int) == state_bytes(
                    ctx.state,
                )
                &&& if accounts@[0].owner@ == program_id@ {
                    ctx.record matches Some(rec) && holds_record(accounts@[0].data@, rec)
                        && !rec.is_sold
                } else {
                    ctx.record is None
                }
                &&& program_address_of(brick_seeds(brick_id), program_id@) matches Some((_, b))
                    && ctx.record_bump == b
                &&& ctx.buyer@ == accounts@[2].key@
                &&& ctx.treasury@ == accounts@[3].key@
            },
            },
        },
{
    if accounts.len() < 6 {
        return Err(MetaBricksError::MissingAccount);
    }
    let record_acc = &accounts[0];
    let state_acc = &accounts[1];
    let buyer_acc = &accounts[2];
    if !buyer_acc.is_signer {
        return Err(MetaBricksError::MissingSignature);
    }
    let system = system_program_id();
    let record_exists = same_key(&record_acc.owner, program_id);
    if !same_key(&state_acc.owner, program_id) || (!record_exists && !same_key(
        &record_acc.owner,
        &system,
    )) {
        return Err(MetaBricksError::WrongOwner);
    }
    let state_seeds_v = make_state_seeds();
    let state_derived = check_derivation(&state_seeds_v, program_id, &state_acc.key);
    let brick_seeds_v = make_brick_seeds(brick_id);
    let record_derived = check_derivation(&brick_seeds_v, program_id, &record_acc.key);
    let record_bump = match (state_derived, record_derived) {
        (Ok(_), Ok(b)) => b,
        _ => return Err(MetaBricksError::InvalidDerivation),
    };
    let state = match decode_program_state(state_acc.data.as_slice()) {
        Some(s) => s,
        None => return Err(MetaBricksError::InvalidAccountData),
    };
    let record = if record_exists {
        match decode_purchase_record(record_acc.data.as_slice()) {
            Some(rec) => Some(rec),
            None => return Err(MetaBricksError::InvalidAccountData),
        }
    } else {
        None
    };
    proof {
        if record is Some {
            let rec = record->Some_0;
            assert forall|other: PurchaseRecord|
                holds_record(accounts@[0].data@, other) implies other.is_sold == rec.is_sold by {
                lemma_stored_flag_unique(accounts@[0].data@, rec, other);
            }
        }
    }
    match crate::ledger::purchase_guard(&record, brick_id, metadata_uri) {
        Err(e) => Err(e),
        Ok(()) => match check_counters(&state, price_lamports) {
            Err(e) => Err(e),
            Ok(()) => Ok(
                PurchaseContext {
                    state,
                    record,
                    record_bump,
                    buyer: buyer_acc.key,
                    treasury: accounts[3].key,
                },
            ),
        },
    }
}

/// The bytes a successful purchase writes back: the program state's and the
/// new purchase record's.
pub struct PurchaseWrites {
    pub state: ProgramState,
    pub record: PurchaseRecord,
    pub state_data: Vec<u8>,
    pub record_data: Vec<u8>,
}

/// Commits a validated purchase once the payment program has answered.
pub fn commit_purchase(
    ctx: &PurchaseContext,
    brick_id: u32,
    price_lamports: u64,
    metadata_uri: String,
    purchase_timestamp: i64,
    payment_confirmed: bool,
) -> (r: Result<PurchaseWrites, MetaBricksError>)
    ensures
        match purchase_error(
            ctx.state,
            ctx.record,
            brick_id,
            price_lamports,
            metadata_uri@,
            payment_confirmed,
        ) {
            Some(e) => r matches Err(x) && x == e,
            None => r matches Ok(w) && {
                &&& w.state == after_sale(ctx.state, price_lamports)
                &&& w.state_data@ == state_bytes(w.state)
                &&& w.record_data@ == record_bytes(w.record)
                &&& w.record.brick_id == brick_id
                &&& w.record.buyer == ctx.buyer
                &&& w.record.purchase_timestamp == purchase_timestamp
                &&& w.record.price_lamports == price_lamports
                &&& w.record.metadata_uri@ == metadata_uri@
                &&& w.record.is_sold
                &&& w.record.bump == ctx.record_bump
            },
        },
{
    let mut state = ctx.state;
    match purchase_brick(
        &mut state,
        &ctx.record,
        brick_id,
        price_lamports,
        metadata_uri,
        ctx.buyer,
        purchase_timestamp,
        ctx.record_bump,
        payment_confirmed,
    ) {
        Err(e) => Err(e),
        Ok(record) => {
            let state_data = encode_program_state(&state);
            let record_data = encode_purchase_record(&record);
            Ok(PurchaseWrites { state, record, state_data, record_data })
        },
    }
}

/// The account checks of an authority update, in order. The accounts are:
/// the program state and the signing authority.
pub open spec fn authority_accounts_error(program_id: Seq<u8>, accounts: Seq<AccountRef>) -> Option<
    MetaBricksError,
> {
    if accounts.len() < 2 {
        Some(MetaBricksError::MissingAccount)
    } else if !accounts[1].is_signer {
        Some(MetaBricksError::MissingSignature)
    } else if accounts[0].owner@ != program_id {
        Some(MetaBricksError::WrongOwner)
    } else if !derives_key(state_seeds(), program_id, accounts[0].key@) {
        Some(MetaBricksError::InvalidDerivation)
    } else if accounts[0].data@.len() < PROGRAM_STATE_LEN {
        Some(MetaBricksError::InvalidAccountData)
    } else {
        None
    }
}

/// Hands the program's authority to `new_authority`. Gives the new state and
/// its stored bytes; only the authority changes.
pub fn process_update_authority(
    program_id: &[u8; 32],
    accounts: &Vec<AccountRef>,
    new_authority: [u8; 32],
) -> (r: Result<(ProgramState, Vec<u8>), MetaBricksError>)
    ensures
        match authority_accounts_error(program_id@, accounts@) {
            Some(e) => r matches Err(x) && x == e,
            None => exists|old_state: ProgramState|
                {
                    &&& accounts@[0].data@.subrange(0, PROGRAM_STATE_LEN as int) == state_bytes(
                        old_state,
                    )
                    &&& if old_state.authority@ == accounts@[1].key@ {
                        r matches Ok((s, data)) && s == (ProgramState {
                            authority: new_authority,
                            ..old_state
                        }) && data@ == state_bytes(s)
                    } else {
                        r matches Err(x) && x == MetaBricksError::Unauthorized
                    }
                },
        },
{
    if accounts.len() < 2 {
        return Err(MetaBricksError::MissingAccount);
    }
    let state_acc = &accounts[0];
    let signer = &accounts[1];
    if !signer.is_signer {
        return Err(MetaBricksError::MissingSignature);
    }
    if !same_key(&state_acc.owner, program_id) {
        return Err(MetaBricksError::WrongOwner);
    }
    let seeds = make_state_seeds();
    match check_derivation(&seeds, program_id, &state_acc.key) {
        Err(e) => return Err(e),
        Ok(_) => {},
    }
    let mut state = match decode_program_state(state_acc.data.as_slice()) {
        Some(s) => s,
        None => return Err(MetaBricksError::InvalidAccountData),
    };
    let ghost old_state = state;
    match update_authority(&mut state, signer.key, new_authority) {
        Err(e) => Err(e),
        Ok(()) => {
            let data = encode_program_state(&state);
            Ok((state, data))
        },
    }
}

/// The account checks of a query, in order. The one account is the brick's
/// purchase record, allocated or not.
pub open spec fn query_accounts_error(
    program_id: Seq<u8>,
    accounts: Seq<AccountRef>,
    brick_id: u32,
) -> Option<MetaBricksError> {
    if accounts.len() < 1 {
        Some(MetaBricksError::MissingAccount)
    } else if accounts[0].owner@ != program_id && accounts[0].owner@ != system_program_key() {
        Some(MetaBricksError::WrongOwner)
    } else if !derives_key(brick_seeds(brick_id), program_id, accounts[0].key@) {
        Some(MetaBricksError::InvalidDerivation)
    } else if accounts[0].owner@ == program_id && !(exists|rec: PurchaseRecord|
        holds_record(accounts[0].data@, rec)) {
        Some(MetaBricksError::InvalidAccountData)
    } else {
        None
    }
}

/// Reports a brick's state from its purchase record account; a record that
/// was never allocated reads as available.
pub fn query_brick(program_id: &[u8; 32], accounts: &Vec<AccountRef>, brick_id: u32) -> (r: Result<
    BrickStatus,
    MetaBricksError,
>)
    ensures
        match query_accounts_error(program_id@, accounts@, brick_id) {
            Some(e) => r matches Err(x) && x == e,
            None => if accounts@[0].owner@ == program_id@ {
                exists|rec: PurchaseRecord|
                    {
                        &&& holds_record(accounts@[0].data@, rec)
                        &&& if rec.is_sold {
                            r matches Ok(
                                BrickStatus::Sold {
                                    brick_id: id,
                                    buyer,
                                    purchase_timestamp,
                                    price_lamports,
                                    metadata_uri,
                                },
                            ) && id == rec.brick_id && buyer == rec.buyer && purchase_timestamp
                                == rec.purchase_timestamp && price_lamports == rec.price_lamports
                                && metadata_uri@ == rec.metadata_uri@
                        } else {
                            r == Ok::<BrickStatus, MetaBricksError>(
                                BrickStatus::Available { brick_id },
                            )
                        }
                    }
            } else {
                r == Ok::<BrickStatus, MetaBricksError>(BrickStatus::Available { brick_id })
            },
        },
{
    if accounts.len() < 1 {
        return Err(MetaBricksError::MissingAccount);
    }
    let acc = &accounts[0];
    let system = system_program_id();
    let allocated = same_key(&acc.owner, program_id);
    if !allocated && !same_key(&acc.owner, &system) {
        return Err(MetaBricksError::WrongOwner);
    }
    let seeds = make_brick_seeds(brick_id);
    match check_derivation(&seeds, program_id, &acc.key) {
        Err(e) => return Err(e),
        Ok(_) => {},
    }
    if !allocated {
        return Ok(get_brick_info(&None, brick_id));
    }
    match decode_purchase_record(acc.data.as_slice()) {
        Some(rec) => {
            let record = Some(rec);
            Ok(get_brick_info(&record, brick_id))
        },
        None => Err(MetaBricksError::InvalidAccountData),
    }
}

/// The asset transfer's one check: the seller account belongs to this
/// program. The accounts are the seller, the buyer and the asset. The transfer
/// itself moves nothing yet.
pub fn process_transfer_nft(program_id: &[u8; 32], accounts: &Vec<AccountRef>) -> (r: Result<
    (),
    MetaBricksError,
>)
    ensures
        accounts@.len() < 3 ==> r == Err::<(), MetaBricksError>(MetaBricksError::MissingAccount),
        accounts@.len() >= 3 && accounts@[0].owner@ != program_id@ ==> r == Err::<
            (),
            MetaBricksError,
        >(MetaBricksError::WrongOwner),
        accounts@.len() >= 3 && accounts@[0].owner@ == program_id@ ==> r is Ok,
{
    if accounts.len() < 3 {
        return Err(MetaBricksError::MissingAccount);
    }
    if !same_key(&accounts[0].owner, program_id) {
        return Err(MetaBricksError::WrongOwner);
    }
    Ok(())
}

/// The account checks of initialization, in order. The accounts are: the
/// program state record, not yet allocated, the signing authority and the
/// system program.
pub open spec fn initialize_accounts_error(program_id: Seq<u8>, accounts: Seq<AccountRef>) -> Option<
    MetaBricksError,
> {
    if accounts.len() < 3 {
        Some(MetaBricksError::MissingAccount)
    } else if !accounts[1].is_signer {
        Some(MetaBricksError::MissingSignature)
    } else if accounts[0].owner@ != system_program_key() {
        Some(MetaBricksError::WrongOwner)
    } else if !derives_key(state_seeds(), program_id, accounts[0].key@) {
        Some(MetaBricksError::InvalidDerivation)
    } else {
        None
    }
}

/// Creates the program state for the signing authority, at its derived
/// address. Gives the state and its stored bytes; nothing is created on error.
pub fn process_initialize(program_id: &[u8; 32], accounts: &Vec<AccountRef>) -> (r: Result<
    (ProgramState, Vec<u8>),
    MetaBricksError,
>)
    ensures
        match initialize_accounts_error(program_id@, accounts@) {
            Some(e) => r matches Err(x) && x == e,
            None => r matches Ok((s, data)) && {
                &&& s.authority@ == accounts@[1].key@
                &&& s.total_bricks == TOTAL_BRICKS
                &&& s.bricks_sold == 0
                &&& s.total_revenue == 0
                &&& program_address_of(state_seeds(), program_id@) matches Some((_, b)) && s.bump
                    == b
                &&& data@ == state_bytes(s)
            },
        },
{
    if accounts.len() < 3 {
        return Err(MetaBricksError::MissingAccount);
    }
    let state_acc = &accounts[0];
    let authority = &accounts[1];
    if !authority.is_signer {
        return Err(MetaBricksError::MissingSignature);
    }
    let system = system_program_id();
    if !same_key(&state_acc.owner, &system) {
        return Err(MetaBricksError::WrongOwner);
    }
    let seeds = make_state_seeds();
    let bump = match check_derivation(&seeds, program_id, &state_acc.key) {
        Err(e) => return Err(e),
        Ok(b) => b,
    };
    let state = initialize(authority.key, bump);
    let data = encode_program_state(&state);
    Ok((state, data))
}

} // verus!
