use metabricks::accounts::AccountRef;
use metabricks::error::MetaBricksError;
use metabricks::ledger::{initialize, BrickStatus, ProgramState};
use metabricks::processor::{
    commit_purchase, payment_transfer, process_initialize, process_transfer_nft, process_update_authority,
    query_brick, validate_purchase, PaymentTransfer,
};
use metabricks::records::{decode_program_state, decode_purchase_record, encode_program_state};
use solana_program::pubkey::Pubkey;

const PROGRAM: [u8; 32] = [5u8; 32];

fn pda(seeds: &[&[u8]]) -> ([u8; 32], u8) {
    let (k, b) = Pubkey::find_program_address(seeds, &Pubkey::new_from_array(PROGRAM));
    (k.to_bytes(), b)
}

fn state_account(state: &ProgramState) -> AccountRef {
    AccountRef { key: pda(&[b"program_state"]).0, owner: PROGRAM, is_signer: false, data: encode_program_state(state) }
}

fn record_account(brick_id: u32) -> AccountRef {
    AccountRef { key: pda(&[b"brick", &brick_id.to_le_bytes()]).0, owner: [0u8; 32], is_signer: false, data: vec![] }
}

fn purchase_accounts(brick_id: u32, state: &ProgramState) -> Vec<AccountRef> {
    vec![
        record_account(brick_id),
        state_account(state),
        AccountRef { key: [2u8; 32], owner: [0u8; 32], is_signer: true, data: vec![] },
        AccountRef { key: [3u8; 32], owner: [0u8; 32], is_signer: false, data: vec![] },
        AccountRef { key: [4u8; 32], owner: [0u8; 32], is_signer: false, data: vec![] },
        AccountRef { key: [0u8; 32], owner: [0u8; 32], is_signer: false, data: vec![] },
    ]
}

#[test]
fn purchase_through_accounts() {
    let state = initialize([1u8; 32], pda(&[b"program_state"]).1);
    let mut accounts = purchase_accounts(7, &state);
    let ctx = validate_purchase(&PROGRAM, &accounts, 7, 10, &"ipfs://a".to_string()).unwrap();
    assert_eq!(ctx.state, state);
    assert!(ctx.record.is_none());
    assert_eq!(ctx.record_bump, pda(&[b"brick", &7u32.to_le_bytes()]).1);
    assert_eq!(ctx.buyer, [2u8; 32]);
    assert_eq!(ctx.treasury, [3u8; 32]);
    assert_eq!(
        payment_transfer(&ctx, 300),
        PaymentTransfer { from: [2u8; 32], to: [3u8; 32], authority: [2u8; 32], amount: 300 }
    );
    let w = commit_purchase(&ctx, 7, 300, "ipfs://a".to_string(), 99, true).unwrap();
    assert_eq!(w.state.bricks_sold, 1);
    assert_eq!(w.state.total_revenue, 300);
    assert_eq!(decode_program_state(&w.state_data), Some(w.state));
    assert_eq!(decode_purchase_record(&w.record_data), Some(w.record.clone()));
    accounts[0].owner = PROGRAM;
    accounts[0].data = w.record_data.clone();
    accounts[1].data = w.state_data.clone();
    let again = validate_purchase(&PROGRAM, &accounts, 7, 10, &"x".to_string());
    assert!(matches!(again, Err(MetaBricksError::BrickAlreadySold)));
    match query_brick(&PROGRAM, &vec![accounts[0].clone()], 7).unwrap() {
        BrickStatus::Sold { brick_id, buyer, price_lamports, purchase_timestamp, metadata_uri } => {
            assert_eq!((brick_id, buyer, price_lamports, purchase_timestamp), (7, [2u8; 32], 300, 99));
            assert_eq!(metadata_uri, "ipfs://a");
        }
        other => panic!("unexpected {:?}", other),
    }
}

#[test]
fn purchase_account_checks() {
    let state = initialize([1u8; 32], 0);
    let a = purchase_accounts(7, &state);
    assert!(matches!(validate_purchase(&PROGRAM, &a[..5].to_vec(), 7, 10, &String::new()), Err(MetaBricksError::MissingAccount)));
    let mut unsigned = a.clone();
    unsigned[2].is_signer = false;
    assert!(matches!(validate_purchase(&PROGRAM, &unsigned, 7, 10, &String::new()), Err(MetaBricksError::MissingSignature)));
    let mut foreign = a.clone();
    foreign[1].owner = [6u8; 32];
    assert!(matches!(validate_purchase(&PROGRAM, &foreign, 7, 10, &String::new()), Err(MetaBricksError::WrongOwner)));
    let mut wrong_record = a.clone();
    wrong_record[0] = record_account(8);
    assert!(matches!(validate_purchase(&PROGRAM, &wrong_record, 7, 10, &String::new()), Err(MetaBricksError::InvalidDerivation)));
    let mut short_state = a.clone();
    short_state[1].data.truncate(10);
    assert!(matches!(validate_purchase(&PROGRAM, &short_state, 7, 10, &String::new()), Err(MetaBricksError::InvalidAccountData)));
    for id in [0u32, 433] {
        let b = purchase_accounts(id, &state);
        assert!(matches!(validate_purchase(&PROGRAM, &b, id, 10, &String::new()), Err(MetaBricksError::InvalidBrickId)));
    }
}

#[test]
fn failed_transfer_aborts_purchase() {
    let state = initialize([1u8; 32], 0);
    let a = purchase_accounts(5, &state);
    let ctx = validate_purchase(&PROGRAM, &a, 5, 10, &String::new()).unwrap();
    assert!(matches!(commit_purchase(&ctx, 5, 10, String::new(), 1, false), Err(MetaBricksError::DelegatedCallFailed)));
}

#[test]
fn unallocated_record_reads_available() {
    assert_eq!(query_brick(&PROGRAM, &vec![record_account(12)], 12), Ok(BrickStatus::Available { brick_id: 12 }));
    assert_eq!(query_brick(&PROGRAM, &vec![record_account(12)], 13), Err(MetaBricksError::InvalidDerivation));
    assert_eq!(query_brick(&PROGRAM, &vec![], 13), Err(MetaBricksError::MissingAccount));
}

#[test]
fn authority_update_through_accounts() {
    let state = initialize([1u8; 32], 0);
    let holder = AccountRef { key: [1u8; 32], owner: [0u8; 32], is_signer: true, data: vec![] };
    let stranger = AccountRef { key: [8u8; 32], owner: [0u8; 32], is_signer: true, data: vec![] };
    let (s, data) = process_update_authority(&PROGRAM, &vec![state_account(&state), holder], [9u8; 32]).unwrap();
    assert_eq!(s, ProgramState { authority: [9u8; 32], ..state });
    assert_eq!(data, encode_program_state(&s));
    assert_eq!(
        process_update_authority(&PROGRAM, &vec![state_account(&state), stranger.clone()], [9u8; 32]),
        Err(MetaBricksError::Unauthorized)
    );
    let mut unsigned = stranger;
    unsigned.key = [1u8; 32];
    unsigned.is_signer = false;
    assert_eq!(
        process_update_authority(&PROGRAM, &vec![state_account(&state), unsigned], [9u8; 32]),
        Err(MetaBricksError::MissingSignature)
    );
}

#[test]
fn test_transfer_nft() {
    let seller = AccountRef { key: [1u8; 32], owner: PROGRAM, is_signer: true, data: vec![] };
    let buyer = AccountRef { key: [2u8; 32], owner: [0u8; 32], is_signer: false, data: vec![] };
    let nft = AccountRef { key: [3u8; 32], owner: [0u8; 32], is_signer: false, data: vec![] };
    assert_eq!(process_transfer_nft(&PROGRAM, &vec![seller.clone(), buyer.clone(), nft.clone()]), Ok(()));
    assert_eq!(process_transfer_nft(&PROGRAM, &vec![buyer.clone(), seller.clone(), nft]), Err(MetaBricksError::WrongOwner));
    assert_eq!(process_transfer_nft(&PROGRAM, &vec![seller, buyer]), Err(MetaBricksError::MissingAccount));
}

#[test]
fn purchase_overflow_refused_before_payment() {
    let mut state = initialize([1u8; 32], 0);
    state.total_revenue = u64::MAX;
    let a = purchase_accounts(5, &state);
    assert!(matches!(validate_purchase(&PROGRAM, &a, 5, 1, &String::new()), Err(MetaBricksError::CounterOverflow)));
    assert!(validate_purchase(&PROGRAM, &a, 5, 0, &String::new()).is_ok());
}

#[test]
fn initialize_through_accounts() {
    let (key, bump) = pda(&[b"program_state"]);
    let fresh = AccountRef { key, owner: [0u8; 32], is_signer: false, data: vec![] };
    let authority = AccountRef { key: [1u8; 32], owner: [0u8; 32], is_signer: true, data: vec![] };
    let system = AccountRef { key: [0u8; 32], owner: [0u8; 32], is_signer: false, data: vec![] };
    let (s, data) = process_initialize(&PROGRAM, &vec![fresh.clone(), authority.clone(), system.clone()]).unwrap();
    assert_eq!(s, initialize([1u8; 32], bump));
    assert_eq!(data, encode_program_state(&s));
    let mut unsigned = authority.clone();
    unsigned.is_signer = false;
    assert_eq!(
        process_initialize(&PROGRAM, &vec![fresh.clone(), unsigned, system.clone()]),
        Err(MetaBricksError::MissingSignature)
    );
    let mut taken = fresh.clone();
    taken.owner = PROGRAM;
    assert_eq!(
        process_initialize(&PROGRAM, &vec![taken, authority.clone(), system.clone()]),
        Err(MetaBricksError::WrongOwner)
    );
    let mut elsewhere = fresh;
    elsewhere.key = [6u8; 32];
    assert_eq!(
        process_initialize(&PROGRAM, &vec![elsewhere, authority, system]),
        Err(MetaBricksError::InvalidDerivation)
    );
}
