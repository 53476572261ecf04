use metabricks::ledger::{ProgramState, PurchaseRecord};
use metabricks::records::{
    decode_program_state, decode_purchase_record, encode_program_state, encode_purchase_record,
    PROGRAM_STATE_LEN,
};

#[test]
fn program_state_layout() {
    let s = ProgramState {
        authority: [7u8; 32],
        total_bricks: 432,
        bricks_sold: 2,
        total_revenue: 0x0102,
        bump: 255,
    };
    let b = encode_program_state(&s);
    assert_eq!(b.len(), PROGRAM_STATE_LEN);
    assert_eq!(&b[0..32], &[7u8; 32]);
    assert_eq!(&b[32..36], &[0xb0, 0x01, 0, 0]);
    assert_eq!(&b[36..40], &[2, 0, 0, 0]);
    assert_eq!(&b[40..48], &[2, 1, 0, 0, 0, 0, 0, 0]);
    assert_eq!(b[48], 255);
    assert_eq!(decode_program_state(&b), Some(s));
    assert_eq!(decode_program_state(&b[..48]), None);
}

#[test]
fn purchase_record_layout() {
    let rec = PurchaseRecord {
        brick_id: 9,
        buyer: [3u8; 32],
        purchase_timestamp: -2,
        price_lamports: 10,
        metadata_uri: "ab".to_string(),
        is_sold: true,
        bump: 17,
    };
    let b = encode_purchase_record(&rec);
    assert_eq!(b.len(), 60);
    assert_eq!(&b[36..44], &[0xfe, 0xff, 0xff, 0xff, 0xff, 0xff, 0xff, 0xff]);
    assert_eq!(&b[52..58], &[2, 0, 0, 0, b'a', b'b']);
    assert_eq!(b[58], 1);
    assert_eq!(b[59], 17);
    assert_eq!(decode_purchase_record(&b), Some(rec.clone()));
    let mut padded = b.clone();
    padded.extend(vec![0u8; 200]);
    assert_eq!(decode_purchase_record(&padded), Some(rec));
}

#[test]
fn purchase_record_rejects_bad_data() {
    let rec = PurchaseRecord {
        brick_id: 1,
        buyer: [0u8; 32],
        purchase_timestamp: 0,
        price_lamports: 0,
        metadata_uri: String::new(),
        is_sold: false,
        bump: 0,
    };
    let b = encode_purchase_record(&rec);
    assert_eq!(b.len(), 58);
    assert_eq!(decode_purchase_record(&b[..57]), None);
    let mut bad_flag = b.clone();
    bad_flag[56] = 2;
    assert_eq!(decode_purchase_record(&bad_flag), None);
    let mut long_uri = b.clone();
    long_uri[52] = 201;
    long_uri.extend(vec![b'a'; 300]);
    assert_eq!(decode_purchase_record(&long_uri), None);
    let mut bad_text = b.clone();
    bad_text[52] = 1;
    bad_text.insert(56, 0xff);
    assert_eq!(decode_purchase_record(&bad_text), None);
}
