use vstd::prelude::*;
use vstd::bytes::{
    spec_u32_to_le_bytes, spec_u64_to_le_bytes, u32_to_le_bytes, u64_to_le_bytes, lemma_auto_spec_u32_to_from_le_bytes,
    lemma_auto_spec_u64_to_from_le_bytes,
};
use vstd::utf8::{encode_utf8, decode_utf8_encode_utf8, encode_utf8_valid_utf8};
use crate::codec::{key_from_slice, push_all, text_from_utf8, Cursor};
use crate::ledger::{ProgramState, PurchaseRecord, MAX_RECORD_URI_LEN};

verus! {

/// Bytes of a stored `ProgramState`.
pub const PROGRAM_STATE_LEN: usize = 49;

/// Bytes a purchase record account is allocated with: room for the largest
/// uri the record holds.
pub const PURCHASE_RECORD_LEN: usize = 258;

/// The stored layout of a `ProgramState`: authority, total bricks, bricks
/// sold, total revenue, bump, little-endian and without padding.
pub open spec fn state_bytes(s: ProgramState) -> Seq<u8> {
    s.authority@ + spec_u32_to_le_bytes(s.total_bricks) + spec_u32_to_le_bytes(s.bricks_sold)
        + spec_u64_to_le_bytes(s.total_revenue) + seq![s.bump]
}

/// The stored layout of a `PurchaseRecord`: brick id, buyer, timestamp,
/// price, the uri with a four-byte length, the sold flag and the bump.
pub open spec fn record_bytes(r: PurchaseRecord) -> Seq<u8> {
    spec_u32_to_le_bytes(r.brick_id) + r.buyer@ + spec_u64_to_le_bytes(
        #[verifier::truncate] (r.purchase_timestamp as u64),
    ) + spec_u64_to_le_bytes(r.price_lamports) + spec_u32_to_le_bytes(
        encode_utf8(r.metadata_uri@).len() as u32,
    ) + encode_utf8(r.metadata_uri@) + seq![if r.is_sold { 1u8 } else { 0u8 }] + seq![r.bump]
}

/// The stored record fits its account: the uri is within its budget.
pub open spec fn record_storable(r: PurchaseRecord) -> bool {
    encode_utf8(r.metadata_uri@).len() <= MAX_RECORD_URI_LEN
}

/// A stored record layout at the start of `b`, fields and all; the flag byte
/// must be 0 or 1 and the uri valid UTF-8 within its budget.
pub open spec fn holds_record(b: Seq<u8>, r: PurchaseRecord) -> bool {
    record_storable(r) && b.len() >= record_bytes(r).len() && b.subrange(
        0,
        record_bytes(r).len() as int,
    ) == record_bytes(r)
}

/// Writes a `ProgramState` in its stored layout.
pub fn encode_program_state(s: &ProgramState) -> (r: Vec<u8>)
    ensures
        r@ == state_bytes(*s),
{
    let mut out: Vec<u8> = Vec::new();
    push_all(&mut out, s.authority.as_slice());
    let total = u32_to_le_bytes(s.total_bricks);
    push_all(&mut out, total.as_slice());
    let sold = u32_to_le_bytes(s.bricks_sold);
    push_all(&mut out, sold.as_slice());
    let revenue = u64_to_le_bytes(s.total_revenue);
    push_all(&mut out, revenue.as_slice());
    out.push(s.bump);
    assert(out@ =~= state_bytes(*s));
    out
}

/// Reads a `ProgramState` from the start of an account's data.
pub fn decode_program_state(data: &[u8]) -> (r: Option<ProgramState>)
    ensures
        r is Some <==> data@.len() >= PROGRAM_STATE_LEN,
        r matches Some(s) ==> data@.subrange(0, PROGRAM_STATE_LEN as int) == state_bytes(s),
{
    proof {
        lemma_auto_spec_u32_to_from_le_bytes();
        lemma_auto_spec_u64_to_from_le_bytes();
    }
    let mut c = Cursor::new(data);
    let authority = match c.take(32) {
        Some(k) => key_from_slice(k),
        None => return None,
    };
    let total_bricks = match c.read_u32() {
        Some(v) => v,
        None => return None,
    };
    let bricks_sold = match c.read_u32() {
        Some(v) => v,
        None => return None,
    };
    let total_revenue = match c.read_u64() {
        Some(v) => v,
        None => return None,
    };
    let bump = match c.read_u8() {
        Some(v) => v,
        None => return None,
    };
    let s = ProgramState { authority, total_bricks, bricks_sold, total_revenue, bump };
    let ghost b = data@;
    assert(b.subrange(32, 36) == spec_u32_to_le_bytes(total_bricks));
    assert(b.subrange(36, 40) == spec_u32_to_le_bytes(bricks_sold));
    assert(b.subrange(40, 48) == spec_u64_to_le_bytes(total_revenue));
    assert(b.subrange(0, 49) =~= state_bytes(s));
    Some(s)
}

/// Writes a `PurchaseRecord` in its stored layout.
pub fn encode_purchase_record(rec: &PurchaseRecord) -> (r: Vec<u8>)
    requires
        record_storable(*rec),
    ensures
        r@ == record_bytes(*rec),
        r@.len() <= PURCHASE_RECORD_LEN,
{
    let mut out: Vec<u8> = Vec::new();
    let id = u32_to_le_bytes(rec.brick_id);
    push_all(&mut out, id.as_slice());
    push_all(&mut out, rec.buyer.as_slice());
    let ts = u64_to_le_bytes(rec.purchase_timestamp as u64);
    push_all(&mut out, ts.as_slice());
    let price = u64_to_le_bytes(rec.price_lamports);
    push_all(&mut out, price.as_slice());
    let uri = rec.metadata_uri.as_str().as_bytes();
    let uri_len = u32_to_le_bytes(uri.len() as u32);
    push_all(&mut out, uri_len.as_slice());
    push_all(&mut out, uri);
    out.push(if rec.is_sold { 1u8 } else { 0u8 });
    out.push(rec.bump);
    assert(out@ =~= record_bytes(*rec));
    out
}

/// Where `b` holds `rec`, each field stands at its offset.
pub proof fn lemma_record_fields(b: Seq<u8>, rec: PurchaseRecord)
    requires
        holds_record(b, rec),
    ensures
        b.len() >= 58 + encode_utf8(rec.metadata_uri@).len(),
        b.subrange(0, 4) == spec_u32_to_le_bytes(rec.brick_id),
        b.subrange(4, 36) == rec.buyer@,
        b.subrange(36, 44) == spec_u64_to_le_bytes(#[verifier::truncate] (rec.purchase_timestamp as u64)),
        b.subrange(44, 52) == spec_u64_to_le_bytes(rec.price_lamports),
        b.subrange(52, 56) == spec_u32_to_le_bytes(encode_utf8(rec.metadata_uri@).len() as u32),
        b.subrange(56, 56 + encode_utf8(rec.metadata_uri@).len() as int) == encode_utf8(
            rec.metadata_uri@,
        ),
        b[56 + encode_utf8(rec.metadata_uri@).len() as int] == (if rec.is_sold { 1u8 } else { 0u8 }),
        b[57 + encode_utf8(rec.metadata_uri@).len() as int] == rec.bump,
{
    lemma_auto_spec_u32_to_from_le_bytes();
    lemma_auto_spec_u64_to_from_le_bytes();
    let n = encode_utf8(rec.metadata_uri@).len() as int;
    let rb = record_bytes(rec);
    let p = b.subrange(0, rb.len() as int);
    assert(rb.len() == 58 + n);
    assert(b.subrange(0, 4) =~= rb.subrange(0, 4));
    assert(b.subrange(4, 36) =~= rb.subrange(4, 36));
    assert(b.subrange(36, 44) =~= rb.subrange(36, 44));
    assert(b.subrange(44, 52) =~= rb.subrange(44, 52));
    assert(b.subrange(52, 56) =~= rb.subrange(52, 56));
    assert(b.subrange(56, 56 + n) =~= rb.subrange(56, 56 + n));
    assert(b[56 + n] == p[56 + n]);
    assert(b[57 + n] == p[57 + n]);
    assert(rb.subrange(0, 4) =~= spec_u32_to_le_bytes(rec.brick_id));
    assert(rb.subrange(4, 36) =~= rec.buyer@);
    assert(rb.subrange(36, 44) =~= spec_u64_to_le_bytes(#[verifier::truncate] (rec.purchase_timestamp as u64)));
    assert(rb.subrange(44, 52) =~= spec_u64_to_le_bytes(rec.price_lamports));
    assert(rb.subrange(52, 56) =~= spec_u32_to_le_bytes(n as u32));
    assert(rb.subrange(56, 56 + n) =~= encode_utf8(rec.metadata_uri@));
}

/// Reads a `PurchaseRecord` from the start of an account's data: it succeeds
/// exactly when the data holds a stored record, and gives that record.
pub fn decode_purchase_record(data: &[u8]) -> (r: Option<PurchaseRecord>)
    ensures
        r matches Some(rec) ==> holds_record(data@, rec),
        (exists|rec: PurchaseRecord| holds_record(data@, rec)) ==> r is Some,
{
    proof {
        lemma_auto_spec_u32_to_from_le_bytes();
        lemma_auto_spec_u64_to_from_le_bytes();
    }
    let ghost b = data@;
    if data.len() < 58 {
        proof {
            assert forall|rec: PurchaseRecord| !holds_record(b, rec) by {
                if holds_record(b, rec) {
                    lemma_record_fields(b, rec);
                }
            }
        }
        return None;
    }
    let mut c = Cursor::new(data);
    let brick_id = c.read_u32().unwrap();
    let buyer = key_from_slice(c.take(32).unwrap());
    let ts = c.read_u64().unwrap();
    let price_lamports = c.read_u64().unwrap();
    let n = c.read_u32().unwrap();
    if n as usize > MAX_RECORD_URI_LEN || n as usize > data.len() - 58 {
        proof {
            assert forall|rec: PurchaseRecord| !holds_record(b, rec) by {
                if holds_record(b, rec) {
                    lemma_record_fields(b, rec);
                    assert(n == encode_utf8(rec.metadata_uri@).len() as u32);
                }
            }
        }
        return None;
    }
    let uri_bytes = c.take(n as usize).unwrap();
    let flag = c.read_u8().unwrap();
    let bump = c.read_u8().unwrap();
    let uri = match text_from_utf8(vstd::slice::slice_to_vec(uri_bytes)) {
        Some(u) => u,
        None => {
            proof {
                assert forall|rec: PurchaseRecord| !holds_record(b, rec) by {
                    if holds_record(b, rec) {
                        lemma_record_fields(b, rec);
                        assert(n == encode_utf8(rec.metadata_uri@).len() as u32);
                        encode_utf8_valid_utf8(rec.metadata_uri@);
                    }
                }
            }
            return None;
        },
    };
    if flag > 1 {
        proof {
            assert forall|rec: PurchaseRecord| !holds_record(b, rec) by {
                if holds_record(b, rec) {
                    lemma_record_fields(b, rec);
                    assert(n == encode_utf8(rec.metadata_uri@).len() as u32);
                }
            }
        }
        return None;
    }
    let purchase_timestamp = ts as i64;
    assert(((ts as i64) as u64) == ts) by (bit_vector);
    let rec = PurchaseRecord {
        brick_id,
        buyer,
        purchase_timestamp,
        price_lamports,
        metadata_uri: uri,
        is_sold: flag == 1,
        bump,
    };
    proof {
        decode_utf8_encode_utf8(uri_bytes@);
        assert(encode_utf8(rec.metadata_uri@) == uri_bytes@);
        assert(b.subrange(0, record_bytes(rec).len() as int) =~= record_bytes(rec));
    }
    Some(rec)
}

} // verus!
