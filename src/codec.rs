use vstd::prelude::*;
use vstd::bytes::{
    spec_u32_from_le_bytes, spec_u32_to_le_bytes, spec_u64_from_le_bytes, spec_u64_to_le_bytes,
    u32_from_le_bytes, u32_to_le_bytes, u64_from_le_bytes, u64_to_le_bytes,
    lemma_auto_spec_u32_to_from_le_bytes, lemma_auto_spec_u64_to_from_le_bytes,
};
use vstd::slice::slice_to_vec;
use vstd::utf8::{decode_utf8, encode_utf8, encode_utf8_decode_utf8, encode_utf8_valid_utf8, valid_utf8};
use crate::error::MetaBricksError;

verus! {

/// Relies on `String::from_utf8`: it succeeds exactly when the bytes are
/// valid UTF-8, and the string then holds the characters they encode.
#[verifier::external_body]
pub(crate) fn text_from_utf8(bytes: Vec<u8>) -> (r: Option<String>)
    ensures
        r is Some <==> valid_utf8(bytes@),
        r matches Some(s) ==> s@ == decode_utf8(bytes@),
{
    String::from_utf8(bytes).ok()
}

/// One decoded instruction of the program.
#[derive(Clone, Debug, PartialEq)]
pub enum MetaBricksInstruction {
    /// Tag 0: issue a non-fungible asset.
    CreateNFT { name: String, symbol: String, uri: String, seller_fee_basis_points: u16 },
    /// Tag 1: transfer an asset.
    TransferNFT,
    /// Tag 2: buy one brick of the inventory.
    PurchaseBrick { brick_id: u32, price_lamports: u64, metadata_uri: String },
    /// Tag 3: report a brick's state; the brick comes with the accounts.
    GetBrickInfo,
    /// Tag 4: hand the program's authority to another identity.
    UpdateAuthority { new_authority: [u8; 32] },
}

/// The mathematical value of an instruction.
pub enum InstructionModel {
    CreateNFT { name: Seq<char>, symbol: Seq<char>, uri: Seq<char>, seller_fee_basis_points: u16 },
    TransferNFT,
    PurchaseBrick { brick_id: u32, price_lamports: u64, metadata_uri: Seq<char> },
    GetBrickInfo,
    UpdateAuthority { new_authority: Seq<u8> },
}

impl View for MetaBricksInstruction {
    type V = InstructionModel;

    open spec fn view(&self) -> InstructionModel {
        match self {
            MetaBricksInstruction::CreateNFT { name, symbol, uri, seller_fee_basis_points } =>
                InstructionModel::CreateNFT {
                    name: name@,
                    symbol: symbol@,
                    uri: uri@,
                    seller_fee_basis_points: *seller_fee_basis_points,
                },
            MetaBricksInstruction::TransferNFT => InstructionModel::TransferNFT,
            MetaBricksInstruction::PurchaseBrick { brick_id, price_lamports, metadata_uri } =>
                InstructionModel::PurchaseBrick {
                    brick_id: *brick_id,
                    price_lamports: *price_lamports,
                    metadata_uri: metadata_uri@,
                },
            MetaBricksInstruction::GetBrickInfo => InstructionModel::GetBrickInfo,
            MetaBricksInstruction::UpdateAuthority { new_authority } =>
                InstructionModel::UpdateAuthority { new_authority: new_authority@ },
        }
    }
}

/// A little-endian `u16` from the first two bytes of `b`.
pub open spec fn le_u16(b: Seq<u8>) -> u16 {
    (b[0] as u16) | ((b[1] as u16) << 8u16)
}

/// The two little-endian bytes of `v`.
pub open spec fn u16_le(v: u16) -> Seq<u8> {
    seq![(v & 0xffu16) as u8, (v >> 8u16) as u8]
}

/// Reading back the bytes of a `u16` gives it back.
pub proof fn lemma_le_u16_u16_le(v: u16)
    ensures
        le_u16(u16_le(v)) == v,
        u16_le(v).len() == 2,
{
    assert((((v & 0xffu16) as u8) as u16 | ((((v >> 8u16) as u8) as u16) << 8u16)) == v)
        by (bit_vector);
}

/// Writes the two little-endian bytes of `v`.
fn u16_le_bytes(v: u16) -> (r: Vec<u8>)
    ensures
        r@ == u16_le(v),
{
    let mut r: Vec<u8> = Vec::new();
    r.push((v & 0xffu16) as u8);
    r.push((v >> 8u16) as u8);
    assert(r@ =~= u16_le(v));
    r
}

/// A length-prefixed text field starting at `pos`: one length byte, then that
/// many bytes of UTF-8. Gives the text and the position just past it.
pub open spec fn text_at(b: Seq<u8>, pos: int) -> Option<(Seq<char>, int)> {
    if 0 <= pos < b.len() && pos + 1 + b[pos] <= b.len() && valid_utf8(
        b.subrange(pos + 1, pos + 1 + b[pos]),
    ) {
        Some((decode_utf8(b.subrange(pos + 1, pos + 1 + b[pos])), pos + 1 + b[pos]))
    } else {
        None
    }
}

/// The tag-0 payload after the tag byte.
pub open spec fn create_nft_at(b: Seq<u8>) -> Option<InstructionModel> {
    match text_at(b, 1) {
        Some((name, after_name)) => match text_at(b, after_name) {
            Some((symbol, after_symbol)) => match text_at(b, after_symbol) {
                Some((uri, after_uri)) => if after_uri + 2 <= b.len() {
                    Some(
                        InstructionModel::CreateNFT {
                            name,
                            symbol,
                            uri,
                            seller_fee_basis_points: le_u16(b.subrange(after_uri, after_uri + 2)),
                        },
                    )
                } else {
                    None
                },
                None => None,
            },
            None => None,
        },
        None => None,
    }
}

/// The tag-2 payload after the tag byte.
pub open spec fn purchase_brick_at(b: Seq<u8>) -> Option<InstructionModel> {
    if b.len() < 13 {
        None
    } else {
        match text_at(b, 13) {
            Some((uri, _)) => Some(
                InstructionModel::PurchaseBrick {
                    brick_id: spec_u32_from_le_bytes(b.subrange(1, 5)),
                    price_lamports: spec_u64_from_le_bytes(b.subrange(5, 13)),
                    metadata_uri: uri,
                },
            ),
            None => None,
        }
    }
}

/// What a byte buffer decodes to, or `None` where it is malformed.
/// Bytes after a complete instruction are not read.
pub open spec fn spec_unpack(b: Seq<u8>) -> Option<InstructionModel> {
    if b.len() == 0 {
        None
    } else if b[0] == 0 {
        create_nft_at(b)
    } else if b[0] == 1 {
        Some(InstructionModel::TransferNFT)
    } else if b[0] == 2 {
        purchase_brick_at(b)
    } else if b[0] == 3 {
        Some(InstructionModel::GetBrickInfo)
    } else if b[0] == 4 {
        if b.len() < 33 {
            None
        } else {
            Some(InstructionModel::UpdateAuthority { new_authority: b.subrange(1, 33) })
        }
    } else {
        None
    }
}

/// A text field as it is written: its byte length, then its UTF-8 bytes.
pub open spec fn text_field(s: Seq<char>) -> Seq<u8> {
    seq![encode_utf8(s).len() as u8] + encode_utf8(s)
}

/// A text whose UTF-8 form fits a one-byte length prefix.
pub open spec fn fits_field(s: Seq<char>) -> bool {
    encode_utf8(s).len() <= 255
}

impl InstructionModel {
    /// The instruction can be written: every text fits its length prefix and
    /// an identity has 32 bytes.
    pub open spec fn encodable(self) -> bool {
        match self {
            InstructionModel::CreateNFT { name, symbol, uri, .. } => fits_field(name) && fits_field(
                symbol,
            ) && fits_field(uri),
            InstructionModel::PurchaseBrick { metadata_uri, .. } => fits_field(metadata_uri),
            InstructionModel::UpdateAuthority { new_authority } => new_authority.len() == 32,
            _ => true,
        }
    }
}

/// The bytes of an instruction.
pub open spec fn spec_pack(m: InstructionModel) -> Seq<u8> {
    match m {
        InstructionModel::CreateNFT { name, symbol, uri, seller_fee_basis_points } => seq![0u8]
            + text_field(name) + text_field(symbol) + text_field(uri) + u16_le(
            seller_fee_basis_points,
        ),
        InstructionModel::TransferNFT => seq![1u8],
        InstructionModel::PurchaseBrick { brick_id, price_lamports, metadata_uri } => seq![2u8]
            + spec_u32_to_le_bytes(brick_id) + spec_u64_to_le_bytes(price_lamports) + text_field(
            metadata_uri,
        ),
        InstructionModel::GetBrickInfo => seq![3u8],
        InstructionModel::UpdateAuthority { new_authority } => seq![4u8] + new_authority,
    }
}

/// A read position over a byte buffer that never moves past its end.
pub struct Cursor<'a> {
    pub bytes: &'a [u8],
    pub pos: usize,
}

impl<'a> Cursor<'a> {
    pub open spec fn wf(&self) -> bool {
        self.pos <= self.bytes@.len()
    }

    pub fn new(bytes: &'a [u8]) -> (r: Cursor<'a>)
        ensures
            r.bytes@ == bytes@,
            r.pos == 0,
    {
        Cursor { bytes, pos: 0 }
    }

    /// Takes the next `n` bytes, or nothing where fewer remain.
    pub fn take(&mut self, n: usize) -> (r: Option<&'a [u8]>)
        requires
            old(self).wf(),
        ensures
            final(self).wf(),
            final(self).bytes@ == old(self).bytes@,
            if old(self).pos + n <= old(self).bytes@.len() {
                &&& r matches Some(s) && s@ == old(self).bytes@.subrange(
                    old(self).pos as int,
                    old(self).pos + n,
                )
                &&& final(self).pos == old(self).pos + n
            } else {
                r is None && final(self).pos == old(self).pos
            },
    {
        if n > self.bytes.len() - self.pos {
            None
        } else {
            let s = &self.bytes[self.pos..self.pos + n];
            self.pos = self.pos + n;
            Some(s)
        }
    }

    pub fn read_u8(&mut self) -> (r: Option<u8>)
        requires
            old(self).wf(),
        ensures
            final(self).wf(),
            final(self).bytes@ == old(self).bytes@,
            if old(self).pos < old(self).bytes@.len() {
                r == Some(old(self).bytes@[old(self).pos as int]) && final(self).pos == old(
                    self,
                ).pos + 1
            } else {
                r is None && final(self).pos == old(self).pos
            },
    {
        if self.pos < self.bytes.len() {
            let v = self.bytes[self.pos];
            self.pos = self.pos + 1;
            Some(v)
        } else {
            None
        }
    }

    pub fn read_u16(&mut self) -> (r: Option<u16>)
        requires
            old(self).wf(),
        ensures
            final(self).wf(),
            final(self).bytes@ == old(self).bytes@,
            if old(self).pos + 2 <= old(self).bytes@.len() {
                r == Some(
                    le_u16(
                        old(self).bytes@.subrange(old(self).pos as int, old(self).pos + 2),
                    ),
                ) && final(self).pos == old(self).pos + 2
            } else {
                r is None && final(self).pos == old(self).pos
            },
    {
        match self.take(2) {
            Some(s) => Some((s[0] as u16) | ((s[1] as u16) << 8u16)),
            None => None,
        }
    }

    pub fn read_u32(&mut self) -> (r: Option<u32>)
        requires
            old(self).wf(),
        ensures
            final(self).wf(),
            final(self).bytes@ == old(self).bytes@,
            if old(self).pos + 4 <= old(self).bytes@.len() {
                r == Some(
                    spec_u32_from_le_bytes(
                        old(self).bytes@.subrange(old(self).pos as int, old(self).pos + 4),
                    ),
                ) && final(self).pos == old(self).pos + 4
            } else {
                r is None && final(self).pos == old(self).pos
            },
    {
        match self.take(4) {
            Some(s) => Some(u32_from_le_bytes(s)),
            None => None,
        }
    }

    pub fn read_u64(&mut self) -> (r: Option<u64>)
        requires
            old(self).wf(),
        ensures
            final(self).wf(),
            final(self).bytes@ == old(self).bytes@,
            if old(self).pos + 8 <= old(self).bytes@.len() {
                r == Some(
                    spec_u64_from_le_bytes(
                        old(self).bytes@.subrange(old(self).pos as int, old(self).pos + 8),
                    ),
                ) && final(self).pos == old(self).pos + 8
            } else {
                r is None && final(self).pos == old(self).pos
            },
    {
        match self.take(8) {
            Some(s) => Some(u64_from_le_bytes(s)),
            None => None,
        }
    }

    /// Reads a length-prefixed UTF-8 text field.
    pub fn read_text(&mut self) -> (r: Option<String>)
        requires
            old(self).wf(),
        ensures
            final(self).wf(),
            final(self).bytes@ == old(self).bytes@,
            match text_at(old(self).bytes@, old(self).pos as int) {
                Some((t, next)) => r matches Some(s) && s@ == t && final(self).pos == next,
                None => r is None,
            },
    {
        match self.read_u8() {
            None => None,
            Some(n) => match self.take(n as usize) {
                None => None,
                Some(s) => text_from_utf8(slice_to_vec(s)),
            },
        }
    }
}

impl MetaBricksInstruction {
    /// Decodes an instruction; all or nothing.
    pub fn unpack(input: &[u8]) -> (r: Result<MetaBricksInstruction, MetaBricksError>)
        ensures
            match spec_unpack(input@) {
                Some(m) => r matches Ok(i) && i@ == m,
                None => r == Err::<MetaBricksInstruction, MetaBricksError>(
                    MetaBricksError::MalformedInstruction,
                ),
            },
    {
        let mut c = Cursor::new(input);
        let tag = match c.read_u8() {
            Some(t) => t,
            None => return Err(MetaBricksError::MalformedInstruction),
        };
        if tag == 0 {
            let name = match c.read_text() {
                Some(s) => s,
                None => return Err(MetaBricksError::MalformedInstruction),
            };
            let symbol = match c.read_text() {
                Some(s) => s,
                None => return Err(MetaBricksError::MalformedInstruction),
            };
            let uri = match c.read_text() {
                Some(s) => s,
                None => return Err(MetaBricksError::MalformedInstruction),
            };
            match c.read_u16() {
                Some(fee) => Ok(
                    MetaBricksInstruction::CreateNFT {
                        name,
                        symbol,
                        uri,
                        seller_fee_basis_points: fee,
                    },
                ),
                None => Err(MetaBricksError::MalformedInstruction),
            }
        } else if tag == 1 {
            Ok(MetaBricksInstruction::TransferNFT)
        } else if tag == 2 {
            let brick_id = match c.read_u32() {
                Some(v) => v,
                None => return Err(MetaBricksError::MalformedInstruction),
            };
            let price_lamports = match c.read_u64() {
                Some(v) => v,
                None => return Err(MetaBricksError::MalformedInstruction),
            };
            match c.read_text() {
                Some(metadata_uri) => Ok(
                    MetaBricksInstruction::PurchaseBrick { brick_id, price_lamports, metadata_uri },
                ),
                None => Err(MetaBricksError::MalformedInstruction),
            }
        } else if tag == 3 {
            Ok(MetaBricksInstruction::GetBrickInfo)
        } else if tag == 4 {
            match c.take(32) {
                Some(s) => Ok(MetaBricksInstruction::UpdateAuthority { new_authority: key_from_slice(s) }),
                None => Err(MetaBricksError::MalformedInstruction),
            }
        } else {
            Err(MetaBricksError::MalformedInstruction)
        }
    }
}

/// Appends every byte of `s` to `out`.
pub fn push_all(out: &mut Vec<u8>, s: &[u8])
    ensures
        final(out)@ == old(out)@ + s@,
{
    let mut i: usize = 0;
    while i < s.len()
        invariant
            0 <= i <= s@.len(),
            out@ == old(out)@ + s@.subrange(0, i as int),
        decreases s@.len() - i,
    {
        out.push(s[i]);
        i = i + 1;
        assert(out@ =~= old(out)@ + s@.subrange(0, i as int));
    }
    assert(s@.subrange(0, s@.len() as int) =~= s@);
}

/// Copies 32 bytes into an identity.
pub fn key_from_slice(s: &[u8]) -> (r: [u8; 32])
    requires
        s@.len() == 32,
    ensures
        r@ == s@,
{
    let mut key = [0u8; 32];
    let mut i: usize = 0;
    while i < 32
        invariant
            s@.len() == 32,
            0 <= i <= 32,
            key@.len() == 32,
            forall|j: int| 0 <= j < i ==> key@[j] == s@[j],
        decreases 32 - i,
    {
        key[i] = s[i];
        i = i + 1;
    }
    assert(key@ =~= s@);
    key
}

/// Appends a text as a length-prefixed field.
fn push_text(out: &mut Vec<u8>, t: &String)
    requires
        fits_field(t@),
    ensures
        final(out)@ == old(out)@ + text_field(t@),
{
    let b = t.as_str().as_bytes();
    out.push(b.len() as u8);
    push_all(out, b);
    assert(final(out)@ =~= old(out)@ + text_field(t@));
}

impl MetaBricksInstruction {
    /// Encodes an instruction in the layout that `unpack` reads.
    pub fn pack(&self) -> (r: Vec<u8>)
        requires
            self@.encodable(),
        ensures
            r@ == spec_pack(self@),
    {
        let mut out: Vec<u8> = Vec::new();
        match self {
            MetaBricksInstruction::CreateNFT { name, symbol, uri, seller_fee_basis_points } => {
                out.push(0u8);
                push_text(&mut out, name);
                push_text(&mut out, symbol);
                push_text(&mut out, uri);
                let fee = u16_le_bytes(*seller_fee_basis_points);
                push_all(&mut out, fee.as_slice());
            },
            MetaBricksInstruction::TransferNFT => {
                out.push(1u8);
            },
            MetaBricksInstruction::PurchaseBrick { brick_id, price_lamports, metadata_uri } => {
                out.push(2u8);
                let id = u32_to_le_bytes(*brick_id);
                push_all(&mut out, id.as_slice());
                let price = u64_to_le_bytes(*price_lamports);
                push_all(&mut out, price.as_slice());
                push_text(&mut out, metadata_uri);
            },
            MetaBricksInstruction::GetBrickInfo => {
                out.push(3u8);
            },
            MetaBricksInstruction::UpdateAuthority { new_authority } => {
                out.push(4u8);
                push_all(&mut out, new_authority.as_slice());
            },
        }
        assert(out@ =~= spec_pack(self@));
        out
    }
}

/// A text field written at `pre.len()` reads back as the same text.
proof fn lemma_text_at_field(pre: Seq<u8>, t: Seq<char>, rest: Seq<u8>)
    requires
        fits_field(t),
    ensures
        text_at(pre + text_field(t) + rest, pre.len() as int) == Some(
            (t, pre.len() + 1 + encode_utf8(t).len() as int),
        ),
{
    let b = pre + text_field(t) + rest;
    let p = pre.len() as int;
    let e = encode_utf8(t);
    assert(b[p] == e.len() as u8);
    assert(b.subrange(p + 1, p + 1 + e.len()) =~= e);
    encode_utf8_valid_utf8(t);
    encode_utf8_decode_utf8(t);
}

/// Decoding the bytes of any encodable instruction gives that instruction back.
pub proof fn lemma_unpack_pack(m: InstructionModel)
    requires
        m.encodable(),
    ensures
        spec_unpack(spec_pack(m)) == Some(m),
{
    lemma_auto_spec_u32_to_from_le_bytes();
    lemma_auto_spec_u64_to_from_le_bytes();
    let b = spec_pack(m);
    match m {
        InstructionModel::CreateNFT { name, symbol, uri, seller_fee_basis_points } => {
            lemma_le_u16_u16_le(seller_fee_basis_points);
            let fee = u16_le(seller_fee_basis_points);
            let tag = seq![0u8];
            let after_name = tag + text_field(name);
            let after_symbol = after_name + text_field(symbol);
            let after_uri = after_symbol + text_field(uri);
            assert(b =~= tag + text_field(name) + (text_field(symbol) + text_field(uri) + fee));
            lemma_text_at_field(tag, name, text_field(symbol) + text_field(uri) + fee);
            assert(b =~= after_name + text_field(symbol) + (text_field(uri) + fee));
            lemma_text_at_field(after_name, symbol, text_field(uri) + fee);
            assert(b =~= after_symbol + text_field(uri) + fee);
            lemma_text_at_field(after_symbol, uri, fee);
            assert(b.subrange(after_uri.len() as int, after_uri.len() as int + 2) =~= fee);
        },
        InstructionModel::PurchaseBrick { brick_id, price_lamports, metadata_uri } => {
            let id = spec_u32_to_le_bytes(brick_id);
            let price = spec_u64_to_le_bytes(price_lamports);
            let pre = seq![2u8] + id + price;
            assert(b =~= pre + text_field(metadata_uri) + Seq::<u8>::empty());
            lemma_text_at_field(pre, metadata_uri, Seq::<u8>::empty());
            assert(b.subrange(1, 5) =~= id);
            assert(b.subrange(5, 13) =~= price);
        },
        InstructionModel::UpdateAuthority { new_authority } => {
            assert(b.subrange(1, 33) =~= new_authority);
        },
        _ => {},
    }
}

/// A text field that reads from `b` reads the same once bytes are appended.
proof fn lemma_text_at_extend(b: Seq<u8>, extra: Seq<u8>, pos: int)
    requires
        text_at(b, pos) is Some,
    ensures
        text_at(b + extra, pos) == text_at(b, pos),
{
    let n = b[pos] as int;
    assert((b + extra)[pos] == b[pos]);
    assert((b + extra).subrange(pos + 1, pos + 1 + n) =~= b.subrange(pos + 1, pos + 1 + n));
}

/// Decoding reads only the bytes an instruction declares: appending bytes
/// after a well-formed instruction leaves its decoding unchanged.
pub proof fn lemma_unpack_ignores_suffix(b: Seq<u8>, extra: Seq<u8>)
    requires
        spec_unpack(b) is Some,
    ensures
        spec_unpack(b + extra) == spec_unpack(b),
{
    let be = b + extra;
    assert(be[0] == b[0]);
    if b[0] == 0 {
        lemma_text_at_extend(b, extra, 1);
        let after_name = text_at(b, 1)->Some_0.1;
        lemma_text_at_extend(b, extra, after_name);
        let after_symbol = text_at(b, after_name)->Some_0.1;
        lemma_text_at_extend(b, extra, after_symbol);
        let after_uri = text_at(b, after_symbol)->Some_0.1;
        assert(be.subrange(after_uri, after_uri + 2) =~= b.subrange(after_uri, after_uri + 2));
    } else if b[0] == 2 {
        lemma_text_at_extend(b, extra, 13);
        assert(be.subrange(1, 5) =~= b.subrange(1, 5));
        assert(be.subrange(5, 13) =~= b.subrange(5, 13));
    } else if b[0] == 4 {
        assert(be.subrange(1, 33) =~= b.subrange(1, 33));
    }
}

} // verus!
