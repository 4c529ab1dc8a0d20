//! The byte encoding of attestation payloads.
//!
//! A statement is bound to a digest of its encoding, so the encoding has to
//! say everything that the payload says: two payloads with the same bytes
//! state the same thing. A payload is written as a one-byte tag for its
//! variant and then its fields in declaration order, with identifiers and
//! addresses as their 32 bytes, amounts as eight little-endian bytes, small
//! integers as one byte, and text as its UTF-8 length in four little-endian
//! bytes followed by its UTF-8 bytes.

use vstd::prelude::*;
use vstd::bytes::{
    lemma_auto_spec_u64_to_from_le_bytes, spec_u32_to_le_bytes, spec_u64_from_le_bytes,
    spec_u64_to_le_bytes, u32_to_le_bytes, u64_to_le_bytes,
};
use vstd::utf8::{encode_utf8, encode_utf8_decode_utf8};
use crate::state::attestation::{AttestationPayload, AttestationPayloadView};

verus! {

/// The bytes of a text field: its UTF-8 length as four little-endian bytes,
/// then the UTF-8 bytes.
pub open spec fn text_encoding(text: Seq<char>) -> Seq<u8> {
    spec_u32_to_le_bytes(encode_utf8(text).len() as u32) + encode_utf8(text)
}

/// A text field can be encoded when its UTF-8 length fits in 32 bits.
pub open spec fn text_encodable(text: Seq<char>) -> bool {
    encode_utf8(text).len() <= u32::MAX
}

impl AttestationPayloadView {
    /// The one-byte tag that opens the encoding of each variant.
    pub open spec fn tag(self) -> u8 {
        match self {
            AttestationPayloadView::NavUpdate { .. } => 0,
            AttestationPayloadView::LoanApproval { .. } => 1,
            AttestationPayloadView::LoanDisbursement { .. } => 2,
            AttestationPayloadView::LoanRepayment { .. } => 3,
            AttestationPayloadView::CovenantBreach { .. } => 4,
            AttestationPayloadView::Liquidation { .. } => 5,
            AttestationPayloadView::AuditGrant { .. } => 6,
            AttestationPayloadView::EmergencyPause { .. } => 7,
        }
    }

    /// The bytes of the fields, in declaration order.
    pub open spec fn body(self) -> Seq<u8> {
        match self {
            AttestationPayloadView::NavUpdate { pool_id, new_nav, epoch } => pool_id
                + spec_u64_to_le_bytes(new_nav) + spec_u64_to_le_bytes(epoch),
            AttestationPayloadView::LoanApproval { loan_id, borrower_pubkey, amount } => loan_id
                + borrower_pubkey + spec_u64_to_le_bytes(amount),
            AttestationPayloadView::LoanDisbursement { loan_id, amount, beneficiary } => loan_id
                + spec_u64_to_le_bytes(amount) + beneficiary,
            AttestationPayloadView::LoanRepayment { loan_id, amount, remaining_balance } => loan_id
                + spec_u64_to_le_bytes(amount) + spec_u64_to_le_bytes(remaining_balance),
            AttestationPayloadView::CovenantBreach { loan_id, breach_type, severity } => loan_id
                + text_encoding(breach_type) + seq![severity],
            AttestationPayloadView::Liquidation { loan_id, collateral_amount, recovery_amount } =>
                loan_id + spec_u64_to_le_bytes(collateral_amount) + spec_u64_to_le_bytes(
                    recovery_amount,
                ),
            AttestationPayloadView::AuditGrant { loan_id, auditor_pubkey, access_level } => loan_id
                + auditor_pubkey + seq![access_level],
            AttestationPayloadView::EmergencyPause { reason, duration } => text_encoding(reason)
                + spec_u64_to_le_bytes(duration),
        }
    }

    /// The byte string that stands for the payload wherever it is hashed:
    /// the variant's tag, then its fields.
    pub open spec fn encoding(self) -> Seq<u8> {
        seq![self.tag()] + self.body()
    }

    /// A payload can be encoded when each of its text fields can.
    pub open spec fn encodable(self) -> bool {
        match self {
            AttestationPayloadView::CovenantBreach { breach_type, .. } => text_encodable(
                breach_type,
            ),
            AttestationPayloadView::EmergencyPause { reason, .. } => text_encodable(reason),
            _ => true,
        }
    }
}

/// Appends `bytes` to `out`.
pub fn append_bytes(out: &mut Vec<u8>, bytes: &[u8])
    ensures
        final(out)@ == old(out)@ + bytes@,
{
    let mut i: usize = 0;
    while i < bytes.len()
        invariant
            i <= bytes@.len(),
            out@ == old(out)@ + bytes@.subrange(0, i as int),
        decreases bytes@.len() - i,
    {
        out.push(bytes[i]);
        i += 1;
        assert(out@ =~= old(out)@ + bytes@.subrange(0, i as int));
    }
    assert(bytes@.subrange(0, i as int) =~= bytes@);
}

/// Appends the eight little-endian bytes of `value`.
pub fn append_u64(out: &mut Vec<u8>, value: u64)
    ensures
        final(out)@ == old(out)@ + spec_u64_to_le_bytes(value),
{
    let bytes = u64_to_le_bytes(value);
    append_bytes(out, bytes.as_slice());
}

/// Appends a text field, unless its length does not fit the prefix: then
/// `out` is left as it was and the result is `false`.
pub fn append_text(out: &mut Vec<u8>, text: &String) -> (done: bool)
    ensures
        done == text_encodable(text@),
        done ==> final(out)@ == old(out)@ + text_encoding(text@),
        !done ==> final(out)@ == old(out)@,
{
    let bytes = text.as_str().as_bytes();
    let len = bytes.len();
    if len > 0xffff_ffff {
        return false;
    }
    let prefix = u32_to_le_bytes(len as u32);
    append_bytes(out, prefix.as_slice());
    append_bytes(out, bytes);
    assert(final(out)@ =~= old(out)@ + text_encoding(text@));
    true
}

impl AttestationPayload {
    /// The encoding of what the payload states.
    pub open spec fn encoding(&self) -> Seq<u8> {
        self@.encoding()
    }

    /// Whether the payload can be encoded.
    pub open spec fn encodable(&self) -> bool {
        self@.encodable()
    }

    /// Encodes the payload, or returns `None` when a text field is too long
    /// for its length prefix.
    pub fn encode(&self) -> (bytes: Option<Vec<u8>>)
        ensures
            match bytes {
                Some(b) => self.encodable() && b@ == self.encoding(),
                None => !self.encodable(),
            },
    {
        let mut out: Vec<u8> = Vec::new();
        match self {
            AttestationPayload::NavUpdate { pool_id, new_nav, epoch } => {
                out.push(0u8);
                append_bytes(&mut out, pool_id.as_slice());
                append_u64(&mut out, *new_nav);
                append_u64(&mut out, *epoch);
            },
            AttestationPayload::LoanApproval { loan_id, borrower_pubkey, amount } => {
                out.push(1u8);
                append_bytes(&mut out, loan_id.as_slice());
                append_bytes(&mut out, borrower_pubkey.bytes.as_slice());
                append_u64(&mut out, *amount);
            },
            AttestationPayload::LoanDisbursement { loan_id, amount, beneficiary } => {
                out.push(2u8);
                append_bytes(&mut out, loan_id.as_slice());
                append_u64(&mut out, *amount);
                append_bytes(&mut out, beneficiary.bytes.as_slice());
            },
            AttestationPayload::LoanRepayment { loan_id, amount, remaining_balance } => {
                out.push(3u8);
                append_bytes(&mut out, loan_id.as_slice());
                append_u64(&mut out, *amount);
                append_u64(&mut out, *remaining_balance);
            },
            AttestationPayload::CovenantBreach { loan_id, breach_type, severity } => {
                out.push(4u8);
                append_bytes(&mut out, loan_id.as_slice());
                if !append_text(&mut out, breach_type) {
                    return None;
                }
                out.push(*severity);
            },
            AttestationPayload::Liquidation { loan_id, collateral_amount, recovery_amount } => {
                out.push(5u8);
                append_bytes(&mut out, loan_id.as_slice());
                append_u64(&mut out, *collateral_amount);
                append_u64(&mut out, *recovery_amount);
            },
            AttestationPayload::AuditGrant { loan_id, auditor_pubkey, access_level } => {
                out.push(6u8);
                append_bytes(&mut out, loan_id.as_slice());
                append_bytes(&mut out, auditor_pubkey.bytes.as_slice());
                out.push(*access_level);
            },
            AttestationPayload::EmergencyPause { reason, duration } => {
                out.push(7u8);
                if !append_text(&mut out, reason) {
                    return None;
                }
                append_u64(&mut out, *duration);
            },
        }
        assert(out@ =~= self.encoding());
        Some(out)
    }
}

/// Two concatenations that agree, and whose first parts are equally long,
/// agree part by part.
pub proof fn lemma_concat_parts(a: Seq<u8>, b: Seq<u8>, c: Seq<u8>, d: Seq<u8>)
    requires
        a + b == c + d,
        a.len() == c.len(),
    ensures
        a == c,
        b == d,
{
    assert(a =~= (a + b).subrange(0, a.len() as int));
    assert(c =~= (c + d).subrange(0, c.len() as int));
    assert(b =~= (a + b).subrange(a.len() as int, (a + b).len() as int));
    assert(d =~= (c + d).subrange(c.len() as int, (c + d).len() as int));
}

/// Two concatenations that agree, and whose second parts are equally long,
/// agree part by part.
pub proof fn lemma_concat_parts_from_end(a: Seq<u8>, b: Seq<u8>, c: Seq<u8>, d: Seq<u8>)
    requires
        a + b == c + d,
        b.len() == d.len(),
    ensures
        a == c,
        b == d,
{
    assert((a + b).len() == a.len() + b.len());
    assert((c + d).len() == c.len() + d.len());
    lemma_concat_parts(a, b, c, d);
}

/// An amount is determined by its eight little-endian bytes, and there are
/// always eight of them.
pub proof fn lemma_u64_bytes_injective(x: u64, y: u64)
    ensures
        spec_u64_to_le_bytes(x).len() == 8,
        spec_u64_to_le_bytes(y).len() == 8,
        spec_u64_to_le_bytes(x) == spec_u64_to_le_bytes(y) ==> x == y,
{
    lemma_auto_spec_u64_to_from_le_bytes();
    assert(spec_u64_from_le_bytes(spec_u64_to_le_bytes(x)) == x);
    assert(spec_u64_from_le_bytes(spec_u64_to_le_bytes(y)) == y);
}

/// A timestamp is determined by the 64 bits that stand for it.
pub proof fn lemma_timestamp_bits_injective(x: i64, y: i64)
    ensures
        x as u64 == y as u64 ==> x == y,
{
    assert(x as u64 == y as u64 ==> x == y) by (bit_vector);
}

/// A text is determined by the bytes that follow its length prefix: two
/// text fields whose encodings are equally long and agree hold the same
/// text.
pub proof fn lemma_text_encoding_injective(s: Seq<char>, t: Seq<char>)
    requires
        text_encoding(s) == text_encoding(t),
    ensures
        s == t,
{
    let prefix_s = spec_u32_to_le_bytes(encode_utf8(s).len() as u32);
    let prefix_t = spec_u32_to_le_bytes(encode_utf8(t).len() as u32);
    vstd::bytes::lemma_auto_spec_u32_to_from_le_bytes();
    assert(prefix_s.len() == 4);
    assert(prefix_t.len() == 4);
    lemma_concat_parts(prefix_s, encode_utf8(s), prefix_t, encode_utf8(t));
    encode_utf8_decode_utf8(s);
    encode_utf8_decode_utf8(t);
}

/// The encoding says everything that the payload says: two payloads with
/// the same encoding state the same thing.
pub proof fn lemma_encoding_injective(p: AttestationPayload, q: AttestationPayload)
    requires
        p.encoding() == q.encoding(),
    ensures
        p@ == q@,
{
    let pv = p@;
    let qv = q@;
    assert(p.encoding()[0] == pv.tag());
    assert(q.encoding()[0] == qv.tag());
    lemma_concat_parts(seq![pv.tag()], pv.body(), seq![qv.tag()], qv.body());
    assert(pv.body() == qv.body());
    match (p, q) {
        (
            AttestationPayload::NavUpdate { pool_id: a1, new_nav: b1, epoch: c1 },
            AttestationPayload::NavUpdate { pool_id: a2, new_nav: b2, epoch: c2 },
        ) => {
            lemma_u64_bytes_injective(b1, b2);
            lemma_u64_bytes_injective(c1, c2);
            lemma_concat_parts_from_end(
                a1@ + spec_u64_to_le_bytes(b1),
                spec_u64_to_le_bytes(c1),
                a2@ + spec_u64_to_le_bytes(b2),
                spec_u64_to_le_bytes(c2),
            );
            lemma_concat_parts(a1@, spec_u64_to_le_bytes(b1), a2@, spec_u64_to_le_bytes(b2));
        },
        (
            AttestationPayload::LoanApproval { loan_id: a1, borrower_pubkey: b1, amount: c1 },
            AttestationPayload::LoanApproval { loan_id: a2, borrower_pubkey: b2, amount: c2 },
        ) => {
            lemma_u64_bytes_injective(c1, c2);
            lemma_concat_parts_from_end(
                a1@ + b1.bytes@,
                spec_u64_to_le_bytes(c1),
                a2@ + b2.bytes@,
                spec_u64_to_le_bytes(c2),
            );
            lemma_concat_parts(a1@, b1.bytes@, a2@, b2.bytes@);
        },
        (
            AttestationPayload::LoanDisbursement { loan_id: a1, amount: b1, beneficiary: c1 },
            AttestationPayload::LoanDisbursement { loan_id: a2, amount: b2, beneficiary: c2 },
        ) => {
            lemma_u64_bytes_injective(b1, b2);
            lemma_concat_parts_from_end(
                a1@ + spec_u64_to_le_bytes(b1),
                c1.bytes@,
                a2@ + spec_u64_to_le_bytes(b2),
                c2.bytes@,
            );
            lemma_concat_parts(a1@, spec_u64_to_le_bytes(b1), a2@, spec_u64_to_le_bytes(b2));
        },
        (
            AttestationPayload::LoanRepayment { loan_id: a1, amount: b1, remaining_balance: c1 },
            AttestationPayload::LoanRepayment { loan_id: a2, amount: b2, remaining_balance: c2 },
        ) => {
            lemma_u64_bytes_injective(b1, b2);
            lemma_u64_bytes_injective(c1, c2);
            lemma_concat_parts_from_end(
                a1@ + spec_u64_to_le_bytes(b1),
                spec_u64_to_le_bytes(c1),
                a2@ + spec_u64_to_le_bytes(b2),
                spec_u64_to_le_bytes(c2),
            );
            lemma_concat_parts(a1@, spec_u64_to_le_bytes(b1), a2@, spec_u64_to_le_bytes(b2));
        },
        (
            AttestationPayload::CovenantBreach { loan_id: a1, breach_type: b1, severity: c1 },
            AttestationPayload::CovenantBreach { loan_id: a2, breach_type: b2, severity: c2 },
        ) => {
            lemma_concat_parts_from_end(
                a1@ + text_encoding(b1@),
                seq![c1],
                a2@ + text_encoding(b2@),
                seq![c2],
            );
            assert(seq![c1][0] == seq![c2][0]);
            lemma_concat_parts(a1@, text_encoding(b1@), a2@, text_encoding(b2@));
            lemma_text_encoding_injective(b1@, b2@);
        },
        (
            AttestationPayload::Liquidation {
                loan_id: a1,
                collateral_amount: b1,
                recovery_amount: c1,
            },
            AttestationPayload::Liquidation {
                loan_id: a2,
                collateral_amount: b2,
                recovery_amount: c2,
            },
        ) => {
            lemma_u64_bytes_injective(b1, b2);
            lemma_u64_bytes_injective(c1, c2);
            lemma_concat_parts_from_end(
                a1@ + spec_u64_to_le_bytes(b1),
                spec_u64_to_le_bytes(c1),
                a2@ + spec_u64_to_le_bytes(b2),
                spec_u64_to_le_bytes(c2),
            );
            lemma_concat_parts(a1@, spec_u64_to_le_bytes(b1), a2@, spec_u64_to_le_bytes(b2));
        },
        (
            AttestationPayload::AuditGrant { loan_id: a1, auditor_pubkey: b1, access_level: c1 },
            AttestationPayload::AuditGrant { loan_id: a2, auditor_pubkey: b2, access_level: c2 },
        ) => {
            lemma_concat_parts_from_end(a1@ + b1.bytes@, seq![c1], a2@ + b2.bytes@, seq![c2]);
            assert(seq![c1][0] == seq![c2][0]);
            lemma_concat_parts(a1@, b1.bytes@, a2@, b2.bytes@);
        },
        (
            AttestationPayload::EmergencyPause { reason: a1, duration: b1 },
            AttestationPayload::EmergencyPause { reason: a2, duration: b2 },
        ) => {
            lemma_u64_bytes_injective(b1, b2);
            lemma_concat_parts_from_end(
                text_encoding(a1@),
                spec_u64_to_le_bytes(b1),
                text_encoding(a2@),
                spec_u64_to_le_bytes(b2),
            );
            lemma_text_encoding_injective(a1@, a2@);
        },
        _ => {
            assert(pv.tag() != qv.tag());
            assert(seq![pv.tag()][0] == seq![qv.tag()][0]);
        },
    }
}

} // verus!
