//! The layout of a currency.

use vstd::prelude::*;
use vstd::utf8::{decode_utf8, valid_utf8};

use crate::chars::{bytes_to_string, EncodingError, to_utf8, until_nul};
use crate::data::{SHORT_TEXT_LENGTH, STANDARD_TEXT_LENGTH, THREE_LETTER_TEXT_LENGTH};
use crate::data::record::Record;
use crate::to_bytes::{
    group_le_len, le_i32, le_i8, le_u64, lemma_concat_cancel, lemma_le_i32_injective,
    lemma_le_i8_injective, lemma_le_u64_injective, put_bytes, put_i32, put_i8, put_u64, Reader,
};

verus! {

broadcast use group_le_len;

/// A currency.
///
/// A field whose name ends in `_bits` holds the 64 bits of a floating-point
/// number, which are carried through as they are.
#[derive(Clone, Copy, Debug, PartialEq, Eq)]
pub struct Currency {
    pub id: i32,
    pub nation_id: i32,
    pub exchange_rate_bits: u64,
    pub approx_exchange_rate_bits: u64,
    pub very_approx_exchange_rate_bits: u64,
    pub name_gender: i8,
    pub short_name_gender: i8,
    pub b_name: [u8; STANDARD_TEXT_LENGTH],
    pub b_short_name: [u8; SHORT_TEXT_LENGTH],
    pub b_three_letter_code: [u8; THREE_LETTER_TEXT_LENGTH],
    pub b_symbol: [u8; THREE_LETTER_TEXT_LENGTH],
}

impl Currency {
    /// The name of the currency.
    pub fn name(&self) -> (r: Result<String, EncodingError>)
        ensures
            r.is_ok() <==> valid_utf8(to_utf8(until_nul(self.b_name@))),
            r matches Ok(s) ==> s@ == decode_utf8(to_utf8(until_nul(self.b_name@))),
            r matches Err(e) ==> e.raw@ == self.b_name@,
    {
        bytes_to_string(&self.b_name)
    }

    /// The short name of the currency.
    pub fn short_name(&self) -> (r: Result<String, EncodingError>)
        ensures
            r.is_ok() <==> valid_utf8(to_utf8(until_nul(self.b_short_name@))),
            r matches Ok(s) ==> s@ == decode_utf8(to_utf8(until_nul(self.b_short_name@))),
            r matches Err(e) ==> e.raw@ == self.b_short_name@,
    {
        bytes_to_string(&self.b_short_name)
    }

    /// The three-letter code.
    pub fn three_letter_code(&self) -> (r: Result<String, EncodingError>)
        ensures
            r.is_ok() <==> valid_utf8(to_utf8(until_nul(self.b_three_letter_code@))),
            r matches Ok(s) ==> s@ == decode_utf8(to_utf8(until_nul(self.b_three_letter_code@))),
            r matches Err(e) ==> e.raw@ == self.b_three_letter_code@,
    {
        bytes_to_string(&self.b_three_letter_code)
    }

    /// The symbol of the currency.
    pub fn symbol(&self) -> (r: Result<String, EncodingError>)
        ensures
            r.is_ok() <==> valid_utf8(to_utf8(until_nul(self.b_symbol@))),
            r matches Ok(s) ==> s@ == decode_utf8(to_utf8(until_nul(self.b_symbol@))),
            r matches Err(e) ==> e.raw@ == self.b_symbol@,
    {
        bytes_to_string(&self.b_symbol)
    }
}

impl Record for Currency {
    open spec fn encoding(&self) -> Seq<u8> {
        le_i32(self.id)
        + le_i32(self.nation_id)
        + le_u64(self.exchange_rate_bits)
        + le_u64(self.approx_exchange_rate_bits)
        + le_u64(self.very_approx_exchange_rate_bits)
        + le_i8(self.name_gender)
        + le_i8(self.short_name_gender)
        + self.b_name@
        + self.b_short_name@
        + self.b_three_letter_code@
        + self.b_symbol@
    }

    open spec fn key(&self) -> i32 {
        self.id
    }

    open spec fn stride() -> nat {
        119
    }

    proof fn lemma_stride(&self) {
    }

    proof fn lemma_injective(a: Self, b: Self) {
        let a0 = le_i32(a.id);
        let b0 = le_i32(b.id);
        let a1 = a0 + le_i32(a.nation_id);
        let b1 = b0 + le_i32(b.nation_id);
        let a2 = a1 + le_u64(a.exchange_rate_bits);
        let b2 = b1 + le_u64(b.exchange_rate_bits);
        let a3 = a2 + le_u64(a.approx_exchange_rate_bits);
        let b3 = b2 + le_u64(b.approx_exchange_rate_bits);
        let a4 = a3 + le_u64(a.very_approx_exchange_rate_bits);
        let b4 = b3 + le_u64(b.very_approx_exchange_rate_bits);
        let a5 = a4 + le_i8(a.name_gender);
        let b5 = b4 + le_i8(b.name_gender);
        let a6 = a5 + le_i8(a.short_name_gender);
        let b6 = b5 + le_i8(b.short_name_gender);
        let a7 = a6 + a.b_name@;
        let b7 = b6 + b.b_name@;
        let a8 = a7 + a.b_short_name@;
        let b8 = b7 + b.b_short_name@;
        let a9 = a8 + a.b_three_letter_code@;
        let b9 = b8 + b.b_three_letter_code@;
        lemma_concat_cancel(a9, a.b_symbol@, b9, b.b_symbol@);
        assert(a.b_symbol =~= b.b_symbol);
        lemma_concat_cancel(a8, a.b_three_letter_code@, b8, b.b_three_letter_code@);
        assert(a.b_three_letter_code =~= b.b_three_letter_code);
        lemma_concat_cancel(a7, a.b_short_name@, b7, b.b_short_name@);
        assert(a.b_short_name =~= b.b_short_name);
        lemma_concat_cancel(a6, a.b_name@, b6, b.b_name@);
        assert(a.b_name =~= b.b_name);
        lemma_concat_cancel(a5, le_i8(a.short_name_gender), b5, le_i8(b.short_name_gender));
        lemma_le_i8_injective(a.short_name_gender, b.short_name_gender);
        lemma_concat_cancel(a4, le_i8(a.name_gender), b4, le_i8(b.name_gender));
        lemma_le_i8_injective(a.name_gender, b.name_gender);
        lemma_concat_cancel(
            a3,
            le_u64(a.very_approx_exchange_rate_bits),
            b3,
            le_u64(b.very_approx_exchange_rate_bits),
        );
        lemma_le_u64_injective(a.very_approx_exchange_rate_bits, b.very_approx_exchange_rate_bits);
        lemma_concat_cancel(
            a2,
            le_u64(a.approx_exchange_rate_bits),
            b2,
            le_u64(b.approx_exchange_rate_bits),
        );
        lemma_le_u64_injective(a.approx_exchange_rate_bits, b.approx_exchange_rate_bits);
        lemma_concat_cancel(a1, le_u64(a.exchange_rate_bits), b1, le_u64(b.exchange_rate_bits));
        lemma_le_u64_injective(a.exchange_rate_bits, b.exchange_rate_bits);
        lemma_concat_cancel(a0, le_i32(a.nation_id), b0, le_i32(b.nation_id));
        lemma_le_i32_injective(a.nation_id, b.nation_id);
        lemma_le_i32_injective(a.id, b.id);
    }

    fn width() -> (n: usize) {
        119
    }

    fn id(&self) -> (k: i32) {
        self.id
    }

    fn parse(bytes: &[u8], at: usize) -> (r: Option<Self>) {
        if bytes.len() < 119 || at > bytes.len() - 119 {
            return None;
        }
        let mut r = Reader::new(bytes, at);
        let id = r.read_i32();
        assert(r.taken() =~= le_i32(id));
        let nation_id = r.read_i32();
        let exchange_rate_bits = r.read_u64();
        let approx_exchange_rate_bits = r.read_u64();
        let very_approx_exchange_rate_bits = r.read_u64();
        let name_gender = r.read_i8();
        let short_name_gender = r.read_i8();
        let b_name = r.read_bytes::<STANDARD_TEXT_LENGTH>();
        assert(r.pos == at + 85);
        let b_short_name = r.read_bytes::<SHORT_TEXT_LENGTH>();
        let b_three_letter_code = r.read_bytes::<THREE_LETTER_TEXT_LENGTH>();
        let b_symbol = r.read_bytes::<THREE_LETTER_TEXT_LENGTH>();
        let rec = Currency {
            id,
            nation_id,
            exchange_rate_bits,
            approx_exchange_rate_bits,
            very_approx_exchange_rate_bits,
            name_gender,
            short_name_gender,
            b_name,
            b_short_name,
            b_three_letter_code,
            b_symbol,
        };
        proof {
            r.lemma_taken();
        }
        Some(rec)
    }

    fn to_bytes(&self) -> (out: Vec<u8>) {
        let mut out = Vec::new();
        put_i32(&mut out, self.id);
        assert(out@ =~= le_i32(self.id));
        put_i32(&mut out, self.nation_id);
        put_u64(&mut out, self.exchange_rate_bits);
        put_u64(&mut out, self.approx_exchange_rate_bits);
        put_u64(&mut out, self.very_approx_exchange_rate_bits);
        put_i8(&mut out, self.name_gender);
        put_i8(&mut out, self.short_name_gender);
        put_bytes(&mut out, &self.b_name);
        put_bytes(&mut out, &self.b_short_name);
        put_bytes(&mut out, &self.b_three_letter_code);
        put_bytes(&mut out, &self.b_symbol);
        out
    }
}

} // verus!
