//! The layout of a city.

use vstd::prelude::*;
use vstd::utf8::{decode_utf8, valid_utf8};

use crate::chars::{bytes_to_string, EncodingError, to_utf8, until_nul};
use crate::data::STANDARD_TEXT_LENGTH;
use crate::data::record::Record;
use crate::to_bytes::{
    group_le_len, le_i32, le_i8, le_u64, lemma_concat_cancel, lemma_le_i32_injective,
    lemma_le_i8_injective, lemma_le_u64_injective, put_bytes, put_i32, put_i8, put_u64, Reader,
};

verus! {

broadcast use group_le_len;

/// A city.
///
/// A field whose name ends in `_bits` holds the 64 bits of a floating-point
/// number, which are carried through as they are.
#[derive(Clone, Copy, Debug, PartialEq, Eq)]
pub struct City {
    pub latitude_bits: u64,
    pub longitude_bits: u64,
    pub id: i32,
    pub state_id: i32,
    pub nation_id: i32,
    pub b_name: [u8; STANDARD_TEXT_LENGTH],
    pub gender_name: i8,
    pub attraction: i8,
}

impl City {
    /// The name of the city.
    pub fn name(&self) -> (r: Result<String, EncodingError>)
        ensures
            r.is_ok() <==> valid_utf8(to_utf8(until_nul(self.b_name@))),
            r matches Ok(s) ==> s@ == decode_utf8(to_utf8(until_nul(self.b_name@))),
            r matches Err(e) ==> e.raw@ == self.b_name@,
    {
        bytes_to_string(&self.b_name)
    }
}

impl Record for City {
    open spec fn encoding(&self) -> Seq<u8> {
        le_u64(self.latitude_bits)
        + le_u64(self.longitude_bits)
        + le_i32(self.id)
        + le_i32(self.state_id)
        + le_i32(self.nation_id)
        + self.b_name@
        + le_i8(self.gender_name)
        + le_i8(self.attraction)
    }

    open spec fn key(&self) -> i32 {
        self.id
    }

    open spec fn stride() -> nat {
        81
    }

    proof fn lemma_stride(&self) {
    }

    proof fn lemma_injective(a: Self, b: Self) {
        let a0 = le_u64(a.latitude_bits);
        let b0 = le_u64(b.latitude_bits);
        let a1 = a0 + le_u64(a.longitude_bits);
        let b1 = b0 + le_u64(b.longitude_bits);
        let a2 = a1 + le_i32(a.id);
        let b2 = b1 + le_i32(b.id);
        let a3 = a2 + le_i32(a.state_id);
        let b3 = b2 + le_i32(b.state_id);
        let a4 = a3 + le_i32(a.nation_id);
        let b4 = b3 + le_i32(b.nation_id);
        let a5 = a4 + a.b_name@;
        let b5 = b4 + b.b_name@;
        let a6 = a5 + le_i8(a.gender_name);
        let b6 = b5 + le_i8(b.gender_name);
        lemma_concat_cancel(a6, le_i8(a.attraction), b6, le_i8(b.attraction));
        lemma_le_i8_injective(a.attraction, b.attraction);
        lemma_concat_cancel(a5, le_i8(a.gender_name), b5, le_i8(b.gender_name));
        lemma_le_i8_injective(a.gender_name, b.gender_name);
        lemma_concat_cancel(a4, a.b_name@, b4, b.b_name@);
        assert(a.b_name =~= b.b_name);
        lemma_concat_cancel(a3, le_i32(a.nation_id), b3, le_i32(b.nation_id));
        lemma_le_i32_injective(a.nation_id, b.nation_id);
        lemma_concat_cancel(a2, le_i32(a.state_id), b2, le_i32(b.state_id));
        lemma_le_i32_injective(a.state_id, b.state_id);
        lemma_concat_cancel(a1, le_i32(a.id), b1, le_i32(b.id));
        lemma_le_i32_injective(a.id, b.id);
        lemma_concat_cancel(a0, le_u64(a.longitude_bits), b0, le_u64(b.longitude_bits));
        lemma_le_u64_injective(a.longitude_bits, b.longitude_bits);
        lemma_le_u64_injective(a.latitude_bits, b.latitude_bits);
    }

    fn width() -> (n: usize) {
        81
    }

    fn id(&self) -> (k: i32) {
        self.id
    }

    fn parse(bytes: &[u8], at: usize) -> (r: Option<Self>) {
        if bytes.len() < 81 || at > bytes.len() - 81 {
            return None;
        }
        let mut r = Reader::new(bytes, at);
        let latitude_bits = r.read_u64();
        assert(r.taken() =~= le_u64(latitude_bits));
        let longitude_bits = r.read_u64();
        let id = r.read_i32();
        let state_id = r.read_i32();
        let nation_id = r.read_i32();
        let b_name = r.read_bytes::<STANDARD_TEXT_LENGTH>();
        let gender_name = r.read_i8();
        let attraction = r.read_i8();
        let rec = City {
            latitude_bits,
            longitude_bits,
            id,
            state_id,
            nation_id,
            b_name,
            gender_name,
            attraction,
        };
        proof {
            r.lemma_taken();
        }
        Some(rec)
    }

    fn to_bytes(&self) -> (out: Vec<u8>) {
        let mut out = Vec::new();
        put_u64(&mut out, self.latitude_bits);
        assert(out@ =~= le_u64(self.latitude_bits));
        put_u64(&mut out, self.longitude_bits);
        put_i32(&mut out, self.id);
        put_i32(&mut out, self.state_id);
        put_i32(&mut out, self.nation_id);
        put_bytes(&mut out, &self.b_name);
        put_i8(&mut out, self.gender_name);
        put_i8(&mut out, self.attraction);
        out
    }
}

} // verus!
