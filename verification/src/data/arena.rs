//! The layout of an arena.

use vstd::prelude::*;
use vstd::utf8::{decode_utf8, valid_utf8};

use crate::chars::{bytes_to_string, EncodingError, to_utf8, until_nul};
use crate::data::STANDARD_TEXT_LENGTH;
use crate::data::record::Record;
use crate::to_bytes::{
    group_le_len, le_i32, le_i8, lemma_concat_cancel, lemma_le_i32_injective, lemma_le_i8_injective,
    put_bytes, put_i32, put_i8, Reader,
};

verus! {

broadcast use group_le_len;

/// An arena.
#[derive(Clone, Copy, Debug, PartialEq, Eq)]
pub struct Arena {
    pub id: i32,
    pub capacity: i32,
    pub seating_capacity: i32,
    pub expansion_capacity: i32,
    pub city_id: i32,
    pub nearby_stadium_id: i32,
    pub b_name: [u8; STANDARD_TEXT_LENGTH],
    pub gender_name: i8,
    pub rink_size: i8,
    pub ice_condition: i8,
}

impl Arena {
    /// The name of the arena.
    pub fn name(&self) -> (r: Result<String, EncodingError>)
        ensures
            r.is_ok() <==> valid_utf8(to_utf8(until_nul(self.b_name@))),
            r matches Ok(s) ==> s@ == decode_utf8(to_utf8(until_nul(self.b_name@))),
            r matches Err(e) ==> e.raw@ == self.b_name@,
    {
        bytes_to_string(&self.b_name)
    }
}

impl Record for Arena {
    open spec fn encoding(&self) -> Seq<u8> {
        le_i32(self.id)
        + le_i32(self.capacity)
        + le_i32(self.seating_capacity)
        + le_i32(self.expansion_capacity)
        + le_i32(self.city_id)
        + le_i32(self.nearby_stadium_id)
        + self.b_name@
        + le_i8(self.gender_name)
        + le_i8(self.rink_size)
        + le_i8(self.ice_condition)
    }

    open spec fn key(&self) -> i32 {
        self.id
    }

    open spec fn stride() -> nat {
        78
    }

    proof fn lemma_stride(&self) {
    }

    proof fn lemma_injective(a: Self, b: Self) {
        let a0 = le_i32(a.id);
        let b0 = le_i32(b.id);
        let a1 = a0 + le_i32(a.capacity);
        let b1 = b0 + le_i32(b.capacity);
        let a2 = a1 + le_i32(a.seating_capacity);
        let b2 = b1 + le_i32(b.seating_capacity);
        let a3 = a2 + le_i32(a.expansion_capacity);
        let b3 = b2 + le_i32(b.expansion_capacity);
        let a4 = a3 + le_i32(a.city_id);
        let b4 = b3 + le_i32(b.city_id);
        let a5 = a4 + le_i32(a.nearby_stadium_id);
        let b5 = b4 + le_i32(b.nearby_stadium_id);
        let a6 = a5 + a.b_name@;
        let b6 = b5 + b.b_name@;
        let a7 = a6 + le_i8(a.gender_name);
        let b7 = b6 + le_i8(b.gender_name);
        let a8 = a7 + le_i8(a.rink_size);
        let b8 = b7 + le_i8(b.rink_size);
        lemma_concat_cancel(a8, le_i8(a.ice_condition), b8, le_i8(b.ice_condition));
        lemma_le_i8_injective(a.ice_condition, b.ice_condition);
        lemma_concat_cancel(a7, le_i8(a.rink_size), b7, le_i8(b.rink_size));
        lemma_le_i8_injective(a.rink_size, b.rink_size);
        lemma_concat_cancel(a6, le_i8(a.gender_name), b6, le_i8(b.gender_name));
        lemma_le_i8_injective(a.gender_name, b.gender_name);
        lemma_concat_cancel(a5, a.b_name@, b5, b.b_name@);
        assert(a.b_name =~= b.b_name);
        lemma_concat_cancel(a4, le_i32(a.nearby_stadium_id), b4, le_i32(b.nearby_stadium_id));
        lemma_le_i32_injective(a.nearby_stadium_id, b.nearby_stadium_id);
        lemma_concat_cancel(a3, le_i32(a.city_id), b3, le_i32(b.city_id));
        lemma_le_i32_injective(a.city_id, b.city_id);
        lemma_concat_cancel(a2, le_i32(a.expansion_capacity), b2, le_i32(b.expansion_capacity));
        lemma_le_i32_injective(a.expansion_capacity, b.expansion_capacity);
        lemma_concat_cancel(a1, le_i32(a.seating_capacity), b1, le_i32(b.seating_capacity));
        lemma_le_i32_injective(a.seating_capacity, b.seating_capacity);
        lemma_concat_cancel(a0, le_i32(a.capacity), b0, le_i32(b.capacity));
        lemma_le_i32_injective(a.capacity, b.capacity);
        lemma_le_i32_injective(a.id, b.id);
    }

    fn width() -> (n: usize) {
        78
    }

    fn id(&self) -> (k: i32) {
        self.id
    }

    fn parse(bytes: &[u8], at: usize) -> (r: Option<Self>) {
        if bytes.len() < 78 || at > bytes.len() - 78 {
            return None;
        }
        let mut r = Reader::new(bytes, at);
        let id = r.read_i32();
        assert(r.taken() =~= le_i32(id));
        let capacity = r.read_i32();
        let seating_capacity = r.read_i32();
        let expansion_capacity = r.read_i32();
        let city_id = r.read_i32();
        let nearby_stadium_id = r.read_i32();
        let b_name = r.read_bytes::<STANDARD_TEXT_LENGTH>();
        let gender_name = r.read_i8();
        assert(r.pos == at + 76);
        let rink_size = r.read_i8();
        let ice_condition = r.read_i8();
        let rec = Arena {
            id,
            capacity,
            seating_capacity,
            expansion_capacity,
            city_id,
            nearby_stadium_id,
            b_name,
            gender_name,
            rink_size,
            ice_condition,
        };
        proof {
            r.lemma_taken();
        }
        Some(rec)
    }

    fn to_bytes(&self) -> (out: Vec<u8>) {
        let mut out = Vec::new();
        put_i32(&mut out, self.id);
        assert(out@ =~= le_i32(self.id));
        put_i32(&mut out, self.capacity);
        put_i32(&mut out, self.seating_capacity);
        put_i32(&mut out, self.expansion_capacity);
        put_i32(&mut out, self.city_id);
        put_i32(&mut out, self.nearby_stadium_id);
        put_bytes(&mut out, &self.b_name);
        put_i8(&mut out, self.gender_name);
        put_i8(&mut out, self.rink_size);
        put_i8(&mut out, self.ice_condition);
        out
    }
}

} // verus!
