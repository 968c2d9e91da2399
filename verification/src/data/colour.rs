//! The layout of a named colour.

use vstd::prelude::*;
use vstd::utf8::{decode_utf8, valid_utf8};

use crate::chars::{bytes_to_string, EncodingError, to_utf8, until_nul};
use crate::data::STANDARD_TEXT_LENGTH;
use crate::data::record::Record;
use crate::to_bytes::{
    group_le_len, le_i32, le_u8, lemma_concat_cancel, lemma_le_i32_injective, lemma_le_u8_injective,
    put_bytes, put_i32, put_u8, Reader,
};

verus! {

broadcast use group_le_len;

/// A named colour.
#[derive(Clone, Copy, Debug, PartialEq, Eq)]
pub struct Colour {
    pub id: i32,
    pub b_name: [u8; STANDARD_TEXT_LENGTH],
    pub red: u8,
    pub green: u8,
    pub blue: u8,
}

impl Colour {
    /// The name of the colour.
    pub fn name(&self) -> (r: Result<String, EncodingError>)
        ensures
            r.is_ok() <==> valid_utf8(to_utf8(until_nul(self.b_name@))),
            r matches Ok(s) ==> s@ == decode_utf8(to_utf8(until_nul(self.b_name@))),
            r matches Err(e) ==> e.raw@ == self.b_name@,
    {
        bytes_to_string(&self.b_name)
    }
}

impl Record for Colour {
    open spec fn encoding(&self) -> Seq<u8> {
        le_i32(self.id)
        + self.b_name@
        + le_u8(self.red)
        + le_u8(self.green)
        + le_u8(self.blue)
    }

    open spec fn key(&self) -> i32 {
        self.id
    }

    open spec fn stride() -> nat {
        58
    }

    proof fn lemma_stride(&self) {
    }

    proof fn lemma_injective(a: Self, b: Self) {
        let a0 = le_i32(a.id);
        let b0 = le_i32(b.id);
        let a1 = a0 + a.b_name@;
        let b1 = b0 + b.b_name@;
        let a2 = a1 + le_u8(a.red);
        let b2 = b1 + le_u8(b.red);
        let a3 = a2 + le_u8(a.green);
        let b3 = b2 + le_u8(b.green);
        lemma_concat_cancel(a3, le_u8(a.blue), b3, le_u8(b.blue));
        lemma_le_u8_injective(a.blue, b.blue);
        lemma_concat_cancel(a2, le_u8(a.green), b2, le_u8(b.green));
        lemma_le_u8_injective(a.green, b.green);
        lemma_concat_cancel(a1, le_u8(a.red), b1, le_u8(b.red));
        lemma_le_u8_injective(a.red, b.red);
        lemma_concat_cancel(a0, a.b_name@, b0, b.b_name@);
        assert(a.b_name =~= b.b_name);
        lemma_le_i32_injective(a.id, b.id);
    }

    fn width() -> (n: usize) {
        58
    }

    fn id(&self) -> (k: i32) {
        self.id
    }

    fn parse(bytes: &[u8], at: usize) -> (r: Option<Self>) {
        if bytes.len() < 58 || at > bytes.len() - 58 {
            return None;
        }
        let mut r = Reader::new(bytes, at);
        let id = r.read_i32();
        assert(r.taken() =~= le_i32(id));
        let b_name = r.read_bytes::<STANDARD_TEXT_LENGTH>();
        let red = r.read_u8();
        let green = r.read_u8();
        let blue = r.read_u8();
        let rec = Colour {
            id,
            b_name,
            red,
            green,
            blue,
        };
        proof {
            r.lemma_taken();
        }
        Some(rec)
    }

    fn to_bytes(&self) -> (out: Vec<u8>) {
        let mut out = Vec::new();
        put_i32(&mut out, self.id);
        assert(out@ =~= le_i32(self.id));
        put_bytes(&mut out, &self.b_name);
        put_u8(&mut out, self.red);
        put_u8(&mut out, self.green);
        put_u8(&mut out, self.blue);
        out
    }
}

} // verus!
