//! The layout of a referee or a linesman.

use vstd::prelude::*;

use crate::data::date::{lemma_date_encoding_injective, SIDate};
use crate::data::record::Record;
use crate::to_bytes::{
    group_le_len, le_i16, le_i32, le_i8, lemma_concat_cancel, lemma_le_i16_injective,
    lemma_le_i32_injective, lemma_le_i8_injective, put_i16, put_i32, put_i8, Reader,
};

verus! {

broadcast use group_le_len;

/// A referee or a linesman.
#[derive(Clone, Copy, Debug, PartialEq, Eq)]
pub struct Official {
    pub id: i32,
    pub forename_id: i32,
    pub surname_id: i32,
    pub nation_id: i32,
    pub city_id: i32,
    pub comp_id: i32,
    pub year_of_birth: i16,
    pub current_ability: i16,
    pub potential_ability: i16,
    pub reputation: i16,
    pub date_of_birth: SIDate,
    pub allowing_roughness: i8,
    pub discipline: i8,
    pub important_matches: i8,
    pub pressure: i8,
    pub refereeing: i8,
    pub skating_line: i8,
    pub allowing_interference: i8,
}

impl Record for Official {
    open spec fn encoding(&self) -> Seq<u8> {
        le_i32(self.id)
        + le_i32(self.forename_id)
        + le_i32(self.surname_id)
        + le_i32(self.nation_id)
        + le_i32(self.city_id)
        + le_i32(self.comp_id)
        + le_i16(self.year_of_birth)
        + le_i16(self.current_ability)
        + le_i16(self.potential_ability)
        + le_i16(self.reputation)
        + self.date_of_birth.encoding()
        + le_i8(self.allowing_roughness)
        + le_i8(self.discipline)
        + le_i8(self.important_matches)
        + le_i8(self.pressure)
        + le_i8(self.refereeing)
        + le_i8(self.skating_line)
        + le_i8(self.allowing_interference)
    }

    open spec fn key(&self) -> i32 {
        self.id
    }

    open spec fn stride() -> nat {
        44
    }

    proof fn lemma_stride(&self) {
    }

    proof fn lemma_injective(a: Self, b: Self) {
        let a0 = le_i32(a.id);
        let b0 = le_i32(b.id);
        let a1 = a0 + le_i32(a.forename_id);
        let b1 = b0 + le_i32(b.forename_id);
        let a2 = a1 + le_i32(a.surname_id);
        let b2 = b1 + le_i32(b.surname_id);
        let a3 = a2 + le_i32(a.nation_id);
        let b3 = b2 + le_i32(b.nation_id);
        let a4 = a3 + le_i32(a.city_id);
        let b4 = b3 + le_i32(b.city_id);
        let a5 = a4 + le_i32(a.comp_id);
        let b5 = b4 + le_i32(b.comp_id);
        let a6 = a5 + le_i16(a.year_of_birth);
        let b6 = b5 + le_i16(b.year_of_birth);
        let a7 = a6 + le_i16(a.current_ability);
        let b7 = b6 + le_i16(b.current_ability);
        let a8 = a7 + le_i16(a.potential_ability);
        let b8 = b7 + le_i16(b.potential_ability);
        let a9 = a8 + le_i16(a.reputation);
        let b9 = b8 + le_i16(b.reputation);
        let a10 = a9 + a.date_of_birth.encoding();
        let b10 = b9 + b.date_of_birth.encoding();
        let a11 = a10 + le_i8(a.allowing_roughness);
        let b11 = b10 + le_i8(b.allowing_roughness);
        let a12 = a11 + le_i8(a.discipline);
        let b12 = b11 + le_i8(b.discipline);
        let a13 = a12 + le_i8(a.important_matches);
        let b13 = b12 + le_i8(b.important_matches);
        let a14 = a13 + le_i8(a.pressure);
        let b14 = b13 + le_i8(b.pressure);
        let a15 = a14 + le_i8(a.refereeing);
        let b15 = b14 + le_i8(b.refereeing);
        let a16 = a15 + le_i8(a.skating_line);
        let b16 = b15 + le_i8(b.skating_line);
        lemma_concat_cancel(
            a16,
            le_i8(a.allowing_interference),
            b16,
            le_i8(b.allowing_interference),
        );
        lemma_le_i8_injective(a.allowing_interference, b.allowing_interference);
        lemma_concat_cancel(a15, le_i8(a.skating_line), b15, le_i8(b.skating_line));
        lemma_le_i8_injective(a.skating_line, b.skating_line);
        lemma_concat_cancel(a14, le_i8(a.refereeing), b14, le_i8(b.refereeing));
        lemma_le_i8_injective(a.refereeing, b.refereeing);
        lemma_concat_cancel(a13, le_i8(a.pressure), b13, le_i8(b.pressure));
        lemma_le_i8_injective(a.pressure, b.pressure);
        lemma_concat_cancel(a12, le_i8(a.important_matches), b12, le_i8(b.important_matches));
        lemma_le_i8_injective(a.important_matches, b.important_matches);
        lemma_concat_cancel(a11, le_i8(a.discipline), b11, le_i8(b.discipline));
        lemma_le_i8_injective(a.discipline, b.discipline);
        lemma_concat_cancel(a10, le_i8(a.allowing_roughness), b10, le_i8(b.allowing_roughness));
        lemma_le_i8_injective(a.allowing_roughness, b.allowing_roughness);
        lemma_concat_cancel(a9, a.date_of_birth.encoding(), b9, b.date_of_birth.encoding());
        lemma_date_encoding_injective(a.date_of_birth, b.date_of_birth);
        lemma_concat_cancel(a8, le_i16(a.reputation), b8, le_i16(b.reputation));
        lemma_le_i16_injective(a.reputation, b.reputation);
        lemma_concat_cancel(a7, le_i16(a.potential_ability), b7, le_i16(b.potential_ability));
        lemma_le_i16_injective(a.potential_ability, b.potential_ability);
        lemma_concat_cancel(a6, le_i16(a.current_ability), b6, le_i16(b.current_ability));
        lemma_le_i16_injective(a.current_ability, b.current_ability);
        lemma_concat_cancel(a5, le_i16(a.year_of_birth), b5, le_i16(b.year_of_birth));
        lemma_le_i16_injective(a.year_of_birth, b.year_of_birth);
        lemma_concat_cancel(a4, le_i32(a.comp_id), b4, le_i32(b.comp_id));
        lemma_le_i32_injective(a.comp_id, b.comp_id);
        lemma_concat_cancel(a3, le_i32(a.city_id), b3, le_i32(b.city_id));
        lemma_le_i32_injective(a.city_id, b.city_id);
        lemma_concat_cancel(a2, le_i32(a.nation_id), b2, le_i32(b.nation_id));
        lemma_le_i32_injective(a.nation_id, b.nation_id);
        lemma_concat_cancel(a1, le_i32(a.surname_id), b1, le_i32(b.surname_id));
        lemma_le_i32_injective(a.surname_id, b.surname_id);
        lemma_concat_cancel(a0, le_i32(a.forename_id), b0, le_i32(b.forename_id));
        lemma_le_i32_injective(a.forename_id, b.forename_id);
        lemma_le_i32_injective(a.id, b.id);
    }

    fn width() -> (n: usize) {
        44
    }

    fn id(&self) -> (k: i32) {
        self.id
    }

    fn parse(bytes: &[u8], at: usize) -> (r: Option<Self>) {
        if bytes.len() < 44 || at > bytes.len() - 44 {
            return None;
        }
        let mut r = Reader::new(bytes, at);
        let id = r.read_i32();
        assert(r.taken() =~= le_i32(id));
        let forename_id = r.read_i32();
        let surname_id = r.read_i32();
        let nation_id = r.read_i32();
        let city_id = r.read_i32();
        let comp_id = r.read_i32();
        let year_of_birth = r.read_i16();
        let current_ability = r.read_i16();
        assert(r.pos == at + 28);
        let potential_ability = r.read_i16();
        let reputation = r.read_i16();
        let date_of_birth = SIDate::read(&mut r);
        let allowing_roughness = r.read_i8();
        let discipline = r.read_i8();
        let important_matches = r.read_i8();
        let pressure = r.read_i8();
        let refereeing = r.read_i8();
        assert(r.pos == at + 42);
        let skating_line = r.read_i8();
        let allowing_interference = r.read_i8();
        let rec = Official {
            id,
            forename_id,
            surname_id,
            nation_id,
            city_id,
            comp_id,
            year_of_birth,
            current_ability,
            potential_ability,
            reputation,
            date_of_birth,
            allowing_roughness,
            discipline,
            important_matches,
            pressure,
            refereeing,
            skating_line,
            allowing_interference,
        };
        proof {
            r.lemma_taken();
        }
        Some(rec)
    }

    fn to_bytes(&self) -> (out: Vec<u8>) {
        let mut out = Vec::new();
        put_i32(&mut out, self.id);
        assert(out@ =~= le_i32(self.id));
        put_i32(&mut out, self.forename_id);
        put_i32(&mut out, self.surname_id);
        put_i32(&mut out, self.nation_id);
        put_i32(&mut out, self.city_id);
        put_i32(&mut out, self.comp_id);
        put_i16(&mut out, self.year_of_birth);
        put_i16(&mut out, self.current_ability);
        put_i16(&mut out, self.potential_ability);
        put_i16(&mut out, self.reputation);
        self.date_of_birth.write(&mut out);
        put_i8(&mut out, self.allowing_roughness);
        put_i8(&mut out, self.discipline);
        put_i8(&mut out, self.important_matches);
        put_i8(&mut out, self.pressure);
        put_i8(&mut out, self.refereeing);
        put_i8(&mut out, self.skating_line);
        put_i8(&mut out, self.allowing_interference);
        out
    }
}

} // verus!
