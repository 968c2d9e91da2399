//! What holds of writing a save file and reading it again.

use vstd::prelude::*;

use crate::data::{
    concat_sections, Data, encode_indexes, lemma_offset_of_monotonic, offset_of, zeros,
};
use crate::data::section::{lemma_section_has_no_leftover, lemma_section_known_by_bytes, Section};
use crate::init::{
    FileIndex, HEADER_LENGTH, index_at, index_bytes, INDEX_LENGTH, lemma_header_injective,
    lemma_index_fields, lemma_index_injective, loadable, section_bytes, section_count,
    section_count_field, section_in_range, section_ok, section_size, section_start, table_end,
};
use crate::to_bytes::{group_le_len, le_i32, lemma_i32_of_le};

verus! {

broadcast use group_le_len;

pub proof fn lemma_encode_indexes_len(v: Seq<FileIndex>)
    ensures
        encode_indexes(v).len() == INDEX_LENGTH * v.len(),
    decreases v.len(),
{
    if v.len() > 0 {
        lemma_encode_indexes_len(v.drop_last());
    }
}

/// Entry `i` of the table stands at `i` times its width.
pub proof fn lemma_encode_indexes_at(v: Seq<FileIndex>, i: int)
    requires
        0 <= i < v.len(),
    ensures
        encode_indexes(v).subrange(INDEX_LENGTH * i, INDEX_LENGTH * (i + 1)) == v[i].encoding(),
    decreases v.len(),
{
    let front = v.drop_last();
    lemma_encode_indexes_len(front);
    if i == v.len() - 1 {
        assert(encode_indexes(v).subrange(INDEX_LENGTH * i, INDEX_LENGTH * (i + 1))
            =~= v[i].encoding());
    } else {
        lemma_encode_indexes_at(front, i);
        assert(encode_indexes(v).subrange(INDEX_LENGTH * i, INDEX_LENGTH * (i + 1))
            =~= encode_indexes(front).subrange(INDEX_LENGTH * i, INDEX_LENGTH * (i + 1)));
    }
}

/// Where a section starts depends on the sections before it alone.
pub proof fn lemma_offset_of_front(first: int, s: Seq<Section>, i: int)
    requires
        0 <= i < s.len(),
    ensures
        offset_of(first, s.drop_last(), i) == offset_of(first, s, i),
    decreases i,
{
    if i > 0 {
        lemma_offset_of_front(first, s, i - 1);
    }
}

pub proof fn lemma_offset_of_first(first: int, s: Seq<Section>, i: int)
    requires
        0 <= i,
    ensures
        offset_of(first, s, i) == first + offset_of(0, s, i),
        offset_of(0, s, i) >= 0,
    decreases i,
{
    if i > 0 {
        lemma_offset_of_first(first, s, i - 1);
    }
}

pub proof fn lemma_concat_sections_len(s: Seq<Section>)
    ensures
        concat_sections(s).len() == offset_of(0, s, s.len() as int),
    decreases s.len(),
{
    if s.len() > 0 {
        lemma_concat_sections_len(s.drop_last());
        lemma_offset_of_front(0, s, s.len() - 1);
    }
}

/// Section `i` stands where the sections before it end.
pub proof fn lemma_concat_sections_at(s: Seq<Section>, i: int)
    requires
        0 <= i < s.len(),
    ensures
        offset_of(0, s, i + 1) <= concat_sections(s).len(),
        concat_sections(s).subrange(offset_of(0, s, i), offset_of(0, s, i + 1))
            == s[i].encoding(),
    decreases s.len(),
{
    let front = s.drop_last();
    lemma_concat_sections_len(front);
    lemma_concat_sections_len(s);
    lemma_offset_of_first(0, s, i);
    if i == s.len() - 1 {
        lemma_offset_of_front(0, s, i);
        assert(concat_sections(s).subrange(offset_of(0, s, i), offset_of(0, s, i + 1))
            =~= s[i].encoding());
    } else {
        lemma_concat_sections_at(front, i);
        lemma_offset_of_front(0, s, i);
        lemma_offset_of_front(0, s, i + 1);
        assert(concat_sections(s).subrange(offset_of(0, s, i), offset_of(0, s, i + 1))
            =~= concat_sections(front).subrange(offset_of(0, s, i), offset_of(0, s, i + 1)));
    }
}

/// Where the parts of a written file stand.
pub proof fn lemma_file_layout(d: Data)
    requires
        d.wf(),
        d.fits(),
        d.laid_out(),
    ensures
        d.file_bytes().len() == offset_of(
            d.first_start(),
            d.sections@,
            d.sections@.len() as int,
        ),
        d.file_bytes().subrange(0, HEADER_LENGTH as int) == d.header.encoding(),
        section_count(d.file_bytes()) == d.sections@.len(),
        forall|i: int|
            0 <= i < d.sections@.len() ==> #[trigger] index_bytes(d.file_bytes(), i)
                == d.file_indexes@[i].encoding(),
        forall|i: int|
            0 <= i < d.sections@.len() ==> #[trigger] section_in_range(d.file_bytes(), i),
        forall|i: int|
            0 <= i < d.sections@.len() ==> #[trigger] section_bytes(d.file_bytes(), i)
                == d.sections@[i].encoding(),
{
    let x = d.file_bytes();
    let n = d.sections@.len() as int;
    let head = d.header.encoding();
    let table = encode_indexes(d.file_indexes@);
    let pad = zeros(d.first_start() - table_end(n));
    let body = concat_sections(d.sections@);
    lemma_encode_indexes_len(d.file_indexes@);
    lemma_concat_sections_len(d.sections@);
    lemma_offset_of_first(d.first_start(), d.sections@, n);
    assert(x == head + table + pad + body);
    assert(head.len() == HEADER_LENGTH);
    assert(table.len() == INDEX_LENGTH * n);
    assert((head + table).len() == table_end(n));
    assert((head + table + pad).len() == d.first_start());
    assert(x.subrange(0, HEADER_LENGTH as int) =~= head);
    assert(x.subrange(8, 12) =~= le_i32(d.header.files)) by {
        assert(head.subrange(8, 12) =~= le_i32(d.header.files));
        assert(x.subrange(8, 12) =~= head.subrange(8, 12));
    }
    lemma_i32_of_le(d.header.files);
    assert(section_count_field(x) == d.header.files);
    assert forall|i: int| 0 <= i < n implies #[trigger] index_bytes(x, i)
        == d.file_indexes@[i].encoding() by {
        lemma_encode_indexes_at(d.file_indexes@, i);
        assert(index_at(i) == HEADER_LENGTH + INDEX_LENGTH * i);
        assert(index_at(i + 1) == HEADER_LENGTH + INDEX_LENGTH * (i + 1));
        assert(index_bytes(x, i) =~= table.subrange(INDEX_LENGTH * i, INDEX_LENGTH * (i + 1)));
    }
    assert forall|i: int| 0 <= i < n implies #[trigger] section_in_range(x, i) && section_bytes(
        x,
        i,
    ) == d.sections@[i].encoding() by {
        lemma_index_fields(d.file_indexes@[i], x, i);
        lemma_concat_sections_at(d.sections@, i);
        lemma_offset_of_first(d.first_start(), d.sections@, i);
        lemma_offset_of_first(d.first_start(), d.sections@, i + 1);
        let from = offset_of(0, d.sections@, i);
        let to = offset_of(0, d.sections@, i + 1);
        lemma_offset_of_monotonic(d.first_start(), d.sections@, i + 1, n);
        assert(section_start(x, i) == d.first_start() + from);
        assert(section_size(x, i) == to - from);
        assert(section_bytes(x, i) =~= body.subrange(from, to));
    }
    assert forall|i: int| 0 <= i < n implies #[trigger] section_bytes(x, i)
        == d.sections@[i].encoding() by {
        assert(section_in_range(x, i));
    }
}

/// A written file is a save file.
pub proof fn lemma_written_file_loads(d: Data)
    requires
        d.wf(),
        d.fits(),
        d.laid_out(),
    ensures
        loadable(d.file_bytes()),
{
    let x = d.file_bytes();
    lemma_file_layout(d);
    lemma_offset_of_first(d.first_start(), d.sections@, d.sections@.len() as int);
    assert forall|i: int| 0 <= i < section_count(x) implies section_ok(x, i) by {
        lemma_index_fields(d.file_indexes@[i], x, i);
        lemma_section_has_no_leftover(d.sections@[i]);
        assert(section_in_range(x, i));
        assert(section_bytes(x, i) == d.sections@[i].encoding());
    }
}

/// Writing a save file and reading it again gives it back.
///
/// Let `written` be a save file as `save_file` leaves it, and `read` what
/// the bytes of `written` decode to. Then the two have the same header and
/// the same table of sections, and section by section the same records in
/// the same order, or the same bytes where a section is carried through.
pub proof fn lemma_load_after_save(written: Data, read: Data)
    requires
        written.wf(),
        written.fits(),
        written.laid_out(),
        read.wf(),
        read.decoded_from(written.file_bytes()),
    ensures
        read.header == written.header,
        read.file_indexes@ == written.file_indexes@,
        read.sections@.len() == written.sections@.len(),
        forall|i: int|
            0 <= i < read.sections@.len() ==> (#[trigger] read.sections@[i]).same_as(
                &written.sections@[i],
            ),
{
    let x = written.file_bytes();
    lemma_file_layout(written);
    lemma_header_injective(read.header, written.header);
    assert forall|i: int| 0 <= i < read.file_indexes@.len() implies read.file_indexes@[i]
        == written.file_indexes@[i] by {
        assert(read.file_indexes@[i].encoding() == index_bytes(x, i));
        lemma_index_injective(read.file_indexes@[i], written.file_indexes@[i]);
    }
    assert(read.file_indexes@ =~= written.file_indexes@);
    assert forall|i: int| 0 <= i < read.sections@.len() implies (#[trigger] read.sections@[
        i
    ]).same_as(&written.sections@[i]) by {
        assert(section_bytes(x, i) == written.sections@[i].encoding());
        assert(read.sections@[i].kind() == read.file_indexes@[i].kind());
        assert(written.sections@[i].kind() == written.file_indexes@[i].kind());
        lemma_section_known_by_bytes(read.sections@[i], written.sections@[i]);
    }
}

/// Where the first section of a file starts, by the table of sections; the
/// end of the header where there is no section.
pub open spec fn first_start_of(bytes: Seq<u8>) -> int {
    if section_count(bytes) == 0 {
        HEADER_LENGTH as int
    } else {
        section_start(bytes, 0) as int
    }
}

/// Where section `i` of a file would start if the sections followed one
/// another from the start of the first, going by their lengths in the
/// table.
pub open spec fn start_in_order(bytes: Seq<u8>, i: int) -> int
    decreases i,
{
    if i <= 0 {
        first_start_of(bytes)
    } else {
        start_in_order(bytes, i - 1) + section_size(bytes, i - 1)
    }
}

/// Whether a save file is laid out as `save_file` lays one out: nothing but
/// NUL bytes between the table of sections and the first section, the
/// sections one after the other in the order of the table, nothing after
/// the last, and the whole no longer than an offset can say.
pub open spec fn in_order(bytes: Seq<u8>) -> bool {
    &&& loadable(bytes)
    &&& bytes.len() <= u32::MAX
    &&& table_end(section_count(bytes) as int) <= first_start_of(bytes)
    &&& forall|k: int|
        table_end(section_count(bytes) as int) <= k < first_start_of(bytes) ==> bytes[k] == 0
    &&& forall|i: int|
        0 <= i < section_count(bytes) ==> #[trigger] section_start(bytes, i) == start_in_order(
            bytes,
            i,
        )
    &&& bytes.len() == start_in_order(bytes, section_count(bytes) as int)
}

proof fn lemma_table_is_window(d: Data, bytes: Seq<u8>, n: int)
    requires
        d.decoded_from(bytes),
        0 <= n <= d.file_indexes@.len(),
    ensures
        encode_indexes(d.file_indexes@.subrange(0, n)) == bytes.subrange(
            HEADER_LENGTH as int,
            index_at(n),
        ),
    decreases n,
{
    let v = d.file_indexes@.subrange(0, n);
    if n == 0 {
        assert(bytes.subrange(HEADER_LENGTH as int, index_at(0)) =~= Seq::<u8>::empty());
    } else {
        lemma_table_is_window(d, bytes, n - 1);
        assert(v.drop_last() =~= d.file_indexes@.subrange(0, n - 1));
        assert(v.last() == d.file_indexes@[n - 1]);
        assert(d.file_indexes@[n - 1].encoding() == index_bytes(bytes, n - 1));
        assert(index_at(n) <= index_at(d.file_indexes@.len() as int));
        assert(bytes.subrange(HEADER_LENGTH as int, index_at(n - 1)) + index_bytes(bytes, n - 1)
            =~= bytes.subrange(HEADER_LENGTH as int, index_at(n)));
    }
}

proof fn lemma_starts_in_order(d: Data, bytes: Seq<u8>, n: int)
    requires
        d.decoded_from(bytes),
        in_order(bytes),
        0 <= n <= d.sections@.len(),
    ensures
        first_start_of(bytes) == d.first_start(),
        start_in_order(bytes, n) == offset_of(d.first_start(), d.sections@, n),
        first_start_of(bytes) <= start_in_order(bytes, n) <= bytes.len(),
        concat_sections(d.sections@.subrange(0, n)) == bytes.subrange(
            first_start_of(bytes),
            start_in_order(bytes, n),
        ),
    decreases n,
{
    if d.sections@.len() > 0 {
        lemma_index_fields(d.file_indexes@[0], bytes, 0);
    }
    let s = d.sections@.subrange(0, n);
    if n == 0 {
        assert(table_end(section_count(bytes) as int) <= bytes.len());
        if section_count(bytes) > 0 {
            assert(section_ok(bytes, 0));
        }
        assert(bytes.subrange(first_start_of(bytes), first_start_of(bytes))
            =~= Seq::<u8>::empty());
    } else {
        lemma_starts_in_order(d, bytes, n - 1);
        assert(s.drop_last() =~= d.sections@.subrange(0, n - 1));
        assert(s.last() == d.sections@[n - 1]);
        assert(section_ok(bytes, n - 1));
        assert(d.sections@[n - 1].encoding() == section_bytes(bytes, n - 1));
        assert(section_start(bytes, n - 1) == start_in_order(bytes, n - 1));
        assert(bytes.subrange(first_start_of(bytes), start_in_order(bytes, n - 1))
            + section_bytes(bytes, n - 1) =~= bytes.subrange(
            first_start_of(bytes),
            start_in_order(bytes, n),
        ));
    }
}

/// Reading a save file and writing it again gives its bytes back.
///
/// Let `read` be what the bytes of a file decode to, the file being laid out
/// as `save_file` lays one out. Then `read` can be written, its table of
/// sections is up to date already, and its bytes are those of the file.
pub proof fn lemma_save_after_load(bytes: Seq<u8>, read: Data)
    requires
        in_order(bytes),
        read.wf(),
        read.decoded_from(bytes),
    ensures
        read.fits(),
        read.laid_out(),
        read.file_bytes() == bytes,
{
    let n = read.sections@.len() as int;
    lemma_starts_in_order(read, bytes, n);
    lemma_table_is_window(read, bytes, n);
    assert forall|i: int| 0 <= i < n implies {
        &&& (#[trigger] read.file_indexes@[i]).start_position == offset_of(
            read.first_start(),
            read.sections@,
            i,
        )
        &&& read.file_indexes@[i].size == read.sections@[i].encoding().len()
    } by {
        lemma_index_fields(read.file_indexes@[i], bytes, i);
        lemma_starts_in_order(read, bytes, i);
        assert(section_ok(bytes, i));
        assert(read.sections@[i].encoding() == section_bytes(bytes, i));
        assert(section_start(bytes, i) == start_in_order(bytes, i));
    }
    assert(read.sections@.subrange(0, n) =~= read.sections@);
    assert(read.file_indexes@.subrange(0, n) =~= read.file_indexes@);
    let first = first_start_of(bytes);
    let pad = zeros(first - table_end(n));
    assert(pad =~= bytes.subrange(table_end(n), first));
    assert(bytes =~= bytes.subrange(0, HEADER_LENGTH as int) + bytes.subrange(
        HEADER_LENGTH as int,
        table_end(n),
    ) + bytes.subrange(table_end(n), first) + bytes.subrange(first, bytes.len() as int));
}

/// A table of sections that is up to date is the only one that is: two save
/// files with the same sections and the same names for them, whose first
/// sections start at the same place, have the same table where both tables
/// are up to date.
pub proof fn lemma_laid_out_unique(a: Data, b: Data)
    requires
        a.sections@ == b.sections@,
        a.file_indexes@.len() == b.file_indexes@.len(),
        a.first_start() == b.first_start(),
        forall|i: int|
            0 <= i < a.file_indexes@.len() ==> (#[trigger] a.file_indexes@[i]).b_name
                == b.file_indexes@[i].b_name,
        a.laid_out(),
        b.laid_out(),
    ensures
        a.file_indexes@ == b.file_indexes@,
{
    assert forall|i: int| 0 <= i < a.file_indexes@.len() implies a.file_indexes@[i]
        == b.file_indexes@[i] by {
        assert(a.file_indexes@[i].b_name == b.file_indexes@[i].b_name);
        assert(b.file_indexes@[i].size == b.sections@[i].encoding().len());
    }
    assert(a.file_indexes@ =~= b.file_indexes@);
}

} // verus!
