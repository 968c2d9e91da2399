//! The head of a save file: the header and the table of its sections.

pub mod debug;

use vstd::prelude::*;
use vstd::slice::slice_subrange;
use vstd::string::StringExecFns;

use crate::chars::{
    as_chars, bytes_to_string_debug, decimal_text, push_char, push_decimal, until_nul,
};
use crate::data::Data;
use crate::data::section::{get_parser_guide, kind_of_name, leftover, Section, SectionKind};
use crate::to_bytes::{
    group_le_len, i32_of, le_i32, le_u32, lemma_concat_cancel, lemma_i32_of_le,
    lemma_le_i32_injective, lemma_le_u32_injective, lemma_u32_of_le, put_bytes, put_i32, put_u32,
    Reader, u32_of,
};

verus! {

broadcast use group_le_len;

/// The width of the header.
pub const HEADER_LENGTH: usize = 12;

/// The width of the name of a section.
pub const NAME_LENGTH: usize = 260;

/// The width of an entry of the table of sections.
pub const INDEX_LENGTH: usize = 268;

/// The first twelve bytes of a save file.
#[derive(Clone, Copy, Debug, PartialEq, Eq, Structural)]
pub struct Header {
    pub compressed: i32,
    pub header: i32,
    /// The number of sections. A negative number counts as none.
    pub files: i32,
}

impl Header {
    pub open spec fn encoding(&self) -> Seq<u8> {
        le_i32(self.compressed) + le_i32(self.header) + le_i32(self.files)
    }

    /// The number of entries in the table of sections.
    pub open spec fn count(&self) -> nat {
        if self.files < 0 {
            0
        } else {
            self.files as nat
        }
    }

    pub fn _to_bytes(&self) -> (out: Vec<u8>)
        ensures
            out@ == self.encoding(),
    {
        let mut out = Vec::new();
        put_i32(&mut out, self.compressed);
        assert(out@ =~= le_i32(self.compressed));
        put_i32(&mut out, self.header);
        put_i32(&mut out, self.files);
        out
    }

    /// Reads the header; `None` where the file is shorter than a header.
    pub fn parse(bytes: &[u8]) -> (r: Option<Header>)
        ensures
            r.is_some() <==> bytes@.len() >= HEADER_LENGTH,
            r matches Some(h) ==> h.encoding() == bytes@.subrange(0, HEADER_LENGTH as int)
                && h.files == section_count_field(bytes@),
    {
        if bytes.len() < HEADER_LENGTH {
            return None;
        }
        let mut r = Reader::new(bytes, 0);
        let compressed = r.read_i32();
        assert(r.taken() =~= le_i32(compressed));
        let header = r.read_i32();
        let files = r.read_i32();
        let h = Header { compressed, header, files };
        proof {
            r.lemma_taken();
            assert(bytes@.subrange(8, 12) =~= h.encoding().subrange(8, 12));
            assert(h.encoding().subrange(8, 12) =~= le_i32(files));
            lemma_i32_of_le(files);
        }
        Some(h)
    }
}

/// An entry of the table of sections: where a section lies and what it is
/// called.
#[derive(Clone, Copy, Debug, PartialEq, Eq)]
pub struct FileIndex {
    pub start_position: u32,
    pub size: u32,
    pub b_name: [u8; NAME_LENGTH],
}

impl FileIndex {
    pub open spec fn encoding(&self) -> Seq<u8> {
        le_u32(self.start_position) + le_u32(self.size) + self.b_name@
    }

    /// The name of the section as text.
    pub open spec fn name_text(&self) -> Seq<char> {
        as_chars(until_nul(self.b_name@))
    }

    /// The known section that the name stands for.
    pub open spec fn kind(&self) -> Option<SectionKind> {
        kind_of_name(self.name_text())
    }

    pub fn _to_bytes(&self) -> (out: Vec<u8>)
        ensures
            out@ == self.encoding(),
    {
        let mut out = Vec::new();
        put_u32(&mut out, self.start_position);
        assert(out@ =~= le_u32(self.start_position));
        put_u32(&mut out, self.size);
        put_bytes(&mut out, &self.b_name);
        out
    }

    /// Reads the entry that starts at `at`; `None` where the file ends
    /// before the entry does.
    pub fn parse(bytes: &[u8], at: usize) -> (r: Option<FileIndex>)
        ensures
            r.is_some() <==> at + INDEX_LENGTH <= bytes@.len(),
            r matches Some(e) ==> e.encoding() == bytes@.subrange(at as int, at + INDEX_LENGTH),
    {
        if bytes.len() < INDEX_LENGTH || at > bytes.len() - INDEX_LENGTH {
            return None;
        }
        let mut r = Reader::new(bytes, at);
        let start_position = r.read_u32();
        assert(r.taken() =~= le_u32(start_position));
        let size = r.read_u32();
        let b_name = r.read_bytes::<NAME_LENGTH>();
        proof {
            r.lemma_taken();
        }
        Some(FileIndex { start_position, size, b_name })
    }

    /// The entry as a row of a table for diagnosis: its place in the table,
    /// where the section starts, how long it is, and the whole field of the
    /// name, each byte as the character of its number; with semicolons
    /// between them.
    pub fn _to_string(&self, index: usize) -> (s: String)
        requires
            index <= i64::MAX,
        ensures
            s@ == decimal_text(index as int) + ";"@ + decimal_text(self.start_position as int)
                + ";"@ + decimal_text(self.size as int) + ";"@ + as_chars(self.b_name@),
    {
        let mut s = String::new();
        push_decimal(&mut s, index as i64);
        assert(s@ =~= decimal_text(index as int));
        s.append(";");
        push_decimal(&mut s, self.start_position as i64);
        s.append(";");
        push_decimal(&mut s, self.size as i64);
        s.append(";");
        let ghost lead = s@;
        let mut i: usize = 0;
        assert(s@ =~= lead + as_chars(self.b_name@.subrange(0, 0)));
        while i < NAME_LENGTH
            invariant
                i <= NAME_LENGTH,
                s@ == lead + as_chars(self.b_name@.subrange(0, i as int)),
            decreases NAME_LENGTH - i,
        {
            push_char(&mut s, self.b_name[i] as char);
            i += 1;
            assert(s@ =~= lead + as_chars(self.b_name@.subrange(0, i as int)));
        }
        assert(self.b_name@.subrange(0, NAME_LENGTH as int) =~= self.b_name@);
        s
    }

    /// The name of the section: the bytes before the first NUL, each as the
    /// character of its number.
    pub fn name(&self) -> (s: String)
        ensures
            s@ == self.name_text(),
    {
        bytes_to_string_debug(&self.b_name)
    }
}

/// The characters before the first NUL character; all of them where there
/// is none.
pub open spec fn until_nul_char(s: Seq<char>) -> Seq<char>
    decreases s.len(),
{
    if s.len() == 0 || s[0] == '\0' {
        Seq::empty()
    } else {
        seq![s[0]] + until_nul_char(s.drop_first())
    }
}

/// The text that a run of characters holds: the characters before the first
/// NUL character.
pub fn bytes_to_string(bytes: &[char]) -> (s: String)
    ensures
        s@ == until_nul_char(bytes@),
{
    let mut s = String::new();
    let mut i: usize = 0;
    while i < bytes.len() && bytes[i] != '\0'
        invariant
            i <= bytes@.len(),
            forall|k: int| 0 <= k < i ==> bytes@[k] != '\0',
            s@ == bytes@.subrange(0, i as int),
        decreases bytes@.len() - i,
    {
        push_char(&mut s, bytes[i]);
        i += 1;
        assert(s@ =~= bytes@.subrange(0, i as int));
    }
    proof {
        lemma_until_nul_char(bytes@, i as int);
    }
    s
}

/// The text ends where the first NUL character stands.
pub proof fn lemma_until_nul_char(s: Seq<char>, n: int)
    requires
        0 <= n <= s.len(),
        forall|k: int| 0 <= k < n ==> s[k] != '\0',
        n < s.len() ==> s[n] == '\0',
    ensures
        until_nul_char(s) == s.subrange(0, n),
    decreases n,
{
    if n == 0 {
        assert(s.subrange(0, 0) =~= Seq::<char>::empty());
    } else {
        lemma_until_nul_char(s.drop_first(), n - 1);
        assert(s.subrange(0, n) =~= seq![s[0]] + s.drop_first().subrange(0, n - 1));
    }
}

/// Why a file is no save file, or why a save file cannot be written.
#[derive(Clone, Copy, Debug, PartialEq, Eq)]
pub enum FormatError {
    /// The file is shorter than a header.
    Header,
    /// The file ends before entry `entry` of the table of sections does.
    Index { entry: usize },
    /// Section `section` reaches past the end of the file.
    Range { section: usize },
    /// Section `section`, called `name`, has `leftover` bytes at its end
    /// that make up no record, where none were expected.
    Leftover { section: usize, name: [u8; NAME_LENGTH], leftover: usize },
    /// The sections do not fit the file: the first would start inside the
    /// table of sections, or the last would end past what an offset can
    /// say.
    Layout,
}

impl FormatError {
    /// The name of the section that the error is about, where it is about
    /// the records of one.
    pub fn section_name(&self) -> (r: Option<String>)
        ensures
            match *self {
                FormatError::Leftover { name, .. } => r matches Some(s) && s@ == as_chars(
                    until_nul(name@),
                ),
                _ => r is None,
            },
    {
        match self {
            FormatError::Leftover { name, .. } => Some(bytes_to_string_debug(name)),
            _ => None,
        }
    }
}

/// What the header says of the number of sections.
pub open spec fn section_count_field(bytes: Seq<u8>) -> i32 {
    i32_of(bytes.subrange(8, 12))
}

/// The number of entries in the table of sections of a file.
pub open spec fn section_count(bytes: Seq<u8>) -> nat {
    if section_count_field(bytes) < 0 {
        0
    } else {
        section_count_field(bytes) as nat
    }
}

/// Where entry `i` of the table of sections starts.
pub open spec fn index_at(i: int) -> int {
    HEADER_LENGTH + INDEX_LENGTH * i
}

/// Where the table of `n` sections ends.
pub open spec fn table_end(n: int) -> int {
    index_at(n)
}

/// The bytes of entry `i` of the table of sections.
pub open spec fn index_bytes(bytes: Seq<u8>, i: int) -> Seq<u8> {
    bytes.subrange(index_at(i), index_at(i + 1))
}

/// Where section `i` starts, by its entry in the table.
pub open spec fn section_start(bytes: Seq<u8>, i: int) -> u32 {
    u32_of(index_bytes(bytes, i).subrange(0, 4))
}

/// How long section `i` is, by its entry in the table.
pub open spec fn section_size(bytes: Seq<u8>, i: int) -> u32 {
    u32_of(index_bytes(bytes, i).subrange(4, 8))
}

/// The name of section `i`, by its entry in the table.
pub open spec fn section_name(bytes: Seq<u8>, i: int) -> Seq<u8> {
    index_bytes(bytes, i).subrange(8, INDEX_LENGTH as int)
}

/// The known section that the name of section `i` stands for.
pub open spec fn section_kind(bytes: Seq<u8>, i: int) -> Option<SectionKind> {
    kind_of_name(as_chars(until_nul(section_name(bytes, i))))
}

/// The bytes of section `i`.
pub open spec fn section_bytes(bytes: Seq<u8>, i: int) -> Seq<u8> {
    bytes.subrange(
        section_start(bytes, i) as int,
        section_start(bytes, i) + section_size(bytes, i),
    )
}

/// Whether the header and the table of sections lie within the file.
pub open spec fn head_ok(bytes: Seq<u8>) -> bool {
    bytes.len() >= HEADER_LENGTH && table_end(section_count(bytes) as int) <= bytes.len()
}

/// Whether section `i` lies within the file.
pub open spec fn section_in_range(bytes: Seq<u8>, i: int) -> bool {
    section_start(bytes, i) + section_size(bytes, i) <= bytes.len()
}

/// The bytes at the end of section `i` that make up no record.
pub open spec fn section_leftover(bytes: Seq<u8>, i: int) -> nat {
    leftover(section_kind(bytes, i), section_size(bytes, i) as nat)
}

/// Whether section `i` lies within the file and decodes to its end.
pub open spec fn section_ok(bytes: Seq<u8>, i: int) -> bool {
    section_in_range(bytes, i) && section_leftover(bytes, i) == 0
}

/// Whether a file is a save file.
pub open spec fn loadable(bytes: Seq<u8>) -> bool {
    head_ok(bytes) && forall|i: int| 0 <= i < section_count(bytes) ==> section_ok(bytes, i)
}

/// Whether `e` is the first fault of a file, going through it from the
/// header over the table of sections to the sections in their order.
pub open spec fn is_fault(bytes: Seq<u8>, e: FormatError) -> bool {
    match e {
        FormatError::Header => bytes.len() < HEADER_LENGTH,
        FormatError::Index { entry } => {
            &&& bytes.len() >= HEADER_LENGTH
            &&& entry < section_count(bytes)
            &&& index_at(entry as int) <= bytes.len() < index_at(entry + 1)
        },
        FormatError::Range { section } => {
            &&& head_ok(bytes)
            &&& section < section_count(bytes)
            &&& forall|j: int| 0 <= j < section ==> section_ok(bytes, j)
            &&& !section_in_range(bytes, section as int)
        },
        FormatError::Leftover { section, name, leftover } => {
            &&& head_ok(bytes)
            &&& section < section_count(bytes)
            &&& forall|j: int| 0 <= j < section ==> section_ok(bytes, j)
            &&& section_in_range(bytes, section as int)
            &&& leftover == section_leftover(bytes, section as int)
            &&& leftover != 0
            &&& name@ == section_name(bytes, section as int)
        },
        FormatError::Layout => false,
    }
}

/// Whether the entry of a section and what was decoded from its bytes
/// agree.
pub open spec fn entry_ok(index: FileIndex, len: nat) -> bool {
    index.start_position + index.size <= len && leftover(index.kind(), index.size as nat) == 0
}

/// Reads the table of sections that follows the header.
pub fn read_file_indexes(bytes: &[u8], header: &Header) -> (r: Result<Vec<FileIndex>, FormatError>)
    requires
        bytes@.len() >= HEADER_LENGTH,
        header.files == section_count_field(bytes@),
    ensures
        r.is_ok() <==> head_ok(bytes@),
        r matches Ok(v) ==> {
            &&& v@.len() == section_count(bytes@)
            &&& forall|i: int| 0 <= i < v@.len() ==> (#[trigger] v@[i]).encoding() == index_bytes(
                bytes@,
                i,
            )
        },
        r matches Err(e) ==> is_fault(bytes@, e),
{
    let mut indexes: Vec<FileIndex> = Vec::new();
    let total = bytes.len();
    let mut at: usize = HEADER_LENGTH;
    let mut i: i32 = 0;
    while i < header.files
        invariant
            0 <= i,
            total == bytes@.len(),
            i <= header.files || (header.files < 0 && i == 0),
            header.files == section_count_field(bytes@),
            at == index_at(i as int),
            HEADER_LENGTH <= at <= bytes@.len(),
            indexes@.len() == i,
            forall|k: int| 0 <= k < i ==> (#[trigger] indexes@[k]).encoding() == index_bytes(
                bytes@,
                k,
            ),
        decreases header.files - i,
    {
        match FileIndex::parse(bytes, at) {
            Some(e) => {
                let ghost before = indexes@;
                indexes.push(e);
                assert forall|k: int| 0 <= k < i + 1 implies (#[trigger] indexes@[k]).encoding()
                    == index_bytes(bytes@, k) by {
                    if k < i {
                        assert(indexes@[k] == before[k]);
                    }
                }
                at = at + INDEX_LENGTH;
                i = i + 1;
            },
            None => {
                proof {
                    assert(index_at(section_count(bytes@) as int) >= index_at(i + 1))
                        by (nonlinear_arith)
                        requires
                            section_count(bytes@) >= i + 1,
                    ;
                }
                return Err(FormatError::Index { entry: i as usize });
            },
        }
    }
    Ok(indexes)
}

/// Decodes the section that an entry of the table speaks of.
pub fn parse_file(bytes: &[u8], index: &FileIndex, section: usize) -> (r: Result<
    Section,
    FormatError,
>)
    ensures
        r.is_ok() <==> entry_ok(*index, bytes@.len()),
        r matches Ok(s) ==> {
            &&& s.wf()
            &&& s.kind() == index.kind()
            &&& s.encoding() == bytes@.subrange(
                index.start_position as int,
                index.start_position + index.size,
            )
        },
        r matches Err(e) ==> match e {
            FormatError::Range { section: at } => at == section && index.start_position
                + index.size > bytes@.len(),
            FormatError::Leftover { section: at, name, leftover: left } => {
                &&& at == section
                &&& name == index.b_name
                &&& index.start_position + index.size <= bytes@.len()
                &&& left == leftover(index.kind(), index.size as nat)
                &&& left != 0
            },
            _ => false,
        },
{
    let end: u64 = index.start_position as u64 + index.size as u64;
    if end > bytes.len() as u64 {
        return Err(FormatError::Range { section });
    }
    let part = slice_subrange(bytes, index.start_position as usize, end as usize);
    let name = index.name();
    let kind = get_parser_guide(name.as_str());
    match Section::parse(kind, part) {
        Ok(s) => Ok(s),
        Err(left) => Err(FormatError::Leftover { section, name: index.b_name, leftover: left }),
    }
}

/// Decodes the sections that the table of sections of `data` speaks of.
pub fn parse_files(bytes: &[u8], data: &mut Data) -> (r: Result<(), FormatError>)
    requires
        old(data).head_decoded_from(bytes@),
        old(data).sections@.len() == 0,
    ensures
        final(data).header == old(data).header,
        final(data).file_indexes@ == old(data).file_indexes@,
        r.is_ok() <==> loadable(bytes@),
        r is Ok ==> final(data).wf() && final(data).decoded_from(bytes@),
        r matches Err(e) ==> is_fault(bytes@, e),
{
    let n = data.file_indexes.len();
    let mut i: usize = 0;
    while i < n
        invariant
            i <= n,
            n == data.file_indexes@.len(),
            data.header == old(data).header,
            data.file_indexes@ == old(data).file_indexes@,
            data.head_decoded_from(bytes@),
            data.sections@.len() == i,
            forall|k: int| 0 <= k < i ==> section_ok(bytes@, k),
            forall|k: int|
                0 <= k < i ==> {
                    &&& (#[trigger] data.sections@[k]).wf()
                    &&& data.sections@[k].kind() == data.file_indexes@[k].kind()
                    &&& data.sections@[k].encoding() == section_bytes(bytes@, k)
                },
        decreases n - i,
    {
        proof {
            lemma_index_fields(data.file_indexes@[i as int], bytes@, i as int);
        }
        match parse_file(bytes, &data.file_indexes[i], i) {
            Ok(s) => {
                let ghost before = data.sections@;
                data.sections.push(s);
                assert(section_ok(bytes@, i as int));
                assert forall|k: int| 0 <= k < i + 1 implies {
                    &&& (#[trigger] data.sections@[k]).wf()
                    &&& data.sections@[k].kind() == data.file_indexes@[k].kind()
                    &&& data.sections@[k].encoding() == section_bytes(bytes@, k)
                } by {
                    if k < i {
                        assert(data.sections@[k] == before[k]);
                    }
                }
            },
            Err(e) => {
                assert(!section_ok(bytes@, i as int));
                return Err(e);
            },
        }
        i += 1;
    }
    assert forall|k: int| 0 <= k < data.sections@.len() implies section_in_range(bytes@, k) by {
        assert(section_ok(bytes@, k));
    }
    Ok(())
}

/// Decodes a save file.
///
/// The file is read to its end or not at all: the first fault ends the
/// reading, and nothing of the file is handed out.
pub fn load_save(bytes: &[u8]) -> (r: Result<Data, FormatError>)
    ensures
        r.is_ok() <==> loadable(bytes@),
        r matches Ok(d) ==> d.wf() && d.decoded_from(bytes@),
        r matches Err(e) ==> is_fault(bytes@, e),
{
    match Data::initialise(bytes) {
        Ok(mut data) => match parse_files(bytes, &mut data) {
            Ok(()) => Ok(data),
            Err(e) => Err(e),
        },
        Err(e) => Err(e),
    }
}

/// A known section with bytes left over at its end is no part of a save
/// file: its file does not load.
pub proof fn lemma_leftover_is_fatal(bytes: Seq<u8>, i: int)
    requires
        0 <= i < section_count(bytes),
        section_leftover(bytes, i) != 0,
    ensures
        !loadable(bytes),
{
    assert(!section_ok(bytes, i));
}

/// An entry is known by its bytes.
pub proof fn lemma_index_fields(e: FileIndex, bytes: Seq<u8>, i: int)
    requires
        e.encoding() == index_bytes(bytes, i),
    ensures
        e.start_position == section_start(bytes, i),
        e.size == section_size(bytes, i),
        e.b_name@ == section_name(bytes, i),
        e.kind() == section_kind(bytes, i),
{
    let w = e.encoding();
    assert(w.subrange(0, 4) =~= le_u32(e.start_position));
    assert(w.subrange(4, 8) =~= le_u32(e.size));
    assert(w.subrange(8, INDEX_LENGTH as int) =~= e.b_name@);
    lemma_u32_of_le(e.start_position);
    lemma_u32_of_le(e.size);
}

pub proof fn lemma_header_injective(a: Header, b: Header)
    requires
        a.encoding() == b.encoding(),
    ensures
        a == b,
{
    lemma_concat_cancel(
        le_i32(a.compressed) + le_i32(a.header),
        le_i32(a.files),
        le_i32(b.compressed) + le_i32(b.header),
        le_i32(b.files),
    );
    lemma_concat_cancel(
        le_i32(a.compressed),
        le_i32(a.header),
        le_i32(b.compressed),
        le_i32(b.header),
    );
    lemma_le_i32_injective(a.compressed, b.compressed);
    lemma_le_i32_injective(a.header, b.header);
    lemma_le_i32_injective(a.files, b.files);
}

pub proof fn lemma_index_injective(a: FileIndex, b: FileIndex)
    requires
        a.encoding() == b.encoding(),
    ensures
        a == b,
{
    lemma_concat_cancel(
        le_u32(a.start_position) + le_u32(a.size),
        a.b_name@,
        le_u32(b.start_position) + le_u32(b.size),
        b.b_name@,
    );
    lemma_concat_cancel(
        le_u32(a.start_position),
        le_u32(a.size),
        le_u32(b.start_position),
        le_u32(b.size),
    );
    lemma_le_u32_injective(a.start_position, b.start_position);
    lemma_le_u32_injective(a.size, b.size);
    assert(a.b_name =~= b.b_name);
}

} // verus!
