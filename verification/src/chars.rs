//! The text of the save file: one byte per character, in a code page of
//! the game's own, cut off at the first NUL.
//!
//! A byte below 128 stands for the ASCII character of that number. Some of
//! the bytes from 128 up stand for an accented Latin letter or the trade mark
//! sign. The others stand for nothing and are kept as they are: text that
//! holds them decodes only where the bytes that result happen to be UTF-8.

use core::str::from_utf8;
use regex::Regex;
use vstd::prelude::*;
use vstd::slice::slice_to_vec;
use vstd::string::StringSliceAdditionalSpecFns;
use vstd::utf8::{decode_utf8, encode_utf8, valid_utf8};

verus! {

/// Text whose bytes turn into no UTF-8.
#[derive(Clone, Debug, PartialEq, Eq)]
pub struct EncodingError {
    /// The bytes of the field as they stand in the file.
    pub raw: Vec<u8>,
}

/// The UTF-8 bytes of the character that a byte from 128 up stands for.
pub open spec fn si_to_utf8(b: u8) -> Option<Seq<u8>> {
    match b {
        142 => Some(seq![197u8, 189u8]),  // Ž
        143 => Some(seq![197u8, 136u8]),  // ň
        144 => Some(seq![196u8, 155u8]),  // ě
        153 => Some(seq![226u8, 132u8, 162u8]),  // ™
        154 => Some(seq![197u8, 161u8]),  // š
        157 => Some(seq![197u8, 165u8]),  // ť
        158 => Some(seq![197u8, 190u8]),  // ž
        159 => Some(seq![197u8, 175u8]),  // ů
        160 => Some(seq![196u8, 141u8]),  // č
        167 => Some(seq![197u8, 153u8]),  // ř
        179 => Some(seq![197u8, 152u8]),  // Ř
        187 => Some(seq![196u8, 143u8]),  // ď
        188 => Some(seq![196u8, 140u8]),  // Č
        189 => Some(seq![197u8, 160u8]),  // Š
        190 => Some(seq![196u8, 142u8]),  // Ď
        193 => Some(seq![195u8, 129u8]),  // Á
        196 => Some(seq![195u8, 132u8]),  // Ä
        197 => Some(seq![195u8, 133u8]),  // Å
        201 => Some(seq![195u8, 137u8]),  // É
        205 => Some(seq![195u8, 141u8]),  // Í
        206 => Some(seq![195u8, 142u8]),  // Î
        211 => Some(seq![195u8, 147u8]),  // Ó
        214 => Some(seq![195u8, 150u8]),  // Ö
        216 => Some(seq![195u8, 152u8]),  // Ø
        218 => Some(seq![195u8, 154u8]),  // Ú
        220 => Some(seq![195u8, 156u8]),  // Ü
        222 => Some(seq![195u8, 158u8]),  // Þ
        223 => Some(seq![195u8, 159u8]),  // ß
        224 => Some(seq![195u8, 160u8]),  // à
        225 => Some(seq![195u8, 161u8]),  // á
        226 => Some(seq![195u8, 162u8]),  // â
        227 => Some(seq![195u8, 163u8]),  // ã
        228 => Some(seq![195u8, 164u8]),  // ä
        229 => Some(seq![195u8, 165u8]),  // å
        230 => Some(seq![195u8, 166u8]),  // æ
        231 => Some(seq![195u8, 167u8]),  // ç
        232 => Some(seq![195u8, 168u8]),  // è
        233 => Some(seq![195u8, 169u8]),  // é
        234 => Some(seq![195u8, 170u8]),  // ê
        235 => Some(seq![195u8, 171u8]),  // ë
        236 => Some(seq![195u8, 172u8]),  // ì
        237 => Some(seq![195u8, 173u8]),  // í
        238 => Some(seq![195u8, 174u8]),  // î
        239 => Some(seq![195u8, 175u8]),  // ï
        240 => Some(seq![195u8, 176u8]),  // ð
        241 => Some(seq![195u8, 177u8]),  // ñ
        242 => Some(seq![195u8, 178u8]),  // ò
        243 => Some(seq![195u8, 179u8]),  // ó
        244 => Some(seq![195u8, 180u8]),  // ô
        245 => Some(seq![195u8, 181u8]),  // õ
        246 => Some(seq![195u8, 182u8]),  // ö
        248 => Some(seq![195u8, 184u8]),  // ø
        249 => Some(seq![195u8, 185u8]),  // ù
        250 => Some(seq![195u8, 186u8]),  // ú
        251 => Some(seq![195u8, 187u8]),  // û
        252 => Some(seq![195u8, 188u8]),  // ü
        253 => Some(seq![195u8, 189u8]),  // ý
        _ => None,
    }
}

/// The byte that stands for the character with the UTF-8 bytes `lead` and
/// `next`.
pub open spec fn utf8_pair_to_si(lead: u8, next: u8) -> Option<u8> {
    match (lead, next) {
        (197, 189) => Some(142u8),
        (197, 136) => Some(143u8),
        (196, 155) => Some(144u8),
        (197, 161) => Some(154u8),
        (197, 165) => Some(157u8),
        (197, 190) => Some(158u8),
        (197, 175) => Some(159u8),
        (196, 141) => Some(160u8),
        (197, 153) => Some(167u8),
        (197, 152) => Some(179u8),
        (196, 143) => Some(187u8),
        (196, 140) => Some(188u8),
        (197, 160) => Some(189u8),
        (196, 142) => Some(190u8),
        (195, 129) => Some(193u8),
        (195, 132) => Some(196u8),
        (195, 133) => Some(197u8),
        (195, 137) => Some(201u8),
        (195, 141) => Some(205u8),
        (195, 142) => Some(206u8),
        (195, 147) => Some(211u8),
        (195, 150) => Some(214u8),
        (195, 152) => Some(216u8),
        (195, 154) => Some(218u8),
        (195, 156) => Some(220u8),
        (195, 158) => Some(222u8),
        (195, 159) => Some(223u8),
        (195, 160) => Some(224u8),
        (195, 161) => Some(225u8),
        (195, 162) => Some(226u8),
        (195, 163) => Some(227u8),
        (195, 164) => Some(228u8),
        (195, 165) => Some(229u8),
        (195, 166) => Some(230u8),
        (195, 167) => Some(231u8),
        (195, 168) => Some(232u8),
        (195, 169) => Some(233u8),
        (195, 170) => Some(234u8),
        (195, 171) => Some(235u8),
        (195, 172) => Some(236u8),
        (195, 173) => Some(237u8),
        (195, 174) => Some(238u8),
        (195, 175) => Some(239u8),
        (195, 176) => Some(240u8),
        (195, 177) => Some(241u8),
        (195, 178) => Some(242u8),
        (195, 179) => Some(243u8),
        (195, 180) => Some(244u8),
        (195, 181) => Some(245u8),
        (195, 182) => Some(246u8),
        (195, 184) => Some(248u8),
        (195, 185) => Some(249u8),
        (195, 186) => Some(250u8),
        (195, 187) => Some(251u8),
        (195, 188) => Some(252u8),
        (195, 189) => Some(253u8),
        _ => None,
    }
}

/// The UTF-8 bytes that one byte of text turns into. A byte that stands for
/// nothing is kept as it is.
pub open spec fn code_page(b: u8) -> Seq<u8> {
    match si_to_utf8(b) {
        Some(u) => u,
        None => seq![b],
    }
}

/// Whether a byte stands for a character.
pub open spec fn has_character(b: u8) -> bool {
    b < 128 || si_to_utf8(b).is_some()
}

/// The bytes before the first NUL; all of them where there is none.
pub open spec fn until_nul(s: Seq<u8>) -> Seq<u8>
    decreases s.len(),
{
    if s.len() == 0 || s[0] == 0 {
        Seq::empty()
    } else {
        seq![s[0]] + until_nul(s.drop_first())
    }
}

/// The UTF-8 bytes that a run of text bytes turns into.
pub open spec fn to_utf8(s: Seq<u8>) -> Seq<u8>
    decreases s.len(),
{
    if s.len() == 0 {
        Seq::empty()
    } else {
        to_utf8(s.drop_last()) + code_page(s.last())
    }
}

/// The text bytes that UTF-8 bytes turn back into; `None` where they hold a
/// character that no byte stands for.
pub open spec fn to_si(u: Seq<u8>) -> Option<Seq<u8>>
    decreases u.len(),
{
    if u.len() == 0 {
        Some(Seq::empty())
    } else if u[0] < 128 {
        match to_si(u.skip(1)) {
            Some(rest) => Some(seq![u[0]] + rest),
            None => None,
        }
    } else if u.len() >= 2 && utf8_pair_to_si(u[0], u[1]).is_some() {
        match to_si(u.skip(2)) {
            Some(rest) => Some(seq![utf8_pair_to_si(u[0], u[1]).unwrap()] + rest),
            None => None,
        }
    } else if u.len() >= 3 && u[0] == 226 && u[1] == 132 && u[2] == 162 {
        match to_si(u.skip(3)) {
            Some(rest) => Some(seq![153u8] + rest),
            None => None,
        }
    } else {
        None
    }
}

/// The characters that the bytes stand for, each byte taken as the
/// character of its number.
pub open spec fn as_chars(s: Seq<u8>) -> Seq<char> {
    Seq::new(s.len(), |i: int| s[i] as char)
}

/// The error of `core::str::from_utf8`. Nothing is read from it.
#[verifier::external_type_specification]
#[verifier::external_body]
pub struct ExUtf8Error(core::str::Utf8Error);

/// `core::str::from_utf8` accepts exactly the byte strings that are UTF-8,
/// and the string slice it gives has the bytes it was given.
pub assume_specification[ core::str::from_utf8 ](v: &[u8]) -> (r: Result<
    &str,
    core::str::Utf8Error,
>)
    ensures
        r.is_ok() <==> valid_utf8(v@),
        r matches Ok(s) ==> s.spec_bytes() == v@,
;

/// `String::push` appends one character.
#[verifier::external_body]
pub(crate) fn push_char(s: &mut String, c: char)
    ensures
        final(s)@ == old(s)@.push(c),
{
    s.push(c)
}

/// Whether a regular expression finds a match somewhere in a text; `None`
/// for a pattern that is no regular expression, or too large a one.
pub uninterp spec fn regex_is_match(pattern: Seq<char>, text: Seq<char>) -> Option<bool>;

/// `regex::Regex::new` compiles the pattern, and `regex::Regex::is_match`
/// says whether it matches somewhere in the text. What the two give depends
/// on the pattern and the text alone. Nothing is claimed of which texts
/// match.
#[verifier::external_body]
pub(crate) fn regex_match(pattern: &str, text: &str) -> (r: Option<bool>)
    ensures
        r == regex_is_match(pattern@, text@),
{
    match Regex::new(pattern) {
        Ok(re) => Some(re.is_match(text)),
        Err(_) => None,
    }
}

/// Appends the UTF-8 bytes that `b` turns into.
fn push_code_page(out: &mut Vec<u8>, b: u8)
    ensures
        final(out)@ == old(out)@ + code_page(b),
{
    match b {
        142 => { out.push(197); out.push(189); },
        143 => { out.push(197); out.push(136); },
        144 => { out.push(196); out.push(155); },
        153 => { out.push(226); out.push(132); out.push(162); },
        154 => { out.push(197); out.push(161); },
        157 => { out.push(197); out.push(165); },
        158 => { out.push(197); out.push(190); },
        159 => { out.push(197); out.push(175); },
        160 => { out.push(196); out.push(141); },
        167 => { out.push(197); out.push(153); },
        179 => { out.push(197); out.push(152); },
        187 => { out.push(196); out.push(143); },
        188 => { out.push(196); out.push(140); },
        189 => { out.push(197); out.push(160); },
        190 => { out.push(196); out.push(142); },
        193 => { out.push(195); out.push(129); },
        196 => { out.push(195); out.push(132); },
        197 => { out.push(195); out.push(133); },
        201 => { out.push(195); out.push(137); },
        205 => { out.push(195); out.push(141); },
        206 => { out.push(195); out.push(142); },
        211 => { out.push(195); out.push(147); },
        214 => { out.push(195); out.push(150); },
        216 => { out.push(195); out.push(152); },
        218 => { out.push(195); out.push(154); },
        220 => { out.push(195); out.push(156); },
        222 => { out.push(195); out.push(158); },
        223 => { out.push(195); out.push(159); },
        224 => { out.push(195); out.push(160); },
        225 => { out.push(195); out.push(161); },
        226 => { out.push(195); out.push(162); },
        227 => { out.push(195); out.push(163); },
        228 => { out.push(195); out.push(164); },
        229 => { out.push(195); out.push(165); },
        230 => { out.push(195); out.push(166); },
        231 => { out.push(195); out.push(167); },
        232 => { out.push(195); out.push(168); },
        233 => { out.push(195); out.push(169); },
        234 => { out.push(195); out.push(170); },
        235 => { out.push(195); out.push(171); },
        236 => { out.push(195); out.push(172); },
        237 => { out.push(195); out.push(173); },
        238 => { out.push(195); out.push(174); },
        239 => { out.push(195); out.push(175); },
        240 => { out.push(195); out.push(176); },
        241 => { out.push(195); out.push(177); },
        242 => { out.push(195); out.push(178); },
        243 => { out.push(195); out.push(179); },
        244 => { out.push(195); out.push(180); },
        245 => { out.push(195); out.push(181); },
        246 => { out.push(195); out.push(182); },
        248 => { out.push(195); out.push(184); },
        249 => { out.push(195); out.push(185); },
        250 => { out.push(195); out.push(186); },
        251 => { out.push(195); out.push(187); },
        252 => { out.push(195); out.push(188); },
        253 => { out.push(195); out.push(189); },
        _ => { out.push(b); },
    }
    assert(out@ =~= old(out)@ + code_page(b));
}

/// The byte that stands for the character with these two UTF-8 bytes.
fn pair_to_si(lead: u8, next: u8) -> (r: Option<u8>)
    ensures
        r == utf8_pair_to_si(lead, next),
{
    if lead == 195 {
        if next >= 129 && next <= 189 && has_latin_letter(next) {
            Some(next + 64)
        } else {
            None
        }
    } else if lead == 196 {
        match next {
            155 => Some(144),
            141 => Some(160),
            143 => Some(187),
            140 => Some(188),
            142 => Some(190),
            _ => None,
        }
    } else if lead == 197 {
        match next {
            189 => Some(142),
            136 => Some(143),
            161 => Some(154),
            165 => Some(157),
            190 => Some(158),
            175 => Some(159),
            153 => Some(167),
            152 => Some(179),
            160 => Some(189),
            _ => None,
        }
    } else {
        None
    }
}

/// Whether the letter with the UTF-8 bytes 195 and `next` has a byte of its
/// own.
fn has_latin_letter(next: u8) -> (r: bool)
    requires
        129 <= next <= 189,
    ensures
        r == utf8_pair_to_si(195, next).is_some(),
        r ==> utf8_pair_to_si(195, next) == Some((next + 64) as u8),
{
    match next {
        129 | 132 | 133 | 137 | 141 | 142 | 147 | 150 | 152 | 154 | 156 => true,
        183 => false,
        _ => next >= 158,
    }
}

/// The length of the text before its first NUL.
fn text_len(bytes: &[u8]) -> (n: usize)
    ensures
        n <= bytes@.len(),
        until_nul(bytes@) == bytes@.subrange(0, n as int),
        forall|k: int| 0 <= k < n ==> bytes@[k] != 0,
        n < bytes@.len() ==> bytes@[n as int] == 0,
{
    let mut n: usize = 0;
    while n < bytes.len() && bytes[n] != 0
        invariant
            n <= bytes@.len(),
            forall|k: int| 0 <= k < n ==> bytes@[k] != 0,
        decreases bytes@.len() - n,
    {
        n += 1;
    }
    proof {
        lemma_until_nul(bytes@, n as int);
    }
    n
}

/// Decodes the text of a field: the bytes before the first NUL, each turned
/// into the character it stands for.
///
/// Fails where what the bytes turn into is no UTF-8, and hands back the
/// field's bytes. Text in which every byte stands for a character never
/// fails.
pub fn bytes_to_string(bytes: &[u8]) -> (r: Result<String, EncodingError>)
    ensures
        r.is_ok() <==> valid_utf8(to_utf8(until_nul(bytes@))),
        r matches Ok(s) ==> s@ == decode_utf8(to_utf8(until_nul(bytes@))),
        r matches Err(e) ==> e.raw@ == bytes@,
        (forall|k: int|
            0 <= k < until_nul(bytes@).len() ==> has_character(#[trigger] until_nul(bytes@)[k]))
            ==> r.is_ok(),
{
    proof {
        if forall|k: int|
            0 <= k < until_nul(bytes@).len() ==> has_character(#[trigger] until_nul(bytes@)[k]) {
            lemma_to_utf8_valid(until_nul(bytes@));
        }
    }
    let n = text_len(bytes);
    let mut converted: Vec<u8> = Vec::new();
    let mut i: usize = 0;
    while i < n
        invariant
            i <= n <= bytes@.len(),
            converted@ == to_utf8(bytes@.subrange(0, i as int)),
        decreases n - i,
    {
        push_code_page(&mut converted, bytes[i]);
        proof {
            let next = bytes@.subrange(0, i + 1);
            assert(next.drop_last() =~= bytes@.subrange(0, i as int));
        }
        i += 1;
    }
    match from_utf8(converted.as_slice()) {
        Ok(s) => {
            proof {
                vstd::utf8::encode_utf8_decode_utf8(s@);
            }
            Ok(s.to_owned())
        },
        Err(_) => Err(EncodingError { raw: slice_to_vec(bytes) }),
    }
}

/// Renders the text of a field for diagnosis: the bytes before the first
/// NUL, each as the character of its number. Never fails.
pub fn bytes_to_string_debug(bytes: &[u8]) -> (s: String)
    ensures
        s@ == as_chars(until_nul(bytes@)),
{
    let n = text_len(bytes);
    let mut s = String::new();
    let mut i: usize = 0;
    while i < n
        invariant
            i <= n <= bytes@.len(),
            s@ == as_chars(bytes@.subrange(0, i as int)),
        decreases n - i,
    {
        push_char(&mut s, bytes[i] as char);
        i += 1;
        assert(s@ =~= as_chars(bytes@.subrange(0, i as int)));
    }
    s
}

/// The text of a field as it is shown: decoded where it decodes, and else
/// rendered for diagnosis.
pub open spec fn shown_text(bytes: Seq<u8>) -> Seq<char> {
    if valid_utf8(to_utf8(until_nul(bytes))) {
        decode_utf8(to_utf8(until_nul(bytes)))
    } else {
        as_chars(until_nul(bytes))
    }
}

/// The text of a field as it is shown. Text that does not decode is
/// rendered for diagnosis, so that a name that cannot be read never stands
/// in the way of the rest.
pub fn bytes_to_string_or_debug(bytes: &[u8]) -> (s: String)
    ensures
        s@ == shown_text(bytes@),
{
    match bytes_to_string(bytes) {
        Ok(s) => s,
        Err(_) => bytes_to_string_debug(bytes),
    }
}

/// Encodes text into the bytes of the code page, with no NUL at the end.
///
/// `None` where the text holds a character that no byte stands for.
pub fn string_to_bytes(text: &str) -> (r: Option<Vec<u8>>)
    ensures
        r.is_some() <==> to_si(encode_utf8(text@)).is_some(),
        r matches Some(v) ==> Some(v@) == to_si(encode_utf8(text@)),
{
    let utf8 = text.as_bytes();
    let mut out: Vec<u8> = Vec::new();
    let mut i: usize = 0;
    assert(utf8@.skip(0) =~= utf8@);
    while i < utf8.len()
        invariant
            i <= utf8@.len(),
            utf8@ == encode_utf8(text@),
            to_si(utf8@) == match to_si(utf8@.skip(i as int)) {
                Some(rest) => Some(out@ + rest),
                None => None,
            },
        decreases utf8@.len() - i,
    {
        let ghost here = utf8@.skip(i as int);
        let ghost before = out@;
        let b = utf8[i];
        let step: usize;
        if b < 128 {
            out.push(b);
            step = 1;
        } else if utf8.len() - i > 1 && pair_to_si(b, utf8[i + 1]).is_some() {
            out.push(pair_to_si(b, utf8[i + 1]).unwrap());
            step = 2;
        } else if utf8.len() - i > 2 && b == 226 && utf8[i + 1] == 132 && utf8[i + 2] == 162 {
            out.push(153);
            step = 3;
        } else {
            return None;
        }
        proof {
            assert(here.skip(step as int) =~= utf8@.skip(i + step));
            match to_si(here.skip(step as int)) {
                Some(rest) => {
                    assert(before + (seq![out@.last()] + rest) =~= out@ + rest);
                },
                None => {},
            }
        }
        i += step;
    }
    assert(out@ + Seq::<u8>::empty() =~= out@);
    Some(out)
}

/// The digit that stands for a number below ten.
pub open spec fn digit(d: int) -> char {
    ((48 + d) as u8) as char
}

/// The decimal digits of a number that is not negative.
pub open spec fn digits(n: int) -> Seq<char>
    decreases n,
{
    if n < 10 {
        seq![digit(n)]
    } else {
        digits(n / 10).push(digit(n % 10))
    }
}

/// A number in decimal digits, with a minus sign before a negative one.
pub open spec fn decimal_text(n: int) -> Seq<char> {
    if n < 0 {
        seq!['-'] + digits(-n)
    } else {
        digits(n)
    }
}

/// Appends the decimal digits of a number.
fn push_digits(s: &mut String, n: u64)
    ensures
        final(s)@ == old(s)@ + digits(n as int),
    decreases n,
{
    if n >= 10 {
        push_digits(s, n / 10);
    }
    push_char(s, (48 + (n % 10) as u8) as char);
    proof {
        if n >= 10 {
            assert(s@ =~= old(s)@ + digits(n as int / 10).push(digit(n as int % 10)));
        } else {
            assert(s@ =~= old(s)@ + seq![digit(n as int)]);
        }
    }
}

/// Appends a number in decimal digits.
pub fn push_decimal(s: &mut String, n: i64)
    ensures
        final(s)@ == old(s)@ + decimal_text(n as int),
{
    if n < 0 {
        push_char(s, '-');
        push_digits(s, (-(n as i128)) as u64);
        assert(s@ =~= old(s)@ + (seq!['-'] + digits(-n)));
    } else {
        push_digits(s, n as u64);
    }
}

/// A number in decimal digits.
pub fn decimal(n: i64) -> (s: String)
    ensures
        s@ == decimal_text(n as int),
{
    let mut s = String::new();
    push_decimal(&mut s, n);
    assert(Seq::<char>::empty() + decimal_text(n as int) =~= decimal_text(n as int));
    s
}

/// The text ends where the first NUL stands.
pub proof fn lemma_until_nul(s: Seq<u8>, n: int)
    requires
        0 <= n <= s.len(),
        forall|k: int| 0 <= k < n ==> s[k] != 0,
        n < s.len() ==> s[n] == 0,
    ensures
        until_nul(s) == s.subrange(0, n),
    decreases n,
{
    if n == 0 {
        assert(s.subrange(0, 0) =~= Seq::<u8>::empty());
    } else {
        lemma_until_nul(s.drop_first(), n - 1);
        assert(s.subrange(0, n) =~= seq![s[0]] + s.drop_first().subrange(0, n - 1));
    }
}

/// The bytes of text are turned into UTF-8 one by one.
pub proof fn lemma_to_utf8_concat(a: Seq<u8>, b: Seq<u8>)
    ensures
        to_utf8(a + b) == to_utf8(a) + to_utf8(b),
    decreases b.len(),
{
    if b.len() == 0 {
        assert(a + b =~= a);
        assert(to_utf8(a) + to_utf8(b) =~= to_utf8(a));
    } else {
        lemma_to_utf8_concat(a, b.drop_last());
        assert((a + b).drop_last() =~= a + b.drop_last());
        assert((to_utf8(a) + to_utf8(b.drop_last())) + code_page(b.last()) =~= to_utf8(a) + (
        to_utf8(b.drop_last()) + code_page(b.last())));
    }
}

/// What a byte that stands for a character turns into is one character in
/// UTF-8.
pub proof fn lemma_code_page_valid(b: u8)
    requires
        has_character(b),
    ensures
        valid_utf8(code_page(b)),
{
    let u = code_page(b);
    assert forall|l: u8, s: u8| 0xc2 <= l <= 0xdf implies {
        let c = #[trigger] ((((l & 0x1f) as u32) << 6) | ((s & 0x3f) as u32));
        0x80 <= c < 0x800
    } by {
        assert(0xc2 <= l <= 0xdf ==> 0x80 <= ((((l & 0x1f) as u32) << 6) | ((s & 0x3f) as u32))
            < 0x800) by (bit_vector);
    }
    assert(((((226u8 & 0x0f) as u32) << 12) | (((132u8 & 0x3f) as u32) << 6) | ((162u8 & 0x3f)
        as u32)) == 0x2122) by (bit_vector);
    if u.len() == 1 {
        assert(u.subrange(1, 1) =~= Seq::<u8>::empty());
    } else if u.len() == 2 {
        assert(u.subrange(2, 2) =~= Seq::<u8>::empty());
    } else {
        assert(u.subrange(3, 3) =~= Seq::<u8>::empty());
    }
    assert(valid_utf8(Seq::<u8>::empty()));
}

/// Text in which every byte stands for a character decodes.
pub proof fn lemma_to_utf8_valid(s: Seq<u8>)
    requires
        forall|k: int| 0 <= k < s.len() ==> has_character(s[k]),
    ensures
        valid_utf8(to_utf8(s)),
    decreases s.len(),
{
    if s.len() > 0 {
        lemma_to_utf8_valid(s.drop_last());
        lemma_code_page_valid(s.last());
        vstd::utf8::valid_utf8_concat(to_utf8(s.drop_last()), code_page(s.last()));
    }
}

/// Turning text into UTF-8 and back gives the text again.
pub proof fn lemma_to_si_of_to_utf8(s: Seq<u8>)
    requires
        forall|k: int| 0 <= k < s.len() ==> has_character(s[k]),
    ensures
        to_si(to_utf8(s)) == Some(s),
    decreases s.len(),
{
    if s.len() == 0 {
    } else {
        let head = seq![s[0]];
        let tail = s.drop_first();
        assert(s =~= head + tail);
        lemma_to_utf8_concat(head, tail);
        assert(head.drop_last() =~= Seq::<u8>::empty());
        assert(head.last() == s[0]);
        assert(to_utf8(head.drop_last()) =~= Seq::<u8>::empty());
        assert(to_utf8(head) =~= code_page(s[0]));
        lemma_to_si_of_to_utf8(tail);
        let u = to_utf8(s);
        let c = code_page(s[0]);
        assert(u == c + to_utf8(tail));
        assert(u.skip(c.len() as int) =~= to_utf8(tail));
        assert(forall|k: int| 0 <= k < c.len() ==> u[k] == c[k]);
    }
}

/// Decoding and encoding again gives the bytes of the text back: for a field
/// in which every byte before the first NUL stands for a character, the text
/// decodes, and the decoded text encodes to those bytes.
pub proof fn lemma_text_round_trip(bytes: Seq<u8>)
    requires
        forall|k: int| 0 <= k < until_nul(bytes).len() ==> has_character(until_nul(bytes)[k]),
    ensures
        valid_utf8(to_utf8(until_nul(bytes))),
        to_si(encode_utf8(decode_utf8(to_utf8(until_nul(bytes))))) == Some(until_nul(bytes)),
{
    let text = until_nul(bytes);
    lemma_to_utf8_valid(text);
    vstd::utf8::decode_utf8_encode_utf8(to_utf8(text));
    lemma_to_si_of_to_utf8(text);
}

} // verus!
