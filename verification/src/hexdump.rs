//! Reading a hex dump back into bytes.
//!
//! A dump is text. Each line that holds anything starts with a decimal
//! offset, followed by the bytes of that line as words of two hex digits:
//!
//! ```text
//! 0   00 35 00 01 00 2d c6 c2  00 00 80 00 00 00 3c 01   .5...-........<.
//! 16  00 0a                                              ..
//! ```
//!
//! Words are separated by white space. The bytes of a line end at the first
//! word that is not two bytes long; that is how the text column at the right
//! is told from the bytes. A word of two bytes that is no hex number is a
//! mistake in the dump, with one exception: as the third word behind the
//! offset it is taken for the text column of a line with two bytes, and ends
//! the line. The offset is read and checked, and otherwise ignored: bytes are
//! taken in the order of the lines.
//!
//! White space is what Unicode calls so. The grammar is stated on the UTF-8
//! bytes of the text.

use vstd::prelude::*;
use vstd::string::StringSliceAdditionalSpecFns;

verus! {

/// Why a dump could not be read.
#[derive(Debug, Clone, Copy, PartialEq, Eq, Structural)]
pub enum HexDumpError {
    /// The line holds no word.
    NoOffset,
    /// The first word of the line is no decimal number that fits 64 bits.
    BadOffset,
    /// The word at `index` behind the offset, counted from 0, is two bytes
    /// long and no hex number.
    BadByte { index: usize },
}

/// Bytes of the white-space character at the front of `s`; 0 where `s`
/// starts with none. These are the UTF-8 forms of U+0009 to U+000D, U+0020,
/// U+0085, U+00A0, U+1680, U+2000 to U+200A, U+2028, U+2029, U+202F, U+205F
/// and U+3000.
pub open spec fn space_len(s: Seq<u8>) -> int {
    if s.len() >= 1 && (s[0] == 0x20 || 0x09 <= s[0] <= 0x0d) {
        1
    } else if s.len() >= 2 && s[0] == 0xc2 && (s[1] == 0x85 || s[1] == 0xa0) {
        2
    } else if s.len() >= 3 && s[0] == 0xe1 && s[1] == 0x9a && s[2] == 0x80 {
        3
    } else if s.len() >= 3 && s[0] == 0xe2 && s[1] == 0x80 && (0x80 <= s[2] <= 0x8a || s[2] == 0xa8
        || s[2] == 0xa9 || s[2] == 0xaf) {
        3
    } else if s.len() >= 3 && s[0] == 0xe2 && s[1] == 0x81 && s[2] == 0x9f {
        3
    } else if s.len() >= 3 && s[0] == 0xe3 && s[1] == 0x80 && s[2] == 0x80 {
        3
    } else {
        0
    }
}

/// Bytes of white space at the front of `s`.
pub open spec fn leading_space(s: Seq<u8>) -> int
    decreases s.len(),
{
    if space_len(s) > 0 {
        space_len(s) + leading_space(s.skip(space_len(s)))
    } else {
        0
    }
}

/// Bytes at the front of `s` before the next white space or the end.
pub open spec fn word_len(s: Seq<u8>) -> int
    decreases s.len(),
{
    if s.len() == 0 || space_len(s) > 0 {
        0
    } else {
        1 + word_len(s.skip(1))
    }
}

/// White space at the front of `s` lies within `s`, and behind it stands no
/// more white space.
pub proof fn lemma_leading_space(s: Seq<u8>)
    ensures
        0 <= leading_space(s) <= s.len(),
        space_len(s.skip(leading_space(s))) == 0,
    decreases s.len(),
{
    if space_len(s) > 0 {
        let t = s.skip(space_len(s));
        lemma_leading_space(t);
    } else {
    }
}

/// A word lies within `s`, and is not empty where `s` starts with anything
/// but white space.
pub proof fn lemma_word_len(s: Seq<u8>)
    ensures
        0 <= word_len(s) <= s.len(),
        s.len() > 0 && space_len(s) == 0 ==> word_len(s) >= 1,
    decreases s.len(),
{
    if !(s.len() == 0 || space_len(s) > 0) {
        lemma_word_len(s.skip(1));
    }
}

/// The words of `s`: its longest stretches without white space, in order.
pub open spec fn words(s: Seq<u8>) -> Seq<Seq<u8>>
    decreases s.len(),
{
    let t = s.skip(leading_space(s));
    if t.len() == 0 {
        Seq::empty()
    } else {
        proof {
            lemma_leading_space(s);
            lemma_word_len(t);
        }
        seq![t.take(word_len(t))] + words(t.skip(word_len(t)))
    }
}

/// The value of the hex digit `c`, if it is one.
pub open spec fn hex_digit(c: u8) -> Option<u8> {
    if 0x30 <= c <= 0x39 {
        Some((c - 0x30) as u8)
    } else if 0x61 <= c <= 0x66 {
        Some((c - 0x61 + 10) as u8)
    } else if 0x41 <= c <= 0x46 {
        Some((c - 0x41 + 10) as u8)
    } else {
        None
    }
}

/// The byte that a word stands for, if it is a byte in hex: two hex digits,
/// or a plus sign and one hex digit.
pub open spec fn hex_byte(w: Seq<u8>) -> Option<u8> {
    if w.len() != 2 {
        None
    } else {
        match (hex_digit(w[0]), hex_digit(w[1])) {
            (Some(hi), Some(lo)) => Some((hi * 16 + lo) as u8),
            (None, Some(lo)) => if w[0] == 0x2b {
                Some(lo)
            } else {
                None
            },
            _ => None,
        }
    }
}

/// All of `s` are decimal digits.
pub open spec fn all_digits(s: Seq<u8>) -> bool {
    forall|i: int| 0 <= i < s.len() ==> 0x30 <= #[trigger] s[i] <= 0x39
}

/// The number that the decimal digits `s` spell.
pub open spec fn decimal_value(s: Seq<u8>) -> int
    decreases s.len(),
{
    if s.len() == 0 {
        0
    } else {
        decimal_value(s.drop_last()) * 10 + (s.last() - 0x30)
    }
}

/// The digits of a decimal word: the word without a plus sign at its front.
pub open spec fn decimal_digits(w: Seq<u8>) -> Seq<u8> {
    if w.len() >= 1 && w[0] == 0x2b {
        w.skip(1)
    } else {
        w
    }
}

/// The number that a word stands for: one or more decimal digits, with or
/// without a plus sign before them, that spell a number within 64 bits.
pub open spec fn decimal_u64(w: Seq<u8>) -> Option<u64> {
    let digits = decimal_digits(w);
    if digits.len() >= 1 && all_digits(digits) && decimal_value(digits) <= u64::MAX {
        Some(decimal_value(digits) as u64)
    } else {
        None
    }
}

/// The bytes that the words from `index` on stand for, and the place of the
/// word that is a mistake, if one ends them.
pub open spec fn hex_words(ws: Seq<Seq<u8>>, index: int) -> (Seq<u8>, Option<int>)
    decreases ws.len() - index,
{
    if index < 0 || index >= ws.len() || ws[index].len() != 2 {
        (Seq::empty(), None)
    } else {
        match hex_byte(ws[index]) {
            Some(v) => (seq![v] + hex_words(ws, index + 1).0, hex_words(ws, index + 1).1),
            None => if index == 2 {
                (Seq::empty(), None)
            } else {
                (Seq::empty(), Some(index))
            },
        }
    }
}

/// What a line gives: the bytes it stands for, up to a mistake if there is
/// one, and its offset or the mistake.
pub open spec fn line_parse(line: Seq<u8>) -> (Seq<u8>, Result<u64, HexDumpError>) {
    let ws = words(line);
    if ws.len() == 0 {
        (Seq::empty(), Err(HexDumpError::NoOffset))
    } else {
        match decimal_u64(ws[0]) {
            None => (Seq::empty(), Err(HexDumpError::BadOffset)),
            Some(offset) => {
                let (bytes, mistake) = hex_words(ws.skip(1), 0);
                match mistake {
                    None => (bytes, Ok(offset)),
                    Some(index) => (bytes, Err(HexDumpError::BadByte { index: index as usize })),
                }
            },
        }
    }
}

/// The bytes that the lines from `index` on stand for. Lines without a word
/// are passed over; the first mistake fails them all.
pub open spec fn lines_parse(lines: Seq<Seq<u8>>, index: int) -> Result<Seq<u8>, HexDumpError>
    decreases lines.len() - index,
{
    if index < 0 || index >= lines.len() {
        Ok(Seq::empty())
    } else if words(lines[index]).len() == 0 {
        lines_parse(lines, index + 1)
    } else {
        match line_parse(lines[index]).1 {
            Err(e) => Err(e),
            Ok(_) => match lines_parse(lines, index + 1) {
                Err(e) => Err(e),
                Ok(rest) => Ok(line_parse(lines[index]).0 + rest),
            },
        }
    }
}

/// Bytes at the front of `s` before the next line feed or the end.
pub open spec fn line_len(s: Seq<u8>) -> int
    decreases s.len(),
{
    if s.len() == 0 || s[0] == 0x0a {
        0
    } else {
        1 + line_len(s.skip(1))
    }
}

/// A line lies within `s`.
pub proof fn lemma_line_len(s: Seq<u8>)
    ensures
        0 <= line_len(s) <= s.len(),
        line_len(s) < s.len() ==> s[line_len(s)] == 0x0a,
    decreases s.len(),
{
    if !(s.len() == 0 || s[0] == 0x0a) {
        lemma_line_len(s.skip(1));
    }
}

/// The lines of a text: what stands between its line feeds. A line feed at
/// the very end starts no further line.
pub open spec fn text_lines(s: Seq<u8>) -> Seq<Seq<u8>>
    decreases s.len(),
{
    if s.len() == 0 {
        Seq::empty()
    } else if line_len(s) == s.len() {
        seq![s]
    } else {
        proof {
            lemma_line_len(s);
        }
        seq![s.take(line_len(s))] + text_lines(s.skip(line_len(s) + 1))
    }
}

/// The views of borrowed byte strings.
pub open spec fn views(v: Seq<&[u8]>) -> Seq<Seq<u8>> {
    Seq::new(v.len(), |i: int| v[i]@)
}

/// The UTF-8 bytes of borrowed strings.
pub open spec fn texts(v: Seq<&str>) -> Seq<Seq<u8>> {
    Seq::new(v.len(), |i: int| v[i].spec_bytes())
}

/// Bytes of the white-space character at `pos` in `s`; 0 where none starts
/// there.
fn space_width(s: &[u8], pos: usize) -> (r: usize)
    requires
        pos <= s@.len(),
    ensures
        r == space_len(s@.skip(pos as int)),
        pos + r <= s@.len(),
{
    let len = s.len();
    if pos >= len {
        return 0;
    }
    let b0 = s[pos];
    if b0 == 0x20 || (0x09 <= b0 && b0 <= 0x0d) {
        return 1;
    }
    if len - pos < 2 {
        return 0;
    }
    let b1 = s[pos + 1];
    if b0 == 0xc2 && (b1 == 0x85 || b1 == 0xa0) {
        return 2;
    }
    if len - pos < 3 {
        return 0;
    }
    let b2 = s[pos + 2];
    if b0 == 0xe1 && b1 == 0x9a && b2 == 0x80 {
        return 3;
    }
    if b0 == 0xe2 && b1 == 0x80 && ((0x80 <= b2 && b2 <= 0x8a) || b2 == 0xa8 || b2 == 0xa9 || b2
        == 0xaf) {
        return 3;
    }
    if b0 == 0xe2 && b1 == 0x81 && b2 == 0x9f {
        return 3;
    }
    if b0 == 0xe3 && b1 == 0x80 && b2 == 0x80 {
        return 3;
    }
    0
}

/// Splits `line` into its words.
pub fn split_words<'a>(line: &'a [u8]) -> (r: Vec<&'a [u8]>)
    ensures
        views(r@) == words(line@),
{
    let len = line.len();
    let mut out: Vec<&'a [u8]> = Vec::new();
    let mut pos: usize = 0;
    assert(line@.skip(0) == line@);
    loop
        invariant
            len == line@.len(),
            pos <= len,
            words(line@) == views(out@) + words(line@.skip(pos as int)),
        ensures
            views(out@) == words(line@),
        decreases len - pos,
    {
        let ghost here = line@.skip(pos as int);
        let mut p = pos;
        loop
            invariant
                len == line@.len(),
                pos <= p <= len,
                here == line@.skip(pos as int),
                leading_space(here) == (p - pos) + leading_space(line@.skip(p as int)),
            ensures
                pos <= p <= len,
                leading_space(here) == p - pos,
            decreases len - p,
        {
            let w = space_width(line, p);
            if w == 0 {
                break ;
            }
            assert(line@.skip(p as int).skip(w as int) == line@.skip(p + w));
            p = p + w;
        }
        assert(here.skip(p - pos) == line@.skip(p as int));
        if p >= len {
            break ;
        }
        let start = p;
        let ghost rest = line@.skip(start as int);
        proof {
            lemma_leading_space(here);
        }
        loop
            invariant
                len == line@.len(),
                start <= p <= len,
                rest == line@.skip(start as int),
                word_len(rest) == (p - start) + word_len(line@.skip(p as int)),
            ensures
                start <= p <= len,
                word_len(rest) == p - start,
            decreases len - p,
        {
            if p >= len {
                break ;
            }
            let w = space_width(line, p);
            if w > 0 {
                break ;
            }
            assert(line@.skip(p as int).skip(1) == line@.skip(p + 1));
            p = p + 1;
        }
        proof {
            lemma_word_len(rest);
        }
        let word = &line[start..p];
        proof {
            assert(word@ == rest.take(word_len(rest)));
            assert(rest.skip(word_len(rest)) == line@.skip(p as int));
        }
        out.push(word);
        pos = p;
    }
    out
}

/// The value of the hex digit `c`, if it is one.
fn parse_hex_digit(c: u8) -> (r: Option<u8>)
    ensures
        r == hex_digit(c),
{
    if 0x30 <= c && c <= 0x39 {
        Some(c - 0x30)
    } else if 0x61 <= c && c <= 0x66 {
        Some(c - 0x61 + 10)
    } else if 0x41 <= c && c <= 0x46 {
        Some(c - 0x41 + 10)
    } else {
        None
    }
}

/// Reads a word as a byte in hex.
pub fn parse_hex_byte(word: &[u8]) -> (r: Option<u8>)
    ensures
        r == hex_byte(word@),
{
    if word.len() != 2 {
        return None;
    }
    match (parse_hex_digit(word[0]), parse_hex_digit(word[1])) {
        (Some(hi), Some(lo)) => Some(hi * 16 + lo),
        (None, Some(lo)) => if word[0] == 0x2b {
            Some(lo)
        } else {
            None
        },
        _ => None,
    }
}

/// Digits spell no smaller number when more digits follow.
proof fn lemma_decimal_value_grows(s: Seq<u8>, n: int)
    requires
        all_digits(s),
        0 <= n <= s.len(),
    ensures
        0 <= decimal_value(s.take(n)) <= decimal_value(s),
    decreases s.len() - n,
{
    if n < s.len() {
        lemma_decimal_value_grows(s, n + 1);
        assert(s.take(n + 1).drop_last() == s.take(n));
        lemma_decimal_value_nonnegative(s.take(n));
    } else {
        assert(s.take(n) == s);
        lemma_decimal_value_nonnegative(s);
    }
}

proof fn lemma_decimal_value_nonnegative(s: Seq<u8>)
    requires
        all_digits(s),
    ensures
        0 <= decimal_value(s),
    decreases s.len(),
{
    if s.len() > 0 {
        lemma_decimal_value_nonnegative(s.drop_last());
    }
}

/// Reads a word as a decimal number.
pub fn parse_decimal_u64(word: &[u8]) -> (r: Option<u64>)
    ensures
        r == decimal_u64(word@),
{
    let len = word.len();
    let start: usize = if len >= 1 && word[0] == 0x2b {
        1
    } else {
        0
    };
    let ghost digits = decimal_digits(word@);
    if start >= len {
        return None;
    }
    let mut acc: u64 = 0;
    let mut i: usize = start;
    while i < len
        invariant
            len == word@.len(),
            start <= i <= len,
            digits == word@.skip(start as int),
            digits == decimal_digits(word@),
            all_digits(digits.take(i - start)),
            acc == decimal_value(digits.take(i - start)),
        decreases len - i,
    {
        let c = word[i];
        let ghost next = digits.take(i - start + 1);
        assert(next.drop_last() == digits.take(i - start));
        if c < 0x30 || c > 0x39 {
            assert(!all_digits(digits)) by {
                assert(digits[i - start] == c);
            }
            return None;
        }
        let d = (c - 0x30) as u64;
        let grown = match acc.checked_mul(10) {
            Some(m) => m.checked_add(d),
            None => None,
        };
        match grown {
            Some(v) => {
                acc = v;
            },
            None => {
                proof {
                    if all_digits(digits) {
                        lemma_decimal_value_grows(digits, i - start + 1);
                    }
                }
                return None;
            },
        }
        i = i + 1;
    }
    assert(digits.take(len - start) == digits);
    Some(acc)
}

/// Reads one line of a dump: appends the bytes it stands for to `buf` and
/// hands out its offset. Where the line holds a mistake, the bytes before
/// the mistake stay appended.
pub fn parse_line(line: &str, buf: &mut Vec<u8>) -> (r: Result<u64, HexDumpError>)
    ensures
        final(buf)@ == old(buf)@ + line_parse(line.spec_bytes()).0,
        r == line_parse(line.spec_bytes()).1,
{
    parse_line_bytes(line.as_bytes(), buf)
}

/// As `parse_line`, on the UTF-8 bytes of the line.
pub fn parse_line_bytes(line: &[u8], buf: &mut Vec<u8>) -> (r: Result<u64, HexDumpError>)
    ensures
        final(buf)@ == old(buf)@ + line_parse(line@).0,
        r == line_parse(line@).1,
{
    let ws = split_words(line);
    if ws.len() == 0 {
        return Err(HexDumpError::NoOffset);
    }
    let offset = match parse_decimal_u64(ws[0]) {
        Some(offset) => offset,
        None => {
            return Err(HexDumpError::BadOffset);
        },
    };
    let ghost parts = views(ws@).skip(1);
    let ghost before = buf@;
    let mut i: usize = 1;
    while i < ws.len()
        invariant
            1 <= i <= ws@.len(),
            views(ws@) == words(line@),
            decimal_u64(views(ws@)[0]) == Some(offset),
            parts == views(ws@).skip(1),
            before == old(buf)@,
            before.len() <= buf@.len(),
            buf@.take(before.len() as int) == before,
            hex_words(parts, 0).0 == buf@.skip(before.len() as int) + hex_words(parts, i - 1).0,
            hex_words(parts, 0).1 == hex_words(parts, i - 1).1,
        decreases ws@.len() - i,
    {
        let part = ws[i];
        if part.len() != 2 {
            return Ok(offset);
        }
        match parse_hex_byte(part) {
            Some(v) => {
                buf.push(v);
            },
            None => {
                if i - 1 == 2 {
                    return Ok(offset);
                } else {
                    return Err(HexDumpError::BadByte { index: i - 1 });
                }
            },
        }
        i = i + 1;
    }
    Ok(offset)
}

/// Reads lines of a dump, in order, into the bytes they stand for.
fn decode_byte_lines(lines: &Vec<&[u8]>) -> (r: Result<Vec<u8>, HexDumpError>)
    ensures
        r matches Ok(bytes) ==> lines_parse(views(lines@), 0) == Ok::<Seq<u8>, HexDumpError>(bytes@),
        r matches Err(e) ==> lines_parse(views(lines@), 0) == Err::<Seq<u8>, HexDumpError>(e),
{
    let mut buf: Vec<u8> = Vec::new();
    let mut i: usize = 0;
    while i < lines.len()
        invariant
            i <= lines@.len(),
            lines_parse(views(lines@), 0) == match lines_parse(views(lines@), i as int) {
                Ok(rest) => Ok::<Seq<u8>, HexDumpError>(buf@ + rest),
                Err(e) => Err(e),
            },
        decreases lines@.len() - i,
    {
        let line = lines[i];
        let ghost before = buf@;
        let has_words = split_words(line).len() > 0;
        if has_words {
            match parse_line_bytes(line, &mut buf) {
                Ok(_) => {
                    proof {
                        if let Ok(rest) = lines_parse(views(lines@), i + 1) {
                            let here = line_parse(line@).0;
                            assert(before + (here + rest) == (before + here) + rest);
                        }
                    }
                },
                Err(e) => {
                    return Err(e);
                },
            }
        }
        i = i + 1;
    }
    Ok(buf)
}

/// Reads the lines of a dump, in order, into the bytes they stand for. A
/// line without a word gives nothing; the first mistake fails the dump.
pub fn decode_lines(lines: &[&str]) -> (r: Result<Vec<u8>, HexDumpError>)
    ensures
        r matches Ok(bytes) ==> lines_parse(texts(lines@), 0) == Ok::<Seq<u8>, HexDumpError>(bytes@),
        r matches Err(e) ==> lines_parse(texts(lines@), 0) == Err::<Seq<u8>, HexDumpError>(e),
{
    let mut raw: Vec<&[u8]> = Vec::with_capacity(lines.len());
    let mut i: usize = 0;
    while i < lines.len()
        invariant
            i <= lines@.len(),
            raw@.len() == i,
            forall|j: int| 0 <= j < i ==> (#[trigger] raw@[j])@ == lines@[j].spec_bytes(),
        decreases lines@.len() - i,
    {
        raw.push(lines[i].as_bytes());
        i = i + 1;
    }
    assert(views(raw@) == texts(lines@));
    decode_byte_lines(&raw)
}

/// Reads a whole dump into the bytes it stands for.
pub fn decode_text(text: &str) -> (r: Result<Vec<u8>, HexDumpError>)
    ensures
        r matches Ok(bytes) ==> lines_parse(text_lines(text.spec_bytes()), 0) == Ok::<
            Seq<u8>,
            HexDumpError,
        >(bytes@),
        r matches Err(e) ==> lines_parse(text_lines(text.spec_bytes()), 0) == Err::<
            Seq<u8>,
            HexDumpError,
        >(e),
{
    let lines = split_lines(text.as_bytes());
    decode_byte_lines(&lines)
}

/// Splits a text into its lines.
pub fn split_lines<'a>(text: &'a [u8]) -> (r: Vec<&'a [u8]>)
    ensures
        views(r@) == text_lines(text@),
{
    let len = text.len();
    let mut out: Vec<&'a [u8]> = Vec::new();
    let mut pos: usize = 0;
    assert(text@.skip(0) == text@);
    while pos < len
        invariant
            len == text@.len(),
            pos <= len,
            text_lines(text@) == views(out@) + text_lines(text@.skip(pos as int)),
        decreases len - pos,
    {
        let ghost rest = text@.skip(pos as int);
        let mut p = pos;
        loop
            invariant
                len == text@.len(),
                pos <= p <= len,
                rest == text@.skip(pos as int),
                line_len(rest) == (p - pos) + line_len(text@.skip(p as int)),
            ensures
                pos <= p <= len,
                line_len(rest) == p - pos,
            decreases len - p,
        {
            if p >= len {
                break ;
            }
            if text[p] == 0x0a {
                break ;
            }
            assert(text@.skip(p as int).skip(1) == text@.skip(p + 1));
            p = p + 1;
        }
        let line = &text[pos..p];
        proof {
            assert(line@ == rest.take(line_len(rest)));
            if p < len {
                assert(rest.skip(line_len(rest) + 1) == text@.skip(p + 1));
            }
        }
        out.push(line);
        pos = if p < len {
            p + 1
        } else {
            p
        };
    }
    out
}

} // verus!
