//! Zero-terminated strings, alone and in runs.

use crate::wire::{
    advance, find_str_null, first_null, has_null, lemma_first_null_exists,
    lemma_first_null_unique, str_from_utf8,
};
use vstd::prelude::*;
use vstd::string::StringSliceAdditionalSpecFns;
use vstd::utf8::valid_utf8;

verus! {

/// The strings of a run: each one ends at a zero byte, which is not part of
/// it. Bytes after the last zero byte belong to no string.
pub open spec fn str_run(s: Seq<u8>) -> Seq<Seq<u8>>
    decreases s.len(),
{
    if has_null(s) {
        proof {
            lemma_first_null_exists(s);
        }
        seq![s.take(first_null(s))] + str_run(s.skip(first_null(s) + 1))
    } else {
        Seq::empty()
    }
}

/// The strings laid end to end, each followed by its terminator.
pub open spec fn terminated(strings: Seq<Seq<u8>>) -> Seq<u8>
    decreases strings.len(),
{
    if strings.len() == 0 {
        Seq::empty()
    } else {
        strings.first().push(0) + terminated(strings.drop_first())
    }
}

/// Strings without a zero byte inside, written one after the other with
/// their terminators, are read back as they were written.
pub proof fn lemma_str_run_of_terminated(strings: Seq<Seq<u8>>)
    requires
        forall|i: int| 0 <= i < strings.len() ==> !has_null(#[trigger] strings[i]),
    ensures
        str_run(terminated(strings)) == strings,
    decreases strings.len(),
{
    if strings.len() > 0 {
        let first = strings.first();
        let rest = strings.drop_first();
        let s = terminated(strings);
        lemma_first_null_unique(s, first.len() as int);
        assert(s.take(first.len() as int) == first);
        assert(s.skip(first.len() as int + 1) == terminated(rest));
        lemma_str_run_of_terminated(rest);
    }
}

/// A string without its terminator, borrowed from the buffer it was read
/// from. Its view is its bytes.
#[derive(Debug, Clone, Copy)]
pub struct StrRef<'a>(&'a [u8]);

impl<'a> View for StrRef<'a> {
    type V = Seq<u8>;

    closed spec fn view(&self) -> Seq<u8> {
        self.0@
    }
}

impl<'a> StrRef<'a> {
    /// Reads the string at the front of `buf`, and says how many bytes it
    /// takes there with its terminator. Without a zero byte in `buf` there
    /// is no string.
    pub fn from_str_null(buf: &'a [u8]) -> (r: Option<(usize, Self)>)
        ensures
            r is Some <==> has_null(buf@),
            r matches Some((n, s)) ==> n == first_null(buf@) + 1 && s@ == buf@.take(
                first_null(buf@),
            ),
    {
        match find_str_null(buf) {
            Some(pos) => Some((pos + 1, Self(&buf[0..pos]))),
            None => None,
        }
    }

    /// The bytes of the string.
    pub fn as_bytes(&self) -> (r: &'a [u8])
        ensures
            r@ == self@,
    {
        self.0
    }

    /// The string as text, where its bytes are UTF-8.
    pub fn to_utf8(&self) -> (r: Option<&'a str>)
        ensures
            r is Some <==> valid_utf8(self@),
            r matches Some(s) ==> s.spec_bytes() == self@,
    {
        str_from_utf8(self.0)
    }
}

/// A cursor over a run of zero-terminated strings. Its view is the bytes not
/// yet read. Copying the cursor gives an independent one at the same place.
#[derive(Debug, Clone, Copy)]
pub struct StrIter<'a>(&'a [u8]);

impl<'a> View for StrIter<'a> {
    type V = Seq<u8>;

    closed spec fn view(&self) -> Seq<u8> {
        self.0@
    }
}

impl<'a> StrIter<'a> {
    /// A cursor at the front of `data`.
    pub fn new(data: &'a [u8]) -> (r: Self)
        ensures
            r@ == data@,
    {
        Self(data)
    }

    /// Hands out the next string and moves past its terminator. Where no
    /// zero byte is left the run is over, and the rest is dropped.
    pub fn next(&mut self) -> (r: Option<&'a [u8]>)
        ensures
            r is Some <==> has_null(old(self)@),
            r matches Some(s) ==> s@ == old(self)@.take(first_null(old(self)@)) && final(self)@
                == old(self)@.skip(first_null(old(self)@) + 1),
            r is None ==> final(self)@ == Seq::<u8>::empty(),
            r matches Some(s) ==> str_run(old(self)@) == seq![s@] + str_run(final(self)@),
            r is None ==> str_run(old(self)@) == Seq::<Seq<u8>>::empty(),
    {
        let buf = self.0;
        match find_str_null(buf) {
            Some(pos) => {
                let s = &buf[0..pos];
                let mut rest = buf;
                advance(&mut rest, pos + 1);
                self.0 = rest;
                Some(s)
            },
            None => {
                let mut rest = buf;
                advance(&mut rest, buf.len());
                self.0 = rest;
                None
            },
        }
    }

    /// All the strings from here to the end of the run, in order.
    pub fn collect(self) -> (r: Vec<&'a [u8]>)
        ensures
            r@.len() == str_run(self@).len(),
            forall|i: int| 0 <= i < r@.len() ==> (#[trigger] r@[i])@ == str_run(self@)[i],
    {
        let mut it = self;
        let mut out: Vec<&'a [u8]> = Vec::new();
        loop
            invariant
                str_run(self@).len() == out@.len() + str_run(it@).len(),
                forall|i: int| 0 <= i < out@.len() ==> (#[trigger] out@[i])@ == str_run(self@)[i],
                forall|i: int|
                    0 <= i < str_run(it@).len() ==> #[trigger] str_run(it@)[i] == str_run(self@)[out@.len()
                        + i],
            ensures
                out@.len() == str_run(self@).len(),
            decreases it@.len(),
        {
            let ghost before = it@;
            let ghost done = out@.len();
            match it.next() {
                Some(s) => {
                    proof {
                        lemma_first_null_exists(before);
                        assert(str_run(before)[0] == s@);
                        assert forall|i: int| 0 <= i < str_run(it@).len() implies #[trigger] str_run(
                            it@,
                        )[i] == str_run(self@)[done + 1 + i] by {
                            assert(str_run(it@)[i] == str_run(before)[i + 1]);
                        }
                    }
                    out.push(s);
                },
                None => {
                    break ;
                },
            }
        }
        out
    }
}

} // verus!
