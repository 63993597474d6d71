use vstd::prelude::*;

use crate::bytes::{le2, read_u16};
use crate::error::ParseError;

verus! {

/// Whether `w` is the width of a character unit: one byte (8-bit text) or two (UTF-16).
pub open spec fn unit_width(w: nat) -> bool {
    w == 1 || w == 2
}

/// Whether the character unit of width `w` at byte `p` of `s` is zero.
pub open spec fn zero_unit(s: Seq<u8>, p: int, w: nat) -> bool {
    s[p] == 0 && (w == 2 ==> s[p + 1] == 0)
}

/// End (exclusive) of a null-terminated string scanned from byte `p`: just past the first
/// zero unit, or, without one, the end of the last whole unit.
pub open spec fn nul_end_at(s: Seq<u8>, w: nat, p: int) -> int
    decreases s.len() - p,
{
    if w == 0 || p < 0 || p + w > s.len() {
        p
    } else if zero_unit(s, p, w) {
        p + w
    } else {
        nul_end_at(s, w, p + w)
    }
}

/// Bytes taken by `count` consecutive null-terminated strings at the start of `s`.
pub open spec fn nul_strings_size(s: Seq<u8>, w: nat, count: nat) -> int
    decreases count,
{
    if count == 0 {
        0
    } else {
        let e = nul_end_at(s, w, 0);
        e + nul_strings_size(s.subrange(e, s.len() as int), w, (count - 1) as nat)
    }
}

/// Bytes taken by one length-prefixed string at the start of `s`: a two-byte count of
/// units of width `w`, then the units; `None` where `s` is too short.
pub open spec fn counted_size(s: Seq<u8>, w: nat) -> Option<int> {
    if s.len() < 2 || s.len() < 2 + w * le2(s, 0) {
        None
    } else {
        Some(2 + w * le2(s, 0))
    }
}

/// Bytes taken by `count` consecutive length-prefixed strings at the start of `s`.
pub open spec fn counted_strings_size(s: Seq<u8>, w: nat, count: nat) -> Option<int>
    decreases count,
{
    if count == 0 {
        Some(0)
    } else {
        match counted_size(s, w) {
            None => None,
            Some(n) => match counted_strings_size(s.subrange(n, s.len() as int), w, (count - 1) as nat) {
                None => None,
                Some(m) => Some(n + m),
            },
        }
    }
}

pub proof fn lemma_nul_end_bounds(s: Seq<u8>, w: nat, p: int)
    requires
        0 <= p <= s.len(),
    ensures
        p <= nul_end_at(s, w, p) <= s.len(),
    decreases s.len() - p,
{
    if w == 0 || p + w > s.len() {
    } else if zero_unit(s, p, w) {
    } else {
        lemma_nul_end_bounds(s, w, p + w);
    }
}

pub proof fn lemma_nul_strings_bounds(s: Seq<u8>, w: nat, count: nat)
    ensures
        0 <= nul_strings_size(s, w, count) <= s.len(),
    decreases count,
{
    if count > 0 {
        lemma_nul_end_bounds(s, w, 0);
        let e = nul_end_at(s, w, 0);
        lemma_nul_strings_bounds(s.subrange(e, s.len() as int), w, (count - 1) as nat);
    }
}

/// One more string after `i` of them starts where those `i` end.
pub proof fn lemma_nul_strings_step(s: Seq<u8>, w: nat, i: nat)
    ensures
        nul_strings_size(s, w, i + 1) == nul_strings_size(s, w, i) + nul_end_at(
            s.subrange(nul_strings_size(s, w, i), s.len() as int),
            w,
            0,
        ),
    decreases i,
{
    lemma_nul_strings_bounds(s, w, i);
    lemma_nul_end_bounds(s, w, 0);
    let e = nul_end_at(s, w, 0);
    let t = s.subrange(e, s.len() as int);
    assert(nul_strings_size(s, w, i + 1) == e + nul_strings_size(t, w, i));
    if i > 0 {
        let j = (i - 1) as nat;
        lemma_nul_strings_step(t, w, j);
        lemma_nul_strings_bounds(t, w, j);
        let k = nul_strings_size(t, w, j);
        assert(j + 1 == i);
        assert(nul_strings_size(s, w, i) == e + k);
        assert(t.subrange(k, t.len() as int) =~= s.subrange(e + k, s.len() as int));
    } else {
        assert(s.subrange(0, s.len() as int) =~= s);
        assert(nul_strings_size(t, w, 0) == 0);
    }
}

/// One more counted string after `i` of them starts where those `i` end.
pub proof fn lemma_counted_strings_step(s: Seq<u8>, w: nat, i: nat)
    requires
        counted_strings_size(s, w, i) is Some,
    ensures
        0 <= counted_strings_size(s, w, i)->0 <= s.len(),
        counted_strings_size(s, w, i + 1) == (match counted_size(
            s.subrange(counted_strings_size(s, w, i)->0, s.len() as int),
            w,
        ) {
            None => None,
            Some(n) => Some(counted_strings_size(s, w, i)->0 + n),
        }),
    decreases i,
{
    if i > 0 {
        let j = (i - 1) as nat;
        let n = counted_size(s, w)->0;
        let t = s.subrange(n, s.len() as int);
        assert(counted_strings_size(t, w, j) is Some);
        lemma_counted_strings_step(t, w, j);
        let k = counted_strings_size(t, w, j)->0;
        assert(j + 1 == i);
        assert(counted_strings_size(s, w, i) == Some(n + k));
        assert(t.subrange(k, t.len() as int) =~= s.subrange(n + k, s.len() as int));
        assert(counted_strings_size(s, w, i + 1) == (match counted_strings_size(t, w, i) {
            None => None,
            Some(m) => Some(n + m),
        }));
    } else {
        assert(s.subrange(0, s.len() as int) =~= s);
        assert(counted_strings_size(s, w, 0) == Some(0int));
        match counted_size(s, w) {
            None => {},
            Some(n) => {
                let t = s.subrange(n, s.len() as int);
                assert(counted_strings_size(t, w, 0) == Some(0int));
            },
        }
    }
}

/// The bytes that a decoded value was read from.
pub trait RawBytes {
    /// The bytes held, as a sequence.
    spec fn raw_view(&self) -> Seq<u8>;

    fn raw_size(&self) -> (r: usize)
        ensures
            r == self.raw_view().len(),
    ;

    fn raw_data(&self) -> (r: &[u8])
        ensures
            r@ == self.raw_view(),
    ;
}

/// A null-terminated string of 8-bit (`char_size` 1) or UTF-16 (`char_size` 2) units,
/// terminator included when there is one.
#[derive(Debug)]
pub struct EtwString<'a> {
    pub data: &'a [u8],
    pub char_size: usize,
}

impl<'a> EtwString<'a> {
    pub fn data(&self) -> (r: &'a [u8])
        ensures
            r@ == self.data@,
    {
        self.data
    }

    pub fn len(&self) -> (r: usize)
        requires
            unit_width(self.char_size as nat),
        ensures
            r == self.data@.len() / (self.char_size as nat),
    {
        self.data.len() / self.char_size
    }

    pub fn is_empty(&self) -> (r: bool)
        ensures
            r == (self.data@.len() == 0),
    {
        self.data.len() == 0
    }

    /// Whether the last whole unit is zero.
    pub fn has_trailing_null(&self) -> (r: bool)
        requires
            unit_width(self.char_size as nat),
        ensures
            r == (self.data@.len() >= self.char_size && zero_unit(
                self.data@,
                self.data@.len() - self.char_size,
                self.char_size as nat,
            )),
    {
        let n = self.data.len();
        if n < self.char_size {
            false
        } else if self.char_size == 1 {
            self.data[n - 1] == 0
        } else {
            self.data[n - 2] == 0 && self.data[n - 1] == 0
        }
    }

    /// Reads one null-terminated string from the start of `data`.
    pub fn parse(data: &'a [u8], char_size: usize) -> (r: (EtwString<'a>, &'a [u8]))
        requires
            unit_width(char_size as nat),
        ensures
            r.0.char_size == char_size,
            r.0.data@ == data@.subrange(0, nul_end_at(data@, char_size as nat, 0)),
            r.1@ == data@.subrange(nul_end_at(data@, char_size as nat, 0), data@.len() as int),
    {
        let ghost s = data@;
        let ghost w = char_size as nat;
        let mut p: usize = 0;
        while char_size <= data.len() && p <= data.len() - char_size && !(data[p] == 0 && (char_size == 1 || data[p + 1]
            == 0))
            invariant
                unit_width(w),
                w == char_size,
                s == data@,
                p <= data@.len(),
                nul_end_at(s, w, p as int) == nul_end_at(s, w, 0),
            decreases data@.len() - p,
        {
            p = p + char_size;
        }
        let end: usize = if char_size <= data.len() && p <= data.len() - char_size {
            p + char_size
        } else {
            p
        };
        let (head, tail) = data.split_at(end);
        (EtwString { data: head, char_size }, tail)
    }
}

impl<'a> RawBytes for EtwString<'a> {
    open spec fn raw_view(&self) -> Seq<u8> {
        self.data@
    }

    fn raw_size(&self) -> usize {
        self.data.len()
    }

    fn raw_data(&self) -> &[u8] {
        self.data
    }
}

/// A length-prefixed string: the units that follow its two-byte count.
#[derive(Debug)]
pub struct CountedEtwString<'a> {
    pub data: &'a [u8],
    pub char_size: usize,
}

impl<'a> CountedEtwString<'a> {
    pub fn len(&self) -> (r: usize)
        requires
            unit_width(self.char_size as nat),
        ensures
            r == self.data@.len() / (self.char_size as nat),
    {
        self.data.len() / self.char_size
    }

    pub fn is_empty(&self) -> (r: bool)
        ensures
            r == (self.data@.len() == 0),
    {
        self.data.len() == 0
    }

    pub fn data(&self) -> (r: &'a [u8])
        ensures
            r@ == self.data@,
    {
        self.data
    }

    /// Reads one length-prefixed string from the start of `data`.
    pub fn parse(data: &'a [u8], char_size: usize) -> (r: Result<
        (CountedEtwString<'a>, &'a [u8]),
        ParseError,
    >)
        requires
            unit_width(char_size as nat),
        ensures
            match counted_size(data@, char_size as nat) {
                None => r matches Err(ParseError::PrematureEndOfData),
                Some(n) => (r matches Ok((s, rest)) && s.char_size == char_size && s.data@
                    == data@.subrange(2, n) && rest@ == data@.subrange(n, data@.len() as int)),
            },
    {
        if data.len() < 2 {
            return Err(ParseError::PrematureEndOfData);
        }
        let units = read_u16(data, 0) as usize;
        let size = units * char_size;
        if data.len() - 2 < size {
            return Err(ParseError::PrematureEndOfData);
        }
        let string_data = &data[2..2 + size];
        let rest = &data[2 + size..data.len()];
        Ok((CountedEtwString { data: string_data, char_size }, rest))
    }
}

impl<'a> RawBytes for CountedEtwString<'a> {
    open spec fn raw_view(&self) -> Seq<u8> {
        self.data@
    }

    fn raw_size(&self) -> usize {
        self.data.len()
    }

    fn raw_data(&self) -> &[u8] {
        self.data
    }
}

/// Reads `count` consecutive null-terminated strings; `length` must be zero, since such
/// strings end themselves. Returns the strings, the bytes they took, and the rest.
pub fn parse_string_array<'a>(data: &'a [u8], length: usize, count: usize, char_size: usize) -> (r:
    Result<(Vec<EtwString<'a>>, usize, &'a [u8]), ParseError>)
    requires
        unit_width(char_size as nat),
    ensures
        length != 0 ==> r matches Err(ParseError::UnexpectedSize),
        length == 0 ==> (r matches Ok((strings, raw_size, rest)) && {
            let n = nul_strings_size(data@, char_size as nat, count as nat);
            &&& raw_size == n
            &&& rest@ == data@.subrange(n, data@.len() as int)
            &&& strings@.len() == count
            &&& forall|i: int|
                0 <= i < count ==> {
                    let off = nul_strings_size(data@, char_size as nat, i as nat);
                    &&& (#[trigger] strings@[i]).char_size == char_size
                    &&& strings@[i].data@ == data@.subrange(
                        off,
                        off + nul_end_at(
                            data@.subrange(off, data@.len() as int),
                            char_size as nat,
                            0,
                        ),
                    )
                }
        }),
{
    if length != 0 {
        return Err(ParseError::UnexpectedSize);
    }
    let ghost w = char_size as nat;
    let mut strings: Vec<EtwString<'a>> = Vec::new();
    let mut offset: usize = 0;
    let mut i: usize = 0;
    while i < count
        invariant
            unit_width(w),
            w == char_size,
            i <= count,
            length == 0,
            offset == nul_strings_size(data@, w, i as nat),
            offset <= data@.len(),
            strings@.len() == i,
            forall|j: int|
                0 <= j < i ==> {
                    let off = nul_strings_size(data@, w, j as nat);
                    &&& (#[trigger] strings@[j]).char_size == char_size
                    &&& strings@[j].data@ == data@.subrange(
                        off,
                        off + nul_end_at(data@.subrange(off, data@.len() as int), w, 0),
                    )
                },
        decreases count - i,
    {
        let rest = &data[offset..data.len()];
        let (string, _tail) = EtwString::parse(rest, char_size);
        proof {
            lemma_nul_strings_step(data@, w, i as nat);
            lemma_nul_end_bounds(rest@, w, 0);
            assert(string.data@ =~= data@.subrange(
                offset as int,
                offset + nul_end_at(rest@, w, 0),
            ));
        }
        offset = offset + string.data.len();
        strings.push(string);
        i = i + 1;
    }
    Ok((strings, offset, &data[offset..data.len()]))
}

/// Reads `count` consecutive length-prefixed strings; `length` must be zero, since each
/// string carries its own. Returns the strings, the bytes they took, and the rest.
pub fn parse_counted_string_array<'a>(
    data: &'a [u8],
    length: usize,
    count: usize,
    char_size: usize,
) -> (r: Result<(Vec<CountedEtwString<'a>>, usize, &'a [u8]), ParseError>)
    requires
        unit_width(char_size as nat),
    ensures
        length != 0 ==> r matches Err(ParseError::UnexpectedSize),
        length == 0 ==> match counted_strings_size(data@, char_size as nat, count as nat) {
            None => r matches Err(ParseError::PrematureEndOfData),
            Some(n) => (r matches Ok((strings, raw_size, rest)) && raw_size == n && n <= data@.len() && rest@
                == data@.subrange(n, data@.len() as int) && strings@.len() == count && forall|i: int|
                0 <= i < count ==> {
                    let off = counted_strings_size(data@, char_size as nat, i as nat)->0;
                    &&& (#[trigger] strings@[i]).char_size == char_size
                    &&& strings@[i].data@ == data@.subrange(
                        off + 2,
                        off + counted_size(
                            data@.subrange(off, data@.len() as int),
                            char_size as nat,
                        )->0,
                    )
                }),
        },
{
    if length != 0 {
        return Err(ParseError::UnexpectedSize);
    }
    let ghost w = char_size as nat;
    let mut strings: Vec<CountedEtwString<'a>> = Vec::new();
    let mut offset: usize = 0;
    let mut i: usize = 0;
    while i < count
        invariant
            unit_width(w),
            w == char_size,
            i <= count,
            length == 0,
            counted_strings_size(data@, w, i as nat) == Some(offset as int),
            offset <= data@.len(),
            strings@.len() == i,
            forall|j: int|
                0 <= j < i ==> {
                    let off = counted_strings_size(data@, w, j as nat)->0;
                    &&& (#[trigger] strings@[j]).char_size == char_size
                    &&& strings@[j].data@ == data@.subrange(
                        off + 2,
                        off + counted_size(data@.subrange(off, data@.len() as int), w)->0,
                    )
                },
        decreases count - i,
    {
        let rest = &data[offset..data.len()];
        proof {
            lemma_counted_strings_step(data@, w, i as nat);
            if counted_strings_size(data@, w, (i + 1) as nat) is None {
                lemma_counted_none_stays(data@, w, (i + 1) as nat, count as nat);
            }
        }
        match CountedEtwString::parse(rest, char_size) {
            Err(e) => {
                return Err(e);
            },
            Ok((string, tail)) => {
                proof {
                    assert(rest@ =~= data@.subrange(offset as int, data@.len() as int));
                    let n = counted_size(rest@, w)->0;
                    assert(string.data@ =~= data@.subrange(offset + 2, offset + n));
                }
                offset = offset + (rest.len() - tail.len());
                strings.push(string);
            },
        }
        i = i + 1;
    }
    Ok((strings, offset, &data[offset..data.len()]))
}

/// Once the strings run out of bytes, asking for more of them fails too.
pub proof fn lemma_counted_none_stays(s: Seq<u8>, w: nat, i: nat, j: nat)
    requires
        i <= j,
        counted_strings_size(s, w, i) is None,
    ensures
        counted_strings_size(s, w, j) is None,
    decreases i,
{
    if i > 0 {
        match counted_size(s, w) {
            None => {},
            Some(n) => {
                lemma_counted_none_stays(s.subrange(n, s.len() as int), w, (i - 1) as nat, (j - 1) as nat);
            },
        }
    }
}

} // verus!
