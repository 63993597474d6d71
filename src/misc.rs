use vstd::prelude::*;

verus! {

/// Bytes taken by a security identifier at the start of `s`: revision 1, at most 15
/// sub-authorities, eight header bytes and four per sub-authority; `None` where `s` holds
/// no valid one.
pub open spec fn sid_size(s: Seq<u8>) -> Option<int> {
    if s.len() < 8 || s[0] != 1 || s[1] > 15 || s.len() < 8 + 4 * s[1] {
        None
    } else {
        Some(8 + 4 * s[1])
    }
}

/// Bytes taken by `count` consecutive security identifiers at the start of `s`.
pub open spec fn sids_size(s: Seq<u8>, count: nat) -> Option<int>
    decreases count,
{
    if count == 0 {
        Some(0)
    } else {
        match sid_size(s) {
            None => None,
            Some(n) => match sids_size(s.subrange(n, s.len() as int), (count - 1) as nat) {
                None => None,
                Some(m) => Some(n + m),
            },
        }
    }
}

pub proof fn lemma_sids_step(s: Seq<u8>, i: nat)
    requires
        sids_size(s, i) is Some,
    ensures
        0 <= sids_size(s, i)->0 <= s.len(),
        sids_size(s, i + 1) == (match sid_size(s.subrange(sids_size(s, i)->0, s.len() as int)) {
            None => None,
            Some(n) => Some(sids_size(s, i)->0 + n),
        }),
    decreases i,
{
    if i > 0 {
        let j = (i - 1) as nat;
        let n = sid_size(s)->0;
        let t = s.subrange(n, s.len() as int);
        lemma_sids_step(t, j);
        let k = sids_size(t, j)->0;
        assert(j + 1 == i);
        assert(t.subrange(k, t.len() as int) =~= s.subrange(n + k, s.len() as int));
        assert(sids_size(s, i + 1) == (match sids_size(t, i) {
            None => None,
            Some(m) => Some(n + m),
        }));
    } else {
        assert(s.subrange(0, s.len() as int) =~= s);
        match sid_size(s) {
            None => {},
            Some(n) => {
                assert(sids_size(s.subrange(n, s.len() as int), 0) == Some(0int));
            },
        }
    }
}

pub proof fn lemma_sids_none_stays(s: Seq<u8>, i: nat, j: nat)
    requires
        i <= j,
        sids_size(s, i) is None,
    ensures
        sids_size(s, j) is None,
    decreases i,
{
    if i > 0 {
        match sid_size(s) {
            None => {},
            Some(n) => {
                lemma_sids_none_stays(s.subrange(n, s.len() as int), (i - 1) as nat, (j - 1) as nat);
            },
        }
    }
}

/// A security identifier, as the bytes that hold it.
#[derive(Debug)]
pub struct Sid<'a> {
    pub data: &'a [u8],
}

impl<'a> Sid<'a> {
    /// Reads the identifier at the start of `data`, if there is a valid one.
    pub fn new(data: &'a [u8]) -> (r: Option<Sid<'a>>)
        ensures
            match sid_size(data@) {
                None => r is None,
                Some(n) => (r matches Some(sid) && sid.data@ == data@.subrange(0, n)),
            },
    {
        if data.len() < 8 || data[0] != 1 || data[1] > 15 {
            return None;
        }
        let size: usize = 8 + 4 * (data[1] as usize);
        if data.len() < size {
            return None;
        }
        Some(Sid { data: &data[0..size] })
    }

    pub fn size(&self) -> (r: usize)
        ensures
            r == self.data@.len(),
    {
        self.data.len()
    }

    /// Whether the bytes hold exactly one valid identifier.
    pub fn is_valid(&self) -> (r: bool)
        ensures
            r == (sid_size(self.data@) == Some(self.data@.len() as int)),
    {
        self.data.len() >= 8 && self.data[0] == 1 && self.data[1] <= 15 && self.data.len() == 8
            + 4 * (self.data[1] as usize)
    }

    pub fn data(&self) -> (r: &'a [u8])
        ensures
            r@ == self.data@,
    {
        self.data
    }
}

} // verus!
