//! The four metadata heaps and the indices that point into them.
use vstd::prelude::*;
use vstd::slice::slice_subrange;
use crate::compressed::{u_at, U};
use crate::error::Error;

verus! {

/// The size of one `#GUID` heap entry.
pub const GUID_SIZE: usize = 16;

/// The `#Strings`, `#US`, `#Blob` and `#GUID` heaps of a metadata root.
#[derive(Debug, Clone, Copy)]
pub struct Heap<'a> {
    pub strings: &'a [u8],
    pub user_strings: &'a [u8],
    pub blob: &'a [u8],
    pub guid: &'a [u8],
}

/// The first position at or after `i` that holds a NUL byte, or the end.
pub open spec fn nul_end(s: Seq<u8>, i: int) -> int
    decreases s.len() - i,
{
    if i >= s.len() {
        s.len() as int
    } else if s[i] == 0 {
        i
    } else {
        nul_end(s, i + 1)
    }
}

/// The NUL-terminated entry of `#Strings` at offset `i`; none for 0 or an
/// offset outside the heap.
pub open spec fn string_at(s: Seq<u8>, i: int) -> Option<Seq<u8>> {
    if i == 0 || i >= s.len() {
        None
    } else {
        Some(s.subrange(i, nul_end(s, i)))
    }
}

/// The length-prefixed entry of `#US` or `#Blob` at offset `i`; none for 0,
/// a malformed prefix, or an entry that runs past the end.
pub open spec fn prefixed_at(s: Seq<u8>, i: usize) -> Option<Seq<u8>> {
    if i == 0 {
        None
    } else {
        match u_at(s, i) {
            Ok((n, q)) => if q + n.0 <= s.len() {
                Some(s.subrange(q as int, q + n.0))
            } else {
                None
            },
            Err(_) => None,
        }
    }
}

/// The 16-byte entry of `#GUID` at offset `i`; none for 0 or past the end.
pub open spec fn guid_at(s: Seq<u8>, i: int) -> Option<Seq<u8>> {
    if i == 0 || i + GUID_SIZE > s.len() {
        None
    } else {
        Some(s.subrange(i, i + GUID_SIZE))
    }
}

/// The offsets of the consecutive length-prefixed entries of `#US` from `i` on.
pub open spec fn user_string_walk(s: Seq<u8>, i: usize) -> Result<Seq<usize>, Error>
    decreases s.len() - i,
    via user_string_walk_decreases
{
    if i >= s.len() {
        Ok(Seq::empty())
    } else {
        match u_at(s, i) {
            Ok((n, q)) => if q + n.0 > s.len() || q + n.0 > usize::MAX {
                Err(Error::HeapDecodeError)
            } else {
                match user_string_walk(s, (q + n.0) as usize) {
                    Ok(rest) => Ok(seq![i].add(rest)),
                    Err(e) => Err(e),
                }
            },
            Err(_) => Err(Error::HeapDecodeError),
        }
    }
}

#[via_fn]
proof fn user_string_walk_decreases(s: Seq<u8>, i: usize) {
    if i < s.len() {
        if let Ok((n, q)) = u_at(s, i) {
            assert(q > i);
        }
    }
}

/// The offsets of all user strings: the walk starts after the heap's leading
/// empty entry at offset 0.
pub open spec fn user_string_offsets(s: Seq<u8>) -> Result<Seq<usize>, Error> {
    user_string_walk(s, 1)
}

impl<'a> Heap<'a> {
    pub fn new(strings: &'a [u8], user_strings: &'a [u8], blob: &'a [u8], guid: &'a [u8]) -> (r:
        Heap<'a>)
        ensures
            r.strings@ == strings@,
            r.user_strings@ == user_strings@,
            r.blob@ == blob@,
            r.guid@ == guid@,
    {
        Heap { strings, user_strings, blob, guid }
    }

    /// The NUL-terminated string at byte offset `index` of `#Strings`.
    pub fn ref_string(self, index: usize) -> (r: Option<&'a [u8]>)
        ensures
            r matches Some(v) ==> string_at(self.strings@, index as int) == Some(v@),
            r is None ==> string_at(self.strings@, index as int) is None,
    {
        if index == 0 || index >= self.strings.len() {
            return None;
        }
        let mut j = index;
        while j < self.strings.len() && self.strings[j] != 0
            invariant
                index <= j <= self.strings@.len(),
                nul_end(self.strings@, index as int) == nul_end(self.strings@, j as int),
            decreases self.strings@.len() - j,
        {
            j = j + 1;
        }
        Some(slice_subrange(self.strings, index, j))
    }

    fn ref_prefixed(s: &'a [u8], index: usize) -> (r: Option<&'a [u8]>)
        ensures
            r matches Some(v) ==> prefixed_at(s@, index) == Some(v@),
            r is None ==> prefixed_at(s@, index) is None,
    {
        if index == 0 {
            return None;
        }
        match U::parse(s, index) {
            Ok((n, q)) => {
                if n.0 as usize <= s.len() - q {
                    Some(slice_subrange(s, q, q + n.0 as usize))
                } else {
                    None
                }
            },
            Err(_) => None,
        }
    }

    /// The length-prefixed bytes at offset `index` of `#US`.
    pub fn ref_user_string(self, index: usize) -> (r: Option<&'a [u8]>)
        ensures
            r matches Some(v) ==> prefixed_at(self.user_strings@, index) == Some(v@),
            r is None ==> prefixed_at(self.user_strings@, index) is None,
    {
        Self::ref_prefixed(self.user_strings, index)
    }

    /// The length-prefixed bytes at offset `index` of `#Blob`.
    pub fn ref_blob(self, index: usize) -> (r: Option<&'a [u8]>)
        ensures
            r matches Some(v) ==> prefixed_at(self.blob@, index) == Some(v@),
            r is None ==> prefixed_at(self.blob@, index) is None,
    {
        Self::ref_prefixed(self.blob, index)
    }

    /// The 16 bytes at offset `index` of `#GUID`.
    pub fn ref_guid(self, index: usize) -> (r: Option<&'a [u8]>)
        ensures
            r matches Some(v) ==> guid_at(self.guid@, index as int) == Some(v@) && v@.len()
                == GUID_SIZE,
            r is None ==> guid_at(self.guid@, index as int) is None,
    {
        if index == 0 || index > self.guid.len() || self.guid.len() - index < GUID_SIZE {
            return None;
        }
        Some(slice_subrange(self.guid, index, index + GUID_SIZE))
    }

    /// The offsets of the user strings of `#US`, in heap order.
    pub fn list_user_strings(self) -> (r: Result<Vec<usize>, Error>)
        ensures
            r is Ok <==> user_string_offsets(self.user_strings@) is Ok,
            r is Ok ==> user_string_offsets(self.user_strings@)->Ok_0 == r->Ok_0@,
            r is Err ==> user_string_offsets(self.user_strings@)->Err_0 == r->Err_0,
    {
        let s = self.user_strings;
        let mut out: Vec<usize> = Vec::new();
        let mut i: usize = 1;
        proof {
            if let Ok(rest) = user_string_walk(s@, 1) {
                assert(out@.add(rest) =~= rest);
            }
        }
        while i < s.len()
            invariant
                1 <= i,
                s@ == self.user_strings@,
                user_string_walk(s@, 1) == (match user_string_walk(s@, i) {
                    Ok(rest) => Ok(out@.add(rest)),
                    Err(e) => Err(e),
                }),
            decreases s@.len() - i,
        {
            match U::parse(s, i) {
                Ok((n, q)) => {
                    if n.0 as usize > s.len() - q {
                        assert(user_string_walk(s@, i) == Err::<Seq<usize>, Error>(
                            Error::HeapDecodeError,
                        ));
                        assert(user_string_offsets(s@) == Err::<Seq<usize>, Error>(
                            Error::HeapDecodeError,
                        ));
                        return Err(Error::HeapDecodeError);
                    }
                    proof {
                        let ghost w = user_string_walk(s@, (q + n.0) as usize);
                        if let Ok(rest) = w {
                            assert(out@.add(seq![i].add(rest)) =~= out@.push(i).add(rest));
                        }
                    }
                    out.push(i);
                    i = q + n.0 as usize;
                },
                Err(_) => {
                    assert(user_string_walk(s@, i) == Err::<Seq<usize>, Error>(
                        Error::HeapDecodeError,
                    ));
                    assert(user_string_offsets(s@) == Err::<Seq<usize>, Error>(
                        Error::HeapDecodeError,
                    ));
                    return Err(Error::HeapDecodeError);
                },
            }
        }
        proof {
            assert(out@.add(Seq::<usize>::empty()) =~= out@);
        }
        Ok(out)
    }
}

/// An index into `#Strings`.
#[derive(Debug, Clone, Copy, PartialEq, Eq, Structural)]
pub struct StringIndex(pub u32);

/// An index into `#US`.
#[derive(Debug, Clone, Copy, PartialEq, Eq, Structural)]
pub struct UserStringIndex(pub u32);

/// An index into `#Blob`.
#[derive(Debug, Clone, Copy, PartialEq, Eq, Structural)]
pub struct BlobIndex(pub u32);

/// An index into `#GUID`.
#[derive(Debug, Clone, Copy, PartialEq, Eq, Structural)]
pub struct GuidIndex(pub u32);

/// What a heap index resolves to: absent for 0, the entry when it is in
/// range, and a heap error otherwise.
pub open spec fn resolved(index: u32, entry: Option<Seq<u8>>) -> Result<Option<Seq<u8>>, Error> {
    if index == 0 {
        Ok(None)
    } else {
        match entry {
            Some(v) => Ok(Some(v)),
            None => Err(Error::HeapDecodeError),
        }
    }
}

/// Whether an exec resolution result is `expected`.
pub open spec fn resolves_to(r: Result<Option<&[u8]>, Error>, expected: Result<Option<Seq<u8>>, Error>) -> bool {
    match (r, expected) {
        (Ok(None), Ok(None)) => true,
        (Ok(Some(v)), Ok(Some(w))) => v@ == w,
        (Err(e), Err(f)) => e == f,
        _ => false,
    }
}

impl StringIndex {
    pub fn resolve<'a>(self, heap: Heap<'a>) -> (r: Result<Option<&'a [u8]>, Error>)
        ensures
            resolves_to(r, resolved(self.0, string_at(heap.strings@, self.0 as int))),
    {
        if self.0 == 0 {
            return Ok(None);
        }
        match heap.ref_string(self.0 as usize) {
            Some(v) => Ok(Some(v)),
            None => Err(Error::HeapDecodeError),
        }
    }
}

impl UserStringIndex {
    pub fn resolve<'a>(self, heap: Heap<'a>) -> (r: Result<Option<&'a [u8]>, Error>)
        ensures
            resolves_to(r, resolved(self.0, prefixed_at(heap.user_strings@, self.0 as usize))),
    {
        if self.0 == 0 {
            return Ok(None);
        }
        match heap.ref_user_string(self.0 as usize) {
            Some(v) => Ok(Some(v)),
            None => Err(Error::HeapDecodeError),
        }
    }
}

impl BlobIndex {
    pub fn resolve<'a>(self, heap: Heap<'a>) -> (r: Result<Option<&'a [u8]>, Error>)
        ensures
            resolves_to(r, resolved(self.0, prefixed_at(heap.blob@, self.0 as usize))),
    {
        if self.0 == 0 {
            return Ok(None);
        }
        match heap.ref_blob(self.0 as usize) {
            Some(v) => Ok(Some(v)),
            None => Err(Error::HeapDecodeError),
        }
    }
}

impl GuidIndex {
    pub fn resolve<'a>(self, heap: Heap<'a>) -> (r: Result<Option<&'a [u8]>, Error>)
        ensures
            resolves_to(r, resolved(self.0, guid_at(heap.guid@, self.0 as int))),
    {
        if self.0 == 0 {
            return Ok(None);
        }
        match heap.ref_guid(self.0 as usize) {
            Some(v) => Ok(Some(v)),
            None => Err(Error::HeapDecodeError),
        }
    }
}

} // verus!
