//! The metadata root: its header, the stream directory, the heaps and the
//! `#~` table stream.
use vstd::prelude::*;
use vstd::slice::slice_subrange;
use crate::bytes::{le16, le32, read_u16, read_u32};
use crate::error::Error;
use crate::heap::{nul_end, Heap};
use crate::tables::{lemma_decoded_same_refs, table_stream_error, HeapSizes, MetadataTable};

verus! {

/// The signature that opens every metadata root.
pub const METADATA_SIGNATURE: u32 = 0x424A_5342;

/// The context that row decoding runs in; every index is 16 bits wide.
#[derive(Debug, Clone, Copy)]
pub struct PeCtx {}

/// The `#~` stream: its version and its tables.
#[derive(Debug)]
pub struct MetadataStream {
    pub major_version: u8,
    pub minor_version: u8,
    pub table: MetadataTable,
    pub ctx: PeCtx,
}

/// What decoding the `#~` stream `t` fails with, if it fails: a short
/// preamble, a heap-size flag other than 0, or a table error.
pub open spec fn stream_error(t: Seq<u8>) -> Option<Error> {
    if t.len() < 8 || t[6] != 0 {
        Some(Error::BadInput)
    } else {
        table_stream_error(t, 8)
    }
}

impl MetadataStream {
    /// Decodes a `#~` stream: a reserved word, the version, the heap-size
    /// flag, a reserved byte, then the tables.
    pub fn parse(t: &[u8]) -> (r: Result<MetadataStream, Error>)
        ensures
            r is Err <==> stream_error(t@) is Some,
            r matches Err(e) ==> stream_error(t@) == Some(e),
            r matches Ok(m) ==> m.major_version == t@[4] && m.minor_version == t@[5]
                && m.table.decoded_from(t@, 8),
    {
        if t.len() < 8 {
            return Err(Error::BadInput);
        }
        let major_version = t[4];
        let minor_version = t[5];
        if t[6] != 0 {
            return Err(Error::BadInput);
        }
        let (table, _) = MetadataTable::parse(t, 8)?;
        Ok(MetadataStream { major_version, minor_version, table, ctx: PeCtx {} })
    }
}

/// The kinds of stream that the directory may name.
pub const STREAM_TABLES: u8 = 0;
pub const STREAM_STRINGS: u8 = 1;
pub const STREAM_USER_STRINGS: u8 = 2;
pub const STREAM_BLOB: u8 = 3;
pub const STREAM_GUID: u8 = 4;
pub const STREAM_OTHER: u8 = 5;

/// The kind of stream that a directory name denotes.
pub open spec fn stream_kind(name: Seq<u8>) -> u8 {
    if name =~= seq![0x23u8, 0x7E] {
        STREAM_TABLES
    } else if name =~= seq![0x23u8, 0x53, 0x74, 0x72, 0x69, 0x6E, 0x67, 0x73] {
        STREAM_STRINGS
    } else if name =~= seq![0x23u8, 0x55, 0x53] {
        STREAM_USER_STRINGS
    } else if name =~= seq![0x23u8, 0x42, 0x6C, 0x6F, 0x62] {
        STREAM_BLOB
    } else if name =~= seq![0x23u8, 0x47, 0x55, 0x49, 0x44] {
        STREAM_GUID
    } else {
        STREAM_OTHER
    }
}

fn bytes_eq(a: &[u8], b: &[u8]) -> (r: bool)
    ensures
        r == (a@ =~= b@),
{
    if a.len() != b.len() {
        return false;
    }
    let mut i: usize = 0;
    while i < a.len()
        invariant
            a@.len() == b@.len(),
            i <= a@.len(),
            forall|k: int| 0 <= k < i ==> a@[k] == b@[k],
        decreases a@.len() - i,
    {
        if a[i] != b[i] {
            return false;
        }
        i = i + 1;
    }
    true
}

fn stream_kind_exec(name: &[u8]) -> (r: u8)
    ensures
        r == stream_kind(name@),
{
    let tables: [u8; 2] = [0x23, 0x7E];
    let strings: [u8; 8] = [0x23, 0x53, 0x74, 0x72, 0x69, 0x6E, 0x67, 0x73];
    let user_strings: [u8; 3] = [0x23, 0x55, 0x53];
    let blob: [u8; 5] = [0x23, 0x42, 0x6C, 0x6F, 0x62];
    let guid: [u8; 5] = [0x23, 0x47, 0x55, 0x49, 0x44];
    assert(tables@ =~= seq![0x23u8, 0x7E]);
    assert(strings@ =~= seq![0x23u8, 0x53, 0x74, 0x72, 0x69, 0x6E, 0x67, 0x73]);
    assert(user_strings@ =~= seq![0x23u8, 0x55, 0x53]);
    assert(blob@ =~= seq![0x23u8, 0x42, 0x6C, 0x6F, 0x62]);
    assert(guid@ =~= seq![0x23u8, 0x47, 0x55, 0x49, 0x44]);
    if bytes_eq(name, tables.as_slice()) {
        STREAM_TABLES
    } else if bytes_eq(name, strings.as_slice()) {
        STREAM_STRINGS
    } else if bytes_eq(name, user_strings.as_slice()) {
        STREAM_USER_STRINGS
    } else if bytes_eq(name, blob.as_slice()) {
        STREAM_BLOB
    } else if bytes_eq(name, guid.as_slice()) {
        STREAM_GUID
    } else {
        STREAM_OTHER
    }
}

/// Where each known stream lies in the metadata root, as `[start, end)`;
/// a later directory entry of the same name replaces an earlier one.
#[derive(Debug, Clone, Copy)]
pub struct StreamDirs {
    pub tables: Option<(usize, usize)>,
    pub strings: Option<(usize, usize)>,
    pub user_strings: Option<(usize, usize)>,
    pub blob: Option<(usize, usize)>,
    pub guid: Option<(usize, usize)>,
}

pub open spec fn with_entry(d: StreamDirs, kind: u8, range: (usize, usize)) -> StreamDirs {
    if kind == STREAM_TABLES {
        StreamDirs { tables: Some(range), ..d }
    } else if kind == STREAM_STRINGS {
        StreamDirs { strings: Some(range), ..d }
    } else if kind == STREAM_USER_STRINGS {
        StreamDirs { user_strings: Some(range), ..d }
    } else if kind == STREAM_BLOB {
        StreamDirs { blob: Some(range), ..d }
    } else if kind == STREAM_GUID {
        StreamDirs { guid: Some(range), ..d }
    } else {
        d
    }
}

/// `p` rounded up to a multiple of four.
pub open spec fn align4(p: int) -> int {
    if p % 4 == 0 {
        p
    } else {
        p + 4 - p % 4
    }
}

/// The directory entry at `p`: the stream's range, its kind, and where the
/// next entry starts after the name's NUL and padding to four bytes.
pub open spec fn dir_entry_at(s: Seq<u8>, p: usize) -> Result<((usize, usize), u8, usize), Error> {
    if p + 8 >= s.len() || s.len() > usize::MAX {
        Err(Error::BadInput)
    } else {
        let off = le32(s, p as int);
        let size = le32(s, p + 4);
        let e = nul_end(s, p + 8);
        if e >= s.len() {
            Err(Error::BadInput)
        } else if align4(e + 1) > usize::MAX {
            Err(Error::BadInput)
        } else if off + size > s.len() {
            Err(Error::MalformedImage)
        } else {
            Ok((
                (off as usize, (off + size) as usize),
                stream_kind(s.subrange(p + 8, e)),
                align4(e + 1) as usize,
            ))
        }
    }
}

/// The streams named by `k` directory entries from `p` on.
pub open spec fn dirs_at(s: Seq<u8>, p: usize, k: nat, d: StreamDirs) -> Result<(StreamDirs, usize), Error>
    decreases k,
{
    if k == 0 {
        Ok((d, p))
    } else {
        match dir_entry_at(s, p) {
            Ok((range, kind, q)) => dirs_at(s, q, (k - 1) as nat, with_entry(d, kind, range)),
            Err(e) => Err(e),
        }
    }
}

/// A version string without its trailing NUL bytes.
pub open spec fn trim_nul(v: Seq<u8>) -> Seq<u8>
    decreases v.len(),
{
    if v.len() > 0 && v.last() == 0 {
        trim_nul(v.drop_last())
    } else {
        v
    }
}

/// The header fields and stream directory of a metadata root.
pub struct RootView {
    pub major_version: u16,
    pub minor_version: u16,
    pub version: Seq<u8>,
    pub dirs: StreamDirs,
}

pub open spec fn no_dirs() -> StreamDirs {
    StreamDirs { tables: None, strings: None, user_strings: None, blob: None, guid: None }
}

/// The header and directory of the metadata root `s`: the signature, the
/// version, the length-prefixed version string, the stream count, then the
/// directory, which must name a `#~` stream.
pub open spec fn root_at(s: Seq<u8>) -> Result<RootView, Error> {
    if s.len() < 16 || s.len() > usize::MAX {
        Err(Error::BadInput)
    } else if le32(s, 0) != METADATA_SIGNATURE {
        Err(Error::MalformedImage)
    } else {
        let len = le32(s, 12);
        if 16 + len + 4 > s.len() {
            Err(Error::BadInput)
        } else {
            let n = le16(s, 16 + len + 2);
            match dirs_at(s, (16 + len + 4) as usize, n as nat, no_dirs()) {
                Ok((d, _)) => if d.tables is None {
                    Err(Error::MissingStream)
                } else {
                    Ok(
                        RootView {
                            major_version: le16(s, 4) as u16,
                            minor_version: le16(s, 6) as u16,
                            version: trim_nul(s.subrange(16, 16 + len)),
                            dirs: d,
                        },
                    )
                },
                Err(e) => Err(e),
            }
        }
    }
}

/// The bytes of an optional stream; empty when the directory does not name it.
pub open spec fn stream_bytes(s: Seq<u8>, range: Option<(usize, usize)>) -> Seq<u8> {
    match range {
        Some((a, b)) => s.subrange(a as int, b as int),
        None => Seq::empty(),
    }
}

/// The tables decoded from the `#~` stream `t` pass the table-index check.
pub open spec fn stream_table_refs_ok(t: Seq<u8>) -> bool {
    exists|m: MetadataTable| #[trigger] m.decoded_from(t, 8) && m.table_refs_ok()
}

/// The tables decoded from the `#~` stream `t` pass the heap-index check.
pub open spec fn stream_heap_refs_ok(t: Seq<u8>, h: HeapSizes) -> bool {
    exists|m: MetadataTable| #[trigger] m.decoded_from(t, 8) && m.heap_refs_ok(h)
}

/// The heap sizes of the root `s` as `v` lays it out.
pub open spec fn view_heap_sizes(s: Seq<u8>, v: RootView) -> HeapSizes {
    HeapSizes {
        strings: stream_bytes(s, v.dirs.strings).len() as usize,
        user_strings: stream_bytes(s, v.dirs.user_strings).len() as usize,
        blob: stream_bytes(s, v.dirs.blob).len() as usize,
        guid: stream_bytes(s, v.dirs.guid).len() as usize,
    }
}

/// A decoded metadata root.
#[derive(Debug)]
pub struct MetadataRoot<'a> {
    pub signature: u32,
    pub major_version: u16,
    pub minor_version: u16,
    pub version: &'a [u8],
    pub heap: Heap<'a>,
    pub metadata_stream: MetadataStream,
}

impl<'a> MetadataRoot<'a> {
    /// The root was read from `s` as `v` describes it.
    pub open spec fn matches_view(&self, s: Seq<u8>, v: RootView) -> bool {
        &&& self.signature == METADATA_SIGNATURE
        &&& self.major_version == v.major_version
        &&& self.minor_version == v.minor_version
        &&& self.version@ == v.version
        &&& self.heap.strings@ == stream_bytes(s, v.dirs.strings)
        &&& self.heap.user_strings@ == stream_bytes(s, v.dirs.user_strings)
        &&& self.heap.blob@ == stream_bytes(s, v.dirs.blob)
        &&& self.heap.guid@ == stream_bytes(s, v.dirs.guid)
        &&& self.metadata_stream.table.decoded_from(stream_bytes(s, v.dirs.tables), 8)
    }

    /// Every table and heap index of every row is null or in range.
    pub open spec fn refs_in_range(&self) -> bool {
        &&& self.metadata_stream.table.table_refs_ok()
        &&& self.metadata_stream.table.heap_refs_ok(
            HeapSizes {
                strings: self.heap.strings@.len() as usize,
                user_strings: self.heap.user_strings@.len() as usize,
                blob: self.heap.blob@.len() as usize,
                guid: self.heap.guid@.len() as usize,
            },
        )
    }
}

/// Every range of `d` lies inside a root of `n` bytes.
pub open spec fn ranges_ok(d: StreamDirs, n: nat) -> bool {
    &&& (d.tables matches Some((a, b)) ==> a <= b <= n)
    &&& (d.strings matches Some((a, b)) ==> a <= b <= n)
    &&& (d.user_strings matches Some((a, b)) ==> a <= b <= n)
    &&& (d.blob matches Some((a, b)) ==> a <= b <= n)
    &&& (d.guid matches Some((a, b)) ==> a <= b <= n)
}

fn with_entry_exec(d: StreamDirs, kind: u8, range: (usize, usize)) -> (r: StreamDirs)
    ensures
        r == with_entry(d, kind, range),
{
    if kind == STREAM_TABLES {
        StreamDirs { tables: Some(range), ..d }
    } else if kind == STREAM_STRINGS {
        StreamDirs { strings: Some(range), ..d }
    } else if kind == STREAM_USER_STRINGS {
        StreamDirs { user_strings: Some(range), ..d }
    } else if kind == STREAM_BLOB {
        StreamDirs { blob: Some(range), ..d }
    } else if kind == STREAM_GUID {
        StreamDirs { guid: Some(range), ..d }
    } else {
        d
    }
}

fn dir_entry(s: &[u8], p: usize) -> (r: Result<((usize, usize), u8, usize), Error>)
    ensures
        r == dir_entry_at(s@, p),
{
    let n = s.len();
    if p >= n || n - p <= 8 {
        return Err(Error::BadInput);
    }
    let off = read_u32(s, p).unwrap();
    let size = read_u32(s, p + 4).unwrap();
    let mut e = p + 8;
    while e < n && s[e] != 0
        invariant
            p + 8 <= e <= n,
            s@.len() == n,
            nul_end(s@, p + 8) == nul_end(s@, e as int),
        decreases n - e,
    {
        e = e + 1;
    }
    if e >= n {
        return Err(Error::BadInput);
    }
    let next = e + 1;
    let aligned = if next % 4 == 0 {
        next
    } else {
        if 4 - next % 4 > usize::MAX - next {
            return Err(Error::BadInput);
        }
        next + (4 - next % 4)
    };
    if off as u64 + size as u64 > n as u64 {
        return Err(Error::MalformedImage);
    }
    let kind = stream_kind_exec(slice_subrange(s, p + 8, e));
    Ok(((off as usize, off as usize + size as usize), kind, aligned))
}

proof fn lemma_entry_range(s: Seq<u8>, p: usize)
    ensures
        dir_entry_at(s, p) matches Ok((range, kind, q)) ==> range.0 <= range.1 <= s.len(),
{
}

fn optional_stream<'a>(s: &'a [u8], range: Option<(usize, usize)>) -> (r: &'a [u8])
    requires
        range matches Some((a, b)) ==> a <= b <= s@.len(),
    ensures
        r@ == stream_bytes(s@, range),
{
    match range {
        Some((a, b)) => slice_subrange(s, a, b),
        None => slice_subrange(s, 0, 0),
    }
}

impl<'a> MetadataRoot<'a> {
    /// Decodes the metadata root `s`, its heaps and its tables, and checks
    /// that every index the tables hold is null or in range.
    pub fn parse(s: &'a [u8]) -> (r: Result<MetadataRoot<'a>, Error>)
        ensures
            root_at(s@) matches Err(e) ==> r == Err::<MetadataRoot, Error>(e),
            root_at(s@) matches Ok(v) ==> match stream_error(stream_bytes(s@, v.dirs.tables)) {
                Some(e) => r == Err::<MetadataRoot, Error>(e),
                None => {
                    let tb = stream_bytes(s@, v.dirs.tables);
                    &&& (r is Ok <==> stream_table_refs_ok(tb) && stream_heap_refs_ok(
                        tb,
                        view_heap_sizes(s@, v),
                    ))
                    &&& (r == Err::<MetadataRoot, Error>(Error::BadIndex) <==> !stream_table_refs_ok(
                        tb,
                    ))
                    &&& (r is Err ==> r == Err::<MetadataRoot, Error>(Error::BadIndex) || r == Err::<
                        MetadataRoot,
                        Error,
                    >(Error::HeapDecodeError))
                    &&& (r matches Ok(root) ==> root.matches_view(s@, v) && root.refs_in_range())
                },
            },
    {
        let n = s.len();
        if n < 16 {
            return Err(Error::BadInput);
        }
        let signature = read_u32(s, 0).unwrap();
        if signature != METADATA_SIGNATURE {
            return Err(Error::MalformedImage);
        }
        let major_version = read_u16(s, 4).unwrap();
        let minor_version = read_u16(s, 6).unwrap();
        let len = read_u32(s, 12).unwrap();
        if n < 20 || len as usize > n - 20 {
            return Err(Error::BadInput);
        }
        let len = len as usize;
        let mut e = 16 + len;
        proof {
            assert(s@.subrange(16, e as int) =~= s@.subrange(16, 16 + len));
        }
        while e > 16 && s[e - 1] == 0
            invariant
                16 <= e <= 16 + len,
                16 + len + 4 <= n == s@.len(),
                trim_nul(s@.subrange(16, 16 + len)) == trim_nul(s@.subrange(16, e as int)),
            decreases e,
        {
            assert(s@.subrange(16, e as int).drop_last() =~= s@.subrange(16, e - 1));
            e = e - 1;
        }
        proof {
            let v = s@.subrange(16, e as int);
            assert(!(v.len() > 0 && v.last() == 0));
        }
        let version = slice_subrange(s, 16, e);
        let count = read_u16(s, 16 + len + 2).unwrap();
        let mut pos = 16 + len + 4;
        let mut d = StreamDirs {
            tables: None,
            strings: None,
            user_strings: None,
            blob: None,
            guid: None,
        };
        let mut k: u16 = 0;
        while k < count
            invariant
                k <= count,
                n == s@.len(),
                16 <= n,
                le32(s@, 0) == METADATA_SIGNATURE,
                len == le32(s@, 12),
                16 + len + 4 <= n,
                count == le16(s@, 16 + len + 2),
                ranges_ok(d, n as nat),
                dirs_at(s@, (16 + len + 4) as usize, count as nat, no_dirs()) == dirs_at(
                    s@,
                    pos,
                    (count - k) as nat,
                    d,
                ),
            decreases count - k,
        {
            let (range, kind, q) = match dir_entry(s, pos) {
                Ok(x) => x,
                Err(err) => {
                    assert(dirs_at(s@, pos, (count - k) as nat, d) == Err::<(StreamDirs, usize), Error>(
                        err,
                    ));
                    return Err(err);
                },
            };
            proof {
                lemma_entry_range(s@, pos);
                assert(dirs_at(s@, pos, (count - k) as nat, d) == dirs_at(
                    s@,
                    q,
                    (count - k - 1) as nat,
                    with_entry(d, kind, range),
                ));
            }
            d = with_entry_exec(d, kind, range);
            pos = q;
            k = k + 1;
        }
        let tables = match d.tables {
            Some(t) => t,
            None => {
                return Err(Error::MissingStream);
            },
        };
        let heap = Heap {
            strings: optional_stream(s, d.strings),
            user_strings: optional_stream(s, d.user_strings),
            blob: optional_stream(s, d.blob),
            guid: optional_stream(s, d.guid),
        };
        let tb = optional_stream(s, d.tables);
        let metadata_stream = MetadataStream::parse(tb)?;
        let sizes = HeapSizes::of(heap);
        match metadata_stream.table.check_refs(sizes) {
            Ok(()) => {},
            Err(e) => {
                proof {
                    let t = &metadata_stream.table;
                    assert forall|m: MetadataTable| #[trigger] m.decoded_from(tb@, 8) implies (
                    m.table_refs_ok() == t.table_refs_ok() && m.heap_refs_ok(sizes)
                        == t.heap_refs_ok(sizes)) by {
                        lemma_decoded_same_refs(t, &m, tb@, 8, sizes);
                    }
                }
                return Err(e);
            },
        }
        proof {
            let t = metadata_stream.table;
            assert(t.decoded_from(tb@, 8));
        }
        Ok(MetadataRoot { signature, major_version, minor_version, version, heap, metadata_stream })
    }
}

} // verus!
