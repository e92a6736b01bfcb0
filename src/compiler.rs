//! The lowering engine: interns signatures, strings, imports and methods,
//! and writes the Wasm module section by section.
use vstd::prelude::*;
use crate::cil::MethodBody;
use crate::error::Error;
use crate::compressed::u_at;
use crate::heap::{user_string_walk, prefixed_at, resolved, string_at, user_string_offsets, BlobIndex, Heap, StringIndex, UserStringIndex};
use crate::indices::{MemberRefIndex, MemberRefParent, MethodDefIndex, TypeDefIndex};
use crate::lower::{
    convert_wasm_function, lower_function, lower_sig, lower_signature, MemberRefCacheData,
    MethodCacheData, StringCacheData,
};
use crate::image::Image;
use crate::metadata::MetadataRoot;
use crate::signatures::{sig_at, MethodDefSig, SigView};
use crate::tables::{MemberRef, MetadataTable, MethodDef, TypeDef};
use crate::wasm::{
    code_section_add, code_section_len, code_section_new, codes_of, data_of, data_section_add, data_section_new,
    encode_module, export_section_add, export_section_new, exports_of, function_add, function_new,
    function_of, function_section_add, function_section_len, function_section_new, functions_of,
    import_section_add, import_section_len, import_section_new, imports_of, memories_of,
    memory_section_add, memory_section_new, module_bytes, type_section_add, type_section_len,
    type_section_new, types_of, ValTy,
};
use wasm_encoder::{
    CodeSection, DataSection, ExportSection, FunctionSection, ImportSection, MemorySection,
    TypeSection,
};

verus! {

/// The most entries that one section takes; a larger module is refused.
pub const SECTION_LIMIT: u32 = 0x7FFF_FFFF;

/// The characters that UTF-8 bytes decode to; none when they are not UTF-8.
pub uninterp spec fn utf8_decode(b: Seq<u8>) -> Option<Seq<char>>;

/// Relies on std::str::from_utf8: the string of the bytes exactly when they
/// are UTF-8; the result depends on the bytes alone.
#[verifier::external_body]
pub(crate) fn utf8_str(b: &[u8]) -> (r: Option<&str>)
    ensures
        match utf8_decode(b@) {
            Some(c) => r matches Some(s) && s@ == c,
            None => r is None,
        },
{
    std::str::from_utf8(b).ok()
}

/// What the signature cache records of an interned signature.
pub struct SignatureCacheData {
    pub type_index: u32,
    pub param_types: Vec<ValTy>,
}

/// The first position at or after `k` of a cached signature of value `v`.
pub open spec fn cached_sig(c: Seq<(MethodDefSig, SignatureCacheData)>, v: SigView, k: int) -> Option<int>
    decreases c.len() - k,
{
    if k < 0 || k >= c.len() {
        None
    } else if c[k].0@ == v {
        Some(k)
    } else {
        cached_sig(c, v, k + 1)
    }
}

/// The name of an import or export: `[namespace]type::member`, or
/// `type::member` without a namespace.
pub open spec fn full_name(ns: Option<Seq<u8>>, ty: Seq<u8>, m: Seq<u8>) -> Seq<u8> {
    let tail = ty.add(seq![0x3Au8, 0x3A]).add(m);
    match ns {
        Some(n) => seq![0x5Bu8].add(n).add(seq![0x5Du8]).add(tail),
        None => tail,
    }
}

/// The string that a heap index names: absent for 0, an error out of range.
pub open spec fn string_part(heap: Heap, i: StringIndex) -> Result<Option<Seq<u8>>, Error> {
    resolved(i.0, string_at(heap.strings@, i.0 as int))
}

/// A part that must be present: absence is a parse failure.
pub open spec fn required_part(r: Result<Option<Seq<u8>>, Error>) -> Result<Seq<u8>, Error> {
    match r {
        Ok(Some(v)) => Ok(v),
        Ok(None) => Err(Error::BadInput),
        Err(e) => Err(e),
    }
}

/// The method signature held by a blob.
pub open spec fn blob_sig(heap: Heap, b: BlobIndex) -> Result<SigView, Error> {
    match required_part(resolved(b.0, prefixed_at(heap.blob@, b.0 as usize))) {
        Ok(bytes) => match sig_at(bytes, 0) {
            Ok((v, _)) => Ok(v),
            Err(e) => Err(e),
        },
        Err(e) => Err(e),
    }
}

/// The signature and import name of a member reference: its parent must be
/// a `TypeRef`.
pub open spec fn member_ref_import(r: MemberRef, table: &MetadataTable, heap: Heap) -> Result<(SigView, Seq<u8>), Error> {
    match r.class {
        MemberRefParent::TypeRefIndex(t) => if t.0 == 0 || t.0 > table.type_ref@.len() {
            Err(Error::BadIndex)
        } else {
            let tr = table.type_ref@[t.0 - 1];
            match blob_sig(heap, r.signature) {
                Ok(sv) => match required_part(string_part(heap, r.name)) {
                    Ok(m) => match string_part(heap, tr.namespace) {
                        Ok(ns) => match required_part(string_part(heap, tr.name)) {
                            Ok(tn) => Ok((sv, full_name(ns, tn, m))),
                            Err(e) => Err(e),
                        },
                        Err(e) => Err(e),
                    },
                    Err(e) => Err(e),
                },
                Err(e) => Err(e),
            }
        },
        _ => Err(Error::UnsupportedMemberRefParent),
    }
}

/// The byte length of the user string at heap offset `o`.
pub open spec fn user_string_len(us: Seq<u8>, o: usize) -> nat {
    match prefixed_at(us, o) {
        Some(b) => b.len(),
        None => 0,
    }
}

/// The total length of the first `k` user strings.
pub open spec fn strings_total(us: Seq<u8>, offs: Seq<usize>, k: int) -> nat
    decreases k,
{
    if k <= 0 {
        0
    } else {
        strings_total(us, offs, k - 1) + user_string_len(us, offs[k - 1])
    }
}

/// The user strings fit the engine: their heap offsets fit in 32 bits, there
/// are at most `SECTION_LIMIT` of them, and together they fit `i32` offsets.
pub open spec fn strings_fit(us: Seq<u8>, offs: Seq<usize>) -> bool {
    &&& offs.len() <= SECTION_LIMIT
    &&& forall|k: int| 0 <= k < offs.len() ==> #[trigger] offs[k] <= u32::MAX
    &&& strings_total(us, offs, offs.len() as int) <= i32::MAX
}

/// The string cache that the preload builds: each string at the total
/// length of the strings before it.
pub open spec fn string_cache_spec(us: Seq<u8>, offs: Seq<usize>) -> Seq<(UserStringIndex, StringCacheData)> {
    Seq::new(
        offs.len(),
        |k: int|
            (
                UserStringIndex(offs[k] as u32),
                StringCacheData {
                    data_index: strings_total(us, offs, k) as i32,
                    str_len: user_string_len(us, offs[k]) as u32,
                },
            ),
    )
}

proof fn lemma_strings_total_mono(us: Seq<u8>, offs: Seq<usize>, j: int, k: int)
    requires
        j <= k,
    ensures
        strings_total(us, offs, j) <= strings_total(us, offs, k),
    decreases k - j,
{
    if j < k {
        lemma_strings_total_mono(us, offs, j, k - 1);
    }
}

/// Every offset of a successful walk from `i >= 1` names a user string.
proof fn lemma_walk_entries(s: Seq<u8>, i: usize)
    requires
        i >= 1,
    ensures
        user_string_walk(s, i) matches Ok(offs) ==> forall|k: int|
            0 <= k < offs.len() ==> offs[k] >= 1 && (#[trigger] prefixed_at(s, offs[k])) is Some,
    decreases s.len() - i,
{
    if i < s.len() {
        if let Ok((n, q)) = u_at(s, i) {
            if q + n.0 <= s.len() && q + n.0 <= usize::MAX {
                assert(q > i);
                lemma_walk_entries(s, (q + n.0) as usize);
                if let Ok(offs) = user_string_walk(s, i) {
                    let rest = user_string_walk(s, (q + n.0) as usize)->Ok_0;
                    assert(offs == seq![i].add(rest));
                    assert forall|k: int| 0 <= k < offs.len() implies offs[k] >= 1 && (
                    #[trigger] prefixed_at(s, offs[k])) is Some by {
                        if k > 0 {
                            assert(offs[k] == rest[k - 1]);
                        }
                    }
                }
            }
        }
    }
}

/// The import that phase 2 makes for a member reference: its signature and
/// its name as characters.
pub open spec fn member_ref_step(r: MemberRef, table: &MetadataTable, heap: Heap) -> Result<(SigView, Seq<char>), Error> {
    match member_ref_import(r, table, heap) {
        Err(e) => Err(e),
        Ok((sv, name)) => match utf8_decode(name) {
            None => Err(Error::BadInput),
            Some(c) => if lower_sig(sv) is None {
                Err(Error::UnsupportedSignature)
            } else {
                Ok((sv, c))
            },
        },
    }
}

/// The first error of phase 2 among the first `k` member references.
pub open spec fn member_refs_error(table: &MetadataTable, heap: Heap, k: int) -> Option<Error>
    decreases k,
{
    if k <= 0 {
        None
    } else {
        match member_refs_error(table, heap, k - 1) {
            Some(e) => Some(e),
            None => match member_ref_step(table.member_ref@[k - 1], table, heap) {
                Err(e) => Some(e),
                Ok(_) => None,
            },
        }
    }
}

pub(crate) proof fn lemma_member_refs_error_stays(table: &MetadataTable, heap: Heap, j: int, k: int)
    requires
        0 <= j <= k,
        member_refs_error(table, heap, j) is Some,
    ensures
        member_refs_error(table, heap, k) == member_refs_error(table, heap, j),
    decreases k - j,
{
    if j < k {
        lemma_member_refs_error_stays(table, heap, j, k - 1);
    }
}

/// The namespace and name of a type.
pub open spec fn type_prefix(td: TypeDef, heap: Heap) -> Result<(Option<Seq<u8>>, Seq<u8>), Error> {
    match string_part(heap, td.namespace) {
        Err(e) => Err(e),
        Ok(ns) => match required_part(string_part(heap, td.name)) {
            Err(e) => Err(e),
            Ok(tn) => Ok((ns, tn)),
        },
    }
}

/// The export that phase 3 makes for a method of a type named `ns`, `tn`:
/// its name as characters and its signature.
pub open spec fn method_step(ns: Option<Seq<u8>>, tn: Seq<u8>, md: MethodDef, heap: Heap) -> Result<(Seq<char>, SigView), Error> {
    match required_part(string_part(heap, md.name)) {
        Err(e) => Err(e),
        Ok(m) => match utf8_decode(full_name(ns, tn, m)) {
            None => Err(Error::BadInput),
            Some(c) => match blob_sig(heap, md.signature) {
                Err(e) => Err(e),
                Ok(sv) => if lower_sig(sv) is None {
                    Err(Error::UnsupportedSignature)
                } else {
                    Ok((c, sv))
                },
            },
        },
    }
}

/// The first error among the methods at positions `[lo, m)`.
pub open spec fn methods_error(ns: Option<Seq<u8>>, tn: Seq<u8>, table: &MetadataTable, heap: Heap, lo: int, m: int) -> Option<Error>
    decreases m - lo,
{
    if m <= lo {
        None
    } else {
        match methods_error(ns, tn, table, heap, lo, m - 1) {
            Some(e) => Some(e),
            None => match method_step(ns, tn, table.method_def@[m - 1], heap) {
                Err(e) => Some(e),
                Ok(_) => None,
            },
        }
    }
}

pub(crate) proof fn lemma_methods_error_stays(ns: Option<Seq<u8>>, tn: Seq<u8>, table: &MetadataTable, heap: Heap, lo: int, j: int, k: int)
    requires
        lo <= j <= k,
        methods_error(ns, tn, table, heap, lo, j) is Some,
    ensures
        methods_error(ns, tn, table, heap, lo, k) == methods_error(ns, tn, table, heap, lo, j),
    decreases k - j,
{
    if j < k {
        lemma_methods_error_stays(ns, tn, table, heap, lo, j, k - 1);
    }
}

/// The first error of phase 3 for a type whose methods are `[lo, hi)`.
pub open spec fn type_header_error(td: TypeDef, lo: int, hi: int, table: &MetadataTable, heap: Heap) -> Option<Error> {
    match type_prefix(td, heap) {
        Err(e) => Some(e),
        Ok((ns, tn)) => methods_error(ns, tn, table, heap, lo, hi),
    }
}

/// The export of method `md` of type `td`.
pub open spec fn header_entry(td: TypeDef, md: MethodDef, heap: Heap) -> (Seq<char>, SigView) {
    let p = type_prefix(td, heap)->Ok_0;
    method_step(p.0, p.1, md, heap)->Ok_0
}

/// The methods of the first `k` types, in phase 3 order, as (type, method
/// position) pairs.
pub open spec fn traversal(table: &MetadataTable, k: int) -> Seq<(int, int)>
    decreases k,
{
    if k <= 0 {
        Seq::empty()
    } else {
        let (lo, hi) = TypeDefIndex(k as u32).spec_method_range(table);
        traversal(table, k - 1).add(Seq::new((hi - lo) as nat, |j: int| (k - 1, lo + j)))
    }
}

pub(crate) proof fn lemma_traversal_mono(table: &MetadataTable, j: int, k: int)
    requires
        0 <= j <= k,
    ensures
        traversal(table, j).len() <= traversal(table, k).len(),
    decreases k - j,
{
    if j < k {
        lemma_traversal_mono(table, j, k - 1);
    }
}

/// The first error of phase 3 among the first `k` types.
pub open spec fn types_error(table: &MetadataTable, heap: Heap, k: int) -> Option<Error>
    decreases k,
{
    if k <= 0 {
        None
    } else {
        match types_error(table, heap, k - 1) {
            Some(e) => Some(e),
            None => {
                let (lo, hi) = TypeDefIndex(k as u32).spec_method_range(table);
                type_header_error(table.type_def@[k - 1], lo as int, hi as int, table, heap)
            },
        }
    }
}

pub(crate) proof fn lemma_types_error_stays(table: &MetadataTable, heap: Heap, j: int, k: int)
    requires
        0 <= j <= k,
        types_error(table, heap, j) is Some,
    ensures
        types_error(table, heap, k) == types_error(table, heap, j),
    decreases k - j,
{
    if j < k {
        lemma_types_error_stays(table, heap, j, k - 1);
    }
}

/// The export made for the `j`-th method of the phase 3 order.
pub open spec fn export_entry(table: &MetadataTable, heap: Heap, e: (int, int)) -> (Seq<char>, SigView) {
    header_entry(table.type_def@[e.0], table.method_def@[e.1], heap)
}

/// `b` extends `a` by at most `n` entries.
pub open spec fn grows<T>(a: Seq<T>, b: Seq<T>, n: int) -> bool {
    &&& a.len() <= b.len() <= a.len() + n
    &&& forall|j: int| 0 <= j < a.len() ==> #[trigger] b[j] == a[j]
}

/// The engine state: the seven sections and the four interning caches.
pub struct WasmContext {
    pub types: TypeSection,
    pub functions: FunctionSection,
    pub exports: ExportSection,
    pub imports: ImportSection,
    pub codes: CodeSection,
    pub data: DataSection,
    pub memory: MemorySection,
    pub signature_cache: Vec<(MethodDefSig, SignatureCacheData)>,
    pub string_cache: Vec<(UserStringIndex, StringCacheData)>,
    pub method_cache: Vec<(MethodDefIndex, MethodCacheData)>,
    pub member_ref_cache: Vec<(MemberRefIndex, MemberRefCacheData)>,
}

impl WasmContext {
    /// The k-th interned signature has type index k, and the type section
    /// holds its lowering.
    pub open spec fn signatures_wf(&self) -> bool {
        &&& self.signature_cache@.len() == types_of(self.types).len()
        &&& forall|k: int|
            0 <= k < self.signature_cache@.len() ==> {
                &&& (#[trigger] self.signature_cache@[k]).1.type_index == k
                &&& self.signature_cache@[k].1.param_types@ == types_of(self.types)[k].0
                &&& lower_sig(self.signature_cache@[k].0@) == Some(types_of(self.types)[k])
            }
    }

    /// The k-th imported member reference has function index k: imports
    /// occupy the indices below the import count.
    pub open spec fn imports_wf(&self) -> bool {
        &&& self.member_ref_cache@.len() == imports_of(self.imports).len()
        &&& forall|k: int|
            0 <= k < self.member_ref_cache@.len() ==> (#[trigger] self.member_ref_cache@[k]).1.fn_index
                == k
    }

    /// The k-th method in traversal order has function index
    /// `import_count + k`, is declared k-th and exported under that index.
    pub open spec fn methods_wf(&self) -> bool {
        &&& self.method_cache@.len() == functions_of(self.functions).len()
        &&& self.method_cache@.len() == exports_of(self.exports).len()
        &&& forall|k: int|
            0 <= k < self.method_cache@.len() ==> {
                &&& (#[trigger] self.method_cache@[k]).1.fn_index == imports_of(self.imports).len()
                    + k
                &&& exports_of(self.exports)[k].1 == self.method_cache@[k].1.fn_index
                &&& functions_of(self.functions)[k] < types_of(self.types).len()
            }
    }

    /// Some section is too full to take another entry.
    pub open spec fn full(&self) -> bool {
        ||| types_of(self.types).len() >= SECTION_LIMIT
        ||| imports_of(self.imports).len() >= SECTION_LIMIT
        ||| functions_of(self.functions).len() >= SECTION_LIMIT
        ||| codes_of(self.codes).len() >= SECTION_LIMIT
    }

    /// Each section can take `n` more entries.
    pub open spec fn room(&self, n: int) -> bool {
        &&& types_of(self.types).len() + n < SECTION_LIMIT
        &&& imports_of(self.imports).len() + n < SECTION_LIMIT
        &&& functions_of(self.functions).len() + n < SECTION_LIMIT
        &&& codes_of(self.codes).len() + n < SECTION_LIMIT
    }

    /// Only the type section and the signature cache may differ.
    pub open spec fn same_but_types(&self, o: &WasmContext) -> bool {
        &&& self.imports == o.imports
        &&& self.functions == o.functions
        &&& self.exports == o.exports
        &&& self.codes == o.codes
        &&& self.data == o.data
        &&& self.memory == o.memory
        &&& self.string_cache@ == o.string_cache@
        &&& self.method_cache@ == o.method_cache@
        &&& self.member_ref_cache@ == o.member_ref_cache@
    }

    pub open spec fn wf(&self) -> bool {
        &&& self.signatures_wf()
        &&& self.imports_wf()
        &&& self.methods_wf()
    }

    /// Each user string of `us` has a data segment holding exactly its bytes
    /// at the offset that the string cache records; offsets start at 0 and
    /// advance by each string's length.
    pub open spec fn strings_placed(&self, us: Seq<u8>) -> bool {
        &&& user_string_offsets(us) matches Ok(offs)
        &&& self.string_cache@.len() == offs.len()
        &&& data_of(self.data).len() == offs.len()
        &&& forall|k: int|
            0 <= k < offs.len() ==> {
                &&& (#[trigger] self.string_cache@[k]).0.0 == offs[k]
                &&& prefixed_at(us, offs[k]) matches Some(b)
                &&& self.string_cache@[k].1.str_len == b.len()
                &&& data_of(self.data)[k] == (0u32, self.string_cache@[k].1.data_index, b)
            }
        &&& offs.len() > 0 ==> self.string_cache@[0].1.data_index == 0
        &&& forall|k: int|
            0 <= k < offs.len() - 1 ==> (#[trigger] self.string_cache@[k + 1]).1.data_index
                == self.string_cache@[k].1.data_index + self.string_cache@[k].1.str_len
    }

    /// Declares one memory, then walks the user-string heap and places each
    /// string in an active data segment at increasing offsets.
    pub fn new(root: &MetadataRoot) -> (r: Result<WasmContext, Error>)
        ensures
            r matches Ok(ctx) ==> {
                &&& ctx.wf()
                &&& ctx.strings_placed(root.heap.user_strings@)
                &&& memories_of(ctx.memory) == seq![(1u64, None::<u64>)]
                &&& types_of(ctx.types).len() == 0
                &&& imports_of(ctx.imports).len() == 0
                &&& functions_of(ctx.functions).len() == 0
                &&& exports_of(ctx.exports).len() == 0
                &&& codes_of(ctx.codes).len() == 0
                &&& ctx.method_cache@.len() == 0
            },
            user_string_offsets(root.heap.user_strings@) matches Err(e) ==> r == Err::<
                WasmContext,
                Error,
            >(e),
            user_string_offsets(root.heap.user_strings@) matches Ok(offs) ==> {
                &&& (r is Ok <==> strings_fit(root.heap.user_strings@, offs))
                &&& (r is Err ==> r == Err::<WasmContext, Error>(Error::HeapDecodeError))
                &&& (r matches Ok(ctx) ==> ctx.string_cache@ == string_cache_spec(
                    root.heap.user_strings@,
                    offs,
                ))
            },
            r matches Ok(ctx) ==> {
                &&& ctx.signature_cache@.len() == 0
                &&& ctx.member_ref_cache@.len() == 0
            },
    {
        let heap = root.heap;
        let mut memory = memory_section_new();
        memory_section_add(&mut memory, 1, None);
        let offsets = heap.list_user_strings()?;
        let mut data = data_section_new();
        let mut string_cache: Vec<(UserStringIndex, StringCacheData)> = Vec::new();
        let mut offset: i32 = 0;
        let mut k: usize = 0;
        let ghost us = heap.user_strings@;
        proof {
            lemma_walk_entries(us, 1);
            assert(string_cache@ =~= string_cache_spec(us, offsets@).subrange(0, 0));
        }
        while k < offsets.len()
            invariant
                forall|j: int|
                    0 <= j < offsets@.len() ==> offsets@[j] >= 1 && (#[trigger] prefixed_at(
                        us,
                        offsets@[j],
                    )) is Some,
                offset == strings_total(us, offsets@, k as int),
                string_cache@ == string_cache_spec(us, offsets@).subrange(0, k as int),
                forall|j: int| 0 <= j < k ==> #[trigger] offsets@[j] <= u32::MAX,
                k <= SECTION_LIMIT,
                k <= offsets@.len(),
                us == heap.user_strings@,
                us == root.heap.user_strings@,
                user_string_offsets(us) == Ok::<Seq<usize>, Error>(offsets@),
                string_cache@.len() == k,
                data_of(data).len() == k,
                0 <= offset,
                forall|j: int|
                    0 <= j < k ==> {
                        &&& (#[trigger] string_cache@[j]).0.0 == offsets@[j]
                        &&& prefixed_at(us, offsets@[j]) matches Some(b)
                        &&& string_cache@[j].1.str_len == b.len()
                        &&& data_of(data)[j] == (0u32, string_cache@[j].1.data_index, b)
                    },
                k > 0 ==> string_cache@[0].1.data_index == 0,
                k > 0 ==> offset == string_cache@[k - 1].1.data_index + string_cache@[k
                    - 1].1.str_len,
                k == 0 ==> offset == 0,
                forall|j: int|
                    0 <= j < k - 1 ==> (#[trigger] string_cache@[j + 1]).1.data_index
                        == string_cache@[j].1.data_index + string_cache@[j].1.str_len,
            decreases offsets@.len() - k,
        {
            let index = offsets[k];
            if index > u32::MAX as usize || k >= SECTION_LIMIT as usize {
                proof {
                    if k < SECTION_LIMIT {
                        assert(!(offsets@[k as int] <= u32::MAX));
                    }
                }
                return Err(Error::HeapDecodeError);
            }
            let s = match heap.ref_user_string(index) {
                Some(s) => s,
                None => {
                    return Err(Error::HeapDecodeError);
                },
            };
            if s.len() > (i32::MAX - offset) as usize {
                proof {
                    lemma_strings_total_mono(us, offsets@, k + 1, offsets@.len() as int);
                }
                return Err(Error::HeapDecodeError);
            }
            let ghost before = string_cache@;
            string_cache.push(
                (UserStringIndex(index as u32), StringCacheData { data_index: offset, str_len: s.len() as u32 }),
            );
            data_section_add(&mut data, 0, offset, s);
            offset = offset + s.len() as i32;
            k = k + 1;
            assert(string_cache@ =~= string_cache_spec(us, offsets@).subrange(0, k as int));
        }
        assert(string_cache@ =~= string_cache_spec(us, offsets@));
        Ok(WasmContext {
            types: type_section_new(),
            functions: function_section_new(),
            exports: export_section_new(),
            imports: import_section_new(),
            codes: code_section_new(),
            data,
            memory,
            signature_cache: Vec::new(),
            string_cache,
            method_cache: Vec::new(),
            member_ref_cache: Vec::new(),
        })
    }

    /// The next function index: imports take the indices before all defined
    /// functions.
    fn compute_fn_index(&self, is_import: bool) -> (r: u32)
        requires
            imports_of(self.imports).len() < SECTION_LIMIT,
            functions_of(self.functions).len() < SECTION_LIMIT,
        ensures
            r == (if is_import {
                imports_of(self.imports).len()
            } else {
                imports_of(self.imports).len() + functions_of(self.functions).len()
            }),
    {
        if is_import {
            import_section_len(&self.imports)
        } else {
            import_section_len(&self.imports) + function_section_len(&self.functions)
        }
    }

    /// Assembles the module: types, imports, functions, memory, exports,
    /// code, data.
    pub fn finish(&self) -> (r: Vec<u8>)
        ensures
            r@ == module_bytes(
                types_of(self.types),
                imports_of(self.imports),
                functions_of(self.functions),
                memories_of(self.memory),
                exports_of(self.exports),
                codes_of(self.codes),
                data_of(self.data),
            ),
    {
        encode_module(
            &self.types,
            &self.imports,
            &self.functions,
            &self.memory,
            &self.exports,
            &self.codes,
            &self.data,
        )
    }
}

fn copy_vals(v: &Vec<ValTy>) -> (r: Vec<ValTy>)
    ensures
        r@ == v@,
{
    let mut r: Vec<ValTy> = Vec::new();
    let mut i: usize = 0;
    while i < v.len()
        invariant
            i <= v@.len(),
            r@ == v@.subrange(0, i as int),
        decreases v@.len() - i,
    {
        r.push(v[i]);
        i = i + 1;
        assert(r@ =~= v@.subrange(0, i as int));
    }
    assert(v@.subrange(0, i as int) =~= v@);
    r
}

fn append_bytes(out: &mut Vec<u8>, s: &[u8])
    ensures
        final(out)@ == old(out)@.add(s@),
{
    let mut i: usize = 0;
    while i < s.len()
        invariant
            i <= s@.len(),
            out@ == old(out)@.add(s@.subrange(0, i as int)),
        decreases s@.len() - i,
    {
        out.push(s[i]);
        i = i + 1;
        assert(out@ =~= old(out)@.add(s@.subrange(0, i as int)));
    }
    assert(s@.subrange(0, i as int) =~= s@);
}

pub(crate) fn required<'a>(r: Result<Option<&'a [u8]>, Error>) -> (o: Result<&'a [u8], Error>)
    ensures
        match r {
            Ok(Some(v)) => o matches Ok(w) && w@ == v@,
            Ok(None) => o == Err::<&[u8], Error>(Error::BadInput),
            Err(e) => o == Err::<&[u8], Error>(e),
        },
{
    match r {
        Ok(Some(v)) => Ok(v),
        Ok(None) => Err(Error::BadInput),
        Err(e) => Err(e),
    }
}

/// Decodes the method signature held by a blob.
pub(crate) fn method_sig(heap: Heap, b: BlobIndex) -> (r: Result<MethodDefSig, Error>)
    ensures
        match blob_sig(heap, b) {
            Ok(v) => r matches Ok(s) && s@ == v,
            Err(e) => r == Err::<MethodDefSig, Error>(e),
        },
{
    let bytes = required(b.resolve(heap))?;
    let (sig, _) = MethodDefSig::parse(bytes, 0)?;
    Ok(sig)
}

pub(crate) fn string_exec<'a>(heap: Heap<'a>, i: StringIndex) -> (r: Result<Option<&'a [u8]>, Error>)
    ensures
        match string_part(heap, i) {
            Ok(Some(v)) => r matches Ok(Some(w)) && w@ == v,
            Ok(None) => r matches Ok(None),
            Err(e) => r == Err::<Option<&[u8]>, Error>(e),
        },
{
    i.resolve(heap)
}

impl WasmContext {
    /// The import or export name of a member: `[namespace]type::member`.
    pub fn get_method_full_name(type_namespace: Option<&[u8]>, ty_name: &[u8], method_name: &[u8]) -> (r: Vec<u8>)
        ensures
            r@ == full_name(
                match type_namespace {
                    Some(n) => Some(n@),
                    None => None,
                },
                ty_name@,
                method_name@,
            ),
    {
        let mut out: Vec<u8> = Vec::new();
        match type_namespace {
            Some(n) => {
                out.push(0x5B);
                append_bytes(&mut out, n);
                out.push(0x5D);
            },
            None => {},
        }
        append_bytes(&mut out, ty_name);
        out.push(0x3A);
        out.push(0x3A);
        append_bytes(&mut out, method_name);
        proof {
            let tail = ty_name@.add(seq![0x3Au8, 0x3A]).add(method_name@);
            match type_namespace {
                Some(n) => {
                    assert(out@ =~= seq![0x5Bu8].add(n@).add(seq![0x5Du8]).add(tail));
                },
                None => {
                    assert(out@ =~= tail);
                },
            }
        }
        out
    }

    /// Interns a signature: its Wasm function type is added to the type
    /// section the first time a signature of its value is seen.
    pub(crate) fn wasm_method_sig(&mut self, signature: MethodDefSig) -> (r: Result<(u32, Vec<ValTy>), Error>)
        requires
            old(self).wf(),
        ensures
            final(self).wf(),
            final(self).same_but_types(old(self)),
            types_of(final(self).types) == types_of(old(self).types) || (lower_sig(signature@) is Some
                && types_of(final(self).types) == types_of(old(self).types).push(
                lower_sig(signature@)->0,
            )),
            match lower_sig(signature@) {
                None => r == Err::<(u32, Vec<ValTy>), Error>(Error::UnsupportedSignature)
                    && types_of(final(self).types) == types_of(old(self).types),
                Some(ft) => match r {
                    Ok((ti, p)) => ti < types_of(final(self).types).len() && types_of(
                        final(self).types,
                    )[ti as int] == ft && p@ == ft.0,
                    Err(e) => e == Error::BadInput && old(self).full(),
                },
            },
            match cached_sig(old(self).signature_cache@, signature@, 0) {
                Some(k) => {
                    &&& r matches Ok((ti, p)) && ti == k && p@ == old(
                        self,
                    ).signature_cache@[k].1.param_types@
                    &&& final(self).types == old(self).types
                    &&& final(self).signature_cache@ == old(self).signature_cache@
                },
                None => match lower_sig(signature@) {
                    None => final(self).signature_cache@ == old(self).signature_cache@,
                    Some(ft) => if types_of(old(self).types).len() >= SECTION_LIMIT {
                        &&& r == Err::<(u32, Vec<ValTy>), Error>(Error::BadInput)
                        &&& final(self).types == old(self).types
                        &&& final(self).signature_cache@ == old(self).signature_cache@
                    } else {
                        &&& r matches Ok((ti, p)) && ti == types_of(old(self).types).len()
                        &&& types_of(final(self).types) == types_of(old(self).types).push(ft)
                        &&& final(self).signature_cache@.len() == old(self).signature_cache@.len()
                            + 1
                        &&& final(self).signature_cache@.drop_last() == old(
                            self,
                        ).signature_cache@
                        &&& final(self).signature_cache@.last().0@ == signature@
                    },
                },
            },
    {
        let mut k: usize = 0;
        while k < self.signature_cache.len()
            invariant
                k <= self.signature_cache@.len(),
                self == old(self),
                self.wf(),
                cached_sig(self.signature_cache@, signature@, 0) == cached_sig(
                    self.signature_cache@,
                    signature@,
                    k as int,
                ),
            decreases self.signature_cache@.len() - k,
        {
            if self.signature_cache[k].0.same(&signature) {
                let type_index = self.signature_cache[k].1.type_index;
                let params = copy_vals(&self.signature_cache[k].1.param_types);
                return Ok((type_index, params));
            }
            k = k + 1;
        }
        let (params, results) = lower_signature(&signature)?;
        let type_index = type_section_len(&self.types);
        if type_index >= SECTION_LIMIT {
            return Err(Error::BadInput);
        }
        type_section_add(&mut self.types, &params, &results);
        let copy = copy_vals(&params);
        let ghost before = self.signature_cache@;
        self.signature_cache.push((signature, SignatureCacheData { type_index, param_types: params }));
        assert(self.signature_cache@.drop_last() =~= before);
        assert(forall|j: int| 0 <= j < before.len() ==> #[trigger] self.signature_cache@[j] == before[j]);
        assert(self.signatures_wf());
        Ok((type_index, copy))
    }

    /// Phase 2 for one member reference: imports it from `env` under its
    /// full name with its interned type, at the next import index.
    pub fn emit_wasm_member_ref(
        &mut self,
        member_ref_index: MemberRefIndex,
        member_ref: &MemberRef,
        table: &MetadataTable,
        heap: Heap,
    ) -> (r: Result<(), Error>)
        requires
            old(self).wf(),
            old(self).method_cache@.len() == 0,
        ensures
            final(self).wf(),
            final(self).method_cache@.len() == 0,
            final(self).string_cache@ == old(self).string_cache@,
            final(self).data == old(self).data,
            final(self).memory == old(self).memory,
            final(self).codes == old(self).codes,
            final(self).functions == old(self).functions,
            final(self).exports == old(self).exports,
            r is Err ==> final(self).member_ref_cache@ == old(self).member_ref_cache@
                && final(self).imports == old(self).imports,
            grows(types_of(old(self).types), types_of(final(self).types), 1),
            match member_ref_import(*member_ref, table, heap) {
                Err(e) => r == Err::<(), Error>(e),
                Ok((sv, name)) => match utf8_decode(name) {
                    None => r == Err::<(), Error>(Error::BadInput),
                    Some(chars) => match lower_sig(sv) {
                        None => r == Err::<(), Error>(Error::UnsupportedSignature) || (r == Err::<
                            (),
                            Error,
                        >(Error::BadInput) && old(self).full()),
                        Some(ft) => match r {
                            Ok(_) => {
                                &&& imports_of(final(self).imports).len() == imports_of(
                                    old(self).imports,
                                ).len() + 1
                                &&& imports_of(final(self).imports) == imports_of(
                                    old(self).imports,
                                ).push(
                                    ("env"@, chars, imports_of(final(self).imports).last().2),
                                )
                                &&& types_of(final(self).types)[imports_of(
                                    final(self).imports,
                                ).last().2 as int] == ft
                                &&& imports_of(final(self).imports).last().2 < types_of(
                                    final(self).types,
                                ).len()
                                &&& final(self).member_ref_cache@ == old(
                                    self,
                                ).member_ref_cache@.push(
                                    (
                                        member_ref_index,
                                        MemberRefCacheData {
                                            fn_index: imports_of(old(self).imports).len() as u32,
                                        },
                                    ),
                                )
                            },
                            Err(e) => e == Error::BadInput && old(self).full(),
                        },
                    },
                },
            },
    {
        let t = match member_ref.class {
            MemberRefParent::TypeRefIndex(t) => t,
            _ => {
                return Err(Error::UnsupportedMemberRefParent);
            },
        };
        let ty_ref = match t.resolve_table(table) {
            Some(x) => x,
            None => {
                return Err(Error::BadIndex);
            },
        };
        let sig = method_sig(heap, member_ref.signature)?;
        let member_name = required(member_ref.name.resolve(heap))?;
        let namespace = string_exec(heap, ty_ref.namespace)?;
        let ty_name = required(ty_ref.name.resolve(heap))?;
        let full = Self::get_method_full_name(namespace, ty_name, member_name);
        let name = match utf8_str(full.as_slice()) {
            Some(s) => s,
            None => {
                return Err(Error::BadInput);
            },
        };
        if import_section_len(&self.imports) >= SECTION_LIMIT {
            return Err(Error::BadInput);
        }
        let (type_index, _) = self.wasm_method_sig(sig)?;
        let fn_index = self.compute_fn_index(true);
        import_section_add(&mut self.imports, "env", name, type_index);
        self.member_ref_cache.push((member_ref_index, MemberRefCacheData { fn_index }));
        Ok(())
    }

    /// Phase 3 for one method: declares a function of its interned type at
    /// the next function index and exports it under `name`.
    pub(crate) fn emit_wasm_function_header(&mut self, name: &str, index: MethodDefIndex, signature: MethodDefSig) -> (r: Result<(), Error>)
        requires
            old(self).wf(),
        ensures
            final(self).wf(),
            final(self).imports == old(self).imports,
            final(self).member_ref_cache@ == old(self).member_ref_cache@,
            final(self).string_cache@ == old(self).string_cache@,
            final(self).data == old(self).data,
            final(self).memory == old(self).memory,
            final(self).codes == old(self).codes,
            r is Err ==> final(self).method_cache@ == old(self).method_cache@,
            r is Err ==> final(self).exports == old(self).exports && final(self).functions == old(
                self,
            ).functions,
            grows(types_of(old(self).types), types_of(final(self).types), 1),
            match lower_sig(signature@) {
                None => r == Err::<(), Error>(Error::UnsupportedSignature) || (r == Err::<(), Error>(
                    Error::BadInput,
                ) && old(self).full()),
                Some(ft) => match r {
                    Ok(_) => {
                        &&& final(self).method_cache@ == old(self).method_cache@.push(
                            (
                                index,
                                MethodCacheData {
                                    fn_index: (imports_of(old(self).imports).len() + functions_of(
                                        old(self).functions,
                                    ).len()) as u32,
                                },
                            ),
                        )
                        &&& exports_of(final(self).exports) == exports_of(old(self).exports).push(
                            (
                                name@,
                                (imports_of(old(self).imports).len() + functions_of(
                                    old(self).functions,
                                ).len()) as u32,
                            ),
                        )
                        &&& functions_of(final(self).functions) == functions_of(
                            old(self).functions,
                        ).push(functions_of(final(self).functions).last())
                        &&& functions_of(final(self).functions).last() < types_of(
                            final(self).types,
                        ).len()
                        &&& types_of(final(self).types)[functions_of(
                            final(self).functions,
                        ).last() as int] == ft
                    },
                    Err(e) => e == Error::BadInput && old(self).full(),
                },
            },
    {
        if function_section_len(&self.functions) >= SECTION_LIMIT || import_section_len(
            &self.imports,
        ) >= SECTION_LIMIT {
            return Err(Error::BadInput);
        }
        let (type_index, _) = self.wasm_method_sig(signature)?;
        let fn_index = self.compute_fn_index(false);
        self.method_cache.push((index, MethodCacheData { fn_index }));
        function_section_add(&mut self.functions, type_index);
        export_section_add(&mut self.exports, name, fn_index);
        Ok(())
    }

    /// Phase 4 for one method: lowers its body and appends it to the code
    /// section, with one local of each parameter type.
    pub fn emit_wasm_function_body(&mut self, body: &MethodBody, locals: &Vec<ValTy>) -> (r: Result<(), Error>)
        requires
            old(self).wf(),
        ensures
            final(self).wf(),
            final(self).same_but_codes(old(self)),
            match lower_function(
                body.instructions@,
                old(self).string_cache@,
                old(self).method_cache@,
                old(self).member_ref_cache@,
            ) {
                Ok(v) => (r is Ok && codes_of(final(self).codes) == codes_of(old(self).codes).push(
                    (locals@, v),
                )) || (r == Err::<(), Error>(Error::BadInput) && old(self).full()),
                Err(e) => r == Err::<(), Error>(e) && final(self).codes == old(self).codes,
            },
    {
        let instrs = convert_wasm_function(
            &body.instructions,
            &self.string_cache,
            &self.method_cache,
            &self.member_ref_cache,
        )?;
        if code_section_len(&self.codes) >= SECTION_LIMIT {
            return Err(Error::BadInput);
        }
        let mut f = function_new(locals);
        let mut i: usize = 0;
        while i < instrs.len()
            invariant
                i <= instrs@.len(),
                function_of(f) == (locals@, instrs@.subrange(0, i as int)),
            decreases instrs@.len() - i,
        {
            function_add(&mut f, instrs[i]);
            i = i + 1;
            assert(function_of(f).1 =~= instrs@.subrange(0, i as int));
        }
        assert(instrs@.subrange(0, i as int) =~= instrs@);
        code_section_add(&mut self.codes, &f);
        Ok(())
    }

    /// Only the type and code sections and the signature cache may differ.
    pub open spec fn same_but_types_codes(&self, o: &WasmContext) -> bool {
        &&& self.imports == o.imports
        &&& self.functions == o.functions
        &&& self.exports == o.exports
        &&& self.data == o.data
        &&& self.memory == o.memory
        &&& self.string_cache@ == o.string_cache@
        &&& self.method_cache@ == o.method_cache@
        &&& self.member_ref_cache@ == o.member_ref_cache@
    }

    /// Only the code section may differ.
    pub open spec fn same_but_codes(&self, o: &WasmContext) -> bool {
        &&& self.types == o.types
        &&& self.imports == o.imports
        &&& self.functions == o.functions
        &&& self.exports == o.exports
        &&& self.data == o.data
        &&& self.memory == o.memory
        &&& self.signature_cache@ == o.signature_cache@
        &&& self.string_cache@ == o.string_cache@
        &&& self.method_cache@ == o.method_cache@
        &&& self.member_ref_cache@ == o.member_ref_cache@
    }
}

} // verus!
