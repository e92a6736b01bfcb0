//! The rows of the 38 metadata tables and the decoder of the `#~` table
//! stream that holds them.
use vstd::prelude::*;
use crate::bytes::{le16, le32, le64, read_u16, read_u32, read_u64};
use crate::error::Error;
use crate::heap::{BlobIndex, GuidIndex, Heap, StringIndex};
use crate::indices::{AssemblyRefIndex, CustomAttributeType, EventIndex, FieldIndex, GenericParamIndex, HasConstant, HasCustomAttribute, HasDeclSecurity, HasFieldMarshal, HasSemantics, Implementation, MemberForwarded, MemberRefParent, MethodDefIndex, MethodDefOrRef, ModuleRefIndex, ParamIndex, PropertyIndex, ResolutionScope, TABLE_TAGS, TypeDefIndex, TypeDefOrRef, TypeOrMethodDef};

verus! {

/// A set of `AssemblyFlags` bits as stored in the table.
#[derive(Debug, Clone, Copy, PartialEq, Eq, Structural)]
pub struct AssemblyFlags(pub u32);

impl AssemblyFlags {
    pub fn bits(self) -> (r: u32)
        ensures
            r == self.0,
    {
        self.0
    }

    /// Whether every bit of `other` is set.
    pub fn contains(self, other: AssemblyFlags) -> (r: bool)
        ensures
            r == (self.0 & other.0 == other.0),
    {
        self.0 & other.0 == other.0
    }
}

/// A set of `EventAttributes` bits as stored in the table.
#[derive(Debug, Clone, Copy, PartialEq, Eq, Structural)]
pub struct EventAttributes(pub u16);

impl EventAttributes {
    pub fn bits(self) -> (r: u16)
        ensures
            r == self.0,
    {
        self.0
    }

    /// Whether every bit of `other` is set.
    pub fn contains(self, other: EventAttributes) -> (r: bool)
        ensures
            r == (self.0 & other.0 == other.0),
    {
        self.0 & other.0 == other.0
    }
}

/// A set of `FieldAttributes` bits as stored in the table.
#[derive(Debug, Clone, Copy, PartialEq, Eq, Structural)]
pub struct FieldAttributes(pub u16);

impl FieldAttributes {
    pub fn bits(self) -> (r: u16)
        ensures
            r == self.0,
    {
        self.0
    }

    /// Whether every bit of `other` is set.
    pub fn contains(self, other: FieldAttributes) -> (r: bool)
        ensures
            r == (self.0 & other.0 == other.0),
    {
        self.0 & other.0 == other.0
    }
}

/// A set of `FileAttributes` bits as stored in the table.
#[derive(Debug, Clone, Copy, PartialEq, Eq, Structural)]
pub struct FileAttributes(pub u32);

impl FileAttributes {
    pub fn bits(self) -> (r: u32)
        ensures
            r == self.0,
    {
        self.0
    }

    /// Whether every bit of `other` is set.
    pub fn contains(self, other: FileAttributes) -> (r: bool)
        ensures
            r == (self.0 & other.0 == other.0),
    {
        self.0 & other.0 == other.0
    }
}

/// A set of `GenericParamAttributes` bits as stored in the table.
#[derive(Debug, Clone, Copy, PartialEq, Eq, Structural)]
pub struct GenericParamAttributes(pub u16);

impl GenericParamAttributes {
    pub fn bits(self) -> (r: u16)
        ensures
            r == self.0,
    {
        self.0
    }

    /// Whether every bit of `other` is set.
    pub fn contains(self, other: GenericParamAttributes) -> (r: bool)
        ensures
            r == (self.0 & other.0 == other.0),
    {
        self.0 & other.0 == other.0
    }
}

/// A set of `ManifestResourceAttributes` bits as stored in the table.
#[derive(Debug, Clone, Copy, PartialEq, Eq, Structural)]
pub struct ManifestResourceAttributes(pub u32);

impl ManifestResourceAttributes {
    pub fn bits(self) -> (r: u32)
        ensures
            r == self.0,
    {
        self.0
    }

    /// Whether every bit of `other` is set.
    pub fn contains(self, other: ManifestResourceAttributes) -> (r: bool)
        ensures
            r == (self.0 & other.0 == other.0),
    {
        self.0 & other.0 == other.0
    }
}

/// A set of `MethodAttributes` bits as stored in the table.
#[derive(Debug, Clone, Copy, PartialEq, Eq, Structural)]
pub struct MethodAttributes(pub u16);

impl MethodAttributes {
    pub fn bits(self) -> (r: u16)
        ensures
            r == self.0,
    {
        self.0
    }

    /// Whether every bit of `other` is set.
    pub fn contains(self, other: MethodAttributes) -> (r: bool)
        ensures
            r == (self.0 & other.0 == other.0),
    {
        self.0 & other.0 == other.0
    }
}

/// A set of `MethodImplAttributes` bits as stored in the table.
#[derive(Debug, Clone, Copy, PartialEq, Eq, Structural)]
pub struct MethodImplAttributes(pub u16);

impl MethodImplAttributes {
    pub fn bits(self) -> (r: u16)
        ensures
            r == self.0,
    {
        self.0
    }

    /// Whether every bit of `other` is set.
    pub fn contains(self, other: MethodImplAttributes) -> (r: bool)
        ensures
            r == (self.0 & other.0 == other.0),
    {
        self.0 & other.0 == other.0
    }
}

/// A set of `MethodSemanticsAttributes` bits as stored in the table.
#[derive(Debug, Clone, Copy, PartialEq, Eq, Structural)]
pub struct MethodSemanticsAttributes(pub u16);

impl MethodSemanticsAttributes {
    pub fn bits(self) -> (r: u16)
        ensures
            r == self.0,
    {
        self.0
    }

    /// Whether every bit of `other` is set.
    pub fn contains(self, other: MethodSemanticsAttributes) -> (r: bool)
        ensures
            r == (self.0 & other.0 == other.0),
    {
        self.0 & other.0 == other.0
    }
}

/// A set of `ParamAttributes` bits as stored in the table.
#[derive(Debug, Clone, Copy, PartialEq, Eq, Structural)]
pub struct ParamAttributes(pub u16);

impl ParamAttributes {
    pub fn bits(self) -> (r: u16)
        ensures
            r == self.0,
    {
        self.0
    }

    /// Whether every bit of `other` is set.
    pub fn contains(self, other: ParamAttributes) -> (r: bool)
        ensures
            r == (self.0 & other.0 == other.0),
    {
        self.0 & other.0 == other.0
    }
}

/// A set of `PropertyAttributes` bits as stored in the table.
#[derive(Debug, Clone, Copy, PartialEq, Eq, Structural)]
pub struct PropertyAttributes(pub u16);

impl PropertyAttributes {
    pub fn bits(self) -> (r: u16)
        ensures
            r == self.0,
    {
        self.0
    }

    /// Whether every bit of `other` is set.
    pub fn contains(self, other: PropertyAttributes) -> (r: bool)
        ensures
            r == (self.0 & other.0 == other.0),
    {
        self.0 & other.0 == other.0
    }
}

/// A set of `TypeAttributes` bits as stored in the table.
#[derive(Debug, Clone, Copy, PartialEq, Eq, Structural)]
pub struct TypeAttributes(pub u32);

impl TypeAttributes {
    pub fn bits(self) -> (r: u32)
        ensures
            r == self.0,
    {
        self.0
    }

    /// Whether every bit of `other` is set.
    pub fn contains(self, other: TypeAttributes) -> (r: bool)
        ensures
            r == (self.0 & other.0 == other.0),
    {
        self.0 & other.0 == other.0
    }
}

/// The hash algorithm of an `Assembly` row.
#[derive(Debug, Clone, Copy, PartialEq, Eq, Structural)]
pub enum AssemblyHashAlgorithm {
    NoHash,
    MD5,
    SHA1,
    SHA256,
    SHA384,
    SHA512,
}

impl AssemblyHashAlgorithm {
    pub open spec fn spec_from_n(n: u32) -> Option<AssemblyHashAlgorithm> {
        if n == 0 {
            Some(AssemblyHashAlgorithm::NoHash)
        } else if n == 0x8003 {
            Some(AssemblyHashAlgorithm::MD5)
        } else if n == 0x8004 {
            Some(AssemblyHashAlgorithm::SHA1)
        } else if n == 0x800C {
            Some(AssemblyHashAlgorithm::SHA256)
        } else if n == 0x800D {
            Some(AssemblyHashAlgorithm::SHA384)
        } else if n == 0x800E {
            Some(AssemblyHashAlgorithm::SHA512)
        } else {
            None
        }
    }

    pub fn from_n(n: u32) -> (r: Option<AssemblyHashAlgorithm>)
        ensures
            r == Self::spec_from_n(n),
    {
        if n == 0 {
            Some(AssemblyHashAlgorithm::NoHash)
        } else if n == 0x8003 {
            Some(AssemblyHashAlgorithm::MD5)
        } else if n == 0x8004 {
            Some(AssemblyHashAlgorithm::SHA1)
        } else if n == 0x800C {
            Some(AssemblyHashAlgorithm::SHA256)
        } else if n == 0x800D {
            Some(AssemblyHashAlgorithm::SHA384)
        } else if n == 0x800E {
            Some(AssemblyHashAlgorithm::SHA512)
        } else {
            None
        }
    }
}

/// A four-part assembly version.
#[derive(Debug, Clone, Copy, PartialEq, Eq, Structural)]
pub struct AssemblyVersion {
    pub major_version: u16,
    pub minor_version: u16,
    pub build_number: u16,
    pub revision_number: u16,
}

impl AssemblyVersion {
    pub open spec fn at(s: Seq<u8>, p: int) -> AssemblyVersion {
        AssemblyVersion {
            major_version: le16(s, p) as u16,
            minor_version: le16(s, p + 2) as u16,
            build_number: le16(s, p + 4) as u16,
            revision_number: le16(s, p + 6) as u16,
        }
    }

    pub fn parse(s: &[u8], p: usize) -> (r: AssemblyVersion)
        requires
            p + 8 <= s@.len(),
        ensures
            r == Self::at(s@, p as int),
    {
        let n = s.len();
        assert(p + 8 <= n);
        AssemblyVersion {
            major_version: u16_at(s, p),
            minor_version: u16_at(s, p + 2),
            build_number: u16_at(s, p + 4),
            revision_number: u16_at(s, p + 6),
        }
    }
}

fn u16_at(s: &[u8], p: usize) -> (r: u16)
    requires
        p + 2 <= s@.len(),
    ensures
        r == le16(s@, p as int),
{
    read_u16(s, p).unwrap()
}

fn u32_at(s: &[u8], p: usize) -> (r: u32)
    requires
        p + 4 <= s@.len(),
    ensures
        r == le32(s@, p as int),
{
    read_u32(s, p).unwrap()
}

/// The sizes of the four heaps, against which heap indices are checked.
#[derive(Debug, Clone, Copy)]
pub struct HeapSizes {
    pub strings: usize,
    pub user_strings: usize,
    pub blob: usize,
    pub guid: usize,
}

impl HeapSizes {
    pub fn of(h: Heap) -> (r: HeapSizes)
        ensures
            r.strings == h.strings@.len(),
            r.user_strings == h.user_strings@.len(),
            r.blob == h.blob@.len(),
            r.guid == h.guid@.len(),
    {
        HeapSizes {
            strings: h.strings.len(),
            user_strings: h.user_strings.len(),
            blob: h.blob.len(),
            guid: h.guid.len(),
        }
    }
}

/// A row of the `Module` table (0x00).
#[derive(Debug, Clone, Copy, PartialEq, Eq, Structural)]
pub struct Module {
    pub generation: u16,
    pub name: StringIndex,
    pub mvid: GuidIndex,
    pub enc_id: GuidIndex,
    pub enc_base_id: GuidIndex,
}

impl Module {
    /// The width of one row in bytes.
    pub open spec fn width() -> nat {
        10
    }

    /// The row read at `p`; meaningful where `valid_at` holds.
    pub open spec fn at(s: Seq<u8>, p: int) -> Module {
        Module {
            generation: le16(s, p) as u16,
            name: StringIndex(le16(s, p + 2) as u32),
            mvid: GuidIndex(le16(s, p + 4) as u32),
            enc_id: GuidIndex(le16(s, p + 6) as u32),
            enc_base_id: GuidIndex(le16(s, p + 8) as u32),
        }
    }

    /// Every coded index and enumerated field of the row at `p` is valid.
    pub open spec fn valid_at(s: Seq<u8>, p: int) -> bool {
        true
    }

    pub fn parse(s: &[u8], p: usize) -> (r: Option<Module>)
        requires
            p + 10 <= s@.len(),
        ensures
            r is Some <==> Self::valid_at(s@, p as int),
            r is Some ==> r->0 == Self::at(s@, p as int),
    {
        let n = s.len();
        assert(p + 10 <= n);
        Some(Module { generation: u16_at(s, p), name: StringIndex(u16_at(s, p + 2) as u32), mvid: GuidIndex(u16_at(s, p + 4) as u32), enc_id: GuidIndex(u16_at(s, p + 6) as u32), enc_base_id: GuidIndex(u16_at(s, p + 8) as u32) })
    }

    /// Reads `count` consecutive rows from `start`.
    pub fn parse_rows(s: &[u8], start: usize, count: u32) -> (r: Option<Vec<Module>>)
        requires
            start + count * 10 <= s@.len(),
        ensures
            r is Some <==> forall|i: int| 0 <= i < count ==> #[trigger] Self::valid_at(s@, start + i * 10),
            r matches Some(v) ==> v@.len() == count && forall|i: int|
                0 <= i < count ==> #[trigger] v@[i] == Self::at(s@, start + i * 10),
    {
        let n = s.len();
        let mut v: Vec<Module> = Vec::new();
        let mut i: u32 = 0;
        while i < count
            invariant
                i <= count,
                s@.len() == n,
                start + count * 10 <= s@.len(),
                v@.len() == i,
                forall|k: int| 0 <= k < i ==> #[trigger] Self::valid_at(s@, start + k * 10),
                forall|k: int| 0 <= k < i ==> #[trigger] v@[k] == Self::at(s@, start + k * 10),
            decreases count - i,
        {
            assert(i * 10 + 10 <= count * 10) by (nonlinear_arith)
                requires
                    i < count,
            ;
            match Self::parse(s, start + i as usize * 10) {
                Some(row) => {
                    v.push(row);
                },
                None => {
                    return None;
                },
            }
            i = i + 1;
        }
        Some(v)
    }

    /// Every table index of the row is null or names an existing row; a
    /// list start may also be one past the last row.
    pub open spec fn table_refs_ok(self, counts: Seq<u32>) -> bool {
        true
    }

    /// Every heap index of the row is null or inside its heap; a GUID index
    /// needs its 16 bytes inside.
    pub open spec fn heap_refs_ok(self, h: HeapSizes) -> bool {
        (self.name.0 == 0 || self.name.0 < h.strings) && (self.mvid.0 == 0 || self.mvid.0 + 16 <= h.guid) && (self.enc_id.0 == 0 || self.enc_id.0 + 16 <= h.guid) && (self.enc_base_id.0 == 0 || self.enc_base_id.0 + 16 <= h.guid)
    }

    pub fn rows_table_refs_ok(rows: &Vec<Module>, counts: &[u32]) -> (r: bool)
        requires
            counts@.len() == TABLE_TAGS,
        ensures
            r == forall|i: int| 0 <= i < rows@.len() ==> #[trigger] rows@[i].table_refs_ok(counts@),
    {
        true
    }

    pub fn rows_heap_refs_ok(rows: &Vec<Module>, h: HeapSizes) -> (r: bool)
        ensures
            r == forall|i: int| 0 <= i < rows@.len() ==> #[trigger] rows@[i].heap_refs_ok(h),
    {
        let mut i: usize = 0;
        while i < rows.len()
            invariant
                i <= rows@.len(),
                forall|k: int| 0 <= k < i ==> #[trigger] rows@[k].heap_refs_ok(h),
            decreases rows@.len() - i,
        {
            let row = rows[i];
            if !((row.name.0 == 0 || (row.name.0 as usize) < h.strings) && (row.mvid.0 == 0 || (h.guid >= 16 && (row.mvid.0 as usize) <= h.guid - 16)) && (row.enc_id.0 == 0 || (h.guid >= 16 && (row.enc_id.0 as usize) <= h.guid - 16)) && (row.enc_base_id.0 == 0 || (h.guid >= 16 && (row.enc_base_id.0 as usize) <= h.guid - 16))) {
                assert(!rows@[i as int].heap_refs_ok(h));
                return false;
            }
            i = i + 1;
        }
        true
    }
}

/// A row of the `TypeRef` table (0x01).
#[derive(Debug, Clone, Copy, PartialEq, Eq, Structural)]
pub struct TypeRef {
    pub resolution_scope: ResolutionScope,
    pub name: StringIndex,
    pub namespace: StringIndex,
}

impl TypeRef {
    /// The width of one row in bytes.
    pub open spec fn width() -> nat {
        6
    }

    /// The row read at `p`; meaningful where `valid_at` holds.
    pub open spec fn at(s: Seq<u8>, p: int) -> TypeRef {
        TypeRef {
            resolution_scope: ResolutionScope::spec_decode(le16(s, p) as u16)->0,
            name: StringIndex(le16(s, p + 2) as u32),
            namespace: StringIndex(le16(s, p + 4) as u32),
        }
    }

    /// Every coded index and enumerated field of the row at `p` is valid.
    pub open spec fn valid_at(s: Seq<u8>, p: int) -> bool {
        ResolutionScope::spec_decode(le16(s, p) as u16) is Some
    }

    pub fn parse(s: &[u8], p: usize) -> (r: Option<TypeRef>)
        requires
            p + 6 <= s@.len(),
        ensures
            r is Some <==> Self::valid_at(s@, p as int),
            r is Some ==> r->0 == Self::at(s@, p as int),
    {
        let n = s.len();
        assert(p + 6 <= n);
        let resolution_scope = match ResolutionScope::decode(u16_at(s, p)) {
            Some(v) => v,
            None => return None,
        };
        Some(TypeRef { resolution_scope, name: StringIndex(u16_at(s, p + 2) as u32), namespace: StringIndex(u16_at(s, p + 4) as u32) })
    }

    /// Reads `count` consecutive rows from `start`.
    pub fn parse_rows(s: &[u8], start: usize, count: u32) -> (r: Option<Vec<TypeRef>>)
        requires
            start + count * 6 <= s@.len(),
        ensures
            r is Some <==> forall|i: int| 0 <= i < count ==> #[trigger] Self::valid_at(s@, start + i * 6),
            r matches Some(v) ==> v@.len() == count && forall|i: int|
                0 <= i < count ==> #[trigger] v@[i] == Self::at(s@, start + i * 6),
    {
        let n = s.len();
        let mut v: Vec<TypeRef> = Vec::new();
        let mut i: u32 = 0;
        while i < count
            invariant
                i <= count,
                s@.len() == n,
                start + count * 6 <= s@.len(),
                v@.len() == i,
                forall|k: int| 0 <= k < i ==> #[trigger] Self::valid_at(s@, start + k * 6),
                forall|k: int| 0 <= k < i ==> #[trigger] v@[k] == Self::at(s@, start + k * 6),
            decreases count - i,
        {
            assert(i * 6 + 6 <= count * 6) by (nonlinear_arith)
                requires
                    i < count,
            ;
            match Self::parse(s, start + i as usize * 6) {
                Some(row) => {
                    v.push(row);
                },
                None => {
                    return None;
                },
            }
            i = i + 1;
        }
        Some(v)
    }

    /// Every table index of the row is null or names an existing row; a
    /// list start may also be one past the last row.
    pub open spec fn table_refs_ok(self, counts: Seq<u32>) -> bool {
        self.resolution_scope.refs_ok(counts)
    }

    /// Every heap index of the row is null or inside its heap; a GUID index
    /// needs its 16 bytes inside.
    pub open spec fn heap_refs_ok(self, h: HeapSizes) -> bool {
        (self.name.0 == 0 || self.name.0 < h.strings) && (self.namespace.0 == 0 || self.namespace.0 < h.strings)
    }

    pub fn rows_table_refs_ok(rows: &Vec<TypeRef>, counts: &[u32]) -> (r: bool)
        requires
            counts@.len() == TABLE_TAGS,
        ensures
            r == forall|i: int| 0 <= i < rows@.len() ==> #[trigger] rows@[i].table_refs_ok(counts@),
    {
        let mut i: usize = 0;
        while i < rows.len()
            invariant
                i <= rows@.len(),
                counts@.len() == TABLE_TAGS,
                forall|k: int| 0 <= k < i ==> #[trigger] rows@[k].table_refs_ok(counts@),
            decreases rows@.len() - i,
        {
            let row = rows[i];
            if !((row.resolution_scope.check_refs(counts))) {
                assert(!rows@[i as int].table_refs_ok(counts@));
                return false;
            }
            i = i + 1;
        }
        true
    }

    pub fn rows_heap_refs_ok(rows: &Vec<TypeRef>, h: HeapSizes) -> (r: bool)
        ensures
            r == forall|i: int| 0 <= i < rows@.len() ==> #[trigger] rows@[i].heap_refs_ok(h),
    {
        let mut i: usize = 0;
        while i < rows.len()
            invariant
                i <= rows@.len(),
                forall|k: int| 0 <= k < i ==> #[trigger] rows@[k].heap_refs_ok(h),
            decreases rows@.len() - i,
        {
            let row = rows[i];
            if !((row.name.0 == 0 || (row.name.0 as usize) < h.strings) && (row.namespace.0 == 0 || (row.namespace.0 as usize) < h.strings)) {
                assert(!rows@[i as int].heap_refs_ok(h));
                return false;
            }
            i = i + 1;
        }
        true
    }
}

/// A row of the `TypeDef` table (0x02).
#[derive(Debug, Clone, Copy, PartialEq, Eq, Structural)]
pub struct TypeDef {
    pub flags: TypeAttributes,
    pub name: StringIndex,
    pub namespace: StringIndex,
    pub extends: TypeDefOrRef,
    pub field_list: FieldIndex,
    pub method_list: MethodDefIndex,
}

impl TypeDef {
    /// The width of one row in bytes.
    pub open spec fn width() -> nat {
        14
    }

    /// The row read at `p`; meaningful where `valid_at` holds.
    pub open spec fn at(s: Seq<u8>, p: int) -> TypeDef {
        TypeDef {
            flags: TypeAttributes(le32(s, p) as u32),
            name: StringIndex(le16(s, p + 4) as u32),
            namespace: StringIndex(le16(s, p + 6) as u32),
            extends: TypeDefOrRef::spec_decode(le16(s, p + 8) as u16)->0,
            field_list: FieldIndex(le16(s, p + 10) as u32),
            method_list: MethodDefIndex(le16(s, p + 12) as u32),
        }
    }

    /// Every coded index and enumerated field of the row at `p` is valid.
    pub open spec fn valid_at(s: Seq<u8>, p: int) -> bool {
        TypeDefOrRef::spec_decode(le16(s, p + 8) as u16) is Some
    }

    pub fn parse(s: &[u8], p: usize) -> (r: Option<TypeDef>)
        requires
            p + 14 <= s@.len(),
        ensures
            r is Some <==> Self::valid_at(s@, p as int),
            r is Some ==> r->0 == Self::at(s@, p as int),
    {
        let n = s.len();
        assert(p + 14 <= n);
        let extends = match TypeDefOrRef::decode(u16_at(s, p + 8)) {
            Some(v) => v,
            None => return None,
        };
        Some(TypeDef { flags: TypeAttributes(u32_at(s, p)), name: StringIndex(u16_at(s, p + 4) as u32), namespace: StringIndex(u16_at(s, p + 6) as u32), extends, field_list: FieldIndex(u16_at(s, p + 10) as u32), method_list: MethodDefIndex(u16_at(s, p + 12) as u32) })
    }

    /// Reads `count` consecutive rows from `start`.
    pub fn parse_rows(s: &[u8], start: usize, count: u32) -> (r: Option<Vec<TypeDef>>)
        requires
            start + count * 14 <= s@.len(),
        ensures
            r is Some <==> forall|i: int| 0 <= i < count ==> #[trigger] Self::valid_at(s@, start + i * 14),
            r matches Some(v) ==> v@.len() == count && forall|i: int|
                0 <= i < count ==> #[trigger] v@[i] == Self::at(s@, start + i * 14),
    {
        let n = s.len();
        let mut v: Vec<TypeDef> = Vec::new();
        let mut i: u32 = 0;
        while i < count
            invariant
                i <= count,
                s@.len() == n,
                start + count * 14 <= s@.len(),
                v@.len() == i,
                forall|k: int| 0 <= k < i ==> #[trigger] Self::valid_at(s@, start + k * 14),
                forall|k: int| 0 <= k < i ==> #[trigger] v@[k] == Self::at(s@, start + k * 14),
            decreases count - i,
        {
            assert(i * 14 + 14 <= count * 14) by (nonlinear_arith)
                requires
                    i < count,
            ;
            match Self::parse(s, start + i as usize * 14) {
                Some(row) => {
                    v.push(row);
                },
                None => {
                    return None;
                },
            }
            i = i + 1;
        }
        Some(v)
    }

    /// Every table index of the row is null or names an existing row; a
    /// list start may also be one past the last row.
    pub open spec fn table_refs_ok(self, counts: Seq<u32>) -> bool {
        self.extends.refs_ok(counts) && self.field_list.0 <= counts[0x04] + 1 && self.method_list.0 <= counts[0x06] + 1
    }

    /// Every heap index of the row is null or inside its heap; a GUID index
    /// needs its 16 bytes inside.
    pub open spec fn heap_refs_ok(self, h: HeapSizes) -> bool {
        (self.name.0 == 0 || self.name.0 < h.strings) && (self.namespace.0 == 0 || self.namespace.0 < h.strings)
    }

    pub fn rows_table_refs_ok(rows: &Vec<TypeDef>, counts: &[u32]) -> (r: bool)
        requires
            counts@.len() == TABLE_TAGS,
        ensures
            r == forall|i: int| 0 <= i < rows@.len() ==> #[trigger] rows@[i].table_refs_ok(counts@),
    {
        let mut i: usize = 0;
        while i < rows.len()
            invariant
                i <= rows@.len(),
                counts@.len() == TABLE_TAGS,
                forall|k: int| 0 <= k < i ==> #[trigger] rows@[k].table_refs_ok(counts@),
            decreases rows@.len() - i,
        {
            let row = rows[i];
            if !((row.extends.check_refs(counts)) && (row.field_list.0 as u64 <= counts[0x04] as u64 + 1) && (row.method_list.0 as u64 <= counts[0x06] as u64 + 1)) {
                assert(!rows@[i as int].table_refs_ok(counts@));
                return false;
            }
            i = i + 1;
        }
        true
    }

    pub fn rows_heap_refs_ok(rows: &Vec<TypeDef>, h: HeapSizes) -> (r: bool)
        ensures
            r == forall|i: int| 0 <= i < rows@.len() ==> #[trigger] rows@[i].heap_refs_ok(h),
    {
        let mut i: usize = 0;
        while i < rows.len()
            invariant
                i <= rows@.len(),
                forall|k: int| 0 <= k < i ==> #[trigger] rows@[k].heap_refs_ok(h),
            decreases rows@.len() - i,
        {
            let row = rows[i];
            if !((row.name.0 == 0 || (row.name.0 as usize) < h.strings) && (row.namespace.0 == 0 || (row.namespace.0 as usize) < h.strings)) {
                assert(!rows@[i as int].heap_refs_ok(h));
                return false;
            }
            i = i + 1;
        }
        true
    }
}

/// A row of the `Field` table (0x04).
#[derive(Debug, Clone, Copy, PartialEq, Eq, Structural)]
pub struct Field {
    pub flags: FieldAttributes,
    pub name: StringIndex,
    pub signature: BlobIndex,
}

impl Field {
    /// The width of one row in bytes.
    pub open spec fn width() -> nat {
        6
    }

    /// The row read at `p`; meaningful where `valid_at` holds.
    pub open spec fn at(s: Seq<u8>, p: int) -> Field {
        Field {
            flags: FieldAttributes(le16(s, p) as u16),
            name: StringIndex(le16(s, p + 2) as u32),
            signature: BlobIndex(le16(s, p + 4) as u32),
        }
    }

    /// Every coded index and enumerated field of the row at `p` is valid.
    pub open spec fn valid_at(s: Seq<u8>, p: int) -> bool {
        true
    }

    pub fn parse(s: &[u8], p: usize) -> (r: Option<Field>)
        requires
            p + 6 <= s@.len(),
        ensures
            r is Some <==> Self::valid_at(s@, p as int),
            r is Some ==> r->0 == Self::at(s@, p as int),
    {
        let n = s.len();
        assert(p + 6 <= n);
        Some(Field { flags: FieldAttributes(u16_at(s, p)), name: StringIndex(u16_at(s, p + 2) as u32), signature: BlobIndex(u16_at(s, p + 4) as u32) })
    }

    /// Reads `count` consecutive rows from `start`.
    pub fn parse_rows(s: &[u8], start: usize, count: u32) -> (r: Option<Vec<Field>>)
        requires
            start + count * 6 <= s@.len(),
        ensures
            r is Some <==> forall|i: int| 0 <= i < count ==> #[trigger] Self::valid_at(s@, start + i * 6),
            r matches Some(v) ==> v@.len() == count && forall|i: int|
                0 <= i < count ==> #[trigger] v@[i] == Self::at(s@, start + i * 6),
    {
        let n = s.len();
        let mut v: Vec<Field> = Vec::new();
        let mut i: u32 = 0;
        while i < count
            invariant
                i <= count,
                s@.len() == n,
                start + count * 6 <= s@.len(),
                v@.len() == i,
                forall|k: int| 0 <= k < i ==> #[trigger] Self::valid_at(s@, start + k * 6),
                forall|k: int| 0 <= k < i ==> #[trigger] v@[k] == Self::at(s@, start + k * 6),
            decreases count - i,
        {
            assert(i * 6 + 6 <= count * 6) by (nonlinear_arith)
                requires
                    i < count,
            ;
            match Self::parse(s, start + i as usize * 6) {
                Some(row) => {
                    v.push(row);
                },
                None => {
                    return None;
                },
            }
            i = i + 1;
        }
        Some(v)
    }

    /// Every table index of the row is null or names an existing row; a
    /// list start may also be one past the last row.
    pub open spec fn table_refs_ok(self, counts: Seq<u32>) -> bool {
        true
    }

    /// Every heap index of the row is null or inside its heap; a GUID index
    /// needs its 16 bytes inside.
    pub open spec fn heap_refs_ok(self, h: HeapSizes) -> bool {
        (self.name.0 == 0 || self.name.0 < h.strings) && (self.signature.0 == 0 || self.signature.0 < h.blob)
    }

    pub fn rows_table_refs_ok(rows: &Vec<Field>, counts: &[u32]) -> (r: bool)
        requires
            counts@.len() == TABLE_TAGS,
        ensures
            r == forall|i: int| 0 <= i < rows@.len() ==> #[trigger] rows@[i].table_refs_ok(counts@),
    {
        true
    }

    pub fn rows_heap_refs_ok(rows: &Vec<Field>, h: HeapSizes) -> (r: bool)
        ensures
            r == forall|i: int| 0 <= i < rows@.len() ==> #[trigger] rows@[i].heap_refs_ok(h),
    {
        let mut i: usize = 0;
        while i < rows.len()
            invariant
                i <= rows@.len(),
                forall|k: int| 0 <= k < i ==> #[trigger] rows@[k].heap_refs_ok(h),
            decreases rows@.len() - i,
        {
            let row = rows[i];
            if !((row.name.0 == 0 || (row.name.0 as usize) < h.strings) && (row.signature.0 == 0 || (row.signature.0 as usize) < h.blob)) {
                assert(!rows@[i as int].heap_refs_ok(h));
                return false;
            }
            i = i + 1;
        }
        true
    }
}

/// A row of the `MethodDef` table (0x06).
#[derive(Debug, Clone, Copy, PartialEq, Eq, Structural)]
pub struct MethodDef {
    pub rva: u32,
    pub impl_flags: MethodImplAttributes,
    pub flags: MethodAttributes,
    pub name: StringIndex,
    pub signature: BlobIndex,
    pub param_list: ParamIndex,
}

impl MethodDef {
    /// The width of one row in bytes.
    pub open spec fn width() -> nat {
        14
    }

    /// The row read at `p`; meaningful where `valid_at` holds.
    pub open spec fn at(s: Seq<u8>, p: int) -> MethodDef {
        MethodDef {
            rva: le32(s, p) as u32,
            impl_flags: MethodImplAttributes(le16(s, p + 4) as u16),
            flags: MethodAttributes(le16(s, p + 6) as u16),
            name: StringIndex(le16(s, p + 8) as u32),
            signature: BlobIndex(le16(s, p + 10) as u32),
            param_list: ParamIndex(le16(s, p + 12) as u32),
        }
    }

    /// Every coded index and enumerated field of the row at `p` is valid.
    pub open spec fn valid_at(s: Seq<u8>, p: int) -> bool {
        true
    }

    pub fn parse(s: &[u8], p: usize) -> (r: Option<MethodDef>)
        requires
            p + 14 <= s@.len(),
        ensures
            r is Some <==> Self::valid_at(s@, p as int),
            r is Some ==> r->0 == Self::at(s@, p as int),
    {
        let n = s.len();
        assert(p + 14 <= n);
        Some(MethodDef { rva: u32_at(s, p), impl_flags: MethodImplAttributes(u16_at(s, p + 4)), flags: MethodAttributes(u16_at(s, p + 6)), name: StringIndex(u16_at(s, p + 8) as u32), signature: BlobIndex(u16_at(s, p + 10) as u32), param_list: ParamIndex(u16_at(s, p + 12) as u32) })
    }

    /// Reads `count` consecutive rows from `start`.
    pub fn parse_rows(s: &[u8], start: usize, count: u32) -> (r: Option<Vec<MethodDef>>)
        requires
            start + count * 14 <= s@.len(),
        ensures
            r is Some <==> forall|i: int| 0 <= i < count ==> #[trigger] Self::valid_at(s@, start + i * 14),
            r matches Some(v) ==> v@.len() == count && forall|i: int|
                0 <= i < count ==> #[trigger] v@[i] == Self::at(s@, start + i * 14),
    {
        let n = s.len();
        let mut v: Vec<MethodDef> = Vec::new();
        let mut i: u32 = 0;
        while i < count
            invariant
                i <= count,
                s@.len() == n,
                start + count * 14 <= s@.len(),
                v@.len() == i,
                forall|k: int| 0 <= k < i ==> #[trigger] Self::valid_at(s@, start + k * 14),
                forall|k: int| 0 <= k < i ==> #[trigger] v@[k] == Self::at(s@, start + k * 14),
            decreases count - i,
        {
            assert(i * 14 + 14 <= count * 14) by (nonlinear_arith)
                requires
                    i < count,
            ;
            match Self::parse(s, start + i as usize * 14) {
                Some(row) => {
                    v.push(row);
                },
                None => {
                    return None;
                },
            }
            i = i + 1;
        }
        Some(v)
    }

    /// Every table index of the row is null or names an existing row; a
    /// list start may also be one past the last row.
    pub open spec fn table_refs_ok(self, counts: Seq<u32>) -> bool {
        self.param_list.0 <= counts[0x08] + 1
    }

    /// Every heap index of the row is null or inside its heap; a GUID index
    /// needs its 16 bytes inside.
    pub open spec fn heap_refs_ok(self, h: HeapSizes) -> bool {
        (self.name.0 == 0 || self.name.0 < h.strings) && (self.signature.0 == 0 || self.signature.0 < h.blob)
    }

    pub fn rows_table_refs_ok(rows: &Vec<MethodDef>, counts: &[u32]) -> (r: bool)
        requires
            counts@.len() == TABLE_TAGS,
        ensures
            r == forall|i: int| 0 <= i < rows@.len() ==> #[trigger] rows@[i].table_refs_ok(counts@),
    {
        let mut i: usize = 0;
        while i < rows.len()
            invariant
                i <= rows@.len(),
                counts@.len() == TABLE_TAGS,
                forall|k: int| 0 <= k < i ==> #[trigger] rows@[k].table_refs_ok(counts@),
            decreases rows@.len() - i,
        {
            let row = rows[i];
            if !((row.param_list.0 as u64 <= counts[0x08] as u64 + 1)) {
                assert(!rows@[i as int].table_refs_ok(counts@));
                return false;
            }
            i = i + 1;
        }
        true
    }

    pub fn rows_heap_refs_ok(rows: &Vec<MethodDef>, h: HeapSizes) -> (r: bool)
        ensures
            r == forall|i: int| 0 <= i < rows@.len() ==> #[trigger] rows@[i].heap_refs_ok(h),
    {
        let mut i: usize = 0;
        while i < rows.len()
            invariant
                i <= rows@.len(),
                forall|k: int| 0 <= k < i ==> #[trigger] rows@[k].heap_refs_ok(h),
            decreases rows@.len() - i,
        {
            let row = rows[i];
            if !((row.name.0 == 0 || (row.name.0 as usize) < h.strings) && (row.signature.0 == 0 || (row.signature.0 as usize) < h.blob)) {
                assert(!rows@[i as int].heap_refs_ok(h));
                return false;
            }
            i = i + 1;
        }
        true
    }
}

/// A row of the `Param` table (0x08).
#[derive(Debug, Clone, Copy, PartialEq, Eq, Structural)]
pub struct Param {
    pub flags: ParamAttributes,
    pub sequence: u16,
    pub name: StringIndex,
}

impl Param {
    /// The width of one row in bytes.
    pub open spec fn width() -> nat {
        6
    }

    /// The row read at `p`; meaningful where `valid_at` holds.
    pub open spec fn at(s: Seq<u8>, p: int) -> Param {
        Param {
            flags: ParamAttributes(le16(s, p) as u16),
            sequence: le16(s, p + 2) as u16,
            name: StringIndex(le16(s, p + 4) as u32),
        }
    }

    /// Every coded index and enumerated field of the row at `p` is valid.
    pub open spec fn valid_at(s: Seq<u8>, p: int) -> bool {
        true
    }

    pub fn parse(s: &[u8], p: usize) -> (r: Option<Param>)
        requires
            p + 6 <= s@.len(),
        ensures
            r is Some <==> Self::valid_at(s@, p as int),
            r is Some ==> r->0 == Self::at(s@, p as int),
    {
        let n = s.len();
        assert(p + 6 <= n);
        Some(Param { flags: ParamAttributes(u16_at(s, p)), sequence: u16_at(s, p + 2), name: StringIndex(u16_at(s, p + 4) as u32) })
    }

    /// Reads `count` consecutive rows from `start`.
    pub fn parse_rows(s: &[u8], start: usize, count: u32) -> (r: Option<Vec<Param>>)
        requires
            start + count * 6 <= s@.len(),
        ensures
            r is Some <==> forall|i: int| 0 <= i < count ==> #[trigger] Self::valid_at(s@, start + i * 6),
            r matches Some(v) ==> v@.len() == count && forall|i: int|
                0 <= i < count ==> #[trigger] v@[i] == Self::at(s@, start + i * 6),
    {
        let n = s.len();
        let mut v: Vec<Param> = Vec::new();
        let mut i: u32 = 0;
        while i < count
            invariant
                i <= count,
                s@.len() == n,
                start + count * 6 <= s@.len(),
                v@.len() == i,
                forall|k: int| 0 <= k < i ==> #[trigger] Self::valid_at(s@, start + k * 6),
                forall|k: int| 0 <= k < i ==> #[trigger] v@[k] == Self::at(s@, start + k * 6),
            decreases count - i,
        {
            assert(i * 6 + 6 <= count * 6) by (nonlinear_arith)
                requires
                    i < count,
            ;
            match Self::parse(s, start + i as usize * 6) {
                Some(row) => {
                    v.push(row);
                },
                None => {
                    return None;
                },
            }
            i = i + 1;
        }
        Some(v)
    }

    /// Every table index of the row is null or names an existing row; a
    /// list start may also be one past the last row.
    pub open spec fn table_refs_ok(self, counts: Seq<u32>) -> bool {
        true
    }

    /// Every heap index of the row is null or inside its heap; a GUID index
    /// needs its 16 bytes inside.
    pub open spec fn heap_refs_ok(self, h: HeapSizes) -> bool {
        (self.name.0 == 0 || self.name.0 < h.strings)
    }

    pub fn rows_table_refs_ok(rows: &Vec<Param>, counts: &[u32]) -> (r: bool)
        requires
            counts@.len() == TABLE_TAGS,
        ensures
            r == forall|i: int| 0 <= i < rows@.len() ==> #[trigger] rows@[i].table_refs_ok(counts@),
    {
        true
    }

    pub fn rows_heap_refs_ok(rows: &Vec<Param>, h: HeapSizes) -> (r: bool)
        ensures
            r == forall|i: int| 0 <= i < rows@.len() ==> #[trigger] rows@[i].heap_refs_ok(h),
    {
        let mut i: usize = 0;
        while i < rows.len()
            invariant
                i <= rows@.len(),
                forall|k: int| 0 <= k < i ==> #[trigger] rows@[k].heap_refs_ok(h),
            decreases rows@.len() - i,
        {
            let row = rows[i];
            if !((row.name.0 == 0 || (row.name.0 as usize) < h.strings)) {
                assert(!rows@[i as int].heap_refs_ok(h));
                return false;
            }
            i = i + 1;
        }
        true
    }
}

/// A row of the `InterfaceImpl` table (0x09).
#[derive(Debug, Clone, Copy, PartialEq, Eq, Structural)]
pub struct InterfaceImpl {
    pub class: TypeDefIndex,
    pub interface: TypeDefOrRef,
}

impl InterfaceImpl {
    /// The width of one row in bytes.
    pub open spec fn width() -> nat {
        4
    }

    /// The row read at `p`; meaningful where `valid_at` holds.
    pub open spec fn at(s: Seq<u8>, p: int) -> InterfaceImpl {
        InterfaceImpl {
            class: TypeDefIndex(le16(s, p) as u32),
            interface: TypeDefOrRef::spec_decode(le16(s, p + 2) as u16)->0,
        }
    }

    /// Every coded index and enumerated field of the row at `p` is valid.
    pub open spec fn valid_at(s: Seq<u8>, p: int) -> bool {
        TypeDefOrRef::spec_decode(le16(s, p + 2) as u16) is Some
    }

    pub fn parse(s: &[u8], p: usize) -> (r: Option<InterfaceImpl>)
        requires
            p + 4 <= s@.len(),
        ensures
            r is Some <==> Self::valid_at(s@, p as int),
            r is Some ==> r->0 == Self::at(s@, p as int),
    {
        let n = s.len();
        assert(p + 4 <= n);
        let interface = match TypeDefOrRef::decode(u16_at(s, p + 2)) {
            Some(v) => v,
            None => return None,
        };
        Some(InterfaceImpl { class: TypeDefIndex(u16_at(s, p) as u32), interface })
    }

    /// Reads `count` consecutive rows from `start`.
    pub fn parse_rows(s: &[u8], start: usize, count: u32) -> (r: Option<Vec<InterfaceImpl>>)
        requires
            start + count * 4 <= s@.len(),
        ensures
            r is Some <==> forall|i: int| 0 <= i < count ==> #[trigger] Self::valid_at(s@, start + i * 4),
            r matches Some(v) ==> v@.len() == count && forall|i: int|
                0 <= i < count ==> #[trigger] v@[i] == Self::at(s@, start + i * 4),
    {
        let n = s.len();
        let mut v: Vec<InterfaceImpl> = Vec::new();
        let mut i: u32 = 0;
        while i < count
            invariant
                i <= count,
                s@.len() == n,
                start + count * 4 <= s@.len(),
                v@.len() == i,
                forall|k: int| 0 <= k < i ==> #[trigger] Self::valid_at(s@, start + k * 4),
                forall|k: int| 0 <= k < i ==> #[trigger] v@[k] == Self::at(s@, start + k * 4),
            decreases count - i,
        {
            assert(i * 4 + 4 <= count * 4) by (nonlinear_arith)
                requires
                    i < count,
            ;
            match Self::parse(s, start + i as usize * 4) {
                Some(row) => {
                    v.push(row);
                },
                None => {
                    return None;
                },
            }
            i = i + 1;
        }
        Some(v)
    }

    /// Every table index of the row is null or names an existing row; a
    /// list start may also be one past the last row.
    pub open spec fn table_refs_ok(self, counts: Seq<u32>) -> bool {
        self.class.0 <= counts[0x02] && self.interface.refs_ok(counts)
    }

    /// Every heap index of the row is null or inside its heap; a GUID index
    /// needs its 16 bytes inside.
    pub open spec fn heap_refs_ok(self, h: HeapSizes) -> bool {
        true
    }

    pub fn rows_table_refs_ok(rows: &Vec<InterfaceImpl>, counts: &[u32]) -> (r: bool)
        requires
            counts@.len() == TABLE_TAGS,
        ensures
            r == forall|i: int| 0 <= i < rows@.len() ==> #[trigger] rows@[i].table_refs_ok(counts@),
    {
        let mut i: usize = 0;
        while i < rows.len()
            invariant
                i <= rows@.len(),
                counts@.len() == TABLE_TAGS,
                forall|k: int| 0 <= k < i ==> #[trigger] rows@[k].table_refs_ok(counts@),
            decreases rows@.len() - i,
        {
            let row = rows[i];
            if !((row.class.0 <= counts[0x02]) && (row.interface.check_refs(counts))) {
                assert(!rows@[i as int].table_refs_ok(counts@));
                return false;
            }
            i = i + 1;
        }
        true
    }

    pub fn rows_heap_refs_ok(rows: &Vec<InterfaceImpl>, h: HeapSizes) -> (r: bool)
        ensures
            r == forall|i: int| 0 <= i < rows@.len() ==> #[trigger] rows@[i].heap_refs_ok(h),
    {
        true
    }
}

/// A row of the `MemberRef` table (0x0a).
#[derive(Debug, Clone, Copy, PartialEq, Eq, Structural)]
pub struct MemberRef {
    pub class: MemberRefParent,
    pub name: StringIndex,
    pub signature: BlobIndex,
}

impl MemberRef {
    /// The width of one row in bytes.
    pub open spec fn width() -> nat {
        6
    }

    /// The row read at `p`; meaningful where `valid_at` holds.
    pub open spec fn at(s: Seq<u8>, p: int) -> MemberRef {
        MemberRef {
            class: MemberRefParent::spec_decode(le16(s, p) as u16)->0,
            name: StringIndex(le16(s, p + 2) as u32),
            signature: BlobIndex(le16(s, p + 4) as u32),
        }
    }

    /// Every coded index and enumerated field of the row at `p` is valid.
    pub open spec fn valid_at(s: Seq<u8>, p: int) -> bool {
        MemberRefParent::spec_decode(le16(s, p) as u16) is Some
    }

    pub fn parse(s: &[u8], p: usize) -> (r: Option<MemberRef>)
        requires
            p + 6 <= s@.len(),
        ensures
            r is Some <==> Self::valid_at(s@, p as int),
            r is Some ==> r->0 == Self::at(s@, p as int),
    {
        let n = s.len();
        assert(p + 6 <= n);
        let class = match MemberRefParent::decode(u16_at(s, p)) {
            Some(v) => v,
            None => return None,
        };
        Some(MemberRef { class, name: StringIndex(u16_at(s, p + 2) as u32), signature: BlobIndex(u16_at(s, p + 4) as u32) })
    }

    /// Reads `count` consecutive rows from `start`.
    pub fn parse_rows(s: &[u8], start: usize, count: u32) -> (r: Option<Vec<MemberRef>>)
        requires
            start + count * 6 <= s@.len(),
        ensures
            r is Some <==> forall|i: int| 0 <= i < count ==> #[trigger] Self::valid_at(s@, start + i * 6),
            r matches Some(v) ==> v@.len() == count && forall|i: int|
                0 <= i < count ==> #[trigger] v@[i] == Self::at(s@, start + i * 6),
    {
        let n = s.len();
        let mut v: Vec<MemberRef> = Vec::new();
        let mut i: u32 = 0;
        while i < count
            invariant
                i <= count,
                s@.len() == n,
                start + count * 6 <= s@.len(),
                v@.len() == i,
                forall|k: int| 0 <= k < i ==> #[trigger] Self::valid_at(s@, start + k * 6),
                forall|k: int| 0 <= k < i ==> #[trigger] v@[k] == Self::at(s@, start + k * 6),
            decreases count - i,
        {
            assert(i * 6 + 6 <= count * 6) by (nonlinear_arith)
                requires
                    i < count,
            ;
            match Self::parse(s, start + i as usize * 6) {
                Some(row) => {
                    v.push(row);
                },
                None => {
                    return None;
                },
            }
            i = i + 1;
        }
        Some(v)
    }

    /// Every table index of the row is null or names an existing row; a
    /// list start may also be one past the last row.
    pub open spec fn table_refs_ok(self, counts: Seq<u32>) -> bool {
        self.class.refs_ok(counts)
    }

    /// Every heap index of the row is null or inside its heap; a GUID index
    /// needs its 16 bytes inside.
    pub open spec fn heap_refs_ok(self, h: HeapSizes) -> bool {
        (self.name.0 == 0 || self.name.0 < h.strings) && (self.signature.0 == 0 || self.signature.0 < h.blob)
    }

    pub fn rows_table_refs_ok(rows: &Vec<MemberRef>, counts: &[u32]) -> (r: bool)
        requires
            counts@.len() == TABLE_TAGS,
        ensures
            r == forall|i: int| 0 <= i < rows@.len() ==> #[trigger] rows@[i].table_refs_ok(counts@),
    {
        let mut i: usize = 0;
        while i < rows.len()
            invariant
                i <= rows@.len(),
                counts@.len() == TABLE_TAGS,
                forall|k: int| 0 <= k < i ==> #[trigger] rows@[k].table_refs_ok(counts@),
            decreases rows@.len() - i,
        {
            let row = rows[i];
            if !((row.class.check_refs(counts))) {
                assert(!rows@[i as int].table_refs_ok(counts@));
                return false;
            }
            i = i + 1;
        }
        true
    }

    pub fn rows_heap_refs_ok(rows: &Vec<MemberRef>, h: HeapSizes) -> (r: bool)
        ensures
            r == forall|i: int| 0 <= i < rows@.len() ==> #[trigger] rows@[i].heap_refs_ok(h),
    {
        let mut i: usize = 0;
        while i < rows.len()
            invariant
                i <= rows@.len(),
                forall|k: int| 0 <= k < i ==> #[trigger] rows@[k].heap_refs_ok(h),
            decreases rows@.len() - i,
        {
            let row = rows[i];
            if !((row.name.0 == 0 || (row.name.0 as usize) < h.strings) && (row.signature.0 == 0 || (row.signature.0 as usize) < h.blob)) {
                assert(!rows@[i as int].heap_refs_ok(h));
                return false;
            }
            i = i + 1;
        }
        true
    }
}

/// A row of the `Constant` table (0x0b).
#[derive(Debug, Clone, Copy, PartialEq, Eq, Structural)]
pub struct Constant {
    pub const_ty: u8,
    pub parent: HasConstant,
    pub value: BlobIndex,
}

impl Constant {
    /// The width of one row in bytes.
    pub open spec fn width() -> nat {
        6
    }

    /// The row read at `p`; meaningful where `valid_at` holds.
    pub open spec fn at(s: Seq<u8>, p: int) -> Constant {
        Constant {
            const_ty: s[p],
            parent: HasConstant::spec_decode(le16(s, p + 2) as u16)->0,
            value: BlobIndex(le16(s, p + 4) as u32),
        }
    }

    /// Every coded index and enumerated field of the row at `p` is valid.
    pub open spec fn valid_at(s: Seq<u8>, p: int) -> bool {
        HasConstant::spec_decode(le16(s, p + 2) as u16) is Some
    }

    pub fn parse(s: &[u8], p: usize) -> (r: Option<Constant>)
        requires
            p + 6 <= s@.len(),
        ensures
            r is Some <==> Self::valid_at(s@, p as int),
            r is Some ==> r->0 == Self::at(s@, p as int),
    {
        let n = s.len();
        assert(p + 6 <= n);
        let parent = match HasConstant::decode(u16_at(s, p + 2)) {
            Some(v) => v,
            None => return None,
        };
        Some(Constant { const_ty: s[p], parent, value: BlobIndex(u16_at(s, p + 4) as u32) })
    }

    /// Reads `count` consecutive rows from `start`.
    pub fn parse_rows(s: &[u8], start: usize, count: u32) -> (r: Option<Vec<Constant>>)
        requires
            start + count * 6 <= s@.len(),
        ensures
            r is Some <==> forall|i: int| 0 <= i < count ==> #[trigger] Self::valid_at(s@, start + i * 6),
            r matches Some(v) ==> v@.len() == count && forall|i: int|
                0 <= i < count ==> #[trigger] v@[i] == Self::at(s@, start + i * 6),
    {
        let n = s.len();
        let mut v: Vec<Constant> = Vec::new();
        let mut i: u32 = 0;
        while i < count
            invariant
                i <= count,
                s@.len() == n,
                start + count * 6 <= s@.len(),
                v@.len() == i,
                forall|k: int| 0 <= k < i ==> #[trigger] Self::valid_at(s@, start + k * 6),
                forall|k: int| 0 <= k < i ==> #[trigger] v@[k] == Self::at(s@, start + k * 6),
            decreases count - i,
        {
            assert(i * 6 + 6 <= count * 6) by (nonlinear_arith)
                requires
                    i < count,
            ;
            match Self::parse(s, start + i as usize * 6) {
                Some(row) => {
                    v.push(row);
                },
                None => {
                    return None;
                },
            }
            i = i + 1;
        }
        Some(v)
    }

    /// Every table index of the row is null or names an existing row; a
    /// list start may also be one past the last row.
    pub open spec fn table_refs_ok(self, counts: Seq<u32>) -> bool {
        self.parent.refs_ok(counts)
    }

    /// Every heap index of the row is null or inside its heap; a GUID index
    /// needs its 16 bytes inside.
    pub open spec fn heap_refs_ok(self, h: HeapSizes) -> bool {
        (self.value.0 == 0 || self.value.0 < h.blob)
    }

    pub fn rows_table_refs_ok(rows: &Vec<Constant>, counts: &[u32]) -> (r: bool)
        requires
            counts@.len() == TABLE_TAGS,
        ensures
            r == forall|i: int| 0 <= i < rows@.len() ==> #[trigger] rows@[i].table_refs_ok(counts@),
    {
        let mut i: usize = 0;
        while i < rows.len()
            invariant
                i <= rows@.len(),
                counts@.len() == TABLE_TAGS,
                forall|k: int| 0 <= k < i ==> #[trigger] rows@[k].table_refs_ok(counts@),
            decreases rows@.len() - i,
        {
            let row = rows[i];
            if !((row.parent.check_refs(counts))) {
                assert(!rows@[i as int].table_refs_ok(counts@));
                return false;
            }
            i = i + 1;
        }
        true
    }

    pub fn rows_heap_refs_ok(rows: &Vec<Constant>, h: HeapSizes) -> (r: bool)
        ensures
            r == forall|i: int| 0 <= i < rows@.len() ==> #[trigger] rows@[i].heap_refs_ok(h),
    {
        let mut i: usize = 0;
        while i < rows.len()
            invariant
                i <= rows@.len(),
                forall|k: int| 0 <= k < i ==> #[trigger] rows@[k].heap_refs_ok(h),
            decreases rows@.len() - i,
        {
            let row = rows[i];
            if !((row.value.0 == 0 || (row.value.0 as usize) < h.blob)) {
                assert(!rows@[i as int].heap_refs_ok(h));
                return false;
            }
            i = i + 1;
        }
        true
    }
}

/// A row of the `CustomAttribute` table (0x0c).
#[derive(Debug, Clone, Copy, PartialEq, Eq, Structural)]
pub struct CustomAttribute {
    pub parent: HasCustomAttribute,
    pub ty: CustomAttributeType,
    pub value: BlobIndex,
}

impl CustomAttribute {
    /// The width of one row in bytes.
    pub open spec fn width() -> nat {
        6
    }

    /// The row read at `p`; meaningful where `valid_at` holds.
    pub open spec fn at(s: Seq<u8>, p: int) -> CustomAttribute {
        CustomAttribute {
            parent: HasCustomAttribute::spec_decode(le16(s, p) as u16)->0,
            ty: CustomAttributeType::spec_decode(le16(s, p + 2) as u16)->0,
            value: BlobIndex(le16(s, p + 4) as u32),
        }
    }

    /// Every coded index and enumerated field of the row at `p` is valid.
    pub open spec fn valid_at(s: Seq<u8>, p: int) -> bool {
        HasCustomAttribute::spec_decode(le16(s, p) as u16) is Some
            && CustomAttributeType::spec_decode(le16(s, p + 2) as u16) is Some
    }

    pub fn parse(s: &[u8], p: usize) -> (r: Option<CustomAttribute>)
        requires
            p + 6 <= s@.len(),
        ensures
            r is Some <==> Self::valid_at(s@, p as int),
            r is Some ==> r->0 == Self::at(s@, p as int),
    {
        let n = s.len();
        assert(p + 6 <= n);
        let parent = match HasCustomAttribute::decode(u16_at(s, p)) {
            Some(v) => v,
            None => return None,
        };
        let ty = match CustomAttributeType::decode(u16_at(s, p + 2)) {
            Some(v) => v,
            None => return None,
        };
        Some(CustomAttribute { parent, ty, value: BlobIndex(u16_at(s, p + 4) as u32) })
    }

    /// Reads `count` consecutive rows from `start`.
    pub fn parse_rows(s: &[u8], start: usize, count: u32) -> (r: Option<Vec<CustomAttribute>>)
        requires
            start + count * 6 <= s@.len(),
        ensures
            r is Some <==> forall|i: int| 0 <= i < count ==> #[trigger] Self::valid_at(s@, start + i * 6),
            r matches Some(v) ==> v@.len() == count && forall|i: int|
                0 <= i < count ==> #[trigger] v@[i] == Self::at(s@, start + i * 6),
    {
        let n = s.len();
        let mut v: Vec<CustomAttribute> = Vec::new();
        let mut i: u32 = 0;
        while i < count
            invariant
                i <= count,
                s@.len() == n,
                start + count * 6 <= s@.len(),
                v@.len() == i,
                forall|k: int| 0 <= k < i ==> #[trigger] Self::valid_at(s@, start + k * 6),
                forall|k: int| 0 <= k < i ==> #[trigger] v@[k] == Self::at(s@, start + k * 6),
            decreases count - i,
        {
            assert(i * 6 + 6 <= count * 6) by (nonlinear_arith)
                requires
                    i < count,
            ;
            match Self::parse(s, start + i as usize * 6) {
                Some(row) => {
                    v.push(row);
                },
                None => {
                    return None;
                },
            }
            i = i + 1;
        }
        Some(v)
    }

    /// Every table index of the row is null or names an existing row; a
    /// list start may also be one past the last row.
    pub open spec fn table_refs_ok(self, counts: Seq<u32>) -> bool {
        self.parent.refs_ok(counts) && self.ty.refs_ok(counts)
    }

    /// Every heap index of the row is null or inside its heap; a GUID index
    /// needs its 16 bytes inside.
    pub open spec fn heap_refs_ok(self, h: HeapSizes) -> bool {
        (self.value.0 == 0 || self.value.0 < h.blob)
    }

    pub fn rows_table_refs_ok(rows: &Vec<CustomAttribute>, counts: &[u32]) -> (r: bool)
        requires
            counts@.len() == TABLE_TAGS,
        ensures
            r == forall|i: int| 0 <= i < rows@.len() ==> #[trigger] rows@[i].table_refs_ok(counts@),
    {
        let mut i: usize = 0;
        while i < rows.len()
            invariant
                i <= rows@.len(),
                counts@.len() == TABLE_TAGS,
                forall|k: int| 0 <= k < i ==> #[trigger] rows@[k].table_refs_ok(counts@),
            decreases rows@.len() - i,
        {
            let row = rows[i];
            if !((row.parent.check_refs(counts)) && (row.ty.check_refs(counts))) {
                assert(!rows@[i as int].table_refs_ok(counts@));
                return false;
            }
            i = i + 1;
        }
        true
    }

    pub fn rows_heap_refs_ok(rows: &Vec<CustomAttribute>, h: HeapSizes) -> (r: bool)
        ensures
            r == forall|i: int| 0 <= i < rows@.len() ==> #[trigger] rows@[i].heap_refs_ok(h),
    {
        let mut i: usize = 0;
        while i < rows.len()
            invariant
                i <= rows@.len(),
                forall|k: int| 0 <= k < i ==> #[trigger] rows@[k].heap_refs_ok(h),
            decreases rows@.len() - i,
        {
            let row = rows[i];
            if !((row.value.0 == 0 || (row.value.0 as usize) < h.blob)) {
                assert(!rows@[i as int].heap_refs_ok(h));
                return false;
            }
            i = i + 1;
        }
        true
    }
}

/// A row of the `FieldMarshal` table (0x0d).
#[derive(Debug, Clone, Copy, PartialEq, Eq, Structural)]
pub struct FieldMarshal {
    pub parent: HasFieldMarshal,
    pub native_type: BlobIndex,
}

impl FieldMarshal {
    /// The width of one row in bytes.
    pub open spec fn width() -> nat {
        4
    }

    /// The row read at `p`; meaningful where `valid_at` holds.
    pub open spec fn at(s: Seq<u8>, p: int) -> FieldMarshal {
        FieldMarshal {
            parent: HasFieldMarshal::spec_decode(le16(s, p) as u16)->0,
            native_type: BlobIndex(le16(s, p + 2) as u32),
        }
    }

    /// Every coded index and enumerated field of the row at `p` is valid.
    pub open spec fn valid_at(s: Seq<u8>, p: int) -> bool {
        HasFieldMarshal::spec_decode(le16(s, p) as u16) is Some
    }

    pub fn parse(s: &[u8], p: usize) -> (r: Option<FieldMarshal>)
        requires
            p + 4 <= s@.len(),
        ensures
            r is Some <==> Self::valid_at(s@, p as int),
            r is Some ==> r->0 == Self::at(s@, p as int),
    {
        let n = s.len();
        assert(p + 4 <= n);
        let parent = match HasFieldMarshal::decode(u16_at(s, p)) {
            Some(v) => v,
            None => return None,
        };
        Some(FieldMarshal { parent, native_type: BlobIndex(u16_at(s, p + 2) as u32) })
    }

    /// Reads `count` consecutive rows from `start`.
    pub fn parse_rows(s: &[u8], start: usize, count: u32) -> (r: Option<Vec<FieldMarshal>>)
        requires
            start + count * 4 <= s@.len(),
        ensures
            r is Some <==> forall|i: int| 0 <= i < count ==> #[trigger] Self::valid_at(s@, start + i * 4),
            r matches Some(v) ==> v@.len() == count && forall|i: int|
                0 <= i < count ==> #[trigger] v@[i] == Self::at(s@, start + i * 4),
    {
        let n = s.len();
        let mut v: Vec<FieldMarshal> = Vec::new();
        let mut i: u32 = 0;
        while i < count
            invariant
                i <= count,
                s@.len() == n,
                start + count * 4 <= s@.len(),
                v@.len() == i,
                forall|k: int| 0 <= k < i ==> #[trigger] Self::valid_at(s@, start + k * 4),
                forall|k: int| 0 <= k < i ==> #[trigger] v@[k] == Self::at(s@, start + k * 4),
            decreases count - i,
        {
            assert(i * 4 + 4 <= count * 4) by (nonlinear_arith)
                requires
                    i < count,
            ;
            match Self::parse(s, start + i as usize * 4) {
                Some(row) => {
                    v.push(row);
                },
                None => {
                    return None;
                },
            }
            i = i + 1;
        }
        Some(v)
    }

    /// Every table index of the row is null or names an existing row; a
    /// list start may also be one past the last row.
    pub open spec fn table_refs_ok(self, counts: Seq<u32>) -> bool {
        self.parent.refs_ok(counts)
    }

    /// Every heap index of the row is null or inside its heap; a GUID index
    /// needs its 16 bytes inside.
    pub open spec fn heap_refs_ok(self, h: HeapSizes) -> bool {
        (self.native_type.0 == 0 || self.native_type.0 < h.blob)
    }

    pub fn rows_table_refs_ok(rows: &Vec<FieldMarshal>, counts: &[u32]) -> (r: bool)
        requires
            counts@.len() == TABLE_TAGS,
        ensures
            r == forall|i: int| 0 <= i < rows@.len() ==> #[trigger] rows@[i].table_refs_ok(counts@),
    {
        let mut i: usize = 0;
        while i < rows.len()
            invariant
                i <= rows@.len(),
                counts@.len() == TABLE_TAGS,
                forall|k: int| 0 <= k < i ==> #[trigger] rows@[k].table_refs_ok(counts@),
            decreases rows@.len() - i,
        {
            let row = rows[i];
            if !((row.parent.check_refs(counts))) {
                assert(!rows@[i as int].table_refs_ok(counts@));
                return false;
            }
            i = i + 1;
        }
        true
    }

    pub fn rows_heap_refs_ok(rows: &Vec<FieldMarshal>, h: HeapSizes) -> (r: bool)
        ensures
            r == forall|i: int| 0 <= i < rows@.len() ==> #[trigger] rows@[i].heap_refs_ok(h),
    {
        let mut i: usize = 0;
        while i < rows.len()
            invariant
                i <= rows@.len(),
                forall|k: int| 0 <= k < i ==> #[trigger] rows@[k].heap_refs_ok(h),
            decreases rows@.len() - i,
        {
            let row = rows[i];
            if !((row.native_type.0 == 0 || (row.native_type.0 as usize) < h.blob)) {
                assert(!rows@[i as int].heap_refs_ok(h));
                return false;
            }
            i = i + 1;
        }
        true
    }
}

/// A row of the `DeclSecurity` table (0x0e).
#[derive(Debug, Clone, Copy, PartialEq, Eq, Structural)]
pub struct DeclSecurity {
    pub action: u16,
    pub parent: HasDeclSecurity,
    pub permission_set: BlobIndex,
}

impl DeclSecurity {
    /// The width of one row in bytes.
    pub open spec fn width() -> nat {
        6
    }

    /// The row read at `p`; meaningful where `valid_at` holds.
    pub open spec fn at(s: Seq<u8>, p: int) -> DeclSecurity {
        DeclSecurity {
            action: le16(s, p) as u16,
            parent: HasDeclSecurity::spec_decode(le16(s, p + 2) as u16)->0,
            permission_set: BlobIndex(le16(s, p + 4) as u32),
        }
    }

    /// Every coded index and enumerated field of the row at `p` is valid.
    pub open spec fn valid_at(s: Seq<u8>, p: int) -> bool {
        HasDeclSecurity::spec_decode(le16(s, p + 2) as u16) is Some
    }

    pub fn parse(s: &[u8], p: usize) -> (r: Option<DeclSecurity>)
        requires
            p + 6 <= s@.len(),
        ensures
            r is Some <==> Self::valid_at(s@, p as int),
            r is Some ==> r->0 == Self::at(s@, p as int),
    {
        let n = s.len();
        assert(p + 6 <= n);
        let parent = match HasDeclSecurity::decode(u16_at(s, p + 2)) {
            Some(v) => v,
            None => return None,
        };
        Some(DeclSecurity { action: u16_at(s, p), parent, permission_set: BlobIndex(u16_at(s, p + 4) as u32) })
    }

    /// Reads `count` consecutive rows from `start`.
    pub fn parse_rows(s: &[u8], start: usize, count: u32) -> (r: Option<Vec<DeclSecurity>>)
        requires
            start + count * 6 <= s@.len(),
        ensures
            r is Some <==> forall|i: int| 0 <= i < count ==> #[trigger] Self::valid_at(s@, start + i * 6),
            r matches Some(v) ==> v@.len() == count && forall|i: int|
                0 <= i < count ==> #[trigger] v@[i] == Self::at(s@, start + i * 6),
    {
        let n = s.len();
        let mut v: Vec<DeclSecurity> = Vec::new();
        let mut i: u32 = 0;
        while i < count
            invariant
                i <= count,
                s@.len() == n,
                start + count * 6 <= s@.len(),
                v@.len() == i,
                forall|k: int| 0 <= k < i ==> #[trigger] Self::valid_at(s@, start + k * 6),
                forall|k: int| 0 <= k < i ==> #[trigger] v@[k] == Self::at(s@, start + k * 6),
            decreases count - i,
        {
            assert(i * 6 + 6 <= count * 6) by (nonlinear_arith)
                requires
                    i < count,
            ;
            match Self::parse(s, start + i as usize * 6) {
                Some(row) => {
                    v.push(row);
                },
                None => {
                    return None;
                },
            }
            i = i + 1;
        }
        Some(v)
    }

    /// Every table index of the row is null or names an existing row; a
    /// list start may also be one past the last row.
    pub open spec fn table_refs_ok(self, counts: Seq<u32>) -> bool {
        self.parent.refs_ok(counts)
    }

    /// Every heap index of the row is null or inside its heap; a GUID index
    /// needs its 16 bytes inside.
    pub open spec fn heap_refs_ok(self, h: HeapSizes) -> bool {
        (self.permission_set.0 == 0 || self.permission_set.0 < h.blob)
    }

    pub fn rows_table_refs_ok(rows: &Vec<DeclSecurity>, counts: &[u32]) -> (r: bool)
        requires
            counts@.len() == TABLE_TAGS,
        ensures
            r == forall|i: int| 0 <= i < rows@.len() ==> #[trigger] rows@[i].table_refs_ok(counts@),
    {
        let mut i: usize = 0;
        while i < rows.len()
            invariant
                i <= rows@.len(),
                counts@.len() == TABLE_TAGS,
                forall|k: int| 0 <= k < i ==> #[trigger] rows@[k].table_refs_ok(counts@),
            decreases rows@.len() - i,
        {
            let row = rows[i];
            if !((row.parent.check_refs(counts))) {
                assert(!rows@[i as int].table_refs_ok(counts@));
                return false;
            }
            i = i + 1;
        }
        true
    }

    pub fn rows_heap_refs_ok(rows: &Vec<DeclSecurity>, h: HeapSizes) -> (r: bool)
        ensures
            r == forall|i: int| 0 <= i < rows@.len() ==> #[trigger] rows@[i].heap_refs_ok(h),
    {
        let mut i: usize = 0;
        while i < rows.len()
            invariant
                i <= rows@.len(),
                forall|k: int| 0 <= k < i ==> #[trigger] rows@[k].heap_refs_ok(h),
            decreases rows@.len() - i,
        {
            let row = rows[i];
            if !((row.permission_set.0 == 0 || (row.permission_set.0 as usize) < h.blob)) {
                assert(!rows@[i as int].heap_refs_ok(h));
                return false;
            }
            i = i + 1;
        }
        true
    }
}

/// A row of the `ClassLayout` table (0x0f).
#[derive(Debug, Clone, Copy, PartialEq, Eq, Structural)]
pub struct ClassLayout {
    pub packing_size: u16,
    pub class_size: u32,
    pub parent: TypeDefIndex,
}

impl ClassLayout {
    /// The width of one row in bytes.
    pub open spec fn width() -> nat {
        8
    }

    /// The row read at `p`; meaningful where `valid_at` holds.
    pub open spec fn at(s: Seq<u8>, p: int) -> ClassLayout {
        ClassLayout {
            packing_size: le16(s, p) as u16,
            class_size: le32(s, p + 2) as u32,
            parent: TypeDefIndex(le16(s, p + 6) as u32),
        }
    }

    /// Every coded index and enumerated field of the row at `p` is valid.
    pub open spec fn valid_at(s: Seq<u8>, p: int) -> bool {
        true
    }

    pub fn parse(s: &[u8], p: usize) -> (r: Option<ClassLayout>)
        requires
            p + 8 <= s@.len(),
        ensures
            r is Some <==> Self::valid_at(s@, p as int),
            r is Some ==> r->0 == Self::at(s@, p as int),
    {
        let n = s.len();
        assert(p + 8 <= n);
        Some(ClassLayout { packing_size: u16_at(s, p), class_size: u32_at(s, p + 2), parent: TypeDefIndex(u16_at(s, p + 6) as u32) })
    }

    /// Reads `count` consecutive rows from `start`.
    pub fn parse_rows(s: &[u8], start: usize, count: u32) -> (r: Option<Vec<ClassLayout>>)
        requires
            start + count * 8 <= s@.len(),
        ensures
            r is Some <==> forall|i: int| 0 <= i < count ==> #[trigger] Self::valid_at(s@, start + i * 8),
            r matches Some(v) ==> v@.len() == count && forall|i: int|
                0 <= i < count ==> #[trigger] v@[i] == Self::at(s@, start + i * 8),
    {
        let n = s.len();
        let mut v: Vec<ClassLayout> = Vec::new();
        let mut i: u32 = 0;
        while i < count
            invariant
                i <= count,
                s@.len() == n,
                start + count * 8 <= s@.len(),
                v@.len() == i,
                forall|k: int| 0 <= k < i ==> #[trigger] Self::valid_at(s@, start + k * 8),
                forall|k: int| 0 <= k < i ==> #[trigger] v@[k] == Self::at(s@, start + k * 8),
            decreases count - i,
        {
            assert(i * 8 + 8 <= count * 8) by (nonlinear_arith)
                requires
                    i < count,
            ;
            match Self::parse(s, start + i as usize * 8) {
                Some(row) => {
                    v.push(row);
                },
                None => {
                    return None;
                },
            }
            i = i + 1;
        }
        Some(v)
    }

    /// Every table index of the row is null or names an existing row; a
    /// list start may also be one past the last row.
    pub open spec fn table_refs_ok(self, counts: Seq<u32>) -> bool {
        self.parent.0 <= counts[0x02]
    }

    /// Every heap index of the row is null or inside its heap; a GUID index
    /// needs its 16 bytes inside.
    pub open spec fn heap_refs_ok(self, h: HeapSizes) -> bool {
        true
    }

    pub fn rows_table_refs_ok(rows: &Vec<ClassLayout>, counts: &[u32]) -> (r: bool)
        requires
            counts@.len() == TABLE_TAGS,
        ensures
            r == forall|i: int| 0 <= i < rows@.len() ==> #[trigger] rows@[i].table_refs_ok(counts@),
    {
        let mut i: usize = 0;
        while i < rows.len()
            invariant
                i <= rows@.len(),
                counts@.len() == TABLE_TAGS,
                forall|k: int| 0 <= k < i ==> #[trigger] rows@[k].table_refs_ok(counts@),
            decreases rows@.len() - i,
        {
            let row = rows[i];
            if !((row.parent.0 <= counts[0x02])) {
                assert(!rows@[i as int].table_refs_ok(counts@));
                return false;
            }
            i = i + 1;
        }
        true
    }

    pub fn rows_heap_refs_ok(rows: &Vec<ClassLayout>, h: HeapSizes) -> (r: bool)
        ensures
            r == forall|i: int| 0 <= i < rows@.len() ==> #[trigger] rows@[i].heap_refs_ok(h),
    {
        true
    }
}

/// A row of the `FieldLayout` table (0x10).
#[derive(Debug, Clone, Copy, PartialEq, Eq, Structural)]
pub struct FieldLayout {
    pub offset: u32,
    pub field: FieldIndex,
}

impl FieldLayout {
    /// The width of one row in bytes.
    pub open spec fn width() -> nat {
        6
    }

    /// The row read at `p`; meaningful where `valid_at` holds.
    pub open spec fn at(s: Seq<u8>, p: int) -> FieldLayout {
        FieldLayout {
            offset: le32(s, p) as u32,
            field: FieldIndex(le16(s, p + 4) as u32),
        }
    }

    /// Every coded index and enumerated field of the row at `p` is valid.
    pub open spec fn valid_at(s: Seq<u8>, p: int) -> bool {
        true
    }

    pub fn parse(s: &[u8], p: usize) -> (r: Option<FieldLayout>)
        requires
            p + 6 <= s@.len(),
        ensures
            r is Some <==> Self::valid_at(s@, p as int),
            r is Some ==> r->0 == Self::at(s@, p as int),
    {
        let n = s.len();
        assert(p + 6 <= n);
        Some(FieldLayout { offset: u32_at(s, p), field: FieldIndex(u16_at(s, p + 4) as u32) })
    }

    /// Reads `count` consecutive rows from `start`.
    pub fn parse_rows(s: &[u8], start: usize, count: u32) -> (r: Option<Vec<FieldLayout>>)
        requires
            start + count * 6 <= s@.len(),
        ensures
            r is Some <==> forall|i: int| 0 <= i < count ==> #[trigger] Self::valid_at(s@, start + i * 6),
            r matches Some(v) ==> v@.len() == count && forall|i: int|
                0 <= i < count ==> #[trigger] v@[i] == Self::at(s@, start + i * 6),
    {
        let n = s.len();
        let mut v: Vec<FieldLayout> = Vec::new();
        let mut i: u32 = 0;
        while i < count
            invariant
                i <= count,
                s@.len() == n,
                start + count * 6 <= s@.len(),
                v@.len() == i,
                forall|k: int| 0 <= k < i ==> #[trigger] Self::valid_at(s@, start + k * 6),
                forall|k: int| 0 <= k < i ==> #[trigger] v@[k] == Self::at(s@, start + k * 6),
            decreases count - i,
        {
            assert(i * 6 + 6 <= count * 6) by (nonlinear_arith)
                requires
                    i < count,
            ;
            match Self::parse(s, start + i as usize * 6) {
                Some(row) => {
                    v.push(row);
                },
                None => {
                    return None;
                },
            }
            i = i + 1;
        }
        Some(v)
    }

    /// Every table index of the row is null or names an existing row; a
    /// list start may also be one past the last row.
    pub open spec fn table_refs_ok(self, counts: Seq<u32>) -> bool {
        self.field.0 <= counts[0x04]
    }

    /// Every heap index of the row is null or inside its heap; a GUID index
    /// needs its 16 bytes inside.
    pub open spec fn heap_refs_ok(self, h: HeapSizes) -> bool {
        true
    }

    pub fn rows_table_refs_ok(rows: &Vec<FieldLayout>, counts: &[u32]) -> (r: bool)
        requires
            counts@.len() == TABLE_TAGS,
        ensures
            r == forall|i: int| 0 <= i < rows@.len() ==> #[trigger] rows@[i].table_refs_ok(counts@),
    {
        let mut i: usize = 0;
        while i < rows.len()
            invariant
                i <= rows@.len(),
                counts@.len() == TABLE_TAGS,
                forall|k: int| 0 <= k < i ==> #[trigger] rows@[k].table_refs_ok(counts@),
            decreases rows@.len() - i,
        {
            let row = rows[i];
            if !((row.field.0 <= counts[0x04])) {
                assert(!rows@[i as int].table_refs_ok(counts@));
                return false;
            }
            i = i + 1;
        }
        true
    }

    pub fn rows_heap_refs_ok(rows: &Vec<FieldLayout>, h: HeapSizes) -> (r: bool)
        ensures
            r == forall|i: int| 0 <= i < rows@.len() ==> #[trigger] rows@[i].heap_refs_ok(h),
    {
        true
    }
}

/// A row of the `StandAloneSig` table (0x11).
#[derive(Debug, Clone, Copy, PartialEq, Eq, Structural)]
pub struct StandAloneSig {
    pub signature: BlobIndex,
}

impl StandAloneSig {
    /// The width of one row in bytes.
    pub open spec fn width() -> nat {
        2
    }

    /// The row read at `p`; meaningful where `valid_at` holds.
    pub open spec fn at(s: Seq<u8>, p: int) -> StandAloneSig {
        StandAloneSig {
            signature: BlobIndex(le16(s, p) as u32),
        }
    }

    /// Every coded index and enumerated field of the row at `p` is valid.
    pub open spec fn valid_at(s: Seq<u8>, p: int) -> bool {
        true
    }

    pub fn parse(s: &[u8], p: usize) -> (r: Option<StandAloneSig>)
        requires
            p + 2 <= s@.len(),
        ensures
            r is Some <==> Self::valid_at(s@, p as int),
            r is Some ==> r->0 == Self::at(s@, p as int),
    {
        let n = s.len();
        assert(p + 2 <= n);
        Some(StandAloneSig { signature: BlobIndex(u16_at(s, p) as u32) })
    }

    /// Reads `count` consecutive rows from `start`.
    pub fn parse_rows(s: &[u8], start: usize, count: u32) -> (r: Option<Vec<StandAloneSig>>)
        requires
            start + count * 2 <= s@.len(),
        ensures
            r is Some <==> forall|i: int| 0 <= i < count ==> #[trigger] Self::valid_at(s@, start + i * 2),
            r matches Some(v) ==> v@.len() == count && forall|i: int|
                0 <= i < count ==> #[trigger] v@[i] == Self::at(s@, start + i * 2),
    {
        let n = s.len();
        let mut v: Vec<StandAloneSig> = Vec::new();
        let mut i: u32 = 0;
        while i < count
            invariant
                i <= count,
                s@.len() == n,
                start + count * 2 <= s@.len(),
                v@.len() == i,
                forall|k: int| 0 <= k < i ==> #[trigger] Self::valid_at(s@, start + k * 2),
                forall|k: int| 0 <= k < i ==> #[trigger] v@[k] == Self::at(s@, start + k * 2),
            decreases count - i,
        {
            assert(i * 2 + 2 <= count * 2) by (nonlinear_arith)
                requires
                    i < count,
            ;
            match Self::parse(s, start + i as usize * 2) {
                Some(row) => {
                    v.push(row);
                },
                None => {
                    return None;
                },
            }
            i = i + 1;
        }
        Some(v)
    }

    /// Every table index of the row is null or names an existing row; a
    /// list start may also be one past the last row.
    pub open spec fn table_refs_ok(self, counts: Seq<u32>) -> bool {
        true
    }

    /// Every heap index of the row is null or inside its heap; a GUID index
    /// needs its 16 bytes inside.
    pub open spec fn heap_refs_ok(self, h: HeapSizes) -> bool {
        (self.signature.0 == 0 || self.signature.0 < h.blob)
    }

    pub fn rows_table_refs_ok(rows: &Vec<StandAloneSig>, counts: &[u32]) -> (r: bool)
        requires
            counts@.len() == TABLE_TAGS,
        ensures
            r == forall|i: int| 0 <= i < rows@.len() ==> #[trigger] rows@[i].table_refs_ok(counts@),
    {
        true
    }

    pub fn rows_heap_refs_ok(rows: &Vec<StandAloneSig>, h: HeapSizes) -> (r: bool)
        ensures
            r == forall|i: int| 0 <= i < rows@.len() ==> #[trigger] rows@[i].heap_refs_ok(h),
    {
        let mut i: usize = 0;
        while i < rows.len()
            invariant
                i <= rows@.len(),
                forall|k: int| 0 <= k < i ==> #[trigger] rows@[k].heap_refs_ok(h),
            decreases rows@.len() - i,
        {
            let row = rows[i];
            if !((row.signature.0 == 0 || (row.signature.0 as usize) < h.blob)) {
                assert(!rows@[i as int].heap_refs_ok(h));
                return false;
            }
            i = i + 1;
        }
        true
    }
}

/// A row of the `EventMap` table (0x12).
#[derive(Debug, Clone, Copy, PartialEq, Eq, Structural)]
pub struct EventMap {
    pub parent: TypeDefIndex,
    pub event_list: EventIndex,
}

impl EventMap {
    /// The width of one row in bytes.
    pub open spec fn width() -> nat {
        4
    }

    /// The row read at `p`; meaningful where `valid_at` holds.
    pub open spec fn at(s: Seq<u8>, p: int) -> EventMap {
        EventMap {
            parent: TypeDefIndex(le16(s, p) as u32),
            event_list: EventIndex(le16(s, p + 2) as u32),
        }
    }

    /// Every coded index and enumerated field of the row at `p` is valid.
    pub open spec fn valid_at(s: Seq<u8>, p: int) -> bool {
        true
    }

    pub fn parse(s: &[u8], p: usize) -> (r: Option<EventMap>)
        requires
            p + 4 <= s@.len(),
        ensures
            r is Some <==> Self::valid_at(s@, p as int),
            r is Some ==> r->0 == Self::at(s@, p as int),
    {
        let n = s.len();
        assert(p + 4 <= n);
        Some(EventMap { parent: TypeDefIndex(u16_at(s, p) as u32), event_list: EventIndex(u16_at(s, p + 2) as u32) })
    }

    /// Reads `count` consecutive rows from `start`.
    pub fn parse_rows(s: &[u8], start: usize, count: u32) -> (r: Option<Vec<EventMap>>)
        requires
            start + count * 4 <= s@.len(),
        ensures
            r is Some <==> forall|i: int| 0 <= i < count ==> #[trigger] Self::valid_at(s@, start + i * 4),
            r matches Some(v) ==> v@.len() == count && forall|i: int|
                0 <= i < count ==> #[trigger] v@[i] == Self::at(s@, start + i * 4),
    {
        let n = s.len();
        let mut v: Vec<EventMap> = Vec::new();
        let mut i: u32 = 0;
        while i < count
            invariant
                i <= count,
                s@.len() == n,
                start + count * 4 <= s@.len(),
                v@.len() == i,
                forall|k: int| 0 <= k < i ==> #[trigger] Self::valid_at(s@, start + k * 4),
                forall|k: int| 0 <= k < i ==> #[trigger] v@[k] == Self::at(s@, start + k * 4),
            decreases count - i,
        {
            assert(i * 4 + 4 <= count * 4) by (nonlinear_arith)
                requires
                    i < count,
            ;
            match Self::parse(s, start + i as usize * 4) {
                Some(row) => {
                    v.push(row);
                },
                None => {
                    return None;
                },
            }
            i = i + 1;
        }
        Some(v)
    }

    /// Every table index of the row is null or names an existing row; a
    /// list start may also be one past the last row.
    pub open spec fn table_refs_ok(self, counts: Seq<u32>) -> bool {
        self.parent.0 <= counts[0x02] && self.event_list.0 <= counts[0x14] + 1
    }

    /// Every heap index of the row is null or inside its heap; a GUID index
    /// needs its 16 bytes inside.
    pub open spec fn heap_refs_ok(self, h: HeapSizes) -> bool {
        true
    }

    pub fn rows_table_refs_ok(rows: &Vec<EventMap>, counts: &[u32]) -> (r: bool)
        requires
            counts@.len() == TABLE_TAGS,
        ensures
            r == forall|i: int| 0 <= i < rows@.len() ==> #[trigger] rows@[i].table_refs_ok(counts@),
    {
        let mut i: usize = 0;
        while i < rows.len()
            invariant
                i <= rows@.len(),
                counts@.len() == TABLE_TAGS,
                forall|k: int| 0 <= k < i ==> #[trigger] rows@[k].table_refs_ok(counts@),
            decreases rows@.len() - i,
        {
            let row = rows[i];
            if !((row.parent.0 <= counts[0x02]) && (row.event_list.0 as u64 <= counts[0x14] as u64 + 1)) {
                assert(!rows@[i as int].table_refs_ok(counts@));
                return false;
            }
            i = i + 1;
        }
        true
    }

    pub fn rows_heap_refs_ok(rows: &Vec<EventMap>, h: HeapSizes) -> (r: bool)
        ensures
            r == forall|i: int| 0 <= i < rows@.len() ==> #[trigger] rows@[i].heap_refs_ok(h),
    {
        true
    }
}

/// A row of the `Event` table (0x14).
#[derive(Debug, Clone, Copy, PartialEq, Eq, Structural)]
pub struct Event {
    pub flags: EventAttributes,
    pub name: StringIndex,
    pub ty: TypeDefOrRef,
}

impl Event {
    /// The width of one row in bytes.
    pub open spec fn width() -> nat {
        6
    }

    /// The row read at `p`; meaningful where `valid_at` holds.
    pub open spec fn at(s: Seq<u8>, p: int) -> Event {
        Event {
            flags: EventAttributes(le16(s, p) as u16),
            name: StringIndex(le16(s, p + 2) as u32),
            ty: TypeDefOrRef::spec_decode(le16(s, p + 4) as u16)->0,
        }
    }

    /// Every coded index and enumerated field of the row at `p` is valid.
    pub open spec fn valid_at(s: Seq<u8>, p: int) -> bool {
        TypeDefOrRef::spec_decode(le16(s, p + 4) as u16) is Some
    }

    pub fn parse(s: &[u8], p: usize) -> (r: Option<Event>)
        requires
            p + 6 <= s@.len(),
        ensures
            r is Some <==> Self::valid_at(s@, p as int),
            r is Some ==> r->0 == Self::at(s@, p as int),
    {
        let n = s.len();
        assert(p + 6 <= n);
        let ty = match TypeDefOrRef::decode(u16_at(s, p + 4)) {
            Some(v) => v,
            None => return None,
        };
        Some(Event { flags: EventAttributes(u16_at(s, p)), name: StringIndex(u16_at(s, p + 2) as u32), ty })
    }

    /// Reads `count` consecutive rows from `start`.
    pub fn parse_rows(s: &[u8], start: usize, count: u32) -> (r: Option<Vec<Event>>)
        requires
            start + count * 6 <= s@.len(),
        ensures
            r is Some <==> forall|i: int| 0 <= i < count ==> #[trigger] Self::valid_at(s@, start + i * 6),
            r matches Some(v) ==> v@.len() == count && forall|i: int|
                0 <= i < count ==> #[trigger] v@[i] == Self::at(s@, start + i * 6),
    {
        let n = s.len();
        let mut v: Vec<Event> = Vec::new();
        let mut i: u32 = 0;
        while i < count
            invariant
                i <= count,
                s@.len() == n,
                start + count * 6 <= s@.len(),
                v@.len() == i,
                forall|k: int| 0 <= k < i ==> #[trigger] Self::valid_at(s@, start + k * 6),
                forall|k: int| 0 <= k < i ==> #[trigger] v@[k] == Self::at(s@, start + k * 6),
            decreases count - i,
        {
            assert(i * 6 + 6 <= count * 6) by (nonlinear_arith)
                requires
                    i < count,
            ;
            match Self::parse(s, start + i as usize * 6) {
                Some(row) => {
                    v.push(row);
                },
                None => {
                    return None;
                },
            }
            i = i + 1;
        }
        Some(v)
    }

    /// Every table index of the row is null or names an existing row; a
    /// list start may also be one past the last row.
    pub open spec fn table_refs_ok(self, counts: Seq<u32>) -> bool {
        self.ty.refs_ok(counts)
    }

    /// Every heap index of the row is null or inside its heap; a GUID index
    /// needs its 16 bytes inside.
    pub open spec fn heap_refs_ok(self, h: HeapSizes) -> bool {
        (self.name.0 == 0 || self.name.0 < h.strings)
    }

    pub fn rows_table_refs_ok(rows: &Vec<Event>, counts: &[u32]) -> (r: bool)
        requires
            counts@.len() == TABLE_TAGS,
        ensures
            r == forall|i: int| 0 <= i < rows@.len() ==> #[trigger] rows@[i].table_refs_ok(counts@),
    {
        let mut i: usize = 0;
        while i < rows.len()
            invariant
                i <= rows@.len(),
                counts@.len() == TABLE_TAGS,
                forall|k: int| 0 <= k < i ==> #[trigger] rows@[k].table_refs_ok(counts@),
            decreases rows@.len() - i,
        {
            let row = rows[i];
            if !((row.ty.check_refs(counts))) {
                assert(!rows@[i as int].table_refs_ok(counts@));
                return false;
            }
            i = i + 1;
        }
        true
    }

    pub fn rows_heap_refs_ok(rows: &Vec<Event>, h: HeapSizes) -> (r: bool)
        ensures
            r == forall|i: int| 0 <= i < rows@.len() ==> #[trigger] rows@[i].heap_refs_ok(h),
    {
        let mut i: usize = 0;
        while i < rows.len()
            invariant
                i <= rows@.len(),
                forall|k: int| 0 <= k < i ==> #[trigger] rows@[k].heap_refs_ok(h),
            decreases rows@.len() - i,
        {
            let row = rows[i];
            if !((row.name.0 == 0 || (row.name.0 as usize) < h.strings)) {
                assert(!rows@[i as int].heap_refs_ok(h));
                return false;
            }
            i = i + 1;
        }
        true
    }
}

/// A row of the `PropertyMap` table (0x15).
#[derive(Debug, Clone, Copy, PartialEq, Eq, Structural)]
pub struct PropertyMap {
    pub parent: TypeDefIndex,
    pub property_list: PropertyIndex,
}

impl PropertyMap {
    /// The width of one row in bytes.
    pub open spec fn width() -> nat {
        4
    }

    /// The row read at `p`; meaningful where `valid_at` holds.
    pub open spec fn at(s: Seq<u8>, p: int) -> PropertyMap {
        PropertyMap {
            parent: TypeDefIndex(le16(s, p) as u32),
            property_list: PropertyIndex(le16(s, p + 2) as u32),
        }
    }

    /// Every coded index and enumerated field of the row at `p` is valid.
    pub open spec fn valid_at(s: Seq<u8>, p: int) -> bool {
        true
    }

    pub fn parse(s: &[u8], p: usize) -> (r: Option<PropertyMap>)
        requires
            p + 4 <= s@.len(),
        ensures
            r is Some <==> Self::valid_at(s@, p as int),
            r is Some ==> r->0 == Self::at(s@, p as int),
    {
        let n = s.len();
        assert(p + 4 <= n);
        Some(PropertyMap { parent: TypeDefIndex(u16_at(s, p) as u32), property_list: PropertyIndex(u16_at(s, p + 2) as u32) })
    }

    /// Reads `count` consecutive rows from `start`.
    pub fn parse_rows(s: &[u8], start: usize, count: u32) -> (r: Option<Vec<PropertyMap>>)
        requires
            start + count * 4 <= s@.len(),
        ensures
            r is Some <==> forall|i: int| 0 <= i < count ==> #[trigger] Self::valid_at(s@, start + i * 4),
            r matches Some(v) ==> v@.len() == count && forall|i: int|
                0 <= i < count ==> #[trigger] v@[i] == Self::at(s@, start + i * 4),
    {
        let n = s.len();
        let mut v: Vec<PropertyMap> = Vec::new();
        let mut i: u32 = 0;
        while i < count
            invariant
                i <= count,
                s@.len() == n,
                start + count * 4 <= s@.len(),
                v@.len() == i,
                forall|k: int| 0 <= k < i ==> #[trigger] Self::valid_at(s@, start + k * 4),
                forall|k: int| 0 <= k < i ==> #[trigger] v@[k] == Self::at(s@, start + k * 4),
            decreases count - i,
        {
            assert(i * 4 + 4 <= count * 4) by (nonlinear_arith)
                requires
                    i < count,
            ;
            match Self::parse(s, start + i as usize * 4) {
                Some(row) => {
                    v.push(row);
                },
                None => {
                    return None;
                },
            }
            i = i + 1;
        }
        Some(v)
    }

    /// Every table index of the row is null or names an existing row; a
    /// list start may also be one past the last row.
    pub open spec fn table_refs_ok(self, counts: Seq<u32>) -> bool {
        self.parent.0 <= counts[0x02] && self.property_list.0 <= counts[0x17] + 1
    }

    /// Every heap index of the row is null or inside its heap; a GUID index
    /// needs its 16 bytes inside.
    pub open spec fn heap_refs_ok(self, h: HeapSizes) -> bool {
        true
    }

    pub fn rows_table_refs_ok(rows: &Vec<PropertyMap>, counts: &[u32]) -> (r: bool)
        requires
            counts@.len() == TABLE_TAGS,
        ensures
            r == forall|i: int| 0 <= i < rows@.len() ==> #[trigger] rows@[i].table_refs_ok(counts@),
    {
        let mut i: usize = 0;
        while i < rows.len()
            invariant
                i <= rows@.len(),
                counts@.len() == TABLE_TAGS,
                forall|k: int| 0 <= k < i ==> #[trigger] rows@[k].table_refs_ok(counts@),
            decreases rows@.len() - i,
        {
            let row = rows[i];
            if !((row.parent.0 <= counts[0x02]) && (row.property_list.0 as u64 <= counts[0x17] as u64 + 1)) {
                assert(!rows@[i as int].table_refs_ok(counts@));
                return false;
            }
            i = i + 1;
        }
        true
    }

    pub fn rows_heap_refs_ok(rows: &Vec<PropertyMap>, h: HeapSizes) -> (r: bool)
        ensures
            r == forall|i: int| 0 <= i < rows@.len() ==> #[trigger] rows@[i].heap_refs_ok(h),
    {
        true
    }
}

/// A row of the `Property` table (0x17).
#[derive(Debug, Clone, Copy, PartialEq, Eq, Structural)]
pub struct Property {
    pub flags: PropertyAttributes,
    pub name: StringIndex,
    pub ty: BlobIndex,
}

impl Property {
    /// The width of one row in bytes.
    pub open spec fn width() -> nat {
        6
    }

    /// The row read at `p`; meaningful where `valid_at` holds.
    pub open spec fn at(s: Seq<u8>, p: int) -> Property {
        Property {
            flags: PropertyAttributes(le16(s, p) as u16),
            name: StringIndex(le16(s, p + 2) as u32),
            ty: BlobIndex(le16(s, p + 4) as u32),
        }
    }

    /// Every coded index and enumerated field of the row at `p` is valid.
    pub open spec fn valid_at(s: Seq<u8>, p: int) -> bool {
        true
    }

    pub fn parse(s: &[u8], p: usize) -> (r: Option<Property>)
        requires
            p + 6 <= s@.len(),
        ensures
            r is Some <==> Self::valid_at(s@, p as int),
            r is Some ==> r->0 == Self::at(s@, p as int),
    {
        let n = s.len();
        assert(p + 6 <= n);
        Some(Property { flags: PropertyAttributes(u16_at(s, p)), name: StringIndex(u16_at(s, p + 2) as u32), ty: BlobIndex(u16_at(s, p + 4) as u32) })
    }

    /// Reads `count` consecutive rows from `start`.
    pub fn parse_rows(s: &[u8], start: usize, count: u32) -> (r: Option<Vec<Property>>)
        requires
            start + count * 6 <= s@.len(),
        ensures
            r is Some <==> forall|i: int| 0 <= i < count ==> #[trigger] Self::valid_at(s@, start + i * 6),
            r matches Some(v) ==> v@.len() == count && forall|i: int|
                0 <= i < count ==> #[trigger] v@[i] == Self::at(s@, start + i * 6),
    {
        let n = s.len();
        let mut v: Vec<Property> = Vec::new();
        let mut i: u32 = 0;
        while i < count
            invariant
                i <= count,
                s@.len() == n,
                start + count * 6 <= s@.len(),
                v@.len() == i,
                forall|k: int| 0 <= k < i ==> #[trigger] Self::valid_at(s@, start + k * 6),
                forall|k: int| 0 <= k < i ==> #[trigger] v@[k] == Self::at(s@, start + k * 6),
            decreases count - i,
        {
            assert(i * 6 + 6 <= count * 6) by (nonlinear_arith)
                requires
                    i < count,
            ;
            match Self::parse(s, start + i as usize * 6) {
                Some(row) => {
                    v.push(row);
                },
                None => {
                    return None;
                },
            }
            i = i + 1;
        }
        Some(v)
    }

    /// Every table index of the row is null or names an existing row; a
    /// list start may also be one past the last row.
    pub open spec fn table_refs_ok(self, counts: Seq<u32>) -> bool {
        true
    }

    /// Every heap index of the row is null or inside its heap; a GUID index
    /// needs its 16 bytes inside.
    pub open spec fn heap_refs_ok(self, h: HeapSizes) -> bool {
        (self.name.0 == 0 || self.name.0 < h.strings) && (self.ty.0 == 0 || self.ty.0 < h.blob)
    }

    pub fn rows_table_refs_ok(rows: &Vec<Property>, counts: &[u32]) -> (r: bool)
        requires
            counts@.len() == TABLE_TAGS,
        ensures
            r == forall|i: int| 0 <= i < rows@.len() ==> #[trigger] rows@[i].table_refs_ok(counts@),
    {
        true
    }

    pub fn rows_heap_refs_ok(rows: &Vec<Property>, h: HeapSizes) -> (r: bool)
        ensures
            r == forall|i: int| 0 <= i < rows@.len() ==> #[trigger] rows@[i].heap_refs_ok(h),
    {
        let mut i: usize = 0;
        while i < rows.len()
            invariant
                i <= rows@.len(),
                forall|k: int| 0 <= k < i ==> #[trigger] rows@[k].heap_refs_ok(h),
            decreases rows@.len() - i,
        {
            let row = rows[i];
            if !((row.name.0 == 0 || (row.name.0 as usize) < h.strings) && (row.ty.0 == 0 || (row.ty.0 as usize) < h.blob)) {
                assert(!rows@[i as int].heap_refs_ok(h));
                return false;
            }
            i = i + 1;
        }
        true
    }
}

/// A row of the `MethodSemantics` table (0x18).
#[derive(Debug, Clone, Copy, PartialEq, Eq, Structural)]
pub struct MethodSemantics {
    pub semantics: MethodSemanticsAttributes,
    pub method: MethodDefIndex,
    pub association: HasSemantics,
}

impl MethodSemantics {
    /// The width of one row in bytes.
    pub open spec fn width() -> nat {
        6
    }

    /// The row read at `p`; meaningful where `valid_at` holds.
    pub open spec fn at(s: Seq<u8>, p: int) -> MethodSemantics {
        MethodSemantics {
            semantics: MethodSemanticsAttributes(le16(s, p) as u16),
            method: MethodDefIndex(le16(s, p + 2) as u32),
            association: HasSemantics::spec_decode(le16(s, p + 4) as u16)->0,
        }
    }

    /// Every coded index and enumerated field of the row at `p` is valid.
    pub open spec fn valid_at(s: Seq<u8>, p: int) -> bool {
        HasSemantics::spec_decode(le16(s, p + 4) as u16) is Some
    }

    pub fn parse(s: &[u8], p: usize) -> (r: Option<MethodSemantics>)
        requires
            p + 6 <= s@.len(),
        ensures
            r is Some <==> Self::valid_at(s@, p as int),
            r is Some ==> r->0 == Self::at(s@, p as int),
    {
        let n = s.len();
        assert(p + 6 <= n);
        let association = match HasSemantics::decode(u16_at(s, p + 4)) {
            Some(v) => v,
            None => return None,
        };
        Some(MethodSemantics { semantics: MethodSemanticsAttributes(u16_at(s, p)), method: MethodDefIndex(u16_at(s, p + 2) as u32), association })
    }

    /// Reads `count` consecutive rows from `start`.
    pub fn parse_rows(s: &[u8], start: usize, count: u32) -> (r: Option<Vec<MethodSemantics>>)
        requires
            start + count * 6 <= s@.len(),
        ensures
            r is Some <==> forall|i: int| 0 <= i < count ==> #[trigger] Self::valid_at(s@, start + i * 6),
            r matches Some(v) ==> v@.len() == count && forall|i: int|
                0 <= i < count ==> #[trigger] v@[i] == Self::at(s@, start + i * 6),
    {
        let n = s.len();
        let mut v: Vec<MethodSemantics> = Vec::new();
        let mut i: u32 = 0;
        while i < count
            invariant
                i <= count,
                s@.len() == n,
                start + count * 6 <= s@.len(),
                v@.len() == i,
                forall|k: int| 0 <= k < i ==> #[trigger] Self::valid_at(s@, start + k * 6),
                forall|k: int| 0 <= k < i ==> #[trigger] v@[k] == Self::at(s@, start + k * 6),
            decreases count - i,
        {
            assert(i * 6 + 6 <= count * 6) by (nonlinear_arith)
                requires
                    i < count,
            ;
            match Self::parse(s, start + i as usize * 6) {
                Some(row) => {
                    v.push(row);
                },
                None => {
                    return None;
                },
            }
            i = i + 1;
        }
        Some(v)
    }

    /// Every table index of the row is null or names an existing row; a
    /// list start may also be one past the last row.
    pub open spec fn table_refs_ok(self, counts: Seq<u32>) -> bool {
        self.method.0 <= counts[0x06] && self.association.refs_ok(counts)
    }

    /// Every heap index of the row is null or inside its heap; a GUID index
    /// needs its 16 bytes inside.
    pub open spec fn heap_refs_ok(self, h: HeapSizes) -> bool {
        true
    }

    pub fn rows_table_refs_ok(rows: &Vec<MethodSemantics>, counts: &[u32]) -> (r: bool)
        requires
            counts@.len() == TABLE_TAGS,
        ensures
            r == forall|i: int| 0 <= i < rows@.len() ==> #[trigger] rows@[i].table_refs_ok(counts@),
    {
        let mut i: usize = 0;
        while i < rows.len()
            invariant
                i <= rows@.len(),
                counts@.len() == TABLE_TAGS,
                forall|k: int| 0 <= k < i ==> #[trigger] rows@[k].table_refs_ok(counts@),
            decreases rows@.len() - i,
        {
            let row = rows[i];
            if !((row.method.0 <= counts[0x06]) && (row.association.check_refs(counts))) {
                assert(!rows@[i as int].table_refs_ok(counts@));
                return false;
            }
            i = i + 1;
        }
        true
    }

    pub fn rows_heap_refs_ok(rows: &Vec<MethodSemantics>, h: HeapSizes) -> (r: bool)
        ensures
            r == forall|i: int| 0 <= i < rows@.len() ==> #[trigger] rows@[i].heap_refs_ok(h),
    {
        true
    }
}

/// A row of the `MethodImpl` table (0x19).
#[derive(Debug, Clone, Copy, PartialEq, Eq, Structural)]
pub struct MethodImpl {
    pub class: TypeDefIndex,
    pub body: MethodDefOrRef,
    pub declaration: MethodDefOrRef,
}

impl MethodImpl {
    /// The width of one row in bytes.
    pub open spec fn width() -> nat {
        6
    }

    /// The row read at `p`; meaningful where `valid_at` holds.
    pub open spec fn at(s: Seq<u8>, p: int) -> MethodImpl {
        MethodImpl {
            class: TypeDefIndex(le16(s, p) as u32),
            body: MethodDefOrRef::spec_decode(le16(s, p + 2) as u16)->0,
            declaration: MethodDefOrRef::spec_decode(le16(s, p + 4) as u16)->0,
        }
    }

    /// Every coded index and enumerated field of the row at `p` is valid.
    pub open spec fn valid_at(s: Seq<u8>, p: int) -> bool {
        MethodDefOrRef::spec_decode(le16(s, p + 2) as u16) is Some
            && MethodDefOrRef::spec_decode(le16(s, p + 4) as u16) is Some
    }

    pub fn parse(s: &[u8], p: usize) -> (r: Option<MethodImpl>)
        requires
            p + 6 <= s@.len(),
        ensures
            r is Some <==> Self::valid_at(s@, p as int),
            r is Some ==> r->0 == Self::at(s@, p as int),
    {
        let n = s.len();
        assert(p + 6 <= n);
        let body = match MethodDefOrRef::decode(u16_at(s, p + 2)) {
            Some(v) => v,
            None => return None,
        };
        let declaration = match MethodDefOrRef::decode(u16_at(s, p + 4)) {
            Some(v) => v,
            None => return None,
        };
        Some(MethodImpl { class: TypeDefIndex(u16_at(s, p) as u32), body, declaration })
    }

    /// Reads `count` consecutive rows from `start`.
    pub fn parse_rows(s: &[u8], start: usize, count: u32) -> (r: Option<Vec<MethodImpl>>)
        requires
            start + count * 6 <= s@.len(),
        ensures
            r is Some <==> forall|i: int| 0 <= i < count ==> #[trigger] Self::valid_at(s@, start + i * 6),
            r matches Some(v) ==> v@.len() == count && forall|i: int|
                0 <= i < count ==> #[trigger] v@[i] == Self::at(s@, start + i * 6),
    {
        let n = s.len();
        let mut v: Vec<MethodImpl> = Vec::new();
        let mut i: u32 = 0;
        while i < count
            invariant
                i <= count,
                s@.len() == n,
                start + count * 6 <= s@.len(),
                v@.len() == i,
                forall|k: int| 0 <= k < i ==> #[trigger] Self::valid_at(s@, start + k * 6),
                forall|k: int| 0 <= k < i ==> #[trigger] v@[k] == Self::at(s@, start + k * 6),
            decreases count - i,
        {
            assert(i * 6 + 6 <= count * 6) by (nonlinear_arith)
                requires
                    i < count,
            ;
            match Self::parse(s, start + i as usize * 6) {
                Some(row) => {
                    v.push(row);
                },
                None => {
                    return None;
                },
            }
            i = i + 1;
        }
        Some(v)
    }

    /// Every table index of the row is null or names an existing row; a
    /// list start may also be one past the last row.
    pub open spec fn table_refs_ok(self, counts: Seq<u32>) -> bool {
        self.class.0 <= counts[0x02] && self.body.refs_ok(counts) && self.declaration.refs_ok(counts)
    }

    /// Every heap index of the row is null or inside its heap; a GUID index
    /// needs its 16 bytes inside.
    pub open spec fn heap_refs_ok(self, h: HeapSizes) -> bool {
        true
    }

    pub fn rows_table_refs_ok(rows: &Vec<MethodImpl>, counts: &[u32]) -> (r: bool)
        requires
            counts@.len() == TABLE_TAGS,
        ensures
            r == forall|i: int| 0 <= i < rows@.len() ==> #[trigger] rows@[i].table_refs_ok(counts@),
    {
        let mut i: usize = 0;
        while i < rows.len()
            invariant
                i <= rows@.len(),
                counts@.len() == TABLE_TAGS,
                forall|k: int| 0 <= k < i ==> #[trigger] rows@[k].table_refs_ok(counts@),
            decreases rows@.len() - i,
        {
            let row = rows[i];
            if !((row.class.0 <= counts[0x02]) && (row.body.check_refs(counts)) && (row.declaration.check_refs(counts))) {
                assert(!rows@[i as int].table_refs_ok(counts@));
                return false;
            }
            i = i + 1;
        }
        true
    }

    pub fn rows_heap_refs_ok(rows: &Vec<MethodImpl>, h: HeapSizes) -> (r: bool)
        ensures
            r == forall|i: int| 0 <= i < rows@.len() ==> #[trigger] rows@[i].heap_refs_ok(h),
    {
        true
    }
}

/// A row of the `ModuleRef` table (0x1a).
#[derive(Debug, Clone, Copy, PartialEq, Eq, Structural)]
pub struct ModuleRef {
    pub name: StringIndex,
}

impl ModuleRef {
    /// The width of one row in bytes.
    pub open spec fn width() -> nat {
        2
    }

    /// The row read at `p`; meaningful where `valid_at` holds.
    pub open spec fn at(s: Seq<u8>, p: int) -> ModuleRef {
        ModuleRef {
            name: StringIndex(le16(s, p) as u32),
        }
    }

    /// Every coded index and enumerated field of the row at `p` is valid.
    pub open spec fn valid_at(s: Seq<u8>, p: int) -> bool {
        true
    }

    pub fn parse(s: &[u8], p: usize) -> (r: Option<ModuleRef>)
        requires
            p + 2 <= s@.len(),
        ensures
            r is Some <==> Self::valid_at(s@, p as int),
            r is Some ==> r->0 == Self::at(s@, p as int),
    {
        let n = s.len();
        assert(p + 2 <= n);
        Some(ModuleRef { name: StringIndex(u16_at(s, p) as u32) })
    }

    /// Reads `count` consecutive rows from `start`.
    pub fn parse_rows(s: &[u8], start: usize, count: u32) -> (r: Option<Vec<ModuleRef>>)
        requires
            start + count * 2 <= s@.len(),
        ensures
            r is Some <==> forall|i: int| 0 <= i < count ==> #[trigger] Self::valid_at(s@, start + i * 2),
            r matches Some(v) ==> v@.len() == count && forall|i: int|
                0 <= i < count ==> #[trigger] v@[i] == Self::at(s@, start + i * 2),
    {
        let n = s.len();
        let mut v: Vec<ModuleRef> = Vec::new();
        let mut i: u32 = 0;
        while i < count
            invariant
                i <= count,
                s@.len() == n,
                start + count * 2 <= s@.len(),
                v@.len() == i,
                forall|k: int| 0 <= k < i ==> #[trigger] Self::valid_at(s@, start + k * 2),
                forall|k: int| 0 <= k < i ==> #[trigger] v@[k] == Self::at(s@, start + k * 2),
            decreases count - i,
        {
            assert(i * 2 + 2 <= count * 2) by (nonlinear_arith)
                requires
                    i < count,
            ;
            match Self::parse(s, start + i as usize * 2) {
                Some(row) => {
                    v.push(row);
                },
                None => {
                    return None;
                },
            }
            i = i + 1;
        }
        Some(v)
    }

    /// Every table index of the row is null or names an existing row; a
    /// list start may also be one past the last row.
    pub open spec fn table_refs_ok(self, counts: Seq<u32>) -> bool {
        true
    }

    /// Every heap index of the row is null or inside its heap; a GUID index
    /// needs its 16 bytes inside.
    pub open spec fn heap_refs_ok(self, h: HeapSizes) -> bool {
        (self.name.0 == 0 || self.name.0 < h.strings)
    }

    pub fn rows_table_refs_ok(rows: &Vec<ModuleRef>, counts: &[u32]) -> (r: bool)
        requires
            counts@.len() == TABLE_TAGS,
        ensures
            r == forall|i: int| 0 <= i < rows@.len() ==> #[trigger] rows@[i].table_refs_ok(counts@),
    {
        true
    }

    pub fn rows_heap_refs_ok(rows: &Vec<ModuleRef>, h: HeapSizes) -> (r: bool)
        ensures
            r == forall|i: int| 0 <= i < rows@.len() ==> #[trigger] rows@[i].heap_refs_ok(h),
    {
        let mut i: usize = 0;
        while i < rows.len()
            invariant
                i <= rows@.len(),
                forall|k: int| 0 <= k < i ==> #[trigger] rows@[k].heap_refs_ok(h),
            decreases rows@.len() - i,
        {
            let row = rows[i];
            if !((row.name.0 == 0 || (row.name.0 as usize) < h.strings)) {
                assert(!rows@[i as int].heap_refs_ok(h));
                return false;
            }
            i = i + 1;
        }
        true
    }
}

/// A row of the `TypeSpec` table (0x1b).
#[derive(Debug, Clone, Copy, PartialEq, Eq, Structural)]
pub struct TypeSpec {
    pub signature: BlobIndex,
}

impl TypeSpec {
    /// The width of one row in bytes.
    pub open spec fn width() -> nat {
        2
    }

    /// The row read at `p`; meaningful where `valid_at` holds.
    pub open spec fn at(s: Seq<u8>, p: int) -> TypeSpec {
        TypeSpec {
            signature: BlobIndex(le16(s, p) as u32),
        }
    }

    /// Every coded index and enumerated field of the row at `p` is valid.
    pub open spec fn valid_at(s: Seq<u8>, p: int) -> bool {
        true
    }

    pub fn parse(s: &[u8], p: usize) -> (r: Option<TypeSpec>)
        requires
            p + 2 <= s@.len(),
        ensures
            r is Some <==> Self::valid_at(s@, p as int),
            r is Some ==> r->0 == Self::at(s@, p as int),
    {
        let n = s.len();
        assert(p + 2 <= n);
        Some(TypeSpec { signature: BlobIndex(u16_at(s, p) as u32) })
    }

    /// Reads `count` consecutive rows from `start`.
    pub fn parse_rows(s: &[u8], start: usize, count: u32) -> (r: Option<Vec<TypeSpec>>)
        requires
            start + count * 2 <= s@.len(),
        ensures
            r is Some <==> forall|i: int| 0 <= i < count ==> #[trigger] Self::valid_at(s@, start + i * 2),
            r matches Some(v) ==> v@.len() == count && forall|i: int|
                0 <= i < count ==> #[trigger] v@[i] == Self::at(s@, start + i * 2),
    {
        let n = s.len();
        let mut v: Vec<TypeSpec> = Vec::new();
        let mut i: u32 = 0;
        while i < count
            invariant
                i <= count,
                s@.len() == n,
                start + count * 2 <= s@.len(),
                v@.len() == i,
                forall|k: int| 0 <= k < i ==> #[trigger] Self::valid_at(s@, start + k * 2),
                forall|k: int| 0 <= k < i ==> #[trigger] v@[k] == Self::at(s@, start + k * 2),
            decreases count - i,
        {
            assert(i * 2 + 2 <= count * 2) by (nonlinear_arith)
                requires
                    i < count,
            ;
            match Self::parse(s, start + i as usize * 2) {
                Some(row) => {
                    v.push(row);
                },
                None => {
                    return None;
                },
            }
            i = i + 1;
        }
        Some(v)
    }

    /// Every table index of the row is null or names an existing row; a
    /// list start may also be one past the last row.
    pub open spec fn table_refs_ok(self, counts: Seq<u32>) -> bool {
        true
    }

    /// Every heap index of the row is null or inside its heap; a GUID index
    /// needs its 16 bytes inside.
    pub open spec fn heap_refs_ok(self, h: HeapSizes) -> bool {
        (self.signature.0 == 0 || self.signature.0 < h.blob)
    }

    pub fn rows_table_refs_ok(rows: &Vec<TypeSpec>, counts: &[u32]) -> (r: bool)
        requires
            counts@.len() == TABLE_TAGS,
        ensures
            r == forall|i: int| 0 <= i < rows@.len() ==> #[trigger] rows@[i].table_refs_ok(counts@),
    {
        true
    }

    pub fn rows_heap_refs_ok(rows: &Vec<TypeSpec>, h: HeapSizes) -> (r: bool)
        ensures
            r == forall|i: int| 0 <= i < rows@.len() ==> #[trigger] rows@[i].heap_refs_ok(h),
    {
        let mut i: usize = 0;
        while i < rows.len()
            invariant
                i <= rows@.len(),
                forall|k: int| 0 <= k < i ==> #[trigger] rows@[k].heap_refs_ok(h),
            decreases rows@.len() - i,
        {
            let row = rows[i];
            if !((row.signature.0 == 0 || (row.signature.0 as usize) < h.blob)) {
                assert(!rows@[i as int].heap_refs_ok(h));
                return false;
            }
            i = i + 1;
        }
        true
    }
}

/// A row of the `ImplMap` table (0x1c).
#[derive(Debug, Clone, Copy, PartialEq, Eq, Structural)]
pub struct ImplMap {
    pub mapping_flags: u16,
    pub member_forwarded: MemberForwarded,
    pub import_name: StringIndex,
    pub import_scope: ModuleRefIndex,
}

impl ImplMap {
    /// The width of one row in bytes.
    pub open spec fn width() -> nat {
        8
    }

    /// The row read at `p`; meaningful where `valid_at` holds.
    pub open spec fn at(s: Seq<u8>, p: int) -> ImplMap {
        ImplMap {
            mapping_flags: le16(s, p) as u16,
            member_forwarded: MemberForwarded::spec_decode(le16(s, p + 2) as u16)->0,
            import_name: StringIndex(le16(s, p + 4) as u32),
            import_scope: ModuleRefIndex(le16(s, p + 6) as u32),
        }
    }

    /// Every coded index and enumerated field of the row at `p` is valid.
    pub open spec fn valid_at(s: Seq<u8>, p: int) -> bool {
        MemberForwarded::spec_decode(le16(s, p + 2) as u16) is Some
    }

    pub fn parse(s: &[u8], p: usize) -> (r: Option<ImplMap>)
        requires
            p + 8 <= s@.len(),
        ensures
            r is Some <==> Self::valid_at(s@, p as int),
            r is Some ==> r->0 == Self::at(s@, p as int),
    {
        let n = s.len();
        assert(p + 8 <= n);
        let member_forwarded = match MemberForwarded::decode(u16_at(s, p + 2)) {
            Some(v) => v,
            None => return None,
        };
        Some(ImplMap { mapping_flags: u16_at(s, p), member_forwarded, import_name: StringIndex(u16_at(s, p + 4) as u32), import_scope: ModuleRefIndex(u16_at(s, p + 6) as u32) })
    }

    /// Reads `count` consecutive rows from `start`.
    pub fn parse_rows(s: &[u8], start: usize, count: u32) -> (r: Option<Vec<ImplMap>>)
        requires
            start + count * 8 <= s@.len(),
        ensures
            r is Some <==> forall|i: int| 0 <= i < count ==> #[trigger] Self::valid_at(s@, start + i * 8),
            r matches Some(v) ==> v@.len() == count && forall|i: int|
                0 <= i < count ==> #[trigger] v@[i] == Self::at(s@, start + i * 8),
    {
        let n = s.len();
        let mut v: Vec<ImplMap> = Vec::new();
        let mut i: u32 = 0;
        while i < count
            invariant
                i <= count,
                s@.len() == n,
                start + count * 8 <= s@.len(),
                v@.len() == i,
                forall|k: int| 0 <= k < i ==> #[trigger] Self::valid_at(s@, start + k * 8),
                forall|k: int| 0 <= k < i ==> #[trigger] v@[k] == Self::at(s@, start + k * 8),
            decreases count - i,
        {
            assert(i * 8 + 8 <= count * 8) by (nonlinear_arith)
                requires
                    i < count,
            ;
            match Self::parse(s, start + i as usize * 8) {
                Some(row) => {
                    v.push(row);
                },
                None => {
                    return None;
                },
            }
            i = i + 1;
        }
        Some(v)
    }

    /// Every table index of the row is null or names an existing row; a
    /// list start may also be one past the last row.
    pub open spec fn table_refs_ok(self, counts: Seq<u32>) -> bool {
        self.member_forwarded.refs_ok(counts) && self.import_scope.0 <= counts[0x1a]
    }

    /// Every heap index of the row is null or inside its heap; a GUID index
    /// needs its 16 bytes inside.
    pub open spec fn heap_refs_ok(self, h: HeapSizes) -> bool {
        (self.import_name.0 == 0 || self.import_name.0 < h.strings)
    }

    pub fn rows_table_refs_ok(rows: &Vec<ImplMap>, counts: &[u32]) -> (r: bool)
        requires
            counts@.len() == TABLE_TAGS,
        ensures
            r == forall|i: int| 0 <= i < rows@.len() ==> #[trigger] rows@[i].table_refs_ok(counts@),
    {
        let mut i: usize = 0;
        while i < rows.len()
            invariant
                i <= rows@.len(),
                counts@.len() == TABLE_TAGS,
                forall|k: int| 0 <= k < i ==> #[trigger] rows@[k].table_refs_ok(counts@),
            decreases rows@.len() - i,
        {
            let row = rows[i];
            if !((row.member_forwarded.check_refs(counts)) && (row.import_scope.0 <= counts[0x1a])) {
                assert(!rows@[i as int].table_refs_ok(counts@));
                return false;
            }
            i = i + 1;
        }
        true
    }

    pub fn rows_heap_refs_ok(rows: &Vec<ImplMap>, h: HeapSizes) -> (r: bool)
        ensures
            r == forall|i: int| 0 <= i < rows@.len() ==> #[trigger] rows@[i].heap_refs_ok(h),
    {
        let mut i: usize = 0;
        while i < rows.len()
            invariant
                i <= rows@.len(),
                forall|k: int| 0 <= k < i ==> #[trigger] rows@[k].heap_refs_ok(h),
            decreases rows@.len() - i,
        {
            let row = rows[i];
            if !((row.import_name.0 == 0 || (row.import_name.0 as usize) < h.strings)) {
                assert(!rows@[i as int].heap_refs_ok(h));
                return false;
            }
            i = i + 1;
        }
        true
    }
}

/// A row of the `FieldRVA` table (0x1d).
#[derive(Debug, Clone, Copy, PartialEq, Eq, Structural)]
pub struct FieldRVA {
    pub rva: u32,
    pub field: FieldIndex,
}

impl FieldRVA {
    /// The width of one row in bytes.
    pub open spec fn width() -> nat {
        6
    }

    /// The row read at `p`; meaningful where `valid_at` holds.
    pub open spec fn at(s: Seq<u8>, p: int) -> FieldRVA {
        FieldRVA {
            rva: le32(s, p) as u32,
            field: FieldIndex(le16(s, p + 4) as u32),
        }
    }

    /// Every coded index and enumerated field of the row at `p` is valid.
    pub open spec fn valid_at(s: Seq<u8>, p: int) -> bool {
        true
    }

    pub fn parse(s: &[u8], p: usize) -> (r: Option<FieldRVA>)
        requires
            p + 6 <= s@.len(),
        ensures
            r is Some <==> Self::valid_at(s@, p as int),
            r is Some ==> r->0 == Self::at(s@, p as int),
    {
        let n = s.len();
        assert(p + 6 <= n);
        Some(FieldRVA { rva: u32_at(s, p), field: FieldIndex(u16_at(s, p + 4) as u32) })
    }

    /// Reads `count` consecutive rows from `start`.
    pub fn parse_rows(s: &[u8], start: usize, count: u32) -> (r: Option<Vec<FieldRVA>>)
        requires
            start + count * 6 <= s@.len(),
        ensures
            r is Some <==> forall|i: int| 0 <= i < count ==> #[trigger] Self::valid_at(s@, start + i * 6),
            r matches Some(v) ==> v@.len() == count && forall|i: int|
                0 <= i < count ==> #[trigger] v@[i] == Self::at(s@, start + i * 6),
    {
        let n = s.len();
        let mut v: Vec<FieldRVA> = Vec::new();
        let mut i: u32 = 0;
        while i < count
            invariant
                i <= count,
                s@.len() == n,
                start + count * 6 <= s@.len(),
                v@.len() == i,
                forall|k: int| 0 <= k < i ==> #[trigger] Self::valid_at(s@, start + k * 6),
                forall|k: int| 0 <= k < i ==> #[trigger] v@[k] == Self::at(s@, start + k * 6),
            decreases count - i,
        {
            assert(i * 6 + 6 <= count * 6) by (nonlinear_arith)
                requires
                    i < count,
            ;
            match Self::parse(s, start + i as usize * 6) {
                Some(row) => {
                    v.push(row);
                },
                None => {
                    return None;
                },
            }
            i = i + 1;
        }
        Some(v)
    }

    /// Every table index of the row is null or names an existing row; a
    /// list start may also be one past the last row.
    pub open spec fn table_refs_ok(self, counts: Seq<u32>) -> bool {
        self.field.0 <= counts[0x04]
    }

    /// Every heap index of the row is null or inside its heap; a GUID index
    /// needs its 16 bytes inside.
    pub open spec fn heap_refs_ok(self, h: HeapSizes) -> bool {
        true
    }

    pub fn rows_table_refs_ok(rows: &Vec<FieldRVA>, counts: &[u32]) -> (r: bool)
        requires
            counts@.len() == TABLE_TAGS,
        ensures
            r == forall|i: int| 0 <= i < rows@.len() ==> #[trigger] rows@[i].table_refs_ok(counts@),
    {
        let mut i: usize = 0;
        while i < rows.len()
            invariant
                i <= rows@.len(),
                counts@.len() == TABLE_TAGS,
                forall|k: int| 0 <= k < i ==> #[trigger] rows@[k].table_refs_ok(counts@),
            decreases rows@.len() - i,
        {
            let row = rows[i];
            if !((row.field.0 <= counts[0x04])) {
                assert(!rows@[i as int].table_refs_ok(counts@));
                return false;
            }
            i = i + 1;
        }
        true
    }

    pub fn rows_heap_refs_ok(rows: &Vec<FieldRVA>, h: HeapSizes) -> (r: bool)
        ensures
            r == forall|i: int| 0 <= i < rows@.len() ==> #[trigger] rows@[i].heap_refs_ok(h),
    {
        true
    }
}

/// A row of the `Assembly` table (0x20).
#[derive(Debug, Clone, Copy, PartialEq, Eq, Structural)]
pub struct Assembly {
    pub hash_alg_id: AssemblyHashAlgorithm,
    pub version: AssemblyVersion,
    pub flags: AssemblyFlags,
    pub public_key: BlobIndex,
    pub name: StringIndex,
    pub culture: StringIndex,
}

impl Assembly {
    /// The width of one row in bytes.
    pub open spec fn width() -> nat {
        22
    }

    /// The row read at `p`; meaningful where `valid_at` holds.
    pub open spec fn at(s: Seq<u8>, p: int) -> Assembly {
        Assembly {
            hash_alg_id: AssemblyHashAlgorithm::spec_from_n(le32(s, p) as u32)->0,
            version: AssemblyVersion::at(s, p + 4),
            flags: AssemblyFlags(le32(s, p + 12) as u32),
            public_key: BlobIndex(le16(s, p + 16) as u32),
            name: StringIndex(le16(s, p + 18) as u32),
            culture: StringIndex(le16(s, p + 20) as u32),
        }
    }

    /// Every coded index and enumerated field of the row at `p` is valid.
    pub open spec fn valid_at(s: Seq<u8>, p: int) -> bool {
        AssemblyHashAlgorithm::spec_from_n(le32(s, p) as u32) is Some
    }

    pub fn parse(s: &[u8], p: usize) -> (r: Option<Assembly>)
        requires
            p + 22 <= s@.len(),
        ensures
            r is Some <==> Self::valid_at(s@, p as int),
            r is Some ==> r->0 == Self::at(s@, p as int),
    {
        let n = s.len();
        assert(p + 22 <= n);
        let hash_alg_id = match AssemblyHashAlgorithm::from_n(u32_at(s, p)) {
            Some(v) => v,
            None => return None,
        };
        Some(Assembly { hash_alg_id, version: AssemblyVersion::parse(s, p + 4), flags: AssemblyFlags(u32_at(s, p + 12)), public_key: BlobIndex(u16_at(s, p + 16) as u32), name: StringIndex(u16_at(s, p + 18) as u32), culture: StringIndex(u16_at(s, p + 20) as u32) })
    }

    /// Reads `count` consecutive rows from `start`.
    pub fn parse_rows(s: &[u8], start: usize, count: u32) -> (r: Option<Vec<Assembly>>)
        requires
            start + count * 22 <= s@.len(),
        ensures
            r is Some <==> forall|i: int| 0 <= i < count ==> #[trigger] Self::valid_at(s@, start + i * 22),
            r matches Some(v) ==> v@.len() == count && forall|i: int|
                0 <= i < count ==> #[trigger] v@[i] == Self::at(s@, start + i * 22),
    {
        let n = s.len();
        let mut v: Vec<Assembly> = Vec::new();
        let mut i: u32 = 0;
        while i < count
            invariant
                i <= count,
                s@.len() == n,
                start + count * 22 <= s@.len(),
                v@.len() == i,
                forall|k: int| 0 <= k < i ==> #[trigger] Self::valid_at(s@, start + k * 22),
                forall|k: int| 0 <= k < i ==> #[trigger] v@[k] == Self::at(s@, start + k * 22),
            decreases count - i,
        {
            assert(i * 22 + 22 <= count * 22) by (nonlinear_arith)
                requires
                    i < count,
            ;
            match Self::parse(s, start + i as usize * 22) {
                Some(row) => {
                    v.push(row);
                },
                None => {
                    return None;
                },
            }
            i = i + 1;
        }
        Some(v)
    }

    /// Every table index of the row is null or names an existing row; a
    /// list start may also be one past the last row.
    pub open spec fn table_refs_ok(self, counts: Seq<u32>) -> bool {
        true
    }

    /// Every heap index of the row is null or inside its heap; a GUID index
    /// needs its 16 bytes inside.
    pub open spec fn heap_refs_ok(self, h: HeapSizes) -> bool {
        (self.public_key.0 == 0 || self.public_key.0 < h.blob) && (self.name.0 == 0 || self.name.0 < h.strings) && (self.culture.0 == 0 || self.culture.0 < h.strings)
    }

    pub fn rows_table_refs_ok(rows: &Vec<Assembly>, counts: &[u32]) -> (r: bool)
        requires
            counts@.len() == TABLE_TAGS,
        ensures
            r == forall|i: int| 0 <= i < rows@.len() ==> #[trigger] rows@[i].table_refs_ok(counts@),
    {
        true
    }

    pub fn rows_heap_refs_ok(rows: &Vec<Assembly>, h: HeapSizes) -> (r: bool)
        ensures
            r == forall|i: int| 0 <= i < rows@.len() ==> #[trigger] rows@[i].heap_refs_ok(h),
    {
        let mut i: usize = 0;
        while i < rows.len()
            invariant
                i <= rows@.len(),
                forall|k: int| 0 <= k < i ==> #[trigger] rows@[k].heap_refs_ok(h),
            decreases rows@.len() - i,
        {
            let row = rows[i];
            if !((row.public_key.0 == 0 || (row.public_key.0 as usize) < h.blob) && (row.name.0 == 0 || (row.name.0 as usize) < h.strings) && (row.culture.0 == 0 || (row.culture.0 as usize) < h.strings)) {
                assert(!rows@[i as int].heap_refs_ok(h));
                return false;
            }
            i = i + 1;
        }
        true
    }
}

/// A row of the `AssemblyProcessor` table (0x21).
#[derive(Debug, Clone, Copy, PartialEq, Eq, Structural)]
pub struct AssemblyProcessor {
    pub processor: u32,
}

impl AssemblyProcessor {
    /// The width of one row in bytes.
    pub open spec fn width() -> nat {
        4
    }

    /// The row read at `p`; meaningful where `valid_at` holds.
    pub open spec fn at(s: Seq<u8>, p: int) -> AssemblyProcessor {
        AssemblyProcessor {
            processor: le32(s, p) as u32,
        }
    }

    /// Every coded index and enumerated field of the row at `p` is valid.
    pub open spec fn valid_at(s: Seq<u8>, p: int) -> bool {
        true
    }

    pub fn parse(s: &[u8], p: usize) -> (r: Option<AssemblyProcessor>)
        requires
            p + 4 <= s@.len(),
        ensures
            r is Some <==> Self::valid_at(s@, p as int),
            r is Some ==> r->0 == Self::at(s@, p as int),
    {
        let n = s.len();
        assert(p + 4 <= n);
        Some(AssemblyProcessor { processor: u32_at(s, p) })
    }

    /// Reads `count` consecutive rows from `start`.
    pub fn parse_rows(s: &[u8], start: usize, count: u32) -> (r: Option<Vec<AssemblyProcessor>>)
        requires
            start + count * 4 <= s@.len(),
        ensures
            r is Some <==> forall|i: int| 0 <= i < count ==> #[trigger] Self::valid_at(s@, start + i * 4),
            r matches Some(v) ==> v@.len() == count && forall|i: int|
                0 <= i < count ==> #[trigger] v@[i] == Self::at(s@, start + i * 4),
    {
        let n = s.len();
        let mut v: Vec<AssemblyProcessor> = Vec::new();
        let mut i: u32 = 0;
        while i < count
            invariant
                i <= count,
                s@.len() == n,
                start + count * 4 <= s@.len(),
                v@.len() == i,
                forall|k: int| 0 <= k < i ==> #[trigger] Self::valid_at(s@, start + k * 4),
                forall|k: int| 0 <= k < i ==> #[trigger] v@[k] == Self::at(s@, start + k * 4),
            decreases count - i,
        {
            assert(i * 4 + 4 <= count * 4) by (nonlinear_arith)
                requires
                    i < count,
            ;
            match Self::parse(s, start + i as usize * 4) {
                Some(row) => {
                    v.push(row);
                },
                None => {
                    return None;
                },
            }
            i = i + 1;
        }
        Some(v)
    }

    /// Every table index of the row is null or names an existing row; a
    /// list start may also be one past the last row.
    pub open spec fn table_refs_ok(self, counts: Seq<u32>) -> bool {
        true
    }

    /// Every heap index of the row is null or inside its heap; a GUID index
    /// needs its 16 bytes inside.
    pub open spec fn heap_refs_ok(self, h: HeapSizes) -> bool {
        true
    }

    pub fn rows_table_refs_ok(rows: &Vec<AssemblyProcessor>, counts: &[u32]) -> (r: bool)
        requires
            counts@.len() == TABLE_TAGS,
        ensures
            r == forall|i: int| 0 <= i < rows@.len() ==> #[trigger] rows@[i].table_refs_ok(counts@),
    {
        true
    }

    pub fn rows_heap_refs_ok(rows: &Vec<AssemblyProcessor>, h: HeapSizes) -> (r: bool)
        ensures
            r == forall|i: int| 0 <= i < rows@.len() ==> #[trigger] rows@[i].heap_refs_ok(h),
    {
        true
    }
}

/// A row of the `AssemblyOS` table (0x22).
#[derive(Debug, Clone, Copy, PartialEq, Eq, Structural)]
pub struct AssemblyOS {
    pub platform_id: u32,
    pub major_version: u32,
    pub minor_version: u32,
}

impl AssemblyOS {
    /// The width of one row in bytes.
    pub open spec fn width() -> nat {
        12
    }

    /// The row read at `p`; meaningful where `valid_at` holds.
    pub open spec fn at(s: Seq<u8>, p: int) -> AssemblyOS {
        AssemblyOS {
            platform_id: le32(s, p) as u32,
            major_version: le32(s, p + 4) as u32,
            minor_version: le32(s, p + 8) as u32,
        }
    }

    /// Every coded index and enumerated field of the row at `p` is valid.
    pub open spec fn valid_at(s: Seq<u8>, p: int) -> bool {
        true
    }

    pub fn parse(s: &[u8], p: usize) -> (r: Option<AssemblyOS>)
        requires
            p + 12 <= s@.len(),
        ensures
            r is Some <==> Self::valid_at(s@, p as int),
            r is Some ==> r->0 == Self::at(s@, p as int),
    {
        let n = s.len();
        assert(p + 12 <= n);
        Some(AssemblyOS { platform_id: u32_at(s, p), major_version: u32_at(s, p + 4), minor_version: u32_at(s, p + 8) })
    }

    /// Reads `count` consecutive rows from `start`.
    pub fn parse_rows(s: &[u8], start: usize, count: u32) -> (r: Option<Vec<AssemblyOS>>)
        requires
            start + count * 12 <= s@.len(),
        ensures
            r is Some <==> forall|i: int| 0 <= i < count ==> #[trigger] Self::valid_at(s@, start + i * 12),
            r matches Some(v) ==> v@.len() == count && forall|i: int|
                0 <= i < count ==> #[trigger] v@[i] == Self::at(s@, start + i * 12),
    {
        let n = s.len();
        let mut v: Vec<AssemblyOS> = Vec::new();
        let mut i: u32 = 0;
        while i < count
            invariant
                i <= count,
                s@.len() == n,
                start + count * 12 <= s@.len(),
                v@.len() == i,
                forall|k: int| 0 <= k < i ==> #[trigger] Self::valid_at(s@, start + k * 12),
                forall|k: int| 0 <= k < i ==> #[trigger] v@[k] == Self::at(s@, start + k * 12),
            decreases count - i,
        {
            assert(i * 12 + 12 <= count * 12) by (nonlinear_arith)
                requires
                    i < count,
            ;
            match Self::parse(s, start + i as usize * 12) {
                Some(row) => {
                    v.push(row);
                },
                None => {
                    return None;
                },
            }
            i = i + 1;
        }
        Some(v)
    }

    /// Every table index of the row is null or names an existing row; a
    /// list start may also be one past the last row.
    pub open spec fn table_refs_ok(self, counts: Seq<u32>) -> bool {
        true
    }

    /// Every heap index of the row is null or inside its heap; a GUID index
    /// needs its 16 bytes inside.
    pub open spec fn heap_refs_ok(self, h: HeapSizes) -> bool {
        true
    }

    pub fn rows_table_refs_ok(rows: &Vec<AssemblyOS>, counts: &[u32]) -> (r: bool)
        requires
            counts@.len() == TABLE_TAGS,
        ensures
            r == forall|i: int| 0 <= i < rows@.len() ==> #[trigger] rows@[i].table_refs_ok(counts@),
    {
        true
    }

    pub fn rows_heap_refs_ok(rows: &Vec<AssemblyOS>, h: HeapSizes) -> (r: bool)
        ensures
            r == forall|i: int| 0 <= i < rows@.len() ==> #[trigger] rows@[i].heap_refs_ok(h),
    {
        true
    }
}

/// A row of the `AssemblyRef` table (0x23).
#[derive(Debug, Clone, Copy, PartialEq, Eq, Structural)]
pub struct AssemblyRef {
    pub version: AssemblyVersion,
    pub flags: u32,
    pub public_key_or_token: BlobIndex,
    pub name: StringIndex,
    pub culture: StringIndex,
    pub hash_value: BlobIndex,
}

impl AssemblyRef {
    /// The width of one row in bytes.
    pub open spec fn width() -> nat {
        20
    }

    /// The row read at `p`; meaningful where `valid_at` holds.
    pub open spec fn at(s: Seq<u8>, p: int) -> AssemblyRef {
        AssemblyRef {
            version: AssemblyVersion::at(s, p),
            flags: le32(s, p + 8) as u32,
            public_key_or_token: BlobIndex(le16(s, p + 12) as u32),
            name: StringIndex(le16(s, p + 14) as u32),
            culture: StringIndex(le16(s, p + 16) as u32),
            hash_value: BlobIndex(le16(s, p + 18) as u32),
        }
    }

    /// Every coded index and enumerated field of the row at `p` is valid.
    pub open spec fn valid_at(s: Seq<u8>, p: int) -> bool {
        true
    }

    pub fn parse(s: &[u8], p: usize) -> (r: Option<AssemblyRef>)
        requires
            p + 20 <= s@.len(),
        ensures
            r is Some <==> Self::valid_at(s@, p as int),
            r is Some ==> r->0 == Self::at(s@, p as int),
    {
        let n = s.len();
        assert(p + 20 <= n);
        Some(AssemblyRef { version: AssemblyVersion::parse(s, p), flags: u32_at(s, p + 8), public_key_or_token: BlobIndex(u16_at(s, p + 12) as u32), name: StringIndex(u16_at(s, p + 14) as u32), culture: StringIndex(u16_at(s, p + 16) as u32), hash_value: BlobIndex(u16_at(s, p + 18) as u32) })
    }

    /// Reads `count` consecutive rows from `start`.
    pub fn parse_rows(s: &[u8], start: usize, count: u32) -> (r: Option<Vec<AssemblyRef>>)
        requires
            start + count * 20 <= s@.len(),
        ensures
            r is Some <==> forall|i: int| 0 <= i < count ==> #[trigger] Self::valid_at(s@, start + i * 20),
            r matches Some(v) ==> v@.len() == count && forall|i: int|
                0 <= i < count ==> #[trigger] v@[i] == Self::at(s@, start + i * 20),
    {
        let n = s.len();
        let mut v: Vec<AssemblyRef> = Vec::new();
        let mut i: u32 = 0;
        while i < count
            invariant
                i <= count,
                s@.len() == n,
                start + count * 20 <= s@.len(),
                v@.len() == i,
                forall|k: int| 0 <= k < i ==> #[trigger] Self::valid_at(s@, start + k * 20),
                forall|k: int| 0 <= k < i ==> #[trigger] v@[k] == Self::at(s@, start + k * 20),
            decreases count - i,
        {
            assert(i * 20 + 20 <= count * 20) by (nonlinear_arith)
                requires
                    i < count,
            ;
            match Self::parse(s, start + i as usize * 20) {
                Some(row) => {
                    v.push(row);
                },
                None => {
                    return None;
                },
            }
            i = i + 1;
        }
        Some(v)
    }

    /// Every table index of the row is null or names an existing row; a
    /// list start may also be one past the last row.
    pub open spec fn table_refs_ok(self, counts: Seq<u32>) -> bool {
        true
    }

    /// Every heap index of the row is null or inside its heap; a GUID index
    /// needs its 16 bytes inside.
    pub open spec fn heap_refs_ok(self, h: HeapSizes) -> bool {
        (self.public_key_or_token.0 == 0 || self.public_key_or_token.0 < h.blob) && (self.name.0 == 0 || self.name.0 < h.strings) && (self.culture.0 == 0 || self.culture.0 < h.strings) && (self.hash_value.0 == 0 || self.hash_value.0 < h.blob)
    }

    pub fn rows_table_refs_ok(rows: &Vec<AssemblyRef>, counts: &[u32]) -> (r: bool)
        requires
            counts@.len() == TABLE_TAGS,
        ensures
            r == forall|i: int| 0 <= i < rows@.len() ==> #[trigger] rows@[i].table_refs_ok(counts@),
    {
        true
    }

    pub fn rows_heap_refs_ok(rows: &Vec<AssemblyRef>, h: HeapSizes) -> (r: bool)
        ensures
            r == forall|i: int| 0 <= i < rows@.len() ==> #[trigger] rows@[i].heap_refs_ok(h),
    {
        let mut i: usize = 0;
        while i < rows.len()
            invariant
                i <= rows@.len(),
                forall|k: int| 0 <= k < i ==> #[trigger] rows@[k].heap_refs_ok(h),
            decreases rows@.len() - i,
        {
            let row = rows[i];
            if !((row.public_key_or_token.0 == 0 || (row.public_key_or_token.0 as usize) < h.blob) && (row.name.0 == 0 || (row.name.0 as usize) < h.strings) && (row.culture.0 == 0 || (row.culture.0 as usize) < h.strings) && (row.hash_value.0 == 0 || (row.hash_value.0 as usize) < h.blob)) {
                assert(!rows@[i as int].heap_refs_ok(h));
                return false;
            }
            i = i + 1;
        }
        true
    }
}

/// A row of the `AssemblyRefProcessor` table (0x24).
#[derive(Debug, Clone, Copy, PartialEq, Eq, Structural)]
pub struct AssemblyRefProcessor {
    pub processor: u32,
    pub asm_ref: AssemblyRefIndex,
}

impl AssemblyRefProcessor {
    /// The width of one row in bytes.
    pub open spec fn width() -> nat {
        6
    }

    /// The row read at `p`; meaningful where `valid_at` holds.
    pub open spec fn at(s: Seq<u8>, p: int) -> AssemblyRefProcessor {
        AssemblyRefProcessor {
            processor: le32(s, p) as u32,
            asm_ref: AssemblyRefIndex(le16(s, p + 4) as u32),
        }
    }

    /// Every coded index and enumerated field of the row at `p` is valid.
    pub open spec fn valid_at(s: Seq<u8>, p: int) -> bool {
        true
    }

    pub fn parse(s: &[u8], p: usize) -> (r: Option<AssemblyRefProcessor>)
        requires
            p + 6 <= s@.len(),
        ensures
            r is Some <==> Self::valid_at(s@, p as int),
            r is Some ==> r->0 == Self::at(s@, p as int),
    {
        let n = s.len();
        assert(p + 6 <= n);
        Some(AssemblyRefProcessor { processor: u32_at(s, p), asm_ref: AssemblyRefIndex(u16_at(s, p + 4) as u32) })
    }

    /// Reads `count` consecutive rows from `start`.
    pub fn parse_rows(s: &[u8], start: usize, count: u32) -> (r: Option<Vec<AssemblyRefProcessor>>)
        requires
            start + count * 6 <= s@.len(),
        ensures
            r is Some <==> forall|i: int| 0 <= i < count ==> #[trigger] Self::valid_at(s@, start + i * 6),
            r matches Some(v) ==> v@.len() == count && forall|i: int|
                0 <= i < count ==> #[trigger] v@[i] == Self::at(s@, start + i * 6),
    {
        let n = s.len();
        let mut v: Vec<AssemblyRefProcessor> = Vec::new();
        let mut i: u32 = 0;
        while i < count
            invariant
                i <= count,
                s@.len() == n,
                start + count * 6 <= s@.len(),
                v@.len() == i,
                forall|k: int| 0 <= k < i ==> #[trigger] Self::valid_at(s@, start + k * 6),
                forall|k: int| 0 <= k < i ==> #[trigger] v@[k] == Self::at(s@, start + k * 6),
            decreases count - i,
        {
            assert(i * 6 + 6 <= count * 6) by (nonlinear_arith)
                requires
                    i < count,
            ;
            match Self::parse(s, start + i as usize * 6) {
                Some(row) => {
                    v.push(row);
                },
                None => {
                    return None;
                },
            }
            i = i + 1;
        }
        Some(v)
    }

    /// Every table index of the row is null or names an existing row; a
    /// list start may also be one past the last row.
    pub open spec fn table_refs_ok(self, counts: Seq<u32>) -> bool {
        self.asm_ref.0 <= counts[0x23]
    }

    /// Every heap index of the row is null or inside its heap; a GUID index
    /// needs its 16 bytes inside.
    pub open spec fn heap_refs_ok(self, h: HeapSizes) -> bool {
        true
    }

    pub fn rows_table_refs_ok(rows: &Vec<AssemblyRefProcessor>, counts: &[u32]) -> (r: bool)
        requires
            counts@.len() == TABLE_TAGS,
        ensures
            r == forall|i: int| 0 <= i < rows@.len() ==> #[trigger] rows@[i].table_refs_ok(counts@),
    {
        let mut i: usize = 0;
        while i < rows.len()
            invariant
                i <= rows@.len(),
                counts@.len() == TABLE_TAGS,
                forall|k: int| 0 <= k < i ==> #[trigger] rows@[k].table_refs_ok(counts@),
            decreases rows@.len() - i,
        {
            let row = rows[i];
            if !((row.asm_ref.0 <= counts[0x23])) {
                assert(!rows@[i as int].table_refs_ok(counts@));
                return false;
            }
            i = i + 1;
        }
        true
    }

    pub fn rows_heap_refs_ok(rows: &Vec<AssemblyRefProcessor>, h: HeapSizes) -> (r: bool)
        ensures
            r == forall|i: int| 0 <= i < rows@.len() ==> #[trigger] rows@[i].heap_refs_ok(h),
    {
        true
    }
}

/// A row of the `AssemblyRefOS` table (0x25).
#[derive(Debug, Clone, Copy, PartialEq, Eq, Structural)]
pub struct AssemblyRefOS {
    pub platform_id: u32,
    pub major_version: u32,
    pub minor_version: u32,
    pub asm_ref: AssemblyRefIndex,
}

impl AssemblyRefOS {
    /// The width of one row in bytes.
    pub open spec fn width() -> nat {
        14
    }

    /// The row read at `p`; meaningful where `valid_at` holds.
    pub open spec fn at(s: Seq<u8>, p: int) -> AssemblyRefOS {
        AssemblyRefOS {
            platform_id: le32(s, p) as u32,
            major_version: le32(s, p + 4) as u32,
            minor_version: le32(s, p + 8) as u32,
            asm_ref: AssemblyRefIndex(le16(s, p + 12) as u32),
        }
    }

    /// Every coded index and enumerated field of the row at `p` is valid.
    pub open spec fn valid_at(s: Seq<u8>, p: int) -> bool {
        true
    }

    pub fn parse(s: &[u8], p: usize) -> (r: Option<AssemblyRefOS>)
        requires
            p + 14 <= s@.len(),
        ensures
            r is Some <==> Self::valid_at(s@, p as int),
            r is Some ==> r->0 == Self::at(s@, p as int),
    {
        let n = s.len();
        assert(p + 14 <= n);
        Some(AssemblyRefOS { platform_id: u32_at(s, p), major_version: u32_at(s, p + 4), minor_version: u32_at(s, p + 8), asm_ref: AssemblyRefIndex(u16_at(s, p + 12) as u32) })
    }

    /// Reads `count` consecutive rows from `start`.
    pub fn parse_rows(s: &[u8], start: usize, count: u32) -> (r: Option<Vec<AssemblyRefOS>>)
        requires
            start + count * 14 <= s@.len(),
        ensures
            r is Some <==> forall|i: int| 0 <= i < count ==> #[trigger] Self::valid_at(s@, start + i * 14),
            r matches Some(v) ==> v@.len() == count && forall|i: int|
                0 <= i < count ==> #[trigger] v@[i] == Self::at(s@, start + i * 14),
    {
        let n = s.len();
        let mut v: Vec<AssemblyRefOS> = Vec::new();
        let mut i: u32 = 0;
        while i < count
            invariant
                i <= count,
                s@.len() == n,
                start + count * 14 <= s@.len(),
                v@.len() == i,
                forall|k: int| 0 <= k < i ==> #[trigger] Self::valid_at(s@, start + k * 14),
                forall|k: int| 0 <= k < i ==> #[trigger] v@[k] == Self::at(s@, start + k * 14),
            decreases count - i,
        {
            assert(i * 14 + 14 <= count * 14) by (nonlinear_arith)
                requires
                    i < count,
            ;
            match Self::parse(s, start + i as usize * 14) {
                Some(row) => {
                    v.push(row);
                },
                None => {
                    return None;
                },
            }
            i = i + 1;
        }
        Some(v)
    }

    /// Every table index of the row is null or names an existing row; a
    /// list start may also be one past the last row.
    pub open spec fn table_refs_ok(self, counts: Seq<u32>) -> bool {
        self.asm_ref.0 <= counts[0x23]
    }

    /// Every heap index of the row is null or inside its heap; a GUID index
    /// needs its 16 bytes inside.
    pub open spec fn heap_refs_ok(self, h: HeapSizes) -> bool {
        true
    }

    pub fn rows_table_refs_ok(rows: &Vec<AssemblyRefOS>, counts: &[u32]) -> (r: bool)
        requires
            counts@.len() == TABLE_TAGS,
        ensures
            r == forall|i: int| 0 <= i < rows@.len() ==> #[trigger] rows@[i].table_refs_ok(counts@),
    {
        let mut i: usize = 0;
        while i < rows.len()
            invariant
                i <= rows@.len(),
                counts@.len() == TABLE_TAGS,
                forall|k: int| 0 <= k < i ==> #[trigger] rows@[k].table_refs_ok(counts@),
            decreases rows@.len() - i,
        {
            let row = rows[i];
            if !((row.asm_ref.0 <= counts[0x23])) {
                assert(!rows@[i as int].table_refs_ok(counts@));
                return false;
            }
            i = i + 1;
        }
        true
    }

    pub fn rows_heap_refs_ok(rows: &Vec<AssemblyRefOS>, h: HeapSizes) -> (r: bool)
        ensures
            r == forall|i: int| 0 <= i < rows@.len() ==> #[trigger] rows@[i].heap_refs_ok(h),
    {
        true
    }
}

/// A row of the `File` table (0x26).
#[derive(Debug, Clone, Copy, PartialEq, Eq, Structural)]
pub struct File {
    pub flags: FileAttributes,
    pub name: StringIndex,
    pub hash_value: BlobIndex,
}

impl File {
    /// The width of one row in bytes.
    pub open spec fn width() -> nat {
        8
    }

    /// The row read at `p`; meaningful where `valid_at` holds.
    pub open spec fn at(s: Seq<u8>, p: int) -> File {
        File {
            flags: FileAttributes(le32(s, p) as u32),
            name: StringIndex(le16(s, p + 4) as u32),
            hash_value: BlobIndex(le16(s, p + 6) as u32),
        }
    }

    /// Every coded index and enumerated field of the row at `p` is valid.
    pub open spec fn valid_at(s: Seq<u8>, p: int) -> bool {
        true
    }

    pub fn parse(s: &[u8], p: usize) -> (r: Option<File>)
        requires
            p + 8 <= s@.len(),
        ensures
            r is Some <==> Self::valid_at(s@, p as int),
            r is Some ==> r->0 == Self::at(s@, p as int),
    {
        let n = s.len();
        assert(p + 8 <= n);
        Some(File { flags: FileAttributes(u32_at(s, p)), name: StringIndex(u16_at(s, p + 4) as u32), hash_value: BlobIndex(u16_at(s, p + 6) as u32) })
    }

    /// Reads `count` consecutive rows from `start`.
    pub fn parse_rows(s: &[u8], start: usize, count: u32) -> (r: Option<Vec<File>>)
        requires
            start + count * 8 <= s@.len(),
        ensures
            r is Some <==> forall|i: int| 0 <= i < count ==> #[trigger] Self::valid_at(s@, start + i * 8),
            r matches Some(v) ==> v@.len() == count && forall|i: int|
                0 <= i < count ==> #[trigger] v@[i] == Self::at(s@, start + i * 8),
    {
        let n = s.len();
        let mut v: Vec<File> = Vec::new();
        let mut i: u32 = 0;
        while i < count
            invariant
                i <= count,
                s@.len() == n,
                start + count * 8 <= s@.len(),
                v@.len() == i,
                forall|k: int| 0 <= k < i ==> #[trigger] Self::valid_at(s@, start + k * 8),
                forall|k: int| 0 <= k < i ==> #[trigger] v@[k] == Self::at(s@, start + k * 8),
            decreases count - i,
        {
            assert(i * 8 + 8 <= count * 8) by (nonlinear_arith)
                requires
                    i < count,
            ;
            match Self::parse(s, start + i as usize * 8) {
                Some(row) => {
                    v.push(row);
                },
                None => {
                    return None;
                },
            }
            i = i + 1;
        }
        Some(v)
    }

    /// Every table index of the row is null or names an existing row; a
    /// list start may also be one past the last row.
    pub open spec fn table_refs_ok(self, counts: Seq<u32>) -> bool {
        true
    }

    /// Every heap index of the row is null or inside its heap; a GUID index
    /// needs its 16 bytes inside.
    pub open spec fn heap_refs_ok(self, h: HeapSizes) -> bool {
        (self.name.0 == 0 || self.name.0 < h.strings) && (self.hash_value.0 == 0 || self.hash_value.0 < h.blob)
    }

    pub fn rows_table_refs_ok(rows: &Vec<File>, counts: &[u32]) -> (r: bool)
        requires
            counts@.len() == TABLE_TAGS,
        ensures
            r == forall|i: int| 0 <= i < rows@.len() ==> #[trigger] rows@[i].table_refs_ok(counts@),
    {
        true
    }

    pub fn rows_heap_refs_ok(rows: &Vec<File>, h: HeapSizes) -> (r: bool)
        ensures
            r == forall|i: int| 0 <= i < rows@.len() ==> #[trigger] rows@[i].heap_refs_ok(h),
    {
        let mut i: usize = 0;
        while i < rows.len()
            invariant
                i <= rows@.len(),
                forall|k: int| 0 <= k < i ==> #[trigger] rows@[k].heap_refs_ok(h),
            decreases rows@.len() - i,
        {
            let row = rows[i];
            if !((row.name.0 == 0 || (row.name.0 as usize) < h.strings) && (row.hash_value.0 == 0 || (row.hash_value.0 as usize) < h.blob)) {
                assert(!rows@[i as int].heap_refs_ok(h));
                return false;
            }
            i = i + 1;
        }
        true
    }
}

/// A row of the `ExportedType` table (0x27).
#[derive(Debug, Clone, Copy, PartialEq, Eq, Structural)]
pub struct ExportedType {
    pub flags: TypeAttributes,
    pub def_id: u32,
    pub name: StringIndex,
    pub namespace: StringIndex,
    pub implementation: Implementation,
}

impl ExportedType {
    /// The width of one row in bytes.
    pub open spec fn width() -> nat {
        14
    }

    /// The row read at `p`; meaningful where `valid_at` holds.
    pub open spec fn at(s: Seq<u8>, p: int) -> ExportedType {
        ExportedType {
            flags: TypeAttributes(le32(s, p) as u32),
            def_id: le32(s, p + 4) as u32,
            name: StringIndex(le16(s, p + 8) as u32),
            namespace: StringIndex(le16(s, p + 10) as u32),
            implementation: Implementation::spec_decode(le16(s, p + 12) as u16)->0,
        }
    }

    /// Every coded index and enumerated field of the row at `p` is valid.
    pub open spec fn valid_at(s: Seq<u8>, p: int) -> bool {
        Implementation::spec_decode(le16(s, p + 12) as u16) is Some
    }

    pub fn parse(s: &[u8], p: usize) -> (r: Option<ExportedType>)
        requires
            p + 14 <= s@.len(),
        ensures
            r is Some <==> Self::valid_at(s@, p as int),
            r is Some ==> r->0 == Self::at(s@, p as int),
    {
        let n = s.len();
        assert(p + 14 <= n);
        let implementation = match Implementation::decode(u16_at(s, p + 12)) {
            Some(v) => v,
            None => return None,
        };
        Some(ExportedType { flags: TypeAttributes(u32_at(s, p)), def_id: u32_at(s, p + 4), name: StringIndex(u16_at(s, p + 8) as u32), namespace: StringIndex(u16_at(s, p + 10) as u32), implementation })
    }

    /// Reads `count` consecutive rows from `start`.
    pub fn parse_rows(s: &[u8], start: usize, count: u32) -> (r: Option<Vec<ExportedType>>)
        requires
            start + count * 14 <= s@.len(),
        ensures
            r is Some <==> forall|i: int| 0 <= i < count ==> #[trigger] Self::valid_at(s@, start + i * 14),
            r matches Some(v) ==> v@.len() == count && forall|i: int|
                0 <= i < count ==> #[trigger] v@[i] == Self::at(s@, start + i * 14),
    {
        let n = s.len();
        let mut v: Vec<ExportedType> = Vec::new();
        let mut i: u32 = 0;
        while i < count
            invariant
                i <= count,
                s@.len() == n,
                start + count * 14 <= s@.len(),
                v@.len() == i,
                forall|k: int| 0 <= k < i ==> #[trigger] Self::valid_at(s@, start + k * 14),
                forall|k: int| 0 <= k < i ==> #[trigger] v@[k] == Self::at(s@, start + k * 14),
            decreases count - i,
        {
            assert(i * 14 + 14 <= count * 14) by (nonlinear_arith)
                requires
                    i < count,
            ;
            match Self::parse(s, start + i as usize * 14) {
                Some(row) => {
                    v.push(row);
                },
                None => {
                    return None;
                },
            }
            i = i + 1;
        }
        Some(v)
    }

    /// Every table index of the row is null or names an existing row; a
    /// list start may also be one past the last row.
    pub open spec fn table_refs_ok(self, counts: Seq<u32>) -> bool {
        self.implementation.refs_ok(counts)
    }

    /// Every heap index of the row is null or inside its heap; a GUID index
    /// needs its 16 bytes inside.
    pub open spec fn heap_refs_ok(self, h: HeapSizes) -> bool {
        (self.name.0 == 0 || self.name.0 < h.strings) && (self.namespace.0 == 0 || self.namespace.0 < h.strings)
    }

    pub fn rows_table_refs_ok(rows: &Vec<ExportedType>, counts: &[u32]) -> (r: bool)
        requires
            counts@.len() == TABLE_TAGS,
        ensures
            r == forall|i: int| 0 <= i < rows@.len() ==> #[trigger] rows@[i].table_refs_ok(counts@),
    {
        let mut i: usize = 0;
        while i < rows.len()
            invariant
                i <= rows@.len(),
                counts@.len() == TABLE_TAGS,
                forall|k: int| 0 <= k < i ==> #[trigger] rows@[k].table_refs_ok(counts@),
            decreases rows@.len() - i,
        {
            let row = rows[i];
            if !((row.implementation.check_refs(counts))) {
                assert(!rows@[i as int].table_refs_ok(counts@));
                return false;
            }
            i = i + 1;
        }
        true
    }

    pub fn rows_heap_refs_ok(rows: &Vec<ExportedType>, h: HeapSizes) -> (r: bool)
        ensures
            r == forall|i: int| 0 <= i < rows@.len() ==> #[trigger] rows@[i].heap_refs_ok(h),
    {
        let mut i: usize = 0;
        while i < rows.len()
            invariant
                i <= rows@.len(),
                forall|k: int| 0 <= k < i ==> #[trigger] rows@[k].heap_refs_ok(h),
            decreases rows@.len() - i,
        {
            let row = rows[i];
            if !((row.name.0 == 0 || (row.name.0 as usize) < h.strings) && (row.namespace.0 == 0 || (row.namespace.0 as usize) < h.strings)) {
                assert(!rows@[i as int].heap_refs_ok(h));
                return false;
            }
            i = i + 1;
        }
        true
    }
}

/// A row of the `ManifestResource` table (0x28).
#[derive(Debug, Clone, Copy, PartialEq, Eq, Structural)]
pub struct ManifestResource {
    pub offset: u32,
    pub flags: ManifestResourceAttributes,
    pub name: StringIndex,
    pub implementation: Implementation,
}

impl ManifestResource {
    /// The width of one row in bytes.
    pub open spec fn width() -> nat {
        12
    }

    /// The row read at `p`; meaningful where `valid_at` holds.
    pub open spec fn at(s: Seq<u8>, p: int) -> ManifestResource {
        ManifestResource {
            offset: le32(s, p) as u32,
            flags: ManifestResourceAttributes(le32(s, p + 4) as u32),
            name: StringIndex(le16(s, p + 8) as u32),
            implementation: Implementation::spec_decode(le16(s, p + 10) as u16)->0,
        }
    }

    /// Every coded index and enumerated field of the row at `p` is valid.
    pub open spec fn valid_at(s: Seq<u8>, p: int) -> bool {
        Implementation::spec_decode(le16(s, p + 10) as u16) is Some
    }

    pub fn parse(s: &[u8], p: usize) -> (r: Option<ManifestResource>)
        requires
            p + 12 <= s@.len(),
        ensures
            r is Some <==> Self::valid_at(s@, p as int),
            r is Some ==> r->0 == Self::at(s@, p as int),
    {
        let n = s.len();
        assert(p + 12 <= n);
        let implementation = match Implementation::decode(u16_at(s, p + 10)) {
            Some(v) => v,
            None => return None,
        };
        Some(ManifestResource { offset: u32_at(s, p), flags: ManifestResourceAttributes(u32_at(s, p + 4)), name: StringIndex(u16_at(s, p + 8) as u32), implementation })
    }

    /// Reads `count` consecutive rows from `start`.
    pub fn parse_rows(s: &[u8], start: usize, count: u32) -> (r: Option<Vec<ManifestResource>>)
        requires
            start + count * 12 <= s@.len(),
        ensures
            r is Some <==> forall|i: int| 0 <= i < count ==> #[trigger] Self::valid_at(s@, start + i * 12),
            r matches Some(v) ==> v@.len() == count && forall|i: int|
                0 <= i < count ==> #[trigger] v@[i] == Self::at(s@, start + i * 12),
    {
        let n = s.len();
        let mut v: Vec<ManifestResource> = Vec::new();
        let mut i: u32 = 0;
        while i < count
            invariant
                i <= count,
                s@.len() == n,
                start + count * 12 <= s@.len(),
                v@.len() == i,
                forall|k: int| 0 <= k < i ==> #[trigger] Self::valid_at(s@, start + k * 12),
                forall|k: int| 0 <= k < i ==> #[trigger] v@[k] == Self::at(s@, start + k * 12),
            decreases count - i,
        {
            assert(i * 12 + 12 <= count * 12) by (nonlinear_arith)
                requires
                    i < count,
            ;
            match Self::parse(s, start + i as usize * 12) {
                Some(row) => {
                    v.push(row);
                },
                None => {
                    return None;
                },
            }
            i = i + 1;
        }
        Some(v)
    }

    /// Every table index of the row is null or names an existing row; a
    /// list start may also be one past the last row.
    pub open spec fn table_refs_ok(self, counts: Seq<u32>) -> bool {
        self.implementation.refs_ok(counts)
    }

    /// Every heap index of the row is null or inside its heap; a GUID index
    /// needs its 16 bytes inside.
    pub open spec fn heap_refs_ok(self, h: HeapSizes) -> bool {
        (self.name.0 == 0 || self.name.0 < h.strings)
    }

    pub fn rows_table_refs_ok(rows: &Vec<ManifestResource>, counts: &[u32]) -> (r: bool)
        requires
            counts@.len() == TABLE_TAGS,
        ensures
            r == forall|i: int| 0 <= i < rows@.len() ==> #[trigger] rows@[i].table_refs_ok(counts@),
    {
        let mut i: usize = 0;
        while i < rows.len()
            invariant
                i <= rows@.len(),
                counts@.len() == TABLE_TAGS,
                forall|k: int| 0 <= k < i ==> #[trigger] rows@[k].table_refs_ok(counts@),
            decreases rows@.len() - i,
        {
            let row = rows[i];
            if !((row.implementation.check_refs(counts))) {
                assert(!rows@[i as int].table_refs_ok(counts@));
                return false;
            }
            i = i + 1;
        }
        true
    }

    pub fn rows_heap_refs_ok(rows: &Vec<ManifestResource>, h: HeapSizes) -> (r: bool)
        ensures
            r == forall|i: int| 0 <= i < rows@.len() ==> #[trigger] rows@[i].heap_refs_ok(h),
    {
        let mut i: usize = 0;
        while i < rows.len()
            invariant
                i <= rows@.len(),
                forall|k: int| 0 <= k < i ==> #[trigger] rows@[k].heap_refs_ok(h),
            decreases rows@.len() - i,
        {
            let row = rows[i];
            if !((row.name.0 == 0 || (row.name.0 as usize) < h.strings)) {
                assert(!rows@[i as int].heap_refs_ok(h));
                return false;
            }
            i = i + 1;
        }
        true
    }
}

/// A row of the `NestedClass` table (0x29).
#[derive(Debug, Clone, Copy, PartialEq, Eq, Structural)]
pub struct NestedClass {
    pub nested_class: TypeDefIndex,
    pub enclosing_class: TypeDefIndex,
}

impl NestedClass {
    /// The width of one row in bytes.
    pub open spec fn width() -> nat {
        4
    }

    /// The row read at `p`; meaningful where `valid_at` holds.
    pub open spec fn at(s: Seq<u8>, p: int) -> NestedClass {
        NestedClass {
            nested_class: TypeDefIndex(le16(s, p) as u32),
            enclosing_class: TypeDefIndex(le16(s, p + 2) as u32),
        }
    }

    /// Every coded index and enumerated field of the row at `p` is valid.
    pub open spec fn valid_at(s: Seq<u8>, p: int) -> bool {
        true
    }

    pub fn parse(s: &[u8], p: usize) -> (r: Option<NestedClass>)
        requires
            p + 4 <= s@.len(),
        ensures
            r is Some <==> Self::valid_at(s@, p as int),
            r is Some ==> r->0 == Self::at(s@, p as int),
    {
        let n = s.len();
        assert(p + 4 <= n);
        Some(NestedClass { nested_class: TypeDefIndex(u16_at(s, p) as u32), enclosing_class: TypeDefIndex(u16_at(s, p + 2) as u32) })
    }

    /// Reads `count` consecutive rows from `start`.
    pub fn parse_rows(s: &[u8], start: usize, count: u32) -> (r: Option<Vec<NestedClass>>)
        requires
            start + count * 4 <= s@.len(),
        ensures
            r is Some <==> forall|i: int| 0 <= i < count ==> #[trigger] Self::valid_at(s@, start + i * 4),
            r matches Some(v) ==> v@.len() == count && forall|i: int|
                0 <= i < count ==> #[trigger] v@[i] == Self::at(s@, start + i * 4),
    {
        let n = s.len();
        let mut v: Vec<NestedClass> = Vec::new();
        let mut i: u32 = 0;
        while i < count
            invariant
                i <= count,
                s@.len() == n,
                start + count * 4 <= s@.len(),
                v@.len() == i,
                forall|k: int| 0 <= k < i ==> #[trigger] Self::valid_at(s@, start + k * 4),
                forall|k: int| 0 <= k < i ==> #[trigger] v@[k] == Self::at(s@, start + k * 4),
            decreases count - i,
        {
            assert(i * 4 + 4 <= count * 4) by (nonlinear_arith)
                requires
                    i < count,
            ;
            match Self::parse(s, start + i as usize * 4) {
                Some(row) => {
                    v.push(row);
                },
                None => {
                    return None;
                },
            }
            i = i + 1;
        }
        Some(v)
    }

    /// Every table index of the row is null or names an existing row; a
    /// list start may also be one past the last row.
    pub open spec fn table_refs_ok(self, counts: Seq<u32>) -> bool {
        self.nested_class.0 <= counts[0x02] && self.enclosing_class.0 <= counts[0x02]
    }

    /// Every heap index of the row is null or inside its heap; a GUID index
    /// needs its 16 bytes inside.
    pub open spec fn heap_refs_ok(self, h: HeapSizes) -> bool {
        true
    }

    pub fn rows_table_refs_ok(rows: &Vec<NestedClass>, counts: &[u32]) -> (r: bool)
        requires
            counts@.len() == TABLE_TAGS,
        ensures
            r == forall|i: int| 0 <= i < rows@.len() ==> #[trigger] rows@[i].table_refs_ok(counts@),
    {
        let mut i: usize = 0;
        while i < rows.len()
            invariant
                i <= rows@.len(),
                counts@.len() == TABLE_TAGS,
                forall|k: int| 0 <= k < i ==> #[trigger] rows@[k].table_refs_ok(counts@),
            decreases rows@.len() - i,
        {
            let row = rows[i];
            if !((row.nested_class.0 <= counts[0x02]) && (row.enclosing_class.0 <= counts[0x02])) {
                assert(!rows@[i as int].table_refs_ok(counts@));
                return false;
            }
            i = i + 1;
        }
        true
    }

    pub fn rows_heap_refs_ok(rows: &Vec<NestedClass>, h: HeapSizes) -> (r: bool)
        ensures
            r == forall|i: int| 0 <= i < rows@.len() ==> #[trigger] rows@[i].heap_refs_ok(h),
    {
        true
    }
}

/// A row of the `GenericParam` table (0x2a).
#[derive(Debug, Clone, Copy, PartialEq, Eq, Structural)]
pub struct GenericParam {
    pub number: u16,
    pub flags: GenericParamAttributes,
    pub owner: TypeOrMethodDef,
    pub name: StringIndex,
}

impl GenericParam {
    /// The width of one row in bytes.
    pub open spec fn width() -> nat {
        8
    }

    /// The row read at `p`; meaningful where `valid_at` holds.
    pub open spec fn at(s: Seq<u8>, p: int) -> GenericParam {
        GenericParam {
            number: le16(s, p) as u16,
            flags: GenericParamAttributes(le16(s, p + 2) as u16),
            owner: TypeOrMethodDef::spec_decode(le16(s, p + 4) as u16)->0,
            name: StringIndex(le16(s, p + 6) as u32),
        }
    }

    /// Every coded index and enumerated field of the row at `p` is valid.
    pub open spec fn valid_at(s: Seq<u8>, p: int) -> bool {
        TypeOrMethodDef::spec_decode(le16(s, p + 4) as u16) is Some
    }

    pub fn parse(s: &[u8], p: usize) -> (r: Option<GenericParam>)
        requires
            p + 8 <= s@.len(),
        ensures
            r is Some <==> Self::valid_at(s@, p as int),
            r is Some ==> r->0 == Self::at(s@, p as int),
    {
        let n = s.len();
        assert(p + 8 <= n);
        let owner = match TypeOrMethodDef::decode(u16_at(s, p + 4)) {
            Some(v) => v,
            None => return None,
        };
        Some(GenericParam { number: u16_at(s, p), flags: GenericParamAttributes(u16_at(s, p + 2)), owner, name: StringIndex(u16_at(s, p + 6) as u32) })
    }

    /// Reads `count` consecutive rows from `start`.
    pub fn parse_rows(s: &[u8], start: usize, count: u32) -> (r: Option<Vec<GenericParam>>)
        requires
            start + count * 8 <= s@.len(),
        ensures
            r is Some <==> forall|i: int| 0 <= i < count ==> #[trigger] Self::valid_at(s@, start + i * 8),
            r matches Some(v) ==> v@.len() == count && forall|i: int|
                0 <= i < count ==> #[trigger] v@[i] == Self::at(s@, start + i * 8),
    {
        let n = s.len();
        let mut v: Vec<GenericParam> = Vec::new();
        let mut i: u32 = 0;
        while i < count
            invariant
                i <= count,
                s@.len() == n,
                start + count * 8 <= s@.len(),
                v@.len() == i,
                forall|k: int| 0 <= k < i ==> #[trigger] Self::valid_at(s@, start + k * 8),
                forall|k: int| 0 <= k < i ==> #[trigger] v@[k] == Self::at(s@, start + k * 8),
            decreases count - i,
        {
            assert(i * 8 + 8 <= count * 8) by (nonlinear_arith)
                requires
                    i < count,
            ;
            match Self::parse(s, start + i as usize * 8) {
                Some(row) => {
                    v.push(row);
                },
                None => {
                    return None;
                },
            }
            i = i + 1;
        }
        Some(v)
    }

    /// Every table index of the row is null or names an existing row; a
    /// list start may also be one past the last row.
    pub open spec fn table_refs_ok(self, counts: Seq<u32>) -> bool {
        self.owner.refs_ok(counts)
    }

    /// Every heap index of the row is null or inside its heap; a GUID index
    /// needs its 16 bytes inside.
    pub open spec fn heap_refs_ok(self, h: HeapSizes) -> bool {
        (self.name.0 == 0 || self.name.0 < h.strings)
    }

    pub fn rows_table_refs_ok(rows: &Vec<GenericParam>, counts: &[u32]) -> (r: bool)
        requires
            counts@.len() == TABLE_TAGS,
        ensures
            r == forall|i: int| 0 <= i < rows@.len() ==> #[trigger] rows@[i].table_refs_ok(counts@),
    {
        let mut i: usize = 0;
        while i < rows.len()
            invariant
                i <= rows@.len(),
                counts@.len() == TABLE_TAGS,
                forall|k: int| 0 <= k < i ==> #[trigger] rows@[k].table_refs_ok(counts@),
            decreases rows@.len() - i,
        {
            let row = rows[i];
            if !((row.owner.check_refs(counts))) {
                assert(!rows@[i as int].table_refs_ok(counts@));
                return false;
            }
            i = i + 1;
        }
        true
    }

    pub fn rows_heap_refs_ok(rows: &Vec<GenericParam>, h: HeapSizes) -> (r: bool)
        ensures
            r == forall|i: int| 0 <= i < rows@.len() ==> #[trigger] rows@[i].heap_refs_ok(h),
    {
        let mut i: usize = 0;
        while i < rows.len()
            invariant
                i <= rows@.len(),
                forall|k: int| 0 <= k < i ==> #[trigger] rows@[k].heap_refs_ok(h),
            decreases rows@.len() - i,
        {
            let row = rows[i];
            if !((row.name.0 == 0 || (row.name.0 as usize) < h.strings)) {
                assert(!rows@[i as int].heap_refs_ok(h));
                return false;
            }
            i = i + 1;
        }
        true
    }
}

/// A row of the `MethodSpec` table (0x2b).
#[derive(Debug, Clone, Copy, PartialEq, Eq, Structural)]
pub struct MethodSpec {
    pub method: MethodDefOrRef,
    pub instantiation: BlobIndex,
}

impl MethodSpec {
    /// The width of one row in bytes.
    pub open spec fn width() -> nat {
        4
    }

    /// The row read at `p`; meaningful where `valid_at` holds.
    pub open spec fn at(s: Seq<u8>, p: int) -> MethodSpec {
        MethodSpec {
            method: MethodDefOrRef::spec_decode(le16(s, p) as u16)->0,
            instantiation: BlobIndex(le16(s, p + 2) as u32),
        }
    }

    /// Every coded index and enumerated field of the row at `p` is valid.
    pub open spec fn valid_at(s: Seq<u8>, p: int) -> bool {
        MethodDefOrRef::spec_decode(le16(s, p) as u16) is Some
    }

    pub fn parse(s: &[u8], p: usize) -> (r: Option<MethodSpec>)
        requires
            p + 4 <= s@.len(),
        ensures
            r is Some <==> Self::valid_at(s@, p as int),
            r is Some ==> r->0 == Self::at(s@, p as int),
    {
        let n = s.len();
        assert(p + 4 <= n);
        let method = match MethodDefOrRef::decode(u16_at(s, p)) {
            Some(v) => v,
            None => return None,
        };
        Some(MethodSpec { method, instantiation: BlobIndex(u16_at(s, p + 2) as u32) })
    }

    /// Reads `count` consecutive rows from `start`.
    pub fn parse_rows(s: &[u8], start: usize, count: u32) -> (r: Option<Vec<MethodSpec>>)
        requires
            start + count * 4 <= s@.len(),
        ensures
            r is Some <==> forall|i: int| 0 <= i < count ==> #[trigger] Self::valid_at(s@, start + i * 4),
            r matches Some(v) ==> v@.len() == count && forall|i: int|
                0 <= i < count ==> #[trigger] v@[i] == Self::at(s@, start + i * 4),
    {
        let n = s.len();
        let mut v: Vec<MethodSpec> = Vec::new();
        let mut i: u32 = 0;
        while i < count
            invariant
                i <= count,
                s@.len() == n,
                start + count * 4 <= s@.len(),
                v@.len() == i,
                forall|k: int| 0 <= k < i ==> #[trigger] Self::valid_at(s@, start + k * 4),
                forall|k: int| 0 <= k < i ==> #[trigger] v@[k] == Self::at(s@, start + k * 4),
            decreases count - i,
        {
            assert(i * 4 + 4 <= count * 4) by (nonlinear_arith)
                requires
                    i < count,
            ;
            match Self::parse(s, start + i as usize * 4) {
                Some(row) => {
                    v.push(row);
                },
                None => {
                    return None;
                },
            }
            i = i + 1;
        }
        Some(v)
    }

    /// Every table index of the row is null or names an existing row; a
    /// list start may also be one past the last row.
    pub open spec fn table_refs_ok(self, counts: Seq<u32>) -> bool {
        self.method.refs_ok(counts)
    }

    /// Every heap index of the row is null or inside its heap; a GUID index
    /// needs its 16 bytes inside.
    pub open spec fn heap_refs_ok(self, h: HeapSizes) -> bool {
        (self.instantiation.0 == 0 || self.instantiation.0 < h.blob)
    }

    pub fn rows_table_refs_ok(rows: &Vec<MethodSpec>, counts: &[u32]) -> (r: bool)
        requires
            counts@.len() == TABLE_TAGS,
        ensures
            r == forall|i: int| 0 <= i < rows@.len() ==> #[trigger] rows@[i].table_refs_ok(counts@),
    {
        let mut i: usize = 0;
        while i < rows.len()
            invariant
                i <= rows@.len(),
                counts@.len() == TABLE_TAGS,
                forall|k: int| 0 <= k < i ==> #[trigger] rows@[k].table_refs_ok(counts@),
            decreases rows@.len() - i,
        {
            let row = rows[i];
            if !((row.method.check_refs(counts))) {
                assert(!rows@[i as int].table_refs_ok(counts@));
                return false;
            }
            i = i + 1;
        }
        true
    }

    pub fn rows_heap_refs_ok(rows: &Vec<MethodSpec>, h: HeapSizes) -> (r: bool)
        ensures
            r == forall|i: int| 0 <= i < rows@.len() ==> #[trigger] rows@[i].heap_refs_ok(h),
    {
        let mut i: usize = 0;
        while i < rows.len()
            invariant
                i <= rows@.len(),
                forall|k: int| 0 <= k < i ==> #[trigger] rows@[k].heap_refs_ok(h),
            decreases rows@.len() - i,
        {
            let row = rows[i];
            if !((row.instantiation.0 == 0 || (row.instantiation.0 as usize) < h.blob)) {
                assert(!rows@[i as int].heap_refs_ok(h));
                return false;
            }
            i = i + 1;
        }
        true
    }
}

/// A row of the `GenericParamConstraint` table (0x2c).
#[derive(Debug, Clone, Copy, PartialEq, Eq, Structural)]
pub struct GenericParamConstraint {
    pub owner: GenericParamIndex,
    pub constraint: TypeDefOrRef,
}

impl GenericParamConstraint {
    /// The width of one row in bytes.
    pub open spec fn width() -> nat {
        4
    }

    /// The row read at `p`; meaningful where `valid_at` holds.
    pub open spec fn at(s: Seq<u8>, p: int) -> GenericParamConstraint {
        GenericParamConstraint {
            owner: GenericParamIndex(le16(s, p) as u32),
            constraint: TypeDefOrRef::spec_decode(le16(s, p + 2) as u16)->0,
        }
    }

    /// Every coded index and enumerated field of the row at `p` is valid.
    pub open spec fn valid_at(s: Seq<u8>, p: int) -> bool {
        TypeDefOrRef::spec_decode(le16(s, p + 2) as u16) is Some
    }

    pub fn parse(s: &[u8], p: usize) -> (r: Option<GenericParamConstraint>)
        requires
            p + 4 <= s@.len(),
        ensures
            r is Some <==> Self::valid_at(s@, p as int),
            r is Some ==> r->0 == Self::at(s@, p as int),
    {
        let n = s.len();
        assert(p + 4 <= n);
        let constraint = match TypeDefOrRef::decode(u16_at(s, p + 2)) {
            Some(v) => v,
            None => return None,
        };
        Some(GenericParamConstraint { owner: GenericParamIndex(u16_at(s, p) as u32), constraint })
    }

    /// Reads `count` consecutive rows from `start`.
    pub fn parse_rows(s: &[u8], start: usize, count: u32) -> (r: Option<Vec<GenericParamConstraint>>)
        requires
            start + count * 4 <= s@.len(),
        ensures
            r is Some <==> forall|i: int| 0 <= i < count ==> #[trigger] Self::valid_at(s@, start + i * 4),
            r matches Some(v) ==> v@.len() == count && forall|i: int|
                0 <= i < count ==> #[trigger] v@[i] == Self::at(s@, start + i * 4),
    {
        let n = s.len();
        let mut v: Vec<GenericParamConstraint> = Vec::new();
        let mut i: u32 = 0;
        while i < count
            invariant
                i <= count,
                s@.len() == n,
                start + count * 4 <= s@.len(),
                v@.len() == i,
                forall|k: int| 0 <= k < i ==> #[trigger] Self::valid_at(s@, start + k * 4),
                forall|k: int| 0 <= k < i ==> #[trigger] v@[k] == Self::at(s@, start + k * 4),
            decreases count - i,
        {
            assert(i * 4 + 4 <= count * 4) by (nonlinear_arith)
                requires
                    i < count,
            ;
            match Self::parse(s, start + i as usize * 4) {
                Some(row) => {
                    v.push(row);
                },
                None => {
                    return None;
                },
            }
            i = i + 1;
        }
        Some(v)
    }

    /// Every table index of the row is null or names an existing row; a
    /// list start may also be one past the last row.
    pub open spec fn table_refs_ok(self, counts: Seq<u32>) -> bool {
        self.owner.0 <= counts[0x2a] && self.constraint.refs_ok(counts)
    }

    /// Every heap index of the row is null or inside its heap; a GUID index
    /// needs its 16 bytes inside.
    pub open spec fn heap_refs_ok(self, h: HeapSizes) -> bool {
        true
    }

    pub fn rows_table_refs_ok(rows: &Vec<GenericParamConstraint>, counts: &[u32]) -> (r: bool)
        requires
            counts@.len() == TABLE_TAGS,
        ensures
            r == forall|i: int| 0 <= i < rows@.len() ==> #[trigger] rows@[i].table_refs_ok(counts@),
    {
        let mut i: usize = 0;
        while i < rows.len()
            invariant
                i <= rows@.len(),
                counts@.len() == TABLE_TAGS,
                forall|k: int| 0 <= k < i ==> #[trigger] rows@[k].table_refs_ok(counts@),
            decreases rows@.len() - i,
        {
            let row = rows[i];
            if !((row.owner.0 <= counts[0x2a]) && (row.constraint.check_refs(counts))) {
                assert(!rows@[i as int].table_refs_ok(counts@));
                return false;
            }
            i = i + 1;
        }
        true
    }

    pub fn rows_heap_refs_ok(rows: &Vec<GenericParamConstraint>, h: HeapSizes) -> (r: bool)
        ensures
            r == forall|i: int| 0 <= i < rows@.len() ==> #[trigger] rows@[i].heap_refs_ok(h),
    {
        true
    }
}

/// The tag of the `j`-th known table in ascending tag order.
pub open spec fn known_tag(j: int) -> u8 {
    if j == 0 {
        0x00
    } else if j == 1 {
        0x01
    } else if j == 2 {
        0x02
    } else if j == 3 {
        0x04
    } else if j == 4 {
        0x06
    } else if j == 5 {
        0x08
    } else if j == 6 {
        0x09
    } else if j == 7 {
        0x0a
    } else if j == 8 {
        0x0b
    } else if j == 9 {
        0x0c
    } else if j == 10 {
        0x0d
    } else if j == 11 {
        0x0e
    } else if j == 12 {
        0x0f
    } else if j == 13 {
        0x10
    } else if j == 14 {
        0x11
    } else if j == 15 {
        0x12
    } else if j == 16 {
        0x14
    } else if j == 17 {
        0x15
    } else if j == 18 {
        0x17
    } else if j == 19 {
        0x18
    } else if j == 20 {
        0x19
    } else if j == 21 {
        0x1a
    } else if j == 22 {
        0x1b
    } else if j == 23 {
        0x1c
    } else if j == 24 {
        0x1d
    } else if j == 25 {
        0x20
    } else if j == 26 {
        0x21
    } else if j == 27 {
        0x22
    } else if j == 28 {
        0x23
    } else if j == 29 {
        0x24
    } else if j == 30 {
        0x25
    } else if j == 31 {
        0x26
    } else if j == 32 {
        0x27
    } else if j == 33 {
        0x28
    } else if j == 34 {
        0x29
    } else if j == 35 {
        0x2a
    } else if j == 36 {
        0x2b
    } else if j == 37 {
        0x2c
    } else {
        0
    }
}

fn known_tag_exec(j: usize) -> (r: u8)
    requires
        j < KNOWN_TABLES,
    ensures
        r == known_tag(j as int),
{
    match j {
        0 => 0x00,
        1 => 0x01,
        2 => 0x02,
        3 => 0x04,
        4 => 0x06,
        5 => 0x08,
        6 => 0x09,
        7 => 0x0a,
        8 => 0x0b,
        9 => 0x0c,
        10 => 0x0d,
        11 => 0x0e,
        12 => 0x0f,
        13 => 0x10,
        14 => 0x11,
        15 => 0x12,
        16 => 0x14,
        17 => 0x15,
        18 => 0x17,
        19 => 0x18,
        20 => 0x19,
        21 => 0x1a,
        22 => 0x1b,
        23 => 0x1c,
        24 => 0x1d,
        25 => 0x20,
        26 => 0x21,
        27 => 0x22,
        28 => 0x23,
        29 => 0x24,
        30 => 0x25,
        31 => 0x26,
        32 => 0x27,
        33 => 0x28,
        34 => 0x29,
        35 => 0x2a,
        36 => 0x2b,
        37 => 0x2c,
        _ => 0,
    }
}

/// The number of known tables.
pub const KNOWN_TABLES: usize = 38;

/// The `valid` bits of all known tables.
pub const KNOWN_MASK: u64 = 0x1fff3fb7ff57;

/// Whether the `valid` vector marks the table with this tag as present.
pub open spec fn present(valid: u64, tag: u8) -> bool {
    valid & (1u64 << tag) != 0
}

/// How many of the first `j` known tables are present.
pub open spec fn n_present(valid: u64, j: int) -> nat
    decreases j,
{
    if j <= 0 {
        0
    } else {
        n_present(valid, j - 1) + if present(valid, known_tag(j - 1)) {
            1nat
        } else {
            0nat
        }
    }
}

/// The `valid` vector of the table stream that starts at `p`.
pub open spec fn valid_bits(s: Seq<u8>, p: int) -> u64 {
    le64(s, p) as u64
}

/// The row count of the `j`-th known table: read after the two bit vectors
/// when present, zero otherwise.
pub open spec fn row_count(s: Seq<u8>, p: int, j: int) -> nat {
    if present(valid_bits(s, p), known_tag(j)) {
        le32(s, p + 16 + 4 * n_present(valid_bits(s, p), j)) as nat
    } else {
        0
    }
}

/// Where the rows begin: after the bit vectors and the counts.
pub open spec fn rows_start(s: Seq<u8>, p: int) -> int {
    p + 16 + 4 * n_present(valid_bits(s, p), KNOWN_TABLES as int)
}

/// The row width of the `j`-th known table.
pub open spec fn row_width(j: int) -> nat {
    if j == 0 {
        10
    } else if j == 1 {
        6
    } else if j == 2 {
        14
    } else if j == 3 {
        6
    } else if j == 4 {
        14
    } else if j == 5 {
        6
    } else if j == 6 {
        4
    } else if j == 7 {
        6
    } else if j == 8 {
        6
    } else if j == 9 {
        6
    } else if j == 10 {
        4
    } else if j == 11 {
        6
    } else if j == 12 {
        8
    } else if j == 13 {
        6
    } else if j == 14 {
        2
    } else if j == 15 {
        4
    } else if j == 16 {
        6
    } else if j == 17 {
        4
    } else if j == 18 {
        6
    } else if j == 19 {
        6
    } else if j == 20 {
        6
    } else if j == 21 {
        2
    } else if j == 22 {
        2
    } else if j == 23 {
        8
    } else if j == 24 {
        6
    } else if j == 25 {
        22
    } else if j == 26 {
        4
    } else if j == 27 {
        12
    } else if j == 28 {
        20
    } else if j == 29 {
        6
    } else if j == 30 {
        14
    } else if j == 31 {
        8
    } else if j == 32 {
        14
    } else if j == 33 {
        12
    } else if j == 34 {
        4
    } else if j == 35 {
        8
    } else if j == 36 {
        4
    } else if j == 37 {
        4
    } else {
        0
    }
}

/// Where the rows of the `j`-th known table begin.
pub open spec fn table_start(s: Seq<u8>, p: int, j: int) -> int
    decreases j,
{
    if j <= 0 {
        rows_start(s, p)
    } else {
        table_start(s, p, j - 1) + row_count(s, p, j - 1) * row_width(j - 1)
    }
}

proof fn lemma_table_start_mono(s: Seq<u8>, p: int, j: int, k: int)
    requires
        0 <= j <= k,
    ensures
        table_start(s, p, j) <= table_start(s, p, k),
    decreases k - j,
{
    if j < k {
        lemma_table_start_mono(s, p, j, k - 1);
        assert(row_count(s, p, k - 1) * row_width(k - 1) >= 0) by (nonlinear_arith);
    }
}

proof fn lemma_fits(count: nat, width: nat, room: nat)
    requires
        width > 0,
        count <= room / width,
    ensures
        count * width <= room,
{
    assert(count * width <= (room / width) * width) by (nonlinear_arith)
        requires
            count <= room / width,
            width > 0,
    ;
    assert((room / width) * width <= room) by (nonlinear_arith)
        requires
            width > 0,
    ;
}

proof fn lemma_not_fits(count: nat, width: nat, room: nat)
    requires
        width > 0,
        count > room / width,
    ensures
        count * width > room,
{
    assert(count * width >= (room / width + 1) * width) by (nonlinear_arith)
        requires
            count >= room / width + 1,
            width > 0,
    ;
    assert((room / width + 1) * width > room) by (nonlinear_arith)
        requires
            width > 0,
    ;
}

/// The decoded tables, one vector of rows per table; row `i` of a table is
/// its one-based row `i + 1`.
#[derive(Debug, Clone)]
pub struct MetadataTable {
    pub module: Vec<Module>,
    pub type_ref: Vec<TypeRef>,
    pub type_def: Vec<TypeDef>,
    pub field: Vec<Field>,
    pub method_def: Vec<MethodDef>,
    pub param: Vec<Param>,
    pub interface_impl: Vec<InterfaceImpl>,
    pub member_ref: Vec<MemberRef>,
    pub constant: Vec<Constant>,
    pub custom_attribute: Vec<CustomAttribute>,
    pub field_marshal: Vec<FieldMarshal>,
    pub decl_security: Vec<DeclSecurity>,
    pub class_layout: Vec<ClassLayout>,
    pub field_layout: Vec<FieldLayout>,
    pub stand_alone_sig: Vec<StandAloneSig>,
    pub event_map: Vec<EventMap>,
    pub event: Vec<Event>,
    pub property_map: Vec<PropertyMap>,
    pub property: Vec<Property>,
    pub method_semantics: Vec<MethodSemantics>,
    pub method_impl: Vec<MethodImpl>,
    pub module_ref: Vec<ModuleRef>,
    pub type_spec: Vec<TypeSpec>,
    pub impl_map: Vec<ImplMap>,
    pub field_rva: Vec<FieldRVA>,
    pub assembly: Vec<Assembly>,
    pub assembly_processor: Vec<AssemblyProcessor>,
    pub assembly_os: Vec<AssemblyOS>,
    pub assembly_ref: Vec<AssemblyRef>,
    pub assembly_ref_processor: Vec<AssemblyRefProcessor>,
    pub assembly_ref_os: Vec<AssemblyRefOS>,
    pub file: Vec<File>,
    pub exported_type: Vec<ExportedType>,
    pub manifest_resource: Vec<ManifestResource>,
    pub nested_class: Vec<NestedClass>,
    pub generic_param: Vec<GenericParam>,
    pub method_spec: Vec<MethodSpec>,
    pub generic_param_constraint: Vec<GenericParamConstraint>,
}

impl MetadataTable {
    /// The row count of the table with tag `t`; zero for tags without a table.
    pub open spec fn count_of(&self, t: int) -> u32 {
        if t == 0x00 {
            self.module@.len() as u32
        } else if t == 0x01 {
            self.type_ref@.len() as u32
        } else if t == 0x02 {
            self.type_def@.len() as u32
        } else if t == 0x04 {
            self.field@.len() as u32
        } else if t == 0x06 {
            self.method_def@.len() as u32
        } else if t == 0x08 {
            self.param@.len() as u32
        } else if t == 0x09 {
            self.interface_impl@.len() as u32
        } else if t == 0x0a {
            self.member_ref@.len() as u32
        } else if t == 0x0b {
            self.constant@.len() as u32
        } else if t == 0x0c {
            self.custom_attribute@.len() as u32
        } else if t == 0x0d {
            self.field_marshal@.len() as u32
        } else if t == 0x0e {
            self.decl_security@.len() as u32
        } else if t == 0x0f {
            self.class_layout@.len() as u32
        } else if t == 0x10 {
            self.field_layout@.len() as u32
        } else if t == 0x11 {
            self.stand_alone_sig@.len() as u32
        } else if t == 0x12 {
            self.event_map@.len() as u32
        } else if t == 0x14 {
            self.event@.len() as u32
        } else if t == 0x15 {
            self.property_map@.len() as u32
        } else if t == 0x17 {
            self.property@.len() as u32
        } else if t == 0x18 {
            self.method_semantics@.len() as u32
        } else if t == 0x19 {
            self.method_impl@.len() as u32
        } else if t == 0x1a {
            self.module_ref@.len() as u32
        } else if t == 0x1b {
            self.type_spec@.len() as u32
        } else if t == 0x1c {
            self.impl_map@.len() as u32
        } else if t == 0x1d {
            self.field_rva@.len() as u32
        } else if t == 0x20 {
            self.assembly@.len() as u32
        } else if t == 0x21 {
            self.assembly_processor@.len() as u32
        } else if t == 0x22 {
            self.assembly_os@.len() as u32
        } else if t == 0x23 {
            self.assembly_ref@.len() as u32
        } else if t == 0x24 {
            self.assembly_ref_processor@.len() as u32
        } else if t == 0x25 {
            self.assembly_ref_os@.len() as u32
        } else if t == 0x26 {
            self.file@.len() as u32
        } else if t == 0x27 {
            self.exported_type@.len() as u32
        } else if t == 0x28 {
            self.manifest_resource@.len() as u32
        } else if t == 0x29 {
            self.nested_class@.len() as u32
        } else if t == 0x2a {
            self.generic_param@.len() as u32
        } else if t == 0x2b {
            self.method_spec@.len() as u32
        } else if t == 0x2c {
            self.generic_param_constraint@.len() as u32
        } else {
            0
        }
    }

    /// The row counts of all tables by tag.
    pub open spec fn counts(&self) -> Seq<u32> {
        Seq::new(TABLE_TAGS as nat, |t: int| self.count_of(t))
    }

    pub fn row_counts(&self) -> (r: Vec<u32>)
        ensures
            r@ == self.counts(),
    {
        let mut r: Vec<u32> = vec![0u32; TABLE_TAGS];
        r.set(0x00, self.module.len() as u32);
        r.set(0x01, self.type_ref.len() as u32);
        r.set(0x02, self.type_def.len() as u32);
        r.set(0x04, self.field.len() as u32);
        r.set(0x06, self.method_def.len() as u32);
        r.set(0x08, self.param.len() as u32);
        r.set(0x09, self.interface_impl.len() as u32);
        r.set(0x0a, self.member_ref.len() as u32);
        r.set(0x0b, self.constant.len() as u32);
        r.set(0x0c, self.custom_attribute.len() as u32);
        r.set(0x0d, self.field_marshal.len() as u32);
        r.set(0x0e, self.decl_security.len() as u32);
        r.set(0x0f, self.class_layout.len() as u32);
        r.set(0x10, self.field_layout.len() as u32);
        r.set(0x11, self.stand_alone_sig.len() as u32);
        r.set(0x12, self.event_map.len() as u32);
        r.set(0x14, self.event.len() as u32);
        r.set(0x15, self.property_map.len() as u32);
        r.set(0x17, self.property.len() as u32);
        r.set(0x18, self.method_semantics.len() as u32);
        r.set(0x19, self.method_impl.len() as u32);
        r.set(0x1a, self.module_ref.len() as u32);
        r.set(0x1b, self.type_spec.len() as u32);
        r.set(0x1c, self.impl_map.len() as u32);
        r.set(0x1d, self.field_rva.len() as u32);
        r.set(0x20, self.assembly.len() as u32);
        r.set(0x21, self.assembly_processor.len() as u32);
        r.set(0x22, self.assembly_os.len() as u32);
        r.set(0x23, self.assembly_ref.len() as u32);
        r.set(0x24, self.assembly_ref_processor.len() as u32);
        r.set(0x25, self.assembly_ref_os.len() as u32);
        r.set(0x26, self.file.len() as u32);
        r.set(0x27, self.exported_type.len() as u32);
        r.set(0x28, self.manifest_resource.len() as u32);
        r.set(0x29, self.nested_class.len() as u32);
        r.set(0x2a, self.generic_param.len() as u32);
        r.set(0x2b, self.method_spec.len() as u32);
        r.set(0x2c, self.generic_param_constraint.len() as u32);
        assert(r@ =~= self.counts());
        r
    }

    /// Every table index of every row is null or names an existing row.
    pub open spec fn table_refs_ok(&self) -> bool {
        (forall|i: int| 0 <= i < self.module@.len() ==> #[trigger] self.module@[i].table_refs_ok(self.counts()))
        && (forall|i: int| 0 <= i < self.type_ref@.len() ==> #[trigger] self.type_ref@[i].table_refs_ok(self.counts()))
        && (forall|i: int| 0 <= i < self.type_def@.len() ==> #[trigger] self.type_def@[i].table_refs_ok(self.counts()))
        && (forall|i: int| 0 <= i < self.field@.len() ==> #[trigger] self.field@[i].table_refs_ok(self.counts()))
        && (forall|i: int| 0 <= i < self.method_def@.len() ==> #[trigger] self.method_def@[i].table_refs_ok(self.counts()))
        && (forall|i: int| 0 <= i < self.param@.len() ==> #[trigger] self.param@[i].table_refs_ok(self.counts()))
        && (forall|i: int| 0 <= i < self.interface_impl@.len() ==> #[trigger] self.interface_impl@[i].table_refs_ok(self.counts()))
        && (forall|i: int| 0 <= i < self.member_ref@.len() ==> #[trigger] self.member_ref@[i].table_refs_ok(self.counts()))
        && (forall|i: int| 0 <= i < self.constant@.len() ==> #[trigger] self.constant@[i].table_refs_ok(self.counts()))
        && (forall|i: int| 0 <= i < self.custom_attribute@.len() ==> #[trigger] self.custom_attribute@[i].table_refs_ok(self.counts()))
        && (forall|i: int| 0 <= i < self.field_marshal@.len() ==> #[trigger] self.field_marshal@[i].table_refs_ok(self.counts()))
        && (forall|i: int| 0 <= i < self.decl_security@.len() ==> #[trigger] self.decl_security@[i].table_refs_ok(self.counts()))
        && (forall|i: int| 0 <= i < self.class_layout@.len() ==> #[trigger] self.class_layout@[i].table_refs_ok(self.counts()))
        && (forall|i: int| 0 <= i < self.field_layout@.len() ==> #[trigger] self.field_layout@[i].table_refs_ok(self.counts()))
        && (forall|i: int| 0 <= i < self.stand_alone_sig@.len() ==> #[trigger] self.stand_alone_sig@[i].table_refs_ok(self.counts()))
        && (forall|i: int| 0 <= i < self.event_map@.len() ==> #[trigger] self.event_map@[i].table_refs_ok(self.counts()))
        && (forall|i: int| 0 <= i < self.event@.len() ==> #[trigger] self.event@[i].table_refs_ok(self.counts()))
        && (forall|i: int| 0 <= i < self.property_map@.len() ==> #[trigger] self.property_map@[i].table_refs_ok(self.counts()))
        && (forall|i: int| 0 <= i < self.property@.len() ==> #[trigger] self.property@[i].table_refs_ok(self.counts()))
        && (forall|i: int| 0 <= i < self.method_semantics@.len() ==> #[trigger] self.method_semantics@[i].table_refs_ok(self.counts()))
        && (forall|i: int| 0 <= i < self.method_impl@.len() ==> #[trigger] self.method_impl@[i].table_refs_ok(self.counts()))
        && (forall|i: int| 0 <= i < self.module_ref@.len() ==> #[trigger] self.module_ref@[i].table_refs_ok(self.counts()))
        && (forall|i: int| 0 <= i < self.type_spec@.len() ==> #[trigger] self.type_spec@[i].table_refs_ok(self.counts()))
        && (forall|i: int| 0 <= i < self.impl_map@.len() ==> #[trigger] self.impl_map@[i].table_refs_ok(self.counts()))
        && (forall|i: int| 0 <= i < self.field_rva@.len() ==> #[trigger] self.field_rva@[i].table_refs_ok(self.counts()))
        && (forall|i: int| 0 <= i < self.assembly@.len() ==> #[trigger] self.assembly@[i].table_refs_ok(self.counts()))
        && (forall|i: int| 0 <= i < self.assembly_processor@.len() ==> #[trigger] self.assembly_processor@[i].table_refs_ok(self.counts()))
        && (forall|i: int| 0 <= i < self.assembly_os@.len() ==> #[trigger] self.assembly_os@[i].table_refs_ok(self.counts()))
        && (forall|i: int| 0 <= i < self.assembly_ref@.len() ==> #[trigger] self.assembly_ref@[i].table_refs_ok(self.counts()))
        && (forall|i: int| 0 <= i < self.assembly_ref_processor@.len() ==> #[trigger] self.assembly_ref_processor@[i].table_refs_ok(self.counts()))
        && (forall|i: int| 0 <= i < self.assembly_ref_os@.len() ==> #[trigger] self.assembly_ref_os@[i].table_refs_ok(self.counts()))
        && (forall|i: int| 0 <= i < self.file@.len() ==> #[trigger] self.file@[i].table_refs_ok(self.counts()))
        && (forall|i: int| 0 <= i < self.exported_type@.len() ==> #[trigger] self.exported_type@[i].table_refs_ok(self.counts()))
        && (forall|i: int| 0 <= i < self.manifest_resource@.len() ==> #[trigger] self.manifest_resource@[i].table_refs_ok(self.counts()))
        && (forall|i: int| 0 <= i < self.nested_class@.len() ==> #[trigger] self.nested_class@[i].table_refs_ok(self.counts()))
        && (forall|i: int| 0 <= i < self.generic_param@.len() ==> #[trigger] self.generic_param@[i].table_refs_ok(self.counts()))
        && (forall|i: int| 0 <= i < self.method_spec@.len() ==> #[trigger] self.method_spec@[i].table_refs_ok(self.counts()))
        && (forall|i: int| 0 <= i < self.generic_param_constraint@.len() ==> #[trigger] self.generic_param_constraint@[i].table_refs_ok(self.counts()))
    }

    /// Every heap index of every row is null or inside its heap.
    pub open spec fn heap_refs_ok(&self, h: HeapSizes) -> bool {
        (forall|i: int| 0 <= i < self.module@.len() ==> #[trigger] self.module@[i].heap_refs_ok(h))
        && (forall|i: int| 0 <= i < self.type_ref@.len() ==> #[trigger] self.type_ref@[i].heap_refs_ok(h))
        && (forall|i: int| 0 <= i < self.type_def@.len() ==> #[trigger] self.type_def@[i].heap_refs_ok(h))
        && (forall|i: int| 0 <= i < self.field@.len() ==> #[trigger] self.field@[i].heap_refs_ok(h))
        && (forall|i: int| 0 <= i < self.method_def@.len() ==> #[trigger] self.method_def@[i].heap_refs_ok(h))
        && (forall|i: int| 0 <= i < self.param@.len() ==> #[trigger] self.param@[i].heap_refs_ok(h))
        && (forall|i: int| 0 <= i < self.interface_impl@.len() ==> #[trigger] self.interface_impl@[i].heap_refs_ok(h))
        && (forall|i: int| 0 <= i < self.member_ref@.len() ==> #[trigger] self.member_ref@[i].heap_refs_ok(h))
        && (forall|i: int| 0 <= i < self.constant@.len() ==> #[trigger] self.constant@[i].heap_refs_ok(h))
        && (forall|i: int| 0 <= i < self.custom_attribute@.len() ==> #[trigger] self.custom_attribute@[i].heap_refs_ok(h))
        && (forall|i: int| 0 <= i < self.field_marshal@.len() ==> #[trigger] self.field_marshal@[i].heap_refs_ok(h))
        && (forall|i: int| 0 <= i < self.decl_security@.len() ==> #[trigger] self.decl_security@[i].heap_refs_ok(h))
        && (forall|i: int| 0 <= i < self.class_layout@.len() ==> #[trigger] self.class_layout@[i].heap_refs_ok(h))
        && (forall|i: int| 0 <= i < self.field_layout@.len() ==> #[trigger] self.field_layout@[i].heap_refs_ok(h))
        && (forall|i: int| 0 <= i < self.stand_alone_sig@.len() ==> #[trigger] self.stand_alone_sig@[i].heap_refs_ok(h))
        && (forall|i: int| 0 <= i < self.event_map@.len() ==> #[trigger] self.event_map@[i].heap_refs_ok(h))
        && (forall|i: int| 0 <= i < self.event@.len() ==> #[trigger] self.event@[i].heap_refs_ok(h))
        && (forall|i: int| 0 <= i < self.property_map@.len() ==> #[trigger] self.property_map@[i].heap_refs_ok(h))
        && (forall|i: int| 0 <= i < self.property@.len() ==> #[trigger] self.property@[i].heap_refs_ok(h))
        && (forall|i: int| 0 <= i < self.method_semantics@.len() ==> #[trigger] self.method_semantics@[i].heap_refs_ok(h))
        && (forall|i: int| 0 <= i < self.method_impl@.len() ==> #[trigger] self.method_impl@[i].heap_refs_ok(h))
        && (forall|i: int| 0 <= i < self.module_ref@.len() ==> #[trigger] self.module_ref@[i].heap_refs_ok(h))
        && (forall|i: int| 0 <= i < self.type_spec@.len() ==> #[trigger] self.type_spec@[i].heap_refs_ok(h))
        && (forall|i: int| 0 <= i < self.impl_map@.len() ==> #[trigger] self.impl_map@[i].heap_refs_ok(h))
        && (forall|i: int| 0 <= i < self.field_rva@.len() ==> #[trigger] self.field_rva@[i].heap_refs_ok(h))
        && (forall|i: int| 0 <= i < self.assembly@.len() ==> #[trigger] self.assembly@[i].heap_refs_ok(h))
        && (forall|i: int| 0 <= i < self.assembly_processor@.len() ==> #[trigger] self.assembly_processor@[i].heap_refs_ok(h))
        && (forall|i: int| 0 <= i < self.assembly_os@.len() ==> #[trigger] self.assembly_os@[i].heap_refs_ok(h))
        && (forall|i: int| 0 <= i < self.assembly_ref@.len() ==> #[trigger] self.assembly_ref@[i].heap_refs_ok(h))
        && (forall|i: int| 0 <= i < self.assembly_ref_processor@.len() ==> #[trigger] self.assembly_ref_processor@[i].heap_refs_ok(h))
        && (forall|i: int| 0 <= i < self.assembly_ref_os@.len() ==> #[trigger] self.assembly_ref_os@[i].heap_refs_ok(h))
        && (forall|i: int| 0 <= i < self.file@.len() ==> #[trigger] self.file@[i].heap_refs_ok(h))
        && (forall|i: int| 0 <= i < self.exported_type@.len() ==> #[trigger] self.exported_type@[i].heap_refs_ok(h))
        && (forall|i: int| 0 <= i < self.manifest_resource@.len() ==> #[trigger] self.manifest_resource@[i].heap_refs_ok(h))
        && (forall|i: int| 0 <= i < self.nested_class@.len() ==> #[trigger] self.nested_class@[i].heap_refs_ok(h))
        && (forall|i: int| 0 <= i < self.generic_param@.len() ==> #[trigger] self.generic_param@[i].heap_refs_ok(h))
        && (forall|i: int| 0 <= i < self.method_spec@.len() ==> #[trigger] self.method_spec@[i].heap_refs_ok(h))
        && (forall|i: int| 0 <= i < self.generic_param_constraint@.len() ==> #[trigger] self.generic_param_constraint@[i].heap_refs_ok(h))
    }

    /// Checks every table index, then every heap index, of every row.
    pub fn check_refs(&self, h: HeapSizes) -> (r: Result<(), Error>)
        ensures
            r is Ok <==> self.table_refs_ok() && self.heap_refs_ok(h),
            r == Err::<(), Error>(Error::BadIndex) <==> !self.table_refs_ok(),
            r == Err::<(), Error>(Error::HeapDecodeError) <==> self.table_refs_ok()
                && !self.heap_refs_ok(h),
    {
        let counts = self.row_counts();
        if !Module::rows_table_refs_ok(&self.module, counts.as_slice()) {
            return Err(Error::BadIndex);
        }
        if !TypeRef::rows_table_refs_ok(&self.type_ref, counts.as_slice()) {
            return Err(Error::BadIndex);
        }
        if !TypeDef::rows_table_refs_ok(&self.type_def, counts.as_slice()) {
            return Err(Error::BadIndex);
        }
        if !Field::rows_table_refs_ok(&self.field, counts.as_slice()) {
            return Err(Error::BadIndex);
        }
        if !MethodDef::rows_table_refs_ok(&self.method_def, counts.as_slice()) {
            return Err(Error::BadIndex);
        }
        if !Param::rows_table_refs_ok(&self.param, counts.as_slice()) {
            return Err(Error::BadIndex);
        }
        if !InterfaceImpl::rows_table_refs_ok(&self.interface_impl, counts.as_slice()) {
            return Err(Error::BadIndex);
        }
        if !MemberRef::rows_table_refs_ok(&self.member_ref, counts.as_slice()) {
            return Err(Error::BadIndex);
        }
        if !Constant::rows_table_refs_ok(&self.constant, counts.as_slice()) {
            return Err(Error::BadIndex);
        }
        if !CustomAttribute::rows_table_refs_ok(&self.custom_attribute, counts.as_slice()) {
            return Err(Error::BadIndex);
        }
        if !FieldMarshal::rows_table_refs_ok(&self.field_marshal, counts.as_slice()) {
            return Err(Error::BadIndex);
        }
        if !DeclSecurity::rows_table_refs_ok(&self.decl_security, counts.as_slice()) {
            return Err(Error::BadIndex);
        }
        if !ClassLayout::rows_table_refs_ok(&self.class_layout, counts.as_slice()) {
            return Err(Error::BadIndex);
        }
        if !FieldLayout::rows_table_refs_ok(&self.field_layout, counts.as_slice()) {
            return Err(Error::BadIndex);
        }
        if !StandAloneSig::rows_table_refs_ok(&self.stand_alone_sig, counts.as_slice()) {
            return Err(Error::BadIndex);
        }
        if !EventMap::rows_table_refs_ok(&self.event_map, counts.as_slice()) {
            return Err(Error::BadIndex);
        }
        if !Event::rows_table_refs_ok(&self.event, counts.as_slice()) {
            return Err(Error::BadIndex);
        }
        if !PropertyMap::rows_table_refs_ok(&self.property_map, counts.as_slice()) {
            return Err(Error::BadIndex);
        }
        if !Property::rows_table_refs_ok(&self.property, counts.as_slice()) {
            return Err(Error::BadIndex);
        }
        if !MethodSemantics::rows_table_refs_ok(&self.method_semantics, counts.as_slice()) {
            return Err(Error::BadIndex);
        }
        if !MethodImpl::rows_table_refs_ok(&self.method_impl, counts.as_slice()) {
            return Err(Error::BadIndex);
        }
        if !ModuleRef::rows_table_refs_ok(&self.module_ref, counts.as_slice()) {
            return Err(Error::BadIndex);
        }
        if !TypeSpec::rows_table_refs_ok(&self.type_spec, counts.as_slice()) {
            return Err(Error::BadIndex);
        }
        if !ImplMap::rows_table_refs_ok(&self.impl_map, counts.as_slice()) {
            return Err(Error::BadIndex);
        }
        if !FieldRVA::rows_table_refs_ok(&self.field_rva, counts.as_slice()) {
            return Err(Error::BadIndex);
        }
        if !Assembly::rows_table_refs_ok(&self.assembly, counts.as_slice()) {
            return Err(Error::BadIndex);
        }
        if !AssemblyProcessor::rows_table_refs_ok(&self.assembly_processor, counts.as_slice()) {
            return Err(Error::BadIndex);
        }
        if !AssemblyOS::rows_table_refs_ok(&self.assembly_os, counts.as_slice()) {
            return Err(Error::BadIndex);
        }
        if !AssemblyRef::rows_table_refs_ok(&self.assembly_ref, counts.as_slice()) {
            return Err(Error::BadIndex);
        }
        if !AssemblyRefProcessor::rows_table_refs_ok(&self.assembly_ref_processor, counts.as_slice()) {
            return Err(Error::BadIndex);
        }
        if !AssemblyRefOS::rows_table_refs_ok(&self.assembly_ref_os, counts.as_slice()) {
            return Err(Error::BadIndex);
        }
        if !File::rows_table_refs_ok(&self.file, counts.as_slice()) {
            return Err(Error::BadIndex);
        }
        if !ExportedType::rows_table_refs_ok(&self.exported_type, counts.as_slice()) {
            return Err(Error::BadIndex);
        }
        if !ManifestResource::rows_table_refs_ok(&self.manifest_resource, counts.as_slice()) {
            return Err(Error::BadIndex);
        }
        if !NestedClass::rows_table_refs_ok(&self.nested_class, counts.as_slice()) {
            return Err(Error::BadIndex);
        }
        if !GenericParam::rows_table_refs_ok(&self.generic_param, counts.as_slice()) {
            return Err(Error::BadIndex);
        }
        if !MethodSpec::rows_table_refs_ok(&self.method_spec, counts.as_slice()) {
            return Err(Error::BadIndex);
        }
        if !GenericParamConstraint::rows_table_refs_ok(&self.generic_param_constraint, counts.as_slice()) {
            return Err(Error::BadIndex);
        }
        if !Module::rows_heap_refs_ok(&self.module, h) {
            return Err(Error::HeapDecodeError);
        }
        if !TypeRef::rows_heap_refs_ok(&self.type_ref, h) {
            return Err(Error::HeapDecodeError);
        }
        if !TypeDef::rows_heap_refs_ok(&self.type_def, h) {
            return Err(Error::HeapDecodeError);
        }
        if !Field::rows_heap_refs_ok(&self.field, h) {
            return Err(Error::HeapDecodeError);
        }
        if !MethodDef::rows_heap_refs_ok(&self.method_def, h) {
            return Err(Error::HeapDecodeError);
        }
        if !Param::rows_heap_refs_ok(&self.param, h) {
            return Err(Error::HeapDecodeError);
        }
        if !InterfaceImpl::rows_heap_refs_ok(&self.interface_impl, h) {
            return Err(Error::HeapDecodeError);
        }
        if !MemberRef::rows_heap_refs_ok(&self.member_ref, h) {
            return Err(Error::HeapDecodeError);
        }
        if !Constant::rows_heap_refs_ok(&self.constant, h) {
            return Err(Error::HeapDecodeError);
        }
        if !CustomAttribute::rows_heap_refs_ok(&self.custom_attribute, h) {
            return Err(Error::HeapDecodeError);
        }
        if !FieldMarshal::rows_heap_refs_ok(&self.field_marshal, h) {
            return Err(Error::HeapDecodeError);
        }
        if !DeclSecurity::rows_heap_refs_ok(&self.decl_security, h) {
            return Err(Error::HeapDecodeError);
        }
        if !ClassLayout::rows_heap_refs_ok(&self.class_layout, h) {
            return Err(Error::HeapDecodeError);
        }
        if !FieldLayout::rows_heap_refs_ok(&self.field_layout, h) {
            return Err(Error::HeapDecodeError);
        }
        if !StandAloneSig::rows_heap_refs_ok(&self.stand_alone_sig, h) {
            return Err(Error::HeapDecodeError);
        }
        if !EventMap::rows_heap_refs_ok(&self.event_map, h) {
            return Err(Error::HeapDecodeError);
        }
        if !Event::rows_heap_refs_ok(&self.event, h) {
            return Err(Error::HeapDecodeError);
        }
        if !PropertyMap::rows_heap_refs_ok(&self.property_map, h) {
            return Err(Error::HeapDecodeError);
        }
        if !Property::rows_heap_refs_ok(&self.property, h) {
            return Err(Error::HeapDecodeError);
        }
        if !MethodSemantics::rows_heap_refs_ok(&self.method_semantics, h) {
            return Err(Error::HeapDecodeError);
        }
        if !MethodImpl::rows_heap_refs_ok(&self.method_impl, h) {
            return Err(Error::HeapDecodeError);
        }
        if !ModuleRef::rows_heap_refs_ok(&self.module_ref, h) {
            return Err(Error::HeapDecodeError);
        }
        if !TypeSpec::rows_heap_refs_ok(&self.type_spec, h) {
            return Err(Error::HeapDecodeError);
        }
        if !ImplMap::rows_heap_refs_ok(&self.impl_map, h) {
            return Err(Error::HeapDecodeError);
        }
        if !FieldRVA::rows_heap_refs_ok(&self.field_rva, h) {
            return Err(Error::HeapDecodeError);
        }
        if !Assembly::rows_heap_refs_ok(&self.assembly, h) {
            return Err(Error::HeapDecodeError);
        }
        if !AssemblyProcessor::rows_heap_refs_ok(&self.assembly_processor, h) {
            return Err(Error::HeapDecodeError);
        }
        if !AssemblyOS::rows_heap_refs_ok(&self.assembly_os, h) {
            return Err(Error::HeapDecodeError);
        }
        if !AssemblyRef::rows_heap_refs_ok(&self.assembly_ref, h) {
            return Err(Error::HeapDecodeError);
        }
        if !AssemblyRefProcessor::rows_heap_refs_ok(&self.assembly_ref_processor, h) {
            return Err(Error::HeapDecodeError);
        }
        if !AssemblyRefOS::rows_heap_refs_ok(&self.assembly_ref_os, h) {
            return Err(Error::HeapDecodeError);
        }
        if !File::rows_heap_refs_ok(&self.file, h) {
            return Err(Error::HeapDecodeError);
        }
        if !ExportedType::rows_heap_refs_ok(&self.exported_type, h) {
            return Err(Error::HeapDecodeError);
        }
        if !ManifestResource::rows_heap_refs_ok(&self.manifest_resource, h) {
            return Err(Error::HeapDecodeError);
        }
        if !NestedClass::rows_heap_refs_ok(&self.nested_class, h) {
            return Err(Error::HeapDecodeError);
        }
        if !GenericParam::rows_heap_refs_ok(&self.generic_param, h) {
            return Err(Error::HeapDecodeError);
        }
        if !MethodSpec::rows_heap_refs_ok(&self.method_spec, h) {
            return Err(Error::HeapDecodeError);
        }
        if !GenericParamConstraint::rows_heap_refs_ok(&self.generic_param_constraint, h) {
            return Err(Error::HeapDecodeError);
        }
        Ok(())
    }

    /// Each table holds exactly the rows that the stream at `p` places for it.
    pub open spec fn decoded_from(&self, s: Seq<u8>, p: int) -> bool {
        (self.module@.len() == row_count(s, p, 0) && forall|i: int| 0 <= i < self.module@.len() ==> #[trigger] self.module@[i] == Module::at(s, table_start(s, p, 0) + i * 10))
        && (self.type_ref@.len() == row_count(s, p, 1) && forall|i: int| 0 <= i < self.type_ref@.len() ==> #[trigger] self.type_ref@[i] == TypeRef::at(s, table_start(s, p, 1) + i * 6))
        && (self.type_def@.len() == row_count(s, p, 2) && forall|i: int| 0 <= i < self.type_def@.len() ==> #[trigger] self.type_def@[i] == TypeDef::at(s, table_start(s, p, 2) + i * 14))
        && (self.field@.len() == row_count(s, p, 3) && forall|i: int| 0 <= i < self.field@.len() ==> #[trigger] self.field@[i] == Field::at(s, table_start(s, p, 3) + i * 6))
        && (self.method_def@.len() == row_count(s, p, 4) && forall|i: int| 0 <= i < self.method_def@.len() ==> #[trigger] self.method_def@[i] == MethodDef::at(s, table_start(s, p, 4) + i * 14))
        && (self.param@.len() == row_count(s, p, 5) && forall|i: int| 0 <= i < self.param@.len() ==> #[trigger] self.param@[i] == Param::at(s, table_start(s, p, 5) + i * 6))
        && (self.interface_impl@.len() == row_count(s, p, 6) && forall|i: int| 0 <= i < self.interface_impl@.len() ==> #[trigger] self.interface_impl@[i] == InterfaceImpl::at(s, table_start(s, p, 6) + i * 4))
        && (self.member_ref@.len() == row_count(s, p, 7) && forall|i: int| 0 <= i < self.member_ref@.len() ==> #[trigger] self.member_ref@[i] == MemberRef::at(s, table_start(s, p, 7) + i * 6))
        && (self.constant@.len() == row_count(s, p, 8) && forall|i: int| 0 <= i < self.constant@.len() ==> #[trigger] self.constant@[i] == Constant::at(s, table_start(s, p, 8) + i * 6))
        && (self.custom_attribute@.len() == row_count(s, p, 9) && forall|i: int| 0 <= i < self.custom_attribute@.len() ==> #[trigger] self.custom_attribute@[i] == CustomAttribute::at(s, table_start(s, p, 9) + i * 6))
        && (self.field_marshal@.len() == row_count(s, p, 10) && forall|i: int| 0 <= i < self.field_marshal@.len() ==> #[trigger] self.field_marshal@[i] == FieldMarshal::at(s, table_start(s, p, 10) + i * 4))
        && (self.decl_security@.len() == row_count(s, p, 11) && forall|i: int| 0 <= i < self.decl_security@.len() ==> #[trigger] self.decl_security@[i] == DeclSecurity::at(s, table_start(s, p, 11) + i * 6))
        && (self.class_layout@.len() == row_count(s, p, 12) && forall|i: int| 0 <= i < self.class_layout@.len() ==> #[trigger] self.class_layout@[i] == ClassLayout::at(s, table_start(s, p, 12) + i * 8))
        && (self.field_layout@.len() == row_count(s, p, 13) && forall|i: int| 0 <= i < self.field_layout@.len() ==> #[trigger] self.field_layout@[i] == FieldLayout::at(s, table_start(s, p, 13) + i * 6))
        && (self.stand_alone_sig@.len() == row_count(s, p, 14) && forall|i: int| 0 <= i < self.stand_alone_sig@.len() ==> #[trigger] self.stand_alone_sig@[i] == StandAloneSig::at(s, table_start(s, p, 14) + i * 2))
        && (self.event_map@.len() == row_count(s, p, 15) && forall|i: int| 0 <= i < self.event_map@.len() ==> #[trigger] self.event_map@[i] == EventMap::at(s, table_start(s, p, 15) + i * 4))
        && (self.event@.len() == row_count(s, p, 16) && forall|i: int| 0 <= i < self.event@.len() ==> #[trigger] self.event@[i] == Event::at(s, table_start(s, p, 16) + i * 6))
        && (self.property_map@.len() == row_count(s, p, 17) && forall|i: int| 0 <= i < self.property_map@.len() ==> #[trigger] self.property_map@[i] == PropertyMap::at(s, table_start(s, p, 17) + i * 4))
        && (self.property@.len() == row_count(s, p, 18) && forall|i: int| 0 <= i < self.property@.len() ==> #[trigger] self.property@[i] == Property::at(s, table_start(s, p, 18) + i * 6))
        && (self.method_semantics@.len() == row_count(s, p, 19) && forall|i: int| 0 <= i < self.method_semantics@.len() ==> #[trigger] self.method_semantics@[i] == MethodSemantics::at(s, table_start(s, p, 19) + i * 6))
        && (self.method_impl@.len() == row_count(s, p, 20) && forall|i: int| 0 <= i < self.method_impl@.len() ==> #[trigger] self.method_impl@[i] == MethodImpl::at(s, table_start(s, p, 20) + i * 6))
        && (self.module_ref@.len() == row_count(s, p, 21) && forall|i: int| 0 <= i < self.module_ref@.len() ==> #[trigger] self.module_ref@[i] == ModuleRef::at(s, table_start(s, p, 21) + i * 2))
        && (self.type_spec@.len() == row_count(s, p, 22) && forall|i: int| 0 <= i < self.type_spec@.len() ==> #[trigger] self.type_spec@[i] == TypeSpec::at(s, table_start(s, p, 22) + i * 2))
        && (self.impl_map@.len() == row_count(s, p, 23) && forall|i: int| 0 <= i < self.impl_map@.len() ==> #[trigger] self.impl_map@[i] == ImplMap::at(s, table_start(s, p, 23) + i * 8))
        && (self.field_rva@.len() == row_count(s, p, 24) && forall|i: int| 0 <= i < self.field_rva@.len() ==> #[trigger] self.field_rva@[i] == FieldRVA::at(s, table_start(s, p, 24) + i * 6))
        && (self.assembly@.len() == row_count(s, p, 25) && forall|i: int| 0 <= i < self.assembly@.len() ==> #[trigger] self.assembly@[i] == Assembly::at(s, table_start(s, p, 25) + i * 22))
        && (self.assembly_processor@.len() == row_count(s, p, 26) && forall|i: int| 0 <= i < self.assembly_processor@.len() ==> #[trigger] self.assembly_processor@[i] == AssemblyProcessor::at(s, table_start(s, p, 26) + i * 4))
        && (self.assembly_os@.len() == row_count(s, p, 27) && forall|i: int| 0 <= i < self.assembly_os@.len() ==> #[trigger] self.assembly_os@[i] == AssemblyOS::at(s, table_start(s, p, 27) + i * 12))
        && (self.assembly_ref@.len() == row_count(s, p, 28) && forall|i: int| 0 <= i < self.assembly_ref@.len() ==> #[trigger] self.assembly_ref@[i] == AssemblyRef::at(s, table_start(s, p, 28) + i * 20))
        && (self.assembly_ref_processor@.len() == row_count(s, p, 29) && forall|i: int| 0 <= i < self.assembly_ref_processor@.len() ==> #[trigger] self.assembly_ref_processor@[i] == AssemblyRefProcessor::at(s, table_start(s, p, 29) + i * 6))
        && (self.assembly_ref_os@.len() == row_count(s, p, 30) && forall|i: int| 0 <= i < self.assembly_ref_os@.len() ==> #[trigger] self.assembly_ref_os@[i] == AssemblyRefOS::at(s, table_start(s, p, 30) + i * 14))
        && (self.file@.len() == row_count(s, p, 31) && forall|i: int| 0 <= i < self.file@.len() ==> #[trigger] self.file@[i] == File::at(s, table_start(s, p, 31) + i * 8))
        && (self.exported_type@.len() == row_count(s, p, 32) && forall|i: int| 0 <= i < self.exported_type@.len() ==> #[trigger] self.exported_type@[i] == ExportedType::at(s, table_start(s, p, 32) + i * 14))
        && (self.manifest_resource@.len() == row_count(s, p, 33) && forall|i: int| 0 <= i < self.manifest_resource@.len() ==> #[trigger] self.manifest_resource@[i] == ManifestResource::at(s, table_start(s, p, 33) + i * 12))
        && (self.nested_class@.len() == row_count(s, p, 34) && forall|i: int| 0 <= i < self.nested_class@.len() ==> #[trigger] self.nested_class@[i] == NestedClass::at(s, table_start(s, p, 34) + i * 4))
        && (self.generic_param@.len() == row_count(s, p, 35) && forall|i: int| 0 <= i < self.generic_param@.len() ==> #[trigger] self.generic_param@[i] == GenericParam::at(s, table_start(s, p, 35) + i * 8))
        && (self.method_spec@.len() == row_count(s, p, 36) && forall|i: int| 0 <= i < self.method_spec@.len() ==> #[trigger] self.method_spec@[i] == MethodSpec::at(s, table_start(s, p, 36) + i * 4))
        && (self.generic_param_constraint@.len() == row_count(s, p, 37) && forall|i: int| 0 <= i < self.generic_param_constraint@.len() ==> #[trigger] self.generic_param_constraint@[i] == GenericParamConstraint::at(s, table_start(s, p, 37) + i * 4))
    }
}

/// Every row of the stream at `p` fits in `s` and has valid tagged fields.
pub open spec fn rows_ok(s: Seq<u8>, p: int) -> bool {
    table_start(s, p, KNOWN_TABLES as int) <= s.len()
    && (forall|i: int| 0 <= i < row_count(s, p, 0) ==> #[trigger] Module::valid_at(s, table_start(s, p, 0) + i * 10))
    && (forall|i: int| 0 <= i < row_count(s, p, 1) ==> #[trigger] TypeRef::valid_at(s, table_start(s, p, 1) + i * 6))
    && (forall|i: int| 0 <= i < row_count(s, p, 2) ==> #[trigger] TypeDef::valid_at(s, table_start(s, p, 2) + i * 14))
    && (forall|i: int| 0 <= i < row_count(s, p, 3) ==> #[trigger] Field::valid_at(s, table_start(s, p, 3) + i * 6))
    && (forall|i: int| 0 <= i < row_count(s, p, 4) ==> #[trigger] MethodDef::valid_at(s, table_start(s, p, 4) + i * 14))
    && (forall|i: int| 0 <= i < row_count(s, p, 5) ==> #[trigger] Param::valid_at(s, table_start(s, p, 5) + i * 6))
    && (forall|i: int| 0 <= i < row_count(s, p, 6) ==> #[trigger] InterfaceImpl::valid_at(s, table_start(s, p, 6) + i * 4))
    && (forall|i: int| 0 <= i < row_count(s, p, 7) ==> #[trigger] MemberRef::valid_at(s, table_start(s, p, 7) + i * 6))
    && (forall|i: int| 0 <= i < row_count(s, p, 8) ==> #[trigger] Constant::valid_at(s, table_start(s, p, 8) + i * 6))
    && (forall|i: int| 0 <= i < row_count(s, p, 9) ==> #[trigger] CustomAttribute::valid_at(s, table_start(s, p, 9) + i * 6))
    && (forall|i: int| 0 <= i < row_count(s, p, 10) ==> #[trigger] FieldMarshal::valid_at(s, table_start(s, p, 10) + i * 4))
    && (forall|i: int| 0 <= i < row_count(s, p, 11) ==> #[trigger] DeclSecurity::valid_at(s, table_start(s, p, 11) + i * 6))
    && (forall|i: int| 0 <= i < row_count(s, p, 12) ==> #[trigger] ClassLayout::valid_at(s, table_start(s, p, 12) + i * 8))
    && (forall|i: int| 0 <= i < row_count(s, p, 13) ==> #[trigger] FieldLayout::valid_at(s, table_start(s, p, 13) + i * 6))
    && (forall|i: int| 0 <= i < row_count(s, p, 14) ==> #[trigger] StandAloneSig::valid_at(s, table_start(s, p, 14) + i * 2))
    && (forall|i: int| 0 <= i < row_count(s, p, 15) ==> #[trigger] EventMap::valid_at(s, table_start(s, p, 15) + i * 4))
    && (forall|i: int| 0 <= i < row_count(s, p, 16) ==> #[trigger] Event::valid_at(s, table_start(s, p, 16) + i * 6))
    && (forall|i: int| 0 <= i < row_count(s, p, 17) ==> #[trigger] PropertyMap::valid_at(s, table_start(s, p, 17) + i * 4))
    && (forall|i: int| 0 <= i < row_count(s, p, 18) ==> #[trigger] Property::valid_at(s, table_start(s, p, 18) + i * 6))
    && (forall|i: int| 0 <= i < row_count(s, p, 19) ==> #[trigger] MethodSemantics::valid_at(s, table_start(s, p, 19) + i * 6))
    && (forall|i: int| 0 <= i < row_count(s, p, 20) ==> #[trigger] MethodImpl::valid_at(s, table_start(s, p, 20) + i * 6))
    && (forall|i: int| 0 <= i < row_count(s, p, 21) ==> #[trigger] ModuleRef::valid_at(s, table_start(s, p, 21) + i * 2))
    && (forall|i: int| 0 <= i < row_count(s, p, 22) ==> #[trigger] TypeSpec::valid_at(s, table_start(s, p, 22) + i * 2))
    && (forall|i: int| 0 <= i < row_count(s, p, 23) ==> #[trigger] ImplMap::valid_at(s, table_start(s, p, 23) + i * 8))
    && (forall|i: int| 0 <= i < row_count(s, p, 24) ==> #[trigger] FieldRVA::valid_at(s, table_start(s, p, 24) + i * 6))
    && (forall|i: int| 0 <= i < row_count(s, p, 25) ==> #[trigger] Assembly::valid_at(s, table_start(s, p, 25) + i * 22))
    && (forall|i: int| 0 <= i < row_count(s, p, 26) ==> #[trigger] AssemblyProcessor::valid_at(s, table_start(s, p, 26) + i * 4))
    && (forall|i: int| 0 <= i < row_count(s, p, 27) ==> #[trigger] AssemblyOS::valid_at(s, table_start(s, p, 27) + i * 12))
    && (forall|i: int| 0 <= i < row_count(s, p, 28) ==> #[trigger] AssemblyRef::valid_at(s, table_start(s, p, 28) + i * 20))
    && (forall|i: int| 0 <= i < row_count(s, p, 29) ==> #[trigger] AssemblyRefProcessor::valid_at(s, table_start(s, p, 29) + i * 6))
    && (forall|i: int| 0 <= i < row_count(s, p, 30) ==> #[trigger] AssemblyRefOS::valid_at(s, table_start(s, p, 30) + i * 14))
    && (forall|i: int| 0 <= i < row_count(s, p, 31) ==> #[trigger] File::valid_at(s, table_start(s, p, 31) + i * 8))
    && (forall|i: int| 0 <= i < row_count(s, p, 32) ==> #[trigger] ExportedType::valid_at(s, table_start(s, p, 32) + i * 14))
    && (forall|i: int| 0 <= i < row_count(s, p, 33) ==> #[trigger] ManifestResource::valid_at(s, table_start(s, p, 33) + i * 12))
    && (forall|i: int| 0 <= i < row_count(s, p, 34) ==> #[trigger] NestedClass::valid_at(s, table_start(s, p, 34) + i * 4))
    && (forall|i: int| 0 <= i < row_count(s, p, 35) ==> #[trigger] GenericParam::valid_at(s, table_start(s, p, 35) + i * 8))
    && (forall|i: int| 0 <= i < row_count(s, p, 36) ==> #[trigger] MethodSpec::valid_at(s, table_start(s, p, 36) + i * 4))
    && (forall|i: int| 0 <= i < row_count(s, p, 37) ==> #[trigger] GenericParamConstraint::valid_at(s, table_start(s, p, 37) + i * 4))
}

/// What decoding the table stream at `p` fails with, if it fails.
pub open spec fn table_stream_error(s: Seq<u8>, p: int) -> Option<Error> {
    if p + 16 > s.len() || rows_start(s, p) > s.len() {
        Some(Error::BadInput)
    } else if valid_bits(s, p) & !KNOWN_MASK != 0 {
        Some(Error::UnknownTable)
    } else if !rows_ok(s, p) {
        Some(Error::BadInput)
    } else {
        None
    }
}

/// Reads the row counts that follow the bit vectors of the stream at `p`.
fn parse_counts(s: &[u8], p: usize, valid: u64) -> (r: Result<(Vec<u32>, usize), Error>)
    requires
        p + 16 <= s@.len(),
        valid == valid_bits(s@, p as int),
    ensures
        r is Err ==> r == Err::<(Vec<u32>, usize), Error>(Error::BadInput) && rows_start(s@, p as int) > s@.len(),
        r matches Ok((c, q)) ==> q == rows_start(s@, p as int) && q <= s@.len() && c@.len() == KNOWN_TABLES
            && forall|k: int| 0 <= k < KNOWN_TABLES ==> #[trigger] c@[k] == row_count(s@, p as int, k),
{
    let n = s.len();
    let mut counts: Vec<u32> = Vec::new();
    let mut pos: usize = p + 16;
    let mut j: usize = 0;
    while j < KNOWN_TABLES
        invariant
            j <= KNOWN_TABLES,
            s@.len() == n,
            p + 16 <= s@.len(),
            valid == valid_bits(s@, p as int),
            counts@.len() == j,
            pos == p + 16 + 4 * n_present(valid, j as int),
            pos <= s@.len(),
            forall|k: int| 0 <= k < j ==> #[trigger] counts@[k] == row_count(s@, p as int, k),
        decreases KNOWN_TABLES - j,
    {
        let tag = known_tag_exec(j);
        if valid & (1u64 << tag) != 0 {
            match read_u32(s, pos) {
                Some(c) => {
                    counts.push(c);
                    pos = pos + 4;
                },
                None => {
                    proof {
                        lemma_n_present_mono(valid, j as int + 1, KNOWN_TABLES as int);
                    }
                    return Err(Error::BadInput);
                },
            }
        } else {
            counts.push(0);
        }
        j = j + 1;
    }
    Ok((counts, pos))
}

/// Reads the rows of the `Module` table, which start at `pos`.
fn table_rows_module(s: &[u8], p: usize, pos: usize, c: u32) -> (r: Result<(Vec<Module>, usize), Error>)
    requires
        pos == table_start(s@, p as int, 0),
        pos <= s@.len(),
        c == row_count(s@, p as int, 0),
    ensures
        r is Err ==> r == Err::<(Vec<Module>, usize), Error>(Error::BadInput) && !rows_ok(s@, p as int),
        r matches Ok((v, q)) ==> q == table_start(s@, p as int, 1) && q <= s@.len() && v@.len() == c
            && (forall|i: int| 0 <= i < c ==> #[trigger] v@[i] == Module::at(s@, table_start(s@, p as int, 0) + i * 10))
            && (forall|i: int| 0 <= i < c ==> #[trigger] Module::valid_at(s@, table_start(s@, p as int, 0) + i * 10)),
{
    if c as usize > (s.len() - pos) / 10 {
        proof {
            lemma_not_fits(c as nat, 10, (s@.len() - pos) as nat);
            lemma_table_start_mono(s@, p as int, 1, KNOWN_TABLES as int);
        }
        return Err(Error::BadInput);
    }
    proof {
        lemma_fits(c as nat, 10, (s@.len() - pos) as nat);
    }
    match Module::parse_rows(s, pos, c) {
        Some(v) => Ok((v, pos + c as usize * 10)),
        None => Err(Error::BadInput),
    }
}

/// Reads the rows of the `TypeRef` table, which start at `pos`.
fn table_rows_type_ref(s: &[u8], p: usize, pos: usize, c: u32) -> (r: Result<(Vec<TypeRef>, usize), Error>)
    requires
        pos == table_start(s@, p as int, 1),
        pos <= s@.len(),
        c == row_count(s@, p as int, 1),
    ensures
        r is Err ==> r == Err::<(Vec<TypeRef>, usize), Error>(Error::BadInput) && !rows_ok(s@, p as int),
        r matches Ok((v, q)) ==> q == table_start(s@, p as int, 2) && q <= s@.len() && v@.len() == c
            && (forall|i: int| 0 <= i < c ==> #[trigger] v@[i] == TypeRef::at(s@, table_start(s@, p as int, 1) + i * 6))
            && (forall|i: int| 0 <= i < c ==> #[trigger] TypeRef::valid_at(s@, table_start(s@, p as int, 1) + i * 6)),
{
    if c as usize > (s.len() - pos) / 6 {
        proof {
            lemma_not_fits(c as nat, 6, (s@.len() - pos) as nat);
            lemma_table_start_mono(s@, p as int, 2, KNOWN_TABLES as int);
        }
        return Err(Error::BadInput);
    }
    proof {
        lemma_fits(c as nat, 6, (s@.len() - pos) as nat);
    }
    match TypeRef::parse_rows(s, pos, c) {
        Some(v) => Ok((v, pos + c as usize * 6)),
        None => Err(Error::BadInput),
    }
}

/// Reads the rows of the `TypeDef` table, which start at `pos`.
fn table_rows_type_def(s: &[u8], p: usize, pos: usize, c: u32) -> (r: Result<(Vec<TypeDef>, usize), Error>)
    requires
        pos == table_start(s@, p as int, 2),
        pos <= s@.len(),
        c == row_count(s@, p as int, 2),
    ensures
        r is Err ==> r == Err::<(Vec<TypeDef>, usize), Error>(Error::BadInput) && !rows_ok(s@, p as int),
        r matches Ok((v, q)) ==> q == table_start(s@, p as int, 3) && q <= s@.len() && v@.len() == c
            && (forall|i: int| 0 <= i < c ==> #[trigger] v@[i] == TypeDef::at(s@, table_start(s@, p as int, 2) + i * 14))
            && (forall|i: int| 0 <= i < c ==> #[trigger] TypeDef::valid_at(s@, table_start(s@, p as int, 2) + i * 14)),
{
    if c as usize > (s.len() - pos) / 14 {
        proof {
            lemma_not_fits(c as nat, 14, (s@.len() - pos) as nat);
            lemma_table_start_mono(s@, p as int, 3, KNOWN_TABLES as int);
        }
        return Err(Error::BadInput);
    }
    proof {
        lemma_fits(c as nat, 14, (s@.len() - pos) as nat);
    }
    match TypeDef::parse_rows(s, pos, c) {
        Some(v) => Ok((v, pos + c as usize * 14)),
        None => Err(Error::BadInput),
    }
}

/// Reads the rows of the `Field` table, which start at `pos`.
fn table_rows_field(s: &[u8], p: usize, pos: usize, c: u32) -> (r: Result<(Vec<Field>, usize), Error>)
    requires
        pos == table_start(s@, p as int, 3),
        pos <= s@.len(),
        c == row_count(s@, p as int, 3),
    ensures
        r is Err ==> r == Err::<(Vec<Field>, usize), Error>(Error::BadInput) && !rows_ok(s@, p as int),
        r matches Ok((v, q)) ==> q == table_start(s@, p as int, 4) && q <= s@.len() && v@.len() == c
            && (forall|i: int| 0 <= i < c ==> #[trigger] v@[i] == Field::at(s@, table_start(s@, p as int, 3) + i * 6))
            && (forall|i: int| 0 <= i < c ==> #[trigger] Field::valid_at(s@, table_start(s@, p as int, 3) + i * 6)),
{
    if c as usize > (s.len() - pos) / 6 {
        proof {
            lemma_not_fits(c as nat, 6, (s@.len() - pos) as nat);
            lemma_table_start_mono(s@, p as int, 4, KNOWN_TABLES as int);
        }
        return Err(Error::BadInput);
    }
    proof {
        lemma_fits(c as nat, 6, (s@.len() - pos) as nat);
    }
    match Field::parse_rows(s, pos, c) {
        Some(v) => Ok((v, pos + c as usize * 6)),
        None => Err(Error::BadInput),
    }
}

/// Reads the rows of the `MethodDef` table, which start at `pos`.
fn table_rows_method_def(s: &[u8], p: usize, pos: usize, c: u32) -> (r: Result<(Vec<MethodDef>, usize), Error>)
    requires
        pos == table_start(s@, p as int, 4),
        pos <= s@.len(),
        c == row_count(s@, p as int, 4),
    ensures
        r is Err ==> r == Err::<(Vec<MethodDef>, usize), Error>(Error::BadInput) && !rows_ok(s@, p as int),
        r matches Ok((v, q)) ==> q == table_start(s@, p as int, 5) && q <= s@.len() && v@.len() == c
            && (forall|i: int| 0 <= i < c ==> #[trigger] v@[i] == MethodDef::at(s@, table_start(s@, p as int, 4) + i * 14))
            && (forall|i: int| 0 <= i < c ==> #[trigger] MethodDef::valid_at(s@, table_start(s@, p as int, 4) + i * 14)),
{
    if c as usize > (s.len() - pos) / 14 {
        proof {
            lemma_not_fits(c as nat, 14, (s@.len() - pos) as nat);
            lemma_table_start_mono(s@, p as int, 5, KNOWN_TABLES as int);
        }
        return Err(Error::BadInput);
    }
    proof {
        lemma_fits(c as nat, 14, (s@.len() - pos) as nat);
    }
    match MethodDef::parse_rows(s, pos, c) {
        Some(v) => Ok((v, pos + c as usize * 14)),
        None => Err(Error::BadInput),
    }
}

/// Reads the rows of the `Param` table, which start at `pos`.
fn table_rows_param(s: &[u8], p: usize, pos: usize, c: u32) -> (r: Result<(Vec<Param>, usize), Error>)
    requires
        pos == table_start(s@, p as int, 5),
        pos <= s@.len(),
        c == row_count(s@, p as int, 5),
    ensures
        r is Err ==> r == Err::<(Vec<Param>, usize), Error>(Error::BadInput) && !rows_ok(s@, p as int),
        r matches Ok((v, q)) ==> q == table_start(s@, p as int, 6) && q <= s@.len() && v@.len() == c
            && (forall|i: int| 0 <= i < c ==> #[trigger] v@[i] == Param::at(s@, table_start(s@, p as int, 5) + i * 6))
            && (forall|i: int| 0 <= i < c ==> #[trigger] Param::valid_at(s@, table_start(s@, p as int, 5) + i * 6)),
{
    if c as usize > (s.len() - pos) / 6 {
        proof {
            lemma_not_fits(c as nat, 6, (s@.len() - pos) as nat);
            lemma_table_start_mono(s@, p as int, 6, KNOWN_TABLES as int);
        }
        return Err(Error::BadInput);
    }
    proof {
        lemma_fits(c as nat, 6, (s@.len() - pos) as nat);
    }
    match Param::parse_rows(s, pos, c) {
        Some(v) => Ok((v, pos + c as usize * 6)),
        None => Err(Error::BadInput),
    }
}

/// Reads the rows of the `InterfaceImpl` table, which start at `pos`.
fn table_rows_interface_impl(s: &[u8], p: usize, pos: usize, c: u32) -> (r: Result<(Vec<InterfaceImpl>, usize), Error>)
    requires
        pos == table_start(s@, p as int, 6),
        pos <= s@.len(),
        c == row_count(s@, p as int, 6),
    ensures
        r is Err ==> r == Err::<(Vec<InterfaceImpl>, usize), Error>(Error::BadInput) && !rows_ok(s@, p as int),
        r matches Ok((v, q)) ==> q == table_start(s@, p as int, 7) && q <= s@.len() && v@.len() == c
            && (forall|i: int| 0 <= i < c ==> #[trigger] v@[i] == InterfaceImpl::at(s@, table_start(s@, p as int, 6) + i * 4))
            && (forall|i: int| 0 <= i < c ==> #[trigger] InterfaceImpl::valid_at(s@, table_start(s@, p as int, 6) + i * 4)),
{
    if c as usize > (s.len() - pos) / 4 {
        proof {
            lemma_not_fits(c as nat, 4, (s@.len() - pos) as nat);
            lemma_table_start_mono(s@, p as int, 7, KNOWN_TABLES as int);
        }
        return Err(Error::BadInput);
    }
    proof {
        lemma_fits(c as nat, 4, (s@.len() - pos) as nat);
    }
    match InterfaceImpl::parse_rows(s, pos, c) {
        Some(v) => Ok((v, pos + c as usize * 4)),
        None => Err(Error::BadInput),
    }
}

/// Reads the rows of the `MemberRef` table, which start at `pos`.
fn table_rows_member_ref(s: &[u8], p: usize, pos: usize, c: u32) -> (r: Result<(Vec<MemberRef>, usize), Error>)
    requires
        pos == table_start(s@, p as int, 7),
        pos <= s@.len(),
        c == row_count(s@, p as int, 7),
    ensures
        r is Err ==> r == Err::<(Vec<MemberRef>, usize), Error>(Error::BadInput) && !rows_ok(s@, p as int),
        r matches Ok((v, q)) ==> q == table_start(s@, p as int, 8) && q <= s@.len() && v@.len() == c
            && (forall|i: int| 0 <= i < c ==> #[trigger] v@[i] == MemberRef::at(s@, table_start(s@, p as int, 7) + i * 6))
            && (forall|i: int| 0 <= i < c ==> #[trigger] MemberRef::valid_at(s@, table_start(s@, p as int, 7) + i * 6)),
{
    if c as usize > (s.len() - pos) / 6 {
        proof {
            lemma_not_fits(c as nat, 6, (s@.len() - pos) as nat);
            lemma_table_start_mono(s@, p as int, 8, KNOWN_TABLES as int);
        }
        return Err(Error::BadInput);
    }
    proof {
        lemma_fits(c as nat, 6, (s@.len() - pos) as nat);
    }
    match MemberRef::parse_rows(s, pos, c) {
        Some(v) => Ok((v, pos + c as usize * 6)),
        None => Err(Error::BadInput),
    }
}

/// Reads the rows of the `Constant` table, which start at `pos`.
fn table_rows_constant(s: &[u8], p: usize, pos: usize, c: u32) -> (r: Result<(Vec<Constant>, usize), Error>)
    requires
        pos == table_start(s@, p as int, 8),
        pos <= s@.len(),
        c == row_count(s@, p as int, 8),
    ensures
        r is Err ==> r == Err::<(Vec<Constant>, usize), Error>(Error::BadInput) && !rows_ok(s@, p as int),
        r matches Ok((v, q)) ==> q == table_start(s@, p as int, 9) && q <= s@.len() && v@.len() == c
            && (forall|i: int| 0 <= i < c ==> #[trigger] v@[i] == Constant::at(s@, table_start(s@, p as int, 8) + i * 6))
            && (forall|i: int| 0 <= i < c ==> #[trigger] Constant::valid_at(s@, table_start(s@, p as int, 8) + i * 6)),
{
    if c as usize > (s.len() - pos) / 6 {
        proof {
            lemma_not_fits(c as nat, 6, (s@.len() - pos) as nat);
            lemma_table_start_mono(s@, p as int, 9, KNOWN_TABLES as int);
        }
        return Err(Error::BadInput);
    }
    proof {
        lemma_fits(c as nat, 6, (s@.len() - pos) as nat);
    }
    match Constant::parse_rows(s, pos, c) {
        Some(v) => Ok((v, pos + c as usize * 6)),
        None => Err(Error::BadInput),
    }
}

/// Reads the rows of the `CustomAttribute` table, which start at `pos`.
fn table_rows_custom_attribute(s: &[u8], p: usize, pos: usize, c: u32) -> (r: Result<(Vec<CustomAttribute>, usize), Error>)
    requires
        pos == table_start(s@, p as int, 9),
        pos <= s@.len(),
        c == row_count(s@, p as int, 9),
    ensures
        r is Err ==> r == Err::<(Vec<CustomAttribute>, usize), Error>(Error::BadInput) && !rows_ok(s@, p as int),
        r matches Ok((v, q)) ==> q == table_start(s@, p as int, 10) && q <= s@.len() && v@.len() == c
            && (forall|i: int| 0 <= i < c ==> #[trigger] v@[i] == CustomAttribute::at(s@, table_start(s@, p as int, 9) + i * 6))
            && (forall|i: int| 0 <= i < c ==> #[trigger] CustomAttribute::valid_at(s@, table_start(s@, p as int, 9) + i * 6)),
{
    if c as usize > (s.len() - pos) / 6 {
        proof {
            lemma_not_fits(c as nat, 6, (s@.len() - pos) as nat);
            lemma_table_start_mono(s@, p as int, 10, KNOWN_TABLES as int);
        }
        return Err(Error::BadInput);
    }
    proof {
        lemma_fits(c as nat, 6, (s@.len() - pos) as nat);
    }
    match CustomAttribute::parse_rows(s, pos, c) {
        Some(v) => Ok((v, pos + c as usize * 6)),
        None => Err(Error::BadInput),
    }
}

/// Reads the rows of the `FieldMarshal` table, which start at `pos`.
fn table_rows_field_marshal(s: &[u8], p: usize, pos: usize, c: u32) -> (r: Result<(Vec<FieldMarshal>, usize), Error>)
    requires
        pos == table_start(s@, p as int, 10),
        pos <= s@.len(),
        c == row_count(s@, p as int, 10),
    ensures
        r is Err ==> r == Err::<(Vec<FieldMarshal>, usize), Error>(Error::BadInput) && !rows_ok(s@, p as int),
        r matches Ok((v, q)) ==> q == table_start(s@, p as int, 11) && q <= s@.len() && v@.len() == c
            && (forall|i: int| 0 <= i < c ==> #[trigger] v@[i] == FieldMarshal::at(s@, table_start(s@, p as int, 10) + i * 4))
            && (forall|i: int| 0 <= i < c ==> #[trigger] FieldMarshal::valid_at(s@, table_start(s@, p as int, 10) + i * 4)),
{
    if c as usize > (s.len() - pos) / 4 {
        proof {
            lemma_not_fits(c as nat, 4, (s@.len() - pos) as nat);
            lemma_table_start_mono(s@, p as int, 11, KNOWN_TABLES as int);
        }
        return Err(Error::BadInput);
    }
    proof {
        lemma_fits(c as nat, 4, (s@.len() - pos) as nat);
    }
    match FieldMarshal::parse_rows(s, pos, c) {
        Some(v) => Ok((v, pos + c as usize * 4)),
        None => Err(Error::BadInput),
    }
}

/// Reads the rows of the `DeclSecurity` table, which start at `pos`.
fn table_rows_decl_security(s: &[u8], p: usize, pos: usize, c: u32) -> (r: Result<(Vec<DeclSecurity>, usize), Error>)
    requires
        pos == table_start(s@, p as int, 11),
        pos <= s@.len(),
        c == row_count(s@, p as int, 11),
    ensures
        r is Err ==> r == Err::<(Vec<DeclSecurity>, usize), Error>(Error::BadInput) && !rows_ok(s@, p as int),
        r matches Ok((v, q)) ==> q == table_start(s@, p as int, 12) && q <= s@.len() && v@.len() == c
            && (forall|i: int| 0 <= i < c ==> #[trigger] v@[i] == DeclSecurity::at(s@, table_start(s@, p as int, 11) + i * 6))
            && (forall|i: int| 0 <= i < c ==> #[trigger] DeclSecurity::valid_at(s@, table_start(s@, p as int, 11) + i * 6)),
{
    if c as usize > (s.len() - pos) / 6 {
        proof {
            lemma_not_fits(c as nat, 6, (s@.len() - pos) as nat);
            lemma_table_start_mono(s@, p as int, 12, KNOWN_TABLES as int);
        }
        return Err(Error::BadInput);
    }
    proof {
        lemma_fits(c as nat, 6, (s@.len() - pos) as nat);
    }
    match DeclSecurity::parse_rows(s, pos, c) {
        Some(v) => Ok((v, pos + c as usize * 6)),
        None => Err(Error::BadInput),
    }
}

/// Reads the rows of the `ClassLayout` table, which start at `pos`.
fn table_rows_class_layout(s: &[u8], p: usize, pos: usize, c: u32) -> (r: Result<(Vec<ClassLayout>, usize), Error>)
    requires
        pos == table_start(s@, p as int, 12),
        pos <= s@.len(),
        c == row_count(s@, p as int, 12),
    ensures
        r is Err ==> r == Err::<(Vec<ClassLayout>, usize), Error>(Error::BadInput) && !rows_ok(s@, p as int),
        r matches Ok((v, q)) ==> q == table_start(s@, p as int, 13) && q <= s@.len() && v@.len() == c
            && (forall|i: int| 0 <= i < c ==> #[trigger] v@[i] == ClassLayout::at(s@, table_start(s@, p as int, 12) + i * 8))
            && (forall|i: int| 0 <= i < c ==> #[trigger] ClassLayout::valid_at(s@, table_start(s@, p as int, 12) + i * 8)),
{
    if c as usize > (s.len() - pos) / 8 {
        proof {
            lemma_not_fits(c as nat, 8, (s@.len() - pos) as nat);
            lemma_table_start_mono(s@, p as int, 13, KNOWN_TABLES as int);
        }
        return Err(Error::BadInput);
    }
    proof {
        lemma_fits(c as nat, 8, (s@.len() - pos) as nat);
    }
    match ClassLayout::parse_rows(s, pos, c) {
        Some(v) => Ok((v, pos + c as usize * 8)),
        None => Err(Error::BadInput),
    }
}

/// Reads the rows of the `FieldLayout` table, which start at `pos`.
fn table_rows_field_layout(s: &[u8], p: usize, pos: usize, c: u32) -> (r: Result<(Vec<FieldLayout>, usize), Error>)
    requires
        pos == table_start(s@, p as int, 13),
        pos <= s@.len(),
        c == row_count(s@, p as int, 13),
    ensures
        r is Err ==> r == Err::<(Vec<FieldLayout>, usize), Error>(Error::BadInput) && !rows_ok(s@, p as int),
        r matches Ok((v, q)) ==> q == table_start(s@, p as int, 14) && q <= s@.len() && v@.len() == c
            && (forall|i: int| 0 <= i < c ==> #[trigger] v@[i] == FieldLayout::at(s@, table_start(s@, p as int, 13) + i * 6))
            && (forall|i: int| 0 <= i < c ==> #[trigger] FieldLayout::valid_at(s@, table_start(s@, p as int, 13) + i * 6)),
{
    if c as usize > (s.len() - pos) / 6 {
        proof {
            lemma_not_fits(c as nat, 6, (s@.len() - pos) as nat);
            lemma_table_start_mono(s@, p as int, 14, KNOWN_TABLES as int);
        }
        return Err(Error::BadInput);
    }
    proof {
        lemma_fits(c as nat, 6, (s@.len() - pos) as nat);
    }
    match FieldLayout::parse_rows(s, pos, c) {
        Some(v) => Ok((v, pos + c as usize * 6)),
        None => Err(Error::BadInput),
    }
}

/// Reads the rows of the `StandAloneSig` table, which start at `pos`.
fn table_rows_stand_alone_sig(s: &[u8], p: usize, pos: usize, c: u32) -> (r: Result<(Vec<StandAloneSig>, usize), Error>)
    requires
        pos == table_start(s@, p as int, 14),
        pos <= s@.len(),
        c == row_count(s@, p as int, 14),
    ensures
        r is Err ==> r == Err::<(Vec<StandAloneSig>, usize), Error>(Error::BadInput) && !rows_ok(s@, p as int),
        r matches Ok((v, q)) ==> q == table_start(s@, p as int, 15) && q <= s@.len() && v@.len() == c
            && (forall|i: int| 0 <= i < c ==> #[trigger] v@[i] == StandAloneSig::at(s@, table_start(s@, p as int, 14) + i * 2))
            && (forall|i: int| 0 <= i < c ==> #[trigger] StandAloneSig::valid_at(s@, table_start(s@, p as int, 14) + i * 2)),
{
    if c as usize > (s.len() - pos) / 2 {
        proof {
            lemma_not_fits(c as nat, 2, (s@.len() - pos) as nat);
            lemma_table_start_mono(s@, p as int, 15, KNOWN_TABLES as int);
        }
        return Err(Error::BadInput);
    }
    proof {
        lemma_fits(c as nat, 2, (s@.len() - pos) as nat);
    }
    match StandAloneSig::parse_rows(s, pos, c) {
        Some(v) => Ok((v, pos + c as usize * 2)),
        None => Err(Error::BadInput),
    }
}

/// Reads the rows of the `EventMap` table, which start at `pos`.
fn table_rows_event_map(s: &[u8], p: usize, pos: usize, c: u32) -> (r: Result<(Vec<EventMap>, usize), Error>)
    requires
        pos == table_start(s@, p as int, 15),
        pos <= s@.len(),
        c == row_count(s@, p as int, 15),
    ensures
        r is Err ==> r == Err::<(Vec<EventMap>, usize), Error>(Error::BadInput) && !rows_ok(s@, p as int),
        r matches Ok((v, q)) ==> q == table_start(s@, p as int, 16) && q <= s@.len() && v@.len() == c
            && (forall|i: int| 0 <= i < c ==> #[trigger] v@[i] == EventMap::at(s@, table_start(s@, p as int, 15) + i * 4))
            && (forall|i: int| 0 <= i < c ==> #[trigger] EventMap::valid_at(s@, table_start(s@, p as int, 15) + i * 4)),
{
    if c as usize > (s.len() - pos) / 4 {
        proof {
            lemma_not_fits(c as nat, 4, (s@.len() - pos) as nat);
            lemma_table_start_mono(s@, p as int, 16, KNOWN_TABLES as int);
        }
        return Err(Error::BadInput);
    }
    proof {
        lemma_fits(c as nat, 4, (s@.len() - pos) as nat);
    }
    match EventMap::parse_rows(s, pos, c) {
        Some(v) => Ok((v, pos + c as usize * 4)),
        None => Err(Error::BadInput),
    }
}

/// Reads the rows of the `Event` table, which start at `pos`.
fn table_rows_event(s: &[u8], p: usize, pos: usize, c: u32) -> (r: Result<(Vec<Event>, usize), Error>)
    requires
        pos == table_start(s@, p as int, 16),
        pos <= s@.len(),
        c == row_count(s@, p as int, 16),
    ensures
        r is Err ==> r == Err::<(Vec<Event>, usize), Error>(Error::BadInput) && !rows_ok(s@, p as int),
        r matches Ok((v, q)) ==> q == table_start(s@, p as int, 17) && q <= s@.len() && v@.len() == c
            && (forall|i: int| 0 <= i < c ==> #[trigger] v@[i] == Event::at(s@, table_start(s@, p as int, 16) + i * 6))
            && (forall|i: int| 0 <= i < c ==> #[trigger] Event::valid_at(s@, table_start(s@, p as int, 16) + i * 6)),
{
    if c as usize > (s.len() - pos) / 6 {
        proof {
            lemma_not_fits(c as nat, 6, (s@.len() - pos) as nat);
            lemma_table_start_mono(s@, p as int, 17, KNOWN_TABLES as int);
        }
        return Err(Error::BadInput);
    }
    proof {
        lemma_fits(c as nat, 6, (s@.len() - pos) as nat);
    }
    match Event::parse_rows(s, pos, c) {
        Some(v) => Ok((v, pos + c as usize * 6)),
        None => Err(Error::BadInput),
    }
}

/// Reads the rows of the `PropertyMap` table, which start at `pos`.
fn table_rows_property_map(s: &[u8], p: usize, pos: usize, c: u32) -> (r: Result<(Vec<PropertyMap>, usize), Error>)
    requires
        pos == table_start(s@, p as int, 17),
        pos <= s@.len(),
        c == row_count(s@, p as int, 17),
    ensures
        r is Err ==> r == Err::<(Vec<PropertyMap>, usize), Error>(Error::BadInput) && !rows_ok(s@, p as int),
        r matches Ok((v, q)) ==> q == table_start(s@, p as int, 18) && q <= s@.len() && v@.len() == c
            && (forall|i: int| 0 <= i < c ==> #[trigger] v@[i] == PropertyMap::at(s@, table_start(s@, p as int, 17) + i * 4))
            && (forall|i: int| 0 <= i < c ==> #[trigger] PropertyMap::valid_at(s@, table_start(s@, p as int, 17) + i * 4)),
{
    if c as usize > (s.len() - pos) / 4 {
        proof {
            lemma_not_fits(c as nat, 4, (s@.len() - pos) as nat);
            lemma_table_start_mono(s@, p as int, 18, KNOWN_TABLES as int);
        }
        return Err(Error::BadInput);
    }
    proof {
        lemma_fits(c as nat, 4, (s@.len() - pos) as nat);
    }
    match PropertyMap::parse_rows(s, pos, c) {
        Some(v) => Ok((v, pos + c as usize * 4)),
        None => Err(Error::BadInput),
    }
}

/// Reads the rows of the `Property` table, which start at `pos`.
fn table_rows_property(s: &[u8], p: usize, pos: usize, c: u32) -> (r: Result<(Vec<Property>, usize), Error>)
    requires
        pos == table_start(s@, p as int, 18),
        pos <= s@.len(),
        c == row_count(s@, p as int, 18),
    ensures
        r is Err ==> r == Err::<(Vec<Property>, usize), Error>(Error::BadInput) && !rows_ok(s@, p as int),
        r matches Ok((v, q)) ==> q == table_start(s@, p as int, 19) && q <= s@.len() && v@.len() == c
            && (forall|i: int| 0 <= i < c ==> #[trigger] v@[i] == Property::at(s@, table_start(s@, p as int, 18) + i * 6))
            && (forall|i: int| 0 <= i < c ==> #[trigger] Property::valid_at(s@, table_start(s@, p as int, 18) + i * 6)),
{
    if c as usize > (s.len() - pos) / 6 {
        proof {
            lemma_not_fits(c as nat, 6, (s@.len() - pos) as nat);
            lemma_table_start_mono(s@, p as int, 19, KNOWN_TABLES as int);
        }
        return Err(Error::BadInput);
    }
    proof {
        lemma_fits(c as nat, 6, (s@.len() - pos) as nat);
    }
    match Property::parse_rows(s, pos, c) {
        Some(v) => Ok((v, pos + c as usize * 6)),
        None => Err(Error::BadInput),
    }
}

/// Reads the rows of the `MethodSemantics` table, which start at `pos`.
fn table_rows_method_semantics(s: &[u8], p: usize, pos: usize, c: u32) -> (r: Result<(Vec<MethodSemantics>, usize), Error>)
    requires
        pos == table_start(s@, p as int, 19),
        pos <= s@.len(),
        c == row_count(s@, p as int, 19),
    ensures
        r is Err ==> r == Err::<(Vec<MethodSemantics>, usize), Error>(Error::BadInput) && !rows_ok(s@, p as int),
        r matches Ok((v, q)) ==> q == table_start(s@, p as int, 20) && q <= s@.len() && v@.len() == c
            && (forall|i: int| 0 <= i < c ==> #[trigger] v@[i] == MethodSemantics::at(s@, table_start(s@, p as int, 19) + i * 6))
            && (forall|i: int| 0 <= i < c ==> #[trigger] MethodSemantics::valid_at(s@, table_start(s@, p as int, 19) + i * 6)),
{
    if c as usize > (s.len() - pos) / 6 {
        proof {
            lemma_not_fits(c as nat, 6, (s@.len() - pos) as nat);
            lemma_table_start_mono(s@, p as int, 20, KNOWN_TABLES as int);
        }
        return Err(Error::BadInput);
    }
    proof {
        lemma_fits(c as nat, 6, (s@.len() - pos) as nat);
    }
    match MethodSemantics::parse_rows(s, pos, c) {
        Some(v) => Ok((v, pos + c as usize * 6)),
        None => Err(Error::BadInput),
    }
}

/// Reads the rows of the `MethodImpl` table, which start at `pos`.
fn table_rows_method_impl(s: &[u8], p: usize, pos: usize, c: u32) -> (r: Result<(Vec<MethodImpl>, usize), Error>)
    requires
        pos == table_start(s@, p as int, 20),
        pos <= s@.len(),
        c == row_count(s@, p as int, 20),
    ensures
        r is Err ==> r == Err::<(Vec<MethodImpl>, usize), Error>(Error::BadInput) && !rows_ok(s@, p as int),
        r matches Ok((v, q)) ==> q == table_start(s@, p as int, 21) && q <= s@.len() && v@.len() == c
            && (forall|i: int| 0 <= i < c ==> #[trigger] v@[i] == MethodImpl::at(s@, table_start(s@, p as int, 20) + i * 6))
            && (forall|i: int| 0 <= i < c ==> #[trigger] MethodImpl::valid_at(s@, table_start(s@, p as int, 20) + i * 6)),
{
    if c as usize > (s.len() - pos) / 6 {
        proof {
            lemma_not_fits(c as nat, 6, (s@.len() - pos) as nat);
            lemma_table_start_mono(s@, p as int, 21, KNOWN_TABLES as int);
        }
        return Err(Error::BadInput);
    }
    proof {
        lemma_fits(c as nat, 6, (s@.len() - pos) as nat);
    }
    match MethodImpl::parse_rows(s, pos, c) {
        Some(v) => Ok((v, pos + c as usize * 6)),
        None => Err(Error::BadInput),
    }
}

/// Reads the rows of the `ModuleRef` table, which start at `pos`.
fn table_rows_module_ref(s: &[u8], p: usize, pos: usize, c: u32) -> (r: Result<(Vec<ModuleRef>, usize), Error>)
    requires
        pos == table_start(s@, p as int, 21),
        pos <= s@.len(),
        c == row_count(s@, p as int, 21),
    ensures
        r is Err ==> r == Err::<(Vec<ModuleRef>, usize), Error>(Error::BadInput) && !rows_ok(s@, p as int),
        r matches Ok((v, q)) ==> q == table_start(s@, p as int, 22) && q <= s@.len() && v@.len() == c
            && (forall|i: int| 0 <= i < c ==> #[trigger] v@[i] == ModuleRef::at(s@, table_start(s@, p as int, 21) + i * 2))
            && (forall|i: int| 0 <= i < c ==> #[trigger] ModuleRef::valid_at(s@, table_start(s@, p as int, 21) + i * 2)),
{
    if c as usize > (s.len() - pos) / 2 {
        proof {
            lemma_not_fits(c as nat, 2, (s@.len() - pos) as nat);
            lemma_table_start_mono(s@, p as int, 22, KNOWN_TABLES as int);
        }
        return Err(Error::BadInput);
    }
    proof {
        lemma_fits(c as nat, 2, (s@.len() - pos) as nat);
    }
    match ModuleRef::parse_rows(s, pos, c) {
        Some(v) => Ok((v, pos + c as usize * 2)),
        None => Err(Error::BadInput),
    }
}

/// Reads the rows of the `TypeSpec` table, which start at `pos`.
fn table_rows_type_spec(s: &[u8], p: usize, pos: usize, c: u32) -> (r: Result<(Vec<TypeSpec>, usize), Error>)
    requires
        pos == table_start(s@, p as int, 22),
        pos <= s@.len(),
        c == row_count(s@, p as int, 22),
    ensures
        r is Err ==> r == Err::<(Vec<TypeSpec>, usize), Error>(Error::BadInput) && !rows_ok(s@, p as int),
        r matches Ok((v, q)) ==> q == table_start(s@, p as int, 23) && q <= s@.len() && v@.len() == c
            && (forall|i: int| 0 <= i < c ==> #[trigger] v@[i] == TypeSpec::at(s@, table_start(s@, p as int, 22) + i * 2))
            && (forall|i: int| 0 <= i < c ==> #[trigger] TypeSpec::valid_at(s@, table_start(s@, p as int, 22) + i * 2)),
{
    if c as usize > (s.len() - pos) / 2 {
        proof {
            lemma_not_fits(c as nat, 2, (s@.len() - pos) as nat);
            lemma_table_start_mono(s@, p as int, 23, KNOWN_TABLES as int);
        }
        return Err(Error::BadInput);
    }
    proof {
        lemma_fits(c as nat, 2, (s@.len() - pos) as nat);
    }
    match TypeSpec::parse_rows(s, pos, c) {
        Some(v) => Ok((v, pos + c as usize * 2)),
        None => Err(Error::BadInput),
    }
}

/// Reads the rows of the `ImplMap` table, which start at `pos`.
fn table_rows_impl_map(s: &[u8], p: usize, pos: usize, c: u32) -> (r: Result<(Vec<ImplMap>, usize), Error>)
    requires
        pos == table_start(s@, p as int, 23),
        pos <= s@.len(),
        c == row_count(s@, p as int, 23),
    ensures
        r is Err ==> r == Err::<(Vec<ImplMap>, usize), Error>(Error::BadInput) && !rows_ok(s@, p as int),
        r matches Ok((v, q)) ==> q == table_start(s@, p as int, 24) && q <= s@.len() && v@.len() == c
            && (forall|i: int| 0 <= i < c ==> #[trigger] v@[i] == ImplMap::at(s@, table_start(s@, p as int, 23) + i * 8))
            && (forall|i: int| 0 <= i < c ==> #[trigger] ImplMap::valid_at(s@, table_start(s@, p as int, 23) + i * 8)),
{
    if c as usize > (s.len() - pos) / 8 {
        proof {
            lemma_not_fits(c as nat, 8, (s@.len() - pos) as nat);
            lemma_table_start_mono(s@, p as int, 24, KNOWN_TABLES as int);
        }
        return Err(Error::BadInput);
    }
    proof {
        lemma_fits(c as nat, 8, (s@.len() - pos) as nat);
    }
    match ImplMap::parse_rows(s, pos, c) {
        Some(v) => Ok((v, pos + c as usize * 8)),
        None => Err(Error::BadInput),
    }
}

/// Reads the rows of the `FieldRVA` table, which start at `pos`.
fn table_rows_field_rva(s: &[u8], p: usize, pos: usize, c: u32) -> (r: Result<(Vec<FieldRVA>, usize), Error>)
    requires
        pos == table_start(s@, p as int, 24),
        pos <= s@.len(),
        c == row_count(s@, p as int, 24),
    ensures
        r is Err ==> r == Err::<(Vec<FieldRVA>, usize), Error>(Error::BadInput) && !rows_ok(s@, p as int),
        r matches Ok((v, q)) ==> q == table_start(s@, p as int, 25) && q <= s@.len() && v@.len() == c
            && (forall|i: int| 0 <= i < c ==> #[trigger] v@[i] == FieldRVA::at(s@, table_start(s@, p as int, 24) + i * 6))
            && (forall|i: int| 0 <= i < c ==> #[trigger] FieldRVA::valid_at(s@, table_start(s@, p as int, 24) + i * 6)),
{
    if c as usize > (s.len() - pos) / 6 {
        proof {
            lemma_not_fits(c as nat, 6, (s@.len() - pos) as nat);
            lemma_table_start_mono(s@, p as int, 25, KNOWN_TABLES as int);
        }
        return Err(Error::BadInput);
    }
    proof {
        lemma_fits(c as nat, 6, (s@.len() - pos) as nat);
    }
    match FieldRVA::parse_rows(s, pos, c) {
        Some(v) => Ok((v, pos + c as usize * 6)),
        None => Err(Error::BadInput),
    }
}

/// Reads the rows of the `Assembly` table, which start at `pos`.
fn table_rows_assembly(s: &[u8], p: usize, pos: usize, c: u32) -> (r: Result<(Vec<Assembly>, usize), Error>)
    requires
        pos == table_start(s@, p as int, 25),
        pos <= s@.len(),
        c == row_count(s@, p as int, 25),
    ensures
        r is Err ==> r == Err::<(Vec<Assembly>, usize), Error>(Error::BadInput) && !rows_ok(s@, p as int),
        r matches Ok((v, q)) ==> q == table_start(s@, p as int, 26) && q <= s@.len() && v@.len() == c
            && (forall|i: int| 0 <= i < c ==> #[trigger] v@[i] == Assembly::at(s@, table_start(s@, p as int, 25) + i * 22))
            && (forall|i: int| 0 <= i < c ==> #[trigger] Assembly::valid_at(s@, table_start(s@, p as int, 25) + i * 22)),
{
    if c as usize > (s.len() - pos) / 22 {
        proof {
            lemma_not_fits(c as nat, 22, (s@.len() - pos) as nat);
            lemma_table_start_mono(s@, p as int, 26, KNOWN_TABLES as int);
        }
        return Err(Error::BadInput);
    }
    proof {
        lemma_fits(c as nat, 22, (s@.len() - pos) as nat);
    }
    match Assembly::parse_rows(s, pos, c) {
        Some(v) => Ok((v, pos + c as usize * 22)),
        None => Err(Error::BadInput),
    }
}

/// Reads the rows of the `AssemblyProcessor` table, which start at `pos`.
fn table_rows_assembly_processor(s: &[u8], p: usize, pos: usize, c: u32) -> (r: Result<(Vec<AssemblyProcessor>, usize), Error>)
    requires
        pos == table_start(s@, p as int, 26),
        pos <= s@.len(),
        c == row_count(s@, p as int, 26),
    ensures
        r is Err ==> r == Err::<(Vec<AssemblyProcessor>, usize), Error>(Error::BadInput) && !rows_ok(s@, p as int),
        r matches Ok((v, q)) ==> q == table_start(s@, p as int, 27) && q <= s@.len() && v@.len() == c
            && (forall|i: int| 0 <= i < c ==> #[trigger] v@[i] == AssemblyProcessor::at(s@, table_start(s@, p as int, 26) + i * 4))
            && (forall|i: int| 0 <= i < c ==> #[trigger] AssemblyProcessor::valid_at(s@, table_start(s@, p as int, 26) + i * 4)),
{
    if c as usize > (s.len() - pos) / 4 {
        proof {
            lemma_not_fits(c as nat, 4, (s@.len() - pos) as nat);
            lemma_table_start_mono(s@, p as int, 27, KNOWN_TABLES as int);
        }
        return Err(Error::BadInput);
    }
    proof {
        lemma_fits(c as nat, 4, (s@.len() - pos) as nat);
    }
    match AssemblyProcessor::parse_rows(s, pos, c) {
        Some(v) => Ok((v, pos + c as usize * 4)),
        None => Err(Error::BadInput),
    }
}

/// Reads the rows of the `AssemblyOS` table, which start at `pos`.
fn table_rows_assembly_os(s: &[u8], p: usize, pos: usize, c: u32) -> (r: Result<(Vec<AssemblyOS>, usize), Error>)
    requires
        pos == table_start(s@, p as int, 27),
        pos <= s@.len(),
        c == row_count(s@, p as int, 27),
    ensures
        r is Err ==> r == Err::<(Vec<AssemblyOS>, usize), Error>(Error::BadInput) && !rows_ok(s@, p as int),
        r matches Ok((v, q)) ==> q == table_start(s@, p as int, 28) && q <= s@.len() && v@.len() == c
            && (forall|i: int| 0 <= i < c ==> #[trigger] v@[i] == AssemblyOS::at(s@, table_start(s@, p as int, 27) + i * 12))
            && (forall|i: int| 0 <= i < c ==> #[trigger] AssemblyOS::valid_at(s@, table_start(s@, p as int, 27) + i * 12)),
{
    if c as usize > (s.len() - pos) / 12 {
        proof {
            lemma_not_fits(c as nat, 12, (s@.len() - pos) as nat);
            lemma_table_start_mono(s@, p as int, 28, KNOWN_TABLES as int);
        }
        return Err(Error::BadInput);
    }
    proof {
        lemma_fits(c as nat, 12, (s@.len() - pos) as nat);
    }
    match AssemblyOS::parse_rows(s, pos, c) {
        Some(v) => Ok((v, pos + c as usize * 12)),
        None => Err(Error::BadInput),
    }
}

/// Reads the rows of the `AssemblyRef` table, which start at `pos`.
fn table_rows_assembly_ref(s: &[u8], p: usize, pos: usize, c: u32) -> (r: Result<(Vec<AssemblyRef>, usize), Error>)
    requires
        pos == table_start(s@, p as int, 28),
        pos <= s@.len(),
        c == row_count(s@, p as int, 28),
    ensures
        r is Err ==> r == Err::<(Vec<AssemblyRef>, usize), Error>(Error::BadInput) && !rows_ok(s@, p as int),
        r matches Ok((v, q)) ==> q == table_start(s@, p as int, 29) && q <= s@.len() && v@.len() == c
            && (forall|i: int| 0 <= i < c ==> #[trigger] v@[i] == AssemblyRef::at(s@, table_start(s@, p as int, 28) + i * 20))
            && (forall|i: int| 0 <= i < c ==> #[trigger] AssemblyRef::valid_at(s@, table_start(s@, p as int, 28) + i * 20)),
{
    if c as usize > (s.len() - pos) / 20 {
        proof {
            lemma_not_fits(c as nat, 20, (s@.len() - pos) as nat);
            lemma_table_start_mono(s@, p as int, 29, KNOWN_TABLES as int);
        }
        return Err(Error::BadInput);
    }
    proof {
        lemma_fits(c as nat, 20, (s@.len() - pos) as nat);
    }
    match AssemblyRef::parse_rows(s, pos, c) {
        Some(v) => Ok((v, pos + c as usize * 20)),
        None => Err(Error::BadInput),
    }
}

/// Reads the rows of the `AssemblyRefProcessor` table, which start at `pos`.
fn table_rows_assembly_ref_processor(s: &[u8], p: usize, pos: usize, c: u32) -> (r: Result<(Vec<AssemblyRefProcessor>, usize), Error>)
    requires
        pos == table_start(s@, p as int, 29),
        pos <= s@.len(),
        c == row_count(s@, p as int, 29),
    ensures
        r is Err ==> r == Err::<(Vec<AssemblyRefProcessor>, usize), Error>(Error::BadInput) && !rows_ok(s@, p as int),
        r matches Ok((v, q)) ==> q == table_start(s@, p as int, 30) && q <= s@.len() && v@.len() == c
            && (forall|i: int| 0 <= i < c ==> #[trigger] v@[i] == AssemblyRefProcessor::at(s@, table_start(s@, p as int, 29) + i * 6))
            && (forall|i: int| 0 <= i < c ==> #[trigger] AssemblyRefProcessor::valid_at(s@, table_start(s@, p as int, 29) + i * 6)),
{
    if c as usize > (s.len() - pos) / 6 {
        proof {
            lemma_not_fits(c as nat, 6, (s@.len() - pos) as nat);
            lemma_table_start_mono(s@, p as int, 30, KNOWN_TABLES as int);
        }
        return Err(Error::BadInput);
    }
    proof {
        lemma_fits(c as nat, 6, (s@.len() - pos) as nat);
    }
    match AssemblyRefProcessor::parse_rows(s, pos, c) {
        Some(v) => Ok((v, pos + c as usize * 6)),
        None => Err(Error::BadInput),
    }
}

/// Reads the rows of the `AssemblyRefOS` table, which start at `pos`.
fn table_rows_assembly_ref_os(s: &[u8], p: usize, pos: usize, c: u32) -> (r: Result<(Vec<AssemblyRefOS>, usize), Error>)
    requires
        pos == table_start(s@, p as int, 30),
        pos <= s@.len(),
        c == row_count(s@, p as int, 30),
    ensures
        r is Err ==> r == Err::<(Vec<AssemblyRefOS>, usize), Error>(Error::BadInput) && !rows_ok(s@, p as int),
        r matches Ok((v, q)) ==> q == table_start(s@, p as int, 31) && q <= s@.len() && v@.len() == c
            && (forall|i: int| 0 <= i < c ==> #[trigger] v@[i] == AssemblyRefOS::at(s@, table_start(s@, p as int, 30) + i * 14))
            && (forall|i: int| 0 <= i < c ==> #[trigger] AssemblyRefOS::valid_at(s@, table_start(s@, p as int, 30) + i * 14)),
{
    if c as usize > (s.len() - pos) / 14 {
        proof {
            lemma_not_fits(c as nat, 14, (s@.len() - pos) as nat);
            lemma_table_start_mono(s@, p as int, 31, KNOWN_TABLES as int);
        }
        return Err(Error::BadInput);
    }
    proof {
        lemma_fits(c as nat, 14, (s@.len() - pos) as nat);
    }
    match AssemblyRefOS::parse_rows(s, pos, c) {
        Some(v) => Ok((v, pos + c as usize * 14)),
        None => Err(Error::BadInput),
    }
}

/// Reads the rows of the `File` table, which start at `pos`.
fn table_rows_file(s: &[u8], p: usize, pos: usize, c: u32) -> (r: Result<(Vec<File>, usize), Error>)
    requires
        pos == table_start(s@, p as int, 31),
        pos <= s@.len(),
        c == row_count(s@, p as int, 31),
    ensures
        r is Err ==> r == Err::<(Vec<File>, usize), Error>(Error::BadInput) && !rows_ok(s@, p as int),
        r matches Ok((v, q)) ==> q == table_start(s@, p as int, 32) && q <= s@.len() && v@.len() == c
            && (forall|i: int| 0 <= i < c ==> #[trigger] v@[i] == File::at(s@, table_start(s@, p as int, 31) + i * 8))
            && (forall|i: int| 0 <= i < c ==> #[trigger] File::valid_at(s@, table_start(s@, p as int, 31) + i * 8)),
{
    if c as usize > (s.len() - pos) / 8 {
        proof {
            lemma_not_fits(c as nat, 8, (s@.len() - pos) as nat);
            lemma_table_start_mono(s@, p as int, 32, KNOWN_TABLES as int);
        }
        return Err(Error::BadInput);
    }
    proof {
        lemma_fits(c as nat, 8, (s@.len() - pos) as nat);
    }
    match File::parse_rows(s, pos, c) {
        Some(v) => Ok((v, pos + c as usize * 8)),
        None => Err(Error::BadInput),
    }
}

/// Reads the rows of the `ExportedType` table, which start at `pos`.
fn table_rows_exported_type(s: &[u8], p: usize, pos: usize, c: u32) -> (r: Result<(Vec<ExportedType>, usize), Error>)
    requires
        pos == table_start(s@, p as int, 32),
        pos <= s@.len(),
        c == row_count(s@, p as int, 32),
    ensures
        r is Err ==> r == Err::<(Vec<ExportedType>, usize), Error>(Error::BadInput) && !rows_ok(s@, p as int),
        r matches Ok((v, q)) ==> q == table_start(s@, p as int, 33) && q <= s@.len() && v@.len() == c
            && (forall|i: int| 0 <= i < c ==> #[trigger] v@[i] == ExportedType::at(s@, table_start(s@, p as int, 32) + i * 14))
            && (forall|i: int| 0 <= i < c ==> #[trigger] ExportedType::valid_at(s@, table_start(s@, p as int, 32) + i * 14)),
{
    if c as usize > (s.len() - pos) / 14 {
        proof {
            lemma_not_fits(c as nat, 14, (s@.len() - pos) as nat);
            lemma_table_start_mono(s@, p as int, 33, KNOWN_TABLES as int);
        }
        return Err(Error::BadInput);
    }
    proof {
        lemma_fits(c as nat, 14, (s@.len() - pos) as nat);
    }
    match ExportedType::parse_rows(s, pos, c) {
        Some(v) => Ok((v, pos + c as usize * 14)),
        None => Err(Error::BadInput),
    }
}

/// Reads the rows of the `ManifestResource` table, which start at `pos`.
fn table_rows_manifest_resource(s: &[u8], p: usize, pos: usize, c: u32) -> (r: Result<(Vec<ManifestResource>, usize), Error>)
    requires
        pos == table_start(s@, p as int, 33),
        pos <= s@.len(),
        c == row_count(s@, p as int, 33),
    ensures
        r is Err ==> r == Err::<(Vec<ManifestResource>, usize), Error>(Error::BadInput) && !rows_ok(s@, p as int),
        r matches Ok((v, q)) ==> q == table_start(s@, p as int, 34) && q <= s@.len() && v@.len() == c
            && (forall|i: int| 0 <= i < c ==> #[trigger] v@[i] == ManifestResource::at(s@, table_start(s@, p as int, 33) + i * 12))
            && (forall|i: int| 0 <= i < c ==> #[trigger] ManifestResource::valid_at(s@, table_start(s@, p as int, 33) + i * 12)),
{
    if c as usize > (s.len() - pos) / 12 {
        proof {
            lemma_not_fits(c as nat, 12, (s@.len() - pos) as nat);
            lemma_table_start_mono(s@, p as int, 34, KNOWN_TABLES as int);
        }
        return Err(Error::BadInput);
    }
    proof {
        lemma_fits(c as nat, 12, (s@.len() - pos) as nat);
    }
    match ManifestResource::parse_rows(s, pos, c) {
        Some(v) => Ok((v, pos + c as usize * 12)),
        None => Err(Error::BadInput),
    }
}

/// Reads the rows of the `NestedClass` table, which start at `pos`.
fn table_rows_nested_class(s: &[u8], p: usize, pos: usize, c: u32) -> (r: Result<(Vec<NestedClass>, usize), Error>)
    requires
        pos == table_start(s@, p as int, 34),
        pos <= s@.len(),
        c == row_count(s@, p as int, 34),
    ensures
        r is Err ==> r == Err::<(Vec<NestedClass>, usize), Error>(Error::BadInput) && !rows_ok(s@, p as int),
        r matches Ok((v, q)) ==> q == table_start(s@, p as int, 35) && q <= s@.len() && v@.len() == c
            && (forall|i: int| 0 <= i < c ==> #[trigger] v@[i] == NestedClass::at(s@, table_start(s@, p as int, 34) + i * 4))
            && (forall|i: int| 0 <= i < c ==> #[trigger] NestedClass::valid_at(s@, table_start(s@, p as int, 34) + i * 4)),
{
    if c as usize > (s.len() - pos) / 4 {
        proof {
            lemma_not_fits(c as nat, 4, (s@.len() - pos) as nat);
            lemma_table_start_mono(s@, p as int, 35, KNOWN_TABLES as int);
        }
        return Err(Error::BadInput);
    }
    proof {
        lemma_fits(c as nat, 4, (s@.len() - pos) as nat);
    }
    match NestedClass::parse_rows(s, pos, c) {
        Some(v) => Ok((v, pos + c as usize * 4)),
        None => Err(Error::BadInput),
    }
}

/// Reads the rows of the `GenericParam` table, which start at `pos`.
fn table_rows_generic_param(s: &[u8], p: usize, pos: usize, c: u32) -> (r: Result<(Vec<GenericParam>, usize), Error>)
    requires
        pos == table_start(s@, p as int, 35),
        pos <= s@.len(),
        c == row_count(s@, p as int, 35),
    ensures
        r is Err ==> r == Err::<(Vec<GenericParam>, usize), Error>(Error::BadInput) && !rows_ok(s@, p as int),
        r matches Ok((v, q)) ==> q == table_start(s@, p as int, 36) && q <= s@.len() && v@.len() == c
            && (forall|i: int| 0 <= i < c ==> #[trigger] v@[i] == GenericParam::at(s@, table_start(s@, p as int, 35) + i * 8))
            && (forall|i: int| 0 <= i < c ==> #[trigger] GenericParam::valid_at(s@, table_start(s@, p as int, 35) + i * 8)),
{
    if c as usize > (s.len() - pos) / 8 {
        proof {
            lemma_not_fits(c as nat, 8, (s@.len() - pos) as nat);
            lemma_table_start_mono(s@, p as int, 36, KNOWN_TABLES as int);
        }
        return Err(Error::BadInput);
    }
    proof {
        lemma_fits(c as nat, 8, (s@.len() - pos) as nat);
    }
    match GenericParam::parse_rows(s, pos, c) {
        Some(v) => Ok((v, pos + c as usize * 8)),
        None => Err(Error::BadInput),
    }
}

/// Reads the rows of the `MethodSpec` table, which start at `pos`.
fn table_rows_method_spec(s: &[u8], p: usize, pos: usize, c: u32) -> (r: Result<(Vec<MethodSpec>, usize), Error>)
    requires
        pos == table_start(s@, p as int, 36),
        pos <= s@.len(),
        c == row_count(s@, p as int, 36),
    ensures
        r is Err ==> r == Err::<(Vec<MethodSpec>, usize), Error>(Error::BadInput) && !rows_ok(s@, p as int),
        r matches Ok((v, q)) ==> q == table_start(s@, p as int, 37) && q <= s@.len() && v@.len() == c
            && (forall|i: int| 0 <= i < c ==> #[trigger] v@[i] == MethodSpec::at(s@, table_start(s@, p as int, 36) + i * 4))
            && (forall|i: int| 0 <= i < c ==> #[trigger] MethodSpec::valid_at(s@, table_start(s@, p as int, 36) + i * 4)),
{
    if c as usize > (s.len() - pos) / 4 {
        proof {
            lemma_not_fits(c as nat, 4, (s@.len() - pos) as nat);
            lemma_table_start_mono(s@, p as int, 37, KNOWN_TABLES as int);
        }
        return Err(Error::BadInput);
    }
    proof {
        lemma_fits(c as nat, 4, (s@.len() - pos) as nat);
    }
    match MethodSpec::parse_rows(s, pos, c) {
        Some(v) => Ok((v, pos + c as usize * 4)),
        None => Err(Error::BadInput),
    }
}

/// Reads the rows of the `GenericParamConstraint` table, which start at `pos`.
fn table_rows_generic_param_constraint(s: &[u8], p: usize, pos: usize, c: u32) -> (r: Result<(Vec<GenericParamConstraint>, usize), Error>)
    requires
        pos == table_start(s@, p as int, 37),
        pos <= s@.len(),
        c == row_count(s@, p as int, 37),
    ensures
        r is Err ==> r == Err::<(Vec<GenericParamConstraint>, usize), Error>(Error::BadInput) && !rows_ok(s@, p as int),
        r matches Ok((v, q)) ==> q == table_start(s@, p as int, 38) && q <= s@.len() && v@.len() == c
            && (forall|i: int| 0 <= i < c ==> #[trigger] v@[i] == GenericParamConstraint::at(s@, table_start(s@, p as int, 37) + i * 4))
            && (forall|i: int| 0 <= i < c ==> #[trigger] GenericParamConstraint::valid_at(s@, table_start(s@, p as int, 37) + i * 4)),
{
    if c as usize > (s.len() - pos) / 4 {
        proof {
            lemma_not_fits(c as nat, 4, (s@.len() - pos) as nat);
            lemma_table_start_mono(s@, p as int, 38, KNOWN_TABLES as int);
        }
        return Err(Error::BadInput);
    }
    proof {
        lemma_fits(c as nat, 4, (s@.len() - pos) as nat);
    }
    match GenericParamConstraint::parse_rows(s, pos, c) {
        Some(v) => Ok((v, pos + c as usize * 4)),
        None => Err(Error::BadInput),
    }
}

impl MetadataTable {
    /// Decodes the tables that start at `p` with the `valid` and `sorted`
    /// bit vectors; returns them and the position after the last row.
    #[verifier::rlimit(100)]
    pub fn parse(s: &[u8], p: usize) -> (r: Result<(MetadataTable, usize), Error>)
        ensures
            r is Err <==> table_stream_error(s@, p as int) is Some,
            r matches Err(e) ==> table_stream_error(s@, p as int) == Some(e),
            r matches Ok((t, q)) ==> t.decoded_from(s@, p as int) && q == table_start(
                s@,
                p as int,
                KNOWN_TABLES as int,
            ),
    {
        let valid = match read_u64(s, p) {
            Some(v) => v,
            None => return Err(Error::BadInput),
        };
        if s.len() - p < 16 {
            return Err(Error::BadInput);
        }
        let (counts, pos) = parse_counts(s, p, valid)?;
        if valid & !KNOWN_MASK != 0 {
            return Err(Error::UnknownTable);
        }

        let (module, pos) = table_rows_module(s, p, pos, counts[0])?;
        let (type_ref, pos) = table_rows_type_ref(s, p, pos, counts[1])?;
        let (type_def, pos) = table_rows_type_def(s, p, pos, counts[2])?;
        let (field, pos) = table_rows_field(s, p, pos, counts[3])?;
        let (method_def, pos) = table_rows_method_def(s, p, pos, counts[4])?;
        let (param, pos) = table_rows_param(s, p, pos, counts[5])?;
        let (interface_impl, pos) = table_rows_interface_impl(s, p, pos, counts[6])?;
        let (member_ref, pos) = table_rows_member_ref(s, p, pos, counts[7])?;
        let (constant, pos) = table_rows_constant(s, p, pos, counts[8])?;
        let (custom_attribute, pos) = table_rows_custom_attribute(s, p, pos, counts[9])?;
        let (field_marshal, pos) = table_rows_field_marshal(s, p, pos, counts[10])?;
        let (decl_security, pos) = table_rows_decl_security(s, p, pos, counts[11])?;
        let (class_layout, pos) = table_rows_class_layout(s, p, pos, counts[12])?;
        let (field_layout, pos) = table_rows_field_layout(s, p, pos, counts[13])?;
        let (stand_alone_sig, pos) = table_rows_stand_alone_sig(s, p, pos, counts[14])?;
        let (event_map, pos) = table_rows_event_map(s, p, pos, counts[15])?;
        let (event, pos) = table_rows_event(s, p, pos, counts[16])?;
        let (property_map, pos) = table_rows_property_map(s, p, pos, counts[17])?;
        let (property, pos) = table_rows_property(s, p, pos, counts[18])?;
        let (method_semantics, pos) = table_rows_method_semantics(s, p, pos, counts[19])?;
        let (method_impl, pos) = table_rows_method_impl(s, p, pos, counts[20])?;
        let (module_ref, pos) = table_rows_module_ref(s, p, pos, counts[21])?;
        let (type_spec, pos) = table_rows_type_spec(s, p, pos, counts[22])?;
        let (impl_map, pos) = table_rows_impl_map(s, p, pos, counts[23])?;
        let (field_rva, pos) = table_rows_field_rva(s, p, pos, counts[24])?;
        let (assembly, pos) = table_rows_assembly(s, p, pos, counts[25])?;
        let (assembly_processor, pos) = table_rows_assembly_processor(s, p, pos, counts[26])?;
        let (assembly_os, pos) = table_rows_assembly_os(s, p, pos, counts[27])?;
        let (assembly_ref, pos) = table_rows_assembly_ref(s, p, pos, counts[28])?;
        let (assembly_ref_processor, pos) = table_rows_assembly_ref_processor(s, p, pos, counts[29])?;
        let (assembly_ref_os, pos) = table_rows_assembly_ref_os(s, p, pos, counts[30])?;
        let (file, pos) = table_rows_file(s, p, pos, counts[31])?;
        let (exported_type, pos) = table_rows_exported_type(s, p, pos, counts[32])?;
        let (manifest_resource, pos) = table_rows_manifest_resource(s, p, pos, counts[33])?;
        let (nested_class, pos) = table_rows_nested_class(s, p, pos, counts[34])?;
        let (generic_param, pos) = table_rows_generic_param(s, p, pos, counts[35])?;
        let (method_spec, pos) = table_rows_method_spec(s, p, pos, counts[36])?;
        let (generic_param_constraint, pos) = table_rows_generic_param_constraint(s, p, pos, counts[37])?;
        let t = MetadataTable {
            module,
            type_ref,
            type_def,
            field,
            method_def,
            param,
            interface_impl,
            member_ref,
            constant,
            custom_attribute,
            field_marshal,
            decl_security,
            class_layout,
            field_layout,
            stand_alone_sig,
            event_map,
            event,
            property_map,
            property,
            method_semantics,
            method_impl,
            module_ref,
            type_spec,
            impl_map,
            field_rva,
            assembly,
            assembly_processor,
            assembly_os,
            assembly_ref,
            assembly_ref_processor,
            assembly_ref_os,
            file,
            exported_type,
            manifest_resource,
            nested_class,
            generic_param,
            method_spec,
            generic_param_constraint,
        };
        Ok((t, pos))
    }
}


proof fn lemma_n_present_mono(valid: u64, j: int, k: int)
    requires
        j <= k,
    ensures
        n_present(valid, j) <= n_present(valid, k),
    decreases k - j,
{
    if j < k {
        lemma_n_present_mono(valid, j, k - 1);
    }
}

} // verus!

verus! {

/// Two tables decoded from the same stream hold the same rows, so they pass
/// or fail the index checks alike.
pub proof fn lemma_decoded_same_refs(t1: &MetadataTable, t2: &MetadataTable, s: Seq<u8>, p: int, h: HeapSizes)
    requires
        t1.decoded_from(s, p),
        t2.decoded_from(s, p),
    ensures
        t1.table_refs_ok() == t2.table_refs_ok(),
        t1.heap_refs_ok(h) == t2.heap_refs_ok(h),
{
    assert(t1.module@ =~= t2.module@);
    assert(t1.type_ref@ =~= t2.type_ref@);
    assert(t1.type_def@ =~= t2.type_def@);
    assert(t1.field@ =~= t2.field@);
    assert(t1.method_def@ =~= t2.method_def@);
    assert(t1.param@ =~= t2.param@);
    assert(t1.interface_impl@ =~= t2.interface_impl@);
    assert(t1.member_ref@ =~= t2.member_ref@);
    assert(t1.constant@ =~= t2.constant@);
    assert(t1.custom_attribute@ =~= t2.custom_attribute@);
    assert(t1.field_marshal@ =~= t2.field_marshal@);
    assert(t1.decl_security@ =~= t2.decl_security@);
    assert(t1.class_layout@ =~= t2.class_layout@);
    assert(t1.field_layout@ =~= t2.field_layout@);
    assert(t1.stand_alone_sig@ =~= t2.stand_alone_sig@);
    assert(t1.event_map@ =~= t2.event_map@);
    assert(t1.event@ =~= t2.event@);
    assert(t1.property_map@ =~= t2.property_map@);
    assert(t1.property@ =~= t2.property@);
    assert(t1.method_semantics@ =~= t2.method_semantics@);
    assert(t1.method_impl@ =~= t2.method_impl@);
    assert(t1.module_ref@ =~= t2.module_ref@);
    assert(t1.type_spec@ =~= t2.type_spec@);
    assert(t1.impl_map@ =~= t2.impl_map@);
    assert(t1.field_rva@ =~= t2.field_rva@);
    assert(t1.assembly@ =~= t2.assembly@);
    assert(t1.assembly_processor@ =~= t2.assembly_processor@);
    assert(t1.assembly_os@ =~= t2.assembly_os@);
    assert(t1.assembly_ref@ =~= t2.assembly_ref@);
    assert(t1.assembly_ref_processor@ =~= t2.assembly_ref_processor@);
    assert(t1.assembly_ref_os@ =~= t2.assembly_ref_os@);
    assert(t1.file@ =~= t2.file@);
    assert(t1.exported_type@ =~= t2.exported_type@);
    assert(t1.manifest_resource@ =~= t2.manifest_resource@);
    assert(t1.nested_class@ =~= t2.nested_class@);
    assert(t1.generic_param@ =~= t2.generic_param@);
    assert(t1.method_spec@ =~= t2.method_spec@);
    assert(t1.generic_param_constraint@ =~= t2.generic_param_constraint@);
    assert(t1.counts() =~= t2.counts());
}

} // verus!
