//! Row indices into single tables, and the coded indices that tag a row
//! with one of a fixed list of tables.
use vstd::prelude::*;

verus! {

/// The mask of the low `tag_size` bits that carry a coded index's tag.
pub open spec fn tag_mask(tag_size: u16) -> u16 {
    ((1u16 << tag_size) - 1) as u16
}

pub fn get_tag_mask(tag_size: u16) -> (r: u16)
    requires
        tag_size <= 15,
    ensures
        r == tag_mask(tag_size),
{
    assert(1u16 << tag_size >= 1) by (bit_vector)
        requires
            tag_size <= 15,
    ;
    (1u16 << tag_size) - 1
}

/// A one-based row number of the `Module` table; 0 is the null row.
#[derive(Debug, Clone, Copy, PartialEq, Eq, Structural)]
pub struct ModuleIndex(pub u32);

/// A one-based row number of the `TypeRef` table; 0 is the null row.
#[derive(Debug, Clone, Copy, PartialEq, Eq, Structural)]
pub struct TypeRefIndex(pub u32);

/// A one-based row number of the `TypeDef` table; 0 is the null row.
#[derive(Debug, Clone, Copy, PartialEq, Eq, Structural)]
pub struct TypeDefIndex(pub u32);

/// A one-based row number of the `Field` table; 0 is the null row.
#[derive(Debug, Clone, Copy, PartialEq, Eq, Structural)]
pub struct FieldIndex(pub u32);

/// A one-based row number of the `MethodDef` table; 0 is the null row.
#[derive(Debug, Clone, Copy, PartialEq, Eq, Structural)]
pub struct MethodDefIndex(pub u32);

/// A one-based row number of the `Param` table; 0 is the null row.
#[derive(Debug, Clone, Copy, PartialEq, Eq, Structural)]
pub struct ParamIndex(pub u32);

/// A one-based row number of the `InterfaceImpl` table; 0 is the null row.
#[derive(Debug, Clone, Copy, PartialEq, Eq, Structural)]
pub struct InterfaceImplIndex(pub u32);

/// A one-based row number of the `MemberRef` table; 0 is the null row.
#[derive(Debug, Clone, Copy, PartialEq, Eq, Structural)]
pub struct MemberRefIndex(pub u32);

/// A one-based row number of the `Constant` table; 0 is the null row.
#[derive(Debug, Clone, Copy, PartialEq, Eq, Structural)]
pub struct ConstantIndex(pub u32);

/// A one-based row number of the `CustomAttribute` table; 0 is the null row.
#[derive(Debug, Clone, Copy, PartialEq, Eq, Structural)]
pub struct CustomAttributeIndex(pub u32);

/// A one-based row number of the `FieldMarshal` table; 0 is the null row.
#[derive(Debug, Clone, Copy, PartialEq, Eq, Structural)]
pub struct FieldMarshalIndex(pub u32);

/// A one-based row number of the `DeclSecurity` table; 0 is the null row.
#[derive(Debug, Clone, Copy, PartialEq, Eq, Structural)]
pub struct DeclSecurityIndex(pub u32);

/// A one-based row number of the `ClassLayout` table; 0 is the null row.
#[derive(Debug, Clone, Copy, PartialEq, Eq, Structural)]
pub struct ClassLayoutIndex(pub u32);

/// A one-based row number of the `FieldLayout` table; 0 is the null row.
#[derive(Debug, Clone, Copy, PartialEq, Eq, Structural)]
pub struct FieldLayoutIndex(pub u32);

/// A one-based row number of the `StandAloneSig` table; 0 is the null row.
#[derive(Debug, Clone, Copy, PartialEq, Eq, Structural)]
pub struct StandAloneSigIndex(pub u32);

/// A one-based row number of the `EventMap` table; 0 is the null row.
#[derive(Debug, Clone, Copy, PartialEq, Eq, Structural)]
pub struct EventMapIndex(pub u32);

/// A one-based row number of the `Event` table; 0 is the null row.
#[derive(Debug, Clone, Copy, PartialEq, Eq, Structural)]
pub struct EventIndex(pub u32);

/// A one-based row number of the `PropertyMap` table; 0 is the null row.
#[derive(Debug, Clone, Copy, PartialEq, Eq, Structural)]
pub struct PropertyMapIndex(pub u32);

/// A one-based row number of the `Property` table; 0 is the null row.
#[derive(Debug, Clone, Copy, PartialEq, Eq, Structural)]
pub struct PropertyIndex(pub u32);

/// A one-based row number of the `MethodSemantics` table; 0 is the null row.
#[derive(Debug, Clone, Copy, PartialEq, Eq, Structural)]
pub struct MethodSemanticsIndex(pub u32);

/// A one-based row number of the `MethodImpl` table; 0 is the null row.
#[derive(Debug, Clone, Copy, PartialEq, Eq, Structural)]
pub struct MethodImplIndex(pub u32);

/// A one-based row number of the `ModuleRef` table; 0 is the null row.
#[derive(Debug, Clone, Copy, PartialEq, Eq, Structural)]
pub struct ModuleRefIndex(pub u32);

/// A one-based row number of the `TypeSpec` table; 0 is the null row.
#[derive(Debug, Clone, Copy, PartialEq, Eq, Structural)]
pub struct TypeSpecIndex(pub u32);

/// A one-based row number of the `ImplMap` table; 0 is the null row.
#[derive(Debug, Clone, Copy, PartialEq, Eq, Structural)]
pub struct ImplMapIndex(pub u32);

/// A one-based row number of the `FieldRVA` table; 0 is the null row.
#[derive(Debug, Clone, Copy, PartialEq, Eq, Structural)]
pub struct FieldRVAIndex(pub u32);

/// A one-based row number of the `Assembly` table; 0 is the null row.
#[derive(Debug, Clone, Copy, PartialEq, Eq, Structural)]
pub struct AssemblyIndex(pub u32);

/// A one-based row number of the `AssemblyProcessor` table; 0 is the null row.
#[derive(Debug, Clone, Copy, PartialEq, Eq, Structural)]
pub struct AssemblyProcessorIndex(pub u32);

/// A one-based row number of the `AssemblyOS` table; 0 is the null row.
#[derive(Debug, Clone, Copy, PartialEq, Eq, Structural)]
pub struct AssemblyOSIndex(pub u32);

/// A one-based row number of the `AssemblyRef` table; 0 is the null row.
#[derive(Debug, Clone, Copy, PartialEq, Eq, Structural)]
pub struct AssemblyRefIndex(pub u32);

/// A one-based row number of the `AssemblyRefProcessor` table; 0 is the null row.
#[derive(Debug, Clone, Copy, PartialEq, Eq, Structural)]
pub struct AssemblyRefProcessorIndex(pub u32);

/// A one-based row number of the `AssemblyRefOS` table; 0 is the null row.
#[derive(Debug, Clone, Copy, PartialEq, Eq, Structural)]
pub struct AssemblyRefOSIndex(pub u32);

/// A one-based row number of the `File` table; 0 is the null row.
#[derive(Debug, Clone, Copy, PartialEq, Eq, Structural)]
pub struct FileIndex(pub u32);

/// A one-based row number of the `ExportedType` table; 0 is the null row.
#[derive(Debug, Clone, Copy, PartialEq, Eq, Structural)]
pub struct ExportedTypeIndex(pub u32);

/// A one-based row number of the `ManifestResource` table; 0 is the null row.
#[derive(Debug, Clone, Copy, PartialEq, Eq, Structural)]
pub struct ManifestResourceIndex(pub u32);

/// A one-based row number of the `NestedClass` table; 0 is the null row.
#[derive(Debug, Clone, Copy, PartialEq, Eq, Structural)]
pub struct NestedClassIndex(pub u32);

/// A one-based row number of the `GenericParam` table; 0 is the null row.
#[derive(Debug, Clone, Copy, PartialEq, Eq, Structural)]
pub struct GenericParamIndex(pub u32);

/// A one-based row number of the `MethodSpec` table; 0 is the null row.
#[derive(Debug, Clone, Copy, PartialEq, Eq, Structural)]
pub struct MethodSpecIndex(pub u32);

/// A one-based row number of the `GenericParamConstraint` table; 0 is the null row.
#[derive(Debug, Clone, Copy, PartialEq, Eq, Structural)]
pub struct GenericParamConstraintIndex(pub u32);

/// A coded index over `TypeDef`, `TypeRef`, `TypeSpec`.
#[derive(Debug, Clone, Copy, PartialEq, Eq, Structural)]
pub enum TypeDefOrRef {
    TypeDefIndex(TypeDefIndex),
    TypeRefIndex(TypeRefIndex),
    TypeSpecIndex(TypeSpecIndex),
}

impl TypeDefOrRef {
    /// The row that a 16-bit coded value selects; none for a tag that
    /// names no table.
    pub open spec fn spec_decode(n: u16) -> Option<TypeDefOrRef> {
        let tag = n & tag_mask(2);
        let row = (n >> 2u16) as u32;
        if tag == 0 {
            Some(TypeDefOrRef::TypeDefIndex(TypeDefIndex(row)))
        } else if tag == 1 {
            Some(TypeDefOrRef::TypeRefIndex(TypeRefIndex(row)))
        } else if tag == 2 {
            Some(TypeDefOrRef::TypeSpecIndex(TypeSpecIndex(row)))
        } else {
            None
        }
    }

    pub fn decode(n: u16) -> (r: Option<TypeDefOrRef>)
        ensures
            r == Self::spec_decode(n),
    {
        let tag = n & get_tag_mask(2);
        let row = (n >> 2u16) as u32;
        if tag == 0 {
            Some(TypeDefOrRef::TypeDefIndex(TypeDefIndex(row)))
        } else if tag == 1 {
            Some(TypeDefOrRef::TypeRefIndex(TypeRefIndex(row)))
        } else if tag == 2 {
            Some(TypeDefOrRef::TypeSpecIndex(TypeSpecIndex(row)))
        } else {
            None
        }
    }

    /// The row is null or exists in its table; `counts` holds the row
    /// count of each table by tag.
    pub open spec fn refs_ok(self, counts: Seq<u32>) -> bool {
        match self {
            TypeDefOrRef::TypeDefIndex(i) => i.0 <= counts[0x02],
            TypeDefOrRef::TypeRefIndex(i) => i.0 <= counts[0x01],
            TypeDefOrRef::TypeSpecIndex(i) => i.0 <= counts[0x1b],
        }
    }

    pub fn check_refs(self, counts: &[u32]) -> (r: bool)
        requires
            counts@.len() == TABLE_TAGS,
        ensures
            r == self.refs_ok(counts@),
    {
        match self {
            TypeDefOrRef::TypeDefIndex(i) => i.0 <= counts[0x02],
            TypeDefOrRef::TypeRefIndex(i) => i.0 <= counts[0x01],
            TypeDefOrRef::TypeSpecIndex(i) => i.0 <= counts[0x1b],
        }
    }
}

/// A coded index over `Field`, `Param`, `Property`.
#[derive(Debug, Clone, Copy, PartialEq, Eq, Structural)]
pub enum HasConstant {
    FieldIndex(FieldIndex),
    ParamIndex(ParamIndex),
    PropertyIndex(PropertyIndex),
}

impl HasConstant {
    /// The row that a 16-bit coded value selects; none for a tag that
    /// names no table.
    pub open spec fn spec_decode(n: u16) -> Option<HasConstant> {
        let tag = n & tag_mask(2);
        let row = (n >> 2u16) as u32;
        if tag == 0 {
            Some(HasConstant::FieldIndex(FieldIndex(row)))
        } else if tag == 1 {
            Some(HasConstant::ParamIndex(ParamIndex(row)))
        } else if tag == 2 {
            Some(HasConstant::PropertyIndex(PropertyIndex(row)))
        } else {
            None
        }
    }

    pub fn decode(n: u16) -> (r: Option<HasConstant>)
        ensures
            r == Self::spec_decode(n),
    {
        let tag = n & get_tag_mask(2);
        let row = (n >> 2u16) as u32;
        if tag == 0 {
            Some(HasConstant::FieldIndex(FieldIndex(row)))
        } else if tag == 1 {
            Some(HasConstant::ParamIndex(ParamIndex(row)))
        } else if tag == 2 {
            Some(HasConstant::PropertyIndex(PropertyIndex(row)))
        } else {
            None
        }
    }

    /// The row is null or exists in its table; `counts` holds the row
    /// count of each table by tag.
    pub open spec fn refs_ok(self, counts: Seq<u32>) -> bool {
        match self {
            HasConstant::FieldIndex(i) => i.0 <= counts[0x04],
            HasConstant::ParamIndex(i) => i.0 <= counts[0x08],
            HasConstant::PropertyIndex(i) => i.0 <= counts[0x17],
        }
    }

    pub fn check_refs(self, counts: &[u32]) -> (r: bool)
        requires
            counts@.len() == TABLE_TAGS,
        ensures
            r == self.refs_ok(counts@),
    {
        match self {
            HasConstant::FieldIndex(i) => i.0 <= counts[0x04],
            HasConstant::ParamIndex(i) => i.0 <= counts[0x08],
            HasConstant::PropertyIndex(i) => i.0 <= counts[0x17],
        }
    }
}

/// A coded index over `MethodDef`, `Field`, `TypeRef`, `TypeDef`, `Param`, `InterfaceImpl`, `MemberRef`, `Module`, `DeclSecurity`, `Property`, `Event`, `StandAloneSig`, `ModuleRef`, `TypeSpec`, `Assembly`, `AssemblyRef`, `File`, `ExportedType`, `ManifestResource`, `GenericParam`, `GenericParamConstraint`, `MethodSpec`.
#[derive(Debug, Clone, Copy, PartialEq, Eq, Structural)]
pub enum HasCustomAttribute {
    MethodDefIndex(MethodDefIndex),
    FieldIndex(FieldIndex),
    TypeRefIndex(TypeRefIndex),
    TypeDefIndex(TypeDefIndex),
    ParamIndex(ParamIndex),
    InterfaceImplIndex(InterfaceImplIndex),
    MemberRefIndex(MemberRefIndex),
    ModuleIndex(ModuleIndex),
    DeclSecurityIndex(DeclSecurityIndex),
    PropertyIndex(PropertyIndex),
    EventIndex(EventIndex),
    StandAloneSigIndex(StandAloneSigIndex),
    ModuleRefIndex(ModuleRefIndex),
    TypeSpecIndex(TypeSpecIndex),
    AssemblyIndex(AssemblyIndex),
    AssemblyRefIndex(AssemblyRefIndex),
    FileIndex(FileIndex),
    ExportedTypeIndex(ExportedTypeIndex),
    ManifestResourceIndex(ManifestResourceIndex),
    GenericParamIndex(GenericParamIndex),
    GenericParamConstraintIndex(GenericParamConstraintIndex),
    MethodSpecIndex(MethodSpecIndex),
}

impl HasCustomAttribute {
    /// The row that a 16-bit coded value selects; none for a tag that
    /// names no table.
    pub open spec fn spec_decode(n: u16) -> Option<HasCustomAttribute> {
        let tag = n & tag_mask(5);
        let row = (n >> 5u16) as u32;
        if tag == 0 {
            Some(HasCustomAttribute::MethodDefIndex(MethodDefIndex(row)))
        } else if tag == 1 {
            Some(HasCustomAttribute::FieldIndex(FieldIndex(row)))
        } else if tag == 2 {
            Some(HasCustomAttribute::TypeRefIndex(TypeRefIndex(row)))
        } else if tag == 3 {
            Some(HasCustomAttribute::TypeDefIndex(TypeDefIndex(row)))
        } else if tag == 4 {
            Some(HasCustomAttribute::ParamIndex(ParamIndex(row)))
        } else if tag == 5 {
            Some(HasCustomAttribute::InterfaceImplIndex(InterfaceImplIndex(row)))
        } else if tag == 6 {
            Some(HasCustomAttribute::MemberRefIndex(MemberRefIndex(row)))
        } else if tag == 7 {
            Some(HasCustomAttribute::ModuleIndex(ModuleIndex(row)))
        } else if tag == 8 {
            Some(HasCustomAttribute::DeclSecurityIndex(DeclSecurityIndex(row)))
        } else if tag == 9 {
            Some(HasCustomAttribute::PropertyIndex(PropertyIndex(row)))
        } else if tag == 10 {
            Some(HasCustomAttribute::EventIndex(EventIndex(row)))
        } else if tag == 11 {
            Some(HasCustomAttribute::StandAloneSigIndex(StandAloneSigIndex(row)))
        } else if tag == 12 {
            Some(HasCustomAttribute::ModuleRefIndex(ModuleRefIndex(row)))
        } else if tag == 13 {
            Some(HasCustomAttribute::TypeSpecIndex(TypeSpecIndex(row)))
        } else if tag == 14 {
            Some(HasCustomAttribute::AssemblyIndex(AssemblyIndex(row)))
        } else if tag == 15 {
            Some(HasCustomAttribute::AssemblyRefIndex(AssemblyRefIndex(row)))
        } else if tag == 16 {
            Some(HasCustomAttribute::FileIndex(FileIndex(row)))
        } else if tag == 17 {
            Some(HasCustomAttribute::ExportedTypeIndex(ExportedTypeIndex(row)))
        } else if tag == 18 {
            Some(HasCustomAttribute::ManifestResourceIndex(ManifestResourceIndex(row)))
        } else if tag == 19 {
            Some(HasCustomAttribute::GenericParamIndex(GenericParamIndex(row)))
        } else if tag == 20 {
            Some(HasCustomAttribute::GenericParamConstraintIndex(GenericParamConstraintIndex(row)))
        } else if tag == 21 {
            Some(HasCustomAttribute::MethodSpecIndex(MethodSpecIndex(row)))
        } else {
            None
        }
    }

    pub fn decode(n: u16) -> (r: Option<HasCustomAttribute>)
        ensures
            r == Self::spec_decode(n),
    {
        let tag = n & get_tag_mask(5);
        let row = (n >> 5u16) as u32;
        if tag == 0 {
            Some(HasCustomAttribute::MethodDefIndex(MethodDefIndex(row)))
        } else if tag == 1 {
            Some(HasCustomAttribute::FieldIndex(FieldIndex(row)))
        } else if tag == 2 {
            Some(HasCustomAttribute::TypeRefIndex(TypeRefIndex(row)))
        } else if tag == 3 {
            Some(HasCustomAttribute::TypeDefIndex(TypeDefIndex(row)))
        } else if tag == 4 {
            Some(HasCustomAttribute::ParamIndex(ParamIndex(row)))
        } else if tag == 5 {
            Some(HasCustomAttribute::InterfaceImplIndex(InterfaceImplIndex(row)))
        } else if tag == 6 {
            Some(HasCustomAttribute::MemberRefIndex(MemberRefIndex(row)))
        } else if tag == 7 {
            Some(HasCustomAttribute::ModuleIndex(ModuleIndex(row)))
        } else if tag == 8 {
            Some(HasCustomAttribute::DeclSecurityIndex(DeclSecurityIndex(row)))
        } else if tag == 9 {
            Some(HasCustomAttribute::PropertyIndex(PropertyIndex(row)))
        } else if tag == 10 {
            Some(HasCustomAttribute::EventIndex(EventIndex(row)))
        } else if tag == 11 {
            Some(HasCustomAttribute::StandAloneSigIndex(StandAloneSigIndex(row)))
        } else if tag == 12 {
            Some(HasCustomAttribute::ModuleRefIndex(ModuleRefIndex(row)))
        } else if tag == 13 {
            Some(HasCustomAttribute::TypeSpecIndex(TypeSpecIndex(row)))
        } else if tag == 14 {
            Some(HasCustomAttribute::AssemblyIndex(AssemblyIndex(row)))
        } else if tag == 15 {
            Some(HasCustomAttribute::AssemblyRefIndex(AssemblyRefIndex(row)))
        } else if tag == 16 {
            Some(HasCustomAttribute::FileIndex(FileIndex(row)))
        } else if tag == 17 {
            Some(HasCustomAttribute::ExportedTypeIndex(ExportedTypeIndex(row)))
        } else if tag == 18 {
            Some(HasCustomAttribute::ManifestResourceIndex(ManifestResourceIndex(row)))
        } else if tag == 19 {
            Some(HasCustomAttribute::GenericParamIndex(GenericParamIndex(row)))
        } else if tag == 20 {
            Some(HasCustomAttribute::GenericParamConstraintIndex(GenericParamConstraintIndex(row)))
        } else if tag == 21 {
            Some(HasCustomAttribute::MethodSpecIndex(MethodSpecIndex(row)))
        } else {
            None
        }
    }

    /// The row is null or exists in its table; `counts` holds the row
    /// count of each table by tag.
    pub open spec fn refs_ok(self, counts: Seq<u32>) -> bool {
        match self {
            HasCustomAttribute::MethodDefIndex(i) => i.0 <= counts[0x06],
            HasCustomAttribute::FieldIndex(i) => i.0 <= counts[0x04],
            HasCustomAttribute::TypeRefIndex(i) => i.0 <= counts[0x01],
            HasCustomAttribute::TypeDefIndex(i) => i.0 <= counts[0x02],
            HasCustomAttribute::ParamIndex(i) => i.0 <= counts[0x08],
            HasCustomAttribute::InterfaceImplIndex(i) => i.0 <= counts[0x09],
            HasCustomAttribute::MemberRefIndex(i) => i.0 <= counts[0x0a],
            HasCustomAttribute::ModuleIndex(i) => i.0 <= counts[0x00],
            HasCustomAttribute::DeclSecurityIndex(i) => i.0 <= counts[0x0e],
            HasCustomAttribute::PropertyIndex(i) => i.0 <= counts[0x17],
            HasCustomAttribute::EventIndex(i) => i.0 <= counts[0x14],
            HasCustomAttribute::StandAloneSigIndex(i) => i.0 <= counts[0x11],
            HasCustomAttribute::ModuleRefIndex(i) => i.0 <= counts[0x1a],
            HasCustomAttribute::TypeSpecIndex(i) => i.0 <= counts[0x1b],
            HasCustomAttribute::AssemblyIndex(i) => i.0 <= counts[0x20],
            HasCustomAttribute::AssemblyRefIndex(i) => i.0 <= counts[0x23],
            HasCustomAttribute::FileIndex(i) => i.0 <= counts[0x26],
            HasCustomAttribute::ExportedTypeIndex(i) => i.0 <= counts[0x27],
            HasCustomAttribute::ManifestResourceIndex(i) => i.0 <= counts[0x28],
            HasCustomAttribute::GenericParamIndex(i) => i.0 <= counts[0x2a],
            HasCustomAttribute::GenericParamConstraintIndex(i) => i.0 <= counts[0x2c],
            HasCustomAttribute::MethodSpecIndex(i) => i.0 <= counts[0x2b],
        }
    }

    pub fn check_refs(self, counts: &[u32]) -> (r: bool)
        requires
            counts@.len() == TABLE_TAGS,
        ensures
            r == self.refs_ok(counts@),
    {
        match self {
            HasCustomAttribute::MethodDefIndex(i) => i.0 <= counts[0x06],
            HasCustomAttribute::FieldIndex(i) => i.0 <= counts[0x04],
            HasCustomAttribute::TypeRefIndex(i) => i.0 <= counts[0x01],
            HasCustomAttribute::TypeDefIndex(i) => i.0 <= counts[0x02],
            HasCustomAttribute::ParamIndex(i) => i.0 <= counts[0x08],
            HasCustomAttribute::InterfaceImplIndex(i) => i.0 <= counts[0x09],
            HasCustomAttribute::MemberRefIndex(i) => i.0 <= counts[0x0a],
            HasCustomAttribute::ModuleIndex(i) => i.0 <= counts[0x00],
            HasCustomAttribute::DeclSecurityIndex(i) => i.0 <= counts[0x0e],
            HasCustomAttribute::PropertyIndex(i) => i.0 <= counts[0x17],
            HasCustomAttribute::EventIndex(i) => i.0 <= counts[0x14],
            HasCustomAttribute::StandAloneSigIndex(i) => i.0 <= counts[0x11],
            HasCustomAttribute::ModuleRefIndex(i) => i.0 <= counts[0x1a],
            HasCustomAttribute::TypeSpecIndex(i) => i.0 <= counts[0x1b],
            HasCustomAttribute::AssemblyIndex(i) => i.0 <= counts[0x20],
            HasCustomAttribute::AssemblyRefIndex(i) => i.0 <= counts[0x23],
            HasCustomAttribute::FileIndex(i) => i.0 <= counts[0x26],
            HasCustomAttribute::ExportedTypeIndex(i) => i.0 <= counts[0x27],
            HasCustomAttribute::ManifestResourceIndex(i) => i.0 <= counts[0x28],
            HasCustomAttribute::GenericParamIndex(i) => i.0 <= counts[0x2a],
            HasCustomAttribute::GenericParamConstraintIndex(i) => i.0 <= counts[0x2c],
            HasCustomAttribute::MethodSpecIndex(i) => i.0 <= counts[0x2b],
        }
    }
}

/// A coded index over `Field`, `Param`.
#[derive(Debug, Clone, Copy, PartialEq, Eq, Structural)]
pub enum HasFieldMarshal {
    FieldIndex(FieldIndex),
    ParamIndex(ParamIndex),
}

impl HasFieldMarshal {
    /// The row that a 16-bit coded value selects; none for a tag that
    /// names no table.
    pub open spec fn spec_decode(n: u16) -> Option<HasFieldMarshal> {
        let tag = n & tag_mask(1);
        let row = (n >> 1u16) as u32;
        if tag == 0 {
            Some(HasFieldMarshal::FieldIndex(FieldIndex(row)))
        } else if tag == 1 {
            Some(HasFieldMarshal::ParamIndex(ParamIndex(row)))
        } else {
            None
        }
    }

    pub fn decode(n: u16) -> (r: Option<HasFieldMarshal>)
        ensures
            r == Self::spec_decode(n),
    {
        let tag = n & get_tag_mask(1);
        let row = (n >> 1u16) as u32;
        if tag == 0 {
            Some(HasFieldMarshal::FieldIndex(FieldIndex(row)))
        } else if tag == 1 {
            Some(HasFieldMarshal::ParamIndex(ParamIndex(row)))
        } else {
            None
        }
    }

    /// The row is null or exists in its table; `counts` holds the row
    /// count of each table by tag.
    pub open spec fn refs_ok(self, counts: Seq<u32>) -> bool {
        match self {
            HasFieldMarshal::FieldIndex(i) => i.0 <= counts[0x04],
            HasFieldMarshal::ParamIndex(i) => i.0 <= counts[0x08],
        }
    }

    pub fn check_refs(self, counts: &[u32]) -> (r: bool)
        requires
            counts@.len() == TABLE_TAGS,
        ensures
            r == self.refs_ok(counts@),
    {
        match self {
            HasFieldMarshal::FieldIndex(i) => i.0 <= counts[0x04],
            HasFieldMarshal::ParamIndex(i) => i.0 <= counts[0x08],
        }
    }
}

/// A coded index over `TypeDef`, `MethodDef`, `Assembly`.
#[derive(Debug, Clone, Copy, PartialEq, Eq, Structural)]
pub enum HasDeclSecurity {
    TypeDefIndex(TypeDefIndex),
    MethodDefIndex(MethodDefIndex),
    AssemblyIndex(AssemblyIndex),
}

impl HasDeclSecurity {
    /// The row that a 16-bit coded value selects; none for a tag that
    /// names no table.
    pub open spec fn spec_decode(n: u16) -> Option<HasDeclSecurity> {
        let tag = n & tag_mask(2);
        let row = (n >> 2u16) as u32;
        if tag == 0 {
            Some(HasDeclSecurity::TypeDefIndex(TypeDefIndex(row)))
        } else if tag == 1 {
            Some(HasDeclSecurity::MethodDefIndex(MethodDefIndex(row)))
        } else if tag == 2 {
            Some(HasDeclSecurity::AssemblyIndex(AssemblyIndex(row)))
        } else {
            None
        }
    }

    pub fn decode(n: u16) -> (r: Option<HasDeclSecurity>)
        ensures
            r == Self::spec_decode(n),
    {
        let tag = n & get_tag_mask(2);
        let row = (n >> 2u16) as u32;
        if tag == 0 {
            Some(HasDeclSecurity::TypeDefIndex(TypeDefIndex(row)))
        } else if tag == 1 {
            Some(HasDeclSecurity::MethodDefIndex(MethodDefIndex(row)))
        } else if tag == 2 {
            Some(HasDeclSecurity::AssemblyIndex(AssemblyIndex(row)))
        } else {
            None
        }
    }

    /// The row is null or exists in its table; `counts` holds the row
    /// count of each table by tag.
    pub open spec fn refs_ok(self, counts: Seq<u32>) -> bool {
        match self {
            HasDeclSecurity::TypeDefIndex(i) => i.0 <= counts[0x02],
            HasDeclSecurity::MethodDefIndex(i) => i.0 <= counts[0x06],
            HasDeclSecurity::AssemblyIndex(i) => i.0 <= counts[0x20],
        }
    }

    pub fn check_refs(self, counts: &[u32]) -> (r: bool)
        requires
            counts@.len() == TABLE_TAGS,
        ensures
            r == self.refs_ok(counts@),
    {
        match self {
            HasDeclSecurity::TypeDefIndex(i) => i.0 <= counts[0x02],
            HasDeclSecurity::MethodDefIndex(i) => i.0 <= counts[0x06],
            HasDeclSecurity::AssemblyIndex(i) => i.0 <= counts[0x20],
        }
    }
}

/// A coded index over `TypeDef`, `TypeRef`, `ModuleRef`, `MethodDef`, `TypeSpec`.
#[derive(Debug, Clone, Copy, PartialEq, Eq, Structural)]
pub enum MemberRefParent {
    TypeDefIndex(TypeDefIndex),
    TypeRefIndex(TypeRefIndex),
    ModuleRefIndex(ModuleRefIndex),
    MethodDefIndex(MethodDefIndex),
    TypeSpecIndex(TypeSpecIndex),
}

impl MemberRefParent {
    /// The row that a 16-bit coded value selects; none for a tag that
    /// names no table.
    pub open spec fn spec_decode(n: u16) -> Option<MemberRefParent> {
        let tag = n & tag_mask(3);
        let row = (n >> 3u16) as u32;
        if tag == 0 {
            Some(MemberRefParent::TypeDefIndex(TypeDefIndex(row)))
        } else if tag == 1 {
            Some(MemberRefParent::TypeRefIndex(TypeRefIndex(row)))
        } else if tag == 2 {
            Some(MemberRefParent::ModuleRefIndex(ModuleRefIndex(row)))
        } else if tag == 3 {
            Some(MemberRefParent::MethodDefIndex(MethodDefIndex(row)))
        } else if tag == 4 {
            Some(MemberRefParent::TypeSpecIndex(TypeSpecIndex(row)))
        } else {
            None
        }
    }

    pub fn decode(n: u16) -> (r: Option<MemberRefParent>)
        ensures
            r == Self::spec_decode(n),
    {
        let tag = n & get_tag_mask(3);
        let row = (n >> 3u16) as u32;
        if tag == 0 {
            Some(MemberRefParent::TypeDefIndex(TypeDefIndex(row)))
        } else if tag == 1 {
            Some(MemberRefParent::TypeRefIndex(TypeRefIndex(row)))
        } else if tag == 2 {
            Some(MemberRefParent::ModuleRefIndex(ModuleRefIndex(row)))
        } else if tag == 3 {
            Some(MemberRefParent::MethodDefIndex(MethodDefIndex(row)))
        } else if tag == 4 {
            Some(MemberRefParent::TypeSpecIndex(TypeSpecIndex(row)))
        } else {
            None
        }
    }

    /// The row is null or exists in its table; `counts` holds the row
    /// count of each table by tag.
    pub open spec fn refs_ok(self, counts: Seq<u32>) -> bool {
        match self {
            MemberRefParent::TypeDefIndex(i) => i.0 <= counts[0x02],
            MemberRefParent::TypeRefIndex(i) => i.0 <= counts[0x01],
            MemberRefParent::ModuleRefIndex(i) => i.0 <= counts[0x1a],
            MemberRefParent::MethodDefIndex(i) => i.0 <= counts[0x06],
            MemberRefParent::TypeSpecIndex(i) => i.0 <= counts[0x1b],
        }
    }

    pub fn check_refs(self, counts: &[u32]) -> (r: bool)
        requires
            counts@.len() == TABLE_TAGS,
        ensures
            r == self.refs_ok(counts@),
    {
        match self {
            MemberRefParent::TypeDefIndex(i) => i.0 <= counts[0x02],
            MemberRefParent::TypeRefIndex(i) => i.0 <= counts[0x01],
            MemberRefParent::ModuleRefIndex(i) => i.0 <= counts[0x1a],
            MemberRefParent::MethodDefIndex(i) => i.0 <= counts[0x06],
            MemberRefParent::TypeSpecIndex(i) => i.0 <= counts[0x1b],
        }
    }
}

/// A coded index over `Event`, `Property`.
#[derive(Debug, Clone, Copy, PartialEq, Eq, Structural)]
pub enum HasSemantics {
    EventIndex(EventIndex),
    PropertyIndex(PropertyIndex),
}

impl HasSemantics {
    /// The row that a 16-bit coded value selects; none for a tag that
    /// names no table.
    pub open spec fn spec_decode(n: u16) -> Option<HasSemantics> {
        let tag = n & tag_mask(1);
        let row = (n >> 1u16) as u32;
        if tag == 0 {
            Some(HasSemantics::EventIndex(EventIndex(row)))
        } else if tag == 1 {
            Some(HasSemantics::PropertyIndex(PropertyIndex(row)))
        } else {
            None
        }
    }

    pub fn decode(n: u16) -> (r: Option<HasSemantics>)
        ensures
            r == Self::spec_decode(n),
    {
        let tag = n & get_tag_mask(1);
        let row = (n >> 1u16) as u32;
        if tag == 0 {
            Some(HasSemantics::EventIndex(EventIndex(row)))
        } else if tag == 1 {
            Some(HasSemantics::PropertyIndex(PropertyIndex(row)))
        } else {
            None
        }
    }

    /// The row is null or exists in its table; `counts` holds the row
    /// count of each table by tag.
    pub open spec fn refs_ok(self, counts: Seq<u32>) -> bool {
        match self {
            HasSemantics::EventIndex(i) => i.0 <= counts[0x14],
            HasSemantics::PropertyIndex(i) => i.0 <= counts[0x17],
        }
    }

    pub fn check_refs(self, counts: &[u32]) -> (r: bool)
        requires
            counts@.len() == TABLE_TAGS,
        ensures
            r == self.refs_ok(counts@),
    {
        match self {
            HasSemantics::EventIndex(i) => i.0 <= counts[0x14],
            HasSemantics::PropertyIndex(i) => i.0 <= counts[0x17],
        }
    }
}

/// A coded index over `MethodDef`, `MemberRef`.
#[derive(Debug, Clone, Copy, PartialEq, Eq, Structural)]
pub enum MethodDefOrRef {
    MethodDefIndex(MethodDefIndex),
    MemberRefIndex(MemberRefIndex),
}

impl MethodDefOrRef {
    /// The row that a 16-bit coded value selects; none for a tag that
    /// names no table.
    pub open spec fn spec_decode(n: u16) -> Option<MethodDefOrRef> {
        let tag = n & tag_mask(1);
        let row = (n >> 1u16) as u32;
        if tag == 0 {
            Some(MethodDefOrRef::MethodDefIndex(MethodDefIndex(row)))
        } else if tag == 1 {
            Some(MethodDefOrRef::MemberRefIndex(MemberRefIndex(row)))
        } else {
            None
        }
    }

    pub fn decode(n: u16) -> (r: Option<MethodDefOrRef>)
        ensures
            r == Self::spec_decode(n),
    {
        let tag = n & get_tag_mask(1);
        let row = (n >> 1u16) as u32;
        if tag == 0 {
            Some(MethodDefOrRef::MethodDefIndex(MethodDefIndex(row)))
        } else if tag == 1 {
            Some(MethodDefOrRef::MemberRefIndex(MemberRefIndex(row)))
        } else {
            None
        }
    }

    /// The row is null or exists in its table; `counts` holds the row
    /// count of each table by tag.
    pub open spec fn refs_ok(self, counts: Seq<u32>) -> bool {
        match self {
            MethodDefOrRef::MethodDefIndex(i) => i.0 <= counts[0x06],
            MethodDefOrRef::MemberRefIndex(i) => i.0 <= counts[0x0a],
        }
    }

    pub fn check_refs(self, counts: &[u32]) -> (r: bool)
        requires
            counts@.len() == TABLE_TAGS,
        ensures
            r == self.refs_ok(counts@),
    {
        match self {
            MethodDefOrRef::MethodDefIndex(i) => i.0 <= counts[0x06],
            MethodDefOrRef::MemberRefIndex(i) => i.0 <= counts[0x0a],
        }
    }
}

/// A coded index over `Field`, `MethodDef`.
#[derive(Debug, Clone, Copy, PartialEq, Eq, Structural)]
pub enum MemberForwarded {
    FieldIndex(FieldIndex),
    MethodDefIndex(MethodDefIndex),
}

impl MemberForwarded {
    /// The row that a 16-bit coded value selects; none for a tag that
    /// names no table.
    pub open spec fn spec_decode(n: u16) -> Option<MemberForwarded> {
        let tag = n & tag_mask(1);
        let row = (n >> 1u16) as u32;
        if tag == 0 {
            Some(MemberForwarded::FieldIndex(FieldIndex(row)))
        } else if tag == 1 {
            Some(MemberForwarded::MethodDefIndex(MethodDefIndex(row)))
        } else {
            None
        }
    }

    pub fn decode(n: u16) -> (r: Option<MemberForwarded>)
        ensures
            r == Self::spec_decode(n),
    {
        let tag = n & get_tag_mask(1);
        let row = (n >> 1u16) as u32;
        if tag == 0 {
            Some(MemberForwarded::FieldIndex(FieldIndex(row)))
        } else if tag == 1 {
            Some(MemberForwarded::MethodDefIndex(MethodDefIndex(row)))
        } else {
            None
        }
    }

    /// The row is null or exists in its table; `counts` holds the row
    /// count of each table by tag.
    pub open spec fn refs_ok(self, counts: Seq<u32>) -> bool {
        match self {
            MemberForwarded::FieldIndex(i) => i.0 <= counts[0x04],
            MemberForwarded::MethodDefIndex(i) => i.0 <= counts[0x06],
        }
    }

    pub fn check_refs(self, counts: &[u32]) -> (r: bool)
        requires
            counts@.len() == TABLE_TAGS,
        ensures
            r == self.refs_ok(counts@),
    {
        match self {
            MemberForwarded::FieldIndex(i) => i.0 <= counts[0x04],
            MemberForwarded::MethodDefIndex(i) => i.0 <= counts[0x06],
        }
    }
}

/// A coded index over `File`, `AssemblyRef`, `ExportedType`.
#[derive(Debug, Clone, Copy, PartialEq, Eq, Structural)]
pub enum Implementation {
    FileIndex(FileIndex),
    AssemblyRefIndex(AssemblyRefIndex),
    ExportedTypeIndex(ExportedTypeIndex),
}

impl Implementation {
    /// The row that a 16-bit coded value selects; none for a tag that
    /// names no table.
    pub open spec fn spec_decode(n: u16) -> Option<Implementation> {
        let tag = n & tag_mask(2);
        let row = (n >> 2u16) as u32;
        if tag == 0 {
            Some(Implementation::FileIndex(FileIndex(row)))
        } else if tag == 1 {
            Some(Implementation::AssemblyRefIndex(AssemblyRefIndex(row)))
        } else if tag == 2 {
            Some(Implementation::ExportedTypeIndex(ExportedTypeIndex(row)))
        } else {
            None
        }
    }

    pub fn decode(n: u16) -> (r: Option<Implementation>)
        ensures
            r == Self::spec_decode(n),
    {
        let tag = n & get_tag_mask(2);
        let row = (n >> 2u16) as u32;
        if tag == 0 {
            Some(Implementation::FileIndex(FileIndex(row)))
        } else if tag == 1 {
            Some(Implementation::AssemblyRefIndex(AssemblyRefIndex(row)))
        } else if tag == 2 {
            Some(Implementation::ExportedTypeIndex(ExportedTypeIndex(row)))
        } else {
            None
        }
    }

    /// The row is null or exists in its table; `counts` holds the row
    /// count of each table by tag.
    pub open spec fn refs_ok(self, counts: Seq<u32>) -> bool {
        match self {
            Implementation::FileIndex(i) => i.0 <= counts[0x26],
            Implementation::AssemblyRefIndex(i) => i.0 <= counts[0x23],
            Implementation::ExportedTypeIndex(i) => i.0 <= counts[0x27],
        }
    }

    pub fn check_refs(self, counts: &[u32]) -> (r: bool)
        requires
            counts@.len() == TABLE_TAGS,
        ensures
            r == self.refs_ok(counts@),
    {
        match self {
            Implementation::FileIndex(i) => i.0 <= counts[0x26],
            Implementation::AssemblyRefIndex(i) => i.0 <= counts[0x23],
            Implementation::ExportedTypeIndex(i) => i.0 <= counts[0x27],
        }
    }
}

/// A coded index over `MethodDef`, `MemberRef`.
#[derive(Debug, Clone, Copy, PartialEq, Eq, Structural)]
pub enum CustomAttributeType {
    MethodDefIndex(MethodDefIndex),
    MemberRefIndex(MemberRefIndex),
}

impl CustomAttributeType {
    /// The row that a 16-bit coded value selects; none for a tag that
    /// names no table.
    pub open spec fn spec_decode(n: u16) -> Option<CustomAttributeType> {
        let tag = n & tag_mask(3);
        let row = (n >> 3u16) as u32;
        if tag == 2 {
            Some(CustomAttributeType::MethodDefIndex(MethodDefIndex(row)))
        } else if tag == 3 {
            Some(CustomAttributeType::MemberRefIndex(MemberRefIndex(row)))
        } else {
            None
        }
    }

    pub fn decode(n: u16) -> (r: Option<CustomAttributeType>)
        ensures
            r == Self::spec_decode(n),
    {
        let tag = n & get_tag_mask(3);
        let row = (n >> 3u16) as u32;
        if tag == 2 {
            Some(CustomAttributeType::MethodDefIndex(MethodDefIndex(row)))
        } else if tag == 3 {
            Some(CustomAttributeType::MemberRefIndex(MemberRefIndex(row)))
        } else {
            None
        }
    }

    /// The row is null or exists in its table; `counts` holds the row
    /// count of each table by tag.
    pub open spec fn refs_ok(self, counts: Seq<u32>) -> bool {
        match self {
            CustomAttributeType::MethodDefIndex(i) => i.0 <= counts[0x06],
            CustomAttributeType::MemberRefIndex(i) => i.0 <= counts[0x0a],
        }
    }

    pub fn check_refs(self, counts: &[u32]) -> (r: bool)
        requires
            counts@.len() == TABLE_TAGS,
        ensures
            r == self.refs_ok(counts@),
    {
        match self {
            CustomAttributeType::MethodDefIndex(i) => i.0 <= counts[0x06],
            CustomAttributeType::MemberRefIndex(i) => i.0 <= counts[0x0a],
        }
    }
}

/// A coded index over `Module`, `ModuleRef`, `AssemblyRef`, `TypeRef`.
#[derive(Debug, Clone, Copy, PartialEq, Eq, Structural)]
pub enum ResolutionScope {
    ModuleIndex(ModuleIndex),
    ModuleRefIndex(ModuleRefIndex),
    AssemblyRefIndex(AssemblyRefIndex),
    TypeRefIndex(TypeRefIndex),
}

impl ResolutionScope {
    /// The row that a 16-bit coded value selects; none for a tag that
    /// names no table.
    pub open spec fn spec_decode(n: u16) -> Option<ResolutionScope> {
        let tag = n & tag_mask(2);
        let row = (n >> 2u16) as u32;
        if tag == 0 {
            Some(ResolutionScope::ModuleIndex(ModuleIndex(row)))
        } else if tag == 1 {
            Some(ResolutionScope::ModuleRefIndex(ModuleRefIndex(row)))
        } else if tag == 2 {
            Some(ResolutionScope::AssemblyRefIndex(AssemblyRefIndex(row)))
        } else if tag == 3 {
            Some(ResolutionScope::TypeRefIndex(TypeRefIndex(row)))
        } else {
            None
        }
    }

    pub fn decode(n: u16) -> (r: Option<ResolutionScope>)
        ensures
            r == Self::spec_decode(n),
    {
        let tag = n & get_tag_mask(2);
        let row = (n >> 2u16) as u32;
        if tag == 0 {
            Some(ResolutionScope::ModuleIndex(ModuleIndex(row)))
        } else if tag == 1 {
            Some(ResolutionScope::ModuleRefIndex(ModuleRefIndex(row)))
        } else if tag == 2 {
            Some(ResolutionScope::AssemblyRefIndex(AssemblyRefIndex(row)))
        } else if tag == 3 {
            Some(ResolutionScope::TypeRefIndex(TypeRefIndex(row)))
        } else {
            None
        }
    }

    /// The row is null or exists in its table; `counts` holds the row
    /// count of each table by tag.
    pub open spec fn refs_ok(self, counts: Seq<u32>) -> bool {
        match self {
            ResolutionScope::ModuleIndex(i) => i.0 <= counts[0x00],
            ResolutionScope::ModuleRefIndex(i) => i.0 <= counts[0x1a],
            ResolutionScope::AssemblyRefIndex(i) => i.0 <= counts[0x23],
            ResolutionScope::TypeRefIndex(i) => i.0 <= counts[0x01],
        }
    }

    pub fn check_refs(self, counts: &[u32]) -> (r: bool)
        requires
            counts@.len() == TABLE_TAGS,
        ensures
            r == self.refs_ok(counts@),
    {
        match self {
            ResolutionScope::ModuleIndex(i) => i.0 <= counts[0x00],
            ResolutionScope::ModuleRefIndex(i) => i.0 <= counts[0x1a],
            ResolutionScope::AssemblyRefIndex(i) => i.0 <= counts[0x23],
            ResolutionScope::TypeRefIndex(i) => i.0 <= counts[0x01],
        }
    }
}

/// A coded index over `TypeDef`, `MethodDef`.
#[derive(Debug, Clone, Copy, PartialEq, Eq, Structural)]
pub enum TypeOrMethodDef {
    TypeDefIndex(TypeDefIndex),
    MethodDefIndex(MethodDefIndex),
}

impl TypeOrMethodDef {
    /// The row that a 16-bit coded value selects; none for a tag that
    /// names no table.
    pub open spec fn spec_decode(n: u16) -> Option<TypeOrMethodDef> {
        let tag = n & tag_mask(1);
        let row = (n >> 1u16) as u32;
        if tag == 0 {
            Some(TypeOrMethodDef::TypeDefIndex(TypeDefIndex(row)))
        } else if tag == 1 {
            Some(TypeOrMethodDef::MethodDefIndex(MethodDefIndex(row)))
        } else {
            None
        }
    }

    pub fn decode(n: u16) -> (r: Option<TypeOrMethodDef>)
        ensures
            r == Self::spec_decode(n),
    {
        let tag = n & get_tag_mask(1);
        let row = (n >> 1u16) as u32;
        if tag == 0 {
            Some(TypeOrMethodDef::TypeDefIndex(TypeDefIndex(row)))
        } else if tag == 1 {
            Some(TypeOrMethodDef::MethodDefIndex(MethodDefIndex(row)))
        } else {
            None
        }
    }

    /// The row is null or exists in its table; `counts` holds the row
    /// count of each table by tag.
    pub open spec fn refs_ok(self, counts: Seq<u32>) -> bool {
        match self {
            TypeOrMethodDef::TypeDefIndex(i) => i.0 <= counts[0x02],
            TypeOrMethodDef::MethodDefIndex(i) => i.0 <= counts[0x06],
        }
    }

    pub fn check_refs(self, counts: &[u32]) -> (r: bool)
        requires
            counts@.len() == TABLE_TAGS,
        ensures
            r == self.refs_ok(counts@),
    {
        match self {
            TypeOrMethodDef::TypeDefIndex(i) => i.0 <= counts[0x02],
            TypeOrMethodDef::MethodDefIndex(i) => i.0 <= counts[0x06],
        }
    }
}

/// The number of table tags, `0x00..=0x2C`.
pub const TABLE_TAGS: usize = 0x2D;

} // verus!
