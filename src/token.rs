//! Metadata tokens: a table or heap tag in the high byte and a row in the
//! low 24 bits.
use vstd::prelude::*;
use crate::bytes::read_u32;
use crate::error::Error;
use crate::heap::UserStringIndex;
use crate::indices::{AssemblyIndex, AssemblyOSIndex, AssemblyProcessorIndex, AssemblyRefIndex, AssemblyRefOSIndex, AssemblyRefProcessorIndex, ClassLayoutIndex, ConstantIndex, CustomAttributeIndex, DeclSecurityIndex, EventIndex, EventMapIndex, ExportedTypeIndex, FieldIndex, FieldLayoutIndex, FieldMarshalIndex, FieldRVAIndex, FileIndex, GenericParamConstraintIndex, GenericParamIndex, ImplMapIndex, InterfaceImplIndex, ManifestResourceIndex, MemberRefIndex, MethodDefIndex, MethodImplIndex, MethodSemanticsIndex, MethodSpecIndex, ModuleIndex, ModuleRefIndex, NestedClassIndex, ParamIndex, PropertyIndex, PropertyMapIndex, StandAloneSigIndex, TypeDefIndex, TypeRefIndex, TypeSpecIndex};

verus! {

/// A decoded metadata token.
#[derive(Debug, Clone, Copy, PartialEq, Eq, Structural)]
pub enum MetadataToken {
    Module(ModuleIndex),
    TypeRef(TypeRefIndex),
    TypeDef(TypeDefIndex),
    Field(FieldIndex),
    MethodDef(MethodDefIndex),
    Param(ParamIndex),
    InterfaceImpl(InterfaceImplIndex),
    MemberRef(MemberRefIndex),
    Constant(ConstantIndex),
    CustomAttribute(CustomAttributeIndex),
    FieldMarshal(FieldMarshalIndex),
    DeclSecurity(DeclSecurityIndex),
    ClassLayout(ClassLayoutIndex),
    FieldLayout(FieldLayoutIndex),
    StandAloneSig(StandAloneSigIndex),
    EventMap(EventMapIndex),
    Event(EventIndex),
    PropertyMap(PropertyMapIndex),
    Property(PropertyIndex),
    MethodSemantics(MethodSemanticsIndex),
    MethodImpl(MethodImplIndex),
    ModuleRef(ModuleRefIndex),
    TypeSpec(TypeSpecIndex),
    ImplMap(ImplMapIndex),
    FieldRVA(FieldRVAIndex),
    Assembly(AssemblyIndex),
    AssemblyProcessor(AssemblyProcessorIndex),
    AssemblyOS(AssemblyOSIndex),
    AssemblyRef(AssemblyRefIndex),
    AssemblyRefProcessor(AssemblyRefProcessorIndex),
    AssemblyRefOS(AssemblyRefOSIndex),
    File(FileIndex),
    ExportedType(ExportedTypeIndex),
    ManifestResource(ManifestResourceIndex),
    NestedClass(NestedClassIndex),
    GenericParam(GenericParamIndex),
    MethodSpec(MethodSpecIndex),
    GenericParamConstraint(GenericParamConstraintIndex),
    Document(u32),
    MethodDebugInformation(u32),
    LocalScope(u32),
    LocalVariable(u32),
    LocalConstant(u32),
    ImportScope(u32),
    StateMachineMethod(u32),
    CustomDebugInformation(u32),
    UserString(UserStringIndex),
}

/// The token that the 32-bit value `v` encodes; none for an unknown tag.
pub open spec fn token_of(v: u32) -> Option<MetadataToken> {
    let tag = v >> 24u32;
    let row = v & 0x00FF_FFFFu32;
    if tag == 0x00 {
        Some(MetadataToken::Module(ModuleIndex(row)))
    } else if tag == 0x01 {
        Some(MetadataToken::TypeRef(TypeRefIndex(row)))
    } else if tag == 0x02 {
        Some(MetadataToken::TypeDef(TypeDefIndex(row)))
    } else if tag == 0x04 {
        Some(MetadataToken::Field(FieldIndex(row)))
    } else if tag == 0x06 {
        Some(MetadataToken::MethodDef(MethodDefIndex(row)))
    } else if tag == 0x08 {
        Some(MetadataToken::Param(ParamIndex(row)))
    } else if tag == 0x09 {
        Some(MetadataToken::InterfaceImpl(InterfaceImplIndex(row)))
    } else if tag == 0x0a {
        Some(MetadataToken::MemberRef(MemberRefIndex(row)))
    } else if tag == 0x0b {
        Some(MetadataToken::Constant(ConstantIndex(row)))
    } else if tag == 0x0c {
        Some(MetadataToken::CustomAttribute(CustomAttributeIndex(row)))
    } else if tag == 0x0d {
        Some(MetadataToken::FieldMarshal(FieldMarshalIndex(row)))
    } else if tag == 0x0e {
        Some(MetadataToken::DeclSecurity(DeclSecurityIndex(row)))
    } else if tag == 0x0f {
        Some(MetadataToken::ClassLayout(ClassLayoutIndex(row)))
    } else if tag == 0x10 {
        Some(MetadataToken::FieldLayout(FieldLayoutIndex(row)))
    } else if tag == 0x11 {
        Some(MetadataToken::StandAloneSig(StandAloneSigIndex(row)))
    } else if tag == 0x12 {
        Some(MetadataToken::EventMap(EventMapIndex(row)))
    } else if tag == 0x14 {
        Some(MetadataToken::Event(EventIndex(row)))
    } else if tag == 0x15 {
        Some(MetadataToken::PropertyMap(PropertyMapIndex(row)))
    } else if tag == 0x17 {
        Some(MetadataToken::Property(PropertyIndex(row)))
    } else if tag == 0x18 {
        Some(MetadataToken::MethodSemantics(MethodSemanticsIndex(row)))
    } else if tag == 0x19 {
        Some(MetadataToken::MethodImpl(MethodImplIndex(row)))
    } else if tag == 0x1a {
        Some(MetadataToken::ModuleRef(ModuleRefIndex(row)))
    } else if tag == 0x1b {
        Some(MetadataToken::TypeSpec(TypeSpecIndex(row)))
    } else if tag == 0x1c {
        Some(MetadataToken::ImplMap(ImplMapIndex(row)))
    } else if tag == 0x1d {
        Some(MetadataToken::FieldRVA(FieldRVAIndex(row)))
    } else if tag == 0x20 {
        Some(MetadataToken::Assembly(AssemblyIndex(row)))
    } else if tag == 0x21 {
        Some(MetadataToken::AssemblyProcessor(AssemblyProcessorIndex(row)))
    } else if tag == 0x22 {
        Some(MetadataToken::AssemblyOS(AssemblyOSIndex(row)))
    } else if tag == 0x23 {
        Some(MetadataToken::AssemblyRef(AssemblyRefIndex(row)))
    } else if tag == 0x24 {
        Some(MetadataToken::AssemblyRefProcessor(AssemblyRefProcessorIndex(row)))
    } else if tag == 0x25 {
        Some(MetadataToken::AssemblyRefOS(AssemblyRefOSIndex(row)))
    } else if tag == 0x26 {
        Some(MetadataToken::File(FileIndex(row)))
    } else if tag == 0x27 {
        Some(MetadataToken::ExportedType(ExportedTypeIndex(row)))
    } else if tag == 0x28 {
        Some(MetadataToken::ManifestResource(ManifestResourceIndex(row)))
    } else if tag == 0x29 {
        Some(MetadataToken::NestedClass(NestedClassIndex(row)))
    } else if tag == 0x2a {
        Some(MetadataToken::GenericParam(GenericParamIndex(row)))
    } else if tag == 0x2b {
        Some(MetadataToken::MethodSpec(MethodSpecIndex(row)))
    } else if tag == 0x2c {
        Some(MetadataToken::GenericParamConstraint(GenericParamConstraintIndex(row)))
    } else if tag == 0x30 {
        Some(MetadataToken::Document(row))
    } else if tag == 0x31 {
        Some(MetadataToken::MethodDebugInformation(row))
    } else if tag == 0x32 {
        Some(MetadataToken::LocalScope(row))
    } else if tag == 0x33 {
        Some(MetadataToken::LocalVariable(row))
    } else if tag == 0x34 {
        Some(MetadataToken::LocalConstant(row))
    } else if tag == 0x35 {
        Some(MetadataToken::ImportScope(row))
    } else if tag == 0x36 {
        Some(MetadataToken::StateMachineMethod(row))
    } else if tag == 0x37 {
        Some(MetadataToken::CustomDebugInformation(row))
    } else if tag == 0x70 {
        Some(MetadataToken::UserString(UserStringIndex(row)))
    } else {
        None
    }
}

fn token_of_exec(v: u32) -> (r: Option<MetadataToken>)
    ensures
        r == token_of(v),
{
    let tag = v >> 24u32;
    let row = v & 0x00FF_FFFFu32;
    if tag == 0x00 {
        Some(MetadataToken::Module(ModuleIndex(row)))
    } else if tag == 0x01 {
        Some(MetadataToken::TypeRef(TypeRefIndex(row)))
    } else if tag == 0x02 {
        Some(MetadataToken::TypeDef(TypeDefIndex(row)))
    } else if tag == 0x04 {
        Some(MetadataToken::Field(FieldIndex(row)))
    } else if tag == 0x06 {
        Some(MetadataToken::MethodDef(MethodDefIndex(row)))
    } else if tag == 0x08 {
        Some(MetadataToken::Param(ParamIndex(row)))
    } else if tag == 0x09 {
        Some(MetadataToken::InterfaceImpl(InterfaceImplIndex(row)))
    } else if tag == 0x0a {
        Some(MetadataToken::MemberRef(MemberRefIndex(row)))
    } else if tag == 0x0b {
        Some(MetadataToken::Constant(ConstantIndex(row)))
    } else if tag == 0x0c {
        Some(MetadataToken::CustomAttribute(CustomAttributeIndex(row)))
    } else if tag == 0x0d {
        Some(MetadataToken::FieldMarshal(FieldMarshalIndex(row)))
    } else if tag == 0x0e {
        Some(MetadataToken::DeclSecurity(DeclSecurityIndex(row)))
    } else if tag == 0x0f {
        Some(MetadataToken::ClassLayout(ClassLayoutIndex(row)))
    } else if tag == 0x10 {
        Some(MetadataToken::FieldLayout(FieldLayoutIndex(row)))
    } else if tag == 0x11 {
        Some(MetadataToken::StandAloneSig(StandAloneSigIndex(row)))
    } else if tag == 0x12 {
        Some(MetadataToken::EventMap(EventMapIndex(row)))
    } else if tag == 0x14 {
        Some(MetadataToken::Event(EventIndex(row)))
    } else if tag == 0x15 {
        Some(MetadataToken::PropertyMap(PropertyMapIndex(row)))
    } else if tag == 0x17 {
        Some(MetadataToken::Property(PropertyIndex(row)))
    } else if tag == 0x18 {
        Some(MetadataToken::MethodSemantics(MethodSemanticsIndex(row)))
    } else if tag == 0x19 {
        Some(MetadataToken::MethodImpl(MethodImplIndex(row)))
    } else if tag == 0x1a {
        Some(MetadataToken::ModuleRef(ModuleRefIndex(row)))
    } else if tag == 0x1b {
        Some(MetadataToken::TypeSpec(TypeSpecIndex(row)))
    } else if tag == 0x1c {
        Some(MetadataToken::ImplMap(ImplMapIndex(row)))
    } else if tag == 0x1d {
        Some(MetadataToken::FieldRVA(FieldRVAIndex(row)))
    } else if tag == 0x20 {
        Some(MetadataToken::Assembly(AssemblyIndex(row)))
    } else if tag == 0x21 {
        Some(MetadataToken::AssemblyProcessor(AssemblyProcessorIndex(row)))
    } else if tag == 0x22 {
        Some(MetadataToken::AssemblyOS(AssemblyOSIndex(row)))
    } else if tag == 0x23 {
        Some(MetadataToken::AssemblyRef(AssemblyRefIndex(row)))
    } else if tag == 0x24 {
        Some(MetadataToken::AssemblyRefProcessor(AssemblyRefProcessorIndex(row)))
    } else if tag == 0x25 {
        Some(MetadataToken::AssemblyRefOS(AssemblyRefOSIndex(row)))
    } else if tag == 0x26 {
        Some(MetadataToken::File(FileIndex(row)))
    } else if tag == 0x27 {
        Some(MetadataToken::ExportedType(ExportedTypeIndex(row)))
    } else if tag == 0x28 {
        Some(MetadataToken::ManifestResource(ManifestResourceIndex(row)))
    } else if tag == 0x29 {
        Some(MetadataToken::NestedClass(NestedClassIndex(row)))
    } else if tag == 0x2a {
        Some(MetadataToken::GenericParam(GenericParamIndex(row)))
    } else if tag == 0x2b {
        Some(MetadataToken::MethodSpec(MethodSpecIndex(row)))
    } else if tag == 0x2c {
        Some(MetadataToken::GenericParamConstraint(GenericParamConstraintIndex(row)))
    } else if tag == 0x30 {
        Some(MetadataToken::Document(row))
    } else if tag == 0x31 {
        Some(MetadataToken::MethodDebugInformation(row))
    } else if tag == 0x32 {
        Some(MetadataToken::LocalScope(row))
    } else if tag == 0x33 {
        Some(MetadataToken::LocalVariable(row))
    } else if tag == 0x34 {
        Some(MetadataToken::LocalConstant(row))
    } else if tag == 0x35 {
        Some(MetadataToken::ImportScope(row))
    } else if tag == 0x36 {
        Some(MetadataToken::StateMachineMethod(row))
    } else if tag == 0x37 {
        Some(MetadataToken::CustomDebugInformation(row))
    } else if tag == 0x70 {
        Some(MetadataToken::UserString(UserStringIndex(row)))
    } else {
        None
    }
}

impl MetadataToken {
    /// Decodes a 32-bit token value.
    pub fn decode(v: u32) -> (r: Result<MetadataToken, Error>)
        ensures
            r matches Ok(t) ==> token_of(v) == Some(t),
            r is Err <==> token_of(v) is None,
            r is Err ==> r == Err::<MetadataToken, Error>(Error::BadToken),
    {
        match token_of_exec(v) {
            Some(t) => Ok(t),
            None => Err(Error::BadToken),
        }
    }

    /// Reads a little-endian token at `p`; returns it and the position after it.
    pub fn parse(s: &[u8], p: usize) -> (r: Result<(MetadataToken, usize), Error>)
        ensures
            p + 4 > s@.len() ==> r == Err::<(MetadataToken, usize), Error>(Error::BadInput),
            p + 4 <= s@.len() ==> match token_of(crate::bytes::le32(s@, p as int) as u32) {
                Some(t) => r == Ok::<(MetadataToken, usize), Error>((t, (p + 4) as usize)),
                None => r == Err::<(MetadataToken, usize), Error>(Error::BadToken),
            },
    {
        let n = s.len();
        match read_u32(s, p) {
            Some(v) => {
                assert(p + 4 <= n);
                let t = Self::decode(v)?;
                Ok((t, p + 4))
            },
            None => Err(Error::BadInput),
        }
    }

    pub fn as_method_def(self) -> (r: Option<MethodDefIndex>)
        ensures
            r == (match self {
                MetadataToken::MethodDef(i) => Some(i),
                _ => None,
            }),
    {
        match self {
            MetadataToken::MethodDef(i) => Some(i),
            _ => None,
        }
    }

    pub fn as_member_ref(self) -> (r: Option<MemberRefIndex>)
        ensures
            r == (match self {
                MetadataToken::MemberRef(i) => Some(i),
                _ => None,
            }),
    {
        match self {
            MetadataToken::MemberRef(i) => Some(i),
            _ => None,
        }
    }

    pub fn as_method_spec(self) -> (r: Option<MethodSpecIndex>)
        ensures
            r == (match self {
                MetadataToken::MethodSpec(i) => Some(i),
                _ => None,
            }),
    {
        match self {
            MetadataToken::MethodSpec(i) => Some(i),
            _ => None,
        }
    }

    pub fn as_user_string(self) -> (r: Option<UserStringIndex>)
        ensures
            r == (match self {
                MetadataToken::UserString(i) => Some(i),
                _ => None,
            }),
    {
        match self {
            MetadataToken::UserString(i) => Some(i),
            _ => None,
        }
    }
}

} // verus!
