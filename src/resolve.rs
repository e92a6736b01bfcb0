//! Resolution of row indices against the decoded tables, and the ranges of
//! child rows that a parent row owns.
use vstd::prelude::*;
use crate::indices::{AssemblyIndex, AssemblyOSIndex, AssemblyProcessorIndex, AssemblyRefIndex, AssemblyRefOSIndex, AssemblyRefProcessorIndex, ClassLayoutIndex, ConstantIndex, CustomAttributeIndex, DeclSecurityIndex, EventIndex, EventMapIndex, ExportedTypeIndex, FieldIndex, FieldLayoutIndex, FieldMarshalIndex, FieldRVAIndex, FileIndex, GenericParamConstraintIndex, GenericParamIndex, ImplMapIndex, InterfaceImplIndex, ManifestResourceIndex, MemberRefIndex, MethodDefIndex, MethodImplIndex, MethodSemanticsIndex, MethodSpecIndex, ModuleIndex, ModuleRefIndex, NestedClassIndex, ParamIndex, PropertyIndex, PropertyMapIndex, StandAloneSigIndex, TypeDefIndex, TypeRefIndex, TypeSpecIndex};
use crate::tables::{Assembly, AssemblyOS, AssemblyProcessor, AssemblyRef, AssemblyRefOS, AssemblyRefProcessor, ClassLayout, Constant, CustomAttribute, DeclSecurity, Event, EventMap, ExportedType, Field, FieldLayout, FieldMarshal, FieldRVA, File, GenericParam, GenericParamConstraint, ImplMap, InterfaceImpl, ManifestResource, MemberRef, MetadataTable, MethodDef, MethodImpl, MethodSemantics, MethodSpec, Module, ModuleRef, NestedClass, Param, Property, PropertyMap, StandAloneSig, TypeDef, TypeRef, TypeSpec};

verus! {

impl ModuleIndex {
    /// The row this index names; none for the null row or past the end.
    pub fn resolve_table<'t>(self, table: &'t MetadataTable) -> (r: Option<&'t Module>)
        ensures
            r is Some <==> 1 <= self.0 <= table.module@.len(),
            r matches Some(row) ==> *row == table.module@[self.0 - 1],
    {
        if self.0 == 0 || self.0 as usize > table.module.len() {
            None
        } else {
            Some(&table.module[self.0 as usize - 1])
        }
    }
}

impl TypeRefIndex {
    /// The row this index names; none for the null row or past the end.
    pub fn resolve_table<'t>(self, table: &'t MetadataTable) -> (r: Option<&'t TypeRef>)
        ensures
            r is Some <==> 1 <= self.0 <= table.type_ref@.len(),
            r matches Some(row) ==> *row == table.type_ref@[self.0 - 1],
    {
        if self.0 == 0 || self.0 as usize > table.type_ref.len() {
            None
        } else {
            Some(&table.type_ref[self.0 as usize - 1])
        }
    }
}

impl TypeDefIndex {
    /// The row this index names; none for the null row or past the end.
    pub fn resolve_table<'t>(self, table: &'t MetadataTable) -> (r: Option<&'t TypeDef>)
        ensures
            r is Some <==> 1 <= self.0 <= table.type_def@.len(),
            r matches Some(row) ==> *row == table.type_def@[self.0 - 1],
    {
        if self.0 == 0 || self.0 as usize > table.type_def.len() {
            None
        } else {
            Some(&table.type_def[self.0 as usize - 1])
        }
    }
}

impl FieldIndex {
    /// The row this index names; none for the null row or past the end.
    pub fn resolve_table<'t>(self, table: &'t MetadataTable) -> (r: Option<&'t Field>)
        ensures
            r is Some <==> 1 <= self.0 <= table.field@.len(),
            r matches Some(row) ==> *row == table.field@[self.0 - 1],
    {
        if self.0 == 0 || self.0 as usize > table.field.len() {
            None
        } else {
            Some(&table.field[self.0 as usize - 1])
        }
    }
}

impl MethodDefIndex {
    /// The row this index names; none for the null row or past the end.
    pub fn resolve_table<'t>(self, table: &'t MetadataTable) -> (r: Option<&'t MethodDef>)
        ensures
            r is Some <==> 1 <= self.0 <= table.method_def@.len(),
            r matches Some(row) ==> *row == table.method_def@[self.0 - 1],
    {
        if self.0 == 0 || self.0 as usize > table.method_def.len() {
            None
        } else {
            Some(&table.method_def[self.0 as usize - 1])
        }
    }
}

impl ParamIndex {
    /// The row this index names; none for the null row or past the end.
    pub fn resolve_table<'t>(self, table: &'t MetadataTable) -> (r: Option<&'t Param>)
        ensures
            r is Some <==> 1 <= self.0 <= table.param@.len(),
            r matches Some(row) ==> *row == table.param@[self.0 - 1],
    {
        if self.0 == 0 || self.0 as usize > table.param.len() {
            None
        } else {
            Some(&table.param[self.0 as usize - 1])
        }
    }
}

impl InterfaceImplIndex {
    /// The row this index names; none for the null row or past the end.
    pub fn resolve_table<'t>(self, table: &'t MetadataTable) -> (r: Option<&'t InterfaceImpl>)
        ensures
            r is Some <==> 1 <= self.0 <= table.interface_impl@.len(),
            r matches Some(row) ==> *row == table.interface_impl@[self.0 - 1],
    {
        if self.0 == 0 || self.0 as usize > table.interface_impl.len() {
            None
        } else {
            Some(&table.interface_impl[self.0 as usize - 1])
        }
    }
}

impl MemberRefIndex {
    /// The row this index names; none for the null row or past the end.
    pub fn resolve_table<'t>(self, table: &'t MetadataTable) -> (r: Option<&'t MemberRef>)
        ensures
            r is Some <==> 1 <= self.0 <= table.member_ref@.len(),
            r matches Some(row) ==> *row == table.member_ref@[self.0 - 1],
    {
        if self.0 == 0 || self.0 as usize > table.member_ref.len() {
            None
        } else {
            Some(&table.member_ref[self.0 as usize - 1])
        }
    }
}

impl ConstantIndex {
    /// The row this index names; none for the null row or past the end.
    pub fn resolve_table<'t>(self, table: &'t MetadataTable) -> (r: Option<&'t Constant>)
        ensures
            r is Some <==> 1 <= self.0 <= table.constant@.len(),
            r matches Some(row) ==> *row == table.constant@[self.0 - 1],
    {
        if self.0 == 0 || self.0 as usize > table.constant.len() {
            None
        } else {
            Some(&table.constant[self.0 as usize - 1])
        }
    }
}

impl CustomAttributeIndex {
    /// The row this index names; none for the null row or past the end.
    pub fn resolve_table<'t>(self, table: &'t MetadataTable) -> (r: Option<&'t CustomAttribute>)
        ensures
            r is Some <==> 1 <= self.0 <= table.custom_attribute@.len(),
            r matches Some(row) ==> *row == table.custom_attribute@[self.0 - 1],
    {
        if self.0 == 0 || self.0 as usize > table.custom_attribute.len() {
            None
        } else {
            Some(&table.custom_attribute[self.0 as usize - 1])
        }
    }
}

impl FieldMarshalIndex {
    /// The row this index names; none for the null row or past the end.
    pub fn resolve_table<'t>(self, table: &'t MetadataTable) -> (r: Option<&'t FieldMarshal>)
        ensures
            r is Some <==> 1 <= self.0 <= table.field_marshal@.len(),
            r matches Some(row) ==> *row == table.field_marshal@[self.0 - 1],
    {
        if self.0 == 0 || self.0 as usize > table.field_marshal.len() {
            None
        } else {
            Some(&table.field_marshal[self.0 as usize - 1])
        }
    }
}

impl DeclSecurityIndex {
    /// The row this index names; none for the null row or past the end.
    pub fn resolve_table<'t>(self, table: &'t MetadataTable) -> (r: Option<&'t DeclSecurity>)
        ensures
            r is Some <==> 1 <= self.0 <= table.decl_security@.len(),
            r matches Some(row) ==> *row == table.decl_security@[self.0 - 1],
    {
        if self.0 == 0 || self.0 as usize > table.decl_security.len() {
            None
        } else {
            Some(&table.decl_security[self.0 as usize - 1])
        }
    }
}

impl ClassLayoutIndex {
    /// The row this index names; none for the null row or past the end.
    pub fn resolve_table<'t>(self, table: &'t MetadataTable) -> (r: Option<&'t ClassLayout>)
        ensures
            r is Some <==> 1 <= self.0 <= table.class_layout@.len(),
            r matches Some(row) ==> *row == table.class_layout@[self.0 - 1],
    {
        if self.0 == 0 || self.0 as usize > table.class_layout.len() {
            None
        } else {
            Some(&table.class_layout[self.0 as usize - 1])
        }
    }
}

impl FieldLayoutIndex {
    /// The row this index names; none for the null row or past the end.
    pub fn resolve_table<'t>(self, table: &'t MetadataTable) -> (r: Option<&'t FieldLayout>)
        ensures
            r is Some <==> 1 <= self.0 <= table.field_layout@.len(),
            r matches Some(row) ==> *row == table.field_layout@[self.0 - 1],
    {
        if self.0 == 0 || self.0 as usize > table.field_layout.len() {
            None
        } else {
            Some(&table.field_layout[self.0 as usize - 1])
        }
    }
}

impl StandAloneSigIndex {
    /// The row this index names; none for the null row or past the end.
    pub fn resolve_table<'t>(self, table: &'t MetadataTable) -> (r: Option<&'t StandAloneSig>)
        ensures
            r is Some <==> 1 <= self.0 <= table.stand_alone_sig@.len(),
            r matches Some(row) ==> *row == table.stand_alone_sig@[self.0 - 1],
    {
        if self.0 == 0 || self.0 as usize > table.stand_alone_sig.len() {
            None
        } else {
            Some(&table.stand_alone_sig[self.0 as usize - 1])
        }
    }
}

impl EventMapIndex {
    /// The row this index names; none for the null row or past the end.
    pub fn resolve_table<'t>(self, table: &'t MetadataTable) -> (r: Option<&'t EventMap>)
        ensures
            r is Some <==> 1 <= self.0 <= table.event_map@.len(),
            r matches Some(row) ==> *row == table.event_map@[self.0 - 1],
    {
        if self.0 == 0 || self.0 as usize > table.event_map.len() {
            None
        } else {
            Some(&table.event_map[self.0 as usize - 1])
        }
    }
}

impl EventIndex {
    /// The row this index names; none for the null row or past the end.
    pub fn resolve_table<'t>(self, table: &'t MetadataTable) -> (r: Option<&'t Event>)
        ensures
            r is Some <==> 1 <= self.0 <= table.event@.len(),
            r matches Some(row) ==> *row == table.event@[self.0 - 1],
    {
        if self.0 == 0 || self.0 as usize > table.event.len() {
            None
        } else {
            Some(&table.event[self.0 as usize - 1])
        }
    }
}

impl PropertyMapIndex {
    /// The row this index names; none for the null row or past the end.
    pub fn resolve_table<'t>(self, table: &'t MetadataTable) -> (r: Option<&'t PropertyMap>)
        ensures
            r is Some <==> 1 <= self.0 <= table.property_map@.len(),
            r matches Some(row) ==> *row == table.property_map@[self.0 - 1],
    {
        if self.0 == 0 || self.0 as usize > table.property_map.len() {
            None
        } else {
            Some(&table.property_map[self.0 as usize - 1])
        }
    }
}

impl PropertyIndex {
    /// The row this index names; none for the null row or past the end.
    pub fn resolve_table<'t>(self, table: &'t MetadataTable) -> (r: Option<&'t Property>)
        ensures
            r is Some <==> 1 <= self.0 <= table.property@.len(),
            r matches Some(row) ==> *row == table.property@[self.0 - 1],
    {
        if self.0 == 0 || self.0 as usize > table.property.len() {
            None
        } else {
            Some(&table.property[self.0 as usize - 1])
        }
    }
}

impl MethodSemanticsIndex {
    /// The row this index names; none for the null row or past the end.
    pub fn resolve_table<'t>(self, table: &'t MetadataTable) -> (r: Option<&'t MethodSemantics>)
        ensures
            r is Some <==> 1 <= self.0 <= table.method_semantics@.len(),
            r matches Some(row) ==> *row == table.method_semantics@[self.0 - 1],
    {
        if self.0 == 0 || self.0 as usize > table.method_semantics.len() {
            None
        } else {
            Some(&table.method_semantics[self.0 as usize - 1])
        }
    }
}

impl MethodImplIndex {
    /// The row this index names; none for the null row or past the end.
    pub fn resolve_table<'t>(self, table: &'t MetadataTable) -> (r: Option<&'t MethodImpl>)
        ensures
            r is Some <==> 1 <= self.0 <= table.method_impl@.len(),
            r matches Some(row) ==> *row == table.method_impl@[self.0 - 1],
    {
        if self.0 == 0 || self.0 as usize > table.method_impl.len() {
            None
        } else {
            Some(&table.method_impl[self.0 as usize - 1])
        }
    }
}

impl ModuleRefIndex {
    /// The row this index names; none for the null row or past the end.
    pub fn resolve_table<'t>(self, table: &'t MetadataTable) -> (r: Option<&'t ModuleRef>)
        ensures
            r is Some <==> 1 <= self.0 <= table.module_ref@.len(),
            r matches Some(row) ==> *row == table.module_ref@[self.0 - 1],
    {
        if self.0 == 0 || self.0 as usize > table.module_ref.len() {
            None
        } else {
            Some(&table.module_ref[self.0 as usize - 1])
        }
    }
}

impl TypeSpecIndex {
    /// The row this index names; none for the null row or past the end.
    pub fn resolve_table<'t>(self, table: &'t MetadataTable) -> (r: Option<&'t TypeSpec>)
        ensures
            r is Some <==> 1 <= self.0 <= table.type_spec@.len(),
            r matches Some(row) ==> *row == table.type_spec@[self.0 - 1],
    {
        if self.0 == 0 || self.0 as usize > table.type_spec.len() {
            None
        } else {
            Some(&table.type_spec[self.0 as usize - 1])
        }
    }
}

impl ImplMapIndex {
    /// The row this index names; none for the null row or past the end.
    pub fn resolve_table<'t>(self, table: &'t MetadataTable) -> (r: Option<&'t ImplMap>)
        ensures
            r is Some <==> 1 <= self.0 <= table.impl_map@.len(),
            r matches Some(row) ==> *row == table.impl_map@[self.0 - 1],
    {
        if self.0 == 0 || self.0 as usize > table.impl_map.len() {
            None
        } else {
            Some(&table.impl_map[self.0 as usize - 1])
        }
    }
}

impl FieldRVAIndex {
    /// The row this index names; none for the null row or past the end.
    pub fn resolve_table<'t>(self, table: &'t MetadataTable) -> (r: Option<&'t FieldRVA>)
        ensures
            r is Some <==> 1 <= self.0 <= table.field_rva@.len(),
            r matches Some(row) ==> *row == table.field_rva@[self.0 - 1],
    {
        if self.0 == 0 || self.0 as usize > table.field_rva.len() {
            None
        } else {
            Some(&table.field_rva[self.0 as usize - 1])
        }
    }
}

impl AssemblyIndex {
    /// The row this index names; none for the null row or past the end.
    pub fn resolve_table<'t>(self, table: &'t MetadataTable) -> (r: Option<&'t Assembly>)
        ensures
            r is Some <==> 1 <= self.0 <= table.assembly@.len(),
            r matches Some(row) ==> *row == table.assembly@[self.0 - 1],
    {
        if self.0 == 0 || self.0 as usize > table.assembly.len() {
            None
        } else {
            Some(&table.assembly[self.0 as usize - 1])
        }
    }
}

impl AssemblyProcessorIndex {
    /// The row this index names; none for the null row or past the end.
    pub fn resolve_table<'t>(self, table: &'t MetadataTable) -> (r: Option<&'t AssemblyProcessor>)
        ensures
            r is Some <==> 1 <= self.0 <= table.assembly_processor@.len(),
            r matches Some(row) ==> *row == table.assembly_processor@[self.0 - 1],
    {
        if self.0 == 0 || self.0 as usize > table.assembly_processor.len() {
            None
        } else {
            Some(&table.assembly_processor[self.0 as usize - 1])
        }
    }
}

impl AssemblyOSIndex {
    /// The row this index names; none for the null row or past the end.
    pub fn resolve_table<'t>(self, table: &'t MetadataTable) -> (r: Option<&'t AssemblyOS>)
        ensures
            r is Some <==> 1 <= self.0 <= table.assembly_os@.len(),
            r matches Some(row) ==> *row == table.assembly_os@[self.0 - 1],
    {
        if self.0 == 0 || self.0 as usize > table.assembly_os.len() {
            None
        } else {
            Some(&table.assembly_os[self.0 as usize - 1])
        }
    }
}

impl AssemblyRefIndex {
    /// The row this index names; none for the null row or past the end.
    pub fn resolve_table<'t>(self, table: &'t MetadataTable) -> (r: Option<&'t AssemblyRef>)
        ensures
            r is Some <==> 1 <= self.0 <= table.assembly_ref@.len(),
            r matches Some(row) ==> *row == table.assembly_ref@[self.0 - 1],
    {
        if self.0 == 0 || self.0 as usize > table.assembly_ref.len() {
            None
        } else {
            Some(&table.assembly_ref[self.0 as usize - 1])
        }
    }
}

impl AssemblyRefProcessorIndex {
    /// The row this index names; none for the null row or past the end.
    pub fn resolve_table<'t>(self, table: &'t MetadataTable) -> (r: Option<&'t AssemblyRefProcessor>)
        ensures
            r is Some <==> 1 <= self.0 <= table.assembly_ref_processor@.len(),
            r matches Some(row) ==> *row == table.assembly_ref_processor@[self.0 - 1],
    {
        if self.0 == 0 || self.0 as usize > table.assembly_ref_processor.len() {
            None
        } else {
            Some(&table.assembly_ref_processor[self.0 as usize - 1])
        }
    }
}

impl AssemblyRefOSIndex {
    /// The row this index names; none for the null row or past the end.
    pub fn resolve_table<'t>(self, table: &'t MetadataTable) -> (r: Option<&'t AssemblyRefOS>)
        ensures
            r is Some <==> 1 <= self.0 <= table.assembly_ref_os@.len(),
            r matches Some(row) ==> *row == table.assembly_ref_os@[self.0 - 1],
    {
        if self.0 == 0 || self.0 as usize > table.assembly_ref_os.len() {
            None
        } else {
            Some(&table.assembly_ref_os[self.0 as usize - 1])
        }
    }
}

impl FileIndex {
    /// The row this index names; none for the null row or past the end.
    pub fn resolve_table<'t>(self, table: &'t MetadataTable) -> (r: Option<&'t File>)
        ensures
            r is Some <==> 1 <= self.0 <= table.file@.len(),
            r matches Some(row) ==> *row == table.file@[self.0 - 1],
    {
        if self.0 == 0 || self.0 as usize > table.file.len() {
            None
        } else {
            Some(&table.file[self.0 as usize - 1])
        }
    }
}

impl ExportedTypeIndex {
    /// The row this index names; none for the null row or past the end.
    pub fn resolve_table<'t>(self, table: &'t MetadataTable) -> (r: Option<&'t ExportedType>)
        ensures
            r is Some <==> 1 <= self.0 <= table.exported_type@.len(),
            r matches Some(row) ==> *row == table.exported_type@[self.0 - 1],
    {
        if self.0 == 0 || self.0 as usize > table.exported_type.len() {
            None
        } else {
            Some(&table.exported_type[self.0 as usize - 1])
        }
    }
}

impl ManifestResourceIndex {
    /// The row this index names; none for the null row or past the end.
    pub fn resolve_table<'t>(self, table: &'t MetadataTable) -> (r: Option<&'t ManifestResource>)
        ensures
            r is Some <==> 1 <= self.0 <= table.manifest_resource@.len(),
            r matches Some(row) ==> *row == table.manifest_resource@[self.0 - 1],
    {
        if self.0 == 0 || self.0 as usize > table.manifest_resource.len() {
            None
        } else {
            Some(&table.manifest_resource[self.0 as usize - 1])
        }
    }
}

impl NestedClassIndex {
    /// The row this index names; none for the null row or past the end.
    pub fn resolve_table<'t>(self, table: &'t MetadataTable) -> (r: Option<&'t NestedClass>)
        ensures
            r is Some <==> 1 <= self.0 <= table.nested_class@.len(),
            r matches Some(row) ==> *row == table.nested_class@[self.0 - 1],
    {
        if self.0 == 0 || self.0 as usize > table.nested_class.len() {
            None
        } else {
            Some(&table.nested_class[self.0 as usize - 1])
        }
    }
}

impl GenericParamIndex {
    /// The row this index names; none for the null row or past the end.
    pub fn resolve_table<'t>(self, table: &'t MetadataTable) -> (r: Option<&'t GenericParam>)
        ensures
            r is Some <==> 1 <= self.0 <= table.generic_param@.len(),
            r matches Some(row) ==> *row == table.generic_param@[self.0 - 1],
    {
        if self.0 == 0 || self.0 as usize > table.generic_param.len() {
            None
        } else {
            Some(&table.generic_param[self.0 as usize - 1])
        }
    }
}

impl MethodSpecIndex {
    /// The row this index names; none for the null row or past the end.
    pub fn resolve_table<'t>(self, table: &'t MetadataTable) -> (r: Option<&'t MethodSpec>)
        ensures
            r is Some <==> 1 <= self.0 <= table.method_spec@.len(),
            r matches Some(row) ==> *row == table.method_spec@[self.0 - 1],
    {
        if self.0 == 0 || self.0 as usize > table.method_spec.len() {
            None
        } else {
            Some(&table.method_spec[self.0 as usize - 1])
        }
    }
}

impl GenericParamConstraintIndex {
    /// The row this index names; none for the null row or past the end.
    pub fn resolve_table<'t>(self, table: &'t MetadataTable) -> (r: Option<&'t GenericParamConstraint>)
        ensures
            r is Some <==> 1 <= self.0 <= table.generic_param_constraint@.len(),
            r matches Some(row) ==> *row == table.generic_param_constraint@[self.0 - 1],
    {
        if self.0 == 0 || self.0 as usize > table.generic_param_constraint.len() {
            None
        } else {
            Some(&table.generic_param_constraint[self.0 as usize - 1])
        }
    }
}

/// The zero-based half-open range `[lo, hi)` of child rows owned by a parent
/// whose list starts at row `start`: it ends where the next parent's list
/// starts (`next`), or at the last child row for the last parent.
pub open spec fn owned_range(start: u32, next: Option<u32>, child_count: nat) -> (nat, nat) {
    let lo: nat = if start == 0 {
        0
    } else {
        (start - 1) as nat
    };
    let end: nat = match next {
        Some(n) => if n == 0 {
            0
        } else if n - 1 < child_count {
            (n - 1) as nat
        } else {
            child_count
        },
        None => child_count,
    };
    if end < lo {
        (lo, lo)
    } else {
        (lo, end)
    }
}

fn owned_range_exec(start: u32, next: Option<u32>, child_count: usize) -> (r: (usize, usize))
    ensures
        r.0 == owned_range(start, next, child_count as nat).0,
        r.1 == owned_range(start, next, child_count as nat).1,
{
    let lo: usize = if start == 0 {
        0
    } else {
        (start - 1) as usize
    };
    let end: usize = match next {
        Some(n) => if n == 0 {
            0
        } else if ((n - 1) as usize) < child_count {
            (n - 1) as usize
        } else {
            child_count
        },
        None => child_count,
    };
    if end < lo {
        (lo, lo)
    } else {
        (lo, end)
    }
}

impl TypeDefIndex {
    /// The `MethodDef` rows that this parent owns, as zero-based positions
    /// `[lo, hi)` of the child table; empty for the null parent or one past
    /// the end.
    pub open spec fn spec_method_range(self, table: &MetadataTable) -> (nat, nat) {
        if self.0 == 0 || self.0 > table.type_def@.len() {
            (0, 0)
        } else {
            owned_range(
                table.type_def@[self.0 - 1].method_list.0,
                if self.0 < table.type_def@.len() {
                    Some(table.type_def@[self.0 as int].method_list.0)
                } else {
                    None
                },
                table.method_def@.len(),
            )
        }
    }

    pub fn method_range(self, table: &MetadataTable) -> (r: (usize, usize))
        ensures
            r.0 == self.spec_method_range(table).0,
            r.1 == self.spec_method_range(table).1,
    {
        if self.0 == 0 || self.0 as usize > table.type_def.len() {
            return (0, 0);
        }
        let start = table.type_def[self.0 as usize - 1].method_list.0;
        let next = if (self.0 as usize) < table.type_def.len() {
            Some(table.type_def[self.0 as usize].method_list.0)
        } else {
            None
        };
        owned_range_exec(start, next, table.method_def.len())
    }
}

impl TypeDefIndex {
    /// The `Field` rows that this parent owns, as zero-based positions
    /// `[lo, hi)` of the child table; empty for the null parent or one past
    /// the end.
    pub open spec fn spec_field_range(self, table: &MetadataTable) -> (nat, nat) {
        if self.0 == 0 || self.0 > table.type_def@.len() {
            (0, 0)
        } else {
            owned_range(
                table.type_def@[self.0 - 1].field_list.0,
                if self.0 < table.type_def@.len() {
                    Some(table.type_def@[self.0 as int].field_list.0)
                } else {
                    None
                },
                table.field@.len(),
            )
        }
    }

    pub fn field_range(self, table: &MetadataTable) -> (r: (usize, usize))
        ensures
            r.0 == self.spec_field_range(table).0,
            r.1 == self.spec_field_range(table).1,
    {
        if self.0 == 0 || self.0 as usize > table.type_def.len() {
            return (0, 0);
        }
        let start = table.type_def[self.0 as usize - 1].field_list.0;
        let next = if (self.0 as usize) < table.type_def.len() {
            Some(table.type_def[self.0 as usize].field_list.0)
        } else {
            None
        };
        owned_range_exec(start, next, table.field.len())
    }
}

impl MethodDefIndex {
    /// The `Param` rows that this parent owns, as zero-based positions
    /// `[lo, hi)` of the child table; empty for the null parent or one past
    /// the end.
    pub open spec fn spec_param_range(self, table: &MetadataTable) -> (nat, nat) {
        if self.0 == 0 || self.0 > table.method_def@.len() {
            (0, 0)
        } else {
            owned_range(
                table.method_def@[self.0 - 1].param_list.0,
                if self.0 < table.method_def@.len() {
                    Some(table.method_def@[self.0 as int].param_list.0)
                } else {
                    None
                },
                table.param@.len(),
            )
        }
    }

    pub fn param_range(self, table: &MetadataTable) -> (r: (usize, usize))
        ensures
            r.0 == self.spec_param_range(table).0,
            r.1 == self.spec_param_range(table).1,
    {
        if self.0 == 0 || self.0 as usize > table.method_def.len() {
            return (0, 0);
        }
        let start = table.method_def[self.0 as usize - 1].param_list.0;
        let next = if (self.0 as usize) < table.method_def.len() {
            Some(table.method_def[self.0 as usize].param_list.0)
        } else {
            None
        };
        owned_range_exec(start, next, table.param.len())
    }
}

} // verus!
