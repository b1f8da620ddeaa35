use vstd::prelude::*;

use crate::bty::{
    BytecodeType, BytecodeTypeArray, ClassDefinitionId, EnumDefinitionId, FctDefinitionId,
    StructDefinitionId, TraitDefinitionId,
};

verus! {

/// Index of a cached struct layout.
#[derive(Clone, Copy, Debug, PartialEq, Eq, Structural, Hash)]
pub struct StructInstanceId(pub usize);

/// Index of a cached enum layout.
#[derive(Clone, Copy, Debug, PartialEq, Eq, Structural, Hash)]
pub struct EnumInstanceId(pub usize);

/// Index of a cached class layout.
#[derive(Clone, Copy, Debug, PartialEq, Eq, Structural, Hash)]
pub struct ClassInstanceId(pub usize);

/// One field of a struct definition.
#[derive(Clone, Debug)]
pub struct StructDefinitionField {
    pub ty: BytecodeType,
}

/// A struct as the front end defines it: an ordered field list, possibly
/// generic.
#[derive(Clone, Debug)]
pub struct StructDefinition {
    pub fields: Vec<StructDefinitionField>,
}

/// One variant of an enum definition, carrying the types of its payload.
#[derive(Clone, Debug)]
pub struct EnumVariant {
    pub types: Vec<BytecodeType>,
}

/// An enum as the front end defines it.
#[derive(Clone, Debug)]
pub struct EnumDefinition {
    pub variants: Vec<EnumVariant>,
}

/// One field of a class definition.
#[derive(Clone, Debug)]
pub struct ClassDefinitionField {
    pub ty: BytecodeType,
}

/// A class as the front end defines it. Array and string classes have no
/// declared fields; their layout is chosen by element type.
#[derive(Clone, Debug)]
pub struct ClassDefinition {
    pub is_array: bool,
    pub is_str: bool,
    pub fields: Vec<ClassDefinitionField>,
}

/// A trait as the front end defines it: the declared method order fixes the
/// vtable order.
#[derive(Clone, Debug)]
pub struct TraitDefinition {
    pub methods: Vec<FctDefinitionId>,
}

/// How values of a specialized enum are stored.
#[derive(Clone, Copy, Debug, PartialEq, Eq, Structural)]
pub enum EnumLayout {
    /// All variants are empty: the value is the 32-bit variant index.
    Int,
    /// Two variants, one empty and one holding a single reference: the value
    /// is a (possibly null) pointer.
    Ptr,
    /// Anything else: a heap object holding the variant index and payload.
    Tagged,
}

/// The size class of a specialized class instance.
#[derive(Clone, Copy, Debug, PartialEq, Eq, Structural)]
pub enum InstanceSize {
    Fixed(i32),
    ObjArray,
    PrimitiveArray(i32),
    StructArray(i32),
    UnitArray,
    Str,
}

/// What a class instance stands for.
#[derive(Clone, Debug)]
pub enum ShapeKind {
    Class(ClassDefinitionId, BytecodeTypeArray),
    Enum(EnumDefinitionId, BytecodeTypeArray),
    Lambda(FctDefinitionId, BytecodeTypeArray),
    TraitObject {
        object_ty: BytecodeType,
        trait_id: TraitDefinitionId,
        combined_type_params: BytecodeTypeArray,
    },
}

/// One laid-out field of a struct instance.
#[derive(Clone, Debug)]
pub struct StructInstanceField {
    pub offset: i32,
    pub ty: BytecodeType,
}

/// A fully concrete struct layout.
#[derive(Clone, Debug)]
pub struct StructInstance {
    pub size: i32,
    pub align: i32,
    pub fields: Vec<StructInstanceField>,
    pub ref_fields: Vec<i32>,
}

/// A fully concrete enum layout; `variants` caches the class instance of
/// each constructed variant of a `Tagged` enum.
#[derive(Clone, Debug)]
pub struct EnumInstance {
    pub enum_id: EnumDefinitionId,
    pub type_params: BytecodeTypeArray,
    pub layout: EnumLayout,
    pub variants: Vec<Option<ClassInstanceId>>,
}

/// One laid-out field of a class instance.
#[derive(Clone, Debug)]
pub struct FieldInstance {
    pub offset: i32,
    pub ty: BytecodeType,
}

/// A fully concrete class layout together with the number of vtable slots
/// its dispatch table carries.
#[derive(Clone, Debug)]
pub struct ClassInstance {
    pub kind: ShapeKind,
    pub size: InstanceSize,
    pub fields: Vec<FieldInstance>,
    pub ref_fields: Vec<i32>,
    pub vtable_entries: usize,
}

/// The tables the shape layer works on: the front end's definitions, the
/// instances created so far, and the specialization caches keyed by
/// definition and concrete type arguments.
pub struct VM {
    pub structs: Vec<StructDefinition>,
    pub enums: Vec<EnumDefinition>,
    pub classes: Vec<ClassDefinition>,
    pub traits: Vec<TraitDefinition>,
    pub struct_instances: Vec<StructInstance>,
    pub enum_instances: Vec<EnumInstance>,
    pub class_instances: Vec<ClassInstance>,
    pub struct_specializations: Vec<(u32, BytecodeTypeArray, usize)>,
    pub enum_specializations: Vec<(u32, BytecodeTypeArray, usize)>,
    pub class_specializations: Vec<(u32, BytecodeTypeArray, usize)>,
    pub trait_vtables: Vec<(u32, BytecodeTypeArray, usize)>,
}

impl VM {
    pub fn new() -> (r: VM)
        ensures
            r.structs@.len() == 0,
            r.enums@.len() == 0,
            r.classes@.len() == 0,
            r.traits@.len() == 0,
            r.struct_instances@.len() == 0,
            r.enum_instances@.len() == 0,
            r.class_instances@.len() == 0,
            r.struct_specializations@.len() == 0,
            r.enum_specializations@.len() == 0,
            r.class_specializations@.len() == 0,
            r.trait_vtables@.len() == 0,
    {
        VM {
            structs: Vec::new(),
            enums: Vec::new(),
            classes: Vec::new(),
            traits: Vec::new(),
            struct_instances: Vec::new(),
            enum_instances: Vec::new(),
            class_instances: Vec::new(),
            struct_specializations: Vec::new(),
            enum_specializations: Vec::new(),
            class_specializations: Vec::new(),
            trait_vtables: Vec::new(),
        }
    }

    pub fn add_struct(&mut self, def: StructDefinition) -> (r: StructDefinitionId)
        requires
            old(self).structs@.len() < u32::MAX,
        ensures
            final (self).structs@ == old(self).structs@.push(def),
            r.0 == old(self).structs@.len(),
            final (self).enums@ == old(self).enums@,
            final (self).classes@ == old(self).classes@,
            final (self).traits@ == old(self).traits@,
            final (self).struct_instances@ == old(self).struct_instances@,
            final (self).enum_instances@ == old(self).enum_instances@,
            final (self).class_instances@ == old(self).class_instances@,
            final (self).struct_specializations@ == old(self).struct_specializations@,
            final (self).enum_specializations@ == old(self).enum_specializations@,
            final (self).class_specializations@ == old(self).class_specializations@,
            final (self).trait_vtables@ == old(self).trait_vtables@,
    {
        let id = self.structs.len();
        self.structs.push(def);
        StructDefinitionId(id as u32)
    }

    pub fn add_enum(&mut self, def: EnumDefinition) -> (r: EnumDefinitionId)
        requires
            old(self).enums@.len() < u32::MAX,
        ensures
            final (self).enums@ == old(self).enums@.push(def),
            r.0 == old(self).enums@.len(),
            final (self).structs@ == old(self).structs@,
            final (self).classes@ == old(self).classes@,
            final (self).traits@ == old(self).traits@,
            final (self).struct_instances@ == old(self).struct_instances@,
            final (self).enum_instances@ == old(self).enum_instances@,
            final (self).class_instances@ == old(self).class_instances@,
            final (self).struct_specializations@ == old(self).struct_specializations@,
            final (self).enum_specializations@ == old(self).enum_specializations@,
            final (self).class_specializations@ == old(self).class_specializations@,
            final (self).trait_vtables@ == old(self).trait_vtables@,
    {
        let id = self.enums.len();
        self.enums.push(def);
        EnumDefinitionId(id as u32)
    }

    pub fn add_class(&mut self, def: ClassDefinition) -> (r: ClassDefinitionId)
        requires
            old(self).classes@.len() < u32::MAX,
        ensures
            final (self).classes@ == old(self).classes@.push(def),
            r.0 == old(self).classes@.len(),
            final (self).structs@ == old(self).structs@,
            final (self).enums@ == old(self).enums@,
            final (self).traits@ == old(self).traits@,
            final (self).struct_instances@ == old(self).struct_instances@,
            final (self).enum_instances@ == old(self).enum_instances@,
            final (self).class_instances@ == old(self).class_instances@,
            final (self).struct_specializations@ == old(self).struct_specializations@,
            final (self).enum_specializations@ == old(self).enum_specializations@,
            final (self).class_specializations@ == old(self).class_specializations@,
            final (self).trait_vtables@ == old(self).trait_vtables@,
    {
        let id = self.classes.len();
        self.classes.push(def);
        ClassDefinitionId(id as u32)
    }

    pub fn add_trait(&mut self, def: TraitDefinition) -> (r: TraitDefinitionId)
        requires
            old(self).traits@.len() < u32::MAX,
        ensures
            final (self).traits@ == old(self).traits@.push(def),
            r.0 == old(self).traits@.len(),
            final (self).structs@ == old(self).structs@,
            final (self).enums@ == old(self).enums@,
            final (self).classes@ == old(self).classes@,
            final (self).struct_instances@ == old(self).struct_instances@,
            final (self).enum_instances@ == old(self).enum_instances@,
            final (self).class_instances@ == old(self).class_instances@,
            final (self).struct_specializations@ == old(self).struct_specializations@,
            final (self).enum_specializations@ == old(self).enum_specializations@,
            final (self).class_specializations@ == old(self).class_specializations@,
            final (self).trait_vtables@ == old(self).trait_vtables@,
    {
        let id = self.traits.len();
        self.traits.push(def);
        TraitDefinitionId(id as u32)
    }
}

} // verus!
