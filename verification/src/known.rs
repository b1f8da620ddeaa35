use vstd::prelude::*;

use crate::bty::{
    ClassDefinitionId, EnumDefinitionId, FctDefinitionId, StructDefinitionId, TraitDefinitionId,
};
use crate::ty::{SourceType, SourceTypeArray};

verus! {

/// Identifier of an annotation definition in the program.
#[derive(Clone, Copy, Debug, PartialEq, Eq, Structural, Hash)]
pub struct AnnotationDefinitionId(pub u32);

/// Pointers to the well-known entities of the standard library, filled in
/// while its sources are processed; reading one before that is a
/// programming error.
#[derive(Debug)]
pub struct KnownElements {
    pub classes: KnownClasses,
    pub traits: KnownTraits,
    pub annotations: KnownAnnotations,
    pub functions: KnownFunctions,
    pub enums: KnownEnums,
    pub structs: KnownStructs,
}

impl KnownElements {
    pub fn new() -> (r: KnownElements)
        ensures
            r.enums.option is None,
    {
        KnownElements {
            classes: KnownClasses::new(),
            functions: KnownFunctions::new(),
            traits: KnownTraits::new(),
            enums: KnownEnums::new(),
            annotations: KnownAnnotations::new(),
            structs: KnownStructs::new(),
        }
    }

    /// The type of an array of `element`.
    pub fn array_ty(&self, element: SourceType) -> (r: SourceType)
        requires
            self.classes.array is Some,
        ensures
            r matches SourceType::Class(id, params) && id == self.classes.array->0
                && params.len_spec() == 1,
    {
        SourceType::Class(self.classes.array(), SourceTypeArray::single(element))
    }
}

/// The well-known enum entities.
#[derive(Debug)]
pub struct KnownEnums {
    pub option: Option<EnumDefinitionId>,
}

impl KnownEnums {
    pub fn new() -> (r: KnownEnums)
        ensures
            r.option is None,
    {
        KnownEnums {
            option: None,
        }
    }

    pub fn option(&self) -> (r: EnumDefinitionId)
        requires
            self.option is Some,
        ensures
            r == self.option->0,
    {
        match self.option {
            Some(id) => id,
            None => unreached(),
        }
    }

}

/// The well-known class entities.
#[derive(Debug)]
pub struct KnownClasses {
    pub atomic_int32: Option<ClassDefinitionId>,
    pub atomic_int64: Option<ClassDefinitionId>,
    pub array: Option<ClassDefinitionId>,
    pub string: Option<ClassDefinitionId>,
    pub string_buffer: Option<ClassDefinitionId>,
    pub stacktrace: Option<ClassDefinitionId>,
    pub stacktrace_element: Option<ClassDefinitionId>,
    pub thread: Option<ClassDefinitionId>,
    pub lambda: Option<ClassDefinitionId>,
}

impl KnownClasses {
    pub fn new() -> (r: KnownClasses)
        ensures
            r.atomic_int32 is None,
            r.atomic_int64 is None,
            r.array is None,
            r.string is None,
            r.string_buffer is None,
            r.stacktrace is None,
            r.stacktrace_element is None,
            r.thread is None,
            r.lambda is None,
    {
        KnownClasses {
            atomic_int32: None,
            atomic_int64: None,
            array: None,
            string: None,
            string_buffer: None,
            stacktrace: None,
            stacktrace_element: None,
            thread: None,
            lambda: None,
        }
    }

    pub fn atomic_int32(&self) -> (r: ClassDefinitionId)
        requires
            self.atomic_int32 is Some,
        ensures
            r == self.atomic_int32->0,
    {
        match self.atomic_int32 {
            Some(id) => id,
            None => unreached(),
        }
    }

    pub fn atomic_int64(&self) -> (r: ClassDefinitionId)
        requires
            self.atomic_int64 is Some,
        ensures
            r == self.atomic_int64->0,
    {
        match self.atomic_int64 {
            Some(id) => id,
            None => unreached(),
        }
    }

    pub fn array(&self) -> (r: ClassDefinitionId)
        requires
            self.array is Some,
        ensures
            r == self.array->0,
    {
        match self.array {
            Some(id) => id,
            None => unreached(),
        }
    }

    pub fn string(&self) -> (r: ClassDefinitionId)
        requires
            self.string is Some,
        ensures
            r == self.string->0,
    {
        match self.string {
            Some(id) => id,
            None => unreached(),
        }
    }

    pub fn string_buffer(&self) -> (r: ClassDefinitionId)
        requires
            self.string_buffer is Some,
        ensures
            r == self.string_buffer->0,
    {
        match self.string_buffer {
            Some(id) => id,
            None => unreached(),
        }
    }

    pub fn stacktrace(&self) -> (r: ClassDefinitionId)
        requires
            self.stacktrace is Some,
        ensures
            r == self.stacktrace->0,
    {
        match self.stacktrace {
            Some(id) => id,
            None => unreached(),
        }
    }

    pub fn stacktrace_element(&self) -> (r: ClassDefinitionId)
        requires
            self.stacktrace_element is Some,
        ensures
            r == self.stacktrace_element->0,
    {
        match self.stacktrace_element {
            Some(id) => id,
            None => unreached(),
        }
    }

    pub fn thread(&self) -> (r: ClassDefinitionId)
        requires
            self.thread is Some,
        ensures
            r == self.thread->0,
    {
        match self.thread {
            Some(id) => id,
            None => unreached(),
        }
    }

    pub fn lambda(&self) -> (r: ClassDefinitionId)
        requires
            self.lambda is Some,
        ensures
            r == self.lambda->0,
    {
        match self.lambda {
            Some(id) => id,
            None => unreached(),
        }
    }

}

/// The well-known struct entities.
#[derive(Debug)]
pub struct KnownStructs {
    pub bool: Option<StructDefinitionId>,
    pub uint8: Option<StructDefinitionId>,
    pub char: Option<StructDefinitionId>,
    pub int32: Option<StructDefinitionId>,
    pub int64: Option<StructDefinitionId>,
    pub float32: Option<StructDefinitionId>,
    pub float64: Option<StructDefinitionId>,
}

impl KnownStructs {
    pub fn new() -> (r: KnownStructs)
        ensures
            r.bool is None,
            r.uint8 is None,
            r.char is None,
            r.int32 is None,
            r.int64 is None,
            r.float32 is None,
            r.float64 is None,
    {
        KnownStructs {
            bool: None,
            uint8: None,
            char: None,
            int32: None,
            int64: None,
            float32: None,
            float64: None,
        }
    }

    pub fn bool(&self) -> (r: StructDefinitionId)
        requires
            self.bool is Some,
        ensures
            r == self.bool->0,
    {
        match self.bool {
            Some(id) => id,
            None => unreached(),
        }
    }

    pub fn uint8(&self) -> (r: StructDefinitionId)
        requires
            self.uint8 is Some,
        ensures
            r == self.uint8->0,
    {
        match self.uint8 {
            Some(id) => id,
            None => unreached(),
        }
    }

    pub fn char(&self) -> (r: StructDefinitionId)
        requires
            self.char is Some,
        ensures
            r == self.char->0,
    {
        match self.char {
            Some(id) => id,
            None => unreached(),
        }
    }

    pub fn int32(&self) -> (r: StructDefinitionId)
        requires
            self.int32 is Some,
        ensures
            r == self.int32->0,
    {
        match self.int32 {
            Some(id) => id,
            None => unreached(),
        }
    }

    pub fn int64(&self) -> (r: StructDefinitionId)
        requires
            self.int64 is Some,
        ensures
            r == self.int64->0,
    {
        match self.int64 {
            Some(id) => id,
            None => unreached(),
        }
    }

    pub fn float32(&self) -> (r: StructDefinitionId)
        requires
            self.float32 is Some,
        ensures
            r == self.float32->0,
    {
        match self.float32 {
            Some(id) => id,
            None => unreached(),
        }
    }

    pub fn float64(&self) -> (r: StructDefinitionId)
        requires
            self.float64 is Some,
        ensures
            r == self.float64->0,
    {
        match self.float64 {
            Some(id) => id,
            None => unreached(),
        }
    }

}

/// The well-known trait entities.
#[derive(Debug)]
pub struct KnownTraits {
    pub equals: Option<TraitDefinitionId>,
    pub comparable: Option<TraitDefinitionId>,
    pub stringable: Option<TraitDefinitionId>,
    pub iterator: Option<TraitDefinitionId>,
    pub zero: Option<TraitDefinitionId>,
}

impl KnownTraits {
    pub fn new() -> (r: KnownTraits)
        ensures
            r.equals is None,
            r.comparable is None,
            r.stringable is None,
            r.iterator is None,
            r.zero is None,
    {
        KnownTraits {
            equals: None,
            comparable: None,
            stringable: None,
            iterator: None,
            zero: None,
        }
    }

    pub fn equals(&self) -> (r: TraitDefinitionId)
        requires
            self.equals is Some,
        ensures
            r == self.equals->0,
    {
        match self.equals {
            Some(id) => id,
            None => unreached(),
        }
    }

    pub fn comparable(&self) -> (r: TraitDefinitionId)
        requires
            self.comparable is Some,
        ensures
            r == self.comparable->0,
    {
        match self.comparable {
            Some(id) => id,
            None => unreached(),
        }
    }

    pub fn stringable(&self) -> (r: TraitDefinitionId)
        requires
            self.stringable is Some,
        ensures
            r == self.stringable->0,
    {
        match self.stringable {
            Some(id) => id,
            None => unreached(),
        }
    }

    pub fn iterator(&self) -> (r: TraitDefinitionId)
        requires
            self.iterator is Some,
        ensures
            r == self.iterator->0,
    {
        match self.iterator {
            Some(id) => id,
            None => unreached(),
        }
    }

    pub fn zero(&self) -> (r: TraitDefinitionId)
        requires
            self.zero is Some,
        ensures
            r == self.zero->0,
    {
        match self.zero {
            Some(id) => id,
            None => unreached(),
        }
    }

}

/// The well-known annotation entities.
#[derive(Debug)]
pub struct KnownAnnotations {
    pub internal: Option<AnnotationDefinitionId>,
    pub test: Option<AnnotationDefinitionId>,
    pub cannon: Option<AnnotationDefinitionId>,
    pub optimize_immediately: Option<AnnotationDefinitionId>,
}

impl KnownAnnotations {
    pub fn new() -> (r: KnownAnnotations)
        ensures
            r.internal is None,
            r.test is None,
            r.cannon is None,
            r.optimize_immediately is None,
    {
        KnownAnnotations {
            internal: None,
            test: None,
            cannon: None,
            optimize_immediately: None,
        }
    }

    pub fn internal(&self) -> (r: AnnotationDefinitionId)
        requires
            self.internal is Some,
        ensures
            r == self.internal->0,
    {
        match self.internal {
            Some(id) => id,
            None => unreached(),
        }
    }

    pub fn test(&self) -> (r: AnnotationDefinitionId)
        requires
            self.test is Some,
        ensures
            r == self.test->0,
    {
        match self.test {
            Some(id) => id,
            None => unreached(),
        }
    }

    pub fn cannon(&self) -> (r: AnnotationDefinitionId)
        requires
            self.cannon is Some,
        ensures
            r == self.cannon->0,
    {
        match self.cannon {
            Some(id) => id,
            None => unreached(),
        }
    }

    pub fn optimize_immediately(&self) -> (r: AnnotationDefinitionId)
        requires
            self.optimize_immediately is Some,
        ensures
            r == self.optimize_immediately->0,
    {
        match self.optimize_immediately {
            Some(id) => id,
            None => unreached(),
        }
    }

}

/// The well-known function entities.
#[derive(Debug)]
pub struct KnownFunctions {
    pub string_buffer_empty: Option<FctDefinitionId>,
    pub string_buffer_append: Option<FctDefinitionId>,
    pub string_buffer_to_string: Option<FctDefinitionId>,
    pub assert_fct: Option<FctDefinitionId>,
    pub option_is_some: Option<FctDefinitionId>,
    pub option_is_none: Option<FctDefinitionId>,
    pub option_unwrap: Option<FctDefinitionId>,
    pub stacktrace_retrieve: Option<FctDefinitionId>,
    pub compile: Option<FctDefinitionId>,
}

impl KnownFunctions {
    pub fn new() -> (r: KnownFunctions)
        ensures
            r.string_buffer_empty is None,
            r.string_buffer_append is None,
            r.string_buffer_to_string is None,
            r.assert_fct is None,
            r.option_is_some is None,
            r.option_is_none is None,
            r.option_unwrap is None,
            r.stacktrace_retrieve is None,
            r.compile is None,
    {
        KnownFunctions {
            string_buffer_empty: None,
            string_buffer_append: None,
            string_buffer_to_string: None,
            assert_fct: None,
            option_is_some: None,
            option_is_none: None,
            option_unwrap: None,
            stacktrace_retrieve: None,
            compile: None,
        }
    }

    pub fn string_buffer_empty(&self) -> (r: FctDefinitionId)
        requires
            self.string_buffer_empty is Some,
        ensures
            r == self.string_buffer_empty->0,
    {
        match self.string_buffer_empty {
            Some(id) => id,
            None => unreached(),
        }
    }

    pub fn string_buffer_append(&self) -> (r: FctDefinitionId)
        requires
            self.string_buffer_append is Some,
        ensures
            r == self.string_buffer_append->0,
    {
        match self.string_buffer_append {
            Some(id) => id,
            None => unreached(),
        }
    }

    pub fn string_buffer_to_string(&self) -> (r: FctDefinitionId)
        requires
            self.string_buffer_to_string is Some,
        ensures
            r == self.string_buffer_to_string->0,
    {
        match self.string_buffer_to_string {
            Some(id) => id,
            None => unreached(),
        }
    }

    pub fn assert_fct(&self) -> (r: FctDefinitionId)
        requires
            self.assert_fct is Some,
        ensures
            r == self.assert_fct->0,
    {
        match self.assert_fct {
            Some(id) => id,
            None => unreached(),
        }
    }

    pub fn option_is_some(&self) -> (r: FctDefinitionId)
        requires
            self.option_is_some is Some,
        ensures
            r == self.option_is_some->0,
    {
        match self.option_is_some {
            Some(id) => id,
            None => unreached(),
        }
    }

    pub fn option_is_none(&self) -> (r: FctDefinitionId)
        requires
            self.option_is_none is Some,
        ensures
            r == self.option_is_none->0,
    {
        match self.option_is_none {
            Some(id) => id,
            None => unreached(),
        }
    }

    pub fn option_unwrap(&self) -> (r: FctDefinitionId)
        requires
            self.option_unwrap is Some,
        ensures
            r == self.option_unwrap->0,
    {
        match self.option_unwrap {
            Some(id) => id,
            None => unreached(),
        }
    }

    pub fn stacktrace_retrieve(&self) -> (r: FctDefinitionId)
        requires
            self.stacktrace_retrieve is Some,
        ensures
            r == self.stacktrace_retrieve->0,
    {
        match self.stacktrace_retrieve {
            Some(id) => id,
            None => unreached(),
        }
    }

    pub fn compile(&self) -> (r: FctDefinitionId)
        requires
            self.compile is Some,
        ensures
            r == self.compile->0,
    {
        match self.compile {
            Some(id) => id,
            None => unreached(),
        }
    }

}

} // verus!
