use dora::bty::{BytecodeType, BytecodeTypeArray, EnumDefinitionId, StructDefinitionId};
use dora::bty::{BytecodeTypeArray as Bta, TraitDefinitionId};
use dora::specialize::{
    create_class_instance, create_enum_instance, create_struct_instance,
    ensure_class_instance_for_trait_object, specialize_bty,
};
use dora::tuples::get_concrete_tuple;
use dora::vm::{
    ClassDefinition, ClassDefinitionField, EnumDefinition, EnumLayout, EnumVariant,
    InstanceSize, StructDefinition, StructDefinitionField, TraitDefinition, VM,
};

fn empty_params() -> BytecodeTypeArray {
    BytecodeTypeArray::empty()
}

#[test]
fn struct_specialization_is_idempotent() {
    let mut vm = VM::new();
    let sid = vm.add_struct(StructDefinition {
        fields: vec![
            StructDefinitionField { ty: BytecodeType::Int32 },
            StructDefinitionField { ty: BytecodeType::Ptr },
        ],
    });
    let first = create_struct_instance(&mut vm, sid, empty_params()).unwrap();
    let second = create_struct_instance(&mut vm, sid, empty_params()).unwrap();
    assert_eq!(first, second);
    assert_eq!(vm.struct_instances.len(), 1);
}

#[test]
fn struct_layout_and_reference_bitmap() {
    let mut vm = VM::new();
    let sid = vm.add_struct(StructDefinition {
        fields: vec![
            StructDefinitionField { ty: BytecodeType::Int32 },
            StructDefinitionField { ty: BytecodeType::Ptr },
            StructDefinitionField { ty: BytecodeType::Bool },
        ],
    });
    let id = create_struct_instance(&mut vm, sid, empty_params()).unwrap();
    let inst = &vm.struct_instances[id.0];
    // int at 0, pointer aligned to 8, bool directly after
    assert_eq!(inst.fields[0].offset, 0);
    assert_eq!(inst.fields[1].offset, 8);
    assert_eq!(inst.fields[2].offset, 16);
    assert_eq!(inst.align, 8);
    assert_eq!(inst.size, 24);
    // exactly the pointer field is a reference
    assert_eq!(inst.ref_fields, vec![8]);
}

#[test]
fn distinct_type_arguments_get_distinct_instances() {
    let mut vm = VM::new();
    let sid = vm.add_struct(StructDefinition {
        fields: vec![StructDefinitionField { ty: BytecodeType::TypeParam(0) }],
    });
    let with_int =
        create_struct_instance(&mut vm, sid, BytecodeTypeArray::one(BytecodeType::Int32)).unwrap();
    let with_long =
        create_struct_instance(&mut vm, sid, BytecodeTypeArray::one(BytecodeType::Int64)).unwrap();
    assert_ne!(with_int, with_long);
    assert_eq!(vm.struct_instances[with_int.0].size, 4);
    assert_eq!(vm.struct_instances[with_long.0].size, 8);
    // asking again hits the cache for both
    let again =
        create_struct_instance(&mut vm, sid, BytecodeTypeArray::one(BytecodeType::Int32)).unwrap();
    assert_eq!(with_int, again);
}

#[test]
fn enum_layout_int_for_nullary_variants() {
    let mut vm = VM::new();
    let eid = vm.add_enum(EnumDefinition {
        variants: vec![
            EnumVariant { types: vec![] },
            EnumVariant { types: vec![] },
            EnumVariant { types: vec![] },
        ],
    });
    let id = create_enum_instance(&mut vm, eid, empty_params()).unwrap();
    assert_eq!(vm.enum_instances[id.0].layout, EnumLayout::Int);
}

#[test]
fn enum_layout_ptr_for_option_of_reference() {
    let mut vm = VM::new();
    let eid = vm.add_enum(EnumDefinition {
        variants: vec![
            EnumVariant { types: vec![] },
            EnumVariant { types: vec![BytecodeType::Ptr] },
        ],
    });
    let id = create_enum_instance(&mut vm, eid, empty_params()).unwrap();
    assert_eq!(vm.enum_instances[id.0].layout, EnumLayout::Ptr);
}

#[test]
fn enum_layout_tagged_for_option_of_int() {
    // an option of Int32 keeps a tag word: Int32 is not a reference
    let mut vm = VM::new();
    let eid = vm.add_enum(EnumDefinition {
        variants: vec![
            EnumVariant { types: vec![] },
            EnumVariant { types: vec![BytecodeType::TypeParam(0)] },
        ],
    });
    let id = create_enum_instance(
        &mut vm,
        eid,
        BytecodeTypeArray::one(BytecodeType::Int32),
    )
    .unwrap();
    assert_eq!(vm.enum_instances[id.0].layout, EnumLayout::Tagged);

    // the same enum instantiated with a class argument collapses to a pointer
    let eid2 = EnumDefinitionId(eid.0);
    let id2 = create_enum_instance(
        &mut vm,
        eid2,
        BytecodeTypeArray::one(BytecodeType::Ptr),
    )
    .unwrap();
    assert_eq!(vm.enum_instances[id2.0].layout, EnumLayout::Ptr);
}

#[test]
fn tuple_packing_offsets_and_references() {
    let vm = VM::new();
    let subtypes = vec![
        BytecodeType::Bool,
        BytecodeType::Int64,
        BytecodeType::Ptr,
        BytecodeType::UInt8,
    ];
    let tuple = get_concrete_tuple(&vm, &subtypes).unwrap();
    assert_eq!(tuple.offsets, vec![0, 8, 16, 24]);
    assert_eq!(tuple.references, vec![16]);
    assert_eq!(tuple.align, 8);
    assert_eq!(tuple.size, 32);
    assert!(tuple.contains_references());

    // offsets never decrease; every member ends inside the total size
    for w in tuple.offsets.windows(2) {
        assert!(w[0] <= w[1]);
    }
    assert_eq!(tuple.size % tuple.align, 0);
}

#[test]
fn nested_tuple_references_are_translated() {
    let vm = VM::new();
    let inner = BytecodeType::Tuple(BytecodeTypeArray::new(vec![
        BytecodeType::Int32,
        BytecodeType::Ptr,
    ]));
    let subtypes = vec![BytecodeType::Int64, inner];
    let tuple = get_concrete_tuple(&vm, &subtypes).unwrap();
    // the inner tuple starts at 8; its pointer member sits 8 bytes within
    assert_eq!(tuple.offsets, vec![0, 8]);
    assert_eq!(tuple.references, vec![16]);
}

#[test]
fn class_instance_fields_behind_header() {
    let mut vm = VM::new();
    let cid = vm.add_class(ClassDefinition {
        is_array: false,
        is_str: false,
        fields: vec![
            ClassDefinitionField { ty: BytecodeType::Ptr },
            ClassDefinitionField { ty: BytecodeType::Int32 },
        ],
    });
    let params = empty_params();
    let id = create_class_instance(&mut vm, cid, &params).unwrap();
    let inst = &vm.class_instances[id.0];
    assert_eq!(inst.fields[0].offset, 16);
    assert_eq!(inst.fields[1].offset, 24);
    assert_eq!(inst.ref_fields, vec![16]);
    assert_eq!(inst.size, InstanceSize::Fixed(32));
}

#[test]
fn array_classes_pick_size_class_by_element() {
    let mut vm = VM::new();
    let cid = vm.add_class(ClassDefinition { is_array: true, is_str: false, fields: vec![] });
    let ptr_params = BytecodeTypeArray::one(BytecodeType::Ptr);
    let id = create_class_instance(&mut vm, cid, &ptr_params).unwrap();
    assert_eq!(vm.class_instances[id.0].size, InstanceSize::ObjArray);

    let int_params = BytecodeTypeArray::one(BytecodeType::Int64);
    let id = create_class_instance(&mut vm, cid, &int_params).unwrap();
    assert_eq!(vm.class_instances[id.0].size, InstanceSize::PrimitiveArray(8));

    let unit_params = BytecodeTypeArray::one(BytecodeType::Unit);
    let id = create_class_instance(&mut vm, cid, &unit_params).unwrap();
    assert_eq!(vm.class_instances[id.0].size, InstanceSize::UnitArray);

    let scid = vm.add_class(ClassDefinition { is_array: false, is_str: true, fields: vec![] });
    let id = create_class_instance(&mut vm, scid, &empty_params()).unwrap();
    assert_eq!(vm.class_instances[id.0].size, InstanceSize::Str);
}

#[test]
fn specialization_substitutes_type_params() {
    let params = BytecodeTypeArray::one(BytecodeType::Int32);
    let specialized = specialize_bty(BytecodeType::TypeParam(0), &params);
    assert_eq!(specialized, BytecodeType::Int32);

    let nested = BytecodeType::Tuple(BytecodeTypeArray::new(vec![
        BytecodeType::TypeParam(0),
        BytecodeType::Ptr,
    ]));
    let specialized = specialize_bty(nested, &params);
    assert_eq!(
        specialized,
        BytecodeType::Tuple(BytecodeTypeArray::new(vec![
            BytecodeType::Int32,
            BytecodeType::Ptr,
        ]))
    );

    let _ = StructDefinitionId(0);
}

#[test]
fn trait_object_instance_is_sized_by_the_wrapped_value() {

    let mut vm = VM::new();
    // a struct of three 8-byte fields as the wrapped value
    let sid = vm.add_struct(StructDefinition {
        fields: vec![
            StructDefinitionField { ty: BytecodeType::Int64 },
            StructDefinitionField { ty: BytecodeType::Int64 },
            StructDefinitionField { ty: BytecodeType::Ptr },
        ],
    });
    create_struct_instance(&mut vm, sid, Bta::empty()).unwrap();
    let tid = vm.add_trait(TraitDefinition { methods: vec![dora::bty::FctDefinitionId(0)] });
    let _ = TraitDefinitionId(tid.0);
    let obj = BytecodeType::Struct(sid, Bta::empty());
    let id = ensure_class_instance_for_trait_object(&mut vm, tid, &Bta::empty(), obj.clone())
        .unwrap();
    let inst = &vm.class_instances[id.0];
    // header (16) + 24-byte struct, rounded to pointer width
    assert_eq!(inst.size, InstanceSize::Fixed(40));
    assert_eq!(inst.vtable_entries, 1);
    // asking again returns the cached instance
    let again =
        ensure_class_instance_for_trait_object(&mut vm, tid, &Bta::empty(), obj).unwrap();
    assert_eq!(id, again);
}
