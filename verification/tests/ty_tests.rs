use dora::ty::{SourceType, SourceTypeArray};

#[test]
fn append_type_lists() {
    let e1 = SourceTypeArray::empty();
    let e2 = SourceTypeArray::single(SourceType::Int32);
    assert_eq!(e1.connect(&e2).types().as_slice(), &[SourceType::Int32]);

    let e1 = SourceTypeArray::single(SourceType::Float32);
    let e2 = SourceTypeArray::single(SourceType::Int32);
    assert_eq!(
        e1.connect(&e2).types().as_slice(),
        &[SourceType::Float32, SourceType::Int32]
    );
}
