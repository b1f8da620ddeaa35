use dora::masm::MacroAssembler;

#[test]
fn test_backward() {
    let mut masm = MacroAssembler::new();
    let lbl = masm.create_label();
    masm.bind_label(lbl);
    masm.emit_label(lbl);

    assert_eq!(vec![0xfc, 0xff, 0xff, 0xff], masm.data());
}

#[test]
fn test_forward_with_gap() {
    let mut masm = MacroAssembler::new();
    let lbl = masm.create_label();
    masm.emit_label(lbl);
    masm.emit_u8(0x11);
    masm.bind_label(lbl);

    assert_eq!(vec![1, 0, 0, 0, 0x11], masm.data());
}

#[test]
fn test_forward() {
    let mut masm = MacroAssembler::new();
    let lbl = masm.create_label();
    masm.emit_label(lbl);
    masm.bind_label(lbl);

    assert_eq!(vec![0, 0, 0, 0], masm.data());
}

#[test]
fn test_backward_with_gap() {
    let mut masm = MacroAssembler::new();
    let lbl = masm.create_label();
    masm.bind_label(lbl);
    masm.emit_u8(0x33);
    masm.emit_label(lbl);

    assert_eq!(vec![0x33, 0xfb, 0xff, 0xff, 0xff], masm.data());
}

#[test]
#[should_panic]
fn test_label_undefined() {
    let mut masm = MacroAssembler::new();
    let lbl = masm.create_label();

    masm.emit_label(lbl);
    masm.finalize().unwrap();
}
