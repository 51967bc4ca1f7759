use evegfx::strfmt::{Argument, Message};

#[test]
fn test_instantiate_directly_no_args() {
    let _got: Message = Message::new(b"hi", &[]);
}

#[test]
fn test_instantiate_directly_with_arg() {
    let _got: Message = Message::new(b"%d", &[Argument::Int(3)]);
}

#[test]
fn message_needs_format_only_with_args() {
    let m: Message = Message::new_literal(b"hi");
    assert!(!m.needs_format());
    let m: Message = Message::new(b"%d", &[Argument::Int(3)]);
    assert!(m.needs_format());
}
