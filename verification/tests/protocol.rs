use wl_dispatch::{Argument, RawEvent};

fn msg(args: Vec<Argument>) -> RawEvent {
    RawEvent { sender_id: 1, opcode: 0, args }
}

#[test]
fn new_id_of_message_without_arguments_is_none() {
    assert_eq!(msg(vec![]).new_id(), None);
}

#[test]
fn new_id_is_none_without_new_id_argument() {
    let m = msg(vec![
        Argument::Int(-4),
        Argument::Uint(4),
        Argument::Fixed(256),
        Argument::Str(Some(b"name".to_vec())),
        Argument::Str(None),
        Argument::Object(12),
        Argument::Array(vec![1, 2, 3]),
        Argument::Fd(5),
    ]);
    assert_eq!(m.new_id(), None);
}

#[test]
fn new_id_is_the_first_new_id_argument() {
    assert_eq!(msg(vec![Argument::NewId(5)]).new_id(), Some(5));
    assert_eq!(msg(vec![Argument::Object(9), Argument::NewId(5)]).new_id(), Some(5));
    assert_eq!(msg(vec![Argument::NewId(7), Argument::NewId(5)]).new_id(), Some(7));
    assert_eq!(
        msg(vec![Argument::Uint(3), Argument::NewId(0), Argument::NewId(5)]).new_id(),
        Some(0)
    );
    assert_eq!(msg(vec![Argument::NewId(u32::MAX)]).new_id(), Some(u32::MAX));
}

#[test]
fn object_argument_is_no_new_id() {
    assert_eq!(msg(vec![Argument::Object(5), Argument::Uint(5)]).new_id(), None);
}
