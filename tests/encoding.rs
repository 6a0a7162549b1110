use librender::{
    BufferError, librender_add_event_listener, librender_append_child, librender_append_sibling,
    librender_create_buffer, librender_create_element, librender_lock_buffer, librender_nop,
    librender_remove_attribute, librender_remove_child, librender_replace_child,
    librender_set_attribute, librender_set_style, librender_set_text, librender_text_node,
};

#[test]
fn create_element_then_set_attribute() {
    let mut buf = librender_create_buffer(4).unwrap();
    librender_create_element(&mut buf, b"div").unwrap();
    assert_eq!(buf.as_slice(), &[1, 3, b'd', b'i', b'v']);
    assert!(buf.capacity() >= 8);
    librender_set_attribute(&mut buf, b"id", b"x").unwrap();
    assert_eq!(&buf.as_slice()[5..], &[2, 2, b'i', b'd', 1, b'x']);
    assert_eq!(buf.len(), 11);
    assert_eq!(buf.capacity(), 16);
}

#[test]
fn opcodes_without_fields() {
    let mut buf = librender_create_buffer(1).unwrap();
    librender_nop(&mut buf).unwrap();
    librender_append_child(&mut buf).unwrap();
    librender_remove_child(&mut buf).unwrap();
    librender_replace_child(&mut buf).unwrap();
    librender_append_sibling(&mut buf).unwrap();
    assert_eq!(buf.as_slice(), &[0, 3, 4, 5, 11]);
}

#[test]
fn opcodes_with_one_field() {
    let mut buf = librender_create_buffer(0).unwrap();
    librender_text_node(&mut buf, b"hi").unwrap();
    librender_set_text(&mut buf, b"yo").unwrap();
    librender_remove_attribute(&mut buf, b"id").unwrap();
    librender_add_event_listener(&mut buf, b"click").unwrap();
    let expected: Vec<u8> = vec![
        6, 2, b'h', b'i', 7, 2, b'y', b'o', 8, 2, b'i', b'd', 10, 5, b'c', b'l', b'i', b'c', b'k',
    ];
    assert_eq!(buf.as_slice(), expected.as_slice());
}

#[test]
fn style_has_two_fields() {
    let mut buf = librender_create_buffer(0).unwrap();
    librender_set_style(&mut buf, b"color", b"red").unwrap();
    assert_eq!(
        buf.as_slice(),
        &[9, 5, b'c', b'o', b'l', b'o', b'r', 3, b'r', b'e', b'd']
    );
}

#[test]
fn successful_encoder_adds_opcode_and_prefixed_fields() {
    let mut buf = librender_create_buffer(0).unwrap();
    librender_set_attribute(&mut buf, b"name", b"value").unwrap();
    assert_eq!(buf.len(), 1 + (1 + 4) + (1 + 5));
    librender_text_node(&mut buf, b"abc").unwrap();
    assert_eq!(buf.len(), 12 + 1 + (1 + 3));
    librender_append_child(&mut buf).unwrap();
    assert_eq!(buf.len(), 17 + 1);
}

#[test]
fn empty_field_writes_nothing() {
    let mut buf = librender_create_buffer(0).unwrap();
    librender_nop(&mut buf).unwrap();
    let invalid = Err(BufferError::InvalidArgument);
    assert_eq!(librender_create_element(&mut buf, b""), invalid);
    assert_eq!(librender_set_attribute(&mut buf, b"id", b""), invalid);
    assert_eq!(librender_set_attribute(&mut buf, b"", b"x"), invalid);
    assert_eq!(librender_text_node(&mut buf, b""), invalid);
    assert_eq!(librender_set_text(&mut buf, b""), invalid);
    assert_eq!(librender_remove_attribute(&mut buf, b""), invalid);
    assert_eq!(librender_set_style(&mut buf, b"color", b""), invalid);
    assert_eq!(librender_add_event_listener(&mut buf, b""), invalid);
    assert_eq!(buf.as_slice(), &[0]);
}

#[test]
fn overlong_field_is_rejected() {
    let mut buf = librender_create_buffer(0).unwrap();
    let long = vec![b'a'; 256];
    let longest = vec![b'a'; 255];
    assert_eq!(
        librender_create_element(&mut buf, &long),
        Err(BufferError::InvalidArgument)
    );
    assert_eq!(buf.len(), 0);
    librender_create_element(&mut buf, &longest).unwrap();
    assert_eq!(buf.len(), 257);
    assert_eq!(buf.as_slice()[1], 255);
}

#[test]
fn locked_encoders_write_nothing() {
    let mut buf = librender_create_buffer(0).unwrap();
    librender_lock_buffer(&mut buf);
    let locked = Err(BufferError::LockedBuffer);
    assert_eq!(librender_nop(&mut buf), locked);
    assert_eq!(librender_create_element(&mut buf, b"div"), locked);
    assert_eq!(librender_create_element(&mut buf, b""), locked);
    assert_eq!(librender_set_attribute(&mut buf, b"id", b"x"), locked);
    assert_eq!(librender_append_child(&mut buf), locked);
    assert_eq!(librender_append_sibling(&mut buf), locked);
    assert_eq!(librender_remove_child(&mut buf), locked);
    assert_eq!(librender_replace_child(&mut buf), locked);
    assert_eq!(librender_text_node(&mut buf, b"t"), locked);
    assert_eq!(librender_set_text(&mut buf, b"t"), locked);
    assert_eq!(librender_remove_attribute(&mut buf, b"id"), locked);
    assert_eq!(librender_set_style(&mut buf, b"a", b"b"), locked);
    assert_eq!(librender_add_event_listener(&mut buf, b"click"), locked);
    assert_eq!(buf.len(), 0);
}
