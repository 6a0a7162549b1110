use librender::{
    BufferError, librender_append_byte, librender_append_bytes, librender_clear_buffer,
    librender_create_buffer, librender_destroy_bytecode, librender_free_buffer,
    librender_get_byte, librender_insert_byte, librender_is_buffer_locked, librender_lock_buffer,
    librender_remove_byte, librender_resize_buffer, librender_unlock_buffer,
};

#[test]
fn zero_capacity_takes_default() {
    let buf = librender_create_buffer(0).unwrap();
    assert_eq!(buf.capacity(), 1024);
    assert_eq!(buf.len(), 0);
    assert!(!librender_is_buffer_locked(&buf));
    librender_free_buffer(buf);
}

#[test]
fn requested_capacity_is_kept() {
    let buf = librender_create_buffer(7).unwrap();
    assert_eq!(buf.capacity(), 7);
    librender_destroy_bytecode(buf);
}

#[test]
fn single_appends_grow_and_keep_order() {
    let mut buf = librender_create_buffer(1).unwrap();
    for i in 0..100u32 {
        librender_append_byte(&mut buf, (i * 7 % 256) as u8).unwrap();
    }
    assert_eq!(buf.len(), 100);
    assert!(buf.capacity() >= 100);
    assert_eq!(buf.capacity(), 128);
    for i in 0..100usize {
        assert_eq!(librender_get_byte(&buf, i), Ok((i * 7 % 256) as u8));
    }
}

#[test]
fn append_doubles_only_when_full() {
    let mut buf = librender_create_buffer(2).unwrap();
    librender_append_byte(&mut buf, 1).unwrap();
    librender_append_byte(&mut buf, 2).unwrap();
    assert_eq!(buf.capacity(), 2);
    librender_append_byte(&mut buf, 3).unwrap();
    assert_eq!(buf.capacity(), 4);
    assert_eq!(buf.as_slice(), &[1, 2, 3]);
}

#[test]
fn append_bytes_in_order() {
    let mut buf = librender_create_buffer(3).unwrap();
    librender_append_bytes(&mut buf, &[9, 8, 7, 6, 5]).unwrap();
    assert_eq!(buf.as_slice(), &[9, 8, 7, 6, 5]);
    assert_eq!(buf.capacity(), 6);
    librender_append_bytes(&mut buf, &[]).unwrap();
    assert_eq!(buf.len(), 5);
}

#[test]
fn lock_then_unlock_append() {
    let mut buf = librender_create_buffer(4).unwrap();
    librender_append_byte(&mut buf, 0x10).unwrap();
    librender_lock_buffer(&mut buf);
    assert!(librender_is_buffer_locked(&buf));
    assert_eq!(librender_append_byte(&mut buf, 0xFF), Err(BufferError::LockedBuffer));
    assert_eq!(buf.len(), 1);
    assert_eq!(buf.as_slice(), &[0x10]);
    librender_unlock_buffer(&mut buf);
    assert!(!librender_is_buffer_locked(&buf));
    librender_append_byte(&mut buf, 0xFF).unwrap();
    assert_eq!(buf.len(), 2);
    assert_eq!(librender_get_byte(&buf, 1), Ok(0xFF));
}

#[test]
fn locked_buffer_refuses_every_mutation() {
    let mut buf = librender_create_buffer(2).unwrap();
    librender_append_bytes(&mut buf, &[1, 2]).unwrap();
    librender_lock_buffer(&mut buf);
    let locked = Err(BufferError::LockedBuffer);
    assert_eq!(librender_append_byte(&mut buf, 3), locked);
    assert_eq!(librender_append_bytes(&mut buf, &[3, 4]), locked);
    assert_eq!(librender_insert_byte(&mut buf, 0, 3), locked);
    assert_eq!(librender_remove_byte(&mut buf, 0), locked);
    assert_eq!(librender_clear_buffer(&mut buf), locked);
    assert_eq!(librender_resize_buffer(&mut buf, 100), locked);
    assert_eq!(buf.len(), 2);
    assert_eq!(buf.capacity(), 2);
    assert_eq!(buf.as_slice(), &[1, 2]);
    assert_eq!(librender_get_byte(&buf, 1), Ok(2));
    assert!(librender_is_buffer_locked(&buf));
}

#[test]
fn clear_keeps_capacity() {
    let mut buf = librender_create_buffer(2).unwrap();
    librender_append_bytes(&mut buf, &[1, 2, 3]).unwrap();
    assert_eq!(buf.capacity(), 4);
    librender_clear_buffer(&mut buf).unwrap();
    assert_eq!(buf.len(), 0);
    assert_eq!(buf.capacity(), 4);
}

#[test]
fn resize_only_grows() {
    let mut buf = librender_create_buffer(8).unwrap();
    librender_append_bytes(&mut buf, &[1, 2, 3]).unwrap();
    librender_resize_buffer(&mut buf, 4).unwrap();
    assert_eq!(buf.capacity(), 8);
    librender_resize_buffer(&mut buf, 8).unwrap();
    assert_eq!(buf.capacity(), 8);
    librender_resize_buffer(&mut buf, 20).unwrap();
    assert_eq!(buf.capacity(), 20);
    assert_eq!(buf.as_slice(), &[1, 2, 3]);
}

#[test]
fn insert_shifts_right() {
    let mut buf = librender_create_buffer(3).unwrap();
    librender_append_bytes(&mut buf, &[1, 2, 3]).unwrap();
    librender_insert_byte(&mut buf, 1, 9).unwrap();
    assert_eq!(buf.as_slice(), &[1, 9, 2, 3]);
    assert_eq!(buf.capacity(), 6);
    librender_insert_byte(&mut buf, 4, 7).unwrap();
    assert_eq!(buf.as_slice(), &[1, 9, 2, 3, 7]);
    librender_insert_byte(&mut buf, 0, 5).unwrap();
    assert_eq!(buf.as_slice(), &[5, 1, 9, 2, 3, 7]);
}

#[test]
fn insert_past_end_is_out_of_range() {
    let mut buf = librender_create_buffer(4).unwrap();
    librender_append_bytes(&mut buf, &[1, 2]).unwrap();
    assert_eq!(librender_insert_byte(&mut buf, 3, 9), Err(BufferError::IndexOutOfRange));
    assert_eq!(buf.as_slice(), &[1, 2]);
}

#[test]
fn remove_shifts_left() {
    let mut buf = librender_create_buffer(4).unwrap();
    librender_append_bytes(&mut buf, &[1, 2, 3, 4]).unwrap();
    librender_remove_byte(&mut buf, 1).unwrap();
    assert_eq!(buf.as_slice(), &[1, 3, 4]);
    assert_eq!(buf.capacity(), 4);
    assert_eq!(librender_remove_byte(&mut buf, 3), Err(BufferError::IndexOutOfRange));
    assert_eq!(buf.as_slice(), &[1, 3, 4]);
}

#[test]
fn insert_then_remove_restores() {
    let original = [4u8, 5, 6, 7];
    for i in 0..=original.len() {
        let mut buf = librender_create_buffer(4).unwrap();
        librender_append_bytes(&mut buf, &original).unwrap();
        librender_insert_byte(&mut buf, i, 0xAA).unwrap();
        assert_eq!(buf.len(), 5);
        librender_remove_byte(&mut buf, i).unwrap();
        assert_eq!(buf.as_slice(), &original);
        assert_eq!(buf.len(), original.len());
    }
}

#[test]
fn get_byte_out_of_range() {
    let mut buf = librender_create_buffer(4).unwrap();
    assert_eq!(librender_get_byte(&buf, 0), Err(BufferError::IndexOutOfRange));
    librender_append_byte(&mut buf, 3).unwrap();
    assert_eq!(librender_get_byte(&buf, 0), Ok(3));
    assert_eq!(librender_get_byte(&buf, 1), Err(BufferError::IndexOutOfRange));
}

#[test]
fn insert_with_room_keeps_capacity() {
    let mut buf = librender_create_buffer(8).unwrap();
    librender_append_bytes(&mut buf, &[1, 2, 3]).unwrap();
    assert_eq!(librender_insert_byte(&mut buf, 2, 9), Ok(()));
    assert_eq!(buf.as_slice(), &[1, 2, 9, 3]);
    assert_eq!(buf.capacity(), 8);
    assert_eq!(librender_remove_byte(&mut buf, 2), Ok(()));
    assert_eq!(buf.as_slice(), &[1, 2, 3]);
}
