//! A bytecode buffer for streams of UI-mutation instructions: a growable byte
//! container with capacity bookkeeping, a write lock, positional editing,
//! instruction encoders and buffer composition.

pub mod buffer;
pub mod compose;
pub mod encoder;
pub mod laws;

pub use buffer::{
    BufferError, BufferModel, librender_bytecode_buffer, librender_create_buffer,
    librender_free_buffer, librender_destroy_bytecode, librender_lock_buffer,
    librender_unlock_buffer, librender_is_buffer_locked, librender_append_byte,
    librender_append_bytes, librender_clear_buffer, librender_resize_buffer,
    librender_insert_byte, librender_remove_byte, librender_get_byte,
};
pub use compose::{
    librender_merge_bytecode, librender_clone_buffer, librender_copy_buffer,
    librender_append_bytecode,
};
pub use encoder::{
    librender_nop, librender_create_element, librender_set_attribute, librender_append_child,
    librender_append_sibling, librender_remove_child, librender_replace_child,
    librender_text_node, librender_set_text, librender_remove_attribute, librender_set_style,
    librender_add_event_listener,
};
