//! Drive an embedded interpreter of a dynamic language from Rust.
//!
//! A session (`PyState`) reaches the interpreter through the entry points of
//! `PythonCAPI`. Objects of the interpreter are held as owned references
//! (`PyObject`), values cross the boundary through `ToPyType` and
//! `FromPyType`, the interpreter's iterators are read through `PyIterator`,
//! and a pending exception of the interpreter comes back as a `PyError`.

mod base;
mod ffi;
mod primtypes;

pub use base::{
    call_outcome, checked_outcome, exception_message, exception_outcome, exception_text,
    item_outcome, read_error, read_item, show_text, shown_text, text_or_empty, well_reported, write_error, FromPyType,
    PyError, PyIterator, PyObject, PyState, ToPyType,
};
pub use ffi::{contains_nul, has_nul, PyObjectRaw, PythonCAPI};
pub use primtypes::{
    checked_long, checked_object, checked_string, handles_of, lent_item, list_length, narrow_i32,
    narrow_isize, narrow_u32, narrow_u64, narrow_u8, narrow_usize, new_sequence, push_converted,
    tuple_length, NoArgs,
};
