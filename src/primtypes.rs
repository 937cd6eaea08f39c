use vstd::prelude::*;

use crate::base::{read_error, write_error, FromPyType, PyError, PyObject, PyState, ToPyType};
use crate::ffi::{contains_nul, has_nul, PyObjectRaw, PythonCAPI};

verus! {

/// Takes over `raw`, a new reference to an object that the interpreter just
/// made from a value of this program, where it is not null and `check`, the
/// interpreter's test of its type, came out positive. Otherwise the
/// reference, where there is one, is released.
pub fn checked_object<'a, C: PythonCAPI>(state: &'a PyState<C>, raw: PyObjectRaw, check: i64) -> (r:
    Result<PyObject<'a, C>, PyError>)
    ensures
        r is Ok <==> !raw.spec_is_null() && check > 0,
        r matches Ok(o) ==> o.spec_state() == state && o.spec_raw() == raw,
        r matches Err(e) ==> e is ToTypeConversionError,
{
    if !raw.is_null() && check > 0 {
        Ok(PyObject::new(state, raw))
    } else {
        if !raw.is_null() {
            state.api.Py_DecRef(raw);
        }
        Err(PyError::ToTypeConversionError)
    }
}

/// A new integer object that holds `value`.
fn int_object<'a, C: PythonCAPI>(state: &'a PyState<C>, value: i64) -> (r: Result<
    PyObject<'a, C>,
    PyError,
>)
    ensures
        r matches Ok(o) ==> o.spec_state() == state,
        r matches Err(e) ==> e is ToTypeConversionError,
{
    let raw = state.api.PyInt_FromLong(value);
    let check = if raw.is_null() {
        0
    } else {
        state.api.PyInt_Check(raw)
    };
    checked_object(state, raw, check)
}

/// Decides what reading an integer comes to, given `check`, the
/// interpreter's test of whether the object is an integer, and `value`, what
/// it read where the test passed.
pub fn checked_long(check: i64, value: i64) -> (r: Result<i64, PyError>)
    ensures
        check > 0 ==> r == Ok::<i64, PyError>(value),
        check <= 0 ==> r == Err::<i64, PyError>(PyError::FromTypeConversionError),
{
    if check > 0 {
        Ok(value)
    } else {
        Err(PyError::FromTypeConversionError)
    }
}

/// The value of an integer object, whose reference is given back (see
/// `checked_long`). The value is read only where the type test passed.
fn long_value<'a, C: PythonCAPI>(state: &'a PyState<C>, py_object: PyObject<'a, C>) -> (r: Result<
    i64,
    PyError,
>)
    ensures
        r matches Err(e) ==> e is FromTypeConversionError,
{
    let raw = py_object.raw();
    let check = state.api.PyInt_Check(raw);
    let value = if check > 0 {
        state.api.PyInt_AsLong(raw)
    } else {
        0
    };
    py_object.release();
    checked_long(check, value)
}

/// Gives back every reference in `items`.
fn release_all<'a, C: PythonCAPI>(items: Vec<PyObject<'a, C>>) {
    let n = items.len();
    for i in 0..n
        invariant
            n == items.len(),
    {
        items[i].state().api.Py_DecRef(items[i].raw());
    }
}

/// The two kinds of sequence that values of this program go into.
enum Sequence {
    Tuple,
    List,
}

/// One step of converting a sequence item by item: a converted item is put
/// at the end of `v`; a failed one leaves `v` as it was and hands its error
/// on unchanged, which ends the conversion.
pub fn push_converted<T>(v: &mut Vec<T>, item: Result<T, PyError>) -> (r: Result<(), PyError>)
    ensures
        item is Ok ==> (r is Ok && final(v)@ == old(v)@.push(item->Ok_0)),
        item is Err ==> (r == Err::<(), PyError>(item->Err_0) && final(v)@ == old(v)@),
{
    match item {
        Ok(x) => {
            v.push(x);
            Ok(())
        },
        Err(e) => Err(e),
    }
}

/// Takes over `raw`, a new tuple or list that the interpreter just made,
/// where it is not null; fails with `ToTypeConversionError` where it is.
pub fn new_sequence<'a, C: PythonCAPI>(state: &'a PyState<C>, raw: PyObjectRaw) -> (r: Result<
    PyObject<'a, C>,
    PyError,
>)
    ensures
        r is Ok <==> !raw.spec_is_null(),
        r matches Ok(o) ==> o.spec_state() == state && o.spec_raw() == raw,
        r matches Err(e) ==> e is ToTypeConversionError,
{
    if raw.is_null() {
        Err(PyError::ToTypeConversionError)
    } else {
        Ok(PyObject::new(state, raw))
    }
}

/// Takes a reference of its own to `raw`, an item that a tuple or list lent,
/// where it is not null; fails with `FromTypeConversionError` where it is.
pub fn lent_item<'a, C: PythonCAPI>(state: &'a PyState<C>, raw: PyObjectRaw) -> (r: Result<
    PyObject<'a, C>,
    PyError,
>)
    ensures
        r is Ok <==> !raw.spec_is_null(),
        r matches Ok(o) ==> o.spec_state() == state && o.spec_raw() == raw,
        r matches Err(e) ==> e is FromTypeConversionError,
{
    if raw.is_null() {
        Err(PyError::FromTypeConversionError)
    } else {
        state.api.Py_IncRef(raw);
        Ok(PyObject::new(state, raw))
    }
}

/// The handles of `items`, in their order.
pub fn handles_of<'a, C: PythonCAPI>(items: &Vec<PyObject<'a, C>>) -> (r: Vec<PyObjectRaw>)
    ensures
        r@.len() == items@.len(),
        forall|i: int| 0 <= i < r@.len() ==> r@[i] == items@[i].spec_raw(),
{
    let mut r: Vec<PyObjectRaw> = Vec::new();
    for i in 0..items.len()
        invariant
            r@.len() == i,
            forall|j: int| 0 <= j < i ==> r@[j] == items@[j].spec_raw(),
    {
        r.push(items[i].raw());
    }
    r
}

/// A new tuple or list whose items are `items`, in their order: the
/// sequence is made with `items.len()` slots and the handle of `items[i]`
/// goes to slot `i`. The references in `items` pass to the sequence, or are
/// released where it cannot be made.
fn sequence_of<'a, C: PythonCAPI>(state: &'a PyState<C>, items: Vec<PyObject<'a, C>>, kind: Sequence) -> (r:
    Result<PyObject<'a, C>, PyError>)
    ensures
        r matches Ok(o) ==> o.spec_state() == state,
        r matches Err(e) ==> e is ToTypeConversionError,
{
    let handles = handles_of(&items);
    let n = handles.len();
    let raw = match kind {
        Sequence::Tuple => state.api.PyTuple_New(n),
        Sequence::List => state.api.PyList_New(n),
    };
    let sequence = match new_sequence(state, raw) {
        Ok(o) => o,
        Err(e) => {
            release_all(items);
            return Err(e);
        },
    };
    for i in 0..n
        invariant
            n == handles.len(),
    {
        match kind {
            Sequence::Tuple => state.api.PyTuple_SetItem(raw, i, handles[i]),
            Sequence::List => state.api.PyList_SetItem(raw, i, handles[i]),
        }
    }
    Ok(sequence)
}

/// Decides whether an object is a tuple of `n` items, given `check`, the
/// interpreter's test of whether it is a tuple, and `size`, the number of
/// items it reported where that test passed.
pub fn tuple_length(check: i64, size: i64, n: usize) -> (r: Result<(), PyError>)
    ensures
        r is Ok <==> check > 0 && size == n,
        r matches Err(e) ==> e is FromTypeConversionError,
{
    if check > 0 && size as i128 == n as i128 {
        Ok(())
    } else {
        Err(PyError::FromTypeConversionError)
    }
}

/// Decides how many items a list object has, given `check`, the
/// interpreter's test of whether it is a list, and `size`, the number of
/// items it reported where that test passed.
pub fn list_length(check: i64, size: i64) -> (r: Result<usize, PyError>)
    ensures
        check > 0 && 0 <= size <= usize::MAX ==> r == Ok::<usize, PyError>(size as usize),
        !(check > 0 && 0 <= size <= usize::MAX) ==> r == Err::<usize, PyError>(
            PyError::FromTypeConversionError,
        ),
{
    if check > 0 && size >= 0 && size as u128 <= usize::MAX as u128 {
        Ok(size as usize)
    } else {
        Err(PyError::FromTypeConversionError)
    }
}

/// New references to the `n` items of a tuple object, in their order. Fails
/// with `FromTypeConversionError` where the object is not a tuple of `n`
/// items. The reference to the tuple itself is kept.
fn tuple_items<'a, C: PythonCAPI>(state: &'a PyState<C>, py_object: &PyObject<'a, C>, n: usize) -> (r:
    Result<Vec<PyObject<'a, C>>, PyError>)
    ensures
        r matches Ok(items) ==> items.len() == n,
        r matches Err(e) ==> e is FromTypeConversionError,
{
    let raw = py_object.raw();
    let check = state.api.PyTuple_Check(raw);
    let size = if check > 0 {
        state.api.PyTuple_Size(raw)
    } else {
        -1
    };
    match tuple_length(check, size, n) {
        Ok(()) => {},
        Err(e) => return Err(e),
    }
    let mut items: Vec<PyObject<'a, C>> = Vec::new();
    for i in 0..n
        invariant
            items.len() == i,
    {
        let item = state.api.PyTuple_GetItem(raw, i);
        match push_converted(&mut items, lent_item(state, item)) {
            Ok(()) => {},
            Err(e) => {
                release_all(items);
                return Err(e);
            },
        }
    }
    Ok(items)
}

impl<C: PythonCAPI> ToPyType<C> for i64 {
    fn to_py_object<'a>(&self, state: &'a PyState<C>) -> (r: Result<PyObject<'a, C>, PyError>)
        ensures
            r matches Ok(o) ==> o.spec_state() == state,
            r matches Err(e) ==> e is ToTypeConversionError,
    {
        int_object(state, *self as i64)
    }
}

impl<C: PythonCAPI> FromPyType<C> for i64 {
    /// Fails where the object is not an integer.
    fn from_py_object<'a>(state: &'a PyState<C>, py_object: PyObject<'a, C>) -> (r: Result<
        i64,
        PyError,
    >)
        ensures
            r matches Err(e) ==> e is FromTypeConversionError,
    {
        long_value(state, py_object)
    }
}

/// `v` as a `i32` where it lies in the range of that type;
/// `FromTypeConversionError` where it does not.
pub fn narrow_i32(v: i64) -> (r: Result<i32, PyError>)
    ensures
        i32::MIN <= v <= i32::MAX ==> r == Ok::<i32, PyError>(v as i32),
        !(i32::MIN <= v <= i32::MAX) ==> r == Err::<i32, PyError>(
            PyError::FromTypeConversionError,
        ),
{
    if (v as i128) < (i32::MIN as i128) || (v as i128) > (i32::MAX as i128) {
        Err(PyError::FromTypeConversionError)
    } else {
        Ok(v as i32)
    }
}

impl<C: PythonCAPI> ToPyType<C> for i32 {
    fn to_py_object<'a>(&self, state: &'a PyState<C>) -> (r: Result<PyObject<'a, C>, PyError>)
        ensures
            r matches Ok(o) ==> o.spec_state() == state,
            r matches Err(e) ==> e is ToTypeConversionError,
    {
        int_object(state, *self as i64)
    }
}

impl<C: PythonCAPI> FromPyType<C> for i32 {
    /// Fails where the object is not an integer or its value lies outside
    /// the range of the type.
    fn from_py_object<'a>(state: &'a PyState<C>, py_object: PyObject<'a, C>) -> (r: Result<
        i32,
        PyError,
    >)
        ensures
            r matches Err(e) ==> e is FromTypeConversionError,
    {
        match long_value(state, py_object) {
            Ok(v) => narrow_i32(v),
            Err(e) => Err(e),
        }
    }
}

/// `v` as a `isize` where it lies in the range of that type;
/// `FromTypeConversionError` where it does not.
pub fn narrow_isize(v: i64) -> (r: Result<isize, PyError>)
    ensures
        isize::MIN <= v <= isize::MAX ==> r == Ok::<isize, PyError>(v as isize),
        !(isize::MIN <= v <= isize::MAX) ==> r == Err::<isize, PyError>(
            PyError::FromTypeConversionError,
        ),
{
    if (v as i128) < (isize::MIN as i128) || (v as i128) > (isize::MAX as i128) {
        Err(PyError::FromTypeConversionError)
    } else {
        Ok(v as isize)
    }
}

impl<C: PythonCAPI> ToPyType<C> for isize {
    fn to_py_object<'a>(&self, state: &'a PyState<C>) -> (r: Result<PyObject<'a, C>, PyError>)
        ensures
            r matches Ok(o) ==> o.spec_state() == state,
            r matches Err(e) ==> e is ToTypeConversionError,
    {
        int_object(state, *self as i64)
    }
}

impl<C: PythonCAPI> FromPyType<C> for isize {
    /// Fails where the object is not an integer or its value lies outside
    /// the range of the type.
    fn from_py_object<'a>(state: &'a PyState<C>, py_object: PyObject<'a, C>) -> (r: Result<
        isize,
        PyError,
    >)
        ensures
            r matches Err(e) ==> e is FromTypeConversionError,
    {
        match long_value(state, py_object) {
            Ok(v) => narrow_isize(v),
            Err(e) => Err(e),
        }
    }
}

/// `v` as a `usize` where it lies in the range of that type;
/// `FromTypeConversionError` where it does not.
pub fn narrow_usize(v: i64) -> (r: Result<usize, PyError>)
    ensures
        usize::MIN <= v <= usize::MAX ==> r == Ok::<usize, PyError>(v as usize),
        !(usize::MIN <= v <= usize::MAX) ==> r == Err::<usize, PyError>(
            PyError::FromTypeConversionError,
        ),
{
    if (v as i128) < (0 as i128) || (v as i128) > (usize::MAX as i128) {
        Err(PyError::FromTypeConversionError)
    } else {
        Ok(v as usize)
    }
}

impl<C: PythonCAPI> ToPyType<C> for usize {
    fn to_py_object<'a>(&self, state: &'a PyState<C>) -> (r: Result<PyObject<'a, C>, PyError>)
        ensures
            *self > i64::MAX as usize ==> r matches Err(PyError::ToTypeConversionError),
            r matches Ok(o) ==> o.spec_state() == state,
            r matches Err(e) ==> e is ToTypeConversionError,
    {
        if *self > i64::MAX as usize {
            return Err(PyError::ToTypeConversionError);
        }
        int_object(state, *self as i64)
    }
}

impl<C: PythonCAPI> FromPyType<C> for usize {
    /// Fails where the object is not an integer or its value lies outside
    /// the range of the type.
    fn from_py_object<'a>(state: &'a PyState<C>, py_object: PyObject<'a, C>) -> (r: Result<
        usize,
        PyError,
    >)
        ensures
            r matches Err(e) ==> e is FromTypeConversionError,
    {
        match long_value(state, py_object) {
            Ok(v) => narrow_usize(v),
            Err(e) => Err(e),
        }
    }
}

/// `v` as a `u8` where it lies in the range of that type;
/// `FromTypeConversionError` where it does not.
pub fn narrow_u8(v: i64) -> (r: Result<u8, PyError>)
    ensures
        u8::MIN <= v <= u8::MAX ==> r == Ok::<u8, PyError>(v as u8),
        !(u8::MIN <= v <= u8::MAX) ==> r == Err::<u8, PyError>(
            PyError::FromTypeConversionError,
        ),
{
    if (v as i128) < (0 as i128) || (v as i128) > (u8::MAX as i128) {
        Err(PyError::FromTypeConversionError)
    } else {
        Ok(v as u8)
    }
}

impl<C: PythonCAPI> ToPyType<C> for u8 {
    fn to_py_object<'a>(&self, state: &'a PyState<C>) -> (r: Result<PyObject<'a, C>, PyError>)
        ensures
            r matches Ok(o) ==> o.spec_state() == state,
            r matches Err(e) ==> e is ToTypeConversionError,
    {
        int_object(state, *self as i64)
    }
}

impl<C: PythonCAPI> FromPyType<C> for u8 {
    /// Fails where the object is not an integer or its value lies outside
    /// the range of the type.
    fn from_py_object<'a>(state: &'a PyState<C>, py_object: PyObject<'a, C>) -> (r: Result<
        u8,
        PyError,
    >)
        ensures
            r matches Err(e) ==> e is FromTypeConversionError,
    {
        match long_value(state, py_object) {
            Ok(v) => narrow_u8(v),
            Err(e) => Err(e),
        }
    }
}

/// `v` as a `u32` where it lies in the range of that type;
/// `FromTypeConversionError` where it does not.
pub fn narrow_u32(v: i64) -> (r: Result<u32, PyError>)
    ensures
        u32::MIN <= v <= u32::MAX ==> r == Ok::<u32, PyError>(v as u32),
        !(u32::MIN <= v <= u32::MAX) ==> r == Err::<u32, PyError>(
            PyError::FromTypeConversionError,
        ),
{
    if (v as i128) < (0 as i128) || (v as i128) > (u32::MAX as i128) {
        Err(PyError::FromTypeConversionError)
    } else {
        Ok(v as u32)
    }
}

impl<C: PythonCAPI> ToPyType<C> for u32 {
    fn to_py_object<'a>(&self, state: &'a PyState<C>) -> (r: Result<PyObject<'a, C>, PyError>)
        ensures
            r matches Ok(o) ==> o.spec_state() == state,
            r matches Err(e) ==> e is ToTypeConversionError,
    {
        int_object(state, *self as i64)
    }
}

impl<C: PythonCAPI> FromPyType<C> for u32 {
    /// Fails where the object is not an integer or its value lies outside
    /// the range of the type.
    fn from_py_object<'a>(state: &'a PyState<C>, py_object: PyObject<'a, C>) -> (r: Result<
        u32,
        PyError,
    >)
        ensures
            r matches Err(e) ==> e is FromTypeConversionError,
    {
        match long_value(state, py_object) {
            Ok(v) => narrow_u32(v),
            Err(e) => Err(e),
        }
    }
}

/// `v` as a `u64` where it lies in the range of that type;
/// `FromTypeConversionError` where it does not.
pub fn narrow_u64(v: i64) -> (r: Result<u64, PyError>)
    ensures
        u64::MIN <= v <= u64::MAX ==> r == Ok::<u64, PyError>(v as u64),
        !(u64::MIN <= v <= u64::MAX) ==> r == Err::<u64, PyError>(
            PyError::FromTypeConversionError,
        ),
{
    if (v as i128) < (0 as i128) || (v as i128) > (u64::MAX as i128) {
        Err(PyError::FromTypeConversionError)
    } else {
        Ok(v as u64)
    }
}

impl<C: PythonCAPI> ToPyType<C> for u64 {
    fn to_py_object<'a>(&self, state: &'a PyState<C>) -> (r: Result<PyObject<'a, C>, PyError>)
        ensures
            *self > i64::MAX as u64 ==> r matches Err(PyError::ToTypeConversionError),
            r matches Ok(o) ==> o.spec_state() == state,
            r matches Err(e) ==> e is ToTypeConversionError,
    {
        if *self > i64::MAX as u64 {
            return Err(PyError::ToTypeConversionError);
        }
        int_object(state, *self as i64)
    }
}

impl<C: PythonCAPI> FromPyType<C> for u64 {
    /// Fails where the object is not an integer or its value lies outside
    /// the range of the type.
    fn from_py_object<'a>(state: &'a PyState<C>, py_object: PyObject<'a, C>) -> (r: Result<
        u64,
        PyError,
    >)
        ensures
            r matches Err(e) ==> e is FromTypeConversionError,
    {
        match long_value(state, py_object) {
            Ok(v) => narrow_u64(v),
            Err(e) => Err(e),
        }
    }
}

impl<Api: PythonCAPI, A: ToPyType<Api>> ToPyType<Api> for (A,) {
    fn to_py_object<'a>(&self, state: &'a PyState<Api>) -> (r: Result<PyObject<'a, Api>, PyError>)
        ensures
            r matches Ok(o) ==> o.spec_state() == state,
    {
        let mut items: Vec<PyObject<'a, Api>> = Vec::new();
        match push_converted(&mut items, self.0.to_py_object(state)) {
            Ok(()) => {},
            Err(e) => {
                release_all(items);
                return Err(e);
            },
        }
        sequence_of(state, items, Sequence::Tuple)
    }
}

impl<Api: PythonCAPI, A: FromPyType<Api>> FromPyType<Api> for (A,) {
    /// Fails where the object is not a tuple of 1 item, or where an item
    /// does not convert.
    fn from_py_object<'a>(state: &'a PyState<Api>, py_object: PyObject<'a, Api>) -> (r: Result<
        (A,),
        PyError,
    >)
        ensures
            r matches Err(e) ==> read_error(e),
    {
        let items = tuple_items(state, &py_object, 1);
        py_object.release();
        let mut items = match items {
            Ok(items) => items,
            Err(e) => return Err(e),
        };
        let v0 = match A::from_py_object(state, items.remove(0)) {
            Ok(v) => v,
            Err(e) => {
                release_all(items);
                return Err(e);
            },
        };
        Ok((v0,))
    }
}

impl<Api: PythonCAPI, A: ToPyType<Api>, B: ToPyType<Api>> ToPyType<Api> for (A, B) {
    fn to_py_object<'a>(&self, state: &'a PyState<Api>) -> (r: Result<PyObject<'a, Api>, PyError>)
        ensures
            r matches Ok(o) ==> o.spec_state() == state,
    {
        let mut items: Vec<PyObject<'a, Api>> = Vec::new();
        match push_converted(&mut items, self.0.to_py_object(state)) {
            Ok(()) => {},
            Err(e) => {
                release_all(items);
                return Err(e);
            },
        }
        match push_converted(&mut items, self.1.to_py_object(state)) {
            Ok(()) => {},
            Err(e) => {
                release_all(items);
                return Err(e);
            },
        }
        sequence_of(state, items, Sequence::Tuple)
    }
}

impl<Api: PythonCAPI, A: FromPyType<Api>, B: FromPyType<Api>> FromPyType<Api> for (A, B) {
    /// Fails where the object is not a tuple of 2 items, or where an item
    /// does not convert.
    fn from_py_object<'a>(state: &'a PyState<Api>, py_object: PyObject<'a, Api>) -> (r: Result<
        (A, B),
        PyError,
    >)
        ensures
            r matches Err(e) ==> read_error(e),
    {
        let items = tuple_items(state, &py_object, 2);
        py_object.release();
        let mut items = match items {
            Ok(items) => items,
            Err(e) => return Err(e),
        };
        let v0 = match A::from_py_object(state, items.remove(0)) {
            Ok(v) => v,
            Err(e) => {
                release_all(items);
                return Err(e);
            },
        };
        let v1 = match B::from_py_object(state, items.remove(0)) {
            Ok(v) => v,
            Err(e) => {
                release_all(items);
                return Err(e);
            },
        };
        Ok((v0, v1))
    }
}

impl<Api: PythonCAPI, A: ToPyType<Api>, B: ToPyType<Api>, C: ToPyType<Api>> ToPyType<Api> for (A, B, C) {
    fn to_py_object<'a>(&self, state: &'a PyState<Api>) -> (r: Result<PyObject<'a, Api>, PyError>)
        ensures
            r matches Ok(o) ==> o.spec_state() == state,
    {
        let mut items: Vec<PyObject<'a, Api>> = Vec::new();
        match push_converted(&mut items, self.0.to_py_object(state)) {
            Ok(()) => {},
            Err(e) => {
                release_all(items);
                return Err(e);
            },
        }
        match push_converted(&mut items, self.1.to_py_object(state)) {
            Ok(()) => {},
            Err(e) => {
                release_all(items);
                return Err(e);
            },
        }
        match push_converted(&mut items, self.2.to_py_object(state)) {
            Ok(()) => {},
            Err(e) => {
                release_all(items);
                return Err(e);
            },
        }
        sequence_of(state, items, Sequence::Tuple)
    }
}

impl<Api: PythonCAPI, A: FromPyType<Api>, B: FromPyType<Api>, C: FromPyType<Api>> FromPyType<Api> for (A, B, C) {
    /// Fails where the object is not a tuple of 3 items, or where an item
    /// does not convert.
    fn from_py_object<'a>(state: &'a PyState<Api>, py_object: PyObject<'a, Api>) -> (r: Result<
        (A, B, C),
        PyError,
    >)
        ensures
            r matches Err(e) ==> read_error(e),
    {
        let items = tuple_items(state, &py_object, 3);
        py_object.release();
        let mut items = match items {
            Ok(items) => items,
            Err(e) => return Err(e),
        };
        let v0 = match A::from_py_object(state, items.remove(0)) {
            Ok(v) => v,
            Err(e) => {
                release_all(items);
                return Err(e);
            },
        };
        let v1 = match B::from_py_object(state, items.remove(0)) {
            Ok(v) => v,
            Err(e) => {
                release_all(items);
                return Err(e);
            },
        };
        let v2 = match C::from_py_object(state, items.remove(0)) {
            Ok(v) => v,
            Err(e) => {
                release_all(items);
                return Err(e);
            },
        };
        Ok((v0, v1, v2))
    }
}

impl<Api: PythonCAPI, A: ToPyType<Api>, B: ToPyType<Api>, C: ToPyType<Api>, D: ToPyType<Api>> ToPyType<Api> for (A, B, C, D) {
    fn to_py_object<'a>(&self, state: &'a PyState<Api>) -> (r: Result<PyObject<'a, Api>, PyError>)
        ensures
            r matches Ok(o) ==> o.spec_state() == state,
    {
        let mut items: Vec<PyObject<'a, Api>> = Vec::new();
        match push_converted(&mut items, self.0.to_py_object(state)) {
            Ok(()) => {},
            Err(e) => {
                release_all(items);
                return Err(e);
            },
        }
        match push_converted(&mut items, self.1.to_py_object(state)) {
            Ok(()) => {},
            Err(e) => {
                release_all(items);
                return Err(e);
            },
        }
        match push_converted(&mut items, self.2.to_py_object(state)) {
            Ok(()) => {},
            Err(e) => {
                release_all(items);
                return Err(e);
            },
        }
        match push_converted(&mut items, self.3.to_py_object(state)) {
            Ok(()) => {},
            Err(e) => {
                release_all(items);
                return Err(e);
            },
        }
        sequence_of(state, items, Sequence::Tuple)
    }
}

impl<Api: PythonCAPI, A: FromPyType<Api>, B: FromPyType<Api>, C: FromPyType<Api>, D: FromPyType<Api>> FromPyType<Api> for (A, B, C, D) {
    /// Fails where the object is not a tuple of 4 items, or where an item
    /// does not convert.
    fn from_py_object<'a>(state: &'a PyState<Api>, py_object: PyObject<'a, Api>) -> (r: Result<
        (A, B, C, D),
        PyError,
    >)
        ensures
            r matches Err(e) ==> read_error(e),
    {
        let items = tuple_items(state, &py_object, 4);
        py_object.release();
        let mut items = match items {
            Ok(items) => items,
            Err(e) => return Err(e),
        };
        let v0 = match A::from_py_object(state, items.remove(0)) {
            Ok(v) => v,
            Err(e) => {
                release_all(items);
                return Err(e);
            },
        };
        let v1 = match B::from_py_object(state, items.remove(0)) {
            Ok(v) => v,
            Err(e) => {
                release_all(items);
                return Err(e);
            },
        };
        let v2 = match C::from_py_object(state, items.remove(0)) {
            Ok(v) => v,
            Err(e) => {
                release_all(items);
                return Err(e);
            },
        };
        let v3 = match D::from_py_object(state, items.remove(0)) {
            Ok(v) => v,
            Err(e) => {
                release_all(items);
                return Err(e);
            },
        };
        Ok((v0, v1, v2, v3))
    }
}

impl<Api: PythonCAPI, A: ToPyType<Api>, B: ToPyType<Api>, C: ToPyType<Api>, D: ToPyType<Api>, E: ToPyType<Api>> ToPyType<Api> for (A, B, C, D, E) {
    fn to_py_object<'a>(&self, state: &'a PyState<Api>) -> (r: Result<PyObject<'a, Api>, PyError>)
        ensures
            r matches Ok(o) ==> o.spec_state() == state,
    {
        let mut items: Vec<PyObject<'a, Api>> = Vec::new();
        match push_converted(&mut items, self.0.to_py_object(state)) {
            Ok(()) => {},
            Err(e) => {
                release_all(items);
                return Err(e);
            },
        }
        match push_converted(&mut items, self.1.to_py_object(state)) {
            Ok(()) => {},
            Err(e) => {
                release_all(items);
                return Err(e);
            },
        }
        match push_converted(&mut items, self.2.to_py_object(state)) {
            Ok(()) => {},
            Err(e) => {
                release_all(items);
                return Err(e);
            },
        }
        match push_converted(&mut items, self.3.to_py_object(state)) {
            Ok(()) => {},
            Err(e) => {
                release_all(items);
                return Err(e);
            },
        }
        match push_converted(&mut items, self.4.to_py_object(state)) {
            Ok(()) => {},
            Err(e) => {
                release_all(items);
                return Err(e);
            },
        }
        sequence_of(state, items, Sequence::Tuple)
    }
}

impl<Api: PythonCAPI, A: FromPyType<Api>, B: FromPyType<Api>, C: FromPyType<Api>, D: FromPyType<Api>, E: FromPyType<Api>> FromPyType<Api> for (A, B, C, D, E) {
    /// Fails where the object is not a tuple of 5 items, or where an item
    /// does not convert.
    fn from_py_object<'a>(state: &'a PyState<Api>, py_object: PyObject<'a, Api>) -> (r: Result<
        (A, B, C, D, E),
        PyError,
    >)
        ensures
            r matches Err(e) ==> read_error(e),
    {
        let items = tuple_items(state, &py_object, 5);
        py_object.release();
        let mut items = match items {
            Ok(items) => items,
            Err(e) => return Err(e),
        };
        let v0 = match A::from_py_object(state, items.remove(0)) {
            Ok(v) => v,
            Err(e) => {
                release_all(items);
                return Err(e);
            },
        };
        let v1 = match B::from_py_object(state, items.remove(0)) {
            Ok(v) => v,
            Err(e) => {
                release_all(items);
                return Err(e);
            },
        };
        let v2 = match C::from_py_object(state, items.remove(0)) {
            Ok(v) => v,
            Err(e) => {
                release_all(items);
                return Err(e);
            },
        };
        let v3 = match D::from_py_object(state, items.remove(0)) {
            Ok(v) => v,
            Err(e) => {
                release_all(items);
                return Err(e);
            },
        };
        let v4 = match E::from_py_object(state, items.remove(0)) {
            Ok(v) => v,
            Err(e) => {
                release_all(items);
                return Err(e);
            },
        };
        Ok((v0, v1, v2, v3, v4))
    }
}

impl<Api: PythonCAPI, A: ToPyType<Api>, B: ToPyType<Api>, C: ToPyType<Api>, D: ToPyType<Api>, E: ToPyType<Api>, F: ToPyType<Api>> ToPyType<Api> for (A, B, C, D, E, F) {
    fn to_py_object<'a>(&self, state: &'a PyState<Api>) -> (r: Result<PyObject<'a, Api>, PyError>)
        ensures
            r matches Ok(o) ==> o.spec_state() == state,
    {
        let mut items: Vec<PyObject<'a, Api>> = Vec::new();
        match push_converted(&mut items, self.0.to_py_object(state)) {
            Ok(()) => {},
            Err(e) => {
                release_all(items);
                return Err(e);
            },
        }
        match push_converted(&mut items, self.1.to_py_object(state)) {
            Ok(()) => {},
            Err(e) => {
                release_all(items);
                return Err(e);
            },
        }
        match push_converted(&mut items, self.2.to_py_object(state)) {
            Ok(()) => {},
            Err(e) => {
                release_all(items);
                return Err(e);
            },
        }
        match push_converted(&mut items, self.3.to_py_object(state)) {
            Ok(()) => {},
            Err(e) => {
                release_all(items);
                return Err(e);
            },
        }
        match push_converted(&mut items, self.4.to_py_object(state)) {
            Ok(()) => {},
            Err(e) => {
                release_all(items);
                return Err(e);
            },
        }
        match push_converted(&mut items, self.5.to_py_object(state)) {
            Ok(()) => {},
            Err(e) => {
                release_all(items);
                return Err(e);
            },
        }
        sequence_of(state, items, Sequence::Tuple)
    }
}

impl<Api: PythonCAPI, A: FromPyType<Api>, B: FromPyType<Api>, C: FromPyType<Api>, D: FromPyType<Api>, E: FromPyType<Api>, F: FromPyType<Api>> FromPyType<Api> for (A, B, C, D, E, F) {
    /// Fails where the object is not a tuple of 6 items, or where an item
    /// does not convert.
    fn from_py_object<'a>(state: &'a PyState<Api>, py_object: PyObject<'a, Api>) -> (r: Result<
        (A, B, C, D, E, F),
        PyError,
    >)
        ensures
            r matches Err(e) ==> read_error(e),
    {
        let items = tuple_items(state, &py_object, 6);
        py_object.release();
        let mut items = match items {
            Ok(items) => items,
            Err(e) => return Err(e),
        };
        let v0 = match A::from_py_object(state, items.remove(0)) {
            Ok(v) => v,
            Err(e) => {
                release_all(items);
                return Err(e);
            },
        };
        let v1 = match B::from_py_object(state, items.remove(0)) {
            Ok(v) => v,
            Err(e) => {
                release_all(items);
                return Err(e);
            },
        };
        let v2 = match C::from_py_object(state, items.remove(0)) {
            Ok(v) => v,
            Err(e) => {
                release_all(items);
                return Err(e);
            },
        };
        let v3 = match D::from_py_object(state, items.remove(0)) {
            Ok(v) => v,
            Err(e) => {
                release_all(items);
                return Err(e);
            },
        };
        let v4 = match E::from_py_object(state, items.remove(0)) {
            Ok(v) => v,
            Err(e) => {
                release_all(items);
                return Err(e);
            },
        };
        let v5 = match F::from_py_object(state, items.remove(0)) {
            Ok(v) => v,
            Err(e) => {
                release_all(items);
                return Err(e);
            },
        };
        Ok((v0, v1, v2, v3, v4, v5))
    }
}

impl<Api: PythonCAPI, A: ToPyType<Api>, B: ToPyType<Api>, C: ToPyType<Api>, D: ToPyType<Api>, E: ToPyType<Api>, F: ToPyType<Api>, G: ToPyType<Api>> ToPyType<Api> for (A, B, C, D, E, F, G) {
    fn to_py_object<'a>(&self, state: &'a PyState<Api>) -> (r: Result<PyObject<'a, Api>, PyError>)
        ensures
            r matches Ok(o) ==> o.spec_state() == state,
    {
        let mut items: Vec<PyObject<'a, Api>> = Vec::new();
        match push_converted(&mut items, self.0.to_py_object(state)) {
            Ok(()) => {},
            Err(e) => {
                release_all(items);
                return Err(e);
            },
        }
        match push_converted(&mut items, self.1.to_py_object(state)) {
            Ok(()) => {},
            Err(e) => {
                release_all(items);
                return Err(e);
            },
        }
        match push_converted(&mut items, self.2.to_py_object(state)) {
            Ok(()) => {},
            Err(e) => {
                release_all(items);
                return Err(e);
            },
        }
        match push_converted(&mut items, self.3.to_py_object(state)) {
            Ok(()) => {},
            Err(e) => {
                release_all(items);
                return Err(e);
            },
        }
        match push_converted(&mut items, self.4.to_py_object(state)) {
            Ok(()) => {},
            Err(e) => {
                release_all(items);
                return Err(e);
            },
        }
        match push_converted(&mut items, self.5.to_py_object(state)) {
            Ok(()) => {},
            Err(e) => {
                release_all(items);
                return Err(e);
            },
        }
        match push_converted(&mut items, self.6.to_py_object(state)) {
            Ok(()) => {},
            Err(e) => {
                release_all(items);
                return Err(e);
            },
        }
        sequence_of(state, items, Sequence::Tuple)
    }
}

impl<Api: PythonCAPI, A: FromPyType<Api>, B: FromPyType<Api>, C: FromPyType<Api>, D: FromPyType<Api>, E: FromPyType<Api>, F: FromPyType<Api>, G: FromPyType<Api>> FromPyType<Api> for (A, B, C, D, E, F, G) {
    /// Fails where the object is not a tuple of 7 items, or where an item
    /// does not convert.
    fn from_py_object<'a>(state: &'a PyState<Api>, py_object: PyObject<'a, Api>) -> (r: Result<
        (A, B, C, D, E, F, G),
        PyError,
    >)
        ensures
            r matches Err(e) ==> read_error(e),
    {
        let items = tuple_items(state, &py_object, 7);
        py_object.release();
        let mut items = match items {
            Ok(items) => items,
            Err(e) => return Err(e),
        };
        let v0 = match A::from_py_object(state, items.remove(0)) {
            Ok(v) => v,
            Err(e) => {
                release_all(items);
                return Err(e);
            },
        };
        let v1 = match B::from_py_object(state, items.remove(0)) {
            Ok(v) => v,
            Err(e) => {
                release_all(items);
                return Err(e);
            },
        };
        let v2 = match C::from_py_object(state, items.remove(0)) {
            Ok(v) => v,
            Err(e) => {
                release_all(items);
                return Err(e);
            },
        };
        let v3 = match D::from_py_object(state, items.remove(0)) {
            Ok(v) => v,
            Err(e) => {
                release_all(items);
                return Err(e);
            },
        };
        let v4 = match E::from_py_object(state, items.remove(0)) {
            Ok(v) => v,
            Err(e) => {
                release_all(items);
                return Err(e);
            },
        };
        let v5 = match F::from_py_object(state, items.remove(0)) {
            Ok(v) => v,
            Err(e) => {
                release_all(items);
                return Err(e);
            },
        };
        let v6 = match G::from_py_object(state, items.remove(0)) {
            Ok(v) => v,
            Err(e) => {
                release_all(items);
                return Err(e);
            },
        };
        Ok((v0, v1, v2, v3, v4, v5, v6))
    }
}

impl<Api: PythonCAPI, A: ToPyType<Api>, B: ToPyType<Api>, C: ToPyType<Api>, D: ToPyType<Api>, E: ToPyType<Api>, F: ToPyType<Api>, G: ToPyType<Api>, H: ToPyType<Api>> ToPyType<Api> for (A, B, C, D, E, F, G, H) {
    fn to_py_object<'a>(&self, state: &'a PyState<Api>) -> (r: Result<PyObject<'a, Api>, PyError>)
        ensures
            r matches Ok(o) ==> o.spec_state() == state,
    {
        let mut items: Vec<PyObject<'a, Api>> = Vec::new();
        match push_converted(&mut items, self.0.to_py_object(state)) {
            Ok(()) => {},
            Err(e) => {
                release_all(items);
                return Err(e);
            },
        }
        match push_converted(&mut items, self.1.to_py_object(state)) {
            Ok(()) => {},
            Err(e) => {
                release_all(items);
                return Err(e);
            },
        }
        match push_converted(&mut items, self.2.to_py_object(state)) {
            Ok(()) => {},
            Err(e) => {
                release_all(items);
                return Err(e);
            },
        }
        match push_converted(&mut items, self.3.to_py_object(state)) {
            Ok(()) => {},
            Err(e) => {
                release_all(items);
                return Err(e);
            },
        }
        match push_converted(&mut items, self.4.to_py_object(state)) {
            Ok(()) => {},
            Err(e) => {
                release_all(items);
                return Err(e);
            },
        }
        match push_converted(&mut items, self.5.to_py_object(state)) {
            Ok(()) => {},
            Err(e) => {
                release_all(items);
                return Err(e);
            },
        }
        match push_converted(&mut items, self.6.to_py_object(state)) {
            Ok(()) => {},
            Err(e) => {
                release_all(items);
                return Err(e);
            },
        }
        match push_converted(&mut items, self.7.to_py_object(state)) {
            Ok(()) => {},
            Err(e) => {
                release_all(items);
                return Err(e);
            },
        }
        sequence_of(state, items, Sequence::Tuple)
    }
}

impl<Api: PythonCAPI, A: FromPyType<Api>, B: FromPyType<Api>, C: FromPyType<Api>, D: FromPyType<Api>, E: FromPyType<Api>, F: FromPyType<Api>, G: FromPyType<Api>, H: FromPyType<Api>> FromPyType<Api> for (A, B, C, D, E, F, G, H) {
    /// Fails where the object is not a tuple of 8 items, or where an item
    /// does not convert.
    fn from_py_object<'a>(state: &'a PyState<Api>, py_object: PyObject<'a, Api>) -> (r: Result<
        (A, B, C, D, E, F, G, H),
        PyError,
    >)
        ensures
            r matches Err(e) ==> read_error(e),
    {
        let items = tuple_items(state, &py_object, 8);
        py_object.release();
        let mut items = match items {
            Ok(items) => items,
            Err(e) => return Err(e),
        };
        let v0 = match A::from_py_object(state, items.remove(0)) {
            Ok(v) => v,
            Err(e) => {
                release_all(items);
                return Err(e);
            },
        };
        let v1 = match B::from_py_object(state, items.remove(0)) {
            Ok(v) => v,
            Err(e) => {
                release_all(items);
                return Err(e);
            },
        };
        let v2 = match C::from_py_object(state, items.remove(0)) {
            Ok(v) => v,
            Err(e) => {
                release_all(items);
                return Err(e);
            },
        };
        let v3 = match D::from_py_object(state, items.remove(0)) {
            Ok(v) => v,
            Err(e) => {
                release_all(items);
                return Err(e);
            },
        };
        let v4 = match E::from_py_object(state, items.remove(0)) {
            Ok(v) => v,
            Err(e) => {
                release_all(items);
                return Err(e);
            },
        };
        let v5 = match F::from_py_object(state, items.remove(0)) {
            Ok(v) => v,
            Err(e) => {
                release_all(items);
                return Err(e);
            },
        };
        let v6 = match G::from_py_object(state, items.remove(0)) {
            Ok(v) => v,
            Err(e) => {
                release_all(items);
                return Err(e);
            },
        };
        let v7 = match H::from_py_object(state, items.remove(0)) {
            Ok(v) => v,
            Err(e) => {
                release_all(items);
                return Err(e);
            },
        };
        Ok((v0, v1, v2, v3, v4, v5, v6, v7))
    }
}

impl<Api: PythonCAPI, A: ToPyType<Api>, B: ToPyType<Api>, C: ToPyType<Api>, D: ToPyType<Api>, E: ToPyType<Api>, F: ToPyType<Api>, G: ToPyType<Api>, H: ToPyType<Api>, I: ToPyType<Api>> ToPyType<Api> for (A, B, C, D, E, F, G, H, I) {
    fn to_py_object<'a>(&self, state: &'a PyState<Api>) -> (r: Result<PyObject<'a, Api>, PyError>)
        ensures
            r matches Ok(o) ==> o.spec_state() == state,
    {
        let mut items: Vec<PyObject<'a, Api>> = Vec::new();
        match push_converted(&mut items, self.0.to_py_object(state)) {
            Ok(()) => {},
            Err(e) => {
                release_all(items);
                return Err(e);
            },
        }
        match push_converted(&mut items, self.1.to_py_object(state)) {
            Ok(()) => {},
            Err(e) => {
                release_all(items);
                return Err(e);
            },
        }
        match push_converted(&mut items, self.2.to_py_object(state)) {
            Ok(()) => {},
            Err(e) => {
                release_all(items);
                return Err(e);
            },
        }
        match push_converted(&mut items, self.3.to_py_object(state)) {
            Ok(()) => {},
            Err(e) => {
                release_all(items);
                return Err(e);
            },
        }
        match push_converted(&mut items, self.4.to_py_object(state)) {
            Ok(()) => {},
            Err(e) => {
                release_all(items);
                return Err(e);
            },
        }
        match push_converted(&mut items, self.5.to_py_object(state)) {
            Ok(()) => {},
            Err(e) => {
                release_all(items);
                return Err(e);
            },
        }
        match push_converted(&mut items, self.6.to_py_object(state)) {
            Ok(()) => {},
            Err(e) => {
                release_all(items);
                return Err(e);
            },
        }
        match push_converted(&mut items, self.7.to_py_object(state)) {
            Ok(()) => {},
            Err(e) => {
                release_all(items);
                return Err(e);
            },
        }
        match push_converted(&mut items, self.8.to_py_object(state)) {
            Ok(()) => {},
            Err(e) => {
                release_all(items);
                return Err(e);
            },
        }
        sequence_of(state, items, Sequence::Tuple)
    }
}

impl<Api: PythonCAPI, A: FromPyType<Api>, B: FromPyType<Api>, C: FromPyType<Api>, D: FromPyType<Api>, E: FromPyType<Api>, F: FromPyType<Api>, G: FromPyType<Api>, H: FromPyType<Api>, I: FromPyType<Api>> FromPyType<Api> for (A, B, C, D, E, F, G, H, I) {
    /// Fails where the object is not a tuple of 9 items, or where an item
    /// does not convert.
    fn from_py_object<'a>(state: &'a PyState<Api>, py_object: PyObject<'a, Api>) -> (r: Result<
        (A, B, C, D, E, F, G, H, I),
        PyError,
    >)
        ensures
            r matches Err(e) ==> read_error(e),
    {
        let items = tuple_items(state, &py_object, 9);
        py_object.release();
        let mut items = match items {
            Ok(items) => items,
            Err(e) => return Err(e),
        };
        let v0 = match A::from_py_object(state, items.remove(0)) {
            Ok(v) => v,
            Err(e) => {
                release_all(items);
                return Err(e);
            },
        };
        let v1 = match B::from_py_object(state, items.remove(0)) {
            Ok(v) => v,
            Err(e) => {
                release_all(items);
                return Err(e);
            },
        };
        let v2 = match C::from_py_object(state, items.remove(0)) {
            Ok(v) => v,
            Err(e) => {
                release_all(items);
                return Err(e);
            },
        };
        let v3 = match D::from_py_object(state, items.remove(0)) {
            Ok(v) => v,
            Err(e) => {
                release_all(items);
                return Err(e);
            },
        };
        let v4 = match E::from_py_object(state, items.remove(0)) {
            Ok(v) => v,
            Err(e) => {
                release_all(items);
                return Err(e);
            },
        };
        let v5 = match F::from_py_object(state, items.remove(0)) {
            Ok(v) => v,
            Err(e) => {
                release_all(items);
                return Err(e);
            },
        };
        let v6 = match G::from_py_object(state, items.remove(0)) {
            Ok(v) => v,
            Err(e) => {
                release_all(items);
                return Err(e);
            },
        };
        let v7 = match H::from_py_object(state, items.remove(0)) {
            Ok(v) => v,
            Err(e) => {
                release_all(items);
                return Err(e);
            },
        };
        let v8 = match I::from_py_object(state, items.remove(0)) {
            Ok(v) => v,
            Err(e) => {
                release_all(items);
                return Err(e);
            },
        };
        Ok((v0, v1, v2, v3, v4, v5, v6, v7, v8))
    }
}

impl<C: PythonCAPI, T: ToPyType<C>> ToPyType<C> for Vec<T> {
    /// Converts the items in their order; the first that fails ends the
    /// conversion with its error (see `push_converted`).
    fn to_py_object<'a>(&self, state: &'a PyState<C>) -> (r: Result<PyObject<'a, C>, PyError>)
        ensures
            r matches Ok(o) ==> o.spec_state() == state,
    {
        let mut items: Vec<PyObject<'a, C>> = Vec::new();
        for i in 0..self.len() {
            match push_converted(&mut items, self[i].to_py_object(state)) {
                Ok(()) => {},
                Err(e) => {
                    release_all(items);
                    return Err(e);
                },
            }
        }
        sequence_of(state, items, Sequence::List)
    }
}

/// New references to the `n` items of a list object, in their order. Fails
/// with `FromTypeConversionError` where the list lends a null item. The
/// reference to the list itself is kept.
fn list_items<'a, C: PythonCAPI>(state: &'a PyState<C>, py_object: &PyObject<'a, C>, n: usize) -> (r:
    Result<Vec<PyObject<'a, C>>, PyError>)
    ensures
        r matches Ok(items) ==> items.len() == n,
        r matches Err(e) ==> e is FromTypeConversionError,
{
    let raw = py_object.raw();
    let mut items: Vec<PyObject<'a, C>> = Vec::new();
    for i in 0..n
        invariant
            items.len() == i,
    {
        let item = state.api.PyList_GetItem(raw, i);
        match push_converted(&mut items, lent_item(state, item)) {
            Ok(()) => {},
            Err(e) => {
                release_all(items);
                return Err(e);
            },
        }
    }
    Ok(items)
}

/// Reads every object of `items` as a value of this program, in their order,
/// giving each reference back. Fails with the first error, after giving back
/// the rest.
fn read_all<'a, C: PythonCAPI, T: FromPyType<C>>(state: &'a PyState<C>, items: Vec<PyObject<'a, C>>) -> (r:
    Result<Vec<T>, PyError>)
    ensures
        r matches Ok(v) ==> v@.len() == items@.len(),
        r matches Err(e) ==> read_error(e),
{
    let n = items.len();
    let mut items = items;
    let mut v: Vec<T> = Vec::new();
    for i in 0..n
        invariant
            v@.len() == i,
            items@.len() == n - i,
    {
        let item = items.remove(0);
        match push_converted(&mut v, T::from_py_object(state, item)) {
            Ok(()) => {},
            Err(e) => {
                release_all(items);
                return Err(e);
            },
        }
    }
    Ok(v)
}

impl<C: PythonCAPI, T: FromPyType<C>> FromPyType<C> for Vec<T> {
    /// Fails where the object is not a list (see `list_length`), or where an
    /// item does not convert.
    fn from_py_object<'a>(state: &'a PyState<C>, py_object: PyObject<'a, C>) -> (r: Result<
        Vec<T>,
        PyError,
    >)
        ensures
            r matches Err(e) ==> read_error(e),
    {
        let raw = py_object.raw();
        let check = state.api.PyList_Check(raw);
        let size = if check > 0 {
            state.api.PyList_Size(raw)
        } else {
            -1
        };
        let items = match list_length(check, size) {
            Ok(n) => list_items(state, &py_object, n),
            Err(e) => Err(e),
        };
        py_object.release();
        match items {
            Ok(items) => read_all(state, items),
            Err(e) => Err(e),
        }
    }
}

/// A new string object that holds `s`.
///
/// Text that holds NUL cannot be handed to the interpreter and gives
/// `StringConversionError`.
fn string_object<'a, C: PythonCAPI>(state: &'a PyState<C>, s: &str) -> (r: Result<
    PyObject<'a, C>,
    PyError,
>)
    ensures
        contains_nul(s@) <==> r matches Err(PyError::StringConversionError),
        r matches Ok(o) ==> o.spec_state() == state,
        r matches Err(e) ==> e is StringConversionError || e is ToTypeConversionError,
{
    if has_nul(s) {
        return Err(PyError::StringConversionError);
    }
    let raw = state.api.PyString_FromString(s);
    let check = if raw.is_null() {
        0
    } else {
        state.api.PyString_Check(raw)
    };
    checked_object(state, raw, check)
}

impl<C: PythonCAPI> ToPyType<C> for String {
    fn to_py_object<'a>(&self, state: &'a PyState<C>) -> (r: Result<PyObject<'a, C>, PyError>)
        ensures
            contains_nul(self@) <==> r matches Err(PyError::StringConversionError),
            r matches Ok(o) ==> o.spec_state() == state,
            r matches Err(e) ==> e is StringConversionError || e is ToTypeConversionError,
    {
        string_object(state, self.as_str())
    }
}

impl<'b, C: PythonCAPI> ToPyType<C> for &'b str {
    fn to_py_object<'a>(&self, state: &'a PyState<C>) -> (r: Result<PyObject<'a, C>, PyError>)
        ensures
            contains_nul(self@) <==> r matches Err(PyError::StringConversionError),
            r matches Ok(o) ==> o.spec_state() == state,
            r matches Err(e) ==> e is StringConversionError || e is ToTypeConversionError,
    {
        string_object(state, *self)
    }
}

/// Decides what reading a string comes to, given `check`, the interpreter's
/// test of whether the object is a string, and `text`, what it read where the
/// test passed.
pub fn checked_string(check: i64, text: Option<String>) -> (r: Result<String, PyError>)
    ensures
        check <= 0 ==> r matches Err(PyError::FromTypeConversionError),
        check > 0 && text is None ==> r matches Err(PyError::StringConversionError),
        check > 0 && text is Some ==> (r matches Ok(s) && s@ == text->Some_0@),
{
    if check <= 0 {
        return Err(PyError::FromTypeConversionError);
    }
    match text {
        Some(s) => Ok(s),
        None => Err(PyError::StringConversionError),
    }
}

impl<C: PythonCAPI> FromPyType<C> for String {
    /// Fails with `FromTypeConversionError` where the object is not a string,
    /// and with `StringConversionError` where its text cannot be read.
    fn from_py_object<'a>(state: &'a PyState<C>, py_object: PyObject<'a, C>) -> (r: Result<
        String,
        PyError,
    >)
        ensures
            r matches Err(e) ==> e is FromTypeConversionError || e is StringConversionError,
    {
        let raw = py_object.raw();
        let check = state.api.PyString_Check(raw);
        let text = if check > 0 {
            state.api.PyString_AsString(raw)
        } else {
            None
        };
        py_object.release();
        checked_string(check, text)
    }
}

/// The empty tuple: the arguments of a call that takes none.
pub struct NoArgs;

impl<C: PythonCAPI> ToPyType<C> for NoArgs {
    fn to_py_object<'a>(&self, state: &'a PyState<C>) -> (r: Result<PyObject<'a, C>, PyError>)
        ensures
            r matches Ok(o) ==> o.spec_state() == state,
            r matches Err(e) ==> e is NullPyObject,
    {
        PyObject::empty_tuple(state)
    }
}

impl<C: PythonCAPI> FromPyType<C> for NoArgs {
    /// Accepts any object, whose reference is given back.
    fn from_py_object<'a>(state: &'a PyState<C>, py_object: PyObject<'a, C>) -> (r: Result<
        NoArgs,
        PyError,
    >)
        ensures
            r is Ok,
    {
        py_object.release();
        Ok(NoArgs)
    }
}

} // verus!
