use vstd::prelude::*;
use core::marker::PhantomData;
use vstd::string::StringExecFns;

use crate::ffi::{contains_nul, has_nul, PyObjectRaw, PythonCAPI};
use crate::primtypes::checked_string;

verus! {

/// Possible errors while driving the interpreter.
///
/// Most come from this library or from how it was used (handing it an object
/// of the wrong kind). `PyException` carries an exception raised inside the
/// interpreter, as `"<type name> : <message>"`.
#[derive(Debug)]
pub enum PyError {
    FromTypeConversionError,
    ToTypeConversionError,
    StringConversionError,
    PyException(String),
    NullPyObject,
    NotAnIterator,
}

/// The text that reports an exception of type `kind` with message `text`.
pub open spec fn exception_text(kind: Seq<char>, text: Seq<char>) -> Seq<char> {
    kind + " : "@ + text
}

/// Formats an exception of type `kind` with message `text`.
pub fn exception_message(kind: &str, text: &str) -> (r: String)
    ensures
        r@ == exception_text(kind@, text@),
{
    let r = String::from_str(kind);
    let r = r.concat(" : ");
    r.concat(text)
}

/// Whether `e` has the form of a reported exception: an exception of the
/// interpreter carries `"<type name> : <message>"`; other errors carry nothing.
pub open spec fn well_reported(e: PyError) -> bool {
    match e {
        PyError::PyException(m) => exists|k: Seq<char>, t: Seq<char>| m@ == exception_text(k, t),
        _ => true,
    }
}

/// A text that the interpreter may fail to render, read as the empty text
/// where it did.
pub open spec fn text_or_empty(t: Option<String>) -> Seq<char> {
    match t {
        Some(s) => s@,
        None => Seq::empty(),
    }
}

/// Decides what the exception check comes to, given the value of the
/// fetched exception and, where there is one, its rendered type name and
/// message: `Ok` exactly when no exception value was fetched.
pub fn exception_outcome(pvalue: PyObjectRaw, kind: Option<String>, text: Option<String>) -> (r:
    Result<(), PyError>)
    ensures
        pvalue.spec_is_null() <==> r is Ok,
        !pvalue.spec_is_null() ==> (r matches Err(PyError::PyException(m)) && m@ == exception_text(
            text_or_empty(kind),
            text_or_empty(text),
        )),
{
    if pvalue.is_null() {
        return Ok(());
    }
    let kind = match kind {
        Some(k) => k,
        None => String::new(),
    };
    let text = match text {
        Some(t) => t,
        None => String::new(),
    };
    Err(PyError::PyException(exception_message(kind.as_str(), text.as_str())))
}

/// A session with the embedded interpreter.
///
/// `api` reaches the interpreter's entry points. An implementation of
/// `PythonCAPI` that guards the interpreter with a lock holds that lock for as
/// long as the session lives.
pub struct PyState<C: PythonCAPI> {
    pub api: C,
}

impl<C: PythonCAPI> PyState<C> {
    /// Starts the interpreter behind `api` and opens a session on it.
    pub fn new(api: C) -> (r: PyState<C>)
        ensures
            r.api == api,
    {
        api.Py_Initialize();
        PyState { api }
    }

    /// Imports the module `module_name`.
    ///
    /// A name that holds NUL cannot be handed to the interpreter and gives
    /// `StringConversionError`; a failed import gives the exception it raised.
    pub fn get_module<'a>(&'a self, module_name: &str) -> (r: Result<PyObject<'a, C>, PyError>)
        ensures
            contains_nul(module_name@) <==> r matches Err(PyError::StringConversionError),
            r matches Ok(o) ==> o.spec_state() == self,
            r matches Err(e) ==> e is StringConversionError || e is PyException || e is NullPyObject,
            r matches Err(e) ==> well_reported(e),
    {
        if has_nul(module_name) {
            return Err(PyError::StringConversionError);
        }
        let raw = self.api.PyImport_ImportModule(module_name);
        self.adopt(raw)
    }

    /// Converts `obj` to a value of this program, giving the reference back.
    pub fn from_py_object<'a, A: FromPyType<C>>(&'a self, obj: PyObject<'a, C>) -> (r: Result<
        A,
        PyError,
    >)
        ensures
            r matches Err(e) ==> read_error(e),
    {
        A::from_py_object(self, obj)
    }

    /// Reads what a lookup or a call produced as a value of this program: an
    /// error of that step is handed on unchanged and nothing is read;
    /// otherwise the object is converted (and its reference given back).
    pub fn read_result<'a, A: FromPyType<C>>(&'a self, obj: Result<PyObject<'a, C>, PyError>) -> (r:
        Result<A, PyError>)
        ensures
            obj is Err ==> r == Err::<A, PyError>(obj->Err_0),
            obj is Ok ==> (r matches Err(e) ==> read_error(e)),
    {
        match obj {
            Ok(o) => self.from_py_object(o),
            Err(e) => Err(e),
        }
    }

    /// Takes over a new reference that an entry point returned, given the
    /// exception check made after it (see `call_outcome`): `Ok` with that
    /// reference, or the error that `call_outcome` names, in which case the
    /// reference, where there is one, is released.
    pub fn adopt_outcome<'a>(&'a self, exception: Result<(), PyError>, raw: PyObjectRaw) -> (r:
        Result<PyObject<'a, C>, PyError>)
        ensures
            r is Ok <==> call_outcome(exception, raw) is Ok,
            r matches Ok(o) ==> o.spec_state() == self && o.spec_raw() == raw,
            r matches Err(e) ==> call_outcome(exception, raw) == Err::<PyObjectRaw, PyError>(e),
    {
        match checked_outcome(exception, raw) {
            Ok(raw) => Ok(PyObject::new(self, raw)),
            Err(e) => {
                self.release_raw(raw);
                Err(e)
            },
        }
    }

    /// Takes over a new reference that an entry point returned, after checking
    /// for a pending exception (see `adopt_outcome`).
    pub fn adopt<'a>(&'a self, raw: PyObjectRaw) -> (r: Result<PyObject<'a, C>, PyError>)
        ensures
            r matches Ok(o) ==> o.spec_state() == self && o.spec_raw() == raw
                && !raw.spec_is_null(),
            r matches Err(e) ==> (e is PyException && well_reported(e)) || (e is NullPyObject
                && raw.spec_is_null()),
    {
        let exception = self.get_result_exception();
        self.adopt_outcome(exception, raw)
    }

    /// Checks for an exception pending in the interpreter, and clears it.
    ///
    /// A pending exception comes back as `PyException` (see
    /// `exception_outcome`); where the interpreter cannot render its type name
    /// or its message, that part is left empty.
    pub fn get_result_exception(&self) -> (r: Result<(), PyError>)
        ensures
            r matches Err(e) ==> e is PyException && well_reported(e),
    {
        let (ptype, pvalue, ptraceback) = self.api.PyErr_Fetch();
        let (ptype, pvalue, ptraceback) = self.api.PyErr_NormalizeException(
            ptype,
            pvalue,
            ptraceback,
        );
        if pvalue.is_null() {
            self.release_raw(ptype);
            self.release_raw(ptraceback);
            return exception_outcome(pvalue, None, None);
        }
        let text = self.api.PyObject_Str(pvalue);
        let text = self.text_of(text);
        let kind = if ptype.is_null() {
            PyObjectRaw::null()
        } else {
            proof {
                reveal_strlit("__name__");
            }
            self.api.PyObject_GetAttrString(ptype, "__name__")
        };
        let kind = self.text_of(kind);
        self.release_raw(ptype);
        self.release_raw(pvalue);
        self.release_raw(ptraceback);
        exception_outcome(pvalue, kind, text)
    }

    /// Gives up a reference that this library owns, where there is one.
    fn release_raw(&self, raw: PyObjectRaw) {
        if !raw.is_null() {
            self.api.Py_DecRef(raw);
        }
    }

    /// The text of a new reference to a string object, which is released;
    /// `None` where there is no such text.
    fn text_of(&self, raw: PyObjectRaw) -> Option<String> {
        if raw.is_null() {
            return None;
        }
        let check = self.api.PyString_Check(raw);
        let text = if check > 0 {
            self.api.PyString_AsString(raw)
        } else {
            None
        };
        self.api.Py_DecRef(raw);
        match checked_string(check, text) {
            Ok(s) => Some(s),
            Err(_) => None,
        }
    }
}

/// What an entry point's result comes to, given the exception check made
/// after it: the exception first, then a null result, then the object.
pub open spec fn call_outcome(exception: Result<(), PyError>, raw: PyObjectRaw) -> Result<
    PyObjectRaw,
    PyError,
> {
    match exception {
        Err(e) => Err(e),
        Ok(()) => if raw.spec_is_null() {
            Err(PyError::NullPyObject)
        } else {
            Ok(raw)
        },
    }
}

/// Decides what an entry point's result comes to (see `call_outcome`).
pub fn checked_outcome(exception: Result<(), PyError>, raw: PyObjectRaw) -> (r: Result<
    PyObjectRaw,
    PyError,
>)
    ensures
        r == call_outcome(exception, raw),
{
    match exception {
        Err(e) => Err(e),
        Ok(()) => if raw.is_null() {
            Err(PyError::NullPyObject)
        } else {
            Ok(raw)
        },
    }
}

/// An owned reference to an object of the interpreter, tied to the session
/// that made it.
///
/// The handle is never null. The reference is given back by `release`;
/// `clone` takes one more.
pub struct PyObject<'a, C: PythonCAPI> {
    state: &'a PyState<C>,
    raw: PyObjectRaw,
}

impl<'a, C: PythonCAPI> PyObject<'a, C> {
    #[verifier::type_invariant]
    spec fn wf(self) -> bool {
        !self.raw.spec_is_null()
    }

    pub closed spec fn spec_state(self) -> &'a PyState<C> {
        self.state
    }

    pub closed spec fn spec_raw(self) -> PyObjectRaw {
        self.raw
    }

    /// Wraps a new reference that an entry point returned.
    pub fn new(state: &'a PyState<C>, py_object_raw: PyObjectRaw) -> (r: PyObject<'a, C>)
        requires
            !py_object_raw.spec_is_null(),
        ensures
            r.spec_state() == state,
            r.spec_raw() == py_object_raw,
    {
        PyObject { state, raw: py_object_raw }
    }

    /// The session that this object belongs to.
    pub fn state(&self) -> (r: &'a PyState<C>)
        ensures
            r == self.spec_state(),
    {
        self.state
    }

    /// The handle of the object, which is never null.
    pub fn raw(&self) -> (r: PyObjectRaw)
        ensures
            r == self.spec_raw(),
            !r.spec_is_null(),
    {
        proof {
            use_type_invariant(self);
        }
        self.raw
    }

    /// Gives the reference back to the interpreter.
    pub fn release(self) {
        self.state.api.Py_DecRef(self.raw);
    }
}

impl<'a, C: PythonCAPI> Clone for PyObject<'a, C> {
    /// Takes one more reference to the same object.
    fn clone(&self) -> (r: PyObject<'a, C>)
        ensures
            r.spec_state() == self.spec_state(),
            r.spec_raw() == self.spec_raw(),
    {
        proof {
            use_type_invariant(self);
        }
        self.state.api.Py_IncRef(self.raw);
        PyObject { state: self.state, raw: self.raw }
    }
}

/// A value of this program that can be handed to the interpreter.
pub trait ToPyType<C: PythonCAPI> {
    /// A new reference to an object of the interpreter that holds this value.
    fn to_py_object<'a>(&self, state: &'a PyState<C>) -> (r: Result<PyObject<'a, C>, PyError>)
        ensures
            r matches Err(e) ==> write_error(e),
    ;
}

/// The errors that handing a value to the interpreter may end in.
pub open spec fn write_error(e: PyError) -> bool {
    e is ToTypeConversionError || e is StringConversionError || e is NullPyObject
}

/// The errors that reading a value back from the interpreter may end in.
pub open spec fn read_error(e: PyError) -> bool {
    e is FromTypeConversionError || e is StringConversionError
}

/// A value of this program that can be read back from an object of the
/// interpreter.
pub trait FromPyType<C: PythonCAPI>: Sized {
    /// Reads the value that `py_object` holds, giving the reference back.
    fn from_py_object<'a>(state: &'a PyState<C>, py_object: PyObject<'a, C>) -> (r: Result<
        Self,
        PyError,
    >)
        ensures
            r matches Err(e) ==> read_error(e),
    ;
}

/// The text under which an object shows, given what the interpreter's `str`
/// made of it.
pub open spec fn shown_text(text: Seq<char>) -> Seq<char> {
    "PyObject{"@ + text + "}"@
}

/// Frames the text that the interpreter's `str` made of an object.
pub fn show_text(text: &str) -> (r: String)
    ensures
        r@ == shown_text(text@),
{
    let r = String::from_str("PyObject{");
    let r = r.concat(text);
    r.concat("}")
}

impl<'a, C: PythonCAPI> PyObject<'a, C> {
    /// A new empty tuple, the arguments of a call that takes none.
    pub fn empty_tuple(state: &'a PyState<C>) -> (r: Result<PyObject<'a, C>, PyError>)
        ensures
            r matches Ok(o) ==> o.spec_state() == state,
            r matches Err(e) ==> e is NullPyObject,
    {
        let raw = state.api.PyTuple_New(0);
        PyObject::non_null(state, raw)
    }

    /// Takes over `raw`, a new reference that an entry point returned, where
    /// it is not null; fails with `NullPyObject` where it is.
    pub fn non_null(state: &'a PyState<C>, raw: PyObjectRaw) -> (r: Result<PyObject<'a, C>, PyError>)
        ensures
            r is Ok <==> !raw.spec_is_null(),
            r matches Ok(o) ==> o.spec_state() == state && o.spec_raw() == raw,
            r matches Err(e) ==> e is NullPyObject,
    {
        if raw.is_null() {
            Err(PyError::NullPyObject)
        } else {
            Ok(PyObject::new(state, raw))
        }
    }

    /// The function that this object holds under `name`.
    pub fn get_func(&self, name: &str) -> (r: Result<PyObject<'a, C>, PyError>)
        ensures
            contains_nul(name@) <==> r matches Err(PyError::StringConversionError),
            r matches Ok(o) ==> o.spec_state() == self.spec_state(),
            r matches Err(e) ==> e is StringConversionError || e is PyException || e is NullPyObject,
            r matches Err(e) ==> well_reported(e),
    {
        self.get_member_obj(name)
    }

    /// The attribute of this object named `name`.
    ///
    /// A name that holds NUL gives `StringConversionError`; a failed lookup
    /// gives the exception it raised.
    pub fn get_member_obj(&self, name: &str) -> (r: Result<PyObject<'a, C>, PyError>)
        ensures
            contains_nul(name@) <==> r matches Err(PyError::StringConversionError),
            r matches Ok(o) ==> o.spec_state() == self.spec_state(),
            r matches Err(e) ==> e is StringConversionError || e is PyException || e is NullPyObject,
            r matches Err(e) ==> well_reported(e),
    {
        if has_nul(name) {
            return Err(PyError::StringConversionError);
        }
        let raw = self.state.api.PyObject_GetAttrString(self.raw(), name);
        self.state.adopt(raw)
    }

    /// The attribute of this object named `name`, read as a value of this
    /// program.
    pub fn get_member<T: FromPyType<C>>(&self, name: &str) -> (r: Result<T, PyError>)
        ensures
            contains_nul(name@) ==> r matches Err(PyError::StringConversionError),
            r matches Err(e) ==> (e is PyException && well_reported(e)) || e is NullPyObject
                || read_error(e),
    {
        let member = self.get_member_obj(name);
        self.state.read_result(member)
    }

    /// Calls this object with the tuple `args`.
    pub fn call(&self, args: &PyObject<'_, C>) -> (r: Result<PyObject<'a, C>, PyError>)
        ensures
            r matches Ok(o) ==> o.spec_state() == self.spec_state(),
            r matches Err(e) ==> e is PyException || e is NullPyObject,
            r matches Err(e) ==> well_reported(e),
    {
        let raw = self.state.api.PyObject_CallObject(self.raw(), args.raw());
        self.state.adopt(raw)
    }

    /// Calls this object with the tuple `args` and reads the result as a value
    /// of this program.
    pub fn call_with_ret<T: FromPyType<C>>(&self, args: &PyObject<'_, C>) -> (r: Result<
        T,
        PyError,
    >)
        ensures
            r matches Err(e) ==> (e is PyException && well_reported(e)) || e is NullPyObject
                || read_error(e),
    {
        let ret = self.call(args);
        self.state.read_result(ret)
    }

    /// Calls this object with the arguments that a conversion produced: a
    /// failed conversion's error is handed on unchanged and no call is made;
    /// otherwise the call's result. The arguments are given back.
    pub fn call_converted(&self, input: Result<PyObject<'_, C>, PyError>) -> (r: Result<
        PyObject<'a, C>,
        PyError,
    >)
        ensures
            input is Err ==> r == Err::<PyObject<'a, C>, PyError>(input->Err_0),
            input is Ok ==> (r matches Err(e) ==> (e is PyException && well_reported(e))
                || e is NullPyObject),
            r matches Ok(o) ==> o.spec_state() == self.spec_state(),
    {
        match input {
            Ok(input) => {
                let ret = self.call(&input);
                input.release();
                ret
            },
            Err(e) => Err(e),
        }
    }

    /// Calls the function that this object holds under `name` with `args`,
    /// which is handed over as a tuple.
    pub fn call_func<I: ToPyType<C>>(&self, name: &str, args: I) -> (r: Result<
        PyObject<'a, C>,
        PyError,
    >)
        ensures
            contains_nul(name@) ==> r matches Err(PyError::StringConversionError),
            r matches Ok(o) ==> o.spec_state() == self.spec_state(),
            r matches Err(e) ==> (e is PyException && well_reported(e)) || e is NullPyObject
                || write_error(e),
    {
        let func = match self.get_func(name) {
            Ok(func) => func,
            Err(e) => return Err(e),
        };
        let input = args.to_py_object(self.state);
        let ret = func.call_converted(input);
        func.release();
        ret
    }

    /// Calls the function that this object holds under `name` with `args`,
    /// and reads the result as a value of this program.
    pub fn call_func_with_ret<I: ToPyType<C>, R: FromPyType<C>>(&self, name: &str, args: I) -> (r:
        Result<R, PyError>)
        ensures
            contains_nul(name@) ==> r matches Err(PyError::StringConversionError),
            r matches Err(e) ==> (e is PyException && well_reported(e)) || e is NullPyObject
                || write_error(e) || read_error(e),
    {
        let ret = self.call_func(name, args);
        self.state.read_result(ret)
    }

    /// A new reference to an iterator over this object.
    fn get_iter(&self) -> (r: Result<PyObject<'a, C>, PyError>)
        ensures
            r matches Ok(o) ==> o.spec_state() == self.spec_state(),
            r matches Err(e) ==> e is NullPyObject,
    {
        let raw = self.state.api.PyObject_GetIter(self.raw());
        if raw.is_null() {
            let _ = self.state.get_result_exception();
        }
        PyObject::non_null(self.state, raw)
    }

    /// An iterator over this object, whose items are read as values of type
    /// `T`.
    ///
    /// Fails where this object does not follow the interpreter's iteration
    /// protocol.
    pub fn iter<T: FromPyType<C>>(&self) -> (r: Result<PyIterator<'a, C, T>, PyError>)
        ensures
            r matches Ok(it) ==> it.spec_object().spec_state() == self.spec_state(),
            r matches Err(e) ==> e is NullPyObject || e is NotAnIterator,
    {
        match self.get_iter() {
            Ok(py_object) => PyIterator::new(py_object),
            Err(e) => Err(e),
        }
    }

    /// The text under which this object shows: what the interpreter's `str`
    /// makes of it, in `PyObject{...}`.
    pub fn show(&self) -> (r: Result<String, PyError>)
        ensures
            r matches Ok(s) ==> exists|t: Seq<char>| s@ == shown_text(t),
    {
        let raw = self.state.api.PyObject_Str(self.raw());
        match self.state.adopt(raw) {
            Ok(text) => match <String as FromPyType<C>>::from_py_object(self.state, text) {
                Ok(text) => {
                    let s = show_text(text.as_str());
                    assert(s@ == shown_text(text@));
                    Ok(s)
                },
                Err(e) => Err(e),
            },
            Err(e) => Err(e),
        }
    }
}

/// The items of an iterator of the interpreter, read as values of type `T`.
pub struct PyIterator<'a, C: PythonCAPI, T> {
    py_object: PyObject<'a, C>,
    _phantom: PhantomData<T>,
}

impl<'a, C: PythonCAPI, T: FromPyType<C>> PyIterator<'a, C, T> {
    pub closed spec fn spec_object(self) -> PyObject<'a, C> {
        self.py_object
    }

    /// Takes over `obj` where it is an iterator; otherwise gives it back and
    /// fails with `NotAnIterator`.
    pub fn new(obj: PyObject<'a, C>) -> (r: Result<PyIterator<'a, C, T>, PyError>)
        ensures
            r matches Ok(it) ==> it.spec_object() == obj,
            r matches Err(e) ==> e is NotAnIterator,
    {
        let check = obj.state.api.PyIter_Check(obj.raw());
        PyIterator::checked(obj, check)
    }

    /// Takes over `obj` where `check`, the interpreter's test of whether it is
    /// an iterator, came out nonzero; otherwise gives it back and fails with
    /// `NotAnIterator`.
    pub fn checked(obj: PyObject<'a, C>, check: i64) -> (r: Result<PyIterator<'a, C, T>, PyError>)
        ensures
            r is Ok <==> check != 0,
            r matches Ok(it) ==> it.spec_object() == obj,
            r matches Err(e) ==> e is NotAnIterator,
    {
        if check != 0 {
            Ok(PyIterator { py_object: obj, _phantom: PhantomData })
        } else {
            obj.release();
            Err(PyError::NotAnIterator)
        }
    }

    /// The next object, `None` once the iterator is done, or the exception
    /// that the iterator raised.
    fn next_py_object(&mut self) -> (r: Option<Result<PyObject<'a, C>, PyError>>)
        ensures
            final(self).spec_object() == old(self).spec_object(),
            r matches Some(Ok(o)) ==> o.spec_state() == old(self).spec_object().spec_state(),
            r matches Some(Err(e)) ==> e is PyException && well_reported(e),
    {
        let state = self.py_object.state;
        let raw = state.api.PyIter_Next(self.py_object.raw());
        let exception = if raw.is_null() {
            state.get_result_exception()
        } else {
            Ok(())
        };
        item_outcome(state, raw, exception)
    }

    /// The next item, `None` once the iterator is done.
    pub fn next(&mut self) -> (r: Option<Result<T, PyError>>)
        ensures
            final(self).spec_object() == old(self).spec_object(),
            r matches Some(Err(e)) ==> (e is PyException && well_reported(e)) || read_error(e),
    {
        let item = self.next_py_object();
        read_item(self.py_object.state, item)
    }

    /// Gives the iterator back to the interpreter.
    pub fn release(self) {
        self.py_object.release();
    }
}

/// What a step of an iterator comes to, given the item handle that the
/// interpreter returned and the exception check made where it was null: the
/// item where there is one, `None` where the iterator ended without an
/// exception, and the exception otherwise.
pub fn item_outcome<'a, C: PythonCAPI>(
    state: &'a PyState<C>,
    raw: PyObjectRaw,
    exception: Result<(), PyError>,
) -> (r: Option<Result<PyObject<'a, C>, PyError>>)
    ensures
        !raw.spec_is_null() ==> (r matches Some(Ok(o)) && o.spec_state() == state && o.spec_raw()
            == raw),
        raw.spec_is_null() && exception is Ok ==> r is None,
        raw.spec_is_null() && exception is Err ==> r == Some(
            Err::<PyObject<'a, C>, PyError>(exception->Err_0),
        ),
{
    if !raw.is_null() {
        return Some(Ok(PyObject::new(state, raw)));
    }
    match exception {
        Ok(()) => None,
        Err(e) => Some(Err(e)),
    }
}

/// Reads a step of an iterator as a value of this program: `None` stays
/// `None`, an error stays the same error, and an item is converted.
pub fn read_item<'a, C: PythonCAPI, T: FromPyType<C>>(
    state: &'a PyState<C>,
    item: Option<Result<PyObject<'a, C>, PyError>>,
) -> (r: Option<Result<T, PyError>>)
    ensures
        r is None <==> item is None,
        item matches Some(Err(e)) ==> r == Some(Err::<T, PyError>(e)),
        item matches Some(Ok(_)) ==> (r matches Some(Err(e)) ==> read_error(e)),
{
    match item {
        None => None,
        Some(Err(e)) => Some(Err(e)),
        Some(Ok(o)) => Some(state.from_py_object(o)),
    }
}

} // verus!
