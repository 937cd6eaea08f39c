use vstd::prelude::*;

verus! {

/// Address of an object that lives in the interpreter's heap.
///
/// The address zero stands for the null pointer, which the interpreter hands
/// back when an operation fails.
#[derive(Clone, Copy, Debug, PartialEq, Eq, Structural)]
pub struct PyObjectRaw {
    pub addr: usize,
}

impl PyObjectRaw {
    pub open spec fn spec_is_null(self) -> bool {
        self.addr == 0
    }

    /// The null handle.
    pub fn null() -> (r: PyObjectRaw)
        ensures
            r.spec_is_null(),
    {
        PyObjectRaw { addr: 0 }
    }

    pub fn is_null(&self) -> (r: bool)
        ensures
            r == self.spec_is_null(),
    {
        self.addr == 0
    }
}

/// Whether a text holds the NUL character, which cannot cross into the
/// interpreter inside a C string.
pub open spec fn contains_nul(s: Seq<char>) -> bool {
    exists|i: int| 0 <= i < s.len() && s[i] == '\0'
}

/// Whether `s` holds the NUL character.
pub fn has_nul(s: &str) -> (r: bool)
    ensures
        r == contains_nul(s@),
{
    broadcast use vstd::string::group_string_axioms;

    let mut found = false;
    for c in it: s.chars()
        invariant
            it.seq() == s@,
            found == (exists|i: int| 0 <= i < it.index() && it.seq()[i] == '\0'),
    {
        if c == '\0' {
            found = true;
        }
    }
    found
}

/// Entry points of the embedded interpreter's C interface.
///
/// Every handle that an entry point returns is a new reference unless its
/// name says otherwise (`PyTuple_GetItem` and `PyList_GetItem` lend theirs).
/// Entry points that fail return the null handle and leave an exception
/// pending, which `PyErr_Fetch` takes out.
#[allow(non_snake_case)]
pub trait PythonCAPI {
    fn Py_Initialize(&self);

    fn Py_Finalize(&self);

    fn PyImport_ImportModule(&self, name: &str) -> PyObjectRaw
        requires
            !contains_nul(name@),
    ;

    fn PyInt_FromLong(&self, ival: i64) -> PyObjectRaw;

    fn PyInt_AsLong(&self, obj: PyObjectRaw) -> i64;

    fn PyTuple_New(&self, size: usize) -> PyObjectRaw;

    /// Lends the item: the caller owns no reference to it.
    fn PyTuple_GetItem(&self, tuple: PyObjectRaw, pos: usize) -> PyObjectRaw;

    /// Takes over one reference to `o`.
    fn PyTuple_SetItem(&self, tuple: PyObjectRaw, pos: usize, o: PyObjectRaw);

    fn PyTuple_Size(&self, tuple: PyObjectRaw) -> i64;

    fn PyList_New(&self, size: usize) -> PyObjectRaw;

    /// Lends the item: the caller owns no reference to it.
    fn PyList_GetItem(&self, list: PyObjectRaw, index: usize) -> PyObjectRaw;

    /// Takes over one reference to `item`.
    fn PyList_SetItem(&self, list: PyObjectRaw, index: usize, item: PyObjectRaw);

    fn PyList_Size(&self, list: PyObjectRaw) -> i64;

    fn Py_IncRef(&self, obj: PyObjectRaw);

    fn Py_DecRef(&self, obj: PyObjectRaw);

    fn PyTuple_Check(&self, obj: PyObjectRaw) -> i64;

    fn PyList_Check(&self, obj: PyObjectRaw) -> i64;

    fn PyInt_Check(&self, obj: PyObjectRaw) -> i64;

    fn PyString_Check(&self, obj: PyObjectRaw) -> i64;

    fn PyString_FromString(&self, string: &str) -> PyObjectRaw
        requires
            !contains_nul(string@),
    ;

    /// The text of a string object; `None` where the interpreter gives no
    /// pointer or the bytes are not UTF-8.
    fn PyString_AsString(&self, obj: PyObjectRaw) -> Option<String>;

    fn PyObject_GetAttrString(&self, object: PyObjectRaw, attr: &str) -> PyObjectRaw
        requires
            !contains_nul(attr@),
    ;

    /// Takes out the pending exception as its type, value and traceback.
    fn PyErr_Fetch(&self) -> (PyObjectRaw, PyObjectRaw, PyObjectRaw);

    fn PyErr_NormalizeException(
        &self,
        ptype: PyObjectRaw,
        pvalue: PyObjectRaw,
        ptraceback: PyObjectRaw,
    ) -> (PyObjectRaw, PyObjectRaw, PyObjectRaw);

    fn PyObject_Str(&self, obj: PyObjectRaw) -> PyObjectRaw;

    fn PyObject_CallObject(&self, callable_object: PyObjectRaw, args: PyObjectRaw) -> PyObjectRaw;

    fn PyObject_GetIter(&self, obj: PyObjectRaw) -> PyObjectRaw;

    fn PyIter_Check(&self, obj: PyObjectRaw) -> i64;

    fn PyIter_Next(&self, iter: PyObjectRaw) -> PyObjectRaw;
}

} // verus!
