//! Writing dynamic values: the serializer and the builders it hands out for
//! arrays, objects and the variants that wrap them.

use vstd::prelude::*;
use crate::error::{lift, Error, ErrorKind};
use crate::runtime::{
    allocated, element_stored, extends, holes, lemma_allocated_extends, lemma_extends_trans,
    property_set, Env, Property, Slot, Status, Value,
};

verus! {

/// A serializer's outcome as the runtime's own outcome.
pub open spec fn status_of<T>(r: Result<T, Error>) -> Result<T, Status> {
    match r {
        Ok(v) => Ok(v),
        Err(Error { kind: ErrorKind::Napi(s) }) => Err(s),
        _ => Err(Status::GenericFailure),
    }
}

/// `r` is a new value at the end of `post`, or the runtime failure that
/// prevented it.
pub open spec fn created(pre: Env, post: Env, r: Result<Value, Error>) -> bool {
    &&& allocated(pre, post, status_of(r))
    &&& r is Err ==> r->Err_0.kind is Napi
}

/// In `env`, `wrapper` is an object with the single property `variant`,
/// whose value is `inner`.
pub open spec fn wraps(env: Env, wrapper: Value, variant: Seq<char>, inner: Value) -> bool {
    &&& env.valid(wrapper)
    &&& env.slot(wrapper) is Object
    &&& env.slot(wrapper)->Object_0@.len() == 1
    &&& env.slot(wrapper)->Object_0@[0].key@ == variant
    &&& env.slot(wrapper)->Object_0@[0].value == inner
}

/// Relies on conv's `ValueFrom<usize> for u32`: the value itself when it
/// fits, else a positive overflow carrying it.
#[verifier::external_body]
fn u32_from_usize(v: usize) -> (r: Result<u32, usize>)
    ensures
        r == if v <= u32::MAX {
            Ok::<u32, usize>(v as u32)
        } else {
            Err::<u32, usize>(v)
        },
{
    <u32 as conv::ValueFrom<usize>>::value_from(v).map_err(|e| e.0)
}

/// Writes values of the static data model into a runtime.
#[derive(Clone, Copy, Debug, PartialEq, Eq, Structural)]
pub struct Serializer;

/// Fills an array, one element after another.
#[derive(Clone, Copy, Debug, PartialEq, Eq, Structural)]
pub struct ArraySerializer {
    pub serializer: Serializer,
    pub value: Value,
    pub offset: usize,
}

/// Fills the array of a tuple variant `{ [variant]: [...] }`; `value` is the
/// wrapping object.
#[derive(Clone, Copy, Debug, PartialEq, Eq, Structural)]
pub struct WrappedArraySerializer {
    pub serializer: ArraySerializer,
    pub value: Value,
}

/// Fills an object, one key and value after another.
#[derive(Clone, Copy, Debug, PartialEq, Eq, Structural)]
pub struct ObjectSerializer {
    pub serializer: Serializer,
    pub value: Value,
    pub key: Option<Value>,
}

/// Fills the object of a struct variant `{ [variant]: {...} }`; `value` is
/// the wrapping object.
#[derive(Clone, Copy, Debug, PartialEq, Eq, Structural)]
pub struct WrappedObjectSerializer {
    pub serializer: ObjectSerializer,
    pub value: Value,
}

impl Serializer {
    pub fn new() -> (r: Self)
        ensures
            r == Serializer,
    {
        Serializer
    }

    pub fn serialize_bool(&self, env: &mut Env, v: bool) -> (r: Result<Value, Error>)
        ensures
            created(*old(env), *final(env), r),
            r is Ok ==> final(env).slot(r->Ok_0) == Slot::Boolean(v),
    {
        lift(env.create_bool(v))
    }

    /// Every numeric shape is written as a double, given by its bit pattern.
    pub fn serialize_f64(&self, env: &mut Env, bits: u64) -> (r: Result<Value, Error>)
        ensures
            created(*old(env), *final(env), r),
            r is Ok ==> final(env).slot(r->Ok_0) == Slot::Number(bits),
    {
        lift(env.create_double(bits))
    }

    /// Strings, and chars as strings of one char.
    pub fn serialize_str(&self, env: &mut Env, v: &str) -> (r: Result<Value, Error>)
        ensures
            created(*old(env), *final(env), r),
            r is Ok ==> final(env).slot(r->Ok_0) is String && final(env).slot(
                r->Ok_0,
            )->String_0@ == v@,
    {
        lift(env.create_string(v))
    }

    /// Bytes are copied into a new buffer.
    pub fn serialize_bytes(&self, env: &mut Env, v: &[u8]) -> (r: Result<Value, Error>)
        ensures
            created(*old(env), *final(env), r),
            r is Ok ==> final(env).slot(r->Ok_0) is ArrayBuffer && final(env).slot(
                r->Ok_0,
            )->ArrayBuffer_0@ == v@,
    {
        lift(env.create_arraybuffer(v))
    }

    /// `None` is written as `null`.
    pub fn serialize_none(&self, env: &mut Env) -> (r: Result<Value, Error>)
        ensures
            created(*old(env), *final(env), r),
            r is Ok ==> final(env).slot(r->Ok_0) == Slot::Null,
    {
        self.serialize_unit(env)
    }

    /// Unit is written as `null`.
    pub fn serialize_unit(&self, env: &mut Env) -> (r: Result<Value, Error>)
        ensures
            created(*old(env), *final(env), r),
            r is Ok ==> final(env).slot(r->Ok_0) == Slot::Null,
    {
        lift(env.get_null())
    }

    /// A unit variant is written as its name.
    pub fn serialize_unit_variant(&self, env: &mut Env, variant: &str) -> (r: Result<Value, Error>)
        ensures
            created(*old(env), *final(env), r),
            r is Ok ==> final(env).slot(r->Ok_0) is String && final(env).slot(
                r->Ok_0,
            )->String_0@ == variant@,
    {
        self.serialize_str(env, variant)
    }

    /// A newtype variant is written as `{ [variant]: value }`, where `value`
    /// is the content already written.
    pub fn serialize_newtype_variant(&self, env: &mut Env, variant: &str, value: Value) -> (r:
        Result<Value, Error>)
        ensures
            extends(*old(env), *final(env)),
            old(env).pending() ==> r == Err::<Value, Error>(
                Error { kind: ErrorKind::Napi(Status::PendingException) },
            ),
            !old(env).pending() && old(env).valid(value) ==> r is Ok && r->Ok_0.index
                >= old(env).slots@.len() && wraps(*final(env), r->Ok_0, variant@, value),
    {
        let ghost pre = *env;
        let o = lift(env.create_object())?;
        let ghost mid0 = *env;
        proof {
            lemma_allocated_extends(pre, mid0, Ok(o));
        }
        let k = lift(env.create_string(variant))?;
        let ghost mid = *env;
        proof {
            lemma_allocated_extends(mid0, mid, Ok(k));
            lemma_extends_trans(pre, mid0, mid);
        }
        let r = lift(env.object_set(o, k, value));
        proof {
            assert forall|j: int| 0 <= j < pre.slots@.len() implies env.slots@[j] == pre.slots@[j] by {
                assert(mid.slots@[j] == pre.slots@[j]);
            }
        }
        r?;
        proof {
            assert(mid.slot(o)->Object_0@.len() == 0);
            assert(env.slot(o)->Object_0@ =~= seq![Property { key: mid.slot(k)->String_0, value }]);
        }
        Ok(o)
    }

    /// Sequences are written into a new array of the given length, or of
    /// none when it is unknown.
    pub fn serialize_seq(&self, env: &mut Env, len: Option<usize>) -> (r: Result<ArraySerializer, Error>)
        ensures
            ({
                let n = match len {
                    Some(n) => n,
                    None => 0,
                };
                match r {
                    Ok(s) => {
                        &&& !old(env).pending() && n <= u32::MAX
                        &&& allocated(*old(env), *final(env), Ok(s.value))
                        &&& s == ArraySerializer { serializer: *self, value: s.value, offset: 0 }
                        &&& final(env).slot(s.value) is Array
                        &&& final(env).slot(s.value)->Array_0@ == holes(n as nat)
                    },
                    Err(e) => {
                        &&& *final(env) == *old(env)
                        &&& e.kind == ErrorKind::Napi(
                            if old(env).pending() {
                                Status::PendingException
                            } else {
                                Status::InvalidArg
                            },
                        )
                        &&& old(env).pending() || n > u32::MAX
                    },
                }
            }),
    {
        let n = match len {
            Some(n) => n,
            None => 0,
        };
        let value = lift(env.create_array_with_length(n))?;
        Ok(ArraySerializer::new(*self, value))
    }

    /// Tuples are written as arrays of their length.
    pub fn serialize_tuple(&self, env: &mut Env, len: usize) -> (r: Result<ArraySerializer, Error>)
        ensures
            match r {
                Ok(s) => {
                    &&& !old(env).pending() && len <= u32::MAX
                    &&& allocated(*old(env), *final(env), Ok(s.value))
                    &&& s == ArraySerializer { serializer: *self, value: s.value, offset: 0 }
                    &&& final(env).slot(s.value) is Array
                    &&& final(env).slot(s.value)->Array_0@ == holes(len as nat)
                },
                Err(e) => {
                    &&& *final(env) == *old(env)
                    &&& e.kind is Napi
                    &&& old(env).pending() || len > u32::MAX
                },
            },
    {
        self.serialize_seq(env, Some(len))
    }

    /// A tuple variant is written as `{ [variant]: [...] }`; the builder
    /// fills the inner array and ends with the wrapper.
    pub fn serialize_tuple_variant(&self, env: &mut Env, variant: &str, len: usize) -> (r: Result<
        WrappedArraySerializer,
        Error,
    >)
        ensures
            extends(*old(env), *final(env)),
            old(env).pending() ==> r == Err::<WrappedArraySerializer, Error>(
                Error { kind: ErrorKind::Napi(Status::PendingException) },
            ),
            !old(env).pending() && len > u32::MAX ==> r == Err::<WrappedArraySerializer, Error>(
                Error { kind: ErrorKind::Napi(Status::InvalidArg) },
            ),
            !old(env).pending() && len <= u32::MAX ==> r is Ok,
            r matches Ok(w) ==> {
                &&& w.serializer == ArraySerializer {
                    serializer: *self,
                    value: w.serializer.value,
                    offset: 0,
                }
                &&& w.value.index >= old(env).slots@.len()
                &&& w.serializer.value.index >= old(env).slots@.len()
                &&& w.value != w.serializer.value
                &&& wraps(*final(env), w.value, variant@, w.serializer.value)
                &&& final(env).valid(w.serializer.value)
                &&& final(env).slot(w.serializer.value) is Array
                &&& final(env).slot(w.serializer.value)->Array_0@ == holes(len as nat)
            },
    {
        let ghost pre = *env;
        let wrapper = lift(env.create_object())?;
        let ghost mid0 = *env;
        proof {
            lemma_allocated_extends(pre, mid0, Ok(wrapper));
        }
        let arr = lift(env.create_array_with_length(len))?;
        let ghost mid1 = *env;
        proof {
            lemma_allocated_extends(mid0, mid1, Ok(arr));
            lemma_extends_trans(pre, mid0, mid1);
        }
        let k = lift(env.create_string(variant))?;
        let ghost mid = *env;
        proof {
            lemma_allocated_extends(mid1, mid, Ok(k));
            lemma_extends_trans(pre, mid1, mid);
        }
        let serializer = ArraySerializer::new(*self, arr);
        let r = lift(env.object_set(wrapper, k, arr));
        proof {
            assert forall|j: int| 0 <= j < pre.slots@.len() implies env.slots@[j] == pre.slots@[j] by {
                assert(mid.slots@[j] == pre.slots@[j]);
            }
        }
        r?;
        proof {
            assert(env.slot(wrapper)->Object_0@ =~= seq![Property { key: mid.slot(k)->String_0, value: arr }]);
        }
        Ok(WrappedArraySerializer::new(serializer, wrapper))
    }

    /// Maps are written into a new object.
    pub fn serialize_map(&self, env: &mut Env, len: Option<usize>) -> (r: Result<ObjectSerializer, Error>)
        ensures
            match r {
                Ok(s) => {
                    &&& allocated(*old(env), *final(env), Ok(s.value))
                    &&& s == ObjectSerializer { serializer: *self, value: s.value, key: None }
                    &&& final(env).slot(s.value) is Object
                    &&& final(env).slot(s.value)->Object_0@.len() == 0
                },
                Err(e) => old(env).pending() && *final(env) == *old(env) && e.kind
                    == ErrorKind::Napi(Status::PendingException),
            },
    {
        let value = lift(env.create_object())?;
        Ok(ObjectSerializer::new(*self, value))
    }

    /// Structs are written as maps of their field names.
    pub fn serialize_struct(&self, env: &mut Env, len: usize) -> (r: Result<ObjectSerializer, Error>)
        ensures
            match r {
                Ok(s) => {
                    &&& allocated(*old(env), *final(env), Ok(s.value))
                    &&& s == ObjectSerializer { serializer: *self, value: s.value, key: None }
                    &&& final(env).slot(s.value) is Object
                    &&& final(env).slot(s.value)->Object_0@.len() == 0
                },
                Err(e) => old(env).pending() && *final(env) == *old(env) && e.kind
                    == ErrorKind::Napi(Status::PendingException),
            },
    {
        self.serialize_map(env, Some(len))
    }

    /// A struct variant is written as `{ [variant]: {...} }`; the builder
    /// fills the inner object and ends with the wrapper.
    pub fn serialize_struct_variant(&self, env: &mut Env, variant: &str, len: usize) -> (r: Result<
        WrappedObjectSerializer,
        Error,
    >)
        ensures
            extends(*old(env), *final(env)),
            old(env).pending() ==> r == Err::<WrappedObjectSerializer, Error>(
                Error { kind: ErrorKind::Napi(Status::PendingException) },
            ),
            !old(env).pending() ==> r is Ok,
            r matches Ok(w) ==> {
                &&& w.serializer == ObjectSerializer {
                    serializer: *self,
                    value: w.serializer.value,
                    key: None,
                }
                &&& w.value.index >= old(env).slots@.len()
                &&& w.serializer.value.index >= old(env).slots@.len()
                &&& w.value != w.serializer.value
                &&& wraps(*final(env), w.value, variant@, w.serializer.value)
                &&& final(env).valid(w.serializer.value)
                &&& final(env).slot(w.serializer.value) is Object
                &&& final(env).slot(w.serializer.value)->Object_0@.len() == 0
            },
    {
        let ghost pre = *env;
        let wrapper = lift(env.create_object())?;
        let ghost mid0 = *env;
        proof {
            lemma_allocated_extends(pre, mid0, Ok(wrapper));
        }
        let value = lift(env.create_object())?;
        let ghost mid1 = *env;
        proof {
            lemma_allocated_extends(mid0, mid1, Ok(value));
            lemma_extends_trans(pre, mid0, mid1);
        }
        let k = lift(env.create_string(variant))?;
        let ghost mid = *env;
        proof {
            lemma_allocated_extends(mid1, mid, Ok(k));
            lemma_extends_trans(pre, mid1, mid);
        }
        let serializer = ObjectSerializer::new(*self, value);
        let r = lift(env.object_set(wrapper, k, value));
        proof {
            assert forall|j: int| 0 <= j < pre.slots@.len() implies env.slots@[j] == pre.slots@[j] by {
                assert(mid.slots@[j] == pre.slots@[j]);
            }
        }
        r?;
        proof {
            assert(env.slot(wrapper)->Object_0@ =~= seq![Property { key: mid.slot(k)->String_0, value }]);
        }
        Ok(WrappedObjectSerializer::new(serializer, wrapper))
    }
}

impl ArraySerializer {
    pub fn new(serializer: Serializer, value: Value) -> (r: Self)
        ensures
            r == (ArraySerializer { serializer, value, offset: 0 }),
    {
        ArraySerializer { serializer, value, offset: 0 }
    }

    /// Stores the element already written, `element`, at the next index.
    pub fn serialize_element(&mut self, env: &mut Env, element: Value) -> (r: Result<(), Error>)
        ensures
            old(self).offset > u32::MAX ==> r == Err::<(), Error>(
                Error { kind: ErrorKind::UsizeError(old(self).offset) },
            ) && *final(env) == *old(env) && *final(self) == *old(self),
            old(self).offset <= u32::MAX ==> {
                &&& r is Err ==> r->Err_0.kind is Napi && *final(self) == *old(self)
                &&& r is Ok ==> *final(self) == ArraySerializer {
                    offset: (old(self).offset + 1) as usize,
                    ..*old(self)
                }
                &&& element_stored(
                    *old(env),
                    *final(env),
                    old(self).value,
                    old(self).offset as u32,
                    element,
                    status_of(r),
                )
            },
    {
        let k = match u32_from_usize(self.offset) {
            Ok(k) => k,
            Err(v) => {
                return Err(Error::from_usize_error(v));
            },
        };
        lift(env.array_set(self.value, k, element))?;
        self.offset = self.offset + 1;
        Ok(())
    }

    /// The array written.
    pub fn end(self) -> (r: Result<Value, Error>)
        ensures
            r == Ok::<Value, Error>(self.value),
    {
        Ok(self.value)
    }
}

impl WrappedArraySerializer {
    pub fn new(serializer: ArraySerializer, value: Value) -> (r: Self)
        ensures
            r == (WrappedArraySerializer { serializer, value }),
    {
        WrappedArraySerializer { serializer, value }
    }

    /// Stores the next field of the tuple variant.
    pub fn serialize_field(&mut self, env: &mut Env, element: Value) -> (r: Result<(), Error>)
        ensures
            final(self).value == old(self).value,
            old(self).serializer.offset > u32::MAX ==> r == Err::<(), Error>(
                Error { kind: ErrorKind::UsizeError(old(self).serializer.offset) },
            ) && *final(env) == *old(env) && *final(self) == *old(self),
            old(self).serializer.offset <= u32::MAX ==> {
                &&& r is Err ==> r->Err_0.kind is Napi && *final(self) == *old(self)
                &&& r is Ok ==> final(self).serializer == ArraySerializer {
                    offset: (old(self).serializer.offset + 1) as usize,
                    ..old(self).serializer
                }
                &&& element_stored(
                    *old(env),
                    *final(env),
                    old(self).serializer.value,
                    old(self).serializer.offset as u32,
                    element,
                    status_of(r),
                )
            },
    {
        self.serializer.serialize_element(env, element)
    }

    /// The wrapping object.
    pub fn end(self) -> (r: Result<Value, Error>)
        ensures
            r == Ok::<Value, Error>(self.value),
    {
        Ok(self.value)
    }
}

impl ObjectSerializer {
    pub fn new(serializer: Serializer, value: Value) -> (r: Self)
        ensures
            r == (ObjectSerializer { serializer, value, key: None }),
    {
        ObjectSerializer { serializer, value, key: None }
    }

    /// Keeps the key already written, `key`, for the next value.
    pub fn serialize_key(&mut self, key: Value) -> (r: Result<(), Error>)
        ensures
            r == Ok::<(), Error>(()),
            *final(self) == (ObjectSerializer { key: Some(key), ..*old(self) }),
    {
        self.key = Some(key);
        Ok(())
    }

    /// Sets the key kept by `serialize_key` to `value`; with no key kept it
    /// fails with `MissingKey`. The key is used once.
    pub fn serialize_value(&mut self, env: &mut Env, value: Value) -> (r: Result<(), Error>)
        ensures
            old(self).key is None ==> r == Err::<(), Error>(Error { kind: ErrorKind::MissingKey })
                && *final(env) == *old(env) && *final(self) == *old(self),
            old(self).key is Some ==> {
                &&& *final(self) == ObjectSerializer { key: None, ..*old(self) }
                &&& r is Err ==> r->Err_0.kind is Napi
                &&& property_set(
                    *old(env),
                    *final(env),
                    old(self).value,
                    old(self).key->Some_0,
                    value,
                    status_of(r),
                )
            },
    {
        let k = match self.key {
            Some(k) => k,
            None => {
                return Err(Error::missing_key());
            },
        };
        self.key = None;
        lift(env.object_set(self.value, k, value))
    }

    /// Sets `key` to `value`, both already written.
    pub fn serialize_entry(&mut self, env: &mut Env, key: Value, value: Value) -> (r: Result<(), Error>)
        ensures
            *final(self) == *old(self),
            r is Err ==> r->Err_0.kind is Napi,
            property_set(*old(env), *final(env), old(self).value, key, value, status_of(r)),
    {
        lift(env.object_set(self.value, key, value))
    }

    /// The object written.
    pub fn end(self) -> (r: Result<Value, Error>)
        ensures
            r == Ok::<Value, Error>(self.value),
    {
        Ok(self.value)
    }
}

impl WrappedObjectSerializer {
    pub fn new(serializer: ObjectSerializer, value: Value) -> (r: Self)
        ensures
            r == (WrappedObjectSerializer { serializer, value }),
    {
        WrappedObjectSerializer { serializer, value }
    }

    /// Sets the field `key` of the struct variant to `value`, both already
    /// written.
    pub fn serialize_field(&mut self, env: &mut Env, key: Value, value: Value) -> (r: Result<(), Error>)
        ensures
            *final(self) == *old(self),
            r is Err ==> r->Err_0.kind is Napi,
            property_set(*old(env), *final(env), old(self).serializer.value, key, value, status_of(r)),
    {
        self.serializer.serialize_entry(env, key, value)
    }

    /// The wrapping object.
    pub fn end(self) -> (r: Result<Value, Error>)
        ensures
            r == Ok::<Value, Error>(self.value),
    {
        Ok(self.value)
    }
}

} // verus!
