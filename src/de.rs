//! Reading dynamic values: the deserializer and the cursors it hands out for
//! arrays and objects.

use vstd::prelude::*;
use crate::error::{lift, lifted, Error, ErrorKind};
use crate::runtime::{
    element_fetched, extends, key_handles, names_listed, property_fetched, Env, Property, Slot, Status,
    Value, ValueType,
};

verus! {

/// Reads one dynamic value into whatever shape is asked of it.
#[derive(Clone, Copy, Debug, PartialEq, Eq, Structural)]
pub struct Deserializer {
    pub value: Value,
}

/// A cursor over the elements of an array, whose length is read once.
#[derive(Clone, Copy, Debug, PartialEq, Eq, Structural)]
pub struct ArrayAccessor {
    pub array: Value,
    pub len: u32,
    pub index: u32,
}

/// A cursor over the own enumerable properties of an object. The keys are
/// copied into an array when the cursor is made; a value is read only after
/// its key (`next` holds the key last read).
#[derive(Clone, Copy, Debug, PartialEq, Eq, Structural)]
pub struct ObjectAccessor {
    pub object: Value,
    pub keys: ArrayAccessor,
    pub next: Option<Value>,
}

/// What a dynamic value is when nothing is known of the shape wanted.
#[derive(Debug)]
pub enum Content {
    Unit,
    Bool(bool),
    /// A number, by the bit pattern of its double.
    F64(u64),
    String(String),
    Object(ObjectAccessor),
}

/// An enum read from a dynamic value: a unit variant written as its name,
/// or a variant name with the value it wraps.
#[derive(Debug)]
pub enum EnumAccess {
    Unit(String),
    Tagged(String, Deserializer),
}

/// What `deserialize_enum` reads from `v`.
pub open spec fn enum_read(env: Env, v: Value) -> Result<EnumAccess, Error> {
    match env.kind(v) {
        Err(s) => Err(Error { kind: ErrorKind::Napi(s) }),
        Ok(ValueType::String) => Ok(EnumAccess::Unit(env.slot(v)->String_0)),
        Ok(_) => match env.slot(v) {
            Slot::Object(props) => if props@.len() > 0 {
                Ok(EnumAccess::Tagged(props@[0].key, Deserializer { value: props@[0].value }))
            } else {
                Err(Error { kind: ErrorKind::Napi(Status::NameExpected) })
            },
            _ => Err(Error { kind: ErrorKind::Napi(Status::ObjectExpected) }),
        },
    }
}

/// The outcome of `ArrayAccessor::next` as the runtime's own outcome.
pub open spec fn element_status(r: Result<Option<Value>, Error>) -> Result<Value, Status> {
    match r {
        Ok(Some(v)) => Ok(v),
        Err(Error { kind: ErrorKind::Napi(s) }) => Err(s),
        _ => Err(Status::GenericFailure),
    }
}

/// The outcome of `ObjectAccessor::next_value` as the runtime's own outcome.
pub open spec fn value_status(r: Result<Deserializer, Error>) -> Result<Value, Status> {
    match r {
        Ok(d) => Ok(d.value),
        Err(Error { kind: ErrorKind::Napi(s) }) => Err(s),
        _ => Err(Status::GenericFailure),
    }
}

/// A key handed out by `ObjectAccessor::next_key`, as the handle it reads.
pub open spec fn key_value(r: Result<Option<Deserializer>, Error>) -> Result<Option<Value>, Error> {
    match r {
        Ok(Some(d)) => Ok(Some(d.value)),
        Ok(None) => Ok(None),
        Err(e) => Err(e),
    }
}

/// `ArrayAccessor::next` took `pre` to `post`, and the runtime `env_pre` to
/// `env_post`, with result `r`.
pub open spec fn advanced(
    pre: ArrayAccessor,
    post: ArrayAccessor,
    env_pre: Env,
    env_post: Env,
    r: Result<Option<Value>, Error>,
) -> bool {
    if pre.index >= pre.len {
        r == Ok::<Option<Value>, Error>(None) && post == pre && env_post == env_pre
    } else {
        &&& r is Ok ==> r->Ok_0 is Some && post == ArrayAccessor { index: (pre.index + 1) as u32, ..pre }
        &&& r is Err ==> r->Err_0.kind is Napi && post == pre
        &&& element_fetched(env_pre, env_post, pre.array, pre.index, element_status(r))
    }
}

/// `ObjectAccessor::new` on `object` took `pre` to `post` with result `r`.
pub open spec fn opened(pre: Env, post: Env, object: Value, r: Result<ObjectAccessor, Error>) -> bool {
    match pre.refusal(object) {
        Some(e) => r == Err::<ObjectAccessor, Error>(Error { kind: ErrorKind::Napi(e) }) && post == pre,
        None => match pre.slot(object) {
            Slot::Object(props) => {
                let n = props@.len();
                let keys = Value { index: (pre.slots@.len() + n) as usize };
                &&& names_listed(pre, post, props@, Ok(keys))
                &&& r == if n <= u32::MAX {
                    Ok::<ObjectAccessor, Error>(
                        ObjectAccessor {
                            object,
                            keys: ArrayAccessor { array: keys, len: n as u32, index: 0 },
                            next: None,
                        },
                    )
                } else {
                    Err(Error { kind: ErrorKind::Napi(Status::GenericFailure) })
                }
            },
            _ => r == Err::<ObjectAccessor, Error>(Error { kind: ErrorKind::Napi(Status::ObjectExpected) })
                && post == pre,
        },
    }
}

/// The array `keys` lists, by new string values, the keys of `props` in order.
pub open spec fn lists_keys(env: Env, keys: Value, props: Seq<Property>) -> bool {
    let base = keys.index - props.len();
    &&& props.len() <= keys.index < env.slots@.len()
    &&& env.slot(keys) is Array
    &&& env.slot(keys)->Array_0@ == key_handles(base as nat, props.len())
    &&& forall|j: int| 0 <= j < props.len() ==> env.slots@[base + j] == Slot::String(props[j].key)
}

impl Deserializer {
    pub fn new(value: Value) -> (r: Self)
        ensures
            r.value == value,
    {
        Deserializer { value }
    }

    /// Reads whatever the value is, by its kind: `undefined` and `null` as
    /// unit, booleans, numbers and strings as themselves, objects as maps;
    /// any other kind is unsupported.
    pub fn deserialize_any(&self, env: &mut Env) -> (r: Result<Content, Error>)
        ensures
            match old(env).kind(self.value) {
                Err(s) => r == Err::<Content, Error>(Error { kind: ErrorKind::Napi(s) })
                    && *final(env) == *old(env),
                Ok(ValueType::Undefined) | Ok(ValueType::Null) => r == Ok::<Content, Error>(
                    Content::Unit,
                ) && *final(env) == *old(env),
                Ok(ValueType::Boolean) => r == Ok::<Content, Error>(
                    Content::Bool(old(env).slot(self.value)->Boolean_0),
                ) && *final(env) == *old(env),
                Ok(ValueType::Number) => r == Ok::<Content, Error>(
                    Content::F64(old(env).slot(self.value)->Number_0),
                ) && *final(env) == *old(env),
                Ok(ValueType::String) => r == Ok::<Content, Error>(
                    Content::String(old(env).slot(self.value)->String_0),
                ) && *final(env) == *old(env),
                Ok(ValueType::Object) => match r {
                    Ok(Content::Object(a)) => opened(*old(env), *final(env), self.value, Ok(a)),
                    Err(e) => opened(*old(env), *final(env), self.value, Err(e)),
                    _ => false,
                },
                Ok(t) => r == Err::<Content, Error>(Error { kind: ErrorKind::UnsupportedType(t) })
                    && *final(env) == *old(env),
            },
    {
        match lift(env.typeof_value(self.value))? {
            ValueType::Undefined | ValueType::Null => {
                self.deserialize_unit(env)?;
                Ok(Content::Unit)
            },
            ValueType::Boolean => Ok(Content::Bool(self.deserialize_bool(env)?)),
            ValueType::Number => Ok(Content::F64(self.deserialize_f64(env)?)),
            ValueType::String => Ok(Content::String(self.deserialize_string(env)?)),
            ValueType::Object => Ok(Content::Object(self.deserialize_map(env)?)),
            typ => Err(Error::unsupported_type(typ)),
        }
    }

    pub fn deserialize_bool(&self, env: &Env) -> (r: Result<bool, Error>)
        ensures
            r == lifted(env.read_bool(self.value)),
    {
        lift(env.get_value_bool(self.value))
    }

    /// The number, as the bit pattern of its double; narrower numeric
    /// shapes are cast from it by the caller.
    pub fn deserialize_f64(&self, env: &Env) -> (r: Result<u64, Error>)
        ensures
            r == lifted(env.read_double(self.value)),
    {
        lift(env.get_value_double(self.value))
    }

    /// Strings, and so chars and identifiers.
    pub fn deserialize_string(&self, env: &Env) -> (r: Result<String, Error>)
        ensures
            r == lifted(env.read_string(self.value)),
    {
        lift(env.get_value_string(self.value))
    }

    /// Bytes, copied out of a buffer.
    pub fn deserialize_byte_buf(&self, env: &Env) -> (r: Result<Vec<u8>, Error>)
        ensures
            match env.refusal(self.value) {
                Some(e) => r == Err::<Vec<u8>, Error>(Error { kind: ErrorKind::Napi(e) }),
                None => match env.slot(self.value) {
                    Slot::ArrayBuffer(b) => r is Ok && r->Ok_0@ == b@,
                    _ => r == Err::<Vec<u8>, Error>(
                        Error { kind: ErrorKind::Napi(Status::InvalidArg) },
                    ),
                },
            },
    {
        lift(env.get_value_arraybuffer(self.value))
    }

    /// `None` for `null` and `undefined`; otherwise the value itself is read
    /// as the content of a `Some`.
    pub fn deserialize_option(&self, env: &Env) -> (r: Result<Option<Deserializer>, Error>)
        ensures
            r == match env.kind(self.value) {
                Err(s) => Err(Error { kind: ErrorKind::Napi(s) }),
                Ok(ValueType::Null) | Ok(ValueType::Undefined) => Ok(None),
                Ok(_) => Ok(Some(*self)),
            },
    {
        match lift(env.typeof_value(self.value))? {
            ValueType::Null | ValueType::Undefined => Ok(None),
            _ => Ok(Some(*self)),
        }
    }

    /// Unit, and unit structs: `null` and `undefined` are accepted.
    pub fn deserialize_unit(&self, env: &Env) -> (r: Result<(), Error>)
        ensures
            r == match env.kind(self.value) {
                Err(s) => Err(Error { kind: ErrorKind::Napi(s) }),
                Ok(ValueType::Null) | Ok(ValueType::Undefined) => Ok(()),
                Ok(_) => Err(Error { kind: ErrorKind::ExpectedNull }),
            },
    {
        match lift(env.typeof_value(self.value))? {
            ValueType::Null | ValueType::Undefined => Ok(()),
            _ => Err(Error::expected_null()),
        }
    }

    /// Sequences, tuples and tuple structs are read from an array.
    pub fn deserialize_seq(&self, env: &Env) -> (r: Result<ArrayAccessor, Error>)
        ensures
            r == match env.array_len(self.value) {
                Ok(n) => Ok(ArrayAccessor { array: self.value, len: n, index: 0 }),
                Err(s) => Err(Error { kind: ErrorKind::Napi(s) }),
            },
    {
        ArrayAccessor::new(env, self.value)
    }

    /// Maps and structs are read from an object's own enumerable keys.
    pub fn deserialize_map(&self, env: &mut Env) -> (r: Result<ObjectAccessor, Error>)
        ensures
            opened(*old(env), *final(env), self.value, r),
    {
        ObjectAccessor::new(env, self.value)
    }

    /// A string is a unit variant of that name; otherwise the first key of
    /// the object names the variant and its value is the variant's content.
    pub fn deserialize_enum(&self, env: &mut Env) -> (r: Result<EnumAccess, Error>)
        ensures
            extends(*old(env), *final(env)),
            r == enum_read(*old(env), self.value),
    {
        if lift(env.typeof_value(self.value))? == ValueType::String {
            let s = self.deserialize_string(env)?;
            return Ok(EnumAccess::Unit(s));
        }
        self.variant_seed(env)
    }

    /// Reads `{ [variant]: content }`.
    fn variant_seed(&self, env: &mut Env) -> (r: Result<EnumAccess, Error>)
        requires
            old(env).kind(self.value) is Ok,
        ensures
            extends(*old(env), *final(env)),
            match old(env).slot(self.value) {
                Slot::Object(props) => if props@.len() > 0 {
                    r == Ok::<EnumAccess, Error>(
                        EnumAccess::Tagged(props@[0].key, Deserializer { value: props@[0].value }),
                    )
                } else {
                    r == Err::<EnumAccess, Error>(
                        Error { kind: ErrorKind::Napi(Status::NameExpected) },
                    )
                },
                _ => r == Err::<EnumAccess, Error>(
                    Error { kind: ErrorKind::Napi(Status::ObjectExpected) },
                ),
            },
    {
        let ghost pre = *env;
        let keys = lift(env.get_property_names(self.value))?;
        let ghost mid = *env;
        let ghost props = pre.slot(self.value)->Object_0@;
        let key = lift(env.get_array_element(keys, 0))?;
        let ghost mid2 = *env;
        proof {
            if props.len() > 0 {
                assert(key.index == pre.slots@.len());
                assert(mid2.slot(key) == Slot::String(props[0].key));
            } else {
                assert(mid2.slot(key) == Slot::Undefined);
            }
        }
        let value = lift(env.get_property(self.value, key))?;
        proof {
            assert(props.len() > 0);
            assert(value == props[0].value);
        }
        let name = lift(env.get_value_string(key))?;
        Ok(EnumAccess::Tagged(name, Deserializer::new(value)))
    }

    /// A variant written as an object has content; a unit variant is
    /// written as a string.
    pub fn unit_variant(&self) -> (r: Result<(), Error>)
        ensures
            r == Err::<(), Error>(Error { kind: ErrorKind::ExpectedString }),
    {
        Err(Error::expected_string())
    }
}

impl ArrayAccessor {
    pub open spec fn wf(&self) -> bool {
        self.index <= self.len
    }

    /// A cursor at the start of `array`.
    pub fn new(env: &Env, array: Value) -> (r: Result<Self, Error>)
        ensures
            r == match env.array_len(array) {
                Ok(n) => Ok(ArrayAccessor { array, len: n, index: 0 }),
                Err(s) => Err(Error { kind: ErrorKind::Napi(s) }),
            },
    {
        let len = lift(env.get_array_len(array))?;
        Ok(ArrayAccessor { array, len, index: 0 })
    }

    /// The next element, or `None` once all `len` were read.
    pub fn next(&mut self, env: &mut Env) -> (r: Result<Option<Value>, Error>)
        ensures
            advanced(*old(self), *final(self), *old(env), *final(env), r),
    {
        if self.index >= self.len {
            return Ok(None);
        }
        let element = match env.get_array_element(self.array, self.index) {
            Ok(v) => v,
            Err(s) => {
                return Err(Error::from_status(s));
            },
        };
        self.index = self.index + 1;
        Ok(Some(element))
    }

    /// How many elements are left.
    pub fn size_hint(&self) -> (r: usize)
        requires
            self.wf(),
        ensures
            r == self.len - self.index,
    {
        (self.len - self.index) as usize
    }
}

impl ObjectAccessor {
    pub open spec fn wf(&self) -> bool {
        self.keys.wf()
    }

    /// A cursor over the keys `object` has now.
    pub fn new(env: &mut Env, object: Value) -> (r: Result<Self, Error>)
        ensures
            opened(*old(env), *final(env), object, r),
    {
        let keys = lift(env.get_property_names(object))?;
        let keys = ArrayAccessor::new(env, keys)?;
        Ok(ObjectAccessor { object, keys, next: None })
    }

    /// The next key, which is kept for `next_value`; `None` at the end.
    pub fn next_key(&mut self, env: &mut Env) -> (r: Result<Option<Deserializer>, Error>)
        ensures
            advanced(old(self).keys, final(self).keys, *old(env), *final(env), key_value(r)),
            final(self).object == old(self).object,
            r is Ok ==> final(self).next == key_value(r)->Ok_0,
            r is Err ==> final(self).next == old(self).next,
    {
        let key = self.keys.next(env)?;
        self.next = key;
        match key {
            Some(k) => Ok(Some(Deserializer::new(k))),
            None => Ok(None),
        }
    }

    /// The value of the key last read; asking before any key was read, or
    /// twice for one key, fails with `MissingKey`.
    pub fn next_value(&mut self, env: &mut Env) -> (r: Result<Deserializer, Error>)
        ensures
            old(self).next is None ==> r == Err::<Deserializer, Error>(
                Error { kind: ErrorKind::MissingKey },
            ) && *final(env) == *old(env) && *final(self) == *old(self),
            old(self).next is Some ==> {
                &&& *final(self) == ObjectAccessor { next: None, ..*old(self) }
                &&& r is Err ==> r->Err_0.kind is Napi
                &&& property_fetched(
                    *old(env),
                    *final(env),
                    old(self).object,
                    old(self).next->Some_0,
                    value_status(r),
                )
            },
    {
        let key = match self.next {
            Some(k) => k,
            None => {
                return Err(Error::missing_key());
            },
        };
        self.next = None;
        let value = lift(env.get_property(self.object, key))?;
        Ok(Deserializer::new(value))
    }

    /// How many keys are left.
    pub fn size_hint(&self) -> (r: usize)
        requires
            self.wf(),
        ensures
            r == self.keys.len - self.keys.index,
    {
        self.keys.size_hint()
    }
}

} // verus!
