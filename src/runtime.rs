//! The dynamic value runtime: a store of values addressed by handles, and the
//! small fallible primitive operations the transcoder is built on.

use vstd::prelude::*;
use vstd::pervasive::VecAdditionalExecFns;

verus! {

/// The kind tag that `typeof_value` reports.
#[derive(Clone, Copy, Debug, PartialEq, Eq, Structural)]
pub enum ValueType {
    Undefined,
    Null,
    Boolean,
    Number,
    String,
    Symbol,
    Object,
    Function,
    External,
    BigInt,
}

/// The outcome of a failed primitive operation.
#[derive(Clone, Copy, Debug, PartialEq, Eq, Structural)]
pub enum Status {
    InvalidArg,
    ObjectExpected,
    StringExpected,
    NameExpected,
    NumberExpected,
    BooleanExpected,
    ArrayExpected,
    GenericFailure,
    PendingException,
    BigintExpected,
}

/// A handle to a value held by an `Env`.
#[derive(Clone, Copy, Debug, PartialEq, Eq, Structural)]
pub struct Value {
    pub index: usize,
}

/// One own, enumerable property of an object.
#[derive(Clone, Debug)]
pub struct Property {
    pub key: String,
    pub value: Value,
}

/// What a handle refers to. Numbers are IEEE-754 doubles, held by their bit
/// pattern; array slots that were never written are holes (`None`).
#[derive(Clone, Debug)]
pub enum Slot {
    Undefined,
    Null,
    Boolean(bool),
    Number(u64),
    String(String),
    Symbol,
    Function,
    BigInt(i64),
    Object(Vec<Property>),
    Array(Vec<Option<Value>>),
    ArrayBuffer(Vec<u8>),
}

/// The runtime context: every value ever created, and the exception that is
/// pending, if any. While an exception is pending every primitive fails.
pub struct Env {
    pub slots: Vec<Slot>,
    pub exception: Option<String>,
}

/// The kind that `typeof_value` reports for a slot.
pub open spec fn kind_of(s: Slot) -> ValueType {
    match s {
        Slot::Undefined => ValueType::Undefined,
        Slot::Null => ValueType::Null,
        Slot::Boolean(_) => ValueType::Boolean,
        Slot::Number(_) => ValueType::Number,
        Slot::String(_) => ValueType::String,
        Slot::Symbol => ValueType::Symbol,
        Slot::Function => ValueType::Function,
        Slot::BigInt(_) => ValueType::BigInt,
        Slot::Object(_) | Slot::Array(_) | Slot::ArrayBuffer(_) => ValueType::Object,
    }
}

/// The index of the first property whose key is `key`, or the length of
/// `props` when there is none.
pub open spec fn position(props: Seq<Property>, key: Seq<char>) -> nat
    decreases props.len(),
{
    if props.len() == 0 {
        0
    } else if props[0].key@ == key {
        0
    } else {
        1 + position(props.drop_first(), key)
    }
}

/// The value of the first property whose key is `key`.
pub open spec fn lookup(props: Seq<Property>, key: Seq<char>) -> Option<Value> {
    let i = position(props, key);
    if i < props.len() {
        Some(props[i as int].value)
    } else {
        None
    }
}

/// The property list after `key` is set to `value`: the first property with
/// that key is replaced, or the pair is appended.
pub open spec fn assign(props: Seq<Property>, key: String, value: Value) -> Seq<Property> {
    let i = position(props, key@);
    if i < props.len() {
        props.update(i as int, Property { key, value })
    } else {
        props.push(Property { key, value })
    }
}

/// The property list after the property `key`, if there is one, is deleted.
pub open spec fn unassign(props: Seq<Property>, key: Seq<char>) -> Seq<Property> {
    let i = position(props, key);
    if i < props.len() {
        props.remove(i as int)
    } else {
        props
    }
}

/// The elements of an array after `v` is stored at index `i`: a store past
/// the end leaves holes up to `i`.
pub open spec fn stored(a: Seq<Option<Value>>, i: nat, v: Value) -> Seq<Option<Value>> {
    if i < a.len() {
        a.update(i as int, Some(v))
    } else {
        a + Seq::new((i - a.len()) as nat, |_j: int| None::<Value>) + seq![Some(v)]
    }
}

/// The elements of a new array of `len` holes.
pub open spec fn holes(len: nat) -> Seq<Option<Value>> {
    Seq::new(len, |_j: int| None::<Value>)
}

pub proof fn lemma_position(props: Seq<Property>, key: Seq<char>, i: int)
    requires
        0 <= i <= props.len(),
        forall|j: int| 0 <= j < i ==> props[j].key@ != key,
        i < props.len() ==> props[i].key@ == key,
    ensures
        position(props, key) == i,
    decreases i,
{
    if i > 0 {
        lemma_position(props.drop_first(), key, i - 1);
    }
}

/// Finds the first property with key `key`: its index, or the length.
fn find_property(props: &Vec<Property>, key: &String) -> (r: usize)
    ensures
        r == position(props@, key@),
{
    let mut i: usize = 0;
    while i < props.len()
        invariant
            i <= props@.len(),
            forall|j: int| 0 <= j < i ==> props@[j].key@ != key@,
        decreases props@.len() - i,
    {
        if props[i].key == *key {
            proof {
                lemma_position(props@, key@, i as int);
            }
            return i;
        }
        i = i + 1;
    }
    proof {
        lemma_position(props@, key@, i as int);
    }
    i
}

/// A new string holding `s`, in a runtime with no exception pending.
pub fn string(env: &mut Env, s: &str) -> (r: Value)
    requires
        !old(env).pending(),
    ensures
        allocated(*old(env), *final(env), Ok(r)),
        final(env).slot(r) is String,
        final(env).slot(r)->String_0@ == s@,
{
    match env.create_string(s) {
        Ok(v) => v,
        Err(_) => Value { index: 0 },
    }
}

/// The handles `base`, `base + 1`, ... of `n` consecutive new values.
pub open spec fn key_handles(base: nat, n: nat) -> Seq<Option<Value>> {
    Seq::new(n, |j: int| Some(Value { index: (base + j) as usize }))
}

/// `post` is `pre` with a new string for each key of `props` and then a new
/// array of their handles, which `r` names.
pub open spec fn names_listed(pre: Env, post: Env, props: Seq<Property>, r: Result<Value, Status>) -> bool {
    let base = pre.slots@.len();
    &&& base + props.len() <= usize::MAX
    &&& r == Ok::<Value, Status>(Value { index: (base + props.len()) as usize })
    &&& post.exception == pre.exception
    &&& post.slots@.len() == base + props.len() + 1
    &&& forall|j: int| 0 <= j < base ==> post.slots@[j] == pre.slots@[j]
    &&& forall|j: int| 0 <= j < props.len() ==> post.slots@[base + j] == Slot::String(props[j].key)
    &&& post.slots@[(base + props.len()) as int] is Array
    &&& post.slots@[(base + props.len()) as int]->Array_0@ == key_handles(base, props.len())
}

/// `get_array_element` of element `i` of `arr` took `pre` to `post` with result `r`.
pub open spec fn element_fetched(pre: Env, post: Env, arr: Value, i: u32, r: Result<Value, Status>) -> bool {
    match pre.refusal(arr) {
        Some(e) => r == Err::<Value, Status>(e) && post == pre,
        None => match pre.slot(arr) {
            Slot::Array(a) => if i < a@.len() && a@[i as int] is Some {
                r == Ok::<Value, Status>(a@[i as int]->Some_0) && post
                    == pre
            } else {
                allocated(pre, post, r) && post.slot(r->Ok_0)
                    == Slot::Undefined
            },
            _ => r == Err::<Value, Status>(Status::ArrayExpected) && post
                == pre,
        },
    }
}

/// `get_property` of `key` on `object` took `pre` to `post` with result `r`.
pub open spec fn property_fetched(pre: Env, post: Env, object: Value, key: Value, r: Result<Value, Status>) -> bool {
    match pre.refusal(object) {
        Some(e) => r == Err::<Value, Status>(e) && post == pre,
        None => if !pre.valid(key) {
            r == Err::<Value, Status>(Status::InvalidArg) && post == pre
        } else {
            match (pre.slot(object), pre.slot(key)) {
                (Slot::Object(props), Slot::String(k)) => match lookup(props@, k@) {
                    Some(v) => r == Ok::<Value, Status>(v) && post == pre,
                    None => allocated(pre, post, r) && post.slot(
                        r->Ok_0,
                    ) == Slot::Undefined,
                },
                (Slot::Object(_), _) => r == Err::<Value, Status>(Status::NameExpected)
                    && post == pre,
                _ => r == Err::<Value, Status>(Status::ObjectExpected) && post
                    == pre,
            }
        },
    }
}

/// `get_property_names` of `object` took `pre` to `post` with result `r`.
pub open spec fn names_fetched(pre: Env, post: Env, object: Value, r: Result<Value, Status>) -> bool {
    match pre.refusal(object) {
        Some(e) => r == Err::<Value, Status>(e) && post == pre,
        None => match pre.slot(object) {
            Slot::Object(props) => names_listed(pre, post, props@, r),
            _ => r == Err::<Value, Status>(Status::ObjectExpected) && post
                == pre,
        },
    }
}

/// `object_set` of `key` to `value` on `object` took `pre` to `post` with result `r`.
pub open spec fn property_set(pre: Env, post: Env, object: Value, key: Value, value: Value, r: Result<(), Status>) -> bool {
    match pre.refusal(object) {
        Some(e) => r == Err::<(), Status>(e) && post == pre,
        None => if !pre.valid(key) || !pre.valid(value) {
            r == Err::<(), Status>(Status::InvalidArg) && post == pre
        } else {
            match (pre.slot(object), pre.slot(key)) {
                (Slot::Object(props), Slot::String(k)) => {
                    &&& r == Ok::<(), Status>(())
                    &&& post.exception == pre.exception
                    &&& post.slots@.len() == pre.slots@.len()
                    &&& forall|j: int|
                        0 <= j < pre.slots@.len() && j != object.index
                            ==> post.slots@[j] == pre.slots@[j]
                    &&& post.slot(object) is Object
                    &&& post.slot(object)->Object_0@ == assign(props@, k, value)
                },
                (Slot::Object(_), _) => r == Err::<(), Status>(Status::NameExpected)
                    && post == pre,
                _ => r == Err::<(), Status>(Status::ObjectExpected) && post
                    == pre,
            }
        },
    }
}

/// `delete_property` of `key` on `object` took `pre` to `post` with result `r`.
pub open spec fn property_deleted(pre: Env, post: Env, object: Value, key: Value, r: Result<(), Status>) -> bool {
    match pre.refusal(object) {
        Some(e) => r == Err::<(), Status>(e) && post == pre,
        None => if !pre.valid(key) {
            r == Err::<(), Status>(Status::InvalidArg) && post == pre
        } else {
            match (pre.slot(object), pre.slot(key)) {
                (Slot::Object(props), Slot::String(k)) => {
                    &&& r == Ok::<(), Status>(())
                    &&& post.exception == pre.exception
                    &&& post.slots@.len() == pre.slots@.len()
                    &&& forall|j: int|
                        0 <= j < pre.slots@.len() && j != object.index
                            ==> post.slots@[j] == pre.slots@[j]
                    &&& post.slot(object) is Object
                    &&& post.slot(object)->Object_0@ == unassign(props@, k@)
                },
                (Slot::Object(_), _) => r == Err::<(), Status>(Status::NameExpected)
                    && post == pre,
                _ => r == Err::<(), Status>(Status::ObjectExpected) && post
                    == pre,
            }
        },
    }
}

/// `array_set` of `value` at index `i` of `arr` took `pre` to `post` with result `r`.
pub open spec fn element_stored(pre: Env, post: Env, arr: Value, i: u32, value: Value, r: Result<(), Status>) -> bool {
    match pre.refusal(arr) {
        Some(e) => r == Err::<(), Status>(e) && post == pre,
        None => if !pre.valid(value) || i == u32::MAX {
            r == Err::<(), Status>(Status::InvalidArg) && post == pre
        } else {
            match pre.slot(arr) {
                Slot::Array(a) => {
                    &&& r == Ok::<(), Status>(())
                    &&& post.exception == pre.exception
                    &&& post.slots@.len() == pre.slots@.len()
                    &&& forall|j: int|
                        0 <= j < pre.slots@.len() && j != arr.index
                            ==> post.slots@[j] == pre.slots@[j]
                    &&& post.slot(arr) is Array
                    &&& post.slot(arr)->Array_0@ == stored(a@, i as nat, value)
                },
                _ => r == Err::<(), Status>(Status::ArrayExpected) && post
                    == pre,
            }
        },
    }
}

/// `post` is `pre` with one more value at the end, and `r` is its handle; or,
/// while an exception is pending, nothing changed and `r` says so.
pub open spec fn allocated(pre: Env, post: Env, r: Result<Value, Status>) -> bool {
    if pre.pending() {
        r == Err::<Value, Status>(Status::PendingException) && post == pre
    } else {
        &&& pre.slots@.len() <= usize::MAX
        &&& r == Ok::<Value, Status>(Value { index: pre.slots@.len() as usize })
        &&& post.slots@.len() == pre.slots@.len() + 1
        &&& post.slots@.drop_last() == pre.slots@
        &&& post.exception == pre.exception
    }
}

/// `post` holds every value of `pre` unchanged, maybe followed by new ones.
pub open spec fn extends(pre: Env, post: Env) -> bool {
    &&& post.exception == pre.exception
    &&& post.slots@.len() >= pre.slots@.len()
    &&& forall|j: int| 0 <= j < pre.slots@.len() ==> post.slots@[j] == pre.slots@[j]
}

/// Making one new value only extends the runtime.
pub proof fn lemma_allocated_extends(pre: Env, post: Env, r: Result<Value, Status>)
    requires
        allocated(pre, post, r),
    ensures
        extends(pre, post),
        r is Ok ==> r->Ok_0.index == pre.slots@.len() && post.valid(r->Ok_0),
{
    if !pre.pending() {
        assert forall|j: int| 0 <= j < pre.slots@.len() implies post.slots@[j] == pre.slots@[j] by {
            assert(post.slots@.drop_last()[j] == post.slots@[j]);
        }
    }
}

pub proof fn lemma_extends_trans(a: Env, b: Env, c: Env)
    requires
        extends(a, b),
        extends(b, c),
    ensures
        extends(a, c),
{
}

impl Env {
    pub open spec fn pending(&self) -> bool {
        self.exception is Some
    }

    pub open spec fn valid(&self, v: Value) -> bool {
        v.index < self.slots@.len()
    }

    pub open spec fn slot(&self, v: Value) -> Slot {
        self.slots@[v.index as int]
    }

    /// Why any primitive on `v` fails before it looks at what `v` holds.
    pub open spec fn refusal(&self, v: Value) -> Option<Status> {
        if self.pending() {
            Some(Status::PendingException)
        } else if !self.valid(v) {
            Some(Status::InvalidArg)
        } else {
            None
        }
    }

    pub open spec fn kind(&self, v: Value) -> Result<ValueType, Status> {
        match self.refusal(v) {
            Some(e) => Err(e),
            None => Ok(kind_of(self.slot(v))),
        }
    }

    pub open spec fn read_bool(&self, v: Value) -> Result<bool, Status> {
        match self.refusal(v) {
            Some(e) => Err(e),
            None => match self.slot(v) {
                Slot::Boolean(b) => Ok(b),
                _ => Err(Status::BooleanExpected),
            },
        }
    }

    pub open spec fn read_double(&self, v: Value) -> Result<u64, Status> {
        match self.refusal(v) {
            Some(e) => Err(e),
            None => match self.slot(v) {
                Slot::Number(n) => Ok(n),
                _ => Err(Status::NumberExpected),
            },
        }
    }

    pub open spec fn read_string(&self, v: Value) -> Result<String, Status> {
        match self.refusal(v) {
            Some(e) => Err(e),
            None => match self.slot(v) {
                Slot::String(s) => Ok(s),
                _ => Err(Status::StringExpected),
            },
        }
    }

    pub open spec fn read_bigint(&self, v: Value) -> Result<i64, Status> {
        match self.refusal(v) {
            Some(e) => Err(e),
            None => match self.slot(v) {
                Slot::BigInt(n) => Ok(n),
                _ => Err(Status::BigintExpected),
            },
        }
    }

    pub open spec fn array_len(&self, v: Value) -> Result<u32, Status> {
        match self.refusal(v) {
            Some(e) => Err(e),
            None => match self.slot(v) {
                Slot::Array(a) => if a@.len() <= u32::MAX {
                    Ok(a@.len() as u32)
                } else {
                    Err(Status::GenericFailure)
                },
                _ => Err(Status::ArrayExpected),
            },
        }
    }

    /// An empty runtime with no exception pending.
    pub fn new() -> (r: Env)
        ensures
            r.slots@.len() == 0,
            !r.pending(),
    {
        Env { slots: Vec::new(), exception: None }
    }

    fn refusal_of(&self, v: Value) -> (r: Option<Status>)
        ensures
            r == self.refusal(v),
    {
        if self.exception.is_some() {
            Some(Status::PendingException)
        } else if v.index >= self.slots.len() {
            Some(Status::InvalidArg)
        } else {
            None
        }
    }

    /// Whether `v` is a handle of this runtime.
    pub fn is_valid(&self, v: Value) -> (r: bool)
        ensures
            r == self.valid(v),
    {
        v.index < self.slots.len()
    }

    pub fn is_exception_pending(&self) -> (r: bool)
        ensures
            r == self.pending(),
    {
        self.exception.is_some()
    }

    /// Raises an error carrying `message`; every primitive fails from then on
    /// until the exception is taken.
    pub fn throw_error(&mut self, message: String)
        ensures
            final(self).exception == Some(message),
            final(self).slots == old(self).slots,
    {
        self.exception = Some(message);
    }

    /// Clears the pending exception and hands back its message.
    pub fn take_exception(&mut self) -> (r: Option<String>)
        ensures
            r == old(self).exception,
            !final(self).pending(),
            final(self).slots == old(self).slots,
    {
        let mut taken: Option<String> = None;
        std::mem::swap(&mut taken, &mut self.exception);
        taken
    }

    fn push_slot(&mut self, s: Slot) -> (r: Result<Value, Status>)
        ensures
            allocated(*old(self), *final(self), r),
            r is Ok ==> final(self).slot(r->Ok_0) == s,
    {
        if self.exception.is_some() {
            return Err(Status::PendingException);
        }
        let index = self.slots.len();
        self.slots.push(s);
        proof {
            assert(self.slots@.drop_last() =~= old(self).slots@);
        }
        Ok(Value { index })
    }

    pub fn typeof_value(&self, v: Value) -> (r: Result<ValueType, Status>)
        ensures
            r == self.kind(v),
    {
        if let Some(e) = self.refusal_of(v) {
            return Err(e);
        }
        match &self.slots[v.index] {
            Slot::Undefined => Ok(ValueType::Undefined),
            Slot::Null => Ok(ValueType::Null),
            Slot::Boolean(_) => Ok(ValueType::Boolean),
            Slot::Number(_) => Ok(ValueType::Number),
            Slot::String(_) => Ok(ValueType::String),
            Slot::Symbol => Ok(ValueType::Symbol),
            Slot::Function => Ok(ValueType::Function),
            Slot::BigInt(_) => Ok(ValueType::BigInt),
            Slot::Object(_) | Slot::Array(_) | Slot::ArrayBuffer(_) => Ok(ValueType::Object),
        }
    }

    pub fn get_value_bool(&self, v: Value) -> (r: Result<bool, Status>)
        ensures
            r == self.read_bool(v),
    {
        if let Some(e) = self.refusal_of(v) {
            return Err(e);
        }
        match &self.slots[v.index] {
            Slot::Boolean(b) => Ok(*b),
            _ => Err(Status::BooleanExpected),
        }
    }

    /// The bit pattern of the double that `v` holds.
    pub fn get_value_double(&self, v: Value) -> (r: Result<u64, Status>)
        ensures
            r == self.read_double(v),
    {
        if let Some(e) = self.refusal_of(v) {
            return Err(e);
        }
        match &self.slots[v.index] {
            Slot::Number(n) => Ok(*n),
            _ => Err(Status::NumberExpected),
        }
    }

    pub fn get_value_string(&self, v: Value) -> (r: Result<String, Status>)
        ensures
            r == self.read_string(v),
    {
        if let Some(e) = self.refusal_of(v) {
            return Err(e);
        }
        match &self.slots[v.index] {
            Slot::String(s) => Ok(s.clone()),
            _ => Err(Status::StringExpected),
        }
    }

    /// A copy of the bytes of the buffer `v`.
    pub fn get_value_arraybuffer(&self, v: Value) -> (r: Result<Vec<u8>, Status>)
        ensures
            match self.refusal(v) {
                Some(e) => r == Err::<Vec<u8>, Status>(e),
                None => match self.slot(v) {
                    Slot::ArrayBuffer(b) => r is Ok && r->Ok_0@ == b@,
                    _ => r == Err::<Vec<u8>, Status>(Status::InvalidArg),
                },
            },
    {
        if let Some(e) = self.refusal_of(v) {
            return Err(e);
        }
        match &self.slots[v.index] {
            Slot::ArrayBuffer(b) => {
                let mut out: Vec<u8> = Vec::new();
                let mut i: usize = 0;
                while i < b.len()
                    invariant
                        i <= b@.len(),
                        out@ == b@.subrange(0, i as int),
                    decreases b@.len() - i,
                {
                    out.push(b[i]);
                    i = i + 1;
                    proof {
                        assert(out@ =~= b@.subrange(0, i as int));
                    }
                }
                proof {
                    assert(out@ =~= b@);
                }
                Ok(out)
            },
            _ => Err(Status::InvalidArg),
        }
    }

    /// The length of the array `v`.
    pub fn get_array_len(&self, v: Value) -> (r: Result<u32, Status>)
        ensures
            r == self.array_len(v),
    {
        if let Some(e) = self.refusal_of(v) {
            return Err(e);
        }
        match &self.slots[v.index] {
            Slot::Array(a) => if a.len() <= u32::MAX as usize {
                Ok(a.len() as u32)
            } else {
                Err(Status::GenericFailure)
            },
            _ => Err(Status::ArrayExpected),
        }
    }

    pub fn get_undefined(&mut self) -> (r: Result<Value, Status>)
        ensures
            allocated(*old(self), *final(self), r),
            r is Ok ==> final(self).slot(r->Ok_0) == Slot::Undefined,
    {
        self.push_slot(Slot::Undefined)
    }

    pub fn get_null(&mut self) -> (r: Result<Value, Status>)
        ensures
            allocated(*old(self), *final(self), r),
            r is Ok ==> final(self).slot(r->Ok_0) == Slot::Null,
    {
        self.push_slot(Slot::Null)
    }

    pub fn create_bool(&mut self, b: bool) -> (r: Result<Value, Status>)
        ensures
            allocated(*old(self), *final(self), r),
            r is Ok ==> final(self).slot(r->Ok_0) == Slot::Boolean(b),
    {
        self.push_slot(Slot::Boolean(b))
    }

    /// A number whose IEEE-754 bit pattern is `bits`.
    pub fn create_double(&mut self, bits: u64) -> (r: Result<Value, Status>)
        ensures
            allocated(*old(self), *final(self), r),
            r is Ok ==> final(self).slot(r->Ok_0) == Slot::Number(bits),
    {
        self.push_slot(Slot::Number(bits))
    }

    pub fn create_string(&mut self, s: &str) -> (r: Result<Value, Status>)
        ensures
            allocated(*old(self), *final(self), r),
            r is Ok ==> final(self).slot(r->Ok_0) is String && final(self).slot(
                r->Ok_0,
            )->String_0@ == s@,
    {
        self.push_slot(Slot::String(s.to_owned()))
    }

    pub fn create_bigint_int64(&mut self, n: i64) -> (r: Result<Value, Status>)
        ensures
            allocated(*old(self), *final(self), r),
            r is Ok ==> final(self).slot(r->Ok_0) == Slot::BigInt(n),
    {
        self.push_slot(Slot::BigInt(n))
    }

    /// The value of the big integer `v`, and whether it fits an `i64`
    /// without loss (it always does here).
    pub fn get_value_bigint_int64(&self, v: Value) -> (r: Result<(i64, bool), Status>)
        ensures
            r == match self.read_bigint(v) {
                Ok(n) => Ok((n, true)),
                Err(e) => Err(e),
            },
    {
        if let Some(e) = self.refusal_of(v) {
            return Err(e);
        }
        match &self.slots[v.index] {
            Slot::BigInt(n) => Ok((*n, true)),
            _ => Err(Status::BigintExpected),
        }
    }

    pub fn create_symbol(&mut self) -> (r: Result<Value, Status>)
        ensures
            allocated(*old(self), *final(self), r),
            r is Ok ==> final(self).slot(r->Ok_0) == Slot::Symbol,
    {
        self.push_slot(Slot::Symbol)
    }

    pub fn create_function(&mut self) -> (r: Result<Value, Status>)
        ensures
            allocated(*old(self), *final(self), r),
            r is Ok ==> final(self).slot(r->Ok_0) == Slot::Function,
    {
        self.push_slot(Slot::Function)
    }

    /// An object with no properties.
    pub fn create_object(&mut self) -> (r: Result<Value, Status>)
        ensures
            allocated(*old(self), *final(self), r),
            r is Ok ==> final(self).slot(r->Ok_0) is Object && final(self).slot(
                r->Ok_0,
            )->Object_0@.len() == 0,
    {
        self.push_slot(Slot::Object(Vec::new()))
    }

    /// An array of `len` holes; lengths past `u32::MAX` are refused.
    pub fn create_array_with_length(&mut self, len: usize) -> (r: Result<Value, Status>)
        ensures
            !old(self).pending() && len > u32::MAX ==> r == Err::<Value, Status>(
                Status::InvalidArg,
            ) && *final(self) == *old(self),
            old(self).pending() || len <= u32::MAX ==> allocated(*old(self), *final(self), r),
            r is Ok ==> final(self).slot(r->Ok_0) is Array && final(self).slot(
                r->Ok_0,
            )->Array_0@ == holes(len as nat),
    {
        if self.exception.is_some() {
            return Err(Status::PendingException);
        }
        if len > u32::MAX as usize {
            return Err(Status::InvalidArg);
        }
        let mut elements: Vec<Option<Value>> = Vec::new();
        let mut i: usize = 0;
        while i < len
            invariant
                i <= len,
                elements@ == holes(i as nat),
            decreases len - i,
        {
            elements.push(None);
            i = i + 1;
            proof {
                assert(elements@ =~= holes(i as nat));
            }
        }
        self.push_slot(Slot::Array(elements))
    }

    /// A buffer holding a copy of `bytes`.
    pub fn create_arraybuffer(&mut self, bytes: &[u8]) -> (r: Result<Value, Status>)
        ensures
            allocated(*old(self), *final(self), r),
            r is Ok ==> final(self).slot(r->Ok_0) is ArrayBuffer && final(self).slot(
                r->Ok_0,
            )->ArrayBuffer_0@ == bytes@,
    {
        let mut copy: Vec<u8> = Vec::new();
        let mut i: usize = 0;
        while i < bytes.len()
            invariant
                i <= bytes@.len(),
                copy@ == bytes@.subrange(0, i as int),
            decreases bytes@.len() - i,
        {
            copy.push(bytes[i]);
            i = i + 1;
            proof {
                assert(copy@ =~= bytes@.subrange(0, i as int));
            }
        }
        proof {
            assert(copy@ =~= bytes@);
        }
        self.push_slot(Slot::ArrayBuffer(copy))
    }

    /// Element `i` of the array `arr`; a hole or an index past the end reads
    /// as a new `undefined`.
    pub fn get_array_element(&mut self, arr: Value, i: u32) -> (r: Result<Value, Status>)
        ensures
            element_fetched(*old(self), *final(self), arr, i, r),
    {
        if let Some(e) = self.refusal_of(arr) {
            return Err(e);
        }
        let found: Option<Value> = match &self.slots[arr.index] {
            Slot::Array(a) => if (i as usize) < a.len() {
                a[i as usize]
            } else {
                None
            },
            _ => {
                return Err(Status::ArrayExpected);
            },
        };
        match found {
            Some(v) => Ok(v),
            None => self.get_undefined(),
        }
    }

    /// The property of `object` named by the string `key`; a missing property
    /// reads as a new `undefined`.
    pub fn get_property(&mut self, object: Value, key: Value) -> (r: Result<Value, Status>)
        ensures
            property_fetched(*old(self), *final(self), object, key, r),
    {
        if let Some(e) = self.refusal_of(object) {
            return Err(e);
        }
        if key.index >= self.slots.len() {
            return Err(Status::InvalidArg);
        }
        let found: Option<Value> = match (&self.slots[object.index], &self.slots[key.index]) {
            (Slot::Object(props), Slot::String(k)) => {
                let i = find_property(props, k);
                if i < props.len() {
                    Some(props[i].value)
                } else {
                    None
                }
            },
            (Slot::Object(_), _) => {
                return Err(Status::NameExpected);
            },
            _ => {
                return Err(Status::ObjectExpected);
            },
        };
        match found {
            Some(v) => Ok(v),
            None => self.get_undefined(),
        }
    }

    /// A new array holding a new string for each own enumerable key of
    /// `object`, in order.
    pub fn get_property_names(&mut self, object: Value) -> (r: Result<Value, Status>)
        ensures
            names_fetched(*old(self), *final(self), object, r),
    {
        if let Some(e) = self.refusal_of(object) {
            return Err(e);
        }
        let mut keys: Vec<String> = Vec::new();
        match &self.slots[object.index] {
            Slot::Object(props) => {
                let mut i: usize = 0;
                while i < props.len()
                    invariant
                        i <= props@.len(),
                        keys@.len() == i,
                        forall|j: int| 0 <= j < i ==> keys@[j] == props@[j].key,
                    decreases props@.len() - i,
                {
                    keys.push(props[i].key.clone());
                    i = i + 1;
                }
            },
            _ => {
                return Err(Status::ObjectExpected);
            },
        }
        let ghost pre = *self;
        let ghost props = match pre.slot(object) {
            Slot::Object(p) => p@,
            _ => Seq::empty(),
        };
        let base = self.slots.len();
        let mut names: Vec<Option<Value>> = Vec::new();
        let mut i: usize = 0;
        while i < keys.len()
            invariant
                !self.pending(),
                self.exception == pre.exception,
                base == pre.slots@.len(),
                i <= keys@.len(),
                keys@.len() == props.len(),
                forall|j: int| 0 <= j < keys@.len() ==> keys@[j] == props[j].key,
                self.slots@.len() == base + i,
                self.slots@.subrange(0, base as int) == pre.slots@,
                forall|j: int|
                    0 <= j < i ==> self.slots@[base + j] == Slot::String(props[j].key),
                names@ == key_handles(base as nat, i as nat),
            decreases keys@.len() - i,
        {
            let index = self.slots.len();
            self.slots.push(Slot::String(keys[i].clone()));
            names.push(Some(Value { index }));
            i = i + 1;
            proof {
                assert(self.slots@.subrange(0, base as int) =~= pre.slots@);
                assert(names@ =~= key_handles(base as nat, i as nat));
            }
        }
        let index = self.slots.len();
        self.slots.push(Slot::Array(names));
        proof {
            assert forall|j: int| 0 <= j < base implies self.slots@[j] == pre.slots@[j] by {
                assert(self.slots@[j] == self.slots@.subrange(0, base as int)[j]);
            }
        }
        Ok(Value { index })
    }

    /// Sets the property named by the string `key` of `object` to `value`.
    pub fn object_set(&mut self, object: Value, key: Value, value: Value) -> (r: Result<(), Status>)
        ensures
            property_set(*old(self), *final(self), object, key, value, r),
    {
        if let Some(e) = self.refusal_of(object) {
            return Err(e);
        }
        if key.index >= self.slots.len() || value.index >= self.slots.len() {
            return Err(Status::InvalidArg);
        }
        let k: String = match (&self.slots[object.index], &self.slots[key.index]) {
            (Slot::Object(_), Slot::String(k)) => k.clone(),
            (Slot::Object(_), _) => {
                return Err(Status::NameExpected);
            },
            _ => {
                return Err(Status::ObjectExpected);
            },
        };
        let mut taken = Slot::Undefined;
        self.slots.set_and_swap(object.index, &mut taken);
        if let Slot::Object(mut props) = taken {
            let i = find_property(&props, &k);
            if i < props.len() {
                props.set(i, Property { key: k, value });
            } else {
                props.push(Property { key: k, value });
            }
            self.slots.set(object.index, Slot::Object(props));
        }
        Ok(())
    }

    /// Deletes the property named by the string `key` of `object`, if it has one.
    pub fn delete_property(&mut self, object: Value, key: Value) -> (r: Result<(), Status>)
        ensures
            property_deleted(*old(self), *final(self), object, key, r),
    {
        if let Some(e) = self.refusal_of(object) {
            return Err(e);
        }
        if key.index >= self.slots.len() {
            return Err(Status::InvalidArg);
        }
        let k: String = match (&self.slots[object.index], &self.slots[key.index]) {
            (Slot::Object(_), Slot::String(k)) => k.clone(),
            (Slot::Object(_), _) => {
                return Err(Status::NameExpected);
            },
            _ => {
                return Err(Status::ObjectExpected);
            },
        };
        let mut taken = Slot::Undefined;
        self.slots.set_and_swap(object.index, &mut taken);
        if let Slot::Object(mut props) = taken {
            let i = find_property(&props, &k);
            if i < props.len() {
                props.remove(i);
            }
            self.slots.set(object.index, Slot::Object(props));
        }
        Ok(())
    }

    /// Stores `value` at index `i` of the array `arr`; the last index a
    /// `u32` can hold is refused, so that lengths stay within `u32`.
    pub fn array_set(&mut self, arr: Value, i: u32, value: Value) -> (r: Result<(), Status>)
        ensures
            element_stored(*old(self), *final(self), arr, i, value, r),
    {
        if let Some(e) = self.refusal_of(arr) {
            return Err(e);
        }
        if value.index >= self.slots.len() || i == u32::MAX {
            return Err(Status::InvalidArg);
        }
        match &self.slots[arr.index] {
            Slot::Array(_) => {},
            _ => {
                return Err(Status::ArrayExpected);
            },
        }
        let mut taken = Slot::Undefined;
        self.slots.set_and_swap(arr.index, &mut taken);
        if let Slot::Array(mut a) = taken {
            let ghost a0 = a@;
            let at = i as usize;
            if at < a.len() {
                a.set(at, Some(value));
            } else {
                while a.len() < at
                    invariant
                        a0.len() <= a@.len() <= at,
                        a@ == a0 + Seq::new((a@.len() - a0.len()) as nat, |_j: int| None::<Value>),
                    decreases at - a@.len(),
                {
                    a.push(None);
                    proof {
                        assert(a@ =~= a0 + Seq::new((a@.len() - a0.len()) as nat, |_j: int| None::<Value>));
                    }
                }
                a.push(Some(value));
                proof {
                    assert(a@ =~= stored(a0, i as nat, value));
                }
            }
            self.slots.set(arr.index, Slot::Array(a));
        }
        Ok(())
    }

}

} // verus!
