//! What holds across the serializer and the deserializer: values written by
//! one read back through the other as they were written.

use vstd::prelude::*;
use crate::de::{enum_read, lists_keys, opened, Deserializer, ObjectAccessor};
use crate::error::{lifted, Error};
use crate::runtime::{
    assign, element_fetched, holes, lemma_allocated_extends, lemma_position, lookup, property_deleted, stored, Env,
    Property, Slot, Status, Value, ValueType,
};
use crate::se::{created, status_of, wraps};

verus! {

/// The elements of an array of length `n` whose first elements are `elems`
/// and whose other slots are holes.
pub open spec fn filled(elems: Seq<Value>, n: nat) -> Seq<Option<Value>> {
    Seq::new(n, |i: int| if i < elems.len() { Some(elems[i]) } else { None::<Value> })
}

/// No two properties share a key.
pub open spec fn distinct_keys(props: Seq<Property>) -> bool {
    forall|a: int, b: int| 0 <= a < b < props.len() ==> props[a].key@ != props[b].key@
}

/// A boolean written by `serialize_bool` is read back by `deserialize_bool`.
pub proof fn law_bool_round_trip(pre: Env, post: Env, r: Result<Value, Error>, b: bool)
    requires
        !pre.pending(),
        created(pre, post, r),
        r is Ok ==> post.slot(r->Ok_0) == Slot::Boolean(b),
    ensures
        r is Ok,
        lifted(post.read_bool(r->Ok_0)) == Ok::<bool, Error>(b),
{
    lemma_allocated_extends(pre, post, status_of(r));
}

/// A number written by `serialize_f64` is read back, bit for bit, by
/// `deserialize_f64`.
pub proof fn law_number_round_trip(pre: Env, post: Env, r: Result<Value, Error>, bits: u64)
    requires
        !pre.pending(),
        created(pre, post, r),
        r is Ok ==> post.slot(r->Ok_0) == Slot::Number(bits),
    ensures
        r is Ok,
        lifted(post.read_double(r->Ok_0)) == Ok::<u64, Error>(bits),
{
    lemma_allocated_extends(pre, post, status_of(r));
}

/// A string written by `serialize_str` is read back by `deserialize_string`.
pub proof fn law_string_round_trip(pre: Env, post: Env, r: Result<Value, Error>, s: Seq<char>)
    requires
        !pre.pending(),
        created(pre, post, r),
        r is Ok ==> post.slot(r->Ok_0) is String && post.slot(r->Ok_0)->String_0@ == s,
    ensures
        r is Ok,
        post.read_string(r->Ok_0) is Ok,
        post.read_string(r->Ok_0)->Ok_0@ == s,
{
    lemma_allocated_extends(pre, post, status_of(r));
}

/// Bytes written by `serialize_bytes` are what `deserialize_byte_buf` copies
/// out.
pub proof fn law_bytes_round_trip(pre: Env, post: Env, r: Result<Value, Error>, bytes: Seq<u8>)
    requires
        !pre.pending(),
        created(pre, post, r),
        r is Ok ==> post.slot(r->Ok_0) is ArrayBuffer && post.slot(r->Ok_0)->ArrayBuffer_0@
            == bytes,
    ensures
        r is Ok,
        post.refusal(r->Ok_0) is None,
        post.slot(r->Ok_0)->ArrayBuffer_0@ == bytes,
{
    lemma_allocated_extends(pre, post, status_of(r));
}

/// `None` and unit, written as `null`, are read back as `None` by
/// `deserialize_option` and as unit by `deserialize_unit`.
pub proof fn law_null_round_trip(pre: Env, post: Env, r: Result<Value, Error>)
    requires
        !pre.pending(),
        created(pre, post, r),
        r is Ok ==> post.slot(r->Ok_0) == Slot::Null,
    ensures
        r is Ok,
        post.kind(r->Ok_0) == Ok::<ValueType, Status>(ValueType::Null),
{
    lemma_allocated_extends(pre, post, status_of(r));
}

/// A unit variant, written as its name, is read back by `deserialize_enum`
/// as a unit variant of that name.
pub proof fn law_unit_variant_round_trip(pre: Env, post: Env, r: Result<Value, Error>, variant: Seq<char>)
    requires
        !pre.pending(),
        created(pre, post, r),
        r is Ok ==> post.slot(r->Ok_0) is String && post.slot(r->Ok_0)->String_0@ == variant,
    ensures
        r is Ok,
        enum_read(post, r->Ok_0) is Ok,
        enum_read(post, r->Ok_0)->Ok_0 is Unit,
        enum_read(post, r->Ok_0)->Ok_0->Unit_0@ == variant,
{
    lemma_allocated_extends(pre, post, status_of(r));
}

/// A variant with content, written as an object with the one property
/// `variant`, is read back by `deserialize_enum` as that variant wrapping
/// that content.
pub proof fn law_variant_round_trip(env: Env, wrapper: Value, variant: Seq<char>, inner: Value)
    requires
        !env.pending(),
        wraps(env, wrapper, variant, inner),
    ensures
        enum_read(env, wrapper) is Ok,
        enum_read(env, wrapper)->Ok_0 is Tagged,
        enum_read(env, wrapper)->Ok_0->Tagged_0@ == variant,
        enum_read(env, wrapper)->Ok_0->Tagged_1 == (Deserializer { value: inner }),
{
}

/// A new array is all holes; each element stored at the next offset, as
/// `serialize_element` does, takes the next hole.
pub proof fn law_array_fill(elems: Seq<Value>, n: nat, e: Value)
    requires
        elems.len() < n,
    ensures
        filled(Seq::empty(), n) == holes(n),
        stored(filled(elems, n), elems.len(), e) == filled(elems.push(e), n),
{
    assert(filled(Seq::empty(), n) =~= holes(n));
    assert(stored(filled(elems, n), elems.len(), e) =~= filled(elems.push(e), n));
}

/// An array filled with `elems` hands them back, in order and unchanged,
/// through `ArrayAccessor::next`.
pub proof fn law_array_read_back(
    pre: Env,
    post: Env,
    arr: Value,
    elems: Seq<Value>,
    i: u32,
    r: Result<Value, Status>,
)
    requires
        !pre.pending(),
        pre.valid(arr),
        pre.slot(arr) is Array,
        pre.slot(arr)->Array_0@ == filled(elems, elems.len()),
        i < elems.len(),
        element_fetched(pre, post, arr, i, r),
    ensures
        r == Ok::<Value, Status>(elems[i as int]),
        post == pre,
{
}

/// Setting a key an object does not have yet appends it, so the keys are
/// listed in the order they were written.
pub proof fn law_object_fill(props: Seq<Property>, key: String, value: Value)
    requires
        forall|j: int| 0 <= j < props.len() ==> props[j].key@ != key@,
    ensures
        assign(props, key, value) == props.push(Property { key, value }),
{
    lemma_position(props, key@, props.len() as int);
}

/// In an object whose keys are distinct, each key reads back the value
/// written under it.
pub proof fn law_object_read_back(props: Seq<Property>, i: int)
    requires
        distinct_keys(props),
        0 <= i < props.len(),
    ensures
        lookup(props, props[i].key@) == Some(props[i].value),
{
    lemma_position(props, props[i].key@, i);
}

/// The keys an `ObjectAccessor` yields are fixed when it is made: deleting a
/// property of the object afterwards leaves the accessor's list of keys as
/// it was.
pub proof fn law_key_snapshot(
    pre: Env,
    mid: Env,
    post: Env,
    object: Value,
    acc: ObjectAccessor,
    key: Value,
    r: Result<(), Status>,
)
    requires
        opened(pre, mid, object, Ok(acc)),
        property_deleted(mid, post, object, key, r),
    ensures
        pre.slot(object) is Object,
        lists_keys(mid, acc.keys.array, pre.slot(object)->Object_0@),
        lists_keys(post, acc.keys.array, pre.slot(object)->Object_0@),
{
    let props = pre.slot(object)->Object_0@;
    let base = pre.slots@.len();
    assert(acc.keys.array.index == base + props.len());
    assert(object.index < base);
}

} // verus!
