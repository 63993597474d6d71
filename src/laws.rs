use vstd::prelude::*;

use crate::error::ParseError;
use crate::in_type::InType;
use crate::schema::{
    field_step, group_step, PropertyInfo, PropertyNestedInfo, PropertyStructInfo, PropertyValue,
};
use crate::value::{fixed_size, value_size};

verus! {

/// A fixed-width leaf field with constant length and count, that publishes nothing, takes
/// exactly `length × count` bytes when they are there, and leaves the published values as
/// they were.
pub proof fn lemma_fixed_width_field(
    f: PropertyInfo,
    data: Seq<u8>,
    table: Map<usize, usize>,
    size: usize,
    count: usize,
)
    requires
        f.length == PropertyValue::Constant(size),
        f.count == PropertyValue::Constant(count),
        f.value matches PropertyNestedInfo::Value(_, info) && fixed_size(info.in_type) == Some(
            size as nat,
        ) && info.handle is None,
        data.len() >= size * count,
    ensures
        field_step(f, data, table) == Ok::<(int, Map<usize, usize>), ParseError>(
            ((size * count) as int, table),
        ),
{
}

/// A fixed-width type declared with any length but its own size fails with the size
/// error, whatever the bytes and the count.
pub proof fn lemma_wrong_length_fails(data: Seq<u8>, t: InType, length: nat, count: nat)
    requires
        fixed_size(t) is Some,
        fixed_size(t) != Some(length),
    ensures
        value_size(data, t, length, count) == Err::<int, ParseError>(ParseError::UnexpectedSize),
{
}

/// A length or count that refers to an index with no published value fails with the
/// unresolved-reference error for that index.
pub proof fn lemma_unpublished_reference_fails(
    f: PropertyInfo,
    data: Seq<u8>,
    table: Map<usize, usize>,
    h: usize,
)
    requires
        f.length is Constant,
        f.count == PropertyValue::Reference(h),
        !table.contains_key(h),
    ensures
        field_step(f, data, table) == Err::<(int, Map<usize, usize>), ParseError>(
            ParseError::InvalidPropertyReference(h),
        ),
{
}

/// In a group of two leaf fields, where the first is a single unsigned byte published
/// under `h` and the second an array of 16-bit values counted by `h`, the second takes
/// exactly twice the byte's value in bytes.
pub proof fn lemma_count_from_sibling(
    g: PropertyStructInfo,
    data: Seq<u8>,
    table: Map<usize, usize>,
    h: usize,
)
    requires
        g.fields@.len() == 2,
        g.fields@[0].length == PropertyValue::Constant(1),
        g.fields@[0].count == PropertyValue::Constant(1),
        !g.fields@[0].is_array,
        g.fields@[0].value matches PropertyNestedInfo::Value(_, a) && a.in_type == InType::UInt8
            && a.handle == Some(h),
        g.fields@[1].length == PropertyValue::Constant(2),
        g.fields@[1].count == PropertyValue::Reference(h),
        g.fields@[1].value matches PropertyNestedInfo::Value(_, b) && b.in_type == InType::UInt16
            && b.handle is None,
        data.len() >= 1 + 2 * data[0],
    ensures
        group_step(g, data, table, 2) == Ok::<(int, Map<usize, usize>), ParseError>(
            (1 + 2 * data[0], table.insert(h, data[0] as usize)),
        ),
{
    let t1 = table.insert(h, data[0] as usize);
    assert(group_step(g, data, table, 0) == Ok::<(int, Map<usize, usize>), ParseError>((0, table)));
    assert(data.subrange(0, data.len() as int) =~= data);
    assert(field_step(g.fields@[0], data, table) == Ok::<(int, Map<usize, usize>), ParseError>(
        (1, t1),
    ));
    assert(group_step(g, data, table, 1) == Ok::<(int, Map<usize, usize>), ParseError>((1, t1)));
    let rest = data.subrange(1, data.len() as int);
    assert(t1.contains_key(h) && t1[h] == data[0] as usize);
    assert(field_step(g.fields@[1], rest, t1) == Ok::<(int, Map<usize, usize>), ParseError>(
        ((2 * data[0]) as int, t1),
    ));
}

} // verus!
