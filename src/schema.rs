use std::collections::{HashMap, HashSet};
use vstd::prelude::*;

use crate::bytes::{le2, le4};
use crate::compound::{StringOrStruct, Struct, StructArray, StructOrValue};
use crate::error::ParseError;
use crate::event::{Event, EventRecord};
use crate::guid::Guid;
use crate::in_type::{in_type_of, InType};
use crate::in_value::InValue;
use crate::out_type::{out_type_of, OutType};
use crate::tdh::{
    map_string_spec, offset_string_spec, EventMapInfo, EventPropertyRaw, TraceEventInfo,
    EVENTMAP_ENTRY_VALUETYPE_STRING, EVENTMAP_ENTRY_VALUETYPE_ULONG,
    EVENTMAP_INFO_FLAG_MANIFEST_PATTERNMAP, PROPERTY_HAS_CUSTOM_SCHEMA, PROPERTY_PARAM_COUNT,
    PROPERTY_PARAM_FIXED_COUNT, PROPERTY_PARAM_LENGTH, PROPERTY_STRUCT,
};
use crate::text::{decimal, decimal_string, decode_utf16, utf16_text};
use crate::textmap::TextMap;
use crate::value::{fixed_size, items_match, value_size, Value};

verus! {

broadcast use vstd::std_specs::hash::group_hash_axioms;

/// Where a field's length or count comes from: a value fixed by the schema, or the
/// value published by an earlier field at the given index.
#[derive(Clone, Copy, Debug, PartialEq, Eq, Structural)]
pub enum PropertyValue {
    Constant(usize),
    Reference(usize),
}

/// One field of a schema.
#[derive(Debug)]
pub struct PropertyInfo {
    pub length: PropertyValue,
    pub count: PropertyValue,
    pub is_array: bool,
    pub value: PropertyNestedInfo,
}

/// An ordered group of fields: wire order is evaluation order.
#[derive(Debug)]
pub struct PropertyStructInfo {
    pub fields: Vec<PropertyInfo>,
}

/// A field is a nested struct or a leaf value, each with its display name.
#[derive(Debug)]
pub enum PropertyNestedInfo {
    Struct(String, PropertyStructInfo),
    Value(String, PropertyValueInfo),
}

/// How a leaf field is encoded, and the index it publishes its value under, if another
/// field takes its length or count from it.
#[derive(Debug)]
pub struct PropertyValueInfo {
    pub in_type: InType,
    pub out_type: OutType,
    pub map_name: Option<String>,
    pub handle: Option<usize>,
}

/// The length or count that `pv` stands for, given the values published so far.
pub open spec fn resolve(pv: PropertyValue, table: Map<usize, usize>) -> Option<usize> {
    match pv {
        PropertyValue::Constant(n) => Some(n),
        PropertyValue::Reference(h) => if table.contains_key(h) {
            Some(table[h])
        } else {
            None
        },
    }
}

/// The error for a length or count that cannot be resolved.
pub open spec fn unresolved(pv: PropertyValue) -> ParseError {
    match pv {
        PropertyValue::Constant(_) => ParseError::UnexpectedSize,
        PropertyValue::Reference(h) => ParseError::InvalidPropertyReference(h),
    }
}

/// The integer that a value of type `t` at the start of `data` publishes, for the types
/// that can supply a length or count.
pub open spec fn published_value(t: InType, data: Seq<u8>) -> Option<int> {
    match t {
        InType::UInt8 => Some(data[0] as int),
        InType::UInt16 => Some(le2(data, 0)),
        InType::UInt32 | InType::HexInt32 => Some(le4(data, 0)),
        _ => None,
    }
}

/// Decoding a leaf field: bytes taken and the published values after it, or the error.
pub open spec fn leaf_step(
    info: PropertyValueInfo,
    data: Seq<u8>,
    table: Map<usize, usize>,
    length: usize,
    count: usize,
    is_array: bool,
) -> Result<(int, Map<usize, usize>), ParseError> {
    match value_size(data, info.in_type, length as nat, count as nat) {
        Err(e) => Err(e),
        Ok(n) => match info.handle {
            None => Ok((n, table)),
            Some(h) => if count != 1 || is_array {
                Err(ParseError::PropertySizeNotAScalar)
            } else {
                match published_value(info.in_type, data) {
                    None => Err(ParseError::InvalidPropertySizeType(info.in_type)),
                    Some(v) => Ok((n, table.insert(h, v as usize))),
                }
            },
        },
    }
}

/// Decoding field `f` from the start of `data`: bytes taken and the published values
/// after it, or the error.
pub open spec fn field_step(f: PropertyInfo, data: Seq<u8>, table: Map<usize, usize>) -> Result<
    (int, Map<usize, usize>),
    ParseError,
>
    decreases f, 0nat, 0nat,
{
    match resolve(f.length, table) {
        None => Err(unresolved(f.length)),
        Some(length) => match resolve(f.count, table) {
            None => Err(unresolved(f.count)),
            Some(count) => match f.value {
                PropertyNestedInfo::Struct(_, g) => instances_step(g, data, table, count as nat),
                PropertyNestedInfo::Value(_, info) => leaf_step(
                    info,
                    data,
                    table,
                    length,
                    count,
                    f.is_array,
                ),
            },
        },
    }
}

/// Decoding `k` instances of the group `g` one after the other.
pub open spec fn instances_step(
    g: PropertyStructInfo,
    data: Seq<u8>,
    table: Map<usize, usize>,
    k: nat,
) -> Result<(int, Map<usize, usize>), ParseError>
    decreases g, 2nat, k,
{
    if k == 0 {
        Ok((0, table))
    } else {
        match instances_step(g, data, table, (k - 1) as nat) {
            Err(e) => Err(e),
            Ok((n, t)) => if 0 <= n <= data.len() {
                match group_step(g, data.subrange(n, data.len() as int), t, g.fields@.len()) {
                    Err(e) => Err(e),
                    Ok((m, t2)) => Ok((n + m, t2)),
                }
            } else {
                Err(ParseError::PrematureEndOfData)
            },
        }
    }
}

/// Decoding the first `i` fields of the group `g` one after the other.
pub open spec fn group_step(
    g: PropertyStructInfo,
    data: Seq<u8>,
    table: Map<usize, usize>,
    i: nat,
) -> Result<(int, Map<usize, usize>), ParseError>
    decreases g, 1nat, i,
{
    if i == 0 || i > g.fields@.len() {
        Ok((0, table))
    } else {
        match group_step(g, data, table, (i - 1) as nat) {
            Err(e) => Err(e),
            Ok((n, t)) => if 0 <= n <= data.len() {
                match field_step(g.fields@[i - 1], data.subrange(n, data.len() as int), t) {
                    Err(e) => Err(e),
                    Ok((m, t2)) => Ok((n + m, t2)),
                }
            } else {
                Err(ParseError::PrematureEndOfData)
            },
        }
    }
}

/// Resolves a length or count against the values published so far.
fn resolve_value(pv: &PropertyValue, table: &HashMap<usize, usize>) -> (r: Result<usize, ParseError>)
    ensures
        match resolve(*pv, table@) {
            None => r == Err::<usize, ParseError>(unresolved(*pv)),
            Some(n) => r == Ok::<usize, ParseError>(n),
        },
{
    match pv {
        PropertyValue::Constant(size) => Ok(*size),
        PropertyValue::Reference(handle) => match table.get(handle) {
            Some(v) => Ok(*v),
            None => Err(ParseError::InvalidPropertyReference(*handle)),
        },
    }
}

impl PropertyValueInfo {
    /// Decodes the value, then publishes it under `handle` when one is set; only a
    /// single unsigned 8-, 16- or 32-bit value can be published.
    pub fn decode<'b>(
        &self,
        userdata: &'b [u8],
        length_count_values: &mut HashMap<usize, usize>,
        length: usize,
        count: usize,
        is_array: bool,
    ) -> (r: Result<(Value<'b>, &'b [u8]), ParseError>)
        ensures
            match leaf_step(*self, userdata@, old(length_count_values)@, length, count, is_array) {
                Err(e) => r == Err::<(Value<'b>, &'b [u8]), ParseError>(e),
                Ok((n, t)) => (r matches Ok((v, rest)) && {
                    &&& 0 <= n <= userdata@.len()
                    &&& rest@ == userdata@.subrange(n, userdata@.len() as int)
                    &&& v.raw@ == userdata@.subrange(0, n)
                    &&& v.is_array == is_array
                    &&& v.value.datatype_spec() == self.in_type
                    &&& v.value.fixed_data() == (if fixed_size(self.in_type) is Some {
                        Some(v.raw@)
                    } else {
                        None
                    })
                    &&& leaf_decoded(*self, userdata@, length, count, is_array, v)
                    &&& final(length_count_values)@ == t
                }),
            },
            r is Err ==> final(length_count_values)@ == old(length_count_values)@,
    {
        let (value, remainder) = Value::parse(userdata, self.in_type, length, count, is_array)?;
        if let Some(handle) = self.handle {
            if count != 1 || value.is_array() {
                return Err(ParseError::PropertySizeNotAScalar);
            }
            let int_value: usize = match &value.value {
                InValue::UInt8(val) => match val.get(0) {
                    Some(x) => x as usize,
                    None => {
                        return Err(ParseError::PrematureEndOfData);
                    },
                },
                InValue::UInt16(val) => match val.get(0) {
                    Some(x) => x as usize,
                    None => {
                        return Err(ParseError::PrematureEndOfData);
                    },
                },
                InValue::UInt32(val) => match val.get(0) {
                    Some(x) => x as usize,
                    None => {
                        return Err(ParseError::PrematureEndOfData);
                    },
                },
                InValue::HexInt32(val) => match val.get(0) {
                    Some(x) => x as usize,
                    None => {
                        return Err(ParseError::PrematureEndOfData);
                    },
                },
                _ => {
                    return Err(ParseError::InvalidPropertySizeType(self.in_type));
                },
            };
            length_count_values.insert(handle, int_value);
        }
        Ok((value, remainder))
    }
}

/// Once decoding the instances of a group has failed, decoding more of them fails the same way.
pub proof fn lemma_instances_err_stays(
    g: PropertyStructInfo,
    data: Seq<u8>,
    table: Map<usize, usize>,
    k: nat,
    j: nat,
)
    requires
        k <= j,
        instances_step(g, data, table, k) is Err,
    ensures
        instances_step(g, data, table, j) == instances_step(g, data, table, k),
    decreases j,
{
    if j > k {
        lemma_instances_err_stays(g, data, table, k, (j - 1) as nat);
    }
}

/// Once decoding the fields of a group has failed, decoding more of them fails the same way.
pub proof fn lemma_group_err_stays(
    g: PropertyStructInfo,
    data: Seq<u8>,
    table: Map<usize, usize>,
    i: nat,
    j: nat,
)
    requires
        i <= j <= g.fields@.len(),
        group_step(g, data, table, i) is Err,
    ensures
        group_step(g, data, table, j) == group_step(g, data, table, i),
    decreases j,
{
    if j > i {
        lemma_group_err_stays(g, data, table, i, (j - 1) as nat);
    }
}

/// Whether `x` is the value that a leaf of `info` decodes to from the start of `data`.
pub open spec fn leaf_decoded(
    info: PropertyValueInfo,
    data: Seq<u8>,
    length: usize,
    count: usize,
    is_array: bool,
    x: Value,
) -> bool {
    match value_size(data, info.in_type, length as nat, count as nat) {
        Ok(n) => {
            &&& 0 <= n <= data.len()
            &&& x.raw@ == data.subrange(0, n)
            &&& x.is_array == is_array
            &&& x.value.datatype_spec() == info.in_type
            &&& x.value.fixed_data() == (if fixed_size(info.in_type) is Some {
                Some(x.raw@)
            } else {
                None
            })
            &&& items_match(x.value, data, length as nat)
            &&& (info.in_type != InType::Null ==> (x.value.fixed_data() is Some
                || x.value.item_count() == Some(count as nat)))
        },
        Err(_) => false,
    }
}

/// Whether `v` is what field `f` decodes to from the start of `data`, given the values
/// published so far.
pub open spec fn field_decoded(
    f: PropertyInfo,
    data: Seq<u8>,
    table: Map<usize, usize>,
    v: StructOrValue,
) -> bool
    decreases f, 0nat, 0nat,
{
    match resolve(f.length, table) {
        None => false,
        Some(length) => match resolve(f.count, table) {
            None => false,
            Some(count) => match f.value {
                PropertyNestedInfo::Value(_, info) => match v {
                    StructOrValue::Value(x) => leaf_decoded(info, data, length, count, f.is_array, x),
                    _ => false,
                },
                PropertyNestedInfo::Struct(_, g) => match v {
                    StructOrValue::Struct(a) => a.is_array == f.is_array && a.values@.len() == count
                        && instances_decoded(g, data, table, a.values@, count as nat),
                    _ => false,
                },
            },
        },
    }
}

/// Whether the first `j` of `insts` are the instances of group `g` decoded one after the
/// other from the start of `data`.
pub open spec fn instances_decoded(
    g: PropertyStructInfo,
    data: Seq<u8>,
    table: Map<usize, usize>,
    insts: Seq<Struct>,
    j: nat,
) -> bool
    decreases g, 2nat, j,
{
    if j == 0 {
        true
    } else if j > insts.len() {
        false
    } else {
        instances_decoded(g, data, table, insts, (j - 1) as nat) && match instances_step(
            g,
            data,
            table,
            (j - 1) as nat,
        ) {
            Ok((off, t)) => 0 <= off <= data.len() && insts[j - 1].values@.len()
                == g.fields@.len() && values_decoded(
                g,
                data.subrange(off, data.len() as int),
                t,
                insts[j - 1].values@,
                g.fields@.len(),
            ),
            Err(_) => false,
        }
    }
}

/// Whether the first `i` of `vals` are the fields of group `g` decoded one after the other
/// from the start of `data`.
pub open spec fn values_decoded(
    g: PropertyStructInfo,
    data: Seq<u8>,
    table: Map<usize, usize>,
    vals: Seq<StructOrValue>,
    i: nat,
) -> bool
    decreases g, 1nat, i,
{
    if i == 0 {
        true
    } else if i > vals.len() || i > g.fields@.len() {
        false
    } else {
        values_decoded(g, data, table, vals, (i - 1) as nat) && match group_step(
            g,
            data,
            table,
            (i - 1) as nat,
        ) {
            Ok((off, t)) => 0 <= off <= data.len() && field_decoded(
                g.fields@[i - 1],
                data.subrange(off, data.len() as int),
                t,
                vals[i - 1],
            ),
            Err(_) => false,
        }
    }
}

/// Whether `s` is what group `g` decodes to from the start of `data`.
pub open spec fn group_decoded(g: PropertyStructInfo, data: Seq<u8>, table: Map<usize, usize>, s: Struct) -> bool {
    s.values@.len() == g.fields@.len() && values_decoded(g, data, table, s.values@, g.fields@.len())
}

pub proof fn lemma_values_decoded_prefix(
    g: PropertyStructInfo,
    data: Seq<u8>,
    table: Map<usize, usize>,
    v1: Seq<StructOrValue>,
    v2: Seq<StructOrValue>,
    i: nat,
)
    requires
        i <= v1.len(),
        i <= v2.len(),
        v1.subrange(0, i as int) == v2.subrange(0, i as int),
    ensures
        values_decoded(g, data, table, v1, i) == values_decoded(g, data, table, v2, i),
    decreases i,
{
    if i > 0 {
        assert(v1[i - 1] == v1.subrange(0, i as int)[i - 1]);
        assert(v2[i - 1] == v2.subrange(0, i as int)[i - 1]);
        assert(v1.subrange(0, i - 1) =~= v1.subrange(0, i as int).subrange(0, i - 1));
        assert(v2.subrange(0, i - 1) =~= v2.subrange(0, i as int).subrange(0, i - 1));
        lemma_values_decoded_prefix(g, data, table, v1, v2, (i - 1) as nat);
    }
}

pub proof fn lemma_instances_decoded_prefix(
    g: PropertyStructInfo,
    data: Seq<u8>,
    table: Map<usize, usize>,
    s1: Seq<Struct>,
    s2: Seq<Struct>,
    j: nat,
)
    requires
        j <= s1.len(),
        j <= s2.len(),
        s1.subrange(0, j as int) == s2.subrange(0, j as int),
    ensures
        instances_decoded(g, data, table, s1, j) == instances_decoded(g, data, table, s2, j),
    decreases j,
{
    if j > 0 {
        assert(s1[j - 1] == s1.subrange(0, j as int)[j - 1]);
        assert(s2[j - 1] == s2.subrange(0, j as int)[j - 1]);
        assert(s1.subrange(0, j - 1) =~= s1.subrange(0, j as int).subrange(0, j - 1));
        assert(s2.subrange(0, j - 1) =~= s2.subrange(0, j as int).subrange(0, j - 1));
        lemma_instances_decoded_prefix(g, data, table, s1, s2, (j - 1) as nat);
    }
}

impl PropertyInfo {
    /// Decodes this field from the start of `userdata`, resolving its length and count
    /// first; a struct field decodes its group once per counted instance.
    pub fn decode<'b>(
        &self,
        userdata: &'b [u8],
        length_count_values: &mut HashMap<usize, usize>,
    ) -> (r: Result<(StructOrValue<'b>, &'b [u8]), ParseError>)
        ensures
            match field_step(*self, userdata@, old(length_count_values)@) {
                Err(e) => r == Err::<(StructOrValue<'b>, &'b [u8]), ParseError>(e),
                Ok((n, t)) => (r matches Ok((v, rest)) && {
                    &&& 0 <= n <= userdata@.len()
                    &&& rest@ == userdata@.subrange(n, userdata@.len() as int)
                    &&& final(length_count_values)@ == t
                    &&& field_decoded(*self, userdata@, old(length_count_values)@, v)
                }),
            },
            r is Err && (self.value is Value || resolve(self.length, old(length_count_values)@) is None
                || resolve(self.count, old(length_count_values)@) is None)
                ==> final(length_count_values)@ == old(length_count_values)@,
        decreases self,
    {
        let length = resolve_value(&self.length, length_count_values)?;
        let count = resolve_value(&self.count, length_count_values)?;
        match &self.value {
            PropertyNestedInfo::Struct(_name, struct_info) => {
                let ghost table0 = length_count_values@;
                let mut array_members: Vec<Struct<'b>> = Vec::new();
                let mut offset: usize = 0;
                let mut k: usize = 0;
                while k < count
                    invariant
                        k <= count,
                        offset <= userdata@.len(),
                        instances_step(*struct_info, userdata@, table0, k as nat) == Ok::<
                            (int, Map<usize, usize>),
                            ParseError,
                        >((offset as int, length_count_values@)),
                        array_members@.len() == k,
                        table0 == old(length_count_values)@,
                        self.value == PropertyNestedInfo::Struct(*_name, *struct_info),
                        resolve(self.count, table0) == Some(count),
                        resolve(self.length, table0) == Some(length),
                        instances_decoded(*struct_info, userdata@, table0, array_members@, k as nat),
                    decreases count - k,
                {
                    let rest = &userdata[offset..userdata.len()];
                    let ghost t = length_count_values@;
                    let (struc, remaining) = match struct_info.decode(rest, length_count_values) {
                        Ok(x) => x,
                        Err(e) => {
                            proof {
                                assert(rest@ =~= userdata@.subrange(
                                    offset as int,
                                    userdata@.len() as int,
                                ));
                                assert(instances_step(*struct_info, userdata@, table0, (k + 1) as nat)
                                    == Err::<(int, Map<usize, usize>), ParseError>(e));
                                lemma_instances_err_stays(
                                    *struct_info,
                                    userdata@,
                                    table0,
                                    (k + 1) as nat,
                                    count as nat,
                                );
                            }
                            return Err(e);
                        },
                    };
                    proof {
                        assert(rest@ =~= userdata@.subrange(offset as int, userdata@.len() as int));
                    }
                    offset = offset + (rest.len() - remaining.len());
                    let ghost old_members = array_members@;
                    array_members.push(struc);
                    k = k + 1;
                    proof {
                        let am = array_members@;
                        assert(am.subrange(0, old_members.len() as int) =~= old_members.subrange(
                            0,
                            old_members.len() as int,
                        ));
                        lemma_instances_decoded_prefix(
                            *struct_info,
                            userdata@,
                            table0,
                            old_members,
                            am,
                            old_members.len(),
                        );
                    }
                }
                Ok(
                    (
                        StructOrValue::Struct(
                            StructArray { values: array_members, is_array: self.is_array },
                        ),
                        &userdata[offset..userdata.len()],
                    ),
                )
            },
            PropertyNestedInfo::Value(_name, value_info) => {
                let (value, remaining) = value_info.decode(
                    userdata,
                    length_count_values,
                    length,
                    count,
                    self.is_array,
                )?;
                Ok((StructOrValue::Value(value), remaining))
            },
        }
    }
}

impl PropertyStructInfo {
    /// Decodes the fields in order, each from where the one before stopped.
    pub fn decode<'b>(
        &self,
        userdata: &'b [u8],
        length_count_values: &mut HashMap<usize, usize>,
    ) -> (r: Result<(Struct<'b>, &'b [u8]), ParseError>)
        ensures
            match group_step(*self, userdata@, old(length_count_values)@, self.fields@.len()) {
                Err(e) => r == Err::<(Struct<'b>, &'b [u8]), ParseError>(e),
                Ok((n, t)) => (r matches Ok((s, rest)) && {
                    &&& 0 <= n <= userdata@.len()
                    &&& rest@ == userdata@.subrange(n, userdata@.len() as int)
                    &&& final(length_count_values)@ == t
                    &&& group_decoded(*self, userdata@, old(length_count_values)@, s)
                }),
            },
        decreases self,
    {
        let ghost table0 = length_count_values@;
        let mut values: Vec<StructOrValue<'b>> = Vec::new();
        let mut offset: usize = 0;
        let mut i: usize = 0;
        while i < self.fields.len()
            invariant
                i <= self.fields@.len(),
                offset <= userdata@.len(),
                group_step(*self, userdata@, table0, i as nat) == Ok::<
                    (int, Map<usize, usize>),
                    ParseError,
                >((offset as int, length_count_values@)),
                values@.len() == i,
                table0 == old(length_count_values)@,
                values_decoded(*self, userdata@, table0, values@, i as nat),
            decreases self.fields@.len() - i,
        {
            let rest = &userdata[offset..userdata.len()];
            let (value, remaining) = match self.fields[i].decode(rest, length_count_values) {
                Ok(x) => x,
                Err(e) => {
                    proof {
                        assert(rest@ =~= userdata@.subrange(offset as int, userdata@.len() as int));
                        assert(group_step(*self, userdata@, table0, (i + 1) as nat) == Err::<
                            (int, Map<usize, usize>),
                            ParseError,
                        >(e));
                        lemma_group_err_stays(
                            *self,
                            userdata@,
                            table0,
                            (i + 1) as nat,
                            self.fields@.len(),
                        );
                    }
                    return Err(e);
                },
            };
            proof {
                assert(rest@ =~= userdata@.subrange(offset as int, userdata@.len() as int));
            }
            offset = offset + (rest.len() - remaining.len());
            let ghost old_values = values@;
            values.push(value);
            i = i + 1;
            proof {
                let vs = values@;
                assert(vs.subrange(0, old_values.len() as int) =~= old_values.subrange(
                    0,
                    old_values.len() as int,
                ));
                lemma_values_decoded_prefix(
                    *self,
                    userdata@,
                    table0,
                    old_values,
                    vs,
                    old_values.len(),
                );
            }
        }
        Ok((Struct { values }, &userdata[offset..userdata.len()]))
    }
}

/// The length that a descriptor declares.
pub open spec fn length_of(p: EventPropertyRaw) -> PropertyValue {
    if p.flags & PROPERTY_PARAM_LENGTH != 0 {
        PropertyValue::Reference(p.length as usize)
    } else {
        PropertyValue::Constant(p.length as usize)
    }
}

/// The element count that a descriptor declares.
pub open spec fn count_of(p: EventPropertyRaw) -> PropertyValue {
    if p.flags & PROPERTY_PARAM_COUNT != 0 {
        PropertyValue::Reference(p.count as usize)
    } else {
        PropertyValue::Constant(p.count as usize)
    }
}

pub open spec fn is_array_of(p: EventPropertyRaw) -> bool {
    p.flags & (PROPERTY_PARAM_COUNT | PROPERTY_PARAM_FIXED_COUNT) != 0
}

/// The name given to a field whose name cannot be read.
pub open spec fn fallback_name(idx: int) -> Seq<char> {
    "_unknown_property_"@ + decimal(idx as nat)
}

/// The display name of descriptor `p` at index `idx`: its text in the blob, or the
/// fallback where that cannot be read.
pub open spec fn name_spec(buf: Seq<u8>, p: EventPropertyRaw, idx: int) -> Seq<char> {
    match offset_string_spec(buf, p.name_offset as int, false) {
        Some(u) => match utf16_text(u) {
            Some(t) => t,
            None => fallback_name(idx),
        },
        None => fallback_name(idx),
    }
}

/// The map name of a leaf descriptor, where one can be read.
pub open spec fn map_name_spec(buf: Seq<u8>, p: EventPropertyRaw) -> Option<Seq<char>> {
    match offset_string_spec(buf, p.map_name_offset as int, false) {
        Some(u) => utf16_text(u),
        None => None,
    }
}

/// The first error met in building the descriptors in `[begin, end)` into a field group,
/// in build order: an index past the last descriptor, a custom-schema descriptor, or a
/// struct nested deeper than `depth` (which, with `depth` the number of descriptors,
/// happens only where a struct contains itself). `None` where the group builds.
pub open spec fn range_err(props: Seq<EventPropertyRaw>, begin: int, end: int, depth: nat) -> Option<
    ParseError,
>
    decreases depth, 1nat, end - begin,
{
    if begin >= end {
        None
    } else if begin < 0 || begin >= props.len() {
        Some(ParseError::IndexOutOfBounds { index: begin as usize, count: props.len() as usize })
    } else {
        match prop_err(props, begin, depth) {
            Some(e) => Some(e),
            None => range_err(props, begin + 1, end, depth),
        }
    }
}

/// The first error met in building descriptor `idx`, within `depth` levels of nesting.
pub open spec fn prop_err(props: Seq<EventPropertyRaw>, idx: int, depth: nat) -> Option<ParseError>
    decreases depth, 0nat, 0int,
{
    if !(0 <= idx < props.len()) {
        Some(ParseError::IndexOutOfBounds { index: idx as usize, count: props.len() as usize })
    } else {
        let p = props[idx];
        if p.flags & PROPERTY_STRUCT != 0 {
            if p.num_of_struct_members == 0 {
                None
            } else if depth == 0 {
                Some(ParseError::StructCycle(idx as usize))
            } else {
                range_err(
                    props,
                    p.struct_start_index as int,
                    p.struct_start_index + p.num_of_struct_members,
                    (depth - 1) as nat,
                )
            }
        } else if p.flags & PROPERTY_HAS_CUSTOM_SCHEMA != 0 {
            Some(ParseError::NotImplemented)
        } else {
            None
        }
    }
}

/// The first error met in building the descriptors in `[begin, end)`, nesting bounded by
/// the number of descriptors; `None` where the group builds.
pub open spec fn build_err(props: Seq<EventPropertyRaw>, begin: int, end: int) -> Option<ParseError> {
    range_err(props, begin, end, props.len())
}

/// Whether `g` is the field group built from the descriptors that start at `begin`.
pub open spec fn group_built(
    info: TraceEventInfo,
    refs: Set<usize>,
    begin: int,
    g: PropertyStructInfo,
) -> bool {
    fields_built(info, refs, begin, g.fields@, g.fields@.len())
}

/// Whether the first `i` fields of `fs` are built from the descriptors that start at `begin`.
pub open spec fn fields_built(
    info: TraceEventInfo,
    refs: Set<usize>,
    begin: int,
    fs: Seq<PropertyInfo>,
    i: nat,
) -> bool
    decreases fs, 1nat, i,
{
    if i == 0 {
        true
    } else if i > fs.len() {
        false
    } else {
        fields_built(info, refs, begin, fs, (i - 1) as nat) && field_built(
            info,
            refs,
            begin + i - 1,
            fs[i - 1],
        )
    }
}

/// Whether the first `i` fields of a group depend on those fields alone.
pub proof fn lemma_fields_built_prefix(
    info: TraceEventInfo,
    refs: Set<usize>,
    begin: int,
    fs1: Seq<PropertyInfo>,
    fs2: Seq<PropertyInfo>,
    i: nat,
)
    requires
        i <= fs1.len(),
        i <= fs2.len(),
        fs1.subrange(0, i as int) == fs2.subrange(0, i as int),
    ensures
        fields_built(info, refs, begin, fs1, i) == fields_built(info, refs, begin, fs2, i),
    decreases i,
{
    if i > 0 {
        assert(fs1[i - 1] == fs1.subrange(0, i as int)[i - 1]);
        assert(fs2[i - 1] == fs2.subrange(0, i as int)[i - 1]);
        assert(fs1.subrange(0, i - 1) =~= fs1.subrange(0, i as int).subrange(0, i - 1));
        assert(fs2.subrange(0, i - 1) =~= fs2.subrange(0, i as int).subrange(0, i - 1));
        lemma_fields_built_prefix(info, refs, begin, fs1, fs2, (i - 1) as nat);
    }
}

/// Whether `f` is the field built from descriptor `idx`.
pub open spec fn field_built(info: TraceEventInfo, refs: Set<usize>, idx: int, f: PropertyInfo) -> bool
    decreases f, 0nat,
{
    let p = info.properties@[idx];
    &&& f.length == length_of(p)
    &&& f.count == count_of(p)
    &&& f.is_array == is_array_of(p)
    &&& if p.flags & PROPERTY_STRUCT != 0 {
        match f.value {
            PropertyNestedInfo::Struct(name, g) => {
                &&& name@ == name_spec(info.buffer@, p, idx)
                &&& g.fields@.len() == p.num_of_struct_members
                &&& fields_built(info, refs, p.struct_start_index as int, g.fields@, g.fields@.len())
            },
            _ => false,
        }
    } else {
        match f.value {
            PropertyNestedInfo::Value(name, v) => {
                &&& name@ == name_spec(info.buffer@, p, idx)
                &&& v.in_type == in_type_of(p.in_type)
                &&& v.out_type == out_type_of(p.out_type)
                &&& v.handle == (if refs.contains(idx as usize) {
                    Some(idx as usize)
                } else {
                    None
                })
                &&& match v.map_name {
                    Some(m) => map_name_spec(info.buffer@, p) == Some(m@),
                    None => map_name_spec(info.buffer@, p) is None,
                }
            },
            _ => false,
        }
    }
}

/// The display name of descriptor `p` at index `idx`.
fn property_name(info: &TraceEventInfo, p: &EventPropertyRaw, idx: usize) -> (r: String)
    ensures
        r@ == name_spec(info.buffer@, *p, idx as int),
{
    if let Some(units) = info.offset_string(p.name_offset, false) {
        if let Some(name) = decode_utf16(units.as_slice()) {
            return name;
        }
    }
    let digits = decimal_string(idx);
    let name = String::from_str("_unknown_property_").concat(digits.as_str());
    proof {
        reveal_strlit("_unknown_property_");
    }
    name
}

/// The map name of leaf descriptor `p`, where one can be read.
fn property_map_name(info: &TraceEventInfo, p: &EventPropertyRaw) -> (r: Option<String>)
    ensures
        match r {
            Some(m) => map_name_spec(info.buffer@, *p) == Some(m@),
            None => map_name_spec(info.buffer@, *p) is None,
        },
{
    match info.offset_string(p.map_name_offset, false) {
        Some(units) => decode_utf16(units.as_slice()),
        None => None,
    }
}

impl PropertyStructInfo {
    /// Builds the field group of the descriptors in `[prop_begin, prop_end)`, recursing
    /// into the member range of each struct. A field listed in `length_count_properties`
    /// publishes its value under its index. Fails with the first error in build order.
    pub fn parse(
        trace_event_info: &TraceEventInfo,
        length_count_properties: &HashSet<usize>,
        prop_begin: usize,
        prop_end: usize,
    ) -> (r: Result<Self, ParseError>)
        ensures
            match build_err(trace_event_info.properties@, prop_begin as int, prop_end as int) {
                Some(e) => r == Err::<Self, ParseError>(e),
                None => r is Ok,
            },
            r matches Ok(g) ==> {
                &&& g.fields@.len() == (if prop_begin < prop_end {
                    prop_end - prop_begin
                } else {
                    0
                })
                &&& group_built(
                    *trace_event_info,
                    length_count_properties@,
                    prop_begin as int,
                    g,
                )
            },
    {
        let depth = trace_event_info.property_count();
        Self::parse_nested(trace_event_info, length_count_properties, prop_begin, prop_end, depth)
    }

    /// `parse`, with structs nested at most `depth` levels below this group.
    fn parse_nested(
        trace_event_info: &TraceEventInfo,
        length_count_properties: &HashSet<usize>,
        prop_begin: usize,
        prop_end: usize,
        depth: usize,
    ) -> (r: Result<Self, ParseError>)
        ensures
            match range_err(
                trace_event_info.properties@,
                prop_begin as int,
                prop_end as int,
                depth as nat,
            ) {
                Some(e) => r == Err::<Self, ParseError>(e),
                None => r is Ok,
            },
            r matches Ok(g) ==> {
                &&& g.fields@.len() == (if prop_begin < prop_end {
                    prop_end - prop_begin
                } else {
                    0
                })
                &&& group_built(
                    *trace_event_info,
                    length_count_properties@,
                    prop_begin as int,
                    g,
                )
            },
        decreases depth,
    {
        let ghost props = trace_event_info.properties@;
        let ghost refs = length_count_properties@;
        let count = trace_event_info.property_count();
        let mut fields: Vec<PropertyInfo> = Vec::new();
        let mut idx: usize = prop_begin;
        while idx < prop_end
            invariant
                props == trace_event_info.properties@,
                refs == length_count_properties@,
                count == props.len(),
                prop_begin <= idx,
                prop_begin < prop_end ==> idx <= prop_end,
                prop_begin >= prop_end ==> idx == prop_begin,
                fields@.len() == idx - prop_begin,
                range_err(props, prop_begin as int, prop_end as int, depth as nat) == range_err(
                    props,
                    idx as int,
                    prop_end as int,
                    depth as nat,
                ),
                fields_built(*trace_event_info, refs, prop_begin as int, fields@, fields@.len()),
            decreases prop_end - idx,
        {
            let property = match trace_event_info.get_raw_property(idx) {
                Some(p) => p,
                None => {
                    return Err(ParseError::IndexOutOfBounds { index: idx, count });
                },
            };
            let name = property_name(trace_event_info, property, idx);
            let length = if property.flags & PROPERTY_PARAM_LENGTH != 0 {
                PropertyValue::Reference(property.length as usize)
            } else {
                PropertyValue::Constant(property.length as usize)
            };
            let count_value = if property.flags & PROPERTY_PARAM_COUNT != 0 {
                PropertyValue::Reference(property.count as usize)
            } else {
                PropertyValue::Constant(property.count as usize)
            };
            let is_array = property.flags & (PROPERTY_PARAM_COUNT | PROPERTY_PARAM_FIXED_COUNT) != 0;
            let value = if property.flags & PROPERTY_STRUCT != 0 {
                let members = property.num_of_struct_members as usize;
                let start = property.struct_start_index as usize;
                if members == 0 {
                    PropertyNestedInfo::Struct(name, PropertyStructInfo { fields: Vec::new() })
                } else if depth == 0 {
                    return Err(ParseError::StructCycle(idx));
                } else {
                    match PropertyStructInfo::parse_nested(
                        trace_event_info,
                        length_count_properties,
                        start,
                        start + members,
                        depth - 1,
                    ) {
                        Ok(sub) => PropertyNestedInfo::Struct(name, sub),
                        Err(e) => {
                            return Err(e);
                        },
                    }
                }
            } else if property.flags & PROPERTY_HAS_CUSTOM_SCHEMA != 0 {
                return Err(ParseError::NotImplemented);
            } else {
                let map_name = property_map_name(trace_event_info, property);
                let handle = if length_count_properties.contains(&idx) {
                    Some(idx)
                } else {
                    None
                };
                PropertyNestedInfo::Value(
                    name,
                    PropertyValueInfo {
                        in_type: InType::from(property.in_type),
                        out_type: OutType::from(property.out_type),
                        map_name,
                        handle,
                    },
                )
            };
            let field = PropertyInfo { length, count: count_value, is_array, value };
            proof {
                assert(prop_err(props, idx as int, depth as nat) is None);
                assert(field_built(*trace_event_info, refs, idx as int, field));
            }
            let ghost old_fields = fields@;
            fields.push(field);
            idx = idx + 1;
            proof {
                let fs = fields@;
                assert(fs.subrange(0, old_fields.len() as int) =~= old_fields.subrange(
                    0,
                    old_fields.len() as int,
                ));
                lemma_fields_built_prefix(
                    *trace_event_info,
                    refs,
                    prop_begin as int,
                    old_fields,
                    fs,
                    old_fields.len(),
                );
            }
        }
        let g = PropertyStructInfo { fields };
        Ok(g)
    }
}

/// A value-translation table: from integers, or from strings, to labels.
#[derive(Debug)]
pub enum StringOrIntegerMap {
    Integer(HashMap<u32, String>),
    String(TextMap<String>),
}

/// Whether a wire type code is one that a value map can translate: unsigned 8-, 16- or
/// 32-bit, or hexadecimal 32-bit.
pub open spec fn mappable_code(code: u16) -> bool {
    code == 4 || code == 6 || code == 8 || code == 20
}

/// Whether a descriptor is of a shape that a value map can apply to: a single value, not a
/// struct and not an array.
pub open spec fn map_eligible(p: EventPropertyRaw) -> bool {
    p.flags & (PROPERTY_STRUCT | PROPERTY_PARAM_COUNT | PROPERTY_PARAM_FIXED_COUNT) == 0
}

/// The label text at `offset` of a map blob: empty where there is none.
pub open spec fn map_label(buf: Seq<u8>, offset: int) -> Option<Seq<char>> {
    match map_string_spec(buf, offset, false) {
        Some(u) => utf16_text(u),
        None => Some(Seq::empty()),
    }
}

/// The name of the map that descriptor `p` refers to, without its terminator.
pub open spec fn map_name_text(buf: Seq<u8>, p: EventPropertyRaw) -> Option<Seq<char>> {
    match offset_string_spec(buf, p.map_name_offset as int, true) {
        Some(u) => utf16_text(
            if u.len() > 0 && u.last() == 0 {
                u.drop_last()
            } else {
                u
            },
        ),
        None => None,
    }
}

/// Whether the texts of the first `n` entries of a map can be read: each label, and for a
/// map keyed by strings each key.
pub open spec fn entries_readable(mi: EventMapInfo, n: int) -> bool {
    forall|i: int|
        0 <= i < n ==> map_label(mi.buffer@, (#[trigger] mi.entries@[i]).output_offset as int) is Some
            && (mi.map_entry_value_type == EVENTMAP_ENTRY_VALUETYPE_STRING ==> map_label(
            mi.buffer@,
            mi.entries@[i].value as int,
        ) is Some)
}

/// Whether descriptor `p` can refer to a map, and the map's name can be read.
pub open spec fn map_name_ok(info: TraceEventInfo, p: EventPropertyRaw) -> bool {
    &&& map_eligible(p)
    &&& p.map_name_offset != 0
    &&& mappable_code(p.in_type)
    &&& map_name_text(info.buffer@, p) is Some
}

/// Whether the map that descriptor `p` refers to can be built from `mi`.
pub open spec fn map_parse_ok(info: TraceEventInfo, p: EventPropertyRaw, mi: EventMapInfo) -> bool {
    &&& map_name_ok(info, p)
    &&& mi.flag & EVENTMAP_INFO_FLAG_MANIFEST_PATTERNMAP == 0
    &&& (mi.map_entry_value_type == EVENTMAP_ENTRY_VALUETYPE_ULONG || mi.map_entry_value_type
        == EVENTMAP_ENTRY_VALUETYPE_STRING)
    &&& entries_readable(mi, mi.entries@.len() as int)
}

/// Whether `h` holds, for each integer key among the first `n` entries of `mi`, the label
/// of the last of those entries with that key, and nothing else.
pub open spec fn integer_map_upto(mi: EventMapInfo, n: int, h: Map<u32, String>) -> bool {
    &&& forall|k: u32|
        #[trigger] h.contains_key(k) <==> exists|i: int|
            0 <= i < n && #[trigger] mi.entries@[i].value == k
    &&& forall|k: u32|
        #[trigger] h.contains_key(k) ==> exists|i: int|
            0 <= i < n && #[trigger] mi.entries@[i].value == k && map_label(
                mi.buffer@,
                mi.entries@[i].output_offset as int,
            ) == Some(h[k]@) && forall|j: int| i < j < n ==> (#[trigger] mi.entries@[j]).value != k
}

/// Whether `t` holds, for each key text among the first `n` entries of `mi`, the label of
/// the last of those entries with that key, and nothing else.
pub open spec fn string_map_upto(mi: EventMapInfo, n: int, t: TextMap<String>) -> bool {
    &&& t.wf()
    &&& forall|k: Seq<char>|
        #[trigger] t.get_spec(k) is Some <==> exists|i: int|
            0 <= i < n && map_label(mi.buffer@, (#[trigger] mi.entries@[i]).value as int) == Some(k)
    &&& forall|k: Seq<char>|
        #[trigger] t.get_spec(k) is Some ==> exists|i: int|
            0 <= i < n && map_label(mi.buffer@, (#[trigger] mi.entries@[i]).value as int) == Some(k)
                && map_label(mi.buffer@, mi.entries@[i].output_offset as int) == Some(
                t.get_spec(k)->0@,
            ) && forall|j: int|
                i < j < n ==> map_label(mi.buffer@, (#[trigger] mi.entries@[j]).value as int)
                    != Some(k)
}

/// Whether `(name, m)` is the map built for descriptor `p` from `mi`.
pub open spec fn map_built(
    info: TraceEventInfo,
    p: EventPropertyRaw,
    mi: EventMapInfo,
    name: Seq<char>,
    m: StringOrIntegerMap,
) -> bool {
    &&& map_name_text(info.buffer@, p) == Some(name)
    &&& match m {
        StringOrIntegerMap::Integer(h) => mi.map_entry_value_type == EVENTMAP_ENTRY_VALUETYPE_ULONG
            && integer_map_upto(mi, mi.entries@.len() as int, h@),
        StringOrIntegerMap::String(t) => mi.map_entry_value_type == EVENTMAP_ENTRY_VALUETYPE_STRING
            && string_map_upto(mi, mi.entries@.len() as int, t),
    }
}

/// The label text at `offset` of a map blob, or an empty string where there is none.
fn map_text(info: &EventMapInfo, offset: u32) -> (r: Result<String, ParseError>)
    ensures
        match map_label(info.buffer@, offset as int) {
            Some(t) => (r matches Ok(s) && s@ == t),
            None => r matches Err(ParseError::Utf16Decode),
        },
{
    match info.offset_string(offset as usize, false) {
        Some(units) => match decode_utf16(units.as_slice()) {
            Some(s) => Ok(s),
            None => Err(ParseError::Utf16Decode),
        },
        None => Ok(String::new()),
    }
}

impl StringOrIntegerMap {
    /// The name, terminator included, of the map that a leaf descriptor refers to. Only
    /// a single (non-struct, non-array) field of an unsigned 8-, 16- or 32-bit or hex32
    /// type can have one.
    pub fn map_name(
        trace_event_info: &TraceEventInfo,
        property: &EventPropertyRaw,
    ) -> (r: Result<Vec<u16>, ParseError>)
        ensures
            !map_eligible(*property) ==> r matches Err(ParseError::InvalidType),
            map_eligible(*property) && property.map_name_offset == 0 ==> r matches Err(
                ParseError::NoMapName,
            ),
            map_eligible(*property) && property.map_name_offset != 0 && !mappable_code(
                property.in_type,
            ) ==> r matches Err(ParseError::InvalidType),
            map_eligible(*property) && property.map_name_offset != 0 && mappable_code(
                property.in_type,
            ) ==> match offset_string_spec(
                trace_event_info.buffer@,
                property.map_name_offset as int,
                true,
            ) {
                Some(u) => (r matches Ok(v) && v@ == u),
                None => r matches Err(ParseError::UnalignedData(_)),
            },
    {
        if property.flags & (PROPERTY_STRUCT | PROPERTY_PARAM_COUNT | PROPERTY_PARAM_FIXED_COUNT)
            != 0 {
            return Err(ParseError::InvalidType);
        }
        if property.map_name_offset == 0 {
            return Err(ParseError::NoMapName);
        }
        let t = property.in_type;
        if !(t == 4 || t == 6 || t == 8 || t == 20) {
            return Err(ParseError::InvalidType);
        }
        match trace_event_info.offset_string(property.map_name_offset, true) {
            Some(units) => Ok(units),
            None => Err(ParseError::UnalignedData(String::from_str("MapNameOffset"))),
        }
    }

    /// Builds the map that a leaf descriptor refers to from the map's source data: its
    /// name without terminator, and its entries, a later entry with the same key replacing
    /// an earlier one. A pattern map is not supported.
    pub fn parse(
        trace_event_info: &TraceEventInfo,
        property: &EventPropertyRaw,
        event_map_info: &EventMapInfo,
    ) -> (r: Result<(String, StringOrIntegerMap), ParseError>)
        ensures
            r is Ok <==> map_parse_ok(*trace_event_info, *property, *event_map_info),
            !map_eligible(*property) ==> r matches Err(ParseError::InvalidType),
            map_eligible(*property) && property.map_name_offset == 0 ==> r matches Err(
                ParseError::NoMapName,
            ),
            map_eligible(*property) && property.map_name_offset != 0 && !mappable_code(
                property.in_type,
            ) ==> r matches Err(ParseError::InvalidType),
            map_eligible(*property) && property.map_name_offset != 0 && mappable_code(
                property.in_type,
            ) ==> match offset_string_spec(
                trace_event_info.buffer@,
                property.map_name_offset as int,
                true,
            ) {
                None => r matches Err(ParseError::UnalignedData(_)),
                Some(_) => map_name_text(trace_event_info.buffer@, *property) is None ==> r matches Err(
                    ParseError::Utf16Decode,
                ),
            },
            map_name_ok(*trace_event_info, *property) && (event_map_info.flag
                & EVENTMAP_INFO_FLAG_MANIFEST_PATTERNMAP != 0 || (
            event_map_info.map_entry_value_type != EVENTMAP_ENTRY_VALUETYPE_ULONG
                && event_map_info.map_entry_value_type != EVENTMAP_ENTRY_VALUETYPE_STRING))
                ==> r matches Err(ParseError::NotImplemented),
            map_name_ok(*trace_event_info, *property) && event_map_info.flag
                & EVENTMAP_INFO_FLAG_MANIFEST_PATTERNMAP == 0 && (
            event_map_info.map_entry_value_type == EVENTMAP_ENTRY_VALUETYPE_ULONG
                || event_map_info.map_entry_value_type == EVENTMAP_ENTRY_VALUETYPE_STRING)
                && !entries_readable(*event_map_info, event_map_info.entries@.len() as int)
                ==> r matches Err(ParseError::Utf16Decode),
            r matches Ok((name, m)) ==> map_built(
                *trace_event_info,
                *property,
                *event_map_info,
                name@,
                m,
            ),
    {
        let units = Self::map_name(trace_event_info, property)?;
        let n = units.len();
        let name = if n > 0 && units[n - 1] == 0 {
            let without = units.as_slice().split_at(n - 1).0;
            proof {
                assert(without@ =~= units@.drop_last());
            }
            decode_utf16(without)
        } else {
            decode_utf16(units.as_slice())
        };
        let name = match name {
            Some(s) => s,
            None => {
                return Err(ParseError::Utf16Decode);
            },
        };
        if event_map_info.flag & EVENTMAP_INFO_FLAG_MANIFEST_PATTERNMAP != 0 {
            return Err(ParseError::NotImplemented);
        }
        let ghost mi = *event_map_info;
        if event_map_info.map_entry_value_type == EVENTMAP_ENTRY_VALUETYPE_ULONG {
            let mut map: HashMap<u32, String> = HashMap::new();
            let mut idx: usize = 0;
            while idx < event_map_info.entries.len()
                invariant
                    mi == *event_map_info,
                    idx <= mi.entries@.len(),
                    mi.map_entry_value_type == EVENTMAP_ENTRY_VALUETYPE_ULONG,
                    map_name_ok(*trace_event_info, *property),
                    mi.flag & EVENTMAP_INFO_FLAG_MANIFEST_PATTERNMAP == 0,
                    entries_readable(mi, idx as int),
                    integer_map_upto(mi, idx as int, map@),
                decreases mi.entries@.len() - idx,
            {
                let entry = event_map_info.entries[idx];
                let label = match map_text(event_map_info, entry.output_offset) {
                    Ok(label) => label,
                    Err(e) => {
                        proof {
                            assert(!entries_readable(mi, mi.entries@.len() as int)) by {
                                assert(mi.entries@[idx as int] == entry);
                            }
                        }
                        return Err(e);
                    },
                };
                let ghost old_map = map@;
                let ghost label_view = label@;
                map.insert(entry.value, label);
                idx = idx + 1;
                proof {
                    let n = idx as int;
                    assert(mi.entries@[n - 1] == entry);
                    assert forall|k: u32| #[trigger] map@.contains_key(k) <==> exists|i: int|
                        0 <= i < n && #[trigger] mi.entries@[i].value == k by {
                        if k == entry.value {
                            assert(mi.entries@[n - 1].value == k);
                        } else if map@.contains_key(k) {
                            assert(old_map.contains_key(k));
                        } else {
                            if exists|i: int| 0 <= i < n && #[trigger] mi.entries@[i].value == k {
                                let i = choose|i: int|
                                    0 <= i < n && #[trigger] mi.entries@[i].value == k;
                                assert(i < n - 1);
                                assert(old_map.contains_key(k));
                            }
                        }
                    }
                    assert forall|k: u32| #[trigger] map@.contains_key(k) implies exists|i: int|
                        0 <= i < n && #[trigger] mi.entries@[i].value == k && map_label(
                            mi.buffer@,
                            mi.entries@[i].output_offset as int,
                        ) == Some(map@[k]@) && forall|j: int|
                            i < j < n ==> (#[trigger] mi.entries@[j]).value != k by {
                        if k == entry.value {
                            assert(mi.entries@[n - 1].value == k);
                            assert(map@[k]@ == label_view);
                        } else {
                            assert(old_map.contains_key(k));
                            let i0 = choose|i: int|
                                0 <= i < n - 1 && #[trigger] mi.entries@[i].value == k
                                    && map_label(mi.buffer@, mi.entries@[i].output_offset as int)
                                    == Some(old_map[k]@) && forall|j: int|
                                    i < j < n - 1 ==> (#[trigger] mi.entries@[j]).value != k;
                            assert(mi.entries@[i0].value == k);
                            assert forall|j: int| i0 < j < n implies (
                            #[trigger] mi.entries@[j]).value != k by {
                                if j < n - 1 {
                                } else {
                                    assert(mi.entries@[j] == entry);
                                }
                            }
                        }
                    }
                    assert(entries_readable(mi, n)) by {
                        assert forall|i: int| 0 <= i < n implies map_label(
                            mi.buffer@,
                            (#[trigger] mi.entries@[i]).output_offset as int,
                        ) is Some && (mi.map_entry_value_type == EVENTMAP_ENTRY_VALUETYPE_STRING
                            ==> map_label(mi.buffer@, mi.entries@[i].value as int) is Some) by {
                            if i == n - 1 {
                            }
                        }
                    }
                }
            }
            Ok((name, StringOrIntegerMap::Integer(map)))
        } else if event_map_info.map_entry_value_type == EVENTMAP_ENTRY_VALUETYPE_STRING {
            let mut map: TextMap<String> = TextMap::new();
            let mut idx: usize = 0;
            while idx < event_map_info.entries.len()
                invariant
                    mi == *event_map_info,
                    idx <= mi.entries@.len(),
                    mi.map_entry_value_type == EVENTMAP_ENTRY_VALUETYPE_STRING,
                    map_name_ok(*trace_event_info, *property),
                    mi.flag & EVENTMAP_INFO_FLAG_MANIFEST_PATTERNMAP == 0,
                    entries_readable(mi, idx as int),
                    string_map_upto(mi, idx as int, map),
                decreases mi.entries@.len() - idx,
            {
                let entry = event_map_info.entries[idx];
                let key = match map_text(event_map_info, entry.value) {
                    Ok(key) => key,
                    Err(e) => {
                        proof {
                            assert(!entries_readable(mi, mi.entries@.len() as int)) by {
                                assert(mi.entries@[idx as int] == entry);
                            }
                        }
                        return Err(e);
                    },
                };
                let label = match map_text(event_map_info, entry.output_offset) {
                    Ok(label) => label,
                    Err(e) => {
                        proof {
                            assert(!entries_readable(mi, mi.entries@.len() as int)) by {
                                assert(mi.entries@[idx as int] == entry);
                            }
                        }
                        return Err(e);
                    },
                };
                let ghost old_map = map;
                let ghost kv = key@;
                let ghost lv = label@;
                map.insert(key, label);
                idx = idx + 1;
                proof {
                    let n = idx as int;
                    assert(mi.entries@[n - 1] == entry);
                    assert(map_label(mi.buffer@, entry.value as int) == Some(kv));
                    assert forall|k: Seq<char>| #[trigger] map.get_spec(k) is Some <==> exists|i: int|
                        0 <= i < n && map_label(mi.buffer@, (#[trigger] mi.entries@[i]).value as int)
                            == Some(k) by {
                        if k == kv {
                            assert(map_label(mi.buffer@, mi.entries@[n - 1].value as int) == Some(k));
                        } else if map.get_spec(k) is Some {
                            assert(old_map.get_spec(k) is Some);
                        } else {
                            if exists|i: int|
                                0 <= i < n && map_label(
                                    mi.buffer@,
                                    (#[trigger] mi.entries@[i]).value as int,
                                ) == Some(k) {
                                let i = choose|i: int|
                                    0 <= i < n && map_label(
                                        mi.buffer@,
                                        (#[trigger] mi.entries@[i]).value as int,
                                    ) == Some(k);
                                assert(i < n - 1);
                                assert(old_map.get_spec(k) is Some);
                            }
                        }
                    }
                    assert forall|k: Seq<char>| #[trigger] map.get_spec(k) is Some implies exists|
                        i: int,
                    |
                        0 <= i < n && map_label(mi.buffer@, (#[trigger] mi.entries@[i]).value as int)
                            == Some(k) && map_label(mi.buffer@, mi.entries@[i].output_offset as int)
                            == Some(map.get_spec(k)->0@) && forall|j: int|
                            i < j < n ==> map_label(
                                mi.buffer@,
                                (#[trigger] mi.entries@[j]).value as int,
                            ) != Some(k) by {
                        if k == kv {
                            assert(map_label(mi.buffer@, mi.entries@[n - 1].value as int) == Some(k));
                            assert(map.get_spec(k)->0@ == lv);
                        } else {
                            assert(old_map.get_spec(k) is Some);
                            let i0 = choose|i: int|
                                0 <= i < n - 1 && map_label(
                                    mi.buffer@,
                                    (#[trigger] mi.entries@[i]).value as int,
                                ) == Some(k) && map_label(
                                    mi.buffer@,
                                    mi.entries@[i].output_offset as int,
                                ) == Some(old_map.get_spec(k)->0@) && forall|j: int|
                                    i < j < n - 1 ==> map_label(
                                        mi.buffer@,
                                        (#[trigger] mi.entries@[j]).value as int,
                                    ) != Some(k);
                            assert(map_label(mi.buffer@, mi.entries@[i0].value as int) == Some(k));
                            assert forall|j: int| i0 < j < n implies map_label(
                                mi.buffer@,
                                (#[trigger] mi.entries@[j]).value as int,
                            ) != Some(k) by {
                                if j < n - 1 {
                                } else {
                                    assert(mi.entries@[j] == entry);
                                }
                            }
                        }
                    }
                    assert(entries_readable(mi, n)) by {
                        assert forall|i: int| 0 <= i < n implies map_label(
                            mi.buffer@,
                            (#[trigger] mi.entries@[i]).output_offset as int,
                        ) is Some && (mi.map_entry_value_type == EVENTMAP_ENTRY_VALUETYPE_STRING
                            ==> map_label(mi.buffer@, mi.entries@[i].value as int) is Some) by {
                            if i == n - 1 {
                            }
                        }
                    }
                }
            }
            Ok((name, StringOrIntegerMap::String(map)))
        } else {
            Err(ParseError::NotImplemented)
        }
    }
}

/// The indices that the descriptors name as the source of another field's length or
/// count (the first `n` descriptors).
pub open spec fn referenced_upto(props: Seq<EventPropertyRaw>, n: nat) -> Set<usize>
    decreases n,
{
    if n == 0 || n > props.len() {
        Set::empty()
    } else {
        let p = props[n - 1];
        let s = referenced_upto(props, (n - 1) as nat);
        let s = if p.flags & PROPERTY_PARAM_LENGTH != 0 {
            s.insert(p.length as usize)
        } else {
            s
        };
        if p.flags & PROPERTY_PARAM_COUNT != 0 {
            s.insert(p.count as usize)
        } else {
            s
        }
    }
}

/// Whether the map of descriptor `idx` builds from `infos[idx]` and is named `k`.
pub open spec fn map_builds_at(
    info: TraceEventInfo,
    infos: Seq<Option<EventMapInfo>>,
    idx: int,
    k: Seq<char>,
) -> bool {
    &&& 0 <= idx < info.properties@.len()
    &&& idx < infos.len()
    &&& infos[idx] is Some
    &&& map_parse_ok(info, info.properties@[idx], infos[idx]->0)
    &&& map_name_text(info.buffer@, info.properties@[idx]) == Some(k)
}

/// Whether `maps` holds, for each name among the maps of the first `n` descriptors that
/// build, the map of the last of those descriptors with that name, and nothing else.
pub open spec fn maps_upto(
    info: TraceEventInfo,
    infos: Seq<Option<EventMapInfo>>,
    n: int,
    maps: TextMap<StringOrIntegerMap>,
) -> bool {
    &&& maps.wf()
    &&& forall|k: Seq<char>|
        #[trigger] maps.get_spec(k) is Some <==> exists|idx: int|
            0 <= idx < n && #[trigger] map_builds_at(info, infos, idx, k)
    &&& forall|k: Seq<char>|
        #[trigger] maps.get_spec(k) is Some ==> exists|idx: int|
            0 <= idx < n && #[trigger] map_builds_at(info, infos, idx, k) && map_built(
                info,
                info.properties@[idx],
                infos[idx]->0,
                k,
                maps.get_spec(k)->0,
            ) && forall|j: int| idx < j < n ==> !#[trigger] map_builds_at(info, infos, j, k)
}

/// The schema of one event: its identity, its field tree, and the value maps that its
/// fields refer to, by name.
#[derive(Debug)]
pub struct EventInfo {
    pub provider_guid: Guid,
    pub event_id: u16,
    pub event_version: u8,
    pub properties: PropertyStructInfo,
    pub maps: TextMap<StringOrIntegerMap>,
}

impl EventInfo {
    /// Builds the schema: first collects every field that another field takes its length
    /// or count from, then builds the top-level field group. Where `map_infos` is given,
    /// entry `i` holds the source data of the map that descriptor `i` refers to; a map that
    /// cannot be built is left out, and never fails the schema.
    pub fn parse(
        trace_event_info: &TraceEventInfo,
        map_infos: Option<&Vec<Option<EventMapInfo>>>,
    ) -> (r: Result<EventInfo, ParseError>)
        ensures
            match build_err(
                trace_event_info.properties@,
                0,
                trace_event_info.top_level_property_count as int,
            ) {
                Some(e) => r == Err::<EventInfo, ParseError>(e),
                None => r is Ok,
            },
            r matches Ok(e) ==> {
                &&& e.provider_guid == trace_event_info.provider_guid
                &&& e.event_id == trace_event_info.event_descriptor.id
                &&& e.event_version == trace_event_info.event_descriptor.version
                &&& e.properties.fields@.len() == trace_event_info.top_level_property_count
                &&& group_built(
                    *trace_event_info,
                    referenced_upto(
                        trace_event_info.properties@,
                        trace_event_info.properties@.len(),
                    ),
                    0,
                    e.properties,
                )
                &&& map_infos is None ==> e.maps.wf() && e.maps.len_spec() == 0 && forall|
                    k: Seq<char>,
                | #[trigger] e.maps.get_spec(k) is None
                &&& map_infos matches Some(infos) ==> maps_upto(
                    *trace_event_info,
                    infos@,
                    trace_event_info.properties@.len() as int,
                    e.maps,
                )
            },
    {
        let mut length_count_properties: HashSet<usize> = HashSet::new();
        let mut maps: TextMap<StringOrIntegerMap> = TextMap::new();
        let n = trace_event_info.property_count();
        let mut idx: usize = 0;
        while idx < n
            invariant
                n == trace_event_info.properties@.len(),
                idx <= n,
                length_count_properties@ == referenced_upto(
                    trace_event_info.properties@,
                    idx as nat,
                ),
                map_infos is None ==> maps.wf() && maps.len_spec() == 0 && forall|k: Seq<char>|
                    #[trigger] maps.get_spec(k) is None,
                map_infos matches Some(infos) ==> maps_upto(
                    *trace_event_info,
                    infos@,
                    idx as int,
                    maps,
                ),
            decreases n - idx,
        {
            let property = &trace_event_info.properties[idx];
            if property.flags & PROPERTY_PARAM_LENGTH != 0 {
                length_count_properties.insert(property.length as usize);
            }
            if property.flags & PROPERTY_PARAM_COUNT != 0 {
                length_count_properties.insert(property.count as usize);
            }
            if let Some(infos) = map_infos {
                let ghost inf = infos@;
                let ghost info = *trace_event_info;
                let ghost before = maps;
                let mut built = false;
                if idx < infos.len() {
                    if let Some(map_info) = &infos[idx] {
                        if let Ok((name, map)) = StringOrIntegerMap::parse(
                            trace_event_info,
                            property,
                            map_info,
                        ) {
                            let ghost nv = name@;
                            let ghost mv = map;
                            proof {
                                assert(map_builds_at(info, inf, idx as int, nv));
                            }
                            maps.insert(name, map);
                            built = true;
                            proof {
                                let m = (idx + 1) as int;
                                assert forall|k: Seq<char>| #[trigger] maps.get_spec(k) is Some
                                    <==> exists|i: int|
                                    0 <= i < m && #[trigger] map_builds_at(info, inf, i, k) by {
                                    if k == nv {
                                        assert(map_builds_at(info, inf, idx as int, k));
                                    } else if maps.get_spec(k) is Some {
                                        assert(before.get_spec(k) is Some);
                                    } else if exists|i: int|
                                        0 <= i < m && #[trigger] map_builds_at(info, inf, i, k) {
                                        let i = choose|i: int|
                                            0 <= i < m && #[trigger] map_builds_at(info, inf, i, k);
                                        assert(i < m - 1);
                                        assert(before.get_spec(k) is Some);
                                    }
                                }
                                assert forall|k: Seq<char>| #[trigger] maps.get_spec(k) is Some
                                    implies exists|i: int|
                                    0 <= i < m && #[trigger] map_builds_at(info, inf, i, k)
                                        && map_built(
                                        info,
                                        info.properties@[i],
                                        inf[i]->0,
                                        k,
                                        maps.get_spec(k)->0,
                                    ) && forall|j: int|
                                        i < j < m ==> !#[trigger] map_builds_at(info, inf, j, k) by {
                                    if k == nv {
                                        assert(map_builds_at(info, inf, idx as int, k));
                                        assert(maps.get_spec(k) == Some(mv));
                                    } else {
                                        assert(before.get_spec(k) is Some);
                                        let i0 = choose|i: int|
                                            0 <= i < m - 1 && #[trigger] map_builds_at(info, inf, i, k)
                                                && map_built(
                                                info,
                                                info.properties@[i],
                                                inf[i]->0,
                                                k,
                                                before.get_spec(k)->0,
                                            ) && forall|j: int|
                                                i < j < m - 1 ==> !#[trigger] map_builds_at(
                                                    info,
                                                    inf,
                                                    j,
                                                    k,
                                                );
                                        assert(map_builds_at(info, inf, i0, k));
                                        assert forall|j: int| i0 < j < m implies !#[trigger] map_builds_at(
                                            info,
                                            inf,
                                            j,
                                            k,
                                        ) by {
                                            if j == m - 1 {
                                                assert(map_name_text(info.buffer@, info.properties@[j])
                                                    == Some(nv));
                                            }
                                        }
                                    }
                                }
                            }
                        }
                    }
                }
                proof {
                    if !built {
                        let m = (idx + 1) as int;
                        assert forall|k: Seq<char>| !map_builds_at(info, inf, idx as int, k) by {
                            if map_builds_at(info, inf, idx as int, k) {
                                assert(inf[idx as int] is Some);
                            }
                        }
                        assert forall|k: Seq<char>| #[trigger] maps.get_spec(k) is Some <==> exists|
                            i: int,
                        | 0 <= i < m && #[trigger] map_builds_at(info, inf, i, k) by {
                            if exists|i: int| 0 <= i < m && #[trigger] map_builds_at(info, inf, i, k) {
                                let i = choose|i: int|
                                    0 <= i < m && #[trigger] map_builds_at(info, inf, i, k);
                                assert(i != idx);
                            }
                        }
                        assert forall|k: Seq<char>| #[trigger] maps.get_spec(k) is Some implies exists|
                            i: int,
                        |
                            0 <= i < m && #[trigger] map_builds_at(info, inf, i, k) && map_built(
                                info,
                                info.properties@[i],
                                inf[i]->0,
                                k,
                                maps.get_spec(k)->0,
                            ) && forall|j: int|
                                i < j < m ==> !#[trigger] map_builds_at(info, inf, j, k) by {
                            let i0 = choose|i: int|
                                0 <= i < m - 1 && #[trigger] map_builds_at(info, inf, i, k)
                                    && map_built(
                                    info,
                                    info.properties@[i],
                                    inf[i]->0,
                                    k,
                                    maps.get_spec(k)->0,
                                ) && forall|j: int|
                                    i < j < m - 1 ==> !#[trigger] map_builds_at(info, inf, j, k);
                            assert(map_builds_at(info, inf, i0, k));
                            assert forall|j: int| i0 < j < m implies !#[trigger] map_builds_at(
                                info,
                                inf,
                                j,
                                k,
                            ) by {
                                if j == m - 1 {
                                    assert(!map_builds_at(info, inf, idx as int, k));
                                }
                            }
                        }
                    }
                }
            }
            idx = idx + 1;
        }
        let properties = PropertyStructInfo::parse(
            trace_event_info,
            &length_count_properties,
            0,
            trace_event_info.top_level_property_count,
        )?;
        Ok(EventInfo {
            provider_guid: trace_event_info.provider_guid,
            event_id: trace_event_info.event_descriptor.id,
            event_version: trace_event_info.event_descriptor.version,
            properties,
            maps,
        })
    }

    /// Decodes an event's payload against this schema, fields in declared order, with a
    /// fresh table of published values. Bytes left over after the last field are handed
    /// back, not refused.
    pub fn decode<'a>(&self, event_record: &'a EventRecord) -> (r: Result<
        (Event<'a>, &'a [u8]),
        ParseError,
    >)
        ensures
            match group_step(
                self.properties,
                event_record.user_data@,
                Map::empty(),
                self.properties.fields@.len(),
            ) {
                Err(e) => r == Err::<(Event<'a>, &'a [u8]), ParseError>(e),
                Ok((n, _)) => (r matches Ok((ev, rest)) && {
                    &&& 0 <= n <= event_record.user_data@.len()
                    &&& rest@ == event_record.user_data@.subrange(
                        n,
                        event_record.user_data@.len() as int,
                    )
                    &&& ev.header == event_record.header
                    &&& (ev.data matches StringOrStruct::Struct(s) && group_decoded(
                        self.properties,
                        event_record.user_data@,
                        Map::empty(),
                        s,
                    ))
                }),
            },
    {
        let mut length_count_values: HashMap<usize, usize> = HashMap::new();
        let userdata = event_record.user_data.as_slice();
        let (struc, remainder) = self.properties.decode(userdata, &mut length_count_values)?;
        Ok((Event { header: event_record.header, data: StringOrStruct::Struct(struc) }, remainder))
    }
}

impl PropertyNestedInfo {
    pub fn name(&self) -> (r: &str)
        ensures
            r@ == match self {
                PropertyNestedInfo::Struct(name, _) => name@,
                PropertyNestedInfo::Value(name, _) => name@,
            },
    {
        match self {
            PropertyNestedInfo::Struct(name, _) => name.as_str(),
            PropertyNestedInfo::Value(name, _) => name.as_str(),
        }
    }
}

} // verus!
