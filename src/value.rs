//! The host value: a tag and a 32-bit payload, laid out as the host lays it.
use vstd::prelude::*;
use crate::error::{ByondError, ByondResult};
use crate::value_type::{self, ByondValueType, is_ref_counted_tag, tag_name};

verus! {

/// Bytes in the host's layout of a value.
pub const VALUE_SIZE: usize = 8;

/// A host value: its type tag, three bytes the host reserves, and the payload,
/// which holds a reference id or the bits of an `f32` number.
#[derive(Clone, Copy, Debug)]
pub struct ByondValue {
    pub type_: u8,
    pub junk1: u8,
    pub junk2: u8,
    pub junk3: u8,
    pub data: u32,
}

/// The four bytes of `x`, least significant first, as the host's
/// little-endian platforms store it.
pub open spec fn le_bytes(x: u32) -> Seq<u8> {
    seq![(x & 0xff) as u8, ((x >> 8u32) & 0xff) as u8, ((x >> 16u32) & 0xff) as u8, (x >> 24u32) as u8]
}

/// The `u32` whose bytes, least significant first, are `b0` to `b3`.
pub open spec fn le_u32(b0: u8, b1: u8, b2: u8, b3: u8) -> u32 {
    (b0 as u32) | ((b1 as u32) << 8u32) | ((b2 as u32) << 16u32) | ((b3 as u32) << 24u32)
}

/// The bytes of `v` in the host's layout.
pub open spec fn value_bytes(v: ByondValue) -> Seq<u8> {
    seq![v.type_, v.junk1, v.junk2, v.junk3] + le_bytes(v.data)
}

/// The value that the host's layout reads from `b`.
pub open spec fn value_from_bytes(b: Seq<u8>) -> ByondValue
    recommends
        b.len() == VALUE_SIZE,
{
    ByondValue {
        type_: b[0],
        junk1: b[1],
        junk2: b[2],
        junk3: b[3],
        data: le_u32(b[4], b[5], b[6], b[7]),
    }
}

/// The null value of this library: tag null and every other byte zero, the
/// bytes that the host's clear call is required to write (checked against
/// the host by `test_byondvalue_clear_is_zero`).
pub open spec fn null_value() -> ByondValue {
    ByondValue { type_: value_type::NULL, junk1: 0, junk2: 0, junk3: 0, data: 0 }
}

/// A value with the given tag and payload, its reserved bytes zero.
pub open spec fn raw_value(t: u8, data: u32) -> ByondValue {
    ByondValue { type_: t, junk1: 0, junk2: 0, junk3: 0, data }
}

/// This library's null value and the value read from zeroed memory are the
/// same bytes: all zero.
pub proof fn null_value_is_zeroed()
    ensures
        value_bytes(null_value()) == zeroed_bytes(),
        value_from_bytes(zeroed_bytes()) == null_value(),
{
    let z: u32 = 0;
    assert((z & 0xff) as u8 == 0u8 && ((z >> 8u32) & 0xff) as u8 == 0u8 && ((z >> 16u32) & 0xff) as u8
        == 0u8 && (z >> 24u32) as u8 == 0u8) by (bit_vector)
        requires z == 0u32;
    assert(le_u32(0, 0, 0, 0) == 0u32) by (bit_vector);
    assert(value_bytes(null_value()) =~= zeroed_bytes());
}

impl Default for ByondValue {
    fn default() -> (r: ByondValue)
        ensures
            r == null_value(),
    {
        ByondValue::null()
    }
}

impl ByondValue {
    /// Returns a null value.
    pub fn null() -> (r: ByondValue)
        ensures
            r == null_value(),
    {
        ByondValue { type_: value_type::NULL, junk1: 0, junk2: 0, junk3: 0, data: 0 }
    }

    /// The "world" object, equivalent to DM's `world`.
    pub fn world() -> (r: ByondValue)
        ensures
            r == raw_value(value_type::WORLD, 0),
    {
        ByondValue::new_ref_unchecked(ByondValueType(value_type::WORLD), 0)
    }

    /// The "global" object, equivalent to DM's `global.vars`.
    pub fn global() -> (r: ByondValue)
        ensures
            r == raw_value(value_type::WORLD, 1),
    {
        ByondValue::new_ref_unchecked(ByondValueType(value_type::WORLD), 1)
    }

    /// A value with the given type and reference id, without asking the host
    /// whether the reference is valid.
    pub fn new_ref_unchecked(value_type: ByondValueType, ref_id: u32) -> (r: ByondValue)
        ensures
            r == raw_value(value_type.0, ref_id),
    {
        ByondValue { type_: value_type.0, junk1: 0, junk2: 0, junk3: 0, data: ref_id }
    }

    /// A number, given the bits of its `f32`.
    pub fn new_num_bits(bits: u32) -> (r: ByondValue)
        ensures
            r == raw_value(value_type::NUMBER, bits),
    {
        ByondValue { type_: value_type::NUMBER, junk1: 0, junk2: 0, junk3: 0, data: bits }
    }

    /// Gets the type of the value.
    #[inline]
    pub fn get_type(&self) -> (r: ByondValueType)
        ensures
            r.0 == self.type_,
    {
        ByondValueType(self.type_)
    }

    pub fn is_null(&self) -> (r: bool)
        ensures
            r == (self.type_ == value_type::NULL),
    {
        self.type_ == value_type::NULL
    }

    pub fn is_number(&self) -> (r: bool)
        ensures
            r == (self.type_ == value_type::NUMBER),
    {
        self.type_ == value_type::NUMBER
    }

    pub fn is_string(&self) -> (r: bool)
        ensures
            r == (self.type_ == value_type::STRING),
    {
        self.type_ == value_type::STRING
    }

    /// Whether the value's type holds a reference. Does not check that the
    /// reference is valid.
    pub fn is_ref(&self) -> (r: bool)
        ensures
            r == is_ref_counted_tag(self.type_),
    {
        self.get_type().is_ref_counted()
    }

    /// The bits of the `f32` that a number holds.
    pub fn get_number_bits(&self) -> (r: ByondResult<u32>)
        ensures
            self.type_ == value_type::NUMBER <==> r is Ok,
            r is Ok ==> r->Ok_0 == self.data,
            r is Err ==> (r matches Err(ByondError::InvalidConversion { expected, got })
                && expected@ == "number"@ && got@ == tag_name(self.type_)),
    {
        if self.is_number() {
            Ok(self.data)
        } else {
            Err(ByondError::InvalidConversion { expected: "number".to_owned(), got: self.get_type().name() })
        }
    }

    /// Fails with `NotReferenceable` unless the value's type holds a
    /// reference: checked before any host call that needs one.
    pub fn require_ref(&self) -> (r: ByondResult<()>)
        ensures
            is_ref_counted_tag(self.type_) <==> r is Ok,
            r is Err ==> r matches Err(ByondError::NotReferenceable),
    {
        if self.is_ref() {
            Ok(())
        } else {
            Err(ByondError::NotReferenceable)
        }
    }

    /// The string id of the variable to read or write through this value,
    /// given the id looked up for its name: `NotReferenceable` when the value
    /// holds no reference, else `InvalidVariable` when the name has no id.
    pub fn var_target(&self, name_id: Option<u32>) -> (r: ByondResult<u32>)
        ensures
            !is_ref_counted_tag(self.type_) ==> r matches Err(ByondError::NotReferenceable),
            is_ref_counted_tag(self.type_) && name_id is None ==> r matches Err(
                ByondError::InvalidVariable,
            ),
            is_ref_counted_tag(self.type_) && name_id is Some ==> r == Ok::<u32, ByondError>(
                name_id->Some_0,
            ),
    {
        if !self.is_ref() {
            return Err(ByondError::NotReferenceable);
        }
        match name_id {
            Some(id) => Ok(id),
            None => Err(ByondError::InvalidVariable),
        }
    }

    /// The string id of the proc to call on this value, given the id looked
    /// up for its name: `NotReferenceable` when the value holds no reference,
    /// else `InvalidProc` when the name has no id.
    pub fn proc_target(&self, name_id: Option<u32>) -> (r: ByondResult<u32>)
        ensures
            !is_ref_counted_tag(self.type_) ==> r matches Err(ByondError::NotReferenceable),
            is_ref_counted_tag(self.type_) && name_id is None ==> r matches Err(
                ByondError::InvalidProc,
            ),
            is_ref_counted_tag(self.type_) && name_id is Some ==> r == Ok::<u32, ByondError>(
                name_id->Some_0,
            ),
    {
        if !self.is_ref() {
            return Err(ByondError::NotReferenceable);
        }
        match name_id {
            Some(id) => Ok(id),
            None => Err(ByondError::InvalidProc),
        }
    }

    /// Fails with `NotReferenceable` unless the value is a pointer.
    pub fn require_pointer(&self) -> (r: ByondResult<()>)
        ensures
            (self.type_ == value_type::POINTER) <==> r is Ok,
            r is Err ==> r matches Err(ByondError::NotReferenceable),
    {
        if self.type_ == value_type::POINTER {
            Ok(())
        } else {
            Err(ByondError::NotReferenceable)
        }
    }

    /// What identifies the value for hashing: its tag, and the payload but
    /// for null, whose payload means nothing.
    pub fn hash_key(&self) -> (r: (u8, Option<u32>))
        ensures
            r.0 == self.type_,
            r.1 == (if self.type_ == value_type::NULL {
                None
            } else {
                Some(self.data)
            }),
    {
        if self.is_null() {
            (self.type_, None)
        } else {
            (self.type_, Some(self.data))
        }
    }

    /// The value's bytes in the host's layout.
    pub fn to_bytes(&self) -> (r: Vec<u8>)
        ensures
            r@ == value_bytes(*self),
    {
        let d = self.data;
        let r = vec![self.type_, self.junk1, self.junk2, self.junk3, (d & 0xff) as u8,
            ((d >> 8u32) & 0xff) as u8, ((d >> 16u32) & 0xff) as u8, (d >> 24u32) as u8];
        assert(r@ =~= value_bytes(*self));
        r
    }

    /// The value that the host's layout reads from `bytes`.
    pub fn from_bytes(bytes: &[u8]) -> (r: ByondValue)
        requires
            bytes@.len() == VALUE_SIZE,
        ensures
            r == value_from_bytes(bytes@),
    {
        ByondValue {
            type_: bytes[0],
            junk1: bytes[1],
            junk2: bytes[2],
            junk3: bytes[3],
            data: (bytes[4] as u32) | ((bytes[5] as u32) << 8u32) | ((bytes[6] as u32) << 16u32)
                | ((bytes[7] as u32) << 24u32),
        }
    }
}

/// The outcome of a host call that fills a value and reports success as a
/// flag: the value when it succeeded, else the error of the host's last
/// message.
pub fn host_result(succeeded: bool, result: ByondValue, last: Option<Vec<u8>>) -> (r: ByondResult<
    ByondValue,
>)
    ensures
        succeeded ==> r == Ok::<ByondValue, ByondError>(result),
        !succeeded ==> match last {
            Some(m) => r matches Err(ByondError::ByondError(e)) && e.0@ == m@,
            None => r matches Err(ByondError::UnknownByondError),
        },
{
    if succeeded {
        Ok(result)
    } else {
        Err(ByondError::get_last_byond_error(last))
    }
}

/// The reference id that the host's answer `raw` to a request for a value's
/// reference gives: zero means the value holds none.
pub fn ref_id_from_raw(raw: u32) -> (r: Option<u32>)
    ensures
        raw == 0 ==> r is None,
        raw != 0 ==> r == Some(raw),
{
    if raw == 0 {
        None
    } else {
        Some(raw)
    }
}

/// `VALUE_SIZE` zero bytes: zeroed memory the size of a value.
pub open spec fn zeroed_bytes() -> Seq<u8> {
    Seq::new(VALUE_SIZE as nat, |i: int| 0u8)
}

/// Checks the bytes that the host's clear call wrote into a value against
/// zeroed memory of a value's size: true exactly when they are the same
/// bytes, reserved bytes included. The host's layout depends on this.
pub fn test_byondvalue_clear_is_zero(cleared: &[u8]) -> (r: bool)
    ensures
        r == (cleared@ == zeroed_bytes()),
{
    if cleared.len() != VALUE_SIZE {
        return false;
    }
    let mut i: usize = 0;
    while i < VALUE_SIZE
        invariant
            cleared@.len() == VALUE_SIZE,
            i <= VALUE_SIZE,
            forall|j: int| 0 <= j < i ==> cleared@[j] == 0,
        decreases VALUE_SIZE - i,
    {
        if cleared[i] != 0 {
            return false;
        }
        i = i + 1;
    }
    assert(cleared@ =~= zeroed_bytes());
    true
}

} // verus!
