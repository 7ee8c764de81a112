//! Enumerations read off the wire that keep their raw value, whether or not it is known.

use vstd::prelude::*;

verus! {

/// A primitive integer type that converts to and from `u32` without loss.
pub trait ProtocolPrimitive: Sized {
    type Primitive: Copy;

    spec fn spec_to_protocol_u32(&self) -> u32;

    spec fn spec_from_protocol_u32(value: u32) -> Option<Self::Primitive>;

    fn to_protocol_u32(&self) -> (r: u32)
        ensures
            r == self.spec_to_protocol_u32(),
    ;

    fn from_protocol_u32(value: u32) -> (r: Option<Self::Primitive>)
        ensures
            r == Self::spec_from_protocol_u32(value),
    ;
}

impl ProtocolPrimitive for u8 {
    type Primitive = u8;

    open spec fn spec_to_protocol_u32(&self) -> u32 {
        *self as u32
    }

    open spec fn spec_from_protocol_u32(value: u32) -> Option<u8> {
        if value <= 0xff {
            Some(value as u8)
        } else {
            None
        }
    }

    fn to_protocol_u32(&self) -> (r: u32) {
        *self as u32
    }

    fn from_protocol_u32(value: u32) -> (r: Option<u8>) {
        if value <= 0xff {
            Some(value as u8)
        } else {
            None
        }
    }
}

/// An enumeration with a numeric encoding on the wire.
pub trait ProtocolEnum: Sized {
    /// The number that encodes the value, if it has one.
    spec fn spec_to_u32(&self) -> Option<u32>;

    /// The value that a number encodes, if any.
    spec fn spec_from_u32(n: u32) -> Option<Self>;

    fn to_u32(&self) -> (r: Option<u32>)
        ensures
            r == self.spec_to_u32(),
    ;

    fn from_u32(n: u32) -> (r: Option<Self>)
        ensures
            r == Self::spec_from_u32(n),
    ;

    /// Decoding a value's number gives the value back.
    proof fn lemma_from_to(&self)
        ensures
            self.spec_to_u32() is Some,
            Self::spec_from_u32(self.spec_to_u32()->Some_0) == Some(*self),
    ;
}

/// A raw protocol value together with its meaning, when the meaning is known.
#[derive(Debug, Clone)]
pub struct ParsedEnum<TYPE, PRIMITIVE> {
    parsed: Option<TYPE>,
    raw: PRIMITIVE,
}

impl<TYPE, PRIMITIVE> ParsedEnum<TYPE, PRIMITIVE> {
    /// The meaning of the raw value, if it is known.
    pub closed spec fn parsed(&self) -> Option<TYPE> {
        self.parsed
    }

    /// The value as it is on the wire.
    pub closed spec fn raw(&self) -> PRIMITIVE {
        self.raw
    }
}

/// Whether `new` can encode `value` in the primitive type: its number exists and fits.
pub open spec fn encodable<TYPE: ProtocolEnum, PRIMITIVE: ProtocolPrimitive<Primitive = PRIMITIVE>>(
    value: TYPE,
) -> bool {
    &&& value.spec_to_u32() is Some
    &&& PRIMITIVE::spec_from_protocol_u32(value.spec_to_u32()->Some_0) is Some
}

impl<TYPE, PRIMITIVE> ParsedEnum<TYPE, PRIMITIVE> where
    TYPE: ProtocolEnum,
    PRIMITIVE: ProtocolPrimitive<Primitive = PRIMITIVE> + Copy,
 {
    /// The known value `value`, with the raw value that encodes it.
    pub fn new(value: TYPE) -> (p: Self)
        requires
            encodable::<TYPE, PRIMITIVE>(value),
        ensures
            p.parsed() == Some(value),
            Some(p.raw()) == PRIMITIVE::spec_from_protocol_u32(value.spec_to_u32()->Some_0),
    {
        let raw = PRIMITIVE::from_protocol_u32(value.to_u32().unwrap()).unwrap();
        Self { parsed: Some(value), raw }
    }

    /// The raw value `raw`, with its meaning when the number is known.
    pub fn from_raw(raw: PRIMITIVE) -> (p: Self)
        ensures
            p.raw() == raw,
            p.parsed() == TYPE::spec_from_u32(raw.spec_to_protocol_u32()),
    {
        Self { parsed: TYPE::from_u32(raw.to_protocol_u32()), raw }
    }

    /// The meaning of the raw value, if it is known.
    pub fn as_ref(&self) -> (r: Option<&TYPE>)
        ensures
            match r {
                Some(t) => self.parsed() == Some(*t),
                None => self.parsed() is None,
            },
    {
        match &self.parsed {
            Some(t) => Some(t),
            None => None,
        }
    }

    /// The value as it is on the wire.
    pub fn as_raw(&self) -> (r: PRIMITIVE)
        ensures
            r == self.raw(),
    {
        self.raw
    }
}

/// Over `u8`, the primitive of every protocol enumeration here: the raw value of a known
/// value (`p`, as `new` makes it) read back (`q`, as `from_raw` makes it from that raw
/// value) means the same value, and keeps the raw value.
pub proof fn lemma_parsed_enum_roundtrip<TYPE: ProtocolEnum>(v: TYPE, p: ParsedEnum<TYPE, u8>, q: ParsedEnum<TYPE, u8>)
    requires
        encodable::<TYPE, u8>(v),
        p.parsed() == Some(v),
        Some(p.raw()) == u8::spec_from_protocol_u32(v.spec_to_u32()->Some_0),
        q.raw() == p.raw(),
        q.parsed() == TYPE::spec_from_u32(q.raw().spec_to_protocol_u32()),
    ensures
        q.parsed() == Some(v),
        q.raw() == p.raw(),
{
    v.lemma_from_to();
}

} // verus!
