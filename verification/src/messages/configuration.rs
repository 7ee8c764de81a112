//! The configuration response: which pumps, lights and auxiliaries the spa has, packed
//! into six bytes, most significant bit first.

use vstd::prelude::*;
use crate::messages::enums::{Boolean, PumpConfig, RelayConfig, pump_config_of_number};
use crate::messages::parsed_enum::{ParsedEnum, ProtocolEnum};
use crate::messages::payload_error::{PayloadEncodeError, PayloadParseError};
use crate::messages::status_update::holds_known;

verus! {

impl From<Boolean> for RelayConfig {
    fn from(value: Boolean) -> (r: RelayConfig) {
        match value {
            Boolean::True => RelayConfig::Present,
            Boolean::False => RelayConfig::Absent,
        }
    }
}

impl vstd::std_specs::convert::FromSpecImpl<Boolean> for RelayConfig {
    open spec fn obeys_from_spec() -> bool {
        true
    }

    open spec fn from_spec(v: Boolean) -> RelayConfig {
        match v {
            Boolean::True => RelayConfig::Present,
            Boolean::False => RelayConfig::Absent,
        }
    }
}

impl From<RelayConfig> for Boolean {
    fn from(value: RelayConfig) -> (b: Boolean) {
        match value {
            RelayConfig::Present => Boolean::True,
            RelayConfig::Absent => Boolean::False,
        }
    }
}

impl vstd::std_specs::convert::FromSpecImpl<RelayConfig> for Boolean {
    open spec fn obeys_from_spec() -> bool {
        true
    }

    open spec fn from_spec(v: RelayConfig) -> Boolean {
        match v {
            RelayConfig::Present => Boolean::True,
            RelayConfig::Absent => Boolean::False,
        }
    }
}

/// The spa's equipment as the main board reports it.
#[derive(Debug, Clone)]
pub struct ConfigurationResponseMessage {
    pub pumps: Vec<ParsedEnum<PumpConfig, u8>>,
    pub has_lights: Vec<ParsedEnum<Boolean, u8>>,
    pub has_blower: bool,
    pub has_circulation_pump: bool,
    pub has_aux: Vec<ParsedEnum<Boolean, u8>>,
    pub has_mister: ParsedEnum<Boolean, u8>,
}

/// Number of payload bytes of a configuration response.
pub const CONFIGURATION_LEN: usize = 6;

/// The two-bit field sent for pump `i` (counting from zero): the pump's raw value when
/// it is a known pump setting, zero when it is not or when there is no such pump.
pub open spec fn pump_field(pumps: Seq<ParsedEnum<PumpConfig, u8>>, i: int) -> u8 {
    if i < pumps.len() && pumps[i].raw() <= 2 {
        pumps[i].raw()
    } else {
        0
    }
}

/// The field sent for relay `i` of a list: its raw value when it is 0 or 1, else zero.
pub open spec fn relay_field(relays: Seq<ParsedEnum<Boolean, u8>>, i: int) -> u8 {
    if i < relays.len() && relays[i].raw() <= 1 {
        relays[i].raw()
    } else {
        0
    }
}

/// One bit for a flag.
pub open spec fn flag_bit(b: bool) -> u8 {
    if b {
        1
    } else {
        0
    }
}

/// The six bytes of a configuration response.
pub open spec fn configuration_bytes(m: ConfigurationResponseMessage) -> Seq<u8> {
    let p = m.pumps@;
    let l = m.has_lights@;
    let a = m.has_aux@;
    seq![
        (pump_field(p, 3) << 6u8) | (pump_field(p, 2) << 4u8) | (pump_field(p, 1) << 2u8) | pump_field(p, 0),
        (pump_field(p, 5) << 6u8) | (pump_field(p, 4) << 4u8),
        (relay_field(l, 1) << 6u8) | relay_field(l, 0),
        (flag_bit(m.has_circulation_pump) << 7u8) | flag_bit(m.has_blower),
        (m.has_mister.raw() << 4u8) | (relay_field(a, 1) << 3u8) | (relay_field(a, 0) << 2u8),
        if m.has_circulation_pump { 0x68u8 } else { 0u8 },
    ]
}

/// The two bits that hold pump `i` (counting from zero) in a payload.
pub open spec fn pump_bits(p: Seq<u8>, i: int) -> u8 {
    if i == 0 {
        p[0] & 3
    } else if i == 1 {
        (p[0] >> 2u8) & 3
    } else if i == 2 {
        (p[0] >> 4u8) & 3
    } else if i == 3 {
        (p[0] >> 6u8) & 3
    } else if i == 4 {
        (p[1] >> 4u8) & 3
    } else {
        (p[1] >> 6u8) & 3
    }
}

/// The two bits of light 1 (`i == 0`) or light 2.
pub open spec fn light_bits(p: Seq<u8>, i: int) -> u8 {
    if i == 0 {
        p[2] & 3
    } else {
        (p[2] >> 6u8) & 3
    }
}

/// The bit of auxiliary 1 (`i == 0`) or auxiliary 2.
pub open spec fn aux_bits(p: Seq<u8>, i: int) -> u8 {
    if i == 0 {
        (p[4] >> 2u8) & 1
    } else {
        (p[4] >> 3u8) & 1
    }
}

/// The two bits of the blower.
pub open spec fn blower_bits(p: Seq<u8>) -> u8 {
    p[3] & 3
}

/// The two bits of the mister.
pub open spec fn mister_bits(p: Seq<u8>) -> u8 {
    (p[4] >> 4u8) & 3
}

/// A payload that decodes: six bytes, every pump field a known pump setting and every
/// two-bit relay field 0 or 1.
pub open spec fn configuration_decodes(p: Seq<u8>) -> bool {
    &&& p.len() == CONFIGURATION_LEN
    &&& forall|i: int| 0 <= i < 6 ==> #[trigger] pump_bits(p, i) <= 2
    &&& light_bits(p, 0) <= 1
    &&& light_bits(p, 1) <= 1
    &&& blower_bits(p) <= 1
    &&& mister_bits(p) <= 1
}

/// The `Boolean` that a relay bit decodes to.
pub open spec fn relay_boolean(bit: u8) -> Boolean {
    if bit == 1 {
        Boolean::True
    } else {
        Boolean::False
    }
}

/// What unpacking a configuration payload `p` gives: invalid data unless
/// `configuration_decodes(p)`, and otherwise the fields read from their bits.
pub open spec fn configuration_decoding(p: Seq<u8>, r: Result<ConfigurationResponseMessage, PayloadParseError>) -> bool {
    &&& (!configuration_decodes(p) <==> r == Err::<ConfigurationResponseMessage, PayloadParseError>(
        PayloadParseError::InvalidData,
    ))
    &&& (r is Ok <==> configuration_decodes(p))
    &&& (r matches Ok(m) ==> {
        &&& m.pumps@.len() == 6
        &&& forall|i: int|
            0 <= i < 6 ==> {
                &&& (#[trigger] m.pumps@[i]).raw() == pump_bits(p, i)
                &&& m.pumps@[i].parsed() == pump_config_of_number(pump_bits(p, i) as u32)
            }
        &&& m.has_lights@.len() == 2
        &&& forall|i: int|
            0 <= i < 2 ==> holds_known(#[trigger] m.has_lights@[i], relay_boolean(light_bits(p, i)))
        &&& m.has_aux@.len() == 2
        &&& forall|i: int|
            0 <= i < 2 ==> holds_known(#[trigger] m.has_aux@[i], relay_boolean(aux_bits(p, i)))
        &&& holds_known(m.has_mister, relay_boolean(mister_bits(p)))
        &&& !m.has_blower
        &&& !m.has_circulation_pump
    })
}

/// The field for pump `i`.
fn pump_field_at(pumps: &Vec<ParsedEnum<PumpConfig, u8>>, i: usize) -> (r: u8)
    ensures
        r == pump_field(pumps@, i as int),
{
    if i < pumps.len() {
        let raw = pumps[i].as_raw();
        if raw <= 2 {
            raw
        } else {
            0
        }
    } else {
        0
    }
}

/// The field for relay `i` of a list.
fn relay_field_at(relays: &Vec<ParsedEnum<Boolean, u8>>, i: usize) -> (r: u8)
    ensures
        r == relay_field(relays@, i as int),
{
    if i < relays.len() {
        let raw = relays[i].as_raw();
        if raw <= 1 {
            raw
        } else {
            0
        }
    } else {
        0
    }
}

/// A known pump setting kept with its raw value.
fn known_pump(bits: u8) -> (e: ParsedEnum<PumpConfig, u8>)
    requires
        bits <= 2,
    ensures
        e.raw() == bits,
        e.parsed() == pump_config_of_number(bits as u32),
{
    let config = match bits {
        0 => PumpConfig::Absent,
        1 => PumpConfig::Speed1,
        _ => PumpConfig::Speed2,
    };
    ParsedEnum::new(config)
}

/// A relay bit kept as a known `Boolean`.
fn known_relay(bit: u8) -> (e: ParsedEnum<Boolean, u8>)
    requires
        bit <= 1,
    ensures
        holds_known(e, relay_boolean(bit)),
        e.raw() == bit,
{
    let relay = if bit == 1 {
        RelayConfig::Present
    } else {
        RelayConfig::Absent
    };
    let b = Boolean::from(relay);
    ParsedEnum::new(b)
}

impl ConfigurationResponseMessage {
    /// Packs the configuration into its six bytes. A pump or relay whose raw value is
    /// not a known setting is sent as absent, and missing ones too; the blower and the
    /// circulation pump are single flags, and a circulation pump sets the last byte
    /// to 0x68.
    pub fn to_payload(&self) -> (result: Result<Vec<u8>, PayloadEncodeError>)
        requires
            self.has_mister.raw() <= 1,
        ensures
            result matches Ok(v) && v@ == configuration_bytes(*self),
    {
        let p0 = pump_field_at(&self.pumps, 0);
        let p1 = pump_field_at(&self.pumps, 1);
        let p2 = pump_field_at(&self.pumps, 2);
        let p3 = pump_field_at(&self.pumps, 3);
        let p4 = pump_field_at(&self.pumps, 4);
        let p5 = pump_field_at(&self.pumps, 5);
        let l0 = relay_field_at(&self.has_lights, 0);
        let l1 = relay_field_at(&self.has_lights, 1);
        let a0 = relay_field_at(&self.has_aux, 0);
        let a1 = relay_field_at(&self.has_aux, 1);
        let blower: u8 = if self.has_blower { 1 } else { 0 };
        let circulation: u8 = if self.has_circulation_pump { 1 } else { 0 };
        let unknown: u8 = if self.has_circulation_pump { 0x68 } else { 0 };
        let mut out: Vec<u8> = Vec::new();
        out.push((p3 << 6u8) | (p2 << 4u8) | (p1 << 2u8) | p0);
        out.push((p5 << 6u8) | (p4 << 4u8));
        out.push((l1 << 6u8) | l0);
        out.push((circulation << 7u8) | blower);
        out.push((self.has_mister.as_raw() << 4u8) | (a1 << 3u8) | (a0 << 2u8));
        out.push(unknown);
        assert(out@ =~= configuration_bytes(*self));
        Ok(out)
    }

    /// Unpacks six bytes. Another length, a pump field of 3 or a two-bit relay field
    /// above 1 is invalid data. The blower and circulation-pump flags are read through
    /// `bool::from(Boolean)`, which gives `false` for both values.
    pub fn from_payload(value: &[u8]) -> (result: Result<Self, PayloadParseError>)
        ensures
            configuration_decoding(value@, result),
    {
        if value.len() != CONFIGURATION_LEN {
            return Err(PayloadParseError::InvalidData);
        }
        let b0 = value[0];
        let b1 = value[1];
        let b2 = value[2];
        let b3 = value[3];
        let b4 = value[4];
        let bits: [u8; 6] = [
            b0 & 3,
            (b0 >> 2u8) & 3,
            (b0 >> 4u8) & 3,
            (b0 >> 6u8) & 3,
            (b1 >> 4u8) & 3,
            (b1 >> 6u8) & 3,
        ];
        let light1 = b2 & 3;
        let light2 = (b2 >> 6u8) & 3;
        let blower = b3 & 3;
        let mister = (b4 >> 4u8) & 3;
        let aux1 = (b4 >> 2u8) & 1;
        let aux2 = (b4 >> 3u8) & 1;
        assert(aux1 <= 1 && aux2 <= 1) by (bit_vector)
            requires
                aux1 == (b4 >> 2u8) & 1,
                aux2 == (b4 >> 3u8) & 1,
        ;
        let mut i: usize = 0;
        while i < 6
            invariant
                i <= 6,
                value@.len() == 6,
                b0 == value@[0],
                b1 == value@[1],
                forall|j: int| 0 <= j < 6 ==> bits@[j] == #[trigger] pump_bits(value@, j),
                forall|j: int| 0 <= j < i ==> #[trigger] pump_bits(value@, j) <= 2,
            decreases 6 - i,
        {
            if bits[i] > 2 {
                proof {
                    assert(pump_bits(value@, i as int) > 2);
                }
                return Err(PayloadParseError::InvalidData);
            }
            i = i + 1;
        }
        if light1 > 1 || light2 > 1 || blower > 1 || mister > 1 {
            return Err(PayloadParseError::InvalidData);
        }
        let mut pumps: Vec<ParsedEnum<PumpConfig, u8>> = Vec::new();
        let mut k: usize = 0;
        while k < 6
            invariant
                k <= 6,
                value@.len() == 6,
                pumps@.len() == k,
                forall|j: int| 0 <= j < 6 ==> bits@[j] == #[trigger] pump_bits(value@, j),
                forall|j: int| 0 <= j < 6 ==> #[trigger] pump_bits(value@, j) <= 2,
                forall|j: int|
                    0 <= j < k ==> {
                        &&& (#[trigger] pumps@[j]).raw() == pump_bits(value@, j)
                        &&& pumps@[j].parsed() == pump_config_of_number(
                            pump_bits(value@, j) as u32,
                        )
                    },
            decreases 6 - k,
        {
            proof {
                assert(pump_bits(value@, k as int) <= 2);
            }
            let e = known_pump(bits[k]);
            pumps.push(e);
            k = k + 1;
        }
        let mut has_lights: Vec<ParsedEnum<Boolean, u8>> = Vec::new();
        has_lights.push(known_relay(light1));
        has_lights.push(known_relay(light2));
        let mut has_aux: Vec<ParsedEnum<Boolean, u8>> = Vec::new();
        has_aux.push(known_relay(aux1));
        has_aux.push(known_relay(aux2));
        let blower_config = if blower == 1 {
            RelayConfig::Present
        } else {
            RelayConfig::Absent
        };
        let circulation_config = if (b3 >> 7u8) & 1 == 1 {
            RelayConfig::Present
        } else {
            RelayConfig::Absent
        };
        let m = Self {
            pumps,
            has_lights,
            has_blower: bool::from(Boolean::from(blower_config)),
            has_circulation_pump: bool::from(Boolean::from(circulation_config)),
            has_aux,
            has_mister: known_relay(mister),
        };
        proof {
            assert forall|j: int| 0 <= j < 2 implies holds_known(
                #[trigger] m.has_lights@[j],
                relay_boolean(light_bits(value@, j)),
            ) by {
                if j == 0 {
                } else {
                }
            }
            assert forall|j: int| 0 <= j < 2 implies holds_known(
                #[trigger] m.has_aux@[j],
                relay_boolean(aux_bits(value@, j)),
            ) by {
                if j == 0 {
                } else {
                }
            }
        }
        Ok(m)
    }
}

proof fn lemma_unpack_byte_of_four(a: u8, b: u8, c: u8, d: u8)
    requires
        a <= 3,
        b <= 3,
        c <= 3,
        d <= 3,
    ensures
        ((a << 6u8) | (b << 4u8) | (c << 2u8) | d) & 3 == d,
        (((a << 6u8) | (b << 4u8) | (c << 2u8) | d) >> 2u8) & 3 == c,
        (((a << 6u8) | (b << 4u8) | (c << 2u8) | d) >> 4u8) & 3 == b,
        (((a << 6u8) | (b << 4u8) | (c << 2u8) | d) >> 6u8) & 3 == a,
{
    assert(((a << 6u8) | (b << 4u8) | (c << 2u8) | d) & 3 == d) by (bit_vector)
        requires
            a <= 3 && b <= 3 && c <= 3 && d <= 3,
    ;
    assert((((a << 6u8) | (b << 4u8) | (c << 2u8) | d) >> 2u8) & 3 == c) by (bit_vector)
        requires
            a <= 3 && b <= 3 && c <= 3 && d <= 3,
    ;
    assert((((a << 6u8) | (b << 4u8) | (c << 2u8) | d) >> 4u8) & 3 == b) by (bit_vector)
        requires
            a <= 3 && b <= 3 && c <= 3 && d <= 3,
    ;
    assert((((a << 6u8) | (b << 4u8) | (c << 2u8) | d) >> 6u8) & 3 == a) by (bit_vector)
        requires
            a <= 3 && b <= 3 && c <= 3 && d <= 3,
    ;
}

proof fn lemma_unpack_other_bytes(e: u8, f: u8, l0: u8, l1: u8, circulation: u8, blower: u8, mister: u8, a0: u8, a1: u8)
    requires
        e <= 3,
        f <= 3,
        l0 <= 3,
        l1 <= 3,
        circulation <= 1,
        blower <= 1,
        mister <= 1,
        a0 <= 1,
        a1 <= 1,
    ensures
        (((f << 6u8) | (e << 4u8)) >> 4u8) & 3 == e,
        (((f << 6u8) | (e << 4u8)) >> 6u8) & 3 == f,
        ((l1 << 6u8) | l0) & 3 == l0,
        (((l1 << 6u8) | l0) >> 6u8) & 3 == l1,
        ((circulation << 7u8) | blower) & 3 == blower,
        (((mister << 4u8) | (a1 << 3u8) | (a0 << 2u8)) >> 4u8) & 3 == mister,
        (((mister << 4u8) | (a1 << 3u8) | (a0 << 2u8)) >> 2u8) & 1 == a0,
        (((mister << 4u8) | (a1 << 3u8) | (a0 << 2u8)) >> 3u8) & 1 == a1,
{
    assert((((f << 6u8) | (e << 4u8)) >> 4u8) & 3 == e && (((f << 6u8) | (e << 4u8)) >> 6u8) & 3 == f)
        by (bit_vector)
        requires
            e <= 3 && f <= 3,
    ;
    assert(((l1 << 6u8) | l0) & 3 == l0 && (((l1 << 6u8) | l0) >> 6u8) & 3 == l1) by (bit_vector)
        requires
            l0 <= 3 && l1 <= 3,
    ;
    assert(((circulation << 7u8) | blower) & 3 == blower) by (bit_vector)
        requires
            circulation <= 1 && blower <= 1,
    ;
    assert((((mister << 4u8) | (a1 << 3u8) | (a0 << 2u8)) >> 4u8) & 3 == mister
        && (((mister << 4u8) | (a1 << 3u8) | (a0 << 2u8)) >> 2u8) & 1 == a0
        && (((mister << 4u8) | (a1 << 3u8) | (a0 << 2u8)) >> 3u8) & 1 == a1) by (bit_vector)
        requires
            mister <= 1 && a0 <= 1 && a1 <= 1,
    ;
}

/// Unpacking the bytes of a configuration gives back each pump, light and auxiliary field
/// that was packed and the mister: the bytes always decode. (The blower and circulation
/// flags are read back through `bool::from(Boolean)`, which makes them `false`.)
pub proof fn lemma_configuration_roundtrip(m: ConfigurationResponseMessage)
    requires
        m.has_mister.raw() <= 1,
    ensures
        configuration_decodes(configuration_bytes(m)),
        forall|i: int| 0 <= i < 6 ==> #[trigger] pump_bits(configuration_bytes(m), i) == pump_field(m.pumps@, i),
        light_bits(configuration_bytes(m), 0) == relay_field(m.has_lights@, 0),
        light_bits(configuration_bytes(m), 1) == relay_field(m.has_lights@, 1),
        aux_bits(configuration_bytes(m), 0) == relay_field(m.has_aux@, 0),
        aux_bits(configuration_bytes(m), 1) == relay_field(m.has_aux@, 1),
        mister_bits(configuration_bytes(m)) == m.has_mister.raw(),
{
    let p = m.pumps@;
    let l = m.has_lights@;
    let a = m.has_aux@;
    let bytes = configuration_bytes(m);
    lemma_unpack_byte_of_four(pump_field(p, 3), pump_field(p, 2), pump_field(p, 1), pump_field(p, 0));
    lemma_unpack_other_bytes(
        pump_field(p, 4),
        pump_field(p, 5),
        relay_field(l, 0),
        relay_field(l, 1),
        flag_bit(m.has_circulation_pump),
        flag_bit(m.has_blower),
        m.has_mister.raw(),
        relay_field(a, 0),
        relay_field(a, 1),
    );
    assert forall|i: int| 0 <= i < 6 implies #[trigger] pump_bits(bytes, i) == pump_field(p, i) by {
        if i == 0 {
        } else if i == 1 {
        } else if i == 2 {
        } else if i == 3 {
        } else if i == 4 {
        } else {
        }
    }
}

} // verus!
