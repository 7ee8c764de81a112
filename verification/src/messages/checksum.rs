use vstd::prelude::*;

verus! {

/// One byte's worth of MSB-first shifts of the CRC-8 register with polynomial 0x07.
pub open spec fn crc8_shift(reg: u8, bits: nat) -> u8
    decreases bits,
{
    if bits == 0 {
        reg
    } else {
        let shifted = if reg & 0x80u8 == 0x80u8 {
            (reg << 1u8) ^ 0x07u8
        } else {
            reg << 1u8
        };
        crc8_shift(shifted, (bits - 1) as nat)
    }
}

/// CRC-8 register after feeding `data`, starting from the initial value 0x02.
pub open spec fn crc8_register(data: Seq<u8>) -> u8
    decreases data.len(),
{
    if data.len() == 0 {
        0x02
    } else {
        crc8_shift(crc8_register(data.drop_last()) ^ data.last(), 8)
    }
}

/// The protocol's checksum: CRC-8 with polynomial 0x07, initial value 0x02, no
/// reflection, final xor 0x02.
pub open spec fn crc8(data: Seq<u8>) -> u8 {
    crc8_register(data) ^ 0x02u8
}

/// Computes the checksum of `bytes` with `crc::Crc::<u8>::checksum` configured with the
/// protocol's CRC-8 parameters (width 8, poly 0x07, init 0x02, no reflection, xorout 0x02).
/// The contract claims that the crate computes the CRC that these parameters define, as
/// `crc8` states it.
#[verifier::external_body]
pub(crate) fn checksum(bytes: &[u8]) -> (crc: u8)
    ensures
        crc == crc8(bytes@),
{
    crc::Crc::<u8>::new(
        &crc::Algorithm {
            width: 8,
            poly: 0x07,
            init: 0x02,
            refin: false,
            refout: false,
            xorout: 0x02,
            check: 0x00,
            residue: 0x00,
        },
    ).checksum(bytes)
}

} // verus!
