//! Cyclic redundancy checks of the USI serial framing: CRC-8 (polynomial 0x07),
//! CRC-16 (polynomial 0x1021) and CRC-32 (polynomial 0x04C11DB7), all computed
//! most significant bit first, with a zero initial value and no final xor.
use vstd::prelude::*;

verus! {

/// One bit step of the CRC-8 shift register.
pub open spec fn crc8_shift(c: u8) -> u8 {
    if c & 0x80u8 != 0 {
        ((c << 1u8) ^ 0x07u8) as u8
    } else {
        (c << 1u8) as u8
    }
}

/// `n` bit steps of the CRC-8 shift register.
pub open spec fn crc8_shift_n(c: u8, n: nat) -> u8
    decreases n,
{
    if n == 0 {
        c
    } else {
        crc8_shift_n(crc8_shift(c), (n - 1) as nat)
    }
}

/// CRC-8 register after feeding one byte.
pub open spec fn crc8_byte(c: u8, b: u8) -> u8 {
    crc8_shift_n(c ^ b, 8)
}

/// CRC-8 of a byte sequence, fed from the first byte to the last.
pub open spec fn crc8_spec(s: Seq<u8>) -> u8
    decreases s.len(),
{
    if s.len() == 0 {
        0
    } else {
        crc8_byte(crc8_spec(s.drop_last()), s.last())
    }
}

pub open spec fn crc16_shift(c: u16) -> u16 {
    if c & 0x8000u16 != 0 {
        ((c << 1u16) ^ 0x1021u16) as u16
    } else {
        (c << 1u16) as u16
    }
}

pub open spec fn crc16_shift_n(c: u16, n: nat) -> u16
    decreases n,
{
    if n == 0 {
        c
    } else {
        crc16_shift_n(crc16_shift(c), (n - 1) as nat)
    }
}

pub open spec fn crc16_byte(c: u16, b: u8) -> u16 {
    crc16_shift_n(c ^ ((b as u16) << 8u16), 8)
}

/// CRC-16 of a byte sequence.
pub open spec fn crc16_spec(s: Seq<u8>) -> u16
    decreases s.len(),
{
    if s.len() == 0 {
        0
    } else {
        crc16_byte(crc16_spec(s.drop_last()), s.last())
    }
}

pub open spec fn crc32_shift(c: u32) -> u32 {
    if c & 0x8000_0000u32 != 0 {
        ((c << 1u32) ^ 0x04C1_1DB7u32) as u32
    } else {
        (c << 1u32) as u32
    }
}

pub open spec fn crc32_shift_n(c: u32, n: nat) -> u32
    decreases n,
{
    if n == 0 {
        c
    } else {
        crc32_shift_n(crc32_shift(c), (n - 1) as nat)
    }
}

pub open spec fn crc32_byte(c: u32, b: u8) -> u32 {
    crc32_shift_n(c ^ ((b as u32) << 24u32), 8)
}

/// CRC-32 of a byte sequence.
pub open spec fn crc32_spec(s: Seq<u8>) -> u32
    decreases s.len(),
{
    if s.len() == 0 {
        0
    } else {
        crc32_byte(crc32_spec(s.drop_last()), s.last())
    }
}

fn crc8_update(c: u8, b: u8) -> (r: u8)
    ensures
        r == crc8_byte(c, b),
{
    let mut x: u8 = c ^ b;
    let mut i: u8 = 0;
    while i < 8
        invariant
            i <= 8,
            crc8_shift_n(x, (8 - i) as nat) == crc8_byte(c, b),
        decreases 8 - i,
    {
        let ghost old_x = x;
        if x & 0x80 != 0 {
            x = (x << 1u8) ^ 0x07;
        } else {
            x = x << 1u8;
        }
        assert(x == crc8_shift(old_x));
        i = i + 1;
    }
    x
}

fn crc16_update(c: u16, b: u8) -> (r: u16)
    ensures
        r == crc16_byte(c, b),
{
    let mut x: u16 = c ^ ((b as u16) << 8u16);
    let mut i: u8 = 0;
    while i < 8
        invariant
            i <= 8,
            crc16_shift_n(x, (8 - i) as nat) == crc16_byte(c, b),
        decreases 8 - i,
    {
        let ghost old_x = x;
        if x & 0x8000 != 0 {
            x = (x << 1u16) ^ 0x1021;
        } else {
            x = x << 1u16;
        }
        assert(x == crc16_shift(old_x));
        i = i + 1;
    }
    x
}

fn crc32_update(c: u32, b: u8) -> (r: u32)
    ensures
        r == crc32_byte(c, b),
{
    let mut x: u32 = c ^ ((b as u32) << 24u32);
    let mut i: u8 = 0;
    while i < 8
        invariant
            i <= 8,
            crc32_shift_n(x, (8 - i) as nat) == crc32_byte(c, b),
        decreases 8 - i,
    {
        let ghost old_x = x;
        if x & 0x8000_0000 != 0 {
            x = (x << 1u32) ^ 0x04C1_1DB7;
        } else {
            x = x << 1u32;
        }
        assert(x == crc32_shift(old_x));
        i = i + 1;
    }
    x
}

/// CRC-8 of `data`.
pub fn evalCrc8(data: &Vec<u8>) -> (r: u8)
    ensures
        r == crc8_spec(data@),
{
    let mut crc: u8 = 0;
    let mut i: usize = 0;
    while i < data.len()
        invariant
            i <= data.len(),
            crc == crc8_spec(data@.take(i as int)),
        decreases data.len() - i,
    {
        assert(data@.take(i + 1).drop_last() =~= data@.take(i as int));
        crc = crc8_update(crc, data[i]);
        i = i + 1;
    }
    assert(data@.take(data.len() as int) =~= data@);
    crc
}

/// CRC-16 of `data`.
pub fn evalCrc16(data: &Vec<u8>) -> (r: u16)
    ensures
        r == crc16_spec(data@),
{
    let mut crc: u16 = 0;
    let mut i: usize = 0;
    while i < data.len()
        invariant
            i <= data.len(),
            crc == crc16_spec(data@.take(i as int)),
        decreases data.len() - i,
    {
        assert(data@.take(i + 1).drop_last() =~= data@.take(i as int));
        crc = crc16_update(crc, data[i]);
        i = i + 1;
    }
    assert(data@.take(data.len() as int) =~= data@);
    crc
}

/// CRC-32 of `data`.
pub fn evalCrc32(data: &Vec<u8>) -> (r: u32)
    ensures
        r == crc32_spec(data@),
{
    let mut crc: u32 = 0;
    let mut i: usize = 0;
    while i < data.len()
        invariant
            i <= data.len(),
            crc == crc32_spec(data@.take(i as int)),
        decreases data.len() - i,
    {
        assert(data@.take(i + 1).drop_last() =~= data@.take(i as int));
        crc = crc32_update(crc, data[i]);
        i = i + 1;
    }
    assert(data@.take(data.len() as int) =~= data@);
    crc
}

} // verus!
