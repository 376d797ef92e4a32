//! The SCD41 measurement frame: `CO2(2) + CRC(1) + T(2) + CRC(1) + RH(2) + CRC(1)`.

use crate::text::{decimal, push_decimal};
use vstd::prelude::*;
use vstd::string::StringExecFns;

verus! {

/// Generator polynomial of the Sensirion CRC-8.
pub const CRC8_POLYNOMIAL: u8 = 0x31;

/// Initial register value of the Sensirion CRC-8.
pub const CRC8_INIT: u8 = 0xFF;

/// Command to read measurement.
pub const CMD_READ_MEASUREMENT: u16 = 0xec05;

/// Command to start periodic measurement.
pub const CMD_START_PERIODIC_MEASUREMENT: u16 = 0x21b1;

/// Command to stop periodic measurement.
pub const CMD_STOP_PERIODIC_MEASUREMENT: u16 = 0x3f86;

/// SCD41 I2C address.
pub const SCD41_ADDRESS: u8 = 0x62;

/// Length in bytes of one measurement frame.
pub const FRAME_LEN: usize = 9;

/// One shift of the CRC register: shift left, folding in the polynomial when
/// the top bit falls out.
pub open spec fn crc8_shift(crc: u8) -> u8 {
    if crc & 0x80u8 != 0 {
        (crc << 1u8) ^ CRC8_POLYNOMIAL
    } else {
        crc << 1u8
    }
}

/// `n` shifts of the CRC register.
pub open spec fn crc8_shifts(crc: u8, n: nat) -> u8
    decreases n,
{
    if n == 0 {
        crc
    } else {
        crc8_shift(crc8_shifts(crc, (n - 1) as nat))
    }
}

/// The register after feeding one byte, most significant bit first.
pub open spec fn crc8_feed(crc: u8, byte: u8) -> u8 {
    crc8_shifts(crc ^ byte, 8)
}

/// The register after feeding all of `data`, starting from `crc`.
pub open spec fn crc8_from(crc: u8, data: Seq<u8>) -> u8
    decreases data.len(),
{
    if data.len() == 0 {
        crc
    } else {
        crc8_feed(crc8_from(crc, data.drop_last()), data.last())
    }
}

/// Sensirion CRC-8 of `data`: polynomial `0x31`, initial value `0xFF`, no
/// reflection, no final XOR.
pub open spec fn crc8(data: Seq<u8>) -> u8 {
    crc8_from(CRC8_INIT, data)
}

/// Generate Sensirion CRC-8 (Polynomial: `0x31`, Init: `0xFF`).
pub fn crc8_sensirion(data: &[u8]) -> (r: u8)
    ensures
        r == crc8(data@),
{
    let mut crc: u8 = CRC8_INIT;
    let mut i: usize = 0;
    while i < data.len()
        invariant
            i <= data@.len(),
            crc == crc8_from(CRC8_INIT, data@.subrange(0, i as int)),
        decreases data@.len() - i,
    {
        let start = crc ^ data[i];
        crc = start;
        let mut bit: u8 = 0;
        while bit < 8
            invariant
                bit <= 8,
                crc == crc8_shifts(start, bit as nat),
            decreases 8 - bit,
        {
            if (crc & 0x80) != 0 {
                crc = (crc << 1u8) ^ CRC8_POLYNOMIAL;
            } else {
                crc = crc << 1u8;
            }
            bit = bit + 1;
        }
        assert(data@.subrange(0, i + 1).drop_last() =~= data@.subrange(0, i as int));
        i = i + 1;
    }
    assert(data@.subrange(0, data@.len() as int) =~= data@);
    crc
}


/// A decoded measurement, holding the sensor's raw words.
///
/// Temperature and humidity are kept as the 16-bit words that the sensor
/// sends; [`Measurement::temperature_centi`] and
/// [`Measurement::humidity_centi`] turn them into hundredths of a degree
/// Celsius and of a percent.
#[derive(Debug, Clone, Copy, PartialEq, Eq, Structural)]
pub struct Measurement {
    /// CO2 concentration in parts per million (ppm).
    pub co2_ppm: u16,
    /// Raw temperature word: `T = -45 + 175 * raw / 65535` degrees Celsius.
    pub temperature_raw: u16,
    /// Raw humidity word: `RH = 100 * raw / 65535` percent.
    pub humidity_raw: u16,
}

/// Parse error.
#[derive(Debug, Clone, Copy, PartialEq, Eq, Structural)]
pub enum ParseError {
    /// Invalid buffer length.
    InvalidLength { expected: usize, actual: usize },
    /// CRC mismatch in chunk.
    CrcMismatch { chunk_index: usize },
    /// Not ready all zeros.
    NotReadyAllZeros,
}

impl ParseError {
    /// The human-readable text of the error.
    pub open spec fn text(&self) -> Seq<char> {
        match *self {
            ParseError::InvalidLength { expected, actual } => "Invalid buffer length: expected "@
                + decimal(expected as nat) + ", got "@ + decimal(actual as nat),
            ParseError::CrcMismatch { chunk_index } => "CRC mismatch in chunk "@ + decimal(
                chunk_index as nat,
            ),
            ParseError::NotReadyAllZeros => "Sensor returned all zero values"@,
        }
    }

    /// Format the error message.
    pub fn message(&self) -> (r: String)
        ensures
            r@ == self.text(),
    {
        match *self {
            ParseError::InvalidLength { expected, actual } => {
                let mut s = String::from_str("Invalid buffer length: expected ");
                push_decimal(&mut s, expected);
                s.append(", got ");
                push_decimal(&mut s, actual);
                s
            },
            ParseError::CrcMismatch { chunk_index } => {
                let mut s = String::from_str("CRC mismatch in chunk ");
                push_decimal(&mut s, chunk_index);
                s
            },
            ParseError::NotReadyAllZeros => String::from_str("Sensor returned all zero values"),
        }
    }
}

/// The big-endian word `[hi, lo]`.
pub open spec fn be_word(hi: u8, lo: u8) -> u16 {
    (hi as int * 256 + lo as int) as u16
}

/// The data word of chunk `k` of a frame.
pub open spec fn frame_word(frame: Seq<u8>, k: int) -> u16 {
    be_word(frame[3 * k], frame[3 * k + 1])
}

/// Chunk `k` of a frame carries the CRC of its two data bytes.
pub open spec fn chunk_crc_ok(frame: Seq<u8>, k: int) -> bool {
    crc8(seq![frame[3 * k], frame[3 * k + 1]]) == frame[3 * k + 2]
}

/// What decoding `frame` yields: the length is checked first, then the
/// chunks' CRCs in order, then that the sensor sent something other than
/// zeros.
pub open spec fn parse_result(frame: Seq<u8>) -> Result<Measurement, ParseError> {
    if frame.len() != FRAME_LEN as int {
        Err(ParseError::InvalidLength { expected: FRAME_LEN, actual: frame.len() as usize })
    } else if !chunk_crc_ok(frame, 0) {
        Err(ParseError::CrcMismatch { chunk_index: 0 })
    } else if !chunk_crc_ok(frame, 1) {
        Err(ParseError::CrcMismatch { chunk_index: 1 })
    } else if !chunk_crc_ok(frame, 2) {
        Err(ParseError::CrcMismatch { chunk_index: 2 })
    } else if frame_word(frame, 0) == 0 && frame_word(frame, 1) == 0 && frame_word(frame, 2) == 0 {
        Err(ParseError::NotReadyAllZeros)
    } else {
        Ok(
            Measurement {
                co2_ppm: frame_word(frame, 0),
                temperature_raw: frame_word(frame, 1),
                humidity_raw: frame_word(frame, 2),
            },
        )
    }
}

/// The SCD41 returns measurements as 9 bytes:
/// `CO2(2) + CRC(1) + T(2) + CRC(1) + RH(2) + CRC(1)`.
pub fn parse_measurement(buffer: &[u8]) -> (r: Result<Measurement, ParseError>)
    ensures
        r == parse_result(buffer@),
{
    if buffer.len() != FRAME_LEN {
        return Err(ParseError::InvalidLength { expected: FRAME_LEN, actual: buffer.len() });
    }
    let mut chunk_index: usize = 0;
    while chunk_index < 3
        invariant
            buffer@.len() == FRAME_LEN,
            chunk_index <= 3,
            forall|k: int| 0 <= k < chunk_index ==> chunk_crc_ok(buffer@, k),
        decreases 3 - chunk_index,
    {
        let i = chunk_index * 3;
        let pair: [u8; 2] = [buffer[i], buffer[i + 1]];
        assert(pair@ =~= seq![buffer@[i as int], buffer@[i + 1]]);
        let actual = crc8_sensirion(pair.as_slice());
        if buffer[i + 2] != actual {
            return Err(ParseError::CrcMismatch { chunk_index });
        }
        chunk_index = chunk_index + 1;
    }
    let co2 = word_from_be(buffer[0], buffer[1]);
    let temperature_raw = word_from_be(buffer[3], buffer[4]);
    let humidity_raw = word_from_be(buffer[6], buffer[7]);
    if co2 == 0 && temperature_raw == 0 && humidity_raw == 0 {
        return Err(ParseError::NotReadyAllZeros);
    }
    Ok(Measurement { co2_ppm: co2, temperature_raw, humidity_raw })
}

/// The two bytes that carry a command on the bus, most significant first.
pub fn command_bytes(command: u16) -> (r: [u8; 2])
    ensures
        r == [(command / 256) as u8, (command % 256) as u8],
        be_word(r[0], r[1]) == command,
{
    [(command / 256) as u8, (command % 256) as u8]
}

/// `u16::from_be_bytes([hi, lo])`.
fn word_from_be(hi: u8, lo: u8) -> (r: u16)
    ensures
        r == be_word(hi, lo),
{
    (hi as u16) * 256 + (lo as u16)
}

/// `2 * |den * value - num| <= den`: `value` is an integer nearest to
/// `num / den` (the nearest one when `den` is odd, as no tie can occur).
pub open spec fn nearest(value: int, num: int, den: int) -> bool {
    let d = den * value - num;
    2 * (if d < 0 { -d } else { d }) <= den
}

impl Measurement {
    /// Temperature in hundredths of a degree Celsius, rounded to the
    /// nearest: `100 * (-45 + 175 * raw / 65535)`.
    pub fn temperature_centi(&self) -> (r: i16)
        ensures
            nearest(r as int, 17500 * self.temperature_raw - 4500 * 65535, 65535),
            -4500 <= r <= 13000,
    {
        let raw = self.temperature_raw as u64;
        let q = (35000 * raw + 65535) / 131070;
        proof {
            assert(131070 * q <= 35000 * raw + 65535 < 131070 * (q + 1)) by (nonlinear_arith)
                requires
                    q == (35000 * raw + 65535) / 131070,
            ;
            assert(q <= 17500) by (nonlinear_arith)
                requires
                    131070 * q <= 35000 * raw + 65535,
                    raw <= 65535,
            ;
        }
        (q as i16) - 4500
    }

    /// Relative humidity in hundredths of a percent, rounded to the nearest:
    /// `100 * (100 * raw / 65535)`.
    pub fn humidity_centi(&self) -> (r: u16)
        ensures
            nearest(r as int, 10000 * self.humidity_raw, 65535),
            r <= 10000,
    {
        let raw = self.humidity_raw as u64;
        let q = (20000 * raw + 65535) / 131070;
        proof {
            assert(131070 * q <= 20000 * raw + 65535 < 131070 * (q + 1)) by (nonlinear_arith)
                requires
                    q == (20000 * raw + 65535) / 131070,
            ;
            assert(q <= 10000) by (nonlinear_arith)
                requires
                    131070 * q <= 20000 * raw + 65535,
                    raw <= 65535,
            ;
        }
        q as u16
    }
}

/// The three bytes that carry `word`: big-endian data and its CRC.
pub open spec fn chunk_bytes(word: u16) -> Seq<u8> {
    let hi = (word / 256) as u8;
    let lo = (word % 256) as u8;
    seq![hi, lo, crc8(seq![hi, lo])]
}

/// The frame the sensor sends for the given raw words.
pub open spec fn frame_of(co2: u16, temperature: u16, humidity: u16) -> Seq<u8> {
    chunk_bytes(co2) + chunk_bytes(temperature) + chunk_bytes(humidity)
}

/// A frame built from any raw words with correct CRCs decodes to exactly
/// those words, unless all three are zero, which means the sensor is not
/// ready.
pub proof fn lemma_valid_frame_decodes(co2: u16, temperature: u16, humidity: u16)
    ensures
        parse_result(frame_of(co2, temperature, humidity)) == if co2 == 0 && temperature == 0
            && humidity == 0 {
            Err::<Measurement, ParseError>(ParseError::NotReadyAllZeros)
        } else {
            Ok(Measurement { co2_ppm: co2, temperature_raw: temperature, humidity_raw: humidity })
        },
{
    let f = frame_of(co2, temperature, humidity);
    assert(f.len() == 9);
    assert(f[0] == (co2 / 256) as u8 && f[1] == (co2 % 256) as u8);
    assert(f[3] == (temperature / 256) as u8 && f[4] == (temperature % 256) as u8);
    assert(f[6] == (humidity / 256) as u8 && f[7] == (humidity % 256) as u8);
    assert(chunk_crc_ok(f, 0) && chunk_crc_ok(f, 1) && chunk_crc_ok(f, 2));
    assert(frame_word(f, 0) == co2);
    assert(frame_word(f, 1) == temperature);
    assert(frame_word(f, 2) == humidity);
}

/// Replacing the CRC byte of chunk `i` of a valid frame with any other value
/// makes decoding fail on chunk `i`.
pub proof fn lemma_corrupt_crc_detected(
    co2: u16,
    temperature: u16,
    humidity: u16,
    i: int,
    bad: u8,
)
    requires
        0 <= i < 3,
        bad != frame_of(co2, temperature, humidity)[3 * i + 2],
    ensures
        parse_result(frame_of(co2, temperature, humidity).update(3 * i + 2, bad)) == Err::<
            Measurement,
            ParseError,
        >(ParseError::CrcMismatch { chunk_index: i as usize }),
{
    let f = frame_of(co2, temperature, humidity);
    let g = f.update(3 * i + 2, bad);
    lemma_valid_frame_decodes(co2, temperature, humidity);
    assert(chunk_crc_ok(f, 0) && chunk_crc_ok(f, 1) && chunk_crc_ok(f, 2));
    assert forall|k: int| 0 <= k < 3 && k != i implies chunk_crc_ok(g, k) by {
        assert(g[3 * k] == f[3 * k] && g[3 * k + 1] == f[3 * k + 1] && g[3 * k + 2] == f[3 * k
            + 2]);
    }
    assert(g[3 * i] == f[3 * i] && g[3 * i + 1] == f[3 * i + 1]);
    assert(!chunk_crc_ok(g, i));
}

/// Decoding stops at the first chunk whose CRC fails: the bytes after that
/// chunk are never looked at.
pub proof fn lemma_first_bad_chunk_decides(a: Seq<u8>, b: Seq<u8>, i: int)
    requires
        a.len() == FRAME_LEN,
        b.len() == FRAME_LEN,
        0 <= i < 3,
        forall|j: int| 0 <= j < 3 * i + 3 ==> a[j] == b[j],
        forall|k: int| 0 <= k < i ==> chunk_crc_ok(a, k),
        !chunk_crc_ok(a, i),
    ensures
        parse_result(a) == Err::<Measurement, ParseError>(
            ParseError::CrcMismatch { chunk_index: i as usize },
        ),
        parse_result(b) == parse_result(a),
{
    assert forall|k: int| 0 <= k <= i implies chunk_crc_ok(a, k) == chunk_crc_ok(b, k) by {
        assert(a[3 * k] == b[3 * k] && a[3 * k + 1] == b[3 * k + 1] && a[3 * k + 2] == b[3 * k
            + 2]);
    }
}

} // verus!
