//! Wire packets of the sensor link.
//!
//! The sending board reads its sensor, reduces the reading to a percentage,
//! and broadcasts a four-byte packet whose last byte is the low checksum
//! byte of the reading. The receiving board validates that byte, scales the
//! reading to a duty-cycle command, and frames the command for the motor
//! controller behind its serial port: start byte, length, payload, the
//! payload's checksum (big endian), stop byte.

use vstd::prelude::*;

use crate::bytes::{spec_be16, spec_be32, write_u16_be, write_u16_le, write_u32_be};
use crate::checksum::{checksum16, checksum16_of};

verus! {

/// Full scale of the sensor's analog-to-digital converter (12 bits).
pub const SENSOR_FULL_SCALE: u32 = 4096;

/// Reduce a raw sensor reading to a percentage of full scale.
pub fn sensor_percent(raw: u32) -> (pcnt: u8)
    requires
        raw < SENSOR_FULL_SCALE,
    ensures
        pcnt == raw * 100 / (SENSOR_FULL_SCALE as int),
        pcnt <= 99,
{
    ((raw * 100) / SENSOR_FULL_SCALE) as u8
}

/// Whether the load indicator reports a high reading: readings above half
/// scale light it.
pub fn load_is_high(pcnt: u8) -> (high: bool)
    ensures
        high == (pcnt > 50),
{
    pcnt > 50
}

/// The radio packet of one sensor reading: two marker bytes, the reading,
/// and the low byte of the reading's checksum.
pub open spec fn spec_sensor_packet(pcnt: u8) -> Seq<u8> {
    seq![1u8, 2u8, pcnt, (checksum16_of(seq![pcnt]) & 0xff) as u8]
}

/// Build the radio packet of one sensor reading.
pub fn build_sensor_packet(pcnt: u8) -> (p: Vec<u8>)
    ensures
        p@ == spec_sensor_packet(pcnt),
        p@.len() == 4,
{
    let mut reading: Vec<u8> = Vec::new();
    reading.push(pcnt);
    let c = checksum16(&reading);
    let hash = write_u16_le(c);
    let mut p: Vec<u8> = Vec::new();
    p.push(0x01);
    p.push(0x02);
    p.push(pcnt);
    p.push(hash[0]);
    proof {
        assert(reading@ =~= seq![pcnt]);
        assert(p@ =~= spec_sensor_packet(pcnt));
    }
    p
}

/// Validate a received radio packet: the reading it carries, if and only if
/// the packet's checksum byte matches the reading's checksum.
pub fn validate_sensor_packet(payload: &Vec<u8>) -> (r: Option<u8>)
    requires
        payload.len() >= 4,
    ensures
        r is Some <==> payload@[3] == (checksum16_of(seq![payload@[2]]) & 0xff) as u8,
        r matches Some(pcnt) ==> pcnt == payload@[2],
{
    let mut reading: Vec<u8> = Vec::new();
    reading.push(payload[2]);
    let c = checksum16(&reading);
    let hash = write_u16_le(c);
    proof {
        assert(reading@ =~= seq![payload@[2]]);
    }
    if payload[3] == hash[0] {
        Some(payload[2])
    } else {
        None
    }
}

/// The duty-cycle command payload: the command byte and the duty cycle,
/// reading times one thousand, big endian.
pub open spec fn spec_duty_payload(pcnt: u8) -> Seq<u8> {
    seq![5u8] + spec_be32((pcnt * 1000) as u32)
}

/// The serial frame around the duty-cycle command: start byte, payload
/// length, payload, the payload's checksum big endian, stop byte.
pub open spec fn spec_duty_frame(pcnt: u8) -> Seq<u8> {
    seq![2u8, 5u8] + spec_duty_payload(pcnt) + spec_be16(checksum16_of(spec_duty_payload(pcnt)))
        + seq![3u8]
}

/// Build the serial frame commanding the duty cycle for one validated
/// reading.
pub fn build_duty_frame(pcnt: u8) -> (f: Vec<u8>)
    ensures
        f@ == spec_duty_frame(pcnt),
        f@.len() == 10,
{
    let duty: u32 = pcnt as u32 * 1000;
    let mut payload: Vec<u8> = Vec::new();
    payload.push(0x05);
    let mut dutyb = write_u32_be(duty);
    payload.append(&mut dutyb);
    proof {
        assert(payload@ =~= spec_duty_payload(pcnt));
    }
    let c = checksum16(&payload);
    let cb = write_u16_be(c);
    let mut f: Vec<u8> = Vec::new();
    f.push(0x02);
    f.push(5);
    let mut i: usize = 0;
    while i < payload.len()
        invariant
            i <= payload.len(),
            payload@ == spec_duty_payload(pcnt),
            f@ == seq![2u8, 5u8] + payload@.take(i as int),
        decreases payload.len() - i,
    {
        f.push(payload[i]);
        i += 1;
        proof {
            assert(payload@.take(i as int) =~= payload@.take(i - 1).push(payload@[i - 1]));
        }
    }
    f.push(cb[0]);
    f.push(cb[1]);
    f.push(0x03);
    proof {
        assert(payload@.take(payload@.len() as int) =~= payload@);
        assert(f@ =~= spec_duty_frame(pcnt));
    }
    f
}

/// The receiving board's whole reaction to one radio packet: the serial
/// frame to forward, if and only if the packet's checksum byte matches the
/// reading it carries; a corrupted packet produces nothing.
pub fn handle_radio_packet(payload: &Vec<u8>) -> (r: Option<Vec<u8>>)
    requires
        payload.len() >= 4,
    ensures
        r is Some <==> payload@[3] == (checksum16_of(seq![payload@[2]]) & 0xff) as u8,
        r matches Some(f) ==> f@ == spec_duty_frame(payload@[2]),
{
    match validate_sensor_packet(payload) {
        Some(pcnt) => Some(build_duty_frame(pcnt)),
        None => None,
    }
}

} // verus!
