//! Beacon advertising values.
//!
//! The sampling board advertises one level byte in a vendor advertising
//! structure; the scanning board reacts to a received beacon by programming
//! its servo's PWM compare register. Broadcasting and scanning themselves
//! belong to the radio stack; this module computes the values exchanged.

use vstd::prelude::*;

verus! {

/// Kind of a 48-bit device address.
#[derive(Clone, Copy, Debug, PartialEq, Eq, Structural)]
pub enum AddressKind {
    Public,
    Random,
}

/// A 48-bit device address with its kind; immutable once constructed.
#[derive(Clone, Copy, Debug, PartialEq, Eq)]
pub struct DeviceAddress {
    pub bytes: [u8; 6],
    pub kind: AddressKind,
}

impl DeviceAddress {
    /// A device address from its raw bytes.
    pub fn new(bytes: [u8; 6], kind: AddressKind) -> (a: DeviceAddress)
        ensures
            a.bytes == bytes,
            a.kind == kind,
    {
        DeviceAddress { bytes, kind }
    }
}

/// The advertising-structure type of a vendor-specific (unknown) structure.
pub const VENDOR_AD_TYPE: u8 = 0xff;

/// One advertising data structure the protocol stack left unparsed: its
/// raw type byte and its data.
#[derive(Clone, Debug, PartialEq, Eq)]
pub struct AdData {
    pub ad_type: u8,
    pub data: Vec<u8>,
}

/// Full scale of the sampling board's analog-to-digital converter (14
/// bits).
pub const BEACON_ADC_FULL_SCALE: u16 = 16384;

/// The level byte the beacon advertises: the raw reading scaled to a byte.
pub fn beacon_level(raw: u16) -> (level: u8)
    requires
        raw < BEACON_ADC_FULL_SCALE,
    ensures
        level == raw / 64,
{
    (raw / 64) as u8
}

/// The percentage shown on the sampling board's display for a raw reading.
pub fn display_percent(raw: u16) -> (pcnt: u16)
    ensures
        pcnt == raw / 164,
{
    raw / 164
}

/// The vendor advertising structure carrying one level byte.
pub fn make_beacon_ad(level: u8) -> (ad: AdData)
    ensures
        ad.ad_type == VENDOR_AD_TYPE,
        ad.data@ == seq![level],
{
    let mut data: Vec<u8> = Vec::new();
    data.push(level);
    proof {
        assert(data@ =~= seq![level]);
    }
    AdData { ad_type: VENDOR_AD_TYPE, data }
}

/// The PWM compare value steering the servo for a received level byte.
pub open spec fn spec_pwm_compare(level: u8) -> u16 {
    (6990 + level * 2) as u16
}

/// The compare value the scanner programs before any beacon arrives.
pub const PWM_NEUTRAL_COMPARE: u16 = 7220;

/// The PWM compare value for a received level byte.
pub fn pwm_compare(level: u8) -> (v: u16)
    ensures
        v == spec_pwm_compare(level),
        6990 <= v <= 7500,
{
    6990u16 + (level as u16) * 2
}

/// The scan callback's decision on the last advertising structure of a
/// received beacon, handed over when the stack left it unparsed: the PWM
/// compare value to program, exactly when the structure carries a level
/// byte — whatever its type byte says.
pub fn on_beacon_scan(ad: &Option<AdData>) -> (r: Option<u16>)
    ensures
        match *ad {
            Some(ref a) => if a.data@.len() > 0 {
                r == Some(spec_pwm_compare(a.data@[0]))
            } else {
                r is None
            },
            None => r is None,
        },
{
    match ad {
        Some(a) => {
            if a.data.len() > 0 {
                Some(pwm_compare(a.data[0]))
            } else {
                None
            }
        },
        None => None,
    }
}

} // verus!
