//! Decision logic of the interrupt handlers.
//!
//! Each handler is a short synchronous function from explicit inputs (the
//! current time, the value a peripheral produced, the deadline the protocol
//! stepper handed back) to explicit outputs (what to broadcast, what to
//! program), with no hidden suspension. The radio- and timer-event
//! handlers' scheduling work is carried by the deadline timer's own
//! contract ([`crate::timer::DeadlineTimer`]); this module holds the
//! sampling handler's computation and the demo board's bookkeeping.

use vstd::prelude::*;

use crate::beacon::{beacon_level, display_percent, make_beacon_ad, AdData};
use crate::beacon::{BEACON_ADC_FULL_SCALE, VENDOR_AD_TYPE};

verus! {

/// Everything the periodic-sample handler decides from one raw reading:
/// the advertising structure to broadcast and the percentage to display.
pub struct BeaconTick {
    pub ad: AdData,
    pub percent: u16,
}

/// The periodic-sample handler's computation: scale the reading to the
/// advertised level byte and to the displayed percentage. Broadcasting and
/// drawing happen outside, after the handler acknowledged its timer event.
pub fn on_sample_tick(raw: u16) -> (t: BeaconTick)
    requires
        raw < BEACON_ADC_FULL_SCALE,
    ensures
        t.ad.ad_type == VENDOR_AD_TYPE,
        t.ad.data@ == seq![(raw / 64) as u8],
        t.percent == raw / 164,
{
    let level = beacon_level(raw);
    BeaconTick { ad: make_beacon_ad(level), percent: display_percent(raw) }
}

/// The demo board's blink-and-count state: its heartbeat task toggles the
/// LED and its external-interrupt handler counts events.
pub struct Blinker {
    on: bool,
    count: u64,
}

impl Blinker {
    /// Whether the LED is lit.
    pub closed spec fn led_on(self) -> bool {
        self.on
    }

    /// How many external events have been counted.
    pub closed spec fn events(self) -> u64 {
        self.count
    }

    /// The boot state: LED off, nothing counted.
    pub fn new() -> (b: Blinker)
        ensures
            !b.led_on(),
            b.events() == 0,
    {
        Blinker { on: false, count: 0 }
    }

    /// Whether the LED is lit, for the display task.
    pub fn is_led_on(&self) -> (r: bool)
        ensures
            r == self.led_on(),
    {
        self.on
    }

    /// How many external events have been counted, for the display task.
    pub fn event_count(&self) -> (n: u64)
        ensures
            n == self.events(),
    {
        self.count
    }

    /// One heartbeat: the LED toggles.
    pub fn heartbeat(&mut self)
        ensures
            final(self).led_on() == !old(self).led_on(),
            final(self).events() == old(self).events(),
    {
        self.on = !self.on;
    }

    /// One external interrupt observed and acknowledged.
    pub fn external_event(&mut self)
        requires
            old(self).events() < u64::MAX,
        ensures
            final(self).events() == old(self).events() + 1,
            final(self).led_on() == old(self).led_on(),
    {
        self.count = self.count + 1;
    }
}

} // verus!
