//! The battery processor: a lightweight chain member that consumes
//! raw supply-voltage samples and passes every other event through.
//!
//! It conforms to the same processor interface as the joystick
//! processor and may run at any position of the same or a different
//! chain.  Turning the recorded sample into a transported battery
//! level is the host transport's concern.

use crate::event::{Event, ProcessResult};
use crate::keymap::KeyMap;
use vstd::prelude::*;

verus! {

/// The mathematical model of a battery processor.
#[verifier::ext_equal]
pub struct BatteryView {
    /// The measured leg of the supply-voltage divider, in ohms.
    pub adc_divider_measured: u32,
    /// The full supply-voltage divider, in ohms.
    pub adc_divider_total: u32,
    /// The most recent raw sample consumed, if any.
    pub last_sample: Option<i16>,
}

/// One battery processor instance.
pub struct BatteryProcessor<'a> {
    adc_divider_measured: u32,
    adc_divider_total: u32,
    last_sample: Option<i16>,
    keymap: &'a KeyMap,
}

impl<'a> View for BatteryProcessor<'a> {
    type V = BatteryView;

    closed spec fn view(&self) -> BatteryView {
        BatteryView {
            adc_divider_measured: self.adc_divider_measured,
            adc_divider_total: self.adc_divider_total,
            last_sample: self.last_sample,
        }
    }
}

impl<'a> BatteryProcessor<'a> {
    /// The keymap reference this processor borrows.
    pub closed spec fn spec_keymap(&self) -> &'a KeyMap {
        self.keymap
    }

    /// Construct a processor from the voltage-divider constants.  No
    /// sample has been seen yet.
    pub fn new(adc_divider_measured: u32, adc_divider_total: u32, keymap: &'a KeyMap) -> (r: Self)
        ensures
            r@ == (BatteryView { adc_divider_measured, adc_divider_total, last_sample: None }),
            r.spec_keymap() == keymap,
    {
        BatteryProcessor { adc_divider_measured, adc_divider_total, last_sample: None, keymap }
    }

    /// The most recent raw sample consumed, if any.
    pub fn last_sample(&self) -> (r: Option<i16>)
        ensures
            r == self@.last_sample,
    {
        self.last_sample
    }

    /// The shared keymap this processor consults.
    pub fn get_keymap(&self) -> (r: &'a KeyMap)
        ensures
            r == self.spec_keymap(),
    {
        self.keymap
    }

    /// Offer one event to this processor.  A battery sample is
    /// consumed and recorded; any other event passes through
    /// unchanged.
    pub fn process(&mut self, event: Event) -> (r: ProcessResult)
        ensures
            final(self).spec_keymap() == old(self).spec_keymap(),
            match event {
                Event::Battery(sample) => {
                    &&& r is Stop
                    &&& final(self)@ == (BatteryView {
                        last_sample: Some(sample),
                        ..old(self)@
                    })
                },
                _ => {
                    &&& r == ProcessResult::Continue(event)
                    &&& final(self)@ == old(self)@
                },
            },
    {
        match event {
            Event::Battery(sample) => {
                self.last_sample = Some(sample);
                ProcessResult::Stop
            },
            other => ProcessResult::Continue(other),
        }
    }
}

} // verus!
