//! Buzzer stub. The melody tables and the PWM tone generation never made
//! it past being sketched; the bell currently stays silent.

use vstd::prelude::*;

verus! {

/// The buzzer: a PWM channel and its output pin.
pub struct Bell<PWM, PIN> {
    pwm: PWM,
    pin: PIN,
}

impl<PWM, PIN> Bell<PWM, PIN> {
    pub fn new(pwm: PWM, pin: PIN) -> (b: Bell<PWM, PIN>) {
        Bell { pwm, pin }
    }

    /// Sound the buzzer at the given frequency. Disabled: the tone
    /// generation is not wired up, so this drives nothing.
    pub fn beep(&mut self, freq: u32) {
        let _ = freq;
    }
}

} // verus!
