//! The tone state machine for the piezo buzzer: a thin actuator holding
//! PWM frequency and duty cycle, and the start/stop transitions a beep is
//! made of.
//!
//! The application owns the PWM hardware: after every verified transition
//! it mirrors the actuator's frequency and duty cycle into the backend's
//! registers, and it supplies the timing of a beep (the suspension between
//! start and stop, on the calling thread or on a spawned one). Overlapping
//! fire-and-forget beeps on one actuator race on this shared state: the
//! last task to reach its stop wins, whatever the start order.

use vstd::prelude::*;

verus! {

/// Initial PWM frequency on construction: 440 Hz, in millihertz.
pub const INITIAL_FREQUENCY_MILLIHZ: u64 = 440_000;

/// A full-on square wave: duty cycle 1.0, in per-mille.
pub const DUTY_FULL_MILLI: u64 = 1000;

/// PWM state for one output channel: frequency in millihertz and duty
/// cycle in per-mille of `[0, 1000]`.
#[derive(Debug)]
pub struct ToneActuator {
    /// Configured frequency, millihertz.
    pub frequency_millihz: u64,
    /// Configured duty cycle, per-mille; at most 1000.
    pub duty_cycle_milli: u64,
}

impl ToneActuator {
    /// The duty cycle is a ratio: never above 1000 per-mille.
    pub open spec fn wf(&self) -> bool {
        self.duty_cycle_milli <= 1000
    }

    /// The initial configuration: 440 Hz, silent.
    pub fn new() -> (r: ToneActuator)
        ensures
            r.frequency_millihz == INITIAL_FREQUENCY_MILLIHZ,
            r.duty_cycle_milli == 0,
            r.wf(),
    {
        ToneActuator { frequency_millihz: INITIAL_FREQUENCY_MILLIHZ, duty_cycle_milli: 0 }
    }

    /// Sets the frequency; the duty cycle is untouched.
    pub fn set_frequency(&mut self, millihz: u64)
        ensures
            final(self).frequency_millihz == millihz,
            final(self).duty_cycle_milli == old(self).duty_cycle_milli,
    {
        self.frequency_millihz = millihz;
    }

    /// Sets the duty cycle; the frequency is untouched.
    pub fn set_duty_cycle(&mut self, milli: u64)
        requires
            milli <= 1000,
        ensures
            final(self).duty_cycle_milli == milli,
            final(self).frequency_millihz == old(self).frequency_millihz,
            final(self).wf(),
    {
        self.duty_cycle_milli = milli;
    }

    /// Reads back the duty cycle: always the last value written.
    pub fn duty_cycle(&self) -> (r: u64)
        ensures
            r == self.duty_cycle_milli,
    {
        self.duty_cycle_milli
    }
}

/// The state a [`Piezo`] reaches on `start`: duty cycle full on, and the
/// requested frequency when one is given.
pub open spec fn spec_start(p: Piezo, frequency: Option<u64>) -> Piezo {
    Piezo {
        tone: ToneActuator {
            frequency_millihz: match frequency {
                Option::Some(f) => f,
                Option::None => p.tone.frequency_millihz,
            },
            duty_cycle_milli: 1000,
        },
    }
}

/// The state a [`Piezo`] reaches on `stop`: silent, frequency kept.
pub open spec fn spec_stop(p: Piezo) -> Piezo {
    Piezo { tone: ToneActuator { duty_cycle_milli: 0, ..p.tone } }
}

/// A beep is a start followed, once its duration has elapsed, by a stop.
/// Whatever state the buzzer began in, the start leaves it sounding at
/// full duty on the requested frequency, and the stop leaves it silent
/// with that frequency still configured.
pub proof fn lemma_beep_transitions(p: Piezo, frequency: u64)
    ensures
        spec_start(p, Option::Some(frequency)).sounding(),
        spec_start(p, Option::Some(frequency)).tone.frequency_millihz == frequency,
        !spec_stop(spec_start(p, Option::Some(frequency))).sounding(),
        spec_stop(spec_start(p, Option::Some(frequency))).tone.duty_cycle_milli == 0,
        spec_stop(spec_start(p, Option::Some(frequency))).tone.frequency_millihz == frequency,
{
}

/// A buzzer over one tone actuator, silent or sounding.
#[derive(Debug)]
pub struct Piezo {
    /// The owned PWM state; the application mirrors it to the hardware
    /// channel bound at construction.
    pub tone: ToneActuator,
}

impl Piezo {
    /// Sounding means a nonzero duty cycle; `start` drives it full on and
    /// `stop` back to zero.
    pub open spec fn sounding(&self) -> bool {
        self.tone.duty_cycle_milli > 0
    }

    /// The duty cycle is a ratio: never above 1000 per-mille.
    pub open spec fn wf(&self) -> bool {
        self.tone.wf()
    }

    /// A silent buzzer at the initial 440 Hz configuration.
    pub fn new() -> (r: Piezo)
        ensures
            r.tone.frequency_millihz == INITIAL_FREQUENCY_MILLIHZ,
            !r.sounding(),
            r.wf(),
    {
        Piezo { tone: ToneActuator::new() }
    }

    /// Changes the tone frequency (millihertz) without altering the duty
    /// cycle, so a sounding buzzer keeps sounding.
    pub fn frequency(&mut self, value: u64)
        ensures
            final(self).tone.frequency_millihz == value,
            final(self).tone.duty_cycle_milli == old(self).tone.duty_cycle_milli,
            final(self).sounding() == old(self).sounding(),
    {
        self.tone.set_frequency(value);
    }

    /// Transitions to sounding: sets the frequency when one is given, then
    /// drives the duty cycle full on.
    pub fn start(&mut self, frequency: Option<u64>)
        ensures
            *final(self) == spec_start(*old(self), frequency),
            final(self).sounding(),
            final(self).wf(),
    {
        if let Some(freq) = frequency {
            self.tone.set_frequency(freq);
        }
        self.tone.set_duty_cycle(DUTY_FULL_MILLI);
    }

    /// Transitions to silent: drives the duty cycle to zero, keeping the
    /// frequency.
    pub fn stop(&mut self)
        ensures
            *final(self) == spec_stop(*old(self)),
            !final(self).sounding(),
            final(self).wf(),
    {
        self.tone.set_duty_cycle(0);
    }
}

} // verus!
