//! The calibration layer: wraps a [`PulseCounter`] and maps its raw pulse
//! rate onto a bounded saturation value between a wet reference point and a
//! dry reference point. Either point may be set to an explicit value or
//! snapshotted from the live reading.
//!
//! Saturation follows `clamp((rate - dry) / (wet - dry), 0, 1)`, expressed
//! here in per-mille over milli-rates. A calibration whose wet and dry
//! points coincide makes that quotient undefined; such a sensor is
//! uncalibrated and every saturation read reports `None`.

use vstd::prelude::*;
use vstd::arithmetic::div_mod::lemma_div_pos_is_pos;
use vstd::arithmetic::div_mod::lemma_multiply_divide_le;

use crate::channel::HardwareInitError;
use crate::channel::pin_for_channel;
use crate::channel::spec_pin_for_channel;
use crate::sampler::PulseCounter;
use crate::sampler::SamplerModel;
use crate::sampler::spec_is_active;
use crate::sampler::spec_on_edge;
use crate::sampler::spec_read_rate;

verus! {

/// Default wet reference point: 0.7 pulses per second, in milli-units.
pub const DEFAULT_WET_POINT_MILLI: u64 = 700;

/// Default dry reference point: 27.6 pulses per second, in milli-units.
pub const DEFAULT_DRY_POINT_MILLI: u64 = 27_600;

/// The calibrated saturation of a raw rate, in per-mille of the span
/// between the dry point (saturation 0) and the wet point (saturation
/// 1000), truncated and clamped to `[0, 1000]`. This is
/// `clamp((rate - dry) / (wet - dry), 0, 1)` scaled by 1000, written so
/// that every division has a non-negative numerator and a positive
/// denominator.
pub open spec fn spec_saturation_milli(rate: int, wet: int, dry: int) -> int
    recommends
        wet != dry,
{
    if wet < dry {
        if rate >= dry {
            0
        } else if rate <= wet {
            1000
        } else {
            (dry - rate) * 1000 / (dry - wet)
        }
    } else {
        if rate <= dry {
            0
        } else if rate >= wet {
            1000
        } else {
            (rate - dry) * 1000 / (wet - dry)
        }
    }
}

/// An explicit calibration value, or the given live reading in its absence.
pub open spec fn spec_point_or(value: Option<u64>, live: u64) -> u64 {
    match value {
        Option::Some(v) => v,
        Option::None => live,
    }
}

/// Saturation is within `[0, 1000]` per-mille for every calibration with
/// distinct wet and dry points, whatever the magnitude of the raw rate:
/// clamping holds at both ends.
pub proof fn lemma_saturation_bounded(rate: int, wet: int, dry: int)
    requires
        wet != dry,
    ensures
        0 <= spec_saturation_milli(rate, wet, dry) <= 1000,
{
    if wet < dry {
        if wet < rate < dry {
            let num = (dry - rate) * 1000;
            let den = dry - wet;
            lemma_div_pos_is_pos(num, den);
            lemma_multiply_divide_le(num, den, 1000);
        }
    } else {
        if dry < rate < wet {
            let num = (rate - dry) * 1000;
            let den = wet - dry;
            lemma_div_pos_is_pos(num, den);
            lemma_multiply_divide_le(num, den, 1000);
        }
    }
}

/// The calibrated saturation of `rate_milli`, in per-mille.
fn saturation_milli(rate_milli: u64, wet_milli: u64, dry_milli: u64) -> (r: u64)
    requires
        wet_milli != dry_milli,
    ensures
        r == spec_saturation_milli(rate_milli as int, wet_milli as int, dry_milli as int),
        r <= 1000,
{
    proof {
        lemma_saturation_bounded(rate_milli as int, wet_milli as int, dry_milli as int);
    }
    if wet_milli < dry_milli {
        if rate_milli >= dry_milli {
            0
        } else if rate_milli <= wet_milli {
            1000
        } else {
            let num: u128 = ((dry_milli - rate_milli) as u128) * 1000;
            let den: u128 = (dry_milli - wet_milli) as u128;
            (num / den) as u64
        }
    } else {
        if rate_milli <= dry_milli {
            0
        } else if rate_milli >= wet_milli {
            1000
        } else {
            let num: u128 = ((rate_milli - dry_milli) as u128) * 1000;
            let den: u128 = (wet_milli - dry_milli) as u128;
            (num / den) as u64
        }
    }
}

/// Mathematical model of a calibrated sensor.
pub ghost struct MoistureModel {
    /// Model of the owned pulse counter.
    pub sampler: SamplerModel,
    /// Rate expected at full saturation, milli-pulses per second.
    pub wet_point_milli: u64,
    /// Rate expected when fully dry, milli-pulses per second.
    pub dry_point_milli: u64,
}

/// Setting the wet point stores the explicit value, or snapshots the rate
/// the sampler currently reads.
pub open spec fn spec_set_wet_point(m: MoistureModel, value: Option<u64>) -> MoistureModel {
    MoistureModel { wet_point_milli: spec_point_or(value, m.sampler.rate_milli), ..m }
}

/// Setting the dry point stores the explicit value, or snapshots the rate
/// the sampler currently reads.
pub open spec fn spec_set_dry_point(m: MoistureModel, value: Option<u64>) -> MoistureModel {
    MoistureModel { dry_point_milli: spec_point_or(value, m.sampler.rate_milli), ..m }
}

/// An edge recorded on the owned sampler leaves the calibration alone.
pub open spec fn spec_record_edge(m: MoistureModel, now_us: u64) -> MoistureModel {
    MoistureModel { sampler: spec_on_edge(m.sampler, now_us), ..m }
}

/// Setting the dry point with no explicit value snapshots the reading at
/// call time: edges recorded afterwards may move the live rate, but never
/// the stored dry point. The same holds of the wet point.
pub proof fn lemma_calibration_snapshot(m: MoistureModel, now_us: u64)
    ensures
        spec_set_dry_point(m, Option::None).dry_point_milli == m.sampler.rate_milli,
        spec_record_edge(spec_set_dry_point(m, Option::None), now_us).dry_point_milli
            == m.sampler.rate_milli,
        spec_set_wet_point(m, Option::None).wet_point_milli == m.sampler.rate_milli,
        spec_record_edge(spec_set_wet_point(m, Option::None), now_us).wet_point_milli
            == m.sampler.rate_milli,
{
}

/// A pulse-frequency soil-moisture sensor with wet/dry calibration.
#[derive(Debug)]
pub struct MoistureSensor {
    /// The owned pulse counter; the application's sampling thread drives it
    /// through [`MoistureSensor::record_edge`].
    pub sampler: PulseCounter,
    /// Rate expected at full saturation, milli-pulses per second.
    pub wet_point_milli: u64,
    /// Rate expected when fully dry, milli-pulses per second.
    pub dry_point_milli: u64,
}

impl View for MoistureSensor {
    type V = MoistureModel;

    open spec fn view(&self) -> MoistureModel {
        MoistureModel {
            sampler: self.sampler@,
            wet_point_milli: self.wet_point_milli,
            dry_point_milli: self.dry_point_milli,
        }
    }
}

impl MoistureSensor {
    /// The owned sampler is well formed.
    pub open spec fn wf(&self) -> bool {
        self.sampler.wf()
    }

    /// Builds the sensor state for the given logical channel (1 to 4) and
    /// returns it with the physical pin the application must bind and arm.
    /// Calibration points default to [`DEFAULT_WET_POINT_MILLI`] and
    /// [`DEFAULT_DRY_POINT_MILLI`]; both clocks are anchored at `now_us`.
    /// An unsupported channel is rejected — there is no sensor without a
    /// working pin.
    pub fn new(channel: usize, wet_point: Option<u64>, dry_point: Option<u64>, now_us: u64) -> (r:
        Result<(MoistureSensor, u8), HardwareInitError>)
        ensures
            1 <= channel <= 4 ==> (r matches Ok(p) && p.1 == spec_pin_for_channel(channel)
                && p.0.wf() && p.0@ == (MoistureModel {
                sampler: SamplerModel {
                    edge_count: 0,
                    rate_milli: 0,
                    history: Seq::<u64>::empty(),
                    last_edge_us: now_us,
                    window_start_us: now_us,
                    has_unread_sample: false,
                },
                wet_point_milli: spec_point_or(wet_point, DEFAULT_WET_POINT_MILLI),
                dry_point_milli: spec_point_or(dry_point, DEFAULT_DRY_POINT_MILLI),
            })),
            !(1 <= channel <= 4) ==> r == Err::<(MoistureSensor, u8), HardwareInitError>(
                HardwareInitError::BadChannel,
            ),
    {
        let pin = pin_for_channel(channel)?;
        let wet = match wet_point {
            Some(v) => v,
            None => DEFAULT_WET_POINT_MILLI,
        };
        let dry = match dry_point {
            Some(v) => v,
            None => DEFAULT_DRY_POINT_MILLI,
        };
        let sensor = MoistureSensor {
            sampler: PulseCounter::new(now_us),
            wet_point_milli: wet,
            dry_point_milli: dry,
        };
        Ok((sensor, pin))
    }

    /// Records one qualifying edge seen at `now_us` on the owned sampler;
    /// the calibration points are untouched.
    pub fn record_edge(&mut self, now_us: u64)
        requires
            old(self).wf(),
            old(self).sampler.edge_count < u32::MAX,
            now_us >= old(self).sampler.window_start_us,
        ensures
            final(self)@ == spec_record_edge(old(self)@, now_us),
            final(self).wf(),
    {
        self.sampler.on_edge(now_us);
    }

    /// Returns the raw rate of the last closed window, in milli-pulses per
    /// second, and clears the new-data flag — the sole place it is cleared.
    pub fn get_moisture(&mut self) -> (r: u64)
        ensures
            r == old(self).sampler.rate_milli,
            final(self)@ == (MoistureModel {
                sampler: spec_read_rate(old(self)@.sampler).1,
                ..old(self)@
            }),
    {
        self.sampler.current_rate()
    }

    /// Returns the calibrated saturation of the current raw rate, in
    /// per-mille of `[0, 1000]`, clearing the new-data flag on the way.
    /// A degenerate calibration (`wet == dry`) reads as `None`:
    /// uncalibrated.
    pub fn get_saturation(&mut self) -> (r: Option<u64>)
        ensures
            final(self)@ == (MoistureModel {
                sampler: spec_read_rate(old(self)@.sampler).1,
                ..old(self)@
            }),
            old(self).wet_point_milli == old(self).dry_point_milli ==> r is None,
            old(self).wet_point_milli != old(self).dry_point_milli ==> (r matches Some(v)
                && v == spec_saturation_milli(
                old(self).sampler.rate_milli as int,
                old(self).wet_point_milli as int,
                old(self).dry_point_milli as int,
            ) && v <= 1000),
    {
        let rate = self.sampler.current_rate();
        if self.wet_point_milli == self.dry_point_milli {
            None
        } else {
            Some(saturation_milli(rate, self.wet_point_milli, self.dry_point_milli))
        }
    }

    /// Maps every stored raw rate through the calibration formula, newest
    /// first, each entry clamped to `[0, 1000]` per-mille; the new-data
    /// flag is left alone. A degenerate calibration reads as `None`.
    pub fn get_history(&self) -> (r: Option<Vec<u64>>)
        ensures
            self.wet_point_milli == self.dry_point_milli ==> r is None,
            self.wet_point_milli != self.dry_point_milli ==> (r matches Some(v)
                && v@.len() == self.sampler.history@.len() && (forall|i: int|
                0 <= i < v@.len() ==> v@[i] == spec_saturation_milli(
                    self.sampler.history@[i] as int,
                    self.wet_point_milli as int,
                    self.dry_point_milli as int,
                ))),
    {
        if self.wet_point_milli == self.dry_point_milli {
            return None;
        }
        let mut out: Vec<u64> = Vec::new();
        let mut i: usize = 0;
        while i < self.sampler.history.len()
            invariant
                self.wet_point_milli != self.dry_point_milli,
                i <= self.sampler.history.len(),
                out@.len() == i,
                forall|j: int|
                    0 <= j < i ==> out@[j] == spec_saturation_milli(
                        self.sampler.history@[j] as int,
                        self.wet_point_milli as int,
                        self.dry_point_milli as int,
                    ),
            decreases self.sampler.history.len() - i,
        {
            let entry = saturation_milli(
                self.sampler.history[i],
                self.wet_point_milli,
                self.dry_point_milli,
            );
            out.push(entry);
            i = i + 1;
        }
        Some(out)
    }

    /// Stores `value` as the wet reference point, or snapshots the current
    /// raw reading when `value` is absent (sensor held in a known wet
    /// state). The new-data flag is not touched.
    pub fn set_wet_point(&mut self, value: Option<u64>)
        ensures
            final(self)@ == spec_set_wet_point(old(self)@, value),
    {
        let point = match value {
            Some(v) => v,
            None => self.sampler.rate_milli,
        };
        self.wet_point_milli = point;
    }

    /// Stores `value` as the dry reference point, or snapshots the current
    /// raw reading when `value` is absent (sensor held in a known dry
    /// state). The new-data flag is not touched.
    pub fn set_dry_point(&mut self, value: Option<u64>)
        ensures
            final(self)@ == spec_set_dry_point(old(self)@, value),
    {
        let point = match value {
            Some(v) => v,
            None => self.sampler.rate_milli,
        };
        self.dry_point_milli = point;
    }

    /// True when an edge arrived within the last second and the rate sits
    /// strictly inside the sanity band — passes through to the sampler.
    pub fn is_active(&self, now_us: u64) -> (r: bool)
        requires
            now_us >= self.sampler.last_edge_us,
        ensures
            r == spec_is_active(self.sampler@, now_us),
    {
        self.sampler.is_active(now_us)
    }

    /// Non-destructive peek at the new-data flag — passes through to the
    /// sampler.
    pub fn has_new_data(&self) -> (r: bool)
        ensures
            r == self.sampler.has_unread_sample,
    {
        self.sampler.has_new_sample()
    }

    /// The signed calibration span `wet - dry`, in milli-pulses per second;
    /// negative for the usual calibration where a drier probe pulses
    /// faster.
    pub fn get_range(&self) -> (r: i128)
        ensures
            r == self.wet_point_milli - self.dry_point_milli,
    {
        self.wet_point_milli as i128 - self.dry_point_milli as i128
    }
}

} // verus!
