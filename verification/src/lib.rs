//! Soil-moisture sensing and piezo-buzzer control for a gardening controller.
//!
//! The library holds the verified core: the pulse-counting sampler state
//! machine, the calibration arithmetic that turns a pulse rate into a bounded
//! saturation value, and the tone state machine for the buzzer. Hardware
//! access (GPIO edge polling, PWM registers), threads and sleeps live in the
//! surrounding application, which drives these state machines with plain
//! values.
//!
//! All quantities are fixed-point integers:
//! - timestamps: microseconds on a monotonic clock (`u64`);
//! - pulse rates and calibration points: milli-pulses per second (`u64`),
//!   so a rate of 27.6 pulses/s is stored as `27_600`;
//! - saturation: per-mille in `[0, 1000]`;
//! - PWM frequency: millihertz; duty cycle: per-mille in `[0, 1000]`.

mod channel;
mod moisture;
mod piezo;
mod sampler;

pub use channel::HardwareInitError;
pub use channel::pin_for_channel;
pub use channel::spec_pin_for_channel;
pub use sampler::ACTIVE_RATE_CEILING_MILLI;
pub use sampler::HISTORY_CAPACITY;
pub use sampler::PulseCounter;
pub use sampler::RATE_SCALE;
pub use sampler::SamplerModel;
pub use sampler::WINDOW_US;
pub use sampler::lemma_history_evicts_oldest;
pub use sampler::lemma_history_newest_first;
pub use sampler::lemma_read_rate_idempotent;
pub use sampler::lemma_stale_counter_inactive;
pub use sampler::lemma_window_rate;
pub use sampler::spec_close_windows;
pub use sampler::spec_is_active;
pub use sampler::spec_on_edge;
pub use sampler::spec_push_sample;
pub use sampler::spec_rate_milli;
pub use sampler::spec_read_rate;
pub use sampler::spec_run_edges;
pub use moisture::DEFAULT_DRY_POINT_MILLI;
pub use moisture::DEFAULT_WET_POINT_MILLI;
pub use moisture::MoistureModel;
pub use moisture::MoistureSensor;
pub use moisture::lemma_calibration_snapshot;
pub use moisture::lemma_saturation_bounded;
pub use moisture::spec_point_or;
pub use moisture::spec_record_edge;
pub use moisture::spec_saturation_milli;
pub use moisture::spec_set_dry_point;
pub use moisture::spec_set_wet_point;
pub use piezo::DUTY_FULL_MILLI;
pub use piezo::INITIAL_FREQUENCY_MILLIHZ;
pub use piezo::Piezo;
pub use piezo::ToneActuator;
pub use piezo::lemma_beep_transitions;
pub use piezo::spec_start;
pub use piezo::spec_stop;
