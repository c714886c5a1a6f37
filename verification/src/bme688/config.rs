//! Measurement configuration of the BME688 and its builders.
use vstd::prelude::*;

use core::marker::PhantomData;

use super::math::{calc_gas_wait_time, spec_gas_wait_time};
use super::registers::{
    lemma_oversampling_codes, spec_code_samples, Filter, Mode, Oversampling, StandbyTime,
    MAX_HEATER_PROFILES,
};

pub mod forced;
pub mod parallel;
pub mod sealed;
pub mod sequential;

verus! {

/// Marker for configurations of forced mode.
pub struct Forced;

/// Marker for configurations of parallel mode.
pub struct Parallel;

/// Marker for configurations of sequential mode.
pub struct Sequential;

/// The heapless vector that holds a heater profile.
#[verifier::external_type_specification]
#[verifier::external_body]
#[verifier::reject_recursive_types(T)]
pub struct ExHeaplessVec<T, const N: usize>(heapless::Vec<T, N>);

/// A single step of a heater profile, as programmed into the sensor.
#[derive(Debug, Clone, Copy, PartialEq, Eq, Structural)]
pub struct HeaterStep {
    /// The target temperature for the heater in degrees Celsius.
    pub target_temp: u16,
    /// The gas wait register value: a wait code in forced and sequential mode, a repetition
    /// multiplier in parallel mode.
    pub gas_wait: u8,
}

/// The steps held by a heater profile vector, in order.
pub uninterp spec fn profile_steps(v: heapless::Vec<HeaterStep, 10>) -> Seq<HeaterStep>;

/// An empty heater profile, made by `heapless::Vec::new`.
#[verifier::external_body]
fn profile_new() -> (v: heapless::Vec<HeaterStep, 10>)
    ensures
        profile_steps(v) == Seq::<HeaterStep>::empty(),
{
    heapless::Vec::new()
}

/// The steps of a heater profile as a slice, by `heapless::Vec::as_slice`; a profile never holds
/// more than its capacity of ten steps.
#[verifier::external_body]
fn profile_as_slice(v: &heapless::Vec<HeaterStep, 10>) -> (s: &[HeaterStep])
    ensures
        s@ == profile_steps(*v),
        s@.len() <= 10,
{
    v.as_slice()
}

/// `heapless::Vec::insert`: a profile with room takes `step` at position `index`, the steps
/// from there on moving back by one; a full profile is left unchanged and the step handed back.
/// An index past the end panics, so it is excluded.
#[verifier::external_body]
fn profile_insert(v: &mut heapless::Vec<HeaterStep, 10>, index: usize, step: HeaterStep) -> (r: Result<(), HeaterStep>)
    requires
        index <= profile_steps(*old(v)).len(),
    ensures
        profile_steps(*old(v)).len() < 10 ==> r is Ok,
        profile_steps(*old(v)).len() < 10 ==> profile_steps(*final(v)) == profile_steps(*old(v)).insert(index as int, step),
        profile_steps(*old(v)).len() >= 10 ==> (r matches Err(s) && s == step),
        profile_steps(*old(v)).len() >= 10 ==> profile_steps(*final(v)) == profile_steps(*old(v)),
{
    v.insert(index, step)
}

/// `heapless::Vec::push`: a profile with room takes `step` as its new last step; a full profile
/// is left unchanged and the step handed back.
#[verifier::external_body]
fn profile_push(v: &mut heapless::Vec<HeaterStep, 10>, step: HeaterStep) -> (r: Result<(), HeaterStep>)
    ensures
        profile_steps(*old(v)).len() < 10 ==> r is Ok,
        profile_steps(*old(v)).len() < 10 ==> profile_steps(*final(v)) == profile_steps(*old(v)).push(step),
        profile_steps(*old(v)).len() >= 10 ==> (r matches Err(s) && s == step),
        profile_steps(*old(v)).len() >= 10 ==> profile_steps(*final(v)) == profile_steps(*old(v)),
{
    v.push(step)
}

/// The settings held by a [`Config`].
pub struct ConfigSettings {
    /// Oversampling settings for temperature.
    pub temperature_oversampling: Oversampling,
    /// Oversampling settings for pressure.
    pub pressure_oversampling: Oversampling,
    /// Oversampling settings for humidity.
    pub humidity_oversampling: Oversampling,
    /// IIR filter settings for pressure and temperature.
    pub filter: Filter,
    /// Heater profile steps, in the order they are programmed.
    pub heater_profile: Seq<HeaterStep>,
    /// Shared heater duration for parallel mode.
    pub shared_heater_duration_ms: u32,
    /// Standby time for sequential mode.
    pub standby_time: Option<StandbyTime>,
    /// Ambient temperature in degrees Celsius.
    pub ambient_temperature: i16,
}

/// Generic configuration for the BME688 sensor.
pub struct Config<State> where State: sealed::Sealed {
    /// Oversampling settings for temperature.
    pub(crate) temperature_oversampling: Oversampling,
    /// Oversampling settings for pressure.
    pub(crate) pressure_oversampling: Oversampling,
    /// Oversampling settings for humidity.
    pub(crate) humidity_oversampling: Oversampling,
    /// IIR filter settings for pressure and temperature.
    pub(crate) filter: Filter,
    /// Heater profile settings for the gas sensor.
    pub(crate) heater_profile: heapless::Vec<HeaterStep, 10>,
    /// Shared heater duration for parallel mode. This is the total duration for which the heater will be active during a measurement cycle.
    pub(crate) shared_heater_duration_ms: u32,
    /// Standby time for sequential mode. This is the duration for which the sensor will be in standby between measurements.
    pub(crate) standby_time: Option<StandbyTime>,
    /// Ambient temperature
    pub(crate) ambient_temperature: i16,
    state: PhantomData<State>,
}

impl<State> View for Config<State> where State: sealed::Sealed {
    type V = ConfigSettings;

    closed spec fn view(&self) -> ConfigSettings {
        ConfigSettings {
            temperature_oversampling: self.temperature_oversampling,
            pressure_oversampling: self.pressure_oversampling,
            humidity_oversampling: self.humidity_oversampling,
            filter: self.filter,
            heater_profile: profile_steps(self.heater_profile),
            shared_heater_duration_ms: self.shared_heater_duration_ms,
            standby_time: self.standby_time,
            ambient_temperature: self.ambient_temperature,
        }
    }
}

/// The settings of a new configuration: no oversampling, no filter, no heater steps, no shared
/// heater duration, no standby time, ambient temperature 25 °C.
pub open spec fn spec_default_settings() -> ConfigSettings {
    ConfigSettings {
        temperature_oversampling: Oversampling::Skipped,
        pressure_oversampling: Oversampling::Skipped,
        humidity_oversampling: Oversampling::Skipped,
        filter: Filter::Off,
        heater_profile: Seq::empty(),
        shared_heater_duration_ms: 0,
        standby_time: None,
        ambient_temperature: 25,
    }
}

/// Duration of one measurement cycle, in microseconds.
pub const CYCLE_DURATION: u32 = 1963;
/// Duration of switching between temperature, pressure and humidity, in microseconds.
pub const TPH_SWITCHING_DURATION: u32 = 1908;
/// Duration of the gas measurement, in microseconds.
pub const GAS_MEAS_DURATION: u32 = 2385;
/// Duration of waking up from sleep, in microseconds.
pub const WAKEUP_DURATION: u32 = 1000;

impl<State> Default for Config<State> where State: sealed::Sealed {
    fn default() -> (r: Self)
        ensures
            r@ == spec_default_settings(),
    {
        Config {
            temperature_oversampling: Oversampling::default(),
            pressure_oversampling: Oversampling::default(),
            humidity_oversampling: Oversampling::default(),
            filter: Filter::default(),
            heater_profile: profile_new(),
            shared_heater_duration_ms: 0,
            standby_time: None,
            ambient_temperature: 25,
            state: PhantomData,
        }
    }
}

/// Total duration of a temperature, pressure, humidity and gas measurement, in microseconds:
/// one cycle per oversampling step, the switching and gas measurement times, and the wake-up
/// time in every mode but parallel.
pub open spec fn spec_measurement_duration(settings: ConfigSettings, mode: Mode) -> int {
    CYCLE_DURATION * (settings.temperature_oversampling.spec_cycles()
        + settings.pressure_oversampling.spec_cycles() + settings.humidity_oversampling.spec_cycles())
        + TPH_SWITCHING_DURATION + GAS_MEAS_DURATION + (if mode == Mode::Parallel {
        0int
    } else {
        WAKEUP_DURATION as int
    })
}

impl<State> Config<State> where State: sealed::Sealed {
    /// Calculate the total measurement duration based on the configuration and mode.
    ///
    /// # Arguments
    /// * `mode` - The mode of operation (Forced, Parallel, or Sequential).
    ///
    /// # Returns
    /// The total measurement duration in microseconds.
    pub fn measurement_duration(&self, mode: Mode) -> (r: u32)
        ensures
            r == spec_measurement_duration(self@, mode),
            r <= 99517,
    {
        let cycles = self.temperature_oversampling.cycles() + self.pressure_oversampling.cycles()
            + self.humidity_oversampling.cycles();
        let duration_us = CYCLE_DURATION * cycles + TPH_SWITCHING_DURATION + GAS_MEAS_DURATION + if mode
            == Mode::Parallel {
            0
        } else {
            WAKEUP_DURATION
        };
        duration_us
    }

    /// Oversampling setting for temperature.
    pub(crate) fn temperature_oversampling(&self) -> (r: Oversampling)
        ensures
            r == self@.temperature_oversampling,
    {
        self.temperature_oversampling
    }

    /// Oversampling setting for pressure.
    pub(crate) fn pressure_oversampling(&self) -> (r: Oversampling)
        ensures
            r == self@.pressure_oversampling,
    {
        self.pressure_oversampling
    }

    /// Oversampling setting for humidity.
    pub(crate) fn humidity_oversampling(&self) -> (r: Oversampling)
        ensures
            r == self@.humidity_oversampling,
    {
        self.humidity_oversampling
    }

    /// IIR filter setting.
    pub(crate) fn filter(&self) -> (r: Filter)
        ensures
            r == self@.filter,
    {
        self.filter
    }

    /// Shared heater duration of parallel mode, in milliseconds.
    pub(crate) fn shared_heater_duration_ms(&self) -> (r: u32)
        ensures
            r == self@.shared_heater_duration_ms,
    {
        self.shared_heater_duration_ms
    }

    /// Standby time of sequential mode.
    pub(crate) fn standby_time(&self) -> (r: Option<StandbyTime>)
        ensures
            r == self@.standby_time,
    {
        self.standby_time
    }

    /// Ambient temperature in degrees Celsius.
    pub(crate) fn ambient_temperature(&self) -> (r: i16)
        ensures
            r == self@.ambient_temperature,
    {
        self.ambient_temperature
    }

    /// The heater profile steps, in the order they are programmed.
    pub(crate) fn heater_steps(&self) -> (s: &[HeaterStep])
        ensures
            s@ == self@.heater_profile,
            s@.len() <= MAX_HEATER_PROFILES,
    {
        profile_as_slice(&self.heater_profile)
    }
}

/// Measuring in parallel mode takes exactly the wake-up time less than in the other modes.
pub proof fn lemma_parallel_skips_wakeup(settings: ConfigSettings, mode: Mode)
    requires
        mode != Mode::Parallel,
    ensures
        spec_measurement_duration(settings, Mode::Parallel) + WAKEUP_DURATION
            == spec_measurement_duration(settings, mode),
{
}

/// A measurement takes 1963 us for each sample that the oversampling codes written for
/// temperature, pressure and humidity ask for, plus 1908 us of switching and 2385 us of gas
/// measurement, plus 1000 us of wake-up outside parallel mode.
pub proof fn lemma_measurement_duration_counts_samples(settings: ConfigSettings, mode: Mode)
    ensures
        spec_measurement_duration(settings, mode) == 1963 * (spec_code_samples(
            settings.temperature_oversampling.spec_bits(),
        ) + spec_code_samples(settings.pressure_oversampling.spec_bits()) + spec_code_samples(
            settings.humidity_oversampling.spec_bits(),
        )) + 1908 + 2385 + (if mode == Mode::Parallel {
            0int
        } else {
            1000int
        }),
{
    lemma_oversampling_codes(settings.temperature_oversampling);
    lemma_oversampling_codes(settings.pressure_oversampling);
    lemma_oversampling_codes(settings.humidity_oversampling);
}

/// Builder pattern for constructing a `Config` instance.
pub struct ConfigBuilder<State> where State: sealed::Sealed {
    pub(crate) config: Config<State>,
}

impl<State> View for ConfigBuilder<State> where State: sealed::Sealed {
    type V = ConfigSettings;

    closed spec fn view(&self) -> ConfigSettings {
        self.config@
    }
}

impl<State> ConfigBuilder<State> where State: sealed::Sealed {
    /// Create a new `ConfigBuilder` with default settings.
    pub fn new() -> (r: Self)
        ensures
            r@ == spec_default_settings(),
    {
        ConfigBuilder { config: Config::default() }
    }

    /// Set the oversampling for temperature measurements.
    pub fn with_temperature_os(self, oversampling: Oversampling) -> (r: Self)
        ensures
            r@ == (ConfigSettings { temperature_oversampling: oversampling, ..self@ }),
    {
        let mut builder = self;
        builder.config.temperature_oversampling = oversampling;
        builder
    }

    /// Set the oversampling for pressure measurements.
    pub fn with_pressure_os(self, oversampling: Oversampling) -> (r: Self)
        ensures
            r@ == (ConfigSettings { pressure_oversampling: oversampling, ..self@ }),
    {
        let mut builder = self;
        builder.config.pressure_oversampling = oversampling;
        builder
    }

    /// Set the oversampling for humidity measurements.
    pub fn with_humidity_os(self, oversampling: Oversampling) -> (r: Self)
        ensures
            r@ == (ConfigSettings { humidity_oversampling: oversampling, ..self@ }),
    {
        let mut builder = self;
        builder.config.humidity_oversampling = oversampling;
        builder
    }

    /// Set the IIR filter settings for pressure and temperature.
    pub fn with_filter(self, filter: Filter) -> (r: Self)
        ensures
            r@ == (ConfigSettings { filter, ..self@ }),
    {
        let mut builder = self;
        builder.config.filter = filter;
        builder
    }

    /// Set the ambient temperature in degrees Celsius.
    pub fn with_ambient_temperature(self, temperature: i16) -> (r: Self)
        ensures
            r@ == (ConfigSettings { ambient_temperature: temperature, ..self@ }),
    {
        let mut builder = self;
        builder.config.ambient_temperature = temperature;
        builder
    }

    /// Finalize the builder and return the constructed `Config` instance.
    pub fn build(self) -> (r: Config<State>)
        ensures
            r@ == self@,
    {
        self.config
    }
}

impl ConfigBuilder<Forced> {
    /// Add a heater step to the configuration for forced mode.
    ///
    /// The step is placed before the steps already added; a profile that already holds ten steps
    /// is left unchanged.
    ///
    /// # Arguments
    /// * `target_temp` - The target temperature for the heater in degrees Celsius.
    /// * `duration_ms` - The duration for which the heater should be active in milliseconds.
    pub fn with_heater_step(self, target_temp: u16, duration_ms: u16) -> (r: Self)
        ensures
            self@.heater_profile.len() < MAX_HEATER_PROFILES ==> r@ == (ConfigSettings {
                heater_profile: seq![HeaterStep { target_temp, gas_wait: spec_gas_wait_time(duration_ms) }]
                    + self@.heater_profile,
                ..self@
            }),
            self@.heater_profile.len() >= MAX_HEATER_PROFILES ==> r@ == self@,
    {
        let mut builder = self;
        let step = HeaterStep { target_temp, gas_wait: calc_gas_wait_time(duration_ms) };
        let ghost before = profile_steps(builder.config.heater_profile);
        let _ = profile_insert(&mut builder.config.heater_profile, 0, step);
        proof {
            if before.len() < MAX_HEATER_PROFILES {
                assert(before.insert(0, step) =~= seq![step] + before);
            }
        }
        builder
    }
}

impl ConfigBuilder<Parallel> {
    /// Set the heater profile for parallel mode: one programmed step per given step, in order,
    /// with the step's multiplier as its gas wait value.
    ///
    /// # Arguments
    /// * `heater_profile` - A slice of `HeaterStep` instances defining the heater profile.
    /// * `shared_heater_duration_ms` - The total duration in milliseconds for which the heater will be active during a measurement cycle.
    pub fn with_heater_profile(
        self,
        heater_profile: &[parallel::HeaterStep],
        shared_heater_duration_ms: u32,
    ) -> (r: Self)
        requires
            heater_profile@.len() <= MAX_HEATER_PROFILES,
        ensures
            r@ == (ConfigSettings {
                heater_profile: Seq::new(
                    heater_profile@.len(),
                    |i: int| HeaterStep { target_temp: heater_profile@[i]@.0, gas_wait: heater_profile@[i]@.1 },
                ),
                shared_heater_duration_ms,
                ..self@
            }),
    {
        let mut builder = self;
        builder.config.shared_heater_duration_ms = shared_heater_duration_ms;
        let mut profile = profile_new();
        let mut i: usize = 0;
        while i < heater_profile.len()
            invariant
                i <= heater_profile@.len() <= MAX_HEATER_PROFILES,
                profile_steps(profile) == Seq::new(
                    i as nat,
                    |j: int| HeaterStep { target_temp: heater_profile@[j]@.0, gas_wait: heater_profile@[j]@.1 },
                ),
            decreases heater_profile@.len() - i,
        {
            let step = &heater_profile[i];
            let _ = profile_push(
                &mut profile,
                HeaterStep { target_temp: step.target_temp(), gas_wait: step.multiplier() },
            );
            i = i + 1;
        }
        builder.config.heater_profile = profile;
        builder
    }
}

impl ConfigBuilder<Sequential> {
    /// Set the heater profile for sequential mode: one programmed step per given step, in order,
    /// with the step's duration converted to a gas wait value.
    ///
    /// # Arguments
    /// * `heater_profile` - A slice of `HeaterStep` instances defining the heater profile.
    /// * `standby_time` - The duration for which the sensor will be in standby between measurements.
    pub fn with_heater_profile(
        self,
        heater_profile: &[sequential::HeaterStep],
        standby_time: Option<StandbyTime>,
    ) -> (r: Self)
        requires
            heater_profile@.len() <= MAX_HEATER_PROFILES,
        ensures
            r@ == (ConfigSettings {
                heater_profile: Seq::new(
                    heater_profile@.len(),
                    |i: int| HeaterStep {
                        target_temp: heater_profile@[i]@.0,
                        gas_wait: spec_gas_wait_time(heater_profile@[i]@.1),
                    },
                ),
                standby_time,
                ..self@
            }),
    {
        let mut builder = self;
        let mut profile = profile_new();
        let mut i: usize = 0;
        while i < heater_profile.len()
            invariant
                i <= heater_profile@.len() <= MAX_HEATER_PROFILES,
                profile_steps(profile) == Seq::new(
                    i as nat,
                    |j: int| HeaterStep {
                        target_temp: heater_profile@[j]@.0,
                        gas_wait: spec_gas_wait_time(heater_profile@[j]@.1),
                    },
                ),
            decreases heater_profile@.len() - i,
        {
            let step = &heater_profile[i];
            let _ = profile_push(
                &mut profile,
                HeaterStep {
                    target_temp: step.target_temp(),
                    gas_wait: calc_gas_wait_time(step.duration_ms()),
                },
            );
            i = i + 1;
        }
        builder.config.heater_profile = profile;
        builder.config.standby_time = standby_time;
        builder
    }
}

} // verus!
