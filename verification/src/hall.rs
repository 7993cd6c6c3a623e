//! Per-cycle session with the wheel Hall sensor: probe the bus, configure the
//! sensor once, then read a result block.

use vstd::prelude::*;
use crate::tmag5273::{decode_measurement, decode_measurement_spec, Tmag5273RawMeasurement};

verus! {

/// I2C address at which the on-board TMAG5273 answers on this board.
pub const HALL_SENSOR_ADDR: u8 = 0x22;

/// What one Hall sensor cycle reports.
#[derive(Clone, Copy, Debug)]
pub enum HallTelemetry {
    /// Nothing answered at the sensor address.
    Missing,
    /// Writing the default configuration failed at this register.
    ConfigError { register: u8 },
    /// Reading the result block failed at this register.
    ReadError { register: u8 },
    /// A decoded result block.
    Measurement(Tmag5273RawMeasurement),
}

/// Bus work the session asks for next.
#[derive(Clone, Copy, Debug, PartialEq, Eq)]
pub enum HallAction {
    /// Write the default configuration, then report the outcome.
    Configure,
    /// Read the result block, then report the outcome.
    ReadMeasurement,
}

/// Either more bus work, or the cycle's final report.
#[derive(Clone, Copy, Debug)]
pub enum HallStep {
    Next(HallAction),
    Done(HallTelemetry),
}

/// Remembers whether the sensor has been configured since it last appeared on
/// the bus.
pub struct HallSession {
    configured: bool,
}

impl View for HallSession {
    type V = bool;

    closed spec fn view(&self) -> bool {
        self.configured
    }
}

/// The session after the presence probe, and what comes next.
pub open spec fn hall_after_presence(configured: bool, present: bool) -> (bool, HallStep) {
    if !present {
        (false, HallStep::Done(HallTelemetry::Missing))
    } else if !configured {
        (false, HallStep::Next(HallAction::Configure))
    } else {
        (true, HallStep::Next(HallAction::ReadMeasurement))
    }
}

/// The session after the configuration attempt, and what comes next.
pub open spec fn hall_after_configure(configured: bool, result: Result<(), u8>) -> (bool, HallStep) {
    match result {
        Ok(()) => (true, HallStep::Next(HallAction::ReadMeasurement)),
        Err(register) => (configured, HallStep::Done(HallTelemetry::ConfigError { register })),
    }
}

/// The report for the result-block read.
pub open spec fn hall_after_read(result: Result<Seq<u8>, u8>) -> HallTelemetry {
    match result {
        Ok(buf) => HallTelemetry::Measurement(decode_measurement_spec(buf)),
        Err(register) => HallTelemetry::ReadError { register },
    }
}

/// A whole cycle: presence, then configuration when it is needed, then the read.
/// `config` and `read` are the outcomes the bus would give if asked.
pub open spec fn hall_cycle(
    configured: bool,
    present: bool,
    config: Result<(), u8>,
    read: Result<Seq<u8>, u8>,
) -> (bool, HallTelemetry) {
    let (s1, step1) = hall_after_presence(configured, present);
    match step1 {
        HallStep::Done(t) => (s1, t),
        HallStep::Next(HallAction::ReadMeasurement) => (s1, hall_after_read(read)),
        HallStep::Next(HallAction::Configure) => {
            let (s2, step2) = hall_after_configure(s1, config);
            match step2 {
                HallStep::Done(t) => (s2, t),
                HallStep::Next(_) => (s2, hall_after_read(read)),
            }
        },
    }
}

impl HallSession {
    /// A session that has not configured the sensor yet.
    pub fn new() -> (s: Self)
        ensures
            s@ == false,
    {
        HallSession { configured: false }
    }

    /// Whether the default configuration has been written since the sensor
    /// last appeared.
    pub fn is_configured(&self) -> (c: bool)
        ensures
            c == self@,
    {
        self.configured
    }

    /// Takes the result of probing the sensor address. A missing sensor ends
    /// the cycle and forgets the configuration; a present one is configured
    /// first if it has not been yet.
    pub fn on_presence(&mut self, present: bool) -> (step: HallStep)
        ensures
            (final(self)@, step) == hall_after_presence(old(self)@, present),
    {
        if !present {
            self.configured = false;
            return HallStep::Done(HallTelemetry::Missing);
        }
        if !self.configured {
            HallStep::Next(HallAction::Configure)
        } else {
            HallStep::Next(HallAction::ReadMeasurement)
        }
    }

    /// Takes the outcome of writing the default configuration (`Err` holds the
    /// register at which it failed).
    pub fn on_configured(&mut self, result: Result<(), u8>) -> (step: HallStep)
        ensures
            (final(self)@, step) == hall_after_configure(old(self)@, result),
    {
        match result {
            Ok(()) => {
                self.configured = true;
                HallStep::Next(HallAction::ReadMeasurement)
            },
            Err(register) => HallStep::Done(HallTelemetry::ConfigError { register }),
        }
    }

    /// Takes the outcome of reading the 13-byte result block (`Err` holds the
    /// register at which it failed) and reports it.
    pub fn on_measurement(&self, result: Result<[u8; 13], u8>) -> (t: HallTelemetry)
        ensures
            t == hall_after_read(
                match result {
                    Ok(buf) => Ok(buf@),
                    Err(r) => Err(r),
                },
            ),
    {
        match result {
            Ok(buf) => HallTelemetry::Measurement(decode_measurement(buf)),
            Err(register) => HallTelemetry::ReadError { register },
        }
    }
}

/// A sensor that has been configured and stays on the bus is read without
/// being configured again; once it goes missing, the next cycle in which it
/// answers configures it again before reading; and a failed configuration is
/// retried on the next cycle.
pub proof fn lemma_hall_configures_once_per_appearance(
    config: Result<(), u8>,
    read: Result<Seq<u8>, u8>,
)
    ensures
        hall_after_presence(true, true) == (true, HallStep::Next(HallAction::ReadMeasurement)),
        hall_cycle(true, true, config, read) == (true, hall_after_read(read)),
        hall_cycle(true, false, config, read) == (false, HallTelemetry::Missing),
        hall_after_presence(false, true) == (false, HallStep::Next(HallAction::Configure)),
        config is Err ==> hall_cycle(false, true, config, read).0 == false,
        config is Ok ==> hall_cycle(false, true, config, read) == (true, hall_after_read(read)),
{
}

/// A cycle ends with a measurement exactly when the sensor answered, any
/// needed configuration succeeded and the read succeeded; the sensor is marked
/// configured afterwards exactly when it answered and is (or just became)
/// configured.
pub proof fn lemma_hall_cycle_outcome(
    configured: bool,
    present: bool,
    config: Result<(), u8>,
    read: Result<Seq<u8>, u8>,
)
    ensures
        (hall_cycle(configured, present, config, read).1 is Measurement) == (present && (
        configured || config is Ok) && read is Ok),
        hall_cycle(configured, present, config, read).0 == (present && (configured
            || config is Ok)),
        (hall_cycle(configured, present, config, read).1 is Missing) == !present,
{
}

} // verus!
