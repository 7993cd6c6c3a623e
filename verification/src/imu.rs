//! Per-cycle session with the pendulum IMU: probe the bus, confirm the sensor
//! identity once, wake it once, then read a sample. Every cycle that does not
//! end in a sample tells the caller to reset its attitude estimator.

use vstd::prelude::*;
use crate::gy521::{decode_sample, decode_sample_spec, verify_who_am_i, verify_who_am_i_spec, Gy521Error, Gy521RawSample};

verus! {

/// Why the identity probe failed, without the register of a failed read.
#[derive(Clone, Copy, Debug, PartialEq, Eq)]
pub enum ImuProbeError {
    RegisterRead,
    UnexpectedWhoAmI(u8),
}

/// The identity probe: the identity check with the register of a failed read
/// dropped.
pub open spec fn probe_who_am_i_spec(read: Option<u8>) -> Result<(), ImuProbeError> {
    match verify_who_am_i_spec(read) {
        Ok(()) => Ok(()),
        Err(Gy521Error::RegisterRead(_)) => Err(ImuProbeError::RegisterRead),
        Err(Gy521Error::UnexpectedWhoAmI(v)) => Err(ImuProbeError::UnexpectedWhoAmI(v)),
    }
}

/// Decides the identity probe from the WHO_AM_I read (`None` when it failed).
pub fn probe_who_am_i(read: Option<u8>) -> (r: Result<(), ImuProbeError>)
    ensures
        r == probe_who_am_i_spec(read),
{
    match verify_who_am_i(read) {
        Ok(()) => Ok(()),
        Err(Gy521Error::RegisterRead(_)) => Err(ImuProbeError::RegisterRead),
        Err(Gy521Error::UnexpectedWhoAmI(v)) => Err(ImuProbeError::UnexpectedWhoAmI(v)),
    }
}

/// What one IMU cycle reports.
#[derive(Clone, Copy, Debug)]
pub enum ImuTelemetry {
    /// Nothing answered, or the identity register could not be read.
    Missing,
    /// WHO_AM_I held this value.
    UnexpectedWhoAmI { value: u8 },
    /// Waking the sensor failed at this register.
    WakeError { register: u8 },
    /// Reading the sample failed at this register.
    ReadError { register: u8 },
    /// A decoded sample.
    Measurement(Gy521RawSample),
}

impl ImuTelemetry {
    /// Whether the attitude estimator must be reset: on every outcome but a sample.
    pub open spec fn spec_resets_estimator(self) -> bool {
        !(self is Measurement)
    }

    /// Whether the attitude estimator must be reset after this outcome.
    pub fn resets_estimator(&self) -> (r: bool)
        ensures
            r == self.spec_resets_estimator(),
    {
        match self {
            ImuTelemetry::Measurement(_) => false,
            _ => true,
        }
    }
}

/// Bus work the session asks for next.
#[derive(Clone, Copy, Debug, PartialEq, Eq)]
pub enum ImuAction {
    VerifyWhoAmI,
    Wake,
    ReadMeasurement,
}

/// Either more bus work, or the cycle's final report.
#[derive(Clone, Copy, Debug)]
pub enum ImuStep {
    Next(ImuAction),
    Done(ImuTelemetry),
}

/// Remembers whether the sensor identity has been confirmed and whether it has
/// been woken since it last appeared on the bus.
pub struct Gy521Session {
    verified: bool,
    awake: bool,
}

/// Session flags: `(verified, awake)`.
pub type ImuFlags = (bool, bool);

impl View for Gy521Session {
    type V = ImuFlags;

    closed spec fn view(&self) -> ImuFlags {
        (self.verified, self.awake)
    }
}

/// The bus work that follows once the sensor is known to be present.
pub open spec fn imu_next_work(s: ImuFlags) -> ImuAction {
    if !s.0 {
        ImuAction::VerifyWhoAmI
    } else if !s.1 {
        ImuAction::Wake
    } else {
        ImuAction::ReadMeasurement
    }
}

/// The session after the presence probe, and what comes next.
pub open spec fn imu_after_presence(s: ImuFlags, present: bool) -> (ImuFlags, ImuStep) {
    if !present {
        ((false, false), ImuStep::Done(ImuTelemetry::Missing))
    } else {
        (s, ImuStep::Next(imu_next_work(s)))
    }
}

/// The session after the identity check, and what comes next.
pub open spec fn imu_after_verify(s: ImuFlags, result: Result<(), Gy521Error>) -> (ImuFlags, ImuStep) {
    match result {
        Ok(()) => ((true, s.1), ImuStep::Next(imu_next_work((true, s.1)))),
        Err(Gy521Error::RegisterRead(_)) => (s, ImuStep::Done(ImuTelemetry::Missing)),
        Err(Gy521Error::UnexpectedWhoAmI(value)) => (
            s,
            ImuStep::Done(ImuTelemetry::UnexpectedWhoAmI { value }),
        ),
    }
}

/// The session after the wake-up writes, and what comes next.
pub open spec fn imu_after_wake(s: ImuFlags, result: Result<(), u8>) -> (ImuFlags, ImuStep) {
    match result {
        Ok(()) => ((s.0, true), ImuStep::Next(ImuAction::ReadMeasurement)),
        Err(register) => (s, ImuStep::Done(ImuTelemetry::WakeError { register })),
    }
}

/// The report for the sample read.
pub open spec fn imu_after_read(result: Result<Seq<u8>, u8>) -> ImuTelemetry {
    match result {
        Ok(buf) => ImuTelemetry::Measurement(decode_sample_spec(buf)),
        Err(register) => ImuTelemetry::ReadError { register },
    }
}

/// A whole cycle, given the outcomes the bus would give to each request:
/// presence, identity check when not yet verified, wake-up when not yet awake,
/// then the sample read.
pub open spec fn imu_cycle(
    s: ImuFlags,
    present: bool,
    verify: Result<(), Gy521Error>,
    wake: Result<(), u8>,
    read: Result<Seq<u8>, u8>,
) -> (ImuFlags, ImuTelemetry) {
    let (s1, st1) = imu_after_presence(s, present);
    match st1 {
        ImuStep::Done(t) => (s1, t),
        ImuStep::Next(ImuAction::ReadMeasurement) => (s1, imu_after_read(read)),
        ImuStep::Next(ImuAction::Wake) => imu_cycle_from_wake(s1, wake, read),
        ImuStep::Next(ImuAction::VerifyWhoAmI) => {
            let (s2, st2) = imu_after_verify(s1, verify);
            match st2 {
                ImuStep::Done(t) => (s2, t),
                ImuStep::Next(ImuAction::Wake) => imu_cycle_from_wake(s2, wake, read),
                ImuStep::Next(_) => (s2, imu_after_read(read)),
            }
        },
    }
}

/// The remainder of a cycle from the wake-up writes on.
pub open spec fn imu_cycle_from_wake(s: ImuFlags, wake: Result<(), u8>, read: Result<Seq<u8>, u8>) -> (
    ImuFlags,
    ImuTelemetry,
) {
    let (s2, st2) = imu_after_wake(s, wake);
    match st2 {
        ImuStep::Done(t) => (s2, t),
        ImuStep::Next(_) => (s2, imu_after_read(read)),
    }
}

/// A session is only ever awake once the sensor identity has been confirmed.
pub open spec fn imu_flags_ok(s: ImuFlags) -> bool {
    s.1 ==> s.0
}

impl Gy521Session {
    #[verifier::type_invariant]
    closed spec fn inv(self) -> bool {
        imu_flags_ok((self.verified, self.awake))
    }

    /// A session that has neither verified nor woken the sensor.
    pub fn new() -> (s: Self)
        ensures
            s@ == (false, false),
    {
        Gy521Session { verified: false, awake: false }
    }

    /// Forgets the identity check and the wake-up, so both are redone the next
    /// time the sensor answers.
    pub fn reset(&mut self)
        ensures
            final(self)@ == (false, false),
    {
        self.awake = false;
        self.verified = false;
    }

    /// Whether the identity has been confirmed since the sensor last appeared.
    pub fn is_verified(&self) -> (v: bool)
        ensures
            v == self@.0,
            imu_flags_ok(self@),
    {
        proof {
            use_type_invariant(self);
        }
        self.verified
    }

    /// Whether the sensor has been woken since it last appeared.
    pub fn is_awake(&self) -> (a: bool)
        ensures
            a == self@.1,
            imu_flags_ok(self@),
    {
        proof {
            use_type_invariant(self);
        }
        self.awake
    }

    /// Takes the result of probing the sensor address. A missing sensor ends
    /// the cycle and resets the session.
    pub fn on_presence(&mut self, present: bool) -> (step: ImuStep)
        ensures
            (final(self)@, step) == imu_after_presence(old(self)@, present),
            imu_flags_ok(old(self)@),
            imu_flags_ok(final(self)@),
    {
        proof {
            use_type_invariant(&*self);
        }
        if !present {
            self.reset();
            return ImuStep::Done(ImuTelemetry::Missing);
        }
        ImuStep::Next(self.next_work())
    }

    fn next_work(&self) -> (a: ImuAction)
        ensures
            a == imu_next_work(self@),
    {
        if !self.verified {
            ImuAction::VerifyWhoAmI
        } else if !self.awake {
            ImuAction::Wake
        } else {
            ImuAction::ReadMeasurement
        }
    }

    /// Takes the identity check. A failed WHO_AM_I read reports the sensor as
    /// missing; an unexpected identity is reported with its value.
    pub fn on_who_am_i(&mut self, result: Result<(), Gy521Error>) -> (step: ImuStep)
        ensures
            (final(self)@, step) == imu_after_verify(old(self)@, result),
            imu_flags_ok(old(self)@),
            imu_flags_ok(final(self)@),
    {
        proof {
            use_type_invariant(&*self);
        }
        match result {
            Ok(()) => {
                self.verified = true;
                ImuStep::Next(self.next_work())
            },
            Err(Gy521Error::RegisterRead(_)) => ImuStep::Done(ImuTelemetry::Missing),
            Err(Gy521Error::UnexpectedWhoAmI(value)) => ImuStep::Done(
                ImuTelemetry::UnexpectedWhoAmI { value },
            ),
        }
    }

    /// Takes the outcome of the wake-up writes (`Err` holds the register whose
    /// write failed). The session asks for the wake-up only once the identity
    /// is confirmed.
    pub fn on_woken(&mut self, result: Result<(), u8>) -> (step: ImuStep)
        requires
            old(self)@.0,
        ensures
            (final(self)@, step) == imu_after_wake(old(self)@, result),
            imu_flags_ok(final(self)@),
    {
        match result {
            Ok(()) => {
                self.awake = true;
                ImuStep::Next(ImuAction::ReadMeasurement)
            },
            Err(register) => ImuStep::Done(ImuTelemetry::WakeError { register }),
        }
    }

    /// Takes the outcome of reading the 14-byte sample (`Err` holds the register
    /// at which it failed) and reports it.
    pub fn on_sample(&self, result: Result<[u8; 14], u8>) -> (t: ImuTelemetry)
        ensures
            t == imu_after_read(
                match result {
                    Ok(buf) => Ok(buf@),
                    Err(r) => Err(r),
                },
            ),
    {
        match result {
            Ok(buf) => ImuTelemetry::Measurement(decode_sample(buf)),
            Err(register) => ImuTelemetry::ReadError { register },
        }
    }
}

/// Within one appearance of the sensor, the identity check and the wake-up are
/// each done until they succeed and never again: a verified, awake session
/// that stays present goes straight to the read, and a session that loses the
/// sensor starts over with the identity check.
pub proof fn lemma_imu_setup_once_per_appearance(
    verify: Result<(), Gy521Error>,
    wake: Result<(), u8>,
    read: Result<Seq<u8>, u8>,
)
    ensures
        imu_cycle((true, true), true, verify, wake, read) == ((true, true), imu_after_read(read)),
        imu_cycle((true, true), false, verify, wake, read) == ((false, false), ImuTelemetry::Missing),
        imu_after_presence((false, false), true).1 == ImuStep::Next(ImuAction::VerifyWhoAmI),
        verify is Ok && wake is Ok ==> imu_cycle((false, false), true, verify, wake, read) == (
            (true, true),
            imu_after_read(read),
        ),
        verify is Ok && wake is Err ==> imu_cycle((false, false), true, verify, wake, read).0 == (
            true,
            false,
        ),
{
}

/// No cycle ever leaves the session awake without a confirmed identity: the
/// presence probe and the identity check keep that so, the wake-up is only
/// asked for (and so only taken) once the identity is confirmed, and a whole
/// cycle from a session where it holds ends in one where it holds.
pub proof fn lemma_imu_awake_implies_verified(
    s: ImuFlags,
    present: bool,
    verify: Result<(), Gy521Error>,
    wake: Result<(), u8>,
    read: Result<Seq<u8>, u8>,
)
    requires
        imu_flags_ok(s),
    ensures
        imu_flags_ok(imu_after_presence(s, present).0),
        imu_flags_ok(imu_after_verify(s, verify).0),
        s.0 ==> imu_flags_ok(imu_after_wake(s, wake).0),
        imu_after_presence(s, present).1 == ImuStep::Next(ImuAction::Wake) ==> imu_after_presence(
            s,
            present,
        ).0.0,
        imu_after_verify(s, verify).1 == ImuStep::Next(ImuAction::Wake) ==> imu_after_verify(
            s,
            verify,
        ).0.0,
        imu_flags_ok(imu_cycle(s, present, verify, wake, read).0),
{
}

/// A cycle yields a sample exactly when the sensor answered, the identity
/// check (if still needed) passed, the wake-up (if still needed) succeeded and
/// the read succeeded; every other outcome resets the estimator.
pub proof fn lemma_imu_cycle_outcome(
    s: ImuFlags,
    present: bool,
    verify: Result<(), Gy521Error>,
    wake: Result<(), u8>,
    read: Result<Seq<u8>, u8>,
)
    ensures
        (imu_cycle(s, present, verify, wake, read).1 is Measurement) == (present && (s.0
            || verify is Ok) && (s.1 || wake is Ok) && read is Ok),
        !present ==> imu_cycle(s, present, verify, wake, read) == ((false, false), ImuTelemetry::Missing),
        imu_cycle(s, present, verify, wake, read).1.spec_resets_estimator() == !(present && (s.0
            || verify is Ok) && (s.1 || wake is Ok) && read is Ok),
{
}

} // verus!
