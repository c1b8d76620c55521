//! The sampling procedure as a state machine.
//!
//! A measurement reads the counters, waits for a fixed interval and reads them
//! again. Reading and waiting are the caller's work; which of them comes next,
//! and what the measurement is in the end, is decided here. The caller starts
//! with [`Sampler::start`], carries out the request of [`Sampler::request`],
//! reports what happened to [`Sampler::step`], and repeats until the step is
//! [`SamplerStep::Finished`].

use crate::system::logic::{total_cpu_usage, usage_between};
use crate::system::structures::{CpuTimeSnapshot, CpuUsage};
use vstd::prelude::*;

verus! {

/// The time between the two readings of a measurement, in milliseconds.
pub const SAMPLE_INTERVAL_MILLIS: u64 = 500;

/// Where a measurement stands.
#[derive(Clone, Copy, Debug, PartialEq, Eq)]
pub enum Sampler {
    /// The first reading has been asked for.
    AwaitingFirst,
    /// The first reading is in; the interval is running.
    Pausing { first: CpuTimeSnapshot },
    /// The interval is over; the second reading has been asked for.
    AwaitingSecond { first: CpuTimeSnapshot },
}

/// What the caller is asked to do next.
#[derive(Clone, Copy, Debug, PartialEq, Eq)]
pub enum SamplerRequest {
    /// Read the tick counters and report `Reading` or `ProviderFailed`.
    ReadCpuTimes,
    /// Block for `millis` milliseconds and report `Elapsed`.
    Sleep { millis: u64 },
}

/// What the caller reports back.
#[derive(Debug, PartialEq, Eq)]
pub enum SamplerEvent<E> {
    /// The counters were read.
    Reading(CpuTimeSnapshot),
    /// The counters could not be read.
    ProviderFailed(E),
    /// The requested time has passed.
    Elapsed,
}

/// The outcome of one step.
#[derive(Debug, PartialEq, Eq)]
pub enum SamplerStep<E> {
    /// The measurement goes on from `state`.
    Continue { state: Sampler },
    /// The measurement is over: the utilisation, or the failure of the
    /// provider as it was reported.
    Finished(Result<CpuUsage, E>),
}

impl Sampler {
    /// The request that is pending in a state.
    pub open spec fn pending(&self) -> SamplerRequest {
        match *self {
            Sampler::AwaitingFirst => SamplerRequest::ReadCpuTimes,
            Sampler::Pausing { first } => SamplerRequest::Sleep { millis: SAMPLE_INTERVAL_MILLIS },
            Sampler::AwaitingSecond { first } => SamplerRequest::ReadCpuTimes,
        }
    }

    /// The step that an event causes in a state.
    ///
    /// A failure of the provider ends the measurement at once. A reading or the
    /// end of the interval moves it on where it answers the pending request,
    /// and is ignored where it does not.
    pub open spec fn next<E>(&self, event: SamplerEvent<E>) -> SamplerStep<E> {
        match (*self, event) {
            (_, SamplerEvent::ProviderFailed(error)) => SamplerStep::Finished(Err(error)),
            (Sampler::AwaitingFirst, SamplerEvent::Reading(first)) => SamplerStep::Continue {
                state: Sampler::Pausing { first },
            },
            (Sampler::Pausing { first }, SamplerEvent::Elapsed) => SamplerStep::Continue {
                state: Sampler::AwaitingSecond { first },
            },
            (Sampler::AwaitingSecond { first }, SamplerEvent::Reading(second)) => {
                SamplerStep::Finished(Ok(usage_between(first, second)))
            },
            (state, _) => SamplerStep::Continue { state },
        }
    }

    /// Begins a measurement. Nothing is kept from earlier ones.
    pub fn start() -> (state: Sampler)
        ensures
            state == Sampler::AwaitingFirst,
    {
        Sampler::AwaitingFirst
    }

    /// What the caller has to do before the next call of `step`.
    pub fn request(&self) -> (request: SamplerRequest)
        ensures
            request == self.pending(),
    {
        match self {
            Sampler::AwaitingFirst => SamplerRequest::ReadCpuTimes,
            Sampler::Pausing { .. } => SamplerRequest::Sleep { millis: SAMPLE_INTERVAL_MILLIS },
            Sampler::AwaitingSecond { .. } => SamplerRequest::ReadCpuTimes,
        }
    }

    /// Takes the measurement one step further on `event`.
    pub fn step<E>(self, event: SamplerEvent<E>) -> (step: SamplerStep<E>)
        ensures
            step == self.next(event),
    {
        match event {
            SamplerEvent::ProviderFailed(error) => SamplerStep::Finished(Err(error)),
            SamplerEvent::Reading(reading) => match self {
                Sampler::AwaitingFirst => SamplerStep::Continue {
                    state: Sampler::Pausing { first: reading },
                },
                Sampler::AwaitingSecond { first } => SamplerStep::Finished(
                    Ok(total_cpu_usage(&first, &reading)),
                ),
                Sampler::Pausing { .. } => SamplerStep::Continue { state: self },
            },
            SamplerEvent::Elapsed => match self {
                Sampler::Pausing { first } => SamplerStep::Continue {
                    state: Sampler::AwaitingSecond { first },
                },
                _ => SamplerStep::Continue { state: self },
            },
        }
    }
}

/// A measurement whose readings succeed is one read, one pause of the fixed
/// interval, and one more read, in this order. It ends with the utilisation
/// between the two readings.
pub proof fn lemma_measurement_reads_pauses_reads<E>(
    first: CpuTimeSnapshot,
    second: CpuTimeSnapshot,
)
    ensures
        Sampler::AwaitingFirst.pending() == SamplerRequest::ReadCpuTimes,
        Sampler::AwaitingFirst.next(SamplerEvent::<E>::Reading(first)) == (SamplerStep::<
            E,
        >::Continue { state: Sampler::Pausing { first } }),
        (Sampler::Pausing { first }).pending() == (SamplerRequest::Sleep {
            millis: SAMPLE_INTERVAL_MILLIS,
        }),
        (Sampler::Pausing { first }).next(SamplerEvent::<E>::Elapsed) == (SamplerStep::<
            E,
        >::Continue { state: Sampler::AwaitingSecond { first } }),
        (Sampler::AwaitingSecond { first }).pending() == SamplerRequest::ReadCpuTimes,
        (Sampler::AwaitingSecond { first }).next(SamplerEvent::<E>::Reading(second))
            == SamplerStep::<E>::Finished(Ok(usage_between(first, second))),
{
}

/// A measurement ends in a failure exactly when the provider reports one, in
/// whatever state, and the failure is handed on as it was reported. Counters
/// that stood still are no failure.
pub proof fn lemma_only_the_provider_fails<E>(state: Sampler, event: SamplerEvent<E>)
    ensures
        event matches SamplerEvent::ProviderFailed(error) ==> state.next(event)
            == SamplerStep::<E>::Finished(Err(error)),
        state.next(event) matches SamplerStep::Finished(Err(error)) ==> event
            == SamplerEvent::<E>::ProviderFailed(error),
{
}

/// No way to a result leads around the pause. A measurement ends with a
/// utilisation only on the second reading; it waits for the second reading
/// only once the interval is over, and the interval runs only from the first
/// reading on.
pub proof fn lemma_no_result_without_the_pause<E>(state: Sampler, event: SamplerEvent<E>)
    ensures
        state.next(event) matches SamplerStep::Finished(Ok(usage)) ==> {
            &&& state matches Sampler::AwaitingSecond { first }
            &&& event matches SamplerEvent::Reading(second)
            &&& usage == usage_between(first, second)
        },
        state.next(event) matches SamplerStep::Continue {
            state: Sampler::AwaitingSecond { first },
        } ==> {
            &&& event is Elapsed
            &&& state == (Sampler::Pausing { first }) || state == (Sampler::AwaitingSecond {
                first,
            })
        },
        state.next(event) matches SamplerStep::Continue { state: Sampler::Pausing { first } } ==> {
            ||| state == Sampler::AwaitingFirst && event == SamplerEvent::<E>::Reading(first)
            ||| state == (Sampler::Pausing { first }) && event is Reading
        },
{
}

/// An event that does not answer the pending request changes nothing.
pub proof fn lemma_unexpected_event_is_ignored<E>(state: Sampler, event: SamplerEvent<E>)
    requires
        match state.pending() {
            SamplerRequest::ReadCpuTimes => event is Elapsed,
            SamplerRequest::Sleep { millis } => event is Reading,
        },
    ensures
        state.next(event) == (SamplerStep::<E>::Continue { state }),
{
}

} // verus!
