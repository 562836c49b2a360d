//! The decision core of the consumer loop.
//!
//! The loop itself multiplexes three ready sources — message arrival, a
//! fixed-interval flush timer, and a shutdown signal — and services one
//! per iteration.  The waiting, the receiving and the sink calls are
//! unverified plumbing; what each event does to the engine is decided
//! here, so that the loop's behaviour is fixed by these contracts:
//! a message is always acknowledged, decoded or not; a timer tick
//! flushes everything; shutdown flushes everything once more and stops.

use crate::processor::{
    spec_flush_all, spec_process, FlushOutcome, ProcessOutcome, Processor,
};
use crate::rows::now_seconds;
use vstd::prelude::*;

verus! {

/// One of the three ready sources the loop can wake on.
pub enum ConsumerEvent {
    /// A message arrived: its topic and payload.
    Message(String, Vec<u8>),
    /// The flush timer fired.
    FlushTick,
    /// The external shutdown signal fired.
    Shutdown,
}

/// What one loop iteration must do after servicing an event.
pub struct StepResult {
    /// Set for a message: how processing went, and a threshold flush.
    pub outcome: Option<ProcessOutcome>,
    /// Set for a tick or shutdown: the batches of a full flush.
    pub flush: Option<FlushOutcome>,
    /// Whether the message's offset is acknowledged.  Always true for a
    /// message, even one that failed to decode: a malformed message is
    /// skipped, never retried.
    pub acknowledge: bool,
    /// Whether the loop terminates after this event.
    pub stop: bool,
}

impl Processor {
    /// Service one loop event with an explicit decode-time stamp.
    pub fn handle_event_at(&mut self, event: &ConsumerEvent, now: i64) -> (r: StepResult)
        requires
            old(self).wf(),
        ensures
            final(self).wf(),
            match event {
                ConsumerEvent::Message(topic, payload) => {
                    &&& r.acknowledge
                    &&& !r.stop
                    &&& r.flush is None
                    &&& r.outcome matches Some(p) && (final(self)@, p@) == spec_process(
                        old(self)@,
                        topic@,
                        payload@,
                        now,
                    )
                },
                ConsumerEvent::FlushTick => {
                    &&& !r.acknowledge
                    &&& !r.stop
                    &&& r.outcome is None
                    &&& r.flush matches Some(f) && (final(self)@, f@) == spec_flush_all(old(self)@)
                },
                ConsumerEvent::Shutdown => {
                    &&& !r.acknowledge
                    &&& r.stop
                    &&& r.outcome is None
                    &&& r.flush matches Some(f) && (final(self)@, f@) == spec_flush_all(old(self)@)
                },
            },
    {
        match event {
            ConsumerEvent::Message(topic, payload) => {
                let outcome = self.process_message_at(topic.as_str(), payload.as_slice(), now);
                StepResult { outcome: Some(outcome), flush: None, acknowledge: true, stop: false }
            },
            ConsumerEvent::FlushTick => {
                let flushed = self.flush_all();
                StepResult {
                    outcome: None,
                    flush: Some(flushed),
                    acknowledge: false,
                    stop: false,
                }
            },
            ConsumerEvent::Shutdown => {
                let flushed = self.flush_all();
                StepResult { outcome: None, flush: Some(flushed), acknowledge: false, stop: true }
            },
        }
    }

    /// Service one loop event, stamping decoded rows with the clock.
    pub fn handle_event(&mut self, event: &ConsumerEvent) -> (r: StepResult)
        requires
            old(self).wf(),
        ensures
            final(self).wf(),
            match event {
                ConsumerEvent::Message(topic, payload) => {
                    &&& r.acknowledge
                    &&& !r.stop
                    &&& r.flush is None
                    &&& r.outcome matches Some(p) && exists|now: i64|
                        (final(self)@, p@) == #[trigger] spec_process(
                            old(self)@,
                            topic@,
                            payload@,
                            now,
                        )
                },
                ConsumerEvent::FlushTick => {
                    &&& !r.acknowledge
                    &&& !r.stop
                    &&& r.outcome is None
                    &&& r.flush matches Some(f) && (final(self)@, f@) == spec_flush_all(old(self)@)
                },
                ConsumerEvent::Shutdown => {
                    &&& !r.acknowledge
                    &&& r.stop
                    &&& r.outcome is None
                    &&& r.flush matches Some(f) && (final(self)@, f@) == spec_flush_all(old(self)@)
                },
            },
    {
        let now = now_seconds();
        self.handle_event_at(event, now)
    }
}

} // verus!
