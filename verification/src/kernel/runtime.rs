//! The kernel runtime's bookkeeping across ticks: the interval since the previous tick,
//! and the hash-chained log every evaluated tick is committed to.
use vstd::prelude::*;

use crate::kernel::checks::{evaluate_checks, spec_checks, DiscreteLimits, StateAssessment};
use crate::kernel::logging::{spec_event_hash, EventLog, OutputDigestFields};
use crate::kernel::verdict::CheckOutcome;

verus! {

/// A runtime bound to one contract: the contract's fingerprint and time limits, the time
/// of the last evaluated tick, and the log of evaluated ticks.
pub struct Runtime<P> {
    contract_fingerprint: String,
    limits: DiscreteLimits,
    last_tick_ts_ms: Option<u64>,
    log: EventLog<P>,
}

/// The interval since the previous tick, never negative; none before the first tick.
pub open spec fn spec_inter_tick(last: Option<u64>, ts_ms: u64) -> Option<u64> {
    match last {
        Some(prev) => Some(if ts_ms >= prev { (ts_ms - prev) as u64 } else { 0 }),
        None => None,
    }
}

impl<P> Runtime<P> {
    pub closed spec fn spec_fingerprint(&self) -> Seq<char> {
        self.contract_fingerprint@
    }

    pub closed spec fn spec_limits(&self) -> DiscreteLimits {
        self.limits
    }

    pub closed spec fn spec_last_tick(&self) -> Option<u64> {
        self.last_tick_ts_ms
    }

    pub closed spec fn spec_log(&self) -> EventLog<P> {
        self.log
    }

    /// The log of evaluated ticks.
    pub fn log(&self) -> (r: &EventLog<P>)
        ensures
            *r == self.spec_log(),
    {
        &self.log
    }

    /// A runtime that has evaluated nothing yet.
    pub fn with_limits(contract_fingerprint: String, limits: DiscreteLimits) -> (r: Self)
        ensures
            r.spec_fingerprint() == contract_fingerprint@,
            r.spec_limits() == limits,
            r.spec_last_tick() is None,
            r.spec_log().records@.len() == 0,
            r.spec_log().chain_linked(),
    {
        Runtime { contract_fingerprint, limits, last_tick_ts_ms: None, log: EventLog::new() }
    }

    /// The contract's fingerprint, which every output carries.
    pub fn contract_fingerprint(&self) -> (r: &str)
        ensures
            r@ == self.spec_fingerprint(),
    {
        self.contract_fingerprint.as_str()
    }

    /// The interval between the previous tick and a tick at `ts_ms`.
    pub fn inter_tick_ms(&self, ts_ms: u64) -> (r: Option<u64>)
        ensures
            r == spec_inter_tick(self.spec_last_tick(), ts_ms),
    {
        match self.last_tick_ts_ms {
            Some(prev) => Some(ts_ms.saturating_sub(prev)),
            None => None,
        }
    }

    /// The checks of a tick at `ts_ms`, measured against the runtime's limits and the
    /// interval since the previous tick.
    pub fn check(&self, assessment: &StateAssessment, ts_ms: u64) -> (r: Vec<CheckOutcome>)
        ensures
            r@ == spec_checks(*assessment, spec_inter_tick(self.spec_last_tick(), ts_ms), self.spec_limits()),
    {
        let inter_tick = self.inter_tick_ms(ts_ms);
        evaluate_checks(assessment, inter_tick, &self.limits)
    }

    /// Commits the output of the tick numbered `seq` at `ts_ms` to the log, and makes that
    /// tick the previous one.
    pub fn commit(&mut self, seq: u64, ts_ms: u64, output: P, fields: &OutputDigestFields)
        ensures
            final(self).spec_last_tick() == Some(ts_ms),
            final(self).spec_fingerprint() == old(self).spec_fingerprint(),
            final(self).spec_limits() == old(self).spec_limits(),
            final(self).spec_log().records@.len() == old(self).spec_log().records@.len() + 1,
            final(self).spec_log().records@.subrange(0, old(self).spec_log().records@.len() as int) == old(self).spec_log().records@,
            final(self).spec_log().tip_hash@ == spec_event_hash(seq, *fields, old(self).spec_log().tip_hash@),
            final(self).spec_log().records@.last().seq == seq,
            final(self).spec_log().records@.last().payload == output,
            final(self).spec_log().records@.last().prev_hash@ == old(self).spec_log().tip_hash@,
            final(self).spec_log().records@.last().hash@ == final(self).spec_log().tip_hash@,
            old(self).spec_log().chain_linked() ==> final(self).spec_log().chain_linked(),
    {
        self.log.append(seq, output, fields);
        self.last_tick_ts_ms = Some(ts_ms);
    }

    /// The tip of the log's hash chain.
    pub fn tip_hash(&self) -> (r: String)
        ensures
            r@ == self.spec_log().tip_hash@,
    {
        self.log.tip_hash()
    }
}

} // verus!
