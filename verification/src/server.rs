//! The keepalive of a session: a liveness probe at a fixed interval.
use crate::correlator::deadline_after;
use crate::fields::empty_object;
use crate::header::Header;
use crate::header::HeaderView;
use crate::message::RequestView;
use crate::op::ping::PingRequest;
use crate::ext::ApiSupport;
use crate::request::RequestExt;
use crate::session::RequestError;
use crate::session::Session;
use crate::session::SessionView;
use vstd::prelude::*;

verus! {

/// The time between two probes, in milliseconds, unless another is chosen.
pub const KEEPALIVE_INTERVAL: u64 = 10_000;

/// What a look at the clock led to.
#[derive(Debug, Clone, Copy, PartialEq, Eq, Structural)]
pub enum Probe {
    /// The next probe is not due yet.
    NotDue,
    /// A probe has been queued and waits for its response.
    Sent,
    /// A probe was due and the session did not take it. The next one comes
    /// at the usual time: a failed probe ends nothing.
    Failed(RequestError),
}

/// The timer of the liveness probe.
#[derive(Debug, Clone, Copy, PartialEq, Eq, Structural)]
pub struct Keepalive {
    /// The time between two probes, in milliseconds.
    pub interval: u64,
    /// How long a probe waits for its response, in milliseconds.
    pub timeout: u64,
    /// The time of the next probe.
    pub next: u64,
}

/// Whether `r` is a probe under the header `header`: a request of the method
/// `ping` with an empty object as payload.
pub open spec fn is_probe(r: RequestView, header: HeaderView) -> bool {
    &&& r.header == header
    &&& r.request == PingRequest::method()
    &&& r.data matches Some(v)
    &&& empty_object(v)
}

impl Keepalive {
    /// A timer whose first probe is due at `now`.
    pub fn new(interval: u64, timeout: u64, now: u64) -> (k: Keepalive)
        ensures
            k == (Keepalive { interval, timeout, next: now }),
    {
        Keepalive { interval, timeout, next: now }
    }

    /// Whether a probe is due at `now`.
    pub open spec fn is_due(self, now: u64) -> bool {
        now >= self.next
    }

    /// Whether a probe is due at `now`.
    pub fn due(&self, now: u64) -> (r: bool)
        ensures
            r == self.is_due(now),
    {
        now >= self.next
    }

    /// Looks at the clock. Where a probe is due, it is sent as a request
    /// under the given header, and the next probe is put one interval after
    /// `now`, whether or not the session took this one.
    pub fn tick_with(&mut self, session: &mut Session, now: u64, header: Header) -> (r: Probe)
        ensures
            final(session)@.wf(),
            final(self).interval == old(self).interval,
            final(self).timeout == old(self).timeout,
            !old(self).is_due(now) ==> r == Probe::NotDue && *final(self) == *old(self),
            !old(self).is_due(now) ==> final(session)@ == old(session)@,
            old(self).is_due(now) ==> {
                &&& final(self).next == deadline_after(now, old(self).interval)
                &&& exists|probe: RequestView|
                    #![trigger old(session)@.request(probe, now, old(self).timeout)]
                    {
                        &&& is_probe(probe, header@)
                        &&& final(session)@ == old(session)@.request(
                            probe,
                            now,
                            old(self).timeout,
                        )
                    }
                &&& r == (match old(session)@.request_error(header@.id) {
                    Some(e) => Probe::Failed(e),
                    None => Probe::Sent,
                })
            },
    {
        if now < self.next {
            let _ = session.state();
            return Probe::NotDue;
        }
        self.next = if self.interval > u64::MAX - now {
            u64::MAX
        } else {
            now + self.interval
        };
        let payload = PingRequest.to_value();
        let ghost probe = RequestView {
            header: header@,
            request: PingRequest::method(),
            data: Some(payload),
        };
        let method = PingRequest::request_method_name().to_owned();
        let r = session.request_with(header, method, Some(payload), now, self.timeout);
        assert(session@ == old(session)@.request(probe, now, old(self).timeout));
        match r {
            Ok(_) => Probe::Sent,
            Err(e) => Probe::Failed(e),
        }
    }

    /// Looks at the clock, with a freshly minted header for the probe.
    /// Whatever header was minted, the timer and the session have done with
    /// it what `tick_with` does.
    pub fn tick(&mut self, session: &mut Session, now: u64) -> (r: Probe)
        ensures
            final(session)@.wf(),
            final(self).interval == old(self).interval,
            final(self).timeout == old(self).timeout,
            !old(self).is_due(now) ==> r == Probe::NotDue && *final(self) == *old(self),
            !old(self).is_due(now) ==> final(session)@ == old(session)@,
            old(self).is_due(now) ==> {
                &&& final(self).next == deadline_after(now, old(self).interval)
                &&& exists|probe: RequestView|
                    #![trigger old(session)@.request(probe, now, old(self).timeout)]
                    {
                        &&& is_probe(probe, probe.header)
                        &&& crate::header::minted(probe.header)
                        &&& final(session)@ == old(session)@.request(
                            probe,
                            now,
                            old(self).timeout,
                        )
                        &&& r == (match old(session)@.request_error(probe.header.id) {
                            Some(e) => Probe::Failed(e),
                            None => Probe::Sent,
                        })
                    }
            },
    {
        let header = Header::mint();
        let ghost h = header@;
        let r = self.tick_with(session, now, header);
        proof {
            if old(self).is_due(now) {
                let probe = choose|probe: RequestView|
                    #![trigger old(session)@.request(probe, now, old(self).timeout)]
                    {
                        &&& is_probe(probe, h)
                        &&& session@ == old(session)@.request(probe, now, old(self).timeout)
                    };
                assert(is_probe(probe, probe.header) && crate::header::minted(probe.header));
                assert(session@ == old(session)@.request(probe, now, old(self).timeout));
            }
        }
        r
    }
}

/// A probe that fails changes nothing in the session, and a probe that is
/// sent changes neither its state nor what it has queued before: no outcome
/// of a probe tears the session down.
pub proof fn lemma_probe_is_harmless(s: SessionView, probe: RequestView, now: u64, timeout: u64)
    ensures
        s.request(probe, now, timeout).state == s.state,
        s.request_error(probe.header.id) is Some ==> s.request(probe, now, timeout) == s,
        s.request_error(probe.header.id) is None ==> s.request(probe, now, timeout).outbound
            == s.outbound.push(crate::message::MessageView::Request(probe)),
{
}

} // verus!
