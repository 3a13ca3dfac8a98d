//! The sink: events in, outbound requests out, acknowledgments back.
//!
//! Each event is encoded and taken into the open batch; a batch that is
//! flushed becomes one outbound request and is tracked until it is settled.

use crate::acker::{acks_of, lost_in, settle, settled_prefix, sum, AckTracker, Slot};
use crate::batch::{age, body_of, flush_due, Accumulator, Batch, CompressionFailed};
use crate::config::{pair_texts, SinkSettings};
use crate::encoder::{encode_event, encoding};
use crate::event::Event;
use crate::request::{
    plain_headers, signed_as, signed_input_headers, HttpRequest, Method, RequestBuilder,
};
use crate::template::{missing, MissingFields, Template};
use crate::text::{opt_text, texts};
use vstd::prelude::*;
use vstd::string::*;

verus! {

/// A request on its way out, with the ticket under which its batch is
/// tracked and the number of events it carries.
pub struct Outbound {
    pub ticket: u64,
    pub events: usize,
    pub request: HttpRequest,
}

/// Why an event did not enter a batch, or a batch did not leave.
#[derive(Debug, PartialEq, Eq)]
pub enum SendError {
    /// The event could not be encoded and was dropped; the batch goes on.
    Dropped(MissingFields),
    /// The batch was due and could not be compressed; it stays open.
    CompressionFailed,
}

/// The sink.
pub struct Sink {
    pub index: Template,
    pub doc_type: String,
    pub id_key: Option<String>,
    pub accumulator: Accumulator,
    pub builder: RequestBuilder,
    pub tracker: AckTracker,
    /// How many events were encoded and taken into a batch so far.
    pub accepted: Ghost<nat>,
}

impl Sink {
    /// Whether `other` is set up as this sink is.
    pub open spec fn same_setup(&self, other: &Sink) -> bool {
        &&& self.index == other.index
        &&& self.doc_type == other.doc_type
        &&& self.id_key == other.id_key
        &&& self.builder == other.builder
        &&& self.accumulator.same_settings(&other.accumulator)
    }

    /// Every event that was taken in is in the open batch or was handed over
    /// for delivery, and every event handed over is acknowledged, lost or in
    /// delivery.
    pub open spec fn accounted(&self) -> bool {
        &&& self.accepted@ == self.accumulator.events() + self.tracker.submitted()
        &&& self.tracker.balanced()
    }

    /// Whether tickets are left for another batch.
    pub open spec fn has_room(&self) -> bool {
        self.tracker.head() + self.tracker.slots().len() < u64::MAX
    }

    /// Whether `out` is the request for a batch of `events` events with the
    /// body `body`, handed over between `self` and `after`.
    pub open spec fn dispatched(&self, after: &Sink, body: Seq<u8>, events: nat, out: Outbound) -> bool {
        &&& out.ticket == self.tracker.head() + self.tracker.slots().len()
        &&& out.events == events
        &&& out.request.method == Method::Post
        &&& out.request.uri@ == self.builder.uri()
        &&& out.request.body@ == body
        &&& !self.builder.is_signed() ==> pair_texts(out.request.headers@) == plain_headers(
            self.builder.gzip(),
            self.builder.configured_headers(),
            self.builder.authorization(),
        )
        &&& self.builder.is_signed() ==> signed_as(
            out.request.headers@,
            signed_input_headers(self.builder.configured_headers()),
            body,
        )
        &&& after.tracker.head() == self.tracker.head()
        &&& after.tracker.slots() == self.tracker.slots().push(Slot::InFlight(out.events))
        &&& after.tracker.submitted() == self.tracker.submitted() + events
        &&& after.tracker.acknowledged() == self.tracker.acknowledged()
        &&& after.tracker.lost() == self.tracker.lost()
        &&& self.tracker.balanced() ==> after.tracker.balanced()
        &&& after.tracker.tickets_fit()
    }

    /// Whether the open batch and the tracked batches are the same in both.
    pub open spec fn same_batches(&self, after: &Sink) -> bool {
        &&& after.accumulator.holds(
            self.accumulator.buffered(),
            self.accumulator.events(),
            self.accumulator.opened_at(),
        )
        &&& after.tracker == self.tracker
    }

    /// A sink with an empty batch opened at `now` and nothing in delivery.
    pub fn new(settings: &SinkSettings, builder: RequestBuilder, now: u64) -> (r: Sink)
        ensures
            r.index@ == settings.index@,
            r.doc_type@ == settings.doc_type@,
            opt_text(r.id_key) == opt_text(settings.id_key),
            r.builder == builder,
            r.accumulator.max_size() == settings.batch.max_size,
            r.accumulator.max_age() == settings.batch.max_age_secs,
            r.accumulator.gzip() == settings.batch.gzip,
            r.accumulator.fresh_at(now),
            r.tracker.slots().len() == 0,
            r.tracker.head() == 0,
            r.tracker.submitted() == 0,
            r.tracker.acknowledged() == 0,
            r.tracker.lost() == 0,
            r.tracker.balanced(),
            r.tracker.tickets_fit(),
            r.accepted@ == 0,
            r.accounted(),
    {
        Sink {
            index: settings.index.copy(),
            doc_type: settings.doc_type.clone(),
            id_key: settings.id_key.clone(),
            accumulator: Accumulator::new(settings.batch, now),
            builder,
            tracker: AckTracker::new(),
            accepted: Ghost(0),
        }
    }

    /// Hands a flushed batch over for delivery: its request is built and the
    /// batch is tracked. An empty batch gives no request.
    fn dispatch(&mut self, batch: Batch) -> (r: Option<Outbound>)
        requires
            old(self).has_room(),
        ensures
            final(self).same_setup(old(self)),
            final(self).accumulator == old(self).accumulator,
            final(self).accepted == old(self).accepted,
            match r {
                Some(out) => batch.events > 0 && old(self).dispatched(
                    final(self),
                    batch.body@,
                    batch.events as nat,
                    out,
                ),
                None => batch.events == 0 && final(self).tracker == old(self).tracker,
            },
    {
        if batch.events == 0 {
            return None;
        }
        let events = batch.events;
        let ticket = self.tracker.submit(events);
        let request = self.builder.build(batch.body);
        Some(Outbound { ticket, events, request })
    }

    /// Takes one event: encodes it, adds it to the open batch and, when the
    /// batch is due at `now`, flushes the batch into a request.
    ///
    /// An event that cannot be encoded is dropped and changes nothing. When
    /// the batch is due and cannot be compressed, the event stays in the
    /// open batch.
    pub fn send(&mut self, event: &Event, now: u64) -> (r: Result<Option<Outbound>, SendError>)
        requires
            old(self).accumulator.events() < usize::MAX,
            old(self).has_room(),
        ensures
            final(self).same_setup(old(self)),
            final(self).accepted@ == old(self).accepted@ + (if r matches Err(SendError::Dropped(_)) {
                0nat
            } else {
                1nat
            }),
            old(self).accounted() ==> final(self).accounted(),
            r matches Err(SendError::Dropped(_)) <==> encoding(
                old(self).index@,
                old(self).doc_type@,
                opt_text(old(self).id_key),
                event@,
            ) is None,
            r matches Err(SendError::Dropped(m)) ==> old(self).same_batches(final(self)) && texts(
                m.names@,
            ) == missing(old(self).index@, event@),
            !(r matches Err(SendError::Dropped(_))) ==> ({
                let document = encoding(
                    old(self).index@,
                    old(self).doc_type@,
                    opt_text(old(self).id_key),
                    event@,
                )->0;
                let bytes = old(self).accumulator.buffered() + document;
                let due = flush_due(
                    bytes.len(),
                    old(self).accumulator.max_size() as nat,
                    age(now, old(self).accumulator.opened_at()),
                    old(self).accumulator.max_age() as nat,
                    false,
                );
                match r {
                    Ok(Some(out)) => {
                        &&& due
                        &&& body_of(bytes, old(self).accumulator.gzip()) is Some
                        &&& old(self).dispatched(
                            final(self),
                            body_of(bytes, old(self).accumulator.gzip())->0,
                            old(self).accumulator.events() + 1,
                            out,
                        )
                        &&& final(self).accumulator.fresh_at(now)
                    },
                    Ok(None) => {
                        &&& !due
                        &&& final(self).accumulator.buffered() == bytes
                        &&& final(self).accumulator.events() == old(self).accumulator.events() + 1
                        &&& final(self).accumulator.opened_at() == old(self).accumulator.opened_at()
                        &&& final(self).tracker == old(self).tracker
                    },
                    Err(_) => {
                        &&& due
                        &&& body_of(bytes, old(self).accumulator.gzip()) is None
                        &&& final(self).accumulator.buffered() == bytes
                        &&& final(self).accumulator.events() == old(self).accumulator.events() + 1
                        &&& final(self).accumulator.opened_at() == old(self).accumulator.opened_at()
                        &&& final(self).tracker == old(self).tracker
                    },
                }
            }),
    {
        let document = match encode_event(event, &self.index, self.doc_type.as_str(), &self.id_key) {
            Ok(document) => document,
            Err(e) => {
                return Err(SendError::Dropped(e));
            },
        };
        proof {
            self.accepted = Ghost(self.accepted@ + 1);
        }
        match self.accumulator.push(&document, now) {
            Ok(Some(batch)) => Ok(self.dispatch(batch)),
            Ok(None) => Ok(None),
            Err(_) => Err(SendError::CompressionFailed),
        }
    }

    /// The timer's part: flushes the open batch into a request when it is
    /// due at `now` though no event arrived. A due batch without events is
    /// flushed too, to restart its clock, and gives no request.
    pub fn poll(&mut self, now: u64) -> (r: Result<Option<Outbound>, CompressionFailed>)
        requires
            old(self).has_room(),
        ensures
            final(self).same_setup(old(self)),
            final(self).accepted == old(self).accepted,
            old(self).accounted() ==> final(self).accounted(),
            ({
                let due = flush_due(
                    old(self).accumulator.buffered().len(),
                    old(self).accumulator.max_size() as nat,
                    age(now, old(self).accumulator.opened_at()),
                    old(self).accumulator.max_age() as nat,
                    false,
                );
                let body = body_of(old(self).accumulator.buffered(), old(self).accumulator.gzip());
                match r {
                    Ok(Some(out)) => {
                        &&& due
                        &&& body is Some
                        &&& old(self).accumulator.events() > 0
                        &&& old(self).dispatched(
                            final(self),
                            body->0,
                            old(self).accumulator.events(),
                            out,
                        )
                        &&& final(self).accumulator.fresh_at(now)
                    },
                    Ok(None) => {
                        &&& final(self).tracker == old(self).tracker
                        &&& if due {
                            body is Some && old(self).accumulator.events() == 0 && final(self).accumulator.fresh_at(now)
                        } else {
                            old(self).same_batches(final(self))
                        }
                    },
                    Err(_) => due && body is None && old(self).same_batches(final(self)),
                }
            }),
    {
        match self.accumulator.flush_if_due(now, false) {
            Ok(Some(batch)) => Ok(self.dispatch(batch)),
            Ok(None) => Ok(None),
            Err(e) => Err(e),
        }
    }

    /// Drains the open batch for shutdown, whatever its size and age, into
    /// a last request. A batch without events gives no request.
    pub fn shutdown(&mut self, now: u64) -> (r: Result<Option<Outbound>, CompressionFailed>)
        requires
            old(self).has_room(),
        ensures
            final(self).same_setup(old(self)),
            final(self).accepted == old(self).accepted,
            old(self).accounted() ==> final(self).accounted(),
            ({
                let body = body_of(old(self).accumulator.buffered(), old(self).accumulator.gzip());
                match r {
                    Ok(Some(out)) => {
                        &&& body is Some
                        &&& old(self).accumulator.events() > 0
                        &&& old(self).dispatched(
                            final(self),
                            body->0,
                            old(self).accumulator.events(),
                            out,
                        )
                        &&& final(self).accumulator.fresh_at(now)
                    },
                    Ok(None) => {
                        &&& body is Some
                        &&& old(self).accumulator.events() == 0
                        &&& final(self).tracker == old(self).tracker
                        &&& final(self).accumulator.fresh_at(now)
                    },
                    Err(_) => body is None && old(self).same_batches(final(self)),
                }
            }),
    {
        match self.accumulator.shutdown(now) {
            Ok(batch) => Ok(self.dispatch(batch)),
            Err(e) => Err(e),
        }
    }

    /// Takes note that the batch with the given ticket is settled, as
    /// delivered or as given up, and returns the acknowledgments to issue
    /// now, in order: one for each delivered batch that has no unsettled
    /// batch before it, with that batch's number of events.
    pub fn settled(&mut self, ticket: u64, delivered: bool) -> (acks: Vec<usize>)
        requires
            old(self).tracker.tickets_fit(),
        ensures
            final(self).tracker.tickets_fit(),
            final(self).same_setup(old(self)),
            final(self).accumulator == old(self).accumulator,
            final(self).accepted == old(self).accepted,
            old(self).accounted() ==> final(self).accounted(),
            ({
                let marked = settle(
                    old(self).tracker.slots(),
                    ticket - old(self).tracker.head(),
                    delivered,
                );
                let released = settled_prefix(marked) as int;
                &&& acks@ == acks_of(marked.take(released))
                &&& final(self).tracker.slots() == marked.skip(released)
                &&& final(self).tracker.head() == old(self).tracker.head() + released
                &&& final(self).tracker.submitted() == old(self).tracker.submitted()
                &&& final(self).tracker.acknowledged() == old(self).tracker.acknowledged() + sum(
                    acks@,
                )
                &&& final(self).tracker.lost() == old(self).tracker.lost() + lost_in(
                    marked.take(released),
                )
            }),
            old(self).tracker.balanced() ==> final(self).tracker.balanced(),
    {
        self.tracker.complete(ticket, delivered)
    }
}

/// Over a full run, when the open batch is drained and every batch handed
/// over was delivered and released, the acknowledgments add up to the number
/// of events that were encoded and taken in.
pub proof fn lemma_full_run_acknowledges_every_event(sink: Sink)
    requires
        sink.accounted(),
        sink.accumulator.events() == 0,
        sink.tracker.slots().len() == 0,
        sink.tracker.lost() == 0,
    ensures
        sink.tracker.acknowledged() == sink.accepted@,
{
}

} // verus!
