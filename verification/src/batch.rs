//! The batch accumulator: one open batch that takes encoded documents and
//! is flushed whole when it is large enough, old enough, or at shutdown.

use crate::bindings::{gzip_compress, gzip_stream};
use crate::config::BatchSettings;
use vstd::prelude::*;

verus! {

/// The age at `now` of a batch opened at `opened_at`; zero when the clock
/// reads earlier than the opening.
pub open spec fn age(now: u64, opened_at: u64) -> nat {
    if now >= opened_at {
        (now - opened_at) as nat
    } else {
        0
    }
}

/// Whether the open batch is to be flushed: its logical size has reached
/// the size bound, or its age the age bound, or a shutdown flush is asked.
pub open spec fn flush_due(size: nat, max_size: nat, age: nat, max_age: nat, shutdown: bool) -> bool {
    size >= max_size || age >= max_age || shutdown
}

/// The body that carries the logical bytes of a batch: the bytes as they
/// are, or their gzip stream; `None` when the compressor fails.
pub open spec fn body_of(bytes: Seq<u8>, gzip: bool) -> Option<Seq<u8>> {
    if gzip {
        gzip_stream(bytes)
    } else {
        Some(bytes)
    }
}

/// A flushed batch, ready to be sent.
#[derive(Clone, Debug, PartialEq, Eq)]
pub struct Batch {
    /// The bytes to send.
    pub body: Vec<u8>,
    /// How many events the batch holds.
    pub events: usize,
    /// The size of the batch before compression.
    pub size: usize,
}

/// The batch could not be compressed; it stays open.
#[derive(Clone, Copy, Debug, PartialEq, Eq, Structural)]
pub struct CompressionFailed;

/// The accumulator.
pub struct Accumulator {
    max_size: usize,
    max_age: u64,
    gzip: bool,
    buffer: Vec<u8>,
    events: usize,
    opened_at: u64,
}

impl Accumulator {
    /// The logical bytes of the open batch.
    pub closed spec fn buffered(&self) -> Seq<u8> {
        self.buffer@
    }

    /// How many events the open batch holds.
    pub closed spec fn events(&self) -> nat {
        self.events as nat
    }

    /// When the open batch was opened.
    pub closed spec fn opened_at(&self) -> u64 {
        self.opened_at
    }

    /// The size bound: the logical size at which a batch is flushed.
    pub closed spec fn max_size(&self) -> usize {
        self.max_size
    }

    /// The age bound: the age at which a batch is flushed.
    pub closed spec fn max_age(&self) -> u64 {
        self.max_age
    }

    /// Whether the bodies of flushed batches are compressed.
    pub closed spec fn gzip(&self) -> bool {
        self.gzip
    }

    /// Whether `other` has the same bounds and compression.
    pub open spec fn same_settings(&self, other: &Accumulator) -> bool {
        self.max_size() == other.max_size() && self.max_age() == other.max_age() && self.gzip()
            == other.gzip()
    }

    /// Whether the batch is empty and its clock starts at `now`.
    pub open spec fn fresh_at(&self, now: u64) -> bool {
        self.buffered().len() == 0 && self.events() == 0 && self.opened_at() == now
    }

    /// An accumulator with an empty batch opened at `now`.
    pub fn new(settings: BatchSettings, now: u64) -> (r: Accumulator)
        ensures
            r.max_size() == settings.max_size,
            r.max_age() == settings.max_age_secs,
            r.gzip() == settings.gzip,
            r.fresh_at(now),
    {
        Accumulator {
            max_size: settings.max_size,
            max_age: settings.max_age_secs,
            gzip: settings.gzip,
            buffer: Vec::new(),
            events: 0,
            opened_at: now,
        }
    }

    /// How many events the open batch holds.
    pub fn len(&self) -> (r: usize)
        ensures
            r == self.events(),
    {
        self.events
    }

    /// The logical size of the open batch.
    pub fn size(&self) -> (r: usize)
        ensures
            r == self.buffered().len(),
    {
        self.buffer.len()
    }

    /// Whether the open batch is to be flushed at `now`.
    pub fn is_due(&self, now: u64, shutdown: bool) -> (r: bool)
        ensures
            r == self.due_at(now, shutdown),
    {
        let elapsed: u64 = if now >= self.opened_at {
            now - self.opened_at
        } else {
            0
        };
        self.buffer.len() >= self.max_size || elapsed >= self.max_age || shutdown
    }

    /// Whether the open batch holds these bytes and this many events, and
    /// was opened at this time.
    pub open spec fn holds(&self, bytes: Seq<u8>, events: nat, opened_at: u64) -> bool {
        &&& self.buffered() == bytes
        &&& self.events() == events
        &&& self.opened_at() == opened_at
    }

    /// Whether the batch of `self` is due at `now`.
    pub open spec fn due_at(&self, now: u64, shutdown: bool) -> bool {
        flush_due(
            self.buffered().len(),
            self.max_size() as nat,
            age(now, self.opened_at()),
            self.max_age() as nat,
            shutdown,
        )
    }

    /// Whether `r` and `after` are what becomes of an open batch of `self`
    /// that holds `bytes` and `events` events, looked at at `now`.
    ///
    /// The batch is flushed if and only if it is due. The flushed batch holds
    /// everything: its body carries the bytes, it counts the events, its
    /// size is the logical one; a fresh, empty batch is opened at `now`. A
    /// batch that is not due stays as it is, and so does one that is due and
    /// cannot be compressed.
    pub open spec fn flush_outcome(
        &self,
        bytes: Seq<u8>,
        events: nat,
        after: &Accumulator,
        now: u64,
        shutdown: bool,
        r: Result<Option<Batch>, CompressionFailed>,
    ) -> bool {
        let due = flush_due(
            bytes.len(),
            self.max_size() as nat,
            age(now, self.opened_at()),
            self.max_age() as nat,
            shutdown,
        );
        match r {
            Ok(Some(batch)) => {
                &&& due
                &&& body_of(bytes, self.gzip()) == Some(batch.body@)
                &&& batch.events == events
                &&& batch.size == bytes.len()
                &&& after.fresh_at(now)
            },
            Ok(None) => !due && after.holds(bytes, events, self.opened_at()),
            Err(_) => {
                &&& due
                &&& body_of(bytes, self.gzip()) is None
                &&& after.holds(bytes, events, self.opened_at())
            },
        }
    }

    /// Flushes the open batch, whatever its size and age.
    fn flush(&mut self, now: u64) -> (r: Result<Batch, CompressionFailed>)
        ensures
            final(self).same_settings(old(self)),
            match r {
                Ok(batch) => {
                    &&& body_of(old(self).buffered(), old(self).gzip()) == Some(batch.body@)
                    &&& batch.events == old(self).events()
                    &&& batch.size == old(self).buffered().len()
                    &&& final(self).fresh_at(now)
                },
                Err(_) => {
                    &&& body_of(old(self).buffered(), old(self).gzip()) is None
                    &&& final(self).holds(
                        old(self).buffered(),
                        old(self).events(),
                        old(self).opened_at(),
                    )
                },
            },
    {
        let size = self.buffer.len();
        let mut body: Vec<u8> = Vec::new();
        if self.gzip {
            match gzip_compress(self.buffer.as_slice()) {
                Ok(stream) => {
                    body = stream;
                    self.buffer = Vec::new();
                },
                Err(_) => {
                    return Err(CompressionFailed);
                },
            }
        } else {
            std::mem::swap(&mut body, &mut self.buffer);
        }
        let events = self.events;
        self.events = 0;
        self.opened_at = now;
        Ok(Batch { body, events, size })
    }

    /// Flushes the open batch when it is due at `now`, and only then. The
    /// flushed batch holds everything that was buffered; a fresh, empty batch
    /// is opened at `now`. When the compressor fails nothing changes.
    pub fn flush_if_due(&mut self, now: u64, shutdown: bool) -> (r: Result<
        Option<Batch>,
        CompressionFailed,
    >)
        ensures
            final(self).same_settings(old(self)),
            old(self).flush_outcome(
                old(self).buffered(),
                old(self).events(),
                final(self),
                now,
                shutdown,
                r,
            ),
    {
        if !self.is_due(now, shutdown) {
            return Ok(None);
        }
        match self.flush(now) {
            Ok(batch) => Ok(Some(batch)),
            Err(e) => Err(e),
        }
    }

    /// Takes one encoded document into the open batch, then flushes the
    /// batch when it is due at `now`. The size that counts is the logical
    /// one, before compression. When the compressor fails the document stays
    /// in the open batch.
    pub fn push(&mut self, document: &Vec<u8>, now: u64) -> (r: Result<
        Option<Batch>,
        CompressionFailed,
    >)
        requires
            old(self).events() < usize::MAX,
        ensures
            final(self).same_settings(old(self)),
            old(self).flush_outcome(
                old(self).buffered() + document@,
                old(self).events() + 1,
                final(self),
                now,
                false,
                r,
            ),
    {
        let mut i: usize = 0;
        while i < document.len()
            invariant
                i <= document.len(),
                self.buffer@ == old(self).buffer@ + document@.take(i as int),
                self.events == old(self).events,
                self.opened_at == old(self).opened_at,
                self.max_size == old(self).max_size,
                self.max_age == old(self).max_age,
                self.gzip == old(self).gzip,
            decreases document.len() - i,
        {
            self.buffer.push(document[i]);
            proof {
                assert(document@.take(i as int).push(document@[i as int]) =~= document@.take(
                    i + 1,
                ));
                assert(self.buffer@ =~= old(self).buffer@ + document@.take(i + 1));
            }
            i = i + 1;
        }
        assert(document@.take(document@.len() as int) =~= document@);
        self.events = self.events + 1;
        self.flush_if_due(now, false)
    }

    /// Flushes the open batch if it is due at `now`, though no document
    /// arrived: the timer's part.
    pub fn poll(&mut self, now: u64) -> (r: Result<Option<Batch>, CompressionFailed>)
        ensures
            final(self).same_settings(old(self)),
            old(self).flush_outcome(
                old(self).buffered(),
                old(self).events(),
                final(self),
                now,
                false,
                r,
            ),
    {
        self.flush_if_due(now, false)
    }

    /// Flushes the open batch for shutdown, whatever its size and age.
    pub fn shutdown(&mut self, now: u64) -> (r: Result<Batch, CompressionFailed>)
        ensures
            final(self).same_settings(old(self)),
            old(self).flush_outcome(
                old(self).buffered(),
                old(self).events(),
                final(self),
                now,
                true,
                match r {
                    Ok(batch) => Ok(Some(batch)),
                    Err(e) => Err(e),
                },
            ),
    {
        self.flush(now)
    }
}

} // verus!
