//! Polling the browser clipboard for a capture: read, and if nothing usable
//! is there yet, wait and read again, up to a fixed number of reads.
//!
//! The caller reads the clipboard and sleeps; this module decides what to do
//! after each read.

use vstd::prelude::*;

verus! {

/// What to do after a clipboard read.
pub enum PollStep {
    /// The read gave a usable value: the poll is over.
    Found(String),
    /// Nothing usable yet: wait this long, then read again.
    Retry { wait_ms: u64 },
    /// Nothing usable after the last allowed read: wait this long, then fail.
    GiveUp { wait_ms: u64 },
}

/// The state of one clipboard poll.
pub struct ClipboardPoll {
    max_reads: u32,
    reads: u32,
    retry_wait_ms: u64,
    finished: bool,
}

impl ClipboardPoll {
    #[verifier::type_invariant]
    spec fn wf(self) -> bool {
        &&& self.reads <= self.max_reads
        &&& !self.finished ==> self.reads < self.max_reads
    }

    /// How many reads the poll allows.
    pub closed spec fn max_reads(self) -> nat {
        self.max_reads as nat
    }

    /// How many reads have been recorded.
    pub closed spec fn reads(self) -> nat {
        self.reads as nat
    }

    /// How long to wait after a read that found nothing.
    pub closed spec fn retry_wait_ms(self) -> u64 {
        self.retry_wait_ms
    }

    /// Whether the poll has ended, with a value or by giving up.
    pub closed spec fn finished(self) -> bool {
        self.finished
    }

    /// A poll that allows `max_reads` reads (at least one) and waits
    /// `retry_wait_ms` after each read that finds nothing.
    pub fn new(max_reads: u32, retry_wait_ms: u64) -> (r: Self)
        requires
            max_reads > 0,
        ensures
            r.max_reads() == max_reads,
            r.reads() == 0,
            r.retry_wait_ms() == retry_wait_ms,
            !r.finished(),
    {
        ClipboardPoll { max_reads, reads: 0, retry_wait_ms, finished: false }
    }

    /// The poll for the share link that "Copy link" leaves in the clipboard:
    /// 15 reads, one second apart.
    pub fn for_share_link() -> (r: Self)
        ensures
            r.max_reads() == 15,
            r.reads() == 0,
            r.retry_wait_ms() == 1000,
            !r.finished(),
    {
        Self::new(15, 1000)
    }

    /// The poll for the image that the save shortcut copies: 10 reads,
    /// 800 ms apart.
    pub fn for_image_data() -> (r: Self)
        ensures
            r.max_reads() == 10,
            r.reads() == 0,
            r.retry_wait_ms() == 800,
            !r.finished(),
    {
        Self::new(10, 800)
    }

    /// Whether another read is due.
    pub fn wants_read(&self) -> (r: bool)
        ensures
            r == !self.finished(),
            r ==> self.reads() < self.max_reads(),
            self.reads() <= self.max_reads(),
    {
        proof {
            use_type_invariant(self);
        }
        !self.finished
    }

    /// Records the outcome of one read (`found` is the usable value it gave,
    /// if any) and says what to do next. A value ends the poll; otherwise the
    /// caller waits and reads again, or, after the last allowed read, waits
    /// and gives up.
    pub fn record(&mut self, found: Option<String>) -> (step: PollStep)
        requires
            !old(self).finished(),
        ensures
            final(self).reads() == old(self).reads() + 1,
            final(self).reads() <= final(self).max_reads(),
            final(self).max_reads() == old(self).max_reads(),
            final(self).retry_wait_ms() == old(self).retry_wait_ms(),
            found is Some ==> step == PollStep::Found(found->0) && final(self).finished(),
            found is None && final(self).reads() < final(self).max_reads() ==> step
                == (PollStep::Retry { wait_ms: old(self).retry_wait_ms() }) && !final(self).finished(),
            found is None && final(self).reads() == final(self).max_reads() ==> step
                == (PollStep::GiveUp { wait_ms: old(self).retry_wait_ms() }) && final(self).finished(),
    {
        proof {
            use_type_invariant(&*self);
        }
        let reads = self.reads + 1;
        let max_reads = self.max_reads;
        let wait_ms = self.retry_wait_ms;
        match found {
            Some(v) => {
                *self = ClipboardPoll { max_reads, reads, retry_wait_ms: wait_ms, finished: true };
                PollStep::Found(v)
            },
            None => {
                if reads < max_reads {
                    *self = ClipboardPoll {
                        max_reads,
                        reads,
                        retry_wait_ms: wait_ms,
                        finished: false,
                    };
                    PollStep::Retry { wait_ms }
                } else {
                    *self = ClipboardPoll {
                        max_reads,
                        reads,
                        retry_wait_ms: wait_ms,
                        finished: true,
                    };
                    PollStep::GiveUp { wait_ms }
                }
            },
        }
    }
}

} // verus!
