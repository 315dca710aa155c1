//! The relayer's event watcher: the cursor over the other chain's blocks and
//! the grouping of its events into one batch per block.

use crate::handler::MostEvents;
use vstd::prelude::*;

verus! {

/// The events of one block, handed to the handler as a whole.
#[derive(Debug, Clone, PartialEq, Eq)]
pub struct EventsBatch {
    pub block: u64,
    pub events: Vec<MostEvents>,
}

/// What the watcher holds.
pub struct WatcherState {
    /// The block at which a subscription starts: the one after the last
    /// acknowledged block.
    pub next_block: u64,
    /// The block whose events are being collected, if any, and its events so far.
    pub open: Option<(u64, Seq<MostEvents>)>,
}

impl WatcherState {
    /// No block is collected that was acknowledged before.
    pub open spec fn valid(self) -> bool {
        self.open matches Some((block, _)) ==> block >= self.next_block
    }

    /// The watcher after an event of `block` was read, and the batch that
    /// this completes. An event of an acknowledged block is dropped. An
    /// event of the block being collected joins it. An event of another
    /// block completes the batch being collected and starts the next.
    pub open spec fn observe(self, block: u64, event: MostEvents) -> (
        WatcherState,
        Option<(u64, Seq<MostEvents>)>,
    ) {
        if block < self.next_block {
            (self, None)
        } else {
            match self.open {
                Some((open_block, events)) => if open_block == block {
                    (WatcherState { open: Some((block, events.push(event))), ..self }, None)
                } else {
                    (
                        WatcherState { open: Some((block, seq![event])), ..self },
                        Some((open_block, events)),
                    )
                },
                None => (WatcherState { open: Some((block, seq![event])), ..self }, None),
            }
        }
    }

    /// The watcher after the batch of `block` was acknowledged: the cursor
    /// moves behind that block, and never backwards.
    pub open spec fn acknowledge(self, block: u64) -> WatcherState {
        if block >= self.next_block && block < u64::MAX {
            WatcherState {
                next_block: (block + 1) as u64,
                open: match self.open {
                    Some((open_block, events)) => if open_block <= block {
                        None
                    } else {
                        self.open
                    },
                    None => None,
                },
            }
        } else {
            self
        }
    }
}

/// The watcher as it is stored.
#[derive(Debug, Clone)]
pub struct Watcher {
    next_block: u64,
    open: Option<EventsBatch>,
}

impl View for Watcher {
    type V = WatcherState;

    closed spec fn view(&self) -> WatcherState {
        WatcherState {
            next_block: self.next_block,
            open: match self.open {
                Some(batch) => Some((batch.block, batch.events@)),
                None => None,
            },
        }
    }
}

/// Whether `batch` is the batch that the state machine speaks of.
pub open spec fn batch_is(batch: Option<EventsBatch>, expected: Option<(u64, Seq<MostEvents>)>)
    -> bool {
    match expected {
        Some((block, events)) => batch matches Some(b) && b.block == block && b.events@ == events,
        None => batch is None,
    }
}

impl Watcher {
    /// A watcher that starts reading at `from_block`.
    pub fn new(from_block: u64) -> (watcher: Self)
        ensures
            watcher@ == (WatcherState { next_block: from_block, open: None }),
            watcher@.valid(),
    {
        Watcher { next_block: from_block, open: None }
    }

    /// A watcher that goes on where an earlier one stopped: at the stored
    /// cursor where there is one, else at `from_block`.
    pub fn resume(from_block: u64, stored_cursor: Option<u64>) -> (watcher: Self)
        ensures
            watcher@ == (WatcherState {
                next_block: match stored_cursor {
                    Some(next_block) => next_block,
                    None => from_block,
                },
                open: None,
            }),
            watcher@.valid(),
    {
        match stored_cursor {
            Some(next_block) => Watcher::new(next_block),
            None => Watcher::new(from_block),
        }
    }

    /// The block at which to start the subscription, at first and after
    /// every failure: the one after the last acknowledged block.
    pub fn subscribe_from(&self) -> (block: u64)
        ensures
            block == self@.next_block,
    {
        self.next_block
    }

    /// Takes in an event of `block` and hands out the batch that it completes, if any.
    pub fn observe(&mut self, block: u64, event: MostEvents) -> (batch: Option<EventsBatch>)
        requires
            old(self)@.valid(),
        ensures
            final(self)@.valid(),
            final(self)@ == old(self)@.observe(block, event).0,
            batch_is(batch, old(self)@.observe(block, event).1),
    {
        if block < self.next_block {
            return None;
        }
        let open = self.open.take();
        match open {
            Some(mut batch) => {
                if batch.block == block {
                    batch.events.push(event);
                    self.open = Some(batch);
                    None
                } else {
                    let mut events: Vec<MostEvents> = Vec::new();
                    events.push(event);
                    self.open = Some(EventsBatch { block, events });
                    assert(events@ =~= seq![event]);
                    Some(batch)
                }
            },
            None => {
                let mut events: Vec<MostEvents> = Vec::new();
                events.push(event);
                self.open = Some(EventsBatch { block, events });
                assert(events@ =~= seq![event]);
                None
            },
        }
    }

    /// Hands out the batch being collected, once the end of its block was seen.
    pub fn close_block(&mut self) -> (batch: Option<EventsBatch>)
        requires
            old(self)@.valid(),
        ensures
            final(self)@.valid(),
            final(self)@ == (WatcherState { open: None, ..old(self)@ }),
            batch_is(batch, old(self)@.open),
    {
        self.open.take()
    }

    /// Notes that the handler acknowledged the batch of `block`. The cursor
    /// moves behind that block. An acknowledgement of an earlier block
    /// changes nothing: the cursor never moves backwards.
    pub fn acknowledge(&mut self, block: u64)
        requires
            old(self)@.valid(),
        ensures
            final(self)@.valid(),
            final(self)@ == old(self)@.acknowledge(block),
            final(self)@.next_block >= old(self)@.next_block,
    {
        if block >= self.next_block && block < u64::MAX {
            self.next_block = block + 1;
            let stale = match &self.open {
                Some(batch) => batch.block <= block,
                None => false,
            };
            if stale {
                self.open = None;
            }
        }
    }

    /// Forgets the batch being collected, after a timeout or a failure of
    /// the transport. The cursor stays where it is, so that the events are
    /// read again.
    pub fn restart(&mut self)
        requires
            old(self)@.valid(),
        ensures
            final(self)@.valid(),
            final(self)@ == (WatcherState { open: None, ..old(self)@ }),
    {
        self.open = None;
    }
}

} // verus!
