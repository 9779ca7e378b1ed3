//! Waiting for a new blockhash: the decisions of the wait, without the client.
//!
//! The caller owns the client and the clock. It reports what happened as a
//! `WaitEvent` and does what the returned `WaitAction` says.

use vstd::prelude::*;

verus! {

/// Seconds after which the wait for a new blockhash is given up.
pub const BLOCKHASH_TIMEOUT_SECS: u64 = 5;

/// Milliseconds to sleep before the blockhash is fetched again.
pub const BLOCKHASH_RETRY_MILLIS: u64 = 200;

/// A wait for a blockhash other than `previous`.
#[derive(Debug, Clone, Copy)]
pub struct BlockhashWait {
    /// The blockhash that the caller already has.
    pub previous: [u8; 32],
    /// How often the same blockhash was fetched again.
    pub retries: u64,
}

/// What the caller reports.
#[derive(Debug, Clone, Copy)]
pub enum WaitEvent {
    /// A round begins, this many whole seconds after the wait began.
    Elapsed { secs: u64 },
    /// The client returned this blockhash.
    Fetched { blockhash: [u8; 32] },
}

/// What the caller is to do next.
#[derive(Debug, Clone, Copy)]
pub enum WaitAction {
    /// Fetch the latest blockhash and report it.
    Fetch,
    /// Sleep this long, then begin the next round.
    Sleep { millis: u64 },
    /// The wait is over: this is the new blockhash.
    Return { blockhash: [u8; 32] },
    /// The wait is over without a new blockhash, after this many retries.
    GiveUp { retries: u64 },
}

/// The state after an event.
pub open spec fn next_wait(wait: BlockhashWait, event: WaitEvent) -> BlockhashWait {
    match event {
        WaitEvent::Fetched { blockhash } if blockhash@ == wait.previous@ => BlockhashWait {
            previous: wait.previous,
            retries: (wait.retries + 1) as u64,
        },
        _ => wait,
    }
}

/// The action that an event calls for.
pub open spec fn next_action(wait: BlockhashWait, event: WaitEvent) -> WaitAction {
    match event {
        WaitEvent::Elapsed { secs } => if secs < BLOCKHASH_TIMEOUT_SECS {
            WaitAction::Fetch
        } else {
            WaitAction::GiveUp { retries: wait.retries }
        },
        WaitEvent::Fetched { blockhash } => if blockhash@ == wait.previous@ {
            WaitAction::Sleep { millis: BLOCKHASH_RETRY_MILLIS }
        } else {
            WaitAction::Return { blockhash }
        },
    }
}

/// Whether two blockhashes hold the same bytes.
fn same_blockhash(first: &[u8; 32], second: &[u8; 32]) -> (same: bool)
    ensures
        same == (first@ == second@),
{
    let mut i: usize = 0;
    while i < 32
        invariant
            i <= 32,
            forall|j: int| 0 <= j < i ==> first@[j] == second@[j],
        decreases 32 - i,
    {
        if first[i] != second[i] {
            return false;
        }
        i += 1;
    }
    assert(first@ =~= second@);
    true
}

impl BlockhashWait {
    /// Begins a wait for a blockhash other than `previous`.
    pub fn new(previous: [u8; 32]) -> (wait: BlockhashWait)
        ensures
            wait == (BlockhashWait { previous, retries: 0 }),
    {
        BlockhashWait { previous, retries: 0 }
    }

    /// Takes an event and says what to do next.
    ///
    /// A round that begins within five seconds fetches the blockhash, a later
    /// one gives up. A fetched blockhash that differs from the previous one
    /// ends the wait; the same one counts as a retry and calls for a sleep.
    pub fn step(self, event: WaitEvent) -> (next: (BlockhashWait, WaitAction))
        requires
            event matches WaitEvent::Fetched { blockhash } && blockhash@ == self.previous@
                ==> self.retries < u64::MAX,
        ensures
            next.0 == next_wait(self, event),
            next.1 == next_action(self, event),
    {
        match event {
            WaitEvent::Elapsed { secs } => {
                if secs < BLOCKHASH_TIMEOUT_SECS {
                    (self, WaitAction::Fetch)
                } else {
                    (self, WaitAction::GiveUp { retries: self.retries })
                }
            },
            WaitEvent::Fetched { blockhash } => {
                if same_blockhash(&blockhash, &self.previous) {
                    (
                        BlockhashWait { previous: self.previous, retries: self.retries + 1 },
                        WaitAction::Sleep { millis: BLOCKHASH_RETRY_MILLIS },
                    )
                } else {
                    (self, WaitAction::Return { blockhash })
                }
            },
        }
    }
}

} // verus!
