use vstd::prelude::*;

verus! {

/// Where a consumer is in its life.
#[derive(Debug, Clone, Copy, PartialEq, Eq, Structural)]
pub enum ConsumerState {
    Created,
    Running,
    /// Stop was asked for; dispatches started earlier are still draining.
    Stopping,
    Stopped,
}

/// What the poll loop does when its interval elapses.
#[derive(Debug, Clone, Copy, PartialEq, Eq, Structural)]
pub enum TickAction {
    /// Fetch the next batch from the queue.
    Fetch,
    /// Do nothing: the consumer is not running.
    Idle,
}

pub struct ConsumerView {
    pub state: ConsumerState,
    pub in_flight: nat,
}

/// The decisions of the poll loop: when to fetch, how many dispatches to
/// start, and when the consumer has drained after a stop. The loop that
/// waits on timers and the queue reports each event here and acts on the
/// answer.
///
/// A failed fetch changes nothing: the loop logs it and fetches again on
/// the next tick.
pub struct Consumer {
    state: ConsumerState,
    in_flight: usize,
}

impl View for Consumer {
    type V = ConsumerView;

    closed spec fn view(&self) -> ConsumerView {
        ConsumerView { state: self.state, in_flight: self.in_flight as nat }
    }
}

pub open spec fn after_start(c: ConsumerView) -> ConsumerView {
    match c.state {
        ConsumerState::Created | ConsumerState::Stopped => ConsumerView {
            state: ConsumerState::Running,
            in_flight: 0,
        },
        _ => c,
    }
}

pub open spec fn after_stop(c: ConsumerView) -> ConsumerView {
    match c.state {
        ConsumerState::Running => ConsumerView {
            state: if c.in_flight == 0 {
                ConsumerState::Stopped
            } else {
                ConsumerState::Stopping
            },
            in_flight: c.in_flight,
        },
        _ => c,
    }
}

pub open spec fn tick_action(c: ConsumerView) -> TickAction {
    if c.state == ConsumerState::Running {
        TickAction::Fetch
    } else {
        TickAction::Idle
    }
}

/// How many dispatches a batch of `n` messages starts: all of them while
/// running, none otherwise.
pub open spec fn batch_dispatches(c: ConsumerView, n: nat) -> nat {
    if c.state == ConsumerState::Running {
        n
    } else {
        0
    }
}

pub open spec fn after_batch(c: ConsumerView, n: nat) -> ConsumerView {
    ConsumerView { state: c.state, in_flight: c.in_flight + batch_dispatches(c, n) }
}

pub open spec fn after_dispatch_end(c: ConsumerView) -> ConsumerView {
    let left: nat = if c.in_flight > 0 {
        (c.in_flight - 1) as nat
    } else {
        0
    };
    ConsumerView {
        state: if c.state == ConsumerState::Stopping && left == 0 {
            ConsumerState::Stopped
        } else {
            c.state
        },
        in_flight: left,
    }
}

/// Dispatches still running when the drain time is up.
pub open spec fn abandoned_at_timeout(c: ConsumerView) -> nat {
    if c.state == ConsumerState::Stopping {
        c.in_flight
    } else {
        0
    }
}

pub open spec fn after_drain_timeout(c: ConsumerView) -> ConsumerView {
    if c.state == ConsumerState::Stopping {
        ConsumerView { state: ConsumerState::Stopped, in_flight: 0 }
    } else {
        c
    }
}

impl Consumer {
    pub fn new() -> (r: Self)
        ensures
            r@ == (ConsumerView { state: ConsumerState::Created, in_flight: 0 }),
    {
        Consumer { state: ConsumerState::Created, in_flight: 0 }
    }

    pub fn state(&self) -> (r: ConsumerState)
        ensures
            r == self@.state,
    {
        self.state
    }

    pub fn in_flight(&self) -> (r: usize)
        ensures
            r as nat == self@.in_flight,
    {
        self.in_flight
    }

    /// Starts a created or stopped consumer; returns whether it started.
    pub fn start(&mut self) -> (r: bool)
        ensures
            r == (old(self)@.state == ConsumerState::Created || old(self)@.state
                == ConsumerState::Stopped),
            final(self)@ == after_start(old(self)@),
    {
        match self.state {
            ConsumerState::Created | ConsumerState::Stopped => {
                self.state = ConsumerState::Running;
                self.in_flight = 0;
                true
            },
            _ => false,
        }
    }

    /// Asks a running consumer to stop; returns whether it was running. A
    /// second call changes nothing.
    pub fn stop(&mut self) -> (r: bool)
        ensures
            r == (old(self)@.state == ConsumerState::Running),
            final(self)@ == after_stop(old(self)@),
    {
        if self.state == ConsumerState::Running {
            if self.in_flight == 0 {
                self.state = ConsumerState::Stopped;
            } else {
                self.state = ConsumerState::Stopping;
            }
            true
        } else {
            false
        }
    }

    /// The interval has elapsed.
    pub fn on_tick(&self) -> (r: TickAction)
        ensures
            r == tick_action(self@),
    {
        if self.state == ConsumerState::Running {
            TickAction::Fetch
        } else {
            TickAction::Idle
        }
    }

    /// A fetch returned `n` messages; returns how many dispatches to start.
    pub fn on_batch(&mut self, n: usize) -> (r: usize)
        requires
            old(self)@.in_flight + n <= usize::MAX,
        ensures
            r as nat == batch_dispatches(old(self)@, n as nat),
            final(self)@ == after_batch(old(self)@, n as nat),
    {
        if self.state == ConsumerState::Running {
            self.in_flight = self.in_flight + n;
            n
        } else {
            0
        }
    }

    /// One dispatch has finished.
    pub fn on_dispatch_end(&mut self)
        ensures
            final(self)@ == after_dispatch_end(old(self)@),
    {
        if self.in_flight > 0 {
            self.in_flight = self.in_flight - 1;
        }
        if self.state == ConsumerState::Stopping && self.in_flight == 0 {
            self.state = ConsumerState::Stopped;
        }
    }

    /// The drain time after a stop is up; returns how many dispatches were
    /// still running, to be reported.
    pub fn on_drain_timeout(&mut self) -> (r: usize)
        ensures
            r as nat == abandoned_at_timeout(old(self)@),
            final(self)@ == after_drain_timeout(old(self)@),
    {
        if self.state == ConsumerState::Stopping {
            let left = self.in_flight;
            self.state = ConsumerState::Stopped;
            self.in_flight = 0;
            left
        } else {
            0
        }
    }
}

/// A stop has been asked for and no start has come since.
pub open spec fn halted(c: ConsumerView) -> bool {
    c.state == ConsumerState::Stopping || c.state == ConsumerState::Stopped
}

/// The state after `k` dispatches have ended.
pub open spec fn after_dispatch_ends(c: ConsumerView, k: nat) -> ConsumerView
    decreases k,
{
    if k == 0 {
        c
    } else {
        after_dispatch_ends(after_dispatch_end(c), (k - 1) as nat)
    }
}

/// Once a running consumer is stopped, no tick fetches again, and nothing
/// but a new start changes that.
pub proof fn stop_halts_fetching(c: ConsumerView, n: nat)
    requires
        c.state == ConsumerState::Running,
    ensures
        halted(after_stop(c)),
        tick_action(after_stop(c)) == TickAction::Idle,
        forall|h: ConsumerView| #[trigger] halted(h) ==> tick_action(h) == TickAction::Idle,
        forall|h: ConsumerView| #[trigger] halted(h) ==> halted(after_stop(h)),
        forall|h: ConsumerView| #[trigger] halted(h) ==> halted(after_dispatch_end(h)),
        forall|h: ConsumerView| #[trigger] halted(h) ==> halted(after_drain_timeout(h)),
        forall|h: ConsumerView|
            #[trigger] halted(h) ==> halted(after_batch(h, n)) && batch_dispatches(h, n) == 0,
{
}

/// A stopped consumer reaches `Stopped` once every dispatch started before
/// the stop has ended, or as soon as the drain time is up.
pub proof fn stop_drains(c: ConsumerView)
    requires
        c.state == ConsumerState::Running,
    ensures
        (after_stop(c).state == ConsumerState::Stopped) == (c.in_flight == 0),
        after_dispatch_ends(after_stop(c), c.in_flight).state == ConsumerState::Stopped,
        after_drain_timeout(after_stop(c)).state == ConsumerState::Stopped,
        abandoned_at_timeout(after_stop(c)) == c.in_flight,
{
    let s = after_stop(c);
    if c.in_flight > 0 {
        draining_ends_stopped(s, c.in_flight);
    }
}

proof fn draining_ends_stopped(c: ConsumerView, k: nat)
    requires
        c.state == ConsumerState::Stopping,
        c.in_flight == k,
        k > 0,
    ensures
        after_dispatch_ends(c, k).state == ConsumerState::Stopped,
    decreases k,
{
    let next = after_dispatch_end(c);
    if k > 1 {
        draining_ends_stopped(next, (k - 1) as nat);
    } else {
        assert(after_dispatch_ends(next, 0) == next);
    }
}

/// Every message of a batch fetched while running is dispatched at once,
/// and the next tick fetches again without waiting for any of them.
pub proof fn batch_dispatched_at_once(c: ConsumerView, n: nat)
    requires
        c.state == ConsumerState::Running,
    ensures
        batch_dispatches(c, n) == n,
        tick_action(after_batch(c, n)) == TickAction::Fetch,
{
}

/// Two empty batches in a row start no dispatch and change nothing.
pub proof fn empty_batches_change_nothing(c: ConsumerView)
    ensures
        batch_dispatches(c, 0) == 0,
        batch_dispatches(after_batch(c, 0), 0) == 0,
        after_batch(after_batch(c, 0), 0) == c,
{
}

/// The end of a dispatch, whatever its outcome, leaves a running consumer
/// running: the next tick fetches again.
pub proof fn dispatch_end_keeps_polling(c: ConsumerView)
    requires
        c.state == ConsumerState::Running,
    ensures
        after_dispatch_end(c).state == ConsumerState::Running,
        tick_action(after_dispatch_end(c)) == TickAction::Fetch,
{
}

} // verus!
