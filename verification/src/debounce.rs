use vstd::prelude::*;

verus! {

/// Trailing-edge debounce policy: raw events arriving within the window of
/// one another coalesce into one batch, and the batch closes — emitting one
/// change signal — only once the window has elapsed with no further event.
///
/// This is the policy the repository watcher's backend applies to raw
/// filesystem events before the forwarder sees them; it is stated here over
/// an explicit clock so that the coalescing guarantees can be proved.
#[derive(Clone, Copy, Debug, PartialEq, Eq)]
pub struct DebounceWindow {
    /// Quiet period, in the caller's clock units, required after the last
    /// raw event before the coalesced batch is delivered.
    pub window: u64,
    /// Whether raw events are waiting in the open batch.
    pub pending: bool,
    /// Arrival time of the most recent raw event.
    pub last_event: u64,
}

impl DebounceWindow {
    pub fn new(window: u64) -> (r: Self)
        ensures
            r.window == window,
            !r.pending,
            r.last_event == 0,
    {
        DebounceWindow { window, pending: false, last_event: 0 }
    }

    /// State after a raw event at time `now`: the batch is (re)opened and
    /// the quiet period restarts.
    pub open spec fn on_event_spec(self, now: u64) -> Self {
        DebounceWindow { pending: true, last_event: now, ..self }
    }

    /// A raw event arrived at time `now` (the clock is monotonic).
    pub fn on_event(&mut self, now: u64)
        requires
            now >= old(self).last_event,
        ensures
            *final(self) == old(self).on_event_spec(now),
    {
        self.pending = true;
        self.last_event = now;
    }

    /// Whether a poll at time `now` closes the open batch: events are
    /// waiting and the window has elapsed with none arriving.
    pub open spec fn fires(self, now: u64) -> bool {
        self.pending && now >= self.last_event + self.window
    }

    pub open spec fn poll_spec(self, now: u64) -> Self {
        if self.fires(now) {
            DebounceWindow { pending: false, ..self }
        } else {
            self
        }
    }

    /// Poll at time `now`; the result says whether to emit one change
    /// signal for the batch that just closed.
    pub fn poll(&mut self, now: u64) -> (emit: bool)
        requires
            now >= old(self).last_event,
        ensures
            emit == old(self).fires(now),
            *final(self) == old(self).poll_spec(now),
    {
        if self.pending && now - self.last_event >= self.window {
            self.pending = false;
            true
        } else {
            false
        }
    }

    /// Close the batch unconditionally: enough quiet time has passed (used
    /// once no further raw event can arrive).
    pub fn flush(&mut self) -> (emit: bool)
        ensures
            emit == old(self).pending,
            *final(self) == (DebounceWindow { pending: false, ..*old(self) }),
    {
        let was_pending = self.pending;
        self.pending = false;
        was_pending
    }
}

/// How many change signals a trailing-edge debounce with the given window
/// emits for a whole run of raw events at the given (sorted) times: one for
/// the first event, and one more each time an event follows its predecessor
/// by the full window or more.
pub open spec fn signal_count(events: Seq<u64>, window: u64) -> nat
    decreases events.len(),
{
    if events.len() == 0 {
        0
    } else if events.len() == 1 {
        1
    } else {
        signal_count(events.drop_last(), window) + if events[events.len() - 1]
            >= events[events.len() - 2] + window {
            1nat
        } else {
            0nat
        }
    }
}

/// Run the debounce over a full trace of raw-event times, polling just
/// before each arrival and once after the last, and count the signals.
pub fn count_signals(events: &Vec<u64>, window: u64) -> (n: usize)
    requires
        forall|i: int, j: int| 0 <= i <= j < events@.len() ==> events@[i] <= events@[j],
    ensures
        n == signal_count(events@, window),
{
    let mut d = DebounceWindow::new(window);
    let mut n: usize = 0;
    let mut i: usize = 0;
    while i < events.len()
        invariant
            i <= events@.len(),
            forall|k: int, l: int| 0 <= k <= l < events@.len() ==> events@[k] <= events@[l],
            d.window == window,
            n <= i,
            if i == 0 {
                !d.pending && d.last_event == 0 && n == 0
            } else {
                d.pending && n < i && d.last_event == events@[i - 1] && n + 1 == signal_count(
                    events@.take(i as int),
                    window,
                )
            },
        decreases events@.len() - i,
    {
        let t = events[i];
        if d.poll(t) {
            n = n + 1;
        }
        d.on_event(t);
        proof {
            let pre = events@.take(i as int);
            let cur = events@.take(i + 1 as int);
            assert(cur.drop_last() =~= pre);
            assert(cur[cur.len() - 1] == events@[i as int]);
        }
        i = i + 1;
    }
    if d.flush() {
        n = n + 1;
    }
    proof {
        assert(events@.take(events@.len() as int) =~= events@);
    }
    n
}

/// Coalescing, first half: raw events that each follow their predecessor by
/// less than the window — a burst — yield exactly one signal, however many
/// they are.
pub proof fn lemma_burst_coalesces(events: Seq<u64>, window: u64)
    requires
        events.len() >= 1,
        forall|i: int| 0 < i < events.len() ==> #[trigger] events[i] < events[i - 1] + window,
    ensures
        signal_count(events, window) == 1,
    decreases events.len(),
{
    if events.len() > 1 {
        lemma_burst_coalesces(events.drop_last(), window);
    }
}

/// Coalescing, second half: raw events that each follow their predecessor
/// by the window or more yield one signal per event.
pub proof fn lemma_separated_events_all_signal(events: Seq<u64>, window: u64)
    requires
        forall|i: int| 0 < i < events.len() ==> #[trigger] events[i] >= events[i - 1] + window,
    ensures
        signal_count(events, window) == events.len(),
    decreases events.len(),
{
    if events.len() > 1 {
        lemma_separated_events_all_signal(events.drop_last(), window);
    }
}

} // verus!
