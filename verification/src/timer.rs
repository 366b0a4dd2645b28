//! Timed callbacks of a window
//!
//! A window keeps a list of the callbacks that are due at some instant.
//! Instants and durations are counts of clock ticks. The event loop sleeps
//! until [`Timeouts::next_resume`]; when it wakes at an instant it asks for
//! each callback that is [`Timeouts::due`], triggers it, reads the clock and
//! reports back with [`Timeouts::fired`].

use vstd::prelude::*;

verus! {

/// A callback that is due at an instant.
#[derive(Clone, Copy, Debug, PartialEq, Eq, Structural)]
pub struct Timeout {
    /// Number of the callback
    pub callback: usize,
    /// The instant at which the callback is due
    pub at: u64,
    /// The period of a callback that repeats
    pub repeat: Option<u64>,
}

/// The first instant after `now` among `at`, `at + period`, `at + 2 * period`
/// and so on.
pub open spec fn advanced(at: int, period: int, now: int) -> int
    recommends
        period > 0,
{
    if at > now {
        at
    } else {
        at + ((now - at) / period + 1) * period
    }
}

/// The instant [`advanced`], or the last instant of the clock where the
/// clock does not reach that far.
pub open spec fn rescheduled(at: u64, period: u64, now: u64) -> u64 {
    if advanced(at as int, period as int, now as int) <= u64::MAX {
        advanced(at as int, period as int, now as int) as u64
    } else {
        u64::MAX
    }
}

/// The list after the callback at `position` was triggered and the clock
/// read `now`: a callback that repeats is due again after `now`, one that
/// does not has left the list.
pub open spec fn after_firing(list: Seq<Timeout>, position: int, now: u64) -> Seq<Timeout>
    recommends
        0 <= position < list.len(),
{
    match list[position].repeat {
        Some(period) => list.update(
            position,
            Timeout {
                callback: list[position].callback,
                at: rescheduled(list[position].at, period, now),
                repeat: Some(period),
            },
        ),
        None => list.remove(position),
    }
}

/// `m` is the earliest instant at which a callback of `list` is due.
pub open spec fn is_earliest(list: Seq<Timeout>, m: u64) -> bool {
    &&& exists|i: int| 0 <= i < list.len() && (#[trigger] list[i]).at == m
    &&& forall|i: int| 0 <= i < list.len() ==> m <= (#[trigger] list[i]).at
}

/// The timed callbacks of a window, in the order in which they were added.
pub struct Timeouts {
    list: Vec<Timeout>,
}

impl View for Timeouts {
    type V = Seq<Timeout>;

    closed spec fn view(&self) -> Seq<Timeout> {
        self.list@
    }
}

impl Timeouts {
    /// No callback repeats with a period of zero.
    pub open spec fn wf(&self) -> bool {
        forall|i: int| 0 <= i < self@.len() ==> (#[trigger] self@[i]).repeat != Some(0u64)
    }

    /// An empty list.
    pub fn new() -> (t: Self)
        ensures
            t@ == Seq::<Timeout>::empty(),
            t.wf(),
    {
        Timeouts { list: Vec::new() }
    }

    /// The number of callbacks in the list.
    pub fn len(&self) -> (n: usize)
        ensures
            n == self@.len(),
    {
        self.list.len()
    }

    /// The callback at `position`.
    pub fn get(&self, position: usize) -> (t: Timeout)
        requires
            position < self@.len(),
        ensures
            t == self@[position as int],
    {
        self.list[position]
    }

    /// Adds a callback to the end of the list.
    pub fn add(&mut self, timeout: Timeout)
        requires
            old(self).wf(),
            timeout.repeat != Some(0u64),
        ensures
            final(self).wf(),
            final(self)@ == old(self)@.push(timeout),
    {
        self.list.push(timeout);
    }

    /// The instant at which the event loop is to wake next: the earliest
    /// at which a callback is due. `None` where the list is empty.
    pub fn next_resume(&self) -> (next: Option<u64>)
        ensures
            self@.len() == 0 <==> next is None,
            next matches Some(m) ==> is_earliest(self@, m),
    {
        let mut next: Option<u64> = None;
        let n: usize = self.list.len();
        let mut i: usize = 0;
        while i < n
            invariant
                n == self.list@.len(),
                i <= n,
                i == 0 <==> next is None,
                next matches Some(m) ==> is_earliest(self.list@.subrange(0, i as int), m),
            decreases n - i,
        {
            let t: u64 = self.list[i].at;
            let ghost head = self.list@.subrange(0, i as int);
            let ghost longer = self.list@.subrange(0, i + 1);
            assert(longer[i as int].at == t);
            assert(forall|j: int| 0 <= j < i ==> longer[j] == head[j]);
            next = match next {
                None => Some(t),
                Some(m) => {
                    let ghost w = choose|w: int| 0 <= w < head.len() && (#[trigger] head[w]).at == m;
                    assert(longer[w].at == m);
                    if t < m {
                        Some(t)
                    } else {
                        Some(m)
                    }
                },
            };
            i = i + 1;
        }
        assert(self.list@.subrange(0, n as int) =~= self.list@);
        next
    }

    /// The position of the first callback, at `from` or after it, that is due
    /// at `instant`. `None` where there is none.
    pub fn due(&self, instant: u64, from: usize) -> (position: Option<usize>)
        ensures
            position matches Some(p) ==> from <= p < self@.len() && self@[p as int].at == instant
                && forall|j: int| from <= j < p ==> (#[trigger] self@[j]).at != instant,
            position is None ==> forall|j: int|
                from <= j < self@.len() ==> (#[trigger] self@[j]).at != instant,
    {
        let n: usize = self.list.len();
        let mut i: usize = from;
        while i < n
            invariant
                n == self.list@.len(),
                from <= i,
                forall|j: int| from <= j < i && j < n ==> (#[trigger] self.list@[j]).at != instant,
            decreases n - i,
        {
            if self.list[i].at == instant {
                return Some(i);
            }
            i = i + 1;
        }
        None
    }

    /// Takes note that the callback at `position` was triggered and that
    /// the clock then read `now`. A callback that repeats is put off, period
    /// by period, until it is due after `now`; one that does not is taken
    /// off the list. Returns the position from which to look for the next
    /// callback that is due.
    pub fn fired(&mut self, position: usize, now: u64) -> (next: usize)
        requires
            old(self).wf(),
            position < old(self)@.len(),
        ensures
            final(self).wf(),
            final(self)@ == after_firing(old(self)@, position as int, now),
            next == if old(self)@[position as int].repeat is Some {
                position + 1
            } else {
                position as int
            },
    {
        let n: usize = self.list.len();
        let t = self.list[position];
        match t.repeat {
            Some(period) => {
                let at = reschedule(t.at, period, now);
                self.list[position] = Timeout { callback: t.callback, at, repeat: Some(period) };
                position + 1
            },
            None => {
                self.list.remove(position);
                position
            },
        }
    }
}

/// Puts an instant off, period by period, until it lies after `now`.
pub fn reschedule(at: u64, period: u64, now: u64) -> (next: u64)
    requires
        period > 0,
    ensures
        next == rescheduled(at, period, now),
{
    if at > now {
        at
    } else {
        let steps: u128 = ((now - at) / period) as u128 + 1;
        assert(steps * period <= (now - at) + period) by (nonlinear_arith)
            requires
                period > 0,
                now - at >= 0,
                steps == (now - at) / (period as int) + 1,
        ;
        let next: u128 = at as u128 + steps * (period as u128);
        if next <= 0xffff_ffff_ffff_ffff {
            next as u64
        } else {
            u64::MAX
        }
    }
}

/// The instant to which a callback is put off lies after `now`, and no
/// earlier instant of its period does.
pub proof fn lemma_advanced_is_first_after(at: int, period: int, now: int, k: int)
    requires
        period > 0,
        at <= now,
        k >= 0,
    ensures
        advanced(at, period, now) > now,
        advanced(at, period, now) - period <= now,
        at + k * period > now ==> at + k * period >= advanced(at, period, now),
{
    let q = (now - at) / period;
    assert(q * period <= now - at < (q + 1) * period) by (nonlinear_arith)
        requires
            period > 0,
            q == (now - at) / period,
            now - at >= 0,
    ;
    assert((q + 1) * period - period == q * period) by (nonlinear_arith);
    if at + k * period > now {
        assert(k >= q + 1) by (nonlinear_arith)
            requires
                k * period > now - at,
                q * period <= now - at,
                period > 0,
                k >= 0,
                q >= 0,
        ;
        assert(k * period >= (q + 1) * period) by (nonlinear_arith)
            requires
                k >= q + 1,
                period > 0,
        ;
    }
}

} // verus!
