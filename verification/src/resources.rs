//! The state of a session that belongs to no single entity: the score, the
//! list of finished sessions, and the timers that pace new arrivals.

use vstd::prelude::*;

verus! {

/// Stars collected in the running session.
#[derive(Clone, Copy, Debug, PartialEq, Eq, Structural)]
pub struct Score {
    pub value: u32,
}

impl Score {
    /// The score at the start of a session.
    pub fn new() -> (r: Score)
        ensures
            r.value == 0,
    {
        Score { value: 0 }
    }

    /// The score after one more star; it stays at `u32::MAX` once there.
    pub open spec fn incremented(self) -> Score {
        Score { value: if self.value < u32::MAX { (self.value + 1) as u32 } else { self.value } }
    }

    /// Counts one more star.
    pub fn increment(&mut self)
        ensures
            *final(self) == old(self).incremented(),
            final(self).value >= old(self).value,
    {
        self.value = self.value.saturating_add(1);
    }
}

/// The finished sessions, oldest first: who played and what they scored.
/// Entries are only ever appended.
pub struct HighScore {
    scores: Vec<(String, u32)>,
}

/// A list of entries as names spelled out and scores.
pub open spec fn spelled(entries: Seq<(String, u32)>) -> Seq<(Seq<char>, u32)> {
    entries.map_values(|entry: (String, u32)| (entry.0@, entry.1))
}

impl View for HighScore {
    type V = Seq<(Seq<char>, u32)>;

    closed spec fn view(&self) -> Seq<(Seq<char>, u32)> {
        spelled(self.scores@)
    }
}

impl HighScore {
    /// An empty list.
    pub fn new() -> (r: HighScore)
        ensures
            r@ == Seq::<(Seq<char>, u32)>::empty(),
    {
        let r = HighScore { scores: Vec::new() };
        assert(r@ =~= Seq::<(Seq<char>, u32)>::empty());
        r
    }

    /// The entries, oldest first.
    pub fn entries(&self) -> (r: &Vec<(String, u32)>)
        ensures
            spelled(r@) == self@,
    {
        &self.scores
    }

    /// Appends one finished session.
    pub fn record(&mut self, name: String, score: u32)
        ensures
            final(self)@ == old(self)@.push((name@, score)),
    {
        self.scores.push((name, score));
        assert(self@ =~= old(self)@.push((name@, score)));
    }
}

/// A repeating timer. It gathers the time that passes; a tick that brings the
/// gathered time up to the interval finishes it for that tick and keeps only
/// what went beyond a whole number of intervals.
#[derive(Clone, Copy, Debug, PartialEq, Eq, Structural)]
pub struct SpawnTimer {
    elapsed: u64,
    interval: u64,
    finished: bool,
}

/// What a [`SpawnTimer`] holds, in nanoseconds.
pub struct TimerState {
    pub elapsed: nat,
    pub interval: nat,
    pub finished: bool,
}

impl View for SpawnTimer {
    type V = TimerState;

    closed spec fn view(&self) -> TimerState {
        TimerState {
            elapsed: self.elapsed as nat,
            interval: self.interval as nat,
            finished: self.finished,
        }
    }
}

impl TimerState {
    /// The state after `delta` more nanoseconds. With an interval of zero
    /// every tick finishes the timer and nothing is gathered.
    pub open spec fn ticked(self, delta: nat) -> TimerState {
        TimerState {
            elapsed: if self.interval == 0 {
                0
            } else {
                (self.elapsed + delta) % self.interval
            },
            interval: self.interval,
            finished: self.elapsed + delta >= self.interval,
        }
    }
}

/// After a tick a timer with an interval has gathered less than its interval.
pub proof fn lemma_ticked_below_interval(state: TimerState, delta: nat)
    requires
        state.interval > 0,
    ensures
        state.ticked(delta).elapsed < state.interval,
{
}

/// Two ticks gather what one tick of their joint length gathers.
pub proof fn lemma_ticks_add_up(state: TimerState, first: nat, second: nat)
    ensures
        state.ticked(first).ticked(second).elapsed == state.ticked(first + second).elapsed,
        state.ticked(first).ticked(second).interval == state.interval,
{
    if state.interval > 0 {
        vstd::arithmetic::div_mod::lemma_add_mod_noop(
            (state.elapsed + first) as int,
            second as int,
            state.interval as int,
        );
        vstd::arithmetic::div_mod::lemma_small_mod(second % state.interval, state.interval);
        vstd::arithmetic::div_mod::lemma_add_mod_noop(
            ((state.elapsed + first) % state.interval) as int,
            second as int,
            state.interval as int,
        );
        vstd::arithmetic::div_mod::lemma_small_mod(
            (state.elapsed + first) % state.interval,
            state.interval,
        );
    }
}

impl SpawnTimer {
    /// A timer that has gathered nothing and finishes every `interval`
    /// nanoseconds.
    pub fn new(interval: u64) -> (r: SpawnTimer)
        ensures
            r@ == (TimerState { elapsed: 0, interval: interval as nat, finished: false }),
    {
        SpawnTimer { elapsed: 0, interval, finished: false }
    }

    /// Lets `delta` nanoseconds pass.
    pub fn tick(&mut self, delta: u64)
        ensures
            final(self)@ == old(self)@.ticked(delta as nat),
    {
        let total: u128 = self.elapsed as u128 + delta as u128;
        self.finished = total >= self.interval as u128;
        if self.interval == 0 {
            self.elapsed = 0;
        } else {
            self.elapsed = (total % (self.interval as u128)) as u64;
        }
    }

    /// Whether the last tick finished the timer.
    pub fn finished(&self) -> (r: bool)
        ensures
            r == self@.finished,
    {
        self.finished
    }

    /// The time gathered since the timer last finished, in nanoseconds.
    pub fn elapsed(&self) -> (r: u64)
        ensures
            r == self@.elapsed,
    {
        self.elapsed
    }

    /// The interval, in nanoseconds.
    pub fn interval(&self) -> (r: u64)
        ensures
            r == self@.interval,
    {
        self.interval
    }
}

/// Paces the arrival of stars.
#[derive(Clone, Copy, Debug, PartialEq, Eq, Structural)]
pub struct StarSpawnTimer {
    pub timer: SpawnTimer,
}

/// Paces the arrival of enemies.
#[derive(Clone, Copy, Debug, PartialEq, Eq, Structural)]
pub struct EnemySpawnTimer {
    pub timer: SpawnTimer,
}

} // verus!
