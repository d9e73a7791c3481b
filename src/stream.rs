//! A bounded periodic emitter of server-push frames.
//!
//! The emitter is a state machine driven by its consumer: each pull passes
//! the current time, and the emitter either hands out the next frame, asks
//! the consumer to wait, or reports that the stream is over. It keeps no
//! timer of its own, so a consumer that stops pulling simply drops it.

use vstd::prelude::*;
use vstd::string::*;
use crate::text::{decimal, push_decimal};

verus! {

/// How many frames one stream produces.
pub const STREAM_LEN: u64 = 10;

/// The time between two frames of a stream opened by [`open_stream`], in
/// milliseconds.
pub const PERIOD_MS: u64 = 1000;

/// The frame that carries sequence number `n`: a server-push record whose
/// `data` field is the decimal number, ended by a blank line.
pub open spec fn frame(n: nat) -> Seq<char> {
    "data: "@ + decimal(n) + "\n\n"@
}

/// The frames numbered `from + 1` through `to`, in order.
pub open spec fn frames_between(from: nat, to: nat) -> Seq<Seq<char>> {
    Seq::new((to - from) as nat, |i: int| frame((from + i + 1) as nat))
}

/// The abstract state of an emitter.
pub ghost struct EmitterView {
    /// The number of the last frame handed out; 0 before the first.
    pub sequence_number: nat,
    /// How many frames are still to come.
    pub remaining_ticks: nat,
    /// The least time between two frames.
    pub period: nat,
    /// The earliest time at which the next frame may be handed out.
    pub next_due: nat,
}

impl EmitterView {
    pub open spec fn wf(self) -> bool {
        &&& self.sequence_number + self.remaining_ticks == STREAM_LEN
        &&& self.period <= u64::MAX
        &&& self.next_due <= u64::MAX
    }

    /// A pull at time `now` hands out a frame.
    pub open spec fn is_due(self, now: int) -> bool {
        self.remaining_ticks > 0 && now >= self.next_due
    }

    /// The state after a frame is handed out at time `now`: the next one is
    /// due a full period later (at the end of time, if that lies beyond it).
    pub open spec fn after_emit(self, now: int) -> EmitterView {
        EmitterView {
            sequence_number: self.sequence_number + 1,
            remaining_ticks: (self.remaining_ticks - 1) as nat,
            period: self.period,
            next_due: if now + self.period <= u64::MAX {
                (now + self.period) as nat
            } else {
                u64::MAX as nat
            },
        }
    }

    /// One pull at time `now`: the next state, and the frame handed out, if
    /// any.
    pub open spec fn step(self, now: int) -> (EmitterView, Option<Seq<char>>) {
        if self.is_due(now) {
            (self.after_emit(now), Some(frame(self.sequence_number + 1)))
        } else {
            (self, None)
        }
    }
}

/// Pulls at each of `times` in turn: the final state, and the frames handed
/// out, in order.
pub open spec fn run(s: EmitterView, times: Seq<u64>) -> (EmitterView, Seq<Seq<char>>)
    decreases times.len(),
{
    if times.len() == 0 {
        (s, Seq::empty())
    } else {
        let (before, out) = run(s, times.drop_last());
        let (after, chunk) = before.step(times.last() as int);
        match chunk {
            Some(c) => (after, out.push(c)),
            None => (after, out),
        }
    }
}

/// The state of a stream opened at time `start` by [`open_stream`].
pub open spec fn opened_at(start: nat) -> EmitterView {
    EmitterView {
        sequence_number: 0,
        remaining_ticks: STREAM_LEN as nat,
        period: PERIOD_MS as nat,
        next_due: start,
    }
}

/// The outcome of one pull.
#[derive(Debug, Clone, PartialEq, Eq)]
pub enum Pull {
    /// The next frame is not due yet; try again later.
    Pending,
    /// The next frame.
    Chunk(String),
    /// All frames have been handed out: the stream ended normally.
    Exhausted,
}

/// The state of one stream, owned by its single consumer.
#[derive(Debug)]
pub struct EmitterState {
    sequence_number: u64,
    remaining_ticks: u64,
    period: u64,
    next_due: u64,
}

impl View for EmitterState {
    type V = EmitterView;

    closed spec fn view(&self) -> EmitterView {
        EmitterView {
            sequence_number: self.sequence_number as nat,
            remaining_ticks: self.remaining_ticks as nat,
            period: self.period as nat,
            next_due: self.next_due as nat,
        }
    }
}

/// Renders the frame that carries sequence number `n`.
pub fn render_frame(n: u64) -> (r: String)
    ensures
        r@ == frame(n as nat),
{
    let mut s = String::from_str("data: ");
    push_decimal(&mut s, n);
    s.append("\n\n");
    s
}

impl EmitterState {
    /// A stream whose first frame is due at `start` and whose frames come at
    /// least `period` apart.
    pub fn new(start: u64, period: u64) -> (r: EmitterState)
        ensures
            r@ == (EmitterView {
                sequence_number: 0,
                remaining_ticks: STREAM_LEN as nat,
                period: period as nat,
                next_due: start as nat,
            }),
            r@.wf(),
    {
        EmitterState { sequence_number: 0, remaining_ticks: STREAM_LEN, period, next_due: start }
    }

    pub fn sequence_number(&self) -> (r: u64)
        ensures
            r == self@.sequence_number,
    {
        self.sequence_number
    }

    pub fn remaining_ticks(&self) -> (r: u64)
        ensures
            r == self@.remaining_ticks,
    {
        self.remaining_ticks
    }

    pub fn period(&self) -> (r: u64)
        ensures
            r == self@.period,
    {
        self.period
    }

    /// The earliest time at which the next frame may be handed out.
    pub fn next_due(&self) -> (r: u64)
        ensures
            r == self@.next_due,
    {
        self.next_due
    }

    pub fn is_exhausted(&self) -> (r: bool)
        ensures
            r == (self@.remaining_ticks == 0),
    {
        self.remaining_ticks == 0
    }

    /// One pull at time `now`. If the stream is not over and the next frame
    /// is due, it is handed out and the one after falls due a period later;
    /// otherwise nothing changes.
    pub fn poll(&mut self, now: u64) -> (r: Pull)
        requires
            old(self)@.wf(),
        ensures
            final(self)@ == old(self)@.step(now as int).0,
            final(self)@.wf(),
            r is Exhausted <==> old(self)@.remaining_ticks == 0,
            r is Pending <==> (old(self)@.remaining_ticks > 0 && !old(self)@.is_due(now as int)),
            r matches Pull::Chunk(c) ==> old(self)@.step(now as int).1 == Some(c@),
    {
        if self.remaining_ticks == 0 {
            return Pull::Exhausted;
        }
        if now < self.next_due {
            return Pull::Pending;
        }
        self.sequence_number = self.sequence_number + 1;
        self.remaining_ticks = self.remaining_ticks - 1;
        self.next_due = now.saturating_add(self.period);
        Pull::Chunk(render_frame(self.sequence_number))
    }
}

/// Opens a stream at time `start` (in milliseconds): ten frames, the first
/// due at once, each next one a second after the one before.
pub fn open_stream(start: u64) -> (r: EmitterState)
    ensures
        r@ == opened_at(start as nat),
        r@.wf(),
{
    EmitterState::new(start, PERIOD_MS)
}

/// Frames come out strictly in order, numbered on from where the stream
/// stood, none repeated or skipped, and never more than the stream holds.
pub proof fn lemma_frames_in_order(s: EmitterView, times: Seq<u64>)
    requires
        s.wf(),
    ensures
        run(s, times).0.wf(),
        s.sequence_number <= run(s, times).0.sequence_number <= STREAM_LEN,
        run(s, times).1 == frames_between(s.sequence_number, run(s, times).0.sequence_number),
    decreases times.len(),
{
    if times.len() > 0 {
        lemma_frames_in_order(s, times.drop_last());
        let (before, out) = run(s, times.drop_last());
        let (after, chunk) = before.step(times.last() as int);
        if chunk is Some {
            assert(out.push(frame(before.sequence_number + 1)) =~= frames_between(
                s.sequence_number,
                after.sequence_number,
            ));
        }
    }
}

/// Once the last frame has been handed out, pulls hand out nothing and
/// leave the state as it is.
pub proof fn lemma_silent_when_exhausted(s: EmitterView, times: Seq<u64>)
    requires
        s.wf(),
        s.remaining_ticks == 0,
    ensures
        run(s, times) == (s, Seq::<Seq<char>>::empty()),
    decreases times.len(),
{
    if times.len() > 0 {
        lemma_silent_when_exhausted(s, times.drop_last());
    }
}

/// After a frame is handed out at time `t`, a pull less than a period later
/// hands out nothing; a pull a full period later hands out exactly the next
/// frame, and a second pull at that same time nothing more.
pub proof fn lemma_period_gating(s: EmitterView, t: int, d: int)
    requires
        s.wf(),
        s.is_due(t),
        0 <= d,
        t + 2 * s.period <= u64::MAX,
    ensures
        d < s.period ==> s.after_emit(t).step(t + d) == (s.after_emit(t), None::<Seq<char>>),
        s.after_emit(t).remaining_ticks > 0 ==> s.after_emit(t).step(t + s.period).1 == Some(
            frame(s.sequence_number + 2),
        ),
        s.period > 0 ==> s.after_emit(t).step(t + s.period).0.step(t + s.period).1 is None,
{
}

/// The state and output after the first `n` pulls of a schedule on which
/// every pull comes at least a period after the one before.
proof fn lemma_schedule_prefix(start: u64, times: Seq<u64>, n: nat)
    requires
        n <= times.len(),
        times.len() > 0 ==> start <= times[0],
        forall|i: int|
            0 <= i < STREAM_LEN - 1 && i + 1 < times.len() ==> times[i] + PERIOD_MS <= #[trigger] times[i
                + 1],
    ensures
        run(opened_at(start as nat), times.take(n as int)).0.wf(),
        run(opened_at(start as nat), times.take(n as int)).0.period == PERIOD_MS,
        n <= STREAM_LEN ==> run(opened_at(start as nat), times.take(n as int)).0.sequence_number == n,
        n >= STREAM_LEN ==> run(opened_at(start as nat), times.take(n as int)).0.remaining_ticks == 0,
        1 <= n < STREAM_LEN && n < times.len() ==> run(opened_at(start as nat), times.take(n as int)).0.next_due
            == times[n - 1] + PERIOD_MS,
        n == 0 ==> run(opened_at(start as nat), times.take(n as int)).0.next_due == start,
        run(opened_at(start as nat), times.take(n as int)).1 == frames_between(
            0,
            if n <= STREAM_LEN {
                n
            } else {
                STREAM_LEN as nat
            },
        ),
    decreases n,
{
    let s0 = opened_at(start as nat);
    if n == 0 {
        assert(times.take(0) =~= Seq::<u64>::empty());
        assert(frames_between(0, 0) =~= Seq::<Seq<char>>::empty());
    } else {
        lemma_schedule_prefix(start, times, (n - 1) as nat);
        assert(times.take(n as int).drop_last() =~= times.take(n - 1));
        let (before, out) = run(s0, times.take(n - 1));
        let t = times[n - 1];
        assert(times.take(n as int).last() == t);
        if n <= STREAM_LEN {
            if n >= 2 {
                assert(times[n - 2] + PERIOD_MS <= times[(n - 2) + 1]);
            }
            assert(before.is_due(t as int));
            if n < STREAM_LEN && n < times.len() {
                assert(times[(n - 1) + 1] >= t + PERIOD_MS);
            }
            assert(out.push(frame(n)) =~= frames_between(0, n));
            assert(run(s0, times.take(n as int)) == (before.after_emit(t as int), out.push(frame(n))));
        } else {
            assert(!before.is_due(t as int));
        }
    }
}

/// Pulled on a schedule on which the first pull comes no earlier than the
/// stream's start and each of the first ten at least a period after the one
/// before, a stream opened by [`open_stream`] hands out exactly the frames
/// numbered 1 through 10, in order, and nothing after them.
pub proof fn lemma_open_stream_yields_all(start: u64, times: Seq<u64>)
    requires
        times.len() >= STREAM_LEN,
        start <= times[0],
        forall|i: int| 0 <= i < STREAM_LEN - 1 ==> times[i] + PERIOD_MS <= #[trigger] times[i + 1],
    ensures
        run(opened_at(start as nat), times).1 == frames_between(0, STREAM_LEN as nat),
        run(opened_at(start as nat), times).0.remaining_ticks == 0,
{
    lemma_schedule_prefix(start, times, times.len());
    assert(times.take(times.len() as int) =~= times);
}

} // verus!
