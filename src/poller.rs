//! The block poller: follows the endpoint's reported height and walks every new
//! block once, in order, keeping the block-height gauge.
use vstd::prelude::*;

verus! {

/// Where the poller stands.
#[derive(Clone, Copy, Debug, PartialEq, Eq, Structural)]
pub enum PollState {
    /// No usable height has been reported yet.
    AwaitingFirstHeight,
    /// Up to date with this height.
    Watching(u64),
    /// Blocks after the first height up to the second are still to be fetched.
    CatchingUp(u64, u64),
}

/// What the loop tells the poller.
#[derive(Clone, Copy, Debug, PartialEq, Eq, Structural)]
pub enum PollEvent {
    /// A height query returned this height.
    Height(u64),
    /// A height query failed.
    HeightFailed,
    /// The fetch of the block at this height succeeded (`true`) or failed.
    Block(u64, bool),
}

/// What a height report meant.
#[derive(Clone, Copy, Debug, PartialEq, Eq, Structural)]
pub enum HeightReport {
    /// Zero before any height: still waiting.
    NoHeight,
    /// The first height; the gauge now holds it.
    First(u64),
    /// The height being watched, again.
    Unchanged,
    /// Lower than the height being watched, which is kept.
    Regressed(u64),
    /// Higher than the height being watched by this many blocks; a catch-up starts.
    NewBlocks(u64),
    /// A catch-up is under way; the report is not used.
    Busy,
}

/// Abstract state of the poller: its position and the gauge it exports.
pub struct PollerView {
    pub state: PollState,
    pub gauge: u64,
}

impl PollerView {
    /// The gauge never runs ahead of the cursor, and a catch-up has work left.
    pub open spec fn wf(self) -> bool {
        match self.state {
            PollState::AwaitingFirstHeight => self.gauge == 0,
            PollState::Watching(h) => self.gauge <= h,
            PollState::CatchingUp(c, t) => self.gauge <= c && c < t,
        }
    }

    /// The last height that has been dealt with (0 before the first height).
    pub open spec fn cursor(self) -> u64 {
        match self.state {
            PollState::AwaitingFirstHeight => 0,
            PollState::Watching(h) => h,
            PollState::CatchingUp(c, _t) => c,
        }
    }
}

pub open spec fn initial_poller() -> PollerView {
    PollerView { state: PollState::AwaitingFirstHeight, gauge: 0 }
}

/// A height report. Zero is no height; a lower or equal height is ignored; a
/// higher one starts a catch-up. During a catch-up reports are ignored.
pub open spec fn height_step(s: PollerView, h: u64) -> PollerView {
    match s.state {
        PollState::AwaitingFirstHeight => if h > 0 {
            PollerView { state: PollState::Watching(h), gauge: h }
        } else {
            s
        },
        PollState::Watching(c) => if h > c {
            PollerView { state: PollState::CatchingUp(c, h), gauge: s.gauge }
        } else {
            s
        },
        PollState::CatchingUp(_c, _t) => s,
    }
}

pub open spec fn height_report(s: PollerView, h: u64) -> HeightReport {
    match s.state {
        PollState::AwaitingFirstHeight => if h > 0 {
            HeightReport::First(h)
        } else {
            HeightReport::NoHeight
        },
        PollState::Watching(c) => if h == c {
            HeightReport::Unchanged
        } else if h < c {
            HeightReport::Regressed(c)
        } else {
            HeightReport::NewBlocks((h - c) as u64)
        },
        PollState::CatchingUp(_c, _t) => HeightReport::Busy,
    }
}

/// The result of fetching the block at `height`. Only the next height of a
/// catch-up is taken; the cursor passes it whether or not the fetch succeeded, and
/// the gauge moves to it only on success.
pub open spec fn block_step(s: PollerView, height: u64, fetched: bool) -> PollerView {
    match s.state {
        PollState::CatchingUp(c, t) => if height == c + 1 {
            PollerView {
                state: if height == t {
                    PollState::Watching(t)
                } else {
                    PollState::CatchingUp(height, t)
                },
                gauge: if fetched { height } else { s.gauge },
            }
        } else {
            s
        },
        _ => s,
    }
}

pub open spec fn event_step(s: PollerView, e: PollEvent) -> PollerView {
    match e {
        PollEvent::Height(h) => height_step(s, h),
        PollEvent::HeightFailed => s,
        PollEvent::Block(h, ok) => block_step(s, h, ok),
    }
}

/// The block to fetch next, if a catch-up is under way.
pub open spec fn next_block_of(s: PollerView) -> Option<u64> {
    match s.state {
        PollState::CatchingUp(c, _t) => Some((c + 1) as u64),
        _ => None,
    }
}

/// Applies events in order.
pub open spec fn run_events(s: PollerView, es: Seq<PollEvent>) -> PollerView
    decreases es.len(),
{
    if es.len() == 0 {
        s
    } else {
        run_events(event_step(s, es[0]), es.drop_first())
    }
}

/// The events of a catch-up that walks heights `from + 1 ..` with the given fetch results.
pub open spec fn walk_events(from: u64, results: Seq<bool>) -> Seq<PollEvent> {
    Seq::new(results.len(), |i: int| PollEvent::Block((from + 1 + i) as u64, results[i]))
}

/// The loop state of the block poller.
pub struct Poller {
    state: PollState,
    gauge: u64,
}

impl View for Poller {
    type V = PollerView;

    closed spec fn view(&self) -> PollerView {
        PollerView { state: self.state, gauge: self.gauge }
    }
}

impl Poller {
    /// A poller that has seen no height yet.
    pub fn new() -> (r: Poller)
        ensures
            r@ == initial_poller(),
            r@.wf(),
    {
        Poller { state: PollState::AwaitingFirstHeight, gauge: 0 }
    }

    pub fn state(&self) -> (r: PollState)
        ensures
            r == self@.state,
    {
        self.state
    }

    /// The value of the block-height gauge.
    pub fn gauge(&self) -> (r: u64)
        ensures
            r == self@.gauge,
    {
        self.gauge
    }

    /// Whether the loop should query the height (rather than fetch a block).
    pub fn wants_height(&self) -> (r: bool)
        ensures
            r == (next_block_of(self@) is None),
    {
        match self.state {
            PollState::CatchingUp(_c, _t) => false,
            _ => true,
        }
    }

    /// The block to fetch next, if a catch-up is under way.
    pub fn next_block(&self) -> (r: Option<u64>)
        requires
            self@.wf(),
        ensures
            r == next_block_of(self@),
    {
        match self.state {
            PollState::CatchingUp(c, _t) => Some(c + 1),
            _ => None,
        }
    }

    /// Takes in a reported height and says what it meant.
    pub fn on_height(&mut self, h: u64) -> (r: HeightReport)
        requires
            old(self)@.wf(),
        ensures
            r == height_report(old(self)@, h),
            final(self)@ == height_step(old(self)@, h),
            final(self)@.wf(),
            final(self)@.gauge >= old(self)@.gauge,
            final(self)@.cursor() >= old(self)@.cursor(),
    {
        match self.state {
            PollState::AwaitingFirstHeight => {
                if h > 0 {
                    self.state = PollState::Watching(h);
                    self.gauge = h;
                    HeightReport::First(h)
                } else {
                    HeightReport::NoHeight
                }
            },
            PollState::Watching(c) => {
                if h == c {
                    HeightReport::Unchanged
                } else if h < c {
                    HeightReport::Regressed(c)
                } else {
                    self.state = PollState::CatchingUp(c, h);
                    HeightReport::NewBlocks(h - c)
                }
            },
            PollState::CatchingUp(_c, _t) => HeightReport::Busy,
        }
    }

    /// Takes in the result of fetching the block at `height`.
    pub fn on_block(&mut self, height: u64, fetched: bool)
        requires
            old(self)@.wf(),
        ensures
            final(self)@ == block_step(old(self)@, height, fetched),
            final(self)@.wf(),
            final(self)@.gauge >= old(self)@.gauge,
            final(self)@.cursor() >= old(self)@.cursor(),
    {
        match self.state {
            PollState::CatchingUp(c, t) => {
                if height == c + 1 {
                    self.state = if height == t {
                        PollState::Watching(t)
                    } else {
                        PollState::CatchingUp(height, t)
                    };
                    if fetched {
                        self.gauge = height;
                    }
                }
            },
            _ => {},
        }
    }

    /// Takes in one event of the loop.
    pub fn handle(&mut self, e: PollEvent)
        requires
            old(self)@.wf(),
        ensures
            final(self)@ == event_step(old(self)@, e),
            final(self)@.wf(),
    {
        match e {
            PollEvent::Height(h) => {
                self.on_height(h);
            },
            PollEvent::HeightFailed => {},
            PollEvent::Block(h, ok) => self.on_block(h, ok),
        }
    }
}

proof fn lemma_event_step(s: PollerView, e: PollEvent)
    requires
        s.wf(),
    ensures
        event_step(s, e).wf(),
        event_step(s, e).gauge >= s.gauge,
        event_step(s, e).cursor() >= s.cursor(),
{
}

/// Whatever heights the endpoint reports, in whatever order, and whatever block
/// fetches fail, the block-height gauge never decreases.
pub proof fn lemma_gauge_never_decreases(s: PollerView, es: Seq<PollEvent>)
    requires
        s.wf(),
    ensures
        run_events(s, es).wf(),
        run_events(s, es).gauge >= s.gauge,
    decreases es.len(),
{
    if es.len() > 0 {
        lemma_event_step(s, es[0]);
        lemma_gauge_never_decreases(event_step(s, es[0]), es.drop_first());
    }
}

/// The polling cursor never decreases, even when the endpoint reports a lower height.
pub proof fn lemma_cursor_never_decreases(s: PollerView, es: Seq<PollEvent>)
    requires
        s.wf(),
    ensures
        run_events(s, es).cursor() >= s.cursor(),
    decreases es.len(),
{
    if es.len() > 0 {
        lemma_event_step(s, es[0]);
        lemma_cursor_never_decreases(event_step(s, es[0]), es.drop_first());
    }
}

/// A report at or below the current height changes nothing: no block is to be
/// fetched and the gauge keeps its value.
pub proof fn lemma_stale_height_ignored(s: PollerView, h: u64)
    requires
        s.wf(),
        s.state is Watching,
        h <= s.cursor(),
    ensures
        height_step(s, h) == s,
        next_block_of(height_step(s, h)) is None,
{
}

proof fn lemma_run_push(s: PollerView, a: Seq<PollEvent>, e: PollEvent)
    ensures
        run_events(s, a.push(e)) == event_step(run_events(s, a), e),
    decreases a.len(),
{
    if a.len() == 0 {
        assert(a.push(e).drop_first() =~= Seq::<PollEvent>::empty());
        assert(a.push(e)[0] == e);
        assert(run_events(event_step(s, e), Seq::<PollEvent>::empty()) == event_step(s, e));
    } else {
        assert(a.push(e).drop_first() =~= a.drop_first().push(e));
        assert(a.push(e)[0] == a[0]);
        lemma_run_push(event_step(s, a[0]), a.drop_first(), e);
    }
}

proof fn lemma_walk_prefix(s: PollerView, c: u64, t: u64, results: Seq<bool>, k: nat)
    requires
        s.wf(),
        s.state == PollState::CatchingUp(c, t),
        results.len() == t - c,
        k <= results.len(),
    ensures
        run_events(s, walk_events(c, results).take(k as int)).state == if k == results.len() {
            PollState::Watching(t)
        } else {
            PollState::CatchingUp((c + k) as u64, t)
        },
        run_events(s, walk_events(c, results).take(k as int)).wf(),
        k > 0 && results[k - 1] ==> run_events(s, walk_events(c, results).take(k as int)).gauge
            == c + k,
    decreases k,
{
    let w = walk_events(c, results);
    if k == 0 {
        assert(w.take(0) =~= Seq::<PollEvent>::empty());
    } else {
        lemma_walk_prefix(s, c, t, results, (k - 1) as nat);
        assert(w.take(k as int) =~= w.take(k - 1).push(w[k - 1]));
        lemma_run_push(s, w.take(k - 1), w[k - 1]);
        lemma_event_step(run_events(s, w.take(k - 1)), w[k - 1]);
    }
}

/// A catch-up from `c` to `t` that is handed the result of each block it asks for
/// asks for the heights `c + 1 ..= t` once each, in order, whichever fetches fail,
/// and then watches `t`; when the last fetch succeeded the gauge holds `t`.
pub proof fn lemma_catch_up_walks_every_height(
    s: PollerView,
    c: u64,
    t: u64,
    results: Seq<bool>,
)
    requires
        s.wf(),
        s.state == PollState::CatchingUp(c, t),
        results.len() == t - c,
    ensures
        forall|i: int|
            0 <= i < results.len() ==> #[trigger] next_block_of(
                run_events(s, walk_events(c, results).take(i)),
            ) == Some((c + 1 + i) as u64),
        run_events(s, walk_events(c, results)).state == PollState::Watching(t),
        results.last() ==> run_events(s, walk_events(c, results)).gauge == t,
{
    let w = walk_events(c, results);
    assert forall|i: int| 0 <= i < results.len() implies #[trigger] next_block_of(
        run_events(s, w.take(i)),
    ) == Some((c + 1 + i) as u64) by {
        lemma_walk_prefix(s, c, t, results, i as nat);
    }
    lemma_walk_prefix(s, c, t, results, results.len());
    assert(w.take(results.len() as int) =~= w);
}

} // verus!
