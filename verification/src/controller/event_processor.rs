//! Button-event processing: groups the press/release edges of each button, orders
//! them by time, pairs each press with the release that follows it, and keeps
//! buttons that are still held pending across processing cycles.

use vstd::prelude::*;
use vstd::string::*;

use super::event_collector::{
    button_at, button_index, lemma_button_index_roundtrip, ButtonState, ButtonType, BUTTON_COUNT,
};

verus! {

/// Whether a reported button is still held or has been released.
#[derive(Clone, Copy, Debug, PartialEq, Eq, Structural)]
pub enum ButtonEventState {
    Held,
    Complete,
}

/// A processed button event: which button, how long it has been (or was) held in
/// milliseconds, and whether it is still held.
#[derive(Clone, Copy, Debug, PartialEq, Eq, Structural)]
pub struct ButtonEvent {
    pub button: ButtonType,
    pub duration_ms: i64,
    pub state: ButtonEventState,
}

/// A raw button edge as collected from the gamepad, stamped with the time it
/// was seen in nanoseconds since the Unix epoch.
#[derive(Clone, Copy, Debug, PartialEq, Eq, Structural)]
pub struct RawButtonEvent {
    pub button_type: ButtonType,
    pub button_state: ButtonState,
    pub timestamp_ns: i64,
}

/// Processor configuration.
#[derive(Clone, Copy, Debug, PartialEq, Eq, Structural)]
pub struct ProcessorSettings {
    pub processing_interval_ms: u64,
    pub button_press_threshold_ms: u32,
}

impl Default for ProcessorSettings {
    fn default() -> (s: Self)
        ensures
            s.processing_interval_ms == 130,
            s.button_press_threshold_ms == 30,
    {
        ProcessorSettings { processing_interval_ms: 130, button_press_threshold_ms: 30 }
    }
}

/// Errors of the processing stage.
#[derive(Clone, Debug, PartialEq, Eq)]
pub enum ProcessorError {
    InitializationError(String),
    EventReceiveError(String),
    EventProcessingError(String),
    StateUpdateError(String),
}

/// Stages of a processing cycle.
#[derive(Clone, Copy, Debug, PartialEq, Eq, Structural)]
pub enum ProcessingState {
    /// Gathering the events queued since the last cycle.
    Waiting,
    /// Turning the gathered events into a controller state.
    Processing,
    /// Handing the controller state on.
    Updating,
}

/// Where a processing cycle stands.
pub struct EventCycle {
    state: ProcessingState,
}

impl EventCycle {
    /// Stage of the cycle.
    pub closed spec fn spec_state(&self) -> ProcessingState {
        self.state
    }

    /// A cycle waiting for events.
    pub fn new() -> (c: EventCycle)
        ensures
            c.spec_state() == ProcessingState::Waiting,
    {
        EventCycle { state: ProcessingState::Waiting }
    }

    /// Stage of the cycle.
    pub fn state(&self) -> (s: ProcessingState)
        ensures
            s == self.spec_state(),
    {
        self.state
    }

    /// The queue was read: with the event channel gone the processor stops with a
    /// receive error; otherwise the gathered events are processed.
    pub fn collected(&mut self, channel_disconnected: bool) -> (r: Result<(), ProcessorError>)
        requires
            old(self).spec_state() == ProcessingState::Waiting,
        ensures
            channel_disconnected ==> (r matches Err(ProcessorError::EventReceiveError(m))
                && m@ == "Event channel disconnected"@) && final(self).spec_state() == ProcessingState::Waiting,
            !channel_disconnected ==> r is Ok && final(self).spec_state() == ProcessingState::Processing,
    {
        if channel_disconnected {
            return Err(ProcessorError::EventReceiveError(String::from_str("Event channel disconnected")));
        }
        self.state = ProcessingState::Processing;
        Ok(())
    }

    /// The controller state was computed and is to be handed on.
    pub fn processed(&mut self)
        requires
            old(self).spec_state() == ProcessingState::Processing,
        ensures
            final(self).spec_state() == ProcessingState::Updating,
    {
        self.state = ProcessingState::Updating;
    }

    /// The controller state was handed on, or failed to be (`send_error` describes
    /// the failure): on success the cycle waits again; on failure the processor
    /// stops with a state update error.
    pub fn updated(&mut self, send_error: Option<&str>) -> (r: Result<(), ProcessorError>)
        requires
            old(self).spec_state() == ProcessingState::Updating,
        ensures
            match send_error {
                None => r is Ok && final(self).spec_state() == ProcessingState::Waiting,
                Some(e) => (r matches Err(ProcessorError::StateUpdateError(m))
                    && m@ == "Failed to send state update: "@ + e@)
                    && final(self).spec_state() == ProcessingState::Updating,
            },
    {
        match send_error {
            None => {
                self.state = ProcessingState::Waiting;
                Ok(())
            },
            Some(e) => {
                let mut m = String::from_str("Failed to send state update: ");
                m.append(e);
                Err(ProcessorError::StateUpdateError(m))
            },
        }
    }
}

/// Whole milliseconds between two instants given in nanoseconds, truncated toward zero.
pub open spec fn elapsed_ms(from_ns: int, to_ns: int) -> int {
    let d = to_ns - from_ns;
    if d >= 0 {
        d / 1_000_000
    } else {
        -((-d) / 1_000_000)
    }
}

/// Whole milliseconds between two instants given in nanoseconds, truncated toward zero.
pub fn elapsed_between(from_ns: i64, to_ns: i64) -> (ms: i64)
    ensures
        ms as int == elapsed_ms(from_ns as int, to_ns as int),
{
    let d: i128 = to_ns as i128 - from_ns as i128;
    if d >= 0 {
        let q: i128 = d / 1_000_000;
        assert(q <= d);
        q as i64
    } else {
        let nd: i128 = -d;
        let q: i128 = nd / 1_000_000;
        assert(q <= nd);
        (-q) as i64
    }
}

/// A button edge: its direction and timestamp in nanoseconds.
pub type Edge = (ButtonState, i64);

/// The edges of button `b` among `events`, in arrival order.
pub open spec fn events_of(events: Seq<RawButtonEvent>, b: ButtonType) -> Seq<Edge>
    decreases events.len(),
{
    if events.len() == 0 {
        Seq::empty()
    } else {
        let rest = events_of(events.drop_last(), b);
        let e = events.last();
        if e.button_type == b {
            rest.push((e.button_state, e.timestamp_ns))
        } else {
            rest
        }
    }
}

/// The edges of button `b` for one cycle: a press still pending from an earlier
/// cycle comes first, then the new edges of `b` in arrival order.
pub open spec fn edges_of(pending: Option<i64>, events: Seq<RawButtonEvent>, b: ButtonType) -> Seq<Edge> {
    let prior = match pending {
        Some(t) => seq![(ButtonState::Pressed, t)],
        None => Seq::empty(),
    };
    prior + events_of(events, b)
}

/// Position at which an edge with timestamp `t` is placed into `s`:
/// after every edge whose timestamp is not later than `t`.
pub open spec fn insert_pos(s: Seq<Edge>, t: i64) -> int
    decreases s.len(),
{
    if s.len() == 0 {
        0
    } else if s[0].1 > t {
        0
    } else {
        1 + insert_pos(s.drop_first(), t)
    }
}

/// Stable ordering of edges by timestamp: each edge goes after all earlier edges
/// whose timestamp is not later than its own.
pub open spec fn sort_by_time(s: Seq<Edge>) -> Seq<Edge>
    decreases s.len(),
{
    if s.len() == 0 {
        s
    } else {
        let sorted = sort_by_time(s.drop_last());
        sorted.insert(insert_pos(sorted, s.last().1), s.last())
    }
}

/// Events reported for button `b` from its time-ordered edges: a press directly
/// followed by a release is a completed press lasting from press to release; a
/// press not followed by a release is held, lasting from press until `now_ns`;
/// a release without a press before it is skipped.
pub open spec fn pair_edges(s: Seq<Edge>, b: ButtonType, now_ns: i64) -> Seq<ButtonEvent>
    decreases s.len(),
{
    if s.len() == 0 {
        Seq::empty()
    } else if s[0].0 == ButtonState::Pressed {
        if s.len() >= 2 && s[1].0 == ButtonState::Released {
            seq![ButtonEvent {
                button: b,
                duration_ms: elapsed_ms(s[0].1 as int, s[1].1 as int) as i64,
                state: ButtonEventState::Complete,
            }] + pair_edges(s.subrange(2, s.len() as int), b, now_ns)
        } else {
            seq![ButtonEvent {
                button: b,
                duration_ms: elapsed_ms(s[0].1 as int, now_ns as int) as i64,
                state: ButtonEventState::Held,
            }] + pair_edges(s.subrange(1, s.len() as int), b, now_ns)
        }
    } else {
        pair_edges(s.subrange(1, s.len() as int), b, now_ns)
    }
}

/// The press time of the last held press among time-ordered edges, if any.
pub open spec fn last_held(s: Seq<Edge>) -> Option<i64>
    decreases s.len(),
{
    if s.len() == 0 {
        None
    } else if s[0].0 == ButtonState::Pressed {
        if s.len() >= 2 && s[1].0 == ButtonState::Released {
            last_held(s.subrange(2, s.len() as int))
        } else {
            match last_held(s.subrange(1, s.len() as int)) {
                Some(t) => Some(t),
                None => Some(s[0].1),
            }
        }
    } else {
        last_held(s.subrange(1, s.len() as int))
    }
}

/// Time-ordered edges of the button at position `k` for one cycle.
pub open spec fn button_edges(pending: Seq<Option<i64>>, events: Seq<RawButtonEvent>, k: int) -> Seq<Edge> {
    sort_by_time(edges_of(pending[k], events, button_at(k)))
}

/// Events reported for the buttons at positions below `k`, button by button.
pub open spec fn outputs_upto(
    pending: Seq<Option<i64>>,
    events: Seq<RawButtonEvent>,
    now_ns: i64,
    k: nat,
) -> Seq<ButtonEvent>
    decreases k,
{
    if k == 0 {
        Seq::empty()
    } else {
        outputs_upto(pending, events, now_ns, (k - 1) as nat) + pair_edges(
            button_edges(pending, events, k - 1),
            button_at(k - 1),
            now_ns,
        )
    }
}

/// Events reported by one processing cycle.
pub open spec fn cycle_output(
    pending: Seq<Option<i64>>,
    events: Seq<RawButtonEvent>,
    now_ns: i64,
) -> Seq<ButtonEvent> {
    outputs_upto(pending, events, now_ns, BUTTON_COUNT as nat)
}

/// Presses still pending after one processing cycle, by button position.
pub open spec fn cycle_pending(pending: Seq<Option<i64>>, events: Seq<RawButtonEvent>) -> Seq<Option<i64>> {
    Seq::new(BUTTON_COUNT as nat, |k: int| last_held(button_edges(pending, events, k)))
}

proof fn lemma_insert_pos_found(s: Seq<Edge>, t: i64, j: int)
    requires
        0 <= j <= s.len(),
        forall|k: int| 0 <= k < j ==> s[k].1 <= t,
        j < s.len() ==> s[j].1 > t,
    ensures
        insert_pos(s, t) == j,
    decreases s.len(),
{
    if s.len() > 0 && j > 0 {
        let r = s.drop_first();
        assert forall|k: int| 0 <= k < j - 1 implies r[k].1 <= t by {
            assert(r[k] == s[k + 1]);
        }
        if j - 1 < r.len() {
            assert(r[j - 1] == s[j]);
        }
        lemma_insert_pos_found(r, t, j - 1);
    }
}

/// Orders edges by timestamp, keeping edges with equal timestamps in their order.
fn sort_edges(edges: &Vec<Edge>) -> (out: Vec<Edge>)
    ensures
        out@ == sort_by_time(edges@),
{
    let mut out: Vec<Edge> = Vec::new();
    let n = edges.len();
    assert(edges@.take(0) =~= Seq::<Edge>::empty());
    for i in 0..n
        invariant
            n == edges@.len(),
            out@ == sort_by_time(edges@.take(i as int)),
    {
        let x = edges[i];
        let mut j: usize = 0;
        while j < out.len() && out[j].1 <= x.1
            invariant
                j <= out@.len(),
                forall|k: int| 0 <= k < j ==> out@[k].1 <= x.1,
            decreases out@.len() - j,
        {
            j = j + 1;
        }
        proof {
            lemma_insert_pos_found(out@, x.1, j as int);
            assert(edges@.take(i + 1).drop_last() =~= edges@.take(i as int));
            assert(edges@.take(i + 1).last() == x);
        }
        out.insert(j, x);
    }
    assert(edges@.take(n as int) =~= edges@);
    out
}

/// Pairs the time-ordered edges of one button into reported events, and returns
/// the press time of the last press still held.
fn pair_button_edges(s: &Vec<Edge>, b: ButtonType, now_ns: i64) -> (res: (Vec<ButtonEvent>, Option<i64>))
    ensures
        res.0@ == pair_edges(s@, b, now_ns),
        res.1 == last_held(s@),
{
    let n = s.len();
    let mut out: Vec<ButtonEvent> = Vec::new();
    let mut last: Option<i64> = None;
    let mut i: usize = 0;
    assert(s@.subrange(0, n as int) =~= s@);
    while i < n
        invariant
            n == s@.len(),
            i <= n,
            out@ + pair_edges(s@.subrange(i as int, n as int), b, now_ns) == pair_edges(s@, b, now_ns),
            (match last_held(s@.subrange(i as int, n as int)) {
                Some(t) => Some(t),
                None => last,
            }) == last_held(s@),
        decreases n - i,
    {
        let ghost rest = s@.subrange(i as int, n as int);
        let e = s[i];
        if e.0 == ButtonState::Pressed {
            if i + 1 < n && s[i + 1].0 == ButtonState::Released {
                let d = elapsed_between(e.1, s[i + 1].1);
                let ev = ButtonEvent { button: b, duration_ms: d, state: ButtonEventState::Complete };
                proof {
                    assert(rest[0] == e);
                    assert(rest[1] == s@[i + 1]);
                    assert(rest.subrange(2, rest.len() as int) =~= s@.subrange(i + 2, n as int));
                    assert(out@.push(ev) + pair_edges(s@.subrange(i + 2, n as int), b, now_ns)
                        =~= out@ + pair_edges(rest, b, now_ns));
                }
                out.push(ev);
                i = i + 2;
            } else {
                let d = elapsed_between(e.1, now_ns);
                let ev = ButtonEvent { button: b, duration_ms: d, state: ButtonEventState::Held };
                proof {
                    assert(rest[0] == e);
                    if i + 1 < n {
                        assert(rest[1] == s@[i + 1]);
                    }
                    assert(rest.subrange(1, rest.len() as int) =~= s@.subrange(i + 1, n as int));
                    assert(out@.push(ev) + pair_edges(s@.subrange(i + 1, n as int), b, now_ns)
                        =~= out@ + pair_edges(rest, b, now_ns));
                }
                out.push(ev);
                last = Some(e.1);
                i = i + 1;
            }
        } else {
            proof {
                assert(rest[0] == e);
                assert(rest.subrange(1, rest.len() as int) =~= s@.subrange(i + 1, n as int));
            }
            i = i + 1;
        }
    }
    (out, last)
}

/// Edges are in time order.
pub open spec fn time_ordered(s: Seq<Edge>) -> bool {
    forall|i: int, j: int| 0 <= i < j < s.len() ==> s[i].1 <= s[j].1
}

proof fn lemma_insert_pos_bounds(s: Seq<Edge>, t: i64)
    ensures
        0 <= insert_pos(s, t) <= s.len(),
        forall|k: int| 0 <= k < insert_pos(s, t) ==> s[k].1 <= t,
        insert_pos(s, t) < s.len() ==> s[insert_pos(s, t)].1 > t,
    decreases s.len(),
{
    if s.len() > 0 && s[0].1 <= t {
        let r = s.drop_first();
        lemma_insert_pos_bounds(r, t);
        assert forall|k: int| 0 <= k < insert_pos(s, t) implies s[k].1 <= t by {
            if k > 0 {
                assert(s[k] == r[k - 1]);
            }
        }
        if insert_pos(s, t) < s.len() {
            assert(s[insert_pos(s, t)] == r[insert_pos(r, t)]);
        }
    }
}

/// Ordering edges by time yields edges in time order, holding exactly the same edges.
pub proof fn lemma_sort_by_time(s: Seq<Edge>)
    ensures
        time_ordered(sort_by_time(s)),
        sort_by_time(s).to_multiset() =~= s.to_multiset(),
        sort_by_time(s).len() == s.len(),
    decreases s.len(),
{
    broadcast use vstd::seq_lib::group_seq_properties;
    if s.len() > 0 {
        let sorted = sort_by_time(s.drop_last());
        lemma_sort_by_time(s.drop_last());
        let x = s.last();
        let p = insert_pos(sorted, x.1);
        lemma_insert_pos_bounds(sorted, x.1);
        let r = sorted.insert(p, x);
        assert forall|i: int, j: int| 0 <= i < j < r.len() implies r[i].1 <= r[j].1 by {
            if j < p {
                assert(r[i] == sorted[i] && r[j] == sorted[j]);
            } else if j == p {
                assert(r[i] == sorted[i]);
            } else if i < p {
                assert(r[i] == sorted[i] && r[j] == sorted[j - 1]);
                assert(sorted[i].1 <= sorted[p].1);
            } else if i == p {
                assert(r[j] == sorted[j - 1]);
                assert(sorted[p].1 <= sorted[j - 1].1);
            } else {
                assert(r[i] == sorted[i - 1] && r[j] == sorted[j - 1]);
            }
        }
        vstd::seq_lib::to_multiset_insert(sorted, p, x);
        assert(s =~= s.drop_last().push(x));
        vstd::seq_lib::to_multiset_build(s.drop_last(), x);
    }
}

proof fn lemma_one_edge(x: Edge)
    ensures
        sort_by_time(seq![x]) == seq![x],
{
    let one = seq![x];
    assert(one.drop_last() =~= Seq::<Edge>::empty());
    assert(sort_by_time(Seq::<Edge>::empty()) == Seq::<Edge>::empty());
    assert(insert_pos(Seq::<Edge>::empty(), x.1) == 0);
    assert(Seq::<Edge>::empty().insert(0, x) =~= one);
}

proof fn lemma_two_edges(t: i64, r: i64, first: ButtonState, second: ButtonState)
    requires
        t <= r,
    ensures
        sort_by_time(seq![(first, t), (second, r)]) == seq![(first, t), (second, r)],
{
    let s = seq![(first, t), (second, r)];
    let one = seq![(first, t)];
    assert(s.drop_last() =~= one);
    lemma_one_edge((first, t));
    assert(one.drop_first() =~= Seq::<Edge>::empty());
    assert(insert_pos(Seq::<Edge>::empty(), r) == 0);
    assert(insert_pos(one, r) == 1);
    assert(one.insert(1, (second, r)) =~= s);
}

/// A press still pending from an earlier cycle, followed in this cycle by a release
/// of the same button at a time not before the press, and by no other edge of that
/// button, is reported as one completed press lasting from the original press to the
/// release; the button is no longer pending afterwards.
pub proof fn law_pending_press_completes(
    pending: Seq<Option<i64>>,
    events: Seq<RawButtonEvent>,
    b: ButtonType,
    t: i64,
    r: i64,
    now_ns: i64,
)
    requires
        pending.len() == BUTTON_COUNT,
        pending[button_index(b)] == Some(t),
        events_of(events, b) == seq![(ButtonState::Released, r)],
        t <= r,
    ensures
        pair_edges(button_edges(pending, events, button_index(b)), b, now_ns) == seq![ButtonEvent {
            button: b,
            duration_ms: elapsed_ms(t as int, r as int) as i64,
            state: ButtonEventState::Complete,
        }],
        cycle_pending(pending, events)[button_index(b)] is None,
{
    lemma_button_index_roundtrip(b);
    let k = button_index(b);
    let e = edges_of(pending[k], events, b);
    assert(e =~= seq![(ButtonState::Pressed, t), (ButtonState::Released, r)]);
    lemma_two_edges(t, r, ButtonState::Pressed, ButtonState::Released);
    let s = button_edges(pending, events, k);
    assert(s == seq![(ButtonState::Pressed, t), (ButtonState::Released, r)]);
    assert(s[0] == (ButtonState::Pressed, t) && s[1] == (ButtonState::Released, r));
    assert(s.subrange(2, 2) =~= Seq::<Edge>::empty());
    assert(pair_edges(s.subrange(2, 2), b, now_ns) == Seq::<ButtonEvent>::empty());
    assert(last_held(s.subrange(2, 2)) is None);
    assert(pair_edges(s, b, now_ns) =~= seq![ButtonEvent {
        button: b,
        duration_ms: elapsed_ms(t as int, r as int) as i64,
        state: ButtonEventState::Complete,
    }]);
}

/// With nothing pending for a button, a press and a later release of it in the same
/// cycle, and no other edge of it, are reported as one completed press lasting from
/// press to release; nothing stays pending for it.
pub proof fn law_press_release_completes(
    pending: Seq<Option<i64>>,
    events: Seq<RawButtonEvent>,
    b: ButtonType,
    t: i64,
    r: i64,
    now_ns: i64,
)
    requires
        pending.len() == BUTTON_COUNT,
        pending[button_index(b)] is None,
        events_of(events, b) == seq![(ButtonState::Pressed, t), (ButtonState::Released, r)],
        t <= r,
    ensures
        pair_edges(button_edges(pending, events, button_index(b)), b, now_ns) == seq![ButtonEvent {
            button: b,
            duration_ms: elapsed_ms(t as int, r as int) as i64,
            state: ButtonEventState::Complete,
        }],
        cycle_pending(pending, events)[button_index(b)] is None,
{
    lemma_button_index_roundtrip(b);
    let k = button_index(b);
    let e = edges_of(pending[k], events, b);
    assert(e =~= seq![(ButtonState::Pressed, t), (ButtonState::Released, r)]);
    lemma_two_edges(t, r, ButtonState::Pressed, ButtonState::Released);
    let s = button_edges(pending, events, k);
    assert(s == seq![(ButtonState::Pressed, t), (ButtonState::Released, r)]);
    assert(s[0] == (ButtonState::Pressed, t) && s[1] == (ButtonState::Released, r));
    assert(s.subrange(2, 2) =~= Seq::<Edge>::empty());
    assert(pair_edges(s.subrange(2, 2), b, now_ns) == Seq::<ButtonEvent>::empty());
    assert(last_held(s.subrange(2, 2)) is None);
    assert(pair_edges(s, b, now_ns) =~= seq![ButtonEvent {
        button: b,
        duration_ms: elapsed_ms(t as int, r as int) as i64,
        state: ButtonEventState::Complete,
    }]);
}

/// A press with no release after it is reported as held, lasting from the press until
/// the current time, and stays pending with its original press time.
pub proof fn law_unreleased_press_is_held(
    pending: Seq<Option<i64>>,
    events: Seq<RawButtonEvent>,
    b: ButtonType,
    t: i64,
    now_ns: i64,
)
    requires
        pending.len() == BUTTON_COUNT,
        pending[button_index(b)] is None,
        events_of(events, b) == seq![(ButtonState::Pressed, t)],
    ensures
        pair_edges(button_edges(pending, events, button_index(b)), b, now_ns) == seq![ButtonEvent {
            button: b,
            duration_ms: elapsed_ms(t as int, now_ns as int) as i64,
            state: ButtonEventState::Held,
        }],
        cycle_pending(pending, events)[button_index(b)] == Some(t),
{
    lemma_button_index_roundtrip(b);
    let k = button_index(b);
    let e = edges_of(pending[k], events, b);
    assert(e =~= seq![(ButtonState::Pressed, t)]);
    lemma_one_edge((ButtonState::Pressed, t));
    let s = button_edges(pending, events, k);
    assert(s =~= seq![(ButtonState::Pressed, t)]);
    assert(s[0] == (ButtonState::Pressed, t));
    assert(s.subrange(1, 1) =~= Seq::<Edge>::empty());
    assert(pair_edges(s.subrange(1, 1), b, now_ns) == Seq::<ButtonEvent>::empty());
    assert(last_held(s.subrange(1, 1)) is None);
    assert(pair_edges(s, b, now_ns) =~= seq![ButtonEvent {
        button: b,
        duration_ms: elapsed_ms(t as int, now_ns as int) as i64,
        state: ButtonEventState::Held,
    }]);
}

proof fn lemma_idle_upto(pending: Seq<Option<i64>>, events: Seq<RawButtonEvent>, now_ns: i64, k: nat)
    requires
        pending.len() == BUTTON_COUNT,
        events.len() == 0,
        k <= BUTTON_COUNT,
        forall|j: int| 0 <= j < BUTTON_COUNT ==> pending[j] is None,
    ensures
        outputs_upto(pending, events, now_ns, k) == Seq::<ButtonEvent>::empty(),
    decreases k,
{
    if k > 0 {
        lemma_idle_upto(pending, events, now_ns, (k - 1) as nat);
        let j = k - 1;
        let e = edges_of(pending[j], events, button_at(j));
        assert(e =~= Seq::<Edge>::empty());
        assert(button_edges(pending, events, j) =~= Seq::<Edge>::empty());
    }
}

/// A cycle with no new edges and no pending press reports no button events and
/// leaves nothing pending.
pub proof fn law_idle_cycle(pending: Seq<Option<i64>>, events: Seq<RawButtonEvent>, now_ns: i64)
    requires
        pending.len() == BUTTON_COUNT,
        events.len() == 0,
        forall|j: int| 0 <= j < BUTTON_COUNT ==> pending[j] is None,
    ensures
        cycle_output(pending, events, now_ns) == Seq::<ButtonEvent>::empty(),
        forall|j: int| 0 <= j < BUTTON_COUNT ==> (#[trigger] cycle_pending(pending, events)[j]) is None,
{
    lemma_idle_upto(pending, events, now_ns, BUTTON_COUNT as nat);
    assert forall|j: int| 0 <= j < BUTTON_COUNT implies (#[trigger] cycle_pending(pending, events)[j]) is None by {
        let e = edges_of(pending[j], events, button_at(j));
        assert(e =~= Seq::<Edge>::empty());
        assert(button_edges(pending, events, j) =~= Seq::<Edge>::empty());
    }
}

/// Tracks, across processing cycles, the presses of buttons that have not been
/// released yet.
pub struct ButtonTracker {
    pending: Vec<Option<i64>>,
}

impl View for ButtonTracker {
    /// Pending press time of each button, by button position.
    type V = Seq<Option<i64>>;

    closed spec fn view(&self) -> Seq<Option<i64>> {
        self.pending@
    }
}

impl ButtonTracker {
    #[verifier::type_invariant]
    spec fn inv(self) -> bool {
        self.pending@.len() == BUTTON_COUNT
    }

    /// A tracker with no pending presses.
    pub fn new() -> (t: ButtonTracker)
        ensures
            t@ == Seq::new(BUTTON_COUNT as nat, |k: int| None::<i64>),
    {
        let mut pending: Vec<Option<i64>> = Vec::new();
        for i in 0..BUTTON_COUNT
            invariant
                pending@ == Seq::new(i as nat, |k: int| None::<i64>),
        {
            pending.push(None);
            assert(pending@ =~= Seq::new((i + 1) as nat, |k: int| None::<i64>));
        }
        ButtonTracker { pending }
    }

    /// Pending press time of `button`, if it is still held.
    pub fn pending_press(&self, button: ButtonType) -> (t: Option<i64>)
        ensures
            t == self@[button_index(button)],
    {
        proof {
            use_type_invariant(self);
        }
        self.pending[button.index()]
    }

    /// Whether any press is pending.
    pub fn has_pending(&self) -> (b: bool)
        ensures
            b == exists|k: int| 0 <= k < self@.len() && self@[k] is Some,
    {
        proof {
            use_type_invariant(self);
        }
        let mut i: usize = 0;
        while i < self.pending.len()
            invariant
                i <= self.pending@.len(),
                forall|k: int| 0 <= k < i ==> self.pending@[k] is None,
            decreases self.pending@.len() - i,
        {
            if self.pending[i].is_some() {
                return true;
            }
            i = i + 1;
        }
        false
    }

    /// Runs one processing cycle over the raw button edges collected since the last
    /// cycle, with `now_ns` as the current time. Returns the reported button events,
    /// button by button in declaration order, and keeps the presses still held.
    pub fn process_button_events_at(&mut self, events: &Vec<RawButtonEvent>, now_ns: i64) -> (out: Vec<ButtonEvent>)
        ensures
            out@ == cycle_output(old(self)@, events@, now_ns),
            final(self)@ == cycle_pending(old(self)@, events@),
    {
        proof {
            use_type_invariant(&*self);
        }
        let ghost old_pending = self.pending@;
        let mut out: Vec<ButtonEvent> = Vec::new();
        let mut new_pending: Vec<Option<i64>> = Vec::new();
        let mut k: usize = 0;
        while k < BUTTON_COUNT
            invariant
                k <= BUTTON_COUNT,
                old_pending.len() == BUTTON_COUNT,
                self.pending@ == old_pending,
                out@ == outputs_upto(old_pending, events@, now_ns, k as nat),
                new_pending@.len() == k,
                forall|j: int| 0 <= j < k ==> new_pending@[j] == last_held(button_edges(old_pending, events@, j)),
            decreases BUTTON_COUNT - k,
        {
            let b = ButtonType::from_index(k);
            let mut edges: Vec<Edge> = Vec::new();
            match self.pending[k] {
                Some(t) => edges.push((ButtonState::Pressed, t)),
                None => {},
            }
            let ghost prior = edges@;
            assert(events@.take(0) =~= Seq::<RawButtonEvent>::empty());
            for i in 0..events.len()
                invariant
                    edges@ == prior + events_of(events@.take(i as int), b),
            {
                let e = events[i];
                proof {
                    assert(events@.take(i + 1).drop_last() =~= events@.take(i as int));
                    assert(events@.take(i + 1).last() == e);
                }
                if e.button_type == b {
                    edges.push((e.button_state, e.timestamp_ns));
                    assert(edges@ =~= prior + events_of(events@.take(i + 1), b));
                }
            }
            assert(events@.take(events@.len() as int) =~= events@);
            assert(edges@ =~= edges_of(old_pending[k as int], events@, b));
            let sorted = sort_edges(&edges);
            let (evs, last) = pair_button_edges(&sorted, b, now_ns);
            out.extend_from_slice(evs.as_slice());
            new_pending.push(last);
            k = k + 1;
        }
        proof {
            assert(new_pending@ =~= cycle_pending(old_pending, events@));
        }
        self.pending = new_pending;
        out
    }

    /// Runs one processing cycle over the raw button edges collected since the last
    /// cycle, measuring held presses up to the current local time.
    pub fn process_button_events(&mut self, events: &Vec<RawButtonEvent>) -> (out: Vec<ButtonEvent>)
        ensures
            exists|now_ns: i64| out@ == cycle_output(old(self)@, events@, now_ns),
            final(self)@ == cycle_pending(old(self)@, events@),
    {
        let now_ns = match crate::clock::local_now() {
            Some((t, _)) => t,
            None => i64::MAX,
        };
        self.process_button_events_at(events, now_ns)
    }
}


/// Number of press edges among `s`.
pub open spec fn press_count(s: Seq<Edge>) -> nat
    decreases s.len(),
{
    if s.len() == 0 {
        0
    } else {
        (if s[0].0 == ButtonState::Pressed { 1nat } else { 0nat }) + press_count(s.drop_first())
    }
}

/// Number of press edges among `s` that are directly followed by a release edge.
pub open spec fn released_press_count(s: Seq<Edge>) -> nat
    decreases s.len(),
{
    if s.len() < 2 {
        0
    } else {
        (if s[0].0 == ButtonState::Pressed && s[1].0 == ButtonState::Released { 1nat } else { 0nat })
            + released_press_count(s.drop_first())
    }
}

/// Number of events among `out` in the given state.
pub open spec fn state_count(out: Seq<ButtonEvent>, state: ButtonEventState) -> nat
    decreases out.len(),
{
    if out.len() == 0 {
        0
    } else {
        (if out[0].state == state { 1nat } else { 0nat }) + state_count(out.drop_first(), state)
    }
}

/// Every event reported for one button is that button's.
proof fn lemma_pair_edges_button(s: Seq<Edge>, b: ButtonType, now_ns: i64)
    ensures
        forall|k: int| 0 <= k < pair_edges(s, b, now_ns).len() ==> (#[trigger] pair_edges(s, b, now_ns)[k]).button == b,
    decreases s.len(),
{
    if s.len() > 0 {
        if s[0].0 == ButtonState::Pressed && s.len() >= 2 && s[1].0 == ButtonState::Released {
            lemma_pair_edges_button(s.subrange(2, s.len() as int), b, now_ns);
        } else {
            lemma_pair_edges_button(s.subrange(1, s.len() as int), b, now_ns);
        }
    }
}

/// The edges of one button, in time order, are reported press by press: every
/// press edge gives exactly one event; a press directly followed by a release gives
/// a completed event and every other press a held one; release edges give none of
/// their own. Every event is the button's. So no press of a cycle is lost, a quick
/// tap followed by another press included.
pub proof fn law_every_press_is_reported(s: Seq<Edge>, b: ButtonType, now_ns: i64)
    ensures
        pair_edges(s, b, now_ns).len() == press_count(s),
        state_count(pair_edges(s, b, now_ns), ButtonEventState::Complete) == released_press_count(s),
        state_count(pair_edges(s, b, now_ns), ButtonEventState::Held) == press_count(s) - released_press_count(s),
        forall|k: int| 0 <= k < pair_edges(s, b, now_ns).len() ==> (#[trigger] pair_edges(s, b, now_ns)[k]).button == b,
    decreases s.len(),
{
    lemma_pair_edges_button(s, b, now_ns);
    if s.len() == 0 {
        return;
    }
    let d = s.drop_first();
    if s[0].0 == ButtonState::Pressed {
        if s.len() >= 2 && s[1].0 == ButtonState::Released {
            let r = s.subrange(2, s.len() as int);
            law_every_press_is_reported(r, b, now_ns);
            assert(d.drop_first() =~= r);
            assert(press_count(d) == press_count(r));
            if d.len() >= 2 {
                assert(released_press_count(d) == released_press_count(r));
            } else {
                assert(r.len() == 0);
            }
            let ev = ButtonEvent {
                button: b,
                duration_ms: elapsed_ms(s[0].1 as int, s[1].1 as int) as i64,
                state: ButtonEventState::Complete,
            };
            let out = pair_edges(s, b, now_ns);
            assert(out == seq![ev] + pair_edges(r, b, now_ns));
            assert(out.drop_first() =~= pair_edges(r, b, now_ns));
        } else {
            law_every_press_is_reported(d, b, now_ns);
            assert(s.subrange(1, s.len() as int) =~= d);
            let ev = ButtonEvent {
                button: b,
                duration_ms: elapsed_ms(s[0].1 as int, now_ns as int) as i64,
                state: ButtonEventState::Held,
            };
            let out = pair_edges(s, b, now_ns);
            assert(out == seq![ev] + pair_edges(d, b, now_ns));
            assert(out.drop_first() =~= pair_edges(d, b, now_ns));
        }
    } else {
        law_every_press_is_reported(d, b, now_ns);
        assert(s.subrange(1, s.len() as int) =~= d);
    }
}

/// A press that is the last edge of a button in a cycle stays pending: it is the
/// press kept for the next cycle, whatever came before it.
pub proof fn law_last_press_stays_pending(s: Seq<Edge>)
    requires
        s.len() > 0,
        s.last().0 == ButtonState::Pressed,
    ensures
        last_held(s) == Some(s.last().1),
    decreases s.len(),
{
    if s[0].0 == ButtonState::Pressed {
        if s.len() >= 2 && s[1].0 == ButtonState::Released {
            let r = s.subrange(2, s.len() as int);
            assert(r.last() == s.last());
            law_last_press_stays_pending(r);
        } else if s.len() >= 2 {
            let r = s.subrange(1, s.len() as int);
            assert(r.last() == s.last());
            law_last_press_stays_pending(r);
        } else {
            assert(s.subrange(1, s.len() as int).len() == 0);
            assert(last_held(s.subrange(1, s.len() as int)) is None);
        }
    } else {
        let r = s.subrange(1, s.len() as int);
        assert(r.last() == s.last());
        law_last_press_stays_pending(r);
    }
}

/// With no press edge at all, nothing stays pending.
pub proof fn law_no_press_nothing_pending(s: Seq<Edge>)
    requires
        press_count(s) == 0,
    ensures
        last_held(s) is None,
        pair_edges(s, ButtonType::A, 0).len() == 0,
    decreases s.len(),
{
    if s.len() > 0 {
        assert(s[0].0 != ButtonState::Pressed);
        assert(s.subrange(1, s.len() as int) =~= s.drop_first());
        law_no_press_nothing_pending(s.drop_first());
        law_every_press_is_reported(s, ButtonType::A, 0);
    }
}

/// The first press of a time-ordered edge list is reported first: as completed
/// when a release directly follows it, lasting the whole milliseconds from press
/// to release; otherwise as held, lasting the whole milliseconds from the press
/// until `now_ns` (times not running backwards).
pub proof fn law_first_press_duration(s: Seq<Edge>, b: ButtonType, now_ns: i64)
    requires
        s.len() > 0,
        s[0].0 == ButtonState::Pressed,
    ensures
        ({
            let ev = pair_edges(s, b, now_ns)[0];
            &&& pair_edges(s, b, now_ns).len() > 0
            &&& ev.button == b
            &&& (s.len() >= 2 && s[1].0 == ButtonState::Released) ==> ev.state == ButtonEventState::Complete
                && (s[0].1 <= s[1].1 ==> 1_000_000 * ev.duration_ms <= s[1].1 - s[0].1 < 1_000_000 * (ev.duration_ms + 1))
            &&& !(s.len() >= 2 && s[1].0 == ButtonState::Released) ==> ev.state == ButtonEventState::Held
                && (s[0].1 <= now_ns ==> 1_000_000 * ev.duration_ms <= now_ns - s[0].1 < 1_000_000 * (ev.duration_ms + 1))
        }),
{
    if s.len() >= 2 && s[1].0 == ButtonState::Released {
        let d: int = s[1].1 - s[0].1;
        if d >= 0 {
            assert(0 <= d / 1_000_000 <= d);
            assert(1_000_000 * (d / 1_000_000) <= d < 1_000_000 * (d / 1_000_000 + 1)) by (nonlinear_arith)
                requires d >= 0;
        }
    } else {
        let d: int = now_ns - s[0].1;
        if d >= 0 {
            assert(0 <= d / 1_000_000 <= d);
            assert(1_000_000 * (d / 1_000_000) <= d < 1_000_000 * (d / 1_000_000 + 1)) by (nonlinear_arith)
                requires d >= 0;
        }
    }
}

} // verus!
