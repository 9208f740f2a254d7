//! The state that every card adapter keeps, whatever its vendor: whether it
//! is initialized, its configuration, its table of axes, and the count and
//! message of failed SDK calls.

use vstd::prelude::*;
use std::collections::HashMap;
use std::time::{Duration, Instant};
use crate::clock::{duration_from_nanos, elapsed_since, now, zero_duration};
use crate::config::{CardConfig, CardConfigView};
use crate::models::CardStatus;
use crate::text::{code_message, format_code_message};

verus! {

broadcast use vstd::std_specs::hash::group_hash_axioms;

/// A card's state as plain values; `A` stands for what the card keeps of
/// each axis.
pub struct CardView<A> {
    /// Whether the card is initialized.
    pub initialized: bool,
    /// The configuration of the last successful initialization.
    pub config: Option<CardConfigView>,
    /// The card's axes, by index.
    pub axes: Map<usize, A>,
    /// How many SDK calls have failed.
    pub error_count: u32,
    /// The message of the last failure.
    pub last_error: Seq<char>,
    /// The instant the uptime counts from: that of the last successful
    /// initialization (or of creation, before one).
    pub started: Instant,
}

/// What can happen to a card's state.
pub enum CardEvent<A> {
    /// An SDK call named `context` returned `code`.
    Checked { context: Seq<char>, code: int },
    /// An initialization with `config` that installed the axes `fresh`
    /// succeeded at the instant `started`.
    Initialized { config: CardConfigView, fresh: Map<usize, A>, started: Instant },
    /// The card was closed.
    Closed,
    /// Axis `index` was changed in place to `axis`.
    AxisReplaced { index: usize, axis: A },
}

/// The number of axes a card reports: that of its configuration, or 4
/// before any configuration.
pub open spec fn spec_axis_count(config: Option<CardConfigView>) -> usize {
    match config {
        Some(c) => c.axis_count,
        None => 4,
    }
}

/// The axes `0..count`, axis `i` being `axis(i)`.
pub open spec fn fresh_axes<A>(count: usize, axis: spec_fn(usize) -> A) -> Map<usize, A> {
    Map::new(|i: usize| i < count, axis)
}

/// A map of axes seen through the view of each axis.
pub open spec fn view_axes<A: View>(axes: Map<usize, A>) -> Map<usize, A::V> {
    axes.map_values(|a: A| a@)
}

/// Replacing an axis and then viewing the axes is viewing them and then
/// replacing the axis's view.
pub broadcast proof fn lemma_view_axes_insert<A: View>(axes: Map<usize, A>, index: usize, axis: A)
    ensures
        #[trigger] view_axes(axes.insert(index, axis)) == view_axes(axes).insert(index, axis@),
{
    assert(view_axes(axes.insert(index, axis)) =~= view_axes(axes).insert(index, axis@));
}

impl<A> CardView<A> {
    /// The state of a card that was just created at the instant `started`.
    pub open spec fn created(started: Instant) -> CardView<A> {
        CardView {
            initialized: false,
            config: None,
            axes: Map::empty(),
            error_count: 0,
            last_error: Seq::empty(),
            started,
        }
    }

    /// The number of axes the card reports.
    pub open spec fn axis_count(self) -> usize {
        spec_axis_count(self.config)
    }

    /// The state after a successful initialization with `config`, at the
    /// instant `started`, that installed the axes `fresh`: axes installed
    /// before and not replaced stay.
    pub open spec fn initialized_with(
        self,
        config: CardConfigView,
        fresh: Map<usize, A>,
        started: Instant,
    ) -> CardView<A> {
        CardView {
            initialized: true,
            config: Some(config),
            axes: self.axes.union_prefer_right(fresh),
            started,
            ..self
        }
    }

    /// The state after a failed SDK call that recorded `message`.
    pub open spec fn failed(self, message: Seq<char>) -> CardView<A> {
        CardView { error_count: (self.error_count + 1) as u32, last_error: message, ..self }
    }

    /// The state after the card was closed: not initialized, with no axes.
    pub open spec fn closed(self) -> CardView<A> {
        CardView { initialized: false, axes: Map::empty(), ..self }
    }

    /// The same state with axis `index` replaced by `axis`.
    pub open spec fn with_axis(self, index: usize, axis: A) -> CardView<A> {
        CardView { axes: self.axes.insert(index, axis), ..self }
    }

    /// The state after `event`: a checked call changes the error record
    /// only where it failed.
    pub open spec fn after(self, event: CardEvent<A>) -> CardView<A> {
        match event {
            CardEvent::Checked { context, code } => if code == 0 {
                self
            } else {
                self.failed(code_message(context, code))
            },
            CardEvent::Initialized { config, fresh, started } => self.initialized_with(
                config,
                fresh,
                started,
            ),
            CardEvent::Closed => self.closed(),
            CardEvent::AxisReplaced { index, axis } => self.with_axis(index, axis),
        }
    }
}

/// The state after the events `events`, one after another.
pub open spec fn replay<A>(s: CardView<A>, events: Seq<CardEvent<A>>) -> CardView<A>
    decreases events.len(),
{
    if events.len() == 0 {
        s
    } else {
        replay(s, events.drop_last()).after(events.last())
    }
}

/// Whether `event` is a checked call that failed.
pub open spec fn is_failure<A>(event: CardEvent<A>) -> bool {
    event matches CardEvent::Checked { code, .. } && code != 0
}

/// How many of `events` are failed calls.
pub open spec fn failures<A>(events: Seq<CardEvent<A>>) -> nat
    decreases events.len(),
{
    if events.len() == 0 {
        0
    } else {
        failures(events.drop_last()) + if is_failure(events.last()) {
            1nat
        } else {
            0nat
        }
    }
}

/// The message of the last failed call among `events`, or `before` where
/// none failed.
pub open spec fn last_failure_message<A>(before: Seq<char>, events: Seq<CardEvent<A>>) -> Seq<char>
    decreases events.len(),
{
    if events.len() == 0 {
        before
    } else {
        match events.last() {
            CardEvent::Checked { context, code } => if code != 0 {
                code_message(context, code)
            } else {
                last_failure_message(before, events.drop_last())
            },
            _ => last_failure_message(before, events.drop_last()),
        }
    }
}

/// After a successful initialization with `config` that installs `axis(i)`
/// as axis `i`, the card is initialized, reports the configured number of
/// axes, counts its uptime from the initialization, and holds an axis under
/// an index exactly where the index is below that number or the card held
/// one there before; the axes below it are the new ones.
pub proof fn law_initialize_installs_axes<A>(
    before: CardView<A>,
    config: CardConfigView,
    axis: spec_fn(usize) -> A,
    started: Instant,
    index: usize,
)
    ensures
        ({
            let after = before.initialized_with(
                config,
                fresh_axes(config.axis_count, axis),
                started,
            );
            &&& after.initialized
            &&& after.axis_count() == config.axis_count
            &&& after.started == started
            &&& after.axes.contains_key(index) <==> (index < config.axis_count
                || before.axes.contains_key(index))
            &&& index < config.axis_count ==> after.axes[index] == axis(index)
            &&& after.error_count == before.error_count
            &&& after.last_error == before.last_error
        }),
{
}

/// A card initialized when it holds no axes (just created, or closed)
/// holds an axis under exactly the indices below the configured count: any
/// other index is out of range.
pub proof fn law_axes_after_clean_initialize<A>(
    before: CardView<A>,
    config: CardConfigView,
    axis: spec_fn(usize) -> A,
    started: Instant,
    index: usize,
)
    requires
        before.axes == Map::<usize, A>::empty(),
    ensures
        before.initialized_with(
            config,
            fresh_axes(config.axis_count, axis),
            started,
        ).axes.contains_key(index) <==> index < config.axis_count,
{
}

/// Closing a card, whatever its state, leaves it not initialized and with
/// no axis under any index; its configuration and error record stay.
pub proof fn law_close_drops_every_axis<A>(before: CardView<A>, index: usize)
    ensures
        !before.closed().initialized,
        !before.closed().axes.contains_key(index),
        before.closed().config == before.config,
        before.closed().error_count == before.error_count,
        before.closed().last_error == before.last_error,
{
}

/// A failed SDK call counts exactly one more failure and makes its message
/// the last error; nothing else about the card changes.
pub proof fn law_failure_counts_once<A>(before: CardView<A>, message: Seq<char>)
    requires
        before.error_count < u32::MAX,
    ensures
        before.failed(message).error_count == before.error_count + 1,
        before.failed(message).last_error == message,
        before.failed(message).initialized == before.initialized,
        before.failed(message).config == before.config,
        before.failed(message).axes == before.axes,
        before.failed(message).started == before.started,
{
}

/// Events can be replayed in two parts: replaying `first` and then
/// `second` is replaying them one after the other. So a card that went
/// through calls one at a time is in the state of replaying all of their
/// events from where it started.
pub proof fn law_replay_in_parts<A>(s: CardView<A>, first: Seq<CardEvent<A>>, second: Seq<CardEvent<A>>)
    ensures
        replay(s, first + second) == replay(replay(s, first), second),
    decreases second.len(),
{
    if second.len() == 0 {
        assert(first + second =~= first);
    } else {
        law_replay_in_parts(s, first, second.drop_last());
        assert((first + second).drop_last() =~= first + second.drop_last());
        assert((first + second).last() == second.last());
    }
}

/// Over any run of events, the failure count grows by exactly the number
/// of failed calls, and the last error is the message of the last failed
/// call, or stays as it was where none failed. From a new card (count 0,
/// no message) the count is the number of failed calls and the message is
/// empty until one fails.
pub proof fn law_error_record_over_run<A>(s: CardView<A>, events: Seq<CardEvent<A>>)
    requires
        s.error_count + failures(events) <= u32::MAX,
    ensures
        replay(s, events).error_count == s.error_count + failures(events),
        replay(s, events).last_error == last_failure_message(s.last_error, events),
    decreases events.len(),
{
    if events.len() > 0 {
        law_error_record_over_run(s, events.drop_last());
    }
}

/// No event of `events` from position `from` on is a close.
pub open spec fn no_close_from<A>(events: Seq<CardEvent<A>>, from: int) -> bool {
    forall|j: int| from <= j < events.len() ==> !(#[trigger] events[j] is Closed)
}

/// Event `i` of `events` is an initialization that no later close undid.
pub open spec fn standing_initialization<A>(events: Seq<CardEvent<A>>, i: int) -> bool {
    &&& 0 <= i < events.len()
    &&& events[i] is Initialized
    &&& no_close_from(events, i + 1)
}

/// Event `i` of `events` is the last initialization among them.
pub open spec fn last_initialization<A>(events: Seq<CardEvent<A>>, i: int) -> bool {
    &&& 0 <= i < events.len()
    &&& events[i] is Initialized
    &&& forall|j: int| i < j < events.len() ==> !(#[trigger] events[j] is Initialized)
}

/// Over any run of events, the card ends initialized exactly where some
/// initialization in the run was followed by no close, or the card was
/// initialized before and the run has no close.
pub proof fn law_initialized_over_run<A>(s: CardView<A>, events: Seq<CardEvent<A>>)
    ensures
        replay(s, events).initialized <==> ((exists|i: int| #[trigger] standing_initialization(events, i))
            || (s.initialized && no_close_from(events, 0))),
    decreases events.len(),
{
    if events.len() > 0 {
        let prefix = events.drop_last();
        let n = events.len() - 1;
        law_initialized_over_run(s, prefix);
        assert forall|i: int| 0 <= i < n implies #[trigger] standing_initialization(events, i) ==
            (standing_initialization(prefix, i) && !(events[n] is Closed)) by {
            assert(prefix[i] == events[i]);
            assert forall|j: int| i + 1 <= j < prefix.len() implies prefix[j] == events[j] by {}
            if standing_initialization(prefix, i) && !(events[n] is Closed) {
                assert forall|j: int| i + 1 <= j < events.len() implies !(#[trigger] events[j] is Closed) by {
                    if j < n {
                        assert(prefix[j] == events[j]);
                    }
                }
            }
        }
        assert(no_close_from(events, 0) == (no_close_from(prefix, 0) && !(events[n] is Closed))) by {
            assert forall|j: int| 0 <= j < prefix.len() implies prefix[j] == events[j] by {}
            if no_close_from(prefix, 0) && !(events[n] is Closed) {
                assert forall|j: int| 0 <= j < events.len() implies !(#[trigger] events[j] is Closed) by {
                    if j < n {
                        assert(prefix[j] == events[j]);
                    }
                }
            }
        }
        if events[n] is Initialized {
            assert(standing_initialization(events, n));
        } else if events[n] is Closed {
            assert(!standing_initialization(events, n));
            assert forall|i: int| !(#[trigger] standing_initialization(events, i)) by {
                if 0 <= i < n {
                    assert(!(standing_initialization(prefix, i) && !(events[n] is Closed)));
                }
            }
        } else {
            assert(!standing_initialization(events, n));
            if exists|i: int| #[trigger] standing_initialization(prefix, i) {
                let i = choose|i: int| #[trigger] standing_initialization(prefix, i);
                assert(standing_initialization(events, i));
            }
            if exists|i: int| #[trigger] standing_initialization(events, i) {
                let i = choose|i: int| #[trigger] standing_initialization(events, i);
                assert(standing_initialization(prefix, i));
            }
        }
    }
}

/// Over any run of events, the uptime counts from the last initialization
/// in the run; where the run has none, it counts from where it did before.
pub proof fn law_started_over_run<A>(s: CardView<A>, events: Seq<CardEvent<A>>)
    ensures
        forall|i: int| #[trigger] last_initialization(events, i)
            ==> replay(s, events).started == events[i]->Initialized_started,
        (forall|i: int| 0 <= i < events.len() ==> !(#[trigger] events[i] is Initialized))
            ==> replay(s, events).started == s.started,
    decreases events.len(),
{
    if events.len() > 0 {
        let prefix = events.drop_last();
        let n = events.len() - 1;
        law_started_over_run(s, prefix);
        assert forall|i: int| #[trigger] last_initialization(events, i)
            implies replay(s, events).started == events[i]->Initialized_started by {
            if i < n {
                assert(!(events[n] is Initialized));
                assert(prefix[i] == events[i]);
                assert forall|j: int| i < j < prefix.len() implies !(#[trigger] prefix[j] is Initialized) by {
                    assert(prefix[j] == events[j]);
                }
                assert(last_initialization(prefix, i));
            }
        }
        if forall|i: int| 0 <= i < events.len() ==> !(#[trigger] events[i] is Initialized) {
            assert(!(events[n] is Initialized));
            assert forall|i: int| 0 <= i < prefix.len() implies !(#[trigger] prefix[i] is Initialized) by {
                assert(prefix[i] == events[i]);
            }
        }
    }
}

/// Looks up the value under `k` for changing it in place.
///
/// Trusted: calls `HashMap::get_mut`, which the standard library documents
/// as returning a mutable reference to the value under the key, or `None`
/// where the key is absent. Whatever is written through the reference is
/// what the map then holds under `k`.
#[verifier::external_body]
fn map_get_mut<'a, V>(m: &'a mut HashMap<usize, V>, k: usize) -> (r: Option<&'a mut V>)
    ensures
        match r {
            Some(v) => old(m)@.contains_key(k) && *v == old(m)@[k] && final(m)@ == old(m)@.insert(
                k,
                *final(v),
            ),
            None => !old(m)@.contains_key(k) && final(m)@ == old(m)@,
        },
    no_unwind
{
    m.get_mut(&k)
}

/// The state every card adapter keeps, with `A` the type of its axes.
pub(crate) struct CardCore<A> {
    pub(crate) initialized: bool,
    pub(crate) config: Option<CardConfig>,
    pub(crate) axes: HashMap<usize, A>,
    pub(crate) error_count: u32,
    pub(crate) last_error: String,
    pub(crate) init_time: Instant,
}

impl<A> CardCore<A> {
    pub(crate) open spec fn model(&self) -> CardView<A> {
        CardView {
            initialized: self.initialized,
            config: match self.config {
                Some(c) => Some(c@),
                None => None,
            },
            axes: self.axes@,
            error_count: self.error_count,
            last_error: self.last_error@,
            started: self.init_time,
        }
    }

    pub(crate) fn new() -> (r: Self)
        ensures
            r.model() == CardView::<A>::created(r.init_time),
    {
        CardCore {
            initialized: false,
            config: None,
            axes: HashMap::new(),
            error_count: 0,
            last_error: String::new(),
            init_time: now(),
        }
    }

    /// Counts a failed SDK call and records its message, which it returns.
    pub(crate) fn record_failure(&mut self, context: &str, code: i64) -> (message: String)
        requires
            old(self).model().error_count < u32::MAX,
        ensures
            message@ == code_message(context@, code as int),
            final(self).model() == old(self).model().failed(message@),
    {
        self.error_count = self.error_count + 1;
        self.last_error = format_code_message(context, code);
        self.last_error.clone()
    }

    /// Marks the card initialized with `config` and installs `new_axis(i)`
    /// as axis `i` for every `i` below the configured axis count.
    pub(crate) fn install<F: Fn(usize) -> A>(
        &mut self,
        config: &CardConfig,
        new_axis: F,
        started: Instant,
    )
        requires
            forall|i: usize| new_axis.requires((i,)),
        ensures
            final(self).initialized,
            final(self).init_time == started,
            final(self).model().config == Some(config@),
            final(self).model().error_count == old(self).model().error_count,
            final(self).model().last_error == old(self).model().last_error,
            forall|i: usize|
                i < config.axis_count ==> #[trigger] final(self).axes@.contains_key(i)
                    && call_ensures(new_axis, (i,), final(self).axes@[i]),
            forall|k: usize|
                k >= config.axis_count ==> (#[trigger] final(self).axes@.contains_key(k)
                    == old(self).axes@.contains_key(k)) && final(self).axes@[k] == old(
                    self,
                ).axes@[k],
    {
        self.config = Some(config.clone());
        self.initialized = true;
        self.init_time = started;
        let count = config.axis_count;
        let ghost before = self.axes@;
        let ghost count_before = old(self).model().error_count;
        let ghost error_before = old(self).model().last_error;
        let mut i: usize = 0;
        while i < count
            invariant
                i <= count,
                self.initialized,
                self.init_time == started,
                self.model().config == Some(config@),
                self.model().error_count == count_before,
                self.model().last_error == error_before,
                before == old(self).axes@,
                count == config.axis_count,
                forall|j: usize| new_axis.requires((j,)),
                forall|j: usize|
                    j < i ==> #[trigger] self.axes@.contains_key(j) && call_ensures(
                        new_axis,
                        (j,),
                        self.axes@[j],
                    ),
                forall|k: usize|
                    k >= i ==> (#[trigger] self.axes@.contains_key(k) == before.contains_key(k))
                        && self.axes@[k] == before[k],
            decreases count - i,
        {
            let axis = new_axis(i);
            self.axes.insert(i, axis);
            i = i + 1;
        }
    }

    /// Marks the card not initialized and drops its axes.
    pub(crate) fn clear(&mut self)
        ensures
            final(self).model() == old(self).model().closed(),
    {
        self.initialized = false;
        self.axes.clear();
    }

    pub(crate) fn axis_count(&self) -> (r: usize)
        ensures
            r == self.model().axis_count(),
    {
        match &self.config {
            Some(c) => c.axis_count,
            None => 4,
        }
    }

    /// The axis under `index`, to be changed in place.
    pub(crate) fn axis_mut(&mut self, index: usize) -> (r: Option<&mut A>)
        ensures
            match r {
                Some(a) => old(self).model().axes.contains_key(index) && *a == old(
                    self,
                ).model().axes[index] && final(self).model() == old(self).model().with_axis(
                    index,
                    *final(a),
                ),
                None => !old(self).model().axes.contains_key(index) && final(self).model() == old(
                    self,
                ).model(),
            },
        no_unwind
    {
        map_get_mut(&mut self.axes, index)
    }

    /// The indices of the card's axes, each once, in the order the table
    /// walks them.
    pub(crate) fn axis_indices(&self) -> (r: Vec<usize>)
        ensures
            r@.to_set() == self.axes@.dom(),
            r@.no_duplicates(),
    {
        let mut r: Vec<usize> = Vec::new();
        for k in it: self.axes.keys()
            invariant
                r@ == it.seq().take(it.index()).map_values(|k: &usize| *k),
        {
            r.push(*k);
        }
        assert(r@ =~= vstd::std_specs::iter::IteratorSpec::remaining(&vstd::std_specs::hash::spec_keys_iter(&self.axes)).unref());
        r
    }

    /// The card's status, given `uptime`, the time passed since the card
    /// was initialized: that time while it is initialized, zero otherwise.
    pub(crate) fn status_with_uptime(&self, uptime: Duration) -> (s: CardStatus)
        ensures
            s.is_initialized == self.initialized,
            s.error_count == self.error_count,
            s.last_error@ == self.last_error@,
            s.uptime == (if self.initialized { uptime } else { duration_from_nanos(0) }),
    {
        CardStatus {
            is_initialized: self.initialized,
            error_count: self.error_count,
            last_error: self.last_error.clone(),
            uptime: if self.initialized {
                uptime
            } else {
                zero_duration()
            },
        }
    }

    pub(crate) fn status(&self) -> (s: CardStatus)
        ensures
            s.is_initialized == self.initialized,
            s.error_count == self.error_count,
            s.last_error@ == self.last_error@,
            !self.initialized ==> s.uptime == duration_from_nanos(0),
    {
        self.status_with_uptime(elapsed_since(&self.init_time))
    }
}

} // verus!
