//! The simulated card, for work without hardware: 16 digital inputs that
//! tests set, 16 digital outputs, and axes of a type the caller supplies.

use vstd::prelude::*;
use std::collections::HashMap;
use std::time::{Duration, Instant};
use crate::card::{CardCore, CardEvent, CardView, fresh_axes};
use crate::config::CardConfig;
use crate::error::{MotionError, Result};
use crate::models::CardStatus;
use crate::clock::duration_from_nanos;

verus! {

broadcast use vstd::std_specs::hash::group_hash_axioms;

/// A simulated card's state as plain values.
pub struct MockCardView<A> {
    /// What every card keeps.
    pub card: CardView<A>,
    /// The input ports and their states.
    pub inputs: Map<u16, bool>,
    /// The output ports and their states.
    pub outputs: Map<u16, bool>,
}

/// Whether `port` is on: a port that was never set is off.
pub open spec fn port_on(ports: Map<u16, bool>, port: u16) -> bool {
    ports.contains_key(port) && ports[port]
}

/// Ports 0 to 15, all off.
pub open spec fn ports_off() -> Map<u16, bool> {
    Map::new(|p: u16| p < 16, |p: u16| false)
}

/// Ports 0 to 15 set from the bits of `mask`: port `p` from bit `p`.
pub open spec fn ports_from_mask(mask: u16) -> Map<u16, bool> {
    Map::new(|p: u16| p < 16, |p: u16| mask & (1u16 << p) != 0)
}

/// Bit `i` of `word`, as 0 or 1.
pub open spec fn bit_of(word: u16, i: u16) -> u16 {
    (word >> i) & 1
}

/// Setting bit `i` of `word` sets that bit and keeps the others.
proof fn lemma_set_bit(word: u16, i: u16, j: u16)
    requires
        i < 16,
        j < 16,
    ensures
        bit_of(word | (1u16 << i), j) == (if j == i { 1u16 } else { bit_of(word, j) }),
{
    assert(((word | (1u16 << i)) >> j) & 1 == (if j == i { 1u16 } else { (word >> j) & 1 }))
        by (bit_vector)
        requires
            i < 16,
            j < 16,
    ;
}

/// Every bit of 0 is 0.
proof fn lemma_zero_bits(j: u16)
    requires
        j < 16,
    ensures
        bit_of(0u16, j) == 0,
{
    assert((0u16 >> j) & 1 == 0) by (bit_vector);
}

/// Two masks that agree on bits 0 to 15 are equal: the mask of the inputs
/// is fixed by the states of inputs 0 to 15.
pub proof fn law_mask_fixed_by_its_bits(a: u16, b: u16)
    requires
        forall|i: u16| i < 16 ==> #[trigger] bit_of(a, i) == bit_of(b, i),
    ensures
        a == b,
{
    assert(bit_of(a, 0) == bit_of(b, 0));
    assert(bit_of(a, 1) == bit_of(b, 1));
    assert(bit_of(a, 2) == bit_of(b, 2));
    assert(bit_of(a, 3) == bit_of(b, 3));
    assert(bit_of(a, 4) == bit_of(b, 4));
    assert(bit_of(a, 5) == bit_of(b, 5));
    assert(bit_of(a, 6) == bit_of(b, 6));
    assert(bit_of(a, 7) == bit_of(b, 7));
    assert(bit_of(a, 8) == bit_of(b, 8));
    assert(bit_of(a, 9) == bit_of(b, 9));
    assert(bit_of(a, 10) == bit_of(b, 10));
    assert(bit_of(a, 11) == bit_of(b, 11));
    assert(bit_of(a, 12) == bit_of(b, 12));
    assert(bit_of(a, 13) == bit_of(b, 13));
    assert(bit_of(a, 14) == bit_of(b, 14));
    assert(bit_of(a, 15) == bit_of(b, 15));
    assert(a == b) by (bit_vector)
        requires
            (a >> 0u16) & 1 == (b >> 0u16) & 1,
            (a >> 1u16) & 1 == (b >> 1u16) & 1,
            (a >> 2u16) & 1 == (b >> 2u16) & 1,
            (a >> 3u16) & 1 == (b >> 3u16) & 1,
            (a >> 4u16) & 1 == (b >> 4u16) & 1,
            (a >> 5u16) & 1 == (b >> 5u16) & 1,
            (a >> 6u16) & 1 == (b >> 6u16) & 1,
            (a >> 7u16) & 1 == (b >> 7u16) & 1,
            (a >> 8u16) & 1 == (b >> 8u16) & 1,
            (a >> 9u16) & 1 == (b >> 9u16) & 1,
            (a >> 10u16) & 1 == (b >> 10u16) & 1,
            (a >> 11u16) & 1 == (b >> 11u16) & 1,
            (a >> 12u16) & 1 == (b >> 12u16) & 1,
            (a >> 13u16) & 1 == (b >> 13u16) & 1,
            (a >> 14u16) & 1 == (b >> 14u16) & 1,
            (a >> 15u16) & 1 == (b >> 15u16) & 1,
    ;
}

/// Writing a mask to the outputs sets output `p` (for `p` below 16) on
/// exactly where bit `p` of the mask is set.
pub proof fn law_output_mask_bits(mask: u16, p: u16)
    requires
        p < 16,
    ensures
        port_on(ports_from_mask(mask), p) == (bit_of(mask, p) == 1),
{
    assert((mask & (1u16 << p) != 0) == ((mask >> p) & 1 == 1)) by (bit_vector)
        requires
            p < 16,
    ;
}

/// Writing a mask to the outputs decides every output 0 to 15, whatever it
/// was before: output `p` is then on exactly where bit `p` of the mask is
/// set. Outputs from 16 on keep what they had.
pub proof fn law_output_mask_overwrites(outputs: Map<u16, bool>, mask: u16, p: u16)
    ensures
        p < 16 ==> outputs.union_prefer_right(ports_from_mask(mask)).contains_key(p),
        p < 16 ==> port_on(outputs.union_prefer_right(ports_from_mask(mask)), p) == (bit_of(mask, p)
            == 1),
        p >= 16 ==> outputs.union_prefer_right(ports_from_mask(mask)).contains_key(p)
            == outputs.contains_key(p),
        p >= 16 && outputs.contains_key(p) ==> outputs.union_prefer_right(ports_from_mask(mask))[p]
            == outputs[p],
{
    if p < 16 {
        assert((mask & (1u16 << p) != 0) == ((mask >> p) & 1 == 1)) by (bit_vector)
            requires
                p < 16,
        ;
    }
}

/// Setting an input and reading it back gives the value set; setting one
/// input leaves every other input as it was, and changes no output.
pub proof fn law_input_reads_back<A>(card: MockCardView<A>, port: u16, value: bool, other: u16)
    ensures
        ({
            let after = MockCardView { inputs: card.inputs.insert(port, value), ..card };
            &&& port_on(after.inputs, port) == value
            &&& other != port ==> port_on(after.inputs, other) == port_on(card.inputs, other)
            &&& after.outputs == card.outputs
        }),
{
}

/// Writing outputs, one or all, never changes an input: the simulated
/// inputs and outputs are separate.
pub proof fn law_outputs_leave_inputs<A>(card: MockCardView<A>, port: u16, value: bool, mask: u16)
    ensures
        (MockCardView { outputs: card.outputs.insert(port, value), ..card }).inputs == card.inputs,
        (MockCardView {
            outputs: card.outputs.union_prefer_right(ports_from_mask(mask)),
            ..card
        }).inputs == card.inputs,
{
}

/// A simulated card whose axes are of type `A`.
pub struct MockCard<A> {
    core: CardCore<A>,
    inputs: HashMap<u16, bool>,
    outputs: HashMap<u16, bool>,
}

impl<A> MockCard<A> {
    /// A simulated card records no failures: its count stays 0 and its
    /// message empty.
    #[verifier::type_invariant]
    spec fn never_failed(&self) -> bool {
        &&& self.core.error_count == 0
        &&& self.core.last_error@ == Seq::<char>::empty()
    }
}

impl<A> View for MockCard<A> {
    type V = MockCardView<A>;

    closed spec fn view(&self) -> MockCardView<A> {
        MockCardView { card: self.core.model(), inputs: self.inputs@, outputs: self.outputs@ }
    }
}

impl<A> Default for MockCard<A> {
    fn default() -> (r: Self)
        ensures
            r@.card == CardView::<A>::created(r@.card.started),
            r@.inputs == ports_off(),
            r@.outputs == ports_off(),
    {
        Self::new()
    }
}

impl<A> MockCard<A> {
    /// A card that is not initialized yet, with inputs and outputs 0 to 15
    /// all off.
    pub fn new() -> (r: Self)
        ensures
            r@.card == CardView::<A>::created(r@.card.started),
            r@.inputs == ports_off(),
            r@.outputs == ports_off(),
    {
        let mut inputs: HashMap<u16, bool> = HashMap::new();
        let mut outputs: HashMap<u16, bool> = HashMap::new();
        let mut i: u16 = 0;
        while i < 16
            invariant
                i <= 16,
                inputs@ == Map::new(|p: u16| p < i, |p: u16| false),
                outputs@ == Map::new(|p: u16| p < i, |p: u16| false),
            decreases 16 - i,
        {
            inputs.insert(i, false);
            outputs.insert(i, false);
            i = i + 1;
            assert(inputs@ =~= Map::new(|p: u16| p < i, |p: u16| false));
            assert(outputs@ =~= Map::new(|p: u16| p < i, |p: u16| false));
        }
        MockCard { core: CardCore::new(), inputs, outputs }
    }

    /// Sets the simulated state of input `port`.
    pub fn set_input(&mut self, port: u16, value: bool)
        ensures
            final(self)@ == (MockCardView { inputs: old(self)@.inputs.insert(port, value), ..old(self)@ }),
    {
        proof {
            use_type_invariant(&*self);
        }
        let mut inputs: HashMap<u16, bool> = HashMap::new();
        std::mem::swap(&mut inputs, &mut self.inputs);
        inputs.insert(port, value);
        self.inputs = inputs;
    }

    /// Initializes the card with `config` at the instant `started`,
    /// installing `new_axis(i)` as axis `i` for every `i` below the
    /// configured axis count; axes installed before under other indices
    /// stay. Always succeeds.
    pub fn initialize_with<F: Fn(usize) -> A>(
        &mut self,
        config: &CardConfig,
        new_axis: F,
        started: Instant,
    ) -> (r: Result<()>)
        requires
            forall|i: usize| new_axis.requires((i,)),
        ensures
            r is Ok,
            final(self)@.card == old(self)@.card.after(
                CardEvent::Initialized {
                    config: config@,
                    fresh: fresh_axes(config.axis_count, |i: usize| final(self)@.card.axes[i]),
                    started,
                },
            ),
            final(self)@.card.initialized,
            final(self)@.card.config == Some(config@),
            final(self)@.card.error_count == old(self)@.card.error_count,
            final(self)@.card.last_error == old(self)@.card.last_error,
            final(self)@.inputs == old(self)@.inputs,
            final(self)@.outputs == old(self)@.outputs,
            forall|i: usize|
                i < config.axis_count ==> #[trigger] final(self)@.card.axes.contains_key(i)
                    && call_ensures(new_axis, (i,), final(self)@.card.axes[i]),
            forall|k: usize|
                k >= config.axis_count ==> (#[trigger] final(self)@.card.axes.contains_key(k)
                    == old(self)@.card.axes.contains_key(k)) && final(self)@.card.axes[k] == old(
                    self,
                )@.card.axes[k],
    {
        proof {
            use_type_invariant(&*self);
        }
        let mut core: CardCore<A> = CardCore::new();
        std::mem::swap(&mut core, &mut self.core);
        core.install(config, new_axis, started);
        self.core = core;
        assert(self@.card.axes =~= old(self)@.card.axes.union_prefer_right(
            fresh_axes(config.axis_count, |i: usize| self@.card.axes[i]),
        ));
        Ok(())
    }

    /// Closes the card: it is no longer initialized and has no axes.
    pub fn close(&mut self)
        ensures
            final(self)@ == (MockCardView {
                card: old(self)@.card.after(CardEvent::Closed),
                ..old(self)@
            }),
    {
        proof {
            use_type_invariant(&*self);
        }
        let mut core: CardCore<A> = CardCore::new();
        std::mem::swap(&mut core, &mut self.core);
        core.clear();
        self.core = core;
    }

    /// The card's status; the uptime is zero while it is not initialized,
    /// and no failure is ever recorded.
    pub fn status(&self) -> (s: CardStatus)
        ensures
            s.is_initialized == self@.card.initialized,
            s.error_count == 0,
            s.last_error@ == Seq::<char>::empty(),
            !self@.card.initialized ==> s.uptime == duration_from_nanos(0),
    {
        proof {
            use_type_invariant(self);
        }
        self.core.status()
    }

    /// The card's status given `uptime`, the time passed since the card was
    /// last initialized: the uptime is that time while the card is
    /// initialized, and zero otherwise; no failure is ever recorded.
    pub fn status_with_uptime(&self, uptime: Duration) -> (s: CardStatus)
        ensures
            s.is_initialized == self@.card.initialized,
            s.error_count == 0,
            s.last_error@ == Seq::<char>::empty(),
            s.uptime == (if self@.card.initialized { uptime } else { duration_from_nanos(0) }),
    {
        proof {
            use_type_invariant(self);
        }
        self.core.status_with_uptime(uptime)
    }

    /// The card's name.
    pub fn card_name(&self) -> (r: &'static str)
        ensures
            r@ == "Mock Test Card"@,
    {
        "Mock Test Card"
    }

    /// The card's type.
    pub fn card_type(&self) -> (r: &'static str)
        ensures
            r@ == "Mock"@,
    {
        "Mock"
    }

    /// The number of axes: that of the configuration, or 4 before one.
    pub fn axis_count(&self) -> (r: usize)
        ensures
            r == self@.card.axis_count(),
    {
        self.core.axis_count()
    }

    /// The number of digital inputs.
    pub fn input_count(&self) -> (r: usize)
        ensures
            r == 16,
    {
        16
    }

    /// The number of digital outputs.
    pub fn output_count(&self) -> (r: usize)
        ensures
            r == 16,
    {
        16
    }

    /// The axis under `index`, or `AxisOutOfRange` where the card has none.
    pub fn get_axis(&mut self, index: usize) -> (r: Result<&mut A>)
        ensures
            match r {
                Ok(a) => old(self)@.card.axes.contains_key(index) && *a == old(self)@.card.axes[index]
                    && final(self)@ == (MockCardView {
                    card: old(self)@.card.after(CardEvent::AxisReplaced { index, axis: *final(a) }),
                    ..old(self)@
                }),
                Err(e) => !old(self)@.card.axes.contains_key(index) && final(self)@ == old(self)@
                    && e == MotionError::AxisOutOfRange {
                    index,
                    max: old(self)@.card.axis_count(),
                },
            },
    {
        proof {
            use_type_invariant(&*self);
        }
        let max = self.core.axis_count();
        match self.core.axis_mut(index) {
            Some(a) => Ok(a),
            None => Err(MotionError::AxisOutOfRange { index, max }),
        }
    }

    /// The axis a motion command on `axis` drives: `NotInitialized` while
    /// the card is not initialized; otherwise the axis, or `None` where the
    /// card has no such axis (the command then does nothing).
    pub fn motion_target(&mut self, axis: usize) -> (r: Result<Option<&mut A>>)
        ensures
            match r {
                Err(e) => !old(self)@.card.initialized && e == MotionError::NotInitialized
                    && final(self)@ == old(self)@,
                Ok(None) => old(self)@.card.initialized && !old(self)@.card.axes.contains_key(axis)
                    && final(self)@ == old(self)@,
                Ok(Some(a)) => old(self)@.card.initialized && old(self)@.card.axes.contains_key(axis)
                    && *a == old(self)@.card.axes[axis] && final(self)@ == (MockCardView {
                    card: old(self)@.card.after(
                        CardEvent::AxisReplaced { index: axis, axis: *final(a) },
                    ),
                    ..old(self)@
                }),
            },
    {
        proof {
            use_type_invariant(&*self);
        }
        if !self.core.initialized {
            return Err(MotionError::NotInitialized);
        }
        Ok(self.core.axis_mut(axis))
    }

    /// The indices of the card's axes, each once, in the order the axis
    /// table walks them.
    pub fn axis_indices(&self) -> (r: Vec<usize>)
        ensures
            r@.to_set() == self@.card.axes.dom(),
            r@.no_duplicates(),
    {
        self.core.axis_indices()
    }

    /// Whether input `port` is on; a port that was never set is off.
    pub fn read_input(&self, port: u16) -> (r: bool)
        ensures
            r == port_on(self@.inputs, port),
    {
        match self.inputs.get(&port) {
            Some(v) => *v,
            None => false,
        }
    }

    /// Sets output `port` to `value`.
    pub fn write_output(&mut self, port: u16, value: bool)
        ensures
            final(self)@ == (MockCardView { outputs: old(self)@.outputs.insert(port, value), ..old(self)@ }),
    {
        proof {
            use_type_invariant(&*self);
        }
        let mut outputs: HashMap<u16, bool> = HashMap::new();
        std::mem::swap(&mut outputs, &mut self.outputs);
        outputs.insert(port, value);
        self.outputs = outputs;
    }

    /// Inputs 0 to 15 as a bit mask: bit `i` is set where input `i` is on.
    pub fn read_all_inputs(&self) -> (r: u16)
        ensures
            forall|i: u16| i < 16 ==> #[trigger] bit_of(r, i) == (if port_on(self@.inputs, i) {
                1u16
            } else {
                0u16
            }),
    {
        let mut result: u16 = 0;
        let mut i: u16 = 0;
        proof {
            assert forall|j: u16| j < 16 implies #[trigger] bit_of(result, j) == 0u16 by {
                lemma_zero_bits(j);
            }
        }
        while i < 16
            invariant
                i <= 16,
                forall|j: u16|
                    j < 16 ==> #[trigger] bit_of(result, j) == (if j < i && port_on(self@.inputs, j) {
                        1u16
                    } else {
                        0u16
                    }),
            decreases 16 - i,
        {
            if self.read_input(i) {
                let ghost before = result;
                result = result | (1u16 << i);
                proof {
                    assert forall|j: u16| j < 16 implies #[trigger] bit_of(result, j) == (if j < i + 1
                        && port_on(self@.inputs, j) {
                        1u16
                    } else {
                        0u16
                    }) by {
                        lemma_set_bit(before, i, j);
                    }
                }
            }
            i = i + 1;
        }
        result
    }

    /// Sets outputs 0 to 15 from the bit mask `value`: output `i` from bit
    /// `i`. Other outputs stay.
    pub fn write_all_outputs(&mut self, value: u16)
        ensures
            final(self)@ == (MockCardView {
                outputs: old(self)@.outputs.union_prefer_right(ports_from_mask(value)),
                ..old(self)@
            }),
            forall|p: u16|
                p < 16 ==> #[trigger] final(self)@.outputs.contains_key(p) && port_on(
                    final(self)@.outputs,
                    p,
                ) == (bit_of(value, p) == 1),
    {
        proof {
            use_type_invariant(&*self);
        }
        let mut outputs: HashMap<u16, bool> = HashMap::new();
        std::mem::swap(&mut outputs, &mut self.outputs);
        let ghost before = outputs@;
        let mut i: u16 = 0;
        while i < 16
            invariant
                i <= 16,
                outputs@ == before.union_prefer_right(
                    Map::new(|p: u16| p < i, |p: u16| value & (1u16 << p) != 0),
                ),
            decreases 16 - i,
        {
            outputs.insert(i, value & (1u16 << i) != 0);
            i = i + 1;
            assert(outputs@ =~= before.union_prefer_right(
                Map::new(|p: u16| p < i, |p: u16| value & (1u16 << p) != 0),
            ));
        }
        self.outputs = outputs;
        assert(self.outputs@ =~= before.union_prefer_right(ports_from_mask(value)));
        assert forall|p: u16| p < 16 implies #[trigger] self.outputs@.contains_key(p) && port_on(
            self.outputs@,
            p,
        ) == (bit_of(value, p) == 1) by {
            law_output_mask_overwrites(before, value, p);
        }
    }
}

} // verus!
