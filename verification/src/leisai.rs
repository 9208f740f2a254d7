//! Cards of the Leadshine LTSMC series: the state the adapter keeps and the
//! decoding of what the `LTSMC` SDK reports.

use vstd::prelude::*;
use std::time::{Duration, Instant};
use crate::card::{CardCore, CardEvent, CardView, fresh_axes, view_axes, lemma_view_axes_insert};
use crate::config::CardConfig;
use crate::error::{MotionError, Result, is_sdk_error};
use crate::models::{AxisStatus, CardStatus};
use crate::clock::duration_from_nanos;
use crate::text::code_message;

verus! {

broadcast use lemma_view_axes_insert;

/// One axis of a Leadshine card: the card and the axis number the SDK
/// addresses it by.
pub struct LeisaiAxis {
    card_id: u16,
    axis_index: u16,
}

impl View for LeisaiAxis {
    /// The card number and the axis number.
    type V = (u16, u16);

    closed spec fn view(&self) -> (u16, u16) {
        (self.card_id, self.axis_index)
    }
}

impl LeisaiAxis {
    /// Axis `axis_index` of card `card_id`.
    pub fn new(card_id: u16, axis_index: u16) -> (r: Self)
        ensures
            r@ == (card_id, axis_index),
    {
        LeisaiAxis { card_id, axis_index }
    }

    /// The number of the card the axis belongs to.
    pub fn card_id(&self) -> (r: u16)
        ensures
            r == self@.0,
    {
        self.card_id
    }

    /// The number the SDK addresses the axis by.
    pub fn sdk_axis(&self) -> (r: u16)
        ensures
            r == self@.1,
    {
        self.axis_index
    }

    /// The axis's index.
    pub fn axis_index(&self) -> (r: usize)
        ensures
            r == self@.1,
    {
        self.axis_index as usize
    }

    /// Whether a flag that the SDK reports as a number is set: any non-zero
    /// value (enable status, alarm, limit switches).
    pub fn flag_from(value: i16) -> (r: bool)
        ensures
            r == (value != 0),
    {
        value != 0
    }

    /// Whether the axis is moving, from what `nmc_axis_check_done` returns:
    /// it is while the motion is not done (0).
    pub fn moving_from_done(done: i16) -> (r: bool)
        ensures
            r == (done == 0),
    {
        done == 0
    }

    /// The axis's status from its enable status, alarm and limit readings.
    pub fn status_from(enable_status: i16, alarm: i16, limit_positive: i16, limit_negative: i16) -> (r:
        AxisStatus)
        ensures
            r.is_servo_on == (enable_status != 0),
            r.is_alarm == (alarm != 0),
            r.is_ready == (enable_status != 0 && alarm == 0),
            !r.is_homing,
            r.is_limit_positive == (limit_positive != 0),
            r.is_limit_negative == (limit_negative != 0),
    {
        AxisStatus::from_signals(
            Self::flag_from(enable_status),
            Self::flag_from(alarm),
            Self::flag_from(limit_positive),
            Self::flag_from(limit_negative),
        )
    }
}

/// A Leadshine card.
pub struct LeisaiCard {
    card_id: u16,
    core: CardCore<LeisaiAxis>,
}

impl View for LeisaiCard {
    type V = CardView<(u16, u16)>;

    closed spec fn view(&self) -> CardView<(u16, u16)> {
        let m = self.core.model();
        CardView {
            initialized: m.initialized,
            config: m.config,
            axes: view_axes(m.axes),
            error_count: m.error_count,
            last_error: m.last_error,
            started: m.started,
        }
    }
}

/// The axes a Leadshine card `card_id` installs for `count` axes.
pub open spec fn leisai_axes(card_id: u16, count: usize) -> Map<usize, (u16, u16)> {
    fresh_axes(count, |i: usize| (card_id, i as u16))
}

/// The axes a Leadshine card installs are exactly those below the count,
/// and axis `i` is SDK axis `i` (cut to 16 bits) of the card.
pub proof fn law_leisai_axis_numbers(card_id: u16, count: usize, i: usize)
    ensures
        leisai_axes(card_id, count).contains_key(i) <==> i < count,
        i < count ==> leisai_axes(card_id, count)[i].0 == card_id,
        i < count ==> leisai_axes(card_id, count)[i].1 == i as u16,
        i < count && i <= 0xffff ==> leisai_axes(card_id, count)[i].1 as int == i as int,
{
}

impl LeisaiCard {
    /// The card number the adapter addresses the SDK with.
    pub closed spec fn spec_card_id(&self) -> u16 {
        self.card_id
    }

    /// A card that is not initialized yet, numbered 0.
    pub fn new() -> (r: Self)
        ensures
            r@ == CardView::<(u16, u16)>::created(r@.started),
            r.spec_card_id() == 0,
    {
        let r = LeisaiCard { card_id: 0, core: CardCore::new() };
        assert(r@.axes =~= Map::empty());
        r
    }

    /// The card number the adapter addresses the SDK with.
    pub fn card_id(&self) -> (r: u16)
        ensures
            r == self.spec_card_id(),
    {
        self.card_id
    }

    /// Turns the return code of an SDK call into a result: `Ok` for 0;
    /// otherwise the failure is counted, its message recorded, and an
    /// `SdkError` with the code returned.
    pub fn check_result(&mut self, code: i16, context: &str) -> (r: Result<()>)
        requires
            code != 0 ==> old(self)@.error_count < u32::MAX,
        ensures
            final(self).spec_card_id() == old(self).spec_card_id(),
            final(self)@ == old(self)@.after(
                CardEvent::Checked { context: context@, code: code as int },
            ),
            code == 0 ==> r is Ok,
            code != 0 ==> is_sdk_error(r, code, code_message(context@, code as int)),
    {
        if code == 0 {
            Ok(())
        } else {
            let message = self.core.record_failure(context, code as i64);
            Err(MotionError::SdkError { code, message })
        }
    }

    /// Completes an initialization, given the code `nmc_board_init`
    /// returned and the instant `started` the clock read after the call. On
    /// success the card takes its number from the configuration's board id,
    /// keeps the configuration, is initialized, counts its uptime from
    /// `started` and holds the axes `0..config.axis_count` of that card; on
    /// failure only the failure is recorded.
    pub fn apply_initialize(&mut self, code: i16, config: &CardConfig, started: Instant) -> (r:
        Result<()>)
        requires
            code != 0 ==> old(self)@.error_count < u32::MAX,
        ensures
            code == 0 ==> r is Ok && final(self).spec_card_id() == config.board_id
                && final(self)@ == old(self)@.after(
                CardEvent::Initialized {
                    config: config@,
                    fresh: leisai_axes(config.board_id, config.axis_count),
                    started,
                },
            ),
            code == 0 ==> forall|i: usize|
                i < config.axis_count ==> #[trigger] final(self)@.axes.contains_key(i)
                    && final(self)@.axes[i] == (config.board_id, i as u16),
            code != 0 ==> final(self).spec_card_id() == old(self).spec_card_id() && final(self)@
                == old(self)@.after(CardEvent::Checked { context: "nmc_board_init"@, code: code as int })
                && is_sdk_error(r, code, code_message("nmc_board_init"@, code as int)),
    {
        self.check_result(code, "nmc_board_init")?;
        self.card_id = config.board_id;
        let card_id = self.card_id;
        let new_axis = (|i: usize| -> (a: LeisaiAxis)
            ensures
                a@ == (card_id, i as u16),
            { LeisaiAxis::new(card_id, i as u16) });
        self.core.install(config, new_axis, started);
        assert(self@.axes =~= old(self)@.axes.union_prefer_right(
            leisai_axes(card_id, config.axis_count),
        ));
        Ok(())
    }

    /// Completes closing the card (after `nmc_board_close`): it is no
    /// longer initialized and has no axes.
    pub fn apply_close(&mut self)
        ensures
            final(self).spec_card_id() == old(self).spec_card_id(),
            final(self)@ == old(self)@.after(CardEvent::Closed),
    {
        self.core.clear();
        assert(self@.axes =~= Map::empty());
    }

    /// The card's status; the uptime is zero while it is not initialized.
    pub fn status(&self) -> (s: CardStatus)
        ensures
            s.is_initialized == self@.initialized,
            s.error_count == self@.error_count,
            s.last_error@ == self@.last_error,
            !self@.initialized ==> s.uptime == duration_from_nanos(0),
    {
        self.core.status()
    }

    /// The card's status given `uptime`, the time passed since the card was
    /// last initialized: the uptime is that time while the card is
    /// initialized, and zero otherwise.
    pub fn status_with_uptime(&self, uptime: Duration) -> (s: CardStatus)
        ensures
            s.is_initialized == self@.initialized,
            s.error_count == self@.error_count,
            s.last_error@ == self@.last_error,
            s.uptime == (if self@.initialized { uptime } else { duration_from_nanos(0) }),
    {
        self.core.status_with_uptime(uptime)
    }

    /// The card's name.
    pub fn card_name(&self) -> (r: &'static str)
        ensures
            r@ == "雷赛 Leadshine"@,
    {
        "雷赛 Leadshine"
    }

    /// The card's model series.
    pub fn card_type(&self) -> (r: &'static str)
        ensures
            r@ == "LTSMC Series"@,
    {
        "LTSMC Series"
    }

    /// The number of axes: that of the configuration, or 4 before one.
    pub fn axis_count(&self) -> (r: usize)
        ensures
            r == self@.axis_count(),
    {
        self.core.axis_count()
    }

    /// The number of digital inputs.
    pub fn input_count(&self) -> (r: usize)
        ensures
            r == 16,
    {
        16
    }

    /// The number of digital outputs.
    pub fn output_count(&self) -> (r: usize)
        ensures
            r == 16,
    {
        16
    }

    /// The axis under `index`, or `AxisOutOfRange` where the card has none.
    pub fn get_axis(&mut self, index: usize) -> (r: Result<&mut LeisaiAxis>)
        ensures
            final(self).spec_card_id() == old(self).spec_card_id(),
            match r {
                Ok(a) => old(self)@.axes.contains_key(index) && a@ == old(self)@.axes[index]
                    && final(self)@ == old(self)@.after(
                    CardEvent::AxisReplaced { index, axis: final(a)@ },
                ),
                Err(e) => !old(self)@.axes.contains_key(index) && final(self)@ == old(self)@
                    && e == MotionError::AxisOutOfRange { index, max: old(self)@.axis_count() },
            },
    {
        let max = self.core.axis_count();
        match self.core.axis_mut(index) {
            Some(a) => Ok(a),
            None => Err(MotionError::AxisOutOfRange { index, max }),
        }
    }

    /// Whether an input is on, from what `nmc_get_inbit` returns: any
    /// non-zero value.
    pub fn input_from_state(state: i16) -> (r: bool)
        ensures
            r == (state != 0),
    {
        state != 0
    }
}

} // verus!
