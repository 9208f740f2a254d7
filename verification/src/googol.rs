//! Cards of the Googol GTS series: the state the adapter keeps and the
//! decoding of what the `gts` SDK reports.

use vstd::prelude::*;
use std::time::{Duration, Instant};
use crate::card::{CardCore, CardEvent, CardView, fresh_axes, view_axes, lemma_view_axes_insert};
use crate::config::CardConfig;
use crate::error::{MotionError, Result, is_sdk_error};
use crate::models::{AxisStatus, CardStatus};
use crate::clock::duration_from_nanos;
use crate::text::code_message;

verus! {

broadcast use lemma_view_axes_insert;

/// One axis of a Googol card: the axis number the SDK addresses it by.
pub struct GoogolAxis {
    axis_index: i16,
}

impl View for GoogolAxis {
    /// The axis number.
    type V = i16;

    closed spec fn view(&self) -> i16 {
        self.axis_index
    }
}

impl GoogolAxis {
    /// The axis with SDK number `axis_index`.
    pub fn new(axis_index: i16) -> (r: Self)
        ensures
            r@ == axis_index,
    {
        GoogolAxis { axis_index }
    }

    /// The number the SDK addresses the axis by.
    pub fn sdk_axis(&self) -> (r: i16)
        ensures
            r == self@,
    {
        self.axis_index
    }

    /// The axis's index (a negative SDK number wraps, as a cast does).
    pub fn axis_index(&self) -> (r: usize)
        ensures
            r == self@ as usize,
    {
        self.axis_index as usize
    }

    /// Whether the axis is enabled, from the code of `GT_ClrStp`: it is when
    /// the call succeeds.
    pub fn enabled_from_clear(code: i16) -> (r: bool)
        ensures
            r == (code == 0),
    {
        code == 0
    }

    /// Whether the axis is moving, from the word `GT_GetAxisStatus` writes:
    /// any bit set.
    pub fn moving_from_status(status: i32) -> (r: bool)
        ensures
            r == (status != 0),
    {
        status != 0
    }

    /// Whether the axis is in alarm, from the word `GT_GetAxisStatus`
    /// writes: bit 0.
    pub fn alarm_from_status(status: i32) -> (r: bool)
        ensures
            r == (status & 1 != 0),
    {
        status & 1 != 0
    }

    /// The axis's status from the code of `GT_ClrStp` and the status word;
    /// the card reports no limit switches.
    pub fn status_from(clear_code: i16, status: i32) -> (r: AxisStatus)
        ensures
            r.is_servo_on == (clear_code == 0),
            r.is_alarm == (status & 1 != 0),
            r.is_ready == (clear_code == 0 && !(status & 1 != 0)),
            !r.is_homing,
            !r.is_limit_positive,
            !r.is_limit_negative,
    {
        AxisStatus::from_signals(
            Self::enabled_from_clear(clear_code),
            Self::alarm_from_status(status),
            false,
            false,
        )
    }
}

/// Reading input port 0 alone and reading all inputs from the same word
/// agree on input 0: it is on exactly where bit 0 of the mask is set.
pub proof fn law_first_input_agrees_with_mask(state: i16)
    ensures
        (state & 1 != 0) == ((state as u16) & 1 == 1),
{
    assert((state & 1 != 0) == ((state as u16) & 1 == 1)) by (bit_vector);
}

/// A Googol card.
pub struct GoogolCard {
    core: CardCore<GoogolAxis>,
}

impl View for GoogolCard {
    type V = CardView<i16>;

    closed spec fn view(&self) -> CardView<i16> {
        let m = self.core.model();
        CardView {
            initialized: m.initialized,
            config: m.config,
            axes: view_axes(m.axes),
            error_count: m.error_count,
            last_error: m.last_error,
            started: m.started,
        }
    }
}

/// The axes a Googol card installs for `count` axes: axis `i` has SDK
/// number `i` cut to 16 bits.
pub open spec fn googol_axes(count: usize) -> Map<usize, i16> {
    fresh_axes(count, |i: usize| i as i16)
}

/// The axes a Googol card installs are exactly those below the count, and
/// axis `i` is driven through SDK axis number `i` (cut to 16 bits).
pub proof fn law_googol_axis_numbers(count: usize, i: usize)
    ensures
        googol_axes(count).contains_key(i) <==> i < count,
        i < count ==> googol_axes(count)[i] == i as i16,
        i < count && i <= 0x7fff ==> googol_axes(count)[i] as int == i as int,
{
}

impl GoogolCard {
    /// A card that is not initialized yet.
    pub fn new() -> (r: Self)
        ensures
            r@ == CardView::<i16>::created(r@.started),
    {
        let r = GoogolCard { core: CardCore::new() };
        assert(r@.axes =~= Map::empty());
        r
    }

    /// Turns the return code of an SDK call into a result: `Ok` for 0;
    /// otherwise the failure is counted, its message recorded, and an
    /// `SdkError` with the code returned.
    pub fn check_result(&mut self, code: i16, context: &str) -> (r: Result<()>)
        requires
            code != 0 ==> old(self)@.error_count < u32::MAX,
        ensures
            final(self)@ == old(self)@.after(
                CardEvent::Checked { context: context@, code: code as int },
            ),
            code == 0 ==> r is Ok,
            code != 0 ==> is_sdk_error(r, code, code_message(context@, code as int)),
    {
        if code == 0 {
            Ok(())
        } else {
            let message = self.core.record_failure(context, code as i64);
            Err(MotionError::SdkError { code, message })
        }
    }

    /// Completes an initialization, given the code `GT_Init` returned and
    /// the instant `started` the clock read after the call. On success the
    /// card keeps the configuration, is initialized, counts its uptime from
    /// `started` and holds the axes `0..config.axis_count`; on failure only
    /// the failure is recorded.
    pub fn apply_initialize(&mut self, code: i16, config: &CardConfig, started: Instant) -> (r:
        Result<()>)
        requires
            code != 0 ==> old(self)@.error_count < u32::MAX,
        ensures
            code == 0 ==> r is Ok && final(self)@ == old(self)@.after(
                CardEvent::Initialized {
                    config: config@,
                    fresh: googol_axes(config.axis_count),
                    started,
                },
            ),
            code == 0 ==> forall|i: usize|
                i < config.axis_count ==> #[trigger] final(self)@.axes.contains_key(i)
                    && final(self)@.axes[i] == i as i16,
            code != 0 ==> final(self)@ == old(self)@.after(
                CardEvent::Checked { context: "GT_Init"@, code: code as int },
            ) && is_sdk_error(r, code, code_message("GT_Init"@, code as int)),
    {
        self.check_result(code, "GT_Init")?;
        let new_axis = (|i: usize| -> (a: GoogolAxis)
            ensures
                a@ == i as i16,
            { GoogolAxis::new(i as i16) });
        self.core.install(config, new_axis, started);
        assert(self@.axes =~= old(self)@.axes.union_prefer_right(googol_axes(config.axis_count)));
        Ok(())
    }

    /// Closes the card: it is no longer initialized and has no axes.
    pub fn close(&mut self)
        ensures
            final(self)@ == old(self)@.after(CardEvent::Closed),
    {
        self.core.clear();
        assert(self@.axes =~= Map::empty());
    }

    /// The card's status; the uptime is zero while it is not initialized.
    pub fn status(&self) -> (s: CardStatus)
        ensures
            s.is_initialized == self@.initialized,
            s.error_count == self@.error_count,
            s.last_error@ == self@.last_error,
            !self@.initialized ==> s.uptime == duration_from_nanos(0),
    {
        self.core.status()
    }

    /// The card's status given `uptime`, the time passed since the card was
    /// last initialized: the uptime is that time while the card is
    /// initialized, and zero otherwise.
    pub fn status_with_uptime(&self, uptime: Duration) -> (s: CardStatus)
        ensures
            s.is_initialized == self@.initialized,
            s.error_count == self@.error_count,
            s.last_error@ == self@.last_error,
            s.uptime == (if self@.initialized { uptime } else { duration_from_nanos(0) }),
    {
        self.core.status_with_uptime(uptime)
    }

    /// The card's name.
    pub fn card_name(&self) -> (r: &'static str)
        ensures
            r@ == "固高 Googol"@,
    {
        "固高 Googol"
    }

    /// The card's model series.
    pub fn card_type(&self) -> (r: &'static str)
        ensures
            r@ == "GTS Series"@,
    {
        "GTS Series"
    }

    /// The number of axes: that of the configuration, or 4 before one.
    pub fn axis_count(&self) -> (r: usize)
        ensures
            r == self@.axis_count(),
    {
        self.core.axis_count()
    }

    /// The number of digital inputs.
    pub fn input_count(&self) -> (r: usize)
        ensures
            r == 16,
    {
        16
    }

    /// The number of digital outputs.
    pub fn output_count(&self) -> (r: usize)
        ensures
            r == 16,
    {
        16
    }

    /// The axis under `index`, or `AxisOutOfRange` where the card has none.
    pub fn get_axis(&mut self, index: usize) -> (r: Result<&mut GoogolAxis>)
        ensures
            match r {
                Ok(a) => old(self)@.axes.contains_key(index) && a@ == old(self)@.axes[index]
                    && final(self)@ == old(self)@.after(
                    CardEvent::AxisReplaced { index, axis: final(a)@ },
                ),
                Err(e) => !old(self)@.axes.contains_key(index) && final(self)@ == old(self)@
                    && e == MotionError::AxisOutOfRange { index, max: old(self)@.axis_count() },
            },
    {
        let max = self.core.axis_count();
        match self.core.axis_mut(index) {
            Some(a) => Ok(a),
            None => Err(MotionError::AxisOutOfRange { index, max }),
        }
    }

    /// Whether an input is on, from what `GT_GetDI` returns for its port:
    /// bit 0.
    pub fn input_from_state(state: i16) -> (r: bool)
        ensures
            r == (state & 1 != 0),
    {
        state & 1 != 0
    }

    /// All inputs as a bit mask, from what `GT_GetDI` returns for port 0.
    pub fn inputs_from_state(state: i16) -> (r: u16)
        ensures
            r == state as u16,
    {
        state as u16
    }

    /// The value `GT_SetDO` is given to write `value` to an output.
    pub fn output_state(value: bool) -> (r: i16)
        ensures
            r == (if value { 1i16 } else { 0i16 }),
    {
        if value {
            1
        } else {
            0
        }
    }

    /// The value `GT_SetDO` is given for port 0 to write the bit mask
    /// `value`: the same bits.
    pub fn outputs_state(value: u16) -> (r: i16)
        ensures
            r == value as i16,
    {
        value as i16
    }
}

} // verus!
