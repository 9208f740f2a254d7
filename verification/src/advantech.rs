//! Cards of the Advantech PCI-124x series: the state the adapter keeps and
//! the decoding of what the `pci124x` SDK reports.

use vstd::prelude::*;
use std::time::{Duration, Instant};
use crate::card::{CardCore, CardEvent, CardView, fresh_axes, view_axes, lemma_view_axes_insert};
use crate::config::CardConfig;
use crate::error::{MotionError, Result, is_sdk_error};
use crate::models::{AxisStatus, CardStatus};
use crate::clock::duration_from_nanos;
use crate::text::code_message;

verus! {

broadcast use lemma_view_axes_insert;

/// One axis of an Advantech card: the device and the channel the SDK
/// addresses it by.
pub struct AdvantechAxis {
    device: u16,
    axis_index: u16,
}

impl View for AdvantechAxis {
    /// The device and the channel.
    type V = (u16, u16);

    closed spec fn view(&self) -> (u16, u16) {
        (self.device, self.axis_index)
    }
}

/// Whether the bits of `mask` are set in the status word `status`.
pub open spec fn status_flag(status: u32, mask: u32) -> bool {
    status & mask != 0
}

impl AdvantechAxis {
    /// The axis on `channel` of `device`.
    pub fn new(device: u16, axis_index: u16) -> (r: Self)
        ensures
            r@ == (device, axis_index),
    {
        AdvantechAxis { device, axis_index }
    }

    /// The device that the axis belongs to.
    pub fn device(&self) -> (r: u16)
        ensures
            r == self@.0,
    {
        self.device
    }

    /// The channel the SDK addresses the axis by.
    pub fn channel(&self) -> (r: u16)
        ensures
            r == self@.1,
    {
        self.axis_index
    }

    /// The axis's index.
    pub fn axis_index(&self) -> (r: usize)
        ensures
            r == self@.1,
    {
        self.axis_index as usize
    }

    /// Whether the servo is on, from the state that `APS_get_io_svon`
    /// reports.
    pub fn enabled_from_servo(state: u16) -> (r: bool)
        ensures
            r == (state != 0),
    {
        state != 0
    }

    /// Whether the axis is moving, from the status word of `APS_get_status`
    /// (bit 0).
    pub fn moving_from_status(status: u32) -> (r: bool)
        ensures
            r == status_flag(status, 0x01),
    {
        status & 0x01 != 0
    }

    /// Whether the axis is in alarm, from the status word (bit 1).
    pub fn alarm_from_status(status: u32) -> (r: bool)
        ensures
            r == status_flag(status, 0x02),
    {
        status & 0x02 != 0
    }

    /// Whether the positive limit is hit, from the status word (bit 2).
    pub fn limit_positive_from_status(status: u32) -> (r: bool)
        ensures
            r == status_flag(status, 0x04),
    {
        status & 0x04 != 0
    }

    /// Whether the negative limit is hit, from the status word (bit 3).
    pub fn limit_negative_from_status(status: u32) -> (r: bool)
        ensures
            r == status_flag(status, 0x08),
    {
        status & 0x08 != 0
    }

    /// The axis's status from its servo state and its status word.
    pub fn status_from(servo: u16, status: u32) -> (r: AxisStatus)
        ensures
            r.is_servo_on == (servo != 0),
            r.is_alarm == status_flag(status, 0x02),
            r.is_ready == (servo != 0 && !status_flag(status, 0x02)),
            !r.is_homing,
            r.is_limit_positive == status_flag(status, 0x04),
            r.is_limit_negative == status_flag(status, 0x08),
    {
        let enabled = Self::enabled_from_servo(servo);
        let alarm = Self::alarm_from_status(status);
        AxisStatus::from_signals(
            enabled,
            alarm,
            Self::limit_positive_from_status(status),
            Self::limit_negative_from_status(status),
        )
    }
}

/// For a port below 16, reading the one input and reading all inputs from
/// the same input word agree: the input is on exactly where its bit in the
/// mask is set.
pub proof fn law_input_agrees_with_mask(state: u32, port: u16)
    requires
        port < 16,
    ensures
        (state & (1u32 << port) != 0) == (((state as u16) >> port) & 1 == 1),
{
    assert((state & (1u32 << port) != 0) == (((state as u16) >> port) & 1 == 1)) by (bit_vector)
        requires
            port < 16,
    ;
}

/// Writing a mask drives each channel `i` with the state that writing one
/// output would: on (1) exactly where bit `i` of the mask is set.
pub proof fn law_output_states_match_single_writes(value: u16, i: u16)
    requires
        i < 16,
    ensures
        (value >> i) & 1 == (if value & (1u16 << i) != 0 { 1u16 } else { 0u16 }),
{
    assert((value >> i) & 1 == (if value & (1u16 << i) != 0 { 1u16 } else { 0u16 })) by (bit_vector)
        requires
            i < 16,
    ;
}

/// An Advantech card.
pub struct AdvantechCard {
    device: u16,
    core: CardCore<AdvantechAxis>,
}

impl View for AdvantechCard {
    type V = CardView<(u16, u16)>;

    closed spec fn view(&self) -> CardView<(u16, u16)> {
        let m = self.core.model();
        CardView {
            initialized: m.initialized,
            config: m.config,
            axes: view_axes(m.axes),
            error_count: m.error_count,
            last_error: m.last_error,
            started: m.started,
        }
    }
}

/// The axes an Advantech card on `device` installs for `count` axes.
pub open spec fn advantech_axes(device: u16, count: usize) -> Map<usize, (u16, u16)> {
    fresh_axes(count, |i: usize| (device, i as u16))
}

/// The axes an Advantech card installs are exactly those below the count,
/// and axis `i` is channel `i` (cut to 16 bits) of the device.
pub proof fn law_advantech_axis_channels(device: u16, count: usize, i: usize)
    ensures
        advantech_axes(device, count).contains_key(i) <==> i < count,
        i < count ==> advantech_axes(device, count)[i].0 == device,
        i < count ==> advantech_axes(device, count)[i].1 == i as u16,
        i < count && i <= 0xffff ==> advantech_axes(device, count)[i].1 as int == i as int,
{
}

impl AdvantechCard {
    /// The device number the SDK gave the card.
    pub closed spec fn device_id(&self) -> u16 {
        self.device
    }

    /// A card that is not initialized yet, on device 0.
    pub fn new() -> (r: Self)
        ensures
            r@ == CardView::<(u16, u16)>::created(r@.started),
            r.device_id() == 0,
    {
        let r = AdvantechCard { device: 0, core: CardCore::new() };
        assert(r@.axes =~= Map::empty());
        r
    }

    /// The device number the SDK gave the card.
    pub fn device(&self) -> (r: u16)
        ensures
            r == self.device_id(),
    {
        self.device
    }

    /// Turns the return code of an SDK call into a result: `Ok` for 0;
    /// otherwise the failure is counted, its message recorded, and an
    /// `SdkError` with the code (cut to 16 bits) returned.
    pub fn check_result(&mut self, code: i32, context: &str) -> (r: Result<()>)
        requires
            code != 0 ==> old(self)@.error_count < u32::MAX,
        ensures
            final(self).device_id() == old(self).device_id(),
            final(self)@ == old(self)@.after(
                CardEvent::Checked { context: context@, code: code as int },
            ),
            code == 0 ==> r is Ok,
            code != 0 ==> is_sdk_error(r, code as i16, code_message(context@, code as int)),
    {
        if code == 0 {
            Ok(())
        } else {
            let message = self.core.record_failure(context, code as i64);
            Err(MotionError::SdkError { code: code as i16, message })
        }
    }

    /// Completes an initialization, given what `APS_initial` returned: its
    /// `code` and the `device` number it wrote, and the instant `started`
    /// the clock read after the call. On success the card keeps the device
    /// and the configuration, is initialized, counts its uptime from
    /// `started` and holds the axes `0..config.axis_count` of that device;
    /// on failure only the failure is recorded.
    pub fn apply_initialize(
        &mut self,
        code: i32,
        device: u16,
        config: &CardConfig,
        started: Instant,
    ) -> (r: Result<()>)
        requires
            code != 0 ==> old(self)@.error_count < u32::MAX,
        ensures
            code == 0 ==> r is Ok && final(self).device_id() == device && final(self)@ == old(
                self,
            )@.after(
                CardEvent::Initialized {
                    config: config@,
                    fresh: advantech_axes(device, config.axis_count),
                    started,
                },
            ),
            code == 0 ==> forall|i: usize|
                i < config.axis_count ==> #[trigger] final(self)@.axes.contains_key(i)
                    && final(self)@.axes[i] == (device, i as u16),
            code != 0 ==> final(self).device_id() == old(self).device_id() && final(self)@ == old(
                self,
            )@.after(CardEvent::Checked { context: "APS_initial"@, code: code as int })
                && is_sdk_error(r, code as i16, code_message("APS_initial"@, code as int)),
    {
        self.check_result(code, "APS_initial")?;
        self.device = device;
        let ghost before = self.core.model().axes;
        let new_axis = (|i: usize| -> (a: AdvantechAxis)
            ensures
                a@ == (device, i as u16),
            { AdvantechAxis::new(device, i as u16) });
        self.core.install(config, new_axis, started);
        assert(self@.axes =~= old(self)@.axes.union_prefer_right(
            advantech_axes(device, config.axis_count),
        ));
        Ok(())
    }

    /// Completes closing the card (after `APS_close`): it is no longer
    /// initialized and has no axes.
    pub fn apply_close(&mut self)
        ensures
            final(self).device_id() == old(self).device_id(),
            final(self)@ == old(self)@.after(CardEvent::Closed),
    {
        self.core.clear();
        assert(self@.axes =~= Map::empty());
    }

    /// The card's status; the uptime is zero while it is not initialized.
    pub fn status(&self) -> (s: CardStatus)
        ensures
            s.is_initialized == self@.initialized,
            s.error_count == self@.error_count,
            s.last_error@ == self@.last_error,
            !self@.initialized ==> s.uptime == duration_from_nanos(0),
    {
        self.core.status()
    }

    /// The card's status given `uptime`, the time passed since the card was
    /// last initialized: the uptime is that time while the card is
    /// initialized, and zero otherwise.
    pub fn status_with_uptime(&self, uptime: Duration) -> (s: CardStatus)
        ensures
            s.is_initialized == self@.initialized,
            s.error_count == self@.error_count,
            s.last_error@ == self@.last_error,
            s.uptime == (if self@.initialized { uptime } else { duration_from_nanos(0) }),
    {
        self.core.status_with_uptime(uptime)
    }

    /// The card's name.
    pub fn card_name(&self) -> (r: &'static str)
        ensures
            r@ == "研华 Advantech"@,
    {
        "研华 Advantech"
    }

    /// The card's model series.
    pub fn card_type(&self) -> (r: &'static str)
        ensures
            r@ == "PCI-124x Series"@,
    {
        "PCI-124x Series"
    }

    /// The number of axes: that of the configuration, or 4 before one.
    pub fn axis_count(&self) -> (r: usize)
        ensures
            r == self@.axis_count(),
    {
        self.core.axis_count()
    }

    /// The number of digital inputs.
    pub fn input_count(&self) -> (r: usize)
        ensures
            r == 16,
    {
        16
    }

    /// The number of digital outputs.
    pub fn output_count(&self) -> (r: usize)
        ensures
            r == 16,
    {
        16
    }

    /// The axis under `index`, or `AxisOutOfRange` where the card has none.
    pub fn get_axis(&mut self, index: usize) -> (r: Result<&mut AdvantechAxis>)
        ensures
            final(self).device_id() == old(self).device_id(),
            match r {
                Ok(a) => old(self)@.axes.contains_key(index) && a@ == old(self)@.axes[index]
                    && final(self)@ == old(self)@.after(
                    CardEvent::AxisReplaced { index, axis: final(a)@ },
                ),
                Err(e) => !old(self)@.axes.contains_key(index) && final(self)@ == old(self)@
                    && e == MotionError::AxisOutOfRange { index, max: old(self)@.axis_count() },
            },
    {
        let max = self.core.axis_count();
        match self.core.axis_mut(index) {
            Some(a) => Ok(a),
            None => Err(MotionError::AxisOutOfRange { index, max }),
        }
    }

    /// Whether input `port` is on, from the input word of `APS_get_DI`.
    pub fn input_from_state(state: u32, port: u16) -> (r: bool)
        requires
            port < 32,
        ensures
            r == (state & (1u32 << port) != 0),
    {
        state & (1u32 << port) != 0
    }

    /// All 16 inputs as a bit mask, from the input word of `APS_get_DI`:
    /// its low 16 bits.
    pub fn inputs_from_state(state: u32) -> (r: u16)
        ensures
            r == state as u16,
    {
        state as u16
    }

    /// The state `APS_set_DO` is given to write `value` to an output.
    pub fn output_state(value: bool) -> (r: u16)
        ensures
            r == (if value { 1u16 } else { 0u16 }),
    {
        if value {
            1
        } else {
            0
        }
    }

    /// The states `APS_set_DO` is given for channels 0 to 15 to write the
    /// bit mask `value`: bit `i` of `value` for channel `i`.
    pub fn output_states(value: u16) -> (r: Vec<u16>)
        ensures
            r.len() == 16,
            forall|i: int| 0 <= i < 16 ==> #[trigger] r@[i] == (value >> (i as u16)) & 1,
    {
        let mut r: Vec<u16> = Vec::new();
        let mut i: u16 = 0;
        while i < 16
            invariant
                i <= 16,
                r.len() == i,
                forall|j: int| 0 <= j < i ==> #[trigger] r@[j] == (value >> (j as u16)) & 1,
            decreases 16 - i,
        {
            r.push((value >> i) & 1);
            i = i + 1;
        }
        r
    }
}

} // verus!
