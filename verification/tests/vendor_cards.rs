use std::time::{Duration, Instant};
use motion::{AdvantechAxis, AdvantechCard, CardConfig, GoogolAxis, GoogolCard, LeisaiAxis, LeisaiCard, MotionError};

fn sdk_error(e: MotionError) -> (i16, String) {
    match e {
        MotionError::SdkError { code, message } => (code, message),
        other => panic!("expected SdkError, got {:?}", other),
    }
}

#[test]
fn advantech_new_card_is_idle() {
    let card = AdvantechCard::new();
    let status = card.status();
    assert!(!status.is_initialized);
    assert_eq!(status.error_count, 0);
    assert_eq!(status.last_error, "");
    assert_eq!(status.uptime, std::time::Duration::ZERO);
    assert_eq!(card.device(), 0);
    assert_eq!(card.axis_count(), 4);
    assert_eq!(card.input_count(), 16);
    assert_eq!(card.output_count(), 16);
    assert_eq!(card.card_name(), "研华 Advantech");
    assert_eq!(card.card_type(), "PCI-124x Series");
}

#[test]
fn advantech_initialize_installs_axes_of_device() {
    let mut card = AdvantechCard::new();
    card.apply_initialize(0, 7, &CardConfig::new().with_axis_count(3), Instant::now()).unwrap();
    assert!(card.status().is_initialized);
    assert_eq!(card.device(), 7);
    assert_eq!(card.axis_count(), 3);
    let axis = card.get_axis(2).unwrap();
    assert_eq!(axis.device(), 7);
    assert_eq!(axis.channel(), 2);
    assert_eq!(axis.axis_index(), 2);
    match card.get_axis(3) {
        Err(MotionError::AxisOutOfRange { index, max }) => {
            assert_eq!(index, 3);
            assert_eq!(max, 3);
        }
        _ => panic!("expected AxisOutOfRange"),
    }
}

#[test]
fn advantech_failed_initialize_records_error() {
    let mut card = AdvantechCard::new();
    let (code, message) = sdk_error(card.apply_initialize(-1, 9, &CardConfig::new(), Instant::now()).unwrap_err());
    assert_eq!(code, -1);
    assert_eq!(message, "APS_initial (code: -1)");
    let status = card.status();
    assert!(!status.is_initialized);
    assert_eq!(status.error_count, 1);
    assert_eq!(status.last_error, "APS_initial (code: -1)");
    assert_eq!(card.device(), 0);
    assert!(card.get_axis(0).is_err());
}

#[test]
fn advantech_check_result_cuts_code_to_16_bits() {
    let mut card = AdvantechCard::new();
    assert!(card.check_result(0, "APS_home").is_ok());
    assert_eq!(card.status().error_count, 0);
    let (code, message) = sdk_error(card.check_result(70000, "APS_move (absolute)").unwrap_err());
    assert_eq!(code, 4464);
    assert_eq!(message, "APS_move (absolute) (code: 70000)");
    let (code, _) = sdk_error(card.check_result(-2, "APS_home").unwrap_err());
    assert_eq!(code, -2);
    let status = card.status();
    assert_eq!(status.error_count, 2);
    assert_eq!(status.last_error, "APS_home (code: -2)");
}

#[test]
fn advantech_close_drops_axes() {
    let mut card = AdvantechCard::new();
    card.apply_initialize(0, 1, &CardConfig::new(), Instant::now()).unwrap();
    card.apply_close();
    assert!(!card.status().is_initialized);
    assert!(card.get_axis(0).is_err());
    assert_eq!(card.device(), 1);
}

#[test]
fn advantech_decodes_inputs_and_outputs() {
    assert!(AdvantechCard::input_from_state(0b100, 2));
    assert!(!AdvantechCard::input_from_state(0b100, 1));
    assert!(AdvantechCard::input_from_state(0x8000_0000, 31));
    assert_eq!(AdvantechCard::inputs_from_state(0x1234_5678), 0x5678);
    assert_eq!(AdvantechCard::output_state(true), 1);
    assert_eq!(AdvantechCard::output_state(false), 0);
    let states = AdvantechCard::output_states(0b1000_0000_0000_0101);
    assert_eq!(states, vec![1, 0, 1, 0, 0, 0, 0, 0, 0, 0, 0, 0, 0, 0, 0, 1]);
}

#[test]
fn advantech_axis_decodes_status_word() {
    let axis = AdvantechAxis::new(3, 5);
    assert_eq!(axis.device(), 3);
    assert_eq!(axis.channel(), 5);
    assert!(AdvantechAxis::moving_from_status(0b0001));
    assert!(!AdvantechAxis::moving_from_status(0b1110));
    assert!(AdvantechAxis::alarm_from_status(0b0010));
    assert!(AdvantechAxis::limit_positive_from_status(0b0100));
    assert!(AdvantechAxis::limit_negative_from_status(0b1000));
    assert!(AdvantechAxis::enabled_from_servo(1));
    assert!(!AdvantechAxis::enabled_from_servo(0));
    let s = AdvantechAxis::status_from(1, 0b1100);
    assert!(s.is_ready && s.is_servo_on && !s.is_alarm && !s.is_homing);
    assert!(s.is_limit_positive && s.is_limit_negative);
    let s = AdvantechAxis::status_from(1, 0b0010);
    assert!(!s.is_ready && s.is_alarm);
}

#[test]
fn googol_initialize_and_errors() {
    let mut card = GoogolCard::new();
    assert_eq!(card.card_name(), "固高 Googol");
    assert_eq!(card.card_type(), "GTS Series");
    let (code, message) = sdk_error(card.apply_initialize(-7, &CardConfig::new(), Instant::now()).unwrap_err());
    assert_eq!(code, -7);
    assert_eq!(message, "GT_Init (code: -7)");
    assert_eq!(card.status().error_count, 1);
    card.apply_initialize(0, &CardConfig::new().with_axis_count(2), Instant::now()).unwrap();
    assert!(card.status().is_initialized);
    assert_eq!(card.get_axis(1).unwrap().sdk_axis(), 1);
    assert_eq!(card.get_axis(1).unwrap().axis_index(), 1);
    assert!(card.get_axis(2).is_err());
    card.close();
    assert!(!card.status().is_initialized);
    assert!(card.get_axis(0).is_err());
    let (_, message) = sdk_error(card.check_result(3, "GT_Home").unwrap_err());
    assert_eq!(message, "GT_Home (code: 3)");
    assert_eq!(card.status().last_error, "GT_Home (code: 3)");
}

#[test]
fn googol_decodes_readings() {
    assert!(GoogolCard::input_from_state(3));
    assert!(!GoogolCard::input_from_state(2));
    assert_eq!(GoogolCard::inputs_from_state(-1), 0xFFFF);
    assert_eq!(GoogolCard::output_state(true), 1);
    assert_eq!(GoogolCard::outputs_state(0xFFFF), -1);
    assert!(GoogolAxis::enabled_from_clear(0));
    assert!(!GoogolAxis::enabled_from_clear(1));
    assert!(GoogolAxis::moving_from_status(4));
    assert!(!GoogolAxis::alarm_from_status(4));
    assert!(GoogolAxis::alarm_from_status(5));
    let s = GoogolAxis::status_from(0, 1);
    assert!(s.is_servo_on && s.is_alarm && !s.is_ready);
    assert!(!s.is_limit_positive && !s.is_limit_negative);
    assert_eq!(GoogolAxis::new(-1).axis_index(), usize::MAX);
}

#[test]
fn leisai_initialize_uses_board_id() {
    let mut card = LeisaiCard::new();
    assert_eq!(card.card_name(), "雷赛 Leadshine");
    assert_eq!(card.card_type(), "LTSMC Series");
    card.apply_initialize(0, &CardConfig::new().with_board_id(5).with_axis_count(2), Instant::now()).unwrap();
    assert_eq!(card.card_id(), 5);
    let axis = card.get_axis(1).unwrap();
    assert_eq!(axis.card_id(), 5);
    assert_eq!(axis.sdk_axis(), 1);
    assert!(card.get_axis(2).is_err());
    card.apply_close();
    assert!(card.get_axis(1).is_err());
    assert!(!card.status().is_initialized);
}

#[test]
fn leisai_failed_initialize_keeps_card_id() {
    let mut card = LeisaiCard::new();
    let (code, message) =
        sdk_error(card.apply_initialize(12, &CardConfig::new().with_board_id(5), Instant::now()).unwrap_err());
    assert_eq!(code, 12);
    assert_eq!(message, "nmc_board_init (code: 12)");
    assert_eq!(card.card_id(), 0);
    assert_eq!(card.status().error_count, 1);
}

#[test]
fn leisai_decodes_readings() {
    assert!(LeisaiCard::input_from_state(-3));
    assert!(!LeisaiCard::input_from_state(0));
    assert!(LeisaiAxis::moving_from_done(0));
    assert!(!LeisaiAxis::moving_from_done(1));
    assert!(LeisaiAxis::flag_from(2));
    let s = LeisaiAxis::status_from(1, 0, 1, 0);
    assert!(s.is_ready && s.is_limit_positive && !s.is_limit_negative);
    let s = LeisaiAxis::status_from(0, 1, 0, 1);
    assert!(!s.is_ready && !s.is_servo_on && s.is_alarm && s.is_limit_negative);
}

#[test]
fn advantech_error_count_over_a_run_of_calls() {
    let mut card = AdvantechCard::new();
    let codes = [0, 5, 0, -1, 0, 0, 7, 0];
    for code in codes {
        let _ = card.check_result(code, "APS_move (absolute)");
    }
    let status = card.status();
    assert_eq!(status.error_count, 3);
    assert_eq!(status.last_error, "APS_move (absolute) (code: 7)");
    let mut clean = LeisaiCard::new();
    for _ in 0..4 {
        clean.check_result(0, "nmc_axis_stop").unwrap();
    }
    assert_eq!(clean.status().error_count, 0);
    assert_eq!(clean.status().last_error, "");
}

#[test]
fn card_uptime_counts_from_initialization() {
    let mut card = GoogolCard::new();
    let d = Duration::from_secs(3);
    assert_eq!(card.status_with_uptime(d).uptime, Duration::ZERO);
    card.apply_initialize(0, &CardConfig::new(), Instant::now()).unwrap();
    assert_eq!(card.status_with_uptime(d).uptime, d);
    card.close();
    assert_eq!(card.status_with_uptime(d).uptime, Duration::ZERO);
    let mut a = AdvantechCard::new();
    a.apply_initialize(0, 2, &CardConfig::new(), Instant::now()).unwrap();
    assert_eq!(a.status_with_uptime(d).uptime, d);
    let mut l = LeisaiCard::new();
    l.apply_initialize(0, &CardConfig::new(), Instant::now()).unwrap();
    assert_eq!(l.status_with_uptime(d).uptime, d);
}
