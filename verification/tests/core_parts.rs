use motion::text::{format_code_message, push_decimal};
use motion::{AxisStatus, CardConfig, CardFactory, CardStatus, CardVendor, MotionError};

#[test]
fn decimal_text_matches_display() {
    for n in [0i64, 7, -7, 10, 1234567890, -98765, i64::MAX, i64::MIN] {
        let mut s = String::new();
        push_decimal(&mut s, n);
        assert_eq!(s, n.to_string());
    }
}

#[test]
fn code_message_format() {
    assert_eq!(format_code_message("APS_initial", -3), "APS_initial (code: -3)");
    assert_eq!(format_code_message("", 0), " (code: 0)");
}

#[test]
fn default_config_values() {
    let c = CardConfig::default();
    assert_eq!(c.board_id, 0);
    assert_eq!(c.axis_count, 4);
    assert!(c.config_path.is_none());
    assert_eq!(c.timeout_ms, 5000);
    assert!(!c.debug);
    let n = CardConfig::new();
    assert_eq!(n.axis_count, 4);
    assert_eq!(n.timeout_ms, 5000);
}

#[test]
fn config_builders_set_one_field() {
    let c = CardConfig::new().with_axis_count(8).with_board_id(2).with_timeout(100).with_debug(true);
    assert_eq!(c.axis_count, 8);
    assert_eq!(c.board_id, 2);
    assert_eq!(c.timeout_ms, 100);
    assert!(c.debug);
    let d = CardConfig::new().with_board_id(2).with_axis_count(8);
    assert_eq!((d.board_id, d.axis_count), (c.board_id, c.axis_count));
    let mut e = CardConfig::new();
    e.config_path = Some("cards.ini".to_string());
    let f = e.clone();
    assert_eq!(f.config_path.as_deref(), Some("cards.ini"));
}

#[test]
fn vendor_names_and_keys() {
    assert_eq!(CardVendor::Leisai.registry_key(), "Leisai");
    assert_eq!(CardVendor::Googol.registry_key(), "Googol");
    assert_eq!(CardVendor::Advantech.registry_key(), "Advantech");
    assert_eq!(CardVendor::Mock.registry_key(), "Mock");
    assert_eq!(CardVendor::Leisai.display_name(), "雷赛 Leadshine");
    assert_eq!(CardVendor::Googol.display_name(), "固高 Googol");
    assert_eq!(CardVendor::Advantech.display_name(), "研华 Advantech");
    assert_eq!(CardVendor::Mock.display_name(), "模拟 Mock");
}

#[test]
fn status_defaults() {
    let a = AxisStatus::default();
    assert!(!a.is_ready && !a.is_homing && !a.is_servo_on && !a.is_alarm);
    assert!(!a.is_limit_positive && !a.is_limit_negative);
    let c = CardStatus::default();
    assert!(!c.is_initialized);
    assert_eq!(c.error_count, 0);
    assert_eq!(c.last_error, "");
    assert_eq!(c.uptime, std::time::Duration::ZERO);
}

#[test]
fn axis_status_from_signals() {
    let s = AxisStatus::from_signals(true, false, true, false);
    assert!(s.is_ready && s.is_servo_on && !s.is_alarm && s.is_limit_positive);
    let s = AxisStatus::from_signals(true, true, false, false);
    assert!(!s.is_ready && s.is_alarm);
    let s = AxisStatus::from_signals(false, false, false, true);
    assert!(!s.is_ready && !s.is_servo_on && s.is_limit_negative);
}

#[test]
fn factory_register_and_create() {
    let mut factory: CardFactory<u32> = CardFactory::new();
    factory.register("Mock", 1);
    factory.register("Leisai", 2);
    assert_eq!(*factory.create(CardVendor::Mock).unwrap(), 1);
    assert_eq!(*factory.create(CardVendor::Leisai).unwrap(), 2);
    assert_eq!(*factory.create_by_name("Leisai").unwrap(), 2);
    factory.register("Mock", 3);
    assert_eq!(*factory.create(CardVendor::Mock).unwrap(), 3);
    let mut names = factory.list_vendors();
    names.sort();
    assert_eq!(names, vec!["Leisai", "Mock"]);
}

#[test]
fn factory_unregistered_vendor_error() {
    let factory: CardFactory<u32> = CardFactory::new();
    match factory.create(CardVendor::Googol) {
        Err(MotionError::UnsupportedVendor(m)) => {
            assert_eq!(m, "未注册板卡 'Googol', 请检查依赖或手动注册");
        }
        _ => panic!("expected UnsupportedVendor"),
    }
    match factory.create_by_name("Foo") {
        Err(MotionError::UnsupportedVendor(m)) => assert_eq!(m, "未知板卡: Foo"),
        _ => panic!("expected UnsupportedVendor"),
    }
    assert!(factory.list_vendors().is_empty());
}
