use motion::mock::MockCard;
use std::time::{Duration, Instant};
use motion::{CardConfig, HomeMode, MotionError, Result, StopMode};

/// A simulated axis for these tests: it moves instantly, as the demo
/// program's simulated axis does.
struct SimAxis {
    enabled: bool,
    moving: bool,
    position: f64,
    velocity: f64,
    soft_limit: Option<(f64, f64)>,
}

impl SimAxis {
    fn new(_index: usize) -> Self {
        SimAxis { enabled: false, moving: false, position: 0.0, velocity: 0.0, soft_limit: None }
    }
    fn enable(&mut self) {
        self.enabled = true;
    }
    fn disable(&mut self) {
        self.enabled = false;
        self.moving = false;
    }
    fn is_enabled(&self) -> bool {
        self.enabled
    }
    fn is_moving(&self) -> bool {
        self.moving
    }
    fn current_position(&self) -> f64 {
        self.position
    }
    fn current_velocity(&self) -> f64 {
        self.velocity
    }
    fn move_absolute(&mut self, position: f64, velocity: f64) {
        self.position = position;
        self.velocity = velocity;
        self.moving = false;
    }
    fn move_relative(&mut self, distance: f64, velocity: f64) {
        self.position += distance;
        self.velocity = velocity;
        self.moving = false;
    }
    fn jog_positive(&mut self, velocity: f64) {
        self.moving = true;
        self.velocity = velocity;
    }
    fn stop(&mut self, _mode: StopMode) {
        self.moving = false;
        self.velocity = 0.0;
    }
    fn move_home(&mut self, _mode: HomeMode) {
        self.position = 0.0;
    }
    fn enable_soft_limit(&mut self, min: f64, max: f64) {
        self.soft_limit = Some((min, max));
    }
    fn disable_soft_limit(&mut self) {
        self.soft_limit = None;
    }
}

fn make_card() -> MockCard<SimAxis> {
    let mut card = MockCard::new();
    card.initialize_with(&CardConfig::default().with_axis_count(4), SimAxis::new, Instant::now()).unwrap();
    card
}

fn move_absolute(card: &mut MockCard<SimAxis>, axis: usize, position: f64, velocity: f64) -> Result<()> {
    if let Some(a) = card.motion_target(axis)? {
        a.move_absolute(position, velocity);
    }
    Ok(())
}

fn move_relative(card: &mut MockCard<SimAxis>, axis: usize, distance: f64, velocity: f64) -> Result<()> {
    if let Some(a) = card.motion_target(axis)? {
        a.move_relative(distance, velocity);
    }
    Ok(())
}

fn move_home(card: &mut MockCard<SimAxis>, axis: usize, _mode: HomeMode) -> Result<()> {
    if let Some(a) = card.motion_target(axis)? {
        a.move_home(HomeMode::Auto);
    }
    Ok(())
}

fn stop_axis(card: &mut MockCard<SimAxis>, axis: usize, _mode: StopMode) {
    if let Ok(a) = card.get_axis(axis) {
        a.stop(StopMode::Immediate);
    }
}

#[test]
fn test_initialize_and_close() {
    let mut card: MockCard<SimAxis> = MockCard::new();
    assert!(!card.status().is_initialized);

    card.initialize_with(&CardConfig::default().with_axis_count(2), SimAxis::new, Instant::now()).unwrap();
    assert!(card.status().is_initialized);
    assert_eq!(card.axis_count(), 2);

    card.close();
    assert!(!card.status().is_initialized);
}

#[test]
fn test_axis_enable_disable() {
    let mut card = make_card();
    let axis = card.get_axis(0).unwrap();
    assert!(!axis.is_enabled());

    card.get_axis(0).unwrap().enable();
    assert!(card.get_axis(0).unwrap().is_enabled());

    card.get_axis(0).unwrap().disable();
    assert!(!card.get_axis(0).unwrap().is_enabled());
}

#[test]
fn test_absolute_and_relative_move() {
    let mut card = make_card();
    card.get_axis(0).unwrap().enable();

    move_absolute(&mut card, 0, 100.0, 50.0).unwrap();
    assert_eq!(card.get_axis(0).unwrap().current_position(), 100.0);

    move_relative(&mut card, 0, 50.0, 30.0).unwrap();
    assert_eq!(card.get_axis(0).unwrap().current_position(), 150.0);
}

#[test]
fn test_axis_out_of_range() {
    let mut card = make_card();
    // axis_count is 4, so index 4 should be out of range
    assert!(card.get_axis(4).is_err());
}

#[test]
fn test_not_initialized_error() {
    let mut card: MockCard<SimAxis> = MockCard::new();
    let result = move_absolute(&mut card, 0, 100.0, 50.0);
    assert!(result.is_err());
}

#[test]
fn test_io_operations() {
    let mut card = make_card();

    card.write_output(0, true);
    assert!(card.read_input(0) == false); // input is separate from output

    // Test bitmask operations
    card.write_all_outputs(0b1010);
    let inputs = card.read_all_inputs();
    assert_eq!(inputs, 0);

    card.set_input(1, true);
    card.set_input(3, true);
    let bitmask = card.read_all_inputs();
    assert_eq!(bitmask, 0b1010);
}

#[test]
fn test_home() {
    let mut card = make_card();
    move_absolute(&mut card, 0, 200.0, 50.0).unwrap();
    assert_eq!(card.get_axis(0).unwrap().current_position(), 200.0);

    move_home(&mut card, 0, HomeMode::Auto).unwrap();
    assert_eq!(card.get_axis(0).unwrap().current_position(), 0.0);
}

#[test]
fn test_jog_and_stop() {
    let mut card = make_card();
    let axis = card.get_axis(0).unwrap();
    axis.jog_positive(100.0);
    assert!(axis.is_moving());

    stop_axis(&mut card, 0, StopMode::Immediate);
    assert!(!card.get_axis(0).unwrap().is_moving());
    assert_eq!(card.get_axis(0).unwrap().current_velocity(), 0.0);
}

#[test]
fn test_soft_limit() {
    let mut card = make_card();
    let axis = card.get_axis(0).unwrap();
    axis.enable_soft_limit(-100.0, 100.0);
    // The simulated axis does not enforce limits, but it stores them
    card.get_axis(0).unwrap().disable_soft_limit();
    assert!(card.get_axis(0).unwrap().soft_limit.is_none());
}

#[test]
fn mock_not_initialized_is_the_error() {
    let mut card: MockCard<SimAxis> = MockCard::new();
    assert!(matches!(card.motion_target(0), Err(MotionError::NotInitialized)));
}

#[test]
fn mock_motion_on_missing_axis_does_nothing() {
    let mut card = make_card();
    assert!(matches!(card.motion_target(9), Ok(None)));
    assert!(move_absolute(&mut card, 9, 1.0, 1.0).is_ok());
}

#[test]
fn mock_out_of_range_reports_index_and_count() {
    let mut card = make_card();
    match card.get_axis(7) {
        Err(MotionError::AxisOutOfRange { index, max }) => {
            assert_eq!(index, 7);
            assert_eq!(max, 4);
        }
        _ => panic!("expected AxisOutOfRange"),
    }
}

#[test]
fn mock_defaults_before_initialization() {
    let card: MockCard<SimAxis> = MockCard::new();
    assert_eq!(card.axis_count(), 4);
    assert_eq!(card.input_count(), 16);
    assert_eq!(card.output_count(), 16);
    assert_eq!(card.card_name(), "Mock Test Card");
    assert_eq!(card.card_type(), "Mock");
    let status = card.status();
    assert_eq!(status.error_count, 0);
    assert_eq!(status.last_error, "");
    assert_eq!(status.uptime, std::time::Duration::ZERO);
}

#[test]
fn mock_close_drops_axes_and_keeps_count() {
    let mut card = make_card();
    card.close();
    assert!(card.get_axis(0).is_err());
    assert_eq!(card.axis_count(), 4);
    assert!(card.axis_indices().is_empty());
}

#[test]
fn mock_reinitialize_keeps_higher_axes() {
    let mut card = make_card();
    card.initialize_with(&CardConfig::default().with_axis_count(2), SimAxis::new, Instant::now()).unwrap();
    assert_eq!(card.axis_count(), 2);
    assert!(card.get_axis(3).is_ok());
    let mut indices = card.axis_indices();
    indices.sort();
    assert_eq!(indices, vec![0, 1, 2, 3]);
}

#[test]
fn mock_input_mask_reads_every_port() {
    let mut card: MockCard<SimAxis> = MockCard::new();
    card.set_input(0, true);
    card.set_input(15, true);
    card.set_input(20, true);
    assert_eq!(card.read_all_inputs(), 0b1000_0000_0000_0001);
    assert!(card.read_input(20));
    assert!(!card.read_input(21));
    card.set_input(0, false);
    assert_eq!(card.read_all_inputs(), 0b1000_0000_0000_0000);
}

#[test]
fn mock_status_counts_uptime_only_while_initialized() {
    let mut card: MockCard<SimAxis> = MockCard::new();
    let ten = Duration::from_millis(10);
    assert_eq!(card.status_with_uptime(ten).uptime, Duration::ZERO);
    card.initialize_with(&CardConfig::new(), SimAxis::new, Instant::now()).unwrap();
    let status = card.status_with_uptime(ten);
    assert!(status.is_initialized);
    assert_eq!(status.uptime, ten);
    card.close();
    assert_eq!(card.status_with_uptime(ten).uptime, Duration::ZERO);
}

#[test]
fn mock_never_records_failures() {
    let mut card = make_card();
    assert!(move_absolute(&mut card, 0, 1.0, 1.0).is_ok());
    card.close();
    assert!(move_absolute(&mut card, 0, 1.0, 1.0).is_err());
    assert!(card.get_axis(5).is_err());
    let status = card.status();
    assert_eq!(status.error_count, 0);
    assert_eq!(status.last_error, "");
}
