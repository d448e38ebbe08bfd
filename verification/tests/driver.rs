use weather_station::driver::idle_poll_action;
use weather_station::driver::is_busy;
use weather_station::driver::PollAction;
use weather_station::driver::BusOp;
use weather_station::driver::DisplayDriver;
use weather_station::driver::DisplayDriverConfig;
use weather_station::driver::LineLevel;
use weather_station::driver::TransferMode;
use weather_station::framebuffer::BUFFER_SIZE;

fn cmd(opcode: u8) -> BusOp {
    BusOp::Transfer(TransferMode::Command, vec![opcode])
}

fn data(bytes: &[u8]) -> BusOp {
    BusOp::Transfer(TransferMode::Data, bytes.to_vec())
}

fn expected_reset() -> Vec<BusOp> {
    vec![
        BusOp::SetResetLine(true),
        BusOp::DelayMs(200),
        BusOp::SetResetLine(false),
        BusOp::DelayMs(2),
        BusOp::SetResetLine(true),
        BusOp::DelayMs(200),
    ]
}

fn expected_init() -> Vec<BusOp> {
    let mut ops = expected_reset();
    ops.push(cmd(0x01));
    ops.push(data(&[0x07, 0x07, 0x3f, 0x3f]));
    ops.push(cmd(0x04));
    ops.push(BusOp::DelayMs(100));
    ops.push(cmd(0x00));
    ops.push(data(&[0x1f]));
    ops.push(cmd(0x61));
    ops.push(data(&[0x03, 0x20, 0x01, 0xe0]));
    ops.push(cmd(0x15));
    ops.push(data(&[0x00]));
    ops.push(cmd(0x50));
    ops.push(data(&[0x10, 0x07]));
    ops.push(cmd(0x60));
    ops.push(data(&[0x22]));
    ops.push(cmd(0x65));
    ops.push(data(&[0x00, 0x00, 0x00, 0x00]));
    ops
}

fn expected_refresh(poll_delay: u32) -> Vec<BusOp> {
    vec![cmd(0x12), BusOp::DelayMs(50), BusOp::WaitUntilIdle(poll_delay)]
}

fn expected_clear_screen(poll_delay: u32) -> Vec<BusOp> {
    let blank = vec![0u8; BUFFER_SIZE];
    let mut ops = vec![cmd(0x10), data(&blank), cmd(0x13), data(&blank)];
    ops.extend(expected_refresh(poll_delay));
    ops
}

fn expected_sleep(poll_delay: u32) -> Vec<BusOp> {
    vec![
        cmd(0x02),
        BusOp::WaitUntilIdle(poll_delay),
        cmd(0x07),
        data(&[0xa5]),
    ]
}

#[test]
fn fresh_driver_records_nothing() {
    let driver = DisplayDriver::new(DisplayDriverConfig { delay_ms: 0 });
    assert!(driver.ops().is_empty());
}

#[test]
fn reset_records_the_mandatory_pulse() {
    let mut driver = DisplayDriver::new(DisplayDriverConfig { delay_ms: 0 });
    driver.reset();
    assert_eq!(driver.ops(), &expected_reset());
}

#[test]
fn init_records_the_documented_sequence() {
    let mut driver = DisplayDriver::new(DisplayDriverConfig { delay_ms: 0 });
    driver.init();
    assert_eq!(driver.ops(), &expected_init());
}

#[test]
fn refresh_records_settle_then_wait() {
    let mut driver = DisplayDriver::new(DisplayDriverConfig { delay_ms: 5 });
    driver.init();
    let _ = driver.take_ops();
    driver.refresh();
    assert_eq!(driver.ops(), &expected_refresh(5));
}

#[test]
fn transmit_frame_takes_exactly_one_frame() {
    let mut driver = DisplayDriver::new(DisplayDriverConfig { delay_ms: 3 });
    driver.init();
    let _ = driver.take_ops();

    let mut frame = vec![0u8; BUFFER_SIZE];
    frame[0] = 0xaa;
    frame[BUFFER_SIZE - 1] = 0x55;
    driver.transmit_frame(&frame);

    let expected = vec![BusOp::WaitUntilIdle(3), cmd(0x13), data(&frame)];
    assert_eq!(driver.ops(), &expected);
}

#[test]
fn sleep_records_power_off_then_deep_sleep() {
    let mut driver = DisplayDriver::new(DisplayDriverConfig { delay_ms: 2 });
    driver.init();
    let _ = driver.take_ops();
    driver.sleep();
    assert_eq!(driver.ops(), &expected_sleep(2));
}

#[test]
fn end_to_end_scenario_matches_the_documented_sequences() {
    let poll_delay = 4;
    let mut driver = DisplayDriver::new(DisplayDriverConfig { delay_ms: poll_delay });
    driver.init();
    driver.clear_screen();
    driver.sleep();
    driver.wake_up();

    let mut expected = expected_init();
    expected.extend(expected_clear_screen(poll_delay));
    expected.extend(expected_sleep(poll_delay));
    expected.extend(expected_init());

    assert_eq!(driver.ops(), &expected);

    // The busy line is polled before the frame data of the clearing step and
    // after power-off: a wait stands between the two points in the trace.
    let waits = driver
        .ops()
        .iter()
        .filter(|op| matches!(op, BusOp::WaitUntilIdle(_)))
        .count();
    assert_eq!(waits, 2);
}

#[test]
fn take_ops_drains_the_trace() {
    let mut driver = DisplayDriver::new(DisplayDriverConfig { delay_ms: 0 });
    driver.reset();
    let taken = driver.take_ops();
    assert_eq!(taken, expected_reset());
    assert!(driver.ops().is_empty());
}

#[test]
fn busy_line_is_low_active() {
    assert!(is_busy(LineLevel::Low));
    assert!(!is_busy(LineLevel::High));
}

#[test]
fn idle_wait_paces_polls_by_the_configured_delay() {
    assert_eq!(idle_poll_action(LineLevel::High, 0), PollAction::Done);
    assert_eq!(idle_poll_action(LineLevel::High, 9), PollAction::Done);
    assert_eq!(idle_poll_action(LineLevel::Low, 0), PollAction::PollAgain);
    assert_eq!(idle_poll_action(LineLevel::Low, 9), PollAction::PauseThenPoll(9));
}
