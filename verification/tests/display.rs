use weather_station::driver::BusOp;
use weather_station::driver::DisplayDriver;
use weather_station::driver::DisplayDriverConfig;
use weather_station::driver::TransferMode;
use weather_station::framebuffer::Color;
use weather_station::framebuffer::DisplayConfig;
use weather_station::framebuffer::BUFFER_SIZE;
use weather_station::physical::PhysicalDisplay;

fn fresh_display(poll_delay: u32, allow: bool) -> PhysicalDisplay {
    let mut driver = DisplayDriver::new(DisplayDriverConfig { delay_ms: poll_delay });
    driver.init();
    let _ = driver.take_ops();
    PhysicalDisplay::new(driver, DisplayConfig { allow_out_of_bounds_drawing: allow })
}

#[test]
fn display_starts_blank() {
    let display = fresh_display(0, false);
    assert_eq!(display.as_bytes().len(), BUFFER_SIZE);
    assert!(display.as_bytes().iter().all(|&b| b == 0x00));
    assert_eq!(display.size(), (800, 480));
}

#[test]
fn flush_sends_the_framebuffer_bytes() {
    let mut display = fresh_display(6, false);
    display.set_pixel(0, 0, Color::On);
    display.flush();

    let ops = display.take_ops();
    assert_eq!(ops.len(), 3);
    assert_eq!(ops[0], BusOp::WaitUntilIdle(6));
    assert_eq!(ops[1], BusOp::Transfer(TransferMode::Command, vec![0x13]));
    match &ops[2] {
        BusOp::Transfer(TransferMode::Data, frame) => {
            assert_eq!(frame.len(), BUFFER_SIZE);
            assert_eq!(frame[0], 0x80);
            assert!(frame[1..].iter().all(|&b| b == 0x00));
        }
        other => panic!("expected a data transfer, got {:?}", other),
    }
}

#[test]
fn flush_and_refresh_appends_the_refresh_steps() {
    let mut display = fresh_display(1, false);
    display.flush_and_refresh();

    let ops = display.take_ops();
    assert_eq!(ops.len(), 6);
    assert_eq!(ops[0], BusOp::WaitUntilIdle(1));
    assert_eq!(ops[3], BusOp::Transfer(TransferMode::Command, vec![0x12]));
    assert_eq!(ops[4], BusOp::DelayMs(50));
    assert_eq!(ops[5], BusOp::WaitUntilIdle(1));
}

#[test]
fn clear_screen_can_keep_or_reset_the_framebuffer() {
    let mut display = fresh_display(0, false);
    display.set_pixel(9, 9, Color::On);

    display.clear_screen(false);
    assert_eq!(display.get_pixel(9, 9), Color::On);

    display.clear_screen(true);
    assert_eq!(display.get_pixel(9, 9), Color::Off);
    assert!(display.as_bytes().iter().all(|&b| b == 0x00));
}

#[test]
fn display_gates_drawing_by_its_policy() {
    let mut permissive = fresh_display(0, true);
    assert!(permissive.allow_out_of_bounds_drawing());
    assert!(permissive.draw_pixel(-1, -1, Color::On).is_ok());

    let mut strict = fresh_display(0, false);
    assert!(!strict.allow_out_of_bounds_drawing());
    assert!(strict.draw_pixel(-1, -1, Color::On).is_err());
    assert!(strict.draw_pixel(1, 1, Color::On).is_ok());
    assert_eq!(strict.get_pixel(1, 1), Color::On);
}

#[test]
fn sleep_then_wake_records_both_sequences() {
    let mut display = fresh_display(0, false);
    display.sleep();
    display.wake_up();
    let ops = display.take_ops();
    // Power off, wait, deep sleep command and payload, then the full
    // re-initialization of 22 operations.
    assert_eq!(ops.len(), 4 + 22);
    assert_eq!(ops[0], BusOp::Transfer(TransferMode::Command, vec![0x02]));
    assert_eq!(ops[3], BusOp::Transfer(TransferMode::Data, vec![0xa5]));
    assert_eq!(ops[4], BusOp::SetResetLine(true));
}
