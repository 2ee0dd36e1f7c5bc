use ssd1680::display::DisplayRotation;
use ssd1680::interface::{eighths, Action, SpiInterface, Step};
use ssd1680::ssd1680::BinaryColor;
use ssd1680::{Command, Error, Ssd1680, Ssd1680TriColor, TriColor, BUF_SIZE};

/// What a transport saw, one entry for each action it performed.
#[derive(Debug, PartialEq, Eq)]
enum Seen {
    Command(u8),
    Data(Vec<u8>),
    Wait,
    ResetLow,
    ResetHigh,
    Delay(u32),
}

fn seen(action: Action) -> Seen {
    match action {
        Action::SendCommand(code) => Seen::Command(code),
        Action::SendData(bytes) => Seen::Data(bytes),
        Action::WaitUntilIdle => Seen::Wait,
        Action::AssertReset => Seen::ResetLow,
        Action::DeassertReset => Seen::ResetHigh,
        Action::DelayMs(ms) => Seen::Delay(ms),
    }
}

/// A transport that records what it is asked to do and never fails.
fn record(interface: &mut SpiInterface) -> Vec<Seen> {
    let mut log = Vec::new();
    loop {
        match interface.step::<()>(Ok(())) {
            Step::Perform(action) => log.push(seen(action)),
            Step::Finished(result) => {
                assert_eq!(result, Ok(()));
                return log;
            }
        }
    }
}

fn record_mono(driver: &mut Ssd1680) -> Vec<Seen> {
    let mut log = Vec::new();
    loop {
        match driver.step::<()>(Ok(())) {
            Step::Perform(action) => log.push(seen(action)),
            Step::Finished(result) => {
                assert_eq!(result, Ok(()));
                return log;
            }
        }
    }
}

fn record_tri(driver: &mut Ssd1680TriColor) -> Vec<Seen> {
    let mut log = Vec::new();
    loop {
        match driver.step::<()>(Ok(())) {
            Step::Perform(action) => log.push(seen(action)),
            Step::Finished(result) => {
                assert_eq!(result, Ok(()));
                return log;
            }
        }
    }
}

/// The bus writes among what was seen: each opcode with the payload that
/// followed it.
fn writes(log: &[Seen]) -> Vec<(u8, Vec<u8>)> {
    let mut out: Vec<(u8, Vec<u8>)> = Vec::new();
    for entry in log {
        match entry {
            Seen::Command(code) => out.push((*code, Vec::new())),
            Seen::Data(bytes) => out.last_mut().unwrap().1.extend_from_slice(bytes),
            _ => {}
        }
    }
    out
}

fn hardware_reset() -> Vec<Seen> {
    vec![Seen::ResetLow, Seen::Delay(10), Seen::ResetHigh]
}

fn power_up() -> Vec<Seen> {
    vec![
        Seen::Command(0x12),
        Seen::Wait,
        Seen::Command(0x11),
        Seen::Data(vec![0x03]),
        Seen::Command(0x3C),
        Seen::Data(vec![0x05]),
        Seen::Command(0x2C),
        Seen::Data(vec![0x36]),
        Seen::Command(0x03),
        Seen::Data(vec![0x17]),
        Seen::Command(0x04),
        Seen::Data(vec![0x41, 0x00, 0x32]),
        Seen::Command(0x4E),
        Seen::Data(vec![0x01]),
        Seen::Command(0x4F),
        Seen::Data(vec![0x00, 0x00]),
        Seen::Command(0x44),
        Seen::Data(vec![0x01, 16]),
        Seen::Command(0x45),
        Seen::Data(vec![0, 0, 249, 32]),
        Seen::Command(0x01),
        Seen::Data(vec![249, 32, 0]),
    ]
}

fn address_at_start() -> Vec<Seen> {
    vec![
        Seen::Command(0x4E),
        Seen::Data(vec![0x01]),
        Seen::Command(0x4F),
        Seen::Data(vec![0x00, 0x00]),
    ]
}

fn update() -> Vec<Seen> {
    vec![Seen::Command(0x22), Seen::Data(vec![0xF4]), Seen::Command(0x20), Seen::Wait]
}

fn sleep() -> Vec<Seen> {
    vec![Seen::Command(0x10), Seen::Data(vec![0x01]), Seen::Delay(100)]
}

#[test]
fn eighths_rounds_up() {
    assert_eq!(eighths(0), 0);
    assert_eq!(eighths(1), 1);
    assert_eq!(eighths(8), 1);
    assert_eq!(eighths(9), 2);
    assert_eq!(eighths(122), 16);
    assert_eq!(eighths(248), 31);
    assert_eq!(eighths(249), 32);
    assert_eq!(eighths(250), 32);
    assert_eq!(eighths(255), 32);
}

#[test]
fn new_interface_has_nothing_to_do() {
    let mut interface = SpiInterface::new();
    assert_eq!(interface.pending_len(), 0);
    assert_eq!(interface.step::<u8>(Ok(())), Step::Finished(Ok(())));
    assert_eq!(interface.pending_len(), 0);
}

#[test]
fn send_command_queues_the_opcode() {
    let mut interface = SpiInterface::new();
    interface.send_command(Command::MasterActivate);
    assert_eq!(interface.pending_len(), 1);
    assert_eq!(record(&mut interface), vec![Seen::Command(0x20)]);
    assert_eq!(interface.pending_len(), 0);
}

#[test]
fn send_data_queues_the_bytes() {
    let mut interface = SpiInterface::new();
    interface.send_data(&[1, 2, 3]);
    interface.send_data(&[]);
    assert_eq!(record(&mut interface), vec![Seen::Data(vec![1, 2, 3]), Seen::Data(vec![])]);
}

#[test]
fn busy_wait_and_delay_queue_one_action_each() {
    let mut interface = SpiInterface::new();
    interface.busy_wait();
    interface.delay_ms(42);
    assert_eq!(record(&mut interface), vec![Seen::Wait, Seen::Delay(42)]);
}

#[test]
fn hardware_reset_holds_the_line_low_for_ten_milliseconds() {
    let mut interface = SpiInterface::new();
    interface.hardware_reset();
    assert_eq!(record(&mut interface), hardware_reset());
}

#[test]
fn software_reset_sends_the_opcode_and_waits() {
    let mut interface = SpiInterface::new();
    interface.software_reset();
    assert_eq!(record(&mut interface), vec![Seen::Command(0x12), Seen::Wait]);
}

#[test]
fn set_ram_address_payloads() {
    let mut interface = SpiInterface::new();
    interface.set_ram_address(1, 0);
    assert_eq!(record(&mut interface), address_at_start());

    interface.set_ram_address(5, 9);
    assert_eq!(writes(&record(&mut interface)), vec![(0x4E, vec![5]), (0x4F, vec![9, 2])]);

    interface.set_ram_address(255, 255);
    assert_eq!(writes(&record(&mut interface)), vec![(0x4E, vec![255]), (0x4F, vec![255, 32])]);

    interface.set_ram_address(0, 249);
    assert_eq!(writes(&record(&mut interface)), vec![(0x4E, vec![0]), (0x4F, vec![249, 32])]);
}

#[test]
fn write_ram_frame_buffer_sends_the_bytes_as_data() {
    let mut interface = SpiInterface::new();
    interface.write_ram_frame_buffer(&[9, 8, 7, 6], Command::WriteRAM1);
    interface.write_ram_frame_buffer(&[1, 2], Command::WriteRAM2);
    assert_eq!(
        record(&mut interface),
        vec![
            Seen::Command(0x24),
            Seen::Data(vec![9, 8, 7, 6]),
            Seen::Command(0x26),
            Seen::Data(vec![1, 2]),
        ]
    );
}

#[test]
fn configure_emits_the_fixed_sequence() {
    let mut interface = SpiInterface::new();
    interface.power_up();
    let log = record(&mut interface);
    assert_eq!(log, power_up());
    assert_eq!(
        writes(&log),
        vec![
            (0x12, vec![]),
            (0x11, vec![0x03]),
            (0x3C, vec![0x05]),
            (0x2C, vec![0x36]),
            (0x03, vec![0x17]),
            (0x04, vec![0x41, 0x00, 0x32]),
            (0x4E, vec![0x01]),
            (0x4F, vec![0x00, 0x00]),
            (0x44, vec![0x01, 0x10]),
            (0x45, vec![0x00, 0x00, 0xF9, 0x20]),
            (0x01, vec![0xF9, 0x20, 0x00]),
        ]
    );
}

#[test]
fn update_selects_the_sequence_and_starts_it() {
    let mut interface = SpiInterface::new();
    interface.update();
    assert_eq!(record(&mut interface), update());
}

#[test]
fn power_down_sends_sleep_mode_one() {
    let mut interface = SpiInterface::new();
    interface.power_down();
    assert_eq!(record(&mut interface), vec![Seen::Command(0x10), Seen::Data(vec![0x01])]);
}

#[test]
fn operations_queue_behind_each_other() {
    let mut interface = SpiInterface::new();
    interface.power_down();
    interface.software_reset();
    assert_eq!(interface.pending_len(), 4);
    assert_eq!(interface.step::<u8>(Ok(())), Step::Perform(Action::SendCommand(0x10)));
    assert_eq!(interface.pending_len(), 3);
    interface.busy_wait();
    assert_eq!(
        record(&mut interface),
        vec![Seen::Data(vec![0x01]), Seen::Command(0x12), Seen::Wait, Seen::Wait]
    );
}

#[test]
fn a_failed_write_ends_the_session() {
    let mut interface = SpiInterface::new();
    interface.power_up();
    assert_eq!(interface.step::<u8>(Ok(())), Step::Perform(Action::SendCommand(0x12)));
    assert_eq!(interface.step::<u8>(Ok(())), Step::Perform(Action::WaitUntilIdle));
    assert_eq!(interface.step::<u8>(Err(7)), Step::Finished(Err(Error::Comm(7))));
    assert_eq!(interface.pending_len(), 0);
    assert_eq!(interface.step::<u8>(Ok(())), Step::Finished(Ok(())));
}

#[test]
fn a_failure_with_nothing_queued_is_still_reported() {
    let mut interface = SpiInterface::new();
    assert_eq!(interface.step::<&str>(Err("bus")), Step::Finished(Err(Error::Comm("bus"))));
    assert_eq!(interface.pending_len(), 0);
}

#[test]
fn init_resets_by_line_and_by_command() {
    let mut driver = Ssd1680::new(DisplayRotation::Rotate0);
    driver.init();
    let mut expected = hardware_reset();
    expected.extend(vec![Seen::Command(0x12), Seen::Wait]);
    assert_eq!(record_mono(&mut driver), expected);

    let mut tri = Ssd1680TriColor::new(DisplayRotation::Rotate0);
    tri.init();
    let mut expected = hardware_reset();
    expected.extend(vec![Seen::Command(0x12), Seen::Wait]);
    assert_eq!(record_tri(&mut tri), expected);
}

#[test]
fn driver_power_up_resets_and_configures() {
    let mut driver = Ssd1680::new(DisplayRotation::Rotate0);
    driver.power_up();
    let mut expected = hardware_reset();
    expected.extend(power_up());
    assert_eq!(record_mono(&mut driver), expected);

    let mut tri = Ssd1680TriColor::new(DisplayRotation::Rotate0);
    tri.power_up();
    let mut expected = hardware_reset();
    expected.extend(power_up());
    assert_eq!(record_tri(&mut tri), expected);
}

#[test]
fn driver_power_down_sleeps_and_settles() {
    let mut driver = Ssd1680::new(DisplayRotation::Rotate0);
    driver.power_down();
    assert_eq!(record_mono(&mut driver), sleep());

    let mut tri = Ssd1680TriColor::new(DisplayRotation::Rotate0);
    tri.power_down();
    assert_eq!(record_tri(&mut tri), sleep());
}

#[test]
fn flush_display_writes_the_frame() {
    let mut driver = Ssd1680::new(DisplayRotation::Rotate0);
    driver.set_pixel(249, 0, BinaryColor::On);
    driver.flush_display();
    let mut frame = vec![0xFFu8; BUF_SIZE];
    frame[0] = 0x7F;
    let mut expected = address_at_start();
    expected.extend(vec![Seen::Command(0x24), Seen::Data(frame), Seen::Wait]);
    assert_eq!(record_mono(&mut driver), expected);
}

#[test]
fn flush_update_alone_triggers_the_refresh() {
    let mut driver = Ssd1680::new(DisplayRotation::Rotate0);
    driver.flush_update();
    assert_eq!(record_mono(&mut driver), update());

    let mut tri = Ssd1680TriColor::new(DisplayRotation::Rotate0);
    tri.flush_update();
    assert_eq!(record_tri(&mut tri), update());
}

#[test]
fn tricolor_flush_display_writes_both_planes() {
    let mut driver = Ssd1680TriColor::new(DisplayRotation::Rotate0);
    driver.set_pixel(249, 0, TriColor::Chromatic);
    driver.set_pixel(249, 1, TriColor::Black);
    driver.flush_display();
    let mut first = vec![0xFFu8; BUF_SIZE];
    first[0] = 0xBF;
    let mut second = vec![0x00u8; BUF_SIZE];
    second[0] = 0x80;
    let mut expected = address_at_start();
    expected.extend(vec![Seen::Command(0x24), Seen::Data(first), Seen::Wait]);
    expected.extend(address_at_start());
    expected.extend(vec![Seen::Command(0x26), Seen::Data(second), Seen::Wait]);
    assert_eq!(record_tri(&mut driver), expected);
}

#[test]
fn flush_end_to_end() {
    let mut driver = Ssd1680::new(DisplayRotation::Rotate0);
    driver.set_pixel(0, 0, BinaryColor::On);
    driver.flush();
    let log = record_mono(&mut driver);

    let mut frame = vec![0xFFu8; BUF_SIZE];
    frame[3984] = 0x7F;

    let mut expected = hardware_reset();
    expected.extend(power_up());
    expected.extend(address_at_start());
    expected.extend(vec![Seen::Command(0x24), Seen::Data(frame.clone()), Seen::Wait]);
    expected.extend(update());
    expected.extend(sleep());
    assert_eq!(log, expected);

    assert_eq!(
        writes(&log),
        vec![
            (0x12, vec![]),
            (0x11, vec![0x03]),
            (0x3C, vec![0x05]),
            (0x2C, vec![0x36]),
            (0x03, vec![0x17]),
            (0x04, vec![0x41, 0x00, 0x32]),
            (0x4E, vec![0x01]),
            (0x4F, vec![0x00, 0x00]),
            (0x44, vec![0x01, 0x10]),
            (0x45, vec![0x00, 0x00, 0xF9, 0x20]),
            (0x01, vec![0xF9, 0x20, 0x00]),
            (0x4E, vec![0x01]),
            (0x4F, vec![0x00, 0x00]),
            (0x24, frame),
            (0x22, vec![0xF4]),
            (0x20, vec![]),
            (0x10, vec![0x01]),
        ]
    );

    let sent = &writes(&log)[13].1;
    assert_eq!(sent.len(), 4000);
    assert_eq!(sent[3984] & 0x80, 0);
    assert!(sent.iter().enumerate().all(|(i, b)| if i == 3984 { *b == 0x7F } else { *b == 0xFF }));
    assert_eq!(driver.pending_len(), 0);
    assert_eq!(driver.get_pixel(0, 0), Some(BinaryColor::On));
}

#[test]
fn tricolor_flush_end_to_end() {
    let mut driver = Ssd1680TriColor::new(DisplayRotation::Rotate180);
    driver.set_pixel(0, 0, TriColor::Chromatic);
    driver.flush();
    let log = record_tri(&mut driver);

    let first = vec![0xFFu8; BUF_SIZE];
    let mut second = vec![0x00u8; BUF_SIZE];
    second[15] = 0x40;

    let mut expected = hardware_reset();
    expected.extend(power_up());
    expected.extend(address_at_start());
    expected.extend(vec![Seen::Command(0x24), Seen::Data(first), Seen::Wait]);
    expected.extend(address_at_start());
    expected.extend(vec![Seen::Command(0x26), Seen::Data(second), Seen::Wait]);
    expected.extend(update());
    expected.extend(sleep());
    assert_eq!(log, expected);
}

#[test]
fn flush_aborts_on_the_first_failed_write() {
    let mut driver = Ssd1680::new(DisplayRotation::Rotate0);
    driver.flush();
    let mut performed = 0;
    let result = loop {
        let outcome = if performed == 5 { Err(0xEEu8) } else { Ok(()) };
        match driver.step(outcome) {
            Step::Perform(_) => performed += 1,
            Step::Finished(result) => break result,
        }
    };
    assert_eq!(performed, 5);
    assert_eq!(result, Err(Error::Comm(0xEE)));
    assert_eq!(driver.pending_len(), 0);
    assert!(driver.buffer().iter().all(|b| *b == 0xFF));
}

#[test]
fn the_frame_is_sent_as_it_was_when_queued() {
    let mut driver = Ssd1680::new(DisplayRotation::Rotate0);
    driver.flush_display();
    driver.set_pixel(249, 0, BinaryColor::On);
    let log = record_mono(&mut driver);
    assert_eq!(log[5], Seen::Data(vec![0xFFu8; BUF_SIZE]));
    assert_eq!(driver.buffer()[0], 0x7F);
}
