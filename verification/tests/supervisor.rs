use serial_link::config::{
    read_buffer, LinkSettings, BAUD_RATE, DEVICE_PATH, READ_BUFFER_LEN, READ_TIMEOUT_MS,
};
use serial_link::queue::OutgoingQueue;
use serial_link::supervisor::{greeting, Supervisor, SupervisorAction, PARK_SECS, SETTLE_SECS};

#[test]
fn the_link_has_its_fixed_parameters() {
    assert_eq!(DEVICE_PATH, "/dev/ttyUSB0");
    assert_eq!(BAUD_RATE, 9600);
    assert_eq!(READ_TIMEOUT_MS, 10);
    assert_eq!(READ_BUFFER_LEN, 1024);
    assert_eq!(SETTLE_SECS, 2);
    assert_eq!(PARK_SECS, 10);
}

#[test]
fn standard_settings_are_the_fixed_parameters() {
    let settings = LinkSettings::standard();
    assert_eq!(
        settings,
        LinkSettings { device: "/dev/ttyUSB0", baud_rate: 9600, read_timeout_ms: 10 }
    );
    // Both handles are opened with the same settings.
    assert_eq!(LinkSettings::standard(), settings);
}

#[test]
fn the_read_buffer_is_1024_zero_bytes() {
    let buffer = read_buffer();
    assert_eq!(buffer.len(), 1024);
    assert!(buffer.iter().all(|byte| *byte == 0));
}

#[test]
fn the_greeting_is_abc() {
    assert_eq!(greeting(), vec![0x41, 0x42, 0x43]);
    assert_eq!(greeting(), b"ABC".to_vec());
}

#[test]
fn the_supervisor_goes_through_its_steps_in_order() {
    let mut supervisor = Supervisor::new();
    assert_eq!(supervisor, Supervisor::Starting);
    assert_eq!(supervisor.next_action(), SupervisorAction::StartWorkers);
    assert_eq!(supervisor, Supervisor::Settling);
    assert_eq!(supervisor.next_action(), SupervisorAction::Sleep(2));
    assert_eq!(supervisor, Supervisor::Inspecting);
    assert_eq!(supervisor.next_action(), SupervisorAction::Inspect);
    assert_eq!(supervisor, Supervisor::Submitting);
    assert_eq!(supervisor.next_action(), SupervisorAction::Submit(vec![0x41, 0x42, 0x43]));
    assert_eq!(supervisor, Supervisor::Parked);
}

#[test]
fn a_parked_supervisor_sleeps_for_ever() {
    let mut supervisor = Supervisor::Parked;
    for _ in 0..100 {
        assert_eq!(supervisor.next_action(), SupervisorAction::Sleep(10));
        assert_eq!(supervisor, Supervisor::Parked);
    }
}

#[test]
fn the_supervisor_submits_exactly_one_payload() {
    let mut supervisor = Supervisor::new();
    let mut queue = OutgoingQueue::new();
    for _ in 0..50 {
        if let SupervisorAction::Submit(payload) = supervisor.next_action() {
            assert_eq!(queue.enqueue(payload), Ok(()));
        }
    }
    assert_eq!(queue.len(), 1);
    assert_eq!(queue.dequeue(), Some(vec![0x41, 0x42, 0x43]));
}
