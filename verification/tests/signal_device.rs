use chardev::signal::{ReadAction, RendezvousFlag};

#[test]
fn read_before_any_write_blocks() {
    let mut flag = RendezvousFlag::new();
    assert_eq!(flag.read_poll(1), ReadAction::Block);
    assert_eq!(flag.read_poll(1), ReadAction::Block);
}

#[test]
fn write_unblocks_exactly_one_reader() {
    let mut flag = RendezvousFlag::new();
    assert_eq!(flag.read_poll(1), ReadAction::Block);
    assert_eq!(flag.write(5), 0);
    assert_eq!(flag.read_poll(1), ReadAction::ConsumeAndWake);
    assert_eq!(flag.read_poll(1), ReadAction::Block);
}

#[test]
fn two_writes_arm_the_flag_once() {
    let mut flag = RendezvousFlag::new();
    assert_eq!(flag.write(3), 0);
    assert_eq!(flag.write(3), 0);
    assert_eq!(flag.read_poll(8), ReadAction::ConsumeAndWake);
    assert_eq!(flag.read_poll(8), ReadAction::Block);
}

#[test]
fn zero_capacity_read_finishes_without_consuming() {
    let mut flag = RendezvousFlag::new();
    flag.write(1);
    assert_eq!(flag.read_poll(0), ReadAction::Finish);
    assert_eq!(flag.read_poll(1), ReadAction::ConsumeAndWake);
}

#[test]
fn zero_capacity_read_on_idle_flag_finishes() {
    let mut flag = RendezvousFlag::new();
    assert_eq!(flag.read_poll(0), ReadAction::Finish);
    assert_eq!(flag.read_poll(1), ReadAction::Block);
}

#[test]
fn write_reports_no_payload() {
    let mut flag = RendezvousFlag::new();
    assert_eq!(flag.write(0), 0);
    assert_eq!(flag.write(4096), 0);
}
