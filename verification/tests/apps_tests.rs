use armos::apps::proctracker::{
    closed_message, console_header, console_row, registered_message, row_text, row_y,
    status_text, ticks_message, CountChange, IpcReceiveError, ProcessStatus, ProcessTracker, TickAction,
};
use armos::storage::{board_storage, sdram_info, NandDevice, NorDevice, StorageError, StorageKind};

fn tick_n(t: &mut ProcessTracker, n: u32) -> TickAction {
    let mut last = TickAction::Yield;
    for _ in 0..n {
        last = t.on_tick();
    }
    last
}

#[test]
fn tracker_starts_drawing() {
    let t = ProcessTracker::new();
    assert_eq!(t.pid(), 0);
    assert_eq!(t.name(), "ProcessTracker");
    assert_eq!(t.status(), ProcessStatus::Running);
    assert!(t.on_init());
}

#[test]
fn tracker_yields_between_reports() {
    let mut t = ProcessTracker::new();
    assert_eq!(t.on_tick(), TickAction::Yield);
    assert_eq!(tick_n(&mut t, 999_998), TickAction::Yield);
    assert_eq!(
        t.on_tick(),
        TickAction::Report { ticks: 1_000_000, draw: true }
    );
    assert_eq!(t.on_tick(), TickAction::Yield);
}

#[test]
fn tracker_reports_count_changes() {
    let mut t = ProcessTracker::new();
    t.record_count(3);
    tick_n(&mut t, 999_999);
    assert_eq!(t.on_tick(), TickAction::Report { ticks: 1_000_000, draw: true });
    // The count observed at the report is compared with the previous one.
    assert_eq!(t.report_count(3), CountChange::Unchanged);
    assert_eq!(t.report_count(5), CountChange::Registered(5));
    assert_eq!(t.report_count(2), CountChange::Closed(2));
    assert_eq!(t.report_count(2), CountChange::Unchanged);
}

#[test]
fn tracker_setters() {
    let mut t = ProcessTracker::new();
    t.set_pid(7);
    t.set_name("tracker");
    t.set_status(ProcessStatus::Running);
    assert_eq!(t.pid(), 7);
    assert_eq!(t.name(), "tracker");
    t.bind(3);
    assert_eq!(t.pid(), 7);
}

#[test]
fn tracker_refuses_ipc() {
    let mut t = ProcessTracker::new();
    match t.receive(42u8) {
        Err(IpcReceiveError::Message(m)) => assert_eq!(m, "Not expecting any data"),
        Ok(()) => panic!("data accepted"),
    }
}

#[test]
fn tracker_texts() {
    assert_eq!(status_text(ProcessStatus::Running), "Running");
    assert_eq!(row_text(3, "ProcessTracker", ProcessStatus::Running), "PID: 3 | ProcessTracker | Running");
    assert_eq!(row_y(0), 70);
    assert_eq!(row_y(2), 114);
    assert_eq!(console_header(2), "--- 2 processes alive ---");
    assert_eq!(
        console_row(5, "init", ProcessStatus::Running),
        format!("  pid {:>3}  {:<16} {:?}", 5, "init", ProcessStatus::Running)
    );
    assert_eq!(
        console_row(12345, "a-very-long-process-name", ProcessStatus::Running),
        "  pid 12345  a-very-long-process-name Running"
    );
    assert_eq!(ticks_message(1_000_000), "Ticks: 1000000");
    assert_eq!(closed_message(2), "One or more processes closed. 2 active");
    assert_eq!(registered_message(4), "Registered 4 new process(es)");
}

#[test]
fn storage_table() {
    let all = board_storage();
    assert_eq!(all.len(), 3);
    assert_eq!(all[0].kind, StorageKind::Sdram);
    assert_eq!((all[0].base, all[0].size), (0xC000_0000, 64 * 1024 * 1024));
    assert_eq!((all[1].name, all[1].bus), ("NAND", "FMC"));
    assert_eq!((all[2].base, all[2].size), (0x9000_0000, 128 * 1024 * 1024));
    assert_eq!(sdram_info().name, "SDRAM");
}

#[test]
fn storage_drivers_not_written() {
    match NandDevice::init() {
        Err(StorageError::NotImplemented(m)) => assert_eq!(m, "FMC NAND driver"),
        Ok(()) => panic!(),
    }
    match NorDevice::init() {
        Err(StorageError::NotImplemented(m)) => assert_eq!(m, "QUADSPI NOR driver"),
        Ok(()) => panic!(),
    }
    assert_eq!(NorDevice::info().bus, "QUADSPI");
    assert_eq!(NandDevice::info().size, 512 * 1024 * 1024);
}
