use menu_driver::keys::{is_f4_key, key_requests_box, poll_keys, PollAction};
use menu_driver::uart::{
    control_enabled, line_control_8n1, log_bytes, tx_fifo_full, uart_init_step, UartAccess, UartInitState,
    UART_CR, UART_LCRH, UART_SETTLE_SPINS,
};
use r_efi::efi::Status;

const F4: u16 = 0x000E;

#[test]
fn f4_detection_uses_low_byte() {
    assert!(is_f4_key(0x000E));
    assert!(is_f4_key(0x010E));
    assert!(!is_f4_key(0x000F));
    assert!(!is_f4_key(0x0E00));
}

#[test]
fn f4_toggles_box() {
    let ok = Status::SUCCESS.as_usize();
    let (v1, a1) = poll_keys(false, ok, F4);
    assert!(v1);
    assert_eq!(a1, PollAction::DrawBox);
    let (v2, a2) = poll_keys(v1, ok, F4);
    assert!(!v2);
    assert_eq!(a2, PollAction::ClearBox);
}

#[test]
fn other_polls_change_nothing() {
    let ok = Status::SUCCESS.as_usize();
    assert_eq!(poll_keys(true, Status::NOT_READY.as_usize(), F4), (true, PollAction::Idle));
    assert_eq!(poll_keys(false, Status::NOT_READY.as_usize(), F4), (false, PollAction::Idle));
    assert_eq!(poll_keys(true, Status::DEVICE_ERROR.as_usize(), F4), (true, PollAction::ReportReadError));
    assert_eq!(poll_keys(false, ok, 0x0017), (false, PollAction::Idle));
}

#[test]
fn startup_key_check() {
    assert!(key_requests_box(Status::SUCCESS.as_usize(), F4));
    assert!(!key_requests_box(Status::NOT_READY.as_usize(), F4));
    assert!(!key_requests_box(Status::SUCCESS.as_usize(), 0x0001));
}

#[test]
fn fifo_full_flag() {
    assert!(tx_fifo_full(0x20));
    assert!(tx_fifo_full(0xFF));
    assert!(!tx_fifo_full(0x90));
    assert!(!tx_fifo_full(0));
}

#[test]
fn register_values() {
    assert_eq!(line_control_8n1(), 0x70);
    assert_eq!(control_enabled(), 0x301);
}

fn run_init(read_back: u32) -> Vec<UartAccess> {
    let mut state = UartInitState::Start;
    let mut out = Vec::new();
    for _ in 0..10 {
        let (next, access) = uart_init_step(state, read_back);
        out.push(access);
        if access == UartAccess::Finish {
            break;
        }
        state = next;
    }
    out
}

#[test]
fn uart_init_configures_when_reachable() {
    assert_eq!(
        run_init(0),
        vec![
            UartAccess::Write { addr: UART_CR, value: 0 },
            UartAccess::Read { addr: UART_CR },
            UartAccess::Write { addr: UART_LCRH, value: 0x70 },
            UartAccess::Write { addr: UART_CR, value: 0x301 },
            UartAccess::Settle { spins: UART_SETTLE_SPINS },
            UartAccess::Finish,
        ]
    );
    assert_eq!(UART_CR, 0x107D001030);
    assert_eq!(UART_LCRH, 0x107D00102C);
}

#[test]
fn uart_init_stops_when_disable_does_not_read_back() {
    assert_eq!(
        run_init(0x301),
        vec![UartAccess::Write { addr: UART_CR, value: 0 }, UartAccess::Read { addr: UART_CR }, UartAccess::Finish]
    );
}

#[test]
fn log_adds_carriage_returns_and_final_newline() {
    assert_eq!(log_bytes("USB updated"), b"USB updated\n".to_vec());
    assert_eq!(log_bytes("a\nb"), b"a\n\rb\n".to_vec());
    assert_eq!(log_bytes(""), b"\n".to_vec());
    assert_eq!(log_bytes("\n\n"), b"\n\r\n\r\n".to_vec());
    assert_eq!(log_bytes("é"), vec![0xC3, 0xA9, b'\n']);
}

#[test]
fn visibility_is_parity_of_f4_presses() {
    let ok = Status::SUCCESS.as_usize();
    let polls = [
        (ok, F4),
        (Status::NOT_READY.as_usize(), F4),
        (ok, 0x0017),
        (Status::DEVICE_ERROR.as_usize(), F4),
        (ok, 0x010E),
        (ok, F4),
    ];
    let mut visible = false;
    let mut presses = 0;
    for (status, scan) in polls {
        visible = poll_keys(visible, status, scan).0;
        if status == ok && scan & 0xFF == F4 {
            presses += 1;
        }
        assert_eq!(visible, presses % 2 == 1);
    }
    assert_eq!(presses, 3);
    assert!(visible);
}

use menu_driver::startup::{menu_start_step, StartAction, StartStage, UsbSetup};

fn run_start(events: &[(usize, bool, u16)]) -> Vec<StartAction> {
    let mut stage = StartStage::Begin;
    let mut out = Vec::new();
    let mut last = (0usize, false, 0u16);
    let mut next_event = events.iter();
    for _ in 0..20 {
        let (next, action) = menu_start_step(stage, last.0, last.1, last.2);
        out.push(action);
        if matches!(action, StartAction::FailNotFound | StartAction::FinishSuccess) {
            break;
        }
        if action != StartAction::DrawBox {
            last = *next_event.next().unwrap();
        }
        stage = next;
    }
    out
}

#[test]
fn start_up_without_graphics_fails() {
    let err = Status::NOT_FOUND.as_usize();
    assert_eq!(run_start(&[(err, true, 0)]), vec![StartAction::LocateGraphics, StartAction::FailNotFound]);
    assert_eq!(run_start(&[(0, true, 0)]), vec![StartAction::LocateGraphics, StartAction::FailNotFound]);
}

#[test]
fn start_up_full_path_with_f4() {
    assert_eq!(
        run_start(&[(0, false, 0), (0, false, 0), (0, false, 0), (0, false, 0), (0, false, 0), (0, false, F4)]),
        vec![
            StartAction::LocateGraphics,
            StartAction::LocateUsb,
            StartAction::CreateUsbEvent,
            StartAction::SignalUsbEvent,
            StartAction::WaitForKey { usb: UsbSetup::Registered },
            StartAction::ReadKey,
            StartAction::DrawBox,
            StartAction::FinishSuccess,
        ]
    );
}

#[test]
fn start_up_without_usb_and_other_key() {
    let err = Status::NOT_FOUND.as_usize();
    assert_eq!(
        run_start(&[(0, false, 0), (err, true, 0), (0, false, 0), (0, false, 0x17)]),
        vec![
            StartAction::LocateGraphics,
            StartAction::LocateUsb,
            StartAction::WaitForKey { usb: UsbSetup::NotFound },
            StartAction::ReadKey,
            StartAction::FinishSuccess,
        ]
    );
    assert_eq!(
        run_start(&[(0, false, 0), (0, false, 0), (Status::OUT_OF_RESOURCES.as_usize(), false, 0), (err, false, 0)]),
        vec![
            StartAction::LocateGraphics,
            StartAction::LocateUsb,
            StartAction::CreateUsbEvent,
            StartAction::WaitForKey { usb: UsbSetup::EventFailed },
            StartAction::FinishSuccess,
        ]
    );
}
