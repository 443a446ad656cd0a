use vstd::prelude::*;

use crate::keys::{is_success, key_requests_box, SCAN_F4};

verus! {

/// How far the menu driver's start-up has come.
#[derive(Debug, Clone, Copy, PartialEq, Eq, Structural)]
pub enum StartStage {
    /// Nothing done yet.
    Begin,
    /// The graphics output protocol was looked up.
    GraphicsQueried,
    /// The USB extension protocol was looked up.
    UsbQueried,
    /// The USB notification event was created.
    UsbEventCreated,
    /// The USB event was stored in the protocol and signalled.
    UsbSignalled,
    /// The driver waited for a key.
    KeyAwaited,
    /// A key was read.
    KeyRead,
    /// Start-up is over.
    Done,
}

/// How the USB set-up ended, reported before the driver waits for a key.
#[derive(Debug, Clone, Copy, PartialEq, Eq, Structural)]
pub enum UsbSetup {
    /// The USB event was created and signalled.
    Registered,
    /// The USB extension protocol is not installed.
    NotFound,
    /// Creating the USB event failed.
    EventFailed,
}

/// The firmware call or outcome that start-up asks of its caller.
#[derive(Debug, Clone, Copy, PartialEq, Eq, Structural)]
pub enum StartAction {
    /// Look up the graphics output protocol.
    LocateGraphics,
    /// Give up: the graphics protocol is missing; start-up returns NOT_FOUND.
    FailNotFound,
    /// Keep the graphics protocol and the console input, and look up the USB
    /// extension protocol.
    LocateUsb,
    /// Create the USB notification event.
    CreateUsbEvent,
    /// Store the USB event in the protocol and signal it.
    SignalUsbEvent,
    /// Report how the USB set-up ended and wait for a key.
    WaitForKey { usb: UsbSetup },
    /// Read the waiting key.
    ReadKey,
    /// Draw the box.
    DrawBox,
    /// Start-up is over; it returns SUCCESS.
    FinishSuccess,
}

/// One start-up step: from `stage`, given the status of the last firmware
/// call, whether the pointer it returned is null, and the scan code of the key
/// it read (when it read one), the next stage and action.
pub open spec fn start_transition(stage: StartStage, status: usize, ptr_null: bool, scan_code: u16) -> (StartStage, StartAction) {
    match stage {
        StartStage::Begin => (StartStage::GraphicsQueried, StartAction::LocateGraphics),
        StartStage::GraphicsQueried => if status != 0 || ptr_null {
            (StartStage::Done, StartAction::FailNotFound)
        } else {
            (StartStage::UsbQueried, StartAction::LocateUsb)
        },
        StartStage::UsbQueried => if status == 0 && !ptr_null {
            (StartStage::UsbEventCreated, StartAction::CreateUsbEvent)
        } else {
            (StartStage::KeyAwaited, StartAction::WaitForKey { usb: UsbSetup::NotFound })
        },
        StartStage::UsbEventCreated => if status == 0 {
            (StartStage::UsbSignalled, StartAction::SignalUsbEvent)
        } else {
            (StartStage::KeyAwaited, StartAction::WaitForKey { usb: UsbSetup::EventFailed })
        },
        StartStage::UsbSignalled => (StartStage::KeyAwaited, StartAction::WaitForKey { usb: UsbSetup::Registered }),
        StartStage::KeyAwaited => if status == 0 {
            (StartStage::KeyRead, StartAction::ReadKey)
        } else {
            (StartStage::Done, StartAction::FinishSuccess)
        },
        StartStage::KeyRead => if status == 0 && scan_code & 0xFF == SCAN_F4 {
            (StartStage::Done, StartAction::DrawBox)
        } else {
            (StartStage::Done, StartAction::FinishSuccess)
        },
        StartStage::Done => (StartStage::Done, StartAction::FinishSuccess),
    }
}

/// Decides the next step of the menu driver's start-up: look up the graphics
/// protocol and give up with NOT_FOUND without it; look up the USB extension
/// protocol and, when it is there, create its notification event and, when
/// that succeeds, signal it; then wait for a key, read it when the wait
/// succeeded, draw the box if it is F4, and finish with SUCCESS.
pub fn menu_start_step(stage: StartStage, status: usize, ptr_null: bool, scan_code: u16) -> (r: (StartStage, StartAction))
    ensures
        r == start_transition(stage, status, ptr_null, scan_code),
{
    match stage {
        StartStage::Begin => (StartStage::GraphicsQueried, StartAction::LocateGraphics),
        StartStage::GraphicsQueried => if !is_success(status) || ptr_null {
            (StartStage::Done, StartAction::FailNotFound)
        } else {
            (StartStage::UsbQueried, StartAction::LocateUsb)
        },
        StartStage::UsbQueried => if is_success(status) && !ptr_null {
            (StartStage::UsbEventCreated, StartAction::CreateUsbEvent)
        } else {
            (StartStage::KeyAwaited, StartAction::WaitForKey { usb: UsbSetup::NotFound })
        },
        StartStage::UsbEventCreated => if is_success(status) {
            (StartStage::UsbSignalled, StartAction::SignalUsbEvent)
        } else {
            (StartStage::KeyAwaited, StartAction::WaitForKey { usb: UsbSetup::EventFailed })
        },
        StartStage::UsbSignalled => (StartStage::KeyAwaited, StartAction::WaitForKey { usb: UsbSetup::Registered }),
        StartStage::KeyAwaited => if is_success(status) {
            (StartStage::KeyRead, StartAction::ReadKey)
        } else {
            (StartStage::Done, StartAction::FinishSuccess)
        },
        StartStage::KeyRead => if key_requests_box(status, scan_code) {
            (StartStage::Done, StartAction::DrawBox)
        } else {
            (StartStage::Done, StartAction::FinishSuccess)
        },
        StartStage::Done => (StartStage::Done, StartAction::FinishSuccess),
    }
}

/// Start-up ends in NOT_FOUND exactly when the graphics protocol lookup
/// fails, draws the box only after a successfully read F4, and once over
/// stays over.
pub proof fn lemma_start_outcomes(status: usize, ptr_null: bool, scan_code: u16)
    ensures
        start_transition(StartStage::Begin, status, ptr_null, scan_code) == (StartStage::GraphicsQueried, StartAction::LocateGraphics),
        (start_transition(StartStage::GraphicsQueried, status, ptr_null, scan_code).1 == StartAction::FailNotFound) == (status != 0 || ptr_null),
        forall|stage: StartStage| stage != StartStage::GraphicsQueried ==> #[trigger] start_transition(stage, status, ptr_null, scan_code).1 != StartAction::FailNotFound,
        forall|stage: StartStage| #[trigger] start_transition(stage, status, ptr_null, scan_code).1 == StartAction::DrawBox
            ==> stage == StartStage::KeyRead && status == 0 && scan_code & 0xFF == SCAN_F4,
        start_transition(StartStage::Done, status, ptr_null, scan_code) == (StartStage::Done, StartAction::FinishSuccess),
{
}

} // verus!
