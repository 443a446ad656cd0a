use vstd::prelude::*;

verus! {

/// Scan code of the F4 key.
pub const SCAN_F4: u16 = 0xE;

/// The status code with only the error bit (the top bit of a `usize`) set.
pub open spec fn error_bit() -> int {
    (usize::MAX as int + 1) / 2
}

/// Calls `r_efi::efi::Status::SUCCESS.as_usize()`; r-efi defines SUCCESS as 0.
#[verifier::external_body]
fn success_code() -> (code: usize)
    ensures
        code == 0,
{
    r_efi::efi::Status::SUCCESS.as_usize()
}

/// Calls `r_efi::efi::Status::NOT_READY.as_usize()`; r-efi defines NOT_READY
/// as 6 with the error bit, the top bit of a `usize`, set.
#[verifier::external_body]
fn not_ready_code() -> (code: usize)
    ensures
        code == error_bit() + 6,
{
    r_efi::efi::Status::NOT_READY.as_usize()
}

/// Whether a status code reports success (SUCCESS, which is 0).
pub fn is_success(status: usize) -> (r: bool)
    ensures
        r == (status == 0),
{
    status == success_code()
}

/// Whether a key's scan code is F4: its low byte is the F4 scan code.
pub fn is_f4_key(scan_code: u16) -> (r: bool)
    ensures
        r == (scan_code & 0xFF == SCAN_F4),
{
    scan_code & 0xFF == SCAN_F4
}

/// Whether a key read that returned `status` with the key `scan_code` asks for
/// the box: the read succeeded and the key is F4.
pub fn key_requests_box(status: usize, scan_code: u16) -> (r: bool)
    ensures
        r == (status == 0 && scan_code & 0xFF == SCAN_F4),
{
    status == success_code() && is_f4_key(scan_code)
}

/// What the driver does after a poll of the keyboard.
#[derive(Debug, Clone, Copy, PartialEq, Eq, Structural)]
pub enum PollAction {
    /// Nothing: no key was waiting, or it was not F4.
    Idle,
    /// Reading the key failed; the failure is reported.
    ReportReadError,
    /// F4 was pressed while the box was hidden: draw it.
    DrawBox,
    /// F4 was pressed while the box was shown: clear it.
    ClearBox,
}

/// The visibility and action that follow a poll whose key read returned
/// `status` and `scan_code`, the box being `visible` before.
pub open spec fn poll_outcome(visible: bool, status: usize, scan_code: u16) -> (bool, PollAction) {
    if status == error_bit() + 6 {
        (visible, PollAction::Idle)
    } else if status != 0 {
        (visible, PollAction::ReportReadError)
    } else if scan_code & 0xFF == SCAN_F4 {
        if visible {
            (false, PollAction::ClearBox)
        } else {
            (true, PollAction::DrawBox)
        }
    } else {
        (visible, PollAction::Idle)
    }
}

/// Decides a keyboard poll: with no key waiting (NOT_READY) nothing happens,
/// another failure is reported, and F4 toggles the box, which is drawn when
/// it was hidden and cleared when it was shown. Returns the new visibility
/// and the action.
pub fn poll_keys(box_visible: bool, status: usize, scan_code: u16) -> (r: (bool, PollAction))
    ensures
        r == poll_outcome(box_visible, status, scan_code),
{
    if status == not_ready_code() {
        (box_visible, PollAction::Idle)
    } else if status != success_code() {
        (box_visible, PollAction::ReportReadError)
    } else if is_f4_key(scan_code) {
        if box_visible {
            (false, PollAction::ClearBox)
        } else {
            (true, PollAction::DrawBox)
        }
    } else {
        (box_visible, PollAction::Idle)
    }
}

/// Two F4 presses in a row draw the box and then clear it (or the other way
/// round) and leave the visibility as it was.
pub proof fn lemma_f4_twice_restores(visible: bool, scan_code: u16)
    requires
        scan_code & 0xFF == SCAN_F4,
    ensures
        poll_outcome(visible, 0, scan_code).0 == !visible,
        poll_outcome(poll_outcome(visible, 0, scan_code).0, 0, scan_code).0 == visible,
        poll_outcome(visible, 0, scan_code).1 == (if visible { PollAction::ClearBox } else { PollAction::DrawBox }),
        poll_outcome(poll_outcome(visible, 0, scan_code).0, 0, scan_code).1 == (if visible { PollAction::DrawBox } else { PollAction::ClearBox }),
{
    assert(error_bit() + 6 != 0);
}

/// A poll that reads no key, fails, or reads another key than F4 leaves the
/// visibility unchanged and neither draws nor clears the box.
pub proof fn lemma_other_polls_keep_box(visible: bool, status: usize, scan_code: u16)
    requires
        status != 0 || scan_code & 0xFF != SCAN_F4,
    ensures
        poll_outcome(visible, status, scan_code).0 == visible,
        poll_outcome(visible, status, scan_code).1 != PollAction::DrawBox,
        poll_outcome(visible, status, scan_code).1 != PollAction::ClearBox,
{
}

/// Whether a poll (its key read's status and scan code) is an F4 press that
/// was read successfully.
pub open spec fn is_f4_press(poll: (usize, u16)) -> bool {
    poll.0 == 0 && poll.1 & 0xFF == SCAN_F4
}

/// How many of `polls` are successfully read F4 presses.
pub open spec fn f4_press_count(polls: Seq<(usize, u16)>) -> nat
    decreases polls.len(),
{
    if polls.len() == 0 {
        0
    } else {
        f4_press_count(polls.drop_last()) + if is_f4_press(polls.last()) {
            1nat
        } else {
            0nat
        }
    }
}

/// The visibility after the polls `polls`, in order, starting from `visible`.
pub open spec fn visibility_after(visible: bool, polls: Seq<(usize, u16)>) -> bool
    decreases polls.len(),
{
    if polls.len() == 0 {
        visible
    } else {
        poll_outcome(visibility_after(visible, polls.drop_last()), polls.last().0, polls.last().1).0
    }
}

/// Over any sequence of polls the box is shown exactly when it was shown at
/// the start and an even number of F4 presses was read, or it was hidden and
/// an odd number was.
pub proof fn lemma_visibility_is_f4_parity(visible: bool, polls: Seq<(usize, u16)>)
    ensures
        visibility_after(visible, polls) == if f4_press_count(polls) % 2 == 0 {
            visible
        } else {
            !visible
        },
    decreases polls.len(),
{
    if polls.len() > 0 {
        lemma_visibility_is_f4_parity(visible, polls.drop_last());
        let p = polls.last();
        let before = visibility_after(visible, polls.drop_last());
        if is_f4_press(p) {
            lemma_f4_twice_restores(before, p.1);
        } else {
            lemma_other_polls_keep_box(before, p.0, p.1);
        }
    }
}

} // verus!
