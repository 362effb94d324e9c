use vstd::prelude::*;

use crate::enums::ApplicationStatus;

verus! {

/// Every status may be reached from every status, itself included: an admin
/// may also move an approved application back to pending.
pub open spec fn transition_allowed(from: ApplicationStatus, to: ApplicationStatus) -> bool {
    true
}

/// The text of the audit comment that a move to `to` appends.
pub open spec fn transition_note(to: ApplicationStatus) -> Seq<char> {
    match to {
        ApplicationStatus::Approved => "Moved to accepted"@,
        ApplicationStatus::Rejected => "Moved to rejected"@,
        ApplicationStatus::Maybe => "Moved to maybe"@,
        ApplicationStatus::Pending => "Moved to pending"@,
    }
}

/// Whether the transition table admits a move from `from` to `to`.
pub fn can_transition(from: ApplicationStatus, to: ApplicationStatus) -> (r: bool)
    ensures
        r == transition_allowed(from, to),
{
    true
}

/// The audit comment for a move to `to`.
pub fn transition_comment(to: ApplicationStatus) -> (r: &'static str)
    ensures
        r@ == transition_note(to),
{
    match to {
        ApplicationStatus::Approved => "Moved to accepted",
        ApplicationStatus::Rejected => "Moved to rejected",
        ApplicationStatus::Maybe => "Moved to maybe",
        ApplicationStatus::Pending => "Moved to pending",
    }
}

/// Each target status has its own audit text, so the comment that a
/// transition leaves tells which status it moved to.
pub proof fn lemma_transition_note_names_target(a: ApplicationStatus, b: ApplicationStatus)
    ensures
        transition_note(a) == transition_note(b) ==> a == b,
{
    reveal_strlit("Moved to accepted");
    reveal_strlit("Moved to rejected");
    reveal_strlit("Moved to maybe");
    reveal_strlit("Moved to pending");
    if a != b {
        assert(transition_note(a)[9] != transition_note(b)[9]);
    }
}

} // verus!
