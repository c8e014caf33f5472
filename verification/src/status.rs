//! The fixed enumeration of task statuses.

use vstd::prelude::*;
use crate::text::{is_i32_literal, is_integer_text, text_eq};

verus! {

/// The status a task gets when its stored status is beyond repair.
pub const DEFAULT_STATUS: &'static str = "inbox";

/// Whether `status` is one of `inbox`, `todo`, `doing`, `done`.
pub open spec fn valid_status(status: Seq<char>) -> bool {
    status == "inbox"@ || status == "todo"@ || status == "doing"@ || status == "done"@
}

/// Whether `status` is one of the four statuses a task may have.
pub fn is_valid_status(status: &str) -> (valid: bool)
    ensures
        valid == valid_status(status@),
{
    text_eq(status, "inbox") || text_eq(status, "todo") || text_eq(status, "doing") || text_eq(
        status,
        "done",
    )
}

/// Whether a stored status is one that an earlier defect left behind: a
/// number written out in digits where a status name belongs.
pub open spec fn corrupted_status(status: Seq<char>) -> bool {
    is_i32_literal(status)
}

/// Whether a stored status has to be repaired.
pub fn needs_repair(status: &str) -> (yes: bool)
    ensures
        yes == corrupted_status(status@),
{
    is_integer_text(status)
}

/// No status of the enumeration is mistaken for a corrupted one.
pub proof fn lemma_valid_status_is_sound(status: Seq<char>)
    requires
        valid_status(status),
    ensures
        !corrupted_status(status),
{
    reveal_strlit("inbox");
    reveal_strlit("todo");
    reveal_strlit("doing");
    reveal_strlit("done");
    assert(!crate::text::is_digit(status[0]));
}

} // verus!
