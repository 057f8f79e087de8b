//! The display contract: the status text is a pure function of the
//! action's lifecycle state, including the decimal rendering of a
//! successful byte count.

use vstd::prelude::*;
use vstd::string::StringExecFns;

use crate::action::{ActionState, ActionView};
use crate::multipart::{UploadError, UploadResult};

verus! {

/// The decimal digit character for one digit value.
pub open spec fn digit_char(d: nat) -> char {
    if d == 0 {
        '0'
    } else if d == 1 {
        '1'
    } else if d == 2 {
        '2'
    } else if d == 3 {
        '3'
    } else if d == 4 {
        '4'
    } else if d == 5 {
        '5'
    } else if d == 6 {
        '6'
    } else if d == 7 {
        '7'
    } else if d == 8 {
        '8'
    } else {
        '9'
    }
}

/// The decimal string form of a number: no sign, no leading zero
/// except for the number zero itself.
pub open spec fn dec_str(n: nat) -> Seq<char>
    decreases n,
{
    if n < 10 {
        seq![digit_char(n)]
    } else {
        dec_str(n / 10) + seq![digit_char(n % 10)]
    }
}

/// The one-character string for one digit value.
fn digit_str(d: usize) -> (s: &'static str)
    requires
        d < 10,
    ensures
        s@ == seq![digit_char(d as nat)],
{
    let s: &'static str = if d == 0 {
        "0"
    } else if d == 1 {
        "1"
    } else if d == 2 {
        "2"
    } else if d == 3 {
        "3"
    } else if d == 4 {
        "4"
    } else if d == 5 {
        "5"
    } else if d == 6 {
        "6"
    } else if d == 7 {
        "7"
    } else if d == 8 {
        "8"
    } else {
        "9"
    };
    proof {
        reveal_strlit("0");
        reveal_strlit("1");
        reveal_strlit("2");
        reveal_strlit("3");
        reveal_strlit("4");
        reveal_strlit("5");
        reveal_strlit("6");
        reveal_strlit("7");
        reveal_strlit("8");
        reveal_strlit("9");
        assert(s@ =~= seq![digit_char(d as nat)]);
    }
    s
}

/// Renders a number in decimal.
pub fn usize_to_string(n: usize) -> (s: String)
    ensures
        s@ == dec_str(n as nat),
    decreases n,
{
    if n < 10 {
        String::from_str(digit_str(n))
    } else {
        let mut s = usize_to_string(n / 10);
        s.append(digit_str(n % 10));
        s
    }
}

/// The text shown for a failure: the error's debug form.
pub open spec fn error_text(e: UploadError) -> Seq<char> {
    match e {
        UploadError::TransportError => "TransportError"@,
        UploadError::PreconditionError => "PreconditionError"@,
    }
}

/// The status text owed for each lifecycle state.
pub open spec fn render_spec(s: ActionView) -> Seq<char> {
    match s {
        ActionView::NotStarted => "Upload a file."@,
        ActionView::Pending(_) => "Uploading..."@,
        ActionView::Settled(_, UploadResult::Success(n)) => dec_str(n as nat),
        ActionView::Settled(_, UploadResult::Failure(e)) => error_text(e),
    }
}

/// The status text for the current state: a pure function of the
/// state, exactly as `render_spec` says.
pub fn render(state: &ActionState) -> (text: String)
    ensures
        text@ == render_spec(state@),
{
    match state {
        ActionState::NotStarted => String::from_str("Upload a file."),
        ActionState::Pending(_) => String::from_str("Uploading..."),
        ActionState::Settled(_, UploadResult::Success(n)) => usize_to_string(*n),
        ActionState::Settled(_, UploadResult::Failure(UploadError::TransportError)) => String::from_str(
            "TransportError",
        ),
        ActionState::Settled(_, UploadResult::Failure(UploadError::PreconditionError)) => String::from_str(
            "PreconditionError",
        ),
    }
}

} // verus!
