//! The liveness signal that a probe reports after each check.
use vstd::prelude::*;
use vstd::string::StringExecFns;

verus! {

/// What a probe asks of its scheduler after a check.
#[derive(Debug, PartialEq, Eq)]
pub enum Action {
    /// The process was not found: notify, with a human-readable diagnostic.
    Notify { diagnostic: Option<String> },
    /// The process was found: nothing to do.
    Nothing,
}

/// The mathematical value of an [`Action`].
pub enum ActionView {
    Notify { diagnostic: Option<Seq<char>> },
    Nothing,
}

impl View for Action {
    type V = ActionView;

    open spec fn view(&self) -> ActionView {
        match self {
            Action::Notify { diagnostic } => ActionView::Notify {
                diagnostic: match diagnostic {
                    Some(d) => Some(d@),
                    None => None,
                },
            },
            Action::Nothing => ActionView::Nothing,
        }
    }
}

/// The text that follows the process name in a down diagnostic.
pub open spec fn down_suffix() -> Seq<char> {
    seq![' ', 'i', 's', ' ', 'd', 'o', 'w', 'n']
}

/// The diagnostic reported when `process_name` is not running.
pub open spec fn down_message(process_name: Seq<char>) -> Seq<char> {
    process_name + down_suffix()
}

/// The signal owed for `process_name`, given whether a matching process was seen.
pub open spec fn expected_signal(process_name: Seq<char>, up: bool) -> ActionView {
    if up {
        ActionView::Nothing
    } else {
        ActionView::Notify { diagnostic: Some(down_message(process_name)) }
    }
}

/// Maps the outcome of a lookup to the signal a probe reports: nothing when
/// the process is up, a notification `"<process_name> is down"` otherwise.
pub fn report(process_name: &str, up: bool) -> (r: Action)
    ensures
        r@ == expected_signal(process_name@, up),
{
    if up {
        Action::Nothing
    } else {
        let mut text = String::from_str(process_name);
        text.append(" is down");
        proof {
            reveal_strlit(" is down");
        }
        assert(text@ =~= down_message(process_name@));
        Action::Notify { diagnostic: Some(text) }
    }
}

} // verus!
