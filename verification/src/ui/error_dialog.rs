use vstd::prelude::*;

verus! {

/// The text an error dialog shows: a fatal error is announced as such.
pub open spec fn spec_dialog_message(msg: Seq<char>, fatal: bool) -> Seq<char> {
    if fatal {
        "A fatal error occured:\n "@ + msg
    } else {
        msg
    }
}

/// The text an error dialog shows for a message.
pub fn dialog_message(msg: &str, fatal: bool) -> (res: String)
    ensures
        res@ == spec_dialog_message(msg@, fatal),
{
    if fatal {
        String::from_str("A fatal error occured:\n ").concat(msg)
    } else {
        String::from_str(msg)
    }
}

} // verus!
