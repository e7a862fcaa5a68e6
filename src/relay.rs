use vstd::prelude::*;
use vstd::string::*;

use crate::callback::decimal;

verus! {

/// One line of a chat message as it is written to the relay stream: the
/// line and a line feed.
pub fn framed_line(line: &str) -> (r: String)
    ensures
        r@ == line@ + "\n"@,
{
    let mut s = String::from_str(line);
    s.append("\n");
    s
}

/// The chat reply that reports how many bytes were written.
pub open spec fn write_reply_spec(wrote: nat) -> Seq<char> {
    "Wrote "@ + decimal(wrote) + " bytes."@
}

/// The chat reply after `wrote` bytes were written to the relay stream.
pub fn write_reply(wrote: usize) -> (r: String)
    ensures
        r@ == write_reply_spec(wrote as nat),
{
    let n = crate::callback::decimal_string(wrote as u128);
    let mut s = String::from_str("Wrote ");
    s.append(n.as_str());
    s.append(" bytes.");
    s
}

} // verus!
