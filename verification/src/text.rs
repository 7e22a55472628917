//! Building the text of messages.

use vstd::prelude::*;

verus! {

/// `head` followed by `tail`.
pub fn join(head: &str, tail: &str) -> (r: String)
    ensures
        r@ == head@ + tail@,
{
    let mut out = String::from_str(head);
    out.append(tail);
    out
}

/// `first`, `second` and `third` in a row.
pub fn join3(first: &str, second: &str, third: &str) -> (r: String)
    ensures
        r@ == first@ + second@ + third@,
{
    let mut out = String::from_str(first);
    out.append(second);
    out.append(third);
    out
}

/// `String::push`: the character goes to the end of the text.
#[verifier::external_body]
pub(crate) fn push_char(text: &mut String, c: char)
    ensures
        final(text)@ == old(text)@.push(c),
{
    text.push(c)
}

/// Whether two texts are the same, character by character.
pub fn same_text(a: &str, b: &str) -> (r: bool)
    ensures
        r == (a@ == b@),
{
    let left = String::from_str(a);
    let right = String::from_str(b);
    left == right
}

/// The address a socket is pointed at: host, a colon, port.
pub open spec fn endpoint_text(addr: Seq<char>, port: Seq<char>) -> Seq<char> {
    addr + ":"@ + port
}

/// Joins host and port into the address to connect or send to.
pub fn endpoint(addr: &str, port: &str) -> (r: String)
    ensures
        r@ == endpoint_text(addr@, port@),
{
    join3(addr, ":", port)
}

} // verus!
