//! The streamed answer of the science helper: how chunks are gathered and when the reply
//! is cut short.

use vstd::prelude::*;
use vstd::utf8::encode_utf8;

verus! {

/// The number of bytes a reply may reach before it is cut short.
pub const REPLY_LIMIT: usize = 900;

/// Adds one streamed chunk to the reply. A reply already longer than the limit gets the
/// truncation notice instead and the stream stops; the result says whether to go on.
pub fn add_chunk(output: &mut String, chunk: &str) -> (go_on: bool)
    ensures
        go_on == ((encode_utf8(old(output)@).len() as usize) <= REPLY_LIMIT),
        go_on ==> final(output)@ == old(output)@ + chunk@,
        !go_on ==> final(output)@ == old(output)@ + "REPLY TRUNCATED; TOO LARGE"@,
{
    if output.as_str().len() > REPLY_LIMIT {
        output.append("REPLY TRUNCATED; TOO LARGE");
        false
    } else {
        output.append(chunk);
        true
    }
}

/// Adds the note that marks the reply as generated.
pub fn add_footer(output: &mut String)
    ensures
        final(output)@ == old(output)@
            + "\n       \n*AI-generated content. Always make sure to verify with trusted sources.*"@,
{
    output.append("\n       \n*AI-generated content. Always make sure to verify with trusted sources.*");
}

} // verus!
