//! What a recorded match adds to the output destination.

use vstd::prelude::*;

verus! {

/// Appends the line that records `ip` as a match: the address, then a line feed.
pub fn append_record(out: &mut String, ip: &str)
    ensures
        final(out)@ == old(out)@ + ip@ + "\n"@,
{
    out.append(ip);
    out.append("\n");
}

} // verus!
