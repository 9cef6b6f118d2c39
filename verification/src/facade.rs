use vstd::prelude::*;

use crate::error::Error;
use crate::pool::Recycle;

verus! {

/// The recycle policy applied to every handle returning after use: accept it
/// unconditionally, assuming the connection remains valid. This is the
/// intended behaviour for short-lived, single-statement usage; a stricter
/// policy probing liveness is an extension point, not required here.
pub fn recycle_policy() -> (v: Recycle)
    ensures
        v == Recycle::Accepted,
{
    Recycle::Accepted
}

/// The end of a bounded wait for a connection: a wait that was granted a
/// handle yields it, an elapsed timeout yields exactly the timeout error —
/// never a transport or protocol failure, which can only arise from building
/// a connection and propagate unchanged instead of passing through here.
pub fn wait_outcome(granted: Option<u64>) -> (r: Result<u64, Error>)
    ensures
        granted matches Some(h) ==> r == Ok::<u64, Error>(h),
        granted is None ==> r == Err::<u64, Error>(Error::Timeout),
{
    match granted {
        Some(h) => Ok(h),
        None => Err(Error::Timeout),
    }
}

/// Judges the shape of what the fixed query returned: `None` when no row
/// came back, `Some(None)` when a row came back but its first column did not
/// read as an integer, `Some(Some(v))` for the scalar itself. A missing row
/// and a mismatched column are both protocol failures; a present scalar is
/// returned unchanged.
pub fn finish_query(cell: Option<Option<i32>>) -> (r: Result<i32, Error>)
    ensures
        cell matches Some(Some(v)) ==> r == Ok::<i32, Error>(v),
        cell is None ==> (r matches Err(e) && e matches Error::Protocol(m) && m@
            == "query returned no row"@),
        cell matches Some(None) ==> (r matches Err(e) && e matches Error::Protocol(m) && m@
            == "first column was not an int"@),
{
    match cell {
        Some(Some(v)) => Ok(v),
        Some(None) => Err(Error::Protocol("first column was not an int".to_owned())),
        None => Err(Error::Protocol("query returned no row".to_owned())),
    }
}

} // verus!
