use vstd::prelude::*;

use crate::endpoints::reply::{history_delete_failed, spec_history_delete_failed, ErrorReply};

verus! {

/// Answers a delete-history-entry request given the outcome of the persisted
/// delete: whether an entry was deleted (and then a history-changed notice is
/// recorded), or the status-500 "error.history_delete_failed" answer carrying
/// the error (and no notice).
pub fn handle(result: Result<bool, String>) -> (r: (Result<bool, ErrorReply>, bool))
    ensures
        result matches Ok(deleted) ==> r.0 == Ok::<bool, ErrorReply>(deleted) && r.1 == deleted,
        result matches Err(e) ==> r.0 is Err && r.0->Err_0@ == spec_history_delete_failed(e@) && !r.1,
{
    match result {
        Ok(deleted) => (Ok(deleted), deleted),
        Err(e) => (Err(history_delete_failed(e)), false),
    }
}

} // verus!
