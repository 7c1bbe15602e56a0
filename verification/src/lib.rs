//! Inbox previews over IMAP: the decisions of the fetch pipeline, the header
//! parser and the configuration rules, each stated as a contract and proved.
//!
//! Network, clock and terminal work happens outside this crate. A driver
//! performs the [`session::FetchAction`] that a [`session::FetchSession`] asks
//! for and hands back what happened as a [`session::FetchEvent`]; it also
//! watches the clock, and reports here whether the work was done in time.

use crate::error::ErrorView;
use crate::error::FetchError;
use crate::models::EmailPreview;
use vstd::prelude::*;
use vstd::string::*;

pub mod error;
pub mod headers;
pub mod imap;
pub mod models;
pub mod run;
pub mod session;

verus! {

/// How many previews a fetch of the inbox asks for.
pub const PREVIEW_LIMIT: usize = 20;

/// The seconds allowed for a whole fetch of the inbox, from the connection to
/// the logout.
pub const FETCH_BUDGET_SECS: u64 = 10;

/// The seconds allowed for the self-test task.
pub const TASK_BUDGET_SECS: u64 = 2;

/// Reports on the self-test task: `finished` holds what the task returned, or
/// nothing where its time ran out first.
pub fn run_safe_task(finished: Option<String>) -> (report: Result<String, String>)
    ensures
        match finished {
            Some(result) => report is Ok && report->Ok_0@ == "Task completed: "@ + result@,
            None => report is Err && report->Err_0@
                == "Error: Task timed out (possible logic bomb detected)."@,
        },
{
    match finished {
        Some(result) => Ok(String::from_str("Task completed: ").concat(result.as_str())),
        None => Err(String::from_str("Error: Task timed out (possible logic bomb detected).")),
    }
}

/// Settles a fetch of the inbox that ran against the clock: `finished` holds
/// how the fetch ended, or nothing where its time ran out first.
///
/// A fetch that ended in time keeps its result. One that did not is a
/// [`FetchError::Timeout`], whatever it had collected by then.
pub fn fetch_inbox(finished: Option<Result<Vec<EmailPreview>, FetchError>>) -> (outcome: Result<
    Vec<EmailPreview>,
    FetchError,
>)
    ensures
        match finished {
            Some(result) => outcome == result,
            None => outcome is Err && outcome->Err_0@ == ErrorView::Timeout,
        },
{
    match finished {
        Some(result) => result,
        None => Err(FetchError::Timeout),
    }
}

} // verus!
