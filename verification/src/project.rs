//! The projects domain: its per-domain sub-state and its search routine.
//!
//! Searching projects is not wired to a backend; it returns a fixed
//! two-row placeholder table whose first cell echoes the search string.

use vstd::prelude::*;

use crate::App;
use crate::AppState;
use crate::SearchError;

verus! {

/// Sub-state of the projects view.
#[derive(Debug, Clone, Copy, PartialEq, Eq, Structural)]
pub enum States {
    Default,
    New,
    Searched,
    Error,
}

/// A projects record as the backend would deliver it.
pub struct ProjectsORM {
    pub id: i64,
    pub name: String,
    pub description: String,
    pub is_complete: bool,
}

pub struct Projects;

impl Projects {
    /// Column headers of the projects table.
    pub fn headers() -> (r: [&'static str; 3])
        ensures
            r@.len() == 3,
            r@[0]@ == "Name"@,
            r@[1]@ == "Description"@,
            r@[2]@ == "Completed"@,
    {
        ["Name", "Description", "Completed"]
    }
}

/// How a projects search transforms the application state: in a
/// searchable projects view it installs the placeholder table, pushes the
/// previous view, and moves to the searched sub-state; anywhere else it
/// does nothing.
pub open spec fn search_spec(pre: App, post: App) -> bool {
    if pre.state matches AppState::Projects(st) && (st is Default || st is Searched) {
        &&& post.state == AppState::Projects(States::Searched)
        &&& post.back_stack@ == pre.back_stack@.push(pre.state)
        &&& post.data.deep_view() == stub_rows(pre.search@)
        &&& post.search == pre.search
        &&& post.clipboard_id == pre.clipboard_id
    } else {
        post == pre
    }
}

impl Projects {
    /// Run a projects search against the current search string, when the
    /// current view allows one.
    pub fn search(app: &mut App)
        ensures
            search_spec(*old(app), *final(app)),
    {
        match app.state {
            AppState::Projects(States::Default) | AppState::Projects(States::Searched) => {},
            _ => {
                return;
            },
        }
        let search_result = search_by_string(app.search.clone());
        match search_result {
            Ok(search_result) => {
                app.data = search_result;
                app.back_stack.push(app.state);
                app.state = AppState::Projects(States::Searched);
            },
            Err(_) => {
                app.back_stack.push(app.state);
                app.state = AppState::Projects(States::Error);
            },
        }
    }
}

/// The placeholder table returned by a projects search: two rows of three
/// cells, the first cell echoing the search string.
pub open spec fn stub_rows(sequence: Seq<char>) -> Seq<Seq<Seq<char>>> {
    seq![
        seq![sequence, "data12"@, "data13"@],
        seq!["data21"@, "data22"@, "data23"@],
    ]
}

/// Search the projects domain. Always succeeds, returning the placeholder
/// table for the given search string.
pub fn search_by_string(sequence: String) -> (r: Result<Vec<Vec<String>>, SearchError>)
    ensures
        r is Ok,
        r->Ok_0.deep_view() == stub_rows(sequence@),
{
    let ghost seq0 = sequence@;
    let mut row1: Vec<String> = Vec::new();
    row1.push(sequence);
    row1.push(String::from_str("data12"));
    row1.push(String::from_str("data13"));
    let mut row2: Vec<String> = Vec::new();
    row2.push(String::from_str("data21"));
    row2.push(String::from_str("data22"));
    row2.push(String::from_str("data23"));
    let mut rows: Vec<Vec<String>> = Vec::new();
    rows.push(row1);
    rows.push(row2);
    proof {
        assert(rows.deep_view() =~~= stub_rows(seq0));
    }
    Ok(rows)
}

} // verus!
