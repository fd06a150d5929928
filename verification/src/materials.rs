//! The materials domain: its per-domain sub-state and its search routine.
//!
//! Searching materials is not wired to a backend; it returns a fixed
//! two-row placeholder table whose first cell echoes the search string.

use vstd::prelude::*;

use crate::App;
use crate::AppState;
use crate::SearchError;

verus! {

/// Sub-state of the materials view.
#[derive(Debug, Clone, Copy, PartialEq, Eq, Structural)]
pub enum States {
    Default,
    New,
    Searched,
    Error,
}

/// A materials record as the backend would deliver it.
pub struct MaterialsORM {
    pub id: i64,
    pub project: i64,
    pub item: i64,
    pub quantity: i64,
    pub description: String,
    pub is_fulfilled: bool,
}

pub struct Materials;

impl Materials {
    /// Column headers of the materials table.
    pub fn headers() -> (r: [&'static str; 5])
        ensures
            r@.len() == 5,
            r@[0]@ == "Project"@,
            r@[1]@ == "Item"@,
            r@[2]@ == "Quantity"@,
            r@[3]@ == "Description"@,
            r@[4]@ == "Fulfilled"@,
    {
        ["Project", "Item", "Quantity", "Description", "Fulfilled"]
    }
}

/// How a materials search transforms the application state: in a
/// searchable materials view it installs the placeholder table, pushes the
/// previous view, and moves to the searched sub-state; anywhere else it
/// does nothing.
pub open spec fn search_spec(pre: App, post: App) -> bool {
    if pre.state matches AppState::Materials(st) && (st is Default || st is Searched) {
        &&& post.state == AppState::Materials(States::Searched)
        &&& post.back_stack@ == pre.back_stack@.push(pre.state)
        &&& post.data.deep_view() == stub_rows(pre.search@)
        &&& post.search == pre.search
        &&& post.clipboard_id == pre.clipboard_id
    } else {
        post == pre
    }
}

impl Materials {
    /// Run a materials search against the current search string, when the
    /// current view allows one.
    pub fn search(app: &mut App)
        ensures
            search_spec(*old(app), *final(app)),
    {
        match app.state {
            AppState::Materials(States::Default) | AppState::Materials(States::Searched) => {},
            _ => {
                return;
            },
        }
        let search_result = search_by_string(app.search.clone());
        match search_result {
            Ok(search_result) => {
                app.data = search_result;
                app.back_stack.push(app.state);
                app.state = AppState::Materials(States::Searched);
            },
            Err(_) => {
                app.back_stack.push(app.state);
                app.state = AppState::Materials(States::Error);
            },
        }
    }
}

/// The placeholder table returned by a materials search: two rows of five
/// cells, the first cell echoing the search string.
pub open spec fn stub_rows(sequence: Seq<char>) -> Seq<Seq<Seq<char>>> {
    seq![
        seq![sequence, "data12"@, "data13"@, "data14"@, "data15"@],
        seq!["data21"@, "data22"@, "data23"@, "data24"@, "data25"@],
    ]
}

/// Search the materials domain. Always succeeds, returning the placeholder
/// table for the given search string.
pub fn search_by_string(sequence: String) -> (r: Result<Vec<Vec<String>>, SearchError>)
    ensures
        r is Ok,
        r->Ok_0.deep_view() == stub_rows(sequence@),
{
    let ghost seq0 = sequence@;
    let mut row1: Vec<String> = Vec::new();
    row1.push(sequence);
    row1.push(String::from_str("data12"));
    row1.push(String::from_str("data13"));
    row1.push(String::from_str("data14"));
    row1.push(String::from_str("data15"));
    let mut row2: Vec<String> = Vec::new();
    row2.push(String::from_str("data21"));
    row2.push(String::from_str("data22"));
    row2.push(String::from_str("data23"));
    row2.push(String::from_str("data24"));
    row2.push(String::from_str("data25"));
    let mut rows: Vec<Vec<String>> = Vec::new();
    rows.push(row1);
    rows.push(row2);
    proof {
        assert(rows.deep_view() =~~= stub_rows(seq0));
    }
    Ok(rows)
}

} // verus!
