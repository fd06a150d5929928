//! Core of a small inventory-management application: a finite-state
//! navigator over four record domains (items, orders, materials, projects),
//! a back stack for view transitions, and per-domain search routines that
//! fill a two-dimensional table of display strings.
//!
//! Everything here is pure state-machine logic; fetching item rows over the
//! network and rendering the table are left to the surrounding program,
//! which drives [`App::action`] and hands fetch results back through
//! [`App::apply_items_search`].

use vstd::prelude::*;

pub mod items;
pub mod materials;
pub mod orders;
pub mod project;

verus! {

/// A user-interface event handed to the dispatcher.
#[derive(Debug, Clone, Copy, PartialEq, Eq, Structural)]
pub enum Actions {
    Items,
    Orders,
    Materials,
    Projects,
    New,
    Search,
    Save,
    Back,
}

/// The current view: one of the four record domains, each with its own
/// per-domain sub-state.
#[derive(Debug, Clone, Copy, PartialEq, Eq, Structural)]
pub enum AppState {
    Items(items::States),
    Orders(orders::States),
    Materials(materials::States),
    Projects(project::States),
}

/// What the caller must still do after a call to [`App::action`].
#[derive(Debug, Clone, Copy, PartialEq, Eq, Structural)]
pub enum Effect {
    /// The action was handled entirely inside the state machine.
    Handled,
    /// The caller must fetch item rows for the current search string and
    /// hand the outcome to [`App::apply_items_search`].
    FetchItems,
}

/// An error reported by a search routine.
#[derive(Debug, Clone)]
pub struct SearchError {
    pub message: String,
}

/// The whole application state: current view, back stack, search string,
/// and the table of display strings.
#[derive(Debug, Clone)]
pub struct App {
    pub state: AppState,
    pub back_stack: Vec<AppState>,
    pub search: String,
    pub data: Vec<Vec<String>>,
    pub clipboard_id: Option<i64>,
}

/// `post` is `pre` with the previous view pushed on the back stack, the
/// table cleared, and the view set to `target`.
pub open spec fn navigated(pre: App, post: App, target: AppState) -> bool {
    &&& post.state == target
    &&& post.back_stack@ == pre.back_stack@.push(pre.state)
    &&& post.data@ == Seq::<Vec<String>>::empty()
    &&& post.search == pre.search
    &&& post.clipboard_id == pre.clipboard_id
}

/// `post` is `pre` with the previous view pushed on the back stack, the
/// table replaced by `rows`, and the view set to `target`.
pub open spec fn searched(pre: App, post: App, target: AppState, rows: Seq<Seq<Seq<char>>>) -> bool {
    &&& post.state == target
    &&& post.back_stack@ == pre.back_stack@.push(pre.state)
    &&& post.data.deep_view() == rows
    &&& post.search == pre.search
    &&& post.clipboard_id == pre.clipboard_id
}

/// The view that the new-record action switches to: the current domain,
/// in its `New` sub-state.
pub open spec fn new_target(s: AppState) -> AppState {
    match s {
        AppState::Items(_) => AppState::Items(items::States::New),
        AppState::Orders(_) => AppState::Orders(orders::States::New),
        AppState::Materials(_) => AppState::Materials(materials::States::New),
        AppState::Projects(_) => AppState::Projects(project::States::New),
    }
}

/// Whether a view accepts a search: only the default and the
/// already-searched sub-states do.
pub open spec fn search_allowed(s: AppState) -> bool {
    match s {
        AppState::Items(st) => st is Default || st is Searched,
        AppState::Orders(st) => st is Default || st is Searched,
        AppState::Materials(st) => st is Default || st is Searched,
        AppState::Projects(st) => st is Default || st is Searched,
    }
}

/// How the back action transforms the state: pop the most recent view and
/// clear the table, or do nothing when there is nothing to go back to.
pub open spec fn went_back(pre: App, post: App) -> bool {
    if pre.back_stack@.len() == 0 {
        &&& post.state == pre.state
        &&& post.back_stack@ == pre.back_stack@
        &&& post.search == pre.search
        &&& post.data == pre.data
        &&& post.clipboard_id == pre.clipboard_id
    } else {
        &&& post.state == pre.back_stack@.last()
        &&& post.back_stack@ == pre.back_stack@.drop_last()
        &&& post.data@ == Seq::<Vec<String>>::empty()
        &&& post.search == pre.search
        &&& post.clipboard_id == pre.clipboard_id
    }
}

/// How the search action transforms the state, and which effect it leaves
/// to the caller. An items search is not performed here: the caller is
/// asked to fetch, and the state is untouched until the outcome arrives.
pub open spec fn search_step(pre: App, post: App, e: Effect) -> bool {
    match pre.state {
        AppState::Items(_) => {
            &&& post == pre
            &&& e == (if search_allowed(pre.state) {
                Effect::FetchItems
            } else {
                Effect::Handled
            })
        },
        AppState::Orders(_) => e is Handled && orders::search_spec(pre, post),
        AppState::Materials(_) => e is Handled && materials::search_spec(pre, post),
        AppState::Projects(_) => e is Handled && project::search_spec(pre, post),
    }
}

/// How each action transforms the application state, and what effect it
/// leaves to the caller. The save action is not implemented and must not
/// be dispatched.
pub open spec fn action_spec(pre: App, action: Actions, post: App, e: Effect) -> bool {
    match action {
        Actions::Items => e is Handled && navigated(
            pre,
            post,
            AppState::Items(items::States::Default),
        ),
        Actions::Orders => e is Handled && navigated(
            pre,
            post,
            AppState::Orders(orders::States::Default),
        ),
        Actions::Materials => e is Handled && navigated(
            pre,
            post,
            AppState::Materials(materials::States::Default),
        ),
        Actions::Projects => e is Handled && navigated(
            pre,
            post,
            AppState::Projects(project::States::Default),
        ),
        Actions::New => e is Handled && navigated(pre, post, new_target(pre.state)),
        Actions::Search => search_step(pre, post, e),
        Actions::Save => false,
        Actions::Back => e is Handled && went_back(pre, post),
    }
}

/// How an items-search outcome transforms the state: in a searchable items
/// view, success installs the formatted rows and moves to the searched
/// sub-state, failure moves to the error sub-state; anywhere else the
/// outcome is ignored.
pub open spec fn items_outcome_spec(
    pre: App,
    result: Result<Vec<items::ItemsORM>, SearchError>,
    post: App,
) -> bool {
    if pre.state matches AppState::Items(st) && (st is Default || st is Searched) {
        match result {
            Ok(records) => searched(
                pre,
                post,
                AppState::Items(items::States::Searched),
                items::spec_item_rows(records@),
            ),
            Err(_) => {
                &&& post.state == AppState::Items(items::States::Error)
                &&& post.back_stack@ == pre.back_stack@.push(pre.state)
                &&& post.data == pre.data
                &&& post.search == pre.search
                &&& post.clipboard_id == pre.clipboard_id
            },
        }
    } else {
        post == pre
    }
}

/// Going back after any transition that pushed the previous view on the
/// back stack restores that view, and the stack as it stood before.
pub proof fn lemma_back_restores_view(pre: App, mid: App, post: App, e: Effect)
    requires
        mid.back_stack@ == pre.back_stack@.push(pre.state),
        action_spec(mid, Actions::Back, post, e),
    ensures
        post.state == pre.state,
        post.back_stack@ == pre.back_stack@,
{
    assert(pre.back_stack@.push(pre.state).last() == pre.state);
    assert(pre.back_stack@.push(pre.state).drop_last() =~= pre.back_stack@);
}

/// No action ever changes the search string or the clipboard.
pub proof fn lemma_action_preserves_search(pre: App, action: Actions, post: App, e: Effect)
    requires
        action_spec(pre, action, post, e),
        !(action is Save),
    ensures
        post.search == pre.search,
        post.clipboard_id == pre.clipboard_id,
{
}

impl App {
    /// A fresh application: projects view, nothing to go back to, empty
    /// search string and table.
    pub fn new() -> (r: Self)
        ensures
            r.state == AppState::Projects(project::States::Default),
            r.back_stack@ == Seq::<AppState>::empty(),
            r.search@ == Seq::<char>::empty(),
            r.data@ == Seq::<Vec<String>>::empty(),
            r.clipboard_id is None,
    {
        let r = Self {
            state: AppState::Projects(project::States::Default),
            search: String::new(),
            data: Vec::<Vec<String>>::new(),
            back_stack: Vec::new(),
            clipboard_id: None,
        };
        proof {
            assert(r.back_stack@ =~= Seq::<AppState>::empty());
            assert(r.data@ =~= Seq::<Vec<String>>::empty());
        }
        r
    }

    /// Dispatch one user action. The returned effect tells the caller
    /// whether it must still fetch item rows for the current search string.
    pub fn action(&mut self, action: Actions) -> (e: Effect)
        requires
            !(action is Save),
        ensures
            action_spec(*old(self), action, *final(self), e),
    {
        match action {
            Actions::Items => {
                self.back_stack.push(self.state);
                self.data = Vec::<Vec<String>>::new();
                self.set_state(AppState::Items(items::States::Default));
                proof {
                    assert(self.data@ =~= Seq::<Vec<String>>::empty());
                }
                Effect::Handled
            },
            Actions::Orders => {
                self.back_stack.push(self.state);
                self.data = Vec::<Vec<String>>::new();
                self.set_state(AppState::Orders(orders::States::Default));
                proof {
                    assert(self.data@ =~= Seq::<Vec<String>>::empty());
                }
                Effect::Handled
            },
            Actions::Materials => {
                self.back_stack.push(self.state);
                self.data = Vec::<Vec<String>>::new();
                self.set_state(AppState::Materials(materials::States::Default));
                proof {
                    assert(self.data@ =~= Seq::<Vec<String>>::empty());
                }
                Effect::Handled
            },
            Actions::Projects => {
                self.back_stack.push(self.state);
                self.data = Vec::<Vec<String>>::new();
                self.set_state(AppState::Projects(project::States::Default));
                proof {
                    assert(self.data@ =~= Seq::<Vec<String>>::empty());
                }
                Effect::Handled
            },
            Actions::New => {
                self.back_stack.push(self.state);
                self.data = Vec::<Vec<String>>::new();
                let target = match self.state {
                    AppState::Items(_) => AppState::Items(items::States::New),
                    AppState::Orders(_) => AppState::Orders(orders::States::New),
                    AppState::Materials(_) => AppState::Materials(materials::States::New),
                    AppState::Projects(_) => AppState::Projects(project::States::New),
                };
                self.set_state(target);
                proof {
                    assert(self.data@ =~= Seq::<Vec<String>>::empty());
                }
                Effect::Handled
            },
            Actions::Search => {
                match self.state {
                    AppState::Items(st) => {
                        match st {
                            items::States::Default | items::States::Searched => Effect::FetchItems,
                            _ => Effect::Handled,
                        }
                    },
                    AppState::Orders(_) => {
                        orders::Orders::search(self);
                        Effect::Handled
                    },
                    AppState::Materials(_) => {
                        materials::Materials::search(self);
                        Effect::Handled
                    },
                    AppState::Projects(_) => {
                        project::Projects::search(self);
                        Effect::Handled
                    },
                }
            },
            Actions::Save => unreached(),
            Actions::Back => {
                match self.back_stack.pop() {
                    Some(new_state) => {
                        self.data = Vec::<Vec<String>>::new();
                        self.set_state(new_state);
                        proof {
                            assert(self.data@ =~= Seq::<Vec<String>>::empty());
                        }
                    },
                    None => {},
                }
                Effect::Handled
            },
        }
    }

    /// Install the outcome of an items fetch that the caller performed in
    /// answer to [`Effect::FetchItems`]. Outside a searchable items view
    /// the outcome is ignored.
    pub fn apply_items_search(&mut self, result: Result<Vec<items::ItemsORM>, SearchError>)
        ensures
            items_outcome_spec(*old(self), result, *final(self)),
    {
        match self.state {
            AppState::Items(items::States::Default) | AppState::Items(items::States::Searched) => {
                match result {
                    Ok(records) => {
                        self.data = items::rows_of(&records);
                        self.back_stack.push(self.state);
                        self.set_state(AppState::Items(items::States::Searched));
                    },
                    Err(_) => {
                        self.back_stack.push(self.state);
                        self.set_state(AppState::Items(items::States::Error));
                    },
                }
            },
            _ => {},
        }
    }

    /// Replace the current view, leaving everything else untouched.
    pub fn set_state(&mut self, state: AppState)
        ensures
            final(self).state == state,
            final(self).back_stack == old(self).back_stack,
            final(self).search == old(self).search,
            final(self).data == old(self).data,
            final(self).clipboard_id == old(self).clipboard_id,
    {
        self.state = state;
    }
}

} // verus!

