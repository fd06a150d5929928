use inventory::items;
use inventory::items::Items;
use inventory::items::ItemsORM;
use inventory::materials;
use inventory::materials::Materials;
use inventory::orders;
use inventory::orders::Orders;
use inventory::project;
use inventory::project::Projects;
use inventory::Actions;
use inventory::App;
use inventory::AppState;
use inventory::Effect;
use inventory::SearchError;

fn cells(row: &[&str]) -> Vec<String> {
    row.iter().map(|c| c.to_string()).collect()
}

#[test]
fn new_app_starts_in_projects() {
    let app = App::new();
    assert_eq!(app.state, AppState::Projects(project::States::Default));
    assert!(app.back_stack.is_empty());
    assert_eq!(app.search, "");
    assert!(app.data.is_empty());
    assert!(app.clipboard_id.is_none());
}

#[test]
fn navigation_pushes_previous_view() {
    let mut app = App::new();
    let e = app.action(Actions::Items);
    assert_eq!(e, Effect::Handled);
    assert_eq!(app.state, AppState::Items(items::States::Default));
    assert_eq!(app.back_stack, vec![AppState::Projects(project::States::Default)]);
    assert!(app.data.is_empty());

    let e = app.action(Actions::Orders);
    assert_eq!(e, Effect::Handled);
    assert_eq!(app.state, AppState::Orders(orders::States::Default));
    assert_eq!(
        app.back_stack,
        vec![
            AppState::Projects(project::States::Default),
            AppState::Items(items::States::Default),
        ]
    );

    let e = app.action(Actions::Materials);
    assert_eq!(e, Effect::Handled);
    assert_eq!(app.state, AppState::Materials(materials::States::Default));

    let e = app.action(Actions::Projects);
    assert_eq!(e, Effect::Handled);
    assert_eq!(app.state, AppState::Projects(project::States::Default));
    assert_eq!(app.back_stack.len(), 4);
}

#[test]
fn new_switches_to_the_new_substate_of_the_current_domain() {
    let mut app = App::new();
    app.action(Actions::Items);
    let e = app.action(Actions::New);
    assert_eq!(e, Effect::Handled);
    assert_eq!(app.state, AppState::Items(items::States::New));

    let mut app = App::new();
    let e = app.action(Actions::New);
    assert_eq!(e, Effect::Handled);
    assert_eq!(app.state, AppState::Projects(project::States::New));
}

#[test]
fn back_restores_the_previous_view() {
    let mut app = App::new();
    app.action(Actions::Materials);
    app.action(Actions::Items);
    let e = app.action(Actions::Back);
    assert_eq!(e, Effect::Handled);
    assert_eq!(app.state, AppState::Materials(materials::States::Default));
    assert_eq!(app.back_stack, vec![AppState::Projects(project::States::Default)]);
    assert!(app.data.is_empty());
}

#[test]
fn back_on_an_empty_stack_changes_nothing() {
    let mut app = App::new();
    let e = app.action(Actions::Back);
    assert_eq!(e, Effect::Handled);
    assert_eq!(app.state, AppState::Projects(project::States::Default));
    assert!(app.back_stack.is_empty());
}

#[test]
fn search_in_projects_fills_the_placeholder_table() {
    let mut app = App::new();
    app.search = "abc".to_string();
    let e = app.action(Actions::Search);
    assert_eq!(e, Effect::Handled);
    assert_eq!(app.state, AppState::Projects(project::States::Searched));
    assert_eq!(
        app.data,
        vec![cells(&["abc", "data12", "data13"]), cells(&["data21", "data22", "data23"])]
    );
    assert_eq!(app.back_stack, vec![AppState::Projects(project::States::Default)]);
    assert_eq!(app.search, "abc");
}

#[test]
fn search_in_orders_fills_the_placeholder_table() {
    let mut app = App::new();
    app.action(Actions::Orders);
    app.search = "o-1".to_string();
    let e = app.action(Actions::Search);
    assert_eq!(e, Effect::Handled);
    assert_eq!(app.state, AppState::Orders(orders::States::Searched));
    assert_eq!(
        app.data,
        vec![
            cells(&["o-1", "data12", "data13", "data14", "data15", "data16"]),
            cells(&["data21", "data22", "data23", "data14", "data15", "data26"]),
        ]
    );
}

#[test]
fn search_in_materials_fills_the_placeholder_table() {
    let mut app = App::new();
    app.action(Actions::Materials);
    app.search = "m".to_string();
    let e = app.action(Actions::Search);
    assert_eq!(e, Effect::Handled);
    assert_eq!(app.state, AppState::Materials(materials::States::Searched));
    assert_eq!(
        app.data,
        vec![
            cells(&["m", "data12", "data13", "data14", "data15"]),
            cells(&["data21", "data22", "data23", "data24", "data25"]),
        ]
    );
}

#[test]
fn searching_twice_is_allowed_and_pushes_each_time() {
    let mut app = App::new();
    app.search = "x".to_string();
    app.action(Actions::Search);
    assert_eq!(app.state, AppState::Projects(project::States::Searched));
    app.action(Actions::Search);
    assert_eq!(app.state, AppState::Projects(project::States::Searched));
    assert_eq!(
        app.back_stack,
        vec![
            AppState::Projects(project::States::Default),
            AppState::Projects(project::States::Searched),
        ]
    );
}

#[test]
fn search_is_refused_while_entering_a_new_record() {
    let mut app = App::new();
    app.action(Actions::New);
    let e = app.action(Actions::Search);
    assert_eq!(e, Effect::Handled);
    assert_eq!(app.state, AppState::Projects(project::States::New));
    assert!(app.data.is_empty());
}

#[test]
fn search_in_items_asks_the_caller_to_fetch() {
    let mut app = App::new();
    app.action(Actions::Items);
    app.search = "bolt".to_string();
    let e = app.action(Actions::Search);
    assert_eq!(e, Effect::FetchItems);
    assert_eq!(app.state, AppState::Items(items::States::Default));
    assert_eq!(app.search, "bolt");
}

#[test]
fn search_in_items_is_refused_while_entering_a_new_record() {
    let mut app = App::new();
    app.action(Actions::Items);
    app.action(Actions::New);
    let e = app.action(Actions::Search);
    assert_eq!(e, Effect::Handled);
    assert_eq!(app.state, AppState::Items(items::States::New));
}

#[test]
fn a_successful_items_fetch_installs_the_rows() {
    let mut app = App::new();
    app.action(Actions::Items);
    let records = vec![
        ItemsORM { id: 1, name: "bolt".to_string(), quantity: 40, description: "m8".to_string() },
        ItemsORM { id: 2, name: "nut".to_string(), quantity: -3, description: "m8 too".to_string() },
    ];
    app.apply_items_search(Ok(records));
    assert_eq!(app.state, AppState::Items(items::States::Searched));
    assert_eq!(
        app.data,
        vec![cells(&["bolt", "40", "m8"]), cells(&["nut", "-3", "m8 too"])]
    );
    assert_eq!(
        app.back_stack,
        vec![
            AppState::Projects(project::States::Default),
            AppState::Items(items::States::Default),
        ]
    );
}

#[test]
fn a_failed_items_fetch_moves_to_the_error_view() {
    let mut app = App::new();
    app.action(Actions::Items);
    app.apply_items_search(Err(SearchError { message: "connection refused".to_string() }));
    assert_eq!(app.state, AppState::Items(items::States::Error));
    assert!(app.data.is_empty());
    assert_eq!(
        app.back_stack,
        vec![
            AppState::Projects(project::States::Default),
            AppState::Items(items::States::Default),
        ]
    );
}

#[test]
fn an_items_outcome_is_ignored_outside_the_items_view() {
    let mut app = App::new();
    app.apply_items_search(Ok(vec![ItemsORM {
        id: 9,
        name: "stray".to_string(),
        quantity: 1,
        description: "ignored".to_string(),
    }]));
    assert_eq!(app.state, AppState::Projects(project::States::Default));
    assert!(app.data.is_empty());
    assert!(app.back_stack.is_empty());
}

#[test]
fn items_rows_format_quantities_in_decimal() {
    let records = vec![
        ItemsORM { id: 1, name: "a".to_string(), quantity: 0, description: "".to_string() },
        ItemsORM { id: 2, name: "b".to_string(), quantity: 7, description: "x".to_string() },
        ItemsORM { id: 3, name: "c".to_string(), quantity: -1, description: "y".to_string() },
        ItemsORM { id: 4, name: "d".to_string(), quantity: 123456, description: "z".to_string() },
    ];
    let rows = items::rows_of(&records);
    assert_eq!(
        rows,
        vec![
            cells(&["a", "0", ""]),
            cells(&["b", "7", "x"]),
            cells(&["c", "-1", "y"]),
            cells(&["d", "123456", "z"]),
        ]
    );
}

#[test]
fn i64_to_string_matches_the_decimal_representation() {
    assert_eq!(items::i64_to_string(0), "0");
    assert_eq!(items::i64_to_string(9), "9");
    assert_eq!(items::i64_to_string(10), "10");
    assert_eq!(items::i64_to_string(42), "42");
    assert_eq!(items::i64_to_string(-1), "-1");
    assert_eq!(items::i64_to_string(-12), "-12");
    assert_eq!(items::i64_to_string(i64::MAX), "9223372036854775807");
    assert_eq!(items::i64_to_string(i64::MIN), "-9223372036854775808");
}

#[test]
fn set_state_replaces_only_the_view() {
    let mut app = App::new();
    app.search = "kept".to_string();
    app.set_state(AppState::Orders(orders::States::Error));
    assert_eq!(app.state, AppState::Orders(orders::States::Error));
    assert_eq!(app.search, "kept");
    assert!(app.back_stack.is_empty());
}

#[test]
fn search_by_string_stubs_echo_the_search_string() {
    let m = materials::search_by_string("alpha".to_string()).unwrap();
    assert_eq!(
        m,
        vec![
            cells(&["alpha", "data12", "data13", "data14", "data15"]),
            cells(&["data21", "data22", "data23", "data24", "data25"]),
        ]
    );
    let o = orders::search_by_string("beta".to_string()).unwrap();
    assert_eq!(o[0][0], "beta");
    assert_eq!(o[1][5], "data26");
    let p = project::search_by_string("gamma".to_string()).unwrap();
    assert_eq!(p, vec![cells(&["gamma", "data12", "data13"]), cells(&["data21", "data22", "data23"])]);
}

#[test]
fn headers_name_every_column() {
    assert_eq!(Items::headers(), ["Name", "Quantity", "Note"]);
    assert_eq!(Orders::headers(), ["Project", "Item", "Quantity", "Cost", "Note", "Completed"]);
    assert_eq!(
        Materials::headers(),
        ["Project", "Item", "Quantity", "Description", "Fulfilled"]
    );
    assert_eq!(Projects::headers(), ["Name", "Description", "Completed"]);
}
