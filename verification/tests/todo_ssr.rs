use todo_ssr::form::submit_create;
use todo_ssr::form::InputField;
use todo_ssr::route::match_route;
use todo_ssr::route::response_status;
use todo_ssr::route::route_heading;
use todo_ssr::route::Route;
use todo_ssr::route::NOT_FOUND_STATUS;
use todo_ssr::todo::Todo;
use todo_ssr::todos::Todos;

fn descriptions(todos: &Todos) -> Vec<String> {
    todos.visible()
}

#[test]
fn adds_keep_length_and_order() {
    let mut todos = Todos::new();
    let given = ["first", "second", "third", "second"];
    for d in given {
        todos.add(d.to_string());
    }
    assert_eq!(todos.len(), given.len());
    let shown = descriptions(&todos);
    assert_eq!(shown, vec!["first", "second", "third", "second"]);
}

#[test]
fn empty_description_is_accepted() {
    let mut todos = Todos::new();
    todos.add(String::new());
    assert_eq!(todos.len(), 1);
    assert_eq!(descriptions(&todos), vec![""]);
    assert!(!todos.get(0).is_complete());
}

#[test]
fn new_record_starts_incomplete() {
    let t = Todo::new("water plants".to_string());
    assert_eq!(t.description().as_str(), "water plants");
    assert!(!t.is_complete());
}

#[test]
fn record_equals_its_clone_only() {
    let a = Todo::new("same text".to_string());
    let b = Todo::new("same text".to_string());
    let c = a.clone();
    assert!(a == c);
    // Identical descriptions, but each record drew its own identifier.
    assert!(a != b);
}

#[test]
fn remove_drops_exactly_the_target() {
    let mut todos = Todos::new();
    todos.add("same text".to_string());
    todos.add("same text".to_string());
    assert_eq!(todos.len(), 2);
    let first = todos.get(0).clone();
    let second = todos.get(1).clone();
    todos.remove(&first);
    // Exactly one record left: the one not structurally equal to the target.
    assert_eq!(todos.len(), 1);
    assert!(*todos.get(0) == second);
    assert_eq!(descriptions(&todos), vec!["same text"]);
}

#[test]
fn done_removes_from_visible_list() {
    let mut todos = Todos::new();
    todos.add("call home".to_string());
    todos.add("pay rent".to_string());
    let target = todos.get(0).clone();
    todos.mark_done(&target);
    assert_eq!(descriptions(&todos), vec!["pay rent"]);
}

#[test]
fn submit_appends_and_clears_field() {
    let mut todos = Todos::new();
    let mut field = InputField::new();
    field.set_text("new entry".to_string());
    submit_create(&mut todos, &mut field);
    assert_eq!(field.text().as_str(), "");
    assert_eq!(descriptions(&todos), vec!["new entry"]);
}

#[test]
fn submit_of_empty_field_still_adds() {
    let mut todos = Todos::new();
    let mut field = InputField::new();
    submit_create(&mut todos, &mut field);
    assert_eq!(field.text().as_str(), "");
    assert_eq!(todos.len(), 1);
    assert_eq!(descriptions(&todos), vec![""]);
}

#[test]
fn milk_and_dog_scenario() {
    let mut todos = Todos::new();
    assert_eq!(todos.len(), 0);
    let mut field = InputField::new();
    field.set_text("Buy milk".to_string());
    submit_create(&mut todos, &mut field);
    field.set_text("Walk dog".to_string());
    submit_create(&mut todos, &mut field);
    assert_eq!(descriptions(&todos), vec!["Buy milk", "Walk dog"]);
    let milk = todos.get(0).clone();
    todos.remove(&milk);
    assert_eq!(descriptions(&todos), vec!["Walk dog"]);
}

#[test]
fn root_paths_lead_home() {
    assert_eq!(match_route(""), Route::Home);
    assert_eq!(match_route("/"), Route::Home);
    assert_eq!(route_heading(Route::Home), "Welcome to Lepto<Do>s!");
}

#[test]
fn unknown_path_renders_not_found() {
    assert_eq!(match_route("/no/such/page"), Route::NotFound);
    assert_eq!(match_route("/any"), Route::NotFound);
    assert_eq!(route_heading(Route::NotFound), "Not Found");
}

#[test]
fn not_found_status_only_on_first_server_response() {
    assert_eq!(response_status(Route::NotFound, true), Some(NOT_FOUND_STATUS));
    assert_eq!(response_status(Route::NotFound, true), Some(404));
    assert_eq!(response_status(Route::NotFound, false), None);
    assert_eq!(response_status(Route::Home, true), None);
    assert_eq!(response_status(Route::Home, false), None);
}
