use pen_to_todoist::http::{Body, Field, HttpRequest, Method};
use pen_to_todoist::todoist::{
    init_request, shopping_list, short_id, target_of, tasks_for, Target, PROJECTS_URL,
    SHOPPING_LIST, TASKS_URL,
};
use pen_to_todoist::types::todoist::{Project, ProjectResponse, Task};

fn created(id: u64) -> ProjectResponse {
    ProjectResponse {
        id,
        name: "Einkaufsliste".to_string(),
        comment_count: None,
        order: Some(3),
        color: None,
        shared: Some(false),
        sync_id: None,
        favorite: None,
        inbox_project: None,
    }
}

#[test]
fn urls_and_name_of_the_list() {
    assert_eq!(PROJECTS_URL, "https://api.todoist.com/rest/v2/projects");
    assert_eq!(TASKS_URL, "https://api.todoist.com/rest/v2/tasks");
    assert_eq!(SHOPPING_LIST, "Einkaufsliste");
}

#[test]
fn project_has_its_name() {
    assert_eq!(Project::new("Einkaufsliste").name, "Einkaufsliste");
    assert_eq!(Project::new("").name, "");
}

#[test]
fn task_has_content_and_project_and_nothing_else() {
    let task = Task::new("Milk", 2_203_306_141);
    assert_eq!(
        task,
        Task {
            content: "Milk".to_string(),
            project_id: Some(2_203_306_141),
            label_ids: Vec::new(),
            due_string: None,
            due_date: None,
            due_datetime: None,
        }
    );
}

#[test]
fn zero_asks_for_a_new_shopping_list() {
    assert_eq!(target_of(0), Target::NewShoppingList);
    assert_eq!(target_of(1), Target::Existing(1));
    assert_eq!(target_of(u32::MAX), Target::Existing(u32::MAX));
    assert_eq!(shopping_list(), Project::new("Einkaufsliste"));
}

#[test]
fn one_task_for_each_title_in_order() {
    let titles = vec!["Milk".to_string(), "Eggs".to_string(), "Bread".to_string()];
    let tasks = tasks_for(&titles, 77);
    assert_eq!(
        tasks,
        vec![Task::new("Milk", 77), Task::new("Eggs", 77), Task::new("Bread", 77)]
    );
    assert_eq!(tasks_for(&Vec::new(), 77), Vec::<Task>::new());
}

#[test]
fn short_id_is_the_low_half_of_the_identifier() {
    assert_eq!(short_id(&created(0)), 0);
    assert_eq!(short_id(&created(2_203_306_141)), 2_203_306_141);
    assert_eq!(short_id(&created(u32::MAX as u64)), u32::MAX);
    assert_eq!(short_id(&created(u32::MAX as u64 + 1)), 0);
    assert_eq!(short_id(&created(0x1234_5678_9abc_def0)), 0x9abc_def0);
    assert_eq!(short_id(&created(u64::MAX)), u32::MAX);
}

#[test]
fn post_names_itself_and_declares_json() {
    let request =
        init_request(Method::Post, TASKS_URL, Some("{}".to_string()), "secret", "1700000000000");
    assert_eq!(
        request,
        HttpRequest {
            method: Method::Post,
            url: "https://api.todoist.com/rest/v2/tasks".to_string(),
            headers: vec![
                Field::new("Authorization", "Bearer secret"),
                Field::new("X-Request-Id", "1700000000000"),
                Field::new("Content-Type", "application/json"),
            ],
            body: Body::Text("{}".to_string()),
        }
    );
}

#[test]
fn get_presents_the_token_and_nothing_else() {
    let request = init_request(Method::Get, PROJECTS_URL, None, "secret", "unused");
    assert_eq!(
        request,
        HttpRequest {
            method: Method::Get,
            url: "https://api.todoist.com/rest/v2/projects".to_string(),
            headers: vec![Field::new("Authorization", "Bearer secret")],
            body: Body::Empty,
        }
    );
}

#[test]
fn post_without_a_body_carries_none() {
    let request = init_request(Method::Post, PROJECTS_URL, None, "t", "7");
    assert_eq!(request.body, Body::Empty);
    assert_eq!(request.headers.len(), 3);
}

#[test]
fn methods_have_their_names() {
    assert_eq!(Method::Get.name(), "GET");
    assert_eq!(Method::Post.name(), "POST");
}
