//! What to ask of the task service for the items read from an image: the
//! project they go to, and one task for each of them.

use crate::auth::bearer;
use crate::http::{pair, Body, Exchange, Field, HttpRequest, Method, Pair, Payload};
use crate::types::todoist::{Project, ProjectResponse, Task};
use vstd::prelude::*;

verus! {

pub const PROJECTS_URL: &'static str = "https://api.todoist.com/rest/v2/projects";

pub const TASKS_URL: &'static str = "https://api.todoist.com/rest/v2/tasks";

pub const SHOPPING_LIST: &'static str = "Einkaufsliste";

/// Where the tasks go.
#[derive(Debug, Clone, Copy, PartialEq, Eq, Structural)]
pub enum Target {
    /// Into the project with this identifier.
    Existing(u32),
    /// Into a shopping list that is yet to be created.
    NewShoppingList,
}

/// The target that a caller names: 0 stands for a new shopping list, every
/// other number for the project that has it.
pub fn target_of(list_id: u32) -> (target: Target)
    ensures
        target == if list_id == 0 {
            Target::NewShoppingList
        } else {
            Target::Existing(list_id)
        },
{
    if list_id == 0 {
        Target::NewShoppingList
    } else {
        Target::Existing(list_id)
    }
}

/// The project to create where none was named.
pub fn shopping_list() -> (project: Project)
    ensures
        project.name@ == SHOPPING_LIST@,
{
    Project::new(SHOPPING_LIST)
}

/// The identifier of a project that was created, as the callers of the
/// pipeline take it: its low 32 bits.
pub fn short_id(project: &ProjectResponse) -> (id: u32)
    ensures
        id == project.id % 0x1_0000_0000,
{
    (project.id % 0x1_0000_0000) as u32
}

/// The headers of a request to the task service. Every request presents the
/// bearer token; one that posts also names itself and declares JSON.
pub open spec fn headers_for(mode: Method, token: Seq<char>, request_id: Seq<char>) -> Seq<Pair> {
    match mode {
        Method::Get => seq![pair("Authorization"@, "Bearer "@ + token)],
        Method::Post => seq![
            pair("Authorization"@, "Bearer "@ + token),
            pair("X-Request-Id"@, request_id),
            pair("Content-Type"@, "application/json"@),
        ],
    }
}

/// The body of a request: the text, where there is one.
pub open spec fn payload_of(body: Option<String>) -> Payload {
    match body {
        Some(text) => Payload::Text(text@),
        None => Payload::Empty,
    }
}

/// A request to the task service. `request_id` tells one post from another
/// and goes unused where nothing is posted.
pub fn init_request(
    mode: Method,
    url: &str,
    body: Option<String>,
    token: &str,
    request_id: &str,
) -> (request: HttpRequest)
    ensures
        request@ == (Exchange {
            method: mode,
            url: url@,
            headers: headers_for(mode, token@, request_id@),
            body: payload_of(body),
        }),
{
    let mut headers: Vec<Field> = Vec::new();
    headers.push(Field::new("Authorization", bearer(token).as_str()));
    match mode {
        Method::Post => {
            headers.push(Field::new("X-Request-Id", request_id));
            headers.push(Field::new("Content-Type", "application/json"));
        },
        Method::Get => {},
    }
    assert(headers.deep_view() =~= headers_for(mode, token@, request_id@));
    let body = match body {
        Some(text) => Body::Text(text),
        None => Body::Empty,
    };
    HttpRequest { method: mode, url: url.to_owned(), headers, body }
}

/// One plain task for each title, in the order of the titles, all in the
/// project `project_id`.
pub fn tasks_for(titles: &Vec<String>, project_id: u32) -> (tasks: Vec<Task>)
    ensures
        tasks@.len() == titles@.len(),
        forall|i: int|
            0 <= i < titles@.len() ==> (#[trigger] tasks@[i]).is_plain(
                titles@[i]@,
                project_id as u64,
            ),
{
    let mut tasks: Vec<Task> = Vec::new();
    let mut i: usize = 0;
    while i < titles.len()
        invariant
            i <= titles.len(),
            tasks@.len() == i,
            forall|k: int|
                0 <= k < i ==> (#[trigger] tasks@[k]).is_plain(titles@[k]@, project_id as u64),
        decreases titles.len() - i,
    {
        tasks.push(Task::new(titles[i].as_str(), project_id as u64));
        i += 1;
    }
    tasks
}

} // verus!
