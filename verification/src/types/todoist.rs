//! Wire model of the task service: projects and tasks as they are sent, and
//! as they come back.

use vstd::prelude::*;

verus! {

/// A project to create.
#[derive(Debug, Clone, PartialEq, Eq)]
pub struct Project {
    pub name: String,
}

impl Project {
    pub fn new(name: &str) -> (project: Self)
        ensures
            project.name@ == name@,
    {
        Project { name: name.to_owned() }
    }
}

/// A project as the service describes it.
#[derive(Debug, Clone, PartialEq, Eq)]
pub struct ProjectResponse {
    pub id: u64,
    pub name: String,
    pub comment_count: Option<u32>,
    pub order: Option<u32>,
    pub color: Option<u32>,
    pub shared: Option<bool>,
    pub sync_id: Option<u32>,
    pub favorite: Option<bool>,
    pub inbox_project: Option<bool>,
}

/// A task to create. At most one of the three due fields may be set.
#[derive(Debug, Clone, Default, PartialEq, Eq)]
pub struct Task {
    pub content: String,
    pub project_id: Option<u64>,
    pub label_ids: Vec<u32>,
    pub due_string: Option<String>,
    pub due_date: Option<String>,
    pub due_datetime: Option<String>,
}

impl Task {
    /// A task that holds `content` and belongs to `project_id`,
    /// and that has neither label nor due date.
    pub open spec fn is_plain(&self, content: Seq<char>, project_id: u64) -> bool {
        &&& self.content@ == content
        &&& self.project_id == Some(project_id)
        &&& self.label_ids@.len() == 0
        &&& self.due_string is None
        &&& self.due_date is None
        &&& self.due_datetime is None
    }

    pub fn new(content: &str, project_id: u64) -> (task: Self)
        ensures
            task.is_plain(content@, project_id),
    {
        Task {
            content: content.to_owned(),
            project_id: Some(project_id),
            label_ids: Vec::new(),
            due_string: None,
            due_date: None,
            due_datetime: None,
        }
    }
}

/// A task as the service describes it.
#[derive(Debug, Clone, Default, PartialEq, Eq)]
pub struct TaskResponse {
    pub id: String,
    pub assigner_id: Option<String>,
    pub assignee_id: Option<String>,
    pub project_id: String,
    pub section_id: Option<String>,
    pub parent_id: Option<String>,
    pub order: u32,
    pub content: String,
    pub description: String,
    pub is_completed: bool,
    pub labels: Vec<String>,
    pub priority: u8,
    pub comment_count: u32,
    pub creator_id: Option<String>,
    pub created_at: String,
    pub due: Option<Due>,
    pub url: String,
}

/// When a task is due.
#[derive(Debug, Clone, Default, PartialEq, Eq)]
pub struct Due {
    pub string: String,
    pub date: String,
    pub is_recurring: bool,
    pub datetime: String,
    pub timezone: String,
}

} // verus!
