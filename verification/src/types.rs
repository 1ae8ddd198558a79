pub mod todoist;
pub mod vision_api;
