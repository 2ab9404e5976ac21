pub mod af83;
pub mod github;
pub mod jenkins;
pub mod json_doc;
pub mod pull_request;
pub mod tracker;

mod text;
