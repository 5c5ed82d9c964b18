//! A policy gate for task plans: a `Plan` of proposed tasks is checked
//! against a fixed rule set and promoted to an `ApprovedPlan`, or rejected
//! with the first `PolicyError` found.

pub mod command_rules;
pub mod laws;
pub mod model;
pub mod path_rules;
pub mod planner;
pub mod policy;
pub mod text;
pub mod validator;

pub use model::{ApprovedPlan, Plan, Task, TaskView};
pub use policy::{PolicyError, Rejection};
pub use validator::validate;
