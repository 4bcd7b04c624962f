//! A live-coding surface for Python scripts: an interpreter session that
//! compiles and reruns a script on demand against a persistent namespace,
//! captures what it prints, and hands it checked drawing capabilities.
pub mod bridge;
pub mod fault;
pub mod indent;
pub mod project;
pub mod session;
pub mod text;

pub use project::{Console, Project, RunMode, TemplateApp};
pub use session::Runtime;
