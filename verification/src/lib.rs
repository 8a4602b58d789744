//! A small task-tracking domain: a todo aggregate moving through a fixed
//! three-stage workflow, emitting domain events on creation and state
//! change, persisted through a repository abstraction.

mod clock;
mod ids;
pub mod handlers;
pub mod inmemory_todo_repository;
pub mod sql_todo_repository;
pub mod todo_repository;
pub mod text;
pub mod todo_entity;
pub mod todo_error;
pub mod todo_event;
pub mod todo_state;

pub use todo_entity::Todo;
pub use todo_repository::TodoRepository;
pub use inmemory_todo_repository::InMemoryTodoRepository;
pub use handlers::{AddTodoHandler, ChangeTodoStateHandler, GetTodosHandler};
pub use sql_todo_repository::SqlTodoRepository;
pub use todo_error::TodoError;
pub use todo_event::TodoEvent;
pub use todo_state::TodoState;
