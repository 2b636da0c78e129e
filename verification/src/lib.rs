pub mod form;
pub mod route;
pub mod todo;
pub mod todos;
