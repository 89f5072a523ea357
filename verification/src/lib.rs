//! A small to-do list: tasks, the collection that holds them, the statements
//! that keep a relational store in step with it, and the menu's decisions.

pub mod report;
pub mod text;
pub mod todo_core;
pub mod todo_db;
pub mod viewer;
