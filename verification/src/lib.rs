//! Chat state and screen logic for a desktop assistant that talks to a local
//! language-model server: chats and their messages, the conversation screen,
//! the model download screen and the screen switcher, each written as a
//! transition from state and event to next state and the work to perform.

pub mod assistant;
pub mod chat;
pub mod conversation;
pub mod db;
pub mod huggingface;
pub mod ids;
pub mod loading;
pub mod page;
mod result_clone;
pub mod screen;
pub mod text;
pub mod viewers;
