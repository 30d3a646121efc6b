//! A terminal chat client's core: the conversation transcript, the retry
//! decisions around a completion request, and the handling of user input.
pub mod message;
pub mod chatbot;
pub mod theorems;
pub mod session;
