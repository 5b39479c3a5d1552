//! The editing engine of a small modal text editor: the document, cursor and
//! viewport model, the modal input state machine, search, the buffer manager
//! and the layout of what is drawn. Terminal and file access stay outside;
//! the engine says what it needs done and is told what came of it.

pub mod text;

pub mod error;

pub mod model;

pub mod highlight;

pub mod state;

pub mod editor;

pub mod search;

pub mod buffermanager;

pub mod input;

pub mod render;

pub mod config;

pub mod laws;
