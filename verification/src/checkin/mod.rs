//! The admission check-in program: its machine inspection and the state of
//! its full-screen window.
pub mod inspect;
pub mod app;
