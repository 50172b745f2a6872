//! A small set of self-contained demonstrations behind one shared interface.
//!
//! Every demonstration computes the lines of text it has to show and hands
//! them back as plain values; the dispatcher collects them in registration
//! order. Writing the lines to a console is left to the caller.

pub mod dispatch;
pub mod irun;
pub mod module;
pub mod text;
