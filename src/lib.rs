//! Backend of a small desktop demo: a click counter and a message log kept
//! for one session, and the replies computed from them.

pub mod text;
pub mod clock;
pub mod echo;
pub mod session;
