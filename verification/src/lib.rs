//! The logic of a small box of command-line tools, with its proofs.
//!
//! The heart of it is the relay of `nc`, which joins the standard input and output of a
//! process to a remote TCP end and moves bytes both ways until either way ends: the
//! copier of one direction ([`nc::_pipe_stream`], over the streams of [`stream`]) and the
//! course of a relay from connecting to its report ([`relay::Relay`]). Around it stand
//! the reading of arguments, the messages of failures, and what `cat`, `env` and `ls`
//! compute. Nothing here reads or writes outside the program: a caller does that, and
//! tells the library what came of it.

pub mod cat;
pub mod dispatch;
pub mod env;
pub mod error;
pub mod ls;
pub mod nc;
pub mod port;
pub mod relay;
pub mod stream;
pub mod text;
