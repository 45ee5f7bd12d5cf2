//! Windows default terminal support: the decisions behind the registration of a
//! terminal with Windows, and behind the console sessions that Windows hands
//! over to it.
//!
//! Nothing here talks to the operating system. An operation is a dialogue: it
//! asks for one thing at a time and is resumed with the answer.
//!
//! * [`machine`] and [`registry`] are the dialogue about the registry and files,
//!   [`kernel`] the one about handles and processes.
//! * [`registration`] reads and writes the default terminal selection, and
//!   registers COM servers; [`cli`] builds the commands `enable` and `disable`
//!   from it.
//! * [`handoff`] is the COM object that receives a session, [`integration`]
//!   takes the session over, and [`raw_pty`] wraps its handles.
//! * [`host`] is the state of the process: how it was launched, whether it
//!   listens, and what is staged for the next window.
//! * [`text`], [`guid`] and [`types`] read what Windows writes.
//! * [`model`] relates run-time values to the mathematical ones that
//!   specifications speak of; [`world`] is a model of the whole system, over
//!   which the laws of whole operations are stated.

#![allow(non_snake_case)]

pub mod cli;
pub mod error;
pub mod guid;
pub mod handoff;
pub mod host;
pub mod integration;
pub mod kernel;
pub mod machine;
pub mod model;
pub mod notice;
pub mod once;
pub mod raw_pty;
pub mod registration;
pub mod registry;
pub mod text;
pub mod types;
pub mod world;
