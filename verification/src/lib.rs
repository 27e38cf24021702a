//! Control core of a multi-channel audio mixer.
//!
//! The crate holds what a mixer decides and keeps: the controls of every
//! effect stage and their ranges, the state machines of the stages, the
//! strips, the buses, the routing matrix and the meters. Levels, times and
//! frequencies are fixed-point numbers; see [`units`].

pub mod bleeper;
pub mod bus;
pub mod calibrate;
pub mod config;
pub mod ducking;
pub mod fx;
pub mod master;
pub mod measure;
pub mod metering;
pub mod mixer;
pub mod pipewire;
pub mod recording;
pub mod routing;
pub mod scan;
pub mod stt;
pub mod text;
pub mod units;
pub mod updater;
pub mod voice_fx;
