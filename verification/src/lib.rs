//! Lexi: the verified core of a Chinese input method for Windows.
//!
//! The library holds the decisions of the input method; the program around it
//! performs the Windows, pipe, file and engine-library calls that the
//! decisions ask for.
#![allow(unused_imports)]

pub mod text;
pub mod guid;
pub mod com;
pub mod engine;
pub mod bar;
pub mod protocol;
pub mod client;
pub mod tsf;
pub mod logging;
