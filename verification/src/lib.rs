//! Decision logic of a handheld camera-streaming client.
//!
//! The program around this library polls the key pad once per frame, asks the
//! user for a server address through a modal keyboard, opens one TCP
//! connection and draws a text menu. Everything it decides is decided here:
//! which keys count as pressed, which menu screen comes next, what the loop
//! has to do in a frame, and how the replies of the keyboard and of the
//! connection attempt are turned into a result.

pub mod error;
pub mod keys;
pub mod menu;
pub mod prompt;
