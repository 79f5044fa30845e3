//! Firmware logic for a small networked device with a TM1637 four-digit
//! display.
//!
//! The heart of the crate is the display driver in [`tm1637`]: the glyph
//! tables, the two-wire protocol and the rendering of texts into frames.
//! Around it stand the device's bookkeeping: what the display shows from
//! second to second ([`clock`]), deadlines on the device's clock
//! ([`system_time`]), what the network side decides ([`network`]), and what
//! is made of the API's answers ([`api_client`], [`models`], [`errors`]).
//!
//! Nothing in this crate touches hardware or the network. The display driver
//! writes the exact sequence of line operations for each request, and a
//! [`tm1637::transmission::Transmission`] decides, from the outcome of each
//! operation, which one comes next; the other modules are told what happened
//! outside and say what follows from it.

pub mod api_client;
pub mod clock;
pub mod constants;
pub mod errors;
pub mod models;
pub mod network;
pub mod system_time;
pub mod tm1637;
