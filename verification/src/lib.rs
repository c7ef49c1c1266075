//! Timing of AES-128 key setup, batch encryption and batch decryption, and the
//! report of the three totals on a drawing canvas.
//!
//! The crate is split along the life of the program: [`engine`] measures,
//! [`surface`] lays the totals out as drawing commands, and [`dispatch`] decides
//! what each incoming message does. [`cipher`] holds what the engine has from
//! the `aes` crate, [`message`] the identities of the messages, and
//! [`decimal`] the rendering of a total as text.

pub mod cipher;
pub mod decimal;
pub mod dispatch;
pub mod engine;
pub mod message;
pub mod surface;
