//! The messages that the program understands.
//!
//! A message carries nothing but its identity, a number.

use vstd::prelude::*;

verus! {

/// The name under which the program registers as a service.
pub const SERVER_NAME: &'static str = "_sha512_";

/// The identity of the message that asks for a redraw.
pub const REDRAW_ID: u32 = 0;

/// The identity of the message that ends the program.
pub const QUIT_ID: u32 = 1;

/// The kinds of message that the program understands.
#[derive(Clone, Copy, Debug, PartialEq, Eq)]
pub enum Opcode {
    /// Redraw the screen.
    Redraw,
    /// Quit the application.
    Quit,
}

impl Opcode {
    /// The identity that stands for this kind of message.
    pub open spec fn id(self) -> nat {
        match self {
            Opcode::Redraw => REDRAW_ID as nat,
            Opcode::Quit => QUIT_ID as nat,
        }
    }

    /// The kind of message that identity `id` stands for, if any.
    pub open spec fn decode(id: nat) -> Option<Opcode> {
        if id == REDRAW_ID {
            Some(Opcode::Redraw)
        } else if id == QUIT_ID {
            Some(Opcode::Quit)
        } else {
            None
        }
    }

    /// The identity of this kind of message.
    pub fn to_u32(&self) -> (id: u32)
        ensures
            id == self.id(),
    {
        match self {
            Opcode::Redraw => REDRAW_ID,
            Opcode::Quit => QUIT_ID,
        }
    }

    /// Reads the identity of a message: `None` for one that the program does
    /// not know.
    pub fn from_usize(id: usize) -> (opcode: Option<Opcode>)
        ensures
            opcode == Opcode::decode(id as nat),
    {
        if id == 0 {
            Some(Opcode::Redraw)
        } else if id == 1 {
            Some(Opcode::Quit)
        } else {
            None
        }
    }
}

/// Every kind of message is read back from its own identity, and no two kinds
/// share one.
pub proof fn lemma_opcode_round_trip(opcode: Opcode)
    ensures
        Opcode::decode(opcode.id()) == Some(opcode),
{
}

} // verus!
