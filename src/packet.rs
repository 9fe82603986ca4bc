//! The input packet sent to the companion process: one byte of event id, then
//! the x and y coordinates as little-endian signed 32-bit integers.
use vstd::prelude::*;
use crate::bytes::{le_bytes, push_u32_le};

verus! {

/// Size of an encoded packet in bytes.
pub const PACKET_SIZE: usize = 9;

/// The pointer events forwarded to the companion.
#[derive(Clone, Copy, Debug, PartialEq, Eq, Structural)]
pub enum MouseEvent {
    LeftDown,
    LeftUp,
    Move,
    RightDown,
    RightUp,
}

impl MouseEvent {
    /// The event's id on the wire.
    pub open spec fn code_spec(self) -> u8 {
        match self {
            MouseEvent::LeftDown => 0,
            MouseEvent::LeftUp => 1,
            MouseEvent::Move => 2,
            MouseEvent::RightDown => 3,
            MouseEvent::RightUp => 4,
        }
    }

    /// The event's id on the wire.
    pub fn code(&self) -> (r: u8)
        ensures
            r == self.code_spec(),
    {
        match self {
            MouseEvent::LeftDown => 0,
            MouseEvent::LeftUp => 1,
            MouseEvent::Move => 2,
            MouseEvent::RightDown => 3,
            MouseEvent::RightUp => 4,
        }
    }
}

/// One pointer event, its coordinates already in the companion's resolution.
#[derive(Clone, Copy, Debug, PartialEq, Eq, Structural)]
pub struct MouseInputPacket {
    pub event: MouseEvent,
    pub x: i32,
    pub y: i32,
}

impl MouseInputPacket {
    /// The packet's bytes: id, then x and y in two's complement, little-endian.
    pub open spec fn wire(self) -> Seq<u8> {
        seq![self.event.code_spec()] + le_bytes(self.x as u32 as nat, 4) + le_bytes(
            self.y as u32 as nat,
            4,
        )
    }

    /// Encodes the packet for the transport.
    pub fn encode(&self) -> (r: Vec<u8>)
        ensures
            r@ == self.wire(),
            r@.len() == PACKET_SIZE,
    {
        let mut out: Vec<u8> = Vec::new();
        out.push(self.event.code());
        push_u32_le(&mut out, self.x as u32);
        push_u32_le(&mut out, self.y as u32);
        proof {
            reveal_with_fuel(le_bytes, 5);
        }
        out
    }
}

} // verus!
