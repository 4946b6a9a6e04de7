//! Register-level bus transactions: what the driver asks of its caller, what
//! the caller hands back, and the masked update of a register byte.

use vstd::prelude::*;

verus! {

/// One step for the caller to perform on the driver's behalf.
#[derive(Debug, Copy, Clone, PartialEq, Eq)]
pub enum Command {
    /// One bus write to `address` of the two bytes `register`, `value`.
    Write { address: u8, register: u8, value: u8 },
    /// One bus transaction with `address`: write the byte `register`, then
    /// read one byte.
    Read { address: u8, register: u8 },
    /// One bus transaction with `address`: write the byte `register`, then
    /// read six bytes.
    ReadSample { address: u8, register: u8 },
    /// Suspend for at least `micros` microseconds.
    Delay { micros: u32 },
}

/// What came back from a [`Command`].
#[derive(Debug, PartialEq, Eq)]
pub enum Reply<E> {
    /// A `Write` completed.
    Written,
    /// A `Read` completed with this byte.
    Byte(u8),
    /// A `ReadSample` completed with these six bytes.
    Sample([u8; 6]),
    /// A `Delay` elapsed.
    Elapsed,
    /// The bus reported this error for a `Write`, `Read` or `ReadSample`.
    Failed(E),
}

impl Command {
    /// Whether the command is a transaction on the bus.
    pub open spec fn on_bus(self) -> bool {
        !(self is Delay)
    }

    /// Whether `reply` is an answer that this command can have.
    pub open spec fn answered_by<E>(self, reply: Reply<E>) -> bool {
        match self {
            Command::Write { .. } => reply is Written || reply is Failed,
            Command::Read { .. } => reply is Byte || reply is Failed,
            Command::ReadSample { .. } => reply is Sample || reply is Failed,
            Command::Delay { .. } => reply is Elapsed,
        }
    }
}

/// A register byte after a masked update: the bits under `mask` come from
/// `value`, all others from `current`.
pub open spec fn merged(current: u8, mask: u8, value: u8) -> u8 {
    (current & !mask) | (value & mask)
}

/// Computes the byte to write back in a masked update of a register that
/// holds `current`.
pub fn merge(current: u8, mask: u8, value: u8) -> (byte: u8)
    ensures
        byte == merged(current, mask, value),
        byte & !mask == current & !mask,
        byte & mask == value & mask,
{
    let byte: u8 = (current & !mask) | (value & mask);
    proof {
        lemma_merged_bits(current, mask, value);
    }
    byte
}

/// A masked update keeps every bit outside the mask and takes every bit
/// under the mask from the new value.
pub proof fn lemma_merged_bits(current: u8, mask: u8, value: u8)
    ensures
        merged(current, mask, value) & !mask == current & !mask,
        merged(current, mask, value) & mask == value & mask,
        forall|bit: u8|
            bit < 8 ==> #[trigger] ((merged(current, mask, value) >> bit) & 1) == (if (mask >> bit)
                & 1 == 1 {
                (value >> bit) & 1
            } else {
                (current >> bit) & 1
            }),
{
    assert(((current & !mask) | (value & mask)) & !mask == current & !mask) by (bit_vector);
    assert(((current & !mask) | (value & mask)) & mask == value & mask) by (bit_vector);
    assert forall|bit: u8| bit < 8 implies #[trigger] ((merged(current, mask, value) >> bit) & 1)
        == (if (mask >> bit) & 1 == 1 {
        (value >> bit) & 1
    } else {
        (current >> bit) & 1
    }) by {
        assert(bit < 8 ==> ((((current & !mask) | (value & mask)) >> bit) & 1) == (if (mask >> bit)
            & 1 == 1 {
            (value >> bit) & 1
        } else {
            (current >> bit) & 1
        })) by (bit_vector);
    }
}

} // verus!
