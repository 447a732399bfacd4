//! The command catalog: the closed mapping from symbolic command names to
//! their fixed byte encodings.
//!
//! The catalog holds two entries. `hci_reset` carries opcode `0x0C03`
//! (group 0x03, command 0x0003) and `hci_read_bd_addr` carries opcode
//! `0x1009` (group 0x04, command 0x0009); neither takes parameters. Adding a
//! command means adding a catalog entry, nothing else changes.

use vstd::prelude::*;

use vstd::string::StrSliceExecFns;

use crate::errors::ProtocolError;
use crate::frame::{encode, frame_bytes, CommandSpec};

verus! {

/// The commands the catalog holds.
#[derive(Clone, Copy, Debug, PartialEq, Eq, Structural)]
pub enum HciCommand {
    /// Control and baseband group: reset the controller.
    HciReset,
    /// Informational group: read the device address.
    HciReadBdAddr,
}

impl HciCommand {
    /// The 16-bit opcode of this command, group field in the upper six bits,
    /// command field in the lower ten.
    pub open spec fn spec_opcode(self) -> u16 {
        match self {
            HciCommand::HciReset => 0x0C03,
            HciCommand::HciReadBdAddr => 0x1009,
        }
    }

    /// The documented on-wire frame of this command: opcode low byte, opcode
    /// high byte, parameter length zero.
    pub open spec fn spec_frame(self) -> Seq<u8> {
        match self {
            HciCommand::HciReset => seq![0x03u8, 0x0Cu8, 0x00u8],
            HciCommand::HciReadBdAddr => seq![0x09u8, 0x10u8, 0x00u8],
        }
    }

    /// The catalog entry of this command.
    pub fn command_spec(self) -> (s: CommandSpec)
        ensures
            s.opcode == self.spec_opcode(),
            s.params@ == Seq::<u8>::empty(),
            s.wf(),
    {
        match self {
            HciCommand::HciReset => CommandSpec { opcode: 0x0C03, params: Vec::new() },
            HciCommand::HciReadBdAddr => CommandSpec { opcode: 0x1009, params: Vec::new() },
        }
    }

    /// The exact bytes sent on the wire for this command.
    pub fn value(&self) -> (r: Vec<u8>)
        ensures
            r@ == self.spec_frame(),
    {
        let s = self.command_spec();
        let r = encode(&s);
        proof {
            match *self {
                HciCommand::HciReset => {
                    assert(r@ =~= self.spec_frame());
                },
                HciCommand::HciReadBdAddr => {
                    assert(r@ =~= self.spec_frame());
                },
            }
        }
        r
    }
}

/// True exactly when the two strings hold the same characters.
fn chars_equal(a: &str, b: &str) -> (r: bool)
    ensures
        r == (a@ == b@),
{
    let a_len = a.unicode_len();
    let b_len = b.unicode_len();
    if a_len != b_len {
        return false;
    }
    let mut i: usize = 0;
    while i < a_len
        invariant
            i <= a_len,
            a_len == a@.len(),
            a_len == b@.len(),
            forall|j: int| 0 <= j < i ==> a@[j] == b@[j],
        decreases a_len - i,
    {
        if a.get_char(i) != b.get_char(i) {
            return false;
        }
        i += 1;
    }
    proof {
        assert(a@ =~= b@);
    }
    true
}

/// The catalog as a mapping from names to commands: `None` for every name
/// the catalog does not hold.
pub open spec fn catalog_entry(name: Seq<char>) -> Option<HciCommand> {
    if name == "hci_reset"@ {
        Some(HciCommand::HciReset)
    } else if name == "hci_read_bd_addr"@ {
        Some(HciCommand::HciReadBdAddr)
    } else {
        None
    }
}

/// Resolves a symbolic command name to the command it names.
///
/// Fails with `UnknownCommand` exactly when the catalog does not hold the
/// name.
pub fn parse_name(name: &str) -> (r: Result<HciCommand, ProtocolError>)
    ensures
        match r {
            Ok(cmd) => catalog_entry(name@) == Some(cmd),
            Err(e) => catalog_entry(name@) is None && e == ProtocolError::UnknownCommand,
        },
{
    proof {
        reveal_strlit("hci_reset");
        reveal_strlit("hci_read_bd_addr");
        assert("hci_reset"@.len() != "hci_read_bd_addr"@.len());
    }
    if chars_equal(name, "hci_reset") {
        Ok(HciCommand::HciReset)
    } else if chars_equal(name, "hci_read_bd_addr") {
        Ok(HciCommand::HciReadBdAddr)
    } else {
        Err(ProtocolError::UnknownCommand)
    }
}

/// Looks a symbolic name up in the catalog.
///
/// Returns the entry for exactly the names the catalog holds and fails with
/// `UnknownCommand` for every other name; no default entry is ever returned.
pub fn lookup(name: &str) -> (r: Result<CommandSpec, ProtocolError>)
    ensures
        match r {
            Ok(s) => {
                &&& catalog_entry(name@) is Some
                &&& s.opcode == catalog_entry(name@)->Some_0.spec_opcode()
                &&& s.params@ == Seq::<u8>::empty()
                &&& s.wf()
            },
            Err(e) => catalog_entry(name@) is None && e == ProtocolError::UnknownCommand,
        },
{
    match parse_name(name) {
        Ok(cmd) => Ok(cmd.command_spec()),
        Err(e) => Err(e),
    }
}

/// For every name the catalog holds, encoding the entry that `lookup`
/// returns for it reproduces the documented byte sequence of the command.
pub proof fn lemma_encode_lookup(name: Seq<char>, s: CommandSpec)
    requires
        catalog_entry(name) is Some,
        s.opcode == catalog_entry(name)->Some_0.spec_opcode(),
        s.params@ == Seq::<u8>::empty(),
    ensures
        frame_bytes(s) == catalog_entry(name)->Some_0.spec_frame(),
        name == "hci_reset"@ ==> frame_bytes(s) == seq![0x03u8, 0x0Cu8, 0x00u8],
        name == "hci_read_bd_addr"@ ==> frame_bytes(s) == seq![0x09u8, 0x10u8, 0x00u8],
{
    reveal_strlit("hci_reset");
    reveal_strlit("hci_read_bd_addr");
    assert("hci_reset"@.len() != "hci_read_bd_addr"@.len());
    let cmd = catalog_entry(name)->Some_0;
    assert(frame_bytes(s) =~= cmd.spec_frame());
}

} // verus!
