//! The codes by which a client names what it asks for at start-up.

use crate::text::{hexadecimal_string, integer_string, integer_text, natural_text};
use vstd::prelude::*;
use vstd::string::StringExecFns;

verus! {

/// The 32-bit code that opens a start-up packet.
#[derive(Debug, PartialEq, Eq, Structural, Copy, Clone)]
pub struct Code(pub i32);

/// Version 1 of the protocol.
pub const VERSION_1_CODE: i32 = 0x00_01_00_00;

/// Version 2 of the protocol.
pub const VERSION_2_CODE: i32 = 0x00_02_00_00;

/// Version 3 of the protocol.
pub const VERSION_3_CODE: i32 = 0x00_03_00_00;

/// The client asks to cancel a running command.
pub const CANCEL_REQUEST_CODE: i32 = 80_877_102;

/// The client asks for an `ssl` connection.
pub const SSL_REQUEST_CODE: i32 = 80_877_103;

/// The client asks for a `gss` encrypted connection.
pub const GSSENC_REQUEST_CODE: i32 = 80_877_104;

impl Code {
    /// The unsigned reading of the code's 32 bits.
    pub open spec fn pattern(self) -> nat {
        if self.0 < 0 {
            (self.0 + 0x1_0000_0000) as nat
        } else {
            self.0 as nat
        }
    }

    /// What the code asks for, in words. A version is written with its
    /// major and minor number, and a code that is not known with its high
    /// and low sixteen bits in hexadecimal.
    pub open spec fn text(self) -> Seq<char> {
        if self.0 == CANCEL_REQUEST_CODE {
            "Cancel Request"@
        } else if self.0 == SSL_REQUEST_CODE {
            "SSL Request"@
        } else if self.0 == GSSENC_REQUEST_CODE {
            "GSSENC Request"@
        } else if self.0 == VERSION_1_CODE || self.0 == VERSION_2_CODE || self.0
            == VERSION_3_CODE {
            "Version "@ + integer_text(self.0 as int / 0x1_0000) + "."@ + integer_text(
                self.0 as int % 0x1_0000,
            )
                + " Request"@
        } else {
            "High bytes 0x"@ + natural_text(self.pattern() / 0x1_0000, 16) + " Low bytes: 0x"@
                + natural_text(self.pattern() % 0x1_0000, 16)
        }
    }

    /// What the code asks for, in words.
    pub fn to_string(&self) -> (text: String)
        ensures
            text@ == self.text(),
    {
        let code: i32 = self.0;
        if code == CANCEL_REQUEST_CODE {
            String::from_str("Cancel Request")
        } else if code == SSL_REQUEST_CODE {
            String::from_str("SSL Request")
        } else if code == GSSENC_REQUEST_CODE {
            String::from_str("GSSENC Request")
        } else if code == VERSION_1_CODE || code == VERSION_2_CODE || code == VERSION_3_CODE {
            let major = integer_string((code / 0x1_0000) as i64);
            let minor = integer_string((code % 0x1_0000) as i64);
            String::from_str("Version ").concat(major.as_str()).concat(".").concat(
                minor.as_str(),
            ).concat(" Request")
        } else {
            let pattern: u64 = if code < 0 {
                (code as i64 + 0x1_0000_0000) as u64
            } else {
                code as u64
            };
            let high = hexadecimal_string(pattern / 0x1_0000);
            let low = hexadecimal_string(pattern % 0x1_0000);
            String::from_str("High bytes 0x").concat(high.as_str()).concat(
                " Low bytes: 0x",
            ).concat(low.as_str())
        }
    }

    /// The four bytes of the code, as they go over the wire.
    pub fn as_vec(&self) -> (bytes: Vec<u8>)
        ensures
            bytes@ == crate::wire::be_bytes4(self.0 as int),
    {
        let mut bytes: Vec<u8> = Vec::new();
        crate::wire::push_i32(&mut bytes, self.0);
        assert(bytes@ =~= crate::wire::be_bytes4(self.0 as int));
        bytes
    }
}

} // verus!
