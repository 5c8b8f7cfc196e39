//! Section identifiers used by the upload protocol. Wire framing is the
//! ACK/DATA/CRC scheme; START carries one trailing section byte.

use vstd::prelude::*;

verus! {

pub const SEC_APP: u8 = 0;

pub const SEC_SLOT_B: u8 = 1;

} // verus!
