//! Framing of the byte stream a Modbus TCP client sends.
use vstd::prelude::*;

verus! {

/// Largest value of the MBAP length field that is served.
pub const MAX_MBAP_LEN: u16 = 253;

/// How many PDU bytes follow a 7-byte MBAP header: its length field counts
/// the unit id (already in the header) plus the PDU. `None` for a length of
/// 0 or above 253, on which the connection is closed.
pub fn pdu_body_len(header: &[u8]) -> (res: Option<usize>)
    requires
        header@.len() >= 6,
    ensures
        ({
            let len = header@[4] * 256 + header@[5];
            match res {
                Some(n) => 1 <= len <= MAX_MBAP_LEN && n == len - 1,
                None => len == 0 || len > MAX_MBAP_LEN,
            }
        }),
{
    let len: usize = header[4] as usize * 256 + header[5] as usize;
    if len == 0 || len > MAX_MBAP_LEN as usize {
        None
    } else {
        Some(len - 1)
    }
}

} // verus!
