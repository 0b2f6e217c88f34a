//! What the commands promise, in terms of what the user asks for, the bytes that
//! go to the controller, the bytes that come back, and what is shown.

pub mod basics;
pub mod commands;
pub mod health;
pub mod inventory;
pub mod lan;
pub mod log;
pub mod outcomes;
pub mod records;
pub mod report;

use vstd::prelude::*;

use crate::conn::{Recipient, RequestView, ResponseView};
use crate::text::Chars;

verus! {

/// A request to the BMC itself.
pub open spec fn to_bmc(netfn: u8, cmd: u8, data: Seq<u8>) -> RequestView {
    RequestView { netfn, cmd, data, recipient: Recipient::Bmc }
}

/// A successful reply.
pub open spec fn answer(data: Seq<u8>) -> Result<ResponseView, Chars> {
    Ok(ResponseView { cc: 0, data })
}

/// A byte of a reply; zero past its end.
pub open spec fn byte(data: Seq<u8>, i: int) -> u8 {
    if 0 <= i < data.len() {
        data[i]
    } else {
        0
    }
}

/// Whether bit `i` of a byte is set.
pub open spec fn bit(b: u8, i: u8) -> bool {
    (b >> i) & 1 == 1
}

/// The bits of a byte, one by one, are what its masks select.
pub proof fn lemma_bits(b: u8)
    ensures
        bit(b, 0) == (b & 0x01 != 0),
        bit(b, 1) == (b & 0x02 != 0),
        bit(b, 2) == (b & 0x04 != 0),
        bit(b, 3) == (b & 0x08 != 0),
        bit(b, 4) == (b & 0x10 != 0),
        bit(b, 5) == (b & 0x20 != 0),
        bit(b, 6) == (b & 0x40 != 0),
        bit(b, 7) == (b & 0x80 != 0),
{
    assert({
        &&& ((b >> 0) & 1 == 1) == (b & 0x01 != 0)
        &&& ((b >> 1) & 1 == 1) == (b & 0x02 != 0)
        &&& ((b >> 2) & 1 == 1) == (b & 0x04 != 0)
        &&& ((b >> 3) & 1 == 1) == (b & 0x08 != 0)
        &&& ((b >> 4) & 1 == 1) == (b & 0x10 != 0)
        &&& ((b >> 5) & 1 == 1) == (b & 0x20 != 0)
        &&& ((b >> 6) & 1 == 1) == (b & 0x40 != 0)
        &&& ((b >> 7) & 1 == 1) == (b & 0x80 != 0)
    }) by (bit_vector);
}

/// The items whose bit in `b` is set, among the first `n`, in order.
pub open spec fn picked(b: u8, items: Seq<Chars>, n: int) -> Seq<Chars>
    decreases n,
{
    if n <= 0 {
        seq![]
    } else if bit(b, (n - 1) as u8) {
        picked(b, items, n - 1).push(items[n - 1])
    } else {
        picked(b, items, n - 1)
    }
}

/// A bit is what its mask selects.
pub proof fn lemma_mask_bit(b: u8, i: u8)
    requires
        i < 8,
    ensures
        bit(b, i) == (b & (1u8 << i) != 0),
{
    assert(((b >> i) & 1 == 1) == (b & (1u8 << i) != 0)) by (bit_vector)
        requires
            i < 8,
    ;
}

} // verus!
