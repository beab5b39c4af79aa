//! Wall-clock time and fresh identifiers, the two inputs that the engine
//! takes from outside itself, and the text of an identifier.

use crate::api::auth::{hex_digit, hex_text};
use vstd::prelude::*;
use vstd::string::StringExecFns;

verus! {

/// Calls `chrono::Utc::now` and hands back the milliseconds since the Unix
/// epoch (`timestamp_millis`). Nothing is claimed of the value. `chrono`
/// panics where the machine's clock stands before the epoch.
#[verifier::external_body]
pub(crate) fn utc_now_millis() -> i64 {
    chrono::Utc::now().timestamp_millis()
}

/// Calls `uuid::Uuid::new_v4` and hands back the identifier as a number
/// (`as_u128`). Nothing is claimed of the value: it is random. `uuid`
/// panics where the machine hands out no random bytes.
#[verifier::external_body]
pub(crate) fn fresh_uuid() -> u128 {
    uuid::Uuid::new_v4().as_u128()
}

/// The last `width` hexadecimal digits of `n`, lower case, with zeros in
/// front where `n` has fewer.
pub open spec fn hex_padded(n: nat, width: nat) -> Seq<char>
    decreases width,
{
    if width == 0 {
        Seq::empty()
    } else {
        hex_padded(n / 16, (width - 1) as nat).push(hex_digit((n % 16) as int))
    }
}

/// The text of an identifier: its 32 hexadecimal digits, highest first,
/// lower case, in groups of 8, 4, 4, 4 and 12 with hyphens between them.
pub open spec fn uuid_text(id: u128) -> Seq<char> {
    hex_padded((id / 0x1_0000_0000_0000_0000_0000_0000) as nat, 8) + "-"@ + hex_padded(
        (id / 0x1_0000_0000_0000_0000_0000) as nat,
        4,
    ) + "-"@ + hex_padded((id / 0x1_0000_0000_0000_0000) as nat, 4) + "-"@ + hex_padded(
        (id / 0x1_0000_0000_0000) as nat,
        4,
    ) + "-"@ + hex_padded(id as nat, 12)
}

fn hex_padded_text(n: u128, width: u32) -> (r: String)
    ensures
        r@ == hex_padded(n as nat, width as nat),
    decreases width,
{
    if width == 0 {
        let none = String::from_str("");
        proof {
            reveal_strlit("");
        }
        assert(none@ =~= Seq::<char>::empty());
        none
    } else {
        let mut head = hex_padded_text(n / 16, width - 1);
        head.append(hex_text((n % 16) as u8));
        assert(head@ =~= hex_padded((n / 16) as nat, (width - 1) as nat).push(
            hex_digit((n % 16) as int),
        ));
        head
    }
}

/// An identifier in text.
pub(crate) fn uuid_string(id: u128) -> (r: String)
    ensures
        r@ == uuid_text(id),
{
    let mut text = hex_padded_text(id / 0x1_0000_0000_0000_0000_0000_0000, 8);
    text.append("-");
    text.append(hex_padded_text(id / 0x1_0000_0000_0000_0000_0000, 4).as_str());
    text.append("-");
    text.append(hex_padded_text(id / 0x1_0000_0000_0000_0000, 4).as_str());
    text.append("-");
    text.append(hex_padded_text(id / 0x1_0000_0000_0000, 4).as_str());
    text.append("-");
    text.append(hex_padded_text(id, 12).as_str());
    text
}

} // verus!
