use vstd::prelude::*;
use vstd::string::StringSliceAdditionalSpecFns;

verus! {

/// A 20-byte account or contract address.
#[derive(Clone, Copy, Debug, PartialEq, Eq)]
pub struct Address {
    pub bytes: [u8; 20],
}

pub open spec fn is_hex_digit(b: u8) -> bool {
    (0x30 <= b <= 0x39) || (0x61 <= b <= 0x66) || (0x41 <= b <= 0x46)
}

pub open spec fn hex_value(b: u8) -> nat {
    if 0x30 <= b <= 0x39 {
        (b - 0x30) as nat
    } else if 0x61 <= b <= 0x66 {
        (b - 0x61 + 10) as nat
    } else {
        (b - 0x41 + 10) as nat
    }
}

/// Address text: `0x` (or `0X`) followed by exactly forty hex digits.
pub open spec fn is_address_text(t: Seq<u8>) -> bool {
    &&& t.len() == 42
    &&& t[0] == 0x30
    &&& (t[1] == 0x78 || t[1] == 0x58)
    &&& forall|i: int| 2 <= i < 42 ==> is_hex_digit(#[trigger] t[i])
}

/// Byte `i` of the address that an address text denotes.
pub open spec fn address_byte(t: Seq<u8>, i: int) -> nat {
    16 * hex_value(t[2 + 2 * i]) + hex_value(t[3 + 2 * i])
}

impl Address {
    /// The address whose bytes an address text spells out.
    pub open spec fn denoted_by(&self, t: Seq<u8>) -> bool {
        forall|i: int| 0 <= i < 20 ==> self.bytes[i] as nat == #[trigger] address_byte(t, i)
    }
}

/// Value of one hex digit.
pub fn hex_digit(b: u8) -> (r: Option<u8>)
    ensures
        r is Some <==> is_hex_digit(b),
        r matches Some(v) ==> v as nat == hex_value(b) && v < 16,
{
    if 0x30 <= b && b <= 0x39 {
        Some(b - 0x30)
    } else if 0x61 <= b && b <= 0x66 {
        Some(b - 0x61 + 10)
    } else if 0x41 <= b && b <= 0x46 {
        Some(b - 0x41 + 10)
    } else {
        None
    }
}

/// Parses a `0x`-prefixed, forty-digit hex address.
pub fn parse_address(s: &str) -> (r: Option<Address>)
    ensures
        r is Some <==> is_address_text(s.spec_bytes()),
        r matches Some(a) ==> a.denoted_by(s.spec_bytes()),
{
    let t = s.as_bytes();
    if t.len() != 42 || t[0] != 0x30 || (t[1] != 0x78 && t[1] != 0x58) {
        return None;
    }
    let mut out: [u8; 20] = [0u8; 20];
    let mut i: usize = 0;
    while i < 20
        invariant
            t@ == s.spec_bytes(),
            t@.len() == 42,
            0 <= i <= 20,
            forall|k: int| 2 <= k < 2 + 2 * i ==> is_hex_digit(#[trigger] t@[k]),
            forall|k: int| 0 <= k < i ==> out[k] as nat == #[trigger] address_byte(t@, k),
        decreases 20 - i,
    {
        let hi = hex_digit(t[2 + 2 * i]);
        let lo = hex_digit(t[3 + 2 * i]);
        match (hi, lo) {
            (Some(h), Some(l)) => {
                out[i] = h * 16 + l;
            },
            _ => {
                proof {
                    if hi is None {
                        assert(!is_hex_digit(t@[2 + 2 * i]));
                    } else {
                        assert(!is_hex_digit(t@[3 + 2 * i]));
                    }
                }
                return None;
            },
        }
        i = i + 1;
    }
    proof {
        assert forall|k: int| 2 <= k < 42 implies is_hex_digit(#[trigger] t@[k]) by {}
    }
    Some(Address { bytes: out })
}

} // verus!
