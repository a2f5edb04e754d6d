//! The per-device allow/deny policy.
//!
//! A device is identified by its `(vendor_id, product_id)` pair. The policy
//! is fixed when the bridge is constructed: an allow-list admits only the
//! listed identities, a deny-list admits everything except the listed
//! identities. The empty deny-list admits all devices.

use vstd::prelude::*;

verus! {

use vstd::string::StringSliceAdditionalSpecFns;

/// A `(vendor_id, product_id)` device identity.
#[derive(Clone, Copy, Debug, PartialEq, Eq, Structural)]
pub struct USBDeviceIdentifier {
    pub vendor_id: u16,
    pub product_id: u16,
}

/// True for the ASCII code of a hexadecimal digit.
pub open spec fn is_hex_digit(b: u8) -> bool {
    (48 <= b && b <= 57) || (97 <= b && b <= 102) || (65 <= b && b <= 70)
}

/// The numeric value of one hexadecimal digit.
pub open spec fn hex_digit_value(b: u8) -> nat {
    if 48 <= b && b <= 57 {
        (b - 48) as nat
    } else if 97 <= b && b <= 102 {
        (b - 87) as nat
    } else {
        (b - 55) as nat
    }
}

/// The value of a big-endian string of hexadecimal digits.
pub open spec fn hex_value(s: Seq<u8>) -> nat
    decreases s.len(),
{
    if s.len() == 0 {
        0
    } else {
        16 * hex_value(s.drop_last()) + hex_digit_value(s.last())
    }
}

/// A non-empty run of hexadecimal digits.
pub open spec fn is_hex_run(s: Seq<u8>) -> bool {
    s.len() > 0 && forall|i: int| 0 <= i < s.len() ==> is_hex_digit(#[trigger] s[i])
}

/// The shape `VVVV:PPPP`: a single colon at position `i`, hexadecimal digits
/// on both sides, and both values within `u16`.
pub open spec fn is_identifier_str(s: Seq<u8>, i: int) -> bool {
    &&& 0 <= i < s.len()
    &&& s[i] == 58
    &&& forall|j: int| 0 <= j < s.len() && j != i ==> s[j] != 58
    &&& is_hex_run(s.subrange(0, i))
    &&& is_hex_run(s.subrange(i + 1, s.len() as int))
    &&& hex_value(s.subrange(0, i)) <= 0xFFFF
    &&& hex_value(s.subrange(i + 1, s.len() as int)) <= 0xFFFF
}

impl USBDeviceIdentifier {
    /// Parse a device identity written as `vendor:product` in hexadecimal,
    /// for example `0951:1666`. Exactly one colon, a non-empty run of
    /// hexadecimal digits on each side, each value at most `0xFFFF`.
    pub fn from_str(s: &str) -> (r: Result<USBDeviceIdentifier, &'static str>)
        ensures
            (r matches Ok(id)) <==> exists|i: int| is_identifier_str(s.spec_bytes(), i),
            forall|i: int|
                is_identifier_str(s.spec_bytes(), i) ==> (r matches Ok(id) && {
                    &&& id.vendor_id == hex_value(s.spec_bytes().subrange(0, i))
                    &&& id.product_id == hex_value(
                        s.spec_bytes().subrange(i + 1, s.spec_bytes().len() as int),
                    )
                }),
    {
        let bytes = s.as_bytes();
        let n = bytes.len();
        let ghost bs = s.spec_bytes();

        // Find the unique colon.
        let mut colon: Option<usize> = None;
        let mut k: usize = 0;
        while k < n
            invariant
                bs == s.spec_bytes(),
                n == bs.len(),
                bytes@ == bs,
                k <= n,
                match colon {
                    Some(c) => {
                        &&& c < k
                        &&& bs[c as int] == 58
                        &&& forall|j: int| 0 <= j < k && j != c ==> bs[j] != 58
                    },
                    None => forall|j: int| 0 <= j < k ==> bs[j] != 58,
                },
            decreases n - k,
        {
            if bytes[k] == 58 {
                if let Some(c) = colon {
                    proof {
                        assert forall|i: int| !is_identifier_str(bs, i) by {
                            if is_identifier_str(bs, i) {
                                assert(i == c as int || bs[c as int] != 58);
                                assert(i == k as int || bs[k as int] != 58);
                            }
                        }
                    }
                    return Err("Invalid format. Expected vendor_id:product_id");
                }
                colon = Some(k);
            }
            k += 1;
        }
        let c = match colon {
            Some(c) => c,
            None => {
                proof {
                    assert forall|i: int| !is_identifier_str(bs, i) by {}
                }
                return Err("Invalid format. Expected vendor_id:product_id");
            },
        };

        let vendor = match parse_hex_u16(bytes, 0, c) {
            Some(v) => v,
            None => {
                proof {
                    assert forall|i: int| !is_identifier_str(bs, i) by {
                        if is_identifier_str(bs, i) {
                            assert(i == c);
                        }
                    }
                }
                return Err("Invalid vendor_id");
            },
        };
        let product = match parse_hex_u16(bytes, c + 1, n) {
            Some(v) => v,
            None => {
                proof {
                    assert forall|i: int| !is_identifier_str(bs, i) by {
                        if is_identifier_str(bs, i) {
                            assert(i == c);
                        }
                    }
                }
                return Err("Invalid product_id");
            },
        };
        proof {
            assert(is_identifier_str(bs, c as int));
            assert forall|i: int| is_identifier_str(bs, i) implies i == c by {}
        }
        Ok(USBDeviceIdentifier { vendor_id: vendor, product_id: product })
    }
}

/// The hexadecimal value of `bytes[from..to]`, or `None` when that range is
/// empty, holds a non-digit, or exceeds `0xFFFF`.
fn parse_hex_u16(bytes: &[u8], from: usize, to: usize) -> (r: Option<u16>)
    requires
        from <= to <= bytes@.len(),
    ensures
        (r matches Some(v)) <==> {
            &&& is_hex_run(bytes@.subrange(from as int, to as int))
            &&& hex_value(bytes@.subrange(from as int, to as int)) <= 0xFFFF
        },
        r matches Some(v) ==> v == hex_value(bytes@.subrange(from as int, to as int)),
{
    if from == to {
        return None;
    }
    let mut acc: u32 = 0;
    let mut k: usize = from;
    while k < to
        invariant
            from <= k <= to <= bytes@.len(),
            forall|j: int| from <= j < k ==> is_hex_digit(#[trigger] bytes@[j]),
            acc <= 0x10000,
            hex_value(bytes@.subrange(from as int, k as int)) <= 0xFFFF ==> acc == hex_value(
                bytes@.subrange(from as int, k as int),
            ),
            hex_value(bytes@.subrange(from as int, k as int)) > 0xFFFF ==> acc == 0x10000,
        decreases to - k,
    {
        let b = bytes[k];
        let digit: u32 = if 48 <= b && b <= 57 {
            (b - 48) as u32
        } else if 97 <= b && b <= 102 {
            (b - 87) as u32
        } else if 65 <= b && b <= 70 {
            (b - 55) as u32
        } else {
            proof {
                let sub = bytes@.subrange(from as int, to as int);
                assert(sub[k - from] == b);
                assert(!is_hex_run(sub));
            }
            return None;
        };
        proof {
            lemma_hex_value_extend(bytes@, from as int, k as int);
            assert(hex_digit_value(b) == digit);
        }
        acc = acc * 16 + digit;
        if acc > 0xFFFF {
            acc = 0x10000;
        }
        k += 1;
    }
    proof {
        let sub = bytes@.subrange(from as int, to as int);
        assert forall|j: int| 0 <= j < sub.len() implies is_hex_digit(#[trigger] sub[j]) by {
            assert(sub[j] == bytes@[from + j]);
        }
        assert(is_hex_run(sub));
    }
    if acc > 0xFFFF {
        None
    } else {
        Some(acc as u16)
    }
}

/// Appending one digit multiplies the value by sixteen and adds the digit.
proof fn lemma_hex_value_extend(s: Seq<u8>, from: int, k: int)
    requires
        0 <= from <= k < s.len(),
    ensures
        hex_value(s.subrange(from, k + 1)) == 16 * hex_value(s.subrange(from, k))
            + hex_digit_value(s[k]),
{
    let ext = s.subrange(from, k + 1);
    assert(ext.drop_last() =~= s.subrange(from, k));
    assert(ext.last() == s[k]);
}

/// The two shapes of the policy: an allow-list admits only the listed
/// identities, a deny-list admits everything except them.
#[derive(Debug, Clone)]
pub enum AllowedUSBDevices {
    Allowed(Vec<USBDeviceIdentifier>),
    Denied(Vec<USBDeviceIdentifier>),
}

impl AllowedUSBDevices {
    /// What `is_allowed` returns: membership in the allow-list, or absence
    /// from the deny-list.
    pub open spec fn allows(&self, device: USBDeviceIdentifier) -> bool {
        match self {
            AllowedUSBDevices::Allowed(devices) => devices@.contains(device),
            AllowedUSBDevices::Denied(devices) => !devices@.contains(device),
        }
    }

    /// Decide whether the policy admits the given device identity.
    pub fn is_allowed(&self, device: &USBDeviceIdentifier) -> (r: bool)
        ensures
            r == self.allows(*device),
    {
        match self {
            AllowedUSBDevices::Allowed(devices) => contains_identifier(devices, device),
            AllowedUSBDevices::Denied(devices) => !contains_identifier(devices, device),
        }
    }
}

/// Linear membership scan over the listed identities.
fn contains_identifier(devices: &Vec<USBDeviceIdentifier>, device: &USBDeviceIdentifier) -> (r:
    bool)
    ensures
        r == devices@.contains(*device),
{
    let mut k: usize = 0;
    while k < devices.len()
        invariant
            k <= devices@.len(),
            forall|j: int| 0 <= j < k ==> devices@[j] != *device,
        decreases devices@.len() - k,
    {
        if devices[k] == *device {
            return true;
        }
        k += 1;
    }
    false
}

} // verus!
