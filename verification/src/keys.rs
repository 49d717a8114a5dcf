//! Canonical validator key identifiers.
//!
//! A validator is identified by its BLS public key, supplied as a hex string
//! of 48 bytes (96 hex digits), optionally prefixed with `0x`. Keys are
//! compared case-insensitively, so `normalize` brings every accepted spelling
//! to one canonical form: the bare lowercase hex digits.

use vstd::prelude::*;

verus! {

/// ASCII code of `0`.
pub const DIGIT_ZERO: u8 = 48;

/// ASCII code of `9`.
pub const DIGIT_NINE: u8 = 57;

/// ASCII code of `A`.
pub const UPPER_A: u8 = 65;

/// ASCII code of `F`.
pub const UPPER_F: u8 = 70;

/// ASCII code of `a`.
pub const LOWER_A: u8 = 97;

/// ASCII code of `f`.
pub const LOWER_F: u8 = 102;

/// Number of hex digits in a BLS public key (48 bytes).
pub const KEY_HEX_LEN: usize = 96;

/// `b` is an ASCII hex digit, in either case.
pub open spec fn is_hex_digit(b: u8) -> bool {
    ||| DIGIT_ZERO <= b <= DIGIT_NINE
    ||| UPPER_A <= b <= UPPER_F
    ||| LOWER_A <= b <= LOWER_F
}

/// `b` is an ASCII hex digit in canonical (lower) case.
pub open spec fn is_lower_hex_digit(b: u8) -> bool {
    ||| DIGIT_ZERO <= b <= DIGIT_NINE
    ||| LOWER_A <= b <= LOWER_F
}

/// The canonical case of one hex digit: `A`..`F` lowered, all else kept.
pub open spec fn hex_lower(b: u8) -> u8 {
    if UPPER_A <= b <= UPPER_F {
        (b + 32) as u8
    } else {
        b
    }
}

/// `raw` without its optional `0x` / `0X` prefix.
pub open spec fn strip_hex_prefix(raw: Seq<u8>) -> Seq<u8> {
    if raw.len() >= 2 && raw[0] == DIGIT_ZERO && (raw[1] == 120 || raw[1] == 88) {
        raw.skip(2)
    } else {
        raw
    }
}

/// `raw` is an acceptable spelling of a validator key: after the optional
/// prefix, exactly 96 hex digits.
pub open spec fn is_valid_key_hex(raw: Seq<u8>) -> bool {
    &&& strip_hex_prefix(raw).len() == KEY_HEX_LEN
    &&& forall|i: int|
        0 <= i < strip_hex_prefix(raw).len() ==> is_hex_digit(#[trigger] strip_hex_prefix(raw)[i])
}

/// The canonical form of an acceptable spelling: prefix stripped, lowercased.
pub open spec fn canonical_key_hex(raw: Seq<u8>) -> Seq<u8> {
    strip_hex_prefix(raw).map_values(|b: u8| hex_lower(b))
}

/// Why a supplied key identifier was rejected.
#[derive(Clone, Copy, Debug, PartialEq, Eq, Structural)]
pub enum KeyError {
    /// Not 96 hex digits (after the optional `0x` prefix).
    InvalidFormat,
}

/// A sanitized validator key: exactly one protection history exists per
/// `ValidatorKey` value, so every spelling of the same public key must
/// normalize to the same `ValidatorKey`.
pub struct ValidatorKey {
    hex: Vec<u8>,
}

impl View for ValidatorKey {
    type V = Seq<u8>;

    closed spec fn view(&self) -> Seq<u8> {
        self.hex@
    }
}

impl ValidatorKey {
    /// The key holds exactly 96 canonical-case hex digits.
    pub open spec fn wf(&self) -> bool {
        &&& self@.len() == KEY_HEX_LEN
        &&& forall|i: int| 0 <= i < self@.len() ==> is_lower_hex_digit(#[trigger] self@[i])
    }

    /// The canonical hex spelling, for display and for the durable layer.
    pub fn as_hex_bytes(&self) -> (r: &Vec<u8>)
        ensures
            r@ == self@,
    {
        &self.hex
    }
}

impl Clone for ValidatorKey {
    fn clone(&self) -> (r: Self)
        ensures
            r@ == self@,
    {
        let mut hex: Vec<u8> = Vec::new();
        let mut i: usize = 0;
        while i < self.hex.len()
            invariant
                i <= self.hex.len(),
                hex@ == self.hex@.take(i as int),
            decreases self.hex.len() - i,
        {
            hex.push(self.hex[i]);
            proof {
                assert(hex@ =~= self.hex@.take(i + 1));
            }
            i = i + 1;
        }
        proof {
            assert(hex@ =~= self.hex@);
        }
        ValidatorKey { hex }
    }
}

impl PartialEq for ValidatorKey {
    fn eq(&self, other: &Self) -> (r: bool)
        ensures
            r == (self@ == other@),
    {
        if self.hex.len() != other.hex.len() {
            return false;
        }
        let mut i: usize = 0;
        while i < self.hex.len()
            invariant
                i <= self.hex.len(),
                self.hex.len() == other.hex.len(),
                forall|j: int| 0 <= j < i ==> self.hex@[j] == other.hex@[j],
            decreases self.hex.len() - i,
        {
            if self.hex[i] != other.hex[i] {
                return false;
            }
            i = i + 1;
        }
        proof {
            assert(self.hex@ =~= other.hex@);
        }
        true
    }
}

impl Eq for ValidatorKey {

}

impl vstd::std_specs::cmp::PartialEqSpecImpl for ValidatorKey {
    open spec fn obeys_eq_spec() -> bool {
        true
    }

    open spec fn eq_spec(&self, other: &Self) -> bool {
        self@ == other@
    }
}

/// Sanitizes a raw key identifier: strips an optional `0x`/`0X` prefix,
/// demands exactly 96 hex digits, and lowers them to canonical case.
pub fn normalize(raw: &[u8]) -> (r: Result<ValidatorKey, KeyError>)
    ensures
        r is Ok <==> is_valid_key_hex(raw@),
        r matches Ok(k) ==> k@ == canonical_key_hex(raw@) && k.wf(),
{
    let start: usize = if raw.len() >= 2 && raw[0] == DIGIT_ZERO && (raw[1] == 120 || raw[1] == 88)
    {
        2
    } else {
        0
    };
    proof {
        assert(strip_hex_prefix(raw@) =~= raw@.skip(start as int));
    }
    if raw.len() - start != KEY_HEX_LEN {
        return Err(KeyError::InvalidFormat);
    }
    let mut hex: Vec<u8> = Vec::new();
    let mut i: usize = start;
    while i < raw.len()
        invariant
            start <= i <= raw.len(),
            raw@.len() - start == KEY_HEX_LEN,
            strip_hex_prefix(raw@) == raw@.skip(start as int),
            hex@.len() == i - start,
            forall|j: int| start <= j < i ==> is_hex_digit(#[trigger] raw@[j]),
            forall|j: int| 0 <= j < hex@.len() ==> hex@[j] == hex_lower(raw@[start + j]),
        decreases raw.len() - i,
    {
        let b = raw[i];
        let lowered: u8 = if DIGIT_ZERO <= b && b <= DIGIT_NINE {
            b
        } else if LOWER_A <= b && b <= LOWER_F {
            b
        } else if UPPER_A <= b && b <= UPPER_F {
            b + 32
        } else {
            proof {
                assert(strip_hex_prefix(raw@)[i - start] == raw@[i as int]);
            }
            return Err(KeyError::InvalidFormat);
        };
        hex.push(lowered);
        i = i + 1;
    }
    proof {
        assert(hex@ =~= canonical_key_hex(raw@));
    }
    Ok(ValidatorKey { hex })
}

} // verus!
