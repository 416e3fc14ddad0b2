//! Small string utilities: exact string comparison, prefix tests, parsing of
//! hexadecimal addresses, and stripping of the extended-length path prefix
//! that Windows hosts sometimes prepend.

use vstd::prelude::*;
use vstd::string::*;

verus! {

/// Exact equality of two string slices, character by character.
pub fn str_eq(a: &str, b: &str) -> (r: bool)
    ensures
        r == (a@ == b@),
{
    let a_len = a.unicode_len();
    let b_len = b.unicode_len();
    if a_len != b_len {
        return false;
    }
    let mut i: usize = 0;
    while i < a_len
        invariant
            0 <= i <= a_len,
            a_len == a@.len(),
            b_len == b@.len(),
            a_len == b_len,
            forall|j: int| 0 <= j < i ==> a@[j] == b@[j],
        decreases a_len - i,
    {
        if a.get_char(i) != b.get_char(i) {
            return false;
        }
        i = i + 1;
    }
    proof {
        assert(a@ =~= b@);
    }
    true
}

/// Whether `s` starts with `prefix`, character by character.
pub fn str_has_prefix(s: &str, prefix: &str) -> (r: bool)
    ensures
        r == (s@.len() >= prefix@.len() && s@.subrange(0, prefix@.len() as int) == prefix@),
{
    let s_len = s.unicode_len();
    let p_len = prefix.unicode_len();
    if s_len < p_len {
        return false;
    }
    let mut i: usize = 0;
    while i < p_len
        invariant
            0 <= i <= p_len,
            s_len == s@.len(),
            p_len == prefix@.len(),
            p_len <= s_len,
            forall|j: int| 0 <= j < i ==> s@[j] == prefix@[j],
        decreases p_len - i,
    {
        if s.get_char(i) != prefix.get_char(i) {
            proof {
                assert(s@.subrange(0, prefix@.len() as int)[i as int] != prefix@[i as int]);
            }
            return false;
        }
        i = i + 1;
    }
    proof {
        assert(s@.subrange(0, prefix@.len() as int) =~= prefix@);
    }
    true
}

/// The numerical value of a hexadecimal digit character, or a negative value
/// for any other character.
pub open spec fn spec_hex_digit(c: char) -> int {
    if 48 <= c as int && c as int <= 57 {
        c as int - 48
    } else if 97 <= c as int && c as int <= 102 {
        c as int - 87
    } else if 65 <= c as int && c as int <= 70 {
        c as int - 55
    } else {
        -1
    }
}

/// The value of a sequence of hexadecimal digit characters, most significant
/// digit first.
pub open spec fn spec_hex_value(s: Seq<char>) -> int
    decreases s.len(),
{
    if s.len() == 0 {
        0
    } else {
        spec_hex_value(s.drop_last()) * 16 + spec_hex_digit(s.last())
    }
}

/// Whether every character of `s` is a hexadecimal digit.
pub open spec fn all_hex_digits(s: Seq<char>) -> bool {
    forall|i: int| 0 <= i < s.len() ==> spec_hex_digit(s[i]) >= 0
}

/// The digit characters of a hexadecimal address string: everything after an
/// optional `0x` or `0X` prefix.
pub open spec fn spec_hex_payload(s: Seq<char>) -> Seq<char> {
    if s.len() >= 2 && s[0] == '0' && (s[1] == 'x' || s[1] == 'X') {
        s.subrange(2, s.len() as int)
    } else {
        s
    }
}

/// Whether a string is a well-formed hexadecimal address that fits in 32 bits.
pub open spec fn spec_valid_hex_address(s: Seq<char>) -> bool {
    &&& spec_hex_payload(s).len() > 0
    &&& all_hex_digits(spec_hex_payload(s))
    &&& spec_hex_value(spec_hex_payload(s)) <= u32::MAX
}

/// The value of a sequence of valid digits is never negative.
proof fn lemma_hex_value_nonneg(s: Seq<char>)
    requires
        all_hex_digits(s),
    ensures
        spec_hex_value(s) >= 0,
    decreases s.len(),
{
    if s.len() > 0 {
        assert(all_hex_digits(s.drop_last()));
        lemma_hex_value_nonneg(s.drop_last());
    }
}

/// Extending a valid digit string never decreases its value.
proof fn lemma_hex_value_prefix_le(s: Seq<char>, j: int)
    requires
        all_hex_digits(s),
        0 <= j <= s.len(),
    ensures
        spec_hex_value(s.take(j)) <= spec_hex_value(s),
    decreases s.len() - j,
{
    if j < s.len() {
        lemma_hex_value_prefix_le(s, j + 1);
        assert(s.take(j + 1).drop_last() =~= s.take(j));
        assert(s.take(j + 1).last() == s[j]);
        assert(all_hex_digits(s.take(j)));
        lemma_hex_value_nonneg(s.take(j));
        assert(spec_hex_value(s.take(j + 1)) == spec_hex_value(s.take(j)) * 16 + spec_hex_digit(
            s[j],
        ));
    } else {
        assert(s.take(j) =~= s);
    }
}

/// The numerical value of a hexadecimal digit character, executable form.
fn hex_digit_value(c: char) -> (r: i32)
    ensures
        r as int == spec_hex_digit(c),
{
    let v = c as u32;
    if 48 <= v && v <= 57 {
        (v - 48) as i32
    } else if 97 <= v && v <= 102 {
        (v - 87) as i32
    } else if 65 <= v && v <= 70 {
        (v - 55) as i32
    } else {
        -1
    }
}

/// A 32-bit address parsed from a hexadecimal string.
#[derive(Debug, Clone, Copy, PartialEq, Eq, Structural)]
pub struct HexAddress(pub u32);

impl HexAddress {
    /// Parse a hexadecimal address, with or without a `0x`/`0X` prefix.
    /// Succeeds exactly on well-formed addresses that fit in 32 bits.
    pub fn from_str(s: &str) -> (r: Result<HexAddress, String>)
        ensures
            r is Ok <==> spec_valid_hex_address(s@),
            r matches Ok(a) ==> a.0 == spec_hex_value(spec_hex_payload(s@)),
    {
        let len = s.unicode_len();
        let start: usize = if len >= 2 && s.get_char(0) == '0' && (s.get_char(1) == 'x'
            || s.get_char(1) == 'X') {
            2
        } else {
            0
        };
        proof {
            assert(spec_hex_payload(s@) =~= s@.subrange(start as int, s@.len() as int));
        }
        if len == start {
            return Err(String::from_str("Failed to parse hex address"));
        }
        let ghost payload = s@.subrange(start as int, s@.len() as int);
        let mut value: u32 = 0;
        let mut i: usize = start;
        while i < len
            invariant
                start <= i <= len,
                len == s@.len(),
                start <= len,
                payload == s@.subrange(start as int, s@.len() as int),
                payload == spec_hex_payload(s@),
                all_hex_digits(payload.take(i - start)),
                value == spec_hex_value(payload.take(i - start)),
            decreases len - i,
        {
            let d = hex_digit_value(s.get_char(i));
            proof {
                assert(payload[i - start] == s@[i as int]);
            }
            if d < 0 {
                proof {
                    assert(spec_hex_digit(payload[i - start]) < 0);
                }
                return Err(String::from_str("Failed to parse hex address"));
            }
            let d = d as u32;
            proof {
                assert(payload.take(i - start + 1).drop_last() =~= payload.take(i - start));
                assert(payload.take(i - start + 1).last() == payload[i - start]);
            }
            if value > (u32::MAX - d) / 16 {
                // The digits seen so far already exceed the address range;
                // further digits can only increase the value.
                proof {
                    assert(all_hex_digits(payload.take(i - start + 1)));
                    assert(spec_hex_value(payload.take(i - start + 1)) > u32::MAX);
                    if all_hex_digits(payload) {
                        lemma_hex_value_prefix_le(payload, i - start + 1);
                        assert(payload.take(payload.len() as int) =~= payload);
                    }
                }
                return Err(String::from_str("Failed to parse hex address"));
            }
            value = value * 16 + d;
            i = i + 1;
        }
        proof {
            assert(payload.take(i - start) =~= payload);
        }
        Ok(HexAddress(value))
    }
}

/// Strip the Windows extended-length prefix `\\?\` from a path, when present;
/// any other path is returned unchanged.
pub fn remove_extended_path_prefix(path: &str) -> (r: &str)
    ensures
        path@.len() >= 4 && path@.subrange(0, 4) == "\\\\?\\"@ ==> r@ == path@.subrange(
            4,
            path@.len() as int,
        ),
        !(path@.len() >= 4 && path@.subrange(0, 4) == "\\\\?\\"@) ==> r@ == path@,
{
    proof {
        reveal_strlit("\\\\?\\");
    }
    if str_has_prefix(path, "\\\\?\\") {
        path.substring_char(4, path.unicode_len())
    } else {
        path
    }
}

} // verus!
