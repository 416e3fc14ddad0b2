//! Structural validation of Intel-hex files.
//!
//! The programming driver does not reject a malformed hex file: it silently
//! programs its bytes at address zero. A download therefore validates the
//! file before any driver call. A file is valid when every line up to and
//! including the first end-of-file record is either blank or a well-formed
//! record: a colon, then hex digit pairs spelling a byte count that matches
//! the line's length, a 16-bit address, a record type no higher than five
//! with the payload length the type prescribes, the payload, and a checksum
//! that makes the bytes sum to zero modulo 256. Lines may end in a carriage
//! return before the newline; lines after the first end-of-file record are
//! ignored.

use vstd::arithmetic::div_mod::lemma_add_mod_noop;
use vstd::prelude::*;

verus! {

/// The numerical value of a hexadecimal digit byte, or a negative value for
/// any other byte.
pub open spec fn spec_hex_digit_byte(b: u8) -> int {
    if 48 <= b && b <= 57 {
        b - 48
    } else if 97 <= b && b <= 102 {
        b - 87
    } else if 65 <= b && b <= 70 {
        b - 55
    } else {
        -1
    }
}

/// Whether everything after the leading colon is a hexadecimal digit.
pub open spec fn record_digits_ok(l: Seq<u8>) -> bool {
    forall|i: int| 1 <= i < l.len() ==> spec_hex_digit_byte(l[i]) >= 0
}

/// How many encoded bytes the record line carries.
pub open spec fn record_byte_count(l: Seq<u8>) -> int {
    (l.len() as int - 1) / 2
}

/// The byte that digit pair `i` of the record line encodes.
pub open spec fn record_byte_at(l: Seq<u8>, i: int) -> u8 {
    let hi = spec_hex_digit_byte(l[2 * i + 1]);
    let lo = spec_hex_digit_byte(l[2 * i + 2]);
    if hi >= 0 && lo >= 0 {
        (hi * 16 + lo) as u8
    } else {
        0
    }
}

/// The bytes the record line encodes.
pub open spec fn record_bytes(l: Seq<u8>) -> Seq<u8> {
    Seq::new(record_byte_count(l) as nat, |i: int| record_byte_at(l, i))
}

/// The sum of a byte sequence.
pub open spec fn byte_sum(s: Seq<u8>) -> int
    decreases s.len(),
{
    if s.len() == 0 {
        0
    } else {
        byte_sum(s.drop_last()) + s.last()
    }
}

/// The payload length each record type prescribes: an end-of-file record is
/// empty, segment and linear address records carry two bytes, start-address
/// records carry four; data records carry any count.
pub open spec fn type_payload_ok(t: u8, c: u8) -> bool {
    &&& t == 1 ==> c == 0
    &&& (t == 2 || t == 4) ==> c == 2
    &&& (t == 3 || t == 5) ==> c == 4
}

/// A well-formed record line.
pub open spec fn is_record(l: Seq<u8>) -> bool {
    &&& l.len() >= 11
    &&& l[0] == 58
    &&& (l.len() as int - 1) % 2 == 0
    &&& record_digits_ok(l)
    &&& record_bytes(l)[0] as int == record_byte_count(l) - 5
    &&& record_bytes(l)[3] <= 5
    &&& type_payload_ok(record_bytes(l)[3], record_bytes(l)[0])
    &&& byte_sum(record_bytes(l)) % 256 == 0
}

/// A line with one trailing carriage return removed.
pub open spec fn strip_cr(l: Seq<u8>) -> Seq<u8> {
    if l.len() > 0 && l.last() == 13 {
        l.drop_last()
    } else {
        l
    }
}

/// The file split at its newline bytes; splitting the empty file gives one
/// empty line.
pub open spec fn split_newlines(bs: Seq<u8>) -> Seq<Seq<u8>>
    decreases bs.len(),
{
    if bs.len() == 0 {
        seq![Seq::<u8>::empty()]
    } else if bs.last() == 10 {
        split_newlines(bs.drop_last()).push(Seq::<u8>::empty())
    } else {
        let rest = split_newlines(bs.drop_last());
        rest.update(rest.len() - 1, rest.last().push(bs.last()))
    }
}

proof fn lemma_split_newlines_len(bs: Seq<u8>)
    ensures
        split_newlines(bs).len() >= 1,
    decreases bs.len(),
{
    if bs.len() > 0 {
        lemma_split_newlines_len(bs.drop_last());
    }
}

/// Whether the lines make a structurally valid file: blank lines are skipped,
/// a malformed line is a failure, and the first end-of-file record ends the
/// check.
pub open spec fn lines_valid(lines: Seq<Seq<u8>>) -> bool
    decreases lines.len(),
{
    if lines.len() == 0 {
        true
    } else {
        let l = strip_cr(lines.first());
        if l.len() == 0 {
            lines_valid(lines.drop_first())
        } else if !is_record(l) {
            false
        } else if record_bytes(l)[3] == 1 {
            true
        } else {
            lines_valid(lines.drop_first())
        }
    }
}

/// A structurally valid Intel-hex file.
pub open spec fn spec_hex_file_valid(bs: Seq<u8>) -> bool {
    lines_valid(split_newlines(bs))
}

/// The numerical value of a hexadecimal digit byte, executable form.
fn hex_digit_value_byte(b: u8) -> (r: i32)
    ensures
        r as int == spec_hex_digit_byte(b),
{
    if 48 <= b && b <= 57 {
        (b - 48) as i32
    } else if 97 <= b && b <= 102 {
        (b - 87) as i32
    } else if 65 <= b && b <= 70 {
        (b - 55) as i32
    } else {
        -1
    }
}

/// Decode a record line: its encoded bytes when it is well-formed, nothing
/// otherwise.
fn parse_record(line: &Vec<u8>) -> (r: Option<Vec<u8>>)
    ensures
        r is Some <==> is_record(line@),
        r matches Some(b) ==> b@ == record_bytes(line@),
{
    let n = line.len();
    if n < 11 {
        return None;
    }
    if line[0] != 58 {
        return None;
    }
    if (n - 1) % 2 != 0 {
        return None;
    }
    let count = (n - 1) / 2;
    let mut bytes: Vec<u8> = Vec::new();
    let mut i: usize = 0;
    while i < count
        invariant
            0 <= i <= count,
            n == line@.len(),
            11 <= n,
            count == record_byte_count(line@),
            2 * count + 1 == n,
            forall|j: int| 1 <= j < 2 * i + 1 ==> spec_hex_digit_byte(line@[j]) >= 0,
            bytes@ =~= record_bytes(line@).take(i as int),
        decreases count - i,
    {
        let hi = hex_digit_value_byte(line[2 * i + 1]);
        let lo = hex_digit_value_byte(line[2 * i + 2]);
        if hi < 0 || lo < 0 {
            return None;
        }
        bytes.push((hi * 16 + lo) as u8);
        proof {
            assert(record_bytes(line@).take(i + 1) =~= record_bytes(line@).take(i as int).push(
                record_byte_at(line@, i as int),
            ));
        }
        i = i + 1;
    }
    proof {
        assert(record_digits_ok(line@));
        assert(bytes@ =~= record_bytes(line@));
    }
    if (bytes[0] as usize) != count - 5 {
        return None;
    }
    if bytes[3] > 5 {
        return None;
    }
    let t = bytes[3];
    let c = bytes[0];
    if t == 1 && c != 0 {
        return None;
    }
    if (t == 2 || t == 4) && c != 2 {
        return None;
    }
    if (t == 3 || t == 5) && c != 4 {
        return None;
    }
    let mut sum: u32 = 0;
    let mut j: usize = 0;
    let m = bytes.len();
    while j < m
        invariant
            0 <= j <= m,
            m == bytes@.len(),
            sum < 256,
            sum as int == byte_sum(bytes@.take(j as int)) % 256,
        decreases m - j,
    {
        proof {
            assert(bytes@.take(j + 1).drop_last() =~= bytes@.take(j as int));
            assert(bytes@.take(j + 1).last() == bytes@[j as int]);
            lemma_add_mod_noop(byte_sum(bytes@.take(j as int)), bytes@[j as int] as int, 256);
            assert((bytes@[j as int] as int) % 256 == bytes@[j as int] as int);
        }
        sum = (sum + bytes[j] as u32) % 256;
        j = j + 1;
    }
    proof {
        assert(bytes@.take(m as int) =~= bytes@);
    }
    if sum != 0 {
        return None;
    }
    Some(bytes)
}

/// Validate the structure of an Intel-hex file: true exactly on the files
/// the format as defined above accepts.
pub fn validate_intel_hex(content: &Vec<u8>) -> (r: bool)
    ensures
        r == spec_hex_file_valid(content@),
{
    // Split into lines.
    let mut lines: Vec<Vec<u8>> = Vec::new();
    let mut cur: Vec<u8> = Vec::new();
    let n = content.len();
    let mut i: usize = 0;
    proof {
        assert(content@.take(0) =~= Seq::<u8>::empty());
        lemma_split_newlines_len(content@.take(0));
    }
    while i < n
        invariant
            0 <= i <= n,
            n == content@.len(),
            split_newlines(content@.take(i as int)).len() >= 1,
            lines@.len() + 1 == split_newlines(content@.take(i as int)).len(),
            forall|j: int|
                0 <= j < lines@.len() ==> (#[trigger] lines@[j])@ == split_newlines(
                    content@.take(i as int),
                )[j],
            cur@ == split_newlines(content@.take(i as int)).last(),
        decreases n - i,
    {
        let ghost sp = split_newlines(content@.take(i as int));
        proof {
            assert(content@.take(i + 1).drop_last() =~= content@.take(i as int));
            assert(content@.take(i + 1).last() == content@[i as int]);
            lemma_split_newlines_len(content@.take(i + 1));
        }
        let b = content[i];
        if b == 10 {
            lines.push(cur);
            cur = Vec::new();
            proof {
                let sp2 = split_newlines(content@.take(i + 1));
                assert(sp2 == sp.push(Seq::<u8>::empty()));
                assert(forall|j: int| 0 <= j < sp.len() ==> sp2[j] == sp[j]);
            }
        } else {
            cur.push(b);
            proof {
                let sp2 = split_newlines(content@.take(i + 1));
                assert(sp2 == sp.update(sp.len() - 1, sp.last().push(content@[i as int])));
                assert(forall|j: int| 0 <= j < lines@.len() ==> sp2[j] == sp[j]);
            }
        }
        i = i + 1;
    }
    proof {
        assert(content@.take(n as int) =~= content@);
    }
    lines.push(cur);
    let ghost all_lines = split_newlines(content@);
    proof {
        assert(lines@.len() == all_lines.len());
        assert(lines@[lines@.len() - 1]@ == all_lines.last());
        assert(forall|j: int| 0 <= j < lines@.len() ==> (#[trigger] lines@[j])@ == all_lines[j]);
    }
    // Check the lines in order.
    let total = lines.len();
    let mut k: usize = 0;
    proof {
        assert(all_lines.skip(0) =~= all_lines);
    }
    while k < total
        invariant
            0 <= k <= total,
            all_lines == split_newlines(content@),
            total == lines@.len(),
            total == all_lines.len(),
            forall|j: int| 0 <= j < lines@.len() ==> (#[trigger] lines@[j])@ == all_lines[j],
            lines_valid(all_lines) == lines_valid(all_lines.skip(k as int)),
        decreases total - k,
    {
        let ghost rest = all_lines.skip(k as int);
        proof {
            assert(rest.first() == all_lines[k as int]);
            assert(rest.drop_first() =~= all_lines.skip(k + 1));
        }
        let line = &lines[k];
        // Drop one trailing carriage return.
        let line_len = line.len();
        let stripped_len: usize = if line_len > 0 && line[line_len - 1] == 13 {
            line_len - 1
        } else {
            line_len
        };
        let stripped = vstd::slice::slice_to_vec(
            vstd::slice::slice_subrange(line.as_slice(), 0, stripped_len),
        );
        proof {
            assert(stripped@ =~= strip_cr(rest.first()));
        }
        if stripped.len() == 0 {
            proof {
                assert(lines_valid(rest) == lines_valid(all_lines.skip(k + 1)));
            }
            k = k + 1;
            continue ;
        }
        match parse_record(&stripped) {
            None => {
                proof {
                    assert(!is_record(strip_cr(rest.first())));
                    assert(!lines_valid(rest));
                }
                return false;
            },
            Some(bytes) => {
                proof {
                    assert(is_record(strip_cr(rest.first())));
                }
                if bytes[3] == 1 {
                    proof {
                        assert(record_bytes(strip_cr(rest.first()))[3] == 1);
                        assert(lines_valid(rest));
                    }
                    return true;
                }
                proof {
                    assert(record_bytes(strip_cr(rest.first()))[3] != 1);
                    assert(lines_valid(rest) == lines_valid(all_lines.skip(k + 1)));
                }
            },
        }
        k = k + 1;
    }
    proof {
        assert(all_lines.skip(total as int) =~= Seq::<Seq<u8>>::empty());
    }
    true
}

} // verus!
