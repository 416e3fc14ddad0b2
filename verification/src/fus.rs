//! The firmware update service (FUS) of wireless parts: version words, the
//! per-family layout of the on-target device-information table, and its
//! decoding.
//!
//! The table lives in shared RAM. A fixed base address holds a pointer to the
//! table; the table starts with a validity keyword that must match a fixed
//! magic constant, and carries the FUS and wireless-stack version words, a
//! 64-bit unique id and a 16-bit device id at fixed offsets. The offsets and
//! the meaning of the version word's low byte vary across device-family
//! generations, so decoding is parameterized by a layout descriptor.

use vstd::prelude::*;
use vstd::string::*;

use crate::error::{Action, CubeProgrammerError, TypeConversionError, UnexpectedOutput};

verus! {

/// A FUS or wireless-stack version. The low byte of the version word is a
/// release-type discriminator on some device families and unused on others;
/// where it was not supplied, comparisons ignore it.
#[derive(Clone, Copy, Debug)]
pub struct Version {
    pub major: u8,
    pub minor: u8,
    pub sub: u8,
    pub type_: Option<u8>,
}

/// How version comparison treats the release type: when the left-hand
/// version carries a type it must be matched exactly, and when it carries
/// none the types are ignored.
pub open spec fn spec_version_matches(a: Version, b: Version) -> bool {
    match a.type_ {
        Some(t) => match b.type_ {
            Some(ot) => a.major == b.major && a.minor == b.minor && a.sub == b.sub && t == ot,
            None => false,
        },
        None => a.major == b.major && a.minor == b.minor && a.sub == b.sub,
    }
}

impl PartialEq for Version {
    fn eq(&self, other: &Self) -> (r: bool) {
        match self.type_ {
            Some(t) => match other.type_ {
                Some(ot) => self.major == other.major && self.minor == other.minor && self.sub
                    == other.sub && t == ot,
                None => false,
            },
            None => self.major == other.major && self.minor == other.minor && self.sub
                == other.sub,
        }
    }
}

impl vstd::std_specs::cmp::PartialEqSpecImpl for Version {
    open spec fn obeys_eq_spec() -> bool {
        true
    }

    open spec fn eq_spec(&self, other: &Self) -> bool {
        spec_version_matches(*self, *other)
    }
}

/// The version a 32-bit word encodes: major in bits 31 to 24, minor in bits
/// 23 to 16, sub in bits 15 to 8, release type in bits 7 to 0; the type byte
/// is kept only on families where it is meaningful.
pub open spec fn spec_version_from_word(word: u32, with_type: bool) -> Version {
    Version {
        major: (word / 0x1000000) as u8,
        minor: ((word / 0x10000) % 0x100) as u8,
        sub: ((word / 0x100) % 0x100) as u8,
        type_: if with_type {
            Some((word % 0x100) as u8)
        } else {
            None
        },
    }
}

impl Version {
    /// Decode a version word, keeping the release-type byte only when the
    /// device family defines it.
    pub fn from_word(word: u32, with_type: bool) -> (r: Version)
        ensures
            r == spec_version_from_word(word, with_type),
    {
        let major = (word >> 24) as u8;
        let minor = ((word >> 16) & 0xff) as u8;
        let sub = ((word >> 8) & 0xff) as u8;
        let type_byte = (word & 0xff) as u8;
        proof {
            assert(word >> 24 == word / 0x1000000 && word >> 24 < 0x100) by (bit_vector);
            assert((word >> 16) & 0xff == (word / 0x10000) % 0x100) by (bit_vector);
            assert((word >> 8) & 0xff == (word / 0x100) % 0x100) by (bit_vector);
            assert(word & 0xff == word % 0x100) by (bit_vector);
        }
        Version {
            major,
            minor,
            sub,
            type_: if with_type {
                Some(type_byte)
            } else {
                None
            },
        }
    }
}

/// The numerical value of a decimal digit character, or a negative value for
/// any other character.
pub open spec fn spec_dec_digit(c: char) -> int {
    if 48 <= c as int && c as int <= 57 {
        c as int - 48
    } else {
        -1
    }
}

/// Whether every character of `s` is a decimal digit.
pub open spec fn all_dec_digits(s: Seq<char>) -> bool {
    forall|i: int| 0 <= i < s.len() ==> spec_dec_digit(s[i]) >= 0
}

/// The value of a sequence of decimal digit characters, most significant
/// first.
pub open spec fn spec_dec_value(s: Seq<char>) -> int
    decreases s.len(),
{
    if s.len() == 0 {
        0
    } else {
        spec_dec_value(s.drop_last()) * 10 + spec_dec_digit(s.last())
    }
}

/// A well-formed version component: a nonempty run of decimal digits whose
/// value fits in a byte.
pub open spec fn part_valid(p: Seq<char>) -> bool {
    p.len() > 0 && all_dec_digits(p) && spec_dec_value(p) <= 255
}

/// `s` split at its dots; splitting the empty string gives one empty part.
pub open spec fn split_dots(s: Seq<char>) -> Seq<Seq<char>>
    decreases s.len(),
{
    if s.len() == 0 {
        seq![Seq::<char>::empty()]
    } else if s.last() == '.' {
        split_dots(s.drop_last()).push(Seq::<char>::empty())
    } else {
        let rest = split_dots(s.drop_last());
        rest.update(rest.len() - 1, rest.last().push(s.last()))
    }
}

proof fn lemma_split_dots_len(s: Seq<char>)
    ensures
        split_dots(s).len() >= 1,
    decreases s.len(),
{
    if s.len() > 0 {
        lemma_split_dots_len(s.drop_last());
    }
}

/// The version that a sequence of dot-separated components denotes: exactly
/// three components give a version without a release type, exactly four give
/// one with it; anything else is no version.
pub open spec fn spec_version_of_parts(parts: Seq<Seq<char>>) -> Option<Version> {
    if parts.len() == 3 && part_valid(parts[0]) && part_valid(parts[1]) && part_valid(parts[2]) {
        Some(
            Version {
                major: spec_dec_value(parts[0]) as u8,
                minor: spec_dec_value(parts[1]) as u8,
                sub: spec_dec_value(parts[2]) as u8,
                type_: None,
            },
        )
    } else if parts.len() == 4 && part_valid(parts[0]) && part_valid(parts[1]) && part_valid(
        parts[2],
    ) && part_valid(parts[3]) {
        Some(
            Version {
                major: spec_dec_value(parts[0]) as u8,
                minor: spec_dec_value(parts[1]) as u8,
                sub: spec_dec_value(parts[2]) as u8,
                type_: Some(spec_dec_value(parts[3]) as u8),
            },
        )
    } else {
        None
    }
}

/// The version a string denotes, if any.
pub open spec fn spec_parse_version(s: Seq<char>) -> Option<Version> {
    spec_version_of_parts(split_dots(s))
}

/// The numerical value of a decimal digit character, executable form.
fn dec_digit_value(c: char) -> (r: i32)
    ensures
        r as int == spec_dec_digit(c),
{
    let v = c as u32;
    if 48 <= v && v <= 57 {
        (v - 48) as i32
    } else {
        -1
    }
}

impl Version {
    /// Parse a version from its dotted decimal form, `major.minor.sub` or
    /// `major.minor.sub.type`, each component a byte. Succeeds on exactly the
    /// strings of that shape.
    pub fn from_str(s: &str) -> (r: Result<Version, CubeProgrammerError>)
        ensures
            r matches Ok(v) ==> spec_parse_version(s@) == Some(v),
            r is Err <==> spec_parse_version(s@) is None,
            r is Err ==> (r matches Err(CubeProgrammerError::TypeConversion {
                message: _,
                source,
            }) && source == TypeConversionError::VersionError),
    {
        let len = s.unicode_len();
        let mut done: Vec<Option<u8>> = Vec::new();
        let mut cur_good: Option<u8> = Some(0);
        let mut cur_len: usize = 0;
        let mut i: usize = 0;
        proof {
            assert(s@.take(0) =~= Seq::<char>::empty());
        }
        while i < len
            invariant
                0 <= i <= len,
                len == s@.len(),
                cur_len <= i,
                split_dots(s@.take(i as int)).len() >= 1,
                split_dots(s@.take(i as int)).len() == done@.len() + 1,
                forall|j: int|
                    0 <= j < done@.len() ==> (#[trigger] done@[j] is Some <==> part_valid(
                        split_dots(s@.take(i as int))[j],
                    )),
                forall|j: int|
                    0 <= j < done@.len() ==> (#[trigger] done@[j] matches Some(v) ==> v
                        == spec_dec_value(split_dots(s@.take(i as int))[j])),
                cur_len == split_dots(s@.take(i as int)).last().len(),
                cur_good is Some <==> (all_dec_digits(split_dots(s@.take(i as int)).last())
                    && spec_dec_value(split_dots(s@.take(i as int)).last()) <= 255),
                cur_good matches Some(v) ==> v == spec_dec_value(
                    split_dots(s@.take(i as int)).last(),
                ),
            decreases len - i,
        {
            let ghost sp = split_dots(s@.take(i as int));
            let c = s.get_char(i);
            proof {
                assert(s@.take(i + 1).drop_last() =~= s@.take(i as int));
                assert(s@.take(i + 1).last() == s@[i as int]);
                lemma_split_dots_len(s@.take(i + 1));
            }
            if c == '.' {
                let record: Option<u8> = if cur_len > 0 {
                    cur_good
                } else {
                    None
                };
                done.push(record);
                cur_good = Some(0);
                cur_len = 0;
                proof {
                    let sp2 = split_dots(s@.take(i + 1));
                    assert(sp2 == sp.push(Seq::<char>::empty()));
                    assert(sp2.last() =~= Seq::<char>::empty());
                    assert(forall|j: int| 0 <= j < sp.len() ==> sp2[j] == sp[j]);
                    assert(done@[done@.len() - 1] == record);
                    assert(sp2[done@.len() - 1] == sp.last());
                    assert(all_dec_digits(Seq::<char>::empty()));
                }
            } else {
                let d = dec_digit_value(c);
                let ghost cur = sp.last();
                proof {
                    let sp2 = split_dots(s@.take(i + 1));
                    assert(sp2 == sp.update(sp.len() - 1, sp.last().push(s@[i as int])));
                    assert(sp2.last() == cur.push(c));
                    assert(forall|j: int| 0 <= j < done@.len() ==> sp2[j] == sp[j]);
                    assert(cur.push(c).drop_last() =~= cur);
                    assert(cur.push(c).last() == c);
                    assert(spec_dec_value(cur.push(c)) == spec_dec_value(cur) * 10
                        + spec_dec_digit(c));
                }
                if d < 0 {
                    proof {
                        assert(cur.push(c)[cur.len() as int] == c);
                        assert(!all_dec_digits(cur.push(c)));
                    }
                    cur_good = None;
                } else {
                    proof {
                        assert forall|j: int|
                            0 <= j < cur.push(c).len() && all_dec_digits(cur) implies
                            spec_dec_digit(#[trigger] cur.push(c)[j]) >= 0 by {
                            if j < cur.len() {
                                assert(cur.push(c)[j] == cur[j]);
                            }
                        }
                    }
                    match cur_good {
                        Some(v) => {
                            let next: u32 = (v as u32) * 10 + (d as u32);
                            if next <= 255 {
                                cur_good = Some(next as u8);
                            } else {
                                cur_good = None;
                            }
                        },
                        None => {
                            proof {
                                if all_dec_digits(cur) {
                                    assert(spec_dec_value(cur) > 255);
                                    assert(spec_dec_digit(c) >= 0);
                                    assert(spec_dec_value(cur.push(c)) > 255);
                                } else {
                                    let j = choose|j: int|
                                        0 <= j < cur.len() && spec_dec_digit(cur[j]) < 0;
                                    assert(cur.push(c)[j] == cur[j]);
                                    assert(!all_dec_digits(cur.push(c)));
                                }
                            }
                        },
                    }
                }
                cur_len = cur_len + 1;
            }
            i = i + 1;
        }
        proof {
            assert(s@.take(len as int) =~= s@);
        }
        let last_record: Option<u8> = if cur_len > 0 {
            cur_good
        } else {
            None
        };
        if done.len() == 2 {
            if let (Some(major), Some(minor), Some(sub)) = (done[0], done[1], last_record) {
                return Ok(Version { major, minor, sub, type_: None });
            }
        } else if done.len() == 3 {
            if let (Some(major), Some(minor), Some(sub), Some(type_byte)) = (
                done[0],
                done[1],
                done[2],
                last_record,
            ) {
                return Ok(Version { major, minor, sub, type_: Some(type_byte) });
            }
        }
        Err(CubeProgrammerError::TypeConversion {
            message: String::from_str(
                "Cannot convert the string to a version; expecting the format 1.2.3 or 1.2.3.4",
            ),
            source: TypeConversionError::VersionError,
        })
    }
}

/// The decimal digit character for a value below ten.
pub open spec fn digit_char(d: int) -> char {
    if d == 0 {
        '0'
    } else if d == 1 {
        '1'
    } else if d == 2 {
        '2'
    } else if d == 3 {
        '3'
    } else if d == 4 {
        '4'
    } else if d == 5 {
        '5'
    } else if d == 6 {
        '6'
    } else if d == 7 {
        '7'
    } else if d == 8 {
        '8'
    } else {
        '9'
    }
}

/// The decimal text of a byte value, without leading zeroes.
pub open spec fn spec_u8_dec_chars(v: int) -> Seq<char> {
    if v < 10 {
        seq![digit_char(v)]
    } else if v < 100 {
        seq![digit_char(v / 10), digit_char(v % 10)]
    } else {
        seq![digit_char(v / 100), digit_char((v / 10) % 10), digit_char(v % 10)]
    }
}

/// The dotted decimal text of a version: `major.minor.sub`, with the release
/// type appended when it was supplied.
pub open spec fn spec_version_display(v: Version) -> Seq<char> {
    let base = spec_u8_dec_chars(v.major as int) + seq!['.'] + spec_u8_dec_chars(v.minor as int)
        + seq!['.'] + spec_u8_dec_chars(v.sub as int);
    match v.type_ {
        Some(t) => base + seq!['.'] + spec_u8_dec_chars(t as int),
        None => base,
    }
}

/// Appending a character other than a dot extends the last component of the
/// split.
proof fn lemma_split_dots_push_plain(s: Seq<char>, c: char)
    requires
        c != '.',
    ensures
        split_dots(s.push(c)) == split_dots(s).update(
            split_dots(s).len() - 1,
            split_dots(s).last().push(c),
        ),
{
    lemma_split_dots_len(s);
    assert(s.push(c).drop_last() =~= s);
    assert(s.push(c).last() == c);
}

/// Appending dot-free text extends the last component of the split.
proof fn lemma_split_dots_append_plain(s: Seq<char>, w: Seq<char>)
    requires
        forall|i: int| 0 <= i < w.len() ==> w[i] != '.',
    ensures
        split_dots(s + w).len() == split_dots(s).len(),
        split_dots(s + w) == split_dots(s).update(
            split_dots(s).len() - 1,
            split_dots(s).last() + w,
        ),
    decreases w.len(),
{
    lemma_split_dots_len(s);
    let sp = split_dots(s);
    if w.len() == 0 {
        assert(s + w =~= s);
        assert(sp.last() + w =~= sp.last());
        assert(sp.update(sp.len() - 1, sp.last() + w) =~= sp);
    } else {
        let w0 = w.drop_last();
        lemma_split_dots_append_plain(s, w0);
        assert(s + w =~= (s + w0).push(w.last()));
        lemma_split_dots_push_plain(s + w0, w.last());
        let prev = split_dots(s + w0);
        assert(prev.last() == sp.last() + w0);
        assert((sp.last() + w0).push(w.last()) =~= sp.last() + w);
        assert(prev.update(prev.len() - 1, prev.last().push(w.last())) =~= sp.update(
            sp.len() - 1,
            sp.last() + w,
        ));
    }
}

/// Appending a dot opens a fresh empty component.
proof fn lemma_split_dots_append_dot(s: Seq<char>)
    ensures
        split_dots(s + seq!['.']) == split_dots(s).push(Seq::<char>::empty()),
{
    assert((s + seq!['.']).drop_last() =~= s);
    assert((s + seq!['.']).last() == '.');
}

/// The decimal text of a byte value is a nonempty, dot-free run of digits
/// whose value is the byte again.
proof fn lemma_digit_char_value(d: int)
    requires
        0 <= d < 10,
    ensures
        spec_dec_digit(digit_char(d)) == d,
        digit_char(d) != '.',
{
}

proof fn lemma_u8_dec_chars_valid(x: int)
    requires
        0 <= x <= 255,
    ensures
        part_valid(spec_u8_dec_chars(x)),
        spec_dec_value(spec_u8_dec_chars(x)) == x,
        forall|i: int| 0 <= i < spec_u8_dec_chars(x).len() ==> spec_u8_dec_chars(x)[i] != '.',
{
    let w = spec_u8_dec_chars(x);
    if x < 10 {
        lemma_digit_char_value(x);
        assert(w =~= seq![digit_char(x)]);
        assert(w.last() == digit_char(x));
        assert(w.drop_last() =~= Seq::<char>::empty());
        assert(spec_dec_value(Seq::<char>::empty()) == 0);
        assert(spec_dec_value(w) == spec_dec_value(w.drop_last()) * 10 + spec_dec_digit(w.last()));
        assert(spec_dec_value(w) == x);
    } else if x < 100 {
        lemma_digit_char_value(x / 10);
        lemma_digit_char_value(x % 10);
        assert(w =~= seq![digit_char(x / 10), digit_char(x % 10)]);
        let w1 = w.drop_last();
        assert(w1 =~= seq![digit_char(x / 10)]);
        assert(w1.last() == digit_char(x / 10));
        assert(w1.drop_last() =~= Seq::<char>::empty());
        assert(spec_dec_value(Seq::<char>::empty()) == 0);
        assert(spec_dec_value(w1) == spec_dec_value(w1.drop_last()) * 10 + spec_dec_digit(
            w1.last(),
        ));
        assert(spec_dec_value(w1) == x / 10);
        assert(w.last() == digit_char(x % 10));
        assert(spec_dec_value(w) == spec_dec_value(w.drop_last()) * 10 + spec_dec_digit(w.last()));
        assert((x / 10) * 10 + x % 10 == x) by (nonlinear_arith);
    } else {
        lemma_digit_char_value(x / 100);
        lemma_digit_char_value((x / 10) % 10);
        lemma_digit_char_value(x % 10);
        assert(w =~= seq![digit_char(x / 100), digit_char((x / 10) % 10), digit_char(x % 10)]);
        let w1 = w.drop_last();
        let w2 = w1.drop_last();
        assert(w1 =~= seq![digit_char(x / 100), digit_char((x / 10) % 10)]);
        assert(w2 =~= seq![digit_char(x / 100)]);
        assert(w2.last() == digit_char(x / 100));
        assert(w2.drop_last() =~= Seq::<char>::empty());
        assert(spec_dec_value(Seq::<char>::empty()) == 0);
        assert(spec_dec_value(w2) == spec_dec_value(w2.drop_last()) * 10 + spec_dec_digit(
            w2.last(),
        ));
        assert(spec_dec_value(w2) == x / 100);
        assert(w1.last() == digit_char((x / 10) % 10));
        assert(spec_dec_value(w1) == spec_dec_value(w1.drop_last()) * 10 + spec_dec_digit(
            w1.last(),
        ));
        assert((x / 100) * 10 + (x / 10) % 10 == x / 10) by (nonlinear_arith)
            requires
                100 <= x <= 255,
        ;
        assert(spec_dec_value(w1) == x / 10);
        assert(w.last() == digit_char(x % 10));
        assert(spec_dec_value(w) == spec_dec_value(w.drop_last()) * 10 + spec_dec_digit(w.last()));
        assert((x / 10) * 10 + x % 10 == x) by (nonlinear_arith);
    }
}

/// Law: displaying a version and parsing the text yields the version again,
/// whether or not it carries a release type.
pub proof fn lemma_version_display_parse_round_trip(v: Version)
    ensures
        spec_parse_version(spec_version_display(v)) == Some(v),
{
    let a = spec_u8_dec_chars(v.major as int);
    let b = spec_u8_dec_chars(v.minor as int);
    let c = spec_u8_dec_chars(v.sub as int);
    lemma_u8_dec_chars_valid(v.major as int);
    lemma_u8_dec_chars_valid(v.minor as int);
    lemma_u8_dec_chars_valid(v.sub as int);

    let s0 = Seq::<char>::empty();
    assert(split_dots(s0) =~= seq![Seq::<char>::empty()]);
    let s1 = s0 + a;
    lemma_split_dots_append_plain(s0, a);
    assert(split_dots(s1) =~= seq![a]) by {
        assert(Seq::<char>::empty() + a =~= a);
        assert(split_dots(s1) == seq![Seq::<char>::empty()].update(0, Seq::<char>::empty() + a));
    }
    let s2 = s1 + seq!['.'];
    lemma_split_dots_append_dot(s1);
    assert(split_dots(s2) =~= seq![a, Seq::<char>::empty()]);
    let s3 = s2 + b;
    lemma_split_dots_append_plain(s2, b);
    assert(split_dots(s3) =~= seq![a, b]) by {
        assert(Seq::<char>::empty() + b =~= b);
    }
    let s4 = s3 + seq!['.'];
    lemma_split_dots_append_dot(s3);
    assert(split_dots(s4) =~= seq![a, b, Seq::<char>::empty()]);
    let s5 = s4 + c;
    lemma_split_dots_append_plain(s4, c);
    assert(split_dots(s5) =~= seq![a, b, c]) by {
        assert(Seq::<char>::empty() + c =~= c);
    }
    let base = a + seq!['.'] + b + seq!['.'] + c;
    assert(s5 =~= base);

    match v.type_ {
        None => {
            assert(spec_version_display(v) == base);
            let parts = split_dots(base);
            assert(parts =~= seq![a, b, c]);
            assert(parts[0] == a && parts[1] == b && parts[2] == c);
            assert(spec_version_of_parts(parts) == Some(v));
        },
        Some(t) => {
            let d = spec_u8_dec_chars(t as int);
            lemma_u8_dec_chars_valid(t as int);
            let s6 = s5 + seq!['.'];
            lemma_split_dots_append_dot(s5);
            assert(split_dots(s6) =~= seq![a, b, c, Seq::<char>::empty()]);
            let s7 = s6 + d;
            lemma_split_dots_append_plain(s6, d);
            assert(split_dots(s7) =~= seq![a, b, c, d]) by {
                assert(Seq::<char>::empty() + d =~= d);
            }
            assert(spec_version_display(v) =~= s7);
            let parts = split_dots(spec_version_display(v));
            assert(parts =~= seq![a, b, c, d]);
            assert(parts[0] == a && parts[1] == b && parts[2] == c && parts[3] == d);
            assert(spec_version_of_parts(parts) == Some(v));
        },
    }
}

/// Append one decimal digit character.
fn push_digit(s: &mut String, d: u8)
    requires
        d < 10,
    ensures
        final(s)@ == old(s)@ + seq![digit_char(d as int)],
{
    if d == 0 {
        proof {
            reveal_strlit("0");
            assert("0"@ =~= seq!['0']);
        }
        s.append("0");
    } else if d == 1 {
        proof {
            reveal_strlit("1");
            assert("1"@ =~= seq!['1']);
        }
        s.append("1");
    } else if d == 2 {
        proof {
            reveal_strlit("2");
            assert("2"@ =~= seq!['2']);
        }
        s.append("2");
    } else if d == 3 {
        proof {
            reveal_strlit("3");
            assert("3"@ =~= seq!['3']);
        }
        s.append("3");
    } else if d == 4 {
        proof {
            reveal_strlit("4");
            assert("4"@ =~= seq!['4']);
        }
        s.append("4");
    } else if d == 5 {
        proof {
            reveal_strlit("5");
            assert("5"@ =~= seq!['5']);
        }
        s.append("5");
    } else if d == 6 {
        proof {
            reveal_strlit("6");
            assert("6"@ =~= seq!['6']);
        }
        s.append("6");
    } else if d == 7 {
        proof {
            reveal_strlit("7");
            assert("7"@ =~= seq!['7']);
        }
        s.append("7");
    } else if d == 8 {
        proof {
            reveal_strlit("8");
            assert("8"@ =~= seq!['8']);
        }
        s.append("8");
    } else {
        proof {
            reveal_strlit("9");
            assert("9"@ =~= seq!['9']);
        }
        s.append("9");
    }
}

/// Append the decimal text of a byte value.
fn push_u8_dec(s: &mut String, v: u8)
    ensures
        final(s)@ == old(s)@ + spec_u8_dec_chars(v as int),
{
    if v < 10 {
        push_digit(s, v);
    } else if v < 100 {
        push_digit(s, v / 10);
        push_digit(s, v % 10);
        proof {
            assert(old(s)@ + seq![digit_char((v / 10) as int)] + seq![digit_char((v % 10) as int)]
                =~= old(s)@ + spec_u8_dec_chars(v as int));
        }
    } else {
        push_digit(s, v / 100);
        push_digit(s, (v / 10) % 10);
        push_digit(s, v % 10);
        proof {
            assert(old(s)@ + seq![digit_char((v / 100) as int)] + seq![
                digit_char(((v / 10) % 10) as int),
            ] + seq![digit_char((v % 10) as int)] =~= old(s)@ + spec_u8_dec_chars(v as int));
        }
    }
}

/// Append one dot.
fn push_dot(s: &mut String)
    ensures
        final(s)@ == old(s)@ + seq!['.'],
{
    proof {
        reveal_strlit(".");
        assert("."@ =~= seq!['.']);
    }
    s.append(".");
}

impl Version {
    /// The dotted decimal text of the version, `major.minor.sub` or
    /// `major.minor.sub.type`.
    pub fn to_display_string(&self) -> (r: String)
        ensures
            r@ == spec_version_display(*self),
    {
        let mut s = String::new();
        push_u8_dec(&mut s, self.major);
        push_dot(&mut s);
        push_u8_dec(&mut s, self.minor);
        push_dot(&mut s);
        push_u8_dec(&mut s, self.sub);
        match self.type_ {
            Some(t) => {
                push_dot(&mut s);
                push_u8_dec(&mut s, t);
                proof {
                    assert(s@ =~= spec_version_display(*self));
                }
            },
            None => {
                proof {
                    assert(s@ =~= spec_version_display(*self));
                }
            },
        }
        s
    }
}

/// Device families whose FUS information table this library knows the layout
/// of.
#[derive(Clone, Copy, Debug, PartialEq, Eq, Structural)]
pub enum FusFamily {
    /// The larger wireless parts; shared RAM sits high, the version words
    /// carry a release type.
    Wb5x,
    /// The smaller wireless parts; shared RAM sits low, the version words
    /// carry no release type.
    Wb1x,
}

/// The per-family layout of the FUS device-information table: where the
/// table pointer lives, the field offsets inside the table, and whether the
/// version word's low byte is meaningful.
#[derive(Clone, Copy, Debug, PartialEq, Eq, Structural)]
pub struct FusLayout {
    pub sram2a_base: u32,
    pub state_offset: u32,
    pub fus_version_offset: u32,
    pub wireless_stack_version_offset: u32,
    pub uid64_offset: u32,
    pub device_id_offset: u32,
    pub version_has_type: bool,
}

impl FusLayout {
    /// The table layout of a device family: the shared-RAM base differs per
    /// family, the field offsets agree, and only the larger family's version
    /// words carry a release type.
    pub open spec fn spec_for_family(family: FusFamily) -> FusLayout {
        match family {
            FusFamily::Wb5x => FusLayout {
                sram2a_base: 0x2003_0000,
                state_offset: 0,
                fus_version_offset: 12,
                wireless_stack_version_offset: 20,
                uid64_offset: 40,
                device_id_offset: 48,
                version_has_type: true,
            },
            FusFamily::Wb1x => FusLayout {
                sram2a_base: 0x2000_3000,
                state_offset: 0,
                fus_version_offset: 12,
                wireless_stack_version_offset: 20,
                uid64_offset: 40,
                device_id_offset: 48,
                version_has_type: false,
            },
        }
    }

    /// The table layout of a device family.
    pub fn for_family(family: FusFamily) -> (r: FusLayout)
        ensures
            r == Self::spec_for_family(family),
    {
        match family {
            FusFamily::Wb5x => FusLayout {
                sram2a_base: 0x2003_0000,
                state_offset: 0,
                fus_version_offset: 12,
                wireless_stack_version_offset: 20,
                uid64_offset: 40,
                device_id_offset: 48,
                version_has_type: true,
            },
            FusFamily::Wb1x => FusLayout {
                sram2a_base: 0x2000_3000,
                state_offset: 0,
                fus_version_offset: 12,
                wireless_stack_version_offset: 20,
                uid64_offset: 40,
                device_id_offset: 48,
                version_has_type: false,
            },
        }
    }
}

/// The FUS-capable family a device name denotes, if any: the name prefix
/// selects the family and with it the table layout.
pub open spec fn spec_fus_family(name: Seq<char>) -> Option<FusFamily> {
    if name.len() >= 8 && name.subrange(0, 8) == "STM32WB5"@ {
        Some(FusFamily::Wb5x)
    } else if name.len() >= 8 && name.subrange(0, 8) == "STM32WB1"@ {
        Some(FusFamily::Wb1x)
    } else {
        None
    }
}

/// The FUS-capable family a device name denotes, if any.
pub fn fus_family_of(name: &str) -> (r: Option<FusFamily>)
    ensures
        r == spec_fus_family(name@),
{
    proof {
        reveal_strlit("STM32WB5");
        reveal_strlit("STM32WB1");
        assert("STM32WB5"@.len() == 8);
        assert("STM32WB1"@.len() == 8);
        assert("STM32WB5"@[7] != "STM32WB1"@[7]);
    }
    if crate::utility::str_has_prefix(name, "STM32WB5") {
        Some(FusFamily::Wb5x)
    } else if crate::utility::str_has_prefix(name, "STM32WB1") {
        Some(FusFamily::Wb1x)
    } else {
        None
    }
}

/// The keyword that marks a FUS device-information table as valid.
pub const FUS_DEVICE_INFO_TABLE_VALIDITY_KEYWORD: u32 = 0xA94656B9;

/// Information about the FUS, decoded from the device-information table.
#[derive(Clone, Copy, Debug)]
pub struct Information {
    pub wireless_stack_version: Version,
    pub fus_version: Version,
    pub uid64: u64,
    pub device_id: u16,
}

/// The raw words of a FUS device-information table, as read from the target.
#[derive(Clone, Copy, Debug, PartialEq, Eq, Structural)]
pub struct FusTableWords {
    pub state: u32,
    pub fus_version: u32,
    pub wireless_stack_version: u32,
    pub uid64: u64,
    pub device_id: u16,
}

/// The addresses of the table fields on the target.
#[derive(Clone, Copy, Debug, PartialEq, Eq, Structural)]
pub struct FusFieldAddresses {
    pub state: u32,
    pub fus_version: u32,
    pub wireless_stack_version: u32,
    pub uid64: u32,
    pub device_id: u32,
}

/// Check the pointer word read from the shared-RAM base: a zero pointer means
/// the information table is not ready.
pub fn fus_info_table_address(pointer_word: u32) -> (r: Result<u32, CubeProgrammerError>)
    ensures
        pointer_word == 0 ==> (r matches Err(CubeProgrammerError::DataIntegrity {
            action: Action::ReadFusInfo,
            unexpected_output: UnexpectedOutput::Null,
        })),
        pointer_word != 0 ==> r == Ok::<u32, CubeProgrammerError>(pointer_word),
{
    if pointer_word == 0 {
        Err(CubeProgrammerError::DataIntegrity {
            action: Action::ReadFusInfo,
            unexpected_output: UnexpectedOutput::Null,
        })
    } else {
        Ok(pointer_word)
    }
}

/// The addresses of the table fields, relative to the table pointer; fails
/// when an offset would run past the 32-bit address space.
pub fn fus_field_addresses(layout: &FusLayout, table_address: u32) -> (r: Result<
    FusFieldAddresses,
    CubeProgrammerError,
>)
    ensures
        r is Ok <==> (table_address + layout.state_offset <= u32::MAX && table_address
            + layout.fus_version_offset <= u32::MAX && table_address
            + layout.wireless_stack_version_offset <= u32::MAX && table_address
            + layout.uid64_offset <= u32::MAX && table_address + layout.device_id_offset
            <= u32::MAX),
        r matches Ok(f) ==> f.state == table_address + layout.state_offset && f.fus_version
            == table_address + layout.fus_version_offset && f.wireless_stack_version
            == table_address + layout.wireless_stack_version_offset && f.uid64 == table_address
            + layout.uid64_offset && f.device_id == table_address + layout.device_id_offset,
        r is Err ==> (r matches Err(CubeProgrammerError::ResourceExhaustion {
            action: Action::ReadFusInfo,
        })),
{
    if layout.state_offset <= u32::MAX - table_address && layout.fus_version_offset <= u32::MAX
        - table_address && layout.wireless_stack_version_offset <= u32::MAX - table_address
        && layout.uid64_offset <= u32::MAX - table_address && layout.device_id_offset <= u32::MAX
        - table_address {
        Ok(FusFieldAddresses {
            state: table_address + layout.state_offset,
            fus_version: table_address + layout.fus_version_offset,
            wireless_stack_version: table_address + layout.wireless_stack_version_offset,
            uid64: table_address + layout.uid64_offset,
            device_id: table_address + layout.device_id_offset,
        })
    } else {
        Err(CubeProgrammerError::ResourceExhaustion { action: Action::ReadFusInfo })
    }
}

/// The information a valid table decodes to.
pub open spec fn spec_decoded_information(layout: FusLayout, words: FusTableWords) -> Information {
    Information {
        fus_version: spec_version_from_word(words.fus_version, layout.version_has_type),
        wireless_stack_version: spec_version_from_word(
            words.wireless_stack_version,
            layout.version_has_type,
        ),
        uid64: words.uid64,
        device_id: words.device_id,
    }
}

/// Decode a FUS device-information table. A table whose validity keyword
/// differs from the magic constant is rejected as corrupt, whatever its other
/// fields hold.
pub fn decode_fus_info(layout: &FusLayout, words: &FusTableWords) -> (r: Result<
    Information,
    CubeProgrammerError,
>)
    ensures
        words.state != FUS_DEVICE_INFO_TABLE_VALIDITY_KEYWORD ==> (r matches Err(
            CubeProgrammerError::DataIntegrity {
                action: Action::ReadFusInfo,
                unexpected_output: UnexpectedOutput::InvalidKeyword,
            },
        )),
        words.state == FUS_DEVICE_INFO_TABLE_VALIDITY_KEYWORD ==> r == Ok::<
            Information,
            CubeProgrammerError,
        >(spec_decoded_information(*layout, *words)),
{
    if words.state != FUS_DEVICE_INFO_TABLE_VALIDITY_KEYWORD {
        return Err(CubeProgrammerError::DataIntegrity {
            action: Action::ReadFusInfo,
            unexpected_output: UnexpectedOutput::InvalidKeyword,
        });
    }
    Ok(Information {
        fus_version: Version::from_word(words.fus_version, layout.version_has_type),
        wireless_stack_version: Version::from_word(
            words.wireless_stack_version,
            layout.version_has_type,
        ),
        uid64: words.uid64,
        device_id: words.device_id,
    })
}

} // verus!
