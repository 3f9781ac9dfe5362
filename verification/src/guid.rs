//! The 128-bit globally unique identifier that names COM interfaces, with
//! its canonical hyphenated string form: 8-4-4-4-12 hexadecimal digit
//! groups.  Any other shape is a parse error; serialization is lowercase.

use vstd::prelude::*;
use vstd::std_specs::cmp::PartialEqSpec;

verus! {

/// 128-bit globally unique identifier (GUID/UUID/IID), stored as the usual
/// 4-byte, 2-byte, 2-byte and 8-byte components.
#[derive(Clone, Copy, Debug, Hash)]
pub struct GUID {
    /// First group: 8 hex digits.
    pub data1: u32,
    /// Second group: 4 hex digits.
    pub data2: u16,
    /// Third group: 4 hex digits.
    pub data3: u16,
    /// Fourth and fifth groups: 2 bytes, then 6 bytes.
    pub data4: [u8; 8],
}

impl GUID {
    /// Create a GUID from its components.
    pub fn new(data1: u32, data2: u16, data3: u16, data4: [u8; 8]) -> (g: GUID)
        ensures
            g == (GUID { data1, data2, data3, data4 }),
    {
        GUID { data1, data2, data3, data4 }
    }
}

impl PartialEq for GUID {
    /// Two GUIDs are equal exactly when all four components are.
    fn eq(&self, other: &GUID) -> (r: bool) {
        let components = self.data1 == other.data1 && self.data2 == other.data2 && self.data3
            == other.data3;
        let bytes = self.data4[0] == other.data4[0] && self.data4[1] == other.data4[1]
            && self.data4[2] == other.data4[2] && self.data4[3] == other.data4[3] && self.data4[4]
            == other.data4[4] && self.data4[5] == other.data4[5] && self.data4[6] == other.data4[6]
            && self.data4[7] == other.data4[7];
        proof {
            broadcast use vstd::array::group_array_axioms;

            if bytes {
                assert(self.data4 =~= other.data4);
            } else {
                assert(!(self.data4 =~= other.data4));
            }
        }
        components && bytes
    }
}

impl Eq for GUID {

}

impl vstd::std_specs::cmp::PartialEqSpecImpl for GUID {
    open spec fn obeys_eq_spec() -> bool {
        true
    }

    open spec fn eq_spec(&self, other: &GUID) -> bool {
        self.data1 == other.data1 && self.data2 == other.data2 && self.data3 == other.data3
            && self.data4 == other.data4
    }
}

/// The executable `==` of GUIDs agrees with plain equality of the values.
pub proof fn lemma_guid_eq_is_equality(a: GUID, b: GUID)
    ensures
        a.eq_spec(&b) <==> a == b,
{
    if a.data1 == b.data1 && a.data2 == b.data2 && a.data3 == b.data3 && a.data4 == b.data4 {
        assert(a == (GUID { data1: a.data1, data2: a.data2, data3: a.data3, data4: a.data4 }));
        assert(b == (GUID { data1: a.data1, data2: a.data2, data3: a.data3, data4: a.data4 }));
    }
}

/// Create a GUID from its components.
pub fn make_guid(data1: u32, data2: u16, data3: u16, data4: [u8; 8]) -> (g: GUID)
    ensures
        g == (GUID { data1, data2, data3, data4 }),
{
    GUID { data1, data2, data3, data4 }
}

/// A hexadecimal digit: `0-9`, `a-f` or `A-F`.
pub open spec fn spec_is_hex_digit(c: char) -> bool {
    ('0' as u32 <= c as u32 && c as u32 <= '9' as u32) || ('a' as u32 <= c as u32 && c as u32
        <= 'f' as u32) || ('A' as u32 <= c as u32 && c as u32 <= 'F' as u32)
}

/// Numeric value of a hexadecimal digit.
pub open spec fn spec_hex_value(c: char) -> nat
    recommends
        spec_is_hex_digit(c),
{
    if 'a' as u32 <= c as u32 && c as u32 <= 'f' as u32 {
        (c as u32 - 'a' as u32 + 10) as nat
    } else if 'A' as u32 <= c as u32 && c as u32 <= 'F' as u32 {
        (c as u32 - 'A' as u32 + 10) as nat
    } else {
        (c as u32 - '0' as u32) as nat
    }
}

/// Value of a big-endian group of hexadecimal digits.
pub open spec fn spec_hex_group(s: Seq<char>) -> nat
    decreases s.len(),
{
    if s.len() == 0 {
        0
    } else {
        spec_hex_group(s.drop_last()) * 16 + spec_hex_value(s.last())
    }
}

/// Sixteen to the power `n`.
pub open spec fn spec_pow16(n: nat) -> nat
    decreases n,
{
    if n == 0 {
        1
    } else {
        16 * spec_pow16((n - 1) as nat)
    }
}

/// A group of `n` hex digits is worth less than sixteen to the `n`.
pub proof fn lemma_hex_group_bound(s: Seq<char>)
    requires
        forall|i: int| 0 <= i < s.len() ==> spec_is_hex_digit(#[trigger] s[i]),
    ensures
        spec_hex_group(s) < spec_pow16(s.len()),
    decreases s.len(),
{
    if s.len() == 0 {
    } else {
        assert(forall|i: int|
            0 <= i < s.len() - 1 ==> spec_is_hex_digit(#[trigger] s.drop_last()[i]));
        lemma_hex_group_bound(s.drop_last());
        lemma_pow16_pos((s.len() - 1) as nat);
        assert(spec_is_hex_digit(s.last()));
        assert(spec_hex_value(s.last()) < 16);
    }
}

/// Powers of sixteen are positive.
pub proof fn lemma_pow16_pos(n: nat)
    ensures
        spec_pow16(n) >= 1,
    decreases n,
{
    if n > 0 {
        lemma_pow16_pos((n - 1) as nat);
    }
}

/// The hyphen positions of the canonical form.
pub open spec fn spec_is_hyphen_position(i: int) -> bool {
    i == 8 || i == 13 || i == 18 || i == 23
}

/// One position of the canonical shape is as the shape demands: a hyphen at
/// the hyphen positions, a hexadecimal digit everywhere else.
pub open spec fn spec_position_ok(s: Seq<char>, i: int) -> bool {
    if spec_is_hyphen_position(i) {
        s[i] == '-'
    } else {
        spec_is_hex_digit(s[i])
    }
}

/// The canonical GUID string shape: 36 characters, hyphens exactly at
/// positions 8, 13, 18 and 23, hexadecimal digits everywhere else.
pub open spec fn spec_valid_guid_string(s: Seq<char>) -> bool {
    &&& s.len() == 36
    &&& forall|i: int| 0 <= i < 36 ==> #[trigger] spec_position_ok(s, i)
}

/// The bytes of the fourth component read from a valid GUID string: two from
/// the fourth group, six from the fifth.
pub open spec fn spec_guid_data4(s: Seq<char>) -> Seq<u8> {
    seq![
        (spec_hex_value(s[19]) * 16 + spec_hex_value(s[20])) as u8,
        (spec_hex_value(s[21]) * 16 + spec_hex_value(s[22])) as u8,
        (spec_hex_value(s[24]) * 16 + spec_hex_value(s[25])) as u8,
        (spec_hex_value(s[26]) * 16 + spec_hex_value(s[27])) as u8,
        (spec_hex_value(s[28]) * 16 + spec_hex_value(s[29])) as u8,
        (spec_hex_value(s[30]) * 16 + spec_hex_value(s[31])) as u8,
        (spec_hex_value(s[32]) * 16 + spec_hex_value(s[33])) as u8,
        (spec_hex_value(s[34]) * 16 + spec_hex_value(s[35])) as u8,
    ]
}

/// Why a GUID string was rejected.
#[derive(Clone, Copy, Debug, PartialEq, Eq, Structural)]
pub enum GuidParseError {
    /// The string does not have 36 characters.
    WrongLength { len: usize },
    /// A hyphen position holds some other character.
    MissingHyphen { position: usize },
    /// A digit position holds a character that is no hexadecimal digit.
    BadHexDigit { position: usize },
}

/// Parse the canonical hyphenated form `xxxxxxxx-xxxx-xxxx-xxxx-xxxxxxxxxxxx`
/// into the GUID's components.  Exactly the strings of that shape parse;
/// digits may be upper or lower case.  The error names the first offence in
/// reading order: a wrong length, then the first bad position.
pub fn parse_guid_string(s: &str) -> (r: Result<(u32, u16, u16, [u8; 8]), GuidParseError>)
    ensures
        r is Ok <==> spec_valid_guid_string(s@),
        r matches Ok((d1, d2, d3, d4)) ==> {
            &&& d1 as nat == spec_hex_group(s@.subrange(0, 8))
            &&& d2 as nat == spec_hex_group(s@.subrange(9, 13))
            &&& d3 as nat == spec_hex_group(s@.subrange(14, 18))
            &&& d4@ == spec_guid_data4(s@)
        },
        r matches Err(GuidParseError::WrongLength { len }) ==> len == s@.len() && s@.len() != 36,
        r matches Err(GuidParseError::MissingHyphen { position }) ==> s@.len() == 36
            && spec_is_hyphen_position(position as int) && s@[position as int] != '-' && (forall|
            j: int,
        |
            0 <= j < position ==> spec_position_ok(s@, j)),
        r matches Err(GuidParseError::BadHexDigit { position }) ==> s@.len() == 36
            && !spec_is_hyphen_position(position as int) && position < 36 && !spec_is_hex_digit(
            s@[position as int],
        ) && (forall|j: int| 0 <= j < position ==> spec_position_ok(s@, j)),
{
    let n = s.unicode_len();
    if n != 36 {
        return Err(GuidParseError::WrongLength { len: n });
    }
    // Gather the characters and check the shape in one pass.
    let mut chars: Vec<char> = Vec::new();
    let mut i: usize = 0;
    while i < 36
        invariant
            s@.len() == 36,
            i <= 36,
            chars@ == s@.take(i as int),
            forall|j: int| 0 <= j < i ==> spec_position_ok(s@, j),
        decreases 36 - i,
    {
        let c = s.get_char(i);
        if i == 8 || i == 13 || i == 18 || i == 23 {
            if c != '-' {
                proof {
                    assert(!spec_position_ok(s@, i as int));
                }
                return Err(GuidParseError::MissingHyphen { position: i });
            }
        } else {
            if !is_hex_digit(c) {
                proof {
                    assert(!spec_position_ok(s@, i as int));
                }
                return Err(GuidParseError::BadHexDigit { position: i });
            }
        }
        chars.push(c);
        proof {
            assert(chars@ =~= s@.take(i + 1));
        }
        i += 1;
    }
    proof {
        assert(chars@ =~= s@);
        assert forall|j: int| 0 <= j < 36 implies #[trigger] spec_position_ok(s@, j) by {}
        assert(spec_valid_guid_string(s@));
        assert forall|j: int|
            0 <= j < 36 && !spec_is_hyphen_position(j) implies spec_is_hex_digit(
            #[trigger] chars@[j],
        ) by {
            assert(spec_position_ok(s@, j));
        }
    }
    let d1v = hex_group_value(&chars, 0, 8);
    let d2v = hex_group_value(&chars, 9, 4);
    let d3v = hex_group_value(&chars, 14, 4);
    proof {
        lemma_pow16_values();
    }
    let d1 = d1v as u32;
    let d2 = d2v as u16;
    let d3 = d3v as u16;
    let b0 = hex_byte(&chars, 19);
    let b1 = hex_byte(&chars, 21);
    let b2 = hex_byte(&chars, 24);
    let b3 = hex_byte(&chars, 26);
    let b4 = hex_byte(&chars, 28);
    let b5 = hex_byte(&chars, 30);
    let b6 = hex_byte(&chars, 32);
    let b7 = hex_byte(&chars, 34);
    let d4 = [b0, b1, b2, b3, b4, b5, b6, b7];
    proof {
        assert(d4@ =~= spec_guid_data4(s@));
    }
    Ok((d1, d2, d3, d4))
}

/// The first few powers of sixteen, spelled out.
pub proof fn lemma_pow16_values()
    ensures
        spec_pow16(2) == 0x100,
        spec_pow16(4) == 0x10000,
        spec_pow16(8) == 0x1_0000_0000,
{
    assert(spec_pow16(0) == 1);
    assert(spec_pow16(1) == 16);
    assert(spec_pow16(2) == 0x100);
    assert(spec_pow16(3) == 0x1000);
    assert(spec_pow16(4) == 0x10000);
    assert(spec_pow16(5) == 0x10_0000);
    assert(spec_pow16(6) == 0x100_0000);
    assert(spec_pow16(7) == 0x1000_0000);
    assert(spec_pow16(8) == 0x1_0000_0000);
}

/// Recognise a hexadecimal digit.
pub fn is_hex_digit(c: char) -> (r: bool)
    ensures
        r == spec_is_hex_digit(c),
{
    let u = c as u32;
    ('0' as u32 <= u && u <= '9' as u32) || ('a' as u32 <= u && u <= 'f' as u32) || ('A' as u32 <= u
        && u <= 'F' as u32)
}

/// Numeric value of one hexadecimal digit.
pub fn hex_value(c: char) -> (r: u8)
    requires
        spec_is_hex_digit(c),
    ensures
        r as nat == spec_hex_value(c),
        r < 16,
{
    let u = c as u32;
    if 'a' as u32 <= u && u <= 'f' as u32 {
        (u - 'a' as u32 + 10) as u8
    } else if 'A' as u32 <= u && u <= 'F' as u32 {
        (u - 'A' as u32 + 10) as u8
    } else {
        (u - '0' as u32) as u8
    }
}

/// Value of the big-endian hex digit group `chars[start .. start + len]`.
fn hex_group_value(chars: &Vec<char>, start: usize, len: usize) -> (r: u64)
    requires
        start + len <= chars@.len(),
        len <= 8,
        forall|j: int| start <= j < start + len ==> spec_is_hex_digit(#[trigger] chars@[j]),
    ensures
        r as nat == spec_hex_group(chars@.subrange(start as int, start as int + len)),
        (r as nat) < spec_pow16(len as nat),
{
    let n = chars.len();
    let mut acc: u64 = 0;
    let mut k: usize = 0;
    proof {
        assert(chars@.subrange(start as int, start as int) =~= Seq::<char>::empty());
        lemma_pow16_values();
        lemma_pow16_monotone(len as nat, 8);
    }
    while k < len
        invariant
            start + len <= n,
            n == chars@.len(),
            len <= 8,
            forall|j: int| start <= j < start + len ==> spec_is_hex_digit(#[trigger] chars@[j]),
            k <= len,
            acc as nat == spec_hex_group(chars@.subrange(start as int, start as int + k)),
            (acc as nat) < spec_pow16(k as nat),
            spec_pow16(len as nat) <= 0x1_0000_0000,
        decreases len - k,
    {
        let c = chars[start + k];
        let v = hex_value(c);
        proof {
            lemma_pow16_monotone((k + 1) as nat, len as nat);
            lemma_pow16_monotone(len as nat, 8);
            lemma_pow16_values();
            assert(spec_pow16((k + 1) as nat) == 16 * spec_pow16(k as nat));
            let g = chars@.subrange(start as int, start as int + k + 1);
            assert(g.drop_last() =~= chars@.subrange(start as int, start as int + k));
            assert(g.last() == chars@[start + k]);
        }
        acc = acc * 16 + (v as u64);
        k += 1;
    }
    acc
}

/// Powers of sixteen grow with the exponent.
pub proof fn lemma_pow16_monotone(i: nat, j: nat)
    requires
        i <= j,
    ensures
        spec_pow16(i) <= spec_pow16(j),
    decreases j - i,
{
    if i < j {
        lemma_pow16_monotone(i, (j - 1) as nat);
        lemma_pow16_pos((j - 1) as nat);
    }
}

/// The lowercase hexadecimal digit character of a value below sixteen.
pub open spec fn spec_hex_char(d: nat) -> char
    recommends
        d < 16,
{
    seq!['0', '1', '2', '3', '4', '5', '6', '7', '8', '9', 'a', 'b', 'c', 'd', 'e', 'f'][d as int]
}

/// The `n` lowercase hexadecimal digits of `v`, most significant first.
pub open spec fn spec_hex_digits(v: nat, n: nat) -> Seq<char>
    decreases n,
{
    if n == 0 {
        Seq::empty()
    } else {
        spec_hex_digits(v / 16, (n - 1) as nat).push(spec_hex_char(v % 16))
    }
}

/// The canonical lowercase string form of a GUID:
/// `xxxxxxxx-xxxx-xxxx-xxxx-xxxxxxxxxxxx`.
pub open spec fn spec_guid_chars(g: GUID) -> Seq<char> {
    spec_hex_digits(g.data1 as nat, 8) + seq!['-'] + spec_hex_digits(g.data2 as nat, 4) + seq!['-']
        + spec_hex_digits(g.data3 as nat, 4) + seq!['-'] + spec_hex_digits(g.data4[0] as nat, 2)
        + spec_hex_digits(g.data4[1] as nat, 2) + seq!['-'] + spec_hex_digits(g.data4[2] as nat, 2)
        + spec_hex_digits(g.data4[3] as nat, 2) + spec_hex_digits(g.data4[4] as nat, 2)
        + spec_hex_digits(g.data4[5] as nat, 2) + spec_hex_digits(g.data4[6] as nat, 2)
        + spec_hex_digits(g.data4[7] as nat, 2)
}

/// `spec_hex_digits` yields exactly `n` characters.
pub proof fn lemma_hex_digits_len(v: nat, n: nat)
    ensures
        spec_hex_digits(v, n).len() == n,
    decreases n,
{
    if n > 0 {
        lemma_hex_digits_len(v / 16, (n - 1) as nat);
    }
}

/// The digit characters are lowercase hexadecimal digits and read back as the
/// value they were made from.
pub proof fn lemma_hex_char_props(d: nat)
    requires
        d < 16,
    ensures
        spec_is_hex_digit(spec_hex_char(d)),
        spec_hex_value(spec_hex_char(d)) == d,
{
    if d == 0 {
        assert(spec_hex_char(0) == '0');
    } else if d == 1 {
        assert(spec_hex_char(1) == '1');
    } else if d == 2 {
        assert(spec_hex_char(2) == '2');
    } else if d == 3 {
        assert(spec_hex_char(3) == '3');
    } else if d == 4 {
        assert(spec_hex_char(4) == '4');
    } else if d == 5 {
        assert(spec_hex_char(5) == '5');
    } else if d == 6 {
        assert(spec_hex_char(6) == '6');
    } else if d == 7 {
        assert(spec_hex_char(7) == '7');
    } else if d == 8 {
        assert(spec_hex_char(8) == '8');
    } else if d == 9 {
        assert(spec_hex_char(9) == '9');
    } else if d == 10 {
        assert(spec_hex_char(10) == 'a');
    } else if d == 11 {
        assert(spec_hex_char(11) == 'b');
    } else if d == 12 {
        assert(spec_hex_char(12) == 'c');
    } else if d == 13 {
        assert(spec_hex_char(13) == 'd');
    } else if d == 14 {
        assert(spec_hex_char(14) == 'e');
    } else {
        assert(spec_hex_char(15) == 'f');
    }
}

/// Every character `spec_hex_digits` yields is a hexadecimal digit.
pub proof fn lemma_hex_digits_are_hex(v: nat, n: nat)
    ensures
        forall|j: int|
            0 <= j < n ==> spec_is_hex_digit(#[trigger] spec_hex_digits(v, n)[j]),
    decreases n,
{
    if n > 0 {
        lemma_hex_digits_are_hex(v / 16, (n - 1) as nat);
        lemma_hex_digits_len(v / 16, (n - 1) as nat);
        lemma_hex_char_props(v % 16);
        assert forall|j: int| 0 <= j < n implies spec_is_hex_digit(
            #[trigger] spec_hex_digits(v, n)[j],
        ) by {
            if j < n - 1 {
                assert(spec_hex_digits(v, n)[j] == spec_hex_digits(v / 16, (n - 1) as nat)[j]);
            } else {
                assert(spec_hex_digits(v, n)[j] == spec_hex_char(v % 16));
            }
        }
    }
}

/// Reading the digits of a value recovers the value, as long as the value
/// fits the digit count.
pub proof fn lemma_hex_group_of_digits(v: nat, n: nat)
    requires
        v < spec_pow16(n),
    ensures
        spec_hex_group(spec_hex_digits(v, n)) == v,
    decreases n,
{
    if n == 0 {
    } else {
        vstd::arithmetic::div_mod::lemma_fundamental_div_mod(v as int, 16);
        assert(v / 16 < spec_pow16((n - 1) as nat)) by {
            if v / 16 >= spec_pow16((n - 1) as nat) {
                assert(v as int == 16 * (v as int / 16) + (v as int % 16));
                assert(v as int >= 16 * spec_pow16((n - 1) as nat));
            }
        }
        lemma_hex_group_of_digits(v / 16, (n - 1) as nat);
        lemma_hex_digits_len(v / 16, (n - 1) as nat);
        lemma_hex_char_props(v % 16);
        let d = spec_hex_digits(v, n);
        assert(d.drop_last() =~= spec_hex_digits(v / 16, (n - 1) as nat));
        assert(d.last() == spec_hex_char(v % 16));
    }
}

/// Law: GUID string round trip.  The canonical lowercase string of any GUID
/// is a valid GUID string, and parsing it back recovers exactly the GUID's
/// components — so `parse_guid_string` applied to `to_canonical_string`
/// returns `Ok` with the original components, and re-serializing a parsed
/// string reproduces it once its digits are lowercase.
#[verifier::rlimit(60)]
pub proof fn lemma_guid_string_round_trip(g: GUID)
    ensures
        spec_valid_guid_string(spec_guid_chars(g)),
        spec_hex_group(spec_guid_chars(g).subrange(0, 8)) == g.data1 as nat,
        spec_hex_group(spec_guid_chars(g).subrange(9, 13)) == g.data2 as nat,
        spec_hex_group(spec_guid_chars(g).subrange(14, 18)) == g.data3 as nat,
        spec_guid_data4(spec_guid_chars(g)) == g.data4@,
{
    let t = spec_guid_chars(g);
    let a1 = spec_hex_digits(g.data1 as nat, 8);
    let a2 = spec_hex_digits(g.data2 as nat, 4);
    let a3 = spec_hex_digits(g.data3 as nat, 4);
    let b0 = spec_hex_digits(g.data4[0] as nat, 2);
    let b1 = spec_hex_digits(g.data4[1] as nat, 2);
    let b2 = spec_hex_digits(g.data4[2] as nat, 2);
    let b3 = spec_hex_digits(g.data4[3] as nat, 2);
    let b4 = spec_hex_digits(g.data4[4] as nat, 2);
    let b5 = spec_hex_digits(g.data4[5] as nat, 2);
    let b6 = spec_hex_digits(g.data4[6] as nat, 2);
    let b7 = spec_hex_digits(g.data4[7] as nat, 2);
    lemma_hex_digits_len(g.data1 as nat, 8);
    lemma_hex_digits_len(g.data2 as nat, 4);
    lemma_hex_digits_len(g.data3 as nat, 4);
    lemma_hex_digits_len(g.data4[0] as nat, 2);
    lemma_hex_digits_len(g.data4[1] as nat, 2);
    lemma_hex_digits_len(g.data4[2] as nat, 2);
    lemma_hex_digits_len(g.data4[3] as nat, 2);
    lemma_hex_digits_len(g.data4[4] as nat, 2);
    lemma_hex_digits_len(g.data4[5] as nat, 2);
    lemma_hex_digits_len(g.data4[6] as nat, 2);
    lemma_hex_digits_len(g.data4[7] as nat, 2);
    assert(t.len() == 36);
    lemma_hex_digits_are_hex(g.data1 as nat, 8);
    lemma_hex_digits_are_hex(g.data2 as nat, 4);
    lemma_hex_digits_are_hex(g.data3 as nat, 4);
    lemma_hex_digits_are_hex(g.data4[0] as nat, 2);
    lemma_hex_digits_are_hex(g.data4[1] as nat, 2);
    lemma_hex_digits_are_hex(g.data4[2] as nat, 2);
    lemma_hex_digits_are_hex(g.data4[3] as nat, 2);
    lemma_hex_digits_are_hex(g.data4[4] as nat, 2);
    lemma_hex_digits_are_hex(g.data4[5] as nat, 2);
    lemma_hex_digits_are_hex(g.data4[6] as nat, 2);
    lemma_hex_digits_are_hex(g.data4[7] as nat, 2);
    assert forall|i: int| 0 <= i < 36 implies #[trigger] spec_position_ok(t, i) by {
        if i < 8 {
            assert(t[i] == a1[i]);
        } else if i == 8 {
            assert(t[i] == '-');
        } else if i < 13 {
            assert(t[i] == a2[i - 9]);
        } else if i == 13 {
            assert(t[i] == '-');
        } else if i < 18 {
            assert(t[i] == a3[i - 14]);
        } else if i == 18 {
            assert(t[i] == '-');
        } else if i < 21 {
            assert(t[i] == b0[i - 19]);
        } else if i < 23 {
            assert(t[i] == b1[i - 21]);
        } else if i == 23 {
            assert(t[i] == '-');
        } else if i < 26 {
            assert(t[i] == b2[i - 24]);
        } else if i < 28 {
            assert(t[i] == b3[i - 26]);
        } else if i < 30 {
            assert(t[i] == b4[i - 28]);
        } else if i < 32 {
            assert(t[i] == b5[i - 30]);
        } else if i < 34 {
            assert(t[i] == b6[i - 32]);
        } else {
            assert(t[i] == b7[i - 34]);
        }
    }
    lemma_pow16_values();
    assert(t.subrange(0, 8) =~= a1);
    lemma_hex_group_of_digits(g.data1 as nat, 8);
    assert(t.subrange(9, 13) =~= a2);
    lemma_hex_group_of_digits(g.data2 as nat, 4);
    assert(t.subrange(14, 18) =~= a3);
    lemma_hex_group_of_digits(g.data3 as nat, 4);
    lemma_hex_group_of_digits(g.data4[0] as nat, 2);
    lemma_hex_group_of_digits(g.data4[1] as nat, 2);
    lemma_hex_group_of_digits(g.data4[2] as nat, 2);
    lemma_hex_group_of_digits(g.data4[3] as nat, 2);
    lemma_hex_group_of_digits(g.data4[4] as nat, 2);
    lemma_hex_group_of_digits(g.data4[5] as nat, 2);
    lemma_hex_group_of_digits(g.data4[6] as nat, 2);
    lemma_hex_group_of_digits(g.data4[7] as nat, 2);
    lemma_byte_pair(g.data4[0] as nat, t, 19, b0);
    lemma_byte_pair(g.data4[1] as nat, t, 21, b1);
    lemma_byte_pair(g.data4[2] as nat, t, 24, b2);
    lemma_byte_pair(g.data4[3] as nat, t, 26, b3);
    lemma_byte_pair(g.data4[4] as nat, t, 28, b4);
    lemma_byte_pair(g.data4[5] as nat, t, 30, b5);
    lemma_byte_pair(g.data4[6] as nat, t, 32, b6);
    lemma_byte_pair(g.data4[7] as nat, t, 34, b7);
    assert(spec_guid_data4(t) =~= g.data4@) by {
        broadcast use vstd::array::group_array_axioms;

    }
}

/// The two digit characters of one byte read back as the byte.
proof fn lemma_byte_pair(v: nat, t: Seq<char>, p: int, d: Seq<char>)
    requires
        v < 256,
        d == spec_hex_digits(v, 2),
        0 <= p,
        p + 2 <= t.len(),
        t[p] == d[0],
        t[p + 1] == d[1],
    ensures
        spec_hex_value(t[p]) * 16 + spec_hex_value(t[p + 1]) == v,
{
    lemma_pow16_values();
    lemma_hex_digits_len(v, 2);
    lemma_hex_group_of_digits(v, 2);
    let d1 = spec_hex_digits(v / 16, 1);
    lemma_hex_digits_len(v / 16, 1);
    assert(d.drop_last() =~= d1);
    assert(d1.drop_last() =~= Seq::<char>::empty());
    assert(spec_hex_group(d) == (spec_hex_group(d1) * 16 + spec_hex_value(d.last())));
    assert(spec_hex_group(d1) == spec_hex_value(d1.last()));
    assert(d[0] == d1[0]);
    assert(d1.last() == d1[0]);
    assert(d.last() == d[1]);
}

/// Append one lowercase hexadecimal digit character.
fn append_hex_digit(s: &mut String, d: u8)
    requires
        d < 16,
    ensures
        final (s)@ == old(s)@.push(spec_hex_char(d as nat)),
{
    proof {
        reveal_strlit("0");
        reveal_strlit("1");
        reveal_strlit("2");
        reveal_strlit("3");
        reveal_strlit("4");
        reveal_strlit("5");
        reveal_strlit("6");
        reveal_strlit("7");
        reveal_strlit("8");
        reveal_strlit("9");
        reveal_strlit("a");
        reveal_strlit("b");
        reveal_strlit("c");
        reveal_strlit("d");
        reveal_strlit("e");
        reveal_strlit("f");
    }
    if d == 0 {
        s.append("0");
        proof {
            assert(final (s)@ =~= old(s)@.push(spec_hex_char(d as nat)));
        }
    } else if d == 1 {
        s.append("1");
        proof {
            assert(final (s)@ =~= old(s)@.push(spec_hex_char(d as nat)));
        }
    } else if d == 2 {
        s.append("2");
        proof {
            assert(final (s)@ =~= old(s)@.push(spec_hex_char(d as nat)));
        }
    } else if d == 3 {
        s.append("3");
        proof {
            assert(final (s)@ =~= old(s)@.push(spec_hex_char(d as nat)));
        }
    } else if d == 4 {
        s.append("4");
        proof {
            assert(final (s)@ =~= old(s)@.push(spec_hex_char(d as nat)));
        }
    } else if d == 5 {
        s.append("5");
        proof {
            assert(final (s)@ =~= old(s)@.push(spec_hex_char(d as nat)));
        }
    } else if d == 6 {
        s.append("6");
        proof {
            assert(final (s)@ =~= old(s)@.push(spec_hex_char(d as nat)));
        }
    } else if d == 7 {
        s.append("7");
        proof {
            assert(final (s)@ =~= old(s)@.push(spec_hex_char(d as nat)));
        }
    } else if d == 8 {
        s.append("8");
        proof {
            assert(final (s)@ =~= old(s)@.push(spec_hex_char(d as nat)));
        }
    } else if d == 9 {
        s.append("9");
        proof {
            assert(final (s)@ =~= old(s)@.push(spec_hex_char(d as nat)));
        }
    } else if d == 10 {
        s.append("a");
        proof {
            assert(final (s)@ =~= old(s)@.push(spec_hex_char(d as nat)));
        }
    } else if d == 11 {
        s.append("b");
        proof {
            assert(final (s)@ =~= old(s)@.push(spec_hex_char(d as nat)));
        }
    } else if d == 12 {
        s.append("c");
        proof {
            assert(final (s)@ =~= old(s)@.push(spec_hex_char(d as nat)));
        }
    } else if d == 13 {
        s.append("d");
        proof {
            assert(final (s)@ =~= old(s)@.push(spec_hex_char(d as nat)));
        }
    } else if d == 14 {
        s.append("e");
        proof {
            assert(final (s)@ =~= old(s)@.push(spec_hex_char(d as nat)));
        }
    } else {
        s.append("f");
        proof {
            assert(final (s)@ =~= old(s)@.push(spec_hex_char(d as nat)));
        }
    }
}

/// Append the `n` lowercase hexadecimal digits of `v`, most significant
/// first.
fn append_hex(s: &mut String, v: u64, n: usize)
    requires
        n <= 8,
    ensures
        final (s)@ == old(s)@ + spec_hex_digits(v as nat, n as nat),
    decreases n,
{
    if n == 0 {
        proof {
            assert(old(s)@ + spec_hex_digits(v as nat, 0) =~= old(s)@);
        }
    } else {
        append_hex(s, v / 16, n - 1);
        append_hex_digit(s, (v % 16) as u8);
        proof {
            assert((old(s)@ + spec_hex_digits((v / 16) as nat, (n - 1) as nat)).push(
                spec_hex_char((v % 16) as nat),
            ) =~= old(s)@ + spec_hex_digits(v as nat, n as nat));
        }
    }
}

/// Append one hyphen.
fn append_hyphen(s: &mut String)
    ensures
        final (s)@ == old(s)@.push('-'),
{
    proof {
        reveal_strlit("-");
    }
    s.append("-");
    proof {
        assert(final (s)@ =~= old(s)@.push('-'));
    }
}

impl GUID {
    /// The canonical lowercase hyphenated string of this GUID, the form
    /// `parse_guid_string` reads back.
    pub fn to_canonical_string(&self) -> (s: String)
        ensures
            s@ == spec_guid_chars(*self),
    {
        let mut s = String::new();
        append_hex(&mut s, self.data1 as u64, 8);
        append_hyphen(&mut s);
        append_hex(&mut s, self.data2 as u64, 4);
        append_hyphen(&mut s);
        append_hex(&mut s, self.data3 as u64, 4);
        append_hyphen(&mut s);
        append_hex(&mut s, self.data4[0] as u64, 2);
        append_hex(&mut s, self.data4[1] as u64, 2);
        append_hyphen(&mut s);
        append_hex(&mut s, self.data4[2] as u64, 2);
        append_hex(&mut s, self.data4[3] as u64, 2);
        append_hex(&mut s, self.data4[4] as u64, 2);
        append_hex(&mut s, self.data4[5] as u64, 2);
        append_hex(&mut s, self.data4[6] as u64, 2);
        append_hex(&mut s, self.data4[7] as u64, 2);
        proof {
            assert(s@ =~= spec_guid_chars(*self));
        }
        s
    }
}

/// One byte from two hex digits at `chars[p]`, `chars[p + 1]`.
fn hex_byte(chars: &Vec<char>, p: usize) -> (r: u8)
    requires
        p + 2 <= chars@.len(),
        spec_is_hex_digit(chars@[p as int]),
        spec_is_hex_digit(chars@[p as int + 1]),
    ensures
        r as nat == spec_hex_value(chars@[p as int]) * 16 + spec_hex_value(chars@[p as int + 1]),
{
    let n = chars.len();
    let hi = hex_value(chars[p]);
    let lo = hex_value(chars[p + 1]);
    hi * 16 + lo
}

} // verus!
