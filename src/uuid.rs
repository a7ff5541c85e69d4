use vstd::prelude::*;

verus! {

broadcast use vstd::array::group_array_axioms;

/// A 128-bit identifier, held as the four fields of its textual layout
/// `data1-data2-data3-data4[0..2]-data4[2..8]`.
#[derive(Eq, Hash, Clone, Copy, Debug)]
pub struct Uuid {
    pub data1: u32,
    pub data2: u16,
    pub data3: u16,
    pub data4: [u8; 8],
}

impl PartialEq for Uuid {
    fn eq(&self, other: &Uuid) -> (r: bool) {
        let mut i: usize = 0;
        let mut same = self.data1 == other.data1 && self.data2 == other.data2 && self.data3
            == other.data3;
        while i < 8
            invariant
                i <= 8,
                same == (self.data1 == other.data1 && self.data2 == other.data2 && self.data3
                    == other.data3 && forall|j: int| 0 <= j < i ==> self.data4@[j] == other.data4@[j]),
            decreases 8 - i,
        {
            same = same && self.data4[i] == other.data4[i];
            i = i + 1;
        }
        proof {
            if same {
                assert(forall|j: int| 0 <= j < 8 ==> self.data4[j] == other.data4[j]);
                assert(self.data4 =~= other.data4);
            }
        }
        same
    }
}

impl vstd::std_specs::cmp::PartialEqSpecImpl for Uuid {
    open spec fn obeys_eq_spec() -> bool {
        true
    }

    open spec fn eq_spec(&self, other: &Uuid) -> bool {
        *self == *other
    }
}

/// The eight bytes of `data4` read as a big-endian integer.
pub open spec fn be_u64_of(b: Seq<u8>) -> u64 {
    ((b[0] as u64) << 56u64) | ((b[1] as u64) << 48u64) | ((b[2] as u64) << 40u64) | ((b[3] as u64)
        << 32u64) | ((b[4] as u64) << 24u64) | ((b[5] as u64) << 16u64) | ((b[6] as u64) << 8u64)
        | (b[7] as u64)
}

/// The 128-bit value whose bits 96.., 80.., 64.. and 0.. hold the four fields.
pub open spec fn u128_of_fields(d1: u32, d2: u16, d3: u16, d4: u64) -> u128 {
    ((d1 as u128) << 96u128) | ((d2 as u128) << 80u128) | ((d3 as u128) << 64u128) | (d4 as u128)
}

impl Uuid {
    /// The identifier as one 128-bit integer.
    pub open spec fn value(&self) -> u128 {
        u128_of_fields(self.data1, self.data2, self.data3, be_u64_of(self.data4@))
    }

    pub open spec fn is_nil(&self) -> bool {
        self.value() == 0
    }

    /// The identifier whose 128-bit value is `n`, field by field.
    pub open spec fn spec_from_u128(n: u128) -> Uuid {
        Uuid {
            data1: (n >> 96u128) as u32,
            data2: (n >> 80u128) as u16,
            data3: (n >> 64u128) as u16,
            data4: [
                (n >> 56u128) as u8,
                (n >> 48u128) as u8,
                (n >> 40u128) as u8,
                (n >> 32u128) as u8,
                (n >> 24u128) as u8,
                (n >> 16u128) as u8,
                (n >> 8u128) as u8,
                n as u8,
            ],
        }
    }

    pub fn from_u128(uuid_as_u128: u128) -> (r: Uuid)
        ensures
            r == Uuid::spec_from_u128(uuid_as_u128),
            r.value() == uuid_as_u128,
    {
        let n = uuid_as_u128;
        proof {
            lemma_u128_round_trip(n);
        }
        Uuid {
            data1: (n >> 96u128) as u32,
            data2: (n >> 80u128) as u16,
            data3: (n >> 64u128) as u16,
            data4: [
                (n >> 56u128) as u8,
                (n >> 48u128) as u8,
                (n >> 40u128) as u8,
                (n >> 32u128) as u8,
                (n >> 24u128) as u8,
                (n >> 16u128) as u8,
                (n >> 8u128) as u8,
                n as u8,
            ],
        }
    }

    pub fn as_u128(&self) -> (r: u128)
        ensures
            r == self.value(),
    {
        let b = self.data4;
        let tail: u64 = ((b[0] as u64) << 56u64) | ((b[1] as u64) << 48u64) | ((b[2] as u64)
            << 40u64) | ((b[3] as u64) << 32u64) | ((b[4] as u64) << 24u64) | ((b[5] as u64)
            << 16u64) | ((b[6] as u64) << 8u64) | (b[7] as u64);
        ((self.data1 as u128) << 96u128) | ((self.data2 as u128) << 80u128) | ((self.data3 as u128)
            << 64u128) | (tail as u128)
    }

    /// Whether this is the nil identifier, all 128 bits zero.
    pub fn is_nil_uuid(&self) -> (r: bool)
        ensures
            r == self.is_nil(),
    {
        self.as_u128() == 0
    }
}

/// Splitting a 128-bit integer into the four fields and merging them again
/// gives back the same integer.
pub proof fn lemma_u128_round_trip(n: u128)
    ensures
        Uuid::spec_from_u128(n).value() == n,
{
    let u = Uuid::spec_from_u128(n);
    let b0 = (n >> 56u128) as u8;
    let b1 = (n >> 48u128) as u8;
    let b2 = (n >> 40u128) as u8;
    let b3 = (n >> 32u128) as u8;
    let b4 = (n >> 24u128) as u8;
    let b5 = (n >> 16u128) as u8;
    let b6 = (n >> 8u128) as u8;
    let b7 = n as u8;
    assert(u.data4@ == seq![b0, b1, b2, b3, b4, b5, b6, b7]);
    let d1 = (n >> 96u128) as u32;
    let d2 = (n >> 80u128) as u16;
    let d3 = (n >> 64u128) as u16;
    let tail = ((b0 as u64) << 56u64) | ((b1 as u64) << 48u64) | ((b2 as u64) << 40u64) | ((
    b3 as u64) << 32u64) | ((b4 as u64) << 24u64) | ((b5 as u64) << 16u64) | ((b6 as u64) << 8u64)
        | (b7 as u64);
    assert(tail == n as u64) by (bit_vector)
        requires
            b0 == (n >> 56u128) as u8,
            b1 == (n >> 48u128) as u8,
            b2 == (n >> 40u128) as u8,
            b3 == (n >> 32u128) as u8,
            b4 == (n >> 24u128) as u8,
            b5 == (n >> 16u128) as u8,
            b6 == (n >> 8u128) as u8,
            b7 == n as u8,
            tail == ((b0 as u64) << 56u64) | ((b1 as u64) << 48u64) | ((b2 as u64) << 40u64) | ((
            b3 as u64) << 32u64) | ((b4 as u64) << 24u64) | ((b5 as u64) << 16u64) | ((b6 as u64)
                << 8u64) | (b7 as u64),
    ;
    assert(u128_of_fields(d1, d2, d3, n as u64) == n) by (bit_vector)
        requires
            d1 == (n >> 96u128) as u32,
            d2 == (n >> 80u128) as u16,
            d3 == (n >> 64u128) as u16,
    ;
}

/// The error returned when text is not a UUID in canonical form.
#[derive(Debug, PartialEq, Eq, Structural)]
pub struct ParseUuidError;

/// The lower-case hexadecimal digit for `d`.
pub open spec fn hex_char(d: nat) -> char {
    seq!['0', '1', '2', '3', '4', '5', '6', '7', '8', '9', 'a', 'b', 'c', 'd', 'e', 'f'][d as int]
}

/// A hexadecimal digit of either case.
pub open spec fn is_hex_digit(c: char) -> bool {
    (0x30 <= c as u32 <= 0x39) || (0x61 <= c as u32 <= 0x66) || (0x41 <= c as u32 <= 0x46)
}

pub open spec fn digit_value(c: char) -> nat {
    if 0x30 <= c as u32 <= 0x39 {
        (c as u32 - 0x30) as nat
    } else if 0x61 <= c as u32 <= 0x66 {
        (c as u32 - 0x61 + 10) as nat
    } else {
        (c as u32 - 0x41 + 10) as nat
    }
}

/// The `n` lowest hexadecimal digits of `v`, most significant first.
pub open spec fn hex_digits(v: nat, n: nat) -> Seq<char>
    decreases n,
{
    if n == 0 {
        seq![]
    } else {
        hex_digits(v / 16, (n - 1) as nat).push(hex_char(v % 16))
    }
}

/// The number that a run of hexadecimal digits denotes.
pub open spec fn hex_value(t: Seq<char>) -> nat
    decreases t.len(),
{
    if t.len() == 0 {
        0
    } else {
        hex_value(t.drop_last()) * 16 + digit_value(t.last())
    }
}

pub open spec fn pow16(n: nat) -> nat
    decreases n,
{
    if n == 0 {
        1
    } else {
        16 * pow16((n - 1) as nat)
    }
}

/// The canonical text of a UUID: lower-case digits in groups of 8-4-4-4-12.
pub open spec fn uuid_text(u: Uuid) -> Seq<char> {
    hex_digits(u.data1 as nat, 8) + seq!['-'] + hex_digits(u.data2 as nat, 4) + seq!['-']
        + hex_digits(u.data3 as nat, 4) + seq!['-'] + hex_digits(u.data4[0] as nat, 2)
        + hex_digits(u.data4[1] as nat, 2) + seq!['-'] + hex_digits(u.data4[2] as nat, 2)
        + hex_digits(u.data4[3] as nat, 2) + hex_digits(u.data4[4] as nat, 2) + hex_digits(
        u.data4[5] as nat,
        2,
    ) + hex_digits(u.data4[6] as nat, 2) + hex_digits(u.data4[7] as nat, 2)
}

pub open spec fn is_hyphen_position(i: int) -> bool {
    i == 8 || i == 13 || i == 18 || i == 23
}

/// Text in the 8-4-4-4-12 layout: hyphens at the four group boundaries and a
/// hexadecimal digit everywhere else.
pub open spec fn is_uuid_text(t: Seq<char>) -> bool {
    &&& t.len() == 36
    &&& forall|i: int|
        0 <= i < 36 ==> if is_hyphen_position(i) {
            t[i] == '-'
        } else {
            is_hex_digit(#[trigger] t[i])
        }
}

pub open spec fn text_field(t: Seq<char>, from: int, to: int) -> nat {
    hex_value(t.subrange(from, to))
}

/// The UUID that text in the 8-4-4-4-12 layout denotes.
pub open spec fn uuid_of_text(t: Seq<char>) -> Uuid {
    Uuid {
        data1: text_field(t, 0, 8) as u32,
        data2: text_field(t, 9, 13) as u16,
        data3: text_field(t, 14, 18) as u16,
        data4: [
            text_field(t, 19, 21) as u8,
            text_field(t, 21, 23) as u8,
            text_field(t, 24, 26) as u8,
            text_field(t, 26, 28) as u8,
            text_field(t, 28, 30) as u8,
            text_field(t, 30, 32) as u8,
            text_field(t, 32, 34) as u8,
            text_field(t, 34, 36) as u8,
        ],
    }
}

/// The text inside optional enclosing braces; `None` when an opening brace
/// has no closing one.
pub open spec fn braces_stripped(s: Seq<char>) -> Option<Seq<char>> {
    if s.len() > 0 && s[0] == '{' {
        if s.len() >= 2 && s.last() == '}' {
            Some(s.subrange(1, s.len() - 1))
        } else {
            None
        }
    } else {
        Some(s)
    }
}

/// What parsing `s` gives: the UUID it denotes, or `None` when it is not
/// UUID text, braced or not.
pub open spec fn parse_uuid(s: Seq<char>) -> Option<Uuid> {
    match braces_stripped(s) {
        Some(t) => if is_uuid_text(t) {
            Some(uuid_of_text(t))
        } else {
            None
        },
        None => None,
    }
}

/// Relies on `String::push`: appends one character.
#[verifier::external_body]
pub(crate) fn push_char(out: &mut String, c: char)
    ensures
        final(out)@ == old(out)@.push(c),
{
    out.push(c)
}

fn hex_char_of(d: u32) -> (c: char)
    requires
        d < 16,
    ensures
        c == hex_char(d as nat),
{
    let digits: [char; 16] = ['0', '1', '2', '3', '4', '5', '6', '7', '8', '9', 'a', 'b', 'c', 'd', 'e', 'f'];
    assert(digits@ =~= seq!['0', '1', '2', '3', '4', '5', '6', '7', '8', '9', 'a', 'b', 'c', 'd', 'e', 'f']);
    digits[d as usize]
}

fn push_hex(out: &mut String, v: u32, n: usize)
    requires
        n <= 8,
    ensures
        final(out)@ == old(out)@ + hex_digits(v as nat, n as nat),
    decreases n,
{
    if n > 0 {
        push_hex(out, v / 16, n - 1);
        push_char(out, hex_char_of(v % 16));
        assert(final(out)@ =~= old(out)@ + hex_digits(v as nat, n as nat));
    } else {
        assert(final(out)@ =~= old(out)@ + hex_digits(v as nat, n as nat));
    }
}

fn hex_digit_value(c: char) -> (r: Option<u32>)
    ensures
        r == (if is_hex_digit(c) {
            Some(digit_value(c) as u32)
        } else {
            None
        }),
{
    let x = c as u32;
    if 0x30 <= x && x <= 0x39 {
        Some(x - 0x30)
    } else if 0x61 <= x && x <= 0x66 {
        Some(x - 0x61 + 10)
    } else if 0x41 <= x && x <= 0x46 {
        Some(x - 0x41 + 10)
    } else {
        None
    }
}

proof fn lemma_hex_value_bound(t: Seq<char>)
    requires
        forall|i: int| 0 <= i < t.len() ==> is_hex_digit(#[trigger] t[i]),
    ensures
        hex_value(t) < pow16(t.len()),
    decreases t.len(),
{
    if t.len() > 0 {
        let p = t.drop_last();
        assert(forall|i: int| 0 <= i < p.len() ==> p[i] == t[i]);
        lemma_hex_value_bound(p);
        assert(is_hex_digit(t[t.len() - 1]));
        let a = hex_value(p);
        let b = pow16(p.len());
        assert(a * 16 + digit_value(t.last()) < 16 * b) by (nonlinear_arith)
            requires
                a < b,
                digit_value(t.last()) < 16,
        ;
    }
}

/// Reads the `n` hexadecimal digits of `s` that start at character `from`.
fn hex_field(s: &str, from: usize, n: usize) -> (r: Option<u32>)
    requires
        from + n <= s@.len() <= usize::MAX,
        n <= 8,
    ensures
        r is Some <==> forall|i: int| from <= i < from + n ==> is_hex_digit(#[trigger] s@[i]),
        r is Some ==> r->0 as nat == hex_value(s@.subrange(from as int, from + n)),
        r is Some ==> (r->0 as nat) < pow16(n as nat),
{
    let mut acc: u64 = 0;
    let mut i: usize = 0;
    while i < n
        invariant
            i <= n <= 8,
            from + n <= s@.len() <= usize::MAX,
            forall|j: int| from <= j < from + i ==> is_hex_digit(#[trigger] s@[j]),
            acc as nat == hex_value(s@.subrange(from as int, from + i)),
            acc < pow16(i as nat),
        decreases n - i,
    {
        let c = s.get_char(from + i);
        match hex_digit_value(c) {
            Some(d) => {
                let ghost prev = s@.subrange(from as int, from + i);
                assert(s@.subrange(from as int, from + i + 1).drop_last() =~= prev);
                proof {
                    lemma_pow16_eight();
                    lemma_pow16_mono(i as nat, 8);
                }
                assert(acc * 16 + d < 16 * pow16(i as nat)) by (nonlinear_arith)
                    requires
                        acc < pow16(i as nat),
                        d < 16,
                ;
                acc = acc * 16 + d as u64;
                i = i + 1;
            },
            None => {
                return None;
            },
        }
    }
    proof {
        lemma_pow16_eight();
        lemma_pow16_mono(n as nat, 8);
    }
    Some(acc as u32)
}

proof fn lemma_pow16_eight()
    ensures
        pow16(2) == 0x100,
        pow16(4) == 0x1_0000,
        pow16(8) == 0x1_0000_0000,
{
    reveal_with_fuel(pow16, 9);
}

proof fn lemma_pow16_mono(a: nat, b: nat)
    requires
        a <= b,
    ensures
        pow16(a) <= pow16(b),
    decreases b,
{
    if a < b {
        lemma_pow16_mono(a, (b - 1) as nat);
    }
}

proof fn lemma_hex_digits(v: nat, n: nat)
    ensures
        hex_digits(v, n).len() == n,
        forall|i: int| 0 <= i < n ==> is_hex_digit(#[trigger] hex_digits(v, n)[i]),
        v < pow16(n) ==> hex_value(hex_digits(v, n)) == v,
    decreases n,
{
    if n > 0 {
        let m = (n - 1) as nat;
        lemma_hex_digits(v / 16, m);
        let d = v % 16;
        let h = seq!['0', '1', '2', '3', '4', '5', '6', '7', '8', '9', 'a', 'b', 'c', 'd', 'e', 'f'];
        assert(h[0] as u32 == 0x30 && h[1] as u32 == 0x31 && h[2] as u32 == 0x32 && h[3] as u32
            == 0x33 && h[4] as u32 == 0x34 && h[5] as u32 == 0x35 && h[6] as u32 == 0x36 && h[7] as u32
            == 0x37 && h[8] as u32 == 0x38 && h[9] as u32 == 0x39 && h[10] as u32 == 0x61
            && h[11] as u32 == 0x62 && h[12] as u32 == 0x63 && h[13] as u32 == 0x64 && h[14] as u32
            == 0x65 && h[15] as u32 == 0x66);
        assert(is_hex_digit(hex_char(d)) && digit_value(hex_char(d)) == d);
        let t = hex_digits(v, n);
        assert(t.drop_last() =~= hex_digits(v / 16, m));
        if v < pow16(n) {
            assert(v / 16 < pow16(m)) by (nonlinear_arith)
                requires
                    v < 16 * pow16(m),
            ;
            assert((v / 16) * 16 + v % 16 == v) by (nonlinear_arith);
        }
    }
}

/// The text of a UUID parses back to the same UUID.
pub proof fn lemma_text_round_trip(u: Uuid)
    ensures
        parse_uuid(uuid_text(u)) == Some(u),
{
    lemma_pow16_eight();
    let g0 = hex_digits(u.data1 as nat, 8);
    let g1 = hex_digits(u.data2 as nat, 4);
    let g2 = hex_digits(u.data3 as nat, 4);
    let b0 = hex_digits(u.data4[0] as nat, 2);
    let b1 = hex_digits(u.data4[1] as nat, 2);
    let b2 = hex_digits(u.data4[2] as nat, 2);
    let b3 = hex_digits(u.data4[3] as nat, 2);
    let b4 = hex_digits(u.data4[4] as nat, 2);
    let b5 = hex_digits(u.data4[5] as nat, 2);
    let b6 = hex_digits(u.data4[6] as nat, 2);
    let b7 = hex_digits(u.data4[7] as nat, 2);
    lemma_hex_digits(u.data1 as nat, 8);
    lemma_hex_digits(u.data2 as nat, 4);
    lemma_hex_digits(u.data3 as nat, 4);
    lemma_hex_digits(u.data4[0] as nat, 2);
    lemma_hex_digits(u.data4[1] as nat, 2);
    lemma_hex_digits(u.data4[2] as nat, 2);
    lemma_hex_digits(u.data4[3] as nat, 2);
    lemma_hex_digits(u.data4[4] as nat, 2);
    lemma_hex_digits(u.data4[5] as nat, 2);
    lemma_hex_digits(u.data4[6] as nat, 2);
    lemma_hex_digits(u.data4[7] as nat, 2);
    let t = uuid_text(u);
    assert(t.len() == 36);
    assert(t.subrange(0, 8) =~= g0);
    assert(t.subrange(9, 13) =~= g1);
    assert(t.subrange(14, 18) =~= g2);
    assert(t.subrange(19, 21) =~= b0);
    assert(t.subrange(21, 23) =~= b1);
    assert(t.subrange(24, 26) =~= b2);
    assert(t.subrange(26, 28) =~= b3);
    assert(t.subrange(28, 30) =~= b4);
    assert(t.subrange(30, 32) =~= b5);
    assert(t.subrange(32, 34) =~= b6);
    assert(t.subrange(34, 36) =~= b7);
    assert(t[8] == '-' && t[13] == '-' && t[18] == '-' && t[23] == '-');
    assert forall|i: int| 0 <= i < 36 && !is_hyphen_position(i) implies is_hex_digit(t[i]) by {
        if i < 8 {
            assert(t[i] == t.subrange(0, 8)[i]);
        } else if i < 13 {
            assert(t[i] == t.subrange(9, 13)[i - 9]);
        } else if i < 18 {
            assert(t[i] == t.subrange(14, 18)[i - 14]);
        } else if i < 21 {
            assert(t[i] == t.subrange(19, 21)[i - 19]);
        } else if i < 23 {
            assert(t[i] == t.subrange(21, 23)[i - 21]);
        } else if i < 26 {
            assert(t[i] == t.subrange(24, 26)[i - 24]);
        } else if i < 28 {
            assert(t[i] == t.subrange(26, 28)[i - 26]);
        } else if i < 30 {
            assert(t[i] == t.subrange(28, 30)[i - 28]);
        } else if i < 32 {
            assert(t[i] == t.subrange(30, 32)[i - 30]);
        } else if i < 34 {
            assert(t[i] == t.subrange(32, 34)[i - 32]);
        } else {
            assert(t[i] == t.subrange(34, 36)[i - 34]);
        }
    }
    assert(is_uuid_text(t));
    assert(t[0] != '{');
    assert(braces_stripped(t) == Some(t));
    assert(uuid_of_text(t).data4 =~= u.data4);
}

/// Enclosing text in braces does not change what it parses to, for text
/// that does not itself open with a brace.
pub proof fn lemma_braced_parse(t: Seq<char>)
    requires
        t.len() == 0 || t[0] != '{',
    ensures
        parse_uuid(seq!['{'] + t + seq!['}']) == parse_uuid(t),
{
    let b = seq!['{'] + t + seq!['}'];
    assert(b.subrange(1, b.len() - 1) =~= t);
}

/// The nil identifier is the one made from the integer zero.
pub proof fn lemma_nil_iff_zero(n: u128)
    ensures
        Uuid::spec_from_u128(n).is_nil() <==> n == 0,
{
    lemma_u128_round_trip(n);
}

/// Text is rejected when it is empty, a lone brace or empty braces, when a
/// character follows a complete UUID, when a digit is replaced by a
/// non-digit, and when a hyphen is replaced or removed.
pub proof fn lemma_parse_rejections(t: Seq<char>, i: int, c: char)
    ensures
        parse_uuid(seq![]) is None,
        parse_uuid(seq!['{']) is None,
        parse_uuid(seq!['{', '}']) is None,
        is_uuid_text(t) ==> parse_uuid(t.push(c)) is None,
        is_uuid_text(t) && 0 <= i < 36 && !is_hyphen_position(i) && !is_hex_digit(c) ==> parse_uuid(
            t.update(i, c),
        ) is None,
        is_uuid_text(t) && is_hyphen_position(i) && c != '-' ==> parse_uuid(t.update(i, c)) is None,
        is_uuid_text(t) && is_hyphen_position(i) ==> parse_uuid(t.remove(i)) is None,
{
    assert(seq!['{', '}'].subrange(1, 1).len() == 0);
    if is_uuid_text(t) {
        assert(is_hex_digit(t[0]));
        assert(is_hex_digit(t[35]));
        assert(t.push(c)[0] == t[0]);
        if 0 <= i < 36 && !is_hyphen_position(i) && !is_hex_digit(c) {
            let w = t.update(i, c);
            if i != 0 {
                assert(w[0] == t[0]);
                assert(braces_stripped(w) == Some(w));
                assert(!is_hex_digit(w[i]));
            } else {
                assert(w[35] == t[35]);
            }
        }
        if is_hyphen_position(i) && c != '-' {
            let w = t.update(i, c);
            assert(w[0] == t[0]);
            assert(braces_stripped(w) == Some(w));
            assert(w[i] != '-');
        }
        if is_hyphen_position(i) {
            assert(t.remove(i)[0] == t[0]);
        }
    }
}

impl Uuid {
    /// The canonical text: lower-case digits in groups of 8-4-4-4-12.
    pub fn to_string(&self) -> (r: String)
        ensures
            r@ == uuid_text(*self),
    {
        let mut out = String::new();
        push_hex(&mut out, self.data1, 8);
        push_char(&mut out, '-');
        push_hex(&mut out, self.data2 as u32, 4);
        push_char(&mut out, '-');
        push_hex(&mut out, self.data3 as u32, 4);
        push_char(&mut out, '-');
        push_hex(&mut out, self.data4[0] as u32, 2);
        push_hex(&mut out, self.data4[1] as u32, 2);
        push_char(&mut out, '-');
        let mut i: usize = 2;
        while i < 8
            invariant
                2 <= i <= 8,
                out@ == hex_digits(self.data1 as nat, 8) + seq!['-'] + hex_digits(
                    self.data2 as nat,
                    4,
                ) + seq!['-'] + hex_digits(self.data3 as nat, 4) + seq!['-'] + hex_digits(
                    self.data4[0] as nat,
                    2,
                ) + hex_digits(self.data4[1] as nat, 2) + seq!['-'] + tail_digits(self.data4@, i as int),
            decreases 8 - i,
        {
            push_hex(&mut out, self.data4[i] as u32, 2);
            i = i + 1;
        }
        assert(out@ =~= uuid_text(*self)) by {
            reveal_with_fuel(tail_digits, 7);
        }
        out
    }

    /// Parses text in the 8-4-4-4-12 layout, with or without enclosing
    /// braces; digits may be of either case.
    pub fn from_str(s: &str) -> (r: Result<Uuid, ParseUuidError>)
        ensures
            match r {
                Ok(u) => parse_uuid(s@) == Some(u),
                Err(_) => parse_uuid(s@) is None,
            },
    {
        let len = s.unicode_len();
        let mut start: usize = 0;
        let mut end: usize = len;
        if len > 0 && s.get_char(0) == '{' {
            if len < 2 || s.get_char(len - 1) != '}' {
                return Err(ParseUuidError);
            }
            start = 1;
            end = len - 1;
        }
        let ghost t = s@.subrange(start as int, end as int);
        assert(braces_stripped(s@) == Some(t)) by {
            if start == 0 {
                assert(t =~= s@);
            }
        }
        if end - start != 36 {
            return Err(ParseUuidError);
        }
        let mut i: usize = 0;
        while i < 36
            invariant
                i <= 36,
                end == start + 36,
                end <= s@.len() == len,
                t == s@.subrange(start as int, end as int),
                braces_stripped(s@) == Some(t),
                forall|j: int|
                    0 <= j < i ==> if is_hyphen_position(j) {
                        t[j] == '-'
                    } else {
                        is_hex_digit(#[trigger] t[j])
                    },
            decreases 36 - i,
        {
            let c = s.get_char(start + i);
            assert(t[i as int] == c);
            if i == 8 || i == 13 || i == 18 || i == 23 {
                if c != '-' {
                    return Err(ParseUuidError);
                }
            } else {
                if hex_digit_value(c).is_none() {
                    return Err(ParseUuidError);
                }
            }
            i = i + 1;
        }
        assert(is_uuid_text(t));
        let ghost sv = s@;
        proof {
            lemma_digit_group(sv, start as int, 0, 8);
            lemma_digit_group(sv, start as int, 9, 13);
            lemma_digit_group(sv, start as int, 14, 18);
            lemma_digit_group(sv, start as int, 19, 23);
            lemma_digit_group(sv, start as int, 24, 36);
        }
        let data1 = match hex_field(s, start, 8) {
            Some(v) => v,
            None => return Err(ParseUuidError),
        };
        let data2 = match hex_field(s, start + 9, 4) {
            Some(v) => v,
            None => return Err(ParseUuidError),
        };
        let data3 = match hex_field(s, start + 14, 4) {
            Some(v) => v,
            None => return Err(ParseUuidError),
        };
        proof {
            lemma_pow16_eight();
        }
        let mut data4: [u8; 8] = [0u8; 8];
        let mut k: usize = 0;
        while k < 8
            invariant
                k <= 8,
                end == start + 36,
                end <= s@.len() == len,
                t == s@.subrange(start as int, end as int),
                forall|j: int| start + 19 <= j < start + 23 ==> is_hex_digit(#[trigger] s@[j]),
                forall|j: int| start + 24 <= j < start + 36 ==> is_hex_digit(#[trigger] s@[j]),
                forall|j: int|
                    0 <= j < k ==> data4[j] as nat == text_field(t, byte_offset(j), byte_offset(j) + 2),
                pow16(2) == 0x100,
            decreases 8 - k,
        {
            let from: usize = if k < 2 {
                start + 19 + 2 * k
            } else {
                start + 20 + 2 * k
            };
            let b = match hex_field(s, from, 2) {
                Some(v) => v,
                None => return Err(ParseUuidError),
            };
            assert(t.subrange(byte_offset(k as int), byte_offset(k as int) + 2) =~= s@.subrange(
                from as int,
                from + 2,
            ));
            data4[k] = b as u8;
            k = k + 1;
        }
        assert(t.subrange(0, 8) =~= s@.subrange(start as int, start + 8));
        assert(t.subrange(9, 13) =~= s@.subrange(start + 9, start + 13));
        assert(t.subrange(14, 18) =~= s@.subrange(start + 14, start + 18));
        let u = Uuid { data1, data2: data2 as u16, data3: data3 as u16, data4 };
        assert(u.data4 =~= uuid_of_text(t).data4);
        Ok(u)
    }
}

/// Where the `j`-th byte of `data4` starts in the text.
pub open spec fn byte_offset(j: int) -> int {
    if j < 2 {
        19 + 2 * j
    } else {
        20 + 2 * j
    }
}

/// The digits of `data4[from..8]`, two per byte.
pub open spec fn tail_digits(d: Seq<u8>, from: int) -> Seq<char>
    decreases from,
{
    if from <= 2 {
        seq![]
    } else {
        tail_digits(d, from - 1) + hex_digits(d[from - 1] as nat, 2)
    }
}

proof fn lemma_digit_group(s: Seq<char>, start: int, a: int, b: int)
    requires
        0 <= start,
        start + 36 <= s.len(),
        is_uuid_text(s.subrange(start, start + 36)),
        0 <= a <= b <= 36,
        forall|i: int| a <= i < b ==> !is_hyphen_position(i),
    ensures
        forall|j: int| start + a <= j < start + b ==> is_hex_digit(#[trigger] s[j]),
{
    let t = s.subrange(start, start + 36);
    assert forall|j: int| start + a <= j < start + b implies is_hex_digit(#[trigger] s[j]) by {
        assert(t[j - start] == s[j]);
    }
}

/// The native GUID layout of windows-sys: four public fields, matching
/// those of `Uuid` one for one.
#[verifier::external_type_specification]
pub struct ExGuid(windows_sys::core::GUID);

impl From<windows_sys::core::GUID> for Uuid {
    fn from(value: windows_sys::core::GUID) -> (r: Uuid) {
        Uuid { data1: value.data1, data2: value.data2, data3: value.data3, data4: value.data4 }
    }
}

impl vstd::std_specs::convert::FromSpecImpl<windows_sys::core::GUID> for Uuid {
    open spec fn obeys_from_spec() -> bool {
        true
    }

    open spec fn from_spec(value: windows_sys::core::GUID) -> Uuid {
        Uuid { data1: value.data1, data2: value.data2, data3: value.data3, data4: value.data4 }
    }
}

impl From<Uuid> for windows_sys::core::GUID {
    fn from(value: Uuid) -> (r: windows_sys::core::GUID) {
        windows_sys::core::GUID {
            data1: value.data1,
            data2: value.data2,
            data3: value.data3,
            data4: value.data4,
        }
    }
}

impl vstd::std_specs::convert::FromSpecImpl<Uuid> for windows_sys::core::GUID {
    open spec fn obeys_from_spec() -> bool {
        true
    }

    open spec fn from_spec(value: Uuid) -> windows_sys::core::GUID {
        windows_sys::core::GUID {
            data1: value.data1,
            data2: value.data2,
            data3: value.data3,
            data4: value.data4,
        }
    }
}

impl std::str::FromStr for Uuid {
    type Err = ParseUuidError;

    fn from_str(s: &str) -> Result<Uuid, ParseUuidError> {
        Uuid::from_str(s)
    }
}

} // verus!
