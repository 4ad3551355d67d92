//! Text helpers shared by the coordination and discovery logic: byte-wise
//! ordering of strings, path joining and lowercase hex encoding.
use vstd::prelude::*;
use vstd::string::*;
use vstd::utf8::*;

verus! {

broadcast use vstd::seq::group_seq_axioms;

/// Lexicographic "less than" on byte sequences, looking at bytes from index `i` onwards.
pub open spec fn lex_lt_from(a: Seq<u8>, b: Seq<u8>, i: int) -> bool
    decreases a.len() - i,
{
    if i >= a.len() {
        i < b.len()
    } else if i >= b.len() {
        false
    } else if a[i] != b[i] {
        a[i] < b[i]
    } else {
        lex_lt_from(a, b, i + 1)
    }
}

/// Lexicographic "less than" on byte sequences (the order of `Ord` on `[u8]`).
pub open spec fn lex_lt(a: Seq<u8>, b: Seq<u8>) -> bool {
    lex_lt_from(a, b, 0)
}

/// The order of `Ord` on `str`: lexicographic on the UTF-8 encodings.
pub open spec fn str_before(a: Seq<char>, b: Seq<char>) -> bool {
    lex_lt(encode_utf8(a), encode_utf8(b))
}

/// No sequence is before itself.
pub proof fn lemma_lex_irreflexive(a: Seq<u8>, i: int)
    requires
        0 <= i,
    ensures
        !lex_lt_from(a, a, i),
    decreases a.len() - i,
{
    if i < a.len() {
        lemma_lex_irreflexive(a, i + 1);
    }
}

/// The lexicographic order is transitive.
pub proof fn lemma_lex_transitive(a: Seq<u8>, b: Seq<u8>, c: Seq<u8>, i: int)
    requires
        0 <= i,
        lex_lt_from(a, b, i),
        lex_lt_from(b, c, i),
    ensures
        lex_lt_from(a, c, i),
    decreases a.len() - i,
{
    if i < a.len() && i < b.len() && i < c.len() && a[i] == b[i] && b[i] == c[i] {
        lemma_lex_transitive(a, b, c, i + 1);
    }
}

/// Two sequences that are not ordered either way agree from index `i` onwards.
pub proof fn lemma_lex_total(a: Seq<u8>, b: Seq<u8>, i: int)
    requires
        0 <= i <= a.len(),
        i <= b.len(),
        !lex_lt_from(a, b, i),
        !lex_lt_from(b, a, i),
    ensures
        a.len() == b.len(),
        forall|k: int| i <= k < a.len() ==> a[k] == b[k],
    decreases a.len() - i,
{
    if i < a.len() && i < b.len() {
        lemma_lex_total(a, b, i + 1);
    }
}

/// Strings that are not ordered either way by `str_before` are equal.
pub proof fn lemma_str_before_total(a: Seq<char>, b: Seq<char>)
    requires
        !str_before(a, b),
        !str_before(b, a),
    ensures
        a == b,
{
    broadcast use encode_utf8_decode_utf8;

    lemma_lex_total(encode_utf8(a), encode_utf8(b), 0);
    assert(encode_utf8(a) =~= encode_utf8(b));
    assert(decode_utf8(encode_utf8(a)) == a);
    assert(decode_utf8(encode_utf8(b)) == b);
}

/// No string is before itself.
pub proof fn lemma_str_before_irreflexive(a: Seq<char>)
    ensures
        !str_before(a, a),
{
    lemma_lex_irreflexive(encode_utf8(a), 0);
}

/// The order of strings is transitive.
pub proof fn lemma_str_before_transitive(a: Seq<char>, b: Seq<char>, c: Seq<char>)
    requires
        str_before(a, b),
        str_before(b, c),
    ensures
        str_before(a, c),
{
    lemma_lex_transitive(encode_utf8(a), encode_utf8(b), encode_utf8(c), 0);
}

/// Compare two strings as `Ord` on `str` does.
pub fn str_lt(a: &str, b: &str) -> (r: bool)
    ensures
        r == str_before(a@, b@),
{
    let x = a.as_bytes();
    let y = b.as_bytes();
    let mut i: usize = 0;
    while i < x.len() && i < y.len() && x[i] == y[i]
        invariant
            0 <= i <= x@.len(),
            i <= y@.len(),
            x@ == encode_utf8(a@),
            y@ == encode_utf8(b@),
            lex_lt_from(x@, y@, 0) == lex_lt_from(x@, y@, i as int),
        decreases x@.len() - i,
    {
        i = i + 1;
    }
    if i >= x.len() {
        i < y.len()
    } else if i >= y.len() {
        false
    } else {
        x[i] < y[i]
    }
}

/// `parent` and `child` joined by a `/`, as `format!("{}/{}", parent, child)`.
pub open spec fn joined(parent: Seq<char>, child: Seq<char>) -> Seq<char> {
    parent + seq!['/'] + child
}

/// Join two path fragments with a `/`.
pub fn join_path(parent: &str, child: &str) -> (r: String)
    ensures
        r@ == joined(parent@, child@),
{
    let slash = "/";
    proof {
        reveal_strlit("/");
    }
    let r = String::from_str(parent).concat(slash).concat(child);
    assert(r@ =~= joined(parent@, child@));
    r
}

/// The lowercase hex digit for a value below 16.
pub open spec fn hex_digit(v: u8) -> char {
    if v < 10 {
        (('0' as u8) + v) as char
    } else {
        (('a' as u8) + v - 10) as char
    }
}

/// Lowercase hex encoding of bytes: two digits per byte, high nibble first.
pub open spec fn lower_hex(bytes: Seq<u8>) -> Seq<char>
    decreases bytes.len(),
{
    if bytes.len() == 0 {
        Seq::empty()
    } else {
        lower_hex(bytes.drop_last()) + seq![
            hex_digit(bytes.last() / 16),
            hex_digit(bytes.last() % 16),
        ]
    }
}

/// Every character of a lowercase hex encoding is an ASCII hex digit.
pub open spec fn is_lower_hex_text(s: Seq<char>) -> bool {
    forall|i: int|
        0 <= i < s.len() ==> ('0' <= #[trigger] s[i] <= '9' || 'a' <= s[i] <= 'f')
}

pub proof fn lemma_lower_hex_shape(bytes: Seq<u8>)
    ensures
        lower_hex(bytes).len() == 2 * bytes.len(),
        is_lower_hex_text(lower_hex(bytes)),
    decreases bytes.len(),
{
    if bytes.len() > 0 {
        lemma_lower_hex_shape(bytes.drop_last());
        let prev = lower_hex(bytes.drop_last());
        let last = bytes.last();
        let tail = seq![hex_digit(last / 16), hex_digit(last % 16)];
        assert(lower_hex(bytes) == prev + tail);
        assert forall|i: int| 0 <= i < lower_hex(bytes).len() implies ('0' <= #[trigger] lower_hex(
            bytes,
        )[i] <= '9' || 'a' <= lower_hex(bytes)[i] <= 'f') by {
            if i >= prev.len() {
                assert(lower_hex(bytes)[i] == tail[i - prev.len()]);
            } else {
                assert(lower_hex(bytes)[i] == prev[i]);
            }
        }
    }
}

/// The digit text for a nibble.
pub fn hex_digit_text(v: u8) -> (r: &'static str)
    requires
        v < 16,
    ensures
        r@ == seq![hex_digit(v)],
{
    proof {
        reveal_strlit("0");
        reveal_strlit("1");
        reveal_strlit("2");
        reveal_strlit("3");
        reveal_strlit("4");
        reveal_strlit("5");
        reveal_strlit("6");
        reveal_strlit("7");
        reveal_strlit("8");
        reveal_strlit("9");
        reveal_strlit("a");
        reveal_strlit("b");
        reveal_strlit("c");
        reveal_strlit("d");
        reveal_strlit("e");
        reveal_strlit("f");
    }
    let r = match v {
        0 => "0",
        1 => "1",
        2 => "2",
        3 => "3",
        4 => "4",
        5 => "5",
        6 => "6",
        7 => "7",
        8 => "8",
        9 => "9",
        10 => "a",
        11 => "b",
        12 => "c",
        13 => "d",
        14 => "e",
        _ => "f",
    };
    assert(r@ =~= seq![hex_digit(v)]);
    r
}

/// Encode bytes as lowercase hex, as `format!("{:x}", ..)` does for a digest.
pub fn to_lower_hex(bytes: &Vec<u8>) -> (r: String)
    ensures
        r@ == lower_hex(bytes@),
{
    let mut r = String::new();
    let mut i: usize = 0;
    while i < bytes.len()
        invariant
            0 <= i <= bytes@.len(),
            r@ == lower_hex(bytes@.take(i as int)),
        decreases bytes@.len() - i,
    {
        let b = bytes[i];
        let hi = hex_digit_text(b / 16);
        let lo = hex_digit_text(b % 16);
        r.append(hi);
        r.append(lo);
        proof {
            assert(bytes@.take(i + 1).drop_last() =~= bytes@.take(i as int));
            assert(bytes@.take(i + 1).last() == b);
        }
        assert(r@ =~= lower_hex(bytes@.take(i + 1)));
        i = i + 1;
    }
    assert(bytes@.take(bytes@.len() as int) =~= bytes@);
    r
}

/// The `i`-th hex digit (from the most significant) of a 128 bit value.
pub open spec fn nibble_of(v: u128, i: int) -> u8 {
    ((v >> ((4 * (31 - i)) as u128)) & 15u128) as u8
}

/// The hyphenated text form of a UUID: 8-4-4-4-12 lowercase hex digits.
pub open spec fn uuid_text(v: u128) -> Seq<char> {
    uuid_text_prefix(v, 32)
}

/// Format a UUID, given as its 128 bits, in its hyphenated text form.
pub fn format_uuid(v: u128) -> (r: String)
    ensures
        r@ == uuid_text(v),
{
    let mut r = String::new();
    let mut i: usize = 0;
    while i < 32
        invariant
            0 <= i <= 32,
            r@ == uuid_text_prefix(v, i as int),
        decreases 32 - i,
    {
        if i == 8 || i == 12 || i == 16 || i == 20 {
            r.append("-");
            proof {
                reveal_strlit("-");
            }
        }
        let shift: u128 = (4 * (31 - i)) as u128;
        let d = ((v >> shift) & 15u128) as u8;
        assert(((v >> shift) & 15u128) < 16u128) by (bit_vector);
        assert(d == nibble_of(v, i as int));
        let digit = hex_digit_text(d);
        r.append(digit);
        assert(r@ =~= uuid_text_prefix(v, i + 1));
        i = i + 1;
    }
    r
}

/// The text of the first `n` hex digits of a UUID, with hyphens before digits 8, 12, 16 and 20.
pub open spec fn uuid_text_prefix(v: u128, n: int) -> Seq<char>
    decreases n,
{
    if n <= 0 {
        Seq::empty()
    } else {
        let sep = if n - 1 == 8 || n - 1 == 12 || n - 1 == 16 || n - 1 == 20 {
            seq!['-']
        } else {
            Seq::empty()
        };
        uuid_text_prefix(v, n - 1) + sep + seq![hex_digit(nibble_of(v, n - 1))]
    }
}

} // verus!
