//! The JSON reader.
//!
//! `spec_parse_document` is the mathematical definition of what this library
//! accepts as a JSON document: a recursive-descent grammar over bytes, with a
//! recursion budget (`fuel`) that the top level sets to more than any input
//! can consume, so that every spec function terminates. The executable
//! functions return exactly what the spec functions say, byte for byte.
use vstd::prelude::*;
use crate::json::JsonVal;
use crate::json::JsonValue;
use crate::json::push_bytes;

verus! {

/// JSON insignificant whitespace.
pub open spec fn is_ws(b: u8) -> bool {
    b == 0x20 || b == 0x09 || b == 0x0a || b == 0x0d
}

/// An ASCII decimal digit.
pub open spec fn is_digit(b: u8) -> bool {
    0x30 <= b <= 0x39
}

/// The value of an ASCII hex digit, or 16 for any other byte.
pub open spec fn spec_hex_val(b: u8) -> u32 {
    if 0x30 <= b <= 0x39 {
        (b - 0x30) as u32
    } else if 0x41 <= b <= 0x46 {
        (b - 0x41 + 10) as u32
    } else if 0x61 <= b <= 0x66 {
        (b - 0x61 + 10) as u32
    } else {
        16u32
    }
}

/// The UTF-8 bytes of one code point.
pub open spec fn spec_utf8_bytes(cp: u32) -> Seq<u8> {
    if cp < 0x80 {
        seq![cp as u8]
    } else if cp < 0x800 {
        seq![(0xc0 + cp / 64) as u8, (0x80 + cp % 64) as u8]
    } else if cp < 0x10000 {
        seq![(0xe0 + cp / 4096) as u8, (0x80 + (cp / 64) % 64) as u8, (0x80 + cp % 64) as u8]
    } else {
        seq![
            (0xf0 + cp / 262144) as u8,
            (0x80 + (cp / 4096) % 64) as u8,
            (0x80 + (cp / 64) % 64) as u8,
            (0x80 + cp % 64) as u8,
        ]
    }
}

/// The first position at or after `i` that holds no whitespace.
pub open spec fn spec_skip_ws(s: Seq<u8>, i: int) -> int
    decreases s.len() - i,
{
    if 0 <= i < s.len() && is_ws(s[i]) {
        spec_skip_ws(s, i + 1)
    } else {
        i
    }
}

/// What one escape sequence starting at the backslash denotes: the decoded
/// bytes and the position after the escape.
pub open spec fn spec_parse_escape(s: Seq<u8>, i: int) -> Option<(Seq<u8>, int)> {
    if i + 1 >= s.len() {
        None
    } else {
        let e = s[i + 1];
        if e == 0x22 || e == 0x5c || e == 0x2f {
            Some((seq![e], i + 2))
        } else if e == 0x62 {
            Some((seq![0x08u8], i + 2))
        } else if e == 0x66 {
            Some((seq![0x0cu8], i + 2))
        } else if e == 0x6e {
            Some((seq![0x0au8], i + 2))
        } else if e == 0x72 {
            Some((seq![0x0du8], i + 2))
        } else if e == 0x74 {
            Some((seq![0x09u8], i + 2))
        } else if e == 0x75 {
            spec_parse_unicode_escape(s, i)
        } else {
            None
        }
    }
}

/// The four hex digits after `\u` at position `i`, as a code unit; 0x110000
/// marks a malformed escape.
pub open spec fn spec_hex4(s: Seq<u8>, i: int) -> u32 {
    if i + 4 > s.len() {
        0x110000u32
    } else {
        let a = spec_hex_val(s[i]);
        let b = spec_hex_val(s[i + 1]);
        let c = spec_hex_val(s[i + 2]);
        let d = spec_hex_val(s[i + 3]);
        if a < 16 && b < 16 && c < 16 && d < 16 {
            (a * 4096 + b * 256 + c * 16 + d) as u32
        } else {
            0x110000u32
        }
    }
}

/// A `\uXXXX` escape at the backslash `i`, joining surrogate pairs.
pub open spec fn spec_parse_unicode_escape(s: Seq<u8>, i: int) -> Option<(Seq<u8>, int)> {
    let u = spec_hex4(s, i + 2);
    if u >= 0x110000 {
        None
    } else if 0xd800 <= u < 0xdc00 {
        // High surrogate: a low surrogate escape must follow.
        if i + 7 < s.len() && s[i + 6] == 0x5c && s[i + 7] == 0x75 {
            let lo = spec_hex4(s, i + 8);
            if 0xdc00 <= lo < 0xe000 {
                Some(
                    (
                        spec_utf8_bytes((0x10000 + (u - 0xd800) * 0x400 + (lo - 0xdc00)) as u32),
                        i + 12,
                    ),
                )
            } else {
                None
            }
        } else {
            None
        }
    } else if 0xdc00 <= u < 0xe000 {
        // A lone low surrogate is not a code point.
        None
    } else {
        Some((spec_utf8_bytes(u), i + 6))
    }
}

/// The decoded bytes of a string literal's body, starting after the opening
/// quote, and the position after the closing quote.
pub open spec fn spec_parse_string_body(s: Seq<u8>, i: int) -> Option<(Seq<u8>, int)>
    decreases s.len() - i,
{
    if i < 0 || i >= s.len() {
        None
    } else if s[i] == 0x22 {
        Some((Seq::empty(), i + 1))
    } else if s[i] == 0x5c {
        match spec_parse_escape(s, i) {
            None => None,
            Some((piece, j)) => if j > i {
                match spec_parse_string_body(s, j) {
                    None => None,
                    Some((rest, k)) => Some((piece + rest, k)),
                }
            } else {
                None
            },
        }
    } else if s[i] < 0x20 {
        // Control bytes must be escaped inside a string.
        None
    } else {
        match spec_parse_string_body(s, i + 1) {
            None => None,
            Some((rest, k)) => Some((seq![s[i]] + rest, k)),
        }
    }
}

/// The first position at or after `i` that holds no digit.
pub open spec fn spec_scan_digits(s: Seq<u8>, i: int) -> int
    decreases s.len() - i,
{
    if 0 <= i < s.len() && is_digit(s[i]) {
        spec_scan_digits(s, i + 1)
    } else {
        i
    }
}

/// A number's lexeme starting at `i`: optional minus, an integer part with
/// no leading zero, an optional fraction and an optional exponent.
pub open spec fn spec_parse_number(s: Seq<u8>, i: int) -> Option<(Seq<u8>, int)> {
    if i < 0 || i >= s.len() {
        None
    } else {
        let i1 = if s[i] == 0x2d {
            i + 1
        } else {
            i
        };
        if i1 >= s.len() || !is_digit(s[i1]) {
            None
        } else {
            let i2 = if s[i1] == 0x30 {
                i1 + 1
            } else {
                spec_scan_digits(s, i1)
            };
            let i3 = if i2 < s.len() && s[i2] == 0x2e {
                if i2 + 1 < s.len() && is_digit(s[i2 + 1]) {
                    spec_scan_digits(s, i2 + 1)
                } else {
                    -1
                }
            } else {
                i2
            };
            if i3 < 0 {
                None
            } else {
                let i4 = if i3 < s.len() && (s[i3] == 0x65 || s[i3] == 0x45) {
                    let e1 = if i3 + 1 < s.len() && (s[i3 + 1] == 0x2b || s[i3 + 1] == 0x2d) {
                        i3 + 2
                    } else {
                        i3 + 1
                    };
                    if e1 < s.len() && is_digit(s[e1]) {
                        spec_scan_digits(s, e1)
                    } else {
                        -1
                    }
                } else {
                    i3
                };
                if i4 < 0 {
                    None
                } else {
                    Some((s.subrange(i, i4), i4))
                }
            }
        }
    }
}

/// One JSON value starting at `i` (leading whitespace allowed): the value's
/// model and the position just after it. `fuel` bounds the recursion; the
/// top level passes more than any document can use.
pub open spec fn spec_parse_value(s: Seq<u8>, i: int, fuel: int) -> Option<(JsonVal, int)>
    decreases fuel,
{
    if fuel <= 0 {
        None
    } else {
        let j = spec_skip_ws(s, i);
        if j >= s.len() {
            None
        } else if s[j] == 0x6e {  // 'n'
            if j + 4 <= s.len() && s[j + 1] == 0x75 && s[j + 2] == 0x6c && s[j + 3] == 0x6c {
                Some((JsonVal::Null, j + 4))
            } else {
                None
            }
        } else if s[j] == 0x74 {  // 't'
            if j + 4 <= s.len() && s[j + 1] == 0x72 && s[j + 2] == 0x75 && s[j + 3] == 0x65 {
                Some((JsonVal::Bool(true), j + 4))
            } else {
                None
            }
        } else if s[j] == 0x66 {  // 'f'
            if j + 5 <= s.len() && s[j + 1] == 0x61 && s[j + 2] == 0x6c && s[j + 3] == 0x73 && s[j
                + 4] == 0x65 {
                Some((JsonVal::Bool(false), j + 5))
            } else {
                None
            }
        } else if s[j] == 0x22 {  // '"'
            match spec_parse_string_body(s, j + 1) {
                None => None,
                Some((body, k)) => Some((JsonVal::Str(body), k)),
            }
        } else if s[j] == 0x5b {  // '['
            match spec_parse_elems(s, j + 1, fuel - 1) {
                None => None,
                Some((elems, k)) => Some((JsonVal::Array(elems), k)),
            }
        } else if s[j] == 0x7b {  // '{'
            match spec_parse_members(s, j + 1, fuel - 1) {
                None => None,
                Some((members, k)) => Some((JsonVal::Object(members), k)),
            }
        } else if s[j] == 0x2d || is_digit(s[j]) {
            match spec_parse_number(s, j) {
                None => None,
                Some((lexeme, k)) => Some((JsonVal::Number(lexeme), k)),
            }
        } else {
            None
        }
    }
}

/// An array's elements starting just after `[`, and the position after `]`.
pub open spec fn spec_parse_elems(s: Seq<u8>, i: int, fuel: int) -> Option<(Seq<JsonVal>, int)>
    decreases fuel,
{
    if fuel <= 0 {
        None
    } else {
        let j = spec_skip_ws(s, i);
        if j < s.len() && s[j] == 0x5d {  // ']'
            Some((Seq::empty(), j + 1))
        } else {
            match spec_parse_value(s, i, fuel - 1) {
                None => None,
                Some((v, k)) => match spec_parse_rest_elems(s, k, fuel - 1) {
                    None => None,
                    Some((vs, m)) => Some((seq![v] + vs, m)),
                },
            }
        }
    }
}

/// After one array element: either `]`, or `,` and further elements.
pub open spec fn spec_parse_rest_elems(s: Seq<u8>, i: int, fuel: int) -> Option<
    (Seq<JsonVal>, int),
>
    decreases fuel,
{
    if fuel <= 0 {
        None
    } else {
        let j = spec_skip_ws(s, i);
        if j >= s.len() {
            None
        } else if s[j] == 0x5d {  // ']'
            Some((Seq::empty(), j + 1))
        } else if s[j] == 0x2c {  // ','
            match spec_parse_value(s, j + 1, fuel - 1) {
                None => None,
                Some((v, k)) => match spec_parse_rest_elems(s, k, fuel - 1) {
                    None => None,
                    Some((vs, m)) => Some((seq![v] + vs, m)),
                },
            }
        } else {
            None
        }
    }
}

/// One `"key": value` member, starting at optional whitespace before the key.
pub open spec fn spec_parse_member(s: Seq<u8>, i: int, fuel: int) -> Option<
    ((Seq<u8>, JsonVal), int),
>
    decreases fuel,
{
    if fuel <= 0 {
        None
    } else {
        let j = spec_skip_ws(s, i);
        if j >= s.len() || s[j] != 0x22 {
            None
        } else {
            match spec_parse_string_body(s, j + 1) {
                None => None,
                Some((key, k)) => {
                    let m = spec_skip_ws(s, k);
                    if m >= s.len() || s[m] != 0x3a {  // ':'
                        None
                    } else {
                        match spec_parse_value(s, m + 1, fuel - 1) {
                            None => None,
                            Some((v, n)) => Some(((key, v), n)),
                        }
                    }
                },
            }
        }
    }
}

/// An object's members starting just after `{`, and the position after `}`.
pub open spec fn spec_parse_members(s: Seq<u8>, i: int, fuel: int) -> Option<
    (Seq<(Seq<u8>, JsonVal)>, int),
>
    decreases fuel,
{
    if fuel <= 0 {
        None
    } else {
        let j = spec_skip_ws(s, i);
        if j < s.len() && s[j] == 0x7d {  // '}'
            Some((Seq::empty(), j + 1))
        } else {
            match spec_parse_member(s, i, fuel - 1) {
                None => None,
                Some((kv, k)) => match spec_parse_rest_members(s, k, fuel - 1) {
                    None => None,
                    Some((kvs, m)) => Some((seq![kv] + kvs, m)),
                },
            }
        }
    }
}

/// After one member: either `}`, or `,` and further members.
pub open spec fn spec_parse_rest_members(s: Seq<u8>, i: int, fuel: int) -> Option<
    (Seq<(Seq<u8>, JsonVal)>, int),
>
    decreases fuel,
{
    if fuel <= 0 {
        None
    } else {
        let j = spec_skip_ws(s, i);
        if j >= s.len() {
            None
        } else if s[j] == 0x7d {  // '}'
            Some((Seq::empty(), j + 1))
        } else if s[j] == 0x2c {  // ','
            match spec_parse_member(s, j + 1, fuel - 1) {
                None => None,
                Some((kv, k)) => match spec_parse_rest_members(s, k, fuel - 1) {
                    None => None,
                    Some((kvs, m)) => Some((seq![kv] + kvs, m)),
                },
            }
        } else {
            None
        }
    }
}

/// The recursion budget for a document of `n` bytes: parsing consumes at
/// least one byte for every two recursive calls, so this is never exhausted.
pub open spec fn spec_doc_fuel(n: int) -> int {
    2 * n + 4
}

/// What this library accepts as one whole JSON document: one value, with
/// nothing but whitespace around it.
pub open spec fn spec_parse_document(s: Seq<u8>) -> Option<JsonVal> {
    match spec_parse_value(s, 0, spec_doc_fuel(s.len() as int)) {
        None => None,
        Some((v, j)) => if spec_skip_ws(s, j) == s.len() as int {
            Some(v)
        } else {
            None
        },
    }
}

/// Scanning digits never moves backwards.
pub proof fn lemma_scan_digits_lower(s: Seq<u8>, i: int)
    ensures
        spec_scan_digits(s, i) >= i,
    decreases s.len() - i,
{
    if 0 <= i < s.len() && is_digit(s[i]) {
        lemma_scan_digits_lower(s, i + 1);
    }
}

/// Joins already-decoded bytes with the outcome on the remaining input.
pub open spec fn join_bytes(a: Seq<u8>, o: Option<(Seq<u8>, int)>) -> Option<(Seq<u8>, int)> {
    match o {
        None => None,
        Some((r, j)) => Some((a + r, j)),
    }
}

/// Skips whitespace, returning exactly `spec_skip_ws`.
pub fn skip_ws(s: &Vec<u8>, i: usize) -> (r: usize)
    requires
        i <= s.len(),
    ensures
        r == spec_skip_ws(s@, i as int),
        i <= r <= s.len(),
{
    let mut p: usize = i;
    while p < s.len() && (s[p] == 0x20 || s[p] == 0x09 || s[p] == 0x0a || s[p] == 0x0d)
        invariant
            i <= p <= s.len(),
            spec_skip_ws(s@, i as int) == spec_skip_ws(s@, p as int),
        decreases s.len() - p,
    {
        p += 1;
    }
    p
}

/// Scans decimal digits, returning exactly `spec_scan_digits`.
fn scan_digits(s: &Vec<u8>, i: usize) -> (r: usize)
    requires
        i <= s.len(),
    ensures
        r == spec_scan_digits(s@, i as int),
        i <= r <= s.len(),
{
    let mut p: usize = i;
    while p < s.len() && 0x30 <= s[p] && s[p] <= 0x39
        invariant
            i <= p <= s.len(),
            spec_scan_digits(s@, i as int) == spec_scan_digits(s@, p as int),
        decreases s.len() - p,
    {
        p += 1;
    }
    p
}

/// The value of one hex digit, or 16.
fn hex_val(b: u8) -> (r: u32)
    ensures
        r == spec_hex_val(b),
{
    if 0x30 <= b && b <= 0x39 {
        (b - 0x30) as u32
    } else if 0x41 <= b && b <= 0x46 {
        (b - 0x41 + 10) as u32
    } else if 0x61 <= b && b <= 0x66 {
        (b - 0x61 + 10) as u32
    } else {
        16
    }
}

/// Reads four hex digits, returning exactly `spec_hex4`.
fn hex4(s: &Vec<u8>, i: usize) -> (r: u32)
    requires
        i <= s.len(),
    ensures
        r == spec_hex4(s@, i as int),
{
    if s.len() < 4 || i > s.len() - 4 {
        return 0x110000;
    }
    let a = hex_val(s[i]);
    let b = hex_val(s[i + 1]);
    let c = hex_val(s[i + 2]);
    let d = hex_val(s[i + 3]);
    if a < 16 && b < 16 && c < 16 && d < 16 {
        a * 4096 + b * 256 + c * 16 + d
    } else {
        0x110000
    }
}

/// The UTF-8 bytes of one code point, appended to `out`.
fn push_utf8(out: &mut Vec<u8>, cp: u32)
    requires
        cp < 0x110000,
    ensures
        final(out)@ == old(out)@ + spec_utf8_bytes(cp),
{
    if cp < 0x80 {
        out.push(cp as u8);
    } else if cp < 0x800 {
        out.push((0xc0 + cp / 64) as u8);
        out.push((0x80 + cp % 64) as u8);
    } else if cp < 0x10000 {
        out.push((0xe0 + cp / 4096) as u8);
        out.push((0x80 + (cp / 64) % 64) as u8);
        out.push((0x80 + cp % 64) as u8);
    } else {
        out.push((0xf0 + cp / 262144) as u8);
        out.push((0x80 + (cp / 4096) % 64) as u8);
        out.push((0x80 + (cp / 64) % 64) as u8);
        out.push((0x80 + cp % 64) as u8);
    }
    assert(final(out)@ =~= old(out)@ + spec_utf8_bytes(cp));
}

/// Decodes one escape sequence, returning exactly `spec_parse_escape`.
fn parse_escape(s: &Vec<u8>, p: usize) -> (r: Option<(Vec<u8>, usize)>)
    requires
        p < s.len(),
    ensures
        r is None ==> spec_parse_escape(s@, p as int) is None,
        r matches Some((piece, q)) ==> spec_parse_escape(s@, p as int) == Some(
            (piece@, q as int),
        ) && p < q <= s.len(),
{
    if p + 1 >= s.len() {
        return None;
    }
    let e = s[p + 1];
    let mut piece: Vec<u8> = Vec::new();
    if e == 0x22 || e == 0x5c || e == 0x2f {
        piece.push(e);
        assert(piece@ =~= seq![e]);
        Some((piece, p + 2))
    } else if e == 0x62 {
        piece.push(0x08);
        assert(piece@ =~= seq![0x08u8]);
        Some((piece, p + 2))
    } else if e == 0x66 {
        piece.push(0x0c);
        assert(piece@ =~= seq![0x0cu8]);
        Some((piece, p + 2))
    } else if e == 0x6e {
        piece.push(0x0a);
        assert(piece@ =~= seq![0x0au8]);
        Some((piece, p + 2))
    } else if e == 0x72 {
        piece.push(0x0d);
        assert(piece@ =~= seq![0x0du8]);
        Some((piece, p + 2))
    } else if e == 0x74 {
        piece.push(0x09);
        assert(piece@ =~= seq![0x09u8]);
        Some((piece, p + 2))
    } else if e == 0x75 {
        let u = hex4(s, p + 2);
        if u >= 0x110000 {
            return None;
        }
        assert(p + 2 + 4 <= s.len());
        if 0xd800 <= u && u < 0xdc00 {
            if s.len() - p > 7 && s[p + 6] == 0x5c && s[p + 7] == 0x75 {
                let lo = hex4(s, p + 8);
                if 0xdc00 <= lo && lo < 0xe000 {
                    assert(p + 8 + 4 <= s.len());
                    let cp: u32 = 0x10000 + (u - 0xd800) * 0x400 + (lo - 0xdc00);
                    push_utf8(&mut piece, cp);
                    assert(piece@ =~= spec_utf8_bytes(cp));
                    Some((piece, p + 12))
                } else {
                    None
                }
            } else {
                None
            }
        } else if 0xdc00 <= u && u < 0xe000 {
            None
        } else {
            push_utf8(&mut piece, u);
            assert(piece@ =~= spec_utf8_bytes(u));
            Some((piece, p + 6))
        }
    } else {
        None
    }
}

/// Decodes a string literal's body, returning exactly
/// `spec_parse_string_body`.
pub fn parse_string_body(s: &Vec<u8>, i: usize) -> (r: Option<(Vec<u8>, usize)>)
    requires
        i <= s.len(),
    ensures
        r is None ==> spec_parse_string_body(s@, i as int) is None,
        r matches Some((body, j)) ==> spec_parse_string_body(s@, i as int) == Some(
            (body@, j as int),
        ) && i < j <= s.len(),
{
    let mut acc: Vec<u8> = Vec::new();
    let mut p: usize = i;
    assert(acc@ =~= Seq::<u8>::empty());
    while p < s.len()
        invariant
            i <= p <= s.len(),
            spec_parse_string_body(s@, i as int) == join_bytes(
                acc@,
                spec_parse_string_body(s@, p as int),
            ),
        decreases s.len() - p,
    {
        let b = s[p];
        if b == 0x22 {
            proof {
                assert(spec_parse_string_body(s@, p as int) == Some(
                    (Seq::<u8>::empty(), p + 1 as int),
                ));
                assert(acc@ + Seq::<u8>::empty() =~= acc@);
            }
            return Some((acc, p + 1));
        } else if b == 0x5c {
            match parse_escape(s, p) {
                None => {
                    return None;
                },
                Some((piece, q)) => {
                    let ghost acc0 = acc@;
                    push_bytes(&mut acc, &piece);
                    proof {
                        let inner = spec_parse_string_body(s@, q as int);
                        match inner {
                            None => {},
                            Some((rest, k)) => {
                                assert(acc0 + (piece@ + rest) =~= (acc0 + piece@) + rest);
                            },
                        }
                    }
                    p = q;
                },
            }
        } else if b < 0x20 {
            return None;
        } else {
            let ghost acc0 = acc@;
            acc.push(b);
            proof {
                assert(acc@ =~= acc0 + seq![b]);
                let inner = spec_parse_string_body(s@, p + 1 as int);
                match inner {
                    None => {},
                    Some((rest, k)) => {
                        assert(acc0 + (seq![b] + rest) =~= (acc0 + seq![b]) + rest);
                    },
                }
            }
            p += 1;
        }
    }
    None
}

/// The bytes of `s` between `i` and `j`.
fn copy_range(s: &Vec<u8>, i: usize, j: usize) -> (r: Vec<u8>)
    requires
        i <= j <= s.len(),
    ensures
        r@ == s@.subrange(i as int, j as int),
{
    let mut out: Vec<u8> = Vec::new();
    let mut p: usize = i;
    while p < j
        invariant
            i <= p <= j <= s.len(),
            out@ == s@.subrange(i as int, p as int),
        decreases j - p,
    {
        out.push(s[p]);
        assert(out@ =~= s@.subrange(i as int, p + 1 as int));
        p += 1;
    }
    out
}

/// Reads a number's lexeme, returning exactly `spec_parse_number`.
fn parse_number(s: &Vec<u8>, i: usize) -> (r: Option<(Vec<u8>, usize)>)
    requires
        i <= s.len(),
    ensures
        r is None ==> spec_parse_number(s@, i as int) is None,
        r matches Some((lexeme, j)) ==> spec_parse_number(s@, i as int) == Some(
            (lexeme@, j as int),
        ) && i < j <= s.len(),
{
    if i >= s.len() {
        return None;
    }
    let i1: usize = if s[i] == 0x2d {
        i + 1
    } else {
        i
    };
    if i1 >= s.len() || !(0x30 <= s[i1] && s[i1] <= 0x39) {
        return None;
    }
    let i2: usize;
    if s[i1] == 0x30 {
        i2 = i1 + 1;
    } else {
        i2 = scan_digits(s, i1);
        proof {
            assert(spec_scan_digits(s@, i1 as int) == spec_scan_digits(s@, i1 + 1));
            lemma_scan_digits_lower(s@, i1 + 1);
        }
    }
    assert(i2 > i1);
    let mut end: usize = i2;
    if i2 < s.len() && s[i2] == 0x2e {
        if i2 + 1 < s.len() && 0x30 <= s[i2 + 1] && s[i2 + 1] <= 0x39 {
            end = scan_digits(s, i2 + 1);
        } else {
            return None;
        }
    }
    let i3: usize = end;
    if i3 < s.len() && (s[i3] == 0x65 || s[i3] == 0x45) {
        let e1: usize = if i3 + 1 < s.len() && (s[i3 + 1] == 0x2b || s[i3 + 1] == 0x2d) {
            i3 + 2
        } else {
            i3 + 1
        };
        if e1 < s.len() && 0x30 <= s[e1] && s[e1] <= 0x39 {
            end = scan_digits(s, e1);
        } else {
            return None;
        }
    }
    Some((copy_range(s, i, end), end))
}

/// Reads one JSON value, returning exactly `spec_parse_value`.
pub fn parse_value(s: &Vec<u8>, i: usize, fuel: u128) -> (r: Option<(JsonValue, usize)>)
    requires
        i <= s.len(),
    ensures
        r is None ==> spec_parse_value(s@, i as int, fuel as int) is None,
        r matches Some((v, j)) ==> spec_parse_value(s@, i as int, fuel as int) == Some(
            (v.model(), j as int),
        ) && i <= j <= s.len(),
    decreases fuel,
{
    if fuel == 0 {
        return None;
    }
    let j = skip_ws(s, i);
    if j >= s.len() {
        return None;
    }
    let b = s[j];
    if b == 0x6e {
        if s.len() - j >= 4 && s[j + 1] == 0x75 && s[j + 2] == 0x6c && s[j + 3] == 0x6c {
            Some((JsonValue::Null, j + 4))
        } else {
            None
        }
    } else if b == 0x74 {
        if s.len() - j >= 4 && s[j + 1] == 0x72 && s[j + 2] == 0x75 && s[j + 3] == 0x65 {
            Some((JsonValue::Bool(true), j + 4))
        } else {
            None
        }
    } else if b == 0x66 {
        if s.len() - j >= 5 && s[j + 1] == 0x61 && s[j + 2] == 0x6c && s[j + 3] == 0x73 && s[j + 4]
            == 0x65 {
            Some((JsonValue::Bool(false), j + 5))
        } else {
            None
        }
    } else if b == 0x22 {
        match parse_string_body(s, j + 1) {
            None => None,
            Some((body, k)) => Some((JsonValue::Str(body), k)),
        }
    } else if b == 0x5b {
        match parse_elems(s, j + 1, fuel - 1) {
            None => None,
            Some((vs, k)) => {
                let out = JsonValue::Array(vs);
                proof {
                    crate::json::lemma_model_array(out);
                }
                Some((out, k))
            },
        }
    } else if b == 0x7b {
        match parse_members(s, j + 1, fuel - 1) {
            None => None,
            Some((ms, k)) => {
                let out = JsonValue::Object(ms);
                proof {
                    crate::json::lemma_model_object(out);
                }
                Some((out, k))
            },
        }
    } else if b == 0x2d || (0x30 <= b && b <= 0x39) {
        match parse_number(s, j) {
            None => None,
            Some((lexeme, k)) => Some((JsonValue::Number(lexeme), k)),
        }
    } else {
        None
    }
}

/// Reads an array's elements after `[`, returning exactly `spec_parse_elems`.
fn parse_elems(s: &Vec<u8>, i: usize, fuel: u128) -> (r: Option<(Vec<JsonValue>, usize)>)
    requires
        i <= s.len(),
    ensures
        r is None ==> spec_parse_elems(s@, i as int, fuel as int) is None,
        r matches Some((vs, j)) ==> spec_parse_elems(s@, i as int, fuel as int) == Some(
            (crate::json::seq_models(vs@), j as int),
        ) && i <= j <= s.len(),
    decreases fuel,
{
    if fuel == 0 {
        return None;
    }
    let j = skip_ws(s, i);
    if j < s.len() && s[j] == 0x5d {
        let vs: Vec<JsonValue> = Vec::new();
        assert(crate::json::seq_models(vs@) =~= Seq::<JsonVal>::empty());
        return Some((vs, j + 1));
    }
    match parse_value(s, i, fuel - 1) {
        None => None,
        Some((v, k)) => match parse_rest_elems(s, k, fuel - 1) {
            None => None,
            Some((mut vs, m)) => {
                let ghost tail = vs@;
                vs.insert(0, v);
                proof {
                    assert(crate::json::seq_models(vs@) =~= seq![v.model()]
                        + crate::json::seq_models(tail));
                }
                Some((vs, m))
            },
        },
    }
}

/// Reads `]`, or `,` and further elements, returning exactly
/// `spec_parse_rest_elems`.
fn parse_rest_elems(s: &Vec<u8>, i: usize, fuel: u128) -> (r: Option<(Vec<JsonValue>, usize)>)
    requires
        i <= s.len(),
    ensures
        r is None ==> spec_parse_rest_elems(s@, i as int, fuel as int) is None,
        r matches Some((vs, j)) ==> spec_parse_rest_elems(s@, i as int, fuel as int) == Some(
            (crate::json::seq_models(vs@), j as int),
        ) && i <= j <= s.len(),
    decreases fuel,
{
    if fuel == 0 {
        return None;
    }
    let j = skip_ws(s, i);
    if j >= s.len() {
        return None;
    }
    if s[j] == 0x5d {
        let vs: Vec<JsonValue> = Vec::new();
        assert(crate::json::seq_models(vs@) =~= Seq::<JsonVal>::empty());
        return Some((vs, j + 1));
    }
    if s[j] == 0x2c {
        match parse_value(s, j + 1, fuel - 1) {
            None => None,
            Some((v, k)) => match parse_rest_elems(s, k, fuel - 1) {
                None => None,
                Some((mut vs, m)) => {
                    let ghost tail = vs@;
                    vs.insert(0, v);
                    proof {
                        assert(crate::json::seq_models(vs@) =~= seq![v.model()]
                            + crate::json::seq_models(tail));
                    }
                    Some((vs, m))
                },
            },
        }
    } else {
        None
    }
}

/// Reads one `"key": value` member, returning exactly `spec_parse_member`.
fn parse_member(s: &Vec<u8>, i: usize, fuel: u128) -> (r: Option<((Vec<u8>, JsonValue), usize)>)
    requires
        i <= s.len(),
    ensures
        r is None ==> spec_parse_member(s@, i as int, fuel as int) is None,
        r matches Some(((key, v), j)) ==> spec_parse_member(s@, i as int, fuel as int) == Some(
            ((key@, v.model()), j as int),
        ) && i <= j <= s.len(),
    decreases fuel,
{
    if fuel == 0 {
        return None;
    }
    let j = skip_ws(s, i);
    if j >= s.len() || s[j] != 0x22 {
        return None;
    }
    match parse_string_body(s, j + 1) {
        None => None,
        Some((key, k)) => {
            let m = skip_ws(s, k);
            if m >= s.len() || s[m] != 0x3a {
                return None;
            }
            match parse_value(s, m + 1, fuel - 1) {
                None => None,
                Some((v, n)) => Some(((key, v), n)),
            }
        },
    }
}

/// Reads an object's members after `{`, returning exactly
/// `spec_parse_members`.
fn parse_members(s: &Vec<u8>, i: usize, fuel: u128) -> (r: Option<
    (Vec<(Vec<u8>, JsonValue)>, usize),
>)
    requires
        i <= s.len(),
    ensures
        r is None ==> spec_parse_members(s@, i as int, fuel as int) is None,
        r matches Some((ms, j)) ==> spec_parse_members(s@, i as int, fuel as int) == Some(
            (crate::json::member_models(ms@), j as int),
        ) && i <= j <= s.len(),
    decreases fuel,
{
    if fuel == 0 {
        return None;
    }
    let j = skip_ws(s, i);
    if j < s.len() && s[j] == 0x7d {
        let ms: Vec<(Vec<u8>, JsonValue)> = Vec::new();
        assert(crate::json::member_models(ms@) =~= Seq::<(Seq<u8>, JsonVal)>::empty());
        return Some((ms, j + 1));
    }
    match parse_member(s, i, fuel - 1) {
        None => None,
        Some((kv, k)) => match parse_rest_members(s, k, fuel - 1) {
            None => None,
            Some((mut ms, m)) => {
                let ghost tail = ms@;
                let ghost kv0 = (kv.0@, kv.1.model());
                ms.insert(0, kv);
                proof {
                    assert(crate::json::member_models(ms@) =~= seq![kv0]
                        + crate::json::member_models(tail));
                }
                Some((ms, m))
            },
        },
    }
}

/// Reads `}`, or `,` and further members, returning exactly
/// `spec_parse_rest_members`.
fn parse_rest_members(s: &Vec<u8>, i: usize, fuel: u128) -> (r: Option<
    (Vec<(Vec<u8>, JsonValue)>, usize),
>)
    requires
        i <= s.len(),
    ensures
        r is None ==> spec_parse_rest_members(s@, i as int, fuel as int) is None,
        r matches Some((ms, j)) ==> spec_parse_rest_members(s@, i as int, fuel as int) == Some(
            (crate::json::member_models(ms@), j as int),
        ) && i <= j <= s.len(),
    decreases fuel,
{
    if fuel == 0 {
        return None;
    }
    let j = skip_ws(s, i);
    if j >= s.len() {
        return None;
    }
    if s[j] == 0x7d {
        let ms: Vec<(Vec<u8>, JsonValue)> = Vec::new();
        assert(crate::json::member_models(ms@) =~= Seq::<(Seq<u8>, JsonVal)>::empty());
        return Some((ms, j + 1));
    }
    if s[j] == 0x2c {
        match parse_member(s, j + 1, fuel - 1) {
            None => None,
            Some((kv, k)) => match parse_rest_members(s, k, fuel - 1) {
                None => None,
                Some((mut ms, m)) => {
                    let ghost tail = ms@;
                    let ghost kv0 = (kv.0@, kv.1.model());
                    ms.insert(0, kv);
                    proof {
                        assert(crate::json::member_models(ms@) =~= seq![kv0]
                            + crate::json::member_models(tail));
                    }
                    Some((ms, m))
                },
            },
        }
    } else {
        None
    }
}

/// Reads one whole JSON document, returning exactly `spec_parse_document`.
pub fn parse_document(s: &Vec<u8>) -> (r: Option<JsonValue>)
    ensures
        r is None ==> spec_parse_document(s@) is None,
        r matches Some(v) ==> spec_parse_document(s@) == Some(v.model()),
{
    let fuel: u128 = 2 * (s.len() as u128) + 4;
    assert(fuel as int == spec_doc_fuel(s.len() as int));
    match parse_value(s, 0, fuel) {
        None => None,
        Some((v, j)) => {
            let k = skip_ws(s, j);
            if k == s.len() {
                Some(v)
            } else {
                None
            }
        },
    }
}

} // verus!
