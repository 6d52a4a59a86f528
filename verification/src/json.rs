//! The JSON document model.
//!
//! Records harvested from the remote store are schema-less, so they are held
//! as a tagged-union value type: `JsonValue` is the executable form and
//! `JsonVal` its mathematical model. Strings are kept as UTF-8 byte vectors
//! and numbers as their literal lexemes, so that a document survives a
//! parse/encode round trip byte for byte.
use vstd::prelude::*;

verus! {

broadcast use {
    vstd::std_specs::vec::axiom_vec_index_decreases,
    vstd::seq::axiom_seq_index_decreases,
};

/// Mathematical model of one JSON value.
pub enum JsonVal {
    Null,
    Bool(bool),
    /// The number's lexeme, e.g. the bytes of `-12.5e3`.
    Number(Seq<u8>),
    /// The decoded (unescaped) bytes of a JSON string.
    Str(Seq<u8>),
    Array(Seq<JsonVal>),
    /// Members in document order.
    Object(Seq<(Seq<u8>, JsonVal)>),
}

/// One JSON value as executable data.
#[derive(Debug, PartialEq)]
pub enum JsonValue {
    Null,
    Bool(bool),
    Number(Vec<u8>),
    Str(Vec<u8>),
    Array(Vec<JsonValue>),
    Object(Vec<(Vec<u8>, JsonValue)>),
}

impl JsonValue {
    /// The model of this value.
    pub open spec fn model(self) -> JsonVal
        decreases self,
    {
        match self {
            JsonValue::Null => JsonVal::Null,
            JsonValue::Bool(b) => JsonVal::Bool(b),
            JsonValue::Number(n) => JsonVal::Number(n@),
            JsonValue::Str(s) => JsonVal::Str(s@),
            JsonValue::Array(elems) => JsonVal::Array(
                Seq::new(
                    elems@.len(),
                    |i: int|
                        if 0 <= i < elems@.len() {
                            elems@[i].model()
                        } else {
                            JsonVal::Null
                        },
                ),
            ),
            JsonValue::Object(members) => JsonVal::Object(
                Seq::new(
                    members@.len(),
                    |i: int|
                        if 0 <= i < members@.len() {
                            (members@[i].0@, members@[i].1.model())
                        } else {
                            (Seq::<u8>::empty(), JsonVal::Null)
                        },
                ),
            ),
        }
    }
}

/// The models of the values in `q`, in order.
pub open spec fn seq_models(q: Seq<JsonValue>) -> Seq<JsonVal> {
    Seq::new(
        q.len(),
        |i: int|
            if 0 <= i < q.len() {
                q[i].model()
            } else {
                JsonVal::Null
            },
    )
}

/// The models of the members in `q`, in order.
pub open spec fn member_models(q: Seq<(Vec<u8>, JsonValue)>) -> Seq<(Seq<u8>, JsonVal)> {
    Seq::new(
        q.len(),
        |i: int|
            if 0 <= i < q.len() {
                (q[i].0@, q[i].1.model())
            } else {
                (Seq::<u8>::empty(), JsonVal::Null)
            },
    )
}

/// An array's model is the array of its elements' models.
pub proof fn lemma_model_array(v: JsonValue)
    requires
        v is Array,
    ensures
        v.model() == JsonVal::Array(seq_models(v->Array_0@)),
{
    assert(v.model()->Array_0 =~= seq_models(v->Array_0@));
}

/// An object's model is the object of its members' models.
pub proof fn lemma_model_object(v: JsonValue)
    requires
        v is Object,
    ensures
        v.model() == JsonVal::Object(member_models(v->Object_0@)),
{
    assert(v.model()->Object_0 =~= member_models(v->Object_0@));
}

/// The lower-case hex digit for a value below 16.
pub open spec fn spec_hex_digit(n: u8) -> u8 {
    if n < 10 {
        (n + 0x30) as u8
    } else {
        (n - 10 + 0x61) as u8
    }
}

/// How one byte of a decoded string appears inside a JSON string literal:
/// quote, backslash and control bytes are escaped, all else stands as it is.
pub open spec fn spec_escape_byte(b: u8) -> Seq<u8> {
    if b == 0x22 {  // '"'
        seq![0x5c, 0x22]
    } else if b == 0x5c {  // '\\'
        seq![0x5c, 0x5c]
    } else if b == 0x08 {
        seq![0x5c, 0x62]  // \b
    } else if b == 0x0c {
        seq![0x5c, 0x66]  // \f
    } else if b == 0x0a {
        seq![0x5c, 0x6e]  // \n
    } else if b == 0x0d {
        seq![0x5c, 0x72]  // \r
    } else if b == 0x09 {
        seq![0x5c, 0x74]  // \t
    } else if b < 0x20 {
        seq![0x5c, 0x75, 0x30, 0x30, spec_hex_digit(b / 16), spec_hex_digit(b % 16)]
    } else {
        seq![b]
    }
}

/// A decoded string's bytes as they appear inside a JSON string literal.
pub open spec fn spec_escape(s: Seq<u8>) -> Seq<u8>
    decreases s.len(),
{
    if s.len() == 0 {
        Seq::empty()
    } else {
        spec_escape_byte(s[0]) + spec_escape(s.skip(1))
    }
}

/// A JSON string literal: the escaped bytes between double quotes.
pub open spec fn spec_encode_string(s: Seq<u8>) -> Seq<u8> {
    seq![0x22u8] + spec_escape(s) + seq![0x22u8]
}

/// The exact byte sequence this library writes for a JSON value: no
/// whitespace, members and elements in order, strings minimally escaped.
pub open spec fn spec_encode(v: JsonVal) -> Seq<u8>
    decreases v, 0int,
{
    match v {
        JsonVal::Null => seq![0x6eu8, 0x75, 0x6c, 0x6c],
        JsonVal::Bool(b) => if b {
            seq![0x74u8, 0x72, 0x75, 0x65]
        } else {
            seq![0x66u8, 0x61, 0x6c, 0x73, 0x65]
        },
        JsonVal::Number(n) => n,
        JsonVal::Str(s) => spec_encode_string(s),
        JsonVal::Array(elems) => seq![0x5bu8] + spec_encode_elems(elems, 0) + seq![0x5du8],
        JsonVal::Object(members) => seq![0x7bu8] + spec_encode_members(members, 0) + seq![
            0x7du8,
        ],
    }
}

/// The elements of an array from index `i` on, comma-separated.
pub open spec fn spec_encode_elems(elems: Seq<JsonVal>, i: int) -> Seq<u8>
    decreases elems, elems.len() - i,
{
    if i < 0 || i >= elems.len() {
        Seq::empty()
    } else {
        let sep: Seq<u8> = if i == 0 {
            Seq::empty()
        } else {
            seq![0x2cu8]
        };
        sep + spec_encode(elems[i]) + spec_encode_elems(elems, i + 1)
    }
}

/// The members of an object from index `i` on, comma-separated.
pub open spec fn spec_encode_members(members: Seq<(Seq<u8>, JsonVal)>, i: int) -> Seq<u8>
    decreases members, members.len() - i,
{
    if i < 0 || i >= members.len() {
        Seq::empty()
    } else {
        let sep: Seq<u8> = if i == 0 {
            Seq::empty()
        } else {
            seq![0x2cu8]
        };
        sep + spec_encode_string(members[i].0) + seq![0x3au8] + spec_encode(members[i].1)
            + spec_encode_members(members, i + 1)
    }
}

/// A copy of `b`: same bytes.
pub fn clone_bytes(b: &Vec<u8>) -> (r: Vec<u8>)
    ensures
        r@ == b@,
{
    let mut out: Vec<u8> = Vec::new();
    push_bytes(&mut out, b);
    out
}

/// Appends a copy of `b` to `out`.
pub fn push_bytes(out: &mut Vec<u8>, b: &Vec<u8>)
    ensures
        final(out)@ == old(out)@ + b@,
{
    let mut i: usize = 0;
    while i < b.len()
        invariant
            0 <= i <= b.len(),
            out@ == old(out)@ + b@.take(i as int),
        decreases b.len() - i,
    {
        out.push(b[i]);
        assert(b@.take(i + 1) =~= b@.take(i as int) + seq![b@[i as int]]);
        assert(out@ =~= old(out)@ + b@.take(i + 1));
        i += 1;
    }
    assert(b@.take(b@.len() as int) =~= b@);
}

/// Appends the escaped form of one byte to `out`.
fn push_escaped_byte(out: &mut Vec<u8>, b: u8)
    ensures
        final(out)@ == old(out)@ + spec_escape_byte(b),
{
    if b == 0x22 || b == 0x5c {
        out.push(0x5c);
        out.push(b);
        assert(out@ =~= old(out)@ + spec_escape_byte(b));
    } else if b == 0x08 {
        out.push(0x5c);
        out.push(0x62);
        assert(out@ =~= old(out)@ + spec_escape_byte(b));
    } else if b == 0x0c {
        out.push(0x5c);
        out.push(0x66);
        assert(out@ =~= old(out)@ + spec_escape_byte(b));
    } else if b == 0x0a {
        out.push(0x5c);
        out.push(0x6e);
        assert(out@ =~= old(out)@ + spec_escape_byte(b));
    } else if b == 0x0d {
        out.push(0x5c);
        out.push(0x72);
        assert(out@ =~= old(out)@ + spec_escape_byte(b));
    } else if b == 0x09 {
        out.push(0x5c);
        out.push(0x74);
        assert(out@ =~= old(out)@ + spec_escape_byte(b));
    } else if b < 0x20 {
        out.push(0x5c);
        out.push(0x75);
        out.push(0x30);
        out.push(0x30);
        let hi: u8 = b / 16;
        let lo: u8 = b % 16;
        out.push(if hi < 10 { hi + 0x30 } else { hi - 10 + 0x61 });
        out.push(if lo < 10 { lo + 0x30 } else { lo - 10 + 0x61 });
        assert(out@ =~= old(out)@ + spec_escape_byte(b));
    } else {
        out.push(b);
        assert(out@ =~= old(out)@ + spec_escape_byte(b));
    }
}

/// Appends the JSON string literal for the decoded bytes `s` to `out`.
pub fn push_string_literal(out: &mut Vec<u8>, s: &Vec<u8>)
    ensures
        final(out)@ == old(out)@ + spec_encode_string(s@),
{
    out.push(0x22);
    assert(s@.skip(0) =~= s@);
    let mut i: usize = 0;
    while i < s.len()
        invariant
            0 <= i <= s.len(),
            out@ + spec_escape(s@.skip(i as int)) == old(out)@ + seq![0x22u8] + spec_escape(s@),
        decreases s.len() - i,
    {
        let ghost pre = out@;
        push_escaped_byte(out, s[i]);
        proof {
            assert(s@.skip(i as int).len() > 0);
            assert(s@.skip(i as int)[0] == s@[i as int]);
            assert(s@.skip(i as int).skip(1) =~= s@.skip(i + 1));
            assert(spec_escape(s@.skip(i as int)) == spec_escape_byte(s@[i as int])
                + spec_escape(s@.skip(i + 1)));
            assert(out@ + spec_escape(s@.skip(i + 1)) =~= pre + spec_escape(s@.skip(i as int)));
        }
        i += 1;
    }
    proof {
        assert(s@.skip(s@.len() as int) =~= Seq::<u8>::empty());
        assert(out@ + spec_escape(s@.skip(s@.len() as int)) =~= out@);
    }
    out.push(0x22);
    assert(out@ =~= old(out)@ + spec_encode_string(s@));
}

/// Appends the JSON encoding of `v` to `out`: exactly the bytes that
/// `spec_encode` gives for the value's model.
pub fn encode_value(v: &JsonValue, out: &mut Vec<u8>)
    ensures
        final(out)@ == old(out)@ + spec_encode(v.model()),
    decreases *v,
{
    match v {
        JsonValue::Null => {
            out.push(0x6e);
            out.push(0x75);
            out.push(0x6c);
            out.push(0x6c);
            assert(out@ =~= old(out)@ + spec_encode(v.model()));
        },
        JsonValue::Bool(b) => {
            if *b {
                out.push(0x74);
                out.push(0x72);
                out.push(0x75);
                out.push(0x65);
            } else {
                out.push(0x66);
                out.push(0x61);
                out.push(0x6c);
                out.push(0x73);
                out.push(0x65);
            }
            assert(out@ =~= old(out)@ + spec_encode(v.model()));
        },
        JsonValue::Number(n) => {
            push_bytes(out, n);
        },
        JsonValue::Str(s) => {
            push_string_literal(out, s);
        },
        JsonValue::Array(elems) => {
            let ghost m = v.model()->Array_0;
            proof {
                assert(m.len() == elems@.len());
            }
            out.push(0x5b);
            let mut i: usize = 0;
            while i < elems.len()
                invariant
                    v is Array,
                    v->Array_0 == *elems,
                    m == v.model()->Array_0,
                    0 <= i <= elems.len(),
                    m.len() == elems@.len(),
                    forall|j: int| 0 <= j < elems@.len() ==> m[j] == elems@[j].model(),
                    out@ + spec_encode_elems(m, i as int) == old(out)@ + seq![0x5bu8]
                        + spec_encode_elems(m, 0),
                decreases elems.len() - i,
            {
                let ghost pre = out@;
                if i > 0 {
                    out.push(0x2c);
                }
                proof {
                    assert(decreases_to!(*v => v->Array_0));
                    assert(decreases_to!(v->Array_0 => v->Array_0@));
                    assert(decreases_to!(v->Array_0@ => v->Array_0@[i as int]));
                    assert(v->Array_0@[i as int] == elems@[i as int]);
                }
                encode_value(&elems[i], out);
                proof {
                    let sep: Seq<u8> = if i == 0 {
                        Seq::empty()
                    } else {
                        seq![0x2cu8]
                    };
                    assert(spec_encode_elems(m, i as int) == sep + spec_encode(m[i as int])
                        + spec_encode_elems(m, i + 1));
                    assert(out@ + spec_encode_elems(m, i + 1) =~= pre + spec_encode_elems(
                        m,
                        i as int,
                    ));
                }
                i += 1;
            }
            out.push(0x5d);
            proof {
                assert(spec_encode_elems(m, elems@.len() as int) =~= Seq::<u8>::empty());
                assert(out@ =~= old(out)@ + spec_encode(v.model()));
            }
        },
        JsonValue::Object(members) => {
            let ghost m = v.model()->Object_0;
            proof {
                assert(m.len() == members@.len());
            }
            out.push(0x7b);
            let mut i: usize = 0;
            while i < members.len()
                invariant
                    v is Object,
                    v->Object_0 == *members,
                    m == v.model()->Object_0,
                    0 <= i <= members.len(),
                    m.len() == members@.len(),
                    forall|j: int| 0 <= j < members@.len() ==> m[j] == (
                        members@[j].0@,
                        members@[j].1.model(),
                    ),
                    out@ + spec_encode_members(m, i as int) == old(out)@ + seq![0x7bu8]
                        + spec_encode_members(m, 0),
                decreases members.len() - i,
            {
                let ghost pre = out@;
                if i > 0 {
                    out.push(0x2c);
                }
                push_string_literal(out, &members[i].0);
                out.push(0x3a);
                proof {
                    assert(decreases_to!(*v => v->Object_0));
                    assert(decreases_to!(v->Object_0 => v->Object_0@));
                    assert(decreases_to!(v->Object_0@ => v->Object_0@[i as int]));
                    assert(decreases_to!(v->Object_0@[i as int] => v->Object_0@[i as int].1));
                    assert(v->Object_0@[i as int].1 == members@[i as int].1);
                }
                encode_value(&members[i].1, out);
                proof {
                    let sep: Seq<u8> = if i == 0 {
                        Seq::empty()
                    } else {
                        seq![0x2cu8]
                    };
                    assert(spec_encode_members(m, i as int) == sep + spec_encode_string(
                        m[i as int].0,
                    ) + seq![0x3au8] + spec_encode(m[i as int].1) + spec_encode_members(m, i + 1));
                    assert(out@ + spec_encode_members(m, i + 1) =~= pre + spec_encode_members(
                        m,
                        i as int,
                    ));
                }
                i += 1;
            }
            out.push(0x7d);
            proof {
                assert(spec_encode_members(m, members@.len() as int) =~= Seq::<u8>::empty());
                assert(out@ =~= old(out)@ + spec_encode(v.model()));
            }
        },
    }
}

/// The JSON document for `v`, as one byte vector.
pub fn encode_document(v: &JsonValue) -> (r: Vec<u8>)
    ensures
        r@ == spec_encode(v.model()),
{
    let mut out: Vec<u8> = Vec::new();
    encode_value(v, &mut out);
    out
}

/// A copy of `v`: same model.
pub fn clone_value(v: &JsonValue) -> (r: JsonValue)
    ensures
        r.model() == v.model(),
    decreases *v,
{
    match v {
        JsonValue::Null => JsonValue::Null,
        JsonValue::Bool(b) => JsonValue::Bool(*b),
        JsonValue::Number(n) => JsonValue::Number(clone_bytes(n)),
        JsonValue::Str(s) => JsonValue::Str(clone_bytes(s)),
        JsonValue::Array(elems) => {
            let ghost m = v.model()->Array_0;
            let mut out: Vec<JsonValue> = Vec::new();
            let mut i: usize = 0;
            while i < elems.len()
                invariant
                    v is Array,
                    v->Array_0 == *elems,
                    m == v.model()->Array_0,
                    0 <= i <= elems.len(),
                    m.len() == elems@.len(),
                    out@.len() == i,
                    forall|j: int| 0 <= j < i ==> out@[j].model() == m[j],
                decreases elems.len() - i,
            {
                proof {
                    assert(decreases_to!(*v => v->Array_0));
                    assert(decreases_to!(v->Array_0 => v->Array_0@));
                    assert(decreases_to!(v->Array_0@ => v->Array_0@[i as int]));
                    assert(v->Array_0@[i as int] == elems@[i as int]);
                }
                let c = clone_value(&elems[i]);
                out.push(c);
                i += 1;
            }
            let r = JsonValue::Array(out);
            proof {
                lemma_model_array(r);
                lemma_model_array(*v);
                assert(seq_models(out@) =~= seq_models(elems@));
            }
            r
        },
        JsonValue::Object(members) => {
            proof {
                assert(decreases_to!(*v => v->Object_0));
                assert(v->Object_0 == *members);
            }
            let copied = clone_members(members);
            let r = JsonValue::Object(copied);
            proof {
                lemma_model_object(r);
                lemma_model_object(*v);
            }
            r
        },
    }
}

/// A copy of an object's member list: same models.
pub fn clone_members(members: &Vec<(Vec<u8>, JsonValue)>) -> (r: Vec<(Vec<u8>, JsonValue)>)
    ensures
        member_models(r@) == member_models(members@),
    decreases *members,
{
    let mut out: Vec<(Vec<u8>, JsonValue)> = Vec::new();
    let mut i: usize = 0;
    while i < members.len()
        invariant
            0 <= i <= members.len(),
            out@.len() == i,
            forall|j: int| #![all_triggers] 0 <= j < i ==> out@[j].0@ == members@[j].0@
                && out@[j].1.model() == members@[j].1.model(),
        decreases members.len() - i,
    {
        proof {
            assert(decreases_to!(*members => members@));
            assert(decreases_to!(members@ => members@[i as int]));
            assert(decreases_to!(members@[i as int] => members@[i as int].1));
        }
        let k = clone_bytes(&members[i].0);
        let c = clone_value(&members[i].1);
        out.push((k, c));
        i += 1;
    }
    assert(member_models(out@) =~= member_models(members@));
    out
}

} // verus!
