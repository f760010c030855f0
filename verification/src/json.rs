//! JSON document model and wire encoding.
//!
//! Values are held as a tree of plain data: integers that fit `i64` are kept
//! as such, any other number keeps its original decimal text, and objects keep
//! their fields in order. The encoder is verified against `json_bytes_of`,
//! which pins the emitted bytes exactly; parsing the wire goes through
//! `serde_json` behind a trusted wrapper.

use vstd::prelude::*;

verus! {

use vstd::utf8::encode_utf8;
use vstd::string::StringSliceAdditionalSpecFns;
use vstd::string::StrSliceExecFns;

/// A JSON value, with numbers that are not 64-bit integers kept as their
/// original decimal text.
#[derive(Debug, PartialEq, Eq)]
pub enum JsonValue {
    Null,
    Bool(bool),
    Int(i64),
    Num(String),
    Str(String),
    Arr(Vec<JsonValue>),
    Obj(Vec<(String, JsonValue)>),
}

/// The byte written for a hexadecimal digit value below 16.
pub open spec fn hex_digit(n: u8) -> u8 {
    if n < 10 {
        (0x30 + n) as u8
    } else {
        (0x57 + n) as u8
    }
}

/// How one byte of a string body appears inside a JSON string literal.
pub open spec fn esc_byte(b: u8) -> Seq<u8> {
    if b == 0x22 {
        seq![0x5c, 0x22]
    } else if b == 0x5c {
        seq![0x5c, 0x5c]
    } else if b == 0x08 {
        seq![0x5c, 0x62]
    } else if b == 0x0c {
        seq![0x5c, 0x66]
    } else if b == 0x0a {
        seq![0x5c, 0x6e]
    } else if b == 0x0d {
        seq![0x5c, 0x72]
    } else if b == 0x09 {
        seq![0x5c, 0x74]
    } else if b < 0x20 {
        seq![0x5c, 0x75, 0x30, 0x30, hex_digit(b / 16), hex_digit(b % 16)]
    } else {
        seq![b]
    }
}

/// The escaped form of a whole string body.
pub open spec fn esc_bytes(s: Seq<u8>) -> Seq<u8>
    decreases s.len(),
{
    if s.len() == 0 {
        Seq::empty()
    } else {
        esc_bytes(s.drop_last()) + esc_byte(s.last())
    }
}

/// A JSON string literal: quotes around the escaped UTF-8 bytes.
pub open spec fn str_lit_bytes(s: Seq<char>) -> Seq<u8> {
    seq![0x22u8] + esc_bytes(encode_utf8(s)) + seq![0x22u8]
}

/// Decimal digits of a non-negative number, most significant first.
pub open spec fn dec_digits(n: nat) -> Seq<u8>
    decreases n,
{
    if n < 10 {
        seq![(0x30 + n) as u8]
    } else {
        dec_digits(n / 10) + seq![(0x30 + n % 10) as u8]
    }
}

/// Decimal form of a signed integer.
pub open spec fn int_bytes(n: int) -> Seq<u8> {
    if n < 0 {
        seq![0x2du8] + dec_digits((-n) as nat)
    } else {
        dec_digits(n as nat)
    }
}

/// The exact bytes the encoder emits for a value (compact form).
pub open spec fn json_bytes_of(v: JsonValue) -> Seq<u8>
    decreases v,
{
    match v {
        JsonValue::Null => seq![0x6eu8, 0x75, 0x6c, 0x6c],
        JsonValue::Bool(b) => if b {
            seq![0x74u8, 0x72, 0x75, 0x65]
        } else {
            seq![0x66u8, 0x61, 0x6c, 0x73, 0x65]
        },
        JsonValue::Int(n) => int_bytes(n as int),
        JsonValue::Num(s) => encode_utf8(s@),
        JsonValue::Str(s) => str_lit_bytes(s@),
        JsonValue::Arr(a) => seq![0x5bu8] + arr_bytes(a@) + seq![0x5du8],
        JsonValue::Obj(o) => seq![0x7bu8] + obj_bytes(o@) + seq![0x7du8],
    }
}

/// The comma-separated encoding of an array's elements.
pub open spec fn arr_bytes(s: Seq<JsonValue>) -> Seq<u8>
    decreases s,
{
    if s.len() == 0 {
        Seq::empty()
    } else if s.len() == 1 {
        json_bytes_of(s[0])
    } else {
        arr_bytes(s.drop_last()) + seq![0x2cu8] + json_bytes_of(s.last())
    }
}

/// The comma-separated encoding of an object's fields, in order.
pub open spec fn obj_bytes(s: Seq<(String, JsonValue)>) -> Seq<u8>
    decreases s,
{
    if s.len() == 0 {
        Seq::empty()
    } else if s.len() == 1 {
        member_bytes(s[0])
    } else {
        obj_bytes(s.drop_last()) + seq![0x2cu8] + member_bytes(s.last())
    }
}

/// One `"key":value` member.
pub open spec fn member_bytes(m: (String, JsonValue)) -> Seq<u8>
    decreases m,
{
    str_lit_bytes(m.0@) + seq![0x3au8] + json_bytes_of(m.1)
}

/// Appends the decimal digits of `n`.
fn write_u64(n: u64, out: &mut Vec<u8>)
    ensures
        final(out)@ == old(out)@ + dec_digits(n as nat),
    decreases n,
{
    if n >= 10 {
        write_u64(n / 10, out);
    }
    out.push(0x30 + (n % 10) as u8);
}

/// Appends the decimal form of `n`, with a leading minus sign when negative.
fn write_i64(n: i64, out: &mut Vec<u8>)
    ensures
        final(out)@ == old(out)@ + int_bytes(n as int),
{
    if n < 0 {
        out.push(0x2d);
        let mag: u64 = if n == i64::MIN {
            9223372036854775808u64
        } else {
            (-n) as u64
        };
        assert(mag as nat == (-(n as int)) as nat);
        write_u64(mag, out);
    } else {
        write_u64(n as u64, out);
    }
}

/// Appends one string body byte in its escaped form.
fn write_escaped_byte(b: u8, out: &mut Vec<u8>)
    ensures
        final(out)@ == old(out)@ + esc_byte(b),
{
    if b == 0x22 {
        out.push(0x5c);
        out.push(0x22);
    } else if b == 0x5c {
        out.push(0x5c);
        out.push(0x5c);
    } else if b == 0x08 {
        out.push(0x5c);
        out.push(0x62);
    } else if b == 0x0c {
        out.push(0x5c);
        out.push(0x66);
    } else if b == 0x0a {
        out.push(0x5c);
        out.push(0x6e);
    } else if b == 0x0d {
        out.push(0x5c);
        out.push(0x72);
    } else if b == 0x09 {
        out.push(0x5c);
        out.push(0x74);
    } else if b < 0x20 {
        out.push(0x5c);
        out.push(0x75);
        out.push(0x30);
        out.push(0x30);
        let hi = b / 16;
        let lo = b % 16;
        out.push(if hi < 10 { 0x30 + hi } else { 0x57 + hi });
        out.push(if lo < 10 { 0x30 + lo } else { 0x57 + lo });
    } else {
        out.push(b);
    }
}

/// Appends a quoted, escaped JSON string literal for `s`.
fn write_str_lit(s: &str, out: &mut Vec<u8>)
    ensures
        final(out)@ == old(out)@ + str_lit_bytes(s@),
{
    out.push(0x22);
    let bytes = s.as_bytes();
    let ghost mid = out@;
    let mut i: usize = 0;
    while i < bytes.len()
        invariant
            i <= bytes.len(),
            bytes@ == s.spec_bytes(),
            out@ == mid + esc_bytes(bytes@.subrange(0, i as int)),
        decreases bytes.len() - i,
    {
        let ghost pre = bytes@.subrange(0, i as int);
        write_escaped_byte(bytes[i], out);
        proof {
            let post = bytes@.subrange(0, i + 1int);
            assert(post.drop_last() =~= pre);
            assert(post.last() == bytes@[i as int]);
        }
        i = i + 1;
    }
    proof {
        assert(bytes@.subrange(0, bytes@.len() as int) =~= bytes@);
    }
    out.push(0x22);
}

/// Appends the compact encoding of `v`.
fn write_json(v: &JsonValue, out: &mut Vec<u8>)
    ensures
        final(out)@ == old(out)@ + json_bytes_of(*v),
    decreases *v,
{
    match v {
        JsonValue::Null => {
            out.push(0x6e);
            out.push(0x75);
            out.push(0x6c);
            out.push(0x6c);
        },
        JsonValue::Bool(b) => {
            if *b {
                out.push(0x74);
                out.push(0x72);
                out.push(0x75);
                out.push(0x65);
            } else {
                out.push(0x66);
                out.push(0x61);
                out.push(0x6c);
                out.push(0x73);
                out.push(0x65);
            }
        },
        JsonValue::Int(n) => {
            write_i64(*n, out);
        },
        JsonValue::Num(s) => {
            let bytes = s.as_str().as_bytes_vec();
            let ghost mid = out@;
            let mut i: usize = 0;
            while i < bytes.len()
                invariant
                    i <= bytes.len(),
                    bytes@ == encode_utf8(s@),
                    out@ == mid + bytes@.subrange(0, i as int),
                decreases bytes.len() - i,
            {
                out.push(bytes[i]);
                proof {
                    assert(bytes@.subrange(0, i + 1int) =~= bytes@.subrange(0, i as int)
                        + seq![bytes@[i as int]]);
                }
                i = i + 1;
            }
            proof {
                assert(bytes@.subrange(0, bytes@.len() as int) =~= bytes@);
            }
        },
        JsonValue::Str(s) => {
            write_str_lit(s.as_str(), out);
        },
        JsonValue::Arr(a) => {
            out.push(0x5b);
            let ghost mid = out@;
            let mut i: usize = 0;
            while i < a.len()
                invariant
                    i <= a.len(),
                    *v == JsonValue::Arr(*a),
                    out@ == mid + arr_bytes(a@.subrange(0, i as int)),
                decreases a.len() - i,
            {
                if i > 0 {
                    out.push(0x2c);
                }
                let ghost pre = a@.subrange(0, i as int);
                proof {
                    assert(decreases_to!(*v => v->Arr_0));
                    vstd::std_specs::vec::axiom_vec_decreases_to_view(v->Arr_0);
                    vstd::seq::axiom_seq_index_decreases(a@, i as int);
                    assert(v->Arr_0 == *a);
                    assert(decreases_to!(*v => a@[i as int]));
                }
                write_json(&a[i], out);
                proof {
                    let post = a@.subrange(0, i + 1int);
                    assert(post.drop_last() =~= pre);
                    assert(post.last() == a@[i as int]);
                    if i == 0 {
                        assert(arr_bytes(post) == json_bytes_of(a@[0]));
                    }
                }
                i = i + 1;
            }
            proof {
                assert(a@.subrange(0, a@.len() as int) =~= a@);
            }
            out.push(0x5d);
        },
        JsonValue::Obj(o) => {
            out.push(0x7b);
            let ghost mid = out@;
            let mut i: usize = 0;
            while i < o.len()
                invariant
                    i <= o.len(),
                    *v == JsonValue::Obj(*o),
                    out@ == mid + obj_bytes(o@.subrange(0, i as int)),
                decreases o.len() - i,
            {
                if i > 0 {
                    out.push(0x2c);
                }
                let ghost pre = o@.subrange(0, i as int);
                write_str_lit(o[i].0.as_str(), out);
                out.push(0x3a);
                proof {
                    assert(decreases_to!(*v => v->Obj_0));
                    vstd::std_specs::vec::axiom_vec_decreases_to_view(v->Obj_0);
                    vstd::seq::axiom_seq_index_decreases(o@, i as int);
                    assert(v->Obj_0 == *o);
                    assert(decreases_to!(o@[i as int] => o@[i as int].1));
                    assert(decreases_to!(*v => o@[i as int].1));
                }
                write_json(&o[i].1, out);
                proof {
                    let post = o@.subrange(0, i + 1int);
                    assert(post.drop_last() =~= pre);
                    assert(post.last() == o@[i as int]);
                    assert(member_bytes(o@[i as int]) == str_lit_bytes(o@[i as int].0@)
                        + seq![0x3au8] + json_bytes_of(o@[i as int].1));
                    if i == 0 {
                        assert(obj_bytes(post) == member_bytes(o@[0]));
                    }
                }
                i = i + 1;
            }
            proof {
                assert(o@.subrange(0, o@.len() as int) =~= o@);
            }
            out.push(0x7d);
        },
    }
}

/// Encodes `v` as compact JSON, exactly the bytes of `json_bytes_of`.
pub fn to_json_bytes(v: &JsonValue) -> (r: Vec<u8>)
    ensures
        r@ == json_bytes_of(*v),
{
    let mut out: Vec<u8> = Vec::new();
    write_json(v, &mut out);
    out
}

/// The exact bytes of the indented (pretty) encoding of `v`, where `pad` is
/// the indentation already in force: two more spaces per nesting level, each
/// member on its own line, and a space after each object key's colon.
pub open spec fn pretty_bytes_of(v: JsonValue, pad: Seq<u8>) -> Seq<u8>
    decreases v,
{
    match v {
        JsonValue::Arr(a) => if a@.len() == 0 {
            seq![0x5bu8, 0x5d]
        } else {
            seq![0x5bu8, 0x0a] + pretty_arr_bytes(a@, pad + seq![0x20u8, 0x20]) + seq![0x0au8]
                + pad + seq![0x5du8]
        },
        JsonValue::Obj(o) => if o@.len() == 0 {
            seq![0x7bu8, 0x7d]
        } else {
            seq![0x7bu8, 0x0a] + pretty_obj_bytes(o@, pad + seq![0x20u8, 0x20]) + seq![0x0au8]
                + pad + seq![0x7du8]
        },
        _ => json_bytes_of(v),
    }
}

/// Indented array elements, one per line, separated by `,\n`.
pub open spec fn pretty_arr_bytes(s: Seq<JsonValue>, pad: Seq<u8>) -> Seq<u8>
    decreases s,
{
    if s.len() == 0 {
        Seq::empty()
    } else if s.len() == 1 {
        pad + pretty_bytes_of(s[0], pad)
    } else {
        pretty_arr_bytes(s.drop_last(), pad) + seq![0x2cu8, 0x0a] + pad
            + pretty_bytes_of(s.last(), pad)
    }
}

/// Indented object members, one per line, separated by `,\n`.
pub open spec fn pretty_obj_bytes(s: Seq<(String, JsonValue)>, pad: Seq<u8>) -> Seq<u8>
    decreases s,
{
    if s.len() == 0 {
        Seq::empty()
    } else if s.len() == 1 {
        pad + pretty_member_bytes(s[0], pad)
    } else {
        pretty_obj_bytes(s.drop_last(), pad) + seq![0x2cu8, 0x0a] + pad
            + pretty_member_bytes(s.last(), pad)
    }
}

/// One indented `"key": value` member.
pub open spec fn pretty_member_bytes(m: (String, JsonValue), pad: Seq<u8>) -> Seq<u8>
    decreases m,
{
    str_lit_bytes(m.0@) + seq![0x3au8, 0x20] + pretty_bytes_of(m.1, pad)
}

/// Copies `pad` and appends one more indentation step.
fn deeper_pad(pad: &Vec<u8>) -> (r: Vec<u8>)
    ensures
        r@ == pad@ + seq![0x20u8, 0x20],
{
    let mut r: Vec<u8> = Vec::new();
    let mut i: usize = 0;
    while i < pad.len()
        invariant
            i <= pad.len(),
            r@ == pad@.subrange(0, i as int),
        decreases pad.len() - i,
    {
        r.push(pad[i]);
        proof {
            assert(pad@.subrange(0, i + 1int) =~= pad@.subrange(0, i as int)
                + seq![pad@[i as int]]);
        }
        i = i + 1;
    }
    proof {
        assert(pad@.subrange(0, pad@.len() as int) =~= pad@);
    }
    r.push(0x20);
    r.push(0x20);
    r
}

/// Appends `pad` to the output.
fn write_pad(pad: &Vec<u8>, out: &mut Vec<u8>)
    ensures
        final(out)@ == old(out)@ + pad@,
{
    let mut i: usize = 0;
    while i < pad.len()
        invariant
            i <= pad.len(),
            out@ == old(out)@ + pad@.subrange(0, i as int),
        decreases pad.len() - i,
    {
        out.push(pad[i]);
        proof {
            assert(pad@.subrange(0, i + 1int) =~= pad@.subrange(0, i as int)
                + seq![pad@[i as int]]);
        }
        i = i + 1;
    }
    proof {
        assert(pad@.subrange(0, pad@.len() as int) =~= pad@);
    }
}

/// Appends the indented encoding of `v` under the indentation `pad`.
fn write_json_pretty(v: &JsonValue, pad: &Vec<u8>, out: &mut Vec<u8>)
    ensures
        final(out)@ == old(out)@ + pretty_bytes_of(*v, pad@),
    decreases *v,
{
    match v {
        JsonValue::Arr(a) => {
            if a.len() == 0 {
                out.push(0x5b);
                out.push(0x5d);
            } else {
                out.push(0x5b);
                out.push(0x0a);
                let pad2 = deeper_pad(pad);
                let ghost mid = out@;
                let mut i: usize = 0;
                while i < a.len()
                    invariant
                        i <= a.len(),
                        *v == JsonValue::Arr(*a),
                        pad2@ == pad@ + seq![0x20u8, 0x20],
                        out@ == mid + pretty_arr_bytes(a@.subrange(0, i as int), pad2@),
                    decreases a.len() - i,
                {
                    if i > 0 {
                        out.push(0x2c);
                        out.push(0x0a);
                    }
                    write_pad(&pad2, out);
                    let ghost pre = a@.subrange(0, i as int);
                    proof {
                        assert(decreases_to!(*v => v->Arr_0));
                        vstd::std_specs::vec::axiom_vec_decreases_to_view(v->Arr_0);
                        vstd::seq::axiom_seq_index_decreases(a@, i as int);
                        assert(v->Arr_0 == *a);
                        assert(decreases_to!(*v => a@[i as int]));
                    }
                    write_json_pretty(&a[i], &pad2, out);
                    proof {
                        let post = a@.subrange(0, i + 1int);
                        assert(post.drop_last() =~= pre);
                        assert(post.last() == a@[i as int]);
                        if i == 0 {
                            assert(pretty_arr_bytes(post, pad2@) == pad2@
                                + pretty_bytes_of(a@[0], pad2@));
                        }
                    }
                    i = i + 1;
                }
                proof {
                    assert(a@.subrange(0, a@.len() as int) =~= a@);
                }
                out.push(0x0a);
                write_pad(pad, out);
                out.push(0x5d);
            }
        },
        JsonValue::Obj(o) => {
            if o.len() == 0 {
                out.push(0x7b);
                out.push(0x7d);
            } else {
                out.push(0x7b);
                out.push(0x0a);
                let pad2 = deeper_pad(pad);
                let ghost mid = out@;
                let mut i: usize = 0;
                while i < o.len()
                    invariant
                        i <= o.len(),
                        *v == JsonValue::Obj(*o),
                        pad2@ == pad@ + seq![0x20u8, 0x20],
                        out@ == mid + pretty_obj_bytes(o@.subrange(0, i as int), pad2@),
                    decreases o.len() - i,
                {
                    if i > 0 {
                        out.push(0x2c);
                        out.push(0x0a);
                    }
                    write_pad(&pad2, out);
                    let ghost pre = o@.subrange(0, i as int);
                    write_str_lit(o[i].0.as_str(), out);
                    out.push(0x3a);
                    out.push(0x20);
                    proof {
                        assert(decreases_to!(*v => v->Obj_0));
                        vstd::std_specs::vec::axiom_vec_decreases_to_view(v->Obj_0);
                        vstd::seq::axiom_seq_index_decreases(o@, i as int);
                        assert(v->Obj_0 == *o);
                        assert(decreases_to!(o@[i as int] => o@[i as int].1));
                        assert(decreases_to!(*v => o@[i as int].1));
                    }
                    write_json_pretty(&o[i].1, &pad2, out);
                    proof {
                        let post = o@.subrange(0, i + 1int);
                        assert(post.drop_last() =~= pre);
                        assert(post.last() == o@[i as int]);
                        assert(pretty_member_bytes(o@[i as int], pad2@)
                            == str_lit_bytes(o@[i as int].0@) + seq![0x3au8, 0x20]
                            + pretty_bytes_of(o@[i as int].1, pad2@));
                        if i == 0 {
                            assert(pretty_obj_bytes(post, pad2@) == pad2@
                                + pretty_member_bytes(o@[0], pad2@));
                        }
                    }
                    i = i + 1;
                }
                proof {
                    assert(o@.subrange(0, o@.len() as int) =~= o@);
                }
                out.push(0x0a);
                write_pad(pad, out);
                out.push(0x7d);
            }
        },
        _ => {
            write_json(v, out);
        },
    }
}

/// Encodes `v` as indented JSON, exactly the bytes of `pretty_bytes_of` at
/// top level.
pub fn to_json_bytes_pretty(v: &JsonValue) -> (r: Vec<u8>)
    ensures
        r@ == pretty_bytes_of(*v, Seq::empty()),
{
    let pad: Vec<u8> = Vec::new();
    let mut out: Vec<u8> = Vec::new();
    write_json_pretty(v, &pad, &mut out);
    out
}

/// Structural equivalence of two values: equal up to the views of their
/// strings and vectors. This is the equality that a deep copy can promise,
/// since distinct allocations are never `==` in specifications.
pub open spec fn veq(a: JsonValue, b: JsonValue) -> bool
    decreases a,
{
    match (a, b) {
        (JsonValue::Null, JsonValue::Null) => true,
        (JsonValue::Bool(x), JsonValue::Bool(y)) => x == y,
        (JsonValue::Int(x), JsonValue::Int(y)) => x == y,
        (JsonValue::Num(x), JsonValue::Num(y)) => x@ == y@,
        (JsonValue::Str(x), JsonValue::Str(y)) => x@ == y@,
        (JsonValue::Arr(x), JsonValue::Arr(y)) => {
            &&& x@.len() == y@.len()
            &&& forall|i: int| #![all_triggers]
                0 <= i < x@.len() ==> veq(x@[i], y@[i])
        },
        (JsonValue::Obj(x), JsonValue::Obj(y)) => {
            &&& x@.len() == y@.len()
            &&& forall|i: int| #![all_triggers]
                0 <= i < x@.len() ==> x@[i].0@ == y@[i].0@ && veq(x@[i].1, y@[i].1)
        },
        _ => false,
    }
}

/// A structurally equivalent copy of `v`.
pub fn clone_value(v: &JsonValue) -> (r: JsonValue)
    ensures
        veq(r, *v),
    decreases *v,
{
    match v {
        JsonValue::Null => JsonValue::Null,
        JsonValue::Bool(b) => JsonValue::Bool(*b),
        JsonValue::Int(n) => JsonValue::Int(*n),
        JsonValue::Num(s) => JsonValue::Num(s.clone()),
        JsonValue::Str(s) => JsonValue::Str(s.clone()),
        JsonValue::Arr(a) => {
            let mut r: Vec<JsonValue> = Vec::new();
            let mut i: usize = 0;
            while i < a.len()
                invariant
                    i <= a.len(),
                    *v == JsonValue::Arr(*a),
                    r@.len() == i as int,
                    forall|j: int| #![all_triggers] 0 <= j < i as int ==> veq(r@[j], a@[j]),
                decreases a.len() - i,
            {
                proof {
                    assert(decreases_to!(*v => v->Arr_0));
                    vstd::std_specs::vec::axiom_vec_decreases_to_view(v->Arr_0);
                    vstd::seq::axiom_seq_index_decreases(a@, i as int);
                    assert(v->Arr_0 == *a);
                    assert(decreases_to!(*v => a@[i as int]));
                }
                r.push(clone_value(&a[i]));
                i = i + 1;
            }
            JsonValue::Arr(r)
        },
        JsonValue::Obj(o) => {
            let mut r: Vec<(String, JsonValue)> = Vec::new();
            let mut i: usize = 0;
            while i < o.len()
                invariant
                    i <= o.len(),
                    *v == JsonValue::Obj(*o),
                    r@.len() == i as int,
                    forall|j: int| #![all_triggers]
                        0 <= j < i as int ==> r@[j].0@ == o@[j].0@ && veq(r@[j].1, o@[j].1),
                decreases o.len() - i,
            {
                proof {
                    assert(decreases_to!(*v => v->Obj_0));
                    vstd::std_specs::vec::axiom_vec_decreases_to_view(v->Obj_0);
                    vstd::seq::axiom_seq_index_decreases(o@, i as int);
                    assert(v->Obj_0 == *o);
                    assert(decreases_to!(o@[i as int] => o@[i as int].1));
                    assert(decreases_to!(*v => o@[i as int].1));
                }
                let key = o[i].0.clone();
                let val = clone_value(&o[i].1);
                r.push((key, val));
                i = i + 1;
            }
            JsonValue::Obj(r)
        },
    }
}

/// The first value bound to `key` among an object's members, if any.
pub open spec fn obj_lookup(o: Seq<(String, JsonValue)>, key: Seq<char>) -> Option<JsonValue>
    decreases o.len(),
{
    if o.len() == 0 {
        None
    } else if o[0].0@ == key {
        Some(o[0].1)
    } else {
        obj_lookup(o.drop_first(), key)
    }
}

/// Looks `key` up among an object's members, first binding wins.
pub fn obj_get<'a>(o: &'a Vec<(String, JsonValue)>, key: &str) -> (r: Option<&'a JsonValue>)
    ensures
        match r {
            Some(v) => obj_lookup(o@, key@) == Some(*v),
            None => obj_lookup(o@, key@) is None,
        },
{
    let k = String::from_str(key);
    proof {
        assert(o@.subrange(0, o@.len() as int) =~= o@);
    }
    let mut i: usize = 0;
    while i < o.len()
        invariant
            i <= o.len(),
            k@ == key@,
            obj_lookup(o@, key@) == obj_lookup(o@.subrange(i as int, o@.len() as int), key@),
        decreases o.len() - i,
    {
        proof {
            let rest = o@.subrange(i as int, o@.len() as int);
            assert(rest[0] == o@[i as int]);
        }
        if o[i].0 == k {
            return Some(&o[i].1);
        }
        proof {
            let rest = o@.subrange(i as int, o@.len() as int);
            assert(rest.drop_first() =~= o@.subrange(i + 1int, o@.len() as int));
        }
        i = i + 1;
    }
    None
}

/// Field lookup on any value: `Some` only for objects that carry the key.
pub open spec fn get_field(v: JsonValue, key: Seq<char>) -> Option<JsonValue> {
    match v {
        JsonValue::Obj(o) => obj_lookup(o@, key),
        _ => None,
    }
}

/// Looks `key` up in `v` when `v` is an object.
pub fn get<'a>(v: &'a JsonValue, key: &str) -> (r: Option<&'a JsonValue>)
    ensures
        match r {
            Some(f) => get_field(*v, key@) == Some(*f),
            None => get_field(*v, key@) is None,
        },
{
    match v {
        JsonValue::Obj(o) => obj_get(o, key),
        _ => None,
    }
}

/// What a byte sequence parses to as a single JSON document, if anything.
/// The result is a function of the bytes alone.
pub uninterp spec fn json_parsed(s: Seq<u8>) -> Option<JsonValue>;

#[verifier::external_type_specification]
#[verifier::external_body]
pub struct ExSerdeValue(serde_json::Value);

/// Relies on serde_json::Value: carries a parsed node over variant by
/// variant; an integer that fits `i64` becomes `Int`, any other number keeps
/// its decimal text.
#[verifier::external_body]
fn from_serde(v: &serde_json::Value) -> JsonValue {
    match v {
        serde_json::Value::Null => JsonValue::Null,
        serde_json::Value::Bool(b) => JsonValue::Bool(*b),
        serde_json::Value::Number(n) => match n.as_i64() {
            Some(i) => JsonValue::Int(i),
            None => JsonValue::Num(n.to_string()),
        },
        serde_json::Value::String(s) => JsonValue::Str(s.clone()),
        serde_json::Value::Array(a) => JsonValue::Arr(a.iter().map(from_serde).collect()),
        serde_json::Value::Object(o) => JsonValue::Obj(
            o.iter().map(|(k, x)| (k.clone(), from_serde(x))).collect(),
        ),
    }
}

/// Relies on serde_json::from_slice: parses one JSON document from bytes;
/// success and the resulting tree depend on the bytes alone.
#[verifier::external_body]
pub fn parse_json_bytes(s: &[u8]) -> (r: Option<JsonValue>)
    ensures
        r == json_parsed(s@),
{
    match serde_json::from_slice::<serde_json::Value>(s) {
        Ok(v) => Some(from_serde(&v)),
        Err(_) => None,
    }
}

/// The characters that lossy UTF-8 decoding yields for these bytes. The
/// result is a function of the bytes alone.
pub uninterp spec fn lossy_utf8(b: Seq<u8>) -> Seq<char>;

/// Relies on String::from_utf8_lossy: the characters depend on the bytes
/// alone; valid UTF-8 decodes exactly, invalid sequences are replaced.
#[verifier::external_body]
pub fn bytes_to_string(b: &[u8]) -> (r: String)
    ensures
        r@ == lossy_utf8(b@),
{
    String::from_utf8_lossy(b).into_owned()
}

} // verus!
