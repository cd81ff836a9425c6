//! The JSON trees the wire protocol is written in.
//!
//! `JsonValue` is the executable tree; `JsonV` is its mathematical view.
//! Objects keep their fields as an ordered list of pairs, so contracts can
//! speak about exactly which fields a request body carries and in which
//! order they were written.

use vstd::prelude::*;

verus! {

/// The mathematical model of a JSON document (no floating-point numbers:
/// every number on this wire is an integer).
pub enum JsonV {
    Null,
    Bool(bool),
    Int(i64),
    Str(Seq<char>),
    Arr(Seq<JsonV>),
    Obj(Seq<(Seq<char>, JsonV)>),
}

/// The executable JSON tree.
pub enum JsonValue {
    Null,
    Bool(bool),
    Int(i64),
    Str(String),
    Arr(Vec<JsonValue>),
    Obj(Vec<(String, JsonValue)>),
}

pub open spec fn jv(v: JsonValue) -> JsonV
    decreases v,
{
    match v {
        JsonValue::Null => JsonV::Null,
        JsonValue::Bool(b) => JsonV::Bool(b),
        JsonValue::Int(i) => JsonV::Int(i),
        JsonValue::Str(s) => JsonV::Str(s@),
        JsonValue::Arr(items) => JsonV::Arr(jv_items(items@)),
        JsonValue::Obj(fields) => JsonV::Obj(jv_fields(fields@)),
    }
}

pub open spec fn jv_items(s: Seq<JsonValue>) -> Seq<JsonV>
    decreases s,
{
    if s.len() == 0 {
        Seq::empty()
    } else {
        jv_items(s.drop_last()).push(jv(s.last()))
    }
}

pub open spec fn jv_fields(s: Seq<(String, JsonValue)>) -> Seq<(Seq<char>, JsonV)>
    decreases s,
{
    if s.len() == 0 {
        Seq::empty()
    } else {
        jv_fields(s.drop_last()).push((s.last().0@, jv(s.last().1)))
    }
}

impl View for JsonValue {
    type V = JsonV;

    open spec fn view(&self) -> JsonV {
        jv(*self)
    }
}

pub broadcast proof fn lemma_jv_items(s: Seq<JsonValue>)
    ensures
        (#[trigger] jv_items(s)).len() == s.len(),
        forall|i: int| 0 <= i < s.len() ==> jv_items(s)[i] == jv(s[i]),
    decreases s.len(),
{
    if s.len() > 0 {
        lemma_jv_items(s.drop_last());
    }
}

pub broadcast proof fn lemma_jv_fields(s: Seq<(String, JsonValue)>)
    ensures
        (#[trigger] jv_fields(s)).len() == s.len(),
        forall|i: int|
            0 <= i < s.len() ==> jv_fields(s)[i] == (s[i].0@, jv(s[i].1)),
    decreases s.len(),
{
    if s.len() > 0 {
        lemma_jv_fields(s.drop_last());
    }
}

/// First value bound to key `k` in an object's field list, if any.
pub open spec fn obj_get(fields: Seq<(Seq<char>, JsonV)>, k: Seq<char>) -> Option<JsonV>
    decreases fields.len(),
{
    if fields.len() == 0 {
        None
    } else if fields.first().0 == k {
        Some(fields.first().1)
    } else {
        obj_get(fields.drop_first(), k)
    }
}

/// A single mandatory field, as a one-entry field list.
pub open spec fn field(k: Seq<char>, v: JsonV) -> Seq<(Seq<char>, JsonV)> {
    seq![(k, v)]
}

/// An optional field: absent values contribute no entry at all.
pub open spec fn opt_field(k: Seq<char>, v: Option<JsonV>) -> Seq<(Seq<char>, JsonV)> {
    match v {
        Some(x) => seq![(k, x)],
        None => Seq::empty(),
    }
}

pub broadcast proof fn lemma_obj_get_empty(k: Seq<char>)
    ensures
        #[trigger] obj_get(Seq::empty(), k) == None::<JsonV>,
{
}

pub broadcast proof fn lemma_obj_get_field(k: Seq<char>, v: JsonV, q: Seq<char>)
    ensures
        #[trigger] obj_get(field(k, v), q) == if q == k {
            Some(v)
        } else {
            None
        },
{
    assert(field(k, v).drop_first() =~= Seq::empty());
    lemma_obj_get_empty(q);
}

pub broadcast proof fn lemma_obj_get_opt_field(k: Seq<char>, v: Option<JsonV>, q: Seq<char>)
    ensures
        #[trigger] obj_get(opt_field(k, v), q) == if q == k {
            v
        } else {
            None
        },
{
    match v {
        Some(x) => {
            assert(opt_field(k, v).drop_first() =~= Seq::empty());
            lemma_obj_get_empty(q);
        },
        None => {
            lemma_obj_get_empty(q);
        },
    }
}

/// The boolean bound to `k`, if the field is there and holds a boolean.
pub open spec fn get_bool(fields: Seq<(Seq<char>, JsonV)>, k: Seq<char>) -> Option<bool> {
    match obj_get(fields, k) {
        Some(JsonV::Bool(b)) => Some(b),
        _ => None,
    }
}

/// The integer bound to `k`, if the field is there and holds an integer.
pub open spec fn get_int(fields: Seq<(Seq<char>, JsonV)>, k: Seq<char>) -> Option<i64> {
    match obj_get(fields, k) {
        Some(JsonV::Int(i)) => Some(i),
        _ => None,
    }
}

/// The string bound to `k`, if the field is there and holds a string.
pub open spec fn get_str(fields: Seq<(Seq<char>, JsonV)>, k: Seq<char>) -> Option<Seq<char>> {
    match obj_get(fields, k) {
        Some(JsonV::Str(s)) => Some(s),
        _ => None,
    }
}

/// The array bound to `k`, if the field is there and holds an array.
pub open spec fn get_arr(fields: Seq<(Seq<char>, JsonV)>, k: Seq<char>) -> Option<Seq<JsonV>> {
    match obj_get(fields, k) {
        Some(JsonV::Arr(a)) => Some(a),
        _ => None,
    }
}

/// The object bound to `k`, if the field is there and holds an object.
pub open spec fn get_obj(fields: Seq<(Seq<char>, JsonV)>, k: Seq<char>) -> Option<
    Seq<(Seq<char>, JsonV)>,
> {
    match obj_get(fields, k) {
        Some(JsonV::Obj(f)) => Some(f),
        _ => None,
    }
}

/// First field named `k`, scanning in order, as the model's `obj_get` does.
pub fn lookup<'a>(fields: &'a Vec<(String, JsonValue)>, k: &String) -> (r: Option<
    &'a JsonValue,
>)
    ensures
        match r {
            Some(v) => obj_get(jv_fields(fields@), k@) == Some(v@),
            None => obj_get(jv_fields(fields@), k@) is None,
        },
{
    proof {
        lemma_jv_fields(fields@);
        assert(jv_fields(fields@).skip(0) =~= jv_fields(fields@));
    }
    let mut i: usize = 0;
    while i < fields.len()
        invariant
            i <= fields@.len(),
            jv_fields(fields@).len() == fields@.len(),
            forall|j: int|
                0 <= j < fields@.len() ==> jv_fields(fields@)[j] == (
                fields@[j].0@,
                jv(fields@[j].1),
                ),
            obj_get(jv_fields(fields@), k@) == obj_get(
                jv_fields(fields@).skip(i as int),
                k@,
            ),
        decreases fields@.len() - i,
    {
        if fields[i].0 == *k {
            proof {
                let tail = jv_fields(fields@).skip(i as int);
                assert(tail.first() == (fields@[i as int].0@, jv(fields@[i as int].1)));
            }
            return Some(&fields[i].1);
        }
        proof {
            let tail = jv_fields(fields@).skip(i as int);
            assert(tail.first() == (fields@[i as int].0@, jv(fields@[i as int].1)));
            assert(tail.drop_first() =~= jv_fields(fields@).skip(i as int + 1));
        }
        i = i + 1;
    }
    proof {
        assert(jv_fields(fields@).skip(fields@.len() as int) =~= Seq::empty());
    }
    None
}

/// Index of the first field named `k`, scanning in order.
pub fn index_of(fields: &Vec<(String, JsonValue)>, k: &String) -> (r: Option<usize>)
    ensures
        match r {
            Some(i) => i < fields@.len() && fields@[i as int].0@ == k@ && obj_get(
                jv_fields(fields@),
                k@,
            ) == Some(jv(fields@[i as int].1)),
            None => obj_get(jv_fields(fields@), k@) is None,
        },
{
    proof {
        lemma_jv_fields(fields@);
        assert(jv_fields(fields@).skip(0) =~= jv_fields(fields@));
    }
    let mut i: usize = 0;
    while i < fields.len()
        invariant
            i <= fields@.len(),
            jv_fields(fields@).len() == fields@.len(),
            forall|j: int|
                0 <= j < fields@.len() ==> jv_fields(fields@)[j] == (
                fields@[j].0@,
                jv(fields@[j].1),
                ),
            obj_get(jv_fields(fields@), k@) == obj_get(
                jv_fields(fields@).skip(i as int),
                k@,
            ),
        decreases fields@.len() - i,
    {
        if fields[i].0 == *k {
            proof {
                let tail = jv_fields(fields@).skip(i as int);
                assert(tail.first() == (fields@[i as int].0@, jv(fields@[i as int].1)));
            }
            return Some(i);
        }
        proof {
            let tail = jv_fields(fields@).skip(i as int);
            assert(tail.first() == (fields@[i as int].0@, jv(fields@[i as int].1)));
            assert(tail.drop_first() =~= jv_fields(fields@).skip(i as int + 1));
        }
        i = i + 1;
    }
    proof {
        assert(jv_fields(fields@).skip(fields@.len() as int) =~= Seq::empty());
    }
    None
}

/// Boolean field read, present and of the right type or nothing.
pub fn read_bool(fields: &Vec<(String, JsonValue)>, k: &String) -> (r: Option<bool>)
    ensures
        r == get_bool(jv_fields(fields@), k@),
{
    match lookup(fields, k) {
        Some(JsonValue::Bool(b)) => Some(*b),
        _ => None,
    }
}

/// Integer field read, present and of the right type or nothing.
pub fn read_int(fields: &Vec<(String, JsonValue)>, k: &String) -> (r: Option<i64>)
    ensures
        r == get_int(jv_fields(fields@), k@),
{
    match lookup(fields, k) {
        Some(JsonValue::Int(i)) => Some(*i),
        _ => None,
    }
}

/// String field read, present and of the right type or nothing.
pub fn read_str(fields: &Vec<(String, JsonValue)>, k: &String) -> (r: Option<String>)
    ensures
        match r {
            Some(s) => get_str(jv_fields(fields@), k@) == Some(s@),
            None => get_str(jv_fields(fields@), k@) is None,
        },
{
    match lookup(fields, k) {
        Some(JsonValue::Str(s)) => Some(s.clone()),
        _ => None,
    }
}

/// Array field read, present and of the right type or nothing.
pub fn read_arr<'a>(fields: &'a Vec<(String, JsonValue)>, k: &String) -> (r: Option<
    &'a Vec<JsonValue>,
>)
    ensures
        match r {
            Some(a) => get_arr(jv_fields(fields@), k@) == Some(jv_items(a@)),
            None => get_arr(jv_fields(fields@), k@) is None,
        },
{
    match lookup(fields, k) {
        Some(JsonValue::Arr(a)) => Some(a),
        _ => None,
    }
}

/// Object field read, present and of the right type or nothing.
pub fn read_obj<'a>(fields: &'a Vec<(String, JsonValue)>, k: &String) -> (r: Option<
    &'a Vec<(String, JsonValue)>,
>)
    ensures
        match r {
            Some(f) => get_obj(jv_fields(fields@), k@) == Some(jv_fields(f@)),
            None => get_obj(jv_fields(fields@), k@) is None,
        },
{
    match lookup(fields, k) {
        Some(JsonValue::Obj(f)) => Some(f),
        _ => None,
    }
}

/// An optional string field: absent or null is fine (inner None), a value
/// of the wrong type is not (outer None).
pub open spec fn opt_str(fields: Seq<(Seq<char>, JsonV)>, k: Seq<char>) -> Option<
    Option<Seq<char>>,
> {
    match obj_get(fields, k) {
        None => Some(None),
        Some(JsonV::Null) => Some(None),
        Some(JsonV::Str(s)) => Some(Some(s)),
        Some(_) => None,
    }
}

/// An optional integer field, as `opt_str`.
pub open spec fn opt_int(fields: Seq<(Seq<char>, JsonV)>, k: Seq<char>) -> Option<Option<i64>> {
    match obj_get(fields, k) {
        None => Some(None),
        Some(JsonV::Null) => Some(None),
        Some(JsonV::Int(i)) => Some(Some(i)),
        Some(_) => None,
    }
}

/// An optional boolean field, as `opt_str`.
pub open spec fn opt_bool(fields: Seq<(Seq<char>, JsonV)>, k: Seq<char>) -> Option<Option<bool>> {
    match obj_get(fields, k) {
        None => Some(None),
        Some(JsonV::Null) => Some(None),
        Some(JsonV::Bool(b)) => Some(Some(b)),
        Some(_) => None,
    }
}

/// Optional string field read; `None` marks a type mismatch.
pub fn read_opt_str(fields: &Vec<(String, JsonValue)>, k: &String) -> (r: Option<Option<String>>)
    ensures
        match r {
            Some(Some(s)) => opt_str(jv_fields(fields@), k@) == Some(Some(s@)),
            Some(None) => opt_str(jv_fields(fields@), k@) == Some(None::<Seq<char>>),
            None => opt_str(jv_fields(fields@), k@) is None,
        },
{
    match lookup(fields, k) {
        None => Some(None),
        Some(JsonValue::Null) => Some(None),
        Some(JsonValue::Str(s)) => Some(Some(s.clone())),
        Some(_) => None,
    }
}

/// Optional integer field read; `None` marks a type mismatch.
pub fn read_opt_int(fields: &Vec<(String, JsonValue)>, k: &String) -> (r: Option<Option<i64>>)
    ensures
        r == opt_int(jv_fields(fields@), k@),
{
    match lookup(fields, k) {
        None => Some(None),
        Some(JsonValue::Null) => Some(None),
        Some(JsonValue::Int(i)) => Some(Some(*i)),
        Some(_) => None,
    }
}

/// Optional boolean field read; `None` marks a type mismatch.
pub fn read_opt_bool(fields: &Vec<(String, JsonValue)>, k: &String) -> (r: Option<Option<bool>>)
    ensures
        r == opt_bool(jv_fields(fields@), k@),
{
    match lookup(fields, k) {
        None => Some(None),
        Some(JsonValue::Null) => Some(None),
        Some(JsonValue::Bool(b)) => Some(Some(*b)),
        Some(_) => None,
    }
}

/// Decode every element of a JSON array with `f`, all or nothing.
pub open spec fn decode_list<T>(items: Seq<JsonV>, f: spec_fn(JsonV) -> Option<T>) -> Option<
    Seq<T>,
>
    decreases items.len(),
{
    if items.len() == 0 {
        Some(Seq::empty())
    } else {
        match (decode_list(items.drop_last(), f), f(items.last())) {
            (Some(init), Some(t)) => Some(init.push(t)),
            _ => None,
        }
    }
}

/// Element-wise round trips lift to whole lists: decoding an encoded list
/// gives the list back.
pub proof fn lemma_decode_encode_list<T>(
    s: Seq<T>,
    enc: spec_fn(T) -> JsonV,
    dec: spec_fn(JsonV) -> Option<T>,
)
    requires
        forall|i: int| 0 <= i < s.len() ==> #[trigger] dec(enc(s[i])) == Some(s[i]),
    ensures
        decode_list(s.map_values(enc), dec) == Some(s),
    decreases s.len(),
{
    if s.len() > 0 {
        assert(s.map_values(enc).drop_last() =~= s.drop_last().map_values(enc));
        assert forall|i: int| 0 <= i < s.drop_last().len() implies #[trigger] dec(
            enc(s.drop_last()[i]),
        ) == Some(s.drop_last()[i]) by {
            assert(s.drop_last()[i] == s[i]);
        }
        lemma_decode_encode_list(s.drop_last(), enc, dec);
        assert(s.drop_last().push(s.last()) =~= s);
    }
}

/// A list whose decoding fails on some prefix fails as a whole.
pub proof fn lemma_decode_list_prefix_none<T>(
    items: Seq<JsonV>,
    f: spec_fn(JsonV) -> Option<T>,
    i: int,
)
    requires
        0 <= i <= items.len(),
        decode_list(items.take(i), f) is None,
    ensures
        decode_list(items, f) is None,
    decreases items.len() - i,
{
    if i < items.len() {
        assert(items.take(i + 1).drop_last() =~= items.take(i));
        lemma_decode_list_prefix_none(items, f, i + 1);
    } else {
        assert(items.take(i) =~= items);
    }
}

/// One decimal digit as a character.
pub open spec fn digit_char(d: int) -> char {
    if d == 0 {
        '0'
    } else if d == 1 {
        '1'
    } else if d == 2 {
        '2'
    } else if d == 3 {
        '3'
    } else if d == 4 {
        '4'
    } else if d == 5 {
        '5'
    } else if d == 6 {
        '6'
    } else if d == 7 {
        '7'
    } else if d == 8 {
        '8'
    } else {
        '9'
    }
}

/// Decimal digits of a non-negative number, most significant first.
pub open spec fn dec_digits(n: nat) -> Seq<char>
    decreases n,
{
    if n < 10 {
        seq![digit_char(n as int)]
    } else {
        dec_digits(n / 10).push(digit_char((n % 10) as int))
    }
}

/// Decimal text of a signed number.
pub open spec fn spec_encode_int(n: int) -> Seq<char> {
    if n < 0 {
        seq!['-'] + dec_digits((-n) as nat)
    } else {
        dec_digits(n as nat)
    }
}

/// How one character is written inside a JSON string literal.
pub open spec fn escape_char(c: char) -> Seq<char> {
    if c == '"' {
        seq!['\\', '"']
    } else if c == '\\' {
        seq!['\\', '\\']
    } else if c == '\n' {
        seq!['\\', 'n']
    } else if c == '\r' {
        seq!['\\', 'r']
    } else if c == '\t' {
        seq!['\\', 't']
    } else {
        seq![c]
    }
}

pub open spec fn escape(s: Seq<char>) -> Seq<char>
    decreases s,
{
    if s.len() == 0 {
        Seq::empty()
    } else {
        escape(s.drop_last()) + escape_char(s.last())
    }
}

/// A quoted, escaped JSON string literal.
pub open spec fn spec_encode_str(s: Seq<char>) -> Seq<char> {
    seq!['"'] + escape(s) + seq!['"']
}

/// The text form this library writes for a JSON value: no whitespace,
/// fields in the order the object lists them.
pub open spec fn spec_encode(v: JsonV) -> Seq<char>
    decreases v,
{
    match v {
        JsonV::Null => seq!['n', 'u', 'l', 'l'],
        JsonV::Bool(b) => if b {
            seq!['t', 'r', 'u', 'e']
        } else {
            seq!['f', 'a', 'l', 's', 'e']
        },
        JsonV::Int(i) => spec_encode_int(i as int),
        JsonV::Str(s) => spec_encode_str(s),
        JsonV::Arr(items) => seq!['['] + spec_encode_items(items) + seq![']'],
        JsonV::Obj(fields) => seq!['{'] + spec_encode_fields(fields) + seq!['}'],
    }
}

pub open spec fn spec_encode_items(items: Seq<JsonV>) -> Seq<char>
    decreases items,
{
    if items.len() == 0 {
        Seq::empty()
    } else if items.len() == 1 {
        spec_encode(items.last())
    } else {
        spec_encode_items(items.drop_last()) + seq![','] + spec_encode(items.last())
    }
}

pub open spec fn spec_encode_fields(fields: Seq<(Seq<char>, JsonV)>) -> Seq<char>
    decreases fields,
{
    if fields.len() == 0 {
        Seq::empty()
    } else if fields.len() == 1 {
        spec_encode_str(fields.last().0) + seq![':'] + spec_encode(fields.last().1)
    } else {
        spec_encode_fields(fields.drop_last()) + seq![','] + spec_encode_str(fields.last().0)
            + seq![':'] + spec_encode(fields.last().1)
    }
}

/// Relies on std's `String::push`: appends exactly the one given character.
#[verifier::external_body]
pub(crate) fn push_char(out: &mut String, c: char)
    ensures
        final(out)@ == old(out)@.push(c),
{
    out.push(c);
}

fn write_digit(d: u64, out: &mut String)
    requires
        d < 10,
    ensures
        final(out)@ == old(out)@.push(digit_char(d as int)),
{
    let c: char = if d == 0 {
        '0'
    } else if d == 1 {
        '1'
    } else if d == 2 {
        '2'
    } else if d == 3 {
        '3'
    } else if d == 4 {
        '4'
    } else if d == 5 {
        '5'
    } else if d == 6 {
        '6'
    } else if d == 7 {
        '7'
    } else if d == 8 {
        '8'
    } else {
        '9'
    };
    push_char(out, c);
}

fn write_digits(m: u64, out: &mut String)
    ensures
        final(out)@ == old(out)@ + dec_digits(m as nat),
    decreases m,
{
    if m < 10 {
        write_digit(m, out);
        assert(old(out)@ + dec_digits(m as nat) =~= old(out)@.push(digit_char(m as int)));
    } else {
        write_digits(m / 10, out);
        write_digit(m % 10, out);
        assert(old(out)@ + dec_digits(m as nat) =~= (old(out)@ + dec_digits((m / 10) as nat)).push(
            digit_char((m % 10) as int),
        ));
    }
}

fn write_int(n: i64, out: &mut String)
    ensures
        final(out)@ == old(out)@ + spec_encode_int(n as int),
{
    if n < 0 {
        push_char(out, '-');
        let m: u64 = if n == i64::MIN {
            9223372036854775808u64
        } else {
            (-n) as u64
        };
        write_digits(m, out);
        assert(old(out)@ + spec_encode_int(n as int) =~= (old(out)@.push('-')) + dec_digits(
            m as nat,
        ));
    } else {
        write_digits(n as u64, out);
    }
}

fn write_escaped_char(c: char, out: &mut String)
    ensures
        final(out)@ == old(out)@ + escape_char(c),
{
    if c == '"' {
        push_char(out, '\\');
        push_char(out, '"');
    } else if c == '\\' {
        push_char(out, '\\');
        push_char(out, '\\');
    } else if c == '\n' {
        push_char(out, '\\');
        push_char(out, 'n');
    } else if c == '\r' {
        push_char(out, '\\');
        push_char(out, 'r');
    } else if c == '\t' {
        push_char(out, '\\');
        push_char(out, 't');
    } else {
        push_char(out, c);
    }
    assert(out@ =~= old(out)@ + escape_char(c));
}

fn write_quoted(s: &str, out: &mut String)
    ensures
        final(out)@ == old(out)@ + spec_encode_str(s@),
{
    push_char(out, '"');
    let n = s.unicode_len();
    let mut i: usize = 0;
    let ghost base = out@;
    while i < n
        invariant
            i <= n,
            n == s@.len(),
            out@ == base + escape(s@.take(i as int)),
        decreases n - i,
    {
        let c = s.get_char(i);
        proof {
            assert(s@.take(i as int + 1).drop_last() =~= s@.take(i as int));
            assert(s@.take(i as int + 1).last() == s@[i as int]);
        }
        write_escaped_char(c, out);
        i = i + 1;
    }
    proof {
        assert(s@.take(n as int) =~= s@);
    }
    push_char(out, '"');
    assert(out@ =~= old(out)@ + spec_encode_str(s@));
}

/// Append the text form of `v` to `out`.
pub fn write_json(v: &JsonValue, out: &mut String)
    ensures
        final(out)@ == old(out)@ + spec_encode(v@),
    decreases *v,
{
    match v {
        JsonValue::Null => {
            push_char(out, 'n');
            push_char(out, 'u');
            push_char(out, 'l');
            push_char(out, 'l');
            assert(out@ =~= old(out)@ + spec_encode(v@));
        },
        JsonValue::Bool(b) => {
            if *b {
                push_char(out, 't');
                push_char(out, 'r');
                push_char(out, 'u');
                push_char(out, 'e');
            } else {
                push_char(out, 'f');
                push_char(out, 'a');
                push_char(out, 'l');
                push_char(out, 's');
                push_char(out, 'e');
            }
            assert(out@ =~= old(out)@ + spec_encode(v@));
        },
        JsonValue::Int(i) => {
            write_int(*i, out);
        },
        JsonValue::Str(s) => {
            write_quoted(s.as_str(), out);
        },
        JsonValue::Arr(items) => {
            push_char(out, '[');
            let ghost base = out@;
            let mut i: usize = 0;
            proof {
                lemma_jv_items(items@);
            }
            while i < items.len()
                invariant
                    i <= items.len(),
                    jv_items(items@).len() == items@.len(),
                    forall|j: int| 0 <= j < items@.len() ==> jv_items(items@)[j] == jv(items@[j]),
                    out@ == base + spec_encode_items(jv_items(items@).take(i as int)),
                    *v == JsonValue::Arr(*items),
                decreases items.len() - i,
            {
                if i > 0 {
                    push_char(out, ',');
                }
                proof {
                    assert((*v)->Arr_0 == *items);
                    assert(decreases_to!(*v => (*v)->Arr_0));
                    assert(decreases_to!(*items => items@));
                    assert(decreases_to!(items@ => items@[i as int]));
                }
                write_json(&items[i], out);
                proof {
                    let all = jv_items(items@);
                    assert(all.take(i as int + 1).drop_last() =~= all.take(i as int));
                    assert(all.take(i as int + 1).last() == jv(items@[i as int]));
                }
                i = i + 1;
            }
            push_char(out, ']');
            proof {
                assert(jv_items(items@).take(items@.len() as int) =~= jv_items(items@));
                assert(out@ =~= old(out)@ + spec_encode(v@));
            }
        },
        JsonValue::Obj(fields) => {
            push_char(out, '{');
            let ghost base = out@;
            let mut i: usize = 0;
            proof {
                lemma_jv_fields(fields@);
            }
            while i < fields.len()
                invariant
                    i <= fields.len(),
                    jv_fields(fields@).len() == fields@.len(),
                    forall|j: int|
                        0 <= j < fields@.len() ==> jv_fields(fields@)[j] == (
                        fields@[j].0@,
                        jv(fields@[j].1),
                        ),
                    out@ == base + spec_encode_fields(jv_fields(fields@).take(i as int)),
                    *v == JsonValue::Obj(*fields),
                decreases fields.len() - i,
            {
                if i > 0 {
                    push_char(out, ',');
                }
                write_quoted(fields[i].0.as_str(), out);
                push_char(out, ':');
                proof {
                    assert((*v)->Obj_0 == *fields);
                    assert(decreases_to!(*v => (*v)->Obj_0));
                    assert(decreases_to!(*fields => fields@));
                    assert(decreases_to!(fields@ => fields@[i as int]));
                    assert(decreases_to!(fields@[i as int] => fields@[i as int].1));
                }
                write_json(&fields[i].1, out);
                proof {
                    let all = jv_fields(fields@);
                    assert(all.take(i as int + 1).drop_last() =~= all.take(i as int));
                    assert(all.take(i as int + 1).last() == (fields@[i as int].0@, jv(
                        fields@[i as int].1,
                    )));
                }
                i = i + 1;
            }
            push_char(out, '}');
            proof {
                assert(jv_fields(fields@).take(fields@.len() as int) =~= jv_fields(fields@));
                assert(out@ =~= old(out)@ + spec_encode(v@));
            }
        },
    }
}

impl JsonValue {
    /// The wire text of this value.
    pub fn to_text(&self) -> (r: String)
        ensures
            r@ == spec_encode(self@),
    {
        let mut out = String::new();
        write_json(self, &mut out);
        out
    }
}

pub broadcast proof fn lemma_obj_get_append(
    a: Seq<(Seq<char>, JsonV)>,
    b: Seq<(Seq<char>, JsonV)>,
    k: Seq<char>,
)
    ensures
        #[trigger] obj_get(a + b, k) == if obj_get(a, k) is Some {
            obj_get(a, k)
        } else {
            obj_get(b, k)
        },
    decreases a.len(),
{
    if a.len() == 0 {
        assert(a + b =~= b);
    } else {
        assert((a + b).drop_first() =~= a.drop_first() + b);
        lemma_obj_get_append(a.drop_first(), b, k);
    }
}

} // verus!
