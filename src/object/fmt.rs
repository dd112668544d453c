//! Debug text of objects: each kind renders as its view's name and payload, with keys and
//! string bytes escaped into printable ASCII.
use vstd::prelude::*;
use vstd::utf8::{encode_utf8, valid_utf8};

use super::{
    entries_value, items_value, lemma_entries_value_index, lemma_items_value_index, content_value,
    AsRawMutObject, Content, Keyed, Value, WafArray, WafBool, WafFloat, WafInvalid, WafMap, WafNull,
    WafObject, WafSigned, WafString, WafUnsigned,
};

verus! {

/// The uppercase hexadecimal digit of a value below sixteen.
pub open spec fn hex_digit(d: u8) -> u8 {
    if d < 10 {
        (48 + d) as u8
    } else {
        (55 + d) as u8
    }
}

/// How one byte of a key or string shows in debug text: quotes and backslashes are escaped,
/// printable ASCII and spaces show as-is, and any other byte shows as `\xHH`.
pub open spec fn escaped_byte(c: u8) -> Seq<u8> {
    if c == 34 || c == 92 {
        seq![92u8, c]
    } else if 32 <= c <= 126 {
        seq![c]
    } else {
        seq![92u8, 120u8, hex_digit(c / 16), hex_digit(c % 16)]
    }
}

/// The debug text of a byte string: each byte escaped in turn.
pub open spec fn bin_text(s: Seq<u8>) -> Seq<u8>
    decreases s.len(),
{
    if s.len() == 0 {
        Seq::empty()
    } else {
        bin_text(s.drop_last()) + escaped_byte(s.last())
    }
}

/// The decimal digits of a natural number.
pub open spec fn decimal(n: nat) -> Seq<u8>
    decreases n,
{
    if n < 10 {
        seq![(48 + n) as u8]
    } else {
        decimal(n / 10) + seq![(48 + n % 10) as u8]
    }
}

/// The decimal text of a signed integer.
pub open spec fn signed_decimal(x: i64) -> Seq<u8> {
    if x < 0 {
        seq![45u8] + decimal((-x) as nat)
    } else {
        decimal(x as nat)
    }
}

/// The bytes of `WafInvalid`.
pub open spec fn invalid_text() -> Seq<u8> {
    seq![87u8, 97, 102, 73, 110, 118, 97, 108, 105, 100]
}

/// The bytes of `WafNull`.
pub open spec fn null_text() -> Seq<u8> {
    seq![87u8, 97, 102, 78, 117, 108, 108]
}

/// The bytes of `WafSigned(`.
pub open spec fn signed_open() -> Seq<u8> {
    seq![87u8, 97, 102, 83, 105, 103, 110, 101, 100, 40]
}

/// The bytes of `WafUnsigned(`.
pub open spec fn unsigned_open() -> Seq<u8> {
    seq![87u8, 97, 102, 85, 110, 115, 105, 103, 110, 101, 100, 40]
}

/// The bytes of `WafFloat(`.
pub open spec fn float_open() -> Seq<u8> {
    seq![87u8, 97, 102, 70, 108, 111, 97, 116, 40]
}

/// The bytes of `WafBool(`.
pub open spec fn bool_open() -> Seq<u8> {
    seq![87u8, 97, 102, 66, 111, 111, 108, 40]
}

/// The bytes of `true`.
pub open spec fn true_text() -> Seq<u8> {
    seq![116u8, 114, 117, 101]
}

/// The bytes of `false`.
pub open spec fn false_text() -> Seq<u8> {
    seq![102u8, 97, 108, 115, 101]
}

/// The bytes of `WafString("`.
pub open spec fn string_open() -> Seq<u8> {
    seq![87u8, 97, 102, 83, 116, 114, 105, 110, 103, 40, 34]
}

/// The bytes of `")`.
pub open spec fn string_close() -> Seq<u8> {
    seq![34u8, 41]
}

/// The bytes of `WafArray[`.
pub open spec fn array_open() -> Seq<u8> {
    seq![87u8, 97, 102, 65, 114, 114, 97, 121, 91]
}

/// The bytes of `]`.
pub open spec fn array_close() -> Seq<u8> {
    seq![93u8]
}

/// The bytes of `WafMap{`.
pub open spec fn map_open() -> Seq<u8> {
    seq![87u8, 97, 102, 77, 97, 112, 123]
}

/// The bytes of `}`.
pub open spec fn map_close() -> Seq<u8> {
    seq![125u8]
}

/// The bytes of `, `.
pub open spec fn separator() -> Seq<u8> {
    seq![44u8, 32]
}

/// The bytes of `)`.
pub open spec fn close_paren() -> Seq<u8> {
    seq![41u8]
}

/// The bytes of `"`.
pub open spec fn quote() -> Seq<u8> {
    seq![34u8]
}

/// The bytes of `"=`.
pub open spec fn key_close() -> Seq<u8> {
    seq![34u8, 61]
}

/// True when a value holds a floating point number somewhere.
pub open spec fn has_float(v: Value) -> bool
    decreases v,
{
    match v {
        Value::Float(_) => true,
        Value::List(s) => exists|i: int| 0 <= i < s.len() && has_float(#[trigger] s[i]),
        Value::Dict(d) => exists|i: int| 0 <= i < d.len() && has_float((#[trigger] d[i]).1),
        _ => false,
    }
}

/// The debug text of a value. The text of a floating point number is supplied by the caller of
/// the rendering functions and is not described here; it stands between `WafFloat(` and `)`.
pub open spec fn debug_text(v: Value) -> Seq<u8>
    decreases v, 1nat,
{
    match v {
        Value::Invalid => invalid_text(),
        Value::Signed(x) => signed_open() + signed_decimal(x) + close_paren(),
        Value::Unsigned(x) => unsigned_open() + decimal(x as nat) + close_paren(),
        Value::Str(b) => string_open() + bin_text(b) + string_close(),
        Value::List(s) => array_open() + list_text(s) + array_close(),
        Value::Dict(d) => map_open() + dict_text(d) + map_close(),
        Value::Bool(b) => bool_open() + (if b { true_text() } else { false_text() }) + close_paren(),
        Value::Float(_) => float_open() + close_paren(),
        Value::Null => null_text(),
    }
}

/// The debug text of a map entry: its quoted key, `=`, and its value.
pub open spec fn entry_text(key: Seq<u8>, v: Value) -> Seq<u8> {
    quote() + bin_text(key) + key_close() + debug_text(v)
}

/// The debug texts of a sequence of values, separated by `, `.
pub open spec fn list_text(s: Seq<Value>) -> Seq<u8>
    decreases s, 0nat,
{
    if s.len() == 0 {
        Seq::empty()
    } else {
        let init = s.subrange(0, s.len() - 1);
        list_text(init) + (if s.len() > 1 { separator() } else { Seq::empty() }) + debug_text(s[s.len() - 1])
    }
}

/// The debug texts of a sequence of map entries, separated by `, `.
pub open spec fn dict_text(d: Seq<(Seq<u8>, Value)>) -> Seq<u8>
    decreases d, 0nat,
{
    if d.len() == 0 {
        Seq::empty()
    } else {
        let init = d.subrange(0, d.len() - 1);
        dict_text(init) + (if d.len() > 1 { separator() } else { Seq::empty() }) + quote() + bin_text(
            d[d.len() - 1].0,
        ) + key_close() + debug_text(d[d.len() - 1].1)
    }
}

/// Relies on `String::from_utf8_lossy`: bytes that are valid UTF-8 come back as the text they
/// encode.
#[verifier::external_body]
fn text_of(bytes: &[u8]) -> (r: String)
    ensures
        valid_utf8(bytes@) ==> encode_utf8(r@) == bytes@,
{
    String::from_utf8_lossy(bytes).into_owned()
}

/// Appends the bytes of a slice.
fn push_slice(out: &mut Vec<u8>, piece: &[u8])
    ensures
        final(out)@ == old(out)@ + piece@,
{
    let mut i: usize = 0;
    while i < piece.len()
        invariant
            0 <= i <= piece@.len(),
            out@ == old(out)@ + piece@.subrange(0, i as int),
        decreases piece@.len() - i,
    {
        out.push(piece[i]);
        i = i + 1;
        assert(out@ =~= old(out)@ + piece@.subrange(0, i as int));
    }
    assert(piece@.subrange(0, piece@.len() as int) =~= piece@);
}

fn hex_digit_of(d: u8) -> (r: u8)
    requires
        d < 16,
    ensures
        r == hex_digit(d),
{
    if d < 10 {
        48 + d
    } else {
        55 + d
    }
}

/// Appends the debug text of one byte.
fn push_escaped_byte(out: &mut Vec<u8>, c: u8)
    ensures
        final(out)@ == old(out)@ + escaped_byte(c),
{
    if c == 34 || c == 92 {
        out.append(&mut vec![92u8, c]);
    } else if 32 <= c && c <= 126 {
        out.push(c);
        assert(out@ =~= old(out)@ + escaped_byte(c));
    } else {
        out.append(&mut vec![92u8, 120u8, hex_digit_of(c / 16), hex_digit_of(c % 16)]);
    }
}

/// Formats a byte string as printable ASCII: quotes and backslashes are escaped with a
/// backslash, and bytes that are neither printable ASCII nor a space show as `\xHH`.
pub fn fmt_bin_str(bytes: &[u8]) -> (r: Vec<u8>)
    ensures
        r@ == bin_text(bytes@),
{
    let mut out: Vec<u8> = Vec::new();
    let mut i: usize = 0;
    while i < bytes.len()
        invariant
            0 <= i <= bytes@.len(),
            out@ == bin_text(bytes@.subrange(0, i as int)),
        decreases bytes@.len() - i,
    {
        proof {
            assert(bytes@.subrange(0, i as int + 1).drop_last() =~= bytes@.subrange(0, i as int));
        }
        push_escaped_byte(&mut out, bytes[i]);
        i = i + 1;
    }
    assert(bytes@.subrange(0, bytes@.len() as int) =~= bytes@);
    out
}

/// Appends the decimal digits of a number.
fn push_decimal(out: &mut Vec<u8>, n: u64)
    ensures
        final(out)@ == old(out)@ + decimal(n as nat),
    decreases n,
{
    if n >= 10 {
        push_decimal(out, n / 10);
    }
    out.push(48 + (n % 10) as u8);
    assert(out@ =~= old(out)@ + decimal(n as nat));
}

/// Appends the decimal text of a signed number.
fn push_signed(out: &mut Vec<u8>, x: i64)
    ensures
        final(out)@ == old(out)@ + signed_decimal(x),
{
    if x < 0 {
        out.push(45u8);
        let magnitude = (-(x as i128)) as u64;
        push_decimal(out, magnitude);
        assert(out@ =~= old(out)@ + signed_decimal(x));
    } else {
        push_decimal(out, x as u64);
    }
}

fn invalid_text_bytes() -> (r: Vec<u8>)
    ensures
        r@ == invalid_text(),
{
    vec![87u8, 97, 102, 73, 110, 118, 97, 108, 105, 100]
}

fn null_text_bytes() -> (r: Vec<u8>)
    ensures
        r@ == null_text(),
{
    vec![87u8, 97, 102, 78, 117, 108, 108]
}

fn signed_open_bytes() -> (r: Vec<u8>)
    ensures
        r@ == signed_open(),
{
    vec![87u8, 97, 102, 83, 105, 103, 110, 101, 100, 40]
}

fn unsigned_open_bytes() -> (r: Vec<u8>)
    ensures
        r@ == unsigned_open(),
{
    vec![87u8, 97, 102, 85, 110, 115, 105, 103, 110, 101, 100, 40]
}

fn float_open_bytes() -> (r: Vec<u8>)
    ensures
        r@ == float_open(),
{
    vec![87u8, 97, 102, 70, 108, 111, 97, 116, 40]
}

fn bool_open_bytes() -> (r: Vec<u8>)
    ensures
        r@ == bool_open(),
{
    vec![87u8, 97, 102, 66, 111, 111, 108, 40]
}

fn true_text_bytes() -> (r: Vec<u8>)
    ensures
        r@ == true_text(),
{
    vec![116u8, 114, 117, 101]
}

fn false_text_bytes() -> (r: Vec<u8>)
    ensures
        r@ == false_text(),
{
    vec![102u8, 97, 108, 115, 101]
}

fn string_open_bytes() -> (r: Vec<u8>)
    ensures
        r@ == string_open(),
{
    vec![87u8, 97, 102, 83, 116, 114, 105, 110, 103, 40, 34]
}

fn string_close_bytes() -> (r: Vec<u8>)
    ensures
        r@ == string_close(),
{
    vec![34u8, 41]
}

fn array_open_bytes() -> (r: Vec<u8>)
    ensures
        r@ == array_open(),
{
    vec![87u8, 97, 102, 65, 114, 114, 97, 121, 91]
}

fn array_close_bytes() -> (r: Vec<u8>)
    ensures
        r@ == array_close(),
{
    vec![93u8]
}

fn map_open_bytes() -> (r: Vec<u8>)
    ensures
        r@ == map_open(),
{
    vec![87u8, 97, 102, 77, 97, 112, 123]
}

fn map_close_bytes() -> (r: Vec<u8>)
    ensures
        r@ == map_close(),
{
    vec![125u8]
}

fn separator_bytes() -> (r: Vec<u8>)
    ensures
        r@ == separator(),
{
    vec![44u8, 32]
}

fn close_paren_bytes() -> (r: Vec<u8>)
    ensures
        r@ == close_paren(),
{
    vec![41u8]
}

fn quote_bytes() -> (r: Vec<u8>)
    ensures
        r@ == quote(),
{
    vec![34u8]
}

fn key_close_bytes() -> (r: Vec<u8>)
    ensures
        r@ == key_close(),
{
    vec![34u8, 61]
}

/// Appends the debug text of an object content; the text of each floating point number comes
/// from `float_text`, given the number's bit pattern.
fn render_content<F: Fn(u64) -> String>(c: Content<'_>, out: &mut Vec<u8>, float_text: &F)
    requires
        forall|b: u64| float_text.requires((b,)),
    ensures
        !has_float(content_value(c)) ==> final(out)@ == old(out)@ + debug_text(content_value(c)),
    decreases content_value(c), 2nat,
{
    match c {
        Content::Invalid => out.append(&mut invalid_text_bytes()),
        Content::Null => out.append(&mut null_text_bytes()),
        Content::Signed(x) => {
            out.append(&mut signed_open_bytes());
            push_signed(out, x);
            out.append(&mut close_paren_bytes());
        },
        Content::Unsigned(x) => {
            out.append(&mut unsigned_open_bytes());
            push_decimal(out, x);
            out.append(&mut close_paren_bytes());
        },
        Content::Bool(x) => {
            out.append(&mut bool_open_bytes());
            if x {
                out.append(&mut true_text_bytes());
            } else {
                out.append(&mut false_text_bytes());
            }
            out.append(&mut close_paren_bytes());
        },
        Content::Float(x) => {
            out.append(&mut float_open_bytes());
            let text = float_text(x);
            push_slice(out, text.as_str().as_bytes());
            out.append(&mut close_paren_bytes());
        },
        Content::Str(b) => {
            out.append(&mut string_open_bytes());
            let mut escaped = fmt_bin_str(b);
            out.append(&mut escaped);
            out.append(&mut string_close_bytes());
        },
        Content::Array(items) => {
            out.append(&mut array_open_bytes());
            render_items(items, out, float_text);
            out.append(&mut array_close_bytes());
        },
        Content::Dict(entries) => {
            out.append(&mut map_open_bytes());
            render_entries(entries, out, float_text);
            out.append(&mut map_close_bytes());
        },
    }
    assert(!has_float(content_value(c)) ==> out@ =~= old(out)@ + debug_text(content_value(c)));
}

/// Appends the debug texts of a sequence of array elements, separated by `, `.
fn render_items<F: Fn(u64) -> String>(items: &[WafObject], out: &mut Vec<u8>, float_text: &F)
    requires
        forall|b: u64| float_text.requires((b,)),
    ensures
        !has_float(Value::List(items_value(items@))) ==> final(out)@ == old(out)@ + list_text(
            items_value(items@),
        ),
    decreases Value::List(items_value(items@)), 1nat,
{
    let ghost s = items_value(items@);
    let ghost no_float = !has_float(Value::List(s));
    let mut i: usize = 0;
    while i < items.len()
        invariant
            0 <= i <= items@.len(),
            s == items_value(items@),
            s.len() == items@.len(),
            no_float == !has_float(Value::List(s)),
            forall|b: u64| float_text.requires((b,)),
            no_float ==> out@ == old(out)@ + list_text(s.subrange(0, i as int)),
        decreases items@.len() - i,
    {
        proof {
            lemma_items_value_index(items@, i as int);
        }
        if i > 0 {
            out.append(&mut separator_bytes());
        }
        let c = items[i].content();
        proof {
            let v = Value::List(s);
            assert(decreases_to!(v => v->List_0));
            assert(decreases_to!(s => s[i as int]));
            assert(content_value(c) == s[i as int]);
            if no_float {
                assert(!has_float(s[i as int]));
            }
        }
        render_content(c, out, float_text);
        proof {
            let next = s.subrange(0, i as int + 1);
            assert(next.subrange(0, next.len() - 1) =~= s.subrange(0, i as int));
            assert(next[next.len() - 1] == s[i as int]);
        }
        i = i + 1;
        assert(no_float ==> out@ =~= old(out)@ + list_text(s.subrange(0, i as int)));
    }
    assert(s.subrange(0, s.len() as int) =~= s);
}

/// Appends the debug texts of a sequence of map entries, separated by `, `.
fn render_entries<F: Fn(u64) -> String>(entries: &[Keyed<WafObject>], out: &mut Vec<u8>, float_text: &F)
    requires
        forall|b: u64| float_text.requires((b,)),
    ensures
        !has_float(Value::Dict(entries_value(entries@))) ==> final(out)@ == old(out)@ + dict_text(
            entries_value(entries@),
        ),
    decreases Value::Dict(entries_value(entries@)), 1nat,
{
    let ghost d = entries_value(entries@);
    let ghost no_float = !has_float(Value::Dict(d));
    let mut i: usize = 0;
    while i < entries.len()
        invariant
            0 <= i <= entries@.len(),
            d == entries_value(entries@),
            d.len() == entries@.len(),
            no_float == !has_float(Value::Dict(d)),
            forall|b: u64| float_text.requires((b,)),
            no_float ==> out@ == old(out)@ + dict_text(d.subrange(0, i as int)),
        decreases entries@.len() - i,
    {
        proof {
            lemma_entries_value_index(entries@, i as int);
        }
        if i > 0 {
            out.append(&mut separator_bytes());
        }
        out.append(&mut quote_bytes());
        let mut key = fmt_bin_str(entries[i].raw_key());
        out.append(&mut key);
        out.append(&mut key_close_bytes());
        let c = entries[i].content();
        proof {
            let v = Value::Dict(d);
            assert(decreases_to!(v => v->Dict_0));
            assert(decreases_to!(d => d[i as int]));
            assert(decreases_to!(d[i as int] => d[i as int].1));
            assert(content_value(c) == d[i as int].1);
            if no_float {
                assert(!has_float(d[i as int].1));
            }
        }
        render_content(c, out, float_text);
        proof {
            let next = d.subrange(0, i as int + 1);
            assert(next.subrange(0, next.len() - 1) =~= d.subrange(0, i as int));
            assert(next[next.len() - 1] == d[i as int]);
        }
        i = i + 1;
        assert(no_float ==> out@ =~= old(out)@ + dict_text(d.subrange(0, i as int)));
    }
    assert(d.subrange(0, d.len() as int) =~= d);
}

/// Renders a value as debug text, as bytes.
fn value_debug_bytes<T: AsRawMutObject, F: Fn(u64) -> String>(v: &T, float_text: &F) -> (r: Vec<u8>)
    requires
        forall|b: u64| float_text.requires((b,)),
    ensures
        !has_float(v.value_spec()) ==> r@ == debug_text(v.value_spec()),
{
    let mut out: Vec<u8> = Vec::new();
    render_content(v.content(), &mut out, float_text);
    out
}

/// Renders a value as debug text.
fn value_debug_string<T: AsRawMutObject, F: Fn(u64) -> String>(v: &T, float_text: &F) -> (r: String)
    requires
        forall|b: u64| float_text.requires((b,)),
    ensures
        !has_float(v.value_spec()) ==> encode_utf8(r@) == debug_text(v.value_spec()),
{
    let out = value_debug_bytes(v, float_text);
    proof {
        lemma_debug_text_ascii(v.value_spec());
        lemma_ascii_valid_utf8(debug_text(v.value_spec()));
    }
    text_of(out.as_slice())
}

impl WafObject {
    /// Renders this value as debug text, as bytes; the text of each floating point number comes
    /// from `float_text`, given the number's bit pattern.
    pub fn debug_bytes<F: Fn(u64) -> String>(&self, float_text: &F) -> (r: Vec<u8>)
        requires
            forall|b: u64| float_text.requires((b,)),
        ensures
            !has_float(self.value_spec()) ==> r@ == debug_text(self.value_spec()),
    {
        value_debug_bytes(self, float_text)
    }

    /// Renders this value as debug text; the text of each floating point number comes from
    /// `float_text`, given the number's bit pattern.
    pub fn debug_string<F: Fn(u64) -> String>(&self, float_text: &F) -> (r: String)
        requires
            forall|b: u64| float_text.requires((b,)),
        ensures
            !has_float(self.value_spec()) ==> encode_utf8(r@) == debug_text(self.value_spec()),
    {
        value_debug_string(self, float_text)
    }
}

impl WafInvalid {
    /// Renders this value as debug text, as bytes; the text of each floating point number comes
    /// from `float_text`, given the number's bit pattern.
    pub fn debug_bytes<F: Fn(u64) -> String>(&self, float_text: &F) -> (r: Vec<u8>)
        requires
            forall|b: u64| float_text.requires((b,)),
        ensures
            !has_float(self.value_spec()) ==> r@ == debug_text(self.value_spec()),
    {
        value_debug_bytes(self, float_text)
    }

    /// Renders this value as debug text; the text of each floating point number comes from
    /// `float_text`, given the number's bit pattern.
    pub fn debug_string<F: Fn(u64) -> String>(&self, float_text: &F) -> (r: String)
        requires
            forall|b: u64| float_text.requires((b,)),
        ensures
            !has_float(self.value_spec()) ==> encode_utf8(r@) == debug_text(self.value_spec()),
    {
        value_debug_string(self, float_text)
    }
}

impl WafSigned {
    /// Renders this value as debug text, as bytes; the text of each floating point number comes
    /// from `float_text`, given the number's bit pattern.
    pub fn debug_bytes<F: Fn(u64) -> String>(&self, float_text: &F) -> (r: Vec<u8>)
        requires
            forall|b: u64| float_text.requires((b,)),
        ensures
            !has_float(self.value_spec()) ==> r@ == debug_text(self.value_spec()),
    {
        value_debug_bytes(self, float_text)
    }

    /// Renders this value as debug text; the text of each floating point number comes from
    /// `float_text`, given the number's bit pattern.
    pub fn debug_string<F: Fn(u64) -> String>(&self, float_text: &F) -> (r: String)
        requires
            forall|b: u64| float_text.requires((b,)),
        ensures
            !has_float(self.value_spec()) ==> encode_utf8(r@) == debug_text(self.value_spec()),
    {
        value_debug_string(self, float_text)
    }
}

impl WafUnsigned {
    /// Renders this value as debug text, as bytes; the text of each floating point number comes
    /// from `float_text`, given the number's bit pattern.
    pub fn debug_bytes<F: Fn(u64) -> String>(&self, float_text: &F) -> (r: Vec<u8>)
        requires
            forall|b: u64| float_text.requires((b,)),
        ensures
            !has_float(self.value_spec()) ==> r@ == debug_text(self.value_spec()),
    {
        value_debug_bytes(self, float_text)
    }

    /// Renders this value as debug text; the text of each floating point number comes from
    /// `float_text`, given the number's bit pattern.
    pub fn debug_string<F: Fn(u64) -> String>(&self, float_text: &F) -> (r: String)
        requires
            forall|b: u64| float_text.requires((b,)),
        ensures
            !has_float(self.value_spec()) ==> encode_utf8(r@) == debug_text(self.value_spec()),
    {
        value_debug_string(self, float_text)
    }
}

impl WafString {
    /// Renders this value as debug text, as bytes; the text of each floating point number comes
    /// from `float_text`, given the number's bit pattern.
    pub fn debug_bytes<F: Fn(u64) -> String>(&self, float_text: &F) -> (r: Vec<u8>)
        requires
            forall|b: u64| float_text.requires((b,)),
        ensures
            !has_float(self.value_spec()) ==> r@ == debug_text(self.value_spec()),
    {
        value_debug_bytes(self, float_text)
    }

    /// Renders this value as debug text; the text of each floating point number comes from
    /// `float_text`, given the number's bit pattern.
    pub fn debug_string<F: Fn(u64) -> String>(&self, float_text: &F) -> (r: String)
        requires
            forall|b: u64| float_text.requires((b,)),
        ensures
            !has_float(self.value_spec()) ==> encode_utf8(r@) == debug_text(self.value_spec()),
    {
        value_debug_string(self, float_text)
    }
}

impl WafArray {
    /// Renders this value as debug text, as bytes; the text of each floating point number comes
    /// from `float_text`, given the number's bit pattern.
    pub fn debug_bytes<F: Fn(u64) -> String>(&self, float_text: &F) -> (r: Vec<u8>)
        requires
            forall|b: u64| float_text.requires((b,)),
        ensures
            !has_float(self.value_spec()) ==> r@ == debug_text(self.value_spec()),
    {
        value_debug_bytes(self, float_text)
    }

    /// Renders this value as debug text; the text of each floating point number comes from
    /// `float_text`, given the number's bit pattern.
    pub fn debug_string<F: Fn(u64) -> String>(&self, float_text: &F) -> (r: String)
        requires
            forall|b: u64| float_text.requires((b,)),
        ensures
            !has_float(self.value_spec()) ==> encode_utf8(r@) == debug_text(self.value_spec()),
    {
        value_debug_string(self, float_text)
    }
}

impl WafMap {
    /// Renders this value as debug text, as bytes; the text of each floating point number comes
    /// from `float_text`, given the number's bit pattern.
    pub fn debug_bytes<F: Fn(u64) -> String>(&self, float_text: &F) -> (r: Vec<u8>)
        requires
            forall|b: u64| float_text.requires((b,)),
        ensures
            !has_float(self.value_spec()) ==> r@ == debug_text(self.value_spec()),
    {
        value_debug_bytes(self, float_text)
    }

    /// Renders this value as debug text; the text of each floating point number comes from
    /// `float_text`, given the number's bit pattern.
    pub fn debug_string<F: Fn(u64) -> String>(&self, float_text: &F) -> (r: String)
        requires
            forall|b: u64| float_text.requires((b,)),
        ensures
            !has_float(self.value_spec()) ==> encode_utf8(r@) == debug_text(self.value_spec()),
    {
        value_debug_string(self, float_text)
    }
}

impl WafBool {
    /// Renders this value as debug text, as bytes; the text of each floating point number comes
    /// from `float_text`, given the number's bit pattern.
    pub fn debug_bytes<F: Fn(u64) -> String>(&self, float_text: &F) -> (r: Vec<u8>)
        requires
            forall|b: u64| float_text.requires((b,)),
        ensures
            !has_float(self.value_spec()) ==> r@ == debug_text(self.value_spec()),
    {
        value_debug_bytes(self, float_text)
    }

    /// Renders this value as debug text; the text of each floating point number comes from
    /// `float_text`, given the number's bit pattern.
    pub fn debug_string<F: Fn(u64) -> String>(&self, float_text: &F) -> (r: String)
        requires
            forall|b: u64| float_text.requires((b,)),
        ensures
            !has_float(self.value_spec()) ==> encode_utf8(r@) == debug_text(self.value_spec()),
    {
        value_debug_string(self, float_text)
    }
}

impl WafFloat {
    /// Renders this value as debug text, as bytes; the text of each floating point number comes
    /// from `float_text`, given the number's bit pattern.
    pub fn debug_bytes<F: Fn(u64) -> String>(&self, float_text: &F) -> (r: Vec<u8>)
        requires
            forall|b: u64| float_text.requires((b,)),
        ensures
            !has_float(self.value_spec()) ==> r@ == debug_text(self.value_spec()),
    {
        value_debug_bytes(self, float_text)
    }

    /// Renders this value as debug text; the text of each floating point number comes from
    /// `float_text`, given the number's bit pattern.
    pub fn debug_string<F: Fn(u64) -> String>(&self, float_text: &F) -> (r: String)
        requires
            forall|b: u64| float_text.requires((b,)),
        ensures
            !has_float(self.value_spec()) ==> encode_utf8(r@) == debug_text(self.value_spec()),
    {
        value_debug_string(self, float_text)
    }
}

impl WafNull {
    /// Renders this value as debug text, as bytes; the text of each floating point number comes
    /// from `float_text`, given the number's bit pattern.
    pub fn debug_bytes<F: Fn(u64) -> String>(&self, float_text: &F) -> (r: Vec<u8>)
        requires
            forall|b: u64| float_text.requires((b,)),
        ensures
            !has_float(self.value_spec()) ==> r@ == debug_text(self.value_spec()),
    {
        value_debug_bytes(self, float_text)
    }

    /// Renders this value as debug text; the text of each floating point number comes from
    /// `float_text`, given the number's bit pattern.
    pub fn debug_string<F: Fn(u64) -> String>(&self, float_text: &F) -> (r: String)
        requires
            forall|b: u64| float_text.requires((b,)),
        ensures
            !has_float(self.value_spec()) ==> encode_utf8(r@) == debug_text(self.value_spec()),
    {
        value_debug_string(self, float_text)
    }
}

impl<T: AsRawMutObject> Keyed<T> {
    /// Renders this keyed value as debug text, as bytes: its quoted key, `=`, and the debug text of
    /// its value.
    pub fn debug_bytes<F: Fn(u64) -> String>(&self, float_text: &F) -> (r: Vec<u8>)
        requires
            forall|b: u64| float_text.requires((b,)),
        ensures
            !has_float(self.value_spec()) ==> r@ == entry_text(self.key_spec(), self.value_spec()),
    {
        let mut out = quote_bytes();
        let mut key = fmt_bin_str(self.value.raw_key());
        out.append(&mut key);
        out.append(&mut key_close_bytes());
        render_content(self.value.content(), &mut out, float_text);
        assert(!has_float(self.value_spec()) ==> out@ =~= entry_text(self.key_spec(), self.value_spec()));
        out
    }

    /// Renders this keyed value as debug text: its quoted key, `=`, and the debug text of its
    /// value.
    pub fn debug_string<F: Fn(u64) -> String>(&self, float_text: &F) -> (r: String)
        requires
            forall|b: u64| float_text.requires((b,)),
        ensures
            !has_float(self.value_spec()) ==> encode_utf8(r@) == entry_text(self.key_spec(), self.value_spec()),
    {
        let out = self.debug_bytes(float_text);
        proof {
            let key = bin_text(self.key_spec());
            lemma_bin_text_ascii(self.key_spec());
            lemma_debug_text_ascii(self.value_spec());
            lemma_ascii_concat(quote(), key);
            lemma_ascii_concat(quote() + key, key_close());
            lemma_ascii_concat(quote() + key + key_close(), debug_text(self.value_spec()));
            lemma_ascii_valid_utf8(entry_text(self.key_spec(), self.value_spec()));
        }
        text_of(out.as_slice())
    }
}

/// True when every byte is ASCII.
pub open spec fn is_ascii_bytes(s: Seq<u8>) -> bool {
    forall|i: int| 0 <= i < s.len() ==> s[i] < 128
}

proof fn lemma_ascii_concat(a: Seq<u8>, b: Seq<u8>)
    requires
        is_ascii_bytes(a),
        is_ascii_bytes(b),
    ensures
        is_ascii_bytes(a + b),
{
    assert forall|i: int| 0 <= i < (a + b).len() implies (a + b)[i] < 128 by {
        if i < a.len() {
            assert((a + b)[i] == a[i]);
        } else {
            assert((a + b)[i] == b[i - a.len()]);
        }
    }
}

/// ASCII bytes are valid UTF-8.
proof fn lemma_ascii_valid_utf8(s: Seq<u8>)
    requires
        is_ascii_bytes(s),
    ensures
        valid_utf8(s),
    decreases s.len(),
{
    if s.len() > 0 {
        let rest = s.subrange(1, s.len() as int);
        assert(is_ascii_bytes(rest));
        lemma_ascii_valid_utf8(rest);
        assert(vstd::utf8::pop_first_scalar(s) == rest);
    }
}

proof fn lemma_bin_text_ascii(s: Seq<u8>)
    ensures
        is_ascii_bytes(bin_text(s)),
    decreases s.len(),
{
    if s.len() > 0 {
        lemma_bin_text_ascii(s.drop_last());
        lemma_ascii_concat(bin_text(s.drop_last()), escaped_byte(s.last()));
    }
}

proof fn lemma_decimal_ascii(n: nat)
    ensures
        is_ascii_bytes(decimal(n)),
    decreases n,
{
    if n >= 10 {
        lemma_decimal_ascii(n / 10);
        lemma_ascii_concat(decimal(n / 10), seq![(48 + n % 10) as u8]);
    }
}

/// The debug text of every value is ASCII (the text of floating point numbers aside, which the
/// caller supplies).
proof fn lemma_debug_text_ascii(v: Value)
    ensures
        is_ascii_bytes(debug_text(v)),
    decreases v, 1nat,
{
    match v {
        Value::Signed(x) => {
            lemma_decimal_ascii((-x) as nat);
            lemma_decimal_ascii(x as nat);
            lemma_ascii_concat(seq![45u8], decimal((-x) as nat));
            lemma_ascii_concat(signed_open(), signed_decimal(x));
            lemma_ascii_concat(signed_open() + signed_decimal(x), close_paren());
        },
        Value::Unsigned(x) => {
            lemma_decimal_ascii(x as nat);
            lemma_ascii_concat(unsigned_open(), decimal(x as nat));
            lemma_ascii_concat(unsigned_open() + decimal(x as nat), close_paren());
        },
        Value::Str(b) => {
            lemma_bin_text_ascii(b);
            lemma_ascii_concat(string_open(), bin_text(b));
            lemma_ascii_concat(string_open() + bin_text(b), string_close());
        },
        Value::List(s) => {
            lemma_list_text_ascii(s);
            lemma_ascii_concat(array_open(), list_text(s));
            lemma_ascii_concat(array_open() + list_text(s), array_close());
        },
        Value::Dict(d) => {
            lemma_dict_text_ascii(d);
            lemma_ascii_concat(map_open(), dict_text(d));
            lemma_ascii_concat(map_open() + dict_text(d), map_close());
        },
        Value::Bool(b) => {
            let t = if b { true_text() } else { false_text() };
            lemma_ascii_concat(bool_open(), t);
            lemma_ascii_concat(bool_open() + t, close_paren());
        },
        Value::Float(_) => {
            lemma_ascii_concat(float_open(), close_paren());
        },
        _ => {},
    }
}

proof fn lemma_list_text_ascii(s: Seq<Value>)
    ensures
        is_ascii_bytes(list_text(s)),
    decreases s, 0nat,
{
    if s.len() > 0 {
        let init = s.subrange(0, s.len() - 1);
        lemma_list_text_ascii(init);
        lemma_debug_text_ascii(s[s.len() - 1]);
        let sep = if s.len() > 1 { separator() } else { Seq::empty() };
        lemma_ascii_concat(list_text(init), sep);
        lemma_ascii_concat(list_text(init) + sep, debug_text(s[s.len() - 1]));
    }
}

proof fn lemma_dict_text_ascii(d: Seq<(Seq<u8>, Value)>)
    ensures
        is_ascii_bytes(dict_text(d)),
    decreases d, 0nat,
{
    if d.len() > 0 {
        let init = d.subrange(0, d.len() - 1);
        let last = d[d.len() - 1];
        lemma_dict_text_ascii(init);
        lemma_debug_text_ascii(last.1);
        lemma_bin_text_ascii(last.0);
        let sep = if d.len() > 1 { separator() } else { Seq::empty() };
        lemma_ascii_concat(dict_text(init), sep);
        lemma_ascii_concat(dict_text(init) + sep, quote());
        lemma_ascii_concat(dict_text(init) + sep + quote(), bin_text(last.0));
        lemma_ascii_concat(dict_text(init) + sep + quote() + bin_text(last.0), key_close());
        lemma_ascii_concat(dict_text(init) + sep + quote() + bin_text(last.0) + key_close(), debug_text(last.1));
    }
}

} // verus!
