//! A verified reader and writer for the flat JSON objects that the
//! engine IPC link exchanges: one object per line, string keys, and
//! scalar values (integers, other numeric literals, strings, booleans).
//!
//! Numeric literals that are not plain integers are kept as text, so a
//! value passes through unchanged and no floating-point arithmetic is
//! ever performed. The writer emits no whitespace; the reader accepts
//! none between tokens (trim a line before handing it in).

use crate::numfmt::{
    digit_val, is_digit, parse_i64, spec_int_str, spec_int_val, i64_to_string,
    lemma_int_str_round_trip,
};
use crate::text::substring_to_string;
use vstd::prelude::*;
use vstd::string::StrSliceExecFns;
use vstd::string::StringExecFns;

verus! {

/// A scalar JSON value.
#[derive(Debug)]
pub enum JsonScalar {
    /// A plain integer that fits in `i64`.
    Int(i64),
    /// Any other numeric literal, kept verbatim as text.
    Num(String),
    /// A string value (unescaped content).
    Str(String),
    /// A boolean.
    Bool(bool),
}

/// The mathematical model of a scalar.
pub ghost enum JsonScalarV {
    Int(int),
    Num(Seq<char>),
    Str(Seq<char>),
    Bool(bool),
}

impl View for JsonScalar {
    type V = JsonScalarV;

    open spec fn view(&self) -> JsonScalarV {
        match self {
            JsonScalar::Int(n) => JsonScalarV::Int(*n as int),
            JsonScalar::Num(t) => JsonScalarV::Num(t@),
            JsonScalar::Str(t) => JsonScalarV::Str(t@),
            JsonScalar::Bool(b) => JsonScalarV::Bool(*b),
        }
    }
}

/// One `"key":value` member of an object.
#[derive(Debug)]
pub struct JsonField {
    pub key: String,
    pub value: JsonScalar,
}

/// The mathematical model of a member.
pub ghost struct JsonFieldV {
    pub key: Seq<char>,
    pub value: JsonScalarV,
}

impl View for JsonField {
    type V = JsonFieldV;

    open spec fn view(&self) -> JsonFieldV {
        JsonFieldV { key: self.key@, value: self.value@ }
    }
}

/// The model of a field list.
pub open spec fn fields_view(fs: Seq<JsonField>) -> Seq<JsonFieldV> {
    fs.map_values(|f: JsonField| f@)
}

/// The value of the first member with the given key, if any.
pub open spec fn field_lookup(fs: Seq<JsonFieldV>, key: Seq<char>) -> Option<JsonScalarV>
    decreases fs.len(),
{
    if fs.len() == 0 {
        None
    } else if fs[0].key == key {
        Some(fs[0].value)
    } else {
        field_lookup(fs.drop_first(), key)
    }
}

// ── Well-formedness ──

/// Characters a string value may hold: everything but the control
/// characters, plus the three escapable ones.
pub open spec fn str_char_ok(c: char) -> bool {
    (c as u32) >= 0x20 || c == '\n' || c == '\r' || c == '\t'
}

pub open spec fn wf_str(s: Seq<char>) -> bool {
    forall|k: int| 0 <= k < s.len() ==> str_char_ok(#[trigger] s[k])
}

/// The characters a numeric literal is drawn from.
pub open spec fn is_num_char(c: char) -> bool {
    is_digit(c) || c == '.' || c == 'e' || c == 'E' || c == '+' || c == '-'
}

/// Scanner states for the JSON number grammar, after an optional
/// leading minus: integer digits, then an optional fraction, then an
/// optional exponent.
pub open spec fn num_ok_from(t: Seq<char>, i: int, mode: int) -> bool
    decreases t.len() - i,
{
    if i < 0 {
        false
    } else if i >= t.len() {
        mode == 1 || mode == 3 || mode == 6
    } else {
        let c = t[i];
        if mode == 0 {
            // expecting the first integer digit
            is_digit(c) && num_ok_from(t, i + 1, 1)
        } else if mode == 1 {
            // inside the integer digits
            if is_digit(c) {
                num_ok_from(t, i + 1, 1)
            } else if c == '.' {
                num_ok_from(t, i + 1, 2)
            } else if c == 'e' || c == 'E' {
                num_ok_from(t, i + 1, 4)
            } else {
                false
            }
        } else if mode == 2 {
            // expecting the first fraction digit
            is_digit(c) && num_ok_from(t, i + 1, 3)
        } else if mode == 3 {
            // inside the fraction digits
            if is_digit(c) {
                num_ok_from(t, i + 1, 3)
            } else if c == 'e' || c == 'E' {
                num_ok_from(t, i + 1, 4)
            } else {
                false
            }
        } else if mode == 4 {
            // expecting an exponent sign or its first digit
            if c == '+' || c == '-' {
                num_ok_from(t, i + 1, 5)
            } else {
                is_digit(c) && num_ok_from(t, i + 1, 6)
            }
        } else if mode == 5 || mode == 6 {
            // expecting or inside the exponent digits
            is_digit(c) && num_ok_from(t, i + 1, 6)
        } else {
            false
        }
    }
}

/// A well-formed JSON numeric literal.
pub open spec fn is_num_lit(t: Seq<char>) -> bool {
    if t.len() > 0 && t[0] == '-' {
        num_ok_from(t, 1, 0)
    } else {
        num_ok_from(t, 0, 0)
    }
}

pub open spec fn wf_scalar(v: JsonScalarV) -> bool {
    match v {
        JsonScalarV::Int(n) => i64::MIN <= n <= i64::MAX,
        JsonScalarV::Num(t) => is_num_lit(t) && spec_int_val(t) is None,
        JsonScalarV::Str(t) => wf_str(t),
        JsonScalarV::Bool(_) => true,
    }
}

pub open spec fn wf_field(f: JsonFieldV) -> bool {
    wf_str(f.key) && wf_scalar(f.value)
}

pub open spec fn wf_fields(fs: Seq<JsonFieldV>) -> bool {
    forall|k: int| 0 <= k < fs.len() ==> wf_field(#[trigger] fs[k])
}

// ── The writer, in specification form ──

/// How one character is written inside a JSON string.
pub open spec fn esc_char(c: char) -> Seq<char> {
    if c == '"' {
        seq!['\\', '"']
    } else if c == '\\' {
        seq!['\\', '\\']
    } else if c == '\n' {
        seq!['\\', 'n']
    } else if c == '\r' {
        seq!['\\', 'r']
    } else if c == '\t' {
        seq!['\\', 't']
    } else {
        seq![c]
    }
}

pub open spec fn spec_escape(s: Seq<char>) -> Seq<char>
    decreases s.len(),
{
    if s.len() == 0 {
        Seq::empty()
    } else {
        esc_char(s[0]) + spec_escape(s.drop_first())
    }
}

/// A quoted, escaped JSON string.
pub open spec fn spec_quote(s: Seq<char>) -> Seq<char> {
    seq!['"'] + spec_escape(s) + seq!['"']
}

pub open spec fn spec_enc_scalar(v: JsonScalarV) -> Seq<char> {
    match v {
        JsonScalarV::Int(n) => spec_int_str(n),
        JsonScalarV::Num(t) => t,
        JsonScalarV::Str(t) => spec_quote(t),
        JsonScalarV::Bool(b) => if b {
            seq!['t', 'r', 'u', 'e']
        } else {
            seq!['f', 'a', 'l', 's', 'e']
        },
    }
}

/// The members of an object, comma-separated.
pub open spec fn spec_enc_fields(fs: Seq<JsonFieldV>) -> Seq<char>
    decreases fs.len(),
{
    if fs.len() == 0 {
        Seq::empty()
    } else {
        let head = spec_quote(fs[0].key) + seq![':'] + spec_enc_scalar(fs[0].value);
        if fs.len() == 1 {
            head
        } else {
            head + seq![','] + spec_enc_fields(fs.drop_first())
        }
    }
}

/// A whole object.
pub open spec fn spec_enc_obj(fs: Seq<JsonFieldV>) -> Seq<char> {
    seq!['{'] + spec_enc_fields(fs) + seq!['}']
}

// ── The writer, executable ──

/// Append the escaped form of `s` to `out`.
fn append_escaped(out: &mut String, s: &str)
    ensures
        final(out)@ == old(out)@ + spec_escape(s@),
{
    let n = s.unicode_len();
    let mut i: usize = 0;
    proof {
        assert(s@.subrange(0, 0) =~= Seq::<char>::empty());
        assert(old(out)@ + Seq::<char>::empty() =~= old(out)@);
    }
    while i < n
        invariant
            n == s@.len(),
            i <= n,
            out@ == old(out)@ + spec_escape(s@.subrange(0, i as int)),
        decreases n - i,
    {
        let c = s.get_char(i);
        match c {
            '"' => out.append("\\\""),
            '\\' => out.append("\\\\"),
            '\n' => out.append("\\n"),
            '\r' => out.append("\\r"),
            '\t' => out.append("\\t"),
            _ => out.append(s.substring_char(i, i + 1)),
        }
        proof {
            reveal_strlit("\\\"");
            reveal_strlit("\\\\");
            reveal_strlit("\\n");
            reveal_strlit("\\r");
            reveal_strlit("\\t");
            let pre = s@.subrange(0, i as int);
            let cur = s@.subrange(0, i + 1 as int);
            assert(cur =~= pre + seq![c]);
            lemma_escape_snoc(pre, c);
            assert(out@ =~= old(out)@ + spec_escape(cur));
        }
        i += 1;
    }
    proof {
        assert(s@.subrange(0, n as int) =~= s@);
    }
}

/// Escaping distributes over appending one character.
proof fn lemma_escape_snoc(s: Seq<char>, c: char)
    ensures
        spec_escape(s + seq![c]) == spec_escape(s) + esc_char(c),
    decreases s.len(),
{
    if s.len() == 0 {
        assert((s + seq![c]).drop_first() =~= Seq::<char>::empty());
        assert((s + seq![c])[0] == c);
        assert(spec_escape(Seq::<char>::empty()) =~= Seq::<char>::empty());
        assert(spec_escape(s + seq![c]) =~= esc_char(c));
        assert(spec_escape(s) + esc_char(c) =~= esc_char(c));
    } else {
        assert((s + seq![c]).drop_first() =~= s.drop_first() + seq![c]);
        lemma_escape_snoc(s.drop_first(), c);
        assert(spec_escape(s + seq![c]) =~= spec_escape(s) + esc_char(c));
    }
}

/// Append the quoted form of `s` to `out`.
fn append_quoted(out: &mut String, s: &str)
    ensures
        final(out)@ == old(out)@ + spec_quote(s@),
{
    out.append("\"");
    append_escaped(out, s);
    out.append("\"");
    proof {
        reveal_strlit("\"");
        assert(final(out)@ =~= old(out)@ + spec_quote(s@));
    }
}

/// Append the written form of a scalar to `out`.
fn append_scalar(out: &mut String, v: &JsonScalar)
    ensures
        final(out)@ == old(out)@ + spec_enc_scalar(v@),
{
    match v {
        JsonScalar::Int(n) => {
            out.append(i64_to_string(*n).as_str());
        },
        JsonScalar::Num(t) => {
            out.append(t.as_str());
        },
        JsonScalar::Str(t) => {
            append_quoted(out, t.as_str());
        },
        JsonScalar::Bool(b) => {
            if *b {
                out.append("true");
                proof {
                    reveal_strlit("true");
                    assert("true"@ =~= seq!['t', 'r', 'u', 'e']);
                }
            } else {
                out.append("false");
                proof {
                    reveal_strlit("false");
                    assert("false"@ =~= seq!['f', 'a', 'l', 's', 'e']);
                }
            }
        },
    }
}

/// Write one string as a quoted, escaped JSON string literal.
pub fn quote_string(s: &str) -> (r: String)
    ensures
        r@ == spec_quote(s@),
{
    let mut out = String::new();
    append_quoted(&mut out, s);
    proof {
        assert(out@ =~= spec_quote(s@));
    }
    out
}


/// A JSON array of quoted strings, in specification form.
pub open spec fn spec_enc_str_items(xs: Seq<Seq<char>>) -> Seq<char>
    decreases xs.len(),
{
    if xs.len() == 0 {
        Seq::empty()
    } else if xs.len() == 1 {
        spec_quote(xs[0])
    } else {
        spec_quote(xs[0]) + seq![','] + spec_enc_str_items(xs.drop_first())
    }
}

/// A whole array of strings.
pub open spec fn spec_enc_str_array(xs: Seq<Seq<char>>) -> Seq<char> {
    seq!['['] + spec_enc_str_items(xs) + seq![']']
}

proof fn lemma_enc_str_items_snoc(xs: Seq<Seq<char>>, x: Seq<char>)
    ensures
        xs.len() == 0 ==> spec_enc_str_items(xs + seq![x]) == spec_quote(x),
        xs.len() > 0 ==> spec_enc_str_items(xs + seq![x]) == spec_enc_str_items(xs) + seq![',']
            + spec_quote(x),
    decreases xs.len(),
{
    let whole = xs + seq![x];
    if xs.len() == 0 {
        assert(whole.len() == 1);
        assert(whole[0] == x);
    } else {
        assert(whole.drop_first() =~= xs.drop_first() + seq![x]);
        lemma_enc_str_items_snoc(xs.drop_first(), x);
        if xs.len() == 1 {
            assert(spec_enc_str_items(whole) =~= spec_enc_str_items(xs) + seq![','] + spec_quote(
                x,
            ));
        } else {
            assert(spec_enc_str_items(whole) =~= spec_enc_str_items(xs) + seq![','] + spec_quote(
                x,
            ));
        }
    }
}

/// Write a JSON array of strings.
pub fn encode_str_array(xs: &Vec<String>) -> (r: String)
    ensures
        r@ == spec_enc_str_array(xs@.map_values(|u: String| u@)),
{
    let mut out = String::from_str("[");
    proof {
        reveal_strlit("[");
    }
    let n = xs.len();
    let mut i: usize = 0;
    while i < n
        invariant
            n == xs@.len(),
            i <= n,
            i == 0 ==> out@ == seq!['['],
            i > 0 ==> out@ == seq!['['] + spec_enc_str_items(
                xs@.map_values(|u: String| u@).subrange(0, i as int),
            ),
        decreases n - i,
    {
        if i > 0 {
            out.append(",");
            proof {
                reveal_strlit(",");
            }
        }
        append_quoted(&mut out, xs[i].as_str());
        proof {
            let w = xs@.map_values(|u: String| u@);
            let pre = w.subrange(0, i as int);
            let cur = w.subrange(0, i + 1 as int);
            assert(cur =~= pre + seq![w[i as int]]);
            lemma_enc_str_items_snoc(pre, w[i as int]);
            assert(out@ =~= seq!['['] + spec_enc_str_items(cur));
        }
        i += 1;
    }
    out.append("]");
    proof {
        reveal_strlit("]");
        let w = xs@.map_values(|u: String| u@);
        assert(w.subrange(0, n as int) =~= w);
        assert(out@ =~= spec_enc_str_array(w));
    }
    out
}

/// Write a whole object.
pub fn encode_object(fs: &Vec<JsonField>) -> (r: String)
    ensures
        r@ == spec_enc_obj(fields_view(fs@)),
{
    let mut out = String::from_str("{");
    proof {
        reveal_strlit("{");
    }
    let n = fs.len();
    let mut i: usize = 0;
    while i < n
        invariant
            n == fs.len(),
            i <= n,
            i == 0 ==> out@ == seq!['{'],
            i > 0 ==> out@ == seq!['{'] + spec_enc_fields(fields_view(fs@).subrange(0, i as int)),
        decreases n - i,
    {
        if i > 0 {
            out.append(",");
            proof {
                reveal_strlit(",");
            }
        }
        append_quoted(&mut out, fs[i].key.as_str());
        out.append(":");
        proof {
            reveal_strlit(":");
        }
        append_scalar(&mut out, &fs[i].value);
        proof {
            let fv = fields_view(fs@);
            let pre = fv.subrange(0, i as int);
            let cur = fv.subrange(0, i + 1 as int);
            assert(cur =~= pre + seq![fv[i as int]]);
            lemma_enc_fields_snoc(pre, fv[i as int]);
            assert(out@ =~= seq!['{'] + spec_enc_fields(cur));
        }
        i += 1;
    }
    out.append("}");
    proof {
        reveal_strlit("}");
        let fv = fields_view(fs@);
        assert(fv.subrange(0, n as int) =~= fv);
        if n == 0 {
            assert(out@ =~= spec_enc_obj(fv));
        } else {
            assert(out@ =~= spec_enc_obj(fv));
        }
    }
    out
}

// ── The reader, in specification form ──

/// The content of a string and the index past its closing quote, read
/// from just after the opening quote.
pub open spec fn sp_str_body(s: Seq<char>, i: int) -> Option<(Seq<char>, int)>
    decreases s.len() - i,
{
    if i < 0 || i >= s.len() {
        None
    } else if s[i] == '"' {
        Some((Seq::empty(), i + 1))
    } else if s[i] == '\\' {
        if i + 1 >= s.len() {
            None
        } else {
            let e = s[i + 1];
            let ok = e == '"' || e == '\\' || e == '/' || e == 'n' || e == 'r' || e == 't';
            let c = if e == 'n' {
                '\n'
            } else if e == 'r' {
                '\r'
            } else if e == 't' {
                '\t'
            } else {
                e
            };
            if ok {
                match sp_str_body(s, i + 2) {
                    Some((rest, j)) => Some((seq![c] + rest, j)),
                    None => None,
                }
            } else {
                None
            }
        }
    } else if (s[i] as u32) < 0x20 {
        None
    } else {
        match sp_str_body(s, i + 1) {
            Some((rest, j)) => Some((seq![s[i]] + rest, j)),
            None => None,
        }
    }
}

/// The index just past the maximal run of number characters from `i`.
pub open spec fn sp_num_end(s: Seq<char>, i: int) -> int
    decreases s.len() - i,
{
    if i < 0 || i >= s.len() || !is_num_char(s[i]) {
        i
    } else {
        sp_num_end(s, i + 1)
    }
}

/// One scalar value and the index past it.
pub open spec fn sp_value(s: Seq<char>, i: int) -> Option<(JsonScalarV, int)> {
    if i < 0 || i >= s.len() {
        None
    } else if s[i] == '"' {
        match sp_str_body(s, i + 1) {
            Some((t, j)) => Some((JsonScalarV::Str(t), j)),
            None => None,
        }
    } else if s[i] == 't' {
        if i + 4 <= s.len() && s[i + 1] == 'r' && s[i + 2] == 'u' && s[i + 3] == 'e' {
            Some((JsonScalarV::Bool(true), i + 4))
        } else {
            None
        }
    } else if s[i] == 'f' {
        if i + 5 <= s.len() && s[i + 1] == 'a' && s[i + 2] == 'l' && s[i + 3] == 's' && s[i + 4]
            == 'e' {
            Some((JsonScalarV::Bool(false), i + 5))
        } else {
            None
        }
    } else if s[i] == '-' || is_digit(s[i]) {
        let j = sp_num_end(s, i);
        let t = s.subrange(i, j);
        if !is_num_lit(t) {
            None
        } else {
            match spec_int_val(t) {
                Some(v) => if i64::MIN <= v <= i64::MAX {
                    Some((JsonScalarV::Int(v), j))
                } else {
                    None
                },
                None => Some((JsonScalarV::Num(t), j)),
            }
        }
    } else {
        None
    }
}

/// The members from the first key up to and including the closing
/// brace, and the index past that brace.
pub open spec fn sp_pairs(s: Seq<char>, i: int) -> Option<(Seq<JsonFieldV>, int)>
    decreases s.len() - i,
{
    if i < 0 || i >= s.len() || s[i] != '"' {
        None
    } else {
        match sp_str_body(s, i + 1) {
            None => None,
            Some((k, j1)) => {
                if j1 >= s.len() || s[j1] != ':' {
                    None
                } else {
                    match sp_value(s, j1 + 1) {
                        None => None,
                        Some((v, j2)) => {
                            let f = JsonFieldV { key: k, value: v };
                            if 0 <= j2 < s.len() && s[j2] == '}' {
                                Some((seq![f], j2 + 1))
                            } else if 0 <= j2 < s.len() && s[j2] == ',' && i < j2 + 1 {
                                match sp_pairs(s, j2 + 1) {
                                    Some((fs, j3)) => Some((seq![f] + fs, j3)),
                                    None => None,
                                }
                            } else {
                                None
                            }
                        },
                    }
                }
            },
        }
    }
}

/// A whole object and the index past it.
pub open spec fn sp_object(s: Seq<char>, i: int) -> Option<(Seq<JsonFieldV>, int)> {
    if i < 0 || i >= s.len() || s[i] != '{' {
        None
    } else if i + 1 < s.len() && s[i + 1] == '}' {
        Some((Seq::empty(), i + 2))
    } else {
        sp_pairs(s, i + 1)
    }
}

/// What a whole line means: an object covering the entire text.
pub open spec fn spec_parse_object(s: Seq<char>) -> Option<Seq<JsonFieldV>> {
    match sp_object(s, 0) {
        Some((fs, j)) => if j == s.len() {
            Some(fs)
        } else {
            None
        },
        None => None,
    }
}

// ── The reader, executable ──

fn is_digit_exec(c: char) -> (r: bool)
    ensures
        r == is_digit(c),
{
    c == '0' || c == '1' || c == '2' || c == '3' || c == '4' || c == '5' || c == '6' || c == '7'
        || c == '8' || c == '9'
}

fn is_num_char_exec(c: char) -> (r: bool)
    ensures
        r == is_num_char(c),
{
    is_digit_exec(c) || c == '.' || c == 'e' || c == 'E' || c == '+' || c == '-'
}

/// Read a string's content starting just after its opening quote.
fn parse_str_body(s: &str, start: usize) -> (r: Option<(String, usize)>)
    requires
        start <= s@.len(),
    ensures
        match r {
            Some((t, j)) => sp_str_body(s@, start as int) == Some((t@, j as int)) && start < j
                <= s@.len(),
            None => sp_str_body(s@, start as int) is None,
        },
{
    let n = s.unicode_len();
    let mut i = start;
    let mut out = String::new();
    loop
        invariant
            n == s@.len(),
            start <= i <= n,
            forall|t: Seq<char>, j: int|
                sp_str_body(s@, i as int) == Some((t, j)) ==> sp_str_body(s@, start as int)
                    == Some((out@ + t, j)),
            sp_str_body(s@, i as int) is None ==> sp_str_body(s@, start as int) is None,
        decreases n - i,
    {
        if i >= n {
            return None;
        }
        let c = s.get_char(i);
        if c == '"' {
            proof {
                assert(sp_str_body(s@, i as int) == Some((Seq::<char>::empty(), i + 1)));
                assert(out@ + Seq::<char>::empty() =~= out@);
            }
            return Some((out, i + 1));
        }
        if c == '\\' {
            if i + 1 >= n {
                return None;
            }
            let e = s.get_char(i + 1);
            let ghost d: char = if e == 'n' {
                '\n'
            } else if e == 'r' {
                '\r'
            } else if e == 't' {
                '\t'
            } else {
                e
            };
            let ghost out0 = out@;
            match e {
                '"' => out.append("\""),
                '\\' => out.append("\\"),
                '/' => out.append("/"),
                'n' => out.append("\n"),
                'r' => out.append("\r"),
                't' => out.append("\t"),
                _ => {
                    return None;
                },
            }
            proof {
                reveal_strlit("\"");
                reveal_strlit("\\");
                reveal_strlit("/");
                reveal_strlit("\n");
                reveal_strlit("\r");
                reveal_strlit("\t");
                assert(out@ =~= out0 + seq![d]);
                assert forall|t: Seq<char>, j: int|
                    sp_str_body(s@, i + 2) == Some((t, j)) implies sp_str_body(s@, start as int)
                    == Some((out@ + t, j)) by {
                    assert(sp_str_body(s@, i as int) == Some((seq![d] + t, j)));
                    assert(out0 + (seq![d] + t) =~= (out0 + seq![d]) + t);
                }
            }
            i += 2;
        } else {
            let cu = c as u32;
            if cu < 0x20 {
                return None;
            }
            let ghost out0 = out@;
            out.append(s.substring_char(i, i + 1));
            proof {
                assert(s@.subrange(i as int, i + 1 as int) =~= seq![c]);
                assert(out@ =~= out0 + seq![c]);
                assert forall|t: Seq<char>, j: int|
                    sp_str_body(s@, i + 1) == Some((t, j)) implies sp_str_body(s@, start as int)
                    == Some((out@ + t, j)) by {
                    assert(sp_str_body(s@, i as int) == Some((seq![c] + t, j)));
                    assert(out0 + (seq![c] + t) =~= (out0 + seq![c]) + t);
                }
            }
            i += 1;
        }
    }
}

/// Find the end of the run of number characters from `start`.
fn scan_num_end(s: &str, start: usize) -> (r: usize)
    requires
        start <= s@.len(),
    ensures
        r as int == sp_num_end(s@, start as int),
        start <= r <= s@.len(),
{
    let n = s.unicode_len();
    let mut i = start;
    while i < n && is_num_char_exec(s.get_char(i))
        invariant
            n == s@.len(),
            start <= i <= n,
            sp_num_end(s@, start as int) == sp_num_end(s@, i as int),
        decreases n - i,
    {
        i += 1;
    }
    i
}

/// Check the number grammar on `s[lo..hi)`.
fn check_num_lit(s: &str, lo: usize, hi: usize) -> (r: bool)
    requires
        lo <= hi <= s@.len(),
    ensures
        r == is_num_lit(s@.subrange(lo as int, hi as int)),
{
    let ghost t = s@.subrange(lo as int, hi as int);
    let len = hi - lo;
    let mut i: usize = 0;
    if len > 0 && s.get_char(lo) == '-' {
        i = 1;
    }
    let ghost i0 = i as int;
    let mut mode: u8 = 0;
    proof {
        assert(is_num_lit(t) == num_ok_from(t, i0, 0));
    }
    while i < len
        invariant
            lo <= hi <= s@.len(),
            len == hi - lo,
            t == s@.subrange(lo as int, hi as int),
            i <= len,
            mode == 0 || mode == 1 || mode == 2 || mode == 3 || mode == 4 || mode == 5 || mode
                == 6,
            is_num_lit(t) == num_ok_from(t, i as int, mode as int),
        decreases len - i,
    {
        let c = s.get_char(lo + i);
        assert(t[i as int] == c);
        let digit = is_digit_exec(c);
        if mode == 0 {
            if !digit {
                return false;
            }
            mode = 1;
        } else if mode == 1 {
            if digit {
            } else if c == '.' {
                mode = 2;
            } else if c == 'e' || c == 'E' {
                mode = 4;
            } else {
                return false;
            }
        } else if mode == 2 {
            if !digit {
                return false;
            }
            mode = 3;
        } else if mode == 3 {
            if digit {
            } else if c == 'e' || c == 'E' {
                mode = 4;
            } else {
                return false;
            }
        } else if mode == 4 {
            if c == '+' || c == '-' {
                mode = 5;
            } else if digit {
                mode = 6;
            } else {
                return false;
            }
        } else {
            if !digit {
                return false;
            }
            mode = 6;
        }
        i += 1;
    }
    mode == 1 || mode == 3 || mode == 6
}

/// Whether every character of `s` is a decimal digit.
pub open spec fn all_digits(s: Seq<char>) -> bool {
    forall|k: int| 0 <= k < s.len() ==> is_digit(#[trigger] s[k])
}

proof fn lemma_dec_val_some_iff(s: Seq<char>, acc: nat)
    ensures
        crate::numfmt::spec_dec_val_acc(s, acc) is Some <==> all_digits(s),
    decreases s.len(),
{
    if s.len() > 0 {
        if is_digit(s[0]) {
            let rest = s.drop_first();
            lemma_dec_val_some_iff(rest, acc * 10 + digit_val(s[0]));
            if all_digits(s) {
                assert forall|k: int| 0 <= k < rest.len() implies is_digit(#[trigger] rest[k]) by {
                    assert(rest[k] == s[k + 1]);
                }
                assert(all_digits(rest));
            }
            if all_digits(rest) {
                assert forall|k: int| 0 <= k < s.len() implies is_digit(#[trigger] s[k]) by {
                    if k > 0 {
                        assert(s[k] == rest[k - 1]);
                    }
                }
                assert(all_digits(s));
            }
        } else {
            assert(!all_digits(s));
        }
    }
}

/// The integer-literal shape: an optional minus sign, then one or more
/// digits. Exactly the strings `spec_int_val` accepts.
fn check_int_shape(s: &str, lo: usize, hi: usize) -> (r: bool)
    requires
        lo <= hi <= s@.len(),
    ensures
        r == (spec_int_val(s@.subrange(lo as int, hi as int)) is Some),
{
    let ghost t = s@.subrange(lo as int, hi as int);
    let len = hi - lo;
    if len == 0 {
        proof {
            lemma_dec_val_some_iff(t, 0);
        }
        return false;
    }
    let neg = s.get_char(lo) == '-';
    let start: usize = if neg {
        1
    } else {
        0
    };
    if len == start {
        proof {
            assert(t.drop_first() =~= Seq::<char>::empty());
        }
        return false;
    }
    let mut i = start;
    while i < len
        invariant
            lo <= hi <= s@.len(),
            len == hi - lo,
            t == s@.subrange(lo as int, hi as int),
            start <= i <= len,
            start < len,
            neg ==> start == 1 && t[0] == '-',
            !neg ==> start == 0 && t[0] != '-',
            forall|k: int| start <= k < i ==> is_digit(#[trigger] t[k]),
        decreases len - i,
    {
        let c = s.get_char(lo + i);
        assert(t[i as int] == c);
        if !is_digit_exec(c) {
            proof {
                let body = t.subrange(start as int, len as int);
                assert(!is_digit(body[i - start]));
                assert(!all_digits(body));
                lemma_dec_val_some_iff(body, 0);
                if neg {
                    assert(t.drop_first() =~= body);
                } else {
                    assert(t =~= body);
                }
            }
            return false;
        }
        i += 1;
    }
    proof {
        let body = t.subrange(start as int, len as int);
        assert(all_digits(body));
        lemma_dec_val_some_iff(body, 0);
        if neg {
            assert(t.drop_first() =~= body);
        } else {
            assert(t =~= body);
        }
    }
    true
}

/// Read one scalar value at `i`.
fn parse_value_at(s: &str, i: usize) -> (r: Option<(JsonScalar, usize)>)
    requires
        i <= s@.len(),
    ensures
        match r {
            Some((v, j)) => sp_value(s@, i as int) == Some((v@, j as int)) && i < j <= s@.len(),
            None => sp_value(s@, i as int) is None,
        },
{
    let n = s.unicode_len();
    if i >= n {
        return None;
    }
    let c = s.get_char(i);
    if c == '"' {
        match parse_str_body(s, i + 1) {
            Some((t, j)) => Some((JsonScalar::Str(t), j)),
            None => None,
        }
    } else if c == 't' {
        if n - i >= 4 && s.get_char(i + 1) == 'r' && s.get_char(i + 2) == 'u' && s.get_char(i + 3)
            == 'e' {
            Some((JsonScalar::Bool(true), i + 4))
        } else {
            None
        }
    } else if c == 'f' {
        if n - i >= 5 && s.get_char(i + 1) == 'a' && s.get_char(i + 2) == 'l' && s.get_char(i + 3)
            == 's' && s.get_char(i + 4) == 'e' {
            Some((JsonScalar::Bool(false), i + 5))
        } else {
            None
        }
    } else if c == '-' || is_digit_exec(c) {
        let j = scan_num_end(s, i);
        if !check_num_lit(s, i, j) {
            return None;
        }
        assert(j > i) by {
            if sp_num_end(s@, i as int) == i {
                assert(!is_num_lit(s@.subrange(i as int, i as int)));
            }
        }
        let lit = s.substring_char(i, j);
        assert(lit@ == s@.subrange(i as int, j as int));
        if check_int_shape(s, i, j) {
            match parse_i64(lit) {
                Some(v) => Some((JsonScalar::Int(v), j)),
                None => None,
            }
        } else {
            Some((JsonScalar::Num(substring_to_string(s, i, j)), j))
        }
    } else {
        None
    }
}

/// Read a whole line as a flat JSON object. Returns the members in
/// order, or nothing where the text is not one object of scalar
/// members covering the whole line.
pub fn parse_object(s: &str) -> (r: Option<Vec<JsonField>>)
    ensures
        match r {
            Some(fs) => spec_parse_object(s@) == Some(fields_view(fs@)),
            None => spec_parse_object(s@) is None,
        },
{
    let n = s.unicode_len();
    if n == 0 || s.get_char(0) != '{' {
        return None;
    }
    if n >= 2 && s.get_char(1) == '}' {
        if n == 2 {
            let fs: Vec<JsonField> = Vec::new();
            proof {
                assert(fields_view(fs@) =~= Seq::<JsonFieldV>::empty());
            }
            return Some(fs);
        } else {
            return None;
        }
    }
    let mut fields: Vec<JsonField> = Vec::new();
    let mut i: usize = 1;
    proof {
        assert(sp_object(s@, 0) == sp_pairs(s@, 1));
    }
    loop
        invariant
            n == s@.len(),
            n >= 1,
            1 <= i <= n,
            sp_object(s@, 0) == sp_pairs(s@, 1),
            forall|fs2: Seq<JsonFieldV>, j: int|
                sp_pairs(s@, i as int) == Some((fs2, j)) ==> sp_pairs(s@, 1) == Some(
                    (fields_view(fields@) + fs2, j),
                ),
            sp_pairs(s@, i as int) is None ==> sp_pairs(s@, 1) is None,
        decreases n - i,
    {
        if i >= n || s.get_char(i) != '"' {
            return None;
        }
        let (key, j1) = match parse_str_body(s, i + 1) {
            Some(p) => p,
            None => {
                return None;
            },
        };
        if j1 >= n || s.get_char(j1) != ':' {
            return None;
        }
        let (value, j2) = match parse_value_at(s, j1 + 1) {
            Some(p) => p,
            None => {
                return None;
            },
        };
        let ghost fv = JsonFieldV { key: key@, value: value@ };
        let ghost fields0 = fields_view(fields@);
        fields.push(JsonField { key, value });
        proof {
            assert(fields_view(fields@) =~= fields0 + seq![fv]);
        }
        if j2 < n && s.get_char(j2) == '}' {
            proof {
                assert(sp_pairs(s@, i as int) == Some((seq![fv], j2 + 1)));
                assert(fields0 + seq![fv] =~= fields_view(fields@));
                assert(sp_pairs(s@, 1) == Some((fields_view(fields@), j2 + 1)));
            }
            if j2 + 1 == n {
                return Some(fields);
            } else {
                return None;
            }
        } else if j2 < n && s.get_char(j2) == ',' {
            proof {
                assert forall|fs2: Seq<JsonFieldV>, j: int|
                    sp_pairs(s@, j2 + 1) == Some((fs2, j)) implies sp_pairs(s@, 1) == Some(
                    (fields_view(fields@) + fs2, j),
                ) by {
                    assert(sp_pairs(s@, i as int) == Some((seq![fv] + fs2, j)));
                    assert(fields0 + (seq![fv] + fs2) =~= (fields0 + seq![fv]) + fs2);
                }
                assert(sp_pairs(s@, j2 + 1) is None ==> sp_pairs(s@, i as int) is None);
            }
            i = j2 + 1;
        } else {
            return None;
        }
    }
}

// ── Reading back what was written ──

/// Split a suffix equation: where the tail of `s` from `i` is `a + b`,
/// the characters of `a` sit at `i`, and the tail from `i + a.len()`
/// is `b`.
proof fn lemma_suffix_split(s: Seq<char>, i: int, a: Seq<char>, b: Seq<char>)
    requires
        0 <= i <= s.len(),
        s.subrange(i, s.len() as int) == a + b,
    ensures
        s.len() - i == a.len() + b.len(),
        forall|m: int| 0 <= m < a.len() ==> s[i + m] == #[trigger] a[m],
        s.subrange(i + a.len(), s.len() as int) == b,
        a.len() > 0 ==> s[i] == a[0],
        b.len() > 0 ==> s[i + a.len()] == b[0],
{
    assert(s.subrange(i, s.len() as int).len() == s.len() - i);
    if a.len() > 0 {
        assert(s.subrange(i, s.len() as int)[0] == s[i]);
        assert((a + b)[0] == a[0]);
    }
    if b.len() > 0 {
        assert(s.subrange(i, s.len() as int)[a.len() as int] == s[i + a.len()]);
        assert((a + b)[a.len() as int] == b[0]);
    }
    assert forall|m: int| 0 <= m < a.len() implies s[i + m] == #[trigger] a[m] by {
        assert(s.subrange(i, s.len() as int)[m] == s[i + m]);
        assert((a + b)[m] == a[m]);
    }
    assert(s.subrange(i + a.len(), s.len() as int) =~= b) by {
        assert forall|m: int| 0 <= m < b.len() implies s.subrange(
            i + a.len(),
            s.len() as int,
        )[m] == b[m] by {
            assert(s.subrange(i + a.len(), s.len() as int)[m] == s[i + a.len() + m]);
            assert(s.subrange(i, s.len() as int)[a.len() + m] == s[i + a.len() + m]);
            assert((a + b)[a.len() + m] == b[m]);
        }
    }
}

/// Reading a written string body gives the original content back.
proof fn lemma_str_body_round(s: Seq<char>, i: int, k: Seq<char>, rest: Seq<char>)
    requires
        0 <= i <= s.len(),
        s.subrange(i, s.len() as int) == spec_escape(k) + (seq!['"'] + rest),
        wf_str(k),
    ensures
        sp_str_body(s, i) == Some((k, i + spec_escape(k).len() + 1)),
    decreases k.len(),
{
    lemma_suffix_split(s, i, spec_escape(k), seq!['"'] + rest);
    if k.len() == 0 {
        assert(spec_escape(k) =~= Seq::<char>::empty());
        assert(s.subrange(i, s.len() as int) =~= seq!['"'] + rest);
        lemma_suffix_split(s, i, seq!['"'], rest);
        assert(s[i] == '"');
        assert(sp_str_body(s, i) == Some((Seq::<char>::empty(), i + 1)));
        assert(Seq::<char>::empty() =~= k);
    } else {
        let c = k[0];
        let krest = k.drop_first();
        assert(spec_escape(k) == esc_char(c) + spec_escape(krest));
        assert(s.subrange(i, s.len() as int) =~= esc_char(c) + (spec_escape(krest) + (seq!['"']
            + rest))) by {
            assert(spec_escape(k) + (seq!['"'] + rest) =~= esc_char(c) + (spec_escape(krest) + (
            seq!['"'] + rest)));
        }
        lemma_suffix_split(s, i, esc_char(c), spec_escape(krest) + (seq!['"'] + rest));
        if c == '"' || c == '\\' || c == '\n' || c == '\r' || c == '\t' {
            assert(s[i] == '\\');
            let e = s[i + 1];
            assert(e == esc_char(c)[1]);
            lemma_str_body_round(s, i + 2, krest, rest);
            assert(sp_str_body(s, i) == Some((seq![c] + krest, i + spec_escape(k).len() + 1)));
            assert(seq![c] + krest =~= k);
        } else {
            assert(esc_char(c) =~= seq![c]);
            assert(esc_char(c)[0] == c);
            assert(s[i] == c);
            assert(str_char_ok(c));
            assert((c as u32) >= 0x20);
            lemma_str_body_round(s, i + 1, krest, rest);
            assert(sp_str_body(s, i) == Some((seq![c] + krest, i + spec_escape(k).len() + 1)));
            assert(seq![c] + krest =~= k);
        }
    }
}

/// Every character a valid numeric literal holds is a number character.
proof fn lemma_num_ok_chars(t: Seq<char>, i: int, mode: int)
    requires
        num_ok_from(t, i, mode),
    ensures
        forall|j: int| i <= j < t.len() ==> is_num_char(#[trigger] t[j]),
    decreases t.len() - i,
{
    if 0 <= i < t.len() {
        if mode == 0 {
            lemma_num_ok_chars(t, i + 1, 1);
        } else if mode == 1 {
            if is_digit(t[i]) {
                lemma_num_ok_chars(t, i + 1, 1);
            } else if t[i] == '.' {
                lemma_num_ok_chars(t, i + 1, 2);
            } else {
                lemma_num_ok_chars(t, i + 1, 4);
            }
        } else if mode == 2 {
            lemma_num_ok_chars(t, i + 1, 3);
        } else if mode == 3 {
            if is_digit(t[i]) {
                lemma_num_ok_chars(t, i + 1, 3);
            } else {
                lemma_num_ok_chars(t, i + 1, 4);
            }
        } else if mode == 4 {
            if t[i] == '+' || t[i] == '-' {
                lemma_num_ok_chars(t, i + 1, 5);
            } else {
                lemma_num_ok_chars(t, i + 1, 6);
            }
        } else {
            lemma_num_ok_chars(t, i + 1, 6);
        }
    }
}

proof fn lemma_num_lit_chars(t: Seq<char>)
    requires
        is_num_lit(t),
    ensures
        t.len() >= 1,
        forall|j: int| 0 <= j < t.len() ==> is_num_char(#[trigger] t[j]),
        t[0] == '-' || is_digit(t[0]),
{
    if t.len() > 0 && t[0] == '-' {
        lemma_num_ok_chars(t, 1, 0);
    } else {
        lemma_num_ok_chars(t, 0, 0);
        if t.len() == 0 {
            assert(!num_ok_from(t, 0, 0));
        }
    }
    if t.len() > 0 && t[0] != '-' {
        assert(num_ok_from(t, 0, 0));
        assert(is_digit(t[0]));
    }
}

/// The number scan stops exactly at the first non-number character.
proof fn lemma_num_end_stops(s: Seq<char>, i: int, j: int)
    requires
        0 <= i <= j <= s.len(),
        forall|m: int| i <= m < j ==> is_num_char(#[trigger] s[m]),
        j == s.len() || !is_num_char(s[j]),
    ensures
        sp_num_end(s, i) == j,
    decreases j - i,
{
    if i < j {
        lemma_num_end_stops(s, i + 1, j);
    }
}

/// A nonempty run of digits satisfies the number grammar.
proof fn lemma_digits_num_ok(t: Seq<char>, i: int)
    requires
        0 <= i <= t.len(),
        forall|k: int| i <= k < t.len() ==> is_digit(#[trigger] t[k]),
    ensures
        i < t.len() ==> num_ok_from(t, i, 0),
        num_ok_from(t, i, 1),
    decreases t.len() - i,
{
    if i < t.len() {
        lemma_digits_num_ok(t, i + 1);
    }
}

/// The rendering of an integer is a valid numeric literal.
proof fn lemma_int_str_num_lit(n: int)
    ensures
        is_num_lit(spec_int_str(n)),
        forall|j: int| 0 <= j < spec_int_str(n).len() ==> is_num_char(
            #[trigger] spec_int_str(n)[j],
        ),
{
    let t = spec_int_str(n);
    if n < 0 {
        crate::numfmt::lemma_nat_str_digits((-n) as nat);
        let digits = crate::numfmt::spec_nat_str((-n) as nat);
        assert(t == seq!['-'] + digits);
        assert forall|k: int| 1 <= k < t.len() implies is_digit(#[trigger] t[k]) by {
            assert(t[k] == digits[k - 1]);
        }
        lemma_digits_num_ok(t, 1);
        assert(t[0] == '-');
    } else {
        crate::numfmt::lemma_nat_str_digits(n as nat);
        lemma_digits_num_ok(t, 0);
        assert(is_digit(t[0]));
    }
    lemma_num_lit_chars(t);
}

/// Reading a written scalar gives the original value back, wherever
/// what follows does not begin with a number character.
proof fn lemma_value_round(s: Seq<char>, i: int, v: JsonScalarV, rest: Seq<char>)
    requires
        0 <= i <= s.len(),
        s.subrange(i, s.len() as int) == spec_enc_scalar(v) + rest,
        wf_scalar(v),
        rest.len() >= 1,
        !is_num_char(rest[0]),
    ensures
        sp_value(s, i) == Some((v, i + spec_enc_scalar(v).len())),
{
    lemma_suffix_split(s, i, spec_enc_scalar(v), rest);
    let j = i + spec_enc_scalar(v).len();
    match v {
        JsonScalarV::Int(n) => {
            let t = spec_int_str(n);
            lemma_int_str_num_lit(n);
            assert(t.len() >= 1) by {
                lemma_num_lit_chars(t);
            }
            assert(s[i] == t[0]);
            assert(t[0] == '-' || is_digit(t[0])) by {
                lemma_num_lit_chars(t);
            }
            assert(s[i] != '"' && s[i] != 't' && s[i] != 'f');
            assert forall|m: int| i <= m < j implies is_num_char(#[trigger] s[m]) by {
                assert(s[m] == t[m - i]);
            }
            assert(s[j] == rest[0]) by {
                assert(s.subrange(j, s.len() as int)[0] == s[j]);
            }
            lemma_num_end_stops(s, i, j);
            assert(s.subrange(i, j) =~= t) by {
                assert forall|m: int| 0 <= m < t.len() implies s.subrange(i, j)[m] == t[m] by {
                    assert(s.subrange(i, j)[m] == s[i + m]);
                }
            }
            crate::numfmt::lemma_int_str_round_trip(n);
        },
        JsonScalarV::Num(t) => {
            lemma_num_lit_chars(t);
            assert(s[i] == t[0]);
            assert(s[i] != '"' && s[i] != 't' && s[i] != 'f');
            assert forall|m: int| i <= m < j implies is_num_char(#[trigger] s[m]) by {
                assert(s[m] == t[m - i]);
            }
            assert(s[j] == rest[0]) by {
                assert(s.subrange(j, s.len() as int)[0] == s[j]);
            }
            lemma_num_end_stops(s, i, j);
            assert(s.subrange(i, j) =~= t) by {
                assert forall|m: int| 0 <= m < t.len() implies s.subrange(i, j)[m] == t[m] by {
                    assert(s.subrange(i, j)[m] == s[i + m]);
                }
            }
        },
        JsonScalarV::Str(t) => {
            assert(s.subrange(i, s.len() as int) =~= seq!['"'] + (spec_escape(t) + (seq!['"']
                + rest)));
            lemma_suffix_split(s, i, seq!['"'], spec_escape(t) + (seq!['"'] + rest));
            assert(s[i] == '"');
            lemma_str_body_round(s, i + 1, t, rest);
        },
        JsonScalarV::Bool(b) => {
            if b {
                assert(s[i] == 't' && s[i + 1] == 'r' && s[i + 2] == 'u' && s[i + 3] == 'e');
                assert(s[i] != '"');
            } else {
                assert(s[i] == 'f' && s[i + 1] == 'a' && s[i + 2] == 'l' && s[i + 3] == 's' && s[i
                    + 4] == 'e');
                assert(s[i] != '"' && s[i] != 't');
            }
        },
    }
}

/// Reading written members gives the original members back.
proof fn lemma_pairs_round(s: Seq<char>, i: int, fs: Seq<JsonFieldV>, rest: Seq<char>)
    requires
        0 <= i <= s.len(),
        fs.len() >= 1,
        wf_fields(fs),
        s.subrange(i, s.len() as int) == spec_enc_fields(fs) + (seq!['}'] + rest),
    ensures
        sp_pairs(s, i) == Some((fs, i + spec_enc_fields(fs).len() + 1)),
    decreases fs.len(),
{
    let f = fs[0];
    assert(wf_field(f));
    let key = f.key;
    let head = spec_quote(key) + seq![':'] + spec_enc_scalar(f.value);
    let after = if fs.len() == 1 {
        seq!['}'] + rest
    } else {
        seq![','] + (spec_enc_fields(fs.drop_first()) + (seq!['}'] + rest))
    };
    assert(s.subrange(i, s.len() as int) =~= head + after) by {
        if fs.len() == 1 {
            assert(spec_enc_fields(fs) == head);
        } else {
            assert(spec_enc_fields(fs) == head + seq![','] + spec_enc_fields(fs.drop_first()));
        }
    }
    // the key string
    assert(s.subrange(i, s.len() as int) =~= seq!['"'] + (spec_escape(key) + (seq!['"'] + (seq![
        ':',
    ] + (spec_enc_scalar(f.value) + after)))));
    lemma_suffix_split(
        s,
        i,
        seq!['"'],
        spec_escape(key) + (seq!['"'] + (seq![':'] + (spec_enc_scalar(f.value) + after))),
    );
    assert(s[i] == '"');
    lemma_str_body_round(s, i + 1, key, seq![':'] + (spec_enc_scalar(f.value) + after));
    let j1 = i + 1 + spec_escape(key).len() + 1;
    assert(sp_str_body(s, i + 1) == Some((key, j1)));
    // the colon
    assert(s.subrange(i + 1, s.len() as int) =~= (spec_escape(key) + seq!['"']) + (seq![':'] + (
    spec_enc_scalar(f.value) + after)));
    lemma_suffix_split(
        s,
        i + 1,
        spec_escape(key) + seq!['"'],
        seq![':'] + (spec_enc_scalar(f.value) + after),
    );
    assert(s[j1] == ':');
    // the value
    assert(s.subrange(j1, s.len() as int) == seq![':'] + (spec_enc_scalar(f.value) + after));
    lemma_suffix_split(s, j1, seq![':'], spec_enc_scalar(f.value) + after);
    let jv = j1 + 1;
    assert(s.subrange(jv, s.len() as int) == spec_enc_scalar(f.value) + after);
    assert(after[0] == '}' || after[0] == ',');
    assert(!is_num_char(after[0]));
    lemma_value_round(s, jv, f.value, after);
    let j2 = jv + spec_enc_scalar(f.value).len();
    assert(sp_value(s, jv) == Some((f.value, j2)));
    lemma_suffix_split(s, jv, spec_enc_scalar(f.value), after);
    assert(s[j2] == after[0]);
    if fs.len() == 1 {
        assert(s[j2] == '}');
        assert(sp_pairs(s, i) == Some((seq![f], j2 + 1)));
        assert(seq![f] =~= fs);
        assert(j2 + 1 == i + spec_enc_fields(fs).len() + 1);
    } else {
        assert(s[j2] == ',');
        lemma_suffix_split(
            s,
            j2,
            seq![','],
            spec_enc_fields(fs.drop_first()) + (seq!['}'] + rest),
        );
        assert(s.subrange(j2, s.len() as int) =~= seq![','] + (spec_enc_fields(fs.drop_first()) + (
        seq!['}'] + rest)));
        assert(wf_fields(fs.drop_first())) by {
            assert(forall|k: int|
                0 <= k < fs.drop_first().len() ==> #[trigger] fs.drop_first()[k] == fs[k + 1]);
        }
        lemma_pairs_round(s, j2 + 1, fs.drop_first(), rest);
        let j3 = j2 + 1 + spec_enc_fields(fs.drop_first()).len() + 1;
        assert(sp_pairs(s, j2 + 1) == Some((fs.drop_first(), j3)));
        assert(sp_pairs(s, i) == Some((seq![f] + fs.drop_first(), j3)));
        assert(seq![f] + fs.drop_first() =~= fs);
        assert(j3 == i + spec_enc_fields(fs).len() + 1);
    }
}

/// Reading a written object gives the original members back: the
/// writer and the reader of the IPC line format are mutual inverses.
pub proof fn lemma_parse_encode_obj(fs: Seq<JsonFieldV>)
    requires
        wf_fields(fs),
    ensures
        spec_parse_object(spec_enc_obj(fs)) == Some(fs),
{
    let s = spec_enc_obj(fs);
    assert(s[0] == '{');
    if fs.len() == 0 {
        assert(spec_enc_fields(fs) =~= Seq::<char>::empty());
        assert(s =~= seq!['{', '}']);
        assert(sp_object(s, 0) == Some((Seq::<JsonFieldV>::empty(), 2int)));
        assert(Seq::<JsonFieldV>::empty() =~= fs);
    } else {
        assert(s.subrange(1, s.len() as int) =~= spec_enc_fields(fs) + (seq!['}']
            + Seq::<char>::empty()));
        lemma_pairs_round(s, 1, fs, Seq::empty());
        assert(sp_pairs(s, 1) == Some((fs, s.len() as int)));
        assert(s[1] == spec_enc_fields(fs)[0]) by {
            lemma_suffix_split(s, 1, spec_enc_fields(fs), seq!['}'] + Seq::<char>::empty());
        }
        assert(spec_enc_fields(fs)[0] == '"') by {
            assert(spec_enc_fields(fs) == (spec_quote(fs[0].key) + seq![':'] + spec_enc_scalar(
                fs[0].value,
            )) || spec_enc_fields(fs) == (spec_quote(fs[0].key) + seq![':'] + spec_enc_scalar(
                fs[0].value,
            )) + seq![','] + spec_enc_fields(fs.drop_first()));
            assert(spec_quote(fs[0].key)[0] == '"');
        }
        assert(s[1] != '}');
        assert(sp_object(s, 0) == sp_pairs(s, 1));
    }
}

/// Member writing distributes over appending one member.
proof fn lemma_enc_fields_snoc(fs: Seq<JsonFieldV>, f: JsonFieldV)
    ensures
        fs.len() == 0 ==> spec_enc_fields(fs + seq![f]) == spec_quote(f.key) + seq![':']
            + spec_enc_scalar(f.value),
        fs.len() > 0 ==> spec_enc_fields(fs + seq![f]) == spec_enc_fields(fs) + seq![',']
            + spec_quote(f.key) + seq![':'] + spec_enc_scalar(f.value),
    decreases fs.len(),
{
    let whole = fs + seq![f];
    if fs.len() == 0 {
        assert(whole.len() == 1);
        assert(whole[0] == f);
        assert(spec_enc_fields(whole) =~= spec_quote(f.key) + seq![':'] + spec_enc_scalar(f.value));
    } else {
        assert(whole.drop_first() =~= fs.drop_first() + seq![f]);
        lemma_enc_fields_snoc(fs.drop_first(), f);
        if fs.len() == 1 {
            assert(fs.drop_first().len() == 0);
            assert(spec_enc_fields(whole) =~= spec_enc_fields(fs) + seq![','] + spec_quote(f.key)
                + seq![':'] + spec_enc_scalar(f.value));
        } else {
            assert(spec_enc_fields(whole) =~= spec_enc_fields(fs) + seq![','] + spec_quote(f.key)
                + seq![':'] + spec_enc_scalar(f.value));
        }
    }
}

} // verus!
