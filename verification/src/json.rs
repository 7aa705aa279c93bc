//! Request bodies and their JSON wire text.
//!
//! A request body is an ordered list of named fields whose values are
//! strings, integers, booleans, or arrays of strings. The wire text is
//! defined by spec functions (`body_text` and its helpers) that produce the
//! compact JSON rendering: fields in insertion order, names kept verbatim,
//! strings escaped as JSON requires. The executable encoder is proved to
//! produce exactly that text.

use vstd::prelude::*;

use crate::wxid::Wxid;

verus! {

/// Spec-level value of one body field.
pub ghost enum ParamView {
    Str(Seq<char>),
    Int(int),
    Bool(bool),
    StrList(Seq<Seq<char>>),
}

/// The sixteen lowercase hexadecimal digit characters; the first ten double
/// as the decimal digits.
pub open spec fn digit_chars() -> Seq<char> {
    seq!['0', '1', '2', '3', '4', '5', '6', '7', '8', '9', 'a', 'b', 'c', 'd', 'e', 'f']
}

pub open spec fn digit_char(n: int) -> char {
    digit_chars()[n]
}

/// How one character appears inside a JSON string literal: quote and
/// backslash get a backslash escape, the five named control characters get
/// their short escapes, the remaining control characters get `\u00XY` with
/// lowercase hex, and every other character stands for itself.
pub open spec fn escaped_char(c: char) -> Seq<char> {
    if c == '"' {
        seq!['\\', '"']
    } else if c == '\\' {
        seq!['\\', '\\']
    } else if c == '\u{8}' {
        seq!['\\', 'b']
    } else if c == '\t' {
        seq!['\\', 't']
    } else if c == '\n' {
        seq!['\\', 'n']
    } else if c == '\u{c}' {
        seq!['\\', 'f']
    } else if c == '\r' {
        seq!['\\', 'r']
    } else if (c as u32) < 0x20 {
        seq!['\\', 'u', '0', '0', digit_char((c as u32) as int / 16), digit_char(
            (c as u32) as int % 16,
        )]
    } else {
        seq![c]
    }
}

pub open spec fn escaped_text(s: Seq<char>) -> Seq<char>
    decreases s.len(),
{
    if s.len() == 0 {
        Seq::empty()
    } else {
        escaped_char(s[0]) + escaped_text(s.drop_first())
    }
}

/// A JSON string literal: the escaped text between double quotes.
pub open spec fn quoted(s: Seq<char>) -> Seq<char> {
    seq!['"'] + escaped_text(s) + seq!['"']
}

/// The decimal digits of a nonnegative integer, most significant first.
pub open spec fn dec_text(n: int) -> Seq<char>
    decreases n,
{
    if n < 10 {
        seq![digit_char(n)]
    } else {
        dec_text(n / 10).push(digit_char(n % 10))
    }
}

/// A JSON integer: an optional minus sign before the decimal digits.
pub open spec fn int_text(i: int) -> Seq<char> {
    if i < 0 {
        seq!['-'] + dec_text(-i)
    } else {
        dec_text(i)
    }
}

pub open spec fn bool_text(b: bool) -> Seq<char> {
    if b {
        seq!['t', 'r', 'u', 'e']
    } else {
        seq!['f', 'a', 'l', 's', 'e']
    }
}

/// The comma-separated JSON string literals inside an array of strings.
pub open spec fn str_items_text(items: Seq<Seq<char>>) -> Seq<char>
    decreases items.len(),
{
    if items.len() == 0 {
        Seq::empty()
    } else if items.len() == 1 {
        quoted(items[0])
    } else {
        quoted(items[0]) + seq![','] + str_items_text(items.drop_first())
    }
}

/// The JSON rendering of one field value.
pub open spec fn param_text(p: ParamView) -> Seq<char> {
    match p {
        ParamView::Str(s) => quoted(s),
        ParamView::Int(i) => int_text(i),
        ParamView::Bool(b) => bool_text(b),
        ParamView::StrList(items) => seq!['['] + str_items_text(items) + seq![']'],
    }
}

/// One `"name":value` member of the JSON object.
pub open spec fn field_text(f: (Seq<char>, ParamView)) -> Seq<char> {
    quoted(f.0) + seq![':'] + param_text(f.1)
}

/// The comma-separated members of the JSON object, in field order.
pub open spec fn fields_text(fs: Seq<(Seq<char>, ParamView)>) -> Seq<char>
    decreases fs.len(),
{
    if fs.len() == 0 {
        Seq::empty()
    } else if fs.len() == 1 {
        field_text(fs[0])
    } else {
        field_text(fs[0]) + seq![','] + fields_text(fs.drop_first())
    }
}

/// The complete JSON object for a body with the given fields.
pub open spec fn body_text(fs: Seq<(Seq<char>, ParamView)>) -> Seq<char> {
    seq!['{'] + fields_text(fs) + seq!['}']
}

proof fn lemma_escaped_text_push(s: Seq<char>, c: char)
    ensures
        escaped_text(s.push(c)) == escaped_text(s) + escaped_char(c),
    decreases s.len(),
{
    if s.len() == 0 {
        assert(s.push(c) =~= seq![c]);
        assert(s.push(c)[0] == c);
        assert(s.push(c).drop_first() =~= Seq::<char>::empty());
        assert(escaped_text(s.push(c).drop_first()) =~= Seq::<char>::empty());
        assert(escaped_text(s.push(c)) =~= escaped_char(c));
        assert(escaped_text(s) + escaped_char(c) =~= escaped_char(c));
    } else {
        assert(s.push(c).drop_first() =~= s.drop_first().push(c));
        lemma_escaped_text_push(s.drop_first(), c);
        assert(escaped_text(s.push(c)) =~= escaped_text(s) + escaped_char(c));
    }
}

proof fn lemma_str_items_text_push(items: Seq<Seq<char>>, x: Seq<char>)
    ensures
        items.len() == 0 ==> str_items_text(items.push(x)) == quoted(x),
        items.len() > 0 ==> str_items_text(items.push(x)) == str_items_text(items) + seq![',']
            + quoted(x),
    decreases items.len(),
{
    if items.len() == 0 {
        assert(items.push(x)[0] == x);
    } else if items.len() == 1 {
        assert(items.push(x).drop_first() =~= seq![x]);
        assert(str_items_text(items.push(x).drop_first()) == quoted(x));
        assert(str_items_text(items) + seq![','] + quoted(x) =~= quoted(items[0]) + seq![',']
            + quoted(x));
    } else {
        assert(items.push(x).drop_first() =~= items.drop_first().push(x));
        lemma_str_items_text_push(items.drop_first(), x);
        assert(str_items_text(items.push(x)) =~= str_items_text(items) + seq![','] + quoted(x));
    }
}

proof fn lemma_fields_text_push(fs: Seq<(Seq<char>, ParamView)>, x: (Seq<char>, ParamView))
    ensures
        fs.len() == 0 ==> fields_text(fs.push(x)) == field_text(x),
        fs.len() > 0 ==> fields_text(fs.push(x)) == fields_text(fs) + seq![','] + field_text(x),
    decreases fs.len(),
{
    if fs.len() == 0 {
        assert(fs.push(x)[0] == x);
    } else if fs.len() == 1 {
        assert(fs.push(x).drop_first() =~= seq![x]);
        assert(fields_text(fs.push(x).drop_first()) == field_text(x));
        assert(fields_text(fs) + seq![','] + field_text(x) =~= field_text(fs[0]) + seq![',']
            + field_text(x));
    } else {
        assert(fs.push(x).drop_first() =~= fs.drop_first().push(x));
        lemma_fields_text_push(fs.drop_first(), x);
        assert(fields_text(fs.push(x)) =~= fields_text(fs) + seq![','] + field_text(x));
    }
}

/// Appends the lowercase hexadecimal digit for `d`.
fn append_digit(out: &mut String, d: usize)
    requires
        d < 16,
    ensures
        final(out)@ == old(out)@ + seq![digit_char(d as int)],
{
    let ghost expect = seq![digit_char(d as int)];
    match d {
        0 => {
            proof {
                reveal_strlit("0");
                assert("0"@ =~= expect);
            }
            out.append("0");
        },
        1 => {
            proof {
                reveal_strlit("1");
                assert("1"@ =~= expect);
            }
            out.append("1");
        },
        2 => {
            proof {
                reveal_strlit("2");
                assert("2"@ =~= expect);
            }
            out.append("2");
        },
        3 => {
            proof {
                reveal_strlit("3");
                assert("3"@ =~= expect);
            }
            out.append("3");
        },
        4 => {
            proof {
                reveal_strlit("4");
                assert("4"@ =~= expect);
            }
            out.append("4");
        },
        5 => {
            proof {
                reveal_strlit("5");
                assert("5"@ =~= expect);
            }
            out.append("5");
        },
        6 => {
            proof {
                reveal_strlit("6");
                assert("6"@ =~= expect);
            }
            out.append("6");
        },
        7 => {
            proof {
                reveal_strlit("7");
                assert("7"@ =~= expect);
            }
            out.append("7");
        },
        8 => {
            proof {
                reveal_strlit("8");
                assert("8"@ =~= expect);
            }
            out.append("8");
        },
        9 => {
            proof {
                reveal_strlit("9");
                assert("9"@ =~= expect);
            }
            out.append("9");
        },
        10 => {
            proof {
                reveal_strlit("a");
                assert("a"@ =~= expect);
            }
            out.append("a");
        },
        11 => {
            proof {
                reveal_strlit("b");
                assert("b"@ =~= expect);
            }
            out.append("b");
        },
        12 => {
            proof {
                reveal_strlit("c");
                assert("c"@ =~= expect);
            }
            out.append("c");
        },
        13 => {
            proof {
                reveal_strlit("d");
                assert("d"@ =~= expect);
            }
            out.append("d");
        },
        14 => {
            proof {
                reveal_strlit("e");
                assert("e"@ =~= expect);
            }
            out.append("e");
        },
        _ => {
            proof {
                reveal_strlit("f");
                assert("f"@ =~= expect);
            }
            out.append("f");
        },
    }
}

/// Appends the JSON escape of every character of `s` in order.
fn append_escaped(out: &mut String, s: &str)
    ensures
        final(out)@ == old(out)@ + escaped_text(s@),
{
    let n = s.unicode_len();
    let mut i: usize = 0;
    while i < n
        invariant
            i <= n,
            n == s@.len(),
            out@ == old(out)@ + escaped_text(s@.take(i as int)),
        decreases n - i,
    {
        let ghost done = s@.take(i as int);
        let c = s.get_char(i);
        if c == '"' {
            proof {
                reveal_strlit("\\\"");
                assert("\\\""@ =~= escaped_char(c));
            }
            out.append("\\\"");
        } else if c == '\\' {
            proof {
                reveal_strlit("\\\\");
                assert("\\\\"@ =~= escaped_char(c));
            }
            out.append("\\\\");
        } else if c == '\u{8}' {
            proof {
                reveal_strlit("\\b");
                assert("\\b"@ =~= escaped_char(c));
            }
            out.append("\\b");
        } else if c == '\t' {
            proof {
                reveal_strlit("\\t");
                assert("\\t"@ =~= escaped_char(c));
            }
            out.append("\\t");
        } else if c == '\n' {
            proof {
                reveal_strlit("\\n");
                assert("\\n"@ =~= escaped_char(c));
            }
            out.append("\\n");
        } else if c == '\u{c}' {
            proof {
                reveal_strlit("\\f");
                assert("\\f"@ =~= escaped_char(c));
            }
            out.append("\\f");
        } else if c == '\r' {
            proof {
                reveal_strlit("\\r");
                assert("\\r"@ =~= escaped_char(c));
            }
            out.append("\\r");
        } else {
            let u = c as u32;
            if u < 0x20 {
                proof {
                    reveal_strlit("\\u00");
                    assert("\\u00"@ =~= seq!['\\', 'u', '0', '0']);
                }
                out.append("\\u00");
                append_digit(out, (u / 16) as usize);
                append_digit(out, (u % 16) as usize);
                assert(out@ == old(out)@ + escaped_text(done) + escaped_char(c));
            } else {
                let one = s.substring_char(i, i + 1);
                proof {
                    assert(one@ =~= seq![s@[i as int]]);
                    assert(one@ =~= escaped_char(c));
                }
                out.append(one);
            }
        }
        proof {
            lemma_escaped_text_push(done, c);
            assert(s@.take(i as int + 1) =~= done.push(c));
            assert(out@ == old(out)@ + escaped_text(s@.take(i as int + 1)));
        }
        i = i + 1;
    }
    proof {
        assert(s@.take(n as int) =~= s@);
    }
}

/// Appends `s` as a JSON string literal.
fn append_quoted(out: &mut String, s: &str)
    ensures
        final(out)@ == old(out)@ + quoted(s@),
{
    proof {
        reveal_strlit("\"");
        assert("\""@ =~= seq!['"']);
    }
    out.append("\"");
    append_escaped(out, s);
    out.append("\"");
    assert(out@ =~= old(out)@ + quoted(s@));
}

/// Appends the decimal digits of `n`.
fn append_dec_u64(out: &mut String, n: u64)
    ensures
        final(out)@ == old(out)@ + dec_text(n as int),
    decreases n,
{
    if n < 10 {
        append_digit(out, n as usize);
    } else {
        append_dec_u64(out, n / 10);
        append_digit(out, (n % 10) as usize);
        assert(out@ =~= old(out)@ + dec_text(n as int));
    }
}

/// Appends the JSON rendering of a signed integer.
fn append_int(out: &mut String, i: i64)
    ensures
        final(out)@ == old(out)@ + int_text(i as int),
{
    if i < 0 {
        proof {
            reveal_strlit("-");
            assert("-"@ =~= seq!['-']);
        }
        out.append("-");
        let wide: i128 = i as i128;
        let mag: u64 = (-wide) as u64;
        assert(mag as int == -(i as int));
        append_dec_u64(out, mag);
        assert(out@ =~= old(out)@ + int_text(i as int));
    } else {
        append_dec_u64(out, i as u64);
    }
}

/// An executable field value: a string, an integer, a boolean, or an array
/// of strings, exactly the shapes the remote routes take.
#[derive(Debug, Clone)]
pub enum JsonParam {
    Str(String),
    Int(i64),
    Bool(bool),
    StrList(Vec<String>),
}

impl View for JsonParam {
    type V = ParamView;

    open spec fn view(&self) -> ParamView {
        match self {
            JsonParam::Str(s) => ParamView::Str(s@),
            JsonParam::Int(i) => ParamView::Int(*i as int),
            JsonParam::Bool(b) => ParamView::Bool(*b),
            JsonParam::StrList(items) => ParamView::StrList(items.deep_view()),
        }
    }
}

/// Appends the JSON rendering of one field value.
fn append_param(out: &mut String, p: &JsonParam)
    ensures
        final(out)@ == old(out)@ + param_text(p@),
{
    match p {
        JsonParam::Str(s) => {
            append_quoted(out, s.as_str());
        },
        JsonParam::Int(i) => {
            append_int(out, *i);
        },
        JsonParam::Bool(b) => {
            if *b {
                proof {
                    reveal_strlit("true");
                    assert("true"@ =~= bool_text(true));
                }
                out.append("true");
            } else {
                proof {
                    reveal_strlit("false");
                    assert("false"@ =~= bool_text(false));
                }
                out.append("false");
            }
        },
        JsonParam::StrList(items) => {
            proof {
                reveal_strlit("[");
                reveal_strlit("]");
                reveal_strlit(",");
                assert("["@ =~= seq!['[']);
                assert("]"@ =~= seq![']']);
                assert(","@ =~= seq![',']);
            }
            out.append("[");
            let ghost opened = out@;
            let n = items.len();
            let mut i: usize = 0;
            while i < n
                invariant
                    i <= n,
                    n == items@.len(),
                    items.deep_view().len() == n,
                    forall|j: int|
                        0 <= j < n ==> items.deep_view()[j] == #[trigger] items@[j]@,
                    out@ == opened + str_items_text(items.deep_view().take(i as int)),
                    ","@ == seq![','],
                decreases n - i,
            {
                let ghost done = items.deep_view().take(i as int);
                if i > 0 {
                    out.append(",");
                }
                append_quoted(out, items[i].as_str());
                proof {
                    lemma_str_items_text_push(done, items@[i as int]@);
                    assert(items.deep_view().take(i as int + 1) =~= done.push(
                        items@[i as int]@,
                    ));
                    assert(out@ == opened + str_items_text(
                        items.deep_view().take(i as int + 1),
                    ));
                }
                i = i + 1;
            }
            proof {
                assert(items.deep_view().take(n as int) =~= items.deep_view());
            }
            out.append("]");
            assert(out@ =~= old(out)@ + param_text(p@));
        },
    }
}

/// An ordered mapping from wire field names to values, assembled per call;
/// field names are kept exactly as supplied.
#[derive(Debug, Clone)]
pub struct RequestBody {
    fields: Vec<(String, JsonParam)>,
}

impl View for RequestBody {
    type V = Seq<(Seq<char>, ParamView)>;

    closed spec fn view(&self) -> Seq<(Seq<char>, ParamView)> {
        self.fields@.map_values(|kv: (String, JsonParam)| (kv.0@, kv.1@))
    }
}

impl RequestBody {
    /// A body with no fields yet.
    pub fn new() -> (r: RequestBody)
        ensures
            r@ == Seq::<(Seq<char>, ParamView)>::empty(),
    {
        let r = RequestBody { fields: Vec::new() };
        proof {
            assert(r@ =~= Seq::<(Seq<char>, ParamView)>::empty());
        }
        r
    }

    /// The number of fields pushed so far.
    pub fn len(&self) -> (r: usize)
        ensures
            r == self@.len(),
    {
        self.fields.len()
    }

    fn push_field(&mut self, name: &str, value: JsonParam)
        ensures
            final(self)@ == old(self)@.push((name@, value@)),
    {
        self.fields.push((name.to_owned(), value));
        proof {
            assert(self@ =~= old(self)@.push((name@, self.fields@.last().1@)));
        }
    }

    /// Adds a string-valued field.
    pub fn push_str(&mut self, name: &str, value: &str)
        ensures
            final(self)@ == old(self)@.push((name@, ParamView::Str(value@))),
    {
        self.push_field(name, JsonParam::Str(value.to_owned()));
    }

    /// Adds a string-valued field holding an identifier's raw string.
    pub fn push_wxid(&mut self, name: &str, value: &Wxid)
        ensures
            final(self)@ == old(self)@.push((name@, ParamView::Str(value@))),
    {
        self.push_field(name, JsonParam::Str(value.as_str().to_owned()));
    }

    /// Adds an integer-valued field.
    pub fn push_int(&mut self, name: &str, value: i64)
        ensures
            final(self)@ == old(self)@.push((name@, ParamView::Int(value as int))),
    {
        self.push_field(name, JsonParam::Int(value));
    }

    /// Adds a boolean-valued field.
    pub fn push_bool(&mut self, name: &str, value: bool)
        ensures
            final(self)@ == old(self)@.push((name@, ParamView::Bool(value))),
    {
        self.push_field(name, JsonParam::Bool(value));
    }

    /// Adds a field holding an array of strings.
    pub fn push_str_list(&mut self, name: &str, values: Vec<String>)
        ensures
            final(self)@ == old(self)@.push((name@, ParamView::StrList(values.deep_view()))),
    {
        self.push_field(name, JsonParam::StrList(values));
    }

    /// Adds a field holding the raw strings of a list of identifiers.
    pub fn push_wxid_list(&mut self, name: &str, values: &Vec<Wxid>)
        ensures
            final(self)@ == old(self)@.push(
                (name@, ParamView::StrList(values@.map_values(|w: Wxid| w@))),
            ),
    {
        let n = values.len();
        let mut raw: Vec<String> = Vec::new();
        let mut i: usize = 0;
        while i < n
            invariant
                i <= n,
                n == values@.len(),
                raw@.len() == i,
                forall|j: int| 0 <= j < i ==> #[trigger] raw@[j]@ == values@[j]@,
            decreases n - i,
        {
            raw.push(values[i].as_str().to_owned());
            i = i + 1;
        }
        proof {
            assert(raw.deep_view() =~= values@.map_values(|w: Wxid| w@));
        }
        self.push_field(name, JsonParam::StrList(raw));
    }

    /// Renders the body as its JSON object text.
    pub fn encode(&self) -> (r: String)
        ensures
            r@ == body_text(self@),
    {
        proof {
            reveal_strlit("{");
            reveal_strlit("}");
            reveal_strlit(",");
            reveal_strlit(":");
            assert("{"@ =~= seq!['{']);
            assert("}"@ =~= seq!['}']);
            assert(","@ =~= seq![',']);
            assert(":"@ =~= seq![':']);
        }
        let mut out = String::new();
        out.append("{");
        let ghost opened = out@;
        let n = self.fields.len();
        let mut i: usize = 0;
        while i < n
            invariant
                i <= n,
                n == self.fields@.len(),
                self@.len() == n,
                forall|j: int|
                    0 <= j < n ==> #[trigger] self@[j] == (
                        self.fields@[j].0@,
                        self.fields@[j].1@,
                    ),
                out@ == opened + fields_text(self@.take(i as int)),
                ","@ == seq![','],
                ":"@ == seq![':'],
            decreases n - i,
        {
            let ghost done = self@.take(i as int);
            if i > 0 {
                out.append(",");
            }
            let kv = &self.fields[i];
            append_quoted(&mut out, kv.0.as_str());
            out.append(":");
            append_param(&mut out, &kv.1);
            proof {
                lemma_fields_text_push(done, self@[i as int]);
                assert(self@.take(i as int + 1) =~= done.push(self@[i as int]));
                assert(out@ == opened + fields_text(self@.take(i as int + 1)));
            }
            i = i + 1;
        }
        proof {
            assert(self@.take(n as int) =~= self@);
        }
        out.append("}");
        proof {
            assert(out@ =~= body_text(self@));
        }
        out
    }
}

} // verus!
