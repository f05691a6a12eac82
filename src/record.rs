use vstd::prelude::*;
use vstd::std_specs::iter::IteratorSpec;
use vstd::utf8::encode_utf8;

verus! {

/// serde_json's error type, carried through unopened.
#[verifier::external_type_specification]
#[verifier::external_body]
pub struct ExJsonError(serde_json::Error);

pub open spec fn hex_digit(d: nat) -> char {
    "0123456789abcdef"@[d as int]
}

/// How one character stands inside a JSON string: quote, backslash and the
/// control characters below 0x20 are escaped, short forms first, the rest as
/// `\u00XX` with lower-case hex digits; every other character stands as is.
pub open spec fn json_escape_char(c: char) -> Seq<char> {
    if c == '"' {
        seq!['\\', '"']
    } else if c == '\\' {
        seq!['\\', '\\']
    } else if c == '\u{8}' {
        seq!['\\', 'b']
    } else if c == '\t' {
        seq!['\\', 't']
    } else if c == '\n' {
        seq!['\\', 'n']
    } else if c == '\u{c}' {
        seq!['\\', 'f']
    } else if c == '\r' {
        seq!['\\', 'r']
    } else if (c as u32) < 0x20 {
        seq!['\\', 'u', '0', '0', hex_digit((c as u32 / 16) as nat), hex_digit((c as u32 % 16) as nat)]
    } else {
        seq![c]
    }
}

/// The escaped characters of `s`, in order.
pub open spec fn json_escape(s: Seq<char>) -> Seq<char>
    decreases s.len(),
{
    if s.len() == 0 {
        Seq::empty()
    } else {
        json_escape(s.drop_last()) + json_escape_char(s.last())
    }
}

/// The JSON string literal of `s`: its escaped characters between quotes.
pub open spec fn json_quoted(s: Seq<char>) -> Seq<char> {
    seq!['"'] + json_escape(s) + seq!['"']
}

/// Relies on serde_json::to_string on a `str`: a quote, each character
/// through serde_json's escape table, a quote. A `str` always serializes: it
/// is escaped into a `Vec<u8>`, whose writes do not fail.
#[verifier::external_body]
fn json_string(s: &str) -> (r: Result<String, serde_json::Error>)
    ensures
        r is Ok,
        r matches Ok(q) ==> q@ == json_quoted(s@),
{
    serde_json::to_string(s)
}

/// Relies on String::push: appends one character.
#[verifier::external_body]
fn push_char(s: &mut String, c: char)
    ensures
        final(s)@ == old(s)@.push(c),
{
    s.push(c)
}

/// Relies on String::push_str: appends the characters of `t`.
#[verifier::external_body]
fn push_str(s: &mut String, t: &str)
    ensures
        final(s)@ == old(s)@ + t@,
{
    s.push_str(t)
}

/// `t` holds no line feed.
pub open spec fn no_line_feed(t: Seq<char>) -> bool {
    forall|i: int| 0 <= i < t.len() ==> t[i] != '\n'
}

/// `t` is one line: it ends in a line feed and holds no other.
pub open spec fn single_line(t: Seq<char>) -> bool {
    &&& t.len() > 0
    &&& t.last() == '\n'
    &&& no_line_feed(t.drop_last())
}

proof fn lemma_concat_no_line_feed(a: Seq<char>, b: Seq<char>)
    requires
        no_line_feed(a),
        no_line_feed(b),
    ensures
        no_line_feed(a + b),
{
    assert forall|i: int| 0 <= i < (a + b).len() implies (a + b)[i] != '\n' by {
        if i < a.len() {
            assert((a + b)[i] == a[i]);
        } else {
            assert((a + b)[i] == b[i - a.len()]);
        }
    }
}

proof fn lemma_decimal_no_line_feed(n: nat)
    ensures
        no_line_feed(decimal(n)),
    decreases n,
{
    reveal_strlit("0123456789");
    if n >= 10 {
        lemma_decimal_no_line_feed(n / 10);
        assert(digit_char(n % 10) != '\n');
        lemma_concat_no_line_feed(decimal(n / 10), seq![digit_char(n % 10)]);
        assert(decimal(n) =~= decimal(n / 10) + seq![digit_char(n % 10)]);
    } else {
        assert(digit_char(n) != '\n');
    }
}

proof fn lemma_json_quoted_no_line_feed(s: Seq<char>)
    ensures
        no_line_feed(json_escape(s)),
        no_line_feed(json_quoted(s)),
    decreases s.len(),
{
    if s.len() > 0 {
        lemma_json_quoted_no_line_feed(s.drop_last());
        let c = s.last();
        if (c as u32) < 0x20 {
            reveal_strlit("0123456789abcdef");
        }
        assert(no_line_feed(json_escape_char(c)));
        lemma_concat_no_line_feed(json_escape(s.drop_last()), json_escape_char(c));
    }
    lemma_concat_no_line_feed(seq!['"'], json_escape(s));
    lemma_concat_no_line_feed(seq!['"'] + json_escape(s), seq!['"']);
}

/// Reversing a string's characters twice gives the string back.
pub proof fn lemma_reverse_twice(s: Seq<char>)
    ensures
        s.reverse().reverse() == s,
{
    assert(s.reverse().reverse() =~= s);
}

/// Byte length of the UTF-8 encoding of `s`.
pub open spec fn byte_len(s: Seq<char>) -> nat {
    encode_utf8(s).len()
}

pub open spec fn digit_char(d: nat) -> char {
    "0123456789"@[d as int]
}

/// Decimal digits of `n`, most significant first, with no leading zero.
pub open spec fn decimal(n: nat) -> Seq<char>
    decreases n,
{
    if n < 10 {
        seq![digit_char(n)]
    } else {
        decimal(n / 10).push(digit_char(n % 10))
    }
}

/// The compact JSON object of one record, given the JSON literals of its two
/// string fields.
pub open spec fn record_text(line_json: Seq<char>, idx: nat, len: nat, reversed_json: Seq<char>) -> Seq<char> {
    "{\"line\":"@ + line_json + ",\"idx\":"@ + decimal(idx) + ",\"len\":"@ + decimal(len)
        + ",\"reversed\":"@ + reversed_json + "}"@
}

/// The line sent for the argument `line` at position `idx`: its JSON record
/// followed by one line feed.
pub open spec fn record_line(line: Seq<char>, idx: nat) -> Seq<char> {
    record_text(json_quoted(line), idx, byte_len(line), json_quoted(line.reverse())) + "\n"@
}

fn push_digit(out: &mut String, d: usize)
    requires
        d < 10,
    ensures
        final(out)@ == old(out)@.push(digit_char(d as nat)),
{
    proof {
        reveal_strlit("0123456789");
    }
    let c: char = match d {
        0 => '0',
        1 => '1',
        2 => '2',
        3 => '3',
        4 => '4',
        5 => '5',
        6 => '6',
        7 => '7',
        8 => '8',
        _ => '9',
    };
    push_char(out, c);
}

/// Appends the decimal digits of `n` to `out`.
pub fn push_decimal(out: &mut String, n: usize)
    ensures
        final(out)@ == old(out)@ + decimal(n as nat),
    decreases n,
{
    if n >= 10 {
        push_decimal(out, n / 10);
    }
    push_digit(out, n % 10);
    assert(out@ =~= old(out)@ + decimal(n as nat));
}

/// One argument prepared for the script: the string, its position, its byte
/// length and its characters in reverse order.
pub struct InputRecord {
    pub line: String,
    pub idx: usize,
    pub len: usize,
    pub reversed: String,
}

/// The characters of `s`, last first.
pub fn reverse_chars(s: &str) -> (r: String)
    ensures
        r@ == s@.reverse(),
{
    let mut chars: Vec<char> = Vec::new();
    let mut it = s.chars();
    loop
        invariant
            chars@ + it.remaining() == s@,
            it.decrease() is Some,
        ensures
            chars@ == s@,
        decreases it.decrease()->0,
    {
        match it.next() {
            Some(c) => chars.push(c),
            None => break,
        }
    }
    let mut r = String::new();
    let mut i: usize = chars.len();
    while i > 0
        invariant
            i <= chars@.len(),
            chars@ == s@,
            r@ == chars@.subrange(i as int, chars@.len() as int).reverse(),
        decreases i,
    {
        i = i - 1;
        push_char(&mut r, chars[i]);
        assert(r@ =~= chars@.subrange(i as int, chars@.len() as int).reverse());
    }
    assert(chars@.subrange(0, chars@.len() as int) =~= chars@);
    r
}

impl InputRecord {
    /// Builds the record of the argument `line` at position `idx`.
    pub fn new(line: &str, idx: usize) -> (r: InputRecord)
        ensures
            r.line@ == line@,
            r.idx == idx,
            r.len == byte_len(line@),
            r.reversed@ == line@.reverse(),
    {
        InputRecord { line: line.to_owned(), idx, len: line.as_bytes().len(), reversed: reverse_chars(line) }
    }

    /// The compact JSON object of this record, without a line terminator.
    pub fn to_json(&self) -> (r: String)
        ensures
            r@ == record_text(
                json_quoted(self.line@),
                self.idx as nat,
                self.len as nat,
                json_quoted(self.reversed@),
            ),
            no_line_feed(r@),
    {
        let line_json = json_string(self.line.as_str()).unwrap();
        let reversed_json = json_string(self.reversed.as_str()).unwrap();
        proof {
            lemma_json_quoted_no_line_feed(self.line@);
            lemma_json_quoted_no_line_feed(self.reversed@);
        }
        frame_record(&line_json, self.idx, self.len, &reversed_json)
    }
}

/// Lays out one record from the JSON literals of its string fields.
pub fn frame_record(line_json: &str, idx: usize, len: usize, reversed_json: &str) -> (r: String)
    ensures
        r@ == record_text(line_json@, idx as nat, len as nat, reversed_json@),
        no_line_feed(line_json@) && no_line_feed(reversed_json@) ==> no_line_feed(r@),
{
    let mut out = String::new();
    push_str(&mut out, "{\"line\":");
    push_str(&mut out, line_json);
    push_str(&mut out, ",\"idx\":");
    push_decimal(&mut out, idx);
    push_str(&mut out, ",\"len\":");
    push_decimal(&mut out, len);
    push_str(&mut out, ",\"reversed\":");
    push_str(&mut out, reversed_json);
    push_str(&mut out, "}");
    proof {
        if no_line_feed(line_json@) && no_line_feed(reversed_json@) {
            reveal_strlit("{\"line\":");
            reveal_strlit(",\"idx\":");
            reveal_strlit(",\"len\":");
            reveal_strlit(",\"reversed\":");
            reveal_strlit("}");
            lemma_decimal_no_line_feed(idx as nat);
            lemma_decimal_no_line_feed(len as nat);
            let upto_line = "{\"line\":"@ + line_json@;
            lemma_concat_no_line_feed("{\"line\":"@, line_json@);
            let upto_idx_key = upto_line + ",\"idx\":"@;
            lemma_concat_no_line_feed(upto_line, ",\"idx\":"@);
            let upto_idx = upto_idx_key + decimal(idx as nat);
            lemma_concat_no_line_feed(upto_idx_key, decimal(idx as nat));
            let upto_len_key = upto_idx + ",\"len\":"@;
            lemma_concat_no_line_feed(upto_idx, ",\"len\":"@);
            let upto_len = upto_len_key + decimal(len as nat);
            lemma_concat_no_line_feed(upto_len_key, decimal(len as nat));
            let upto_reversed_key = upto_len + ",\"reversed\":"@;
            lemma_concat_no_line_feed(upto_len, ",\"reversed\":"@);
            let upto_reversed = upto_reversed_key + reversed_json@;
            lemma_concat_no_line_feed(upto_reversed_key, reversed_json@);
            lemma_concat_no_line_feed(upto_reversed, "}"@);
        }
    }
    out
}

/// Encodes the argument `line` at position `idx` as the line sent to the
/// script: its JSON record and one line feed.
pub fn encode_line(line: &str, idx: usize) -> (r: String)
    ensures
        r@ == record_line(line@, idx as nat),
        single_line(r@),
{
    let record = InputRecord::new(line, idx);
    let mut t = record.to_json();
    let ghost body = t@;
    push_str(&mut t, "\n");
    proof {
        reveal_strlit("\n");
        assert(t@.drop_last() =~= body);
    }
    t
}

} // verus!
