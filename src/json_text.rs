//! The pieces of JSON text that change-log payloads are framed from.
use vstd::prelude::*;

verus! {

/// serde_json's error, carried through unopened.
#[verifier::external_type_specification]
#[verifier::external_body]
pub struct ExJsonError(serde_json::Error);

/// The lowercase hexadecimal digit of `d`.
pub open spec fn hex_char(d: u32) -> char {
    if d < 10 {
        digit_char(d as nat)
    } else if d == 10 { 'a' }
    else if d == 11 { 'b' }
    else if d == 12 { 'c' }
    else if d == 13 { 'd' }
    else if d == 14 { 'e' }
    else { 'f' }
}

/// How one character stands inside a JSON string literal: quote and backslash
/// behind a backslash, the five control characters with short escapes as such,
/// the other control characters below U+0020 as `\u00XX`, everything else as is.
pub open spec fn escaped_char(c: char) -> Seq<char> {
    if c == '"' {
        seq!['\\', '"']
    } else if c == '\\' {
        seq!['\\', '\\']
    } else if c == '\u{8}' {
        seq!['\\', 'b']
    } else if c == '\t' {
        seq!['\\', 't']
    } else if c == '\n' {
        seq!['\\', 'n']
    } else if c == '\u{c}' {
        seq!['\\', 'f']
    } else if c == '\r' {
        seq!['\\', 'r']
    } else if (c as u32) < 0x20 {
        seq!['\\', 'u', '0', '0', hex_char((c as u32) / 16), hex_char((c as u32) % 16)]
    } else {
        seq![c]
    }
}

/// The characters of `s`, each escaped.
pub open spec fn escaped_text(s: Seq<char>) -> Seq<char>
    decreases s.len(),
{
    if s.len() == 0 {
        Seq::empty()
    } else {
        escaped_text(s.drop_last()) + escaped_char(s.last())
    }
}

/// The JSON string literal for the text `s`, quotes included.
pub open spec fn json_string_of(s: Seq<char>) -> Seq<char> {
    seq!['"'] + escaped_text(s) + seq!['"']
}

/// Relies on serde_json::to_string on a `str`: it writes the string literal
/// into memory, escaping by its fixed table, and does not fail.
#[verifier::external_body]
fn encode_str(s: &str) -> (r: Result<String, serde_json::Error>)
    ensures
        r is Ok,
        r->Ok_0@ == json_string_of(s@),
{
    serde_json::to_string(s)
}

/// The JSON string literal for `s`.
pub fn json_string(s: &str) -> (r: String)
    ensures
        r@ == json_string_of(s@),
{
    match encode_str(s) {
        Ok(t) => t,
        Err(_) => String::new(),
    }
}

/// The character of the decimal digit `d`.
pub open spec fn digit_char(d: nat) -> char {
    if d == 0 { '0' }
    else if d == 1 { '1' }
    else if d == 2 { '2' }
    else if d == 3 { '3' }
    else if d == 4 { '4' }
    else if d == 5 { '5' }
    else if d == 6 { '6' }
    else if d == 7 { '7' }
    else if d == 8 { '8' }
    else { '9' }
}

/// The decimal digits of `n`, without leading zeros.
pub open spec fn nat_text(n: nat) -> Seq<char>
    decreases n,
{
    if n < 10 {
        seq![digit_char(n)]
    } else {
        nat_text(n / 10).push(digit_char(n % 10))
    }
}

/// The decimal text of `n`, with a leading minus when negative.
pub open spec fn int_text(n: int) -> Seq<char> {
    if n < 0 {
        seq!['-'] + nat_text((-n) as nat)
    } else {
        nat_text(n as nat)
    }
}

/// The JSON text of an optional integer: its decimal, or `null`.
pub open spec fn opt_int_text(n: Option<i64>) -> Seq<char> {
    match n {
        Some(v) => int_text(v as int),
        None => "null"@,
    }
}

fn digit_string(d: u64) -> (r: String)
    requires
        d < 10,
    ensures
        r@ == seq![digit_char(d as nat)],
{
    let s: &str = if d == 0 {
        proof { reveal_strlit("0"); }
        "0"
    } else if d == 1 {
        proof { reveal_strlit("1"); }
        "1"
    } else if d == 2 {
        proof { reveal_strlit("2"); }
        "2"
    } else if d == 3 {
        proof { reveal_strlit("3"); }
        "3"
    } else if d == 4 {
        proof { reveal_strlit("4"); }
        "4"
    } else if d == 5 {
        proof { reveal_strlit("5"); }
        "5"
    } else if d == 6 {
        proof { reveal_strlit("6"); }
        "6"
    } else if d == 7 {
        proof { reveal_strlit("7"); }
        "7"
    } else if d == 8 {
        proof { reveal_strlit("8"); }
        "8"
    } else {
        proof { reveal_strlit("9"); }
        "9"
    };
    let r = String::from_str(s);
    assert(r@ =~= seq![digit_char(d as nat)]);
    r
}

fn nat_string(n: u64) -> (r: String)
    ensures
        r@ == nat_text(n as nat),
{
    let mut m: u64 = n / 10;
    let mut s = digit_string(n % 10);
    proof {
        if n >= 10 {
            assert(nat_text(n as nat) =~= nat_text(m as nat) + s@);
        }
    }
    while m > 0
        invariant
            nat_text(n as nat) == (if m == 0 { Seq::empty() } else { nat_text(m as nat) }) + s@,
        decreases m,
    {
        let d = m % 10;
        let next = m / 10;
        let t = digit_string(d);
        proof {
            if next == 0 {
                assert(nat_text(m as nat) == t@);
                assert(nat_text(n as nat) =~= Seq::<char>::empty() + (t@ + s@));
            } else {
                assert(nat_text(m as nat) =~= nat_text(next as nat) + t@);
                assert(nat_text(n as nat) =~= nat_text(next as nat) + (t@ + s@));
            }
        }
        s = t.concat(s.as_str());
        m = next;
    }
    assert(s@ =~= nat_text(n as nat));
    s
}

/// The decimal text of `n`.
pub fn int_string(n: i64) -> (r: String)
    ensures
        r@ == int_text(n as int),
{
    if n < 0 {
        let magnitude: u64 = if n == i64::MIN {
            9223372036854775808u64
        } else {
            (-n) as u64
        };
        let digits = nat_string(magnitude);
        proof { reveal_strlit("-"); }
        let r = String::from_str("-").concat(digits.as_str());
        assert(r@ =~= int_text(n as int));
        r
    } else {
        nat_string(n as u64)
    }
}

/// The JSON text of an optional integer.
pub fn opt_int_string(n: Option<i64>) -> (r: String)
    ensures
        r@ == opt_int_text(n),
{
    match n {
        Some(v) => int_string(v),
        None => String::from_str("null"),
    }
}

/// A parsed JSON value, carried through unopened.
#[verifier::external_type_specification]
#[verifier::external_body]
pub struct ExJsonValue(serde_json::Value);

/// Whether serde_json accepts `s` as the text of one JSON value.
pub uninterp spec fn json_parses(s: Seq<char>) -> bool;

/// Relies on serde_json::from_str into a `Value`: it succeeds exactly on
/// well-formed JSON text.
#[verifier::external_body]
fn parse_value(s: &str) -> (r: Result<serde_json::Value, serde_json::Error>)
    ensures
        r is Ok <==> json_parses(s@),
{
    serde_json::from_str(s)
}

/// Relies on serde_json::Value::get with a key: the member of an object.
#[verifier::external_body]
fn member<'a>(v: &'a serde_json::Value, key: &str) -> Option<&'a serde_json::Value> {
    v.get(key)
}

/// Relies on serde_json::Value::get with an index: the element of an array.
#[verifier::external_body]
fn element(v: &serde_json::Value, index: usize) -> Option<&serde_json::Value> {
    v.get(index)
}

/// Relies on serde_json::Value::as_str: the text of a JSON string.
#[verifier::external_body]
fn string_value(v: &serde_json::Value) -> Option<&str> {
    v.as_str()
}

/// The text at `blocks[0].data.text` of a JSON document, if the text parses
/// and that path leads to a string.
pub fn extract_title(doc: &str) -> (r: Option<String>)
    ensures
        r is Some ==> json_parses(doc@),
{
    let json = match parse_value(doc) {
        Ok(v) => v,
        Err(_) => return None,
    };
    let blocks = member(&json, "blocks")?;
    let first_block = element(blocks, 0)?;
    let data = member(first_block, "data")?;
    let text = member(data, "text")?;
    let title = string_value(text)?;
    Some(String::from_str(title))
}

/// Whether `c` is a character of decimal text: a digit or a minus sign.
pub open spec fn is_number_char(c: char) -> bool {
    c == '-' || ('0' <= c && c <= '9')
}

proof fn lemma_nat_text_digits(n: nat)
    ensures
        nat_text(n).len() > 0,
        forall|i: int| 0 <= i < nat_text(n).len() ==> '0' <= #[trigger] nat_text(n)[i] && nat_text(n)[i] <= '9',
    decreases n,
{
    if n >= 10 {
        lemma_nat_text_digits(n / 10);
        let t = nat_text(n);
        assert forall|i: int| 0 <= i < t.len() implies '0' <= #[trigger] t[i] && t[i] <= '9' by {
            if i < t.len() - 1 {
                assert(t[i] == nat_text(n / 10)[i]);
            }
        }
    }
}

proof fn lemma_digit_char_injective(a: nat, b: nat)
    requires
        a < 10,
        b < 10,
        digit_char(a) == digit_char(b),
    ensures
        a == b,
{
}

proof fn lemma_nat_text_injective(a: nat, b: nat)
    requires
        nat_text(a) == nat_text(b),
    ensures
        a == b,
    decreases a + b,
{
    let t = nat_text(a);
    if a >= 10 && b >= 10 {
        assert(nat_text(a / 10) == t.drop_last());
        assert(nat_text(b / 10) == nat_text(b).drop_last());
        lemma_nat_text_injective(a / 10, b / 10);
        assert(t.last() == digit_char(a % 10));
        assert(nat_text(b).last() == digit_char(b % 10));
        lemma_digit_char_injective(a % 10, b % 10);
    } else if a >= 10 {
        lemma_nat_text_digits(a / 10);
        assert(nat_text(a).len() >= 2);
    } else if b >= 10 {
        lemma_nat_text_digits(b / 10);
        assert(nat_text(b).len() >= 2);
    } else {
        assert(digit_char(a) == t[0]);
        lemma_digit_char_injective(a, b);
    }
}

/// Distinct integers have distinct decimal texts, which hold only digits and
/// a leading minus sign.
pub proof fn lemma_int_text_injective(a: int, b: int)
    ensures
        int_text(a) == int_text(b) ==> a == b,
        forall|i: int| 0 <= i < int_text(a).len() ==> is_number_char(#[trigger] int_text(a)[i]),
{
    lemma_nat_text_digits(if a < 0 { (-a) as nat } else { a as nat });
    lemma_nat_text_digits(if b < 0 { (-b) as nat } else { b as nat });
    let ta = int_text(a);
    assert forall|i: int| 0 <= i < ta.len() implies is_number_char(#[trigger] ta[i]) by {
        if a < 0 && i > 0 {
            assert(ta[i] == nat_text((-a) as nat)[i - 1]);
        }
    }
    if int_text(a) == int_text(b) {
        if a < 0 && b < 0 {
            assert(nat_text((-a) as nat) =~= int_text(a).drop_first());
            assert(nat_text((-b) as nat) =~= int_text(b).drop_first());
            lemma_nat_text_injective((-a) as nat, (-b) as nat);
        } else if a < 0 {
            assert(int_text(a)[0] == '-');
            assert(int_text(b)[0] == nat_text(b as nat)[0]);
        } else if b < 0 {
            assert(int_text(b)[0] == '-');
            assert(int_text(a)[0] == nat_text(a as nat)[0]);
        } else {
            lemma_nat_text_injective(a as nat, b as nat);
        }
    }
}

/// Distinct optional integers have distinct JSON texts, which hold no colon.
pub proof fn lemma_opt_int_text_injective(a: Option<i64>, b: Option<i64>)
    ensures
        opt_int_text(a) == opt_int_text(b) ==> a == b,
        forall|i: int| 0 <= i < opt_int_text(a).len() ==> #[trigger] opt_int_text(a)[i] != ':',
{
    reveal_strlit("null");
    match (a, b) {
        (Some(x), Some(y)) => lemma_int_text_injective(x as int, y as int),
        (Some(x), None) => {
            lemma_int_text_injective(x as int, 0);
            if opt_int_text(a) == opt_int_text(b) {
                assert(is_number_char(int_text(x as int)[0]));
            }
        },
        (None, Some(y)) => {
            lemma_int_text_injective(y as int, 0);
            if opt_int_text(a) == opt_int_text(b) {
                assert(is_number_char(int_text(y as int)[0]));
            }
        },
        (None, None) => {},
    }
}

} // verus!
