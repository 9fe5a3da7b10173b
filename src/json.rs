//! A plain model of the JSON documents that travel on the wire, with the
//! lookups the protocol makes in them. Reading text into a document and
//! quoting a string are left to serde_json.
use vstd::prelude::*;
use crate::text::same_text;

verus! {

/// A JSON document.
pub enum Json {
    Null,
    Bool(bool),
    /// A number, held as the decimal text that serde_json writes for it.
    Number(String),
    Str(String),
    Array(Vec<Json>),
    /// The members of an object, in the order serde_json hands them out.
    Object(Vec<(String, Json)>),
}

#[verifier::external_type_specification]
#[verifier::external_body]
pub struct ExJsonValue(serde_json::Value);

/// The document that serde_json reads from a text, or `None` where the text
/// is not JSON.
pub uninterp spec fn parsed_document(text: Seq<char>) -> Option<Json>;

/// A hexadecimal digit, in lower case.
pub open spec fn hex_digit(n: nat) -> char {
    seq!['0', '1', '2', '3', '4', '5', '6', '7', '8', '9', 'a', 'b', 'c', 'd', 'e', 'f'][n as int]
}

/// How serde_json writes one character inside a string literal: a quote, a
/// backslash and the five named control characters get a two-character
/// escape, the other characters below 0x20 a `\u00xx` escape, and every other
/// character stands for itself.
pub open spec fn escaped_char(c: char) -> Seq<char> {
    if c == '"' {
        seq!['\\', '"']
    } else if c == '\\' {
        seq!['\\', '\\']
    } else if c == '\n' {
        seq!['\\', 'n']
    } else if c == '\r' {
        seq!['\\', 'r']
    } else if c == '\t' {
        seq!['\\', 't']
    } else if c == '\x08' {
        seq!['\\', 'b']
    } else if c == '\x0c' {
        seq!['\\', 'f']
    } else if (c as u32) < 0x20 {
        seq!['\\', 'u', '0', '0', hex_digit((c as u32 / 16) as nat), hex_digit((c as u32 % 16) as nat)]
    } else {
        seq![c]
    }
}

/// The escaped characters of a string, in order.
pub open spec fn escaped_text(s: Seq<char>) -> Seq<char>
    decreases s.len(),
{
    if s.len() == 0 {
        Seq::empty()
    } else {
        escaped_text(s.drop_last()) + escaped_char(s.last())
    }
}

/// The JSON string literal that serde_json writes for a string.
pub open spec fn json_quoted(s: Seq<char>) -> Seq<char> {
    seq!['"'] + escaped_text(s) + seq!['"']
}

/// Turns serde_json's value into the library's document, one node for one;
/// relies on serde_json::Number's Display for the text of a number.
#[verifier::external_body]
fn document_of_value(v: serde_json::Value) -> Json {
    match v {
        serde_json::Value::Null => Json::Null,
        serde_json::Value::Bool(b) => Json::Bool(b),
        serde_json::Value::Number(n) => Json::Number(n.to_string()),
        serde_json::Value::String(s) => Json::Str(s),
        serde_json::Value::Array(items) => Json::Array(items.into_iter().map(document_of_value).collect()),
        serde_json::Value::Object(members) => Json::Object(
            members.into_iter().map(|(k, x)| (k, document_of_value(x))).collect(),
        ),
    }
}

/// Relies on serde_json::from_str into serde_json::Value: the document depends
/// on the text alone.
#[verifier::external_body]
pub(crate) fn parse_document(text: &str) -> (r: Option<Json>)
    ensures
        r == parsed_document(text@),
{
    serde_json::from_str::<serde_json::Value>(text).ok().map(document_of_value)
}

/// Relies on serde_json::to_string on a `str`, which cannot fail there: `s`
/// between quotes, each character escaped as `escaped_char` says.
#[verifier::external_body]
pub(crate) fn quote(s: &str) -> (r: String)
    ensures
        r@ == json_quoted(s@),
{
    match serde_json::to_string(s) {
        Ok(t) => t,
        Err(_) => String::new(),
    }
}

/// The value of the first member of `members` whose key is `key`.
pub open spec fn member_value(members: Seq<(String, Json)>, key: Seq<char>) -> Option<Json>
    decreases members.len(),
{
    if members.len() == 0 {
        None
    } else if members[0].0@ == key {
        Some(members[0].1)
    } else {
        member_value(members.drop_first(), key)
    }
}

/// The value of member `key` of a document that is an object.
pub open spec fn member_of(doc: Json, key: Seq<char>) -> Option<Json> {
    match doc {
        Json::Object(members) => member_value(members@, key),
        _ => None,
    }
}

/// The string that a document holds, if it is one.
pub open spec fn string_of(doc: Json) -> Option<String> {
    match doc {
        Json::Str(s) => Some(s),
        _ => None,
    }
}

/// The number text that a document holds, if it is a number.
pub open spec fn number_of(doc: Json) -> Option<String> {
    match doc {
        Json::Number(t) => Some(t),
        _ => None,
    }
}

pub open spec fn is_digit(c: char) -> bool {
    '0' <= c && c <= '9'
}

pub open spec fn digit_value(c: char) -> nat {
    (c as u32 - '0' as u32) as nat
}

/// A non-empty run of decimal digits.
pub open spec fn is_decimal(s: Seq<char>) -> bool {
    s.len() > 0 && forall|i: int| 0 <= i < s.len() ==> is_digit(#[trigger] s[i])
}

/// The value of a run of decimal digits.
pub open spec fn decimal_value(s: Seq<char>) -> nat
    decreases s.len(),
{
    if s.len() == 0 {
        0
    } else {
        decimal_value(s.drop_last()) * 10 + digit_value(s.last())
    }
}

/// The unsigned integer that a document holds: a number written as decimal
/// digits alone whose value fits in 64 bits.
pub open spec fn count_of(doc: Json) -> Option<u64> {
    match doc {
        Json::Number(t) => if is_decimal(t@) && decimal_value(t@) <= u64::MAX {
            Some(decimal_value(t@) as u64)
        } else {
            None
        },
        _ => None,
    }
}

/// Member `key` of a document, where it is a string.
pub open spec fn string_member(doc: Json, key: Seq<char>) -> Option<String> {
    match member_of(doc, key) {
        Some(j) => string_of(j),
        None => None,
    }
}

/// Member `key` of a document, where it is a number: its text.
pub open spec fn number_member(doc: Json, key: Seq<char>) -> Option<String> {
    match member_of(doc, key) {
        Some(j) => number_of(j),
        None => None,
    }
}

/// Member `key` of a document, where it is an unsigned integer that fits in
/// 64 bits.
pub open spec fn count_member(doc: Json, key: Seq<char>) -> Option<u64> {
    match member_of(doc, key) {
        Some(j) => count_of(j),
        None => None,
    }
}

/// Where the run of decimal digits that starts at `i` ends.
pub open spec fn digits_end(s: Seq<char>, i: int) -> int
    decreases s.len() - i,
{
    if 0 <= i < s.len() && is_digit(s[i]) {
        digits_end(s, i + 1)
    } else {
        i
    }
}

/// Whether `s` is the text of a JSON number: an optional minus, an integer
/// part with no leading zero, an optional fraction of at least one digit, and
/// an optional exponent of at least one digit. The parts are found from left
/// to right, each where the one before it ends.
pub open spec fn is_number_text(s: Seq<char>) -> bool {
    let a: int = if s.len() > 0 && s[0] == '-' { 1 } else { 0 };
    let b = digits_end(s, a);
    let c = if b < s.len() && s[b] == '.' { digits_end(s, b + 1) } else { b };
    let e: int = if c < s.len() && (s[c] == 'e' || s[c] == 'E') {
        if c + 1 < s.len() && (s[c + 1] == '+' || s[c + 1] == '-') { c + 2 } else { c + 1 }
    } else {
        c
    };
    let d = if e > c { digits_end(s, e) } else { c };
    &&& b > a
    &&& (s[a] == '0' ==> b == a + 1)
    &&& (c != b ==> c > b + 1)
    &&& (e != c ==> d > e)
    &&& d == s.len()
}

/// Whether `s` is what serde_json writes for a float component of a
/// direction: the text of a JSON number, or `null` for one that is not finite.
pub open spec fn is_direction_text(s: Seq<char>) -> bool {
    is_number_text(s) || s == "null"@
}

/// Where the run of decimal digits of `s` that starts at `i` ends.
fn scan_digits(s: &str, n: usize, i: usize) -> (r: usize)
    requires
        n == s@.len(),
        i <= n,
    ensures
        r as int == digits_end(s@, i as int),
        i <= r <= n,
{
    let mut j = i;
    while j < n
        invariant
            n == s@.len(),
            i <= j <= n,
            digits_end(s@, i as int) == digits_end(s@, j as int),
        decreases n - j,
    {
        let c = s.get_char(j);
        if !('0' <= c && c <= '9') {
            return j;
        }
        j = j + 1;
    }
    j
}

/// Whether a text is a JSON number.
pub fn is_number(s: &str) -> (r: bool)
    ensures
        r == is_number_text(s@),
{
    let n = s.unicode_len();
    let a: usize = if n > 0 && s.get_char(0) == '-' { 1 } else { 0 };
    let b = scan_digits(s, n, a);
    if b == a {
        return false;
    }
    if s.get_char(a) == '0' && b != a + 1 {
        return false;
    }
    let c = if b < n && s.get_char(b) == '.' { scan_digits(s, n, b + 1) } else { b };
    if c != b && c <= b + 1 {
        return false;
    }
    let e: usize = if c < n && (s.get_char(c) == 'e' || s.get_char(c) == 'E') {
        if c + 1 < n && (s.get_char(c + 1) == '+' || s.get_char(c + 1) == '-') { c + 2 } else { c + 1 }
    } else {
        c
    };
    let d = if e > c { scan_digits(s, n, e) } else { c };
    if e != c && d <= e {
        return false;
    }
    d == n
}

/// Whether a text is a JSON number or `null`.
pub fn is_direction(s: &str) -> (r: bool)
    ensures
        r == is_direction_text(s@),
{
    is_number(s) || same_text(s, "null")
}

proof fn lemma_decimal_grows(s: Seq<char>, i: int)
    requires
        0 <= i <= s.len(),
    ensures
        decimal_value(s.subrange(0, i)) <= decimal_value(s),
    decreases s.len() - i,
{
    if i < s.len() {
        lemma_decimal_grows(s, i + 1);
        assert(s.subrange(0, i + 1).drop_last() == s.subrange(0, i));
    } else {
        assert(s.subrange(0, i) == s);
    }
}

/// Reads decimal digits as an unsigned integer; `None` when the text is not
/// a run of digits or its value does not fit in 64 bits.
pub fn read_decimal(t: &str) -> (r: Option<u64>)
    ensures
        r == (if is_decimal(t@) && decimal_value(t@) <= u64::MAX {
            Some(decimal_value(t@) as u64)
        } else {
            None::<u64>
        }),
{
    let n = t.unicode_len();
    if n == 0 {
        return None;
    }
    let mut v: u64 = 0;
    let mut i: usize = 0;
    while i < n
        invariant
            n == t@.len(),
            i <= n,
            v as nat == decimal_value(t@.subrange(0, i as int)),
            forall|k: int| 0 <= k < i ==> is_digit(#[trigger] t@[k]),
        decreases n - i,
    {
        let c = t.get_char(i);
        assert(t@.subrange(0, i + 1).drop_last() == t@.subrange(0, i as int));
        if !('0' <= c && c <= '9') {
            assert(!is_digit(t@[i as int]));
            return None;
        }
        let d = (c as u32 - '0' as u32) as u64;
        if v > (u64::MAX - d) / 10 {
            assert(decimal_value(t@.subrange(0, i + 1)) > u64::MAX) by (nonlinear_arith)
                requires
                    decimal_value(t@.subrange(0, i + 1)) == v * 10 + d,
                    v > (u64::MAX - d) / 10,
                    d <= 9,
            ;
            proof {
                lemma_decimal_grows(t@, i + 1);
            }
            return None;
        }
        v = v * 10 + d;
        i = i + 1;
    }
    assert(t@.subrange(0, n as int) == t@);
    Some(v)
}

/// Where the first member of `members` with key `key` stands, if one does.
pub fn member_index(members: &Vec<(String, Json)>, key: &str) -> (r: Option<usize>)
    ensures
        match r {
            Some(i) => i < members@.len() && member_value(members@, key@) == Some(members@[i as int].1),
            None => member_value(members@, key@) is None,
        },
{
    let mut i: usize = 0;
    assert(members@.skip(0) == members@);
    while i < members.len()
        invariant
            i <= members@.len(),
            member_value(members@, key@) == member_value(members@.skip(i as int), key@),
        decreases members@.len() - i,
    {
        assert(members@.skip(i as int).drop_first() == members@.skip(i + 1));
        if same_text(members[i].0.as_str(), key) {
            assert(members@.skip(i as int)[0] == members@[i as int]);
            return Some(i);
        }
        i = i + 1;
    }
    assert(members@.skip(i as int).len() == 0);
    None
}

impl Json {
    /// The value of member `key`, where the document is an object that has one.
    pub fn member(&self, key: &str) -> (r: Option<&Json>)
        ensures
            match r {
                Some(x) => member_of(*self, key@) == Some(*x),
                None => member_of(*self, key@) is None,
            },
    {
        match self {
            Json::Object(members) => match member_index(members, key) {
                Some(i) => Some(&members[i].1),
                None => None,
            },
            _ => None,
        }
    }

    /// Takes the value of member `key` out of a document that is an object.
    pub fn into_member(self, key: &str) -> (r: Option<Json>)
        ensures
            r == member_of(self, key@),
    {
        match self {
            Json::Object(mut members) => match member_index(&members, key) {
                Some(i) => Some(members.remove(i).1),
                None => None,
            },
            _ => None,
        }
    }

    /// Member `key`, where it is a string.
    pub fn string_member(&self, key: &str) -> (r: Option<String>)
        ensures
            r == string_member(*self, key@),
    {
        match self.member(key) {
            Some(j) => j.as_string(),
            None => None,
        }
    }

    /// Member `key`, where it is a number: its text.
    pub fn number_member(&self, key: &str) -> (r: Option<String>)
        ensures
            r == number_member(*self, key@),
    {
        match self.member(key) {
            Some(j) => j.as_number(),
            None => None,
        }
    }

    /// Member `key`, where it is an unsigned integer that fits in 64 bits.
    pub fn count_member(&self, key: &str) -> (r: Option<u64>)
        ensures
            r == count_member(*self, key@),
    {
        match self.member(key) {
            Some(j) => j.as_count(),
            None => None,
        }
    }

    /// The string this document holds, if it is one.
    pub fn as_string(&self) -> (r: Option<String>)
        ensures
            r == string_of(*self),
    {
        match self {
            Json::Str(s) => Some(s.clone()),
            _ => None,
        }
    }

    /// The number text this document holds, if it is a number.
    pub fn as_number(&self) -> (r: Option<String>)
        ensures
            r == number_of(*self),
    {
        match self {
            Json::Number(t) => Some(t.clone()),
            _ => None,
        }
    }

    /// The unsigned integer this document holds, if it is one that fits in
    /// 64 bits.
    pub fn as_count(&self) -> (r: Option<u64>)
        ensures
            r == count_of(*self),
    {
        match self {
            Json::Number(t) => read_decimal(t.as_str()),
            _ => None,
        }
    }
}

} // verus!
