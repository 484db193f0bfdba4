//! Text primitives shared by the request logic: whitespace trimming,
//! comma splitting, joining, and the renderings of identifiers and
//! strings that responses carry.
use vstd::prelude::*;

verus! {

/// The Unicode `White_Space` property: the code points that `char::is_whitespace`
/// and `str::trim` treat as whitespace.
pub open spec fn is_white_space(c: char) -> bool {
    let u = c as u32;
    ||| 0x09 <= u <= 0x0D
    ||| u == 0x20
    ||| u == 0x85
    ||| u == 0xA0
    ||| u == 0x1680
    ||| 0x2000 <= u <= 0x200A
    ||| u == 0x2028
    ||| u == 0x2029
    ||| u == 0x202F
    ||| u == 0x205F
    ||| u == 0x3000
}

/// `s` without its leading whitespace.
pub open spec fn trim_start(s: Seq<char>) -> Seq<char>
    decreases s.len(),
{
    if s.len() > 0 && is_white_space(s[0]) {
        trim_start(s.drop_first())
    } else {
        s
    }
}

/// `s` without its trailing whitespace.
pub open spec fn trim_end(s: Seq<char>) -> Seq<char>
    decreases s.len(),
{
    if s.len() > 0 && is_white_space(s.last()) {
        trim_end(s.drop_last())
    } else {
        s
    }
}

/// `s` without leading and trailing whitespace, as `str::trim` gives it.
pub open spec fn trim(s: Seq<char>) -> Seq<char> {
    trim_end(trim_start(s))
}

/// The pieces of `s` between occurrences of `sep`, as `str::split` yields them:
/// there is always at least one piece, and pieces may be empty.
pub open spec fn split_on(s: Seq<char>, sep: char) -> Seq<Seq<char>>
    decreases s.len(),
{
    if s.len() == 0 {
        seq![Seq::<char>::empty()]
    } else {
        let before = split_on(s.drop_last(), sep);
        if s.last() == sep {
            before.push(Seq::<char>::empty())
        } else {
            before.update(before.len() - 1, before.last().push(s.last()))
        }
    }
}

/// `parts` joined with `sep` between consecutive parts, as `[&str]::join` gives it.
pub open spec fn join(parts: Seq<Seq<char>>, sep: Seq<char>) -> Seq<char>
    decreases parts.len(),
{
    if parts.len() == 0 {
        Seq::<char>::empty()
    } else if parts.len() == 1 {
        parts[0]
    } else {
        join(parts.drop_last(), sep) + sep + parts.last()
    }
}

/// The views of a sequence of strings.
pub open spec fn views(strings: Seq<String>) -> Seq<Seq<char>> {
    strings.map_values(|s: String| s@)
}

/// Splitting `s` extended by one character: a separator opens a new, empty
/// piece; any other character extends the last piece.
pub proof fn lemma_split_on_push(s: Seq<char>, c: char, sep: char)
    ensures
        split_on(s.push(c), sep) == (if c == sep {
            split_on(s, sep).push(Seq::<char>::empty())
        } else {
            split_on(s, sep).update(
                split_on(s, sep).len() - 1,
                split_on(s, sep).last().push(c),
            )
        }),
{
    assert(s.push(c).drop_last() =~= s);
}

/// Whether `c` has the Unicode `White_Space` property, as `char::is_whitespace`
/// answers.
pub fn char_is_whitespace(c: char) -> (b: bool)
    ensures
        b == is_white_space(c),
{
    let u = c as u32;
    (0x09 <= u && u <= 0x0D) || u == 0x20 || u == 0x85 || u == 0xA0 || u == 0x1680 || (0x2000
        <= u && u <= 0x200A) || u == 0x2028 || u == 0x2029 || u == 0x202F || u == 0x205F || u
        == 0x3000
}

/// The characters of `s`, collected into a vector.
pub fn chars_of(s: &str) -> (v: Vec<char>)
    ensures
        v@ == s@,
{
    let mut v: Vec<char> = Vec::new();
    for c in it: s.chars()
        invariant
            v@ == it.seq().take(it.index() as int),
            it.seq() == s@,
    {
        v.push(c);
    }
    v
}

/// The bounds of the trimmed part of `v[lo..hi]`.
pub fn trim_bounds(v: &Vec<char>, lo: usize, hi: usize) -> (r: (usize, usize))
    requires
        lo <= hi <= v.len(),
    ensures
        lo <= r.0 <= r.1 <= hi,
        v@.subrange(r.0 as int, r.1 as int) == trim(v@.subrange(lo as int, hi as int)),
{
    let mut start: usize = lo;
    while start < hi && char_is_whitespace(v[start])
        invariant
            lo <= start <= hi <= v.len(),
            trim_start(v@.subrange(lo as int, hi as int)) == trim_start(
                v@.subrange(start as int, hi as int),
            ),
        decreases hi - start,
    {
        assert(v@.subrange(start as int, hi as int).drop_first() =~= v@.subrange(
            start + 1,
            hi as int,
        ));
        start = start + 1;
    }
    let mut end: usize = hi;
    while end > start && char_is_whitespace(v[end - 1])
        invariant
            lo <= start <= end <= hi <= v.len(),
            trim_start(v@.subrange(lo as int, hi as int)) == v@.subrange(start as int, hi as int),
            trim_end(v@.subrange(start as int, hi as int)) == trim_end(
                v@.subrange(start as int, end as int),
            ),
        decreases end - start,
    {
        assert(v@.subrange(start as int, end as int).drop_last() =~= v@.subrange(
            start as int,
            end - 1,
        ));
        end = end - 1;
    }
    (start, end)
}

/// Whether `v[lo..hi]` holds exactly the characters of `lit`.
pub fn range_equals(v: &Vec<char>, lo: usize, hi: usize, lit: &str) -> (b: bool)
    requires
        lo <= hi <= v.len(),
    ensures
        b == (v@.subrange(lo as int, hi as int) == lit@),
{
    let w = chars_of(lit);
    if hi - lo != w.len() {
        return false;
    }
    let mut i: usize = 0;
    while i < w.len()
        invariant
            lo <= hi <= v.len(),
            hi - lo == w.len(),
            w@ == lit@,
            i <= w.len(),
            forall|k: int| 0 <= k < i ==> v@[lo + k] == w@[k],
        decreases w.len() - i,
    {
        if v[lo + i] != w[i] {
            assert(v@.subrange(lo as int, hi as int)[i as int] != lit@[i as int]);
            return false;
        }
        i = i + 1;
    }
    assert(v@.subrange(lo as int, hi as int) =~= lit@);
    true
}

/// The strings of `parts` joined with `sep`.
pub fn join_strings(parts: &Vec<String>, sep: &str) -> (r: String)
    ensures
        r@ == join(views(parts@), sep@),
{
    let mut r = String::new();
    let mut i: usize = 0;
    while i < parts.len()
        invariant
            i <= parts.len(),
            r@ == join(views(parts@).take(i as int), sep@),
        decreases parts.len() - i,
    {
        let ghost before = views(parts@).take(i as int);
        assert(views(parts@).take(i + 1).drop_last() =~= before);
        if i > 0 {
            r.append(sep);
        }
        r.append(parts[i].as_str());
        proof {
            if i == 0 {
                assert(views(parts@).take(1) =~= seq![parts@[0]@]);
            }
        }
        i = i + 1;
    }
    assert(views(parts@).take(parts.len() as int) =~= views(parts@));
    r
}

/// The lower-case hexadecimal digit for `n` in `0..16`.
pub open spec fn hex_digit(n: int) -> char {
    if n < 10 {
        (48 + n) as char
    } else {
        (87 + n) as char
    }
}

/// How a JSON string literal writes the character `c`, as `serde_json` escapes it:
/// quote and backslash behind a backslash, the control characters that have a
/// short escape by it, the other control characters as `\u00XX`, everything
/// else as itself.
pub open spec fn json_escape_char(c: char) -> Seq<char> {
    let u = c as u32;
    if c == '"' {
        seq!['\\', '"']
    } else if c == '\\' {
        seq!['\\', '\\']
    } else if u == 0x08 {
        seq!['\\', 'b']
    } else if u == 0x09 {
        seq!['\\', 't']
    } else if u == 0x0A {
        seq!['\\', 'n']
    } else if u == 0x0C {
        seq!['\\', 'f']
    } else if u == 0x0D {
        seq!['\\', 'r']
    } else if u < 0x20 {
        seq!['\\', 'u', '0', '0', hex_digit((u / 16) as int), hex_digit((u % 16) as int)]
    } else {
        seq![c]
    }
}

/// The characters of `s`, each escaped as a JSON string literal writes it.
pub open spec fn json_escape(s: Seq<char>) -> Seq<char>
    decreases s.len(),
{
    if s.len() == 0 {
        Seq::<char>::empty()
    } else {
        json_escape(s.drop_last()) + json_escape_char(s.last())
    }
}

/// The JSON string literal that denotes `s`.
pub open spec fn json_string_literal(s: Seq<char>) -> Seq<char> {
    seq!['"'] + json_escape(s) + seq!['"']
}

/// `serde_json::to_string` on a string: the JSON string literal that denotes `s`,
/// escaped by the table of `format_escaped_str` in serde_json's serializer.
/// Serializing a `str` into a `String` cannot fail.
#[verifier::external_body]
pub fn json_string(s: &str) -> (r: String)
    ensures
        r@ == json_string_literal(s@),
{
    serde_json::to_string(s).unwrap()
}

/// The `k`-th hexadecimal digit of `id`, counted from the most significant one.
pub open spec fn uuid_nibble(id: u128, k: int) -> int {
    ((id >> ((124 - 4 * k) as u128)) & 15u128) as int
}

/// The hyphenated lower-case text of the UUID whose 128-bit value is `id`:
/// 32 hexadecimal digits, most significant first, in groups of 8, 4, 4, 4
/// and 12 separated by `-`.
pub open spec fn uuid_text(id: u128) -> Seq<char> {
    Seq::new(
        36,
        |p: int|
            if p == 8 || p == 13 || p == 18 || p == 23 {
                '-'
            } else {
                let hyphens: int = if p < 8 {
                    0
                } else if p < 13 {
                    1
                } else if p < 18 {
                    2
                } else if p < 23 {
                    3
                } else {
                    4
                };
                hex_digit(uuid_nibble(id, p - hyphens))
            },
    )
}

/// `uuid::Uuid::from_u128` followed by its `Display`: the UUID whose big-endian
/// value is `id`, written hyphenated in lower case (`format_hyphenated` in the
/// uuid crate).
#[verifier::external_body]
pub fn uuid_string(id: u128) -> (r: String)
    ensures
        r@ == uuid_text(id),
{
    uuid::Uuid::from_u128(id).to_string()
}

/// What `Debug` writes for a string: the string quoted, with the characters
/// that need it escaped.
pub uninterp spec fn debug_text(s: Seq<char>) -> Seq<char>;

/// `Debug` formatting of a `str` (`format!("{:?}")`): the text that
/// `debug_text` names. Which characters it escapes, and how, is left unstated.
#[verifier::external_body]
pub fn debug_string(s: &str) -> (r: String)
    ensures
        r@ == debug_text(s@),
{
    format!("{s:?}")
}

/// A JSON value, with each number kept as the text that `serde_json` writes
/// for it, and each object's members in the order `serde_json` keeps them.
#[derive(Debug, PartialEq, Eq)]
pub enum JsonValue {
    Null,
    Bool(bool),
    Number(String),
    String(String),
    Array(Vec<JsonValue>),
    Object(Vec<(String, JsonValue)>),
}

/// `serde_json::Value`, the values that `serde_json` parses JSON text into.
#[verifier::external_type_specification]
#[verifier::external_body]
pub struct ExJsonValue(serde_json::Value);

/// What `serde_json` makes of `text` read as a JSON array of values: the
/// array's elements, or the `Display` text of the error it reports.
pub uninterp spec fn json_array_parse(text: Seq<char>) -> Result<Seq<JsonValue>, Seq<char>>;

/// A value that `serde_json` parsed, variant by variant as a `JsonValue`:
/// numbers as their `Display` text, objects' members in the map's order.
/// It is the conversion that `parse_json_array` applies to each element.
#[verifier::external_body]
fn json_value_from(v: serde_json::Value) -> JsonValue {
    match v {
        serde_json::Value::Null => JsonValue::Null,
        serde_json::Value::Bool(b) => JsonValue::Bool(b),
        serde_json::Value::Number(n) => JsonValue::Number(n.to_string()),
        serde_json::Value::String(s) => JsonValue::String(s),
        serde_json::Value::Array(a) => JsonValue::Array(a.into_iter().map(json_value_from).collect()),
        serde_json::Value::Object(m) => JsonValue::Object(
            m.into_iter().map(|(k, x)| (k, json_value_from(x))).collect(),
        ),
    }
}

/// `serde_json::from_str::<Vec<serde_json::Value>>`: the elements of the JSON
/// array `text`, each converted to a `JsonValue`, or the `Display` text of the
/// parse error; `json_array_parse` names which. Which texts parse, and to what,
/// is serde_json's grammar and is left unstated.
#[verifier::external_body]
pub fn parse_json_array(text: &str) -> (r: Result<Vec<JsonValue>, String>)
    ensures
        match json_array_parse(text@) {
            Ok(items) => r matches Ok(v) && v@ == items,
            Err(m) => r matches Err(e) && e@ == m,
        },
{
    match serde_json::from_str::<Vec<serde_json::Value>>(text) {
        Ok(items) => Ok(items.into_iter().map(json_value_from).collect()),
        Err(e) => Err(e.to_string()),
    }
}

} // verus!
