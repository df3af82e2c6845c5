//! A JSON document model and its compact text form.

use vstd::prelude::*;
use vstd::string::StringExecFns;

verus! {

/// A JSON value. Numbers are kept as their decimal text, so that a number
/// read from the wire is written back exactly as it came.
pub enum JsonValue {
    Null,
    Bool(bool),
    Number(String),
    Str(String),
    Array(Vec<JsonValue>),
    Object(Vec<(String, JsonValue)>),
}

/// Lower-case hexadecimal digit of `n` (`n < 16`).
pub open spec fn hex_digit(n: int) -> char {
    seq!['0', '1', '2', '3', '4', '5', '6', '7', '8', '9', 'a', 'b', 'c', 'd', 'e', 'f'][n]
}

/// How one character stands inside a JSON string literal.
pub open spec fn escape_char(c: char) -> Seq<char> {
    if c == '"' {
        seq!['\\', '"']
    } else if c == '\\' {
        seq!['\\', '\\']
    } else if c == '\x08' {
        seq!['\\', 'b']
    } else if c == '\t' {
        seq!['\\', 't']
    } else if c == '\n' {
        seq!['\\', 'n']
    } else if c == '\x0c' {
        seq!['\\', 'f']
    } else if c == '\r' {
        seq!['\\', 'r']
    } else if (c as u32) < 0x20 {
        seq!['\\', 'u', '0', '0', hex_digit((c as int) / 16), hex_digit((c as int) % 16)]
    } else {
        seq![c]
    }
}

/// The characters of `s`, each escaped.
pub open spec fn escaped(s: Seq<char>) -> Seq<char>
    decreases s.len(),
{
    if s.len() == 0 {
        Seq::empty()
    } else {
        escaped(s.drop_last()) + escape_char(s.last())
    }
}

/// `s` as a JSON string literal.
pub open spec fn quoted(s: Seq<char>) -> Seq<char> {
    seq!['"'] + escaped(s) + seq!['"']
}

/// A character that stands for itself in a JSON string literal.
pub open spec fn plain_char(c: char) -> bool {
    c != '"' && c != '\\' && (c as u32) >= 0x20
}

/// Text whose characters all stand for themselves in a string literal.
pub open spec fn plain_text(s: Seq<char>) -> bool
    decreases s.len(),
{
    s.len() == 0 || (plain_char(s.last()) && plain_text(s.drop_last()))
}

/// Plain text is quoted as it stands, between two quotes.
pub proof fn lemma_plain_quoted(s: Seq<char>)
    requires
        plain_text(s),
    ensures
        quoted(s) == seq!['"'] + s + seq!['"'],
{
    lemma_plain_escaped(s);
}

proof fn lemma_plain_escaped(s: Seq<char>)
    requires
        plain_text(s),
    ensures
        escaped(s) == s,
    decreases s.len(),
{
    if s.len() > 0 {
        lemma_plain_escaped(s.drop_last());
        assert(escape_char(s.last()) == seq![s.last()]);
        assert(s.drop_last() + seq![s.last()] =~= s);
    } else {
        assert(s =~= Seq::<char>::empty());
    }
}

/// Compact text of a JSON value: no whitespace, members in stored order.
pub open spec fn json_text(v: JsonValue) -> Seq<char>
    decreases v, 0nat,
{
    match v {
        JsonValue::Null => "null"@,
        JsonValue::Bool(b) => if b {
            "true"@
        } else {
            "false"@
        },
        JsonValue::Number(n) => n@,
        JsonValue::Str(s) => quoted(s@),
        JsonValue::Array(items) => "["@ + items_text(items@) + "]"@,
        JsonValue::Object(members) => "{"@ + members_text(members@) + "}"@,
    }
}

/// Comma-separated texts of array items.
pub open spec fn items_text(items: Seq<JsonValue>) -> Seq<char>
    decreases items, 1nat,
{
    if items.len() == 0 {
        Seq::empty()
    } else if items.len() == 1 {
        json_text(items[0])
    } else {
        items_text(items.drop_last()) + ","@ + json_text(items.last())
    }
}

/// Comma-separated `"key":value` texts of object members.
pub open spec fn members_text(members: Seq<(String, JsonValue)>) -> Seq<char>
    decreases members, 1nat,
{
    if members.len() == 0 {
        Seq::empty()
    } else if members.len() == 1 {
        member_text(members[0])
    } else {
        members_text(members.drop_last()) + ","@ + member_text(members.last())
    }
}

pub open spec fn member_text(m: (String, JsonValue)) -> Seq<char>
    decreases m, 0nat,
{
    quoted(m.0@) + ":"@ + json_text(m.1)
}

/// Relies on serde_json::to_string on a `str`: it writes the string as a JSON
/// string literal, escaping by serde_json's escape table (`"`, `\`, the
/// control characters) and copying every other character.
#[verifier::external_body]
fn string_literal(s: &str) -> (r: String)
    ensures
        r@ == quoted(s@),
{
    match serde_json::to_string(s) {
        Ok(t) => t,
        Err(_) => String::new(),
    }
}

proof fn lemma_items_step(items: Seq<JsonValue>, i: int)
    requires
        0 <= i < items.len(),
    ensures
        items_text(items.subrange(0, i + 1)) == items_text(items.subrange(0, i)) + (if i
            == 0 {
            Seq::<char>::empty()
        } else {
            ","@
        }) + json_text(items[i]),
{
    let s = items.subrange(0, i + 1);
    assert(s.drop_last() =~= items.subrange(0, i));
    assert(s.last() == items[i]);
    if i == 0 {
        assert(items_text(items.subrange(0, 0)) =~= Seq::<char>::empty());
    }
}

proof fn lemma_members_step(members: Seq<(String, JsonValue)>, i: int)
    requires
        0 <= i < members.len(),
    ensures
        members_text(members.subrange(0, i + 1)) == members_text(members.subrange(0, i)) + (if i
            == 0 {
            Seq::<char>::empty()
        } else {
            ","@
        }) + member_text(members[i]),
{
    let s = members.subrange(0, i + 1);
    assert(s.drop_last() =~= members.subrange(0, i));
    assert(s.last() == members[i]);
    if i == 0 {
        assert(members_text(members.subrange(0, 0)) =~= Seq::<char>::empty());
    }
}

/// Appends the compact text of `v` to `out`.
pub fn write_json(v: &JsonValue, out: &mut String)
    ensures
        final(out)@ == old(out)@ + json_text(*v),
    decreases v,
{
    match v {
        JsonValue::Null => out.append("null"),
        JsonValue::Bool(b) => if *b {
            out.append("true")
        } else {
            out.append("false")
        },
        JsonValue::Number(n) => out.append(n.as_str()),
        JsonValue::Str(s) => {
            let lit = string_literal(s.as_str());
            out.append(lit.as_str());
        },
        JsonValue::Array(items) => {
            let ghost start = out@;
            out.append("[");
            let mut i: usize = 0;
            while i < items.len()
                invariant
                    i <= items@.len(),
                    *v == JsonValue::Array(*items),
                    out@ == start + "["@ + items_text(items@.subrange(0, i as int)),
                decreases items@.len() - i,
            {
                proof {
                    lemma_items_step(items@, i as int);
                }
                if i > 0 {
                    out.append(",");
                }
                proof {
                    assert(decreases_to!(*v => v->Array_0));
                    assert(decreases_to!(*items => items[i as int]));
                    assert(decreases_to!(*v => items[i as int]));
                }
                write_json(&items[i], out);
                i += 1;
            }
            assert(items@.subrange(0, items@.len() as int) =~= items@);
            out.append("]");
        },
        JsonValue::Object(members) => {
            let ghost start = out@;
            out.append("{");
            let mut i: usize = 0;
            while i < members.len()
                invariant
                    i <= members@.len(),
                    *v == JsonValue::Object(*members),
                    out@ == start + "{"@ + members_text(members@.subrange(0, i as int)),
                decreases members@.len() - i,
            {
                proof {
                    lemma_members_step(members@, i as int);
                }
                if i > 0 {
                    out.append(",");
                }
                let lit = string_literal(members[i].0.as_str());
                out.append(lit.as_str());
                out.append(":");
                proof {
                    assert(decreases_to!(*v => v->Object_0));
                    assert(decreases_to!(*members => members[i as int]));
                    assert(decreases_to!(members[i as int] => members[i as int].1));
                    assert(decreases_to!(*v => members[i as int].1));
                }
                write_json(&members[i].1, out);
                i += 1;
            }
            assert(members@.subrange(0, members@.len() as int) =~= members@);
            out.append("}");
        },
    }
}

/// The compact text of `v`.
pub fn to_json_text(v: &JsonValue) -> (r: String)
    ensures
        r@ == json_text(*v),
{
    let mut out = String::new();
    write_json(v, &mut out);
    assert(out@ =~= json_text(*v));
    out
}

/// The value of the first member of `members` whose key is `key`.
pub open spec fn member_value(members: Seq<(String, JsonValue)>, key: Seq<char>) -> Option<
    JsonValue,
>
    decreases members.len(),
{
    if members.len() == 0 {
        None
    } else if members[0].0@ == key {
        Some(members[0].1)
    } else {
        member_value(members.drop_first(), key)
    }
}

/// The member `key` of an object; `None` for a missing key or a non-object.
pub open spec fn field(v: JsonValue, key: Seq<char>) -> Option<JsonValue> {
    match v {
        JsonValue::Object(members) => member_value(members@, key),
        _ => None,
    }
}

/// The text of a JSON string value.
pub open spec fn string_of(v: JsonValue) -> Option<Seq<char>> {
    match v {
        JsonValue::Str(s) => Some(s@),
        _ => None,
    }
}

pub open spec fn is_object(v: JsonValue) -> bool {
    v is Object
}

/// Whether `j` is an object of `n` members.
pub open spec fn object_of_len(j: JsonValue, n: int) -> bool {
    j matches JsonValue::Object(ms) && ms@.len() == n
}

/// Whether member `i` of the object `j` is `key` with value `v`.
pub open spec fn entry(j: JsonValue, i: int, key: Seq<char>, v: JsonValue) -> bool {
    j matches JsonValue::Object(ms) && 0 <= i < ms@.len() && ms@[i].0@ == key && ms@[i].1 == v
}

/// Whether member `i` of the object `j` is `key` with the string value `s`.
pub open spec fn text_entry(j: JsonValue, i: int, key: Seq<char>, s: Seq<char>) -> bool {
    j matches JsonValue::Object(ms) && 0 <= i < ms@.len() && ms@[i].0@ == key && string_of(
        ms@[i].1,
    ) == Some(s)
}

/// A member `key: v`.
pub fn pair(key: &str, v: JsonValue) -> (r: (String, JsonValue))
    ensures
        r.0@ == key@,
        r.1 == v,
{
    (key.to_owned(), v)
}

proof fn lemma_remove_keeps_others(
    ms: Seq<(String, JsonValue)>,
    i: int,
    key: Seq<char>,
    other: Seq<char>,
)
    requires
        0 <= i < ms.len(),
        ms[i].0@ == key,
        other != key,
    ensures
        member_value(ms.remove(i), other) == member_value(ms, other),
    decreases i,
{
    if i == 0 {
        assert(ms.remove(0) =~= ms.drop_first());
    } else {
        let r = ms.remove(i);
        assert(r[0] == ms[0]);
        assert(r.drop_first() =~= ms.drop_first().remove(i - 1));
        lemma_remove_keeps_others(ms.drop_first(), i - 1, key, other);
    }
}

/// Removes the first member `key` of `members` and returns its value; the
/// members under other keys read as before.
pub fn take_member(members: &mut Vec<(String, JsonValue)>, key: &str) -> (r: Option<JsonValue>)
    ensures
        r == member_value(old(members)@, key@),
        forall|k: Seq<char>|
            k != key@ ==> #[trigger] member_value(final(members)@, k) == member_value(
                old(members)@,
                k,
            ),
{
    let mut i: usize = 0;
    while i < members.len()
        invariant
            i <= members@.len(),
            members@ == old(members)@,
            forall|j: int| 0 <= j < i ==> members@[j].0@ != key@,
        decreases members@.len() - i,
    {
        if text_eq(members[i].0.as_str(), key) {
            proof {
                lemma_member_value_prefix(members@, key@, i as int);
                assert(members@.subrange(i as int, members@.len() as int)[0] == members@[i as int]);
            }
            let ghost before = members@;
            let (_, v) = members.remove(i);
            proof {
                assert forall|k: Seq<char>| k != key@ implies #[trigger] member_value(members@, k)
                    == member_value(before, k) by {
                    lemma_remove_keeps_others(before, i as int, key@, k);
                }
            }
            return Some(v);
        }
        i += 1;
    }
    proof {
        lemma_member_value_absent(members@, key@);
    }
    None
}

/// Decimal digit `d` (`d < 10`).
pub open spec fn decimal_digit(d: int) -> char {
    hex_digit(d)
}

/// Decimal text of `n`.
pub open spec fn decimal(n: nat) -> Seq<char>
    decreases n,
{
    if n < 10 {
        seq![decimal_digit(n as int)]
    } else {
        decimal(n / 10) + seq![decimal_digit((n % 10) as int)]
    }
}

/// Decimal text of the integer `n`, with a leading `-` when negative.
pub open spec fn integer_text(n: int) -> Seq<char> {
    if n < 0 {
        seq!['-'] + decimal((-n) as nat)
    } else {
        decimal(n as nat)
    }
}

fn digit_text(d: u64) -> (r: &'static str)
    requires
        d < 10,
    ensures
        r@ == seq![decimal_digit(d as int)],
{
    proof {
        reveal_strlit("0");
        reveal_strlit("1");
        reveal_strlit("2");
        reveal_strlit("3");
        reveal_strlit("4");
        reveal_strlit("5");
        reveal_strlit("6");
        reveal_strlit("7");
        reveal_strlit("8");
        reveal_strlit("9");
    }
    if d == 0 {
        "0"
    } else if d == 1 {
        "1"
    } else if d == 2 {
        "2"
    } else if d == 3 {
        "3"
    } else if d == 4 {
        "4"
    } else if d == 5 {
        "5"
    } else if d == 6 {
        "6"
    } else if d == 7 {
        "7"
    } else if d == 8 {
        "8"
    } else {
        "9"
    }
}

fn write_decimal(n: u64, out: &mut String)
    ensures
        final(out)@ == old(out)@ + decimal(n as nat),
    decreases n,
{
    if n >= 10 {
        write_decimal(n / 10, out);
    }
    out.append(digit_text(n % 10));
}

/// The number value of `n`.
pub fn integer(n: i32) -> (r: JsonValue)
    ensures
        r matches JsonValue::Number(t) && t@ == integer_text(n as int),
{
    let mut t = String::new();
    if n < 0 {
        t.append("-");
        write_decimal((-(n as i64)) as u64, &mut t);
    } else {
        write_decimal(n as u64, &mut t);
    }
    proof {
        reveal_strlit("-");
        assert(t@ =~= integer_text(n as int));
    }
    JsonValue::Number(t)
}

/// Whether two texts are equal, character by character.
pub fn text_eq(a: &str, b: &str) -> (r: bool)
    ensures
        r == (a@ == b@),
{
    let n = a.unicode_len();
    if n != b.unicode_len() {
        return false;
    }
    let mut i: usize = 0;
    while i < n
        invariant
            n == a@.len(),
            n == b@.len(),
            i <= n,
            forall|j: int| 0 <= j < i ==> a@[j] == b@[j],
        decreases n - i,
    {
        if a.get_char(i) != b.get_char(i) {
            return false;
        }
        i += 1;
    }
    assert(a@ =~= b@);
    true
}

proof fn lemma_member_value_prefix(members: Seq<(String, JsonValue)>, key: Seq<char>, i: int)
    requires
        0 <= i < members.len(),
        forall|j: int| 0 <= j < i ==> members[j].0@ != key,
    ensures
        member_value(members, key) == member_value(members.subrange(i, members.len() as int), key),
    decreases i,
{
    if i > 0 {
        lemma_member_value_prefix(members.drop_first(), key, i - 1);
        assert(members.drop_first().subrange(i - 1, members.len() - 1) =~= members.subrange(
            i,
            members.len() as int,
        ));
    } else {
        assert(members.subrange(0, members.len() as int) =~= members);
    }
}

proof fn lemma_member_value_absent(members: Seq<(String, JsonValue)>, key: Seq<char>)
    requires
        forall|j: int| 0 <= j < members.len() ==> members[j].0@ != key,
    ensures
        member_value(members, key) is None,
    decreases members.len(),
{
    if members.len() > 0 {
        lemma_member_value_absent(members.drop_first(), key);
    }
}

impl JsonValue {
    /// The member `key` of this object, if it is an object that has one.
    pub fn get(&self, key: &str) -> (r: Option<&JsonValue>)
        ensures
            r matches Some(x) ==> field(*self, key@) == Some(*x),
            r is None ==> field(*self, key@) is None,
    {
        match self {
            JsonValue::Object(members) => {
                let mut i: usize = 0;
                while i < members.len()
                    invariant
                        i <= members@.len(),
                        *self == JsonValue::Object(*members),
                        forall|j: int| 0 <= j < i ==> members@[j].0@ != key@,
                    decreases members@.len() - i,
                {
                    if text_eq(members[i].0.as_str(), key) {
                        proof {
                            lemma_member_value_prefix(members@, key@, i as int);
                            assert(members@.subrange(i as int, members@.len() as int)[0]
                                == members@[i as int]);
                        }
                        return Some(&members[i].1);
                    }
                    i += 1;
                }
                proof {
                    lemma_member_value_absent(members@, key@);
                }
                None
            },
            _ => None,
        }
    }

    /// The text of this value, if it is a string.
    pub fn as_str(&self) -> (r: Option<&String>)
        ensures
            r matches Some(s) ==> string_of(*self) == Some(s@),
            r is None ==> string_of(*self) is None,
    {
        match self {
            JsonValue::Str(s) => Some(s),
            _ => None,
        }
    }

    pub fn is_object(&self) -> (r: bool)
        ensures
            r == is_object(*self),
    {
        match self {
            JsonValue::Object(_) => true,
            _ => false,
        }
    }

    /// A string value holding the text of `s`.
    pub fn text(s: &str) -> (r: JsonValue)
        ensures
            r matches JsonValue::Str(t) && t@ == s@,
    {
        JsonValue::Str(s.to_owned())
    }
}

} // verus!
