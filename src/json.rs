use vstd::prelude::*;
use vstd::string::*;

verus! {

/// A lowercase hexadecimal digit.
pub open spec fn hex_digit(n: nat) -> char {
    if n == 0 { '0' }
    else if n == 1 { '1' }
    else if n == 2 { '2' }
    else if n == 3 { '3' }
    else if n == 4 { '4' }
    else if n == 5 { '5' }
    else if n == 6 { '6' }
    else if n == 7 { '7' }
    else if n == 8 { '8' }
    else if n == 9 { '9' }
    else if n == 10 { 'a' }
    else if n == 11 { 'b' }
    else if n == 12 { 'c' }
    else if n == 13 { 'd' }
    else if n == 14 { 'e' }
    else { 'f' }
}

/// How one character is written inside a JSON string: a quote and a
/// backslash behind a backslash, the five control characters with a short
/// escape by it, every other control character as `\u00` and two hex
/// digits, and any other character as itself.
pub open spec fn escaped_char(c: char) -> Seq<char> {
    if c == '"' {
        seq!['\\', '"']
    } else if c == '\\' {
        seq!['\\', '\\']
    } else if c == '\u{8}' {
        seq!['\\', 'b']
    } else if c == '\t' {
        seq!['\\', 't']
    } else if c == '\n' {
        seq!['\\', 'n']
    } else if c == '\u{c}' {
        seq!['\\', 'f']
    } else if c == '\r' {
        seq!['\\', 'r']
    } else if (c as u32) < 0x20 {
        seq!['\\', 'u', '0', '0', hex_digit((c as u32 / 16) as nat), hex_digit((c as u32 % 16) as nat)]
    } else {
        seq![c]
    }
}

/// The characters of a text, each written as inside a JSON string.
pub open spec fn escaped(s: Seq<char>) -> Seq<char>
    decreases s.len(),
{
    if s.len() == 0 {
        Seq::empty()
    } else {
        escaped_char(s[0]) + escaped(s.skip(1))
    }
}

/// The JSON string literal that stands for a text.
pub open spec fn json_quoted(s: Seq<char>) -> Seq<char> {
    seq!['"'] + escaped(s) + seq!['"']
}

proof fn lemma_escaped_char_shape(c: char)
    ensures
        escaped_char(c).len() >= 1,
        escaped_char(c)[0] != '\\' ==> escaped_char(c) == seq![c],
        escaped_char(c)[0] == '\\' ==> escaped_char(c).len() >= 2,
        escaped_char(c)[0] == '\\' && escaped_char(c)[1] == 'u' ==> escaped_char(c).len() == 6,
        escaped_char(c)[0] == '\\' && escaped_char(c)[1] != 'u' ==> escaped_char(c).len() == 2,
{
}

proof fn lemma_escaped_char_injective(c1: char, c2: char)
    requires
        escaped_char(c1) == escaped_char(c2),
    ensures
        c1 == c2,
{
    let e = escaped_char(c1);
    if e.len() == 6 {
        assert(e[4] == hex_digit((c1 as u32 / 16) as nat) && e[4] == hex_digit((c2 as u32 / 16) as nat));
        assert(e[5] == hex_digit((c1 as u32 % 16) as nat) && e[5] == hex_digit((c2 as u32 % 16) as nat));
        assert(c1 as u32 / 16 == c2 as u32 / 16);
        assert(c1 as u32 % 16 == c2 as u32 % 16);
        assert(c1 as u32 == c2 as u32);
    } else if e.len() == 1 {
        assert(e[0] == c1 && e[0] == c2);
    }
}

proof fn lemma_escaped_cons_injective(c1: char, r1: Seq<char>, c2: char, r2: Seq<char>)
    requires
        escaped_char(c1) + r1 == escaped_char(c2) + r2,
    ensures
        c1 == c2,
        r1 == r2,
{
    let t = escaped_char(c1) + r1;
    let e1 = escaped_char(c1);
    let e2 = escaped_char(c2);
    lemma_escaped_char_shape(c1);
    lemma_escaped_char_shape(c2);
    assert(e1[0] == t[0] && e2[0] == t[0]);
    if t[0] == '\\' {
        assert(e1[1] == t[1] && e2[1] == t[1]);
    }
    assert(e1.len() == e2.len());
    assert(e1 =~= t.subrange(0, e1.len() as int));
    assert(e2 =~= t.subrange(0, e2.len() as int));
    lemma_escaped_char_injective(c1, c2);
    assert(r1 =~= t.skip(e1.len() as int));
    assert(r2 =~= t.skip(e2.len() as int));
}

proof fn lemma_escaped_injective(s1: Seq<char>, s2: Seq<char>)
    requires
        escaped(s1) == escaped(s2),
    ensures
        s1 == s2,
    decreases s1.len(),
{
    if s1.len() == 0 {
        if s2.len() > 0 {
            lemma_escaped_char_shape(s2[0]);
        }
        assert(s1 =~= s2);
    } else {
        lemma_escaped_char_shape(s1[0]);
        if s2.len() == 0 {
            assert(escaped(s2).len() == 0);
        } else {
            lemma_escaped_cons_injective(s1[0], escaped(s1.skip(1)), s2[0], escaped(s2.skip(1)));
            lemma_escaped_injective(s1.skip(1), s2.skip(1));
            assert(s1 =~= seq![s1[0]] + s1.skip(1));
            assert(s2 =~= seq![s2[0]] + s2.skip(1));
        }
    }
}

/// Two texts with the same JSON string literal are the same text.
pub proof fn lemma_json_quoted_injective(s1: Seq<char>, s2: Seq<char>)
    requires
        json_quoted(s1) == json_quoted(s2),
    ensures
        s1 == s2,
{
    let q1 = json_quoted(s1);
    assert(escaped(s1) =~= q1.subrange(1, q1.len() - 1));
    assert(escaped(s2) =~= json_quoted(s2).subrange(1, q1.len() - 1));
    lemma_escaped_injective(s1, s2);
}

/// Relies on `serde_json::to_string` on a string slice: the JSON string
/// literal for the text. Serializing a `str` into a `Vec` cannot fail.
#[verifier::external_body]
pub(crate) fn quote(s: &str) -> (r: Option<String>)
    ensures
        r is Some,
        r matches Some(t) ==> t@ == json_quoted(s@),
{
    serde_json::to_string(s).ok()
}

/// The views of a sequence of strings.
pub open spec fn texts(v: Seq<String>) -> Seq<Seq<char>> {
    v.map_values(|s: String| s@)
}

/// The member texts of an object, separated by commas.
pub open spec fn joined(ms: Seq<Seq<char>>) -> Seq<char>
    decreases ms.len(),
{
    if ms.len() == 0 {
        Seq::empty()
    } else if ms.len() == 1 {
        ms[0]
    } else {
        joined(ms.drop_last()) + seq![','] + ms.last()
    }
}

/// A JSON object with the given member texts, in order.
pub open spec fn object_text(ms: Seq<Seq<char>>) -> Seq<char> {
    seq!['{'] + joined(ms) + seq!['}']
}

/// One member of a JSON object: a key literal, a colon and a value.
pub open spec fn member_text(key: Seq<char>, value: Seq<char>) -> Seq<char> {
    key + seq![':'] + value
}

/// The JSON literal of a boolean.
pub open spec fn bool_text(b: bool) -> Seq<char> {
    if b {
        "true"@
    } else {
        "false"@
    }
}

/// The JSON text of the literal `null`.
pub open spec fn null_text() -> Seq<char> {
    "null"@
}

pub open spec fn digit_char(d: nat) -> char {
    if d == 0 { '0' }
    else if d == 1 { '1' }
    else if d == 2 { '2' }
    else if d == 3 { '3' }
    else if d == 4 { '4' }
    else if d == 5 { '5' }
    else if d == 6 { '6' }
    else if d == 7 { '7' }
    else if d == 8 { '8' }
    else { '9' }
}

/// The decimal digits of a number, most significant first, without leading zeros.
pub open spec fn decimal(n: nat) -> Seq<char>
    decreases n,
{
    if n < 10 {
        seq![digit_char(n)]
    } else {
        decimal(n / 10).push(digit_char(n % 10))
    }
}

fn digit_text(d: u64) -> (r: &'static str)
    requires
        d < 10,
    ensures
        r@ == seq![digit_char(d as nat)],
{
    proof {
        reveal_strlit("0");
        reveal_strlit("1");
        reveal_strlit("2");
        reveal_strlit("3");
        reveal_strlit("4");
        reveal_strlit("5");
        reveal_strlit("6");
        reveal_strlit("7");
        reveal_strlit("8");
        reveal_strlit("9");
    }
    if d == 0 { "0" }
    else if d == 1 { "1" }
    else if d == 2 { "2" }
    else if d == 3 { "3" }
    else if d == 4 { "4" }
    else if d == 5 { "5" }
    else if d == 6 { "6" }
    else if d == 7 { "7" }
    else if d == 8 { "8" }
    else { "9" }
}

/// The JSON number literal of an unsigned integer.
pub fn number_text(n: u64) -> (r: String)
    ensures
        r@ == decimal(n as nat),
{
    let mut m: u64 = n / 10;
    let mut s = String::from_str(digit_text(n % 10));
    assert(decimal(n as nat) == decimal(m as nat) + s@ || m == 0);
    while m > 0
        invariant
            m == 0 ==> s@ == decimal(n as nat),
            m > 0 ==> decimal(m as nat) + s@ == decimal(n as nat),
        decreases m,
    {
        let d = m % 10;
        let prev = s;
        s = String::from_str(digit_text(d)).concat(prev.as_str());
        proof {
            if m >= 10 {
                assert(decimal(m as nat) == decimal((m / 10) as nat).push(digit_char(d as nat)));
                assert(decimal((m / 10) as nat) + s@ =~= decimal(m as nat) + prev@);
            } else {
                assert(s@ =~= decimal(m as nat) + prev@);
            }
        }
        m = m / 10;
    }
    s
}

/// The JSON literal of a boolean.
pub fn boolean_text(b: bool) -> (r: String)
    ensures
        r@ == bool_text(b),
{
    if b {
        String::from_str("true")
    } else {
        String::from_str("false")
    }
}

/// One member of a JSON object from a key literal and a value text.
pub fn member(key: &str, value: &str) -> (r: String)
    ensures
        r@ == member_text(key@, value@),
{
    proof {
        reveal_strlit(":");
    }
    String::from_str(key).concat(":").concat(value)
}

/// A JSON object from its member texts, in order.
pub fn render_object(members: &Vec<String>) -> (r: String)
    ensures
        r@ == object_text(texts(members@)),
{
    proof {
        reveal_strlit("{");
        reveal_strlit("}");
        reveal_strlit(",");
    }
    let mut body = String::new();
    let mut i: usize = 0;
    while i < members.len()
        invariant
            i <= members@.len(),
            body@ == joined(texts(members@.subrange(0, i as int))),
        decreases members@.len() - i,
    {
        let ghost before = members@.subrange(0, i as int);
        let ghost after = members@.subrange(0, i + 1);
        assert(texts(after).drop_last() =~= texts(before));
        assert(texts(after).len() == i + 1);
        assert(texts(after).last() == members@[i as int]@);
        let ghost prev = body@;
        proof {
            reveal_strlit(",");
        }
        if i > 0 {
            body.append(",");
        }
        body.append(members[i].as_str());
        proof {
            if i > 0 {
                assert(body@ =~= prev + seq![','] + members@[i as int]@);
            } else {
                assert(body@ =~= members@[i as int]@);
            }
        }
        i = i + 1;
    }
    assert(members@.subrange(0, members@.len() as int) =~= members@);
    String::from_str("{").concat(body.as_str()).concat("}")
}

} // verus!
