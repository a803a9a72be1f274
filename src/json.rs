//! Building blocks of JSON text: members, objects, arrays, quoted strings and numbers.
use vstd::prelude::*;

verus! {

/// The JSON string literal that serde_json writes for `s`: quotes around it,
/// with quotes, backslashes and control characters escaped.
pub uninterp spec fn json_quoted(s: Seq<char>) -> Seq<char>;

/// What serde_json makes of `s` read as a JSON number: the number as it writes
/// it back, or `None` when `s` is not a JSON number.
pub uninterp spec fn json_number_text(s: Seq<char>) -> Option<Seq<char>>;

/// Relies on `serde_json::to_string` on a `str`: it writes the escaped string
/// literal, and writing into memory cannot fail.
#[verifier::external_body]
pub(crate) fn quote(s: &str) -> (r: String)
    ensures
        r@ == json_quoted(s@),
{
    serde_json::to_string(s).unwrap_or_default()
}

/// Relies on `serde_json::Number`'s `FromStr` (the JSON number grammar, whole
/// input; empty input is an error) and its `Display`.
#[verifier::external_body]
pub(crate) fn number_text(s: &str) -> (r: Option<String>)
    ensures
        match r {
            Some(t) => json_number_text(s@) == Some(t@),
            None => json_number_text(s@) is None,
        },
        s@.len() == 0 ==> r is None,
{
    match s.parse::<serde_json::Number>() {
        Ok(n) => Some(n.to_string()),
        Err(_) => None,
    }
}

/// The views of a sequence of strings.
pub open spec fn texts(v: Seq<String>) -> Seq<Seq<char>> {
    v.map_values(|s: String| s@)
}

/// The items, separated by commas.
pub open spec fn join(items: Seq<Seq<char>>) -> Seq<char>
    decreases items.len(),
{
    if items.len() == 0 {
        Seq::empty()
    } else if items.len() == 1 {
        items[0]
    } else {
        join(items.drop_last()) + seq![','] + items.last()
    }
}

/// A JSON object whose members are already written out.
pub open spec fn object_text(members: Seq<Seq<char>>) -> Seq<char> {
    seq!['{'] + join(members) + seq!['}']
}

/// A JSON array whose elements are already written out.
pub open spec fn array_text(items: Seq<Seq<char>>) -> Seq<char> {
    seq!['['] + join(items) + seq![']']
}

/// A member under a fixed key that needs no escaping.
pub open spec fn member_text(key: Seq<char>, value: Seq<char>) -> Seq<char> {
    seq!['"'] + key + seq!['"', ':'] + value
}

/// A member under a key that is escaped as any string is.
pub open spec fn quoted_member_text(key: Seq<char>, value: Seq<char>) -> Seq<char> {
    json_quoted(key) + seq![':'] + value
}

/// The text behind an optional string.
pub open spec fn opt_view(o: Option<String>) -> Option<Seq<char>> {
    match o {
        Some(s) => Some(s@),
        None => None,
    }
}

/// One member under a fixed key when there is a value, none otherwise.
pub open spec fn opt_member(key: Seq<char>, value: Option<Seq<char>>) -> Seq<Seq<char>> {
    match value {
        Some(v) => seq![member_text(key, v)],
        None => Seq::empty(),
    }
}

/// An optional string, quoted.
pub open spec fn quoted_opt(o: Option<String>) -> Option<Seq<char>> {
    match o {
        Some(s) => Some(json_quoted(s@)),
        None => None,
    }
}

/// Quotes an optional string.
pub fn quote_opt(o: &Option<String>) -> (r: Option<String>)
    ensures
        opt_view(r) == quoted_opt(*o),
{
    match o {
        Some(s) => Some(quote(s.as_str())),
        None => None,
    }
}

/// Adds a member under a fixed key when there is a value.
pub fn push_member(members: &mut Vec<String>, key: &str, value: Option<String>)
    ensures
        texts(final(members)@) == texts(old(members)@) + opt_member(key@, opt_view(value)),
{
    match value {
        Some(v) => {
            let m = member(key, v.as_str());
            members.push(m);
            assert(texts(members@) =~= texts(old(members)@) + seq![m@]);
        },
        None => {
            assert(texts(members@) =~= texts(old(members)@) + Seq::<Seq<char>>::empty());
        },
    }
}

pub open spec fn digit_char(d: nat) -> char {
    if d == 0 { '0' }
    else if d == 1 { '1' }
    else if d == 2 { '2' }
    else if d == 3 { '3' }
    else if d == 4 { '4' }
    else if d == 5 { '5' }
    else if d == 6 { '6' }
    else if d == 7 { '7' }
    else if d == 8 { '8' }
    else { '9' }
}

/// The decimal digits of `n`, without leading zeros.
pub open spec fn decimal_text(n: nat) -> Seq<char>
    decreases n,
{
    if n < 10 {
        seq![digit_char(n)]
    } else {
        decimal_text(n / 10) + seq![digit_char(n % 10)]
    }
}

fn digit(d: u32) -> (r: &'static str)
    requires
        d < 10,
    ensures
        r@ == seq![digit_char(d as nat)],
{
    proof {
        reveal_strlit("0");
        reveal_strlit("1");
        reveal_strlit("2");
        reveal_strlit("3");
        reveal_strlit("4");
        reveal_strlit("5");
        reveal_strlit("6");
        reveal_strlit("7");
        reveal_strlit("8");
        reveal_strlit("9");
    }
    match d {
        0 => "0",
        1 => "1",
        2 => "2",
        3 => "3",
        4 => "4",
        5 => "5",
        6 => "6",
        7 => "7",
        8 => "8",
        _ => "9",
    }
}

/// Writes `n` in decimal, as a JSON number.
pub fn decimal(n: u32) -> (r: String)
    ensures
        r@ == decimal_text(n as nat),
    decreases n,
{
    if n < 10 {
        String::from_str(digit(n))
    } else {
        let mut r = decimal(n / 10);
        r.append(digit(n % 10));
        r
    }
}

/// Writes a member under a fixed key.
pub fn member(key: &str, value: &str) -> (r: String)
    ensures
        r@ == member_text(key@, value@),
{
    proof {
        reveal_strlit("\"");
        reveal_strlit("\":");
    }
    let mut r = String::from_str("\"");
    r.append(key);
    r.append("\":");
    r.append(value);
    r
}

/// Writes a member under a key that is escaped first.
pub fn quoted_member(key: &str, value: &str) -> (r: String)
    ensures
        r@ == quoted_member_text(key@, value@),
{
    proof {
        reveal_strlit(":");
    }
    let mut r = quote(key);
    r.append(":");
    r.append(value);
    r
}

/// The items separated by commas and put between `open` and `close`.
fn enclose(open: &str, items: &Vec<String>, close: &str) -> (r: String)
    ensures
        r@ == open@ + join(texts(items@)) + close@,
{
    let mut r = String::from_str(open);
    let mut i: usize = 0;
    while i < items.len()
        invariant
            i <= items.len(),
            r@ == open@ + join(texts(items@.subrange(0, i as int))),
        decreases items.len() - i,
    {
        let ghost prev = texts(items@.subrange(0, i as int));
        let ghost next = texts(items@.subrange(0, i + 1));
        proof {
            reveal_strlit(",");
            assert(next.drop_last() =~= prev);
            assert(next.last() == items@[i as int]@);
        }
        if i > 0 {
            r.append(",");
        }
        r.append(items[i].as_str());
        proof {
            if i == 0 {
                assert(join(next) == items@[0]@);
                assert(r@ =~= open@ + join(next));
            } else {
                assert(join(next) == join(prev) + seq![','] + items@[i as int]@);
                assert(r@ =~= open@ + join(next));
            }
        }
        i = i + 1;
    }
    assert(items@.subrange(0, items.len() as int) =~= items@);
    r.append(close);
    r
}

/// Writes an object from its members.
pub fn object(members: &Vec<String>) -> (r: String)
    ensures
        r@ == object_text(texts(members@)),
{
    proof {
        reveal_strlit("{");
        reveal_strlit("}");
    }
    enclose("{", members, "}")
}

/// Writes an array from its elements.
pub fn array(items: &Vec<String>) -> (r: String)
    ensures
        r@ == array_text(texts(items@)),
{
    proof {
        reveal_strlit("[");
        reveal_strlit("]");
    }
    enclose("[", items, "]")
}

} // verus!
