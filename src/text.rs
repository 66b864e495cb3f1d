//! Text building blocks: decimal numbers, UUID text and HTML escaping.
use vstd::arithmetic::power::pow;
use vstd::prelude::*;

verus! {

/// The lower-case hexadecimal digit for a value below sixteen.
pub open spec fn hex_digit(d: int) -> char {
    if d < 10 {
        ((d + 48) as u8) as char
    } else {
        ((d + 87) as u8) as char
    }
}

/// The decimal digit for a value below ten.
pub open spec fn decimal_digit(d: int) -> char {
    ((d + 48) as u8) as char
}

/// The decimal text of a natural number, without leading zeros.
pub open spec fn decimal_text(n: nat) -> Seq<char>
    decreases n,
{
    if n < 10 {
        seq![decimal_digit(n as int)]
    } else {
        decimal_text(n / 10).push(decimal_digit((n % 10) as int))
    }
}

/// Whether position `i` of the 36-character UUID text holds a hyphen.
pub open spec fn is_hyphen_slot(i: int) -> bool {
    i == 8 || i == 13 || i == 18 || i == 23
}

/// How many hyphens come before position `i` of the UUID text.
pub open spec fn hyphens_before(i: int) -> int {
    if i <= 8 {
        0
    } else if i <= 13 {
        1
    } else if i <= 18 {
        2
    } else if i <= 23 {
        3
    } else {
        4
    }
}

/// Hex digit `k` (0 is the most significant) of a 128-bit value.
pub open spec fn nibble(v: u128, k: int) -> int {
    (v as int / pow(16, (31 - k) as nat)) % 16
}

/// The hyphenated lower-case text of a UUID: 8-4-4-4-12 hex digits.
pub open spec fn uuid_text(v: u128) -> Seq<char> {
    Seq::new(
        36,
        |i: int|
            if is_hyphen_slot(i) {
                '-'
            } else {
                hex_digit(nibble(v, i - hyphens_before(i)))
            },
    )
}

/// What the UUID parser makes of a text: the 128-bit value, or nothing.
pub uninterp spec fn uuid_parsed(s: Seq<char>) -> Option<u128>;

/// The HTML escape of one character.
pub open spec fn escape_char(c: char) -> Seq<char> {
    if c == '<' {
        "&lt;"@
    } else if c == '>' {
        "&gt;"@
    } else if c == '&' {
        "&amp;"@
    } else if c == '"' {
        "&quot;"@
    } else if c == '\'' {
        "&#x27;"@
    } else {
        seq![c]
    }
}

/// The HTML escape of a text, character by character.
pub open spec fn escape_html(s: Seq<char>) -> Seq<char>
    decreases s.len(),
{
    if s.len() == 0 {
        Seq::empty()
    } else {
        escape_html(s.drop_last()) + escape_char(s.last())
    }
}

/// Whether `part` occurs somewhere in `whole`.
pub open spec fn contains(whole: Seq<char>, part: Seq<char>) -> bool {
    exists|i: int|
        0 <= i && i + part.len() <= whole.len() && #[trigger] whole.subrange(i, i + part.len())
            == part
}

/// Escaping a concatenation escapes each part.
pub proof fn lemma_escape_concat(a: Seq<char>, b: Seq<char>)
    ensures
        escape_html(a + b) == escape_html(a) + escape_html(b),
    decreases b.len(),
{
    if b.len() == 0 {
        assert(a + b =~= a);
    } else {
        lemma_escape_concat(a, b.drop_last());
        assert((a + b).drop_last() =~= a + b.drop_last());
        assert((a + b).last() == b.last());
        assert(escape_html(a) + escape_html(b.drop_last()) + escape_char(b.last())
            =~= escape_html(a) + (escape_html(b.drop_last()) + escape_char(b.last())));
    }
}

/// A text without the five special characters is its own escape.
pub proof fn lemma_escape_plain(s: Seq<char>)
    requires
        forall|i: int|
            0 <= i < s.len() ==> {
                let c = #[trigger] s[i];
                c != '<' && c != '>' && c != '&' && c != '"' && c != '\''
            },
    ensures
        escape_html(s) == s,
    decreases s.len(),
{
    if s.len() > 0 {
        let t = s.drop_last();
        assert forall|i: int| 0 <= i < t.len() implies {
            let c = #[trigger] t[i];
            c != '<' && c != '>' && c != '&' && c != '"' && c != '\''
        } by {
            assert(t[i] == s[i]);
        }
        lemma_escape_plain(t);
        let c = s[s.len() - 1];
        assert(escape_char(c) =~= seq![c]);
        assert(s =~= t.push(c));
        assert(t + seq![c] =~= t.push(c));
    }
}

/// UUID text holds only hex digits and hyphens, none of which HTML escapes.
pub proof fn lemma_uuid_text_plain(v: u128)
    ensures
        escape_html(uuid_text(v)) == uuid_text(v),
{
    let s = uuid_text(v);
    assert forall|i: int| 0 <= i < s.len() implies {
        let c = #[trigger] s[i];
        c != '<' && c != '>' && c != '&' && c != '"' && c != '\''
    } by {
        if !is_hyphen_slot(i) {
            let d = nibble(v, i - hyphens_before(i));
            assert(0 <= d < 16);
            assert(s[i] == hex_digit(d));
        }
    }
    lemma_escape_plain(s);
}

/// Relies on uuid's hyphenated formatter: 8-4-4-4-12 lower-case hex digits,
/// most significant first.
#[verifier::external_body]
pub(crate) fn uuid_string(v: u128) -> (r: String)
    ensures
        r@ == uuid_text(v),
{
    uuid::Uuid::from_u128(v).hyphenated().to_string()
}

/// Relies on uuid::Uuid::parse_str; its hyphenated text is always accepted.
#[verifier::external_body]
pub(crate) fn parse_uuid(s: &str) -> (r: Option<u128>)
    ensures
        r == uuid_parsed(s@),
        forall|v: u128| s@ == #[trigger] uuid_text(v) ==> r == Some(v),
{
    match uuid::Uuid::parse_str(s) {
        Ok(u) => Some(u.as_u128()),
        Err(_) => None,
    }
}

/// Relies on uuid::Uuid::new_v4: a random UUID whose version digit is 4.
#[verifier::external_body]
pub(crate) fn random_uuid() -> (r: u128)
    ensures
        nibble(r, 12) == 4,
{
    uuid::Uuid::new_v4().as_u128()
}

/// Relies on uuid::Uuid::now_v7: a time-ordered UUID whose version digit is 7.
#[verifier::external_body]
pub(crate) fn time_ordered_uuid() -> (r: u128)
    ensures
        nibble(r, 12) == 7,
{
    uuid::Uuid::now_v7().as_u128()
}

/// Relies on askama's HTML escaper, which replaces `<`, `>`, `&`, `"` and `'`
/// by entities and keeps every other character.
#[verifier::external_body]
pub(crate) fn html_escape(s: &str) -> (r: String)
    ensures
        r@ == escape_html(s@),
{
    askama::MarkupDisplay::new_unsafe(s, askama::Html).to_string()
}

/// One decimal digit as text.
fn digit_str(d: u32) -> (r: &'static str)
    requires
        d < 10,
    ensures
        r@ == seq![decimal_digit(d as int)],
{
    proof {
        reveal_strlit("0");
        reveal_strlit("1");
        reveal_strlit("2");
        reveal_strlit("3");
        reveal_strlit("4");
        reveal_strlit("5");
        reveal_strlit("6");
        reveal_strlit("7");
        reveal_strlit("8");
        reveal_strlit("9");
    }
    let r = match d {
        0 => "0",
        1 => "1",
        2 => "2",
        3 => "3",
        4 => "4",
        5 => "5",
        6 => "6",
        7 => "7",
        8 => "8",
        _ => "9",
    };
    assert(r@ =~= seq![decimal_digit(d as int)]);
    r
}

/// The decimal text of `n`.
pub fn decimal_string(n: u32) -> (r: String)
    ensures
        r@ == decimal_text(n as nat),
    decreases n,
{
    if n < 10 {
        String::from_str(digit_str(n))
    } else {
        let mut s = decimal_string(n / 10);
        s.append(digit_str(n % 10));
        proof {
            assert(seq![decimal_digit((n % 10) as int)] =~= Seq::<char>::empty().push(
                decimal_digit((n % 10) as int),
            ));
            assert(decimal_text((n / 10) as nat) + seq![decimal_digit((n % 10) as int)]
                =~= decimal_text((n / 10) as nat).push(decimal_digit((n % 10) as int)));
        }
        s
    }
}

} // verus!
