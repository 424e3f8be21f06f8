//! Script text: decimal numbers, quoted string literals and the fixed
//! fragments that every request's script is made of.

use vstd::prelude::*;
use vstd::string::StringExecFns;

verus! {

/// The character of a decimal digit.
pub open spec fn digit(d: nat) -> char {
    if d == 0 {
        '0'
    } else if d == 1 {
        '1'
    } else if d == 2 {
        '2'
    } else if d == 3 {
        '3'
    } else if d == 4 {
        '4'
    } else if d == 5 {
        '5'
    } else if d == 6 {
        '6'
    } else if d == 7 {
        '7'
    } else if d == 8 {
        '8'
    } else {
        '9'
    }
}

/// The decimal notation of `n`, without leading zeros.
pub open spec fn decimal(n: nat) -> Seq<char>
    decreases n,
{
    if n < 10 {
        seq![digit(n)]
    } else {
        decimal(n / 10).push(digit(n % 10))
    }
}

/// How one character stands inside a double-quoted script string.
pub open spec fn escape_char(c: char) -> Seq<char> {
    if c == '"' {
        seq!['\\', '"']
    } else if c == '\\' {
        seq!['\\', '\\']
    } else if c == '\n' {
        seq!['\\', 'n']
    } else if c == '\r' {
        seq!['\\', 'r']
    } else {
        seq![c]
    }
}

/// The characters of `s`, each escaped.
pub open spec fn escaped(s: Seq<char>) -> Seq<char>
    decreases s.len(),
{
    if s.len() == 0 {
        Seq::empty()
    } else {
        escaped(s.drop_last()) + escape_char(s.last())
    }
}

/// A double-quoted script string literal whose value is `s`.
pub open spec fn quoted(s: Seq<char>) -> Seq<char> {
    seq!['"'] + escaped(s) + seq!['"']
}

/// The script that sets up the view's node table: entry 0 is the body.
pub open spec fn bootstrap() -> Seq<char> {
    "window.webSlinger = { elements: { 0: document.body }, nextId: 1 };"@
}

/// Relies on String::push: the character is added at the end.
#[verifier::external_body]
pub(crate) fn push_char(s: &mut String, c: char)
    ensures
        final(s)@ == old(s)@.push(c),
{
    s.push(c)
}

fn digit_char(d: u64) -> (c: char)
    requires
        d < 10,
    ensures
        c == digit(d as nat),
{
    if d == 0 {
        '0'
    } else if d == 1 {
        '1'
    } else if d == 2 {
        '2'
    } else if d == 3 {
        '3'
    } else if d == 4 {
        '4'
    } else if d == 5 {
        '5'
    } else if d == 6 {
        '6'
    } else if d == 7 {
        '7'
    } else if d == 8 {
        '8'
    } else {
        '9'
    }
}

/// Appends the decimal notation of `n`.
pub(crate) fn append_decimal(s: &mut String, n: u64)
    ensures
        final(s)@ == old(s)@ + decimal(n as nat),
    decreases n,
{
    if n >= 10 {
        append_decimal(s, n / 10);
    }
    let c = digit_char(n % 10);
    push_char(s, c);
    assert(s@ =~= old(s)@ + decimal(n as nat));
}

/// Appends `c` as it stands inside a double-quoted script string.
fn append_escaped_char(s: &mut String, c: char)
    ensures
        final(s)@ == old(s)@ + escape_char(c),
{
    if c == '"' || c == '\\' || c == '\n' || c == '\r' {
        push_char(s, '\\');
        if c == '\n' {
            push_char(s, 'n');
        } else if c == '\r' {
            push_char(s, 'r');
        } else {
            push_char(s, c);
        }
    } else {
        push_char(s, c);
    }
    assert(s@ =~= old(s)@ + escape_char(c));
}

/// A double-quoted script string literal whose value is `text`.
pub fn quoted_literal(text: &str) -> (r: String)
    ensures
        r@ == quoted(text@),
{
    let mut out = String::new();
    push_char(&mut out, '"');
    for c in it: text.chars()
        invariant
            it.seq() == text@,
            out@ == seq!['"'] + escaped(it.seq().take(it.index() as int)),
    {
        let ghost i = it.index() as int;
        append_escaped_char(&mut out, c);
        assert(it.seq().take(i + 1).drop_last() =~= it.seq().take(i));
    }
    assert(text@.take(text@.len() as int) =~= text@);
    push_char(&mut out, '"');
    assert(out@ =~= quoted(text@));
    out
}

/// The script that sets up the view's node table before any request.
pub fn bootstrap_script() -> (r: String)
    ensures
        r@ == bootstrap(),
{
    String::from_str("window.webSlinger = { elements: { 0: document.body }, nextId: 1 };")
}

} // verus!
