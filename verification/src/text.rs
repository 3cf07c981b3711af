//! Text: strings from and to characters, trimming, shell names and decimal
//! numerals.
//!
//! Three functions of the standard library are called here on trust:
//! `String::push`, `str::trim` and `str::trim_end`. The rest is proved.

use vstd::prelude::*;
use vstd::string::StringExecFns;

verus! {

/// What `str::trim` keeps of a text: the text without the white space at
/// its start and at its end.
pub uninterp spec fn trimmed(text: Seq<char>) -> Seq<char>;

/// What `str::trim_end` keeps of a text: the text without the white space
/// at its end.
pub uninterp spec fn end_trimmed(text: Seq<char>) -> Seq<char>;

/// `String::push`: appends one character.
#[verifier::external_body]
pub(crate) fn push_char(text: &mut String, ch: char)
    ensures
        final(text)@ == old(text)@.push(ch),
{
    text.push(ch)
}

/// `str::trim`, as a string of its own.
#[verifier::external_body]
pub(crate) fn trim_text(text: &str) -> (kept: String)
    ensures
        kept@ == trimmed(text@),
{
    text.trim().to_string()
}

/// `str::trim_end`, as a string of its own.
#[verifier::external_body]
pub(crate) fn trim_end_text(text: &str) -> (kept: String)
    ensures
        kept@ == end_trimmed(text@),
{
    text.trim_end().to_string()
}

/// The text of each string of a list.
pub open spec fn texts(lines: Seq<String>) -> Seq<Seq<char>> {
    lines.map_values(|line: String| line@)
}

/// The characters of a string, in order.
pub fn chars_of(text: &str) -> (chars: Vec<char>)
    ensures
        chars@ == text@,
{
    broadcast use vstd::string::axiom_spec_iter;

    let mut chars: Vec<char> = Vec::new();
    for ch in it: text.chars()
        invariant
            it.seq() == text@,
            chars@ == it.seq().take(it.index()),
    {
        chars.push(ch);
        assert(chars@ =~= it.seq().take(it.index() + 1));
    }
    assert(chars@ =~= text@);
    chars
}

/// The string that holds exactly the given characters, in order.
pub fn string_from_chars(chars: &Vec<char>) -> (text: String)
    ensures
        text@ == chars@,
{
    let mut text = String::new();
    let mut i: usize = 0;
    while i < chars.len()
        invariant
            i <= chars.len(),
            text@ == chars@.take(i as int),
        decreases chars.len() - i,
    {
        push_char(&mut text, chars[i]);
        i = i + 1;
        assert(text@ =~= chars@.take(i as int));
    }
    assert(chars@.take(chars@.len() as int) =~= chars@);
    text
}

/// Removes the last character of a string, if it has one.
pub fn drop_last_char(text: &mut String)
    ensures
        final(text)@ == (if old(text)@.len() > 0 {
            old(text)@.drop_last()
        } else {
            old(text)@
        }),
{
    let mut chars = chars_of(text.as_str());
    if chars.len() > 0 {
        chars.pop();
        *text = string_from_chars(&chars);
    }
}

/// Where the last slash of a path stands, or -1 where it has none.
pub open spec fn last_slash(path: Seq<char>) -> int
    decreases path.len(),
{
    if path.len() == 0 {
        -1
    } else if path.last() == '/' {
        path.len() - 1
    } else {
        last_slash(path.drop_last())
    }
}

/// The name of a shell: what follows the last slash of its path, or the
/// whole path where it has no slash.
pub open spec fn shell_name_of(path: Seq<char>) -> Seq<char> {
    path.subrange(last_slash(path) + 1, path.len() as int)
}

/// The name of the shell at `path`.
pub fn shell_name(path: &str) -> (name: String)
    ensures
        name@ == shell_name_of(path@),
{
    let chars = chars_of(path);
    let mut start: usize = 0;
    let mut i: usize = 0;
    assert(chars@.take(0) =~= Seq::<char>::empty());
    while i < chars.len()
        invariant
            i <= chars.len(),
            start == last_slash(chars@.take(i as int)) + 1,
            start <= i,
        decreases chars.len() - i,
    {
        assert(chars@.take(i + 1).drop_last() =~= chars@.take(i as int));
        if chars[i] == '/' {
            start = i + 1;
        }
        i = i + 1;
    }
    assert(chars@.take(chars@.len() as int) =~= chars@);
    let mut name: Vec<char> = Vec::new();
    let mut j: usize = start;
    while j < chars.len()
        invariant
            start <= j <= chars.len(),
            name@ == chars@.subrange(start as int, j as int),
        decreases chars.len() - j,
    {
        name.push(chars[j]);
        j = j + 1;
        assert(name@ =~= chars@.subrange(start as int, j as int));
    }
    string_from_chars(&name)
}

/// The ten digits.
pub open spec fn digits() -> Seq<char> {
    seq!['0', '1', '2', '3', '4', '5', '6', '7', '8', '9']
}

/// The decimal numeral of `n`, without leading zeros.
pub open spec fn decimal(n: nat) -> Seq<char>
    decreases n,
{
    if n < 10 {
        seq![digits()[n as int]]
    } else {
        decimal(n / 10).push(digits()[(n % 10) as int])
    }
}

/// The character of a digit.
fn digit_to_char(digit: u64) -> (c: char)
    requires
        digit < 10,
    ensures
        c == digits()[digit as int],
{
    if digit == 0 {
        '0'
    } else if digit == 1 {
        '1'
    } else if digit == 2 {
        '2'
    } else if digit == 3 {
        '3'
    } else if digit == 4 {
        '4'
    } else if digit == 5 {
        '5'
    } else if digit == 6 {
        '6'
    } else if digit == 7 {
        '7'
    } else if digit == 8 {
        '8'
    } else {
        '9'
    }
}

/// Appends the decimal numeral of `n` to `out`.
fn push_decimal(n: u64, out: &mut Vec<char>)
    ensures
        final(out)@ == old(out)@ + decimal(n as nat),
    decreases n,
{
    if n < 10 {
        out.push(digit_to_char(n));
        assert(final(out)@ =~= old(out)@ + decimal(n as nat));
    } else {
        push_decimal(n / 10, out);
        out.push(digit_to_char(n % 10));
        assert(final(out)@ =~= old(out)@ + decimal(n as nat));
    }
}

/// The decimal numeral of `n`.
pub fn decimal_string(n: u64) -> (text: String)
    ensures
        text@ == decimal(n as nat),
{
    let mut numeral: Vec<char> = Vec::new();
    push_decimal(n, &mut numeral);
    assert(numeral@ =~= decimal(n as nat));
    string_from_chars(&numeral)
}

/// The title of a tab: the shell's name, a space, and the tab's number.
pub open spec fn title_of(shell_name: Seq<char>, tab_id: u64) -> Seq<char> {
    shell_name + seq![' '] + decimal(tab_id as nat)
}

/// Builds the title of a tab.
pub fn tab_title(shell_name: &str, tab_id: u64) -> (title: String)
    ensures
        title@ == title_of(shell_name@, tab_id),
{
    let mut title = String::from_str(shell_name);
    proof {
        reveal_strlit(" ");
    }
    title.append(" ");
    let number = decimal_string(tab_id);
    title.append(number.as_str());
    assert(" "@ =~= seq![' ']);
    title
}

} // verus!
