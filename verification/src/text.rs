use vstd::prelude::*;

verus! {

/// The contents of each string, in order.
pub open spec fn texts(items: Seq<String>) -> Seq<Seq<char>> {
    items.map_values(|s: String| s@)
}

/// The parts one after another, with `separator` between neighbours.
pub open spec fn joined(parts: Seq<Seq<char>>, separator: Seq<char>) -> Seq<char>
    decreases parts.len(),
{
    if parts.len() == 0 {
        Seq::empty()
    } else if parts.len() == 1 {
        parts[0]
    } else {
        joined(parts.drop_last(), separator) + separator + parts.last()
    }
}

/// The character that stands for a digit below ten.
pub open spec fn digit_char(digit: nat) -> char {
    if digit == 0 {
        '0'
    } else if digit == 1 {
        '1'
    } else if digit == 2 {
        '2'
    } else if digit == 3 {
        '3'
    } else if digit == 4 {
        '4'
    } else if digit == 5 {
        '5'
    } else if digit == 6 {
        '6'
    } else if digit == 7 {
        '7'
    } else if digit == 8 {
        '8'
    } else {
        '9'
    }
}

/// A number in decimal notation, without sign or leading zeros.
pub open spec fn decimal(n: nat) -> Seq<char>
    decreases n,
{
    if n < 10 {
        seq![digit_char(n)]
    } else {
        decimal(n / 10).push(digit_char(n % 10))
    }
}

/// The one-character string of a digit below ten.
fn digit_str(digit: u64) -> (text: &'static str)
    requires
        digit < 10,
    ensures
        text@ == seq![digit_char(digit as nat)],
{
    proof {
        reveal_strlit("0");
        reveal_strlit("1");
        reveal_strlit("2");
        reveal_strlit("3");
        reveal_strlit("4");
        reveal_strlit("5");
        reveal_strlit("6");
        reveal_strlit("7");
        reveal_strlit("8");
        reveal_strlit("9");
    }
    let text = match digit {
        0 => "0",
        1 => "1",
        2 => "2",
        3 => "3",
        4 => "4",
        5 => "5",
        6 => "6",
        7 => "7",
        8 => "8",
        _ => "9",
    };
    assert(text@ =~= seq![digit_char(digit as nat)]);
    text
}

/// Appends `n` in decimal notation to `text`.
pub fn push_decimal(text: &mut String, n: u64)
    ensures
        final(text)@ == old(text)@ + decimal(n as nat),
    decreases n,
{
    if n >= 10 {
        push_decimal(text, n / 10);
    }
    let ghost before = text@;
    text.append(digit_str(n % 10));
    assert(text@ =~= old(text)@ + decimal(n as nat)) by {
        assert(before + seq![digit_char((n % 10) as nat)] =~= before.push(
            digit_char((n % 10) as nat),
        ));
    }
}

/// What `{:?}` writes for a string: the string in double quotes, with the
/// characters escaped that a Rust string literal has to escape.
pub uninterp spec fn debug_form(text: Seq<char>) -> Seq<char>;

/// Formats a string with `{:?}`, that is through `<str as core::fmt::Debug>::fmt`.
/// The result is a function of the characters alone; it is not spelled out here.
#[verifier::external_body]
fn debug_string(text: &str) -> (quoted: String)
    ensures
        quoted@ == debug_form(text@),
{
    format!("{:?}", text)
}

/// What `{:?}` writes for a list of strings: the items, each as `{:?}`
/// writes it, separated by a comma and a space, in square brackets.
pub open spec fn debug_list(items: Seq<Seq<char>>) -> Seq<char> {
    seq!['['] + joined(items.map_values(|s: Seq<char>| debug_form(s)), seq![',', ' ']) + seq![']']
}

/// Appends the `{:?}` form of `text` to `out`.
pub fn push_debug(out: &mut String, text: &str)
    ensures
        final(out)@ == old(out)@ + debug_form(text@),
{
    let quoted = debug_string(text);
    out.append(quoted.as_str());
}

/// Appends the `{:?}` form of the list `items` to `out`.
pub fn push_debug_list(out: &mut String, items: &Vec<String>)
    ensures
        final(out)@ == old(out)@ + debug_list(texts(items@)),
{
    proof {
        reveal_strlit("[");
        reveal_strlit(", ");
        reveal_strlit("]");
    }
    let ghost show = |s: Seq<char>| debug_form(s);
    let ghost separator = seq![',', ' '];
    out.append("[");
    let mut i: usize = 0;
    while i < items.len()
        invariant
            i <= items.len(),
            show == |s: Seq<char>| debug_form(s),
            separator == seq![',', ' '],
            ", "@ == separator,
            out@ == old(out)@ + seq!['['] + joined(
                texts(items@).take(i as int).map_values(show),
                separator,
            ),
        decreases items.len() - i,
    {
        let ghost done = texts(items@).take(i as int).map_values(show);
        let ghost more = texts(items@).take(i + 1).map_values(show);
        assert(more.drop_last() =~= done);
        assert(more.last() == debug_form(items@[i as int]@));
        if i > 0 {
            out.append(", ");
        }
        push_debug(out, items[i].as_str());
        assert(out@ =~= old(out)@ + seq!['['] + joined(more, separator));
        i = i + 1;
    }
    assert(texts(items@).take(items.len() as int) =~= texts(items@));
    out.append("]");
    assert(out@ =~= old(out)@ + debug_list(texts(items@)));
}

} // verus!
