//! Text as sequences of characters: the vocabulary in which the contracts of
//! this crate speak of strings, and the few string operations they rest on.
use vstd::prelude::*;

verus! {

/// How many characters of `text` come before the first `mark`; all of them
/// where `mark` does not occur.
pub open spec fn position(text: Seq<char>, mark: char) -> int
    decreases text.len(),
{
    if text.len() == 0 || text[0] == mark {
        0
    } else {
        1 + position(text.skip(1), mark)
    }
}

/// The characters of each string, in order.
pub open spec fn texts(strings: Seq<String>) -> Seq<Seq<char>> {
    strings.map_values(|s: String| s@)
}

/// Whether the strings hold these characters, one by one.
pub open spec fn spell(strings: Seq<String>, words: Seq<Seq<char>>) -> bool {
    &&& strings.len() == words.len()
    &&& forall|i: int| 0 <= i < strings.len() ==> (#[trigger] strings[i])@ == words[i]
}

/// Whether the string slices hold these characters, one by one.
pub open spec fn slices_spell(slices: Seq<&'static str>, words: Seq<Seq<char>>) -> bool {
    &&& slices.len() == words.len()
    &&& forall|i: int| 0 <= i < slices.len() ==> (#[trigger] slices[i])@ == words[i]
}

/// The decimal digit of a number below ten.
pub open spec fn digit(value: nat) -> char {
    if value == 0 {
        '0'
    } else if value == 1 {
        '1'
    } else if value == 2 {
        '2'
    } else if value == 3 {
        '3'
    } else if value == 4 {
        '4'
    } else if value == 5 {
        '5'
    } else if value == 6 {
        '6'
    } else if value == 7 {
        '7'
    } else if value == 8 {
        '8'
    } else {
        '9'
    }
}

/// A number written in decimal, without leading zeros.
pub open spec fn decimal(value: nat) -> Seq<char>
    decreases value,
{
    if value < 10 {
        seq![digit(value)]
    } else {
        decimal(value / 10).push(digit(value % 10))
    }
}

/// The first occurrence of a mark is where [`position`] puts it.
pub proof fn lemma_position(text: Seq<char>, mark: char)
    ensures
        0 <= position(text, mark) <= text.len(),
        position(text, mark) < text.len() ==> text[position(text, mark)] == mark,
        forall|i: int| 0 <= i < position(text, mark) ==> text[i] != mark,
        text.contains(mark) <==> position(text, mark) < text.len(),
    decreases text.len(),
{
    if text.len() > 0 && text[0] != mark {
        let rest = text.skip(1);
        lemma_position(rest, mark);
        assert forall|i: int| 0 <= i < position(text, mark) implies text[i] != mark by {
            if i > 0 {
                assert(text[i] == rest[i - 1]);
            }
        }
        if text.contains(mark) {
            let k = choose|k: int| 0 <= k < text.len() && text[k] == mark;
            assert(rest[k - 1] == mark);
        }
    }
}

/// [`position`] is the only index that holds the mark with none before it.
pub proof fn lemma_position_unique(text: Seq<char>, mark: char, index: int)
    requires
        0 <= index < text.len(),
        text[index] == mark,
        forall|i: int| 0 <= i < index ==> text[i] != mark,
    ensures
        position(text, mark) == index,
{
    lemma_position(text, mark);
}

/// `str::split_once` with a single character: where the character occurs, the
/// text before its first occurrence and the text after it; otherwise nothing.
#[verifier::external_body]
pub(crate) fn split_once(text: &str, mark: char) -> (parts: Option<(&str, &str)>)
    ensures
        parts is Some <==> text@.contains(mark),
        parts matches Some((head, tail)) ==> {
            &&& text@ == head@.push(mark) + tail@
            &&& !head@.contains(mark)
        },
{
    text.split_once(mark)
}

/// `str::strip_prefix` with a string: the text after the prefix where the text
/// starts with it, and nothing otherwise.
#[verifier::external_body]
pub(crate) fn strip_prefix<'a>(text: &'a str, prefix: &str) -> (rest: Option<&'a str>)
    ensures
        rest is Some <==> prefix@.is_prefix_of(text@),
        rest matches Some(r) ==> text@ == prefix@ + r@,
{
    text.strip_prefix(prefix)
}

/// The text before the first `mark` and the text after it.
pub(crate) fn split_at_first<'a>(text: &'a str, mark: char) -> (parts: Option<(&'a str, &'a str)>)
    ensures
        match parts {
            Some((head, tail)) => {
                let at = position(text@, mark);
                &&& at < text@.len()
                &&& head@ == text@.take(at)
                &&& tail@ == text@.skip(at + 1)
            },
            None => position(text@, mark) == text@.len(),
        },
{
    proof {
        lemma_position(text@, mark);
    }
    let parts = split_once(text, mark);
    proof {
        if let Some((head, tail)) = parts {
            let at = head@.len() as int;
            assert(text@[at] == mark);
            assert forall|i: int| 0 <= i < at implies text@[i] != mark by {
                assert(text@[i] == head@[i]);
            }
            lemma_position_unique(text@, mark, at);
            assert(head@ =~= text@.take(at));
            assert(tail@ =~= text@.skip(at + 1));
        }
    }
    parts
}

/// Whether two texts hold the same characters.
pub(crate) fn same_text(left: &str, right: &str) -> (same: bool)
    ensures
        same == (left@ == right@),
{
    left.to_owned() == right.to_owned()
}

fn digit_text(value: u16) -> (text: &'static str)
    requires
        value < 10,
    ensures
        text@ == seq![digit(value as nat)],
{
    proof {
        reveal_strlit("0");
        reveal_strlit("1");
        reveal_strlit("2");
        reveal_strlit("3");
        reveal_strlit("4");
        reveal_strlit("5");
        reveal_strlit("6");
        reveal_strlit("7");
        reveal_strlit("8");
        reveal_strlit("9");
    }
    match value {
        0 => "0",
        1 => "1",
        2 => "2",
        3 => "3",
        4 => "4",
        5 => "5",
        6 => "6",
        7 => "7",
        8 => "8",
        _ => "9",
    }
}

/// Writes a number in decimal.
pub(crate) fn decimal_text(value: u16) -> (text: String)
    ensures
        text@ == decimal(value as nat),
    decreases value,
{
    if value < 10 {
        digit_text(value).to_owned()
    } else {
        let mut text = decimal_text(value / 10);
        text.append(digit_text(value % 10));
        text
    }
}

} // verus!
