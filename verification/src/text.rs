//! Text, as sequences of characters.
use vstd::prelude::*;

verus! {

/// The characters that Unicode gives the property `White_Space`.
pub open spec fn is_white_space(c: char) -> bool {
    let code = c as u32;
    ||| 0x9 <= code <= 0xd
    ||| code == 0x20
    ||| code == 0x85
    ||| code == 0xa0
    ||| code == 0x1680
    ||| 0x2000 <= code <= 0x200a
    ||| code == 0x2028
    ||| code == 0x2029
    ||| code == 0x202f
    ||| code == 0x205f
    ||| code == 0x3000
}

/// `text` without the white space at its ends.
pub open spec fn trimmed(text: Seq<char>) -> Seq<char>
    decreases text.len(),
{
    if text.len() == 0 {
        text
    } else if is_white_space(text[0]) {
        trimmed(text.drop_first())
    } else if is_white_space(text.last()) {
        trimmed(text.drop_last())
    } else {
        text
    }
}

/// The texts of a list of strings.
pub open spec fn texts(strings: Seq<String>) -> Seq<Seq<char>> {
    strings.map_values(|string: String| string@)
}

/// Whether `text` holds nothing but white space.
pub open spec fn is_blank(text: Seq<char>) -> bool {
    trimmed(text).len() == 0
}

/// A capital ASCII letter as a small one, any other character unchanged.
pub open spec fn ascii_lower(c: char) -> char {
    if 'A' <= c <= 'Z' {
        (c as u32 + 32) as char
    } else {
        c
    }
}

/// Whether two texts differ at most in the case of ASCII letters.
pub open spec fn equal_ignoring_case(left: Seq<char>, right: Seq<char>) -> bool {
    &&& left.len() == right.len()
    &&& forall|i: int|
        0 <= i < left.len() ==> #[trigger] ascii_lower(left[i]) == ascii_lower(right[i])
}

/// Calls `str::eq`, which compares two texts character by character.
#[verifier::external_body]
pub(crate) fn same_text(left: &str, right: &str) -> (r: bool)
    ensures
        r == (left@ == right@),
{
    left == right
}

/// Calls `str::trim`, which leaves out the white space at both ends, where white space
/// is what has the Unicode property `White_Space`.
#[verifier::external_body]
pub(crate) fn trim(text: &str) -> (r: &str)
    ensures
        r@ == trimmed(text@),
{
    text.trim()
}

/// Calls `str::eq_ignore_ascii_case`, which compares two texts after the ASCII letters
/// of both are made small.
#[verifier::external_body]
pub(crate) fn same_text_ignoring_case(left: &str, right: &str) -> (r: bool)
    ensures
        r == equal_ignoring_case(left@, right@),
{
    left.eq_ignore_ascii_case(right)
}

/// Tells whether `text` holds nothing but white space.
pub fn blank(text: &str) -> (r: bool)
    ensures
        r == is_blank(text@),
{
    trim(text).is_empty()
}

/// The place of the first occurrence of a character.
pub open spec fn first_place(text: Seq<char>, c: char) -> Option<int>
    decreases text.len(),
{
    if text.len() == 0 {
        None
    } else if text[0] == c {
        Some(0int)
    } else {
        match first_place(text.drop_first(), c) {
            Some(i) => Some(i + 1),
            None => None,
        }
    }
}

/// A character that is found lies in the text.
pub proof fn lemma_place_inside(text: Seq<char>, c: char)
    ensures
        first_place(text, c) matches Some(i) ==> 0 <= i < text.len() && text[i] == c,
    decreases text.len(),
{
    if text.len() > 0 {
        lemma_place_inside(text.drop_first(), c);
    }
}

/// A line without the carriage return at its end, where there is one.
pub open spec fn without_carriage_return(line: Seq<char>) -> Seq<char> {
    if line.len() > 0 && line.last() == '\r' {
        line.drop_last()
    } else {
        line
    }
}

/// The lines of a text. A line ends before a line feed, or before a carriage return and
/// a line feed; the last one needs no such end.
pub open spec fn split_lines(text: Seq<char>) -> Seq<Seq<char>>
    decreases text.len(),
{
    if text.len() == 0 {
        Seq::empty()
    } else {
        proof {
            lemma_place_inside(text, '\n');
        }
        match first_place(text, '\n') {
            Some(i) => seq![without_carriage_return(text.take(i))] + split_lines(text.skip(i + 1)),
            None => seq![text],
        }
    }
}

/// Calls `str::lines`, which splits a text at line feeds and takes the line feed, and a
/// carriage return right before it, off each line.
#[verifier::external_body]
pub(crate) fn lines(text: &str) -> (r: Vec<String>)
    ensures
        texts(r@) == split_lines(text@),
{
    text.lines().map(|line| line.to_string()).collect()
}

/// Lines put together again, with one empty line for each run of blank lines.
pub open spec fn blank_runs_collapsed(lines: Seq<Seq<char>>, after_blank: bool) -> Seq<char>
    decreases lines.len(),
{
    if lines.len() == 0 {
        Seq::empty()
    } else if is_blank(lines[0]) {
        (if after_blank {
            Seq::empty()
        } else {
            seq!['\n']
        }) + blank_runs_collapsed(lines.drop_first(), true)
    } else {
        lines[0] + seq!['\n'] + blank_runs_collapsed(lines.drop_first(), false)
    }
}

/// Puts lines together, with one empty line for each run of blank lines.
pub fn collapse_blank_runs(lines: &Vec<String>) -> (r: String)
    ensures
        r@ == blank_runs_collapsed(texts(lines@), false),
{
    let mut text = String::new();
    let mut after_blank = false;
    let mut i: usize = 0;
    let ghost all = texts(lines@);
    proof {
        reveal_strlit("\n");
        assert("\n"@ =~= seq!['\n']);
        assert(all.skip(0) =~= all);
        assert(text@ + blank_runs_collapsed(all.skip(0), false) =~= blank_runs_collapsed(
            all,
            false,
        ));
    }
    while i < lines.len()
        invariant
            i <= lines.len(),
            all == texts(lines@),
            "\n"@ == seq!['\n'],
            text@ + blank_runs_collapsed(all.skip(i as int), after_blank) == blank_runs_collapsed(
                all,
                false,
            ),
        decreases lines.len() - i,
    {
        let ghost before = text@;
        let ghost tail = all.skip(i as int);
        proof {
            assert(tail[0] == lines@[i as int]@);
            assert(tail.drop_first() =~= all.skip(i + 1));
        }
        if blank(lines[i].as_str()) {
            if !after_blank {
                text.append("\n");
            }
            proof {
                assert(text@ + blank_runs_collapsed(all.skip(i + 1), true) =~= before
                    + blank_runs_collapsed(tail, after_blank));
            }
            after_blank = true;
        } else {
            text.append(lines[i].as_str());
            text.append("\n");
            proof {
                assert(text@ + blank_runs_collapsed(all.skip(i + 1), false) =~= before
                    + blank_runs_collapsed(tail, after_blank));
            }
            after_blank = false;
        }
        i += 1;
    }
    proof {
        assert(all.skip(i as int) =~= Seq::empty());
        assert(text@ + blank_runs_collapsed(all.skip(i as int), after_blank) =~= text@);
    }
    text
}

/// Lines with a line feed between each and the next.
pub open spec fn lines_joined(lines: Seq<Seq<char>>) -> Seq<char>
    decreases lines.len(),
{
    if lines.len() == 0 {
        Seq::empty()
    } else if lines.len() == 1 {
        lines[0]
    } else {
        lines_joined(lines.drop_last()) + seq!['\n'] + lines.last()
    }
}

/// Puts a line feed between each line and the next.
pub fn join_lines(lines: &Vec<String>) -> (r: String)
    ensures
        r@ == lines_joined(texts(lines@)),
{
    let mut text = String::new();
    let ghost all = texts(lines@);
    let mut i: usize = 0;
    proof {
        reveal_strlit("\n");
        assert("\n"@ =~= seq!['\n']);
        assert(all.take(0) =~= Seq::empty());
        assert(text@ =~= lines_joined(all.take(0)));
    }
    while i < lines.len()
        invariant
            i <= lines.len(),
            all == texts(lines@),
            "\n"@ == seq!['\n'],
            text@ == lines_joined(all.take(i as int)),
        decreases lines.len() - i,
    {
        proof {
            let next = all.take(i + 1);
            assert(next.drop_last() =~= all.take(i as int));
            assert(next.last() == lines@[i as int]@);
            if i == 0 {
                assert(lines_joined(all.take(0)) =~= Seq::empty());
                assert(text@ + lines@[i as int]@ =~= lines@[i as int]@);
            }
        }
        if i > 0 {
            text.append("\n");
        }
        text.append(lines[i].as_str());
        i += 1;
    }
    assert(all.take(i as int) =~= all);
    text
}

/// `text` with another text in the place of each `from`.
pub open spec fn replaced(text: Seq<char>, from: char, to: Seq<char>) -> Seq<char>
    decreases text.len(),
{
    if text.len() == 0 {
        text
    } else {
        replaced(text.drop_last(), from, to) + (if text.last() == from {
            to
        } else {
            seq![text.last()]
        })
    }
}

/// Calls `str::replace`, which puts a text in the place of each occurrence of a character.
#[verifier::external_body]
pub(crate) fn replace(text: &str, from: char, to: &str) -> (r: String)
    ensures
        r@ == replaced(text@, from, to@),
{
    text.replace(from, to)
}

/// The text that `str::to_lowercase` makes of a text.
pub uninterp spec fn lowercase(text: Seq<char>) -> Seq<char>;

/// Whether a text holds ASCII characters only.
pub open spec fn is_ascii_text(text: Seq<char>) -> bool {
    forall|i: int| 0 <= i < text.len() ==> (#[trigger] text[i]) as u32 <= 0x7f
}

/// Calls `str::to_lowercase`, which writes a text in small letters by the rules of
/// Unicode. Those map an ASCII letter to the small ASCII letter, and leave the other
/// ASCII characters as they are.
#[verifier::external_body]
pub(crate) fn to_lowercase(text: &str) -> (r: String)
    ensures
        r@ == lowercase(text@),
        is_ascii_text(text@) ==> r@ == text@.map_values(|c: char| ascii_lower(c)),
{
    text.to_lowercase()
}

/// Calls `str::split_once`, which parts a text at the first occurrence of a character.
#[verifier::external_body]
pub(crate) fn split_once(text: &str, c: char) -> (r: Option<(&str, &str)>)
    ensures
        match r {
            Some((before, after)) => first_place(text@, c) matches Some(i) && before@
                == text@.take(i) && after@ == text@.skip(i + 1),
            None => first_place(text@, c) is None,
        },
{
    text.split_once(c)
}

} // verus!
