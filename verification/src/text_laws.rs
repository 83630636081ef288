//! What holds of texts that are made tidy: the white space at their ends, and their blank
//! lines.
use vstd::prelude::*;

use crate::common_config::{
    common_part, is_common_text, is_kept_text, snippet_extracted, tidied,
};
use crate::text::{
    blank_runs_collapsed, first_place, is_blank, is_white_space, split_lines, trimmed,
    without_carriage_return,
};
use crate::toml_doc::{parsed_text, parsed_toml, TomlView};

verus! {

/// A text is blank where each of its characters is white space.
pub proof fn lemma_blank(text: Seq<char>)
    ensures
        is_blank(text) <==> forall|i: int|
            0 <= i < text.len() ==> is_white_space(#[trigger] text[i]),
    decreases text.len(),
{
    if text.len() > 0 {
        if is_white_space(text[0]) {
            let rest = text.drop_first();
            lemma_blank(rest);
            if forall|i: int| 0 <= i < rest.len() ==> is_white_space(#[trigger] rest[i]) {
                assert forall|i: int| 0 <= i < text.len() implies is_white_space(
                    #[trigger] text[i],
                ) by {
                    if i > 0 {
                        assert(rest[i - 1] == text[i]);
                    }
                }
            }
            if forall|i: int| 0 <= i < text.len() ==> is_white_space(#[trigger] text[i]) {
                assert forall|i: int| 0 <= i < rest.len() implies is_white_space(
                    #[trigger] rest[i],
                ) by {
                    assert(rest[i] == text[i + 1]);
                }
            }
        } else if is_white_space(text.last()) {
            let rest = text.drop_last();
            lemma_blank(rest);
            assert(rest[0] == text[0]);
        }
    }
}

/// A text that was trimmed has no white space at its ends.
pub proof fn lemma_trimmed_twice(text: Seq<char>)
    ensures
        trimmed(trimmed(text)) == trimmed(text),
    decreases text.len(),
{
    if text.len() > 0 {
        if is_white_space(text[0]) {
            lemma_trimmed_twice(text.drop_first());
        } else if is_white_space(text.last()) {
            lemma_trimmed_twice(text.drop_last());
        }
    }
}

/// White space at the end of a text is taken off.
proof fn lemma_trimmed_end(text: Seq<char>, c: char)
    requires
        is_white_space(c),
    ensures
        trimmed(text.push(c)) == trimmed(text),
    decreases text.len(),
{
    let longer = text.push(c);
    if text.len() == 0 {
        assert(longer.drop_first() =~= text);
    } else {
        assert(longer[0] == text[0]);
        if is_white_space(text[0]) {
            assert(longer.drop_first() =~= text.drop_first().push(c));
            lemma_trimmed_end(text.drop_first(), c);
        } else {
            assert(longer.drop_last() =~= text);
        }
    }
}

/// Where a character is first found, it stands there and nowhere before; where it is not
/// found, it stands nowhere.
proof fn lemma_first_place(text: Seq<char>, c: char)
    ensures
        match first_place(text, c) {
            Some(i) => {
                &&& 0 <= i < text.len()
                &&& text[i] == c
                &&& forall|j: int| 0 <= j < i ==> #[trigger] text[j] != c
            },
            None => forall|j: int| 0 <= j < text.len() ==> #[trigger] text[j] != c,
        },
    decreases text.len(),
{
    if text.len() > 0 && text[0] != c {
        let rest = text.drop_first();
        lemma_first_place(rest, c);
        assert forall|j: int| 0 < j < text.len() implies #[trigger] text[j] == rest[j - 1] by {}
    }
}

/// A character that stands at a place and nowhere before is first found there.
proof fn lemma_found_at(text: Seq<char>, c: char, place: int)
    requires
        0 <= place < text.len(),
        text[place] == c,
        forall|j: int| 0 <= j < place ==> #[trigger] text[j] != c,
    ensures
        first_place(text, c) == Some(place),
{
    lemma_first_place(text, c);
}

/// A line and the carriage return at its end are blank together.
proof fn lemma_carriage_return_is_blank(line: Seq<char>)
    ensures
        is_blank(without_carriage_return(line)) == is_blank(line),
{
    let rest = without_carriage_return(line);
    lemma_blank(line);
    lemma_blank(rest);
    if line.len() > 0 && line.last() == '\r' {
        assert forall|i: int| 0 <= i < rest.len() implies rest[i] == #[trigger] line[i] by {}
        if forall|i: int| 0 <= i < rest.len() ==> is_white_space(#[trigger] rest[i]) {
            assert forall|i: int| 0 <= i < line.len() implies is_white_space(
                #[trigger] line[i],
            ) by {
                if i < rest.len() {
                    assert(rest[i] == line[i]);
                }
            }
        }
    }
}

/// A text that begins with a line and a line feed has that line first.
proof fn lemma_split_first(line: Seq<char>, rest: Seq<char>)
    requires
        !line.contains('\n'),
    ensures
        split_lines(line + seq!['\n'] + rest) == seq![without_carriage_return(line)] + split_lines(
            rest,
        ),
{
    let text = line + seq!['\n'] + rest;
    assert forall|j: int| 0 <= j < line.len() implies #[trigger] text[j] != '\n' by {
        assert(line.contains(line[j]));
    }
    lemma_found_at(text, '\n', line.len() as int);
    assert(text.take(line.len() as int) =~= line);
    assert(text.skip((line.len() + 1) as int) =~= rest);
}

/// The lines of a text hold no line feed.
proof fn lemma_lines_hold_no_feed(text: Seq<char>)
    ensures
        forall|i: int|
            0 <= i < split_lines(text).len() ==> !(#[trigger] split_lines(text)[i]).contains('\n'),
    decreases text.len(),
{
    if text.len() > 0 {
        lemma_first_place(text, '\n');
        match first_place(text, '\n') {
            Some(place) => {
                let first = text.take(place);
                let rest = text.skip(place + 1);
                lemma_lines_hold_no_feed(rest);
                let line = without_carriage_return(first);
                assert(!line.contains('\n')) by {
                    if line.contains('\n') {
                        let j = choose|j: int| 0 <= j < line.len() && line[j] == '\n';
                        assert(text[j] == '\n');
                    }
                }
                assert(split_lines(text) == seq![line] + split_lines(rest));
                assert forall|i: int| 0 <= i < split_lines(text).len() implies !(
                #[trigger] split_lines(text)[i]).contains('\n') by {
                    if i > 0 {
                        assert(split_lines(text)[i] == split_lines(rest)[i - 1]);
                    }
                }
            },
            None => {
                if text.contains('\n') {
                    let j = choose|j: int| 0 <= j < text.len() && text[j] == '\n';
                    assert(text[j] == '\n');
                }
            },
        }
    }
}

/// Whether no two lines in a row are blank.
pub open spec fn no_blank_pair(lines: Seq<Seq<char>>) -> bool {
    forall|i: int, j: int|
        0 <= i && j == i + 1 && j < lines.len() && is_blank(#[trigger] lines[i]) ==> !is_blank(
            #[trigger] lines[j],
        )
}

/// Whether the blank lines are empty.
pub open spec fn blank_lines_are_empty(lines: Seq<Seq<char>>) -> bool {
    forall|i: int|
        0 <= i < lines.len() && is_blank(#[trigger] lines[i]) ==> lines[i].len() == 0
}

/// A line before others.
proof fn lemma_line_before(line: Seq<char>, lines: Seq<Seq<char>>)
    requires
        no_blank_pair(lines),
        is_blank(line) && lines.len() > 0 ==> !is_blank(lines[0]),
    ensures
        no_blank_pair(seq![line] + lines),
{
    let all = seq![line] + lines;
    assert forall|i: int, j: int|
        0 <= i && j == i + 1 && j < all.len() && is_blank(#[trigger] all[i]) implies !is_blank(
        #[trigger] all[j],
    ) by {
        assert(all[j] == lines[j - 1]);
        if i > 0 {
            assert(all[i] == lines[i - 1]);
        }
    }
}

/// Where runs of blank lines have been collapsed, no two lines in a row are blank, and the
/// blank ones are empty. After a blank line, what follows does not begin with another.
proof fn lemma_collapsed(lines: Seq<Seq<char>>, after_blank: bool)
    requires
        forall|i: int| 0 <= i < lines.len() ==> !(#[trigger] lines[i]).contains('\n'),
    ensures
        ({
            let kept = split_lines(blank_runs_collapsed(lines, after_blank));
            &&& no_blank_pair(kept)
            &&& blank_lines_are_empty(kept)
            &&& after_blank && kept.len() > 0 ==> !is_blank(kept[0])
        }),
    decreases lines.len(),
{
    if lines.len() > 0 {
        let rest = lines.drop_first();
        assert forall|i: int| 0 <= i < rest.len() implies !(#[trigger] rest[i]).contains('\n') by {
            assert(rest[i] == lines[i + 1]);
        }
        let line = lines[0];
        if is_blank(line) {
            lemma_collapsed(rest, true);
            let tail = blank_runs_collapsed(rest, true);
            if after_blank {
                assert(Seq::<char>::empty() + tail =~= tail);
            } else {
                let none = Seq::<char>::empty();
                assert(seq!['\n'] + tail =~= none + seq!['\n'] + tail);
                lemma_split_first(none, tail);
                lemma_line_before(none, split_lines(tail));
                let kept = split_lines(blank_runs_collapsed(lines, after_blank));
                assert(kept == seq![none] + split_lines(tail));
                assert forall|i: int|
                    0 <= i < kept.len() && is_blank(#[trigger] kept[i]) implies kept[i].len()
                    == 0 by {
                    if i > 0 {
                        assert(kept[i] == split_lines(tail)[i - 1]);
                    }
                }
            }
        } else {
            lemma_collapsed(rest, false);
            let tail = blank_runs_collapsed(rest, false);
            lemma_split_first(line, tail);
            lemma_carriage_return_is_blank(line);
            let first = without_carriage_return(line);
            lemma_line_before(first, split_lines(tail));
            let kept = split_lines(blank_runs_collapsed(lines, after_blank));
            assert(kept == seq![first] + split_lines(tail));
            assert forall|i: int|
                0 <= i < kept.len() && is_blank(#[trigger] kept[i]) implies kept[i].len() == 0 by {
                if i > 0 {
                    assert(kept[i] == split_lines(tail)[i - 1]);
                }
            }
        }
    }
}

/// Whether some lines are as many of others from the first, each as blank as the other.
spec fn as_blank(some: Seq<Seq<char>>, others: Seq<Seq<char>>) -> bool {
    &&& some.len() <= others.len()
    &&& forall|i: int|
        0 <= i < some.len() ==> is_blank(#[trigger] some[i]) == is_blank(others[i])
}

/// Whether some lines are as many of others from the first, each empty where it is blank
/// and the other is empty.
spec fn as_empty(some: Seq<Seq<char>>, others: Seq<Seq<char>>) -> bool {
    &&& some.len() <= others.len()
    &&& forall|i: int|
        0 <= i < some.len() && is_blank(#[trigger] some[i]) && others[i].len() == 0
            ==> some[i].len() == 0
}

/// A text of one line without the white space at its end.
proof fn lemma_end_of_line(text: Seq<char>)
    requires
        text.len() > 0,
        is_white_space(text.last()),
    ensures
        is_blank(text.drop_last()) == is_blank(text),
{
    let rest = text.drop_last();
    lemma_blank(text);
    lemma_blank(rest);
    assert forall|i: int| 0 <= i < rest.len() implies rest[i] == #[trigger] text[i] by {}
    if forall|i: int| 0 <= i < rest.len() ==> is_white_space(#[trigger] rest[i]) {
        assert forall|i: int| 0 <= i < text.len() implies is_white_space(#[trigger] text[i]) by {
            if i < rest.len() {
                assert(rest[i] == text[i]);
            }
        }
    }
}

/// White space at the end of a text counts for none of its other lines.
proof fn lemma_lines_without_end(text: Seq<char>)
    requires
        text.len() > 0,
        is_white_space(text.last()),
    ensures
        as_blank(split_lines(text.drop_last()), split_lines(text)),
        !text.contains('\r') ==> as_empty(split_lines(text.drop_last()), split_lines(text)),
    decreases text.len(),
{
    let short = text.drop_last();
    lemma_first_place(text, '\n');
    lemma_first_place(short, '\n');
    match first_place(text, '\n') {
        None => {
            lemma_end_of_line(text);
            if short.len() > 0 {
                if let Some(j) = first_place(short, '\n') {
                    assert(text[j] == '\n');
                }
                assert(split_lines(short) == seq![short]);
            }
        },
        Some(place) => {
            let line = text.take(place);
            let rest = text.skip(place + 1);
            assert(split_lines(text) == seq![without_carriage_return(line)] + split_lines(rest));
            lemma_carriage_return_is_blank(line);
            if place == text.len() - 1 {
                assert(short =~= line);
                if short.len() > 0 {
                    if let Some(j) = first_place(short, '\n') {
                        assert(text[j] == '\n');
                    }
                    assert(split_lines(short) == seq![short]);
                    if line.last() == '\r' {
                        assert(text[place - 1] == '\r');
                    }
                }
            } else {
                assert(short[place] == '\n');
                assert forall|j: int| 0 <= j < place implies #[trigger] short[j] != '\n' by {
                    assert(text[j] != '\n');
                }
                lemma_found_at(short, '\n', place);
                assert(short.take(place) =~= line);
                assert(short.skip(place + 1) =~= rest.drop_last());
                assert(rest.last() == text.last());
                lemma_lines_without_end(rest);
                let some = split_lines(short);
                let others = split_lines(text);
                assert(some == seq![without_carriage_return(line)] + split_lines(rest.drop_last()));
                assert forall|i: int| 0 < i < some.len() implies #[trigger] some[i] == split_lines(
                    rest.drop_last(),
                )[i - 1] && others[i] == split_lines(rest)[i - 1] by {}
                if rest.contains('\r') {
                    let j = choose|j: int| 0 <= j < rest.len() && rest[j] == '\r';
                    assert(text[place + 1 + j] == '\r');
                }
            }
        },
    }
}

/// White space at the start of a text counts for none of its other lines.
proof fn lemma_lines_without_start(text: Seq<char>)
    requires
        text.len() > 0,
        is_white_space(text[0]),
    ensures
        no_blank_pair(split_lines(text)) ==> no_blank_pair(split_lines(text.drop_first())),
        !text.contains('\r') && blank_lines_are_empty(split_lines(text)) ==> blank_lines_are_empty(
            split_lines(text.drop_first()),
        ),
{
    let short = text.drop_first();
    let some = split_lines(short);
    let others = split_lines(text);
    lemma_first_place(text, '\n');
    lemma_first_place(short, '\n');
    match first_place(text, '\n') {
        None => {
            if let Some(j) = first_place(short, '\n') {
                assert(text[j + 1] == '\n');
            }
            if short.len() > 0 {
                assert(some == seq![short]);
                assert(others == seq![text]);
                assert(others[0] == text);
            }
        },
        Some(place) => {
            let line = text.take(place);
            let tail = split_lines(text.skip(place + 1));
            assert(others == seq![without_carriage_return(line)] + tail);
            if place == 0 {
                assert(text.skip(1) =~= short);
                assert(some == tail);
                assert forall|i: int| 0 <= i < some.len() implies #[trigger] some[i] == others[i
                    + 1] by {}
                if no_blank_pair(others) {
                    assert forall|i: int, j: int|
                        0 <= i && j == i + 1 && j < some.len() && is_blank(
                            #[trigger] some[i],
                        ) implies !is_blank(#[trigger] some[j]) by {
                        assert(some[i] == others[i + 1] && some[j] == others[j + 1]);
                    }
                }
            } else {
                assert(short[place - 1] == '\n');
                assert forall|j: int| 0 <= j < place - 1 implies #[trigger] short[j] != '\n' by {
                    assert(text[j + 1] != '\n');
                }
                lemma_found_at(short, '\n', place - 1);
                let first = short.take(place - 1);
                assert(first =~= line.drop_first());
                assert(short.skip(place) =~= text.skip(place + 1));
                assert(some == seq![without_carriage_return(first)] + tail);
                assert(line[0] == text[0]);
                lemma_carriage_return_is_blank(line);
                lemma_carriage_return_is_blank(first);
                assert(is_blank(first) == is_blank(line));
                assert(is_blank(some[0]) == is_blank(others[0]));
                assert forall|i: int| 0 < i < some.len() implies #[trigger] some[i]
                    == others[i] by {}
                if line.last() == '\r' {
                    assert(text[place - 1] == '\r');
                }
                assert(others[0] == without_carriage_return(line));
                if no_blank_pair(others) {
                    assert forall|i: int, j: int|
                        0 <= i && j == i + 1 && j < some.len() && is_blank(
                            #[trigger] some[i],
                        ) implies !is_blank(#[trigger] some[j]) by {
                        assert(is_blank(others[i]) && some[j] == others[j]);
                    }
                }
            }
        },
    }
}

/// Blank lines do not come to stand next to each other when a text is trimmed, nor do they
/// get filled.
proof fn lemma_lines_trimmed(text: Seq<char>)
    ensures
        no_blank_pair(split_lines(text)) ==> no_blank_pair(split_lines(trimmed(text))),
        !text.contains('\r') && blank_lines_are_empty(split_lines(text)) ==> blank_lines_are_empty(
            split_lines(trimmed(text)),
        ),
        !text.contains('\r') ==> !trimmed(text).contains('\r'),
    decreases text.len(),
{
    if text.len() > 0 {
        if is_white_space(text[0]) {
            let short = text.drop_first();
            lemma_lines_without_start(text);
            lemma_lines_trimmed(short);
            if short.contains('\r') {
                let j = choose|j: int| 0 <= j < short.len() && short[j] == '\r';
                assert(text[j + 1] == '\r');
            }
        } else if is_white_space(text.last()) {
            let short = text.drop_last();
            lemma_lines_without_end(text);
            lemma_lines_trimmed(short);
            if short.contains('\r') {
                let j = choose|j: int| 0 <= j < short.len() && short[j] == '\r';
                assert(text[j] == '\r');
            }
            let some = split_lines(short);
            let others = split_lines(text);
            if no_blank_pair(others) {
                assert forall|i: int, j: int|
                    0 <= i && j == i + 1 && j < some.len() && is_blank(
                        #[trigger] some[i],
                    ) implies !is_blank(#[trigger] some[j]) by {
                    assert(is_blank(others[i]) && is_blank(some[j]) == is_blank(others[j]));
                }
            }
            if !text.contains('\r') && blank_lines_are_empty(others) {
                assert forall|i: int|
                    0 <= i < some.len() && is_blank(#[trigger] some[i]) implies some[i].len()
                    == 0 by {
                    assert(is_blank(others[i]));
                }
            }
        }
    }
}

/// The lines of a text hold no character that the text does not.
proof fn lemma_lines_hold_no_other(text: Seq<char>, c: char)
    requires
        !text.contains(c),
    ensures
        forall|i: int|
            0 <= i < split_lines(text).len() ==> !(#[trigger] split_lines(text)[i]).contains(c),
    decreases text.len(),
{
    if text.len() > 0 {
        lemma_first_place(text, '\n');
        if let Some(place) = first_place(text, '\n') {
            let first = text.take(place);
            let line = without_carriage_return(first);
            let rest = text.skip(place + 1);
            if rest.contains(c) {
                let j = choose|j: int| 0 <= j < rest.len() && rest[j] == c;
                assert(text[place + 1 + j] == c);
            }
            if line.contains(c) {
                let j = choose|j: int| 0 <= j < line.len() && line[j] == c;
                assert(text[j] == c);
            }
            lemma_lines_hold_no_other(rest, c);
            assert(split_lines(text) == seq![line] + split_lines(rest));
            assert forall|i: int| 0 <= i < split_lines(text).len() implies !(
            #[trigger] split_lines(text)[i]).contains(c) by {
                if i > 0 {
                    assert(split_lines(text)[i] == split_lines(rest)[i - 1]);
                }
            }
        }
    }
}

/// Lines that are put together again hold no character that none of them does, but line
/// feeds.
proof fn lemma_collapsed_holds_no_other(lines: Seq<Seq<char>>, after_blank: bool, c: char)
    requires
        c != '\n',
        forall|i: int| 0 <= i < lines.len() ==> !(#[trigger] lines[i]).contains(c),
    ensures
        !blank_runs_collapsed(lines, after_blank).contains(c),
    decreases lines.len(),
{
    if lines.len() > 0 {
        let rest = lines.drop_first();
        let line = lines[0];
        assert forall|i: int| 0 <= i < rest.len() implies !(#[trigger] rest[i]).contains(c) by {
            assert(rest[i] == lines[i + 1]);
        }
        lemma_collapsed_holds_no_other(rest, is_blank(line), c);
        let tail = blank_runs_collapsed(rest, is_blank(line));
        let all = blank_runs_collapsed(lines, after_blank);
        if all.contains(c) {
            let j = choose|j: int| 0 <= j < all.len() && all[j] == c;
            let head = all.len() - tail.len();
            if j >= head {
                assert(tail[j - head] == c);
            } else if !is_blank(line) && j < line.len() {
                assert(line[j] == c);
            }
        }
    }
}

/// Nothing is collapsed where no two lines in a row are blank and blank lines are empty; the
/// text may get a line feed at its end.
proof fn lemma_nothing_to_collapse(text: Seq<char>, after_blank: bool)
    requires
        !text.contains('\r'),
        no_blank_pair(split_lines(text)),
        blank_lines_are_empty(split_lines(text)),
        after_blank && split_lines(text).len() > 0 ==> !is_blank(split_lines(text)[0]),
    ensures
        ({
            let collapsed = blank_runs_collapsed(split_lines(text), after_blank);
            collapsed == text || collapsed == text.push('\n')
        }),
    decreases text.len(),
{
    let all = split_lines(text);
    if text.len() == 0 {
        assert(blank_runs_collapsed(all, after_blank) =~= text);
    } else {
        lemma_first_place(text, '\n');
        match first_place(text, '\n') {
            None => {
                assert(all == seq![text]);
                assert(all[0] == text);
                assert(all.drop_first() =~= Seq::empty());
                assert(blank_runs_collapsed(all.drop_first(), false) =~= Seq::empty());
                assert(blank_runs_collapsed(all, after_blank) =~= text.push('\n'));
            },
            Some(place) => {
                let line = text.take(place);
                let rest = text.skip(place + 1);
                let tail = split_lines(rest);
                if line.len() > 0 && line.last() == '\r' {
                    assert(text[place - 1] == '\r');
                }
                assert(all == seq![line] + tail);
                assert(all[0] == line);
                assert(all.drop_first() =~= tail);
                assert forall|i: int| 0 <= i < tail.len() implies #[trigger] tail[i] == all[i
                    + 1] by {}
                assert forall|i: int, j: int|
                    0 <= i && j == i + 1 && j < tail.len() && is_blank(
                        #[trigger] tail[i],
                    ) implies !is_blank(#[trigger] tail[j]) by {
                    assert(tail[i] == all[i + 1] && tail[j] == all[j + 1]);
                }
                if is_blank(line) && tail.len() > 0 {
                    assert(!is_blank(all[1]));
                }
                if rest.contains('\r') {
                    let j = choose|j: int| 0 <= j < rest.len() && rest[j] == '\r';
                    assert(text[place + 1 + j] == '\r');
                }
                lemma_nothing_to_collapse(rest, is_blank(line));
                let collapsed = blank_runs_collapsed(tail, is_blank(line));
                assert(line + seq!['\n'] + rest =~= text);
                assert(blank_runs_collapsed(all, after_blank) =~= line + seq!['\n'] + collapsed);
                assert(line + seq!['\n'] + rest.push('\n') =~= text.push('\n'));
            },
        }
    }
}

/// A line feed at the end of the last line adds no line.
proof fn lemma_lines_with_feed(text: Seq<char>)
    requires
        !text.contains('\r'),
        text.len() > 0 ==> text.last() != '\n',
    ensures
        split_lines(text.push('\n')) == (if text.len() == 0 {
            seq![text]
        } else {
            split_lines(text)
        }),
    decreases text.len(),
{
    let longer = text.push('\n');
    lemma_first_place(text, '\n');
    match first_place(text, '\n') {
        None => {
            if text.contains('\n') {
                let j = choose|j: int| 0 <= j < text.len() && text[j] == '\n';
                assert(text[j] == '\n');
            }
            assert(longer =~= text + seq!['\n'] + Seq::empty());
            lemma_split_first(text, Seq::empty());
            if text.len() > 0 && text.last() == '\r' {
                assert(text[text.len() - 1] == '\r');
            }
            assert(split_lines(longer) =~= seq![text]);
        },
        Some(place) => {
            let line = text.take(place);
            let rest = text.skip(place + 1);
            assert(longer =~= line + seq!['\n'] + rest.push('\n'));
            assert(!line.contains('\n')) by {
                if line.contains('\n') {
                    let j = choose|j: int| 0 <= j < line.len() && line[j] == '\n';
                    assert(text[j] == '\n');
                }
            }
            lemma_split_first(line, rest.push('\n'));
            if rest.contains('\r') {
                let j = choose|j: int| 0 <= j < rest.len() && rest[j] == '\r';
                assert(text[place + 1 + j] == '\r');
            }
            assert(rest.len() > 0) by {
                if rest.len() == 0 {
                    assert(text[text.len() - 1] == '\n');
                }
            }
            assert(rest.last() == text.last());
            lemma_lines_with_feed(rest);
        },
    }
}

/// A tidy text has no two blank lines in a row, and no white space at its ends.
pub proof fn law_tidied_text_is_tidy(text: Seq<char>)
    ensures
        trimmed(tidied(text)) == tidied(text),
        no_blank_pair(split_lines(tidied(text))),
{
    let collapsed = blank_runs_collapsed(split_lines(text), false);
    lemma_lines_hold_no_feed(text);
    lemma_collapsed(split_lines(text), false);
    lemma_lines_trimmed(collapsed);
    lemma_trimmed_twice(collapsed);
}

/// A text without carriage returns that has been made tidy stays as it is when it is made
/// tidy again, even with a line feed at its end.
pub proof fn law_tidied_once(text: Seq<char>)
    requires
        !text.contains('\r'),
    ensures
        tidied(tidied(text)) == tidied(text),
        tidied(tidied(text).push('\n')) == tidied(text),
{
    let collapsed = blank_runs_collapsed(split_lines(text), false);
    let tidy = tidied(text);
    law_tidied_text_is_tidy(text);
    lemma_lines_hold_no_feed(text);
    lemma_collapsed(split_lines(text), false);
    lemma_lines_hold_no_other(text, '\r');
    lemma_collapsed_holds_no_other(split_lines(text), false, '\r');
    lemma_lines_trimmed(collapsed);
    lemma_nothing_to_collapse(tidy, false);
    lemma_trimmed_end(tidy, '\n');
    assert(tidied(tidy) == tidy);
    if tidy.len() > 0 {
        assert(!is_white_space(tidy.last())) by {
            if is_white_space(tidy.last()) {
                lemma_trimmed_shorter(tidy);
            }
        }
    }
    lemma_lines_with_feed(tidy);
    let longer = tidy.push('\n');
    if tidy.len() == 0 {
        assert(split_lines(longer)[0] == tidy);
        assert(!longer.contains('\r'));
    } else if longer.contains('\r') {
        let j = choose|j: int| 0 <= j < longer.len() && longer[j] == '\r';
        assert(tidy[j] == '\r');
    }
    lemma_nothing_to_collapse(longer, false);
    lemma_trimmed_end(longer, '\n');
}

/// A text that ends in white space gets shorter when it is trimmed.
proof fn lemma_trimmed_shorter(text: Seq<char>)
    requires
        text.len() > 0,
        is_white_space(text.last()),
    ensures
        trimmed(text).len() < text.len(),
{
    if is_white_space(text[0]) {
        lemma_trimmed_length(text.drop_first());
    } else {
        lemma_trimmed_length(text.drop_last());
    }
}

/// A text does not get longer when it is trimmed.
proof fn lemma_trimmed_length(text: Seq<char>)
    ensures
        trimmed(text).len() <= text.len(),
    decreases text.len(),
{
    if text.len() > 0 {
        if is_white_space(text[0]) {
            lemma_trimmed_length(text.drop_first());
        } else if is_white_space(text.last()) {
            lemma_trimmed_length(text.drop_last());
        }
    }
}

/// The common snippet that a configuration gives has no two blank lines in a row, and no
/// white space at its ends.
pub proof fn law_extracted_snippet_is_tidy(config_toml: Seq<char>, snippet: Seq<char>)
    requires
        snippet_extracted(config_toml, Ok(snippet)),
    ensures
        trimmed(snippet) == snippet,
        no_blank_pair(split_lines(snippet)),
{
    if !is_blank(config_toml) {
        let config = parsed_toml(trimmed(config_toml))->0;
        let written = choose|written: Seq<char>| #[trigger]
            is_common_text(written, trimmed(config_toml), config) && snippet == tidied(written);
        law_tidied_text_is_tidy(written);
    }
}

/// The common part of a configuration has nothing that is not common.
proof fn lemma_common_part_once(config: TomlView)
    ensures
        common_part(common_part(config)) == common_part(config),
{
    let part = common_part(config);
    assert(common_part(part).members() =~= part.members());
}

/// The common snippet that a configuration gives, gives itself. Its reader finds in it
/// what was written, it is written as it was read, but for a line feed at its end, and
/// there are no carriage returns.
pub proof fn law_extracted_once(
    config_toml: Seq<char>,
    written: Seq<char>,
    snippet: Seq<char>,
    again: Seq<char>,
)
    requires
        !is_blank(config_toml),
        parsed_toml(trimmed(config_toml)) matches Some(config) && is_common_text(
            written,
            trimmed(config_toml),
            config,
        ) && parsed_toml(snippet) == Some(common_part(config)),
        !written.contains('\r'),
        snippet == tidied(written),
        parsed_text(snippet) == snippet || parsed_text(snippet) == snippet.push('\n'),
        snippet_extracted(snippet, Ok(again)),
    ensures
        again == snippet,
{
    law_tidied_text_is_tidy(written);
    law_tidied_once(written);
    if is_blank(snippet) {
        assert(again =~= snippet);
    } else {
        let config = parsed_toml(trimmed(config_toml))->0;
        lemma_common_part_once(config);
        assert(is_kept_text(again, snippet, common_part(config)));
    }
}

/// The characters of a text that are no white space, in order.
pub open spec fn ink(text: Seq<char>) -> Seq<char> {
    text.filter(|c: char| !is_white_space(c))
}

/// The characters of lines that are no white space, in order.
spec fn ink_of_lines(lines: Seq<Seq<char>>) -> Seq<char>
    decreases lines.len(),
{
    if lines.len() == 0 {
        Seq::empty()
    } else {
        ink(lines[0]) + ink_of_lines(lines.drop_first())
    }
}

/// The characters that are no white space, of two texts and of a single character.
proof fn lemma_ink_parts(left: Seq<char>, c: char, right: Seq<char>)
    ensures
        ink(left + right) == ink(left) + ink(right),
        is_white_space(c) ==> ink(seq![c]) == Seq::<char>::empty(),
        ink(Seq::empty()) == Seq::<char>::empty(),
{
    let visible = |c: char| !is_white_space(c);
    Seq::filter_distributes_over_add(left, right, visible);
    reveal_with_fuel(Seq::filter, 2);
    assert(seq![c].drop_last() =~= Seq::empty());
}

/// A blank text has nothing but white space.
proof fn lemma_blank_ink(text: Seq<char>)
    requires
        is_blank(text),
    ensures
        ink(text) == Seq::<char>::empty(),
{
    lemma_trimmed_ink(text);
    lemma_ink_parts(text, ' ', text);
    assert(trimmed(text) =~= Seq::empty());
}

/// Trimming takes nothing but white space.
proof fn lemma_trimmed_ink(text: Seq<char>)
    ensures
        ink(trimmed(text)) == ink(text),
    decreases text.len(),
{
    if text.len() > 0 {
        if is_white_space(text[0]) {
            let rest = text.drop_first();
            lemma_trimmed_ink(rest);
            lemma_ink_parts(seq![text[0]], text[0], rest);
            assert(text =~= seq![text[0]] + rest);
            assert(ink(text) =~= ink(rest));
        } else if is_white_space(text.last()) {
            let rest = text.drop_last();
            lemma_trimmed_ink(rest);
            lemma_ink_parts(rest, text.last(), seq![text.last()]);
            assert(text =~= rest + seq![text.last()]);
            assert(ink(text) =~= ink(rest));
        }
    }
}

/// Splitting a text into lines takes nothing but white space.
proof fn lemma_lines_ink(text: Seq<char>)
    ensures
        ink_of_lines(split_lines(text)) == ink(text),
    decreases text.len(),
{
    lemma_ink_parts(text, ' ', text);
    if text.len() > 0 {
        lemma_first_place(text, '\n');
        match first_place(text, '\n') {
            Some(i) => {
                let raw = text.take(i);
                let line = without_carriage_return(raw);
                let rest = text.skip(i + 1);
                lemma_lines_ink(rest);
                assert(text =~= raw + (seq!['\n'] + rest));
                lemma_ink_parts(raw, '\n', seq!['\n'] + rest);
                lemma_ink_parts(seq!['\n'], '\n', rest);
                if raw.len() > 0 && raw.last() == '\r' {
                    assert(raw =~= line + seq!['\r']);
                    lemma_ink_parts(line, '\r', seq!['\r']);
                    assert(ink(raw) =~= ink(line));
                }
                let lines = split_lines(text);
                assert(lines =~= seq![line] + split_lines(rest));
                assert(lines.drop_first() =~= split_lines(rest));
                assert(ink(text) =~= ink(line) + ink(rest));
            },
            None => {
                let lines = split_lines(text);
                assert(lines.drop_first() =~= Seq::empty());
                assert(ink_of_lines(lines.drop_first()) == Seq::<char>::empty());
                assert(ink_of_lines(lines) =~= ink(text));
            },
        }
    } else {
        assert(text =~= Seq::empty());
    }
}

/// Putting lines together with one empty line for each run of blank ones takes nothing but
/// white space.
proof fn lemma_collapsed_ink(lines: Seq<Seq<char>>, after_blank: bool)
    ensures
        ink(blank_runs_collapsed(lines, after_blank)) == ink_of_lines(lines),
    decreases lines.len(),
{
    lemma_ink_parts(Seq::empty(), '\n', Seq::empty());
    if lines.len() > 0 {
        let rest = lines.drop_first();
        if is_blank(lines[0]) {
            lemma_blank_ink(lines[0]);
            lemma_collapsed_ink(rest, true);
            let after = blank_runs_collapsed(rest, true);
            lemma_ink_parts(seq!['\n'], '\n', after);
            assert(Seq::<char>::empty() + after =~= after);
            assert(ink(blank_runs_collapsed(lines, after_blank)) =~= ink_of_lines(lines));
        } else {
            lemma_collapsed_ink(rest, false);
            let after = blank_runs_collapsed(rest, false);
            lemma_ink_parts(lines[0] + seq!['\n'], '\n', after);
            lemma_ink_parts(lines[0], '\n', seq!['\n']);
            assert(ink(blank_runs_collapsed(lines, after_blank)) =~= ink_of_lines(lines));
        }
    }
}

/// Making a text tidy takes nothing but white space out of it, and adds none but that.
pub proof fn law_tidying_keeps_the_ink(text: Seq<char>)
    ensures
        ink(tidied(text)) == ink(text),
{
    let lines = split_lines(text);
    lemma_lines_ink(text);
    lemma_collapsed_ink(lines, false);
    lemma_trimmed_ink(blank_runs_collapsed(lines, false));
}

} // verus!
