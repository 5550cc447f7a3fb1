//! What the pieces of a listing are, item by item.
use vstd::prelude::*;

use crate::number::{
    all_digits_spec, decimal_spec, digit_spec, is_digit_spec, number_spec, parse_unsigned_spec,
};
use crate::text::{
    after_last_spec, contains_spec, entries_spec, has_line_spec, is_char, is_space_spec, lines_spec,
    names_spec, replace_spec, split_by, split_spec, stands_at, starts_with_spec, strip_return,
    trim_prefixes_spec, trim_spec, words_spec,
};

verus! {

// ---------------------------------------------------------------------------------------------
// Pieces
// ---------------------------------------------------------------------------------------------
/// Whether a text has no character of a kind.
pub open spec fn has_none(s: Seq<char>, kind: spec_fn(char) -> bool) -> bool {
    forall|i: int| 0 <= i < s.len() ==> !kind(#[trigger] s[i])
}

/// A text without a cut is one piece.
pub proof fn plain_is_whole(s: Seq<char>, cut: spec_fn(char) -> bool)
    requires
        has_none(s, cut),
    ensures
        split_by(s, cut) == seq![s],
    decreases s.len(),
{
    if s.len() == 0 {
        assert(s =~= Seq::<char>::empty());
    } else {
        let start = s.drop_last();
        assert(has_none(start, cut)) by {
            assert forall|i: int| 0 <= i < start.len() implies !cut(#[trigger] start[i]) by {
                assert(start[i] == s[i]);
            }
        }
        plain_is_whole(start, cut);
        assert(!cut(s[s.len() - 1]));
        assert(start.push(s.last()) =~= s);
        assert(split_by(s, cut) =~= seq![s]);
    }
}

/// A cut parts the pieces before it from those after it.
pub proof fn pieces_are_cut(s: Seq<char>, c: char, t: Seq<char>, cut: spec_fn(char) -> bool)
    requires
        cut(c),
    ensures
        split_by(s.push(c) + t, cut) == split_by(s, cut) + split_by(t, cut),
    decreases t.len(),
{
    let all = s.push(c) + t;
    if t.len() == 0 {
        assert(all =~= s.push(c));
        assert(all.drop_last() =~= s);
        assert(split_by(all, cut) =~= split_by(s, cut) + split_by(t, cut));
    } else {
        pieces_are_cut(s, c, t.drop_last(), cut);
        assert(all.drop_last() =~= s.push(c) + t.drop_last());
        assert(all.last() == t.last());
        pieces_are_some(t.drop_last(), cut);
        assert(split_by(all, cut) =~= split_by(s, cut) + split_by(t, cut));
    }
}

/// There is always a piece.
pub proof fn pieces_are_some(s: Seq<char>, cut: spec_fn(char) -> bool)
    ensures
        split_by(s, cut).len() > 0,
    decreases s.len(),
{
    if s.len() > 0 {
        pieces_are_some(s.drop_last(), cut);
    }
}

/// White space.
pub open spec fn space() -> spec_fn(char) -> bool {
    |c: char| is_space_spec(c)
}

/// Of the characters of ASCII, the tab, the line feed, the carriage return and the blank are white
/// space, and no letter, digit or mark is.
pub proof fn law_white_space(c: char)
    ensures
        is_space_spec('\t') && is_space_spec('\n') && is_space_spec('\r') && is_space_spec(' '),
        33 <= c as u32 <= 126 ==> !is_space_spec(c),
{
}

/// The words of a text, word by word: white space before them does not count, and what stands
/// between two stretches of white space is a word.
pub proof fn law_words(word: Seq<char>, c: char, rest: Seq<char>)
    requires
        has_none(word, space()),
        is_space_spec(c),
    ensures
        word.len() > 0 ==> words_spec(word) == seq![word],
        word.len() > 0 ==> words_spec(word.push(c) + rest) == seq![word] + words_spec(rest),
        words_spec(seq![c] + rest) == words_spec(rest),
        words_spec(Seq::empty()) == Seq::<Seq<char>>::empty(),
{
    let cut = space();
    let full = |w: Seq<char>| w.len() > 0;
    assert(cut(c));
    plain_is_whole(word, cut);
    pieces_are_cut(word, c, rest, cut);
    let none = Seq::<char>::empty();
    pieces_are_cut(none, c, rest, cut);
    assert(none.push(c) + rest =~= seq![c] + rest);
    reveal_with_fuel(Seq::<_>::filter, 2);
    Seq::<Seq<char>>::filter_distributes_over_add(seq![word], split_by(rest, cut), full);
    Seq::<Seq<char>>::filter_distributes_over_add(seq![none], split_by(rest, cut), full);
    assert(seq![word].drop_last() =~= Seq::<Seq<char>>::empty());
    assert(seq![none].drop_last() =~= Seq::<Seq<char>>::empty());
    assert(seq![none].filter(full) =~= Seq::<Seq<char>>::empty());
    assert(Seq::<Seq<char>>::empty() + split_by(rest, cut).filter(full) =~= split_by(
        rest,
        cut,
    ).filter(full));
    if word.len() > 0 {
        assert(seq![word].filter(full) =~= seq![word]);
    }
    assert(words_spec(rest) == split_by(rest, cut).filter(full));
}

// ---------------------------------------------------------------------------------------------
// Trimming
// ---------------------------------------------------------------------------------------------
proof fn inner_is_kept(s: Seq<char>)
    requires
        s.len() > 0,
        !is_space_spec(s[0]),
        !is_space_spec(s.last()),
    ensures
        trim_spec(s) == s,
{
}

proof fn end_goes(s: Seq<char>, c: char)
    requires
        is_space_spec(c),
    ensures
        trim_spec(s.push(c)) == trim_spec(s),
    decreases s.len(),
{
    if s.len() == 0 {
        assert(s.push(c).skip(1) =~= s);
    } else if is_space_spec(s[0]) {
        assert(s.push(c).skip(1) =~= s.skip(1).push(c));
        end_goes(s.skip(1), c);
    } else {
        assert(s.push(c).drop_last() =~= s);
    }
}

/// White space around a text does not count, and white space within it does: what is left starts and
/// ends with other characters.
pub proof fn law_trim(c: char, s: Seq<char>)
    ensures
        is_space_spec(c) ==> trim_spec(s.push(c)) == trim_spec(s),
        is_space_spec(c) ==> trim_spec(seq![c] + s) == trim_spec(s),
        s.len() > 0 && !is_space_spec(s[0]) && !is_space_spec(s.last()) ==> trim_spec(s) == s,
        trim_spec(Seq::empty()) == Seq::<char>::empty(),
{
    if is_space_spec(c) {
        end_goes(s, c);
        assert((seq![c] + s).skip(1) =~= s);
    }
}

// ---------------------------------------------------------------------------------------------
// Lines
// ---------------------------------------------------------------------------------------------
/// The lines of a text, line by line: a line ends at its line feed, without a carriage return before
/// it; the last one needs none, and an empty rest is no line.
pub proof fn law_lines(line: Seq<char>, rest: Seq<char>)
    requires
        has_none(line, is_char('\n')),
    ensures
        line.len() > 0 ==> lines_spec(line) == seq![line],
        lines_spec(line.push('\n') + rest) == seq![strip_return(line)] + lines_spec(rest),
        lines_spec(line.push('\r').push('\n') + rest) == seq![line] + lines_spec(rest),
        lines_spec(Seq::empty()) == Seq::<Seq<char>>::empty(),
{
    lines_in_order(line, rest);
    let returned = line.push('\r');
    assert(has_none(returned, is_char('\n'))) by {
        assert forall|i: int| 0 <= i < returned.len() implies !is_char('\n')(
            #[trigger] returned[i],
        ) by {
            if i < line.len() {
                assert(returned[i] == line[i]);
            }
        }
    }
    lines_in_order(returned, rest);
    assert(returned.drop_last() =~= line);
    plain_is_whole(line, is_char('\n'));
    if line.len() > 0 {
        assert(lines_spec(line) =~= seq![line]);
    }
    assert(lines_spec(Seq::empty()) =~= Seq::<Seq<char>>::empty());
}

proof fn lines_in_order(line: Seq<char>, rest: Seq<char>)
    requires
        has_none(line, is_char('\n')),
    ensures
        lines_spec(line.push('\n') + rest) == seq![strip_return(line)] + lines_spec(rest),
{
    let cut = is_char('\n');
    plain_is_whole(line, cut);
    pieces_are_cut(line, '\n', rest, cut);
    pieces_are_some(rest, cut);
    let parts = split_spec(line.push('\n') + rest, '\n');
    let later = split_spec(rest, '\n');
    assert(parts =~= seq![line] + later);
    assert(parts.drop_last() =~= seq![line] + later.drop_last());
    assert(parts.last() == later.last());
    assert(lines_spec(line.push('\n') + rest) =~= seq![strip_return(line)] + lines_spec(rest));
}

proof fn return_does_not_count(line: Seq<char>)
    ensures
        trim_spec(strip_return(line)) == trim_spec(line),
{
    if line.len() > 0 && line.last() == '\r' {
        end_goes(line.drop_last(), '\r');
        assert(line.drop_last().push('\r') =~= line);
    }
}

/// The entries of a listing, line by line: each line that holds more than white space is an entry,
/// without the white space around it.
pub proof fn law_entries(line: Seq<char>, rest: Seq<char>)
    requires
        has_none(line, is_char('\n')),
    ensures
        entries_spec(line.push('\n') + rest) == if trim_spec(line).len() > 0 {
            seq![trim_spec(line)] + entries_spec(rest)
        } else {
            entries_spec(rest)
        },
        trim_spec(line).len() > 0 ==> entries_spec(line) == seq![trim_spec(line)],
        entries_spec(Seq::empty()) == Seq::<Seq<char>>::empty(),
{
    let trimmed = |l: Seq<char>| trim_spec(l);
    let full = |l: Seq<char>| l.len() > 0;
    law_lines(line, rest);
    return_does_not_count(line);
    let lines = lines_spec(line.push('\n') + rest);
    let one = seq![trim_spec(line)];
    assert(lines.map_values(trimmed) =~= one + lines_spec(rest).map_values(trimmed));
    reveal_with_fuel(Seq::<_>::filter, 2);
    Seq::<Seq<char>>::filter_distributes_over_add(
        one,
        lines_spec(rest).map_values(trimmed),
        full,
    );
    assert(one.drop_last() =~= Seq::<Seq<char>>::empty());
    if trim_spec(line).len() > 0 {
        assert(one.filter(full) =~= one);
        assert(line.len() > 0) by {
            law_trim(' ', line);
            if line.len() == 0 {
                assert(line =~= Seq::<char>::empty());
            }
        }
        assert(lines_spec(line).map_values(trimmed) =~= one);
    } else {
        assert(one.filter(full) =~= Seq::<Seq<char>>::empty());
        assert(Seq::<Seq<char>>::empty() + entries_spec(rest) =~= entries_spec(rest));
    }
    let none = Seq::<char>::empty();
    assert(lines_spec(none).map_values(trimmed) =~= Seq::<Seq<char>>::empty());
}

/// The names of a listing, line by line: of a resource and a name with a slash between them, the
/// name.
pub proof fn law_names(resource: Seq<char>, name: Seq<char>, rest: Seq<char>)
    requires
        has_none(resource, is_char('\n')),
        has_none(name, is_char('\n')),
        has_none(name, is_char('/')),
        resource.len() > 0,
        name.len() > 0,
        !is_space_spec(resource[0]),
        !is_space_spec(name.last()),
    ensures
        names_spec(resource.push('/') + name.push('\n') + rest) == seq![name] + names_spec(rest),
        names_spec(resource.push('/') + name) == seq![name],
        names_spec(Seq::empty()) == Seq::<Seq<char>>::empty(),
{
    let line = resource.push('/') + name;
    assert(has_none(line, is_char('\n'))) by {
        assert forall|i: int| 0 <= i < line.len() implies !is_char('\n')(#[trigger] line[i]) by {
            if i < resource.len() {
                assert(line[i] == resource[i]);
            } else if i > resource.len() {
                assert(line[i] == name[i - resource.len() - 1]);
            }
        }
    }
    law_lines(line, rest);
    assert(line.push('\n') + rest =~= resource.push('/') + name.push('\n') + rest);
    assert(line[0] == resource[0]);
    assert(line.last() == name.last());
    inner_is_kept(line);
    return_does_not_count(line);
    plain_is_whole(name, is_char('/'));
    pieces_are_cut(resource, '/', name, is_char('/'));
    assert(after_last_spec(line, '/') == name);
    let called = |l: Seq<char>| after_last_spec(trim_spec(l), '/');
    assert(names_spec(line.push('\n') + rest) =~= seq![name] + names_spec(rest));
    assert(names_spec(line) =~= seq![name]);
    assert(names_spec(Seq::empty()) =~= Seq::<Seq<char>>::empty());
}

/// A listing has a line where the line is its first one, or where the rest has it.
pub proof fn law_has_line(line: Seq<char>, rest: Seq<char>, wanted: Seq<char>)
    requires
        has_none(line, is_char('\n')),
    ensures
        has_line_spec(line.push('\n') + rest, wanted) <==> trim_spec(line) == wanted
            || has_line_spec(rest, wanted),
        !has_line_spec(Seq::empty(), wanted),
{
    law_lines(line, rest);
    return_does_not_count(line);
    let all = lines_spec(line.push('\n') + rest);
    let later = lines_spec(rest);
    assert(all[0] == strip_return(line));
    if has_line_spec(rest, wanted) {
        let i = choose|i: int| 0 <= i < later.len() && trim_spec(#[trigger] later[i]) == wanted;
        assert(all[i + 1] == later[i]);
    }
    if has_line_spec(line.push('\n') + rest, wanted) {
        let i = choose|i: int| 0 <= i < all.len() && trim_spec(#[trigger] all[i]) == wanted;
        if i > 0 {
            assert(all[i] == later[i - 1]);
        }
    }
}

// ---------------------------------------------------------------------------------------------
// Parts of a text
// ---------------------------------------------------------------------------------------------
/// A text contains what stands between two texts.
pub proof fn law_contains(before: Seq<char>, part: Seq<char>, after: Seq<char>)
    ensures
        contains_spec(before + part + after, part),
        starts_with_spec(part + after, part),
{
    let all = before + part + after;
    let at = before.len() as int;
    assert(all.subrange(at, at + part.len()) =~= part);
    assert(stands_at(all, part, at));
    assert((part + after).subrange(0, part.len() as int) =~= part);
}

/// Where a text stands first after what comes before it, its replacement stands there, and what
/// follows is replaced in turn; a text without it stays as it is.
pub proof fn law_replace(before: Seq<char>, from: Seq<char>, to: Seq<char>, after: Seq<char>)
    requires
        from.len() > 0,
        forall|i: int| 0 <= i < before.len() ==> !#[trigger] stands_at(
            before + from + after,
            from,
            i,
        ),
    ensures
        replace_spec(before + from + after, from, to) == before + to + replace_spec(
            after,
            from,
            to,
        ),
    decreases before.len(),
{
    let all = before + from + after;
    if before.len() == 0 {
        assert(before =~= Seq::<char>::empty());
        assert(all =~= from + after);
        law_contains(before, from, after);
        assert(all.skip(from.len() as int) =~= after);
        assert(before + to + replace_spec(after, from, to) =~= to + replace_spec(after, from, to));
    } else {
        let later = before.skip(1);
        let rest = later + from + after;
        assert(all.skip(1) =~= rest);
        assert(!stands_at(all, from, 0));
        assert forall|i: int| 0 <= i < later.len() implies !#[trigger] stands_at(rest, from, i) by {
            assert(rest.subrange(i, i + from.len()) =~= all.subrange(i + 1, i + 1 + from.len()));
            assert(!stands_at(all, from, i + 1));
        }
        law_replace(later, from, to, after);
        assert(all[0] == before[0]);
        assert(seq![all[0]] + (later + to + replace_spec(after, from, to)) =~= before + to
            + replace_spec(after, from, to));
    }
}

/// A text without another one is left as it is by its replacement.
pub proof fn law_nothing_to_replace(s: Seq<char>, from: Seq<char>, to: Seq<char>)
    requires
        !contains_spec(s, from),
    ensures
        replace_spec(s, from, to) == s,
    decreases s.len(),
{
    if from.len() > 0 && s.len() >= from.len() {
        assert(!stands_at(s, from, 0));
        let rest = s.skip(1);
        assert(!contains_spec(rest, from)) by {
            if contains_spec(rest, from) {
                let at = choose|at: int| #[trigger] stands_at(rest, from, at);
                assert(s.subrange(at + 1, at + 1 + from.len()) =~= rest.subrange(
                    at,
                    at + from.len(),
                ));
                assert(stands_at(s, from, at + 1));
            }
        }
        law_nothing_to_replace(rest, from, to);
        assert(seq![s[0]] + rest =~= s);
    }
}

/// A prefix goes, as often as it stands there, and nothing else does.
pub proof fn law_trim_prefixes(part: Seq<char>, s: Seq<char>)
    requires
        part.len() > 0,
    ensures
        trim_prefixes_spec(part + s, part) == trim_prefixes_spec(s, part),
        !starts_with_spec(s, part) ==> trim_prefixes_spec(s, part) == s,
{
    law_contains(Seq::empty(), part, s);
    assert((part + s).skip(part.len() as int) =~= s);
}

// ---------------------------------------------------------------------------------------------
// Numbers
// ---------------------------------------------------------------------------------------------
/// A number that is written in decimal is digits, and reads back as itself.
pub proof fn decimal_reads_back(n: int)
    requires
        0 <= n,
    ensures
        decimal_spec(n).len() > 0,
        all_digits_spec(decimal_spec(n)),
        number_spec(decimal_spec(n)) == n,
    decreases n,
{
    let d = digit_spec(n % 10);
    if n < 10 {
        let one = seq![digit_spec(n)];
        assert(one.drop_last() =~= Seq::<char>::empty());
        assert(number_spec(Seq::<char>::empty()) == 0);
        assert(number_spec(one) == n);
    } else {
        decimal_reads_back(n / 10);
        let start = decimal_spec(n / 10);
        let all = start.push(d);
        assert(all.drop_last() =~= start);
        assert forall|i: int| 0 <= i < all.len() implies is_digit_spec(#[trigger] all[i]) by {
            if i < start.len() {
                assert(all[i] == start[i]);
            }
        }
    }
}

/// A number that is written in decimal reads back as itself, where it is not too large.
pub proof fn law_decimal_round_trip(n: int, max: int)
    requires
        0 <= n <= max,
    ensures
        parse_unsigned_spec(decimal_spec(n), max) == Some(n),
{
    decimal_reads_back(n);
    assert(is_digit_spec(decimal_spec(n)[0]));
}

} // verus!
