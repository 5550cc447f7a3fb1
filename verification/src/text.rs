//! Text functions on strings, stated over sequences of characters.
use vstd::prelude::*;

verus! {

/// `String::push` appends the given character to the end of the string.
pub assume_specification[ String::push ](s: &mut String, c: char)
    ensures
        final(s)@ == old(s)@.push(c),
;

/// What `str::to_lowercase` returns on a text.
pub uninterp spec fn lowercase_spec(text: Seq<char>) -> Seq<char>;

/// The lower-case letter of an ASCII upper-case letter; every other character itself.
pub open spec fn ascii_lower(c: char) -> char {
    if 'A' <= c && c <= 'Z' {
        (c as u32 + 32) as char
    } else {
        c
    }
}

/// `str::to_lowercase`: the lower-case equivalent of the text, which depends on the text alone.
/// On a text of ASCII characters, each upper-case letter becomes its lower-case letter and every
/// other character stays.
#[verifier::external_body]
pub(crate) fn lowercase(text: &str) -> (r: String)
    ensures
        r@ == lowercase_spec(text@),
        (forall|i: int| 0 <= i < text@.len() ==> (#[trigger] text@[i]) as u32 <= 127)
            ==> r@ == text@.map_values(|c: char| ascii_lower(c)),
{
    text.to_lowercase()
}

/// The text that the `Debug` format of a list of strings writes.
pub uninterp spec fn debug_list_spec(items: Seq<Seq<char>>) -> Seq<char>;

/// `format!` with `{:?}` on a `Vec<String>`: the `Debug` format of the list, which depends on the
/// texts of its strings alone.
#[verifier::external_body]
pub(crate) fn debug_list(items: &Vec<String>) -> (r: String)
    ensures
        r@ == debug_list_spec(texts(items@)),
{
    format!("{:?}", items)
}

// ---------------------------------------------------------------------------------------------
// Characters and strings
// ---------------------------------------------------------------------------------------------
/// The characters of a string, in order.
pub fn chars_of(s: &str) -> (v: Vec<char>)
    ensures
        v@ == s@,
{
    let mut v: Vec<char> = Vec::new();
    for c in it: s.chars()
        invariant
            it.seq() == s@,
            v@ == s@.take(it.index() as int),
    {
        v.push(c);
    }
    v
}

/// The string made of the characters of `v` from `from` up to `to`.
pub fn text_of(v: &Vec<char>, from: usize, to: usize) -> (s: String)
    requires
        from <= to <= v.len(),
    ensures
        s@ == v@.subrange(from as int, to as int),
{
    let mut s = String::new();
    let mut i: usize = from;
    while i < to
        invariant
            from <= i <= to <= v.len(),
            s@ == v@.subrange(from as int, i as int),
        decreases to - i,
    {
        s.push(v[i]);
        assert(v@.subrange(from as int, i + 1) =~= v@.subrange(from as int, i as int).push(
            v@[i as int],
        ));
        i = i + 1;
    }
    s
}

/// Whether two strings are the same text.
pub fn same(a: &str, b: &str) -> (r: bool)
    ensures
        r == (a@ == b@),
{
    a.to_owned() == b.to_owned()
}

/// The texts of a list of strings.
pub open spec fn texts(items: Seq<String>) -> Seq<Seq<char>> {
    items.map_values(|s: String| s@)
}

/// The texts of a list of string slices.
pub open spec fn strs(items: Seq<&str>) -> Seq<Seq<char>> {
    items.map_values(|s: &str| s@)
}

/// The text of an optional string.
pub open spec fn optional(s: Option<String>) -> Option<Seq<char>> {
    match s {
        Some(s) => Some(s@),
        None => None,
    }
}

/// Appends a string to a list.
pub fn push_text(items: &mut Vec<String>, item: String)
    ensures
        texts(final(items)@) == texts(old(items)@).push(item@),
{
    items.push(item);
    assert(texts(items@) =~= texts(old(items)@).push(item@));
}

/// An owned copy of a list of string slices.
pub fn list(items: &[&str]) -> (v: Vec<String>)
    ensures
        texts(v@) == strs(items@),
{
    let mut v: Vec<String> = Vec::new();
    let mut i: usize = 0;
    assert(texts(v@) =~= strs(items@).take(0));
    while i < items.len()
        invariant
            i <= items.len(),
            texts(v@) == strs(items@).take(i as int),
        decreases items.len() - i,
    {
        push_text(&mut v, items[i].to_owned());
        assert(strs(items@).take(i + 1) =~= strs(items@).take(i as int).push(items@[i as int]@));
        i = i + 1;
    }
    assert(strs(items@).take(items.len() as int) =~= strs(items@));
    v
}

/// A copy of a list of strings.
pub fn copy_texts(items: &Vec<String>) -> (v: Vec<String>)
    ensures
        texts(v@) == texts(items@),
{
    copy_from(items, 0)
}

/// A copy of a list of strings without its first `from` entries.
pub fn copy_from(items: &Vec<String>, from: usize) -> (v: Vec<String>)
    requires
        from <= items.len(),
    ensures
        texts(v@) == texts(items@).skip(from as int),
{
    let mut v: Vec<String> = Vec::new();
    let mut i: usize = from;
    assert(texts(v@) =~= texts(items@).subrange(from as int, from as int));
    while i < items.len()
        invariant
            from <= i <= items.len(),
            texts(v@) == texts(items@).subrange(from as int, i as int),
        decreases items.len() - i,
    {
        push_text(&mut v, items[i].clone());
        assert(texts(items@).subrange(from as int, i + 1) =~= texts(items@).subrange(
            from as int,
            i as int,
        ).push(items@[i as int]@));
        i = i + 1;
    }
    assert(texts(items@).subrange(from as int, items.len() as int) =~= texts(items@).skip(
        from as int,
    ));
    v
}

/// A copy of an optional string.
pub fn copy_optional(s: &Option<String>) -> (r: Option<String>)
    ensures
        optional(r) == optional(*s),
{
    match s {
        Some(s) => Some(s.clone()),
        None => None,
    }
}

/// Two texts, one after the other.
pub fn cat2(a: &str, b: &str) -> (r: String)
    ensures
        r@ == a@ + b@,
{
    let mut s = a.to_owned();
    s.append(b);
    s
}

/// Three texts, one after the other.
pub fn cat3(a: &str, b: &str, c: &str) -> (r: String)
    ensures
        r@ == a@ + b@ + c@,
{
    let mut s = cat2(a, b);
    s.append(c);
    s
}

/// Four texts, one after the other.
pub fn cat4(a: &str, b: &str, c: &str, d: &str) -> (r: String)
    ensures
        r@ == a@ + b@ + c@ + d@,
{
    let mut s = cat3(a, b, c);
    s.append(d);
    s
}

/// Five texts, one after the other.
pub fn cat5(a: &str, b: &str, c: &str, d: &str, e: &str) -> (r: String)
    ensures
        r@ == a@ + b@ + c@ + d@ + e@,
{
    let mut s = cat4(a, b, c, d);
    s.append(e);
    s
}

/// Six texts, one after the other.
pub fn cat6(a: &str, b: &str, c: &str, d: &str, e: &str, f: &str) -> (r: String)
    ensures
        r@ == a@ + b@ + c@ + d@ + e@ + f@,
{
    let mut s = cat5(a, b, c, d, e);
    s.append(f);
    s
}

/// Seven texts, one after the other.
pub fn cat7(a: &str, b: &str, c: &str, d: &str, e: &str, f: &str, g: &str) -> (r: String)
    ensures
        r@ == a@ + b@ + c@ + d@ + e@ + f@ + g@,
{
    let mut s = cat6(a, b, c, d, e, f);
    s.append(g);
    s
}

// ---------------------------------------------------------------------------------------------
// White space
// ---------------------------------------------------------------------------------------------
/// The Unicode White_Space property.
pub open spec fn is_space_spec(c: char) -> bool {
    let n = c as u32;
    (9 <= n <= 13) || n == 0x20 || n == 0x85 || n == 0xA0 || n == 0x1680 || (0x2000 <= n <= 0x200A)
        || n == 0x2028 || n == 0x2029 || n == 0x202F || n == 0x205F || n == 0x3000
}

/// Whether a character has the Unicode White_Space property.
pub fn is_space(c: char) -> (r: bool)
    ensures
        r == is_space_spec(c),
{
    let n: u32 = c as u32;
    (9 <= n && n <= 13) || n == 0x20 || n == 0x85 || n == 0xA0 || n == 0x1680 || (0x2000 <= n && n
        <= 0x200A) || n == 0x2028 || n == 0x2029 || n == 0x202F || n == 0x205F || n == 0x3000
}

/// The text without its leading white space.
pub open spec fn trim_start_spec(s: Seq<char>) -> Seq<char>
    decreases s.len(),
{
    if s.len() > 0 && is_space_spec(s[0]) {
        trim_start_spec(s.skip(1))
    } else {
        s
    }
}

/// The text without its trailing white space.
pub open spec fn trim_end_spec(s: Seq<char>) -> Seq<char>
    decreases s.len(),
{
    if s.len() > 0 && is_space_spec(s.last()) {
        trim_end_spec(s.drop_last())
    } else {
        s
    }
}

/// The text without its leading and trailing white space.
pub open spec fn trim_spec(s: Seq<char>) -> Seq<char> {
    trim_end_spec(trim_start_spec(s))
}

/// Where the text that remains after trimming at the end stops.
fn trimmed_end(v: &Vec<char>, from: usize) -> (to: usize)
    requires
        from <= v.len(),
    ensures
        from <= to <= v.len(),
        v@.subrange(from as int, to as int) == trim_end_spec(v@.skip(from as int)),
{
    let mut to: usize = v.len();
    assert(v@.subrange(from as int, to as int) =~= v@.skip(from as int));
    while from < to && is_space(v[to - 1])
        invariant
            from <= to <= v.len(),
            trim_end_spec(v@.subrange(from as int, to as int)) == trim_end_spec(
                v@.skip(from as int),
            ),
        decreases to,
    {
        assert(v@.subrange(from as int, to as int).drop_last() =~= v@.subrange(
            from as int,
            to - 1,
        ));
        to = to - 1;
    }
    to
}

/// Where the text that remains after trimming at the start begins.
fn trimmed_start(v: &Vec<char>) -> (from: usize)
    ensures
        from <= v.len(),
        v@.skip(from as int) == trim_start_spec(v@),
{
    let mut from: usize = 0;
    assert(v@.skip(0) =~= v@);
    while from < v.len() && is_space(v[from])
        invariant
            from <= v.len(),
            trim_start_spec(v@.skip(from as int)) == trim_start_spec(v@),
        decreases v.len() - from,
    {
        assert(v@.skip(from as int).skip(1) =~= v@.skip(from + 1));
        from = from + 1;
    }
    from
}

/// `str::trim_end`.
pub fn trim_end(s: &str) -> (r: String)
    ensures
        r@ == trim_end_spec(s@),
{
    let v = chars_of(s);
    let to = trimmed_end(&v, 0);
    assert(v@.skip(0) =~= v@);
    text_of(&v, 0, to)
}

/// `str::trim`.
pub fn trim(s: &str) -> (r: String)
    ensures
        r@ == trim_spec(s@),
{
    let v = chars_of(s);
    let from = trimmed_start(&v);
    let to = trimmed_end(&v, from);
    text_of(&v, from, to)
}

/// Whether nothing but white space is in the text.
pub open spec fn is_blank_spec(s: Seq<char>) -> bool {
    trim_spec(s).len() == 0
}

/// Whether nothing but white space is in the text.
pub fn is_blank(s: &str) -> (r: bool)
    ensures
        r == is_blank_spec(s@),
{
    is_nothing(trim(s).as_str())
}

/// Whether the text has no character.
pub open spec fn is_nothing_spec(s: Seq<char>) -> bool {
    s.len() == 0
}

/// Whether the text has no character.
pub fn is_nothing(s: &str) -> (r: bool)
    ensures
        r == is_nothing_spec(s@),
{
    let r = same(s, "");
    proof {
        reveal_strlit("");
        assert(s@.len() == 0 ==> s@ =~= ""@);
    }
    r
}

// ---------------------------------------------------------------------------------------------
// Splitting
// ---------------------------------------------------------------------------------------------
/// The parts of the text between the characters that `cut` picks; one more than it picks.
pub open spec fn split_by(s: Seq<char>, cut: spec_fn(char) -> bool) -> Seq<Seq<char>>
    decreases s.len(),
{
    if s.len() == 0 {
        seq![Seq::empty()]
    } else {
        let parts = split_by(s.drop_last(), cut);
        if cut(s.last()) {
            parts.push(Seq::empty())
        } else {
            parts.drop_last().push(parts.last().push(s.last()))
        }
    }
}

/// `str::split` at a character.
pub open spec fn split_spec(s: Seq<char>, c: char) -> Seq<Seq<char>> {
    split_by(s, is_char(c))
}

/// The predicate that picks one character.
pub open spec fn is_char(c: char) -> spec_fn(char) -> bool {
    |x: char| x == c
}

/// `str::split` at a character.
pub fn split(s: &str, c: char) -> (parts: Vec<String>)
    ensures
        texts(parts@) == split_spec(s@, c),
        parts.len() > 0,
{
    let v = chars_of(s);
    let ghost cut = is_char(c);
    let mut done: Vec<String> = Vec::new();
    let mut part = String::new();
    let mut i: usize = 0;
    proof {
        assert(v@.take(0) =~= Seq::empty());
        assert(texts(done@).push(part@) =~= seq![Seq::<char>::empty()]);
    }
    while i < v.len()
        invariant
            i <= v.len(),
            cut == is_char(c),
            texts(done@).push(part@) == split_by(v@.take(i as int), cut),
        decreases v.len() - i,
    {
        let ghost before = texts(done@).push(part@);
        proof {
            assert(v@.take(i + 1).drop_last() =~= v@.take(i as int));
            assert(v@.take(i + 1).last() == v@[i as int]);
            assert(before.drop_last() =~= texts(done@));
        }
        if v[i] == c {
            push_text(&mut done, part);
            part = String::new();
        } else {
            part.push(v[i]);
        }
        i = i + 1;
    }
    assert(v@.take(v.len() as int) =~= s@);
    push_text(&mut done, part);
    assert(texts(done@).len() == done.len());
    done
}

/// The maximal runs of characters that are no white space, in order.
pub open spec fn words_spec(s: Seq<char>) -> Seq<Seq<char>> {
    split_by(s, |c: char| is_space_spec(c)).filter(|w: Seq<char>| w.len() > 0)
}

/// `str::split_whitespace`.
pub fn words(s: &str) -> (r: Vec<String>)
    ensures
        texts(r@) == words_spec(s@),
{
    let v = chars_of(s);
    let ghost cut = |c: char| is_space_spec(c);
    let ghost full = |w: Seq<char>| w.len() > 0;
    let mut found: Vec<String> = Vec::new();
    let mut part = String::new();
    let mut i: usize = 0;
    proof {
        assert(v@.take(0) =~= Seq::empty());
        assert(split_by(v@.take(0), cut).drop_last() =~= Seq::empty());
        reveal_with_fuel(Seq::filter, 2);
        assert(texts(found@) =~= Seq::<Seq<char>>::empty().filter(full));
    }
    while i < v.len()
        invariant
            i <= v.len(),
            cut == (|c: char| is_space_spec(c)),
            full == (|w: Seq<char>| w.len() > 0),
            split_by(v@.take(i as int), cut).len() > 0,
            split_by(v@.take(i as int), cut).last() == part@,
            texts(found@) == split_by(v@.take(i as int), cut).drop_last().filter(full),
        decreases v.len() - i,
    {
        let ghost before = split_by(v@.take(i as int), cut);
        proof {
            assert(v@.take(i + 1).drop_last() =~= v@.take(i as int));
            assert(v@.take(i + 1).last() == v@[i as int]);
            reveal_with_fuel(Seq::filter, 2);
            assert(before.push(Seq::empty()).drop_last() =~= before);
            assert(before.drop_last().push(part@.push(v@[i as int])).drop_last()
                =~= before.drop_last());
        }
        if is_space(v[i]) {
            if !is_nothing(part.as_str()) {
                push_text(&mut found, part);
                part = String::new();
            }
            proof {
                assert(part@ =~= Seq::empty());
            }
        } else {
            part.push(v[i]);
        }
        i = i + 1;
    }
    assert(v@.take(v.len() as int) =~= s@);
    proof {
        reveal_with_fuel(Seq::filter, 2);
    }
    if !is_nothing(part.as_str()) {
        push_text(&mut found, part);
    }
    found
}

/// The line without the carriage return that ended it together with the line feed.
pub open spec fn strip_return(line: Seq<char>) -> Seq<char> {
    if line.len() > 0 && line.last() == '\r' {
        line.drop_last()
    } else {
        line
    }
}

/// The lines of the text. A line ends at a line feed, or at a carriage return and a line feed; the
/// end of the last line is optional.
pub open spec fn lines_spec(s: Seq<char>) -> Seq<Seq<char>> {
    let parts = split_spec(s, '\n');
    let ended = parts.drop_last().map_values(|line: Seq<char>| strip_return(line));
    if parts.last().len() == 0 {
        ended
    } else {
        ended.push(parts.last())
    }
}

/// `str::lines`.
pub fn lines(s: &str) -> (r: Vec<String>)
    ensures
        texts(r@) == lines_spec(s@),
{
    let mut parts = split(s, '\n');
    let ghost all = texts(parts@);
    let last = parts.len() - 1;
    let mut r: Vec<String> = Vec::new();
    let mut i: usize = 0;
    let ghost ended = all.drop_last().map_values(|line: Seq<char>| strip_return(line));
    assert(texts(r@) =~= ended.take(0));
    while i < last
        invariant
            i <= last,
            last == parts.len() - 1,
            all == texts(parts@),
            ended == all.drop_last().map_values(|line: Seq<char>| strip_return(line)),
            texts(r@) == ended.take(i as int),
        decreases last - i,
    {
        push_text(&mut r, without_return(parts[i].as_str()));
        assert(ended.take(i + 1) =~= ended.take(i as int).push(strip_return(all[i as int])));
        i = i + 1;
    }
    assert(ended.take(last as int) =~= ended);
    if !is_nothing(parts[last].as_str()) {
        push_text(&mut r, parts[last].clone());
    }
    r
}

fn without_return(line: &str) -> (r: String)
    ensures
        r@ == strip_return(line@),
{
    let v = chars_of(line);
    if v.len() > 0 && v[v.len() - 1] == '\r' {
        assert(line@.drop_last() =~= v@.subrange(0, v.len() - 1));
        text_of(&v, 0, v.len() - 1)
    } else {
        line.to_owned()
    }
}

/// The first line of the text, if it has one.
pub open spec fn first_line_spec(s: Seq<char>) -> Option<Seq<char>> {
    if lines_spec(s).len() > 0 {
        Some(lines_spec(s)[0])
    } else {
        None
    }
}

/// The first line of the text, if it has one.
pub fn first_line(s: &str) -> (r: Option<String>)
    ensures
        optional(r) == first_line_spec(s@),
{
    let all = lines(s);
    assert(texts(all@).len() == all.len());
    if all.len() > 0 {
        Some(all[0].clone())
    } else {
        None
    }
}

/// Whether a line of the text, without the white space around it, is the given one.
pub open spec fn has_line_spec(s: Seq<char>, wanted: Seq<char>) -> bool {
    exists|i: int| 0 <= i < lines_spec(s).len() && trim_spec(#[trigger] lines_spec(s)[i]) == wanted
}

/// Whether a line of the text, without the white space around it, is the given one.
pub fn has_line(s: &str, wanted: &str) -> (r: bool)
    ensures
        r == has_line_spec(s@, wanted@),
{
    let all = lines(s);
    let mut i: usize = 0;
    assert(texts(all@).len() == all.len());
    while i < all.len()
        invariant
            i <= all.len(),
            texts(all@) == lines_spec(s@),
            forall|j: int| 0 <= j < i ==> trim_spec(#[trigger] lines_spec(s@)[j]) != wanted@,
        decreases all.len() - i,
    {
        assert(lines_spec(s@)[i as int] == all@[i as int]@);
        if same(trim(all[i].as_str()).as_str(), wanted) {
            return true;
        }
        i = i + 1;
    }
    false
}

/// The lines of the text that hold more than white space, without the white space around them.
pub open spec fn entries_spec(s: Seq<char>) -> Seq<Seq<char>> {
    lines_spec(s).map_values(|line: Seq<char>| trim_spec(line)).filter(
        |line: Seq<char>| line.len() > 0,
    )
}

/// The lines of the text that hold more than white space, without the white space around them.
pub fn entries(s: &str) -> (r: Vec<String>)
    ensures
        texts(r@) == entries_spec(s@),
{
    let all = lines(s);
    let ghost trimmed = lines_spec(s@).map_values(|line: Seq<char>| trim_spec(line));
    let ghost full = |line: Seq<char>| line.len() > 0;
    let mut r: Vec<String> = Vec::new();
    let mut i: usize = 0;
    assert(texts(all@).len() == all.len());
    proof {
        reveal_with_fuel(Seq::filter, 2);
        assert(trimmed.take(0) =~= Seq::empty());
        assert(texts(r@) =~= trimmed.take(0).filter(full));
    }
    while i < all.len()
        invariant
            i <= all.len(),
            texts(all@) == lines_spec(s@),
            trimmed == lines_spec(s@).map_values(|line: Seq<char>| trim_spec(line)),
            full == (|line: Seq<char>| line.len() > 0),
            texts(r@) == trimmed.take(i as int).filter(full),
        decreases all.len() - i,
    {
        let line = trim(all[i].as_str());
        proof {
            assert(texts(all@)[i as int] == all@[i as int]@);
            assert(trimmed.take(i + 1).drop_last() =~= trimmed.take(i as int));
            assert(trimmed.take(i + 1).last() == line@);
            reveal_with_fuel(Seq::filter, 2);
        }
        if !is_nothing(line.as_str()) {
            push_text(&mut r, line);
        }
        i = i + 1;
    }
    assert(trimmed.take(all.len() as int) =~= trimmed);
    r
}

/// The part of the text after the last `c`; the whole text where there is no `c`.
pub open spec fn after_last_spec(s: Seq<char>, c: char) -> Seq<char> {
    split_spec(s, c).last()
}

/// The part of the text after the last `c`; the whole text where there is no `c`.
pub fn after_last(s: &str, c: char) -> (r: String)
    ensures
        r@ == after_last_spec(s@, c),
{
    let parts = split(s, c);
    let last = parts.len() - 1;
    assert(texts(parts@).last() == parts@[last as int]@);
    parts[last].clone()
}

/// The names in a listing: of each line, without the white space around it, what follows the last
/// slash.
pub open spec fn names_spec(s: Seq<char>) -> Seq<Seq<char>> {
    lines_spec(s).map_values(|line: Seq<char>| after_last_spec(trim_spec(line), '/'))
}

/// The names in a listing: of each line, without the white space around it, what follows the last
/// slash.
pub fn names(s: &str) -> (r: Vec<String>)
    ensures
        texts(r@) == names_spec(s@),
{
    let all = lines(s);
    let mut r: Vec<String> = Vec::new();
    let mut i: usize = 0;
    assert(texts(all@).len() == all.len());
    assert(texts(r@) =~= names_spec(s@).take(0));
    while i < all.len()
        invariant
            i <= all.len(),
            texts(all@) == lines_spec(s@),
            texts(r@) == names_spec(s@).take(i as int),
        decreases all.len() - i,
    {
        let name = after_last(trim(all[i].as_str()).as_str(), '/');
        assert(texts(all@)[i as int] == all@[i as int]@);
        assert(names_spec(s@).take(i + 1) =~= names_spec(s@).take(i as int).push(name@));
        push_text(&mut r, name);
        i = i + 1;
    }
    assert(names_spec(s@).take(all.len() as int) =~= names_spec(s@));
    r
}

// ---------------------------------------------------------------------------------------------
// Searching
// ---------------------------------------------------------------------------------------------
/// Whether `part` stands in the text at position `at`.
pub open spec fn stands_at(s: Seq<char>, part: Seq<char>, at: int) -> bool {
    0 <= at && at + part.len() <= s.len() && s.subrange(at, at + part.len()) == part
}

fn matches_at(s: &Vec<char>, part: &Vec<char>, at: usize) -> (r: bool)
    requires
        at <= s.len(),
    ensures
        r == stands_at(s@, part@, at as int),
{
    if part.len() > s.len() - at {
        return false;
    }
    let mut i: usize = 0;
    while i < part.len()
        invariant
            i <= part.len(),
            at + part.len() <= s.len(),
            forall|j: int| 0 <= j < i ==> s@[at + j] == #[trigger] part@[j],
        decreases part.len() - i,
    {
        if s[at + i] != part[i] {
            assert(s@.subrange(at as int, at + part.len())[i as int] != part@[i as int]);
            return false;
        }
        i = i + 1;
    }
    assert(s@.subrange(at as int, at + part.len()) =~= part@);
    true
}

/// Whether the text begins with `part`.
pub open spec fn starts_with_spec(s: Seq<char>, part: Seq<char>) -> bool {
    stands_at(s, part, 0)
}

/// `str::starts_with`.
pub fn starts_with(s: &str, part: &str) -> (r: bool)
    ensures
        r == starts_with_spec(s@, part@),
{
    matches_at(&chars_of(s), &chars_of(part), 0)
}

/// Whether the text ends with `part`.
pub open spec fn ends_with_spec(s: Seq<char>, part: Seq<char>) -> bool {
    stands_at(s, part, s.len() - part.len())
}

/// `str::ends_with`.
pub fn ends_with(s: &str, part: &str) -> (r: bool)
    ensures
        r == ends_with_spec(s@, part@),
{
    let v = chars_of(s);
    let p = chars_of(part);
    if p.len() > v.len() {
        return false;
    }
    matches_at(&v, &p, v.len() - p.len())
}

/// Whether `part` stands somewhere in the text.
pub open spec fn contains_spec(s: Seq<char>, part: Seq<char>) -> bool {
    exists|at: int| #[trigger] stands_at(s, part, at)
}

/// `str::contains`.
pub fn contains(s: &str, part: &str) -> (r: bool)
    ensures
        r == contains_spec(s@, part@),
{
    let v = chars_of(s);
    let p = chars_of(part);
    let mut at: usize = 0;
    while at < v.len()
        invariant
            at <= v.len(),
            v@ == s@,
            p@ == part@,
            forall|j: int| 0 <= j < at ==> !#[trigger] stands_at(s@, part@, j),
        decreases v.len() - at,
    {
        if matches_at(&v, &p, at) {
            return true;
        }
        at = at + 1;
    }
    matches_at(&v, &p, at)
}

/// The text after its beginning `part`, where it begins so.
pub open spec fn strip_prefix_spec(s: Seq<char>, part: Seq<char>) -> Option<Seq<char>> {
    if starts_with_spec(s, part) {
        Some(s.skip(part.len() as int))
    } else {
        None
    }
}

/// `str::strip_prefix`.
pub fn strip_prefix(s: &str, part: &str) -> (r: Option<String>)
    ensures
        optional(r) == strip_prefix_spec(s@, part@),
{
    let v = chars_of(s);
    let p = chars_of(part);
    if matches_at(&v, &p, 0) {
        assert(v@.subrange(p.len() as int, v.len() as int) =~= s@.skip(p.len() as int));
        Some(text_of(&v, p.len(), v.len()))
    } else {
        None
    }
}

/// The text before its end `part`, where it ends so.
pub open spec fn strip_suffix_spec(s: Seq<char>, part: Seq<char>) -> Option<Seq<char>> {
    if ends_with_spec(s, part) {
        Some(s.take(s.len() - part.len()))
    } else {
        None
    }
}

/// `str::strip_suffix`.
pub fn strip_suffix(s: &str, part: &str) -> (r: Option<String>)
    ensures
        optional(r) == strip_suffix_spec(s@, part@),
{
    let v = chars_of(s);
    let p = chars_of(part);
    if p.len() <= v.len() && matches_at(&v, &p, v.len() - p.len()) {
        assert(v@.subrange(0, v.len() - p.len()) =~= s@.take(v.len() - p.len()));
        Some(text_of(&v, 0, v.len() - p.len()))
    } else {
        None
    }
}

/// The text without `part`, however often it stands at its beginning.
pub open spec fn trim_prefixes_spec(s: Seq<char>, part: Seq<char>) -> Seq<char>
    decreases s.len(),
{
    if part.len() > 0 && starts_with_spec(s, part) {
        trim_prefixes_spec(s.skip(part.len() as int), part)
    } else {
        s
    }
}

/// `str::trim_start_matches` with a string.
pub fn trim_prefixes(s: &str, part: &str) -> (r: String)
    ensures
        r@ == trim_prefixes_spec(s@, part@),
{
    let v = chars_of(s);
    let p = chars_of(part);
    let mut from: usize = 0;
    assert(v@.skip(0) =~= s@);
    if p.len() > 0 {
        while matches_at(&v, &p, from)
            invariant
                from <= v.len(),
                p.len() > 0,
                p@ == part@,
                trim_prefixes_spec(v@.skip(from as int), part@) == trim_prefixes_spec(s@, part@),
                stands_at(v@, p@, from as int) == starts_with_spec(v@.skip(from as int), part@),
            decreases v.len() - from,
        {
            assert(v@.skip(from as int).skip(p.len() as int) =~= v@.skip(from + p.len()));
            from = from + p.len();
            proof {
                same_at(v@, part@, from as int);
            }
        }
    }
    assert(v@.subrange(from as int, v.len() as int) =~= v@.skip(from as int));
    text_of(&v, from, v.len())
}

proof fn same_at(s: Seq<char>, part: Seq<char>, at: int)
    requires
        0 <= at <= s.len(),
    ensures
        stands_at(s, part, at) == starts_with_spec(s.skip(at), part),
{
    if at + part.len() <= s.len() {
        assert(s.skip(at).subrange(0, part.len() as int) =~= s.subrange(at, at + part.len()));
    }
}

/// The text without `part`, however often it stands at its end.
pub open spec fn trim_suffixes_spec(s: Seq<char>, part: Seq<char>) -> Seq<char>
    decreases s.len(),
{
    if part.len() > 0 && ends_with_spec(s, part) {
        trim_suffixes_spec(s.take(s.len() - part.len()), part)
    } else {
        s
    }
}

/// `str::trim_end_matches` with a string.
pub fn trim_suffixes(s: &str, part: &str) -> (r: String)
    ensures
        r@ == trim_suffixes_spec(s@, part@),
{
    let v = chars_of(s);
    let p = chars_of(part);
    let mut to: usize = v.len();
    assert(v@.take(v.len() as int) =~= s@);
    if p.len() > 0 {
        while p.len() <= to && matches_at(&v, &p, to - p.len())
            invariant
                to <= v.len(),
                p.len() > 0,
                p@ == part@,
                trim_suffixes_spec(v@.take(to as int), part@) == trim_suffixes_spec(s@, part@),
            decreases to,
        {
            proof {
                let shorter = to - p.len();
                assert(v@.take(to as int).subrange(shorter, to as int) =~= v@.subrange(
                    shorter,
                    to as int,
                ));
                assert(v@.take(to as int).take(shorter) =~= v@.take(shorter));
            }
            to = to - p.len();
        }
        proof {
            if p.len() <= to {
                assert(v@.take(to as int).subrange(to - p.len(), to as int) =~= v@.subrange(
                    to - p.len(),
                    to as int,
                ));
            }
        }
    }
    assert(v@.subrange(0, to as int) =~= v@.take(to as int));
    text_of(&v, 0, to)
}

/// The text with every `from` replaced by `to`, from the left and without overlaps.
pub open spec fn replace_spec(s: Seq<char>, from: Seq<char>, to: Seq<char>) -> Seq<char>
    decreases s.len(),
{
    if from.len() == 0 || s.len() < from.len() {
        s
    } else if starts_with_spec(s, from) {
        to + replace_spec(s.skip(from.len() as int), from, to)
    } else {
        seq![s[0]] + replace_spec(s.skip(1), from, to)
    }
}

/// `str::replace` of a string that is not empty.
pub fn replace(s: &str, from: &str, to: &str) -> (r: String)
    ensures
        r@ == replace_spec(s@, from@, to@),
{
    let v = chars_of(s);
    let p = chars_of(from);
    let mut r = String::new();
    let mut i: usize = 0;
    assert(v@.skip(0) =~= s@);
    assert(r@ + replace_spec(v@.skip(0), from@, to@) =~= replace_spec(s@, from@, to@));
    if p.len() == 0 {
        return s.to_owned();
    }
    while i < v.len() && p.len() <= v.len() - i
        invariant
            i <= v.len(),
            p.len() > 0,
            p@ == from@,
            r@ + replace_spec(v@.skip(i as int), from@, to@) == replace_spec(s@, from@, to@),
        decreases v.len() - i,
    {
        proof {
            same_at(v@, from@, i as int);
        }
        if matches_at(&v, &p, i) {
            proof {
                assert(v@.skip(i as int).skip(p.len() as int) =~= v@.skip(i + p.len()));
                let rest = replace_spec(v@.skip(i + p.len()), from@, to@);
                assert(r@ + (to@ + rest) =~= (r@ + to@) + rest);
            }
            r.append(to);
            i = i + p.len();
        } else {
            proof {
                assert(v@.skip(i as int).skip(1) =~= v@.skip(i + 1));
                let rest = replace_spec(v@.skip(i + 1), from@, to@);
                assert(r@ + (seq![v@[i as int]] + rest) =~= r@.push(v@[i as int]) + rest);
            }
            r.push(v[i]);
            i = i + 1;
        }
    }
    let tail = text_of(&v, i, v.len());
    assert(v@.subrange(i as int, v.len() as int) =~= v@.skip(i as int));
    r.append(tail.as_str());
    r
}

/// The parts of the text before and after its first `c`, where it has one.
pub open spec fn split_once_spec(s: Seq<char>, c: char) -> Option<(Seq<char>, Seq<char>)>
    decreases s.len(),
{
    if s.len() == 0 {
        None
    } else if s[0] == c {
        Some((Seq::empty(), s.skip(1)))
    } else {
        match split_once_spec(s.skip(1), c) {
            Some((before, after)) => Some((seq![s[0]] + before, after)),
            None => None,
        }
    }
}

/// `str::split_once` at a character.
pub fn split_once(s: &str, c: char) -> (r: Option<(String, String)>)
    ensures
        match r {
            Some((before, after)) => split_once_spec(s@, c) == Some((before@, after@)),
            None => split_once_spec(s@, c) is None,
        },
{
    let v = chars_of(s);
    let mut i: usize = 0;
    assert(v@.skip(0) =~= s@);
    while i < v.len()
        invariant
            i <= v.len(),
            v@ == s@,
            match split_once_spec(v@.skip(i as int), c) {
                Some((before, after)) => split_once_spec(s@, c) == Some(
                    (v@.take(i as int) + before, after),
                ),
                None => split_once_spec(s@, c) is None,
            },
        decreases v.len() - i,
    {
        assert(v@.skip(i as int).skip(1) =~= v@.skip(i + 1));
        if v[i] == c {
            assert(v@.take(i as int) + Seq::empty() =~= v@.subrange(0, i as int));
            assert(v@.skip(i + 1) =~= v@.subrange(i + 1, v.len() as int));
            return Some((text_of(&v, 0, i), text_of(&v, i + 1, v.len())));
        }
        proof {
            match split_once_spec(v@.skip(i + 1), c) {
                Some((before, after)) => {
                    assert(v@.take(i as int) + (seq![v@[i as int]] + before) =~= v@.take(i + 1)
                        + before);
                },
                None => {},
            }
        }
        i = i + 1;
    }
    None
}

// ---------------------------------------------------------------------------------------------
// Joining
// ---------------------------------------------------------------------------------------------
/// The texts of a list, with `sep` between them.
pub open spec fn join_spec(items: Seq<Seq<char>>, sep: Seq<char>) -> Seq<char>
    decreases items.len(),
{
    if items.len() == 0 {
        Seq::empty()
    } else if items.len() == 1 {
        items[0]
    } else {
        join_spec(items.drop_last(), sep) + sep + items.last()
    }
}

/// `join` of a list of strings.
pub fn join(items: &Vec<String>, sep: &str) -> (r: String)
    ensures
        r@ == join_spec(texts(items@), sep@),
{
    let ghost all = texts(items@);
    let mut r = String::new();
    let mut i: usize = 0;
    while i < items.len()
        invariant
            i <= items.len(),
            all == texts(items@),
            r@ == join_spec(all.take(i as int), sep@),
        decreases items.len() - i,
    {
        proof {
            assert(all.take(i + 1).drop_last() =~= all.take(i as int));
            assert(all.take(i + 1).last() == items@[i as int]@);
            assert(Seq::<char>::empty() + items@[i as int]@ =~= items@[i as int]@);
        }
        if i > 0 {
            r.append(sep);
        }
        r.append(items[i].as_str());
        i = i + 1;
    }
    assert(all.take(items.len() as int) =~= all);
    r
}

} // verus!
