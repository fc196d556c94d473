//! Text helpers over the character view of strings.

use vstd::prelude::*;

verus! {

/// The text of an optional string.
pub open spec fn optional_view(text: Option<String>) -> Option<Seq<char>> {
    match text {
        Some(text) => Some(text@),
        None => None,
    }
}

/// The characters that carry the Unicode `White_Space` property.
pub open spec fn is_space(c: char) -> bool {
    let u = c as u32;
    ||| 0x09 <= u <= 0x0D
    ||| u == 0x20
    ||| u == 0x85
    ||| u == 0xA0
    ||| u == 0x1680
    ||| 0x2000 <= u <= 0x200A
    ||| u == 0x2028
    ||| u == 0x2029
    ||| u == 0x202F
    ||| u == 0x205F
    ||| u == 0x3000
}

/// Tells whether `c` is white space.
pub fn char_is_space(c: char) -> (r: bool)
    ensures
        r == is_space(c),
{
    let u: u32 = c as u32;
    (0x09 <= u && u <= 0x0D) || u == 0x20 || u == 0x85 || u == 0xA0 || u == 0x1680 || (0x2000 <= u
        && u <= 0x200A) || u == 0x2028 || u == 0x2029 || u == 0x202F || u == 0x205F || u == 0x3000
}

/// The words of `s`: its maximal runs of characters that are not white space,
/// from left to right.
pub open spec fn split_words(s: Seq<char>) -> Seq<Seq<char>>
    decreases s.len(),
{
    if s.len() == 0 {
        Seq::empty()
    } else {
        let head = s.drop_last();
        let words = split_words(head);
        if is_space(s.last()) {
            words
        } else if head.len() > 0 && !is_space(head.last()) {
            words.drop_last().push(words.last().push(s.last()))
        } else {
            words.push(seq![s.last()])
        }
    }
}

/// Whether every character of `s` is white space.
pub open spec fn is_blank(s: Seq<char>) -> bool {
    forall|i: int| 0 <= i < s.len() ==> is_space(#[trigger] s[i])
}

/// A text whose last character is not white space has at least one word.
pub proof fn lemma_word_after_text(s: Seq<char>)
    requires
        s.len() > 0,
        !is_space(s.last()),
    ensures
        split_words(s).len() > 0,
{
}

/// A text has no word exactly when it is blank.
pub proof fn lemma_blank_has_no_words(s: Seq<char>)
    ensures
        is_blank(s) <==> split_words(s).len() == 0,
    decreases s.len(),
{
    if s.len() > 0 {
        let head = s.drop_last();
        lemma_blank_has_no_words(head);
        if is_space(s.last()) {
            if is_blank(head) {
                assert forall|i: int| 0 <= i < s.len() implies is_space(#[trigger] s[i]) by {
                    if i < head.len() {
                        assert(s[i] == head[i]);
                    }
                }
            }
            if is_blank(s) {
                assert forall|i: int| 0 <= i < head.len() implies is_space(#[trigger] head[i]) by {
                    assert(head[i] == s[i]);
                }
            }
        } else {
            assert(s[s.len() - 1] == s.last());
            if head.len() > 0 && !is_space(head.last()) {
                lemma_word_after_text(head);
            }
        }
    }
}

/// No word is empty and no word holds white space.
pub proof fn lemma_words_hold_no_space(s: Seq<char>, k: int)
    requires
        0 <= k < split_words(s).len(),
    ensures
        split_words(s)[k].len() > 0,
        forall|j: int| 0 <= j < split_words(s)[k].len() ==> !is_space(#[trigger] split_words(s)[k][j]),
    decreases s.len(),
{
    if s.len() > 0 {
        let head = s.drop_last();
        let words = split_words(head);
        if is_space(s.last()) {
            lemma_words_hold_no_space(head, k);
        } else if head.len() > 0 && !is_space(head.last()) {
            lemma_word_after_text(head);
            if k < words.len() - 1 {
                lemma_words_hold_no_space(head, k);
            } else {
                lemma_words_hold_no_space(head, words.len() - 1);
            }
        } else {
            if k < words.len() {
                lemma_words_hold_no_space(head, k);
            }
        }
    }
}

/// The characters of `text`, one by one.
pub fn to_chars(text: &str) -> (chars: Vec<char>)
    ensures
        chars@ == text@,
{
    let mut chars: Vec<char> = Vec::new();
    for c in it: text.chars()
        invariant
            it.seq() == text@,
            chars@ == it.seq().take(it.index()),
    {
        chars.push(c);
    }
    assert(chars@ =~= text@);
    chars
}

/// Splits `text` into its words, on white space only.
pub fn split_whitespace(text: &str) -> (words: Vec<String>)
    ensures
        words.deep_view() == split_words(text@),
{
    let chars = to_chars(text);
    let n: usize = chars.len();
    let mut words: Vec<String> = Vec::new();
    let mut start: usize = 0;
    let mut in_word: bool = false;
    let mut i: usize = 0;
    assert(text@.take(0) =~= Seq::<char>::empty());
    assert(words.deep_view() =~= Seq::<Seq<char>>::empty());
    while i < n
        invariant
            n == text@.len(),
            chars@ == text@,
            i <= n,
            in_word ==> start < i && !is_space(text@[i - 1]),
            !in_word ==> i == 0 || is_space(text@[i - 1]),
            split_words(text@.take(i as int)) == if in_word {
                words.deep_view().push(text@.subrange(start as int, i as int))
            } else {
                words.deep_view()
            },
        decreases n - i,
    {
        let c: char = chars[i];
        let ghost before = text@.take(i as int);
        let ghost after = text@.take(i + 1);
        let ghost done = words.deep_view();
        proof {
            assert(after.drop_last() =~= before);
            assert(after.last() == c);
            if i > 0 {
                assert(before.last() == text@[i - 1]);
            }
        }
        if char_is_space(c) {
            if in_word {
                let word = String::from_str(text.substring_char(start, i));
                words.push(word);
                assert(words.deep_view() =~= done.push(text@.subrange(start as int, i as int)));
                in_word = false;
            }
        } else {
            if in_word {
                assert(text@.subrange(start as int, i as int).push(c) =~= text@.subrange(
                    start as int,
                    i + 1,
                ));
                assert(done.push(text@.subrange(start as int, i as int)).drop_last() =~= done);
            } else {
                start = i;
                in_word = true;
                assert(seq![c] =~= text@.subrange(i as int, i + 1));
            }
        }
        i = i + 1;
    }
    assert(text@.take(n as int) =~= text@);
    if in_word {
        let ghost done = words.deep_view();
        let word = String::from_str(text.substring_char(start, n));
        words.push(word);
        assert(words.deep_view() =~= done.push(text@.subrange(start as int, n as int)));
    }
    words
}

/// Tells whether `text` holds nothing but white space.
pub fn text_is_blank(text: &str) -> (r: bool)
    ensures
        r == is_blank(text@),
{
    let chars = to_chars(text);
    let n: usize = chars.len();
    let mut i: usize = 0;
    while i < n
        invariant
            n == text@.len(),
            chars@ == text@,
            i <= n,
            forall|k: int| 0 <= k < i ==> is_space(#[trigger] text@[k]),
        decreases n - i,
    {
        if !char_is_space(chars[i]) {
            return false;
        }
        i = i + 1;
    }
    true
}

/// Tells whether two texts are the same.
pub fn same_text(a: &str, b: &str) -> (r: bool)
    ensures
        r == (a@ == b@),
{
    String::from_str(a) == String::from_str(b)
}

/// Whether `needle` stands in `hay` at position `at`.
pub open spec fn occurs_at(hay: Seq<char>, needle: Seq<char>, at: int) -> bool {
    0 <= at && at + needle.len() <= hay.len() && hay.subrange(at, at + needle.len()) == needle
}

/// Whether `needle` stands somewhere in `hay`.
pub open spec fn contains_text(hay: Seq<char>, needle: Seq<char>) -> bool {
    exists|at: int| occurs_at(hay, needle, at)
}

fn matches_at(hay: &Vec<char>, needle: &Vec<char>, at: usize) -> (r: bool)
    requires
        at + needle.len() <= hay.len(),
    ensures
        r == occurs_at(hay@, needle@, at as int),
{
    let mut k: usize = 0;
    while k < needle.len()
        invariant
            k <= needle.len(),
            at + needle.len() <= hay.len(),
            forall|j: int| 0 <= j < k ==> hay@[at + j] == needle@[j],
        decreases needle.len() - k,
    {
        if hay[at + k] != needle[k] {
            assert(hay@.subrange(at as int, at + needle.len())[k as int] != needle@[k as int]);
            return false;
        }
        k = k + 1;
    }
    assert(hay@.subrange(at as int, at + needle.len()) =~= needle@);
    true
}

/// Tells whether `needle` stands somewhere in `hay`.
pub fn contains(hay: &str, needle: &str) -> (r: bool)
    ensures
        r == contains_text(hay@, needle@),
{
    let hay_chars = to_chars(hay);
    let needle_chars = to_chars(needle);
    if needle_chars.len() > hay_chars.len() {
        assert forall|at: int| !occurs_at(hay@, needle@, at) by {}
        return false;
    }
    if needle_chars.len() == 0 {
        assert(hay@.subrange(0, 0) =~= needle@);
        assert(occurs_at(hay@, needle@, 0));
        return true;
    }
    let last: usize = hay_chars.len() - needle_chars.len();
    let mut at: usize = 0;
    while at <= last
        invariant
            hay_chars@ == hay@,
            needle_chars@ == needle@,
            last == hay_chars.len() - needle_chars.len(),
            last < hay_chars.len(),
            at <= last + 1,
            forall|k: int| 0 <= k < at ==> !occurs_at(hay@, needle@, k),
        decreases last + 1 - at,
    {
        if matches_at(&hay_chars, &needle_chars, at) {
            return true;
        }
        at = at + 1;
    }
    assert forall|k: int| !occurs_at(hay@, needle@, k) by {}
    false
}

/// `s` without the white space at its start.
pub open spec fn trim_start(s: Seq<char>) -> Seq<char>
    decreases s.len(),
{
    if s.len() > 0 && is_space(s[0]) {
        trim_start(s.drop_first())
    } else {
        s
    }
}

/// `s` without the white space at its end.
pub open spec fn trim_end(s: Seq<char>) -> Seq<char>
    decreases s.len(),
{
    if s.len() > 0 && is_space(s.last()) {
        trim_end(s.drop_last())
    } else {
        s
    }
}

/// `s` without the white space at its start and at its end.
pub open spec fn trim(s: Seq<char>) -> Seq<char> {
    trim_end(trim_start(s))
}

/// A text is blank exactly when nothing is left of it after trimming.
pub proof fn lemma_trim_of_blank(s: Seq<char>)
    ensures
        is_blank(s) <==> trim(s).len() == 0,
        is_blank(s) <==> trim_start(s).len() == 0,
    decreases s.len(),
{
    if s.len() > 0 && is_space(s[0]) {
        let tail = s.drop_first();
        lemma_trim_of_blank(tail);
        if is_blank(tail) {
            assert forall|i: int| 0 <= i < s.len() implies is_space(#[trigger] s[i]) by {
                if i > 0 {
                    assert(s[i] == tail[i - 1]);
                }
            }
        }
        if is_blank(s) {
            assert forall|i: int| 0 <= i < tail.len() implies is_space(#[trigger] tail[i]) by {
                assert(tail[i] == s[i + 1]);
            }
        }
    } else if s.len() > 0 {
        lemma_trim_end_keeps_start(s);
    }
}

/// Trimming the end of a text that starts with something other than white
/// space leaves that start in place.
pub proof fn lemma_trim_end_keeps_start(s: Seq<char>)
    requires
        s.len() > 0,
        !is_space(s[0]),
    ensures
        trim_end(s).len() > 0,
        trim_end(s)[0] == s[0],
    decreases s.len(),
{
    if is_space(s.last()) {
        assert(s.len() > 1);
        lemma_trim_end_keeps_start(s.drop_last());
    }
}

/// Cuts the white space off both ends of `text`.
pub fn trim_text(text: &str) -> (r: String)
    ensures
        r@ == trim(text@),
{
    let chars = to_chars(text);
    let n: usize = chars.len();
    let mut from: usize = 0;
    assert(text@.skip(0) =~= text@);
    while from < n && char_is_space(chars[from])
        invariant
            n == text@.len(),
            chars@ == text@,
            from <= n,
            trim_start(text@) == trim_start(text@.skip(from as int)),
        decreases n - from,
    {
        assert(text@.skip(from as int).drop_first() =~= text@.skip(from + 1));
        from = from + 1;
    }
    let mut to: usize = n;
    assert(text@.skip(from as int) =~= text@.subrange(from as int, n as int));
    while to > from && char_is_space(chars[to - 1])
        invariant
            n == text@.len(),
            chars@ == text@,
            from <= to <= n,
            trim(text@) == trim_end(text@.subrange(from as int, to as int)),
        decreases to,
    {
        assert(text@.subrange(from as int, to as int).drop_last() =~= text@.subrange(
            from as int,
            to - 1,
        ));
        to = to - 1;
    }
    String::from_str(text.substring_char(from, to))
}

/// Joins `parts` with `separator` between them.
pub open spec fn join_texts(parts: Seq<Seq<char>>, separator: Seq<char>) -> Seq<char>
    decreases parts.len(),
{
    if parts.len() == 0 {
        Seq::empty()
    } else if parts.len() == 1 {
        parts[0]
    } else {
        join_texts(parts.drop_last(), separator) + separator + parts.last()
    }
}

/// Joins `parts` with `separator` between them.
pub fn join(parts: &Vec<String>, separator: &str) -> (r: String)
    ensures
        r@ == join_texts(parts.deep_view(), separator@),
{
    let mut joined = String::new();
    let mut i: usize = 0;
    assert(parts.deep_view().take(0) =~= Seq::<Seq<char>>::empty());
    while i < parts.len()
        invariant
            i <= parts.len(),
            joined@ == join_texts(parts.deep_view().take(i as int), separator@),
        decreases parts.len() - i,
    {
        let ghost before = parts.deep_view().take(i as int);
        let ghost after = parts.deep_view().take(i + 1);
        assert(after.drop_last() =~= before);
        assert(after.last() == parts[i as int]@);
        if i > 0 {
            joined.append(separator);
        }
        joined.append(parts[i].as_str());
        assert(joined@ =~= join_texts(after, separator@));
        i = i + 1;
    }
    assert(parts.deep_view().take(parts.len() as int) =~= parts.deep_view());
    joined
}

/// What is left of `text` behind `prefix`, where `text` starts with it.
pub open spec fn without_prefix(text: Seq<char>, prefix: Seq<char>) -> Option<Seq<char>> {
    if prefix.is_prefix_of(text) {
        Some(text.skip(prefix.len() as int))
    } else {
        None
    }
}

/// Cuts `prefix` off the start of `text`; `None` where `text` does not start
/// with it.
pub fn strip_prefix(text: &str, prefix: &str) -> (r: Option<String>)
    ensures
        optional_view(r) == without_prefix(text@, prefix@),
{
    let chars = to_chars(text);
    let head = to_chars(prefix);
    if head.len() > chars.len() {
        return None;
    }
    if !matches_at(&chars, &head, 0) {
        return None;
    }
    assert(text@.skip(head.len() as int) =~= text@.subrange(
        head.len() as int,
        chars.len() as int,
    ));
    Some(String::from_str(text.substring_char(head.len(), chars.len())))
}

/// The first character of `s` that is not white space, if there is one.
pub open spec fn first_visible(s: Seq<char>) -> Option<char> {
    if trim_start(s).len() > 0 {
        Some(trim_start(s)[0])
    } else {
        None
    }
}

/// Tells whether the first character of `text` that is not white space is
/// `c`.
pub fn starts_with_after_spaces(text: &str, c: char) -> (r: bool)
    ensures
        r == (first_visible(text@) == Some(c)),
{
    let chars = to_chars(text);
    let n: usize = chars.len();
    let mut from: usize = 0;
    assert(text@.skip(0) =~= text@);
    while from < n && char_is_space(chars[from])
        invariant
            n == text@.len(),
            chars@ == text@,
            from <= n,
            trim_start(text@) == trim_start(text@.skip(from as int)),
        decreases n - from,
    {
        assert(text@.skip(from as int).drop_first() =~= text@.skip(from + 1));
        from = from + 1;
    }
    from < n && chars[from] == c
}

/// What stands behind the last line feed of `s`: the line that no line feed
/// has ended yet.
pub open spec fn open_line(s: Seq<char>) -> Seq<char>
    decreases s.len(),
{
    if s.len() == 0 || s.last() == '\n' {
        Seq::empty()
    } else {
        open_line(s.drop_last()).push(s.last())
    }
}

/// A line without the carriage return at its end, if it has one.
pub open spec fn without_carriage_return(line: Seq<char>) -> Seq<char> {
    if line.len() > 0 && line.last() == '\r' {
        line.drop_last()
    } else {
        line
    }
}

/// The lines of `s` that a line feed has ended, each without its line feed
/// and without the carriage return before it.
pub open spec fn ended_lines(s: Seq<char>) -> Seq<Seq<char>>
    decreases s.len(),
{
    if s.len() == 0 {
        Seq::empty()
    } else if s.last() == '\n' {
        ended_lines(s.drop_last()).push(without_carriage_return(open_line(s.drop_last())))
    } else {
        ended_lines(s.drop_last())
    }
}

/// The lines of `s`.  A line ends with a line feed, or with a carriage return
/// and a line feed; the last line needs no ending, and nothing behind the
/// last ending is no line.
pub open spec fn lines_of(s: Seq<char>) -> Seq<Seq<char>> {
    if open_line(s).len() > 0 {
        ended_lines(s).push(open_line(s))
    } else {
        ended_lines(s)
    }
}

/// Splits `text` into its lines.
pub fn lines(text: &str) -> (r: Vec<String>)
    ensures
        r.deep_view() == lines_of(text@),
{
    let chars = to_chars(text);
    let n: usize = chars.len();
    let mut found: Vec<String> = Vec::new();
    let mut start: usize = 0;
    let mut i: usize = 0;
    assert(text@.take(0) =~= Seq::<char>::empty());
    assert(found.deep_view() =~= Seq::<Seq<char>>::empty());
    assert(text@.subrange(0, 0) =~= Seq::<char>::empty());
    while i < n
        invariant
            n == text@.len(),
            chars@ == text@,
            start <= i <= n,
            found.deep_view() == ended_lines(text@.take(i as int)),
            text@.subrange(start as int, i as int) == open_line(text@.take(i as int)),
        decreases n - i,
    {
        let c: char = chars[i];
        let ghost before = text@.take(i as int);
        let ghost after = text@.take(i + 1);
        let ghost done = found.deep_view();
        proof {
            assert(after.drop_last() =~= before);
            assert(after.last() == c);
        }
        if c == '\n' {
            let end: usize = if i > start && chars[i - 1] == '\r' {
                i - 1
            } else {
                i
            };
            proof {
                let line = text@.subrange(start as int, i as int);
                if i > start {
                    assert(line.last() == text@[i - 1]);
                }
                assert(without_carriage_return(line) =~= text@.subrange(start as int, end as int));
            }
            found.push(String::from_str(text.substring_char(start, end)));
            assert(found.deep_view() =~= done.push(text@.subrange(start as int, end as int)));
            start = i + 1;
            assert(text@.subrange(start as int, i + 1) =~= Seq::<char>::empty());
        } else {
            assert(text@.subrange(start as int, i as int).push(c) =~= text@.subrange(
                start as int,
                i + 1,
            ));
        }
        i = i + 1;
    }
    assert(text@.take(n as int) =~= text@);
    if start < n {
        let ghost done = found.deep_view();
        found.push(String::from_str(text.substring_char(start, n)));
        assert(found.deep_view() =~= done.push(text@.subrange(start as int, n as int)));
    }
    found
}

/// Copies a list of borrowed texts into owned strings.
pub fn owned_texts(texts: &Vec<&str>) -> (owned: Vec<String>)
    ensures
        owned.deep_view() == texts.deep_view(),
{
    let mut owned: Vec<String> = Vec::new();
    let mut i: usize = 0;
    while i < texts.len()
        invariant
            i <= texts.len(),
            owned.len() == i,
            forall|k: int| 0 <= k < i ==> owned[k]@ == texts[k]@,
        decreases texts.len() - i,
    {
        owned.push(String::from_str(texts[i]));
        i = i + 1;
    }
    assert(owned.deep_view() =~= texts.deep_view());
    owned
}

/// Copies a list of strings.
pub fn copy_texts(texts: &Vec<String>) -> (copy: Vec<String>)
    ensures
        copy.deep_view() == texts.deep_view(),
{
    let mut copy: Vec<String> = Vec::new();
    let mut i: usize = 0;
    while i < texts.len()
        invariant
            i <= texts.len(),
            copy.len() == i,
            forall|k: int| 0 <= k < i ==> copy[k]@ == texts[k]@,
        decreases texts.len() - i,
    {
        copy.push(texts[i].clone());
        i = i + 1;
    }
    assert(copy.deep_view() =~= texts.deep_view());
    copy
}

} // verus!
