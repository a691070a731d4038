//! Text handling: putting together, searching, splitting and trimming.
//!
//! Every function here works on the characters of a string; the specification
//! functions describe the results over `Seq<char>`.

use vstd::prelude::*;
use vstd::string::*;

verus! {

/// The characters of a string, as a vector.
pub fn characters(s: &str) -> (v: Vec<char>)
    ensures
        v@ == s@,
{
    let mut v: Vec<char> = Vec::new();
    for c in it: s.chars()
        invariant
            v@ == s@.take(it.index()),
            it.seq() == s@,
    {
        v.push(c);
        assert(s@.take(it.index() + 1) == s@.take(it.index()).push(c));
    }
    assert(s@.take(s@.len() as int) == s@);
    v
}

/// Whether two strings hold the same characters.
pub fn same_text(a: &str, b: &str) -> (r: bool)
    ensures
        r == (a@ == b@),
{
    let x = a.to_owned();
    let y = b.to_owned();
    x == y
}

/// `a` followed by `b`.
pub fn concat2(a: &str, b: &str) -> (r: String)
    ensures
        r@ == a@ + b@,
{
    let mut out = a.to_owned();
    out.append(b);
    out
}

/// `a` followed by `b` and `c`.
pub fn concat3(a: &str, b: &str, c: &str) -> (r: String)
    ensures
        r@ == a@ + b@ + c@,
{
    let mut out = a.to_owned();
    out.append(b);
    out.append(c);
    out
}

/// A relative path below a directory: a slash comes between, unless the directory is empty or
/// ends in one.
pub open spec fn path_below(directory: Seq<char>, path: Seq<char>) -> Seq<char> {
    if directory.len() == 0 || directory.last() == '/' {
        directory + path
    } else {
        directory.push('/') + path
    }
}

/// A relative path below a directory.
pub fn join_path(directory: &str, path: &str) -> (r: String)
    ensures
        r@ == path_below(directory@, path@),
{
    let len = directory.unicode_len();
    let mut out = directory.to_owned();
    if len > 0 && directory.get_char(len - 1) != '/' {
        out.append("/");
        proof {
            reveal_strlit("/");
            assert(out@ =~= directory@.push('/'));
        }
    }
    out.append(path);
    out
}

/// Whether `pattern` stands in `s` at position `at`.
pub open spec fn stands_at(s: Seq<char>, pattern: Seq<char>, at: int) -> bool {
    &&& 0 <= at
    &&& at + pattern.len() <= s.len()
    &&& s.subrange(at, at + pattern.len()) == pattern
}

/// Whether `pattern` occurs anywhere in `s`.
pub open spec fn occurs_in(pattern: Seq<char>, s: Seq<char>) -> bool {
    exists|at: int| stands_at(s, pattern, at)
}

fn chars_stand_at(s: &Vec<char>, pattern: &Vec<char>, at: usize) -> (r: bool)
    requires
        at + pattern@.len() <= s@.len(),
    ensures
        r == stands_at(s@, pattern@, at as int),
{
    let total: usize = s.len();
    let mut k: usize = 0;
    while k < pattern.len()
        invariant
            k <= pattern@.len(),
            total == s@.len(),
            at + pattern@.len() <= s@.len(),
            forall|j: int| 0 <= j < k ==> s@[at + j] == pattern@[j],
        decreases pattern@.len() - k,
    {
        if s[at + k] != pattern[k] {
            assert(s@.subrange(at as int, at + pattern@.len())[k as int] != pattern@[k as int]);
            return false;
        }
        k = k + 1;
    }
    assert(s@.subrange(at as int, at + pattern@.len()) =~= pattern@);
    true
}

/// Whether `s` starts with `prefix`.
pub fn starts_with(s: &str, prefix: &str) -> (r: bool)
    ensures
        r == prefix@.is_prefix_of(s@),
{
    let text = characters(s);
    let wanted = characters(prefix);
    if wanted.len() > text.len() {
        return false;
    }
    chars_stand_at(&text, &wanted, 0)
}

/// Whether `pattern` occurs in `s`.
pub fn contains_text(s: &str, pattern: &str) -> (r: bool)
    ensures
        r == occurs_in(pattern@, s@),
{
    let text = characters(s);
    let wanted = characters(pattern);
    if wanted.len() > text.len() {
        return false;
    }
    let last: usize = text.len() - wanted.len();
    let mut at: usize = 0;
    while at <= last
        invariant
            text@ == s@,
            wanted@ == pattern@,
            wanted@.len() <= text@.len(),
            last == text@.len() - wanted@.len(),
            at <= last + 1,
            forall|j: int| 0 <= j < at ==> !stands_at(text@, wanted@, j),
        decreases last + 1 - at,
    {
        if chars_stand_at(&text, &wanted, at) {
            return true;
        }
        if at == last {
            assert forall|j: int| !stands_at(text@, wanted@, j) by {
                if stands_at(text@, wanted@, j) {
                    assert(j <= last);
                }
            }
            return false;
        }
        at = at + 1;
    }
    false
}

/// The position of the last `c` in `s`, or -1 where there is none.
pub open spec fn last_position(s: Seq<char>, c: char) -> int
    decreases s.len(),
{
    if s.len() == 0 {
        -1
    } else if s.last() == c {
        s.len() - 1
    } else {
        last_position(s.drop_last(), c)
    }
}

/// What stands after the last `c` of `s`: all of `s` where there is no `c`.
pub open spec fn after_last(s: Seq<char>, c: char) -> Seq<char> {
    s.skip(last_position(s, c) + 1)
}

/// What stands before the last `c` of `s`: nothing where there is no `c`.
pub open spec fn before_last(s: Seq<char>, c: char) -> Seq<char> {
    if last_position(s, c) < 0 {
        Seq::empty()
    } else {
        s.take(last_position(s, c))
    }
}

/// `last_position` is a position of `c`, and no later position holds `c`.
pub proof fn lemma_last_position(s: Seq<char>, c: char)
    ensures
        -1 <= last_position(s, c) < s.len(),
        last_position(s, c) >= 0 ==> s[last_position(s, c)] == c,
        forall|j: int| last_position(s, c) < j < s.len() ==> s[j] != c,
    decreases s.len(),
{
    if s.len() > 0 && s.last() != c {
        lemma_last_position(s.drop_last(), c);
        assert forall|j: int| last_position(s, c) < j < s.len() implies s[j] != c by {
            if j < s.len() - 1 {
                assert(s.drop_last()[j] == s[j]);
            }
        }
    }
}

/// The part after the last `c` holds no `c`, and together with the part before it
/// gives back the whole text.
pub proof fn lemma_around_last(s: Seq<char>, c: char)
    ensures
        !after_last(s, c).contains(c),
        s.contains(c) ==> s == before_last(s, c).push(c) + after_last(s, c),
        !s.contains(c) ==> after_last(s, c) == s && before_last(s, c).len() == 0,
{
    lemma_last_position(s, c);
    let p = last_position(s, c);
    assert forall|j: int| 0 <= j < after_last(s, c).len() implies after_last(s, c)[j] != c by {
        assert(after_last(s, c)[j] == s[p + 1 + j]);
    }
    if s.contains(c) {
        let k = choose|k: int| 0 <= k < s.len() && s[k] == c;
        assert(p >= k);
        assert(s =~= before_last(s, c).push(c) + after_last(s, c));
    } else {
        assert(p < 0);
        assert(after_last(s, c) =~= s);
    }
}

/// The position just behind the last `c` of `s`, 0 where there is none.
fn behind_last(s: &str, c: char) -> (r: usize)
    ensures
        r == last_position(s@, c) + 1,
        r <= s@.len(),
{
    let text = characters(s);
    let mut end: usize = text.len();
    proof {
        lemma_last_position(s@, c);
        assert(s@.take(s@.len() as int) =~= s@);
    }
    while end > 0
        invariant
            text@ == s@,
            end <= s@.len(),
            last_position(s@.take(end as int), c) == last_position(s@, c),
        decreases end,
    {
        assert(s@.take(end as int).drop_last() =~= s@.take(end - 1));
        if text[end - 1] == c {
            return end;
        }
        end = end - 1;
    }
    0
}

/// The text after the last `c`.
pub fn text_after_last(s: &str, c: char) -> (r: String)
    ensures
        r@ == after_last(s@, c),
{
    let from = behind_last(s, c);
    let len = s.unicode_len();
    s.substring_char(from, len).to_owned()
}

/// The text before the last `c`, empty where there is none.
pub fn text_before_last(s: &str, c: char) -> (r: String)
    ensures
        r@ == before_last(s@, c),
{
    let behind = behind_last(s, c);
    if behind == 0 {
        String::new()
    } else {
        s.substring_char(0, behind - 1).to_owned()
    }
}

/// The pieces of `s` between its separators. A text without a separator is one piece, and
/// so is the empty text.
pub open spec fn pieces(s: Seq<char>, separator: char) -> Seq<Seq<char>>
    decreases s.len(),
{
    if s.len() == 0 {
        seq![Seq::<char>::empty()]
    } else {
        let before = pieces(s.drop_last(), separator);
        if s.last() == separator {
            before.push(Seq::empty())
        } else {
            before.drop_last().push(before.last().push(s.last()))
        }
    }
}

/// Texts with a separator between each two.
pub open spec fn joined(parts: Seq<Seq<char>>, separator: Seq<char>) -> Seq<char>
    decreases parts.len(),
{
    if parts.len() == 0 {
        Seq::empty()
    } else if parts.len() == 1 {
        parts[0]
    } else {
        joined(parts.drop_last(), separator) + separator + parts.last()
    }
}

/// Joining the pieces of a text gives back the text, and no piece holds the separator.
pub proof fn law_joining_undoes_splitting(s: Seq<char>, separator: char)
    ensures
        pieces(s, separator).len() >= 1,
        joined(pieces(s, separator), seq![separator]) == s,
        forall|i: int|
            0 <= i < pieces(s, separator).len() ==> !(#[trigger] pieces(s, separator)[i]).contains(
                separator,
            ),
    decreases s.len(),
{
    let all = pieces(s, separator);
    let sep = seq![separator];
    if s.len() == 0 {
        assert(all[0].len() == 0);
    } else {
        let before = pieces(s.drop_last(), separator);
        law_joining_undoes_splitting(s.drop_last(), separator);
        if s.last() == separator {
            assert(all.drop_last() =~= before);
            assert(all.last() =~= Seq::<char>::empty());
            assert(joined(all, sep) == joined(before, sep) + sep + Seq::<char>::empty());
            assert(joined(all, sep) =~= s);
        } else {
            assert(all.drop_last() =~= before.drop_last());
            assert(all.last() == before.last().push(s.last()));
            assert(joined(all, sep) =~= joined(before, sep).push(s.last()));
            assert(joined(all, sep) =~= s);
            assert forall|i: int| 0 <= i < all.len() implies !(#[trigger] all[i]).contains(
                separator,
            ) by {
                if i < all.len() - 1 {
                    assert(all[i] == before[i]);
                } else {
                    assert(all[i] == before[i].push(s.last()));
                    assert(!before[i].contains(separator));
                    assert forall|j: int| 0 <= j < all[i].len() implies all[i][j] != separator by {
                        if j < before[i].len() {
                            assert(before[i].contains(before[i][j]));
                        }
                    }
                }
            }
        }
    }
}

/// A text without the separator is one piece.
pub proof fn lemma_one_piece(a: Seq<char>, separator: char)
    requires
        !a.contains(separator),
    ensures
        pieces(a, separator) == seq![a],
    decreases a.len(),
{
    if a.len() == 0 {
        assert(a =~= Seq::<char>::empty());
    } else {
        let front = a.drop_last();
        lemma_front_without(a, separator);
        lemma_one_piece(front, separator);
        assert(front.push(a.last()) =~= a);
        assert(pieces(a, separator) =~= seq![a]);
    }
}

proof fn lemma_front_without(a: Seq<char>, c: char)
    requires
        a.len() > 0,
        !a.contains(c),
    ensures
        !a.drop_last().contains(c),
        a.last() != c,
{
    assert(a.contains(a.last()));
    if a.drop_last().contains(c) {
        let k = choose|k: int| 0 <= k < a.drop_last().len() && a.drop_last()[k] == c;
        assert(a[k] == c);
    }
}

/// What stands behind a separator and has none in it is the last piece.
pub proof fn lemma_last_piece(a: Seq<char>, b: Seq<char>, separator: char)
    requires
        !b.contains(separator),
    ensures
        pieces(a.push(separator) + b, separator) == pieces(a, separator).push(b),
    decreases b.len(),
{
    let whole = a.push(separator) + b;
    let before = pieces(a, separator);
    if b.len() == 0 {
        assert(b =~= Seq::<char>::empty());
        assert(whole =~= a.push(separator));
        assert(whole.drop_last() =~= a);
        assert(pieces(whole, separator) =~= before.push(b));
    } else {
        let front = b.drop_last();
        lemma_front_without(b, separator);
        lemma_last_piece(a, front, separator);
        assert(whole.drop_last() =~= a.push(separator) + front);
        assert(whole.last() == b.last());
        assert(front.push(b.last()) =~= b);
        assert(before.push(front).drop_last() =~= before);
        assert(pieces(whole, separator) =~= before.push(b));
    }
}

/// What stands behind a separator leaves the pieces before it as they are.
pub proof fn lemma_first_pieces(a: Seq<char>, b: Seq<char>, separator: char)
    ensures
        pieces(a.push(separator) + b, separator).len() > pieces(a, separator).len(),
        forall|i: int|
            0 <= i < pieces(a, separator).len() ==> #[trigger] pieces(
                a.push(separator) + b,
                separator,
            )[i] == pieces(a, separator)[i],
    decreases b.len(),
{
    let whole = a.push(separator) + b;
    if b.len() == 0 {
        assert(whole =~= a.push(separator));
        assert(whole.drop_last() =~= a);
    } else {
        lemma_first_pieces(a, b.drop_last(), separator);
        assert(whole.drop_last() =~= a.push(separator) + b.drop_last());
    }
}

/// Joining texts without the separator in them and splitting again gives those texts.
pub proof fn lemma_pieces_of_joined(parts: Seq<Seq<char>>, separator: char)
    requires
        parts.len() > 0,
        forall|i: int| 0 <= i < parts.len() ==> !(#[trigger] parts[i]).contains(separator),
    ensures
        pieces(joined(parts, seq![separator]), separator) == parts,
    decreases parts.len(),
{
    if parts.len() == 1 {
        assert(!parts[0].contains(separator));
        lemma_one_piece(parts[0], separator);
        assert(parts =~= seq![parts[0]]);
    } else {
        let front = parts.drop_last();
        assert forall|i: int| 0 <= i < front.len() implies !(#[trigger] front[i]).contains(
            separator,
        ) by {
            assert(front[i] == parts[i]);
        }
        lemma_pieces_of_joined(front, separator);
        let a = joined(front, seq![separator]);
        let b = parts.last();
        assert(!parts[parts.len() - 1].contains(separator));
        lemma_last_piece(a, b, separator);
        assert(joined(parts, seq![separator]) =~= a.push(separator) + b);
        assert(front.push(b) =~= parts);
    }
}

/// The texts of a vector of strings.
pub open spec fn texts(v: Seq<String>) -> Seq<Seq<char>> {
    v.map_values(|s: String| s@)
}

/// The pieces of `s` between the separators, in order.
pub fn split_text(s: &str, separator: char) -> (r: Vec<String>)
    ensures
        texts(r@) == pieces(s@, separator),
{
    let text = characters(s);
    let mut parts: Vec<String> = Vec::new();
    let mut start: usize = 0;
    let mut at: usize = 0;
    proof {
        assert(s@.take(0) =~= Seq::<char>::empty());
        assert(texts(parts@).push(s@.subrange(0, 0)) =~= pieces(s@.take(0), separator));
    }
    while at < text.len()
        invariant
            text@ == s@,
            start <= at <= s@.len(),
            texts(parts@).push(s@.subrange(start as int, at as int)) == pieces(
                s@.take(at as int),
                separator,
            ),
        decreases s@.len() - at,
    {
        let ghost before = pieces(s@.take(at as int), separator);
        proof {
            assert(s@.take(at + 1).drop_last() =~= s@.take(at as int));
            assert(before.last() == s@.subrange(start as int, at as int));
            assert(before.drop_last() =~= texts(parts@));
        }
        if text[at] == separator {
            let piece = s.substring_char(start, at).to_owned();
            parts.push(piece);
            start = at + 1;
            proof {
                assert(texts(parts@) =~= before);
                assert(s@.subrange(at + 1, at + 1) =~= Seq::<char>::empty());
            }
        } else {
            proof {
                assert(s@.subrange(start as int, at + 1) =~= before.last().push(s@[at as int]));
            }
        }
        at = at + 1;
    }
    let piece = s.substring_char(start, at).to_owned();
    proof {
        assert(s@.take(at as int) =~= s@);
    }
    let ghost done = texts(parts@);
    parts.push(piece);
    proof {
        assert(texts(parts@) =~= done.push(s@.subrange(start as int, at as int)));
    }
    parts
}

/// The strings with a separator between each two.
pub fn join_texts(parts: &Vec<String>, separator: &str) -> (r: String)
    ensures
        r@ == joined(texts(parts@), separator@),
{
    let mut out = String::new();
    let mut i: usize = 0;
    proof {
        assert(texts(parts@).take(0) =~= Seq::<Seq<char>>::empty());
    }
    while i < parts.len()
        invariant
            i <= parts@.len(),
            out@ == joined(texts(parts@).take(i as int), separator@),
        decreases parts@.len() - i,
    {
        proof {
            assert(texts(parts@).take(i + 1).drop_last() =~= texts(parts@).take(i as int));
        }
        if i > 0 {
            out.append(separator);
        }
        out.append(parts[i].as_str());
        proof {
            if i == 0 {
                assert(out@ =~= parts@[0]@);
            }
        }
        i = i + 1;
    }
    proof {
        assert(texts(parts@).take(i as int) =~= texts(parts@));
    }
    out
}

/// The characters with the Unicode property `White_Space`.
pub open spec fn is_white_space(c: char) -> bool {
    let n = c as int;
    ||| 0x9 <= n <= 0xd
    ||| n == 0x20
    ||| n == 0x85
    ||| n == 0xa0
    ||| n == 0x1680
    ||| 0x2000 <= n <= 0x200a
    ||| n == 0x2028
    ||| n == 0x2029
    ||| n == 0x202f
    ||| n == 0x205f
    ||| n == 0x3000
}

/// Whether `c` has the Unicode property `White_Space`.
pub fn white_space(c: char) -> (r: bool)
    ensures
        r == is_white_space(c),
{
    let n: u32 = c as u32;
    (0x9 <= n && n <= 0xd) || n == 0x20 || n == 0x85 || n == 0xa0 || n == 0x1680 || (0x2000 <= n
        && n <= 0x200a) || n == 0x2028 || n == 0x2029 || n == 0x202f || n == 0x205f || n == 0x3000
}

/// `s` without its leading white space.
pub open spec fn trimmed_start(s: Seq<char>) -> Seq<char>
    decreases s.len(),
{
    if s.len() > 0 && is_white_space(s.first()) {
        trimmed_start(s.drop_first())
    } else {
        s
    }
}

/// `s` without its trailing white space.
pub open spec fn trimmed_end(s: Seq<char>) -> Seq<char>
    decreases s.len(),
{
    if s.len() > 0 && is_white_space(s.last()) {
        trimmed_end(s.drop_last())
    } else {
        s
    }
}

/// `s` without its leading and trailing white space.
pub open spec fn trimmed(s: Seq<char>) -> Seq<char> {
    trimmed_end(trimmed_start(s))
}

/// A text with no white space at its ends is left as it is.
pub proof fn lemma_nothing_to_trim(s: Seq<char>)
    requires
        s.len() > 0 ==> !is_white_space(s.first()) && !is_white_space(s.last()),
    ensures
        trimmed(s) == s,
{
}

/// The text without its leading and trailing white space.
pub fn trim_text(s: &str) -> (r: String)
    ensures
        r@ == trimmed(s@),
{
    let text = characters(s);
    let len: usize = text.len();
    let mut from: usize = 0;
    proof {
        assert(s@.subrange(0, len as int) =~= s@);
    }
    while from < len && white_space(text[from])
        invariant
            text@ == s@,
            from <= len == s@.len(),
            trimmed_start(s@.subrange(from as int, len as int)) == trimmed_start(s@),
        decreases len - from,
    {
        proof {
            assert(s@.subrange(from as int, len as int).drop_first() =~= s@.subrange(
                from + 1,
                len as int,
            ));
        }
        from = from + 1;
    }
    let mut to: usize = len;
    proof {
        let rest = s@.subrange(from as int, len as int);
        if from < len {
            assert(rest.first() == s@[from as int]);
        }
        assert(trimmed_start(s@) == rest);
    }
    while to > from && white_space(text[to - 1])
        invariant
            text@ == s@,
            from <= to <= len == s@.len(),
            trimmed_end(s@.subrange(from as int, to as int)) == trimmed(s@),
        decreases to,
    {
        proof {
            assert(s@.subrange(from as int, to as int).drop_last() =~= s@.subrange(
                from as int,
                to - 1,
            ));
        }
        to = to - 1;
    }
    proof {
        let rest = s@.subrange(from as int, to as int);
        if from < to {
            assert(rest.last() == s@[to - 1]);
        }
        assert(trimmed(s@) == rest);
    }
    s.substring_char(from, to).to_owned()
}

/// A path below a directory starts with the directory and ends with the path. One slash stands
/// between them where the directory has none at its end, and nothing else ever does.
pub proof fn law_path_lies_below_the_directory(directory: Seq<char>, path: Seq<char>)
    ensures
        directory.is_prefix_of(path_below(directory, path)),
        path.is_suffix_of(path_below(directory, path)),
        directory.len() > 0 && directory[directory.len() - 1] != '/' ==> {
            &&& path_below(directory, path).len() == directory.len() + 1 + path.len()
            &&& path_below(directory, path)[directory.len() as int] == '/'
        },
        directory.len() == 0 || directory[directory.len() - 1] == '/' ==> path_below(
            directory,
            path,
        ).len() == directory.len() + path.len(),
{
    let whole = path_below(directory, path);
    assert(whole.subrange(0, directory.len() as int) =~= directory);
    assert(whole.subrange(whole.len() - path.len(), whole.len() as int) =~= path);
}

/// A pattern occurs in a text exactly where the text is something, the pattern and something.
pub proof fn law_a_pattern_occurs_between(pattern: Seq<char>, s: Seq<char>)
    ensures
        occurs_in(pattern, s) <==> exists|a: Seq<char>, b: Seq<char>| s == #[trigger] (a + pattern
            + b),
{
    if occurs_in(pattern, s) {
        let at = choose|at: int| stands_at(s, pattern, at);
        let a = s.take(at);
        let b = s.skip(at + pattern.len());
        assert(s =~= a + pattern + b) by {
            assert(s.subrange(at, at + pattern.len()) == pattern);
            assert forall|i: int| 0 <= i < s.len() implies s[i] == (a + pattern + b)[i] by {
                if at <= i < at + pattern.len() {
                    assert(s.subrange(at, at + pattern.len())[i - at] == s[i]);
                }
            }
        }
    }
    if exists|a: Seq<char>, b: Seq<char>| s == #[trigger] (a + pattern + b) {
        let (a, b) = choose|a: Seq<char>, b: Seq<char>| s == #[trigger] (a + pattern + b);
        assert(s.subrange(a.len() as int, a.len() as int + pattern.len()) =~= pattern);
        assert(stands_at(s, pattern, a.len() as int));
    }
}

/// Texts are joined one after the other: one text alone is left as it is, and one more text comes
/// behind a separator.
pub proof fn law_joining_one_more(
    parts: Seq<Seq<char>>,
    part: Seq<char>,
    separator: Seq<char>,
)
    ensures
        joined(Seq::empty(), separator).len() == 0,
        joined(seq![part], separator) == part,
        parts.len() > 0 ==> joined(parts.push(part), separator) == joined(parts, separator)
            + separator + part,
{
    assert(parts.push(part).drop_last() =~= parts);
}

/// The texts of strings are their characters, each in its place.
pub proof fn law_texts_are_those_of_the_strings(v: Seq<String>)
    ensures
        texts(v).len() == v.len(),
        forall|i: int| 0 <= i < v.len() ==> #[trigger] texts(v)[i] == v[i]@,
{
}

/// White space around a text is trimmed off, all of it and nothing else: a text with none at its
/// ends comes out character for character.
pub proof fn law_only_white_space_is_trimmed(a: Seq<char>, s: Seq<char>, b: Seq<char>)
    requires
        forall|i: int| 0 <= i < a.len() ==> is_white_space(#[trigger] a[i]),
        forall|i: int| 0 <= i < b.len() ==> is_white_space(#[trigger] b[i]),
        s.len() > 0 ==> !is_white_space(s[0]) && !is_white_space(s[s.len() - 1]),
    ensures
        trimmed(a + s + b) == s,
        trimmed(s) == s,
{
    lemma_trimmed_in_front(a, s + b);
    assert(a + s + b =~= a + (s + b));
    if s.len() == 0 {
        assert(s + b =~= b + s);
        lemma_trimmed_in_front(b, s);
        assert(trimmed_start(s) == s);
    } else {
        assert((s + b)[0] == s[0]);
        assert(trimmed_start(s + b) == s + b);
        lemma_trimmed_behind(s, b);
    }
}

proof fn lemma_trimmed_in_front(a: Seq<char>, s: Seq<char>)
    requires
        forall|i: int| 0 <= i < a.len() ==> is_white_space(#[trigger] a[i]),
    ensures
        trimmed_start(a + s) == trimmed_start(s),
    decreases a.len(),
{
    if a.len() == 0 {
        assert(a + s =~= s);
    } else {
        let rest = a.drop_first();
        assert(is_white_space(a[0]));
        assert forall|i: int| 0 <= i < rest.len() implies is_white_space(#[trigger] rest[i]) by {
            assert(rest[i] == a[i + 1]);
        }
        lemma_trimmed_in_front(rest, s);
        assert((a + s).drop_first() =~= rest + s);
        assert((a + s).first() == a[0]);
    }
}

proof fn lemma_trimmed_behind(s: Seq<char>, b: Seq<char>)
    requires
        s.len() > 0,
        !is_white_space(s[s.len() - 1]),
        forall|i: int| 0 <= i < b.len() ==> is_white_space(#[trigger] b[i]),
    ensures
        trimmed_end(s + b) == s,
    decreases b.len(),
{
    if b.len() == 0 {
        assert(s + b =~= s);
    } else {
        let front = b.drop_last();
        assert(is_white_space(b[b.len() - 1]));
        assert forall|i: int| 0 <= i < front.len() implies is_white_space(#[trigger] front[i]) by {
            assert(front[i] == b[i]);
        }
        lemma_trimmed_behind(s, front);
        assert((s + b).drop_last() =~= s + front);
        assert((s + b).last() == b[b.len() - 1]);
    }
}

/// No printable ASCII character is white space; space, tabulator and line ends are.
pub proof fn law_white_space_is_not_printed(c: char)
    ensures
        '!' <= c <= '~' ==> !is_white_space(c),
        c == ' ' || c == '\t' || c == '\n' || c == '\r' ==> is_white_space(c),
{
}

/// White space is what Unicode has under that property: five control characters and the next-line
/// character, the space and its wider and narrower forms, and the separators of lines and
/// paragraphs. Characters of no width are not among them.
pub proof fn law_white_space_is_that_of_unicode(c: char)
    ensures
        is_white_space(c) <==> {
            ||| c == '\t' || c == '\n' || c == '\u{b}' || c == '\u{c}' || c == '\r'
            ||| c == ' ' || c == '\u{85}' || c == '\u{a0}' || c == '\u{1680}'
            ||| c == '\u{2000}' || c == '\u{2001}' || c == '\u{2002}' || c == '\u{2003}'
            ||| c == '\u{2004}' || c == '\u{2005}' || c == '\u{2006}' || c == '\u{2007}'
            ||| c == '\u{2008}' || c == '\u{2009}' || c == '\u{200a}'
            ||| c == '\u{2028}' || c == '\u{2029}' || c == '\u{202f}'
            ||| c == '\u{205f}' || c == '\u{3000}'
        },
        c == '\u{200b}' || c == '\u{2060}' || c == '\u{feff}' ==> !is_white_space(c),
{
}

} // verus!
