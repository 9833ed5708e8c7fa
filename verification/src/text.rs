//! Operations on text, described over sequences of characters.
use vstd::prelude::*;

verus! {

/// Position of the first `c` in `s`, or the length of `s` where `c` does not occur.
pub open spec fn first_index(s: Seq<char>, c: char) -> int
    decreases s.len(),
{
    if s.len() == 0 || s[0] == c {
        0
    } else {
        1 + first_index(s.skip(1), c)
    }
}

/// Position of the last `c` in `s`, or -1 where `c` does not occur.
pub open spec fn last_index(s: Seq<char>, c: char) -> int
    decreases s.len(),
{
    if s.len() == 0 {
        -1
    } else if s.last() == c {
        s.len() - 1
    } else {
        last_index(s.drop_last(), c)
    }
}

/// The part of `s` before the first `c`; all of `s` where `c` does not occur.
pub open spec fn before_first(s: Seq<char>, c: char) -> Seq<char> {
    s.take(first_index(s, c))
}

/// The part of `s` after the last `c`; all of `s` where `c` does not occur.
pub open spec fn after_last(s: Seq<char>, c: char) -> Seq<char> {
    s.skip(last_index(s, c) + 1)
}

/// The pieces of `s` between the occurrences of `c`, in order.
pub open spec fn split(s: Seq<char>, c: char) -> Seq<Seq<char>>
    decreases s.len(),
{
    let i = first_index(s, c);
    if 0 <= i < s.len() {
        seq![s.take(i)] + split(s.skip(i + 1), c)
    } else {
        seq![s]
    }
}

/// Whether `s` ends with `pat`.
pub open spec fn ends_with(s: Seq<char>, pat: Seq<char>) -> bool {
    pat.len() <= s.len() && s.skip(s.len() - pat.len()) == pat
}

/// Whether `s` starts with `pat`.
pub open spec fn starts_with(s: Seq<char>, pat: Seq<char>) -> bool {
    pat.len() <= s.len() && s.take(pat.len() as int) == pat
}

/// Whether `pat` occurs in `s` as a run of neighbouring characters.
pub open spec fn contains_run(s: Seq<char>, pat: Seq<char>) -> bool {
    exists|i: int| occurs_at(s, pat, i)
}

/// Whether `pat` occurs in `s` at position `i`.
pub open spec fn occurs_at(s: Seq<char>, pat: Seq<char>, i: int) -> bool {
    0 <= i && i + pat.len() <= s.len() && s.subrange(i, i + pat.len()) == pat
}

/// `s` with every trailing copy of `pat` taken off.
pub open spec fn trim_end_matches(s: Seq<char>, pat: Seq<char>) -> Seq<char>
    decreases s.len(),
{
    if pat.len() > 0 && ends_with(s, pat) {
        trim_end_matches(s.take(s.len() - pat.len()), pat)
    } else {
        s
    }
}

/// How many of the leading flags are set.
pub open spec fn leading(flags: Seq<bool>) -> int
    decreases flags.len(),
{
    if flags.len() == 0 || !flags[0] {
        0
    } else {
        1 + leading(flags.skip(1))
    }
}

/// How many of the trailing flags are set.
pub open spec fn trailing(flags: Seq<bool>) -> int
    decreases flags.len(),
{
    if flags.len() == 0 || !flags.last() {
        0
    } else {
        1 + trailing(flags.drop_last())
    }
}

/// `s` without its flagged ends: the longest flagged prefix and suffix are taken off.
pub open spec fn trim_flagged(s: Seq<char>, flags: Seq<bool>) -> Seq<char> {
    if leading(flags) >= flags.len() {
        Seq::empty()
    } else {
        s.subrange(leading(flags), s.len() - trailing(flags))
    }
}

/// The first `n` characters of `s`, with a blank behind each character that is flagged as
/// lower case and stands before one flagged as upper case.
pub open spec fn break_words(s: Seq<char>, lower: Seq<bool>, upper: Seq<bool>, n: int) -> Seq<char>
    decreases n,
{
    if n <= 0 {
        Seq::empty()
    } else {
        let head = break_words(s, lower, upper, n - 1).push(s[n - 1]);
        if n < s.len() && lower[n - 1] && upper[n] {
            head.push(' ')
        } else {
            head
        }
    }
}

/// What ASCII case folding makes of a character.
pub open spec fn ascii_folded(c: char) -> char {
    if 'A' <= c <= 'Z' {
        ((c as u32) + 32) as char
    } else {
        c
    }
}

/// Whether two texts are the same up to the case of ASCII letters.
pub open spec fn equal_ignoring_ascii_case(a: Seq<char>, b: Seq<char>) -> bool {
    a.len() == b.len() && forall|i: int|
        0 <= i < a.len() ==> ascii_folded(#[trigger] a[i]) == ascii_folded(b[i])
}

/// The first occurrence of a character, where there is one, has none before it.
pub proof fn lemma_first_index(s: Seq<char>, c: char)
    ensures
        0 <= first_index(s, c) <= s.len(),
        first_index(s, c) < s.len() ==> s[first_index(s, c)] == c,
        forall|j: int| 0 <= j < first_index(s, c) ==> s[j] != c,
        s.contains(c) <==> first_index(s, c) < s.len(),
    decreases s.len(),
{
    if s.len() > 0 && s[0] != c {
        let t = s.skip(1);
        lemma_first_index(t, c);
        assert forall|j: int| 0 <= j < first_index(s, c) implies s[j] != c by {
            if j > 0 {
                assert(t[j - 1] == s[j]);
            }
        }
        if s.contains(c) {
            let k = choose|k: int| 0 <= k < s.len() && s[k] == c;
            assert(t[k - 1] == c);
        }
    }
}

/// The first occurrence is the one with none before it.
pub proof fn lemma_first_index_is(s: Seq<char>, c: char, i: int)
    requires
        0 <= i <= s.len(),
        forall|j: int| 0 <= j < i ==> s[j] != c,
        i < s.len() ==> s[i] == c,
    ensures
        first_index(s, c) == i,
{
    lemma_first_index(s, c);
    let k = first_index(s, c);
    if k < i {
        assert(s[k] != c);
    }
}

/// The last occurrence of a character, where there is one, has none behind it.
pub proof fn lemma_last_index(s: Seq<char>, c: char)
    ensures
        -1 <= last_index(s, c) < s.len(),
        last_index(s, c) >= 0 ==> s[last_index(s, c)] == c,
        forall|j: int| last_index(s, c) < j < s.len() ==> s[j] != c,
    decreases s.len(),
{
    if s.len() > 0 && s.last() != c {
        let t = s.drop_last();
        lemma_last_index(t, c);
        assert forall|j: int| last_index(s, c) < j < s.len() implies s[j] != c by {
            if j < s.len() - 1 {
                assert(t[j] == s[j]);
            }
        }
    }
}

/// The last occurrence is the one with none behind it.
pub proof fn lemma_last_index_is(s: Seq<char>, c: char, i: int)
    requires
        -1 <= i < s.len(),
        forall|j: int| i < j < s.len() ==> s[j] != c,
        i >= 0 ==> s[i] == c,
    ensures
        last_index(s, c) == i,
{
    lemma_last_index(s, c);
    let k = last_index(s, c);
    if k > i {
        assert(s[k] != c);
    }
}

/// Splitting gives at least one piece, and more than one exactly where the separator occurs.
pub proof fn lemma_split_pieces(s: Seq<char>, c: char)
    ensures
        split(s, c).len() >= 1,
        split(s, c).len() == 1 <==> !s.contains(c),
        !s.contains(c) ==> split(s, c) == seq![s],
    decreases s.len(),
{
    lemma_first_index(s, c);
    let i = first_index(s, c);
    if i < s.len() {
        lemma_split_pieces(s.skip(i + 1), c);
    }
}

/// The characters of a text.
pub fn to_chars(s: &str) -> (chars: Vec<char>)
    ensures
        chars@ == s@,
{
    let mut chars: Vec<char> = Vec::new();
    for c in it: s.chars()
        invariant
            it.seq() == s@,
            chars@ == s@.take(it.index() as int),
    {
        chars.push(c);
        proof {
            assert(s@.take(it.index() + 1) =~= s@.take(it.index() as int).push(c));
        }
    }
    proof {
        assert(s@.take(s@.len() as int) =~= s@);
    }
    chars
}

/// `String::push` of the standard library: the character is appended.
pub assume_specification[ String::push ](s: &mut String, c: char)
    ensures
        final(s)@ == old(s)@.push(c),
;

/// Whether `c` occurs in `s`.
pub fn has_char(s: &str, c: char) -> (found: bool)
    ensures
        found == s@.contains(c),
{
    let n: usize = s.unicode_len();
    let i: usize = position_of_first(s, c);
    proof {
        lemma_first_index(s@, c);
    }
    i < n
}

/// Position of the first `c` in `s`, or the number of characters where there is none.
pub fn position_of_first(s: &str, c: char) -> (i: usize)
    ensures
        i == first_index(s@, c),
        i <= s@.len(),
{
    let n: usize = s.unicode_len();
    let mut i: usize = 0;
    for ch in it: s.chars()
        invariant
            i == it.index(),
            it.seq() == s@,
            n == s@.len(),
            forall|j: int| 0 <= j < i ==> s@[j] != c,
    {
        if ch == c {
            proof {
                lemma_first_index_is(s@, c, i as int);
            }
            return i;
        }
        i = i + 1;
    }
    proof {
        lemma_first_index_is(s@, c, i as int);
    }
    i
}

/// The part of `s` before the first `c`, or all of it.
pub fn text_before_first<'a>(s: &'a str, c: char) -> (part: &'a str)
    ensures
        part@ == before_first(s@, c),
{
    let i: usize = position_of_first(s, c);
    s.substring_char(0, i)
}

/// Where the part of `s` behind the last `c` starts: 0 where there is no `c`.
pub fn start_after_last(s: &str, c: char) -> (start: usize)
    ensures
        start == last_index(s@, c) + 1,
        start <= s@.len(),
{
    let n: usize = s.unicode_len();
    let mut i: usize = 0;
    let mut start: usize = 0;
    for ch in it: s.chars()
        invariant
            i == it.index(),
            it.seq() == s@,
            n == s@.len(),
            start <= i,
            start > 0 ==> s@[start - 1] == c,
            forall|j: int| start <= j < i ==> s@[j] != c,
    {
        i = i + 1;
        if ch == c {
            start = i;
        }
    }
    proof {
        lemma_last_index_is(s@, c, start - 1);
    }
    start
}

/// The part of `s` behind the last `c`, or all of it.
pub fn text_after_last<'a>(s: &'a str, c: char) -> (part: &'a str)
    ensures
        part@ == after_last(s@, c),
{
    let n: usize = s.unicode_len();
    let start: usize = start_after_last(s, c);
    s.substring_char(start, n)
}

/// The pieces of `s` between the occurrences of `c`.
pub fn split_text<'a>(s: &'a str, c: char) -> (pieces: Vec<&'a str>)
    ensures
        pieces@.map_values(|p: &'a str| p@) == split(s@, c),
{
    let mut pieces: Vec<&'a str> = Vec::new();
    let n: usize = s.unicode_len();
    let mut start: usize = 0;
    proof {
        assert(s@.skip(0) =~= s@);
        assert(pieces@.map_values(|p: &'a str| p@) + split(s@.skip(0), c) =~= split(s@, c));
    }
    loop
        invariant
            start <= n,
            n == s@.len(),
            pieces@.map_values(|p: &'a str| p@) + split(s@.skip(start as int), c) == split(s@, c),
        decreases n - start,
    {
        let rest: &'a str = s.substring_char(start, n);
        let i: usize = position_of_first(rest, c);
        let ghost before = pieces@.map_values(|p: &'a str| p@);
        proof {
            assert(s@.skip(start as int) =~= rest@);
        }
        if i == n - start {
            pieces.push(rest);
            proof {
                assert(pieces@.map_values(|p: &'a str| p@) =~= before.push(rest@));
                assert(before + split(rest@, c) =~= before.push(rest@));
            }
            return pieces;
        }
        let piece: &'a str = rest.substring_char(0, i);
        pieces.push(piece);
        proof {
            assert(piece@ =~= rest@.take(i as int));
            assert(s@.skip(start + i + 1) =~= rest@.skip(i + 1));
            assert(pieces@.map_values(|p: &'a str| p@) =~= before.push(piece@));
            assert(before.push(piece@) + split(rest@.skip(i + 1), c) =~= before + split(rest@, c));
        }
        start = start + i + 1;
    }
}

/// Whether the two texts hold the same characters.
pub fn same_text(a: &str, b: &str) -> (same: bool)
    ensures
        same == (a@ == b@),
{
    let x: Vec<char> = to_chars(a);
    let y: Vec<char> = to_chars(b);
    if x.len() != y.len() {
        return false;
    }
    proof {
        assert(a@.subrange(0, a@.len() as int) =~= a@);
    }
    runs_match(&x, 0, &y)
}

/// Whether the characters of `s` from `at` on start with those of `pat`.
fn runs_match(s: &Vec<char>, at: usize, pat: &Vec<char>) -> (same: bool)
    requires
        at + pat@.len() <= s@.len(),
    ensures
        same == (s@.subrange(at as int, at + pat@.len()) == pat@),
{
    let ghost run = s@.subrange(at as int, at + pat@.len());
    let n: usize = s.len();
    for i in 0..pat.len()
        invariant
            n == s@.len(),
            at + pat@.len() <= n,
            run == s@.subrange(at as int, at + pat@.len()),
            forall|j: int| 0 <= j < i ==> run[j] == pat@[j],
    {
        if s[at + i] != pat[i] {
            proof {
                assert(run[i as int] != pat@[i as int]);
            }
            return false;
        }
    }
    proof {
        assert(run =~= pat@);
    }
    true
}

/// Whether `s` ends with `pat`.
pub fn text_ends_with(s: &str, pat: &str) -> (yes: bool)
    ensures
        yes == ends_with(s@, pat@),
{
    let x: Vec<char> = to_chars(s);
    let y: Vec<char> = to_chars(pat);
    if y.len() > x.len() {
        return false;
    }
    let at: usize = x.len() - y.len();
    proof {
        assert(s@.skip(at as int) =~= s@.subrange(at as int, at + pat@.len()));
    }
    runs_match(&x, at, &y)
}

/// Whether `s` starts with `pat`.
pub fn text_starts_with(s: &str, pat: &str) -> (yes: bool)
    ensures
        yes == starts_with(s@, pat@),
{
    let x: Vec<char> = to_chars(s);
    let y: Vec<char> = to_chars(pat);
    if y.len() > x.len() {
        return false;
    }
    proof {
        assert(s@.take(pat@.len() as int) =~= s@.subrange(0, pat@.len() as int));
    }
    runs_match(&x, 0, &y)
}

/// Whether `pat` occurs in `s`.
pub fn text_contains(s: &str, pat: &str) -> (yes: bool)
    ensures
        yes == contains_run(s@, pat@),
{
    let x: Vec<char> = to_chars(s);
    let y: Vec<char> = to_chars(pat);
    if y.len() > x.len() {
        return false;
    }
    let last: usize = x.len() - y.len();
    let mut at: usize = 0;
    while at <= last
        invariant
            x@ == s@,
            y@ == pat@,
            last == x@.len() - y@.len(),
            at <= last + 1,
            last <= x@.len(),
            forall|j: int| 0 <= j < at ==> !occurs_at(s@, pat@, j),
        decreases last + 1 - at,
    {
        if runs_match(&x, at, &y) {
            proof {
                assert(occurs_at(s@, pat@, at as int));
            }
            return true;
        }
        if at == last {
            return false;
        }
        at = at + 1;
    }
    false
}

/// `s` with every trailing copy of `pat` taken off.
pub fn text_trim_end_matches<'a>(s: &'a str, pat: &str) -> (part: &'a str)
    ensures
        part@ == trim_end_matches(s@, pat@),
{
    let x: Vec<char> = to_chars(s);
    let y: Vec<char> = to_chars(pat);
    let mut end: usize = x.len();
    proof {
        assert(s@.take(end as int) =~= s@);
    }
    while y.len() > 0 && y.len() <= end
        invariant
            x@ == s@,
            y@ == pat@,
            end <= x@.len(),
            trim_end_matches(s@.take(end as int), pat@) == trim_end_matches(s@, pat@),
        ensures
            end <= x@.len(),
            s@.take(end as int) == trim_end_matches(s@, pat@),
        decreases end,
    {
        let ghost head = s@.take(end as int);
        let at: usize = end - y.len();
        proof {
            assert(head.skip(at as int) =~= x@.subrange(at as int, at + y@.len()));
            assert(head.take(at as int) =~= s@.take(at as int));
        }
        if !runs_match(&x, at, &y) {
            break;
        }
        end = at;
    }
    s.substring_char(0, end)
}

/// `s` without its flagged ends.
pub fn text_trim_flagged<'a>(s: &'a str, flags: &Vec<bool>) -> (part: &'a str)
    requires
        flags@.len() == s@.len(),
    ensures
        part@ == trim_flagged(s@, flags@),
{
    let n: usize = flags.len();
    let mut start: usize = 0;
    proof {
        assert(flags@.skip(0) =~= flags@);
        assert(flags@.take(n as int) =~= flags@);
    }
    while start < n && flags[start]
        invariant
            n == flags@.len(),
            start <= n,
            leading(flags@) == start + leading(flags@.skip(start as int)),
        decreases n - start,
    {
        proof {
            assert(flags@.skip(start as int).skip(1) =~= flags@.skip(start + 1));
        }
        start = start + 1;
    }
    proof {
        assert(leading(flags@.skip(start as int)) == 0);
    }
    if start == n {
        return s.substring_char(0, 0);
    }
    let mut end: usize = n;
    while flags[end - 1]
        invariant
            n == flags@.len(),
            start < end <= n,
            !flags@[start as int],
            trailing(flags@) == (n - end) + trailing(flags@.take(end as int)),
        decreases end,
    {
        proof {
            assert(flags@.take(end as int).drop_last() =~= flags@.take(end - 1));
        }
        end = end - 1;
    }
    proof {
        assert(trailing(flags@.take(end as int)) == 0);
    }
    s.substring_char(start, end)
}

/// `s` with a blank wherever a character flagged as lower case stands before one flagged as
/// upper case.
pub fn text_break_words(s: &str, lower: &Vec<bool>, upper: &Vec<bool>) -> (broken: String)
    requires
        lower@.len() == s@.len(),
        upper@.len() == s@.len(),
    ensures
        broken@ == break_words(s@, lower@, upper@, s@.len() as int),
{
    let chars: Vec<char> = to_chars(s);
    let n: usize = chars.len();
    let mut broken = String::new();
    for i in 0..n
        invariant
            chars@ == s@,
            n == s@.len(),
            lower@.len() == n,
            upper@.len() == n,
            broken@ == break_words(s@, lower@, upper@, i as int),
    {
        broken.push(chars[i]);
        if i + 1 < n && lower[i] && upper[i + 1] {
            broken.push(' ');
        }
    }
    broken
}

/// What ASCII case folding makes of a character.
fn ascii_fold(c: char) -> (folded: u32)
    ensures
        folded == ascii_folded(c) as u32,
{
    if 'A' <= c && c <= 'Z' {
        c as u32 + 32
    } else {
        c as u32
    }
}

/// Whether two texts are the same up to the case of ASCII letters.
pub fn text_equal_ignoring_ascii_case(a: &str, b: &str) -> (same: bool)
    ensures
        same == equal_ignoring_ascii_case(a@, b@),
{
    let x: Vec<char> = to_chars(a);
    let y: Vec<char> = to_chars(b);
    if x.len() != y.len() {
        return false;
    }
    for i in 0..x.len()
        invariant
            x@ == a@,
            y@ == b@,
            x@.len() == y@.len(),
            forall|j: int| 0 <= j < i ==> ascii_folded(#[trigger] a@[j]) == ascii_folded(b@[j]),
    {
        if ascii_fold(x[i]) != ascii_fold(y[i]) {
            proof {
                assert(ascii_folded(a@[i as int]) != ascii_folded(b@[i as int]));
            }
            return false;
        }
    }
    true
}

/// The pieces, with a separator between each two of them.
pub open spec fn join(pieces: Seq<Seq<char>>, c: char) -> Seq<char>
    decreases pieces.len(),
{
    if pieces.len() == 0 {
        Seq::empty()
    } else if pieces.len() == 1 {
        pieces[0]
    } else {
        pieces[0].push(c) + join(pieces.skip(1), c)
    }
}

/// A text stands before its first separator as it stands in the whole: without the separator, and
/// up to the place where that comes first.
pub proof fn law_before_first(s: Seq<char>, c: char)
    ensures
        ({
            let part = before_first(s, c);
            &&& part.len() <= s.len()
            &&& part == s.subrange(0, part.len() as int)
            &&& forall|i: int| 0 <= i < part.len() ==> part[i] != c
            &&& s.contains(c) ==> part.len() < s.len() && s[part.len() as int] == c
            &&& !s.contains(c) ==> part == s
        }),
{
    lemma_first_index(s, c);
    let part = before_first(s, c);
    assert(part =~= s.subrange(0, part.len() as int));
    if !s.contains(c) {
        assert(part =~= s);
    }
}

/// What stands behind the last separator has none in it, reaches to the end, and follows the
/// separator directly.
pub proof fn law_after_last(s: Seq<char>, c: char)
    ensures
        ({
            let part = after_last(s, c);
            let start = s.len() - part.len();
            &&& 0 <= start
            &&& part == s.subrange(start, s.len() as int)
            &&& forall|i: int| 0 <= i < part.len() ==> part[i] != c
            &&& s.contains(c) ==> start > 0 && s[start - 1] == c
            &&& !s.contains(c) ==> part == s
        }),
{
    lemma_last_index(s, c);
    let k = last_index(s, c);
    let part = after_last(s, c);
    let start = s.len() - part.len();
    assert(part =~= s.subrange(start, s.len() as int));
    assert forall|i: int| 0 <= i < part.len() implies part[i] != c by {
        assert(part[i] == s[i + k + 1]);
    }
    if s.contains(c) {
        let j = choose|j: int| 0 <= j < s.len() && s[j] == c;
        assert(k >= j);
    } else {
        if k >= 0 {
            assert(s.contains(s[k]));
        }
        assert(part =~= s);
    }
}

/// Splitting loses nothing: the pieces hold no separator, and put together with it they make up
/// the text.
pub proof fn law_split_pieces_join(s: Seq<char>, c: char)
    ensures
        join(split(s, c), c) == s,
        forall|k: int|
            0 <= k < split(s, c).len() ==> !(#[trigger] split(s, c)[k]).contains(c),
    decreases s.len(),
{
    lemma_first_index(s, c);
    let i = first_index(s, c);
    if i < s.len() {
        let rest = s.skip(i + 1);
        law_split_pieces_join(rest, c);
        lemma_split_pieces(rest, c);
        let pieces = split(s, c);
        assert(pieces[0] == s.take(i));
        assert(pieces.skip(1) =~= split(rest, c));
        assert(s.take(i).push(c) + rest =~= s);
        assert forall|k: int| 0 <= k < pieces.len() implies !(#[trigger] pieces[k]).contains(c) by {
            if k == 0 {
                assert forall|j: int| 0 <= j < i implies s.take(i)[j] != c by {}
            } else {
                assert(pieces[k] == split(rest, c)[k - 1]);
            }
        }
    } else {
        assert(split(s, c) =~= seq![s]);
    }
}

/// A text made of a piece without the separator, the separator and a rest splits into that piece
/// and the pieces of the rest.
pub proof fn law_split_takes_first_piece(piece: Seq<char>, rest: Seq<char>, c: char)
    requires
        !piece.contains(c),
    ensures
        split(piece.push(c) + rest, c) == seq![piece] + split(rest, c),
{
    let s = piece.push(c) + rest;
    assert forall|j: int| 0 <= j < piece.len() implies s[j] != c by {
        assert(s[j] == piece[j]);
        assert(piece.contains(piece[j]));
    }
    lemma_first_index_is(s, c, piece.len() as int);
    assert(s.take(piece.len() as int) =~= piece);
    assert(s.skip(piece.len() as int + 1) =~= rest);
}

/// A text starts with another one where they agree in every character of that one.
pub proof fn law_starts_with(s: Seq<char>, pat: Seq<char>)
    ensures
        starts_with(s, pat) <==> pat.len() <= s.len() && forall|i: int|
            0 <= i < pat.len() ==> s[i] == pat[i],
{
    if pat.len() <= s.len() {
        let head = s.take(pat.len() as int);
        if starts_with(s, pat) {
            assert forall|i: int| 0 <= i < pat.len() implies s[i] == pat[i] by {
                assert(head[i] == s[i]);
            }
        } else {
            assert(!(head =~= pat));
        }
    }
}

/// A text ends with another one where its last characters are those of that one.
pub proof fn law_ends_with(s: Seq<char>, pat: Seq<char>)
    ensures
        ends_with(s, pat) <==> pat.len() <= s.len() && forall|i: int|
            0 <= i < pat.len() ==> s[s.len() - pat.len() + i] == pat[i],
{
    if pat.len() <= s.len() {
        let tail = s.skip(s.len() - pat.len());
        if ends_with(s, pat) {
            assert forall|i: int| 0 <= i < pat.len() implies s[s.len() - pat.len() + i] == pat[i] by {
                assert(tail[i] == s[s.len() - pat.len() + i]);
            }
        } else {
            assert(!(tail =~= pat));
        }
    }
}

/// A text occurs in another one where that consists of something, the text, and something.
pub proof fn law_contains_run(s: Seq<char>, pat: Seq<char>)
    ensures
        contains_run(s, pat) <==> exists|before: Seq<char>, after: Seq<char>|
            s == #[trigger] (before + pat + after),
{
    if contains_run(s, pat) {
        let i = choose|i: int| occurs_at(s, pat, i);
        let before = s.take(i);
        let after = s.skip(i + pat.len());
        assert(s =~= before + pat + after);
    }
    if exists|before: Seq<char>, after: Seq<char>| s == #[trigger] (before + pat + after) {
        let (before, after) = choose|before: Seq<char>, after: Seq<char>|
            s == #[trigger] (before + pat + after);
        assert(s.subrange(before.len() as int, before.len() as int + pat.len()) =~= pat);
        assert(occurs_at(s, pat, before.len() as int));
    }
}

/// Taking trailing copies of a text off leaves the beginning, which does not end with another
/// copy; and what was taken off are whole copies.
pub proof fn law_trim_end_matches(s: Seq<char>, pat: Seq<char>)
    requires
        pat.len() > 0,
    ensures
        ({
            let part = trim_end_matches(s, pat);
            &&& part.len() <= s.len()
            &&& part == s.subrange(0, part.len() as int)
            &&& !(part.len() >= pat.len() && part.subrange(
                part.len() - pat.len(),
                part.len() as int,
            ) == pat)
            &&& (s.len() - part.len()) % pat.len() as int == 0
            &&& forall|i: int|
                part.len() <= i < s.len() ==> s[i] == pat[(i - part.len()) % pat.len() as int]
        }),
    decreases s.len(),
{
    let part = trim_end_matches(s, pat);
    let n = pat.len() as int;
    if ends_with(s, pat) {
        let shorter = s.take(s.len() - n);
        law_trim_end_matches(shorter, pat);
        assert(part =~= s.subrange(0, part.len() as int));
        let q = (shorter.len() - part.len()) / n;
        vstd::arithmetic::div_mod::lemma_fundamental_div_mod(shorter.len() - part.len(), n);
        assert(n * (q + 1) == n * q + n) by (nonlinear_arith);
        assert(s.len() - part.len() == n * (q + 1));
        assert((q + 1) * n == n * (q + 1)) by (nonlinear_arith);
        vstd::arithmetic::div_mod::lemma_fundamental_div_mod_converse(
            s.len() - part.len(),
            n,
            q + 1,
            0,
        );
        assert forall|i: int| part.len() <= i < s.len() implies s[i] == pat[(i - part.len()) % n] by {
            if i < shorter.len() {
                assert(s[i] == shorter[i]);
            } else {
                let k = i - shorter.len();
                assert(s.skip(s.len() - n)[k] == s[i]);
                assert(i - part.len() == n * q + k);
                assert(q * n == n * q) by (nonlinear_arith);
                vstd::arithmetic::div_mod::lemma_fundamental_div_mod_converse(
                    i - part.len(),
                    n,
                    q,
                    k,
                );
            }
        }
    } else {
        assert(part =~= s.subrange(0, part.len() as int));
        if part.len() >= n && part.subrange(part.len() - n, part.len() as int) == pat {
            assert(s.skip(s.len() - n) =~= part.subrange(part.len() - n, part.len() as int));
        }
        vstd::arithmetic::div_mod::lemma_small_mod(0, pat.len());
    }
}

/// Of a text that ends with another one, and does so only once, exactly that one is taken off.
pub proof fn law_one_suffix_is_taken_off(base: Seq<char>, pat: Seq<char>)
    requires
        pat.len() > 0,
        !ends_with(base, pat),
    ensures
        trim_end_matches(base + pat, pat) == base,
        trim_end_matches(base, pat) == base,
{
    let s = base + pat;
    assert(s.skip(s.len() - pat.len()) =~= pat);
    assert(s.take(s.len() - pat.len()) =~= base);
    assert(trim_end_matches(base, pat) == base);
    assert(trim_end_matches(s, pat) == trim_end_matches(s.take(s.len() - pat.len()), pat));
}

/// How many of the leading flags are set.
proof fn lemma_leading(flags: Seq<bool>)
    ensures
        0 <= leading(flags) <= flags.len(),
        forall|i: int| 0 <= i < leading(flags) ==> flags[i],
        leading(flags) < flags.len() ==> !flags[leading(flags)],
    decreases flags.len(),
{
    if flags.len() > 0 && flags[0] {
        let rest = flags.skip(1);
        lemma_leading(rest);
        assert forall|i: int| 0 <= i < leading(flags) implies flags[i] by {
            if i > 0 {
                assert(rest[i - 1] == flags[i]);
            }
        }
        if leading(flags) < flags.len() {
            assert(rest[leading(rest)] == flags[leading(flags)]);
        }
    }
}

/// How many of the trailing flags are set.
proof fn lemma_trailing(flags: Seq<bool>)
    ensures
        0 <= trailing(flags) <= flags.len(),
        forall|i: int| flags.len() - trailing(flags) <= i < flags.len() ==> flags[i],
        trailing(flags) < flags.len() ==> !flags[flags.len() - trailing(flags) - 1],
    decreases flags.len(),
{
    if flags.len() > 0 && flags.last() {
        let rest = flags.drop_last();
        lemma_trailing(rest);
        assert forall|i: int| flags.len() - trailing(flags) <= i < flags.len() implies flags[i] by {
            if i < rest.len() {
                assert(rest[i] == flags[i]);
            }
        }
        if trailing(flags) < flags.len() {
            assert(rest[rest.len() - trailing(rest) - 1] == flags[flags.len() - trailing(flags)
                - 1]);
        }
    }
}

/// Trimming takes flagged characters off both ends, and only those: what is left neither begins
/// nor ends with a flagged one.
pub proof fn law_trim_flagged(s: Seq<char>, flags: Seq<bool>)
    requires
        flags.len() == s.len(),
    ensures
        ({
            let part = trim_flagged(s, flags);
            exists|from: int|
                0 <= from && from + part.len() <= s.len() && part == #[trigger] s.subrange(
                    from,
                    from + part.len(),
                ) && (forall|i: int| 0 <= i < from ==> flags[i]) && (forall|i: int|
                    from + part.len() <= i < s.len() ==> flags[i]) && (part.len() > 0
                    ==> !flags[from] && !flags[from + part.len() - 1])
        }),
{
    lemma_leading(flags);
    lemma_trailing(flags);
    let part = trim_flagged(s, flags);
    let a = leading(flags);
    if a >= flags.len() {
        assert(part =~= s.subrange(0, 0 + part.len() as int));
    } else {
        let end = s.len() - trailing(flags);
        if end <= a {
            assert(flags[a]);
        }
        assert(part =~= s.subrange(a, a + part.len()));
        assert(!flags[a] && !flags[a + part.len() - 1]);
    }
}

/// How many of the first `n` characters get a blank behind them.
pub open spec fn breaks_before(lower: Seq<bool>, upper: Seq<bool>, n: int) -> int
    decreases n,
{
    if n <= 0 {
        0
    } else {
        breaks_before(lower, upper, n - 1) + if n < upper.len() && lower[n - 1] && upper[n] {
            1int
        } else {
            0int
        }
    }
}

/// Breaking words keeps every character in its order and adds nothing but a blank behind each
/// lower-case letter that stands before an upper-case one.
pub proof fn law_words_are_parted(
    s: Seq<char>,
    lower: Seq<bool>,
    upper: Seq<bool>,
    n: int,
    k: int,
)
    requires
        lower.len() == s.len(),
        upper.len() == s.len(),
        0 <= k < n <= s.len(),
    ensures
        ({
            let broken = break_words(s, lower, upper, n);
            let place = k + breaks_before(lower, upper, k);
            &&& broken.len() == n + breaks_before(lower, upper, n)
            &&& 0 <= place < broken.len()
            &&& broken[place] == s[k]
            &&& k + 1 < s.len() && lower[k] && upper[k + 1] ==> place + 1 < broken.len()
                && broken[place + 1] == ' '
            &&& breaks_before(lower, upper, k) >= 0
        }),
    decreases n,
{
    lemma_break_length(s, lower, upper, n);
    lemma_break_length(s, lower, upper, n - 1);
    lemma_break_length(s, lower, upper, k);
    if k < n - 1 {
        law_words_are_parted(s, lower, upper, n - 1, k);
    }
}

/// How long a text with its words parted is.
proof fn lemma_break_length(s: Seq<char>, lower: Seq<bool>, upper: Seq<bool>, n: int)
    requires
        lower.len() == s.len(),
        upper.len() == s.len(),
        0 <= n <= s.len(),
    ensures
        break_words(s, lower, upper, n).len() == n + breaks_before(lower, upper, n),
        breaks_before(lower, upper, n) >= 0,
    decreases n,
{
    if n > 0 {
        lemma_break_length(s, lower, upper, n - 1);
    }
}

/// Two texts are the same up to the case of ASCII letters where each two characters are the same,
/// or are the large and the small form of one of these letters.
pub proof fn law_equal_ignoring_ascii_case(a: Seq<char>, b: Seq<char>)
    ensures
        equal_ignoring_ascii_case(a, b) <==> a.len() == b.len() && forall|i: int|
            0 <= i < a.len() ==> (#[trigger] a[i] == b[i] || ('A' <= a[i] <= 'Z' && b[i] as int
                == a[i] as int + 32) || ('A' <= b[i] <= 'Z' && a[i] as int == b[i] as int + 32)),
{
    assert forall|x: char, y: char| #[trigger] ascii_folded(x) == #[trigger] ascii_folded(y) <==> (x
        == y || ('A' <= x <= 'Z' && y as int == x as int + 32) || ('A' <= y <= 'Z' && x as int
        == y as int + 32)) by {}
    if a.len() == b.len() {
        assert forall|i: int| 0 <= i < a.len() implies (ascii_folded(#[trigger] a[i])
            == ascii_folded(b[i]) <==> (a[i] == b[i] || ('A' <= a[i] <= 'Z' && b[i] as int
            == a[i] as int + 32) || ('A' <= b[i] <= 'Z' && a[i] as int == b[i] as int + 32))) by {}
    }
}

} // verus!
