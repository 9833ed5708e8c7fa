//! Character classes and case mapping, as the standard library gives them.
use vstd::prelude::*;

verus! {

/// Whether a character has the Unicode property `Lowercase`.
pub uninterp spec fn is_lowercase_letter(c: char) -> bool;

/// Whether a character has the Unicode property `Uppercase`.
pub uninterp spec fn is_uppercase_letter(c: char) -> bool;

/// Whether a character has the Unicode property `White_Space`.
pub uninterp spec fn is_blank(c: char) -> bool;

/// The lower-case form of a text.
pub uninterp spec fn lowercased(s: Seq<char>) -> Seq<char>;

/// `char::is_lowercase` of the standard library: the answer is a function of the character.
pub assume_specification[ char::is_lowercase ](c: char) -> (yes: bool)
    ensures
        yes == is_lowercase_letter(c),
;

/// `char::is_uppercase` of the standard library: the answer is a function of the character.
pub assume_specification[ char::is_uppercase ](c: char) -> (yes: bool)
    ensures
        yes == is_uppercase_letter(c),
;

/// `char::is_whitespace` of the standard library: the answer is a function of the character.
pub assume_specification[ char::is_whitespace ](c: char) -> (yes: bool)
    ensures
        yes == is_blank(c),
;

/// `str::to_lowercase` of the standard library: the new text is a function of the given one.
pub assume_specification[ str::to_lowercase ](s: &str) -> (lower: String)
    ensures
        lower@ == lowercased(s@),
;

/// For each character of `s`, whether it is a lower-case letter.
pub open spec fn lowercase_flags(s: Seq<char>) -> Seq<bool> {
    s.map_values(|c: char| is_lowercase_letter(c))
}

/// For each character of `s`, whether it is an upper-case letter.
pub open spec fn uppercase_flags(s: Seq<char>) -> Seq<bool> {
    s.map_values(|c: char| is_uppercase_letter(c))
}

/// For each character of `s`, whether it is white space.
pub open spec fn blank_flags(s: Seq<char>) -> Seq<bool> {
    s.map_values(|c: char| is_blank(c))
}

/// `s` without the white space at its ends.
pub open spec fn trim(s: Seq<char>) -> Seq<char> {
    crate::text::trim_flagged(s, blank_flags(s))
}

/// The lower-case flags of a text.
pub fn lowercase_flags_of(s: &str) -> (flags: Vec<bool>)
    ensures
        flags@ == lowercase_flags(s@),
{
    let mut flags: Vec<bool> = Vec::new();
    for c in it: s.chars()
        invariant
            it.seq() == s@,
            flags@ == lowercase_flags(s@).take(it.index() as int),
    {
        flags.push(c.is_lowercase());
        proof {
            assert(lowercase_flags(s@).take(it.index() + 1) =~= flags@);
        }
    }
    proof {
        assert(lowercase_flags(s@).take(s@.len() as int) =~= lowercase_flags(s@));
    }
    flags
}

/// The upper-case flags of a text.
pub fn uppercase_flags_of(s: &str) -> (flags: Vec<bool>)
    ensures
        flags@ == uppercase_flags(s@),
{
    let mut flags: Vec<bool> = Vec::new();
    for c in it: s.chars()
        invariant
            it.seq() == s@,
            flags@ == uppercase_flags(s@).take(it.index() as int),
    {
        flags.push(c.is_uppercase());
        proof {
            assert(uppercase_flags(s@).take(it.index() + 1) =~= flags@);
        }
    }
    proof {
        assert(uppercase_flags(s@).take(s@.len() as int) =~= uppercase_flags(s@));
    }
    flags
}

/// The white-space flags of a text.
pub fn blank_flags_of(s: &str) -> (flags: Vec<bool>)
    ensures
        flags@ == blank_flags(s@),
{
    let mut flags: Vec<bool> = Vec::new();
    for c in it: s.chars()
        invariant
            it.seq() == s@,
            flags@ == blank_flags(s@).take(it.index() as int),
    {
        flags.push(c.is_whitespace());
        proof {
            assert(blank_flags(s@).take(it.index() + 1) =~= flags@);
        }
    }
    proof {
        assert(blank_flags(s@).take(s@.len() as int) =~= blank_flags(s@));
    }
    flags
}

/// `s` without the white space at its ends.
pub fn trimmed<'a>(s: &'a str) -> (part: &'a str)
    ensures
        part@ == trim(s@),
{
    let flags: Vec<bool> = blank_flags_of(s);
    crate::text::text_trim_flagged(s, &flags)
}

/// Trimming takes white space off both ends, and only that: what is left neither begins nor ends
/// with white space.
pub proof fn law_trim_takes_blanks_off(s: Seq<char>)
    ensures
        exists|from: int|
            0 <= from && from + trim(s).len() <= s.len() && trim(s) == #[trigger] s.subrange(
                from,
                from + trim(s).len(),
            ) && (forall|i: int| 0 <= i < from ==> is_blank(s[i])) && (forall|i: int|
                from + trim(s).len() <= i < s.len() ==> is_blank(s[i])) && (trim(s).len() > 0
                ==> !is_blank(trim(s)[0]) && !is_blank(trim(s).last())),
{
    let flags = blank_flags(s);
    crate::text::law_trim_flagged(s, flags);
    let part = trim(s);
    let from = choose|from: int|
        0 <= from && from + part.len() <= s.len() && part == #[trigger] s.subrange(
            from,
            from + part.len(),
        ) && (forall|i: int| 0 <= i < from ==> flags[i]) && (forall|i: int|
            from + part.len() <= i < s.len() ==> flags[i]) && (part.len() > 0 ==> !flags[from]
            && !flags[from + part.len() - 1]);
    assert forall|i: int| 0 <= i < from implies is_blank(s[i]) by {
        assert(flags[i]);
    }
    assert forall|i: int| from + part.len() <= i < s.len() implies is_blank(s[i]) by {
        assert(flags[i]);
    }
    if part.len() > 0 {
        assert(part[0] == s[from] && part.last() == s[from + part.len() - 1]);
    }
    assert(part == s.subrange(from, from + part.len()));
}

/// Trimming what was trimmed changes nothing, and neither does trimming a text without white space
/// at its ends.
pub proof fn law_trimmed_text_stays(s: Seq<char>)
    requires
        s.len() > 0 ==> !is_blank(s[0]) && !is_blank(s.last()),
    ensures
        trim(s) == s,
{
    law_trim_takes_blanks_off(s);
    let from = choose|from: int|
        0 <= from && from + trim(s).len() <= s.len() && trim(s) == #[trigger] s.subrange(
            from,
            from + trim(s).len(),
        ) && (forall|i: int| 0 <= i < from ==> is_blank(s[i])) && (forall|i: int|
            from + trim(s).len() <= i < s.len() ==> is_blank(s[i])) && (trim(s).len() > 0
            ==> !is_blank(trim(s)[0]) && !is_blank(trim(s).last()));
    if s.len() > 0 {
        if from > 0 {
            assert(is_blank(s[0]));
        }
        if from + trim(s).len() < s.len() {
            assert(is_blank(s[s.len() - 1]));
        }
    }
    assert(trim(s) =~= s);
}

} // verus!
