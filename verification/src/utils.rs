//! Text conversion and display names.
use crate::letters::{
    blank_flags_of, lowercase_flags_of, uppercase_flags_of,
};
use crate::text::{
    has_char, text_after_last, text_before_first, text_break_words, text_trim_end_matches,
    text_trim_flagged,
};
use ferrous_opencc::OpenCC;
use vstd::prelude::*;

verus! {

/// A converter of the crate `ferrous_opencc`, carried as an opaque value.
#[verifier::external_type_specification]
#[verifier::external_body]
pub struct ExOpenCC(ferrous_opencc::OpenCC);

/// What a converter makes of a text.
pub uninterp spec fn opencc_converted(converter: OpenCC, text: Seq<char>) -> Seq<char>;

/// `OpenCC::convert` of `ferrous_opencc`: the text that it returns is a function of the
/// converter, whose dictionaries never change once it is loaded, and of the given text.
pub assume_specification[ OpenCC::convert ](converter: &OpenCC, input: &str) -> (converted: String)
    ensures
        converted@ == opencc_converted(*converter, input@),
;

/// What `convert_text` returns.
pub open spec fn text_after_conversion(text: Seq<char>, converter: Option<OpenCC>) -> Seq<char> {
    if text.len() == 0 {
        Seq::empty()
    } else {
        match converter {
            Some(c) => opencc_converted(c, text),
            None => text,
        }
    }
}

/// Converts a text with the given converter; without one the text stays as it is.
pub fn convert_text(text: &str, converter: Option<&OpenCC>) -> (converted: String)
    ensures
        converted@ == text_after_conversion(
            text@,
            match converter {
                Some(c) => Some(*c),
                None => None,
            },
        ),
{
    if text.is_empty() {
        return String::new();
    }
    match converter {
        Some(c) => c.convert(text),
        None => text.to_owned(),
    }
}

/// The name of the application inside a session identifier: what stands before `!` and before
/// `_`, behind the last dot.
pub open spec fn app_name(id: Seq<char>) -> Seq<char> {
    crate::text::after_last(
        crate::text::before_first(crate::text::before_first(id, '!'), '_'),
        '.',
    )
}

/// A name without the packaging suffixes `Win` and `Uwp`.
pub open spec fn without_packaging_suffix(name: Seq<char>) -> Seq<char> {
    crate::text::trim_end_matches(crate::text::trim_end_matches(name, "Win"@), "Uwp"@)
}

/// A name with its words parted, given which of its characters are lower and upper case.
pub open spec fn spaced_name(name: Seq<char>, lower: Seq<bool>, upper: Seq<bool>) -> Seq<char> {
    without_packaging_suffix(
        crate::text::break_words(name, lower, upper, name.len() as int),
    )
}

/// The display name of a session identifier, given what the prettified name came out as.
pub open spec fn display_name_or_id(id: Seq<char>, pretty: Seq<char>) -> Seq<char> {
    if pretty.len() == 0 {
        id
    } else {
        pretty
    }
}

/// The prettified name inside a session identifier.
pub open spec fn pretty_name(id: Seq<char>) -> Seq<char> {
    let name = app_name(id);
    crate::letters::trim(
        spaced_name(
            name,
            crate::letters::lowercase_flags(name),
            crate::letters::uppercase_flags(name),
        ),
    )
}

/// The display name of a session identifier.
pub open spec fn display_name(id: Seq<char>) -> Seq<char> {
    if id.contains('!') {
        display_name_or_id(id, pretty_name(id))
    } else {
        id
    }
}

/// The name of the application inside a session identifier.
pub fn app_name_of<'a>(id: &'a str) -> (name: &'a str)
    ensures
        name@ == app_name(id@),
{
    let family: &'a str = text_before_first(id, '!');
    let name_part: &'a str = text_before_first(family, '_');
    text_after_last(name_part, '.')
}

/// Parts the words of a name and takes its packaging suffix off, given which characters are
/// lower and upper case.
pub fn spaced_name_of(name: &str, lower: &Vec<bool>, upper: &Vec<bool>) -> (spaced: String)
    requires
        lower@.len() == name@.len(),
        upper@.len() == name@.len(),
    ensures
        spaced@ == spaced_name(name@, lower@, upper@),
{
    let broken: String = text_break_words(name, lower, upper);
    let without_win: &str = text_trim_end_matches(broken.as_str(), "Win");
    text_trim_end_matches(without_win, "Uwp").to_owned()
}

/// The display name, given the name with its words parted and which of its characters are
/// white space. Falls back to the identifier where nothing is left of the name.
pub fn display_name_from(id: &str, spaced: &str, blank: &Vec<bool>) -> (name: String)
    requires
        blank@.len() == spaced@.len(),
    ensures
        name@ == display_name_or_id(id@, crate::text::trim_flagged(spaced@, blank@)),
{
    let pretty: &str = text_trim_flagged(spaced, blank);
    if pretty.is_empty() {
        id.to_owned()
    } else {
        pretty.to_owned()
    }
}

/// The name under which a session is shown. An identifier without `!` is shown as it is.
pub fn get_display_name_from_smtc_id(id_str: &str) -> (name: String)
    ensures
        name@ == display_name(id_str@),
{
    if !has_char(id_str, '!') {
        return id_str.to_owned();
    }
    let app: &str = app_name_of(id_str);
    let lower: Vec<bool> = lowercase_flags_of(app);
    let upper: Vec<bool> = uppercase_flags_of(app);
    let spaced: String = spaced_name_of(app, &lower, &upper);
    let blank: Vec<bool> = blank_flags_of(spaced.as_str());
    display_name_from(id_str, spaced.as_str(), &blank)
}

/// Text stays as it is without a converter, becomes what the converter makes of it with one, and
/// stays empty where it is empty.
pub proof fn law_text_is_converted(text: Seq<char>, converter: OpenCC)
    ensures
        text_after_conversion(text, None) == text,
        text.len() > 0 ==> text_after_conversion(text, Some(converter)) == opencc_converted(
            converter,
            text,
        ),
        text.len() == 0 ==> text_after_conversion(text, Some(converter)) == text,
{
    if text.len() == 0 {
        assert(text =~= Seq::<char>::empty());
    }
}

/// The application's name stands between the last dot of the package name and its publisher: in
/// an identifier made of a vendor with its dot, a name, a publisher and an application it is
/// exactly that name.
pub proof fn law_app_name_stands_before_publisher(
    vendor: Seq<char>,
    name: Seq<char>,
    publisher: Seq<char>,
    app: Seq<char>,
)
    requires
        !vendor.contains('_') && !vendor.contains('!'),
        !name.contains('.') && !name.contains('_') && !name.contains('!'),
        !publisher.contains('!'),
    ensures
        app_name(vendor.push('.') + name.push('_') + publisher.push('!') + app) == name,
        app_name(name.push('_') + publisher.push('!') + app) == name,
        app_name(name.push('!') + app) == name,
{
    let package = vendor.push('.') + name;
    lemma_package_name(package, publisher, app);
    assert(vendor.push('.') + name.push('_') + publisher.push('!') + app =~= package.push('_')
        + publisher.push('!') + app);
    assert(package[vendor.len() as int] == '.');
    assert forall|j: int| vendor.len() < j < package.len() implies package[j] != '.' by {
        assert(package[j] == name[j - vendor.len() - 1]);
        assert(name.contains(name[j - vendor.len() - 1]));
    }
    crate::text::lemma_last_index_is(package, '.', vendor.len() as int);
    assert(crate::text::after_last(package, '.') =~= name);
    lemma_package_name(name, publisher, app);
    lemma_no_dot(name);
    lemma_before(name, app, '!');
    lemma_absent(name, '_');
}

/// What stands before a character that does not occur is everything.
proof fn lemma_absent(s: Seq<char>, c: char)
    requires
        !s.contains(c),
    ensures
        crate::text::before_first(s, c) == s,
{
    crate::text::law_before_first(s, c);
}

/// What stands before the first occurrence is what was put there.
proof fn lemma_before(head: Seq<char>, tail: Seq<char>, c: char)
    requires
        !head.contains(c),
    ensures
        crate::text::before_first(head.push(c) + tail, c) == head,
{
    let s = head.push(c) + tail;
    assert forall|j: int| 0 <= j < head.len() implies s[j] != c by {
        assert(s[j] == head[j]);
        assert(head.contains(head[j]));
    }
    crate::text::lemma_first_index_is(s, c, head.len() as int);
    assert(s.take(head.len() as int) =~= head);
}

/// A text without a dot is all that stands behind the last one.
proof fn lemma_no_dot(s: Seq<char>)
    requires
        !s.contains('.'),
    ensures
        crate::text::after_last(s, '.') == s,
{
    crate::text::law_after_last(s, '.');
}

/// The package name stands before the publisher.
proof fn lemma_package_name(package: Seq<char>, publisher: Seq<char>, app: Seq<char>)
    requires
        !package.contains('_') && !package.contains('!'),
        !publisher.contains('!'),
    ensures
        ({
            let id = package.push('_') + publisher.push('!') + app;
            crate::text::before_first(crate::text::before_first(id, '!'), '_') == package
        }),
{
    let id = package.push('_') + publisher.push('!') + app;
    let family = package.push('_') + publisher;
    assert(id =~= family.push('!') + app);
    assert(!family.contains('!')) by {
        assert forall|j: int| 0 <= j < family.len() implies family[j] != '!' by {
            if j < package.len() {
                assert(family[j] == package[j]);
                assert(package.contains(package[j]));
            } else if j > package.len() {
                assert(family[j] == publisher[j - package.len() - 1]);
                assert(publisher.contains(publisher[j - package.len() - 1]));
            }
        }
    }
    lemma_before(family, app, '!');
    lemma_before(package, publisher, '_');
}

/// One packaging suffix is taken off a name, and a name without one stays as it is.
pub proof fn law_packaging_suffix_is_taken_off(base: Seq<char>)
    requires
        !crate::text::ends_with(base, "Win"@),
        !crate::text::ends_with(base, "Uwp"@),
    ensures
        without_packaging_suffix(base) == base,
        without_packaging_suffix(base + "Win"@) == base,
        without_packaging_suffix(base + "Uwp"@) == base,
{
    reveal_strlit("Win");
    reveal_strlit("Uwp");
    crate::text::law_one_suffix_is_taken_off(base, "Win"@);
    crate::text::law_one_suffix_is_taken_off(base, "Uwp"@);
    let s = base + "Uwp"@;
    crate::text::law_ends_with(s, "Win"@);
    assert(s[s.len() - 1] == 'p');
    assert("Win"@[2] == 'n');
    assert(!crate::text::ends_with(s, "Win"@)) by {
        if crate::text::ends_with(s, "Win"@) {
            assert(s[s.len() - 3 + 2] == "Win"@[2]);
        }
    }
    assert(crate::text::trim_end_matches(s, "Win"@) == s);
}

/// An identifier without `!` is shown as it is; no name that is shown is empty unless its
/// identifier is; and a name that is not the identifier has no white space at its ends.
pub proof fn law_display_name_is_presentable(id: Seq<char>)
    ensures
        !id.contains('!') ==> display_name(id) == id,
        id.len() > 0 ==> display_name(id).len() > 0,
        display_name(id) != id ==> !crate::letters::is_blank(display_name(id)[0])
            && !crate::letters::is_blank(display_name(id).last()),
{
    if id.contains('!') {
        let name = app_name(id);
        let spaced = spaced_name(
            name,
            crate::letters::lowercase_flags(name),
            crate::letters::uppercase_flags(name),
        );
        crate::letters::law_trim_takes_blanks_off(spaced);
    }
}

/// The name that is shown is the application's name with its words parted and without packaging
/// suffix and white space at its ends, unless nothing is left of it.
pub proof fn law_display_name_is_the_app_name(id: Seq<char>)
    requires
        id.contains('!'),
    ensures
        ({
            let name = app_name(id);
            let parted = crate::text::break_words(
                name,
                name.map_values(|c: char| crate::letters::is_lowercase_letter(c)),
                name.map_values(|c: char| crate::letters::is_uppercase_letter(c)),
                name.len() as int,
            );
            let shown = crate::letters::trim(
                crate::text::trim_end_matches(
                    crate::text::trim_end_matches(parted, "Win"@),
                    "Uwp"@,
                ),
            );
            display_name(id) == if shown.len() > 0 {
                shown
            } else {
                id
            }
        }),
{
    let name = app_name(id);
    assert(crate::letters::lowercase_flags(name) =~= name.map_values(
        |c: char| crate::letters::is_lowercase_letter(c),
    ));
    assert(crate::letters::uppercase_flags(name) =~= name.map_values(
        |c: char| crate::letters::is_uppercase_letter(c),
    ));
}

/// A name in which no upper-case letter follows a lower-case one has one word.
proof fn lemma_one_word(s: Seq<char>, lower: Seq<bool>, upper: Seq<bool>, n: int)
    requires
        0 <= n <= s.len(),
        lower.len() == s.len(),
        upper.len() == s.len(),
        forall|i: int| 0 <= i && i + 1 < s.len() ==> !(#[trigger] lower[i] && upper[i + 1]),
    ensures
        crate::text::break_words(s, lower, upper, n) == s.take(n),
    decreases n,
{
    if n > 0 {
        lemma_one_word(s, lower, upper, n - 1);
        assert(!(n < s.len() && lower[n - 1] && upper[n]));
        assert(s.take(n - 1).push(s[n - 1]) =~= s.take(n));
    } else {
        assert(s.take(0) =~= Seq::<char>::empty());
    }
}

/// A name with one place where an upper-case letter follows a lower-case one has two words.
proof fn lemma_two_words(s: Seq<char>, lower: Seq<bool>, upper: Seq<bool>, k: int, n: int)
    requires
        0 <= n <= s.len(),
        0 < k < s.len(),
        lower.len() == s.len(),
        upper.len() == s.len(),
        lower[k - 1] && upper[k],
        forall|i: int|
            0 <= i && i + 1 < s.len() && i != k - 1 ==> !(#[trigger] lower[i] && upper[i + 1]),
    ensures
        n < k ==> crate::text::break_words(s, lower, upper, n) == s.take(n),
        n >= k ==> crate::text::break_words(s, lower, upper, n) == s.take(k).push(' ')
            + s.subrange(k, n),
    decreases n,
{
    if n > 0 {
        lemma_two_words(s, lower, upper, k, n - 1);
        if n < k {
            assert(!(lower[n - 1] && upper[n]));
            assert(s.take(n - 1).push(s[n - 1]) =~= s.take(n));
        } else if n == k {
            assert(s.take(n - 1).push(s[n - 1]) =~= s.take(n));
            assert(s.take(k).push(' ') + s.subrange(k, k) =~= s.take(k).push(' '));
        } else {
            assert(!(n < s.len() && lower[n - 1] && upper[n]));
            assert((s.take(k).push(' ') + s.subrange(k, n - 1)).push(s[n - 1]) =~= s.take(k).push(
                ' ',
            ) + s.subrange(k, n));
        }
    } else {
        assert(s.take(0) =~= Seq::<char>::empty());
    }
}

/// An application whose name is one word is shown under just that name.
pub proof fn law_one_word_is_shown(
    vendor: Seq<char>,
    name: Seq<char>,
    publisher: Seq<char>,
    app: Seq<char>,
)
    requires
        !vendor.contains('_') && !vendor.contains('!'),
        !name.contains('.') && !name.contains('_') && !name.contains('!'),
        !publisher.contains('!'),
        name.len() > 0,
        !crate::letters::is_blank(name[0]) && !crate::letters::is_blank(name.last()),
        !crate::text::ends_with(name, "Win"@) && !crate::text::ends_with(name, "Uwp"@),
        forall|i: int|
            0 <= i && i + 1 < name.len() ==> !(crate::letters::is_lowercase_letter(
                #[trigger] name[i],
            ) && crate::letters::is_uppercase_letter(name[i + 1])),
    ensures
        display_name(vendor.push('.') + name.push('_') + publisher.push('!') + app) == name,
{
    let id = vendor.push('.') + name.push('_') + publisher.push('!') + app;
    law_app_name_stands_before_publisher(vendor, name, publisher, app);
    let lower = crate::letters::lowercase_flags(name);
    let upper = crate::letters::uppercase_flags(name);
    assert forall|i: int| 0 <= i && i + 1 < name.len() implies !(#[trigger] lower[i] && upper[i
        + 1]) by {
        assert(lower[i] == crate::letters::is_lowercase_letter(name[i]));
    }
    lemma_one_word(name, lower, upper, name.len() as int);
    assert(name.take(name.len() as int) =~= name);
    law_packaging_suffix_is_taken_off(name);
    crate::letters::law_trimmed_text_stays(name);
    assert(id[(vendor.len() + 1 + name.len() + 1 + publisher.len()) as int] == '!');
}

/// An application whose name is two words written together is shown with a blank between them.
pub proof fn law_two_words_are_parted(
    vendor: Seq<char>,
    first: Seq<char>,
    second: Seq<char>,
    publisher: Seq<char>,
    app: Seq<char>,
)
    requires
        !vendor.contains('_') && !vendor.contains('!'),
        !(first + second).contains('.') && !(first + second).contains('_') && !(first
            + second).contains('!'),
        !publisher.contains('!'),
        first.len() > 0 && second.len() > 0,
        crate::letters::is_lowercase_letter(first.last()),
        crate::letters::is_uppercase_letter(second[0]),
        !crate::letters::is_blank(first[0]) && !crate::letters::is_blank(second.last()),
        !crate::text::ends_with(first.push(' ') + second, "Win"@),
        !crate::text::ends_with(first.push(' ') + second, "Uwp"@),
        forall|i: int|
            0 <= i && i + 1 < first.len() ==> !(crate::letters::is_lowercase_letter(
                #[trigger] first[i],
            ) && crate::letters::is_uppercase_letter(first[i + 1])),
        forall|i: int|
            0 <= i && i + 1 < second.len() ==> !(crate::letters::is_lowercase_letter(
                #[trigger] second[i],
            ) && crate::letters::is_uppercase_letter(second[i + 1])),
    ensures
        display_name(
            vendor.push('.') + (first + second).push('_') + publisher.push('!') + app,
        ) == first.push(' ') + second,
{
    let name = first + second;
    let k = first.len() as int;
    let id = vendor.push('.') + name.push('_') + publisher.push('!') + app;
    law_app_name_stands_before_publisher(vendor, name, publisher, app);
    let lower = crate::letters::lowercase_flags(name);
    let upper = crate::letters::uppercase_flags(name);
    assert(lower[k - 1] == crate::letters::is_lowercase_letter(first.last()));
    assert(upper[k] == crate::letters::is_uppercase_letter(second[0]));
    assert forall|i: int| 0 <= i && i + 1 < name.len() && i != k - 1 implies !(
    #[trigger] lower[i] && upper[i + 1]) by {
        assert(lower[i] == crate::letters::is_lowercase_letter(name[i]));
        assert(upper[i + 1] == crate::letters::is_uppercase_letter(name[i + 1]));
        if i < k - 1 {
            assert(name[i] == first[i] && name[i + 1] == first[i + 1]);
        } else {
            assert(name[i] == second[i - k] && name[i + 1] == second[i - k + 1]);
        }
    }
    lemma_two_words(name, lower, upper, k, name.len() as int);
    let shown = first.push(' ') + second;
    assert(name.take(k).push(' ') + name.subrange(k, name.len() as int) =~= shown);
    law_packaging_suffix_is_taken_off(shown);
    assert(shown[0] == first[0] && shown.last() == second.last());
    crate::letters::law_trimmed_text_stays(shown);
    assert(id[(vendor.len() + 1 + name.len() + 1 + publisher.len()) as int] == '!');
}

} // verus!
