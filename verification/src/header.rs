//! Canonical field identifiers: a header cell's slug with the separators removed.

use vstd::prelude::*;
use vstd::string::*;

verus! {

/// The characters of a canonical identifier: ASCII lower-case letters and digits.
pub open spec fn is_identifier_char(c: char) -> bool {
    ('a' <= c && c <= 'z') || ('0' <= c && c <= '9')
}

/// A canonical identifier holds identifier characters only. The empty text is one.
pub open spec fn is_canonical(s: Seq<char>) -> bool {
    forall|i: int| 0 <= i < s.len() ==> is_identifier_char(#[trigger] s[i])
}

/// The alphabet of a slug: identifier characters and the separator `-`.
pub open spec fn is_slug(s: Seq<char>) -> bool {
    forall|i: int| 0 <= i < s.len() ==> (is_identifier_char(#[trigger] s[i]) || s[i] == '-')
}

/// `s` with every separator `-` taken out, the other characters in their order.
pub open spec fn without_separators(s: Seq<char>) -> Seq<char>
    decreases s.len(),
{
    if s.len() == 0 {
        Seq::empty()
    } else if s.last() == '-' {
        without_separators(s.drop_last())
    } else {
        without_separators(s.drop_last()).push(s.last())
    }
}

/// The text holds ASCII characters only.
pub open spec fn is_ascii_text(s: Seq<char>) -> bool {
    forall|i: int| 0 <= i < s.len() ==> (#[trigger] s[i]) as u32 <= 127
}

/// What an ASCII character adds to a slug: itself where it is an identifier
/// character, its lower-case form where it is an upper-case letter, and nothing
/// of its own otherwise.
pub open spec fn slug_letter(c: char) -> Option<char> {
    if is_identifier_char(c) {
        Some(c)
    } else if 'A' <= c && c <= 'Z' {
        Some(((c as u8 + 32) as u8) as char)
    } else {
        None
    }
}

/// The slug of an ASCII text before its end is trimmed: the letters and digits
/// in lower case, and one separator for every run of other characters that
/// follows a letter or digit.
pub open spec fn ascii_slug_run(s: Seq<char>) -> Seq<char>
    decreases s.len(),
{
    if s.len() == 0 {
        Seq::empty()
    } else {
        let head = ascii_slug_run(s.drop_last());
        match slug_letter(s.last()) {
            Some(c) => head.push(c),
            None => if head.len() == 0 || head.last() == '-' {
                head
            } else {
                head.push('-')
            },
        }
    }
}

/// The slug of an ASCII text: lower-case letters and digits, one separator for
/// every run of other characters between them, none at the start or the end.
pub open spec fn ascii_slug(s: Seq<char>) -> Seq<char> {
    let run = ascii_slug_run(s);
    if run.len() > 0 && run.last() == '-' {
        run.drop_last()
    } else {
        run
    }
}

/// A canonical identifier is ASCII and is its own slug.
pub proof fn lemma_canonical_is_own_slug(s: Seq<char>)
    requires
        is_canonical(s),
    ensures
        is_ascii_text(s),
        ascii_slug_run(s) == s,
        ascii_slug(s) == s,
    decreases s.len(),
{
    if s.len() > 0 {
        lemma_canonical_is_own_slug(s.drop_last());
        assert(is_identifier_char(s.last()));
        assert(s.drop_last().push(s.last()) =~= s);
        assert(is_identifier_char(s[s.len() - 1]));
    }
    assert forall|i: int| 0 <= i < s.len() implies (#[trigger] s[i]) as u32 <= 127 by {
        assert(is_identifier_char(s[i]));
    }
}

/// The slug that `slug::slugify` gives for a text.
pub uninterp spec fn slug_of(s: Seq<char>) -> Seq<char>;

/// The canonical identifier of a header cell.
pub open spec fn canonical_of(s: Seq<char>) -> Seq<char> {
    without_separators(slug_of(s))
}

/// The views of a sequence of strings, in order.
pub open spec fn texts(v: Seq<String>) -> Seq<Seq<char>> {
    Seq::new(v.len(), |i: int| v[i]@)
}

/// The canonical identifier of every cell, in order.
pub open spec fn canonical_all(cells: Seq<Seq<char>>) -> Seq<Seq<char>> {
    Seq::new(cells.len(), |i: int| canonical_of(cells[i]))
}

/// Every text of the sequence is a canonical identifier.
pub open spec fn all_canonical(cells: Seq<Seq<char>>) -> bool {
    forall|i: int| 0 <= i < cells.len() ==> is_canonical(#[trigger] cells[i])
}

/// Removing the separators from a slug leaves a canonical identifier.
pub proof fn lemma_stripped_slug_is_canonical(s: Seq<char>)
    requires
        is_slug(s),
    ensures
        is_canonical(without_separators(s)),
    decreases s.len(),
{
    if s.len() > 0 {
        lemma_stripped_slug_is_canonical(s.drop_last());
    }
}

/// A canonical identifier holds no separator, so removing them changes nothing.
pub proof fn lemma_canonical_has_no_separator(s: Seq<char>)
    requires
        is_canonical(s),
    ensures
        without_separators(s) == s,
    decreases s.len(),
{
    if s.len() > 0 {
        lemma_canonical_has_no_separator(s.drop_last());
        assert(s.drop_last().push(s.last()) =~= s);
    }
}

/// Calls `slug::slugify`. Trusted: the result is the slug of `s`; it is made of
/// `a`-`z`, `0`-`9` and `-` only; and for an ASCII text it is `ascii_slug`. What
/// a character outside ASCII is turned into is not stated.
#[verifier::external_body]
fn slugify(s: &str) -> (r: String)
    ensures
        r@ == slug_of(s@),
        is_slug(r@),
        is_ascii_text(s@) ==> r@ == ascii_slug(s@),
{
    slug::slugify(s)
}

/// The text without its separators.
pub fn strip_separators(s: &str) -> (r: String)
    ensures
        r@ == without_separators(s@),
{
    let n: usize = s.unicode_len();
    let mut out = String::new();
    let mut i: usize = 0;
    while i < n
        invariant
            n == s@.len(),
            i <= n,
            out@ == without_separators(s@.subrange(0, i as int)),
        decreases n - i,
    {
        let c = s.get_char(i);
        proof {
            let next = s@.subrange(0, i + 1);
            assert(next.drop_last() =~= s@.subrange(0, i as int));
            assert(next.last() == c);
        }
        if c != '-' {
            let ghost before = out@;
            out.append(s.substring_char(i, i + 1));
            proof {
                assert(s@.subrange(i as int, i + 1) =~= seq![c]);
                assert(out@ =~= before.push(c));
            }
        }
        i += 1;
    }
    proof {
        assert(s@.subrange(0, n as int) =~= s@);
    }
    out
}

/// The canonical identifier of one header cell: its slug without the separators.
/// The result is always canonical, and a cell that already is canonical comes
/// back unchanged, so normalizing twice gives what normalizing once gives. For
/// an ASCII cell the identifier is its letters and digits in lower case.
pub fn normalize_header(cell: &str) -> (r: String)
    ensures
        r@ == canonical_of(cell@),
        is_canonical(r@),
        is_canonical(cell@) ==> r@ == cell@,
        is_ascii_text(cell@) ==> r@ == without_separators(ascii_slug(cell@)),
{
    let slug = slugify(cell);
    let r = strip_separators(slug.as_str());
    proof {
        lemma_stripped_slug_is_canonical(slug@);
        if is_canonical(cell@) {
            lemma_canonical_is_own_slug(cell@);
            lemma_canonical_has_no_separator(cell@);
        }
    }
    r
}

/// The canonical identifiers of a header row, column by column. Identifiers that
/// are canonical already come back as the identical sequence.
pub fn normalize_headers(cells: &Vec<String>) -> (r: Vec<String>)
    ensures
        texts(r@) == canonical_all(texts(cells@)),
        all_canonical(texts(r@)),
        all_canonical(texts(cells@)) ==> texts(r@) == texts(cells@),
{
    let mut out: Vec<String> = Vec::new();
    let mut i: usize = 0;
    while i < cells.len()
        invariant
            i <= cells.len(),
            out.len() == i,
            forall|k: int| 0 <= k < i ==> #[trigger] out@[k]@ == canonical_of(cells@[k]@),
            forall|k: int| 0 <= k < i ==> is_canonical(#[trigger] out@[k]@),
            forall|k: int| 0 <= k < i && is_canonical(cells@[k]@) ==> #[trigger] out@[k]@ == cells@[k]@,
        decreases cells.len() - i,
    {
        let id = normalize_header(cells[i].as_str());
        out.push(id);
        i += 1;
    }
    proof {
        assert(texts(out@) =~= canonical_all(texts(cells@)));
        if all_canonical(texts(cells@)) {
            assert forall|k: int| 0 <= k < out.len() implies out@[k]@ == cells@[k]@ by {
                assert(is_canonical(texts(cells@)[k]));
            }
            assert(texts(out@) =~= texts(cells@));
        }
    }
    out
}

} // verus!
