//! Project-name derivation: the raw directory name (or the override given on
//! the command line) is split into words on `-`, `_` and whitespace, each word
//! is title-cased, and the words are joined with single spaces.
//!
//! Title-casing and Unicode lowercasing/whitespace are supplied by outside
//! code; each such result is given a name that the contracts speak of.

use crate::text::views_of;
use convert_case::Case;
use convert_case::Casing;
use vstd::prelude::*;

verus! {

/// The sequence of characters that Unicode lowercasing produces for `s`.
pub uninterp spec fn lower_of(s: Seq<char>) -> Seq<char>;

/// Relies on `str::to_lowercase`: the result depends on the characters alone,
/// and an empty string stays empty.
#[verifier::external_body]
pub(crate) fn to_lower(s: &str) -> (r: String)
    ensures
        r@ == lower_of(s@),
        s@.len() == 0 ==> r@.len() == 0,
{
    s.to_lowercase()
}

/// The title-cased form of one word.
pub uninterp spec fn title_of(w: Seq<char>) -> Seq<char>;

/// Relies on `convert_case::Casing::to_case` with `Case::Title`: the result
/// depends on the characters alone.
#[verifier::external_body]
pub(crate) fn to_title_case(w: &str) -> (r: String)
    ensures
        r@ == title_of(w@),
{
    w.to_case(Case::Title)
}

/// Whether `c` has the Unicode `White_Space` property.
pub uninterp spec fn is_unicode_space(c: char) -> bool;

/// Relies on `char::is_whitespace`: whitespace is decided by the character
/// alone, and a plain space is whitespace.
pub assume_specification[ char::is_whitespace ](c: char) -> (r: bool)
    ensures
        r == is_unicode_space(c),
        c == ' ' ==> r,
;

/// A character on which the raw project name is split into words.
pub open spec fn is_name_sep(c: char) -> bool {
    c == '-' || c == '_' || is_unicode_space(c)
}

/// The words accumulated after scanning `s` from position `i` on, given the
/// current unfinished word `cur` and the words `acc` already finished.
pub open spec fn words_from(s: Seq<char>, i: int, cur: Seq<char>, acc: Seq<Seq<char>>) -> Seq<
    Seq<char>,
>
    decreases s.len() - i,
{
    if i < 0 || i >= s.len() {
        if cur.len() > 0 {
            acc.push(cur)
        } else {
            acc
        }
    } else if is_name_sep(s[i]) {
        if cur.len() > 0 {
            words_from(s, i + 1, Seq::empty(), acc.push(cur))
        } else {
            words_from(s, i + 1, cur, acc)
        }
    } else {
        words_from(s, i + 1, cur.push(s[i]), acc)
    }
}

/// The maximal runs of non-separator characters of `s`, in order.
pub open spec fn words_of(s: Seq<char>) -> Seq<Seq<char>> {
    words_from(s, 0, Seq::empty(), Seq::empty())
}

/// Each word replaced by its title-cased form.
pub open spec fn titles_of(ws: Seq<Seq<char>>) -> Seq<Seq<char>> {
    ws.map_values(|w: Seq<char>| title_of(w))
}

/// The words joined with single spaces.
pub open spec fn join_spaced(ws: Seq<Seq<char>>) -> Seq<char>
    decreases ws.len(),
{
    if ws.len() == 0 {
        Seq::empty()
    } else if ws.len() == 1 {
        ws[0]
    } else {
        join_spaced(ws.drop_last()).push(' ') + ws.last()
    }
}

/// The derived project name: words of the raw name, title-cased and joined
/// with single spaces.
pub open spec fn title_name_of(raw: Seq<char>) -> Seq<char> {
    join_spaced(titles_of(words_of(raw)))
}

/// Split a raw project name into its words: the maximal runs of characters
/// that are not `-`, `_` or whitespace.
pub fn split_name_words(raw: &str) -> (words: Vec<String>)
    ensures
        views_of(words@) == words_of(raw@),
{
    let n = raw.unicode_len();
    let mut words: Vec<String> = Vec::new();
    let mut start: usize = 0;
    let mut in_run: bool = false;
    let mut i: usize = 0;
    proof {
        assert(views_of(words@) =~= Seq::<Seq<char>>::empty());
    }
    while i < n
        invariant
            i <= n,
            n == raw@.len(),
            in_run ==> start < i,
            words_of(raw@) == words_from(
                raw@,
                i as int,
                if in_run {
                    raw@.subrange(start as int, i as int)
                } else {
                    Seq::empty()
                },
                views_of(words@),
            ),
        decreases n - i,
    {
        let ghost cur: Seq<char> = if in_run {
            raw@.subrange(start as int, i as int)
        } else {
            Seq::empty()
        };
        let ghost acc: Seq<Seq<char>> = views_of(words@);
        let c = raw.get_char(i);
        if c == '-' || c == '_' || c.is_whitespace() {
            if in_run {
                let w = raw.substring_char(start, i);
                words.push(w.to_owned());
                in_run = false;
                proof {
                    assert(cur.len() > 0);
                    assert(views_of(words@) =~= acc.push(w@));
                    assert(words_from(raw@, i as int, cur, acc) == words_from(
                        raw@,
                        i + 1,
                        Seq::empty(),
                        acc.push(cur),
                    ));
                }
            } else {
                proof {
                    assert(words_from(raw@, i as int, cur, acc) == words_from(
                        raw@,
                        i + 1,
                        cur,
                        acc,
                    ));
                }
            }
        } else {
            if !in_run {
                start = i;
                in_run = true;
                proof {
                    assert(raw@.subrange(i as int, i + 1) =~= cur.push(raw@[i as int]));
                }
            } else {
                proof {
                    assert(raw@.subrange(start as int, i + 1) =~= cur.push(raw@[i as int]));
                }
            }
            proof {
                assert(words_from(raw@, i as int, cur, acc) == words_from(
                    raw@,
                    i + 1,
                    cur.push(raw@[i as int]),
                    acc,
                ));
            }
        }
        i += 1;
    }
    if in_run {
        let ghost cur: Seq<char> = raw@.subrange(start as int, n as int);
        let ghost acc: Seq<Seq<char>> = views_of(words@);
        let w = raw.substring_char(start, n);
        words.push(w.to_owned());
        proof {
            assert(cur.len() > 0);
            assert(views_of(words@) =~= acc.push(w@));
            assert(words_from(raw@, n as int, cur, acc) == acc.push(cur));
        }
    }
    words
}

/// Derive the project name shown in the generated files: split the raw name
/// into words, title-case each word, and join them with single spaces.
pub fn derive_project_name(raw: &str) -> (r: String)
    ensures
        r@ == title_name_of(raw@),
{
    let words = split_name_words(raw);
    let ghost titles: Seq<Seq<char>> = titles_of(views_of(words@));
    let mut r = String::new();
    let n = words.len();
    let mut k: usize = 0;
    while k < n
        invariant
            k <= n,
            n == words@.len(),
            titles == titles_of(views_of(words@)),
            titles == titles_of(words_of(raw@)),
            titles.len() == n,
            r@ == join_spaced(titles.subrange(0, k as int)),
        decreases n - k,
    {
        let t = to_title_case(words[k].as_str());
        proof {
            assert(views_of(words@)[k as int] == words@[k as int]@);
            assert(titles[k as int] == title_of(words@[k as int]@));
        }
        if k > 0 {
            r.append(" ");
            proof {
                reveal_strlit(" ");
            }
        }
        r.append(t.as_str());
        proof {
            let pre = titles.subrange(0, k as int);
            let post = titles.subrange(0, k + 1);
            assert(post.drop_last() =~= pre);
            assert(post.last() == titles[k as int]);
            if k == 0 {
                assert(r@ =~= join_spaced(post));
            } else {
                assert(" "@ =~= Seq::empty().push(' ')) by {
                    reveal_strlit(" ");
                }
                assert(r@ =~= join_spaced(pre).push(' ') + titles[k as int]);
                assert(r@ =~= join_spaced(post));
            }
        }
        k += 1;
    }
    proof {
        assert(titles.subrange(0, n as int) =~= titles);
    }
    r
}

} // verus!
