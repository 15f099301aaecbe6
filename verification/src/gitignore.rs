//! Choosing a `.gitignore` template: the candidate file stems (gathered by
//! the caller from the cloned template repository) are filtered by a
//! case-insensitive substring match against the requested language, and the
//! outcome says whether one template is taken outright, several are offered
//! for selection, or none fits. The decision of how to write the file when a
//! `.gitignore` already exists is modelled here as well.

use crate::casing::lower_of;
use crate::text::contains_seq;
use crate::text::int_views;
use crate::text::indices_where;
use crate::text::views_of;
use vstd::prelude::*;

verus! {

/// A template stem matches when its lowercase form contains the lowercase
/// form of the requested language.
pub open spec fn stem_matches(stem: Seq<char>, lang_lower: Seq<char>) -> bool {
    contains_seq(lower_of(stem), lang_lower)
}

/// The indices of the stems matching the lowercased language, in order.
pub open spec fn match_indices(stems: Seq<Seq<char>>, lang_lower: Seq<char>) -> Seq<int> {
    indices_where(stems, |stem: Seq<char>| stem_matches(stem, lang_lower))
}

/// The outcome of matching the candidate stems against the language.
pub enum GitignoreSelection {
    /// Exactly one stem matched, and its lowercase form equals the lowercased
    /// language: that candidate is used without asking.
    Auto(usize),
    /// Candidates matched but none is a unique exact match: the caller offers
    /// these indices for interactive selection.
    Prompt(Vec<usize>),
    /// No stem matched the language.
    NoMatch,
}

/// The sole matching stem is an exact (case-insensitive) match.
pub open spec fn single_exact(stems: Seq<Seq<char>>, lang_lower: Seq<char>, ms: Seq<int>) -> bool {
    ms.len() == 1 && lower_of(stems[ms[0]]) == lang_lower
}

/// What `select_gitignore` promises of its outcome.
pub open spec fn gitignore_decision(
    stems: Seq<Seq<char>>,
    language: Seq<char>,
    sel: GitignoreSelection,
) -> bool {
    let lang_lower = lower_of(language);
    let ms = match_indices(stems, lang_lower);
    match sel {
        GitignoreSelection::Auto(i) => single_exact(stems, lang_lower, ms) && i as int == ms[0],
        GitignoreSelection::Prompt(opts) => ms.len() > 0 && !single_exact(stems, lang_lower, ms)
            && int_views(opts@) == ms,
        GitignoreSelection::NoMatch => ms.len() == 0,
    }
}

/// Decide which `.gitignore` template to use for `language` among the
/// candidate file stems.
pub fn select_gitignore(stems: &Vec<String>, language: &str) -> (sel: GitignoreSelection)
    ensures
        gitignore_decision(views_of(stems@), language@, sel),
{
    let ghost sv = views_of(stems@);
    let ghost lang_l = lower_of(language@);
    let lang_lower = crate::casing::to_lower(language);
    let n = stems.len();
    let mut ms: Vec<usize> = Vec::new();
    let mut i: usize = 0;
    proof {
        assert(int_views(ms@) =~= Seq::<int>::empty());
        assert(sv.take(0) =~= Seq::<Seq<char>>::empty());
    }
    while i < n
        invariant
            i <= n,
            n == stems@.len(),
            sv == views_of(stems@),
            lang_l == lower_of(language@),
            lang_lower@ == lang_l,
            int_views(ms@) == match_indices(sv.take(i as int), lang_l),
            forall|k: int| 0 <= k < ms@.len() ==> #[trigger] ms@[k] < i,
        decreases n - i,
    {
        let ghost old_ms = ms@;
        let stem_lower = crate::casing::to_lower(stems[i].as_str());
        proof {
            assert(sv[i as int] == stems@[i as int]@);
        }
        if crate::text::contains_substr(stem_lower.as_str(), lang_lower.as_str()) {
            ms.push(i);
            proof {
                assert(int_views(ms@) =~= int_views(old_ms).push(i as int));
            }
        }
        proof {
            assert(sv.take(i + 1).drop_last() =~= sv.take(i as int));
            assert(sv.take(i + 1).last() == sv[i as int]);
            assert(match_indices(sv.take(i + 1), lang_l) == int_views(ms@));
        }
        i += 1;
    }
    proof {
        assert(sv.take(n as int) =~= sv);
    }
    if ms.len() == 0 {
        return GitignoreSelection::NoMatch;
    }
    if ms.len() == 1 {
        let first = ms[0];
        let first_lower = crate::casing::to_lower(stems[first].as_str());
        proof {
            assert(int_views(ms@)[0] == first as int);
            assert(sv[first as int] == stems@[first as int]@);
        }
        if first_lower == lang_lower {
            return GitignoreSelection::Auto(first);
        }
    }
    GitignoreSelection::Prompt(ms)
}

/// How an existing `.gitignore` is to be written.
pub enum WriteMode {
    /// Replace the file's contents.
    Overwrite,
    /// Add the template to the end of the file.
    Append,
    /// Leave the file untouched.
    Cancel,
}

/// The write mode implied by whether a `.gitignore` already exists and, if it
/// does, by the answer picked at the prompt (overwrite, append, cancel).
pub open spec fn write_mode_spec(already_exists: bool, answer: int) -> WriteMode {
    if !already_exists {
        WriteMode::Overwrite
    } else if answer == 0 {
        WriteMode::Overwrite
    } else if answer == 1 {
        WriteMode::Append
    } else {
        WriteMode::Cancel
    }
}

/// Decide how the `.gitignore` file is written. Without an existing file the
/// template always overwrites; otherwise the prompted answer decides.
pub fn gitignore_write_mode(already_exists: bool, answer: usize) -> (m: WriteMode)
    requires
        already_exists ==> answer < 3,
    ensures
        m == write_mode_spec(already_exists, answer as int),
{
    if !already_exists {
        WriteMode::Overwrite
    } else if answer == 0 {
        WriteMode::Overwrite
    } else if answer == 1 {
        WriteMode::Append
    } else {
        WriteMode::Cancel
    }
}

} // verus!
