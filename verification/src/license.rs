//! Choosing a license: the entries of the license list (key and SPDX id) are
//! filtered by a substring match on the key, and the outcome says whether one
//! license is taken outright or the candidates are offered for selection.
//! The list itself and the chosen license's text arrive as JSON documents;
//! what `serde_json` reads out of them is given a name, and the contracts of
//! the reading functions are exact over that name.

use crate::text::contains_seq;
use crate::text::eq_str;
use crate::text::int_views;
use crate::text::indices_where;
use crate::text::views_of;
use vstd::prelude::*;

verus! {

/// The indices of the license keys containing `pattern`, in order.
pub open spec fn license_match_indices(keys: Seq<Seq<char>>, pattern: Seq<char>) -> Seq<int> {
    indices_where(keys, |key: Seq<char>| contains_seq(key, pattern))
}

/// The outcome of matching the license keys against the requested pattern.
pub enum LicenseSelection {
    /// Exactly one key matched: that license is used without asking.
    Single(usize),
    /// Zero or several keys matched: the caller offers these indices for
    /// interactive selection.
    Prompt(Vec<usize>),
}

/// What `select_license` promises of its outcome.
pub open spec fn license_decision(
    keys: Seq<Seq<char>>,
    pattern: Seq<char>,
    sel: LicenseSelection,
) -> bool {
    let ms = license_match_indices(keys, pattern);
    match sel {
        LicenseSelection::Single(i) => ms.len() == 1 && i as int == ms[0],
        LicenseSelection::Prompt(opts) => ms.len() != 1 && int_views(opts@) == ms,
    }
}

/// Decide which license to use for `pattern` among the candidate keys.
pub fn select_license(keys: &Vec<String>, pattern: &str) -> (sel: LicenseSelection)
    ensures
        license_decision(views_of(keys@), pattern@, sel),
{
    let ghost kv = views_of(keys@);
    let n = keys.len();
    let mut ms: Vec<usize> = Vec::new();
    let mut i: usize = 0;
    proof {
        assert(int_views(ms@) =~= Seq::<int>::empty());
        assert(kv.take(0) =~= Seq::<Seq<char>>::empty());
    }
    while i < n
        invariant
            i <= n,
            n == keys@.len(),
            kv == views_of(keys@),
            int_views(ms@) == license_match_indices(kv.take(i as int), pattern@),
            forall|k: int| 0 <= k < ms@.len() ==> #[trigger] ms@[k] < i,
        decreases n - i,
    {
        let ghost old_ms = ms@;
        proof {
            assert(kv[i as int] == keys@[i as int]@);
        }
        if crate::text::contains_substr(keys[i].as_str(), pattern) {
            ms.push(i);
            proof {
                assert(int_views(ms@) =~= int_views(old_ms).push(i as int));
            }
        }
        proof {
            assert(kv.take(i + 1).drop_last() =~= kv.take(i as int));
            assert(kv.take(i + 1).last() == kv[i as int]);
            assert(license_match_indices(kv.take(i + 1), pattern@) == int_views(ms@));
        }
        i += 1;
    }
    proof {
        assert(kv.take(n as int) =~= kv);
    }
    if ms.len() == 1 {
        let first = ms[0];
        proof {
            assert(int_views(ms@)[0] == first as int);
        }
        return LicenseSelection::Single(first);
    }
    LicenseSelection::Prompt(ms)
}

/// The address under which the license API serves one license's record.
pub fn license_url(key: &str) -> (u: String)
    ensures
        u@ == "https://api.github.com/licenses/"@ + key@,
{
    let mut u = "https://api.github.com/licenses/".to_owned();
    u.append(key);
    u
}

/// A `NOTICE` file is generated exactly when a `LICENSE` file was written
/// (none was present before) and the chosen license is Apache 2.0.
pub fn should_write_notice(license_key: &str, license_already_present: bool) -> (b: bool)
    ensures
        b == (!license_already_present && license_key@ == "apache-2.0"@),
{
    !license_already_present && eq_str(license_key, "apache-2.0")
}

/// The character views of a sequence of string pairs.
pub open spec fn pair_views(es: Seq<(String, String)>) -> Seq<(Seq<char>, Seq<char>)> {
    es.map_values(|e: (String, String)| (e.0@, e.1@))
}

/// The `(key, spdx_id)` string pairs of `s` read as a JSON array of objects,
/// in the array's order; `None` where `s` is not such a document.
pub uninterp spec fn license_listing_of(s: Seq<char>) -> Option<Seq<(Seq<char>, Seq<char>)>>;

/// Relies on `serde_json`: parse `s` through `Value`'s `FromStr` and take the
/// `key` and `spdx_id` string members of each array element, in order. The
/// result depends on the text alone.
#[verifier::external_body]
fn read_license_listing(s: &str) -> (r: Option<Vec<(String, String)>>)
    ensures
        (match r {
            Some(es) => license_listing_of(s@) == Some(pair_views(es@)),
            None => license_listing_of(s@) is None,
        }),
{
    let doc = <serde_json::Value as std::str::FromStr>::from_str(s).ok()?;
    let items = doc.as_array()?;
    let mut entries = Vec::new();
    for item in items {
        let key = item.get("key")?.as_str()?;
        let spdx = item.get("spdx_id")?.as_str()?;
        entries.push((key.to_owned(), spdx.to_owned()));
    }
    Some(entries)
}

/// Read the license list out of the JSON document the license API returned:
/// one `(key, spdx_id)` pair per entry, in the document's order. `None`
/// exactly where the document is not an array of objects carrying both
/// fields as strings.
pub fn license_entries(json_text: &str) -> (r: Option<Vec<(String, String)>>)
    ensures
        (match r {
            Some(es) => license_listing_of(json_text@) == Some(pair_views(es@)),
            None => license_listing_of(json_text@) is None,
        }),
{
    read_license_listing(json_text)
}

/// The `body` string member of `s` read as a JSON document; `None` where `s`
/// is not a document carrying one.
pub uninterp spec fn license_body_of(s: Seq<char>) -> Option<Seq<char>>;

/// Relies on `serde_json`: parse `s` through `Value`'s `FromStr` and take its
/// `body` string member. The result depends on the text alone.
#[verifier::external_body]
fn read_license_body(s: &str) -> (r: Option<String>)
    ensures
        (match r {
            Some(b) => license_body_of(s@) == Some(b@),
            None => license_body_of(s@) is None,
        }),
{
    let doc = <serde_json::Value as std::str::FromStr>::from_str(s).ok()?;
    Some(doc.get("body")?.as_str()?.to_owned())
}

/// Read the license text out of the JSON record of one license: its `body`
/// member. `None` exactly where the record carries no such string.
pub fn license_body(json_text: &str) -> (r: Option<String>)
    ensures
        (match r {
            Some(b) => license_body_of(json_text@) == Some(b@),
            None => license_body_of(json_text@) is None,
        }),
{
    read_license_body(json_text)
}

} // verus!
