//! The crate-lookup feature's logic: resolving a query to a documentation
//! URL, fixed links for the compiler's own crates, and the reply texts. The
//! network fetch itself happens at the program's edge; everything here is a
//! function of the query and of what the fetch returned.

use vstd::prelude::*;

use crate::config::GroupSettings;
use crate::messages::CratesMessages;
use crate::text::lower_ascii;
use crate::text::replace_all;
use crate::text::html_escape;
use crate::text::spec_html_escape;
use crate::text::spec_lower;
use crate::text::spec_replace;
use crate::text::spec_u64_string;
use crate::text::str_eq;
use crate::text::u64_to_string;

verus! {

/// What a crate-name lookup resolves to.
#[derive(Debug)]
pub enum CrateVariant {
    /// A fixed documentation link (used for the compiler's own crates).
    Link(String),
    /// A crate found on the registry.
    Crate(Crate),
}

/// What the registry reports of one crate.
#[derive(Debug, Clone)]
pub struct Crate {
    /// The crate's name.
    pub name: String,
    /// The newest version, pre-releases included.
    pub max_version: Option<String>,
    /// The newest stable version.
    pub max_stable_version: Option<String>,
    /// When the crate was last updated, as an RFC 3339 text.
    pub updated_at: String,
    /// How often the crate was downloaded.
    pub downloads: u64,
    /// The crate's description.
    pub description: Option<String>,
    /// The crate's own documentation link, where it names one.
    pub documentation: Option<String>,
    /// The crate's repository link, where it names one.
    pub repository: Option<String>,
    /// Whether the registry matched the queried name exactly.
    pub exact_match: bool,
}

/// How a lookup fails. The two transport failures carry the underlying
/// error's rendering, which is all the replies use of it.
#[derive(Debug)]
pub enum CratesError {
    /// Sending the request failed.
    Reqwest(String),
    /// No crate of the queried name, possibly with a near name to suggest.
    CrateNotFound(Option<String>),
    /// The documentation query held no leading path element.
    InvalidQueryInDocLookup,
    /// The registry's answer could not be read.
    CratesIoParseJson(String),
}

/// The documentation link of a crate: its own where it names one, its page
/// on the documentation host otherwise.
pub open spec fn spec_get_documentation(c: Crate) -> Seq<char> {
    match c.documentation {
        Some(doc) => doc@,
        None => "https://docs.rs/"@ + c.name@,
    }
}

/// The documentation link of a crate.
pub fn get_documentation(crate_info: &Crate) -> (r: String)
    ensures
        r@ == spec_get_documentation(*crate_info),
{
    match &crate_info.documentation {
        Some(doc) => doc.clone(),
        None => {
            let mut url = String::from_str("https://docs.rs/");
            url.append(crate_info.name.as_str());
            url
        },
    }
}

/// Whether a type name names something of the standard library: it starts
/// with an upper-case letter, or it is one of the primitives' names.
pub open spec fn spec_is_in_std(name: Seq<char>) -> bool {
    ||| (name.len() > 0 && 'A' <= name[0] && name[0] <= 'Z')
    ||| name == "f32"@
    ||| name == "f64"@
    ||| name == "i8"@
    ||| name == "i16"@
    ||| name == "i32"@
    ||| name == "i64"@
    ||| name == "i128"@
    ||| name == "isize"@
    ||| name == "u8"@
    ||| name == "u16"@
    ||| name == "u32"@
    ||| name == "u64"@
    ||| name == "u128"@
    ||| name == "usize"@
    ||| name == "char"@
    ||| name == "str"@
    ||| name == "pointer"@
    ||| name == "reference"@
    ||| name == "fn"@
    ||| name == "bool"@
    ||| name == "slice"@
    ||| name == "tuple"@
    ||| name == "unit"@
    ||| name == "array"@
}

/// Whether the given type name is the standard library's: upper-case initial
/// (types are named so there) or a primitive's name.
pub fn is_in_std(name: &str) -> (r: bool)
    ensures
        r == spec_is_in_std(name@),
{
    if name.unicode_len() > 0 {
        let c = name.get_char(0);
        if 'A' <= c && c <= 'Z' {
            return true;
        }
    }
    str_eq(name, "f32") || str_eq(name, "f64") || str_eq(name, "i8") || str_eq(name, "i16")
        || str_eq(name, "i32") || str_eq(name, "i64") || str_eq(name, "i128") || str_eq(
        name,
        "isize",
    ) || str_eq(name, "u8") || str_eq(name, "u16") || str_eq(name, "u32") || str_eq(name, "u64")
        || str_eq(name, "u128") || str_eq(name, "usize") || str_eq(name, "char") || str_eq(
        name,
        "str",
    ) || str_eq(name, "pointer") || str_eq(name, "reference") || str_eq(name, "fn") || str_eq(
        name,
        "bool",
    ) || str_eq(name, "slice") || str_eq(name, "tuple") || str_eq(name, "unit") || str_eq(
        name,
        "array",
    )
}

/// The fixed documentation link of one of the compiler's own crates, matched
/// on the ASCII-lower-cased name.
pub open spec fn spec_rustc_crate_link(name: Seq<char>) -> Option<Seq<char>> {
    let l = spec_lower(name);
    if l == "std"@ {
        Some("https://doc.rust-lang.org/stable/std"@)
    } else if l == "core"@ {
        Some("https://doc.rust-lang.org/stable/core"@)
    } else if l == "alloc"@ {
        Some("https://doc.rust-lang.org/stable/alloc/"@)
    } else if l == "proc_macro"@ || l == "proc-macro"@ {
        Some("https://doc.rust-lang.org/stable/proc_macro"@)
    } else if l == "beta"@ {
        Some("https://doc.rust-lang.org/beta/std"@)
    } else if l == "nightly"@ {
        Some("https://doc.rust-lang.org/nightly/std"@)
    } else if l == "rustc"@ {
        Some("https://doc.rust-lang.org/nightly/nightly-rustc"@)
    } else if l == "test"@ {
        Some("https://doc.rust-lang.org/stable/test"@)
    } else {
        None
    }
}

/// The documentation link of one of the compiler's own crates (std, alloc,
/// a release channel), or nothing for any other name.
pub fn rustc_crate_link(crate_name: &str) -> (r: Option<&'static str>)
    ensures
        match r {
            Some(u) => spec_rustc_crate_link(crate_name@) == Some(u@),
            None => spec_rustc_crate_link(crate_name@) is None,
        },
{
    let lower = lower_ascii(crate_name);
    let l = lower.as_str();
    if str_eq(l, "std") {
        Some("https://doc.rust-lang.org/stable/std")
    } else if str_eq(l, "core") {
        Some("https://doc.rust-lang.org/stable/core")
    } else if str_eq(l, "alloc") {
        Some("https://doc.rust-lang.org/stable/alloc/")
    } else if str_eq(l, "proc_macro") || str_eq(l, "proc-macro") {
        Some("https://doc.rust-lang.org/stable/proc_macro")
    } else if str_eq(l, "beta") {
        Some("https://doc.rust-lang.org/beta/std")
    } else if str_eq(l, "nightly") {
        Some("https://doc.rust-lang.org/nightly/std")
    } else if str_eq(l, "rustc") {
        Some("https://doc.rust-lang.org/nightly/nightly-rustc")
    } else if str_eq(l, "test") {
        Some("https://doc.rust-lang.org/stable/test")
    } else {
        None
    }
}

/// The position of the first occurrence of `pat` in `s` at or after `i`.
pub open spec fn spec_first_match(s: Seq<char>, pat: Seq<char>, i: int) -> Option<int>
    decreases s.len() - i,
{
    if pat.len() == 0 {
        Some(i)
    } else if i < 0 || i + pat.len() > s.len() {
        None
    } else if s.subrange(i, i + pat.len() as int) == pat {
        Some(i)
    } else {
        spec_first_match(s, pat, i + 1)
    }
}

/// A documentation query split at its first path separator: the leading path
/// element, and the rest where a separator occurs.
pub open spec fn spec_split_query(q: Seq<char>) -> (Seq<char>, Option<Seq<char>>) {
    match spec_first_match(q, seq![':', ':'], 0) {
        Some(i) => (q.subrange(0, i), Some(q.subrange(i + 2, q.len() as int))),
        None => (q, None),
    }
}

/// Split a documentation query at its first "::".
#[verifier::loop_isolation(false)]
pub fn split_doc_query(query: &str) -> (r: (String, Option<String>))
    ensures
        r.0@ == spec_split_query(query@).0,
        match (r.1, spec_split_query(query@).1) {
            (Some(a), Some(b)) => a@ == b,
            (None, None) => true,
            _ => false,
        },
{
    let ghost pat = seq![':', ':'];
    let n = query.unicode_len();
    let mut i: usize = 0;
    while n >= 2 && i <= n - 2
        invariant
            0 <= i <= n,
            spec_first_match(query@, pat, 0) == spec_first_match(query@, pat, i as int),
        decreases n - i,
    {
        if query.get_char(i) == ':' && query.get_char(i + 1) == ':' {
            proof {
                assert(query@.subrange(i as int, i + 2) =~= pat);
                assert(spec_first_match(query@, pat, i as int) == Some(i as int));
            }
            let first = query.substring_char(0, i);
            let rest = query.substring_char(i + 2, n);
            return (first.to_owned(), Some(rest.to_owned()));
        }
        proof {
            assert(query@.subrange(i as int, i + 2) != pat) by {
                if query@[i as int] != ':' {
                    assert(query@.subrange(i as int, i + 2)[0] != pat[0]);
                } else {
                    assert(query@.subrange(i as int, i + 2)[1] != pat[1]);
                }
            }
        }
        i += 1;
    }
    proof {
        assert(spec_first_match(query@, pat, i as int) is None);
        assert(query@.subrange(0, n as int) =~= query@);
    }
    (query.to_owned(), None)
}

/// The crate that must be fetched from the registry before the documentation
/// target of `query` resolves: none when a fixed link or the standard
/// library already answers it.
pub open spec fn spec_doc_fetch_needed(q: Seq<char>) -> Option<Seq<char>> {
    let first = spec_split_query(q).0;
    if spec_rustc_crate_link(first) is Some {
        None
    } else if first.len() == 0 || spec_is_in_std(first) {
        None
    } else {
        Some(first)
    }
}

/// The name of the crate whose documentation must be fetched before the
/// target of `query` resolves, or nothing when no fetch is needed.
pub fn doc_lookup_fetch_target(query: &str) -> (r: Option<String>)
    ensures
        match (r, spec_doc_fetch_needed(query@)) {
            (Some(a), Some(b)) => a@ == b,
            (None, None) => true,
            _ => false,
        },
{
    let (first, _) = split_doc_query(query);
    match rustc_crate_link(first.as_str()) {
        Some(_) => None,
        None => {
            if first.as_str().unicode_len() == 0 || is_in_std(first.as_str()) {
                None
            } else {
                Some(first)
            }
        },
    }
}

/// The documentation base a query resolves against: the fixed link where one
/// exists, the standard library's page for its own names and for an empty
/// element, the fetched crate's documentation otherwise.
pub open spec fn spec_doc_base(q: Seq<char>, fetched_doc: Seq<char>) -> Seq<char> {
    let first = spec_split_query(q).0;
    match spec_rustc_crate_link(first) {
        Some(u) => u,
        None => if first.len() == 0 || spec_is_in_std(first) {
            "https://doc.rust-lang.org/stable/std/"@
        } else {
            fetched_doc
        },
    }
}

/// The documentation URL a query resolves to: the base, with a search for
/// the whole query on a standard-library name, or for the trailing path where
/// the query has one.
pub open spec fn spec_doc_url(q: Seq<char>, fetched_doc: Seq<char>) -> Seq<char> {
    let first = spec_split_query(q).0;
    let rest = spec_split_query(q).1;
    let base = spec_doc_base(q, fetched_doc);
    if spec_is_in_std(first) {
        base + "?search="@ + q
    } else {
        match rest {
            Some(item) => base + "?search="@ + item,
            None => base,
        }
    }
}

/// Resolve a documentation query, given what the registry fetch returned
/// where one was needed: the resulting URL, or nothing when a fetch was
/// needed but none is at hand.
pub fn doc_lookup_url(query: &str, fetched: Option<&Crate>) -> (r: Option<String>)
    ensures
        match fetched {
            Some(c) => r matches Some(u) && u@ == spec_doc_url(query@, spec_get_documentation(*c)),
            None => if spec_doc_fetch_needed(query@) is Some {
                r is None
            } else {
                r matches Some(u) && u@ == spec_doc_url(query@, Seq::<char>::empty())
            },
        },
{
    let (first, rest) = split_doc_query(query);
    let base: String = match rustc_crate_link(first.as_str()) {
        Some(u) => u.to_owned(),
        None => {
            if first.as_str().unicode_len() == 0 || is_in_std(first.as_str()) {
                String::from_str("https://doc.rust-lang.org/stable/std/")
            } else {
                match fetched {
                    Some(c) => get_documentation(c),
                    None => {
                        return None;
                    },
                }
            }
        },
    };
    let mut url = base;
    if is_in_std(first.as_str()) {
        url.append("?search=");
        url.append(query);
    } else {
        match rest {
            Some(item) => {
                url.append("?search=");
                url.append(item.as_str());
            },
            None => {},
        }
    }
    Some(url)
}

/// Pick the lookup's result from the list the registry answered with: the
/// first listed crate where it matches the queried name exactly; otherwise
/// the not-found failure, carrying the first crate's name as a suggestion
/// where the list holds one.
pub fn select_crate(crates: Vec<Crate>) -> (r: Result<Crate, CratesError>)
    ensures
        crates@.len() == 0 ==> (r matches Err(e) && e matches CratesError::CrateNotFound(s) && s
            is None),
        crates@.len() > 0 && crates@[0].exact_match ==> (r matches Ok(c) && c == crates@[0]),
        crates@.len() > 0 && !crates@[0].exact_match ==> (r matches Err(e) && e matches
            CratesError::CrateNotFound(s) && s matches Some(n) && n == crates@[0].name),
{
    let mut crates = crates;
    if crates.len() == 0 {
        return Err(CratesError::CrateNotFound(None));
    }
    let first = crates.remove(0);
    if first.exact_match {
        Ok(first)
    } else {
        Err(CratesError::CrateNotFound(Some(first.name)))
    }
}

/// The reply text for a failed lookup, drawn from the group's texts.
pub fn get_message(error: CratesError, query: &str, group_settings: &GroupSettings) -> (r: String)
    ensures
        r@ == match error {
            CratesError::Reqwest(e) => spec_replace(
                group_settings.messages.crates.send_request_failed@,
                "{DETAIL}"@,
                e@,
            ),
            CratesError::CrateNotFound(sug) => match sug {
                Some(s) => spec_replace(
                    spec_replace(
                        group_settings.messages.crates.crate_not_found_suggestion@,
                        "{CRATE_NAME}"@,
                        query@,
                    ),
                    "{CRATE_NAME_MEAN}"@,
                    s@,
                ),
                None => spec_replace(
                    group_settings.messages.crates.crate_not_found@,
                    "{CRATE_NAME}"@,
                    query@,
                ),
            },
            CratesError::InvalidQueryInDocLookup => spec_replace(
                group_settings.messages.crates.invalid_query_in_doc_lookup@,
                "{QUERY}"@,
                query@,
            ),
            CratesError::CratesIoParseJson(e) => spec_replace(
                group_settings.messages.crates.crate_io_json_parse_error@,
                "{DETAIL}"@,
                e@,
            ),
        },
{
    match error {
        CratesError::Reqwest(e) => group_settings.messages.crates.send_request_failed_message(e),
        CratesError::CrateNotFound(suggestion) => group_settings
            .messages
            .crates
            .crate_not_found_message(query, suggestion),
        CratesError::InvalidQueryInDocLookup => group_settings
            .messages
            .crates
            .invalid_query_in_doc_lookup_message(query),
        CratesError::CratesIoParseJson(e) => group_settings
            .messages
            .crates
            .crate_io_json_parse_error_message(e),
    }
}

/// What an RFC 3339 text renders to after conversion to UTC in the
/// "year/month/day hour:minute:second" layout, where it parses at all: a
/// function of the text alone.
pub uninterp spec fn rfc3339_reformatted(s: Seq<char>) -> Option<Seq<char>>;

/// Relies on chrono's DateTime::parse_from_rfc3339, DateTime::with_timezone
/// and DateTime::format: parsing, the change to UTC and the rendering all
/// depend on the text alone, so the result is named and nothing more is
/// assumed of it.
#[verifier::external_body]
fn format_rfc3339_as_utc(s: &str) -> (r: Option<String>)
    ensures
        match r {
            Some(t) => rfc3339_reformatted(s@) == Some(t@),
            None => rfc3339_reformatted(s@) is None,
        },
{
    match chrono::DateTime::parse_from_rfc3339(s) {
        Ok(t) => Some(t.with_timezone(&chrono::Utc).format("%Y/%m/%d %H:%M:%S").to_string()),
        Err(_) => None,
    }
}

/// Relies on chrono::Utc::now, rendered in the same layout. The result
/// depends on the clock, so nothing is stated of it.
#[verifier::external_body]
fn now_formatted() -> (r: String) {
    chrono::Utc::now().format("%Y/%m/%d %H:%M:%S").to_string()
}

/// The version a reply shows: the newest stable one, else the newest one,
/// else a placeholder.
pub open spec fn spec_crate_version_text(c: Crate) -> Seq<char> {
    match c.max_stable_version {
        Some(v) => v@,
        None => match c.max_version {
            Some(v) => v@,
            None => "&lt;unknown version&gt;"@,
        },
    }
}

/// The description a reply shows: the crate's own, else a placeholder.
pub open spec fn spec_crate_description_text(c: Crate) -> Seq<char> {
    match c.description {
        Some(d) => d@,
        None => "<i>&lt;no description available&gt;</i>"@,
    }
}

/// The reply describing a found crate, with the given update-time text.
pub open spec fn spec_crate_found_message(
    template: Seq<char>,
    c: Crate,
    date_text: Seq<char>,
) -> Seq<char> {
    spec_replace(
        spec_replace(
            spec_replace(
                spec_replace(
                    spec_replace(template, "{NAME}"@, c.name@),
                    "{VERSION}"@,
                    spec_crate_version_text(c),
                ),
                "{DESCRIPTION}"@,
                spec_html_escape(spec_crate_description_text(c)),
            ),
            "{DOWNLOADS}"@,
            spec_u64_string(c.downloads as int),
        ),
        "{UPDATED_AT}"@,
        date_text,
    )
}

impl CratesMessages {
    /// The reply describing a found crate, given the update-time text to
    /// show. Pinned down for every input; the time-dependent rendering is the
    /// caller's business.
    pub fn crate_found_message_with(
        &self,
        crate_info: &Crate,
        updated_at_text: &str,
    ) -> (r: String)
        ensures
            r@ == spec_crate_found_message(self.crate_found_msg@, *crate_info, updated_at_text@),
    {
        proof {
            reveal_strlit("{NAME}");
            reveal_strlit("{VERSION}");
            reveal_strlit("{DESCRIPTION}");
            reveal_strlit("{DOWNLOADS}");
            reveal_strlit("{UPDATED_AT}");
        }
        let named = replace_all(self.crate_found_msg.as_str(), "{NAME}", crate_info.name.as_str());
        let version: &str = match &crate_info.max_stable_version {
            Some(v) => v.as_str(),
            None => match &crate_info.max_version {
                Some(v) => v.as_str(),
                None => "&lt;unknown version&gt;",
            },
        };
        let versioned = replace_all(named.as_str(), "{VERSION}", version);
        let description: &str = match &crate_info.description {
            Some(d) => d.as_str(),
            None => "<i>&lt;no description available&gt;</i>",
        };
        let escaped_description = html_escape(description);
        let described = replace_all(
            versioned.as_str(),
            "{DESCRIPTION}",
            escaped_description.as_str(),
        );
        let downloads_text = u64_to_string(crate_info.downloads);
        let counted = replace_all(described.as_str(), "{DOWNLOADS}", downloads_text.as_str());
        replace_all(counted.as_str(), "{UPDATED_AT}", updated_at_text)
    }

    /// The reply describing a found crate. Where the crate's update time
    /// parses as RFC 3339, the shown time is its UTC rendering; where it does
    /// not, the current time stands in, so only the rest of the text is
    /// pinned down.
    pub fn crate_found_message(&self, crate_info: &Crate) -> (r: String)
        ensures
            rfc3339_reformatted(crate_info.updated_at@) matches Some(t) ==> r@
                == spec_crate_found_message(self.crate_found_msg@, *crate_info, t),
            exists|t: Seq<char>| r@ == spec_crate_found_message(
                self.crate_found_msg@,
                *crate_info,
                t,
            ),
    {
        let date_text = match format_rfc3339_as_utc(crate_info.updated_at.as_str()) {
            Some(t) => t,
            None => now_formatted(),
        };
        self.crate_found_message_with(crate_info, date_text.as_str())
    }
}

} // verus!
