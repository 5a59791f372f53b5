//! Searching the public registry: the two addresses that are asked, what is
//! done after each answer, and the results in one common shape.

use vstd::prelude::*;
use vstd::string::StringExecFns;
use crate::decimal::{decimal_string, decimal_text};
use crate::engine::{failure_message, failure_prefix_of, Operation};
use crate::text::text_eq;

verus! {

/// The number of results that are asked for where the caller names none.
pub const DEFAULT_LIMIT: usize = 25;

/// The address of the search, up to the query.
pub const PRIMARY_SEARCH: &'static str = "https://hub.docker.com/api/content/v1/products/search?q=";

/// The address of the older search, up to the query.
pub const LEGACY_SEARCH: &'static str = "https://hub.docker.com/v2/search/repositories/?query=";

/// What stands between the query and the number of results.
pub const PAGE_SIZE: &'static str = "&page_size=";

/// The name of the header that goes with the search.
pub const VERSION_HEADER: &'static str = "Search-Version";

/// The value of `VERSION_HEADER`.
pub const VERSION_VALUE: &'static str = "v3";

/// The description of a result that has none.
pub const NO_DESCRIPTION: &'static str = "No description";

/// The `filter_type` of an official image.
pub const OFFICIAL: &'static str = "official";

/// Whether a byte stands for itself in a query: an ASCII letter or digit,
/// `-`, `.`, `_` or `~`.
pub open spec fn is_unreserved(byte: u8) -> bool {
    ||| (0x30 <= byte && byte <= 0x39)
    ||| (0x41 <= byte && byte <= 0x5a)
    ||| (0x61 <= byte && byte <= 0x7a)
    ||| byte == 0x2d
    ||| byte == 0x2e
    ||| byte == 0x5f
    ||| byte == 0x7e
}

/// The upper-case hexadecimal digit for a value below sixteen.
pub open spec fn hex_digit(value: u8) -> char {
    if value < 10 {
        ((0x30 + value) as u8) as char
    } else {
        ((0x41 + value - 10) as u8) as char
    }
}

/// One byte in percent encoding: itself where it is unreserved, else `%` and
/// its two hexadecimal digits.
pub open spec fn encoded_byte(byte: u8) -> Seq<char> {
    if is_unreserved(byte) {
        seq![byte as char]
    } else {
        seq!['%', hex_digit(byte / 16), hex_digit(byte % 16)]
    }
}

/// A run of bytes in percent encoding, byte by byte.
pub open spec fn percent_encoded(bytes: Seq<u8>) -> Seq<char>
    decreases bytes.len(),
{
    if bytes.len() == 0 {
        Seq::empty()
    } else {
        percent_encoded(bytes.drop_last()) + encoded_byte(bytes.last())
    }
}

/// `urlencoding::encode`, which percent-encodes the bytes of the text's
/// UTF-8 form: every byte but ASCII letters, digits, `-`, `.`, `_` and `~`
/// becomes `%` and two upper-case hexadecimal digits.
#[verifier::external_body]
fn url_encode(text: &str) -> (r: String)
    ensures
        r@ == percent_encoded(vstd::utf8::encode_utf8(text@)),
{
    urlencoding::encode(text).into_owned()
}

/// The number of results to ask for: the caller's, or 25.
pub fn search_limit(limit: Option<usize>) -> (r: usize)
    ensures
        r == match limit {
            Some(n) => n,
            None => DEFAULT_LIMIT,
        },
{
    match limit {
        Some(n) => n,
        None => DEFAULT_LIMIT,
    }
}

/// An address of a search: the base, the query in percent encoding, and the
/// number of results in decimal.
pub open spec fn search_url_of(base: Seq<char>, query: Seq<char>, limit: nat) -> Seq<char> {
    base + percent_encoded(vstd::utf8::encode_utf8(query)) + PAGE_SIZE@ + decimal_text(limit)
}

/// Builds the address of a search from its base.
fn search_url(base: &str, query: &str, limit: usize) -> (r: String)
    ensures
        r@ == search_url_of(base@, query@, limit as nat),
{
    let mut url = String::from_str(base);
    let encoded = url_encode(query);
    url.append(encoded.as_str());
    url.append(PAGE_SIZE);
    let count = decimal_string(limit as u64);
    url.append(count.as_str());
    url
}

/// The address that is asked first.
pub fn primary_search_url(query: &str, limit: usize) -> (r: String)
    ensures
        r@ == search_url_of(PRIMARY_SEARCH@, query@, limit as nat),
{
    search_url(PRIMARY_SEARCH, query, limit)
}

/// The address that is asked where the first answers with a failure.
pub fn legacy_search_url(query: &str, limit: usize) -> (r: String)
    ensures
        r@ == search_url_of(LEGACY_SEARCH@, query@, limit as nat),
{
    search_url(LEGACY_SEARCH, query, limit)
}

/// Which of the two addresses was asked.
#[derive(Debug, Clone, Copy, PartialEq, Eq, Structural)]
pub enum SearchPhase {
    Primary,
    Legacy,
}

/// What came of asking an address.
#[derive(Debug, Clone, PartialEq, Eq)]
pub enum SearchReply {
    /// No answer came; the text says why.
    Unreachable(String),
    /// An answer came, with a status that means success or not.
    Answered { success: bool },
}

/// What is done after a reply.
#[derive(Debug, Clone, PartialEq, Eq)]
pub enum SearchAction {
    /// Read the answer as the summaries of the first address.
    ReadSummaries,
    /// Read the answer as the results of the older address.
    ReadResults,
    /// Ask the older address, which is given.
    AskLegacy(String),
    /// Give up with the message.
    Fail(String),
}

/// What is done after a reply, as plain values.
pub enum SearchActionView {
    ReadSummaries,
    ReadResults,
    AskLegacy(Seq<char>),
    Fail(Seq<char>),
}

impl View for SearchAction {
    type V = SearchActionView;

    open spec fn view(&self) -> SearchActionView {
        match self {
            SearchAction::ReadSummaries => SearchActionView::ReadSummaries,
            SearchAction::ReadResults => SearchActionView::ReadResults,
            SearchAction::AskLegacy(url) => SearchActionView::AskLegacy(url@),
            SearchAction::Fail(message) => SearchActionView::Fail(message@),
        }
    }
}

/// What is done after a reply. The first address is read where it answers
/// with success; where it answers with anything else the older address is
/// asked, once, and its answer is read whatever its status. An address that
/// cannot be reached ends the search.
pub open spec fn next_action_of(
    phase: SearchPhase,
    reply: SearchReply,
    query: Seq<char>,
    limit: nat,
) -> SearchActionView {
    match (phase, reply) {
        (SearchPhase::Primary, SearchReply::Unreachable(cause)) => SearchActionView::Fail(
            failure_prefix_of(Operation::SearchRegistry) + cause@,
        ),
        (SearchPhase::Primary, SearchReply::Answered { success }) => if success {
            SearchActionView::ReadSummaries
        } else {
            SearchActionView::AskLegacy(search_url_of(LEGACY_SEARCH@, query, limit))
        },
        (SearchPhase::Legacy, SearchReply::Unreachable(cause)) => SearchActionView::Fail(
            failure_prefix_of(Operation::SearchRegistryLegacy) + cause@,
        ),
        (SearchPhase::Legacy, SearchReply::Answered { success }) => SearchActionView::ReadResults,
    }
}

/// Decides what is done after the reply to the address of `phase`.
pub fn next_search_action(phase: SearchPhase, reply: &SearchReply, query: &str, limit: usize) -> (r:
    SearchAction)
    ensures
        r@ == next_action_of(phase, *reply, query@, limit as nat),
{
    match phase {
        SearchPhase::Primary => match reply {
            SearchReply::Unreachable(cause) => SearchAction::Fail(
                failure_message(Operation::SearchRegistry, cause.as_str()),
            ),
            SearchReply::Answered { success } => if *success {
                SearchAction::ReadSummaries
            } else {
                SearchAction::AskLegacy(legacy_search_url(query, limit))
            },
        },
        SearchPhase::Legacy => match reply {
            SearchReply::Unreachable(cause) => SearchAction::Fail(
                failure_message(Operation::SearchRegistryLegacy, cause.as_str()),
            ),
            SearchReply::Answered { success } => SearchAction::ReadResults,
        },
    }
}

/// One result of a search.
#[derive(Debug, Clone, PartialEq, Eq)]
pub struct RegistrySearchResult {
    pub name: String,
    pub description: String,
    pub star_count: i64,
    pub is_official: bool,
    pub is_automated: bool,
}

/// A result as plain values.
pub struct SearchResultView {
    pub name: Seq<char>,
    pub description: Seq<char>,
    pub star_count: i64,
    pub is_official: bool,
    pub is_automated: bool,
}

impl View for RegistrySearchResult {
    type V = SearchResultView;

    open spec fn view(&self) -> SearchResultView {
        SearchResultView {
            name: self.name@,
            description: self.description@,
            star_count: self.star_count,
            is_official: self.is_official,
            is_automated: self.is_automated,
        }
    }
}

/// The views of a list of results.
pub open spec fn result_views(items: Seq<RegistrySearchResult>) -> Seq<SearchResultView> {
    items.map_values(|r: RegistrySearchResult| r@)
}

/// One summary in the answer of the first address.
#[derive(Debug, Clone, PartialEq, Eq)]
pub struct HubSummary {
    pub name: String,
    pub slug: String,
    pub short_description: String,
    pub star_count: i64,
    pub filter_type: String,
}

/// One result in the answer of the older address.
#[derive(Debug, Clone, PartialEq, Eq)]
pub struct HubResult {
    pub name: String,
    pub description: Option<String>,
    pub star_count: i64,
    pub is_official: bool,
    pub is_automated: bool,
}

/// The result for a summary: named by its slug, or by its name where the
/// slug is empty; official where its `filter_type` says so; never marked as
/// automated, of which a summary says nothing.
pub open spec fn summary_result_of(summary: HubSummary) -> SearchResultView {
    SearchResultView {
        name: if summary.slug@.len() > 0 {
            summary.slug@
        } else {
            summary.name@
        },
        description: summary.short_description@,
        star_count: summary.star_count,
        is_official: summary.filter_type@ == OFFICIAL@,
        is_automated: false,
    }
}

/// The result for a result of the older address, with `No description`
/// where it has none.
pub open spec fn legacy_result_of(result: HubResult) -> SearchResultView {
    SearchResultView {
        name: result.name@,
        description: match result.description {
            Some(text) => text@,
            None => NO_DESCRIPTION@,
        },
        star_count: result.star_count,
        is_official: result.is_official,
        is_automated: result.is_automated,
    }
}

/// Brings the summaries of the first address into the common shape.
pub fn normalize_summaries(summaries: &Vec<HubSummary>) -> (r: Vec<RegistrySearchResult>)
    ensures
        result_views(r@) == summaries@.map_values(|s: HubSummary| summary_result_of(s)),
{
    let ghost want = summaries@.map_values(|s: HubSummary| summary_result_of(s));
    let mut r: Vec<RegistrySearchResult> = Vec::new();
    let n = summaries.len();
    let mut i: usize = 0;
    while i < n
        invariant
            n == summaries.len(),
            i <= n,
            want == summaries@.map_values(|s: HubSummary| summary_result_of(s)),
            result_views(r@) == want.take(i as int),
        decreases n - i,
    {
        let summary = &summaries[i];
        let result = RegistrySearchResult {
            name: if !summary.slug.as_str().is_empty() {
                summary.slug.clone()
            } else {
                summary.name.clone()
            },
            description: summary.short_description.clone(),
            star_count: summary.star_count,
            is_official: text_eq(summary.filter_type.as_str(), OFFICIAL),
            is_automated: false,
        };
        proof {
            assert(result_views(r@.push(result)) =~= result_views(r@).push(result@));
            assert(want.take(i + 1) =~= want.take(i as int).push(result@));
        }
        r.push(result);
        i += 1;
    }
    assert(want.take(n as int) == want);
    r
}

/// Brings the results of the older address into the common shape.
pub fn normalize_results(results: &Vec<HubResult>) -> (r: Vec<RegistrySearchResult>)
    ensures
        result_views(r@) == results@.map_values(|h: HubResult| legacy_result_of(h)),
{
    let ghost want = results@.map_values(|h: HubResult| legacy_result_of(h));
    let mut r: Vec<RegistrySearchResult> = Vec::new();
    let n = results.len();
    let mut i: usize = 0;
    while i < n
        invariant
            n == results.len(),
            i <= n,
            want == results@.map_values(|h: HubResult| legacy_result_of(h)),
            result_views(r@) == want.take(i as int),
        decreases n - i,
    {
        let found = &results[i];
        let result = RegistrySearchResult {
            name: found.name.clone(),
            description: match &found.description {
                Some(text) => text.clone(),
                None => String::from_str(NO_DESCRIPTION),
            },
            star_count: found.star_count,
            is_official: found.is_official,
            is_automated: found.is_automated,
        };
        proof {
            assert(result_views(r@.push(result)) =~= result_views(r@).push(result@));
            assert(want.take(i + 1) =~= want.take(i as int).push(result@));
        }
        r.push(result);
        i += 1;
    }
    assert(want.take(n as int) == want);
    r
}

} // verus!
