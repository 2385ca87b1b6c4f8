use vstd::prelude::*;

use crate::error::{api_error, ApiError, ApiErrorView, ErrorStatus};
use crate::json::{
    get_string_field, object_get, parse_json, spec_first_present, spec_json_text, spec_object_get,
    spec_parse_json, str_equals, str_views, JsonValue,
};

verus! {

/// Route parameters of a torrent search.
pub struct TorrentSearchPathParams {
    pub website: String,
    pub query: String,
}

/// Route parameters of a torrent search for one page of results.
pub struct TorrentSearchPathParamsWithPage {
    pub website: String,
    pub query: String,
    pub page: u32,
}

/// One torrent found by a search, with every field as text.
#[derive(Debug)]
pub struct TorrentSearchResult {
    pub name: String,
    pub size: String,
    pub date_uploaded: String,
    pub category: String,
    pub seeders: String,
    pub leechers: String,
    pub uploaded_by: String,
    pub url: String,
    pub magnet: String,
}

/// The mathematical value of a [`TorrentSearchResult`].
pub struct TorrentSearchResultView {
    pub name: Seq<char>,
    pub size: Seq<char>,
    pub date_uploaded: Seq<char>,
    pub category: Seq<char>,
    pub seeders: Seq<char>,
    pub leechers: Seq<char>,
    pub uploaded_by: Seq<char>,
    pub url: Seq<char>,
    pub magnet: Seq<char>,
}

impl View for TorrentSearchResult {
    type V = TorrentSearchResultView;

    open spec fn view(&self) -> TorrentSearchResultView {
        TorrentSearchResultView {
            name: self.name@,
            size: self.size@,
            date_uploaded: self.date_uploaded@,
            category: self.category@,
            seeders: self.seeders@,
            leechers: self.leechers@,
            uploaded_by: self.uploaded_by@,
            url: self.url@,
            magnet: self.magnet@,
        }
    }
}

/// The views of a list of results.
pub open spec fn result_views(results: Seq<TorrentSearchResult>) -> Seq<TorrentSearchResultView> {
    results.map_values(|r: TorrentSearchResult| r@)
}

/// The view of the outcome of a search.
pub open spec fn search_outcome(res: Result<Vec<TorrentSearchResult>, ApiError>) -> Result<
    Seq<TorrentSearchResultView>,
    ApiErrorView,
> {
    match res {
        Ok(v) => Ok(result_views(v@)),
        Err(e) => Err(e@),
    }
}

/// The names a result's name is looked up under, in order.
pub open spec fn name_keys() -> Seq<Seq<char>> {
    seq!["Name"@, "name"@, "title"@]
}

pub open spec fn size_keys() -> Seq<Seq<char>> {
    seq!["Size"@, "size"@]
}

pub open spec fn date_uploaded_keys() -> Seq<Seq<char>> {
    seq!["DateUploaded"@, "Age"@, "date_uploaded"@]
}

pub open spec fn category_keys() -> Seq<Seq<char>> {
    seq!["Category"@, "category"@]
}

pub open spec fn seeders_keys() -> Seq<Seq<char>> {
    seq!["Seeders"@, "seeders"@]
}

pub open spec fn leechers_keys() -> Seq<Seq<char>> {
    seq!["Leechers"@, "leechers"@]
}

pub open spec fn uploaded_by_keys() -> Seq<Seq<char>> {
    seq!["UploadedBy"@, "uploaded_by"@, "uploader"@]
}

pub open spec fn url_keys() -> Seq<Seq<char>> {
    seq!["Url"@, "url"@]
}

pub open spec fn magnet_keys() -> Seq<Seq<char>> {
    seq!["Magnet"@, "magnet"@]
}

/// The text of a field: the value under the first of `keys` the object has,
/// empty where it has none.
pub open spec fn spec_field_text(members: Seq<(String, JsonValue)>, keys: Seq<Seq<char>>) -> Seq<char> {
    match spec_first_present(members, keys) {
        Some(v) => spec_json_text(v),
        None => Seq::empty(),
    }
}

/// A search result read from one JSON value: an object gives a result whose
/// fields are looked up under their names in the order above; anything else
/// gives none.
pub open spec fn spec_normalize(value: JsonValue) -> Option<TorrentSearchResultView> {
    match value {
        JsonValue::Object(m) => Some(
            TorrentSearchResultView {
                name: spec_field_text(m@, name_keys()),
                size: spec_field_text(m@, size_keys()),
                date_uploaded: spec_field_text(m@, date_uploaded_keys()),
                category: spec_field_text(m@, category_keys()),
                seeders: spec_field_text(m@, seeders_keys()),
                leechers: spec_field_text(m@, leechers_keys()),
                uploaded_by: spec_field_text(m@, uploaded_by_keys()),
                url: spec_field_text(m@, url_keys()),
                magnet: spec_field_text(m@, magnet_keys()),
            },
        ),
        _ => None,
    }
}

/// The view of an optional result.
pub open spec fn optional_result_view(r: Option<TorrentSearchResult>) -> Option<TorrentSearchResultView> {
    match r {
        Some(r) => Some(r@),
        None => None,
    }
}

/// Reads one search result from a JSON value.
pub fn normalize_torrent_search_result(value: &JsonValue) -> (res: Option<TorrentSearchResult>)
    ensures
        optional_result_view(res) == spec_normalize(*value),
{
    match value {
        JsonValue::Object(object) => {
            let name_names = ["Name", "name", "title"];
            let size_names = ["Size", "size"];
            let date_uploaded_names = ["DateUploaded", "Age", "date_uploaded"];
            let category_names = ["Category", "category"];
            let seeders_names = ["Seeders", "seeders"];
            let leechers_names = ["Leechers", "leechers"];
            let uploaded_by_names = ["UploadedBy", "uploaded_by", "uploader"];
            let url_names = ["Url", "url"];
            let magnet_names = ["Magnet", "magnet"];
            assert(str_views(name_names@) == name_keys());
            assert(str_views(size_names@) == size_keys());
            assert(str_views(date_uploaded_names@) == date_uploaded_keys());
            assert(str_views(category_names@) == category_keys());
            assert(str_views(seeders_names@) == seeders_keys());
            assert(str_views(leechers_names@) == leechers_keys());
            assert(str_views(uploaded_by_names@) == uploaded_by_keys());
            assert(str_views(url_names@) == url_keys());
            assert(str_views(magnet_names@) == magnet_keys());
            Some(
                TorrentSearchResult {
                    name: get_string_field(object, name_names.as_slice()),
                    size: get_string_field(object, size_names.as_slice()),
                    date_uploaded: get_string_field(object, date_uploaded_names.as_slice()),
                    category: get_string_field(object, category_names.as_slice()),
                    seeders: get_string_field(object, seeders_names.as_slice()),
                    leechers: get_string_field(object, leechers_names.as_slice()),
                    uploaded_by: get_string_field(object, uploaded_by_names.as_slice()),
                    url: get_string_field(object, url_names.as_slice()),
                    magnet: get_string_field(object, magnet_names.as_slice()),
                },
            )
        },
        _ => None,
    }
}


/// The results read from a list of JSON values: one per object, in order;
/// values that are not objects are skipped.
pub open spec fn spec_normalize_all(items: Seq<JsonValue>) -> Seq<TorrentSearchResultView>
    decreases items.len(),
{
    if items.len() == 0 {
        Seq::empty()
    } else {
        let rest = spec_normalize_all(items.drop_last());
        match spec_normalize(items.last()) {
            Some(r) => rest.push(r),
            None => rest,
        }
    }
}

/// Reads the results of a list of JSON values, skipping values that are not
/// objects.
pub fn normalize_all(items: &Vec<JsonValue>) -> (res: Vec<TorrentSearchResult>)
    ensures
        result_views(res@) == spec_normalize_all(items@),
{
    let mut out: Vec<TorrentSearchResult> = Vec::new();
    let n = items.len();
    let mut i: usize = 0;
    assert(items@.take(0) =~= Seq::<JsonValue>::empty());
    assert(result_views(out@) =~= Seq::<TorrentSearchResultView>::empty());
    while i < n
        invariant
            n == items@.len(),
            0 <= i <= n,
            result_views(out@) == spec_normalize_all(items@.take(i as int)),
        decreases n - i,
    {
        assert(items@.take(i + 1).drop_last() =~= items@.take(i as int));
        assert(items@.take(i + 1).last() == items@[i as int]);
        let ghost before = out@;
        match normalize_torrent_search_result(&items[i]) {
            Some(r) => {
                out.push(r);
                assert(result_views(out@) =~= result_views(before).push(out@.last()@));
            },
            None => {},
        }
        i = i + 1;
    }
    assert(items@.take(n as int) =~= items@);
    out
}

/// The message of an upstream error object: the `error` member, where it is a
/// string.
pub open spec fn spec_upstream_error(members: Seq<(String, JsonValue)>) -> Option<Seq<char>> {
    match spec_object_get(members, "error"@) {
        Some(JsonValue::String(e)) => Some(e@),
        _ => None,
    }
}

/// The list an object wraps its results in: the first of the members
/// `results`, `data` and `items` that is an array.
pub open spec fn spec_wrapped_items(members: Seq<(String, JsonValue)>) -> Option<Seq<JsonValue>> {
    match spec_object_get(members, "results"@) {
        Some(JsonValue::Array(a)) => Some(a@),
        _ => match spec_object_get(members, "data"@) {
            Some(JsonValue::Array(a)) => Some(a@),
            _ => match spec_object_get(members, "items"@) {
                Some(JsonValue::Array(a)) => Some(a@),
                _ => None,
            },
        },
    }
}

/// What a search answers for an upstream JSON document: an array gives its
/// results; an object with a string `error` is a bad-gateway error carrying
/// that message; any other object gives the results of the array it wraps, or
/// a bad-gateway error where it wraps none; anything else is a bad-gateway
/// error.
pub open spec fn spec_results_from_json(json: JsonValue) -> Result<Seq<TorrentSearchResultView>, ApiErrorView> {
    match json {
        JsonValue::Array(items) => Ok(spec_normalize_all(items@)),
        JsonValue::Object(members) => match spec_upstream_error(members@) {
            Some(e) => Err(api_error(ErrorStatus::BadGateway, "torrent search upstream error: "@ + e)),
            None => match spec_wrapped_items(members@) {
                Some(items) => Ok(spec_normalize_all(items)),
                None => Err(
                    api_error(
                        ErrorStatus::BadGateway,
                        "torrent search upstream returned an unsupported JSON object"@,
                    ),
                ),
            },
        },
        _ => Err(api_error(ErrorStatus::BadGateway, "torrent search upstream returned unsupported JSON"@)),
    }
}

/// The array member `key` of an object, if it is one.
fn array_member<'a>(members: &'a Vec<(String, JsonValue)>, key: &str) -> (res: Option<&'a Vec<JsonValue>>)
    ensures
        match res {
            Some(a) => spec_object_get(members@, key@) == Some(JsonValue::Array(*a)),
            None => !(spec_object_get(members@, key@) matches Some(JsonValue::Array(_))),
        },
{
    match object_get(members, key) {
        Some(JsonValue::Array(items)) => Some(items),
        _ => None,
    }
}

/// Reads the search results out of an upstream JSON document.
pub fn torrent_search_results_from_json(json: JsonValue) -> (res: Result<Vec<TorrentSearchResult>, ApiError>)
    ensures
        search_outcome(res) == spec_results_from_json(json),
{
    match &json {
        JsonValue::Array(items) => Ok(normalize_all(items)),
        JsonValue::Object(members) => {
            if let Some(JsonValue::String(error)) = object_get(members, "error") {
                return Err(
                    ApiError::with_detail(
                        ErrorStatus::BadGateway,
                        "torrent search upstream error: ",
                        error.as_str(),
                    ),
                );
            }
            if let Some(items) = array_member(members, "results") {
                return Ok(normalize_all(items));
            }
            if let Some(items) = array_member(members, "data") {
                return Ok(normalize_all(items));
            }
            if let Some(items) = array_member(members, "items") {
                return Ok(normalize_all(items));
            }
            Err(
                ApiError::new(
                    ErrorStatus::BadGateway,
                    "torrent search upstream returned an unsupported JSON object",
                ),
            )
        },
        _ => Err(ApiError::new(ErrorStatus::BadGateway, "torrent search upstream returned unsupported JSON")),
    }
}

/// What a search answers for an upstream response body: the answer for the
/// JSON document it holds, or an internal error where it holds none.
pub open spec fn spec_parse_body(body: Seq<char>) -> Result<Seq<TorrentSearchResultView>, ApiErrorView> {
    match spec_parse_json(body) {
        Some(json) => spec_results_from_json(json),
        None => Err(api_error(ErrorStatus::InternalServerError, "error parsing torrent search response"@)),
    }
}

/// Parses an upstream response body and reads the search results out of it.
/// A body that is not JSON is an internal error.
pub fn parse_torrent_search_body(body: &str) -> (res: Result<Vec<TorrentSearchResult>, ApiError>)
    ensures
        search_outcome(res) == spec_parse_body(body@),
{
    match parse_json(body) {
        Ok(json) => torrent_search_results_from_json(json),
        Err(_) => Err(ApiError::new(ErrorStatus::InternalServerError, "error parsing torrent search response")),
    }
}


/// The search site a requested website name stands for: each supported site
/// under its own name, and `rarbg` also under `rargb`.
pub open spec fn spec_search_website(website: Seq<char>) -> Option<Seq<char>> {
    if website == "piratebay"@ {
        Some("piratebay"@)
    } else if website == "rargb"@ || website == "rarbg"@ {
        Some("rarbg"@)
    } else if website == "ettv"@ {
        Some("ettv"@)
    } else if website == "zooqle"@ {
        Some("zooqle"@)
    } else if website == "kickass"@ {
        Some("kickass"@)
    } else if website == "torrentproject"@ {
        Some("torrentproject"@)
    } else {
        None
    }
}

/// The error for a website that is not supported.
pub open spec fn unsupported_website_error() -> ApiErrorView {
    api_error(ErrorStatus::BadRequest, "unsupported torrent search website"@)
}

/// Checks a requested website name and gives the site it stands for; an
/// unsupported name is a bad request.
pub fn validate_torrent_search_website(website: &str) -> (res: Result<&'static str, ApiError>)
    ensures
        match res {
            Ok(site) => spec_search_website(website@) == Some(site@),
            Err(e) => spec_search_website(website@) is None && e@ == unsupported_website_error(),
        },
{
    if str_equals(website, "piratebay") {
        Ok("piratebay")
    } else if str_equals(website, "rargb") || str_equals(website, "rarbg") {
        Ok("rarbg")
    } else if str_equals(website, "ettv") {
        Ok("ettv")
    } else if str_equals(website, "zooqle") {
        Ok("zooqle")
    } else if str_equals(website, "kickass") {
        Ok("kickass")
    } else if str_equals(website, "torrentproject") {
        Ok("torrentproject")
    } else {
        Err(ApiError::new(ErrorStatus::BadRequest, "unsupported torrent search website"))
    }
}

/// The decimal digit `d` as a character.
pub open spec fn digit_char(d: nat) -> char {
    if d == 0 {
        '0'
    } else if d == 1 {
        '1'
    } else if d == 2 {
        '2'
    } else if d == 3 {
        '3'
    } else if d == 4 {
        '4'
    } else if d == 5 {
        '5'
    } else if d == 6 {
        '6'
    } else if d == 7 {
        '7'
    } else if d == 8 {
        '8'
    } else {
        '9'
    }
}

/// The decimal representation of `n`, without leading zeros.
pub open spec fn spec_decimal(n: nat) -> Seq<char>
    decreases n,
{
    if n < 10 {
        seq![digit_char(n)]
    } else {
        spec_decimal(n / 10).push(digit_char(n % 10))
    }
}

fn digit_str(d: u32) -> (res: &'static str)
    requires
        d < 10,
    ensures
        res@ == seq![digit_char(d as nat)],
{
    proof {
        reveal_strlit("0");
        reveal_strlit("1");
        reveal_strlit("2");
        reveal_strlit("3");
        reveal_strlit("4");
        reveal_strlit("5");
        reveal_strlit("6");
        reveal_strlit("7");
        reveal_strlit("8");
        reveal_strlit("9");
    }
    if d == 0 {
        "0"
    } else if d == 1 {
        "1"
    } else if d == 2 {
        "2"
    } else if d == 3 {
        "3"
    } else if d == 4 {
        "4"
    } else if d == 5 {
        "5"
    } else if d == 6 {
        "6"
    } else if d == 7 {
        "7"
    } else if d == 8 {
        "8"
    } else {
        "9"
    }
}

/// Writes `n` in decimal.
pub fn decimal_string(n: u32) -> (res: String)
    ensures
        res@ == spec_decimal(n as nat),
    decreases n,
{
    if n < 10 {
        digit_str(n).to_owned()
    } else {
        let mut s = decimal_string(n / 10);
        s.append(digit_str(n % 10));
        s
    }
}


/// The base URL of the torrent search service.
pub const TORRENT_SEARCH_API_BASE: &'static str = "http://127.0.0.1:8080/api";

/// Why a URL could not be built.
#[derive(Debug, Clone, Copy, PartialEq, Eq, Structural)]
pub enum UrlBuildError {
    /// The base is not a URL.
    InvalidBase,
    /// The base URL cannot have path segments.
    CannotBeABase,
}

/// The serialization of the URL that `reqwest::Url::parse(base)` reads, after
/// `path_segments_mut().extend(segments)`, or why that failed.
pub uninterp spec fn spec_url_with_path_segments(base: Seq<char>, segments: Seq<Seq<char>>) -> Result<
    Seq<char>,
    UrlBuildError,
>;

/// The views of a list of strings.
pub open spec fn string_views(v: Seq<String>) -> Seq<Seq<char>> {
    v.map_values(|s: String| s@)
}

/// The total number of characters in a list of texts.
pub open spec fn total_chars(texts: Seq<Seq<char>>) -> int
    decreases texts.len(),
{
    if texts.len() == 0 {
        0
    } else {
        total_chars(texts.drop_last()) + texts.last().len()
    }
}

/// Whether a URL built from `base` and `segments` surely stays within the
/// `u32::MAX` bytes the `url` crate can index (it unwraps a `u32` conversion
/// of the text's length when the path is rewritten): every character takes
/// at most 12 bytes once UTF-8 encoded and percent-encoded, with one more
/// byte per segment for its slash and one for a slash the parser may add.
pub open spec fn url_text_fits(base: Seq<char>, segments: Seq<Seq<char>>) -> bool {
    12 * (base.len() + total_chars(segments) + segments.len() + 1) <= u32::MAX
}

/// Parses `base` with `reqwest::Url::parse` (the `url` crate's parser),
/// appends `segments` with `PathSegmentsMut::extend` (which percent-encodes
/// each segment) and gives the URL as text. Claimed: the outcome is
/// [`spec_url_with_path_segments`] of the arguments; a parse error is
/// `InvalidBase` and a base that cannot have segments is `CannotBeABase`.
/// The encoding itself is not stated.
#[verifier::external_body]
fn url_with_path_segments(base: &str, segments: &Vec<String>) -> (res: Result<String, UrlBuildError>)
    requires
        url_text_fits(base@, string_views(segments@)),
    ensures
        match res {
            Ok(url) => spec_url_with_path_segments(base@, string_views(segments@)) == Ok::<
                Seq<char>,
                UrlBuildError,
            >(url@),
            Err(e) => spec_url_with_path_segments(base@, string_views(segments@)) == Err::<
                Seq<char>,
                UrlBuildError,
            >(e),
        },
{
    let mut url = match reqwest::Url::parse(base) {
        Ok(url) => url,
        Err(_) => return Err(UrlBuildError::InvalidBase),
    };
    match url.path_segments_mut() {
        Ok(mut path) => {
            path.extend(segments.iter());
        },
        Err(()) => return Err(UrlBuildError::CannotBeABase),
    }
    Ok(url.into())
}

/// The path segments of a search: the site, the query, and the page number
/// in decimal where one is asked for.
pub open spec fn spec_search_segments(site: Seq<char>, query: Seq<char>, page: Option<u32>) -> Seq<Seq<char>> {
    match page {
        Some(p) => seq![site, query, spec_decimal(p as nat)],
        None => seq![site, query],
    }
}

/// The URL a search is sent to: the service base with the site, the query and
/// the page as path segments. An unsupported website is a bad request; a URL
/// that cannot be built is an internal error.
pub open spec fn spec_torrent_search_url(website: Seq<char>, query: Seq<char>, page: Option<u32>) -> Result<
    Seq<char>,
    ApiErrorView,
> {
    match spec_search_website(website) {
        None => Err(unsupported_website_error()),
        Some(site) => match spec_url_with_path_segments(
            TORRENT_SEARCH_API_BASE@,
            spec_search_segments(site, query, page),
        ) {
            Ok(url) => Ok(url),
            Err(UrlBuildError::InvalidBase) => Err(
                api_error(ErrorStatus::InternalServerError, "invalid torrent search API base URL"@),
            ),
            Err(UrlBuildError::CannotBeABase) => Err(
                api_error(ErrorStatus::InternalServerError, "could not build torrent search URL"@),
            ),
        },
    }
}

/// The view of a URL or an error.
pub open spec fn url_outcome(res: Result<String, ApiError>) -> Result<Seq<char>, ApiErrorView> {
    match res {
        Ok(u) => Ok(u@),
        Err(e) => Err(e@),
    }
}

/// The longest query (in characters) a search URL is built for; a longer one
/// could overflow the `u32` length of the URL text in the `url` crate.
pub const MAX_SEARCH_QUERY_CHARS: usize = 300_000_000;

/// Ten to the power `k`.
pub open spec fn pow10(k: nat) -> nat
    decreases k,
{
    if k == 0 {
        1
    } else {
        10 * pow10((k - 1) as nat)
    }
}

/// A number below `10^k` (with `k` at least 1) has at most `k` decimal digits.
proof fn lemma_decimal_len(n: nat, k: nat)
    requires
        k >= 1,
        n < pow10(k),
    ensures
        spec_decimal(n).len() <= k,
    decreases n,
{
    if n >= 10 {
        assert(k >= 2) by {
            if k == 1 {
                assert(pow10(1) == 10) by {
                    reveal_with_fuel(pow10, 2);
                }
            }
        }
        assert(n / 10 < pow10((k - 1) as nat)) by {
            assert(pow10(k) == 10 * pow10((k - 1) as nat));
        }
        lemma_decimal_len(n / 10, (k - 1) as nat);
    }
}

/// A `u32` has at most ten decimal digits.
proof fn lemma_u32_decimal_len(n: u32)
    ensures
        spec_decimal(n as nat).len() <= 10,
{
    assert(pow10(10) == 10_000_000_000) by {
        reveal_with_fuel(pow10, 11);
    }
    lemma_decimal_len(n as nat, 10);
}

/// Builds the URL a search for `query` on `website` (and `page`) is sent to.
pub fn torrent_search_url(website: &str, query: &str, page: Option<u32>) -> (res: Result<String, ApiError>)
    requires
        query@.len() <= MAX_SEARCH_QUERY_CHARS,
    ensures
        url_outcome(res) == spec_torrent_search_url(website@, query@, page),
{
    let site = match validate_torrent_search_website(website) {
        Ok(site) => site,
        Err(e) => return Err(e),
    };
    let mut segments: Vec<String> = Vec::new();
    segments.push(site.to_owned());
    segments.push(query.to_owned());
    if let Some(page) = page {
        segments.push(decimal_string(page));
    }
    assert(string_views(segments@) =~= spec_search_segments(site@, query@, page));
    proof {
        reveal_strlit("http://127.0.0.1:8080/api");
        reveal_strlit("piratebay");
        reveal_strlit("rarbg");
        reveal_strlit("ettv");
        reveal_strlit("zooqle");
        reveal_strlit("kickass");
        reveal_strlit("torrentproject");
        assert(site@.len() <= 14);
        let segs = spec_search_segments(site@, query@, page);
        match page {
            Some(p) => {
                lemma_u32_decimal_len(p);
                reveal_with_fuel(total_chars, 4);
                assert(segs.drop_last().drop_last().drop_last() =~= Seq::<Seq<char>>::empty());
                assert(segs.drop_last().drop_last() =~= seq![site@]);
                assert(segs.drop_last() =~= seq![site@, query@]);
            },
            None => {
                reveal_with_fuel(total_chars, 3);
                assert(segs.drop_last().drop_last() =~= Seq::<Seq<char>>::empty());
                assert(segs.drop_last() =~= seq![site@]);
            },
        }
        assert(url_text_fits(TORRENT_SEARCH_API_BASE@, segs));
    }
    match url_with_path_segments(TORRENT_SEARCH_API_BASE, &segments) {
        Ok(url) => Ok(url),
        Err(UrlBuildError::InvalidBase) => Err(
            ApiError::new(ErrorStatus::InternalServerError, "invalid torrent search API base URL"),
        ),
        Err(UrlBuildError::CannotBeABase) => Err(
            ApiError::new(ErrorStatus::InternalServerError, "could not build torrent search URL"),
        ),
    }
}

impl TorrentSearchPathParams {
    /// The URL this search is sent to.
    pub fn search_url(&self) -> (res: Result<String, ApiError>)
        requires
            self.query@.len() <= MAX_SEARCH_QUERY_CHARS,
        ensures
            url_outcome(res) == spec_torrent_search_url(self.website@, self.query@, None),
    {
        torrent_search_url(self.website.as_str(), self.query.as_str(), None)
    }
}

impl TorrentSearchPathParamsWithPage {
    /// The URL this search for one page is sent to.
    pub fn search_url(&self) -> (res: Result<String, ApiError>)
        requires
            self.query@.len() <= MAX_SEARCH_QUERY_CHARS,
        ensures
            url_outcome(res) == spec_torrent_search_url(self.website@, self.query@, Some(self.page)),
    {
        torrent_search_url(self.website.as_str(), self.query.as_str(), Some(self.page))
    }
}


/// The text `http::StatusCode` displays for `code`: the code and its reason
/// phrase.
pub uninterp spec fn spec_status_display(code: u16) -> Seq<char>;

/// Displays a status code with `http::StatusCode::from_u16` and its
/// `Display`. Claimed: the text is [`spec_status_display`] of the code. The
/// reason phrases are not stated.
#[verifier::external_body]
fn status_display(code: u16) -> (res: String)
    requires
        100 <= code <= 999,
    ensures
        res@ == spec_status_display(code),
{
    match http::StatusCode::from_u16(code) {
        Ok(status) => status.to_string(),
        Err(_) => String::new(),
    }
}

/// Whether a status code is a success (`200..=299`), as
/// `http::StatusCode::is_success` has it.
#[verifier::allow_in_spec]
pub fn status_is_success(code: u16) -> bool
    returns
        200 <= code && code < 300,
{
    200 <= code && code < 300
}

/// What a search answers for an upstream response with status `status` and
/// body `body` (`None` where the body could not be read): a status other than
/// success is a bad-gateway error quoting the status and whatever body was
/// read; otherwise an unread body is an internal error and a read body is
/// parsed.
pub open spec fn spec_torrent_search_response(status: u16, body: Option<Seq<char>>) -> Result<
    Seq<TorrentSearchResultView>,
    ApiErrorView,
> {
    if !status_is_success(status) {
        let text = match body {
            Some(b) => b,
            None => Seq::empty(),
        };
        Err(
            api_error(
                ErrorStatus::BadGateway,
                "torrent search upstream returned "@ + spec_status_display(status) + ": "@ + text,
            ),
        )
    } else {
        match body {
            None => Err(api_error(ErrorStatus::InternalServerError, "error reading torrent search response body"@)),
            Some(b) => spec_parse_body(b),
        }
    }
}

/// The optional view of an optional string slice.
pub open spec fn optional_str_view(s: Option<&str>) -> Option<Seq<char>> {
    match s {
        Some(s) => Some(s@),
        None => None,
    }
}

/// Handles the upstream response to a search.
pub fn torrent_search_response(status: u16, body: Option<&str>) -> (res: Result<Vec<TorrentSearchResult>, ApiError>)
    requires
        100 <= status <= 999,
    ensures
        search_outcome(res) == spec_torrent_search_response(status, optional_str_view(body)),
{
    if !status_is_success(status) {
        let mut message = "torrent search upstream returned ".to_owned();
        let shown = status_display(status);
        message.append(shown.as_str());
        message.append(": ");
        if let Some(b) = body {
            message.append(b);
        }
        return Err(ApiError { status: ErrorStatus::BadGateway, message });
    }
    match body {
        None => Err(ApiError::new(ErrorStatus::InternalServerError, "error reading torrent search response body")),
        Some(b) => parse_torrent_search_body(b),
    }
}

/// The error for an upstream that could not be queried, with the reason.
pub fn upstream_query_error(reason: &str) -> (res: ApiError)
    ensures
        res@ == api_error(ErrorStatus::BadGateway, "error querying torrent search upstream: "@ + reason@),
{
    ApiError::with_detail(ErrorStatus::BadGateway, "error querying torrent search upstream: ", reason)
}

/// The error for an HTTP client that could not be built.
pub fn client_build_error() -> (res: ApiError)
    ensures
        res@ == api_error(ErrorStatus::InternalServerError, "error building torrent search client"@),
{
    ApiError::new(ErrorStatus::InternalServerError, "error building torrent search client")
}


/// The site a website name stands for is itself a supported name, standing
/// for itself.
pub proof fn lemma_search_website_is_canonical(website: Seq<char>)
    ensures
        spec_search_website(website) matches Some(site) ==> spec_search_website(site) == Some(site),
{
    reveal_strlit("piratebay");
    reveal_strlit("rargb");
    reveal_strlit("rarbg");
    reveal_strlit("ettv");
    reveal_strlit("zooqle");
    reveal_strlit("kickass");
    reveal_strlit("torrentproject");
}

/// An object that carries a result's fields under the names the result is
/// written with (`Name`, `Size`, `DateUploaded`, `Category`, `Seeders`,
/// `Leechers`, `UploadedBy`, `Url`, `Magnet`) reads back as exactly that
/// result, whatever else it holds.
pub proof fn lemma_normalize_reads_back_written_fields(members: Vec<(String, JsonValue)>, r: TorrentSearchResult)
    requires
        spec_object_get(members@, "Name"@) == Some(JsonValue::String(r.name)),
        spec_object_get(members@, "Size"@) == Some(JsonValue::String(r.size)),
        spec_object_get(members@, "DateUploaded"@) == Some(JsonValue::String(r.date_uploaded)),
        spec_object_get(members@, "Category"@) == Some(JsonValue::String(r.category)),
        spec_object_get(members@, "Seeders"@) == Some(JsonValue::String(r.seeders)),
        spec_object_get(members@, "Leechers"@) == Some(JsonValue::String(r.leechers)),
        spec_object_get(members@, "UploadedBy"@) == Some(JsonValue::String(r.uploaded_by)),
        spec_object_get(members@, "Url"@) == Some(JsonValue::String(r.url)),
        spec_object_get(members@, "Magnet"@) == Some(JsonValue::String(r.magnet)),
    ensures
        spec_normalize(JsonValue::Object(members)) == Some(r@),
{
}

/// Every object in a list gives one result and nothing else does: there are
/// never more results than values, and exactly as many when all are objects.
pub proof fn lemma_normalize_all_len(items: Seq<JsonValue>)
    ensures
        spec_normalize_all(items).len() <= items.len(),
        (forall|i: int| 0 <= i < items.len() ==> #[trigger] items[i] is Object) ==> spec_normalize_all(
            items,
        ).len() == items.len(),
    decreases items.len(),
{
    if items.len() > 0 {
        lemma_normalize_all_len(items.drop_last());
        if forall|i: int| 0 <= i < items.len() ==> #[trigger] items[i] is Object {
            assert(items.last() is Object);
            assert forall|i: int| 0 <= i < items.drop_last().len() implies #[trigger] items.drop_last()[i] is Object by {
                assert(items.drop_last()[i] == items[i]);
            }
        }
    }
}

/// An object that wraps a list of results (under `results`, `data` or
/// `items`) and reports no error answers the same as the bare list.
pub proof fn lemma_wrapped_list_answers_as_bare_list(members: Vec<(String, JsonValue)>, items: Vec<JsonValue>)
    requires
        spec_upstream_error(members@) is None,
        spec_wrapped_items(members@) == Some(items@),
    ensures
        spec_results_from_json(JsonValue::Object(members)) == spec_results_from_json(JsonValue::Array(items)),
{
}

/// An upstream error message wins over any results the object also carries.
pub proof fn lemma_upstream_error_wins(members: Vec<(String, JsonValue)>, message: String)
    requires
        spec_object_get(members@, "error"@) == Some(JsonValue::String(message)),
    ensures
        spec_results_from_json(JsonValue::Object(members)) == Err::<Seq<TorrentSearchResultView>, ApiErrorView>(
            api_error(ErrorStatus::BadGateway, "torrent search upstream error: "@ + message@),
        ),
{
}

/// An upstream answer with a status other than success never gives results,
/// whatever its body: it is a bad-gateway error.
pub proof fn lemma_failed_status_is_bad_gateway(status: u16, body: Option<Seq<char>>)
    requires
        !status_is_success(status),
    ensures
        spec_torrent_search_response(status, body) matches Err(e) && e.status == ErrorStatus::BadGateway,
{
}

/// An unsupported website is refused before any URL is built, whatever the
/// query and page.
pub proof fn lemma_unsupported_website_refused(website: Seq<char>, query: Seq<char>, page: Option<u32>)
    requires
        spec_search_website(website) is None,
    ensures
        spec_torrent_search_url(website, query, page) == Err::<Seq<char>, ApiErrorView>(
            unsupported_website_error(),
        ),
{
}


proof fn lemma_first_present_two(m: Seq<(String, JsonValue)>, a: Seq<char>, b: Seq<char>)
    ensures
        spec_first_present(m, seq![a, b]) == match spec_object_get(m, a) {
            Some(v) => Some(v),
            None => spec_object_get(m, b),
        },
{
    reveal_with_fuel(spec_first_present, 3);
    assert(seq![a, b].drop_first() =~= seq![b]);
    assert(seq![b].drop_first() =~= Seq::<Seq<char>>::empty());
}

proof fn lemma_first_present_three(m: Seq<(String, JsonValue)>, a: Seq<char>, b: Seq<char>, c: Seq<char>)
    ensures
        spec_first_present(m, seq![a, b, c]) == match spec_object_get(m, a) {
            Some(v) => Some(v),
            None => match spec_object_get(m, b) {
                Some(v) => Some(v),
                None => spec_object_get(m, c),
            },
        },
{
    reveal_with_fuel(spec_first_present, 4);
    assert(seq![a, b, c].drop_first() =~= seq![b, c]);
    assert(seq![b, c].drop_first() =~= seq![c]);
    assert(seq![c].drop_first() =~= Seq::<Seq<char>>::empty());
}

/// The `name` of a result is the string under the first of `Name`, `name`, `title` that the
/// object has, and empty where it has none of them.
pub proof fn lemma_name_field_names(members: Vec<(String, JsonValue)>, text: String)
    ensures
        (spec_object_get(members@, "Name"@) == Some(JsonValue::String(text))) ==> (spec_normalize(JsonValue::Object(members)) matches Some(r) && r.name == text@),
        (spec_object_get(members@, "Name"@) is None && spec_object_get(members@, "name"@) == Some(JsonValue::String(text))) ==> (spec_normalize(JsonValue::Object(members)) matches Some(r) && r.name == text@),
        (spec_object_get(members@, "Name"@) is None && spec_object_get(members@, "name"@) is None && spec_object_get(members@, "title"@) == Some(JsonValue::String(text))) ==> (spec_normalize(JsonValue::Object(members)) matches Some(r) && r.name == text@),
        (spec_object_get(members@, "Name"@) is None && spec_object_get(members@, "name"@) is None && spec_object_get(members@, "title"@) is None) ==> (spec_normalize(JsonValue::Object(members)) matches Some(r) && r.name == Seq::<char>::empty()),
{
    lemma_first_present_three(members@, "Name"@, "name"@, "title"@);
}

/// The `size` of a result is the string under the first of `Size`, `size` that the
/// object has, and empty where it has none of them.
pub proof fn lemma_size_field_names(members: Vec<(String, JsonValue)>, text: String)
    ensures
        (spec_object_get(members@, "Size"@) == Some(JsonValue::String(text))) ==> (spec_normalize(JsonValue::Object(members)) matches Some(r) && r.size == text@),
        (spec_object_get(members@, "Size"@) is None && spec_object_get(members@, "size"@) == Some(JsonValue::String(text))) ==> (spec_normalize(JsonValue::Object(members)) matches Some(r) && r.size == text@),
        (spec_object_get(members@, "Size"@) is None && spec_object_get(members@, "size"@) is None) ==> (spec_normalize(JsonValue::Object(members)) matches Some(r) && r.size == Seq::<char>::empty()),
{
    lemma_first_present_two(members@, "Size"@, "size"@);
}

/// The `date_uploaded` of a result is the string under the first of `DateUploaded`, `Age`, `date_uploaded` that the
/// object has, and empty where it has none of them.
pub proof fn lemma_date_uploaded_field_names(members: Vec<(String, JsonValue)>, text: String)
    ensures
        (spec_object_get(members@, "DateUploaded"@) == Some(JsonValue::String(text))) ==> (spec_normalize(JsonValue::Object(members)) matches Some(r) && r.date_uploaded == text@),
        (spec_object_get(members@, "DateUploaded"@) is None && spec_object_get(members@, "Age"@) == Some(JsonValue::String(text))) ==> (spec_normalize(JsonValue::Object(members)) matches Some(r) && r.date_uploaded == text@),
        (spec_object_get(members@, "DateUploaded"@) is None && spec_object_get(members@, "Age"@) is None && spec_object_get(members@, "date_uploaded"@) == Some(JsonValue::String(text))) ==> (spec_normalize(JsonValue::Object(members)) matches Some(r) && r.date_uploaded == text@),
        (spec_object_get(members@, "DateUploaded"@) is None && spec_object_get(members@, "Age"@) is None && spec_object_get(members@, "date_uploaded"@) is None) ==> (spec_normalize(JsonValue::Object(members)) matches Some(r) && r.date_uploaded == Seq::<char>::empty()),
{
    lemma_first_present_three(members@, "DateUploaded"@, "Age"@, "date_uploaded"@);
}

/// The `category` of a result is the string under the first of `Category`, `category` that the
/// object has, and empty where it has none of them.
pub proof fn lemma_category_field_names(members: Vec<(String, JsonValue)>, text: String)
    ensures
        (spec_object_get(members@, "Category"@) == Some(JsonValue::String(text))) ==> (spec_normalize(JsonValue::Object(members)) matches Some(r) && r.category == text@),
        (spec_object_get(members@, "Category"@) is None && spec_object_get(members@, "category"@) == Some(JsonValue::String(text))) ==> (spec_normalize(JsonValue::Object(members)) matches Some(r) && r.category == text@),
        (spec_object_get(members@, "Category"@) is None && spec_object_get(members@, "category"@) is None) ==> (spec_normalize(JsonValue::Object(members)) matches Some(r) && r.category == Seq::<char>::empty()),
{
    lemma_first_present_two(members@, "Category"@, "category"@);
}

/// The `seeders` of a result is the string under the first of `Seeders`, `seeders` that the
/// object has, and empty where it has none of them.
pub proof fn lemma_seeders_field_names(members: Vec<(String, JsonValue)>, text: String)
    ensures
        (spec_object_get(members@, "Seeders"@) == Some(JsonValue::String(text))) ==> (spec_normalize(JsonValue::Object(members)) matches Some(r) && r.seeders == text@),
        (spec_object_get(members@, "Seeders"@) is None && spec_object_get(members@, "seeders"@) == Some(JsonValue::String(text))) ==> (spec_normalize(JsonValue::Object(members)) matches Some(r) && r.seeders == text@),
        (spec_object_get(members@, "Seeders"@) is None && spec_object_get(members@, "seeders"@) is None) ==> (spec_normalize(JsonValue::Object(members)) matches Some(r) && r.seeders == Seq::<char>::empty()),
{
    lemma_first_present_two(members@, "Seeders"@, "seeders"@);
}

/// The `leechers` of a result is the string under the first of `Leechers`, `leechers` that the
/// object has, and empty where it has none of them.
pub proof fn lemma_leechers_field_names(members: Vec<(String, JsonValue)>, text: String)
    ensures
        (spec_object_get(members@, "Leechers"@) == Some(JsonValue::String(text))) ==> (spec_normalize(JsonValue::Object(members)) matches Some(r) && r.leechers == text@),
        (spec_object_get(members@, "Leechers"@) is None && spec_object_get(members@, "leechers"@) == Some(JsonValue::String(text))) ==> (spec_normalize(JsonValue::Object(members)) matches Some(r) && r.leechers == text@),
        (spec_object_get(members@, "Leechers"@) is None && spec_object_get(members@, "leechers"@) is None) ==> (spec_normalize(JsonValue::Object(members)) matches Some(r) && r.leechers == Seq::<char>::empty()),
{
    lemma_first_present_two(members@, "Leechers"@, "leechers"@);
}

/// The `uploaded_by` of a result is the string under the first of `UploadedBy`, `uploaded_by`, `uploader` that the
/// object has, and empty where it has none of them.
pub proof fn lemma_uploaded_by_field_names(members: Vec<(String, JsonValue)>, text: String)
    ensures
        (spec_object_get(members@, "UploadedBy"@) == Some(JsonValue::String(text))) ==> (spec_normalize(JsonValue::Object(members)) matches Some(r) && r.uploaded_by == text@),
        (spec_object_get(members@, "UploadedBy"@) is None && spec_object_get(members@, "uploaded_by"@) == Some(JsonValue::String(text))) ==> (spec_normalize(JsonValue::Object(members)) matches Some(r) && r.uploaded_by == text@),
        (spec_object_get(members@, "UploadedBy"@) is None && spec_object_get(members@, "uploaded_by"@) is None && spec_object_get(members@, "uploader"@) == Some(JsonValue::String(text))) ==> (spec_normalize(JsonValue::Object(members)) matches Some(r) && r.uploaded_by == text@),
        (spec_object_get(members@, "UploadedBy"@) is None && spec_object_get(members@, "uploaded_by"@) is None && spec_object_get(members@, "uploader"@) is None) ==> (spec_normalize(JsonValue::Object(members)) matches Some(r) && r.uploaded_by == Seq::<char>::empty()),
{
    lemma_first_present_three(members@, "UploadedBy"@, "uploaded_by"@, "uploader"@);
}

/// The `url` of a result is the string under the first of `Url`, `url` that the
/// object has, and empty where it has none of them.
pub proof fn lemma_url_field_names(members: Vec<(String, JsonValue)>, text: String)
    ensures
        (spec_object_get(members@, "Url"@) == Some(JsonValue::String(text))) ==> (spec_normalize(JsonValue::Object(members)) matches Some(r) && r.url == text@),
        (spec_object_get(members@, "Url"@) is None && spec_object_get(members@, "url"@) == Some(JsonValue::String(text))) ==> (spec_normalize(JsonValue::Object(members)) matches Some(r) && r.url == text@),
        (spec_object_get(members@, "Url"@) is None && spec_object_get(members@, "url"@) is None) ==> (spec_normalize(JsonValue::Object(members)) matches Some(r) && r.url == Seq::<char>::empty()),
{
    lemma_first_present_two(members@, "Url"@, "url"@);
}

/// The `magnet` of a result is the string under the first of `Magnet`, `magnet` that the
/// object has, and empty where it has none of them.
pub proof fn lemma_magnet_field_names(members: Vec<(String, JsonValue)>, text: String)
    ensures
        (spec_object_get(members@, "Magnet"@) == Some(JsonValue::String(text))) ==> (spec_normalize(JsonValue::Object(members)) matches Some(r) && r.magnet == text@),
        (spec_object_get(members@, "Magnet"@) is None && spec_object_get(members@, "magnet"@) == Some(JsonValue::String(text))) ==> (spec_normalize(JsonValue::Object(members)) matches Some(r) && r.magnet == text@),
        (spec_object_get(members@, "Magnet"@) is None && spec_object_get(members@, "magnet"@) is None) ==> (spec_normalize(JsonValue::Object(members)) matches Some(r) && r.magnet == Seq::<char>::empty()),
{
    lemma_first_present_two(members@, "Magnet"@, "magnet"@);
}

/// A value that is not an object gives no result.
pub proof fn lemma_non_object_gives_no_result(value: JsonValue)
    requires
        !(value is Object),
    ensures
        spec_normalize(value) is None,
{
}

/// The results of a list of objects are the results of the objects, one each,
/// in order.
pub proof fn lemma_normalize_all_of_objects(items: Seq<JsonValue>)
    requires
        forall|i: int| 0 <= i < items.len() ==> #[trigger] items[i] is Object,
    ensures
        spec_normalize_all(items).len() == items.len(),
        forall|i: int| 0 <= i < items.len() ==> Some(#[trigger] spec_normalize_all(items)[i]) == spec_normalize(items[i]),
    decreases items.len(),
{
    if items.len() > 0 {
        let init = items.drop_last();
        assert forall|i: int| 0 <= i < init.len() implies #[trigger] init[i] is Object by {
            assert(init[i] == items[i]);
        }
        lemma_normalize_all_of_objects(init);
        assert(items.last() is Object);
        assert forall|i: int| 0 <= i < items.len() implies Some(#[trigger] spec_normalize_all(items)[i]) == spec_normalize(items[i]) by {
            if i < init.len() {
                assert(init[i] == items[i]);
            }
        }
    }
}

/// An object whose `error` member is absent or not a string is no upstream
/// error: it answers as the array under `results`, else under `data`, else
/// under `items`, and where none of them is an array it is a bad-gateway
/// error.
pub proof fn lemma_object_without_string_error(members: Vec<(String, JsonValue)>, items: Vec<JsonValue>)
    requires
        !(spec_object_get(members@, "error"@) matches Some(JsonValue::String(_))),
    ensures
        spec_object_get(members@, "results"@) == Some(JsonValue::Array(items)) ==> spec_results_from_json(
            JsonValue::Object(members),
        ) == spec_results_from_json(JsonValue::Array(items)),
        (!(spec_object_get(members@, "results"@) matches Some(JsonValue::Array(_))) && spec_object_get(
            members@,
            "data"@,
        ) == Some(JsonValue::Array(items))) ==> spec_results_from_json(JsonValue::Object(members))
            == spec_results_from_json(JsonValue::Array(items)),
        (!(spec_object_get(members@, "results"@) matches Some(JsonValue::Array(_))) && !(spec_object_get(
            members@,
            "data"@,
        ) matches Some(JsonValue::Array(_))) && spec_object_get(members@, "items"@) == Some(
            JsonValue::Array(items),
        )) ==> spec_results_from_json(JsonValue::Object(members)) == spec_results_from_json(
            JsonValue::Array(items),
        ),
        (!(spec_object_get(members@, "results"@) matches Some(JsonValue::Array(_))) && !(spec_object_get(
            members@,
            "data"@,
        ) matches Some(JsonValue::Array(_))) && !(spec_object_get(members@, "items"@) matches Some(
            JsonValue::Array(_),
        ))) ==> (spec_results_from_json(JsonValue::Object(members)) matches Err(e) && e.status
            == ErrorStatus::BadGateway),
        spec_results_from_json(JsonValue::Array(items)) is Ok,
{
}


/// A website name stands for itself or for nothing, with the one alias
/// `rargb` standing for `rarbg`; and it is refused exactly when it is none of
/// the six supported sites.
pub proof fn lemma_search_website_is_identity_but_alias(website: Seq<char>)
    ensures
        spec_search_website(website) matches Some(site) ==> (site == website || (website == "rargb"@ && site
            == "rarbg"@)),
        spec_search_website(website) is None <==> !(website == "piratebay"@ || website == "rargb"@
            || website == "rarbg"@ || website == "ettv"@ || website == "zooqle"@ || website == "kickass"@
            || website == "torrentproject"@),
{
}

/// The value a text is read from: its digits, most significant first.
pub open spec fn decimal_value(digits: Seq<char>) -> int
    decreases digits.len(),
{
    if digits.len() == 0 {
        0
    } else {
        10 * decimal_value(digits.drop_last()) + (digits.last() as int - '0' as int)
    }
}

proof fn lemma_digit_char_value(d: nat)
    requires
        d < 10,
    ensures
        digit_char(d) as int - '0' as int == d,
        '0' <= digit_char(d) <= '9',
{
}

/// The decimal text of a number is non-empty, made of digits, without a
/// leading zero (unless it is `0`), and reads back as the number.
pub proof fn lemma_decimal_reads_back(n: nat)
    ensures
        spec_decimal(n).len() >= 1,
        forall|i: int| 0 <= i < spec_decimal(n).len() ==> '0' <= #[trigger] spec_decimal(n)[i] <= '9',
        n > 0 ==> spec_decimal(n)[0] != '0',
        decimal_value(spec_decimal(n)) == n,
    decreases n,
{
    lemma_digit_char_value(n % 10);
    if n < 10 {
        assert(spec_decimal(n).drop_last() =~= Seq::<char>::empty());
        assert(n % 10 == n);
        assert(decimal_value(Seq::<char>::empty()) == 0);
        assert(spec_decimal(n).last() == digit_char(n));
        assert(decimal_value(spec_decimal(n)) == 10 * decimal_value(spec_decimal(n).drop_last())
            + (spec_decimal(n).last() as int - '0' as int));
    } else {
        lemma_decimal_reads_back(n / 10);
        let d = spec_decimal(n);
        assert(d.drop_last() =~= spec_decimal(n / 10));
        assert(d.last() == digit_char(n % 10));
        assert(n == 10 * (n / 10) + n % 10);
        assert(decimal_value(d) == 10 * decimal_value(d.drop_last()) + (d.last() as int - '0' as int));
        assert forall|i: int| 0 <= i < d.len() implies '0' <= #[trigger] d[i] <= '9' by {
            if i < d.len() - 1 {
                assert(d[i] == spec_decimal(n / 10)[i]);
            }
        }
    }
}

/// Success is exactly the statuses from 200 up to but not including 300; a
/// successful status with a body answers as that body parses.
pub proof fn lemma_success_status_parses_body(status: u16, body: Seq<char>)
    ensures
        status_is_success(status) <==> (200 <= status && status < 300),
        status_is_success(status) ==> spec_torrent_search_response(status, Some(body)) == spec_parse_body(body),
        status_is_success(status) ==> spec_torrent_search_response(status, None) == Err::<
            Seq<TorrentSearchResultView>,
            ApiErrorView,
        >(api_error(ErrorStatus::InternalServerError, "error reading torrent search response body"@)),
{
}

/// A search URL has the site first, then the query, then the page number
/// where one is asked for, and nothing else.
pub proof fn lemma_search_segments_order(site: Seq<char>, query: Seq<char>, page: Option<u32>)
    ensures
        spec_search_segments(site, query, page)[0] == site,
        spec_search_segments(site, query, page)[1] == query,
        page is None ==> spec_search_segments(site, query, page).len() == 2,
        page matches Some(p) ==> (spec_search_segments(site, query, page).len() == 3 && decimal_value(
            spec_search_segments(site, query, page)[2],
        ) == p),
{
    if let Some(p) = page {
        lemma_decimal_reads_back(p as nat);
    }
}

} // verus!
