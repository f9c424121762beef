//! Per-portal discovery logic: the pure part of every protocol adapter.
//!
//! Each portal publishes its files behind a different dance — a login with a
//! CSRF token, a paged HTML table, a JSON listing, a dated sub-directory.
//! The HTTP requests themselves are issued by the caller; this module builds
//! the requests, reads the fetched text, and turns discovered links into
//! download descriptors. HTML and JSON are read through trusted wrappers
//! over the `scraper` and `serde_json` crates; everything around those calls
//! is verified.

use vstd::prelude::*;

use scraper::ElementRef;
use scraper::Html;
use scraper::Selector;

use crate::download::dest_path;
use crate::download::Download;
use crate::download::DownloadV;
use crate::download::dl_views;
use crate::file_info::fi_views;
use crate::file_info::FileInfo;
use crate::file_info::FileInfoV;
use crate::file_info::parsed_interesting;
use crate::file_info::recents_selection;
use crate::file_info::spec_parse;
use crate::file_info::FileType;
use crate::strutil::all_digits;
use crate::strutil::dec_digits;
use crate::strutil::digits_val;
use crate::strutil::find_first;
use crate::strutil::find_last;
use crate::strutil::first_index_of;
use crate::strutil::last_index_of;
use crate::strutil::lemma_first_index_of;
use crate::strutil::lemma_last_index_of;
use crate::strutil::parse_u64_digits;
use crate::strutil::str_views;
use crate::strutil::u64_to_string;

verus! {

/// A structural failure during one source's discovery: an expected element,
/// field or number was not where the portal used to put it. Fatal to that
/// source's run only; sibling sources proceed.
#[derive(PartialEq, Eq, Structural, Copy, Clone, Debug)]
pub enum AdapterError {
    /// The fetched text did not have the expected shape.
    StructureMismatch,
    /// A request could not be completed; set by the driver, never by the
    /// parsing layer.
    RequestFailed,
}

// ---------------------------------------------------------------------------
// View helpers.
// ---------------------------------------------------------------------------

pub open spec fn opt_str_view(r: Option<String>) -> Option<Seq<char>> {
    match r {
        Some(s) => Some(s@),
        None => None,
    }
}

pub open spec fn opt_strs_view(r: Option<Vec<String>>) -> Option<Seq<Seq<char>>> {
    match r {
        Some(v) => Some(str_views(v@)),
        None => None,
    }
}

pub open spec fn pair_views(v: Seq<(String, String)>) -> Seq<(Seq<char>, Seq<char>)> {
    v.map_values(|p: (String, String)| (p.0@, p.1@))
}

pub open spec fn opt_pairs_view(r: Option<Vec<(String, String)>>) -> Option<
    Seq<(Seq<char>, Seq<char>)>,
> {
    match r {
        Some(v) => Some(pair_views(v@)),
        None => None,
    }
}

// ---------------------------------------------------------------------------
// Trusted readers over serde_json. Each result is a function of the fetched
// text alone, named by an uninterpreted spec function.
// ---------------------------------------------------------------------------

/// The JSON renderings of `elem[field]` for each `elem` of the array at
/// `text[key]`, or nothing when `text` does not parse or holds no array
/// there.
pub uninterp spec fn json_array_field_texts(
    text: Seq<char>,
    key: Seq<char>,
    field: Seq<char>,
) -> Option<Seq<Seq<char>>>;

/// Relies on serde_json::from_str, Value::index, Value::as_array and
/// Value::to_string: reads `text[key]` as an array and renders each
/// element's `field` as JSON text.
#[verifier::external_body]
fn json_field_strings(text: &str, key: &str, field: &str) -> (r: Option<Vec<String>>)
    ensures
        opt_strs_view(r) == json_array_field_texts(text@, key@, field@),
{
    let root = serde_json::from_str::<serde_json::Value>(text).ok()?;
    let arr = root[key].as_array()?;
    Some(arr.iter().map(|elem| elem[field].to_string()).collect())
}

/// The string at `elem[field]` for each `elem` of the root array of `text`,
/// or nothing when the text, the array, an element or a field is not there.
pub uninterp spec fn json_root_field_texts(text: Seq<char>, field: Seq<char>) -> Option<
    Seq<Seq<char>>,
>;

/// Relies on serde_json::from_str, Value::as_array, Value::as_object and
/// Value::as_str: reads the root of `text` as an array of objects and takes
/// each object's `field` string.
#[verifier::external_body]
fn json_root_strings(text: &str, field: &str) -> (r: Option<Vec<String>>)
    ensures
        opt_strs_view(r) == json_root_field_texts(text@, field@),
{
    let root = serde_json::from_str::<serde_json::Value>(text).ok()?;
    let arr = root.as_array()?;
    let mut out: Vec<String> = Vec::new();
    for elem in arr {
        out.push(elem.as_object()?.get(field)?.as_str()?.to_string());
    }
    Some(out)
}

/// The string at `field` of the root object of `text`, or nothing.
pub uninterp spec fn json_object_text_field(text: Seq<char>, field: Seq<char>) -> Option<
    Seq<char>,
>;

/// Relies on serde_json::from_str, Value::as_object and Value::as_str: reads
/// one string field of the root object.
#[verifier::external_body]
fn json_object_str_field(text: &str, field: &str) -> (r: Option<String>)
    ensures
        opt_str_view(r) == json_object_text_field(text@, field@),
{
    let root = serde_json::from_str::<serde_json::Value>(text).ok()?;
    Some(root.as_object()?.get(field)?.as_str()?.to_string())
}

// ---------------------------------------------------------------------------
// Trusted readers over scraper. Parsing a fixed text is deterministic, so
// each result is a function of the page and the selector alone.
// ---------------------------------------------------------------------------

/// The `content` attribute of the page's `meta[name="csrftoken"]` tag.
pub uninterp spec fn csrf_meta_content(html: Seq<char>) -> Option<Seq<char>>;

/// Relies on scraper's Html::parse_document, Selector::parse, Html::select
/// and Element::attr: the CSRF token sits in a meta tag on the login page.
#[verifier::external_body]
fn extract_csrf_content(html: &str) -> (r: Option<String>)
    ensures
        opt_str_view(r) == csrf_meta_content(html@),
{
    let selector = Selector::parse("meta[name=\"csrftoken\"]").ok()?;
    let document = Html::parse_document(html);
    let input = document.select(&selector).next()?;
    input.value().attr("content").map(str::to_string)
}

/// The values of `attr` on every element matching `selector`, in document
/// order; nothing when the selector is bad or an element lacks the
/// attribute.
pub uninterp spec fn scraped_attr_values(
    html: Seq<char>,
    selector: Seq<char>,
    attr: Seq<char>,
) -> Option<Seq<Seq<char>>>;

/// Relies on scraper's Html::parse_document, Selector::parse, Html::select
/// and Element::attr: collects one attribute across all matching elements.
#[verifier::external_body]
fn scrape_attrs(html: &str, selector: &str, attr: &str) -> (r: Option<Vec<String>>)
    ensures
        opt_strs_view(r) == scraped_attr_values(html@, selector@, attr@),
{
    let sel = Selector::parse(selector).ok()?;
    let document = Html::parse_document(html);
    let mut out: Vec<String> = Vec::new();
    for el in document.select(&sel) {
        out.push(el.value().attr(attr)?.to_string());
    }
    Some(out)
}

/// The value of `attr` on the first element matching `selector` whose first
/// text node is exactly `marker` — how the portals' pagination footers name
/// their last page.
pub uninterp spec fn marker_link_attr(
    html: Seq<char>,
    selector: Seq<char>,
    marker: Seq<char>,
    attr: Seq<char>,
) -> Option<Seq<char>>;

/// Relies on scraper's Html::parse_document, Selector::parse, Html::select,
/// ElementRef::text and Element::attr: finds the pagination link labelled
/// with the marker.
#[verifier::external_body]
fn scrape_marker_attr(html: &str, selector: &str, marker: &str, attr: &str) -> (r: Option<String>)
    ensures
        opt_str_view(r) == marker_link_attr(html@, selector@, marker@, attr@),
{
    let sel = Selector::parse(selector).ok()?;
    let document = Html::parse_document(html);
    let el = document.select(&sel).find(|e| e.text().next() == Some(marker))?;
    el.value().attr(attr).map(str::to_string)
}

/// For each data row of the page's file table: the text of the name cell and
/// the link of the action cell.
pub uninterp spec fn superpharm_table_rows(html: Seq<char>) -> Option<Seq<(Seq<char>, Seq<char>)>>;

/// Relies on scraper's Html::parse_document, Selector::parse, Html::select,
/// ElementRef::wrap, ElementRef::text and Element::attr: walks the
/// `.file_list` table, skipping its header row.
#[verifier::external_body]
fn scrape_superpharm_rows(html: &str) -> (r: Option<Vec<(String, String)>>)
    ensures
        opt_pairs_view(r) == superpharm_table_rows(html@),
{
    let sel = Selector::parse(".file_list tr").ok()?;
    let document = Html::parse_document(html);
    let mut out: Vec<(String, String)> = Vec::new();
    for row in document.select(&sel).skip(1) {
        let mut it = row.children();
        let name: String = ElementRef::wrap(it.nth(1)?)?.text().collect();
        let cell = ElementRef::wrap(it.nth(3)?)?;
        let link = ElementRef::wrap(cell.children().nth(0)?)?.value().attr("href")?;
        out.push((name, link.to_string()));
    }
    Some(out)
}

/// For each data row of the shared catalog table: the text of the chain-name
/// cell and the link of the row's last cell.
pub uninterp spec fn matrix_table_rows(html: Seq<char>) -> Option<Seq<(Seq<char>, Seq<char>)>>;

/// Relies on scraper's Html::parse_document, Selector::parse, Html::select,
/// ElementRef::wrap, ElementRef::text and Element::attr: walks the
/// `#download_content` table, skipping its header row. The chain-name column
/// tells legally distinct chains on one portal apart.
#[verifier::external_body]
fn scrape_matrix_rows(html: &str) -> (r: Option<Vec<(String, String)>>)
    ensures
        opt_pairs_view(r) == matrix_table_rows(html@),
{
    let sel = Selector::parse("#download_content tr").ok()?;
    let document = Html::parse_document(html);
    let mut out: Vec<(String, String)> = Vec::new();
    for row in document.select(&sel).skip(1) {
        let mut cells = row.children().filter(|c| c.value().is_element());
        let chain: String = ElementRef::wrap(cells.nth(1)?)?.text().collect();
        let a = cells.last()?.children().find(
            |c| c.value().is_element() && c.value().as_element().unwrap().name() == "a",
        )?;
        out.push((chain, ElementRef::wrap(a)?.value().attr("href")?.to_string()));
    }
    Some(out)
}

// ---------------------------------------------------------------------------
// Verified helpers shared by the adapters.
// ---------------------------------------------------------------------------

/// `s` with every double-quote character removed.
pub open spec fn strip_quotes(s: Seq<char>) -> Seq<char> {
    s.filter(|c: char| c != '"')
}

pub fn remove_quotes(s: &str) -> (r: String)
    ensures
        r@ == strip_quotes(s@),
{
    let n = s.unicode_len();
    let mut out: Vec<char> = Vec::new();
    let mut i: usize = 0;
    proof {
        reveal(Seq::filter);
        assert(s@.take(0int) =~= Seq::<char>::empty());
    }
    while i < n
        invariant
            0 <= i <= n,
            n == s@.len(),
            out@ == strip_quotes(s@.take(i as int)),
        decreases n - i,
    {
        let c = s.get_char(i);
        proof {
            reveal(Seq::filter);
            assert(s@.take(i + 1).drop_last() =~= s@.take(i as int));
            assert(s@.take(i + 1).last() == c);
        }
        if c != '"' {
            out.push(c);
        }
        i = i + 1;
    }
    proof {
        assert(s@.take(n as int) =~= s@);
    }
    crate::strutil::chars_to_string(&out)
}

/// What precedes the first `;` of a Set-Cookie value: the bare cookie pair,
/// without its attributes.
pub open spec fn spec_cookie_prefix(c: Seq<char>) -> Seq<char> {
    if first_index_of(c, ';') == -1 {
        c
    } else {
        c.take(first_index_of(c, ';'))
    }
}

pub fn cookie_prefix(c: &str) -> (r: String)
    ensures
        r@ == spec_cookie_prefix(c@),
{
    match find_first(c, ';') {
        None => c.to_owned(),
        Some(i) => {
            proof {
                lemma_first_index_of(c@, ';');
            }
            let r = c.substring_char(0, i).to_owned();
            proof {
                assert(r@ =~= c@.take(first_index_of(c@, ';')));
            }
            r
        },
    }
}

/// The one header every form post carries.
pub fn form_headers() -> (r: Vec<(String, String)>)
    ensures
        pair_views(r@) =~= seq![("Content-Type"@, "application/x-www-form-urlencoded"@)],
{
    let mut v: Vec<(String, String)> = Vec::new();
    v.push(("Content-Type".to_owned(), "application/x-www-form-urlencoded".to_owned()));
    v
}

/// `first` distinct entries kept, later repetitions dropped.
pub open spec fn spec_dedup<A>(s: Seq<A>) -> Seq<A>
    decreases s.len(),
{
    if s.len() == 0 {
        s
    } else if spec_dedup(s.drop_last()).contains(s.last()) {
        spec_dedup(s.drop_last())
    } else {
        spec_dedup(s.drop_last()).push(s.last())
    }
}

/// Concurrent pages legitimately repeat rows; discovery merges them through
/// a de-duplicating set. Keeps the first occurrence of each entry.
pub fn dedup_strings(v: Vec<String>) -> (r: Vec<String>)
    ensures
        str_views(r@) == spec_dedup(str_views(v@)),
{
    let mut out: Vec<String> = Vec::new();
    let n = v.len();
    let mut i: usize = 0;
    proof {
        assert(str_views(v@).take(0int) =~= Seq::<Seq<char>>::empty());
        assert(str_views(out@) =~= spec_dedup(str_views(v@).take(0int)));
    }
    while i < n
        invariant
            0 <= i <= n,
            n == v@.len(),
            str_views(out@) == spec_dedup(str_views(v@).take(i as int)),
        decreases n - i,
    {
        let ghost sv = str_views(v@);
        proof {
            assert(sv.take(i + 1).drop_last() =~= sv.take(i as int));
            assert(sv.take(i + 1).last() == sv[i as int]);
            assert(sv[i as int] == v@[i as int]@);
        }
        let mut seen = false;
        let m = out.len();
        let mut j: usize = 0;
        while j < m
            invariant
                0 <= j <= m,
                m == out@.len(),
                i < n,
                n == v@.len(),
                seen ==> str_views(out@).contains(v@[i as int]@),
                !seen ==> forall|k: int| 0 <= k < j ==> str_views(out@)[k] != v@[i as int]@,
            decreases m - j,
        {
            if crate::strutil::str_eq(out[j].as_str(), v[i].as_str()) {
                seen = true;
                proof {
                    assert(str_views(out@)[j as int] == v@[i as int]@);
                }
                j = m;
            } else {
                proof {
                    assert(str_views(out@)[j as int] == out@[j as int]@);
                }
                j = j + 1;
            }
        }
        let ghost before = str_views(out@);
        if !seen {
            proof {
                assert(!before.contains(v@[i as int]@)) by {
                    if before.contains(v@[i as int]@) {
                        let k = choose|k: int|
                            0 <= k < before.len() && before[k] == v@[i as int]@;
                        assert(before[k] != v@[i as int]@);
                    }
                }
            }
            let item = v[i].clone();
            out.push(item);
            proof {
                assert(str_views(out@) =~= before.push(v@[i as int]@));
            }
        }
        i = i + 1;
    }
    proof {
        assert(str_views(v@).take(n as int) =~= str_views(v@));
    }
    out
}


// ---------------------------------------------------------------------------
// SessionLogin portals: post credentials, lift a CSRF token off the login
// page, exchange token and session cookie for a JSON directory listing.
// Anonymous portals run the same flow with an empty password.
// ---------------------------------------------------------------------------

pub fn publishedprice_login_url() -> (r: &'static str)
    ensures
        r@ == "https://url.publishedprices.co.il/login"@,
{
    "https://url.publishedprices.co.il/login"
}

pub fn publishedprice_user_url() -> (r: &'static str)
    ensures
        r@ == "https://url.publishedprices.co.il/login/user"@,
{
    "https://url.publishedprices.co.il/login/user"
}

pub fn publishedprice_dir_url() -> (r: &'static str)
    ensures
        r@ == "https://url.publishedprices.co.il/file/json/dir"@,
{
    "https://url.publishedprices.co.il/file/json/dir"
}

/// The CSRF token on a fetched login page, or a structural error where the
/// meta tag is missing.
pub fn csrf_token(html: &str) -> (r: Result<String, AdapterError>)
    ensures
        match r {
            Ok(t) => csrf_meta_content(html@) == Some(t@),
            Err(e) => csrf_meta_content(html@) is None && e == AdapterError::StructureMismatch,
        },
{
    match extract_csrf_content(html) {
        Some(t) => Ok(t),
        None => Err(AdapterError::StructureMismatch),
    }
}

/// The login form body, credentials and token in place.
pub fn publishedprice_login_body(username: &str, password: &str, csrftoken: &str) -> (r: String)
    ensures
        r@ == "r=&username="@ + username@ + "&password="@ + password@
            + "&Submit=Sign+in&csrftoken="@ + csrftoken@,
{
    let mut s = String::new();
    s.append("r=&username=");
    s.append(username);
    s.append("&password=");
    s.append(password);
    s.append("&Submit=Sign+in&csrftoken=");
    s.append(csrftoken);
    proof {
        assert(s@ =~= "r=&username="@ + username@ + "&password="@ + password@
            + "&Submit=Sign+in&csrftoken="@ + csrftoken@);
    }
    s
}

/// The fixed dataTables query that asks the portal for its whole directory,
/// with the session's token appended.
pub fn publishedprice_dir_body(csrftoken: &str) -> (r: String)
    ensures
        r@
            == "sEcho=1&iColumns=5&sColumns=%2C%2C%2C%2C&iDisplayStart=0&iDisplayLength=100000&mDataProp_0=fname&sSearch_0=&bRegex_0=false&bSearchable_0=true&bSortable_0=true&mDataProp_1=typeLabel&sSearch_1=&bRegex_1=false&bSearchable_1=true&bSortable_1=false&mDataProp_2=size&sSearch_2=&bRegex_2=false&bSearchable_2=true&bSortable_2=true&mDataProp_3=ftime&sSearch_3=&bRegex_3=false&bSearchable_3=true&bSortable_3=true&mDataProp_4=&sSearch_4=&bRegex_4=false&bSearchable_4=true&bSortable_4=false&sSearch=&bRegex=false&iSortingCols=0&cd=%2F&csrftoken="@
            + csrftoken@,
{
    let mut s = String::new();
    s.append(
        "sEcho=1&iColumns=5&sColumns=%2C%2C%2C%2C&iDisplayStart=0&iDisplayLength=100000&mDataProp_0=fname&sSearch_0=&bRegex_0=false&bSearchable_0=true&bSortable_0=true&mDataProp_1=typeLabel&sSearch_1=&bRegex_1=false&bSearchable_1=true&bSortable_1=false&mDataProp_2=size&sSearch_2=&bRegex_2=false&bSearchable_2=true&bSortable_2=true&mDataProp_3=ftime&sSearch_3=&bRegex_3=false&bSearchable_3=true&bSortable_3=true&mDataProp_4=&sSearch_4=&bRegex_4=false&bSearchable_4=true&bSortable_4=false&sSearch=&bRegex=false&iSortingCols=0&cd=%2F&csrftoken=",
    );
    s.append(csrftoken);
    proof {
        assert(s@
            =~= "sEcho=1&iColumns=5&sColumns=%2C%2C%2C%2C&iDisplayStart=0&iDisplayLength=100000&mDataProp_0=fname&sSearch_0=&bRegex_0=false&bSearchable_0=true&bSortable_0=true&mDataProp_1=typeLabel&sSearch_1=&bRegex_1=false&bSearchable_1=true&bSortable_1=false&mDataProp_2=size&sSearch_2=&bRegex_2=false&bSearchable_2=true&bSortable_2=true&mDataProp_3=ftime&sSearch_3=&bRegex_3=false&bSearchable_3=true&bSortable_3=true&mDataProp_4=&sSearch_4=&bRegex_4=false&bSearchable_4=true&bSortable_4=false&sSearch=&bRegex=false&iSortingCols=0&cd=%2F&csrftoken="@
            + csrftoken@);
    }
    s
}

/// A form post's headers carrying the session cookie.
pub fn headers_with_cookie(cookie: &str) -> (r: Vec<(String, String)>)
    ensures
        pair_views(r@) =~= seq![
            ("Content-Type"@, "application/x-www-form-urlencoded"@),
            ("Cookie"@, cookie@),
        ],
{
    let mut v = form_headers();
    let ghost before = v@;
    v.push(("Cookie".to_owned(), cookie.to_owned()));
    proof {
        assert(pair_views(v@) =~= pair_views(before).push(("Cookie"@, cookie@)));
        assert(pair_views(v@) =~= seq![
            ("Content-Type"@, "application/x-www-form-urlencoded"@),
            ("Cookie"@, cookie@),
        ]);
    }
    v
}

/// Each listed raw name with its quote characters removed.
pub open spec fn stripped_all(names: Seq<Seq<char>>) -> Seq<Seq<char>> {
    names.map_values(|s: Seq<char>| strip_quotes(s))
}

/// Reads the directory listing: the names under `aaData`, quotes stripped,
/// parsed, winnowed to the most recent interesting versions. A listing
/// without that array is a structural error.
pub fn publishedprice_candidates(text: &str, file_limit: Option<usize>) -> (r: Result<
    Vec<FileInfo>,
    AdapterError,
>)
    ensures
        r is Ok <==> json_array_field_texts(text@, "aaData"@, "fname"@) is Some,
        r matches Ok(c) ==> recents_selection(
            parsed_interesting(
                stripped_all(json_array_field_texts(text@, "aaData"@, "fname"@)->Some_0),
            ),
            file_limit,
            fi_views(c@),
        ),
        r matches Err(e) ==> e == AdapterError::StructureMismatch,
{
    match json_field_strings(text, "aaData", "fname") {
        None => Err(AdapterError::StructureMismatch),
        Some(names) => {
            let ghost sn = str_views(names@);
            let mut cleaned: Vec<String> = Vec::new();
            let n = names.len();
            let mut i: usize = 0;
            proof {
                assert(str_views(cleaned@) =~= stripped_all(sn).take(0int));
            }
            while i < n
                invariant
                    0 <= i <= n,
                    n == names@.len(),
                    sn == str_views(names@),
                    str_views(cleaned@) == stripped_all(sn).take(i as int),
                decreases n - i,
            {
                let ghost before = str_views(cleaned@);
                let item = remove_quotes(names[i].as_str());
                cleaned.push(item);
                proof {
                    assert(sn[i as int] == names@[i as int]@);
                    assert(stripped_all(sn)[i as int] == strip_quotes(sn[i as int]));
                    assert(str_views(cleaned@) =~= before.push(strip_quotes(sn[i as int])));
                    assert(str_views(cleaned@) =~= stripped_all(sn).take(i + 1));
                }
                i = i + 1;
            }
            proof {
                assert(stripped_all(sn).take(n as int) =~= stripped_all(sn));
            }
            Ok(FileInfo::from_str_iter(cleaned, file_limit))
        },
    }
}

/// The descriptor one session-login candidate becomes.
pub open spec fn spec_publishedprice_download(
    store: Seq<char>,
    cookie: Seq<char>,
    fi: FileInfoV,
) -> DownloadV {
    DownloadV {
        store: store,
        path: "https://url.publishedprices.co.il/file/d/"@ + fi.filename,
        headers: Some(
            seq![("Content-Type"@, "application/x-www-form-urlencoded"@), ("Cookie"@, cookie)],
        ),
        dest: "data_raw/"@ + store + "/"@ + fi.filename,
    }
}

pub fn publishedprice_downloads(store_name: &str, cookie: &str, candidates: Vec<FileInfo>) -> (r:
    Vec<Download>)
    ensures
        dl_views(r@) == fi_views(candidates@).map_values(
            |fi: FileInfoV| spec_publishedprice_download(store_name@, cookie@, fi),
        ),
{
    let ghost target = fi_views(candidates@).map_values(
        |fi: FileInfoV| spec_publishedprice_download(store_name@, cookie@, fi),
    );
    let mut out: Vec<Download> = Vec::new();
    let n = candidates.len();
    let mut i: usize = 0;
    proof {
        assert(dl_views(out@) =~= target.take(0int));
    }
    while i < n
        invariant
            0 <= i <= n,
            n == candidates@.len(),
            target == fi_views(candidates@).map_values(
                |fi: FileInfoV| spec_publishedprice_download(store_name@, cookie@, fi),
            ),
            dl_views(out@) == target.take(i as int),
        decreases n - i,
    {
        let ghost before = dl_views(out@);
        let fi = &candidates[i];
        let path = crate::strutil::str_concat(
            "https://url.publishedprices.co.il/file/d/",
            fi.filename.as_str(),
        );
        let headers = headers_with_cookie(cookie);
        let dest = dest_path(store_name, fi.filename.as_str());
        let d = Download { store: store_name.to_owned(), path, headers: Some(headers), dest };
        proof {
            assert(fi_views(candidates@)[i as int] == candidates@[i as int]@);
            assert(d@ == spec_publishedprice_download(store_name@, cookie@, fi@)) by {
                assert(d@.headers->Some_0 =~= spec_publishedprice_download(
                    store_name@,
                    cookie@,
                    fi@,
                ).headers->Some_0);
            }
        }
        out.push(d);
        proof {
            assert(dl_views(out@) =~= before.push(d@));
            assert(dl_views(out@) =~= target.take(i + 1));
        }
        i = i + 1;
    }
    proof {
        assert(target.take(n as int) =~= target);
    }
    out
}

// ---------------------------------------------------------------------------
// PagedDirectIndex portals: one GET to a JSON listing; filenames map onto a
// fixed download-URL template.
// ---------------------------------------------------------------------------

/// Reads the JSON listing: each element's `FileNm`, parsed and winnowed. A
/// listing that is not an array of objects with that field is a structural
/// error.
pub fn simple_json_candidates(text: &str, file_limit: Option<usize>) -> (r: Result<
    Vec<FileInfo>,
    AdapterError,
>)
    ensures
        r is Ok <==> json_root_field_texts(text@, "FileNm"@) is Some,
        r matches Ok(c) ==> recents_selection(
            parsed_interesting(json_root_field_texts(text@, "FileNm"@)->Some_0),
            file_limit,
            fi_views(c@),
        ),
        r matches Err(e) ==> e == AdapterError::StructureMismatch,
{
    match json_root_strings(text, "FileNm") {
        None => Err(AdapterError::StructureMismatch),
        Some(names) => Ok(FileInfo::from_str_iter(names, file_limit)),
    }
}

pub open spec fn spec_simple_download(
    store: Seq<char>,
    prefix: Seq<char>,
    fi: FileInfoV,
) -> DownloadV {
    DownloadV {
        store: store,
        path: prefix + fi.filename,
        headers: None,
        dest: "data_raw/"@ + store + "/"@ + fi.filename,
    }
}

pub fn simple_json_downloads(
    store_name: &str,
    download_prefix: &str,
    candidates: Vec<FileInfo>,
) -> (r: Vec<Download>)
    ensures
        dl_views(r@) == fi_views(candidates@).map_values(
            |fi: FileInfoV| spec_simple_download(store_name@, download_prefix@, fi),
        ),
{
    let ghost target = fi_views(candidates@).map_values(
        |fi: FileInfoV| spec_simple_download(store_name@, download_prefix@, fi),
    );
    let mut out: Vec<Download> = Vec::new();
    let n = candidates.len();
    let mut i: usize = 0;
    proof {
        assert(dl_views(out@) =~= target.take(0int));
    }
    while i < n
        invariant
            0 <= i <= n,
            n == candidates@.len(),
            target == fi_views(candidates@).map_values(
                |fi: FileInfoV| spec_simple_download(store_name@, download_prefix@, fi),
            ),
            dl_views(out@) == target.take(i as int),
        decreases n - i,
    {
        let ghost before = dl_views(out@);
        let fi = &candidates[i];
        let path = crate::strutil::str_concat(download_prefix, fi.filename.as_str());
        let dest = dest_path(store_name, fi.filename.as_str());
        let d = Download { store: store_name.to_owned(), path, headers: None, dest };
        proof {
            assert(fi_views(candidates@)[i as int] == candidates@[i as int]@);
            assert(d@ == spec_simple_download(store_name@, download_prefix@, fi@));
        }
        out.push(d);
        proof {
            assert(dl_views(out@) =~= before.push(d@));
            assert(dl_views(out@) =~= target.take(i + 1));
        }
        i = i + 1;
    }
    proof {
        assert(target.take(n as int) =~= target);
    }
    out
}

// ---------------------------------------------------------------------------
// Pagination: the portals' paged tables name their last page behind a
// marker link whose href ends in `=<count>`.
// ---------------------------------------------------------------------------

pub open spec fn spec_page_count(att: Option<Seq<char>>) -> Result<int, AdapterError> {
    match att {
        None => Err(AdapterError::StructureMismatch),
        Some(h) => {
            let k = last_index_of(h, '=');
            if k == -1 {
                Err(AdapterError::StructureMismatch)
            } else {
                let d = h.skip(k + 1);
                if d.len() > 0 && all_digits(d) && digits_val(d) <= usize::MAX as int {
                    Ok(digits_val(d))
                } else {
                    Err(AdapterError::StructureMismatch)
                }
            }
        },
    }
}

/// The total page count, read off the `»`-style pagination link matched by
/// `selector`: what follows the last `=` of its href, as a number.
pub fn page_count(html: &str, selector: &str) -> (r: Result<usize, AdapterError>)
    ensures
        match r {
            Ok(n) => spec_page_count(marker_link_attr(html@, selector@, ">>"@, "href"@)) == Ok::<
                int,
                AdapterError,
            >(n as int),
            Err(e) => spec_page_count(marker_link_attr(html@, selector@, ">>"@, "href"@)) == Err::<
                int,
                AdapterError,
            >(e),
        },
{
    match scrape_marker_attr(html, selector, ">>", "href") {
        None => Err(AdapterError::StructureMismatch),
        Some(href) => {
            match find_last(href.as_str(), '=') {
                None => Err(AdapterError::StructureMismatch),
                Some(k) => {
                    proof {
                        lemma_last_index_of(href@, '=');
                    }
                    let len = href.as_str().unicode_len();
                    let digits = href.as_str().substring_char(k + 1, len);
                    proof {
                        assert(digits@ =~= href@.skip(last_index_of(href@, '=') + 1));
                    }
                    match parse_u64_digits(digits) {
                        None => Err(AdapterError::StructureMismatch),
                        Some(v) => {
                            if v <= usize::MAX as u64 {
                                Ok(v as usize)
                            } else {
                                Err(AdapterError::StructureMismatch)
                            }
                        },
                    }
                },
            }
        },
    }
}

/// One page's URL: the base with the page number appended.
pub fn page_url(base: &str, page: u64) -> (r: String)
    ensures
        r@ == base@ + dec_digits(page as int),
{
    let digits = u64_to_string(page);
    let r = crate::strutil::str_concat(base, digits.as_str());
    r
}

// ---------------------------------------------------------------------------
// PagedHtmlTable portal with plain links (shufersal): every page's table
// anchors, merged through a set, parsed and winnowed. The href is itself the
// download location.
// ---------------------------------------------------------------------------

/// Scrapes one listing page's table anchors.
pub fn shufersal_page_links(html: &str) -> (r: Result<Vec<String>, AdapterError>)
    ensures
        match r {
            Ok(v) => scraped_attr_values(html@, "tbody a"@, "href"@) == Some(str_views(v@)),
            Err(e) => scraped_attr_values(html@, "tbody a"@, "href"@) is None && e
                == AdapterError::StructureMismatch,
        },
{
    match scrape_attrs(html, "tbody a", "href") {
        Some(v) => Ok(v),
        None => Err(AdapterError::StructureMismatch),
    }
}

/// Merges the pages' links, drops repeats, parses and winnows.
pub fn shufersal_candidates(links: Vec<String>, file_limit: Option<usize>) -> (r: Vec<FileInfo>)
    ensures
        recents_selection(
            parsed_interesting(spec_dedup(str_views(links@))),
            file_limit,
            fi_views(r@),
        ),
{
    let deduped = dedup_strings(links);
    FileInfo::from_str_iter(deduped, file_limit)
}

pub open spec fn spec_shufersal_download(store: Seq<char>, fi: FileInfoV) -> DownloadV {
    DownloadV {
        store: store,
        path: fi.source,
        headers: None,
        dest: "data_raw/"@ + store + "/"@ + fi.filename,
    }
}

pub fn shufersal_downloads(store_name: &str, candidates: Vec<FileInfo>) -> (r: Vec<Download>)
    ensures
        dl_views(r@) == fi_views(candidates@).map_values(
            |fi: FileInfoV| spec_shufersal_download(store_name@, fi),
        ),
{
    let ghost target = fi_views(candidates@).map_values(
        |fi: FileInfoV| spec_shufersal_download(store_name@, fi),
    );
    let mut out: Vec<Download> = Vec::new();
    let n = candidates.len();
    let mut i: usize = 0;
    proof {
        assert(dl_views(out@) =~= target.take(0int));
    }
    while i < n
        invariant
            0 <= i <= n,
            n == candidates@.len(),
            target == fi_views(candidates@).map_values(
                |fi: FileInfoV| spec_shufersal_download(store_name@, fi),
            ),
            dl_views(out@) == target.take(i as int),
        decreases n - i,
    {
        let ghost before = dl_views(out@);
        let fi = &candidates[i];
        let path = fi.source.clone();
        let dest = dest_path(store_name, fi.filename.as_str());
        let d = Download { store: store_name.to_owned(), path, headers: None, dest };
        proof {
            assert(fi_views(candidates@)[i as int] == candidates@[i as int]@);
            assert(d@ == spec_shufersal_download(store_name@, fi@));
        }
        out.push(d);
        proof {
            assert(dl_views(out@) =~= before.push(d@));
            assert(dl_views(out@) =~= target.take(i + 1));
        }
        i = i + 1;
    }
    proof {
        assert(target.take(n as int) =~= target);
    }
    out
}


// ---------------------------------------------------------------------------
// TwoHopResolution portal (superpharm): paged table rows carry a name and a
// link; each candidate is resolved through one more authenticated request
// whose JSON answer holds the true download href. The per-page cookie is
// replayed on both hops.
// ---------------------------------------------------------------------------

pub open spec fn triple_views(v: Seq<(String, String, String)>) -> Seq<
    (Seq<char>, Seq<char>, Seq<char>),
> {
    v.map_values(|p: (String, String, String)| (p.0@, p.1@, p.2@))
}

/// Scrapes one page's file table rows.
pub fn superpharm_page_rows(html: &str) -> (r: Result<Vec<(String, String)>, AdapterError>)
    ensures
        match r {
            Ok(v) => superpharm_table_rows(html@) == Some(pair_views(v@)),
            Err(e) => superpharm_table_rows(html@) is None && e
                == AdapterError::StructureMismatch,
        },
{
    match scrape_superpharm_rows(html) {
        Some(v) => Ok(v),
        None => Err(AdapterError::StructureMismatch),
    }
}

/// Tags every row of one page with the cookie that page was served under.
pub fn rows_with_cookie(rows: Vec<(String, String)>, cookie: &str) -> (r: Vec<
    (String, String, String),
>)
    ensures
        triple_views(r@) == pair_views(rows@).map_values(
            |p: (Seq<char>, Seq<char>)| (p.0, p.1, cookie@),
        ),
{
    let ghost target = pair_views(rows@).map_values(
        |p: (Seq<char>, Seq<char>)| (p.0, p.1, cookie@),
    );
    let mut out: Vec<(String, String, String)> = Vec::new();
    let n = rows.len();
    let mut i: usize = 0;
    proof {
        assert(triple_views(out@) =~= target.take(0int));
    }
    while i < n
        invariant
            0 <= i <= n,
            n == rows@.len(),
            target == pair_views(rows@).map_values(
                |p: (Seq<char>, Seq<char>)| (p.0, p.1, cookie@),
            ),
            triple_views(out@) == target.take(i as int),
        decreases n - i,
    {
        let ghost before = triple_views(out@);
        let name = rows[i].0.clone();
        let link = rows[i].1.clone();
        out.push((name, link, cookie.to_owned()));
        proof {
            assert(pair_views(rows@)[i as int] == (rows@[i as int].0@, rows@[i as int].1@));
            assert(triple_views(out@) =~= before.push(
                (rows@[i as int].0@, rows@[i as int].1@, cookie@),
            ));
            assert(triple_views(out@) =~= target.take(i + 1));
        }
        i = i + 1;
    }
    proof {
        assert(target.take(n as int) =~= target);
    }
    out
}

/// Concurrent pages repeat rows; the merge runs through a de-duplicating set
/// keyed on name, link and cookie together.
pub fn dedup_triples(v: Vec<(String, String, String)>) -> (r: Vec<(String, String, String)>)
    ensures
        triple_views(r@) == spec_dedup(triple_views(v@)),
{
    let mut out: Vec<(String, String, String)> = Vec::new();
    let n = v.len();
    let mut i: usize = 0;
    proof {
        assert(triple_views(v@).take(0int) =~= Seq::<(Seq<char>, Seq<char>, Seq<char>)>::empty());
        assert(triple_views(out@) =~= spec_dedup(triple_views(v@).take(0int)));
    }
    while i < n
        invariant
            0 <= i <= n,
            n == v@.len(),
            triple_views(out@) == spec_dedup(triple_views(v@).take(i as int)),
        decreases n - i,
    {
        let ghost sv = triple_views(v@);
        let ghost cur = (v@[i as int].0@, v@[i as int].1@, v@[i as int].2@);
        proof {
            assert(sv.take(i + 1).drop_last() =~= sv.take(i as int));
            assert(sv.take(i + 1).last() == sv[i as int]);
            assert(sv[i as int] == cur);
        }
        let mut seen = false;
        let m = out.len();
        let mut j: usize = 0;
        while j < m
            invariant
                0 <= j <= m,
                m == out@.len(),
                i < n,
                n == v@.len(),
                cur == (v@[i as int].0@, v@[i as int].1@, v@[i as int].2@),
                seen ==> triple_views(out@).contains(cur),
                !seen ==> forall|k: int| 0 <= k < j ==> triple_views(out@)[k] != cur,
            decreases m - j,
        {
            proof {
                assert(triple_views(out@)[j as int] == (
                    out@[j as int].0@,
                    out@[j as int].1@,
                    out@[j as int].2@,
                ));
            }
            if crate::strutil::str_eq(out[j].0.as_str(), v[i].0.as_str()) && crate::strutil::str_eq(
                out[j].1.as_str(),
                v[i].1.as_str(),
            ) && crate::strutil::str_eq(out[j].2.as_str(), v[i].2.as_str()) {
                seen = true;
                j = m;
            } else {
                j = j + 1;
            }
        }
        let ghost before = triple_views(out@);
        if !seen {
            proof {
                assert(!before.contains(cur)) by {
                    if before.contains(cur) {
                        let k = choose|k: int| 0 <= k < before.len() && before[k] == cur;
                        assert(before[k] != cur);
                    }
                }
            }
            let item = (v[i].0.clone(), v[i].1.clone(), v[i].2.clone());
            out.push(item);
            proof {
                assert(triple_views(out@) =~= before.push(cur));
            }
        }
        i = i + 1;
    }
    proof {
        assert(triple_views(v@).take(n as int) =~= triple_views(v@));
    }
    out
}

/// The identities of the rows whose names parse and are worth fetching, the
/// row's link as `source` and the page's cookie attached.
pub open spec fn triple_candidates(ts: Seq<(Seq<char>, Seq<char>, Seq<char>)>) -> Seq<FileInfoV>
    decreases ts.len(),
{
    if ts.len() == 0 {
        Seq::empty()
    } else {
        triple_candidates(ts.drop_last()).add(
            match spec_parse(ts.last().0) {
                Ok(v) => if v.file_type == FileType::PriceFull || v.file_type
                    == FileType::StoresFull {
                    seq![FileInfoV { source: ts.last().1, cookie: ts.last().2, ..v }]
                } else {
                    Seq::empty()
                },
                Err(_) => Seq::empty(),
            },
        )
    }
}

/// Merges the pages' rows, drops repeats, parses the names and winnows.
pub fn superpharm_candidates(rows: Vec<(String, String, String)>, file_limit: Option<usize>) -> (r:
    Vec<FileInfo>)
    ensures
        recents_selection(
            triple_candidates(spec_dedup(triple_views(rows@))),
            file_limit,
            fi_views(r@),
        ),
{
    let deduped = dedup_triples(rows);
    let ghost ts = triple_views(deduped@);
    let mut kept: Vec<FileInfo> = Vec::new();
    let n = deduped.len();
    let mut i: usize = 0;
    proof {
        assert(fi_views(kept@) =~= triple_candidates(ts.take(0int)));
    }
    while i < n
        invariant
            0 <= i <= n,
            n == deduped@.len(),
            ts == triple_views(deduped@),
            fi_views(kept@) == triple_candidates(ts.take(i as int)),
        decreases n - i,
    {
        let ghost before = fi_views(kept@);
        proof {
            assert(ts.take(i + 1).drop_last() =~= ts.take(i as int));
            assert(ts.take(i + 1).last() == ts[i as int]);
            assert(ts[i as int] == (
                deduped@[i as int].0@,
                deduped@[i as int].1@,
                deduped@[i as int].2@,
            ));
        }
        match FileInfo::parse(deduped[i].0.as_str()) {
            Ok(fi) => {
                let fi = fi.with_source(deduped[i].1.as_str());
                let fi = fi.with_cookie(deduped[i].2.as_str());
                if fi.is_interesting() {
                    kept.push(fi);
                    proof {
                        assert(fi_views(kept@) =~= before.push(fi@));
                        assert(fi_views(kept@) =~= triple_candidates(ts.take(i + 1)));
                    }
                } else {
                    proof {
                        assert(triple_candidates(ts.take(i + 1)) =~= before);
                    }
                }
            },
            Err(_) => {
                proof {
                    assert(triple_candidates(ts.take(i + 1)) =~= before);
                }
            },
        }
        i = i + 1;
    }
    proof {
        assert(ts.take(n as int) =~= ts);
    }
    FileInfo::keep_most_recents(kept, file_limit)
}

/// The second hop's request: the row's link under the portal's host, the
/// page's cookie replayed.
pub fn superpharm_resolve_request(fi: &FileInfo) -> (r: (String, Vec<(String, String)>))
    ensures
        r.0@ == "http://prices.super-pharm.co.il"@ + fi@.source,
        pair_views(r.1@) =~= seq![("Cookie"@, fi@.cookie)],
{
    let url = crate::strutil::str_concat("http://prices.super-pharm.co.il", fi.source.as_str());
    let mut headers: Vec<(String, String)> = Vec::new();
    headers.push(("Cookie".to_owned(), fi.cookie.clone()));
    proof {
        assert(pair_views(headers@) =~= seq![("Cookie"@, fi@.cookie)]);
    }
    (url, headers)
}

/// The download location in the second hop's answer: its `href`, under the
/// portal's host.
pub fn superpharm_resolve(text: &str) -> (r: Result<String, AdapterError>)
    ensures
        match r {
            Ok(u) => json_object_text_field(text@, "href"@) matches Some(h) && u@
                == "http://prices.super-pharm.co.il"@ + h,
            Err(e) => json_object_text_field(text@, "href"@) is None && e
                == AdapterError::StructureMismatch,
        },
{
    match json_object_str_field(text, "href") {
        None => Err(AdapterError::StructureMismatch),
        Some(href) => Ok(
            crate::strutil::str_concat("http://prices.super-pharm.co.il", href.as_str()),
        ),
    }
}

/// The final descriptor of one resolved candidate.
pub fn superpharm_download(store_name: &str, fi: &FileInfo, url: String) -> (r: Download)
    ensures
        r@ == (DownloadV {
            store: store_name@,
            path: url@,
            headers: Some(seq![("Cookie"@, fi@.cookie)]),
            dest: "data_raw/"@ + store_name@ + "/"@ + fi@.filename,
        }),
{
    let mut headers: Vec<(String, String)> = Vec::new();
    headers.push(("Cookie".to_owned(), fi.cookie.clone()));
    let dest = dest_path(store_name, fi.filename.as_str());
    let d = Download { store: store_name.to_owned(), path: url, headers: Some(headers), dest };
    proof {
        assert(d@.headers->Some_0 =~= seq![("Cookie"@, fi@.cookie)]);
    }
    d
}


// ---------------------------------------------------------------------------
// StaticDirectoryScrape portal (netiv hahesed): a fixed page filtered
// server-side by "today". Holidays and early hours leave it empty, so the
// page is re-posted with each of the seven preceding days, replaying the
// page's hidden form state verbatim.
// ---------------------------------------------------------------------------

/// A calendar date as plain numbers.
#[derive(PartialEq, Eq, Structural, Copy, Clone, Debug)]
pub struct SimpleDate {
    pub year: u32,
    pub month: u32,
    pub day: u32,
}

pub open spec fn is_leap_year(y: int) -> bool {
    y % 4 == 0 && (y % 100 != 0 || y % 400 == 0)
}

pub open spec fn days_in_month(y: int, m: int) -> int {
    if m == 2 {
        if is_leap_year(y) {
            29
        } else {
            28
        }
    } else if m == 4 || m == 6 || m == 9 || m == 11 {
        30
    } else {
        31
    }
}

pub open spec fn date_wf(d: SimpleDate) -> bool {
    &&& 1 <= d.month <= 12
    &&& 1 <= d.day <= days_in_month(d.year as int, d.month as int)
}

pub open spec fn spec_prev_day(d: SimpleDate) -> SimpleDate {
    if d.day > 1 {
        SimpleDate { year: d.year, month: d.month, day: (d.day - 1) as u32 }
    } else if d.month > 1 {
        SimpleDate {
            year: d.year,
            month: (d.month - 1) as u32,
            day: days_in_month(d.year as int, d.month as int - 1) as u32,
        }
    } else {
        SimpleDate { year: (d.year - 1) as u32, month: 12, day: 31 }
    }
}

fn days_in_month_exec(y: u32, m: u32) -> (r: u32)
    requires
        1 <= m <= 12,
    ensures
        r == days_in_month(y as int, m as int),
{
    if m == 2 {
        if y % 4 == 0 && (y % 100 != 0 || y % 400 == 0) {
            29
        } else {
            28
        }
    } else if m == 4 || m == 6 || m == 9 || m == 11 {
        30
    } else {
        31
    }
}

/// The calendar day before `d`.
pub fn prev_day(d: &SimpleDate) -> (r: SimpleDate)
    requires
        date_wf(*d),
        d.year >= 1,
    ensures
        r == spec_prev_day(*d),
        date_wf(r),
        r.year >= d.year - 1,
{
    if d.day > 1 {
        SimpleDate { year: d.year, month: d.month, day: d.day - 1 }
    } else if d.month > 1 {
        let pm = d.month - 1;
        SimpleDate { year: d.year, month: pm, day: days_in_month_exec(d.year, pm) }
    } else {
        SimpleDate { year: d.year - 1, month: 12, day: 31 }
    }
}

pub open spec fn valid_u32_num(p: Seq<char>) -> bool {
    p.len() > 0 && all_digits(p) && digits_val(p) <= u32::MAX as int
}

/// What the page's date field must look like: day, month and year separated
/// by slashes, each a number, naming a real calendar day.
pub open spec fn spec_parse_display_date(s: Seq<char>) -> Result<SimpleDate, AdapterError> {
    let ps = crate::strutil::split_on(s, '/');
    if ps.len() == 3 && valid_u32_num(ps[0]) && valid_u32_num(ps[1]) && valid_u32_num(ps[2]) {
        let d = SimpleDate {
            year: digits_val(ps[2]) as u32,
            month: digits_val(ps[1]) as u32,
            day: digits_val(ps[0]) as u32,
        };
        if date_wf(d) {
            Ok(d)
        } else {
            Err(AdapterError::StructureMismatch)
        }
    } else {
        Err(AdapterError::StructureMismatch)
    }
}

/// Reads the page's `d/m/yyyy` date field.
pub fn parse_display_date(s: &str) -> (r: Result<SimpleDate, AdapterError>)
    ensures
        r == spec_parse_display_date(s@),
{
    let pieces = crate::strutil::str_split(s, '/');
    let ghost ps = crate::strutil::split_on(s@, '/');
    proof {
        assert(str_views(pieces@) == ps);
    }
    if pieces.len() != 3 {
        return Err(AdapterError::StructureMismatch);
    }
    proof {
        assert(pieces@[0]@ == ps[0]);
        assert(pieces@[1]@ == ps[1]);
        assert(pieces@[2]@ == ps[2]);
    }
    let day = match parse_u64_digits(pieces[0].as_str()) {
        Some(v) => v,
        None => {
            return Err(AdapterError::StructureMismatch);
        },
    };
    let month = match parse_u64_digits(pieces[1].as_str()) {
        Some(v) => v,
        None => {
            return Err(AdapterError::StructureMismatch);
        },
    };
    let year = match parse_u64_digits(pieces[2].as_str()) {
        Some(v) => v,
        None => {
            return Err(AdapterError::StructureMismatch);
        },
    };
    if day > u32::MAX as u64 || month > u32::MAX as u64 || year > u32::MAX as u64 {
        return Err(AdapterError::StructureMismatch);
    }
    let d = SimpleDate { year: year as u32, month: month as u32, day: day as u32 };
    if 1 <= d.month && d.month <= 12 && 1 <= d.day && d.day <= days_in_month_exec(d.year, d.month) {
        Ok(d)
    } else {
        Err(AdapterError::StructureMismatch)
    }
}

/// The date as the portal's form wants it: `day/month/year`, no padding.
pub fn display_date_param(d: &SimpleDate) -> (r: String)
    ensures
        r@ == dec_digits(d.day as int) + "/"@ + dec_digits(d.month as int) + "/"@ + dec_digits(
            d.year as int,
        ),
{
    let mut s = u64_to_string(d.day as u64);
    s.append("/");
    let m = u64_to_string(d.month as u64);
    s.append(m.as_str());
    s.append("/");
    let y = u64_to_string(d.year as u64);
    s.append(y.as_str());
    proof {
        assert(s@ =~= dec_digits(d.day as int) + "/"@ + dec_digits(d.month as int) + "/"@
            + dec_digits(d.year as int));
    }
    s
}

/// The re-post's form fields: the page's hidden state replayed verbatim,
/// plus the rolled date.
pub fn netiv_form_params(
    view_state: &str,
    generator: &str,
    validation: &str,
    date: &str,
) -> (r: Vec<(String, String)>)
    ensures
        pair_views(r@) =~= seq![
            ("__VIEWSTATE"@, view_state@),
            ("__VIEWSTATEGENERATOR"@, generator@),
            ("__EVENTVALIDATION"@, validation@),
            ("ctl00$MainContent$MainContent_txtDate"@, date@),
        ],
{
    let mut v: Vec<(String, String)> = Vec::new();
    v.push(("__VIEWSTATE".to_owned(), view_state.to_owned()));
    v.push(("__VIEWSTATEGENERATOR".to_owned(), generator.to_owned()));
    v.push(("__EVENTVALIDATION".to_owned(), validation.to_owned()));
    v.push(("ctl00$MainContent$MainContent_txtDate".to_owned(), date.to_owned()));
    proof {
        assert(pair_views(v@) =~= seq![
            ("__VIEWSTATE"@, view_state@),
            ("__VIEWSTATEGENERATOR"@, generator@),
            ("__EVENTVALIDATION"@, validation@),
            ("ctl00$MainContent$MainContent_txtDate"@, date@),
        ]);
    }
    v
}

/// Scrapes one page's download anchors.
pub fn netiv_page_links(html: &str) -> (r: Result<Vec<String>, AdapterError>)
    ensures
        match r {
            Ok(v) => scraped_attr_values(html@, "#download_content a"@, "href"@) == Some(
                str_views(v@),
            ),
            Err(e) => scraped_attr_values(html@, "#download_content a"@, "href"@) is None && e
                == AdapterError::StructureMismatch,
        },
{
    match scrape_attrs(html, "#download_content a", "href") {
        Some(v) => Ok(v),
        None => Err(AdapterError::StructureMismatch),
    }
}

/// The first value of `attr` among elements matching `selector`, or a
/// structural error when there is none.
pub fn first_scraped_attr(html: &str, selector: &str, attr: &str) -> (r: Result<
    String,
    AdapterError,
>)
    ensures
        match r {
            Ok(t) => scraped_attr_values(html@, selector@, attr@) matches Some(l) && l.len() > 0
                && t@ == l[0],
            Err(e) => !(scraped_attr_values(html@, selector@, attr@) matches Some(l) && l.len()
                > 0) && e == AdapterError::StructureMismatch,
        },
{
    match scrape_attrs(html, selector, attr) {
        None => Err(AdapterError::StructureMismatch),
        Some(v) => {
            if v.len() == 0 {
                Err(AdapterError::StructureMismatch)
            } else {
                let t = v[0].clone();
                proof {
                    assert(str_views(v@)[0int] == v@[0int]@);
                }
                Ok(t)
            }
        },
    }
}

/// Parses the links of all fetched pages, today's and the rolled days',
/// and winnows them.
pub fn netiv_candidates(links: Vec<String>, file_limit: Option<usize>) -> (r: Vec<FileInfo>)
    ensures
        recents_selection(
            parsed_interesting(str_views(links@)),
            file_limit,
            fi_views(r@),
        ),
{
    FileInfo::from_str_iter(links, file_limit)
}

pub open spec fn spec_netiv_download(store: Seq<char>, fi: FileInfoV) -> DownloadV {
    DownloadV {
        store: store,
        path: "http://141.226.222.202/prices/"@ + fi.filename,
        headers: None,
        dest: "data_raw/"@ + store + "/"@ + fi.filename,
    }
}

pub fn netiv_downloads(store_name: &str, candidates: Vec<FileInfo>) -> (r: Vec<Download>)
    ensures
        dl_views(r@) == fi_views(candidates@).map_values(
            |fi: FileInfoV| spec_netiv_download(store_name@, fi),
        ),
{
    let ghost target = fi_views(candidates@).map_values(
        |fi: FileInfoV| spec_netiv_download(store_name@, fi),
    );
    let mut out: Vec<Download> = Vec::new();
    let n = candidates.len();
    let mut i: usize = 0;
    proof {
        assert(dl_views(out@) =~= target.take(0int));
    }
    while i < n
        invariant
            0 <= i <= n,
            n == candidates@.len(),
            target == fi_views(candidates@).map_values(
                |fi: FileInfoV| spec_netiv_download(store_name@, fi),
            ),
            dl_views(out@) == target.take(i as int),
        decreases n - i,
    {
        let ghost before = dl_views(out@);
        let fi = &candidates[i];
        let path = crate::strutil::str_concat(
            "http://141.226.222.202/prices/",
            fi.filename.as_str(),
        );
        let dest = dest_path(store_name, fi.filename.as_str());
        let d = Download { store: store_name.to_owned(), path, headers: None, dest };
        proof {
            assert(fi_views(candidates@)[i as int] == candidates@[i as int]@);
            assert(d@ == spec_netiv_download(store_name@, fi@));
        }
        out.push(d);
        proof {
            assert(dl_views(out@) =~= before.push(d@));
            assert(dl_views(out@) =~= target.take(i + 1));
        }
        i = i + 1;
    }
    proof {
        assert(target.take(n as int) =~= target);
    }
    out
}

// ---------------------------------------------------------------------------
// DatedManifestFollow portals (publish price): a directory page whose fourth
// table row links the most recent dated sub-directory; the file links are
// then scraped relative to that resolved location.
// ---------------------------------------------------------------------------

/// The dated sub-directory's href on the directory page: the last anchor of
/// the fourth table row.
pub fn publish_price_date_href(html: &str) -> (r: Result<String, AdapterError>)
    ensures
        match r {
            Ok(t) => scraped_attr_values(html@, "#files tr:nth-child(4) a"@, "href"@) matches Some(
                l,
            ) && l.len() > 0 && t@ == l[l.len() - 1],
            Err(e) => !(scraped_attr_values(html@, "#files tr:nth-child(4) a"@, "href"@) matches
                Some(l) && l.len() > 0) && e == AdapterError::StructureMismatch,
        },
{
    match scrape_attrs(html, "#files tr:nth-child(4) a", "href") {
        None => Err(AdapterError::StructureMismatch),
        Some(v) => {
            if v.len() == 0 {
                Err(AdapterError::StructureMismatch)
            } else {
                let t = v[v.len() - 1].clone();
                proof {
                    assert(str_views(v@)[v@.len() - 1] == v@[v@.len() - 1]@);
                }
                Ok(t)
            }
        },
    }
}

/// Scrapes the dated page's file anchors.
pub fn publish_price_page_links(html: &str) -> (r: Result<Vec<String>, AdapterError>)
    ensures
        match r {
            Ok(v) => scraped_attr_values(html@, "#files a"@, "href"@) == Some(str_views(v@)),
            Err(e) => scraped_attr_values(html@, "#files a"@, "href"@) is None && e
                == AdapterError::StructureMismatch,
        },
{
    match scrape_attrs(html, "#files a", "href") {
        Some(v) => Ok(v),
        None => Err(AdapterError::StructureMismatch),
    }
}

/// Parses the page's links past its three header anchors, and winnows them.
pub fn publish_price_candidates(links: Vec<String>, file_limit: Option<usize>) -> (r: Vec<
    FileInfo,
>)
    ensures
        recents_selection(
            parsed_interesting(
                if str_views(links@).len() >= 3 {
                    str_views(links@).skip(3)
                } else {
                    Seq::empty()
                },
            ),
            file_limit,
            fi_views(r@),
        ),
{
    let mut rest: Vec<String> = Vec::new();
    let n = links.len();
    if n < 3 {
        proof {
            assert(str_views(rest@) =~= Seq::<Seq<char>>::empty());
        }
        return FileInfo::from_str_iter(rest, file_limit);
    }
    let mut i: usize = 3;
    proof {
        assert(str_views(rest@) =~= str_views(links@).subrange(3, 3));
    }
    while i < n
        invariant
            3 <= i <= n,
            n == links@.len(),
            str_views(rest@) == str_views(links@).subrange(3, i as int),
        decreases n - i,
    {
        let ghost before = str_views(rest@);
        let item = links[i].clone();
        rest.push(item);
        proof {
            assert(str_views(links@)[i as int] == links@[i as int]@);
            assert(str_views(rest@) =~= before.push(links@[i as int]@));
            assert(str_views(rest@) =~= str_views(links@).subrange(3, i + 1));
        }
        i = i + 1;
    }
    proof {
        assert(str_views(links@).subrange(3, n as int) =~= str_views(links@).skip(3));
    }
    FileInfo::from_str_iter(rest, file_limit)
}

pub open spec fn spec_publish_price_download(
    store: Seq<char>,
    data_url: Seq<char>,
    fi: FileInfoV,
) -> DownloadV {
    DownloadV {
        store: store,
        path: data_url + fi.filename,
        headers: None,
        dest: "data_raw/"@ + store + "/"@ + fi.filename,
    }
}

pub fn publish_price_downloads(store_name: &str, data_url: &str, candidates: Vec<FileInfo>) -> (r:
    Vec<Download>)
    ensures
        dl_views(r@) == fi_views(candidates@).map_values(
            |fi: FileInfoV| spec_publish_price_download(store_name@, data_url@, fi),
        ),
{
    let ghost target = fi_views(candidates@).map_values(
        |fi: FileInfoV| spec_publish_price_download(store_name@, data_url@, fi),
    );
    let mut out: Vec<Download> = Vec::new();
    let n = candidates.len();
    let mut i: usize = 0;
    proof {
        assert(dl_views(out@) =~= target.take(0int));
    }
    while i < n
        invariant
            0 <= i <= n,
            n == candidates@.len(),
            target == fi_views(candidates@).map_values(
                |fi: FileInfoV| spec_publish_price_download(store_name@, data_url@, fi),
            ),
            dl_views(out@) == target.take(i as int),
        decreases n - i,
    {
        let ghost before = dl_views(out@);
        let fi = &candidates[i];
        let path = crate::strutil::str_concat(data_url, fi.filename.as_str());
        let dest = dest_path(store_name, fi.filename.as_str());
        let d = Download { store: store_name.to_owned(), path, headers: None, dest };
        proof {
            assert(fi_views(candidates@)[i as int] == candidates@[i as int]@);
            assert(d@ == spec_publish_price_download(store_name@, data_url@, fi@));
        }
        out.push(d);
        proof {
            assert(dl_views(out@) =~= before.push(d@));
            assert(dl_views(out@) =~= target.take(i + 1));
        }
        i = i + 1;
    }
    proof {
        assert(target.take(n as int) =~= target);
    }
    out
}

// ---------------------------------------------------------------------------
// ChainFilteredCatalog portal (matrix): one catalog page shared by several
// legally distinct chains; rows are kept when the chain-name column equals
// the configured discriminator.
// ---------------------------------------------------------------------------

/// Scrapes the shared catalog's data rows.
pub fn matrix_page_rows(html: &str) -> (r: Result<Vec<(String, String)>, AdapterError>)
    ensures
        match r {
            Ok(v) => matrix_table_rows(html@) == Some(pair_views(v@)),
            Err(e) => matrix_table_rows(html@) is None && e == AdapterError::StructureMismatch,
        },
{
    match scrape_matrix_rows(html) {
        Some(v) => Ok(v),
        None => Err(AdapterError::StructureMismatch),
    }
}

/// The links of the rows whose chain-name column is exactly `chain`.
pub open spec fn matrix_filtered(
    rows: Seq<(Seq<char>, Seq<char>)>,
    chain: Seq<char>,
) -> Seq<Seq<char>>
    decreases rows.len(),
{
    if rows.len() == 0 {
        Seq::empty()
    } else {
        matrix_filtered(rows.drop_last(), chain).add(
            if rows.last().0 == chain {
                seq![rows.last().1]
            } else {
                Seq::empty()
            },
        )
    }
}

pub fn matrix_links(rows: Vec<(String, String)>, chain: &str) -> (r: Vec<String>)
    ensures
        str_views(r@) == matrix_filtered(pair_views(rows@), chain@),
{
    let ghost pv = pair_views(rows@);
    let mut out: Vec<String> = Vec::new();
    let n = rows.len();
    let mut i: usize = 0;
    proof {
        assert(str_views(out@) =~= matrix_filtered(pv.take(0int), chain@));
    }
    while i < n
        invariant
            0 <= i <= n,
            n == rows@.len(),
            pv == pair_views(rows@),
            str_views(out@) == matrix_filtered(pv.take(i as int), chain@),
        decreases n - i,
    {
        let ghost before = str_views(out@);
        proof {
            assert(pv.take(i + 1).drop_last() =~= pv.take(i as int));
            assert(pv.take(i + 1).last() == pv[i as int]);
            assert(pv[i as int] == (rows@[i as int].0@, rows@[i as int].1@));
        }
        if crate::strutil::str_eq(rows[i].0.as_str(), chain) {
            let link = rows[i].1.clone();
            out.push(link);
            proof {
                assert(str_views(out@) =~= before.push(rows@[i as int].1@));
                assert(str_views(out@) =~= matrix_filtered(pv.take(i + 1), chain@));
            }
        } else {
            proof {
                assert(matrix_filtered(pv.take(i + 1), chain@) =~= before);
            }
        }
        i = i + 1;
    }
    proof {
        assert(pv.take(n as int) =~= pv);
    }
    out
}

/// Parses the filtered rows' links and winnows them.
pub fn matrix_candidates(
    rows: Vec<(String, String)>,
    chain: &str,
    file_limit: Option<usize>,
) -> (r: Vec<FileInfo>)
    ensures
        recents_selection(
            parsed_interesting(matrix_filtered(pair_views(rows@), chain@)),
            file_limit,
            fi_views(r@),
        ),
{
    let links = matrix_links(rows, chain);
    FileInfo::from_str_iter(links, file_limit)
}

/// The catalog's links are relative; the descriptor fetches them under the
/// portal's host, keeping the discovered link in `source`.
pub open spec fn spec_matrix_download(store: Seq<char>, fi: FileInfoV) -> DownloadV {
    DownloadV {
        store: store,
        path: "http://matrixcatalog.co.il/"@ + fi.source,
        headers: None,
        dest: "data_raw/"@ + store + "/"@ + fi.filename,
    }
}

pub fn matrix_downloads(store_name: &str, candidates: Vec<FileInfo>) -> (r: Vec<Download>)
    ensures
        dl_views(r@) == fi_views(candidates@).map_values(
            |fi: FileInfoV| spec_matrix_download(store_name@, fi),
        ),
{
    let ghost target = fi_views(candidates@).map_values(
        |fi: FileInfoV| spec_matrix_download(store_name@, fi),
    );
    let mut out: Vec<Download> = Vec::new();
    let n = candidates.len();
    let mut i: usize = 0;
    proof {
        assert(dl_views(out@) =~= target.take(0int));
    }
    while i < n
        invariant
            0 <= i <= n,
            n == candidates@.len(),
            target == fi_views(candidates@).map_values(
                |fi: FileInfoV| spec_matrix_download(store_name@, fi),
            ),
            dl_views(out@) == target.take(i as int),
        decreases n - i,
    {
        let ghost before = dl_views(out@);
        let fi = &candidates[i];
        let path = crate::strutil::str_concat("http://matrixcatalog.co.il/", fi.source.as_str());
        let dest = dest_path(store_name, fi.filename.as_str());
        let d = Download { store: store_name.to_owned(), path, headers: None, dest };
        proof {
            assert(fi_views(candidates@)[i as int] == candidates@[i as int]@);
            assert(d@ == spec_matrix_download(store_name@, fi@));
        }
        out.push(d);
        proof {
            assert(dl_views(out@) =~= before.push(d@));
            assert(dl_views(out@) =~= target.take(i + 1));
        }
        i = i + 1;
    }
    proof {
        assert(target.take(n as int) =~= target);
    }
    out
}

} // verus!
