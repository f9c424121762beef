//! Filename identities for the disclosure files that the portals publish.
//!
//! A raw link or filename is parsed into a typed key: a category (by an
//! ordered, case-sensitive prefix table), a chain key, a store key and a
//! timestamp. The timestamp is fixed-width and zero-padded, so plain
//! lexicographic comparison orders recency.

use vstd::prelude::*;

use crate::strutil::ends_with;
use crate::strutil::first_index_of;
use crate::strutil::find_first;
use crate::strutil::find_last;
use crate::strutil::last_index_of;
use crate::strutil::lex_le;
use crate::strutil::lex_lt;
use crate::strutil::lemma_first_index_of;
use crate::strutil::lemma_last_index_of;
use crate::strutil::split_on;
use crate::strutil::starts_with;
use crate::strutil::str_split;
use crate::strutil::str_starts_with;
use crate::strutil::str_ends_with;
use crate::strutil::str_views;

verus! {

/// Categories of disclosure files, told apart by their filename prefix.
#[derive(PartialEq, Eq, Structural, Copy, Clone, Debug, Hash)]
pub enum FileType {
    PriceFull,
    StoresFull,
    PromoFull,
    Price,
    Promo,
    Ignored,
}

impl FileType {
    /// Only full catalogs and full store lists are fetched; everything else
    /// is discovered and then discarded.
    pub fn is_interesting(self: &Self) -> (r: bool)
        ensures
            r == (*self == FileType::PriceFull || *self == FileType::StoresFull),
    {
        FileType::PriceFull == *self || *self == FileType::StoresFull
    }
}

/// A filename that matches no known prefix is a hard error: portal format
/// drift must surface instead of vanishing.
#[derive(PartialEq, Eq, Structural, Copy, Clone, Debug)]
pub enum ParseError {
    UnrecognizedFormat,
}

/// Mathematical image of a `FileInfo`.
pub ghost struct FileInfoV {
    pub file_type: FileType,
    pub chain: Seq<char>,
    pub store: Seq<char>,
    pub date: Seq<char>,
    pub filename: Seq<char>,
    pub source: Seq<char>,
    pub cookie: Seq<char>,
}

/// The identity of one published file.
#[derive(Debug)]
pub struct FileInfo {
    pub file_type: FileType,
    pub chain: String,
    pub store: String,
    pub date: String,
    pub filename: String,
    pub source: String,
    pub cookie: String,
}

impl View for FileInfo {
    type V = FileInfoV;

    open spec fn view(&self) -> FileInfoV {
        FileInfoV {
            file_type: self.file_type,
            chain: self.chain@,
            store: self.store@,
            date: self.date@,
            filename: self.filename@,
            source: self.source@,
            cookie: self.cookie@,
        }
    }
}

pub open spec fn fi_views(s: Seq<FileInfo>) -> Seq<FileInfoV> {
    s.map_values(|f: FileInfo| f@)
}

// ---------------------------------------------------------------------------
// Parsing.
// ---------------------------------------------------------------------------

/// The bare filename of a link: what follows the last `/` and precedes the
/// first `?`.
pub open spec fn spec_bare_filename(s: Seq<char>) -> Seq<char> {
    let t = if last_index_of(s, '/') == -1 {
        s
    } else {
        s.skip(last_index_of(s, '/') + 1)
    };
    if first_index_of(t, '?') == -1 {
        t
    } else {
        t.take(first_index_of(t, '?'))
    }
}

/// The ordered, case-sensitive prefix table. The result holds the category
/// and the matched prefix; known noise names map to `Ignored` with an empty
/// prefix, and anything else is unrecognized.
pub open spec fn spec_prefix_entry(name: Seq<char>) -> Option<(FileType, Seq<char>)> {
    if starts_with(name, "PriceFull"@) {
        Some((FileType::PriceFull, "PriceFull"@))
    } else if starts_with(name, "pricefull"@) {
        Some((FileType::PriceFull, "pricefull"@))
    } else if starts_with(name, "StoresFull"@) {
        Some((FileType::StoresFull, "StoresFull"@))
    } else if starts_with(name, "storesfull"@) {
        Some((FileType::StoresFull, "storesfull"@))
    } else if starts_with(name, "Stores"@) {
        Some((FileType::StoresFull, "Stores"@))
    } else if starts_with(name, "PromoFull"@) {
        Some((FileType::PromoFull, "PromoFull"@))
    } else if starts_with(name, "Price"@) {
        Some((FileType::Price, "Price"@))
    } else if starts_with(name, "price"@) {
        Some((FileType::Price, "price"@))
    } else if starts_with(name, "Promo"@) {
        Some((FileType::Promo, "Promo"@))
    } else if starts_with(name, "promo"@) {
        Some((FileType::Promo, "promo"@))
    } else if starts_with(name, "NULL"@) || starts_with(name, "created"@) || starts_with(
        name,
        "Events"@,
    ) || starts_with(name, "New"@) || ends_with(name, ".jpg"@) || name.len() == 0 {
        Some((FileType::Ignored, Seq::empty()))
    } else {
        None
    }
}

pub open spec fn ignored_file_info() -> FileInfoV {
    FileInfoV {
        file_type: FileType::Ignored,
        chain: Seq::empty(),
        store: Seq::empty(),
        date: Seq::empty(),
        filename: Seq::empty(),
        source: Seq::empty(),
        cookie: Seq::empty(),
    }
}

/// What `parse` returns, on every input: a total function of the raw link.
pub open spec fn spec_parse(s: Seq<char>) -> Result<FileInfoV, ParseError> {
    let bare = spec_bare_filename(s);
    match spec_prefix_entry(bare) {
        None => Err(ParseError::UnrecognizedFormat),
        Some((ft, prefix)) => {
            if ft == FileType::Ignored {
                Ok(ignored_file_info())
            } else {
                let rest = bare.skip(prefix.len() as int);
                if first_index_of(rest, '.') == -1 {
                    Err(ParseError::UnrecognizedFormat)
                } else {
                    let left = rest.take(first_index_of(rest, '.'));
                    let pieces = split_on(left, '-');
                    let fields = if pieces.len() > 3 {
                        pieces.skip(pieces.len() - 3)
                    } else {
                        pieces
                    };
                    if ft == FileType::StoresFull && fields.len() == 2 {
                        Ok(FileInfoV {
                            file_type: ft,
                            chain: fields[0],
                            store: Seq::empty(),
                            date: fields[1],
                            filename: bare,
                            source: s,
                            cookie: Seq::empty(),
                        })
                    } else if fields.len() == 3 {
                        Ok(FileInfoV {
                            file_type: ft,
                            chain: fields[0],
                            store: fields[1],
                            date: fields[2],
                            filename: bare,
                            source: s,
                            cookie: Seq::empty(),
                        })
                    } else {
                        Err(ParseError::UnrecognizedFormat)
                    }
                }
            }
        },
    }
}

pub open spec fn parse_result_view(r: Result<FileInfo, ParseError>) -> Result<
    FileInfoV,
    ParseError,
> {
    match r {
        Ok(f) => Ok(f@),
        Err(e) => Err(e),
    }
}

/// Matches `name` against the prefix table; returns the category and the
/// character length of the matched prefix.
fn match_prefix(name: &str) -> (r: Option<(FileType, usize)>)
    ensures
        match r {
            Some(p) => {
                &&& spec_prefix_entry(name@) matches Some(q)
                &&& q.0 == p.0
                &&& q.1.len() == p.1
                &&& p.1 <= name@.len()
            },
            None => spec_prefix_entry(name@) is None,
        },
{
    if str_starts_with(name, "PriceFull") {
        proof {
            reveal_strlit("PriceFull");
        }
        Some((FileType::PriceFull, 9))
    } else if str_starts_with(name, "pricefull") {
        proof {
            reveal_strlit("pricefull");
        }
        Some((FileType::PriceFull, 9))
    } else if str_starts_with(name, "StoresFull") {
        proof {
            reveal_strlit("StoresFull");
        }
        Some((FileType::StoresFull, 10))
    } else if str_starts_with(name, "storesfull") {
        proof {
            reveal_strlit("storesfull");
        }
        Some((FileType::StoresFull, 10))
    } else if str_starts_with(name, "Stores") {
        proof {
            reveal_strlit("Stores");
        }
        Some((FileType::StoresFull, 6))
    } else if str_starts_with(name, "PromoFull") {
        proof {
            reveal_strlit("PromoFull");
        }
        Some((FileType::PromoFull, 9))
    } else if str_starts_with(name, "Price") {
        proof {
            reveal_strlit("Price");
        }
        Some((FileType::Price, 5))
    } else if str_starts_with(name, "price") {
        proof {
            reveal_strlit("price");
        }
        Some((FileType::Price, 5))
    } else if str_starts_with(name, "Promo") {
        proof {
            reveal_strlit("Promo");
        }
        Some((FileType::Promo, 5))
    } else if str_starts_with(name, "promo") {
        proof {
            reveal_strlit("promo");
        }
        Some((FileType::Promo, 5))
    } else if str_starts_with(name, "NULL") || str_starts_with(name, "created") || str_starts_with(
        name,
        "Events",
    ) || str_starts_with(name, "New") || str_ends_with(name, ".jpg") || name.unicode_len() == 0 {
        Some((FileType::Ignored, 0))
    } else {
        None
    }
}

impl FileInfo {
    /// Parses a raw filename or URL into a typed identity.
    ///
    /// Deterministic and total: for every input the result, success or
    /// error, is the one `spec_parse` gives.
    pub fn parse(s: &str) -> (r: Result<FileInfo, ParseError>)
        ensures
            parse_result_view(r) == spec_parse(s@),
    {
        let after_slash: &str = match find_last(s, '/') {
            None => s,
            Some(i) => {
                proof {
                    lemma_last_index_of(s@, '/');
                }
                let n = s.unicode_len();
                s.substring_char(i + 1, n)
            },
        };
        let bare: &str = match find_first(after_slash, '?') {
            None => after_slash,
            Some(i) => {
                proof {
                    lemma_first_index_of(after_slash@, '?');
                }
                after_slash.substring_char(0, i)
            },
        };
        proof {
            assert(after_slash@ =~= if last_index_of(s@, '/') == -1 {
                s@
            } else {
                s@.skip(last_index_of(s@, '/') + 1)
            });
            assert(bare@ =~= spec_bare_filename(s@));
        }
        match match_prefix(bare) {
            None => Err(ParseError::UnrecognizedFormat),
            Some((ft, plen)) => {
                if ft == FileType::Ignored {
                    Ok(FileInfo {
                        file_type: FileType::Ignored,
                        chain: String::new(),
                        store: String::new(),
                        date: String::new(),
                        filename: String::new(),
                        source: String::new(),
                        cookie: String::new(),
                    })
                } else {
                    let n_bare = bare.unicode_len();
                    let rest = bare.substring_char(plen, n_bare);
                    proof {
                        let prefix = spec_prefix_entry(bare@)->Some_0.1;
                        assert(rest@ =~= bare@.skip(prefix.len() as int));
                    }
                    match find_first(rest, '.') {
                        None => Err(ParseError::UnrecognizedFormat),
                        Some(dot) => {
                            proof {
                                lemma_first_index_of(rest@, '.');
                            }
                            let left = rest.substring_char(0, dot);
                            assert(left@ =~= rest@.take(first_index_of(rest@, '.')));
                            let pieces = str_split(left, '-');
                            let ghost spieces = split_on(left@, '-');
                            let np = pieces.len();
                            proof {
                                assert(str_views(pieces@).len() == spieces.len());
                            }
                            let start = if np > 3 {
                                np - 3
                            } else {
                                0
                            };
                            let count = np - start;
                            let ghost fields = if spieces.len() > 3 {
                                spieces.skip(spieces.len() - 3)
                            } else {
                                spieces
                            };
                            proof {
                                assert forall|k: int| 0 <= k < count implies pieces@[
                                    start + k
                                ]@ == fields[k] by {
                                    assert(str_views(pieces@)[start + k] == pieces@[start + k]@);
                                }
                            }
                            if ft == FileType::StoresFull && count == 2 {
                                Ok(FileInfo {
                                    file_type: ft,
                                    chain: pieces[start].clone(),
                                    store: String::new(),
                                    date: pieces[start + 1].clone(),
                                    filename: bare.to_owned(),
                                    source: s.to_owned(),
                                    cookie: String::new(),
                                })
                            } else if count == 3 {
                                Ok(FileInfo {
                                    file_type: ft,
                                    chain: pieces[start].clone(),
                                    store: pieces[start + 1].clone(),
                                    date: pieces[start + 2].clone(),
                                    filename: bare.to_owned(),
                                    source: s.to_owned(),
                                    cookie: String::new(),
                                })
                            } else {
                                Err(ParseError::UnrecognizedFormat)
                            }
                        },
                    }
                }
            },
        }
    }

    pub fn is_interesting(self: &Self) -> (r: bool)
        ensures
            r == (self@.file_type == FileType::PriceFull || self@.file_type
                == FileType::StoresFull),
    {
        self.file_type.is_interesting()
    }

    /// The same identity with `source` replaced.
    pub fn with_source(self: Self, source: &str) -> (r: Self)
        ensures
            r@ == (FileInfoV { source: source@, ..self@ }),
    {
        FileInfo { source: source.to_owned(), ..self }
    }

    /// The same identity with `cookie` replaced.
    pub fn with_cookie(self: Self, cookie: &str) -> (r: Self)
        ensures
            r@ == (FileInfoV { cookie: cookie@, ..self@ }),
    {
        FileInfo { cookie: cookie.to_owned(), ..self }
    }

    /// The grouping key: category, chain and store.
    pub fn key(self: &Self) -> (r: (FileType, String, String))
        ensures
            r.0 == self@.file_type,
            r.1@ == self@.chain,
            r.2@ == self@.store,
    {
        (self.file_type, self.chain.clone(), self.store.clone())
    }

    /// An identical copy, field for field.
    pub fn duplicate(self: &Self) -> (r: Self)
        ensures
            r@ == self@,
    {
        FileInfo {
            file_type: self.file_type,
            chain: self.chain.clone(),
            store: self.store.clone(),
            date: self.date.clone(),
            filename: self.filename.clone(),
            source: self.source.clone(),
            cookie: self.cookie.clone(),
        }
    }
}


// ---------------------------------------------------------------------------
// Version selection: one winner per slot, by most recent timestamp.
// ---------------------------------------------------------------------------

/// The key under which file versions compete for recency. Full store lists
/// are keyed by category and chain alone; everything else also by store.
pub ghost struct SlotV {
    pub file_type: FileType,
    pub chain: Seq<char>,
    pub store: Seq<char>,
}

pub open spec fn is_stores(v: FileInfoV) -> bool {
    v.file_type == FileType::StoresFull
}

pub open spec fn slot_of(v: FileInfoV) -> SlotV {
    SlotV {
        file_type: v.file_type,
        chain: v.chain,
        store: if is_stores(v) {
            Seq::empty()
        } else {
            v.store
        },
    }
}

pub open spec fn slot_in(s: Seq<FileInfoV>, sl: SlotV) -> bool {
    exists|i: int| 0 <= i < s.len() && #[trigger] slot_of(s[i]) == sl
}

/// `v` is one of `input`'s entries and no entry sharing its slot has a more
/// recent timestamp.
pub open spec fn max_in_slot(input: Seq<FileInfoV>, v: FileInfoV) -> bool {
    &&& input.contains(v)
    &&& forall|j: int|
        0 <= j < input.len() && slot_of(#[trigger] input[j]) == slot_of(v) ==> lex_le(
            input[j].date,
            v.date,
        )
}

/// How many entries are not full store lists.
pub open spec fn nonstores_count(s: Seq<FileInfoV>) -> int
    decreases s.len(),
{
    if s.len() == 0 {
        0
    } else {
        nonstores_count(s.drop_last()) + if is_stores(s.last()) {
            0int
        } else {
            1int
        }
    }
}

/// How many distinct slots the non-store-list entries occupy.
pub open spec fn distinct_nonstore_slots(s: Seq<FileInfoV>) -> int
    decreases s.len(),
{
    if s.len() == 0 {
        0
    } else {
        distinct_nonstore_slots(s.drop_last()) + if !is_stores(s.last()) && !slot_in(
            s.drop_last(),
            slot_of(s.last()),
        ) {
            1int
        } else {
            0int
        }
    }
}

/// What the selector guarantees: every result is a most-recent entry of its
/// slot; slots are not repeated; every store-list slot survives, whatever the
/// limit; with no limit every slot survives; with a limit the non-store part
/// is cut to the limit or to the number of slots, whichever is smaller; and
/// store lists come first.
pub open spec fn recents_selection(
    inp: Seq<FileInfoV>,
    limit: Option<usize>,
    out: Seq<FileInfoV>,
) -> bool {
    &&& forall|i: int| 0 <= i < out.len() ==> max_in_slot(inp, #[trigger] out[i])
    &&& forall|i: int, j: int|
        0 <= i < j < out.len() ==> slot_of(#[trigger] out[i]) != slot_of(#[trigger] out[j])
    &&& forall|j: int|
        0 <= j < inp.len() && is_stores(#[trigger] inp[j]) ==> slot_in(out, slot_of(inp[j]))
    &&& (limit is None ==> forall|j: int|
        0 <= j < inp.len() ==> slot_in(out, slot_of(#[trigger] inp[j])))
    &&& (limit matches Some(l) ==> nonstores_count(out) == vstd::math::min(
        l as int,
        distinct_nonstore_slots(inp),
    ))
    &&& forall|i: int, j: int|
        0 <= i <= j < out.len() && is_stores(#[trigger] out[j]) ==> is_stores(#[trigger] out[i])
}

// ---------------------------------------------------------------------------
// Order lemmas for the timestamp comparison.
// ---------------------------------------------------------------------------

proof fn lemma_lex_lt_trans(a: Seq<char>, b: Seq<char>, c: Seq<char>)
    requires
        lex_lt(a, b),
        lex_lt(b, c),
    ensures
        lex_lt(a, c),
    decreases a.len(),
{
    if a.len() > 0 && b.len() > 0 && c.len() > 0 {
        if (a[0] as int) == (b[0] as int) && (b[0] as int) == (c[0] as int) {
            lemma_lex_lt_trans(a.skip(1), b.skip(1), c.skip(1));
        }
    }
}

proof fn lemma_lex_le_lt_trans(a: Seq<char>, b: Seq<char>, c: Seq<char>)
    requires
        lex_le(a, b),
        lex_lt(b, c),
    ensures
        lex_lt(a, c),
{
    if a != b {
        lemma_lex_lt_trans(a, b, c);
    }
}

/// Any two timestamps compare: the order is total.
proof fn lemma_lex_connex(a: Seq<char>, b: Seq<char>)
    ensures
        lex_lt(a, b) || lex_lt(b, a) || a == b,
    decreases a.len(),
{
    if a.len() == 0 && b.len() == 0 {
        assert(a =~= b);
    } else if a.len() > 0 && b.len() > 0 {
        if (a[0] as int) == (b[0] as int) {
            lemma_lex_connex(a.skip(1), b.skip(1));
            if a.skip(1) == b.skip(1) {
                assert(a =~= b) by {
                    assert(a.len() == 1 + a.skip(1).len());
                    assert(b.len() == 1 + b.skip(1).len());
                    assert forall|i: int| 0 <= i < a.len() implies a[i] == b[i] by {
                        if i > 0 {
                            assert(a.skip(1)[i - 1] == a[i]);
                            assert(b.skip(1)[i - 1] == b[i]);
                        }
                    }
                }
            }
        }
    }
}

// ---------------------------------------------------------------------------
// The selector.
// ---------------------------------------------------------------------------

/// First index of `sl` among the slots of `s`, or -1 when absent.
pub open spec fn slot_index(s: Seq<FileInfoV>, sl: SlotV) -> int
    decreases s.len(),
{
    if s.len() == 0 {
        -1
    } else if slot_of(s[0]) == sl {
        0
    } else if slot_index(s.skip(1), sl) == -1 {
        -1
    } else {
        1 + slot_index(s.skip(1), sl)
    }
}

proof fn lemma_slot_index(s: Seq<FileInfoV>, sl: SlotV)
    ensures
        -1 <= slot_index(s, sl) < s.len(),
        slot_index(s, sl) == -1 ==> forall|i: int| 0 <= i < s.len() ==> slot_of(#[trigger] s[i])
            != sl,
        slot_index(s, sl) >= 0 ==> slot_of(s[slot_index(s, sl)]) == sl,
        forall|i: int| 0 <= i < slot_index(s, sl) ==> slot_of(#[trigger] s[i]) != sl,
    decreases s.len(),
{
    if s.len() > 0 && slot_of(s[0]) != sl {
        lemma_slot_index(s.skip(1), sl);
        let r1 = slot_index(s.skip(1), sl);
        if r1 == -1 {
            assert forall|i: int| 0 <= i < s.len() implies slot_of(#[trigger] s[i]) != sl by {
                if i > 0 {
                    assert(s.skip(1)[i - 1] == s[i]);
                    assert(slot_of(s.skip(1)[i - 1]) != sl);
                }
            }
        } else {
            assert(s.skip(1)[r1] == s[1 + r1]);
            assert forall|i: int| 0 <= i < 1 + r1 implies slot_of(#[trigger] s[i]) != sl by {
                if i > 0 {
                    assert(s.skip(1)[i - 1] == s[i]);
                    assert(slot_of(s.skip(1)[i - 1]) != sl);
                }
            }
        }
    }
}

/// Whether two identities fall in the same slot.
fn same_slot(a: &FileInfo, b: &FileInfo) -> (r: bool)
    ensures
        r == (slot_of(a@) == slot_of(b@)),
{
    if !(a.file_type == b.file_type) {
        return false;
    }
    if !(a.chain == b.chain) {
        return false;
    }
    if a.file_type == FileType::StoresFull {
        true
    } else {
        a.store == b.store
    }
}

/// Inserts `fi` into the winner list of its slot: appended when its slot is
/// new, replacing the current winner when strictly more recent, dropped
/// otherwise.
fn upsert_recent(winners: &mut Vec<FileInfo>, fi: FileInfo)
    ensures
        ({
            let oldv = fi_views(old(winners)@);
            let newv = fi_views(final(winners)@);
            let k = slot_index(oldv, slot_of(fi@));
            &&& (k == -1 ==> newv == oldv.push(fi@))
            &&& (k >= 0 && lex_lt(oldv[k].date, fi@.date) ==> newv == oldv.update(k, fi@))
            &&& (k >= 0 && !lex_lt(oldv[k].date, fi@.date) ==> newv == oldv)
        }),
{
    let ghost oldv = fi_views(winners@);
    let ghost sl = slot_of(fi@);
    let n = winners.len();
    let mut i: usize = 0;
    while i < n
        invariant
            0 <= i <= n,
            n == winners@.len(),
            winners@ == old(winners)@,
            oldv == fi_views(winners@),
            sl == slot_of(fi@),
            forall|j: int| 0 <= j < i ==> slot_of(#[trigger] oldv[j]) != sl,
        decreases n - i,
    {
        proof {
            assert(oldv[i as int] == winners@[i as int]@);
        }
        if same_slot(&winners[i], &fi) {
            proof {
                lemma_slot_index(oldv, sl);
                let k = slot_index(oldv, sl);
                assert(k != -1);
                assert(!(k < i)) by {
                    if 0 <= k < i {
                        assert(slot_of(oldv[k]) != sl);
                    }
                }
                assert(!(k > i)) by {
                    if k > i {
                        assert(slot_of(oldv[i as int]) != sl);
                    }
                }
            }
            if crate::strutil::str_lt(winners[i].date.as_str(), fi.date.as_str()) {
                let ghost before = winners@;
                let _ = winners.remove(i);
                winners.insert(i, fi);
                proof {
                    assert(winners@ =~= before.update(i as int, winners@[i as int]));
                    assert(fi_views(winners@) =~= oldv.update(i as int, fi@));
                }
            }
            return ;
        }
        i = i + 1;
    }
    proof {
        lemma_slot_index(oldv, sl);
        let k = slot_index(oldv, sl);
        if k >= 0 {
            assert(slot_of(oldv[k]) != sl);
        }
    }
    let ghost before = winners@;
    winners.push(fi);
    proof {
        assert(fi_views(winners@) =~= oldv.push(fi@));
    }
}

impl FileInfo {
    /// Keeps, per slot, the entry with the most recent timestamp. Store
    /// lists are never cut; with a limit the other winners are cut to the
    /// limit. Store-list winners come first in the result.
    pub fn keep_most_recents(data: Vec<FileInfo>, file_limit: Option<usize>) -> (r: Vec<FileInfo>)
        ensures
            recents_selection(fi_views(data@), file_limit, fi_views(r@)),
    {
        let ghost inp = fi_views(data@);
        let mut stores: Vec<FileInfo> = Vec::new();
        let mut non_stores: Vec<FileInfo> = Vec::new();
        let n = data.len();
        let mut i: usize = 0;
        while i < n
            invariant
                0 <= i <= n,
                n == data@.len(),
                inp == fi_views(data@),
                forall|w: int|
                    0 <= w < fi_views(stores@).len() ==> is_stores(#[trigger] fi_views(stores@)[w]),
                forall|w: int|
                    0 <= w < fi_views(non_stores@).len() ==> !is_stores(
                        #[trigger] fi_views(non_stores@)[w],
                    ),
                forall|w: int|
                    0 <= w < fi_views(stores@).len() ==> max_in_slot(
                        inp.take(i as int),
                        #[trigger] fi_views(stores@)[w],
                    ),
                forall|w: int|
                    0 <= w < fi_views(non_stores@).len() ==> max_in_slot(
                        inp.take(i as int),
                        #[trigger] fi_views(non_stores@)[w],
                    ),
                forall|w: int, x: int|
                    0 <= w < x < fi_views(stores@).len() ==> slot_of(#[trigger] fi_views(stores@)[w])
                        != slot_of(#[trigger] fi_views(stores@)[x]),
                forall|w: int, x: int|
                    0 <= w < x < fi_views(non_stores@).len() ==> slot_of(
                        #[trigger] fi_views(non_stores@)[w],
                    ) != slot_of(#[trigger] fi_views(non_stores@)[x]),
                forall|j: int|
                    0 <= j < i && is_stores(#[trigger] inp[j]) ==> slot_in(
                        fi_views(stores@),
                        slot_of(inp[j]),
                    ),
                forall|j: int|
                    0 <= j < i && !is_stores(#[trigger] inp[j]) ==> slot_in(
                        fi_views(non_stores@),
                        slot_of(inp[j]),
                    ),
                fi_views(non_stores@).len() == distinct_nonstore_slots(inp.take(i as int)),
            decreases n - i,
        {
            let fi = data[i].duplicate();
            proof {
                assert(inp[i as int] == data@[i as int]@);
                assert(inp.take(i + 1).drop_last() =~= inp.take(i as int));
                assert(inp.take(i + 1).last() == fi@);
            }
            let is_st = fi.file_type == FileType::StoresFull;
            if is_st {
                let ghost oldw = fi_views(stores@);
                proof {
                    lemma_slot_index(oldw, slot_of(fi@));
                }
                upsert_recent(&mut stores, fi);
                proof {
                    keep_step_update(inp, i as int, oldw, fi_views(stores@), true);
                    nonstores_unchanged_step(inp, i as int, fi_views(non_stores@));
                }
            } else {
                let ghost oldw = fi_views(non_stores@);
                proof {
                    lemma_slot_index(oldw, slot_of(fi@));
                }
                upsert_recent(&mut non_stores, fi);
                proof {
                    keep_step_update(inp, i as int, oldw, fi_views(non_stores@), false);
                    stores_unchanged_step(inp, i as int, fi_views(stores@));
                    count_step(inp, i as int, oldw, fi_views(non_stores@));
                }
            }
            i = i + 1;
        }
        proof {
            assert(inp.take(n as int) =~= inp);
        }
        let mut result = stores;
        let mut tail = non_stores;
        match file_limit {
            Some(l) => {
                let ghost pre = fi_views(tail@);
                tail.truncate(l);
                proof {
                    assert(fi_views(tail@) =~= pre.take(
                        vstd::math::min(l as int, pre.len() as int),
                    ));
                    lemma_nonstores_count_all(fi_views(tail@));
                }
            },
            None => {
            },
        }
        let ghost spart = fi_views(result@);
        let ghost npart = fi_views(tail@);
        result.append(&mut tail);
        proof {
            assert(fi_views(result@) =~= spart.add(npart));
            lemma_selection_assembled(inp, file_limit, spart, npart);
        }
        result
    }
}

/// A sequence of store-list entries holds no non-store entries, and the
/// other way round.
proof fn lemma_nonstores_count_all(s: Seq<FileInfoV>)
    ensures
        (forall|i: int| 0 <= i < s.len() ==> !is_stores(#[trigger] s[i])) ==> nonstores_count(s)
            == s.len(),
        (forall|i: int| 0 <= i < s.len() ==> is_stores(#[trigger] s[i])) ==> nonstores_count(s)
            == 0,
    decreases s.len(),
{
    if s.len() > 0 {
        lemma_nonstores_count_all(s.drop_last());
        assert(forall|i: int|
            0 <= i < s.len() - 1 ==> #[trigger] s.drop_last()[i] == s[i]);
    }
}

proof fn lemma_nonstores_count_add(a: Seq<FileInfoV>, b: Seq<FileInfoV>)
    ensures
        nonstores_count(a.add(b)) == nonstores_count(a) + nonstores_count(b),
    decreases b.len(),
{
    if b.len() == 0 {
        assert(a.add(b) =~= a);
    } else {
        lemma_nonstores_count_add(a, b.drop_last());
        assert(a.add(b).drop_last() =~= a.add(b.drop_last()));
        assert(a.add(b).last() == b.last());
    }
}

/// One upsert step preserves the per-list invariants with the prefix grown
/// by the processed entry.
proof fn keep_step_update(
    inp: Seq<FileInfoV>,
    i: int,
    oldw: Seq<FileInfoV>,
    neww: Seq<FileInfoV>,
    stores_side: bool,
)
    requires
        0 <= i < inp.len(),
        is_stores(inp[i]) == stores_side,
        forall|w: int| 0 <= w < oldw.len() ==> is_stores(#[trigger] oldw[w]) == stores_side,
        forall|w: int| 0 <= w < oldw.len() ==> max_in_slot(inp.take(i), #[trigger] oldw[w]),
        forall|w: int, x: int|
            0 <= w < x < oldw.len() ==> slot_of(#[trigger] oldw[w]) != slot_of(#[trigger] oldw[x]),
        forall|j: int|
            0 <= j < i && is_stores(#[trigger] inp[j]) == stores_side ==> slot_in(
                oldw,
                slot_of(inp[j]),
            ),
        ({
            let k = slot_index(oldw, slot_of(inp[i]));
            &&& (k == -1 ==> neww == oldw.push(inp[i]))
            &&& (k >= 0 && lex_lt(oldw[k].date, inp[i].date) ==> neww == oldw.update(k, inp[i]))
            &&& (k >= 0 && !lex_lt(oldw[k].date, inp[i].date) ==> neww == oldw)
        }),
    ensures
        forall|w: int| 0 <= w < neww.len() ==> is_stores(#[trigger] neww[w]) == stores_side,
        forall|w: int| 0 <= w < neww.len() ==> max_in_slot(inp.take(i + 1), #[trigger] neww[w]),
        forall|w: int, x: int|
            0 <= w < x < neww.len() ==> slot_of(#[trigger] neww[w]) != slot_of(#[trigger] neww[x]),
        forall|j: int|
            0 <= j < i + 1 && is_stores(#[trigger] inp[j]) == stores_side ==> slot_in(
                neww,
                slot_of(inp[j]),
            ),
{
    let v = inp[i];
    let sl = slot_of(v);
    let p = inp.take(i);
    let p1 = inp.take(i + 1);
    lemma_slot_index(oldw, sl);
    let k = slot_index(oldw, sl);
    assert(p1.drop_last() =~= p);
    assert(p1.last() == v);
    assert(p1[i] == v);
    assert(forall|j: int| 0 <= j < i ==> #[trigger] p1[j] == p[j]);
    if k == -1 {
        // New slot: appended at the end.
        assert(neww == oldw.push(v));
        assert(neww[neww.len() - 1] == v);
        // No processed entry occupies this slot, else coverage would name a
        // winner with it.
        assert forall|j: int| 0 <= j < i implies slot_of(#[trigger] p[j]) != sl by {
            if slot_of(p[j]) == sl {
                assert(p[j] == inp[j]);
                if is_stores(inp[j]) == stores_side {
                    assert(slot_in(oldw, slot_of(inp[j])));
                    let w = choose|w: int|
                        0 <= w < oldw.len() && #[trigger] slot_of(oldw[w]) == slot_of(inp[j]);
                    assert(slot_of(oldw[w]) != sl);
                } else {
                    assert(slot_of(inp[j]).file_type == inp[j].file_type);
                    assert(sl.file_type == v.file_type);
                }
            }
        }
        assert forall|w: int| 0 <= w < neww.len() implies max_in_slot(p1, #[trigger] neww[w]) by {
            if w < oldw.len() {
                assert(neww[w] == oldw[w]);
                assert(max_in_slot(p, oldw[w]));
                let ghost e = oldw[w];
                assert(p.contains(e));
                let x = choose|x: int| 0 <= x < p.len() && p[x] == e;
                assert(p1[x] == e);
                assert(p1.contains(e));
                assert forall|j: int|
                    0 <= j < p1.len() && slot_of(#[trigger] p1[j]) == slot_of(e) implies lex_le(
                    p1[j].date,
                    e.date,
                ) by {
                    if j < i {
                        assert(p[j] == p1[j]);
                    } else {
                        // The new entry's slot is not any old winner's slot.
                        assert(slot_of(oldw[w]) != sl || k != -1);
                        assert(false);
                    }
                }
            } else {
                assert(neww[w] == v);
                assert(p1.contains(v)) by {
                    assert(p1[i] == v);
                }
                assert forall|j: int|
                    0 <= j < p1.len() && slot_of(#[trigger] p1[j]) == sl implies lex_le(
                    p1[j].date,
                    v.date,
                ) by {
                    if j < i {
                        assert(slot_of(p[j]) != sl);
                        assert(false);
                    } else {
                        lemma_lex_connex(p1[j].date, v.date);
                    }
                }
            }
        }
        assert forall|w: int, x: int| 0 <= w < x < neww.len() implies slot_of(
            #[trigger] neww[w],
        ) != slot_of(#[trigger] neww[x]) by {
            if x == neww.len() - 1 {
                assert(neww[w] == oldw[w]);
                assert(slot_of(oldw[w]) != sl);
            }
        }
        assert forall|j: int|
            0 <= j < i + 1 && is_stores(#[trigger] inp[j]) == stores_side implies slot_in(
            neww,
            slot_of(inp[j]),
        ) by {
            if j < i {
                let w = choose|w: int|
                    0 <= w < oldw.len() && #[trigger] slot_of(oldw[w]) == slot_of(inp[j]);
                assert(slot_of(neww[w]) == slot_of(inp[j]));
            } else {
                assert(slot_of(neww[neww.len() - 1]) == sl);
            }
        }
    } else {
        assert(slot_of(oldw[k]) == sl);
        // The slot is already occupied, by a winner drawn from the prefix.
        assert(max_in_slot(p, oldw[k]));
        if lex_lt(oldw[k].date, v.date) {
            assert(neww == oldw.update(k, v));
            assert(neww[k] == v);
            assert(forall|w: int| 0 <= w < neww.len() && w != k ==> #[trigger] neww[w] == oldw[w]);
            assert forall|w: int| 0 <= w < neww.len() implies max_in_slot(p1, #[trigger] neww[w]) by {
                if w == k {
                    assert(p1.contains(v)) by {
                        assert(p1[i] == v);
                    }
                    assert forall|j: int|
                        0 <= j < p1.len() && slot_of(#[trigger] p1[j]) == sl implies lex_le(
                        p1[j].date,
                        v.date,
                    ) by {
                        if j < i {
                            assert(p[j] == p1[j]);
                            assert(lex_le(p[j].date, oldw[k].date));
                            lemma_lex_le_lt_trans(p[j].date, oldw[k].date, v.date);
                        } else {
                            lemma_lex_connex(p1[j].date, v.date);
                        }
                    }
                } else {
                    assert(neww[w] == oldw[w]);
                    let ghost e = oldw[w];
                    assert(max_in_slot(p, e));
                    assert(p.contains(e));
                    let x = choose|x: int| 0 <= x < p.len() && p[x] == e;
                    assert(p1[x] == e);
                    assert(p1.contains(e));
                    assert forall|j: int|
                        0 <= j < p1.len() && slot_of(#[trigger] p1[j]) == slot_of(e) implies lex_le(
                        p1[j].date,
                        e.date,
                    ) by {
                        if j < i {
                            assert(p[j] == p1[j]);
                        } else {
                            // Distinctness: the updated slot is not this one.
                            assert(slot_of(e) != sl);
                            assert(false);
                        }
                    }
                }
            }
            assert forall|w: int, x: int| 0 <= w < x < neww.len() implies slot_of(
                #[trigger] neww[w],
            ) != slot_of(#[trigger] neww[x]) by {
                assert(slot_of(neww[w]) == slot_of(oldw[w]));
                assert(slot_of(neww[x]) == slot_of(oldw[x]));
            }
            assert forall|j: int|
                0 <= j < i + 1 && is_stores(#[trigger] inp[j]) == stores_side implies slot_in(
                neww,
                slot_of(inp[j]),
            ) by {
                if j < i {
                    let w = choose|w: int|
                        0 <= w < oldw.len() && #[trigger] slot_of(oldw[w]) == slot_of(inp[j]);
                    assert(slot_of(neww[w]) == slot_of(oldw[w]));
                } else {
                    assert(slot_of(neww[k]) == sl);
                }
            }
        } else {
            assert(neww == oldw);
            assert forall|w: int| 0 <= w < neww.len() implies max_in_slot(p1, #[trigger] neww[w]) by {
                let ghost e = neww[w];
                assert(max_in_slot(p, e));
                assert(p.contains(e));
                let x = choose|x: int| 0 <= x < p.len() && p[x] == e;
                assert(p1[x] == e);
                assert(p1.contains(e));
                assert forall|j: int|
                    0 <= j < p1.len() && slot_of(#[trigger] p1[j]) == slot_of(e) implies lex_le(
                    p1[j].date,
                    e.date,
                ) by {
                    if j < i {
                        assert(p[j] == p1[j]);
                    } else {
                        // Same slot as the kept winner; the kept winner is at
                        // least as recent.
                        assert(slot_of(e) == sl);
                        assert(w == k) by {
                            if w != k {
                                if w < k {
                                    assert(slot_of(oldw[w]) != slot_of(oldw[k]));
                                } else {
                                    assert(slot_of(oldw[k]) != slot_of(oldw[w]));
                                }
                            }
                        }
                        lemma_lex_connex(v.date, oldw[k].date);
                    }
                }
            }
            assert forall|j: int|
                0 <= j < i + 1 && is_stores(#[trigger] inp[j]) == stores_side implies slot_in(
                neww,
                slot_of(inp[j]),
            ) by {
                if j == i {
                    assert(slot_of(neww[k]) == sl);
                }
            }
        }
    }
}

/// The untouched list also satisfies its invariants for the longer prefix.
proof fn stores_unchanged_step(inp: Seq<FileInfoV>, i: int, w: Seq<FileInfoV>)
    requires
        0 <= i < inp.len(),
        !is_stores(inp[i]),
        forall|x: int| 0 <= x < w.len() ==> is_stores(#[trigger] w[x]),
        forall|x: int| 0 <= x < w.len() ==> max_in_slot(inp.take(i), #[trigger] w[x]),
    ensures
        forall|x: int| 0 <= x < w.len() ==> max_in_slot(inp.take(i + 1), #[trigger] w[x]),
{
    grow_prefix_other_class(inp, i, w);
}

proof fn nonstores_unchanged_step(inp: Seq<FileInfoV>, i: int, w: Seq<FileInfoV>)
    requires
        0 <= i < inp.len(),
        is_stores(inp[i]),
        forall|x: int| 0 <= x < w.len() ==> !is_stores(#[trigger] w[x]),
        forall|x: int| 0 <= x < w.len() ==> max_in_slot(inp.take(i), #[trigger] w[x]),
    ensures
        forall|x: int| 0 <= x < w.len() ==> max_in_slot(inp.take(i + 1), #[trigger] w[x]),
{
    grow_prefix_other_class(inp, i, w);
}

/// Growing the prefix by an entry of the other class cannot break a winner:
/// the new entry's slot names the other category.
proof fn grow_prefix_other_class(inp: Seq<FileInfoV>, i: int, w: Seq<FileInfoV>)
    requires
        0 <= i < inp.len(),
        forall|x: int| 0 <= x < w.len() ==> is_stores(#[trigger] w[x]) != is_stores(inp[i]),
        forall|x: int| 0 <= x < w.len() ==> max_in_slot(inp.take(i), #[trigger] w[x]),
    ensures
        forall|x: int| 0 <= x < w.len() ==> max_in_slot(inp.take(i + 1), #[trigger] w[x]),
{
    let p = inp.take(i);
    let p1 = inp.take(i + 1);
    assert(p1.drop_last() =~= p);
    assert(forall|j: int| 0 <= j < i ==> #[trigger] p1[j] == p[j]);
    assert(p1[i] == inp[i]);
    assert forall|x: int| 0 <= x < w.len() implies max_in_slot(p1, #[trigger] w[x]) by {
        let e = w[x];
        assert(p.contains(e));
        let y = choose|y: int| 0 <= y < p.len() && p[y] == e;
        assert(p1[y] == e);
        assert(p1.contains(e));
        assert forall|j: int|
            0 <= j < p1.len() && slot_of(#[trigger] p1[j]) == slot_of(e) implies lex_le(
            p1[j].date,
            e.date,
        ) by {
            if j < i {
                assert(p[j] == p1[j]);
            } else {
                assert(slot_of(inp[i]).file_type == inp[i].file_type);
                assert(slot_of(e).file_type == e.file_type);
                assert(is_stores(e) != is_stores(inp[i]));
                assert(false);
            }
        }
    }
}

/// The running winner count equals the number of distinct non-store slots of
/// the prefix.
proof fn count_step(inp: Seq<FileInfoV>, i: int, oldw: Seq<FileInfoV>, neww: Seq<FileInfoV>)
    requires
        0 <= i < inp.len(),
        !is_stores(inp[i]),
        forall|w: int| 0 <= w < oldw.len() ==> !is_stores(#[trigger] oldw[w]),
        forall|w: int| 0 <= w < oldw.len() ==> max_in_slot(inp.take(i), #[trigger] oldw[w]),
        forall|j: int|
            0 <= j < i && !is_stores(#[trigger] inp[j]) ==> slot_in(oldw, slot_of(inp[j])),
        oldw.len() == distinct_nonstore_slots(inp.take(i)),
        ({
            let k = slot_index(oldw, slot_of(inp[i]));
            &&& (k == -1 ==> neww == oldw.push(inp[i]))
            &&& (k >= 0 ==> neww.len() == oldw.len())
        }),
    ensures
        neww.len() == distinct_nonstore_slots(inp.take(i + 1)),
{
    let v = inp[i];
    let sl = slot_of(v);
    let p = inp.take(i);
    let p1 = inp.take(i + 1);
    assert(p1.drop_last() =~= p);
    assert(p1.last() == v);
    lemma_slot_index(oldw, sl);
    let k = slot_index(oldw, sl);
    if k == -1 {
        // The slot is new to the prefix as well.
        assert(!slot_in(p, sl)) by {
            if slot_in(p, sl) {
                let j = choose|j: int| 0 <= j < p.len() && #[trigger] slot_of(p[j]) == sl;
                assert(p[j] == inp[j]);
                assert(slot_of(inp[j]).file_type == inp[j].file_type);
                assert(!is_stores(inp[j]));
                assert(slot_in(oldw, slot_of(inp[j])));
                let w = choose|w: int|
                    0 <= w < oldw.len() && #[trigger] slot_of(oldw[w]) == slot_of(inp[j]);
                assert(slot_of(oldw[w]) != sl);
            }
        }
        assert(distinct_nonstore_slots(p1) == distinct_nonstore_slots(p) + 1);
        assert(neww.len() == oldw.len() + 1);
    } else {
        // Its winner came from the prefix, so the slot is not new.
        assert(slot_of(oldw[k]) == sl);
        assert(max_in_slot(p, oldw[k]));
        assert(p.contains(oldw[k]));
        let y = choose|y: int| 0 <= y < p.len() && p[y] == oldw[k];
        assert(slot_in(p, sl)) by {
            assert(slot_of(p[y]) == sl);
        }
        assert(distinct_nonstore_slots(p1) == distinct_nonstore_slots(p));
    }
}

/// Assembles the final postcondition from the two parts' invariants.
proof fn lemma_selection_assembled(
    inp: Seq<FileInfoV>,
    limit: Option<usize>,
    spart: Seq<FileInfoV>,
    npart: Seq<FileInfoV>,
)
    requires
        forall|w: int| 0 <= w < spart.len() ==> is_stores(#[trigger] spart[w]),
        forall|w: int| 0 <= w < npart.len() ==> !is_stores(#[trigger] npart[w]),
        forall|w: int| 0 <= w < spart.len() ==> max_in_slot(inp, #[trigger] spart[w]),
        forall|w: int| 0 <= w < npart.len() ==> max_in_slot(inp, #[trigger] npart[w]),
        forall|w: int, x: int|
            0 <= w < x < spart.len() ==> slot_of(#[trigger] spart[w]) != slot_of(
                #[trigger] spart[x],
            ),
        forall|w: int, x: int|
            0 <= w < x < npart.len() ==> slot_of(#[trigger] npart[w]) != slot_of(
                #[trigger] npart[x],
            ),
        forall|j: int|
            0 <= j < inp.len() && is_stores(#[trigger] inp[j]) ==> slot_in(spart, slot_of(inp[j])),
        limit is None ==> forall|j: int|
            0 <= j < inp.len() && !is_stores(#[trigger] inp[j]) ==> slot_in(
                npart,
                slot_of(inp[j]),
            ),
        limit matches Some(l) ==> npart.len() == vstd::math::min(
            l as int,
            distinct_nonstore_slots(inp),
        ),
    ensures
        recents_selection(inp, limit, spart.add(npart)),
{
    let out = spart.add(npart);
    assert(forall|w: int| 0 <= w < spart.len() ==> #[trigger] out[w] == spart[w]);
    assert(forall|w: int|
        spart.len() <= w < out.len() ==> #[trigger] out[w] == npart[w - spart.len()]);
    assert forall|i: int, j: int| 0 <= i < j < out.len() implies slot_of(#[trigger] out[i])
        != slot_of(#[trigger] out[j]) by {
        if i < spart.len() && j >= spart.len() {
            assert(is_stores(out[i]));
            assert(!is_stores(out[j]));
            assert(slot_of(out[i]).file_type == out[i].file_type);
            assert(slot_of(out[j]).file_type == out[j].file_type);
        }
    }
    assert forall|j: int|
        0 <= j < inp.len() && is_stores(#[trigger] inp[j]) implies slot_in(
        out,
        slot_of(inp[j]),
    ) by {
        let w = choose|w: int|
            0 <= w < spart.len() && #[trigger] slot_of(spart[w]) == slot_of(inp[j]);
        assert(slot_of(out[w]) == slot_of(inp[j]));
    }
    if limit is None {
        assert forall|j: int| 0 <= j < inp.len() implies slot_in(
            out,
            slot_of(#[trigger] inp[j]),
        ) by {
            if is_stores(inp[j]) {
                let w = choose|w: int|
                    0 <= w < spart.len() && #[trigger] slot_of(spart[w]) == slot_of(inp[j]);
                assert(slot_of(out[w]) == slot_of(inp[j]));
            } else {
                let w = choose|w: int|
                    0 <= w < npart.len() && #[trigger] slot_of(npart[w]) == slot_of(inp[j]);
                assert(slot_of(out[spart.len() + w]) == slot_of(inp[j]));
            }
        }
    }
    if limit is Some {
        lemma_nonstores_count_add(spart, npart);
        lemma_nonstores_count_all(spart);
        lemma_nonstores_count_all(npart);
    }
}

// ---------------------------------------------------------------------------
// Parsing, filtering and selection in one pass.
// ---------------------------------------------------------------------------

/// The identities of the links that parse and are worth fetching.
pub open spec fn parsed_interesting(vals: Seq<Seq<char>>) -> Seq<FileInfoV>
    decreases vals.len(),
{
    if vals.len() == 0 {
        Seq::empty()
    } else {
        parsed_interesting(vals.drop_last()).add(
            match spec_parse(vals.last()) {
                Ok(v) => if v.file_type == FileType::PriceFull || v.file_type
                    == FileType::StoresFull {
                    seq![v]
                } else {
                    Seq::empty()
                },
                Err(_) => Seq::empty(),
            },
        )
    }
}

impl FileInfo {
    /// Parses every link, drops the unparsable and the uninteresting, and
    /// keeps the most recent version per slot.
    pub fn from_str_iter(vals: Vec<String>, file_limit: Option<usize>) -> (r: Vec<FileInfo>)
        ensures
            recents_selection(parsed_interesting(str_views(vals@)), file_limit, fi_views(r@)),
    {
        let mut kept: Vec<FileInfo> = Vec::new();
        let n = vals.len();
        let mut i: usize = 0;
        while i < n
            invariant
                0 <= i <= n,
                n == vals@.len(),
                fi_views(kept@) == parsed_interesting(str_views(vals@).take(i as int)),
            decreases n - i,
        {
            let ghost before = fi_views(kept@);
            let ghost svals = str_views(vals@);
            proof {
                assert(svals.take(i + 1).drop_last() =~= svals.take(i as int));
                assert(svals.take(i + 1).last() == svals[i as int]);
                assert(svals[i as int] == vals@[i as int]@);
            }
            match FileInfo::parse(vals[i].as_str()) {
                Ok(fi) => {
                    if fi.is_interesting() {
                        kept.push(fi);
                        proof {
                            assert(fi_views(kept@) =~= before.push(fi@));
                            assert(before.push(fi@) =~= before.add(seq![fi@]));
                        }
                    } else {
                        proof {
                            assert(parsed_interesting(svals.take(i + 1)) =~= before.add(
                                Seq::empty(),
                            ));
                            assert(before.add(Seq::empty()) =~= before);
                        }
                    }
                },
                Err(_) => {
                    proof {
                        assert(parsed_interesting(svals.take(i + 1)) =~= before.add(Seq::empty()));
                        assert(before.add(Seq::empty()) =~= before);
                    }
                },
            }
            i = i + 1;
        }
        proof {
            assert(str_views(vals@).take(n as int) =~= str_views(vals@));
        }
        FileInfo::keep_most_recents(kept, file_limit)
    }
}


} // verus!
