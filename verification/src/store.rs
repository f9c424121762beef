//! The static table of configured portals: one entry per retail chain, as
//! ordered on the regulator's public list, each with the protocol variant
//! and the variant's parameters the portal needs.

use vstd::prelude::*;

use crate::strutil::str_eq;

verus! {

/// The protocol variant one portal speaks, with its parameters.
#[derive(Clone, Copy, Debug)]
pub enum Website {
    /// Session-login portal; the parameter is the username, the password is
    /// empty.
    PublishedPrice(&'static str),
    /// Session-login portal with a username and a password.
    PublishedPriceWithPassword(&'static str, &'static str),
    /// Paged HTML table with absolute links.
    Shufersal,
    /// One GET to a JSON listing; parameters are the listing URL and the
    /// download prefix, which differ portal by portal.
    SimpleJsonToGet(&'static str, &'static str),
    /// Shared catalog page; the parameter is the chain-name discriminator.
    MatrixCatalog(&'static str),
    /// Dated sub-directory portal; the parameter is the main page.
    PublishPrice(&'static str),
    /// Fixed page with a server-side day filter.
    NetivHahesed,
    /// Paged table with two-hop link resolution.
    SuperPharm,
}

pub ghost enum WebsiteV {
    PublishedPrice(Seq<char>),
    PublishedPriceWithPassword(Seq<char>, Seq<char>),
    Shufersal,
    SimpleJsonToGet(Seq<char>, Seq<char>),
    MatrixCatalog(Seq<char>),
    PublishPrice(Seq<char>),
    NetivHahesed,
    SuperPharm,
}

impl View for Website {
    type V = WebsiteV;

    open spec fn view(&self) -> WebsiteV {
        match self {
            Website::PublishedPrice(u) => WebsiteV::PublishedPrice(u@),
            Website::PublishedPriceWithPassword(u, p) => WebsiteV::PublishedPriceWithPassword(
                u@,
                p@,
            ),
            Website::Shufersal => WebsiteV::Shufersal,
            Website::SimpleJsonToGet(u, d) => WebsiteV::SimpleJsonToGet(u@, d@),
            Website::MatrixCatalog(c) => WebsiteV::MatrixCatalog(c@),
            Website::PublishPrice(u) => WebsiteV::PublishPrice(u@),
            Website::NetivHahesed => WebsiteV::NetivHahesed,
            Website::SuperPharm => WebsiteV::SuperPharm,
        }
    }
}

pub ghost struct StoreV {
    pub website: WebsiteV,
    pub name: Seq<char>,
}

/// One configured portal.
#[derive(Clone, Copy, Debug)]
pub struct Store {
    pub website: Website,
    pub name: &'static str,
}

impl View for Store {
    type V = StoreV;

    open spec fn view(&self) -> StoreV {
        StoreV { website: self.website@, name: self.name@ }
    }
}

impl Store {
    fn new(website: Website, name: &'static str) -> (r: Store)
        ensures
            r@ == (StoreV { website: website@, name: name@ }),
    {
        Store { website, name }
    }
}

pub open spec fn store_views(s: Seq<Store>) -> Seq<StoreV> {
    s.map_values(|st: Store| st@)
}

/// The whole configuration, in the regulator's order.
pub open spec fn spec_store_configs() -> Seq<StoreV> {
    seq![
        StoreV { website: WebsiteV::SimpleJsonToGet("https://www.kingstore.co.il/Food_Law/MainIO_Hok.aspx"@, "https://www.kingstore.co.il/Food_Law/Download/"@), name: "king_store"@ },
        StoreV { website: WebsiteV::SimpleJsonToGet("http://maayan2000.binaprojects.com/MainIO_Hok.aspx"@, "http://maayan2000.binaprojects.com/Download/"@), name: "maayan_2000"@ },
        StoreV { website: WebsiteV::SimpleJsonToGet("https://goodpharm.binaprojects.com/MainIO_Hok.aspx"@, "https://goodpharm.binaprojects.com/Download/"@), name: "good_pharm"@ },
        StoreV { website: WebsiteV::PublishedPrice("doralon"@), name: "dor_alon"@ },
        StoreV { website: WebsiteV::MatrixCatalog("ויקטורי"@), name: "victory"@ },
        StoreV { website: WebsiteV::SimpleJsonToGet("http://zolvebegadol.binaprojects.com/MainIO_Hok.aspx"@, "http://zolvebegadol.binaprojects.com/Download/"@), name: "zol_vebegadol"@ },
        StoreV { website: WebsiteV::MatrixCatalog("ח. כהן"@), name: "h_cohen"@ },
        StoreV { website: WebsiteV::PublishedPrice("TivTaam"@), name: "tiv_taam"@ },
        StoreV { website: WebsiteV::PublishPrice("http://publishprice.ybitan.co.il/"@), name: "yenot_bitan"@ },
        StoreV { website: WebsiteV::PublishPrice("http://publishprice.mega.co.il/"@), name: "mega"@ },
        StoreV { website: WebsiteV::PublishPrice("http://publishprice.mega-market.co.il/"@), name: "mega_market"@ },
        StoreV { website: WebsiteV::MatrixCatalog("מחסני השוק"@), name: "mahsanei_hashuk"@ },
        StoreV { website: WebsiteV::PublishedPrice("HaziHinam"@), name: "hatzi_hinam"@ },
        StoreV { website: WebsiteV::PublishedPrice("yohananof"@), name: "yohananof"@ },
        StoreV { website: WebsiteV::PublishedPrice("osherad"@), name: "osher_ad"@ },
        StoreV { website: WebsiteV::NetivHahesed, name: "netiv_hahesed"@ },
        StoreV { website: WebsiteV::PublishedPrice("SalachD"@), name: "salach_dabbah"@ },
        StoreV { website: WebsiteV::SuperPharm, name: "superpharm"@ },
        StoreV { website: WebsiteV::PublishedPrice("Stop_Market"@), name: "stop_market"@ },
        StoreV { website: WebsiteV::MatrixCatalog("סופר ברקת"@), name: "super_bareket"@ },
        StoreV { website: WebsiteV::PublishedPrice("politzer"@), name: "politzer"@ },
        StoreV { website: WebsiteV::PublishedPriceWithPassword("Paz_bo"@, "paz468"@), name: "paz"@ },
        StoreV { website: WebsiteV::SimpleJsonToGet("http://paz.binaprojects.com/MainIO_Hok.aspx"@, "http://paz.binaprojects.com/Download/"@), name: "super_yoda"@ },
        StoreV { website: WebsiteV::PublishedPrice("freshmarket"@), name: "fresh_market"@ },
        StoreV { website: WebsiteV::PublishedPrice("Keshet"@), name: "keshet"@ },
        StoreV { website: WebsiteV::PublishedPrice("RamiLevi"@), name: "rami_levy"@ },
        StoreV { website: WebsiteV::PublishedPrice("SuperCofixApp"@), name: "super_cofix"@ },
        StoreV { website: WebsiteV::Shufersal, name: "shufersal"@ },
        StoreV { website: WebsiteV::SimpleJsonToGet("http://shuk-hayir.binaprojects.com/MainIO_Hok.aspx"@, "http://shuk-hayir.binaprojects.com/Download/"@), name: "shuk_hayir"@ },
        StoreV { website: WebsiteV::SimpleJsonToGet("http://shefabirkathashem.binaprojects.com/MainIO_Hok.aspx"@, "http://shefabirkathashem.binaprojects.com/Download/"@), name: "shefa_birkat_hashem"@ },
    ]
}

/// The static table of every configured portal.
pub fn get_store_configs() -> (r: Vec<Store>)
    ensures
        store_views(r@) == spec_store_configs(),
{
    let mut v: Vec<Store> = Vec::new();
    v.push(Store::new(Website::SimpleJsonToGet("https://www.kingstore.co.il/Food_Law/MainIO_Hok.aspx", "https://www.kingstore.co.il/Food_Law/Download/"), "king_store"));
    v.push(Store::new(Website::SimpleJsonToGet("http://maayan2000.binaprojects.com/MainIO_Hok.aspx", "http://maayan2000.binaprojects.com/Download/"), "maayan_2000"));
    v.push(Store::new(Website::SimpleJsonToGet("https://goodpharm.binaprojects.com/MainIO_Hok.aspx", "https://goodpharm.binaprojects.com/Download/"), "good_pharm"));
    v.push(Store::new(Website::PublishedPrice("doralon"), "dor_alon"));
    v.push(Store::new(Website::MatrixCatalog("ויקטורי"), "victory"));
    v.push(Store::new(Website::SimpleJsonToGet("http://zolvebegadol.binaprojects.com/MainIO_Hok.aspx", "http://zolvebegadol.binaprojects.com/Download/"), "zol_vebegadol"));
    v.push(Store::new(Website::MatrixCatalog("ח. כהן"), "h_cohen"));
    v.push(Store::new(Website::PublishedPrice("TivTaam"), "tiv_taam"));
    v.push(Store::new(Website::PublishPrice("http://publishprice.ybitan.co.il/"), "yenot_bitan"));
    v.push(Store::new(Website::PublishPrice("http://publishprice.mega.co.il/"), "mega"));
    v.push(Store::new(Website::PublishPrice("http://publishprice.mega-market.co.il/"), "mega_market"));
    v.push(Store::new(Website::MatrixCatalog("מחסני השוק"), "mahsanei_hashuk"));
    v.push(Store::new(Website::PublishedPrice("HaziHinam"), "hatzi_hinam"));
    v.push(Store::new(Website::PublishedPrice("yohananof"), "yohananof"));
    v.push(Store::new(Website::PublishedPrice("osherad"), "osher_ad"));
    v.push(Store::new(Website::NetivHahesed, "netiv_hahesed"));
    v.push(Store::new(Website::PublishedPrice("SalachD"), "salach_dabbah"));
    v.push(Store::new(Website::SuperPharm, "superpharm"));
    v.push(Store::new(Website::PublishedPrice("Stop_Market"), "stop_market"));
    v.push(Store::new(Website::MatrixCatalog("סופר ברקת"), "super_bareket"));
    v.push(Store::new(Website::PublishedPrice("politzer"), "politzer"));
    v.push(Store::new(Website::PublishedPriceWithPassword("Paz_bo", "paz468"), "paz"));
    v.push(Store::new(Website::SimpleJsonToGet("http://paz.binaprojects.com/MainIO_Hok.aspx", "http://paz.binaprojects.com/Download/"), "super_yoda"));
    v.push(Store::new(Website::PublishedPrice("freshmarket"), "fresh_market"));
    v.push(Store::new(Website::PublishedPrice("Keshet"), "keshet"));
    v.push(Store::new(Website::PublishedPrice("RamiLevi"), "rami_levy"));
    v.push(Store::new(Website::PublishedPrice("SuperCofixApp"), "super_cofix"));
    v.push(Store::new(Website::Shufersal, "shufersal"));
    v.push(Store::new(Website::SimpleJsonToGet("http://shuk-hayir.binaprojects.com/MainIO_Hok.aspx", "http://shuk-hayir.binaprojects.com/Download/"), "shuk_hayir"));
    v.push(Store::new(Website::SimpleJsonToGet("http://shefabirkathashem.binaprojects.com/MainIO_Hok.aspx", "http://shefabirkathashem.binaprojects.com/Download/"), "shefa_birkat_hashem"));
    proof {
        assert(store_views(v@) =~= spec_store_configs());
    }
    v
}

/// The names of the smoke-test subset. The table's names are lower case, so
/// this capitalized list selects nothing; kept as configured.
pub open spec fn is_minimal_name(n: Seq<char>) -> bool {
    ||| n == "Yohananof"@
    ||| n == "Shufersal"@
    ||| n == "Super_Yoda"@
    ||| n == "Victory"@
}

/// The configured portals whose name is on the smoke-test list.
pub fn get_minimal_store_configs() -> (r: Vec<Store>)
    ensures
        store_views(r@) == spec_store_configs().filter(|s: StoreV| is_minimal_name(s.name)),
{
    let all = get_store_configs();
    let ghost table = spec_store_configs();
    let mut results: Vec<Store> = Vec::new();
    let n = all.len();
    let mut i: usize = 0;
    proof {
        reveal(Seq::filter);
        assert(store_views(results@) =~= table.take(0int).filter(
            |s: StoreV| is_minimal_name(s.name),
        ));
    }
    while i < n
        invariant
            0 <= i <= n,
            n == all@.len(),
            store_views(all@) == table,
            store_views(results@) == table.take(i as int).filter(
                |s: StoreV| is_minimal_name(s.name),
            ),
        decreases n - i,
    {
        let ghost before = store_views(results@);
        proof {
            reveal(Seq::filter);
            assert(table.take(i + 1).drop_last() =~= table.take(i as int));
            assert(table.take(i + 1).last() == table[i as int]);
            assert(table[i as int] == all@[i as int]@);
        }
        let st = all[i];
        if str_eq(st.name, "Yohananof") || str_eq(st.name, "Shufersal") || str_eq(
            st.name,
            "Super_Yoda",
        ) || str_eq(st.name, "Victory") {
            results.push(st);
            proof {
                assert(store_views(results@) =~= before.push(table[i as int]));
            }
        }
        i = i + 1;
    }
    proof {
        assert(table.take(n as int) =~= table);
    }
    results
}

/// The one-portal subset used while debugging.
pub fn get_debug_store_configs() -> (r: Vec<Store>)
    ensures
        store_views(r@) == spec_store_configs().filter(|s: StoreV| s.name == "superpharm"@),
{
    let all = get_store_configs();
    let ghost table = spec_store_configs();
    let mut results: Vec<Store> = Vec::new();
    let n = all.len();
    let mut i: usize = 0;
    proof {
        reveal(Seq::filter);
        assert(store_views(results@) =~= table.take(0int).filter(
            |s: StoreV| s.name == "superpharm"@,
        ));
    }
    while i < n
        invariant
            0 <= i <= n,
            n == all@.len(),
            store_views(all@) == table,
            store_views(results@) == table.take(i as int).filter(
                |s: StoreV| s.name == "superpharm"@,
            ),
        decreases n - i,
    {
        let ghost before = store_views(results@);
        proof {
            reveal(Seq::filter);
            assert(table.take(i + 1).drop_last() =~= table.take(i as int));
            assert(table.take(i + 1).last() == table[i as int]);
            assert(table[i as int] == all@[i as int]@);
        }
        let st = all[i];
        if str_eq(st.name, "superpharm") {
            results.push(st);
            proof {
                assert(store_views(results@) =~= before.push(table[i as int]));
            }
        }
        i = i + 1;
    }
    proof {
        assert(table.take(n as int) =~= table);
    }
    results
}

/// First index of the portal named `name`, or -1 when none is.
pub open spec fn store_index(s: Seq<StoreV>, name: Seq<char>) -> int
    decreases s.len(),
{
    if s.len() == 0 {
        -1
    } else if s[0].name == name {
        0
    } else if store_index(s.skip(1), name) == -1 {
        -1
    } else {
        1 + store_index(s.skip(1), name)
    }
}

proof fn lemma_store_index(s: Seq<StoreV>, name: Seq<char>)
    ensures
        -1 <= store_index(s, name) < s.len(),
        store_index(s, name) == -1 ==> forall|i: int| 0 <= i < s.len() ==> (#[trigger] s[i]).name
            != name,
        store_index(s, name) >= 0 ==> s[store_index(s, name)].name == name,
        forall|i: int| 0 <= i < store_index(s, name) ==> (#[trigger] s[i]).name != name,
    decreases s.len(),
{
    if s.len() > 0 && s[0].name != name {
        lemma_store_index(s.skip(1), name);
        let r1 = store_index(s.skip(1), name);
        if r1 == -1 {
            assert forall|i: int| 0 <= i < s.len() implies (#[trigger] s[i]).name != name by {
                if i > 0 {
                    assert(s.skip(1)[i - 1] == s[i]);
                    assert(s.skip(1)[i - 1].name != name);
                }
            }
        } else {
            assert(s.skip(1)[r1] == s[1 + r1]);
            assert forall|i: int| 0 <= i < 1 + r1 implies (#[trigger] s[i]).name != name by {
                if i > 0 {
                    assert(s.skip(1)[i - 1] == s[i]);
                    assert(s.skip(1)[i - 1].name != name);
                }
            }
        }
    }
}

/// The first configured portal of that name, if any.
pub fn get_store_config(name: &str) -> (r: Option<Store>)
    ensures
        match r {
            Some(st) => store_index(spec_store_configs(), name@) >= 0 && st@ == spec_store_configs(
            )[store_index(spec_store_configs(), name@)],
            None => store_index(spec_store_configs(), name@) == -1,
        },
{
    let all = get_store_configs();
    let ghost table = spec_store_configs();
    let n = all.len();
    let mut i: usize = 0;
    while i < n
        invariant
            0 <= i <= n,
            n == all@.len(),
            table == spec_store_configs(),
            store_views(all@) == table,
            forall|j: int| 0 <= j < i ==> (#[trigger] table[j]).name != name@,
        decreases n - i,
    {
        proof {
            assert(table[i as int] == all@[i as int]@);
        }
        let st = all[i];
        if str_eq(st.name, name) {
            proof {
                lemma_store_index(table, name@);
                let k = store_index(table, name@);
                assert(k != -1);
                assert(!(k < i)) by {
                    if 0 <= k < i {
                        assert(table[k].name != name@);
                    }
                }
                assert(!(k > i)) by {
                    if k > i {
                        assert(table[i as int].name != name@);
                    }
                }
                assert(st@ == table[i as int]);
            }
            return Some(st);
        }
        i = i + 1;
    }
    proof {
        lemma_store_index(table, name@);
        let k = store_index(table, name@);
        if k >= 0 {
            assert(table[k].name != name@);
        }
    }
    None
}

} // verus!
