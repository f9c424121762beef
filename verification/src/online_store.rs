//! The online storefronts whose product pages are scraped for metadata:
//! a separate, smaller table than the disclosure portals'.

use vstd::prelude::*;

verus! {

/// The storefront backend a chain's online shop runs on.
#[derive(Clone, Copy, Debug)]
pub enum Website {
    /// A shared backend several chains use; the parameter is the chain's
    /// retailer endpoint.
    Excalibur(&'static str),
    RamiLevy,
    Shufersal,
}

pub ghost enum WebsiteV {
    Excalibur(Seq<char>),
    RamiLevy,
    Shufersal,
}

impl View for Website {
    type V = WebsiteV;

    open spec fn view(&self) -> WebsiteV {
        match self {
            Website::Excalibur(u) => WebsiteV::Excalibur(u@),
            Website::RamiLevy => WebsiteV::RamiLevy,
            Website::Shufersal => WebsiteV::Shufersal,
        }
    }
}

pub ghost struct OnlineStoreV {
    pub website: WebsiteV,
    pub name: Seq<char>,
}

/// One online storefront.
#[derive(Clone, Copy, Debug)]
pub struct OnlineStore {
    pub website: Website,
    pub name: &'static str,
}

impl View for OnlineStore {
    type V = OnlineStoreV;

    open spec fn view(&self) -> OnlineStoreV {
        OnlineStoreV { website: self.website@, name: self.name@ }
    }
}

impl OnlineStore {
    fn new(website: Website, name: &'static str) -> (r: OnlineStore)
        ensures
            r@ == (OnlineStoreV { website: website@, name: name@ }),
    {
        OnlineStore { website, name }
    }
}

pub open spec fn online_store_views(s: Seq<OnlineStore>) -> Seq<OnlineStoreV> {
    s.map_values(|st: OnlineStore| st@)
}

pub open spec fn spec_online_stores() -> Seq<OnlineStoreV> {
    seq![
        OnlineStoreV { website: WebsiteV::Excalibur("https://www.victoryonline.co.il/v2/retailers/1470"@), name: "victory"@ },
        OnlineStoreV { website: WebsiteV::Excalibur("https://www.ybitan.co.il/v2/retailers/1131"@), name: "yenot_bitan"@ },
        OnlineStoreV { website: WebsiteV::Excalibur("https://www.mega.co.il/v2/retailers/1182"@), name: "mega"@ },
        OnlineStoreV { website: WebsiteV::Excalibur("https://www.m2000.co.il/v2/retailers/1404"@), name: "maayan_2000"@ },
        OnlineStoreV { website: WebsiteV::Excalibur("https://www.ampm.co.il/v2/retailers/2"@), name: "am_pm"@ },
        OnlineStoreV { website: WebsiteV::Excalibur("https://www.tivtaam.co.il/v2/retailers/1062"@), name: "tiv_taam"@ },
        OnlineStoreV { website: WebsiteV::Excalibur("https://www.keshet-teamim.co.il/v2/retailers/1219"@), name: "keshet"@ },
        OnlineStoreV { website: WebsiteV::Excalibur("https://www.shukcity.co.il/v2/retailers/1254"@), name: "shukcity"@ },
        OnlineStoreV { website: WebsiteV::RamiLevy, name: "rami_levy"@ },
        OnlineStoreV { website: WebsiteV::Shufersal, name: "shufersal"@ },
    ]
}

/// The static table of every scraped storefront.
pub fn get_online_stores() -> (r: Vec<OnlineStore>)
    ensures
        online_store_views(r@) == spec_online_stores(),
{
    let mut v: Vec<OnlineStore> = Vec::new();
    v.push(OnlineStore::new(Website::Excalibur("https://www.victoryonline.co.il/v2/retailers/1470"), "victory"));
    v.push(OnlineStore::new(Website::Excalibur("https://www.ybitan.co.il/v2/retailers/1131"), "yenot_bitan"));
    v.push(OnlineStore::new(Website::Excalibur("https://www.mega.co.il/v2/retailers/1182"), "mega"));
    v.push(OnlineStore::new(Website::Excalibur("https://www.m2000.co.il/v2/retailers/1404"), "maayan_2000"));
    v.push(OnlineStore::new(Website::Excalibur("https://www.ampm.co.il/v2/retailers/2"), "am_pm"));
    v.push(OnlineStore::new(Website::Excalibur("https://www.tivtaam.co.il/v2/retailers/1062"), "tiv_taam"));
    v.push(OnlineStore::new(Website::Excalibur("https://www.keshet-teamim.co.il/v2/retailers/1219"), "keshet"));
    v.push(OnlineStore::new(Website::Excalibur("https://www.shukcity.co.il/v2/retailers/1254"), "shukcity"));
    v.push(OnlineStore::new(Website::RamiLevy, "rami_levy"));
    v.push(OnlineStore::new(Website::Shufersal, "shufersal"));
    proof {
        assert(online_store_views(v@) =~= spec_online_stores());
    }
    v
}

} // verus!
