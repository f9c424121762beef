//! The shared data model of the processed catalogs: items, prices, stores,
//! chains and the scraped metadata shapes.

use vstd::prelude::*;

use crate::nutrition::NutritionalValues;

verus! {

pub type Barcode = i64;

pub type ChainId = i64;

pub type SubchainId = i32;

pub type StoreId = i32;

/// One catalog line as a portal publishes it.
#[derive(Debug, Default)]
pub struct Item {
    pub item_code: Barcode,
    pub internal_code: bool,
    pub item_name: String,
    pub manufacturer_name: String,
    pub manufacture_country: String,
    pub manufacturer_item_description: String,
    pub unit_qty: String,
    pub quantity: String,
    pub unit_of_measure: String,
    pub b_is_weighted: bool,
    pub qty_in_package: String,
    pub item_price: String,
    pub unit_of_measure_price: String,
    pub allow_discount: bool,
    pub item_status: i8,
    pub item_id: String,
    pub price_update_date: String,
    pub last_update_date: String,
    pub last_update_time: String,
}

#[derive(Default, Debug, Clone, PartialEq, Eq, Hash)]
pub struct ItemPrice {
    pub chain_id: i64,
    pub store_id: i32,
    pub price: String,
    pub unit_of_measure_price: String,
}

#[derive(Debug, PartialEq, Eq, Default)]
pub struct ItemInfo {
    pub item_name: String,
    pub manufacturer_name: String,
    pub manufacture_country: String,
    pub manufacturer_item_description: String,
    pub unit_qty: String,
    pub quantity: String,
    pub unit_of_measure: String,
    pub b_is_weighted: bool,
    pub qty_in_package: String,
    pub prices: Vec<ItemPrice>,
}

/// How items are keyed across chains: by barcode alone, except that an
/// internal code means nothing outside its chain.
#[derive(Debug, PartialEq, Eq, Structural, Hash, Clone, Copy)]
pub struct ItemKey {
    pub item_code: Barcode,
    pub chain_id: Option<ChainId>,
}

impl ItemKey {
    /// An item with an internal code is keyed within its chain; any other
    /// barcode is global.
    pub fn from_item_and_chain(item: &Item, chain_id: ChainId) -> (r: Self)
        ensures
            r.item_code == item.item_code,
            r.chain_id == if item.internal_code {
                Some(chain_id)
            } else {
                None::<ChainId>
            },
    {
        ItemKey {
            item_code: item.item_code,
            chain_id: match item.internal_code {
                true => Some(chain_id),
                false => None,
            },
        }
    }
}

#[derive(Debug, Default)]
pub struct Prices {
    pub chain_id: ChainId,
    pub subchain_id: SubchainId,
    pub store_id: StoreId,
    pub verification_num: i32,
    pub items: Vec<Item>,
}

#[derive(Debug, Default)]
pub struct Store {
    pub store_id: StoreId,
    pub verification_num: i32,
    pub store_type: String,
    pub store_name: String,
    pub address: String,
    pub city: String,
    pub zip_code: String,
}

#[derive(Debug, Default)]
pub struct FullStore {
    pub store: Store,
    pub chain_id: ChainId,
    pub chain_name: String,
    pub subchain_id: SubchainId,
    pub subchain_name: String,
}

#[derive(Debug, Default)]
pub struct Subchain {
    pub subchain_id: SubchainId,
    pub subchain_name: String,
    pub stores: Vec<Store>,
}

#[derive(Debug, Default)]
pub struct Chain {
    pub chain_id: ChainId,
    pub chain_name: String,
    pub subchains: Vec<Subchain>,
}

#[derive(Debug)]
pub struct SubchainRecord {
    pub chain_id: ChainId,
    pub chain_name: String,
    pub subchain_id: SubchainId,
    pub subchain_name: String,
}

/// The aggregate keyed by item: a list of pairs whose keys never repeat.
#[derive(Debug, Default)]
pub struct ItemInfos {
    pub data: Vec<(ItemKey, ItemInfo)>,
}

impl ItemInfos {
    /// Each key holds at most one info.
    pub open spec fn wf(&self) -> bool {
        forall|i: int, j: int|
            0 <= i < j < self.data@.len() ==> (#[trigger] self.data@[i]).0 != (
            #[trigger] self.data@[j]).0
    }

    pub fn new() -> (r: ItemInfos)
        ensures
            r.wf(),
            r.data@.len() == 0,
    {
        ItemInfos { data: Vec::new() }
    }
}

/// What one processing pass over the landed files yields: the chains read
/// off the store files, and the per-item aggregate keyed without repeats.
pub struct ProcessedData {
    pub chains: Vec<Chain>,
    pub item_infos: Vec<(ItemKey, ItemInfo)>,
}

impl ProcessedData {
    /// Each item key holds at most one info.
    pub open spec fn wf(&self) -> bool {
        forall|i: int, j: int|
            0 <= i < j < self.item_infos@.len() ==> (#[trigger] self.item_infos@[i]).0 != (
            #[trigger] self.item_infos@[j]).0
    }
}


/// The structural soundness a chain read off a store file must show: a
/// positive chain id, at least one subchain, and no store with the zero id.
pub open spec fn spec_valid_chain(c: &Chain) -> bool {
    &&& c.chain_id > 0
    &&& c.subchains@.len() > 0
    &&& forall|i: int, j: int|
        0 <= i < c.subchains@.len() && 0 <= j < (#[trigger] c.subchains@[i]).stores@.len()
            ==> (#[trigger] c.subchains@[i].stores@[j]).store_id != 0
}

/// Checks a parsed chain; drift in the portal's store files surfaces here.
pub fn validate_chain(chain: &Chain) -> (r: bool)
    ensures
        r == spec_valid_chain(chain),
{
    if chain.chain_id <= 0 {
        return false;
    }
    if chain.subchains.len() == 0 {
        return false;
    }
    let n = chain.subchains.len();
    let mut i: usize = 0;
    while i < n
        invariant
            0 <= i <= n,
            n == chain.subchains@.len(),
            forall|a: int, b: int|
                0 <= a < i && 0 <= b < (#[trigger] chain.subchains@[a]).stores@.len() ==> (
                #[trigger] chain.subchains@[a].stores@[b]).store_id != 0,
        decreases n - i,
    {
        let m = chain.subchains[i].stores.len();
        let mut j: usize = 0;
        while j < m
            invariant
                0 <= j <= m,
                i < n,
                n == chain.subchains@.len(),
                m == chain.subchains@[i as int].stores@.len(),
                forall|b: int|
                    0 <= b < j ==> (#[trigger] chain.subchains@[i as int].stores@[b]).store_id
                        != 0,
            decreases m - j,
        {
            if chain.subchains[i].stores[j].store_id == 0 {
                return false;
            }
            j = j + 1;
        }
        i = i + 1;
    }
    true
}

// The shapes scraped off the chains' online storefronts.
#[derive(Debug)]
pub struct ShufersalMetadata {
    pub categories: Option<String>,
    pub nutrition_info: Option<String>,
    pub ingredients: Option<String>,
    pub product_symbols: Option<String>,
    pub image_url: Option<String>,
}

#[derive(Debug)]
pub struct RamiLevyMetadata {
    pub categories: Option<String>,
    pub nutrition_info: Option<String>,
    pub ingredients: Option<String>,
    pub product_symbols: Option<String>,
    pub image_url_small: Option<String>,
    pub image_url_original: Option<String>,
    pub image_url_trim: Option<String>,
    pub image_url_transparent: Option<String>,
}

#[derive(Debug)]
pub struct VictoryMetadata {
    pub categories: Option<Vec<String>>,
    pub nutrition_info: Option<NutritionalValues>,
    pub ingredients: Option<String>,
    pub image_url: Option<String>,
}

#[derive(Debug)]
pub struct YochananofMetadata {
    pub nutrition_info: Vec<NutritionalValues>,
    pub ingredients: Option<String>,
    pub image_url: Option<String>,
}

pub struct ImageUrl {
    pub link: String,
    pub metadata: Option<String>,
}

pub struct ScrappedData {
    pub barcode: String,
    pub categories: Vec<String>,
    pub nutrition_info: Vec<NutritionalValues>,
    pub ingredients: Option<String>,
    pub image_urls: Vec<ImageUrl>,
}

} // verus!
