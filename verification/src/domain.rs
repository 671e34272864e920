//! Domain value types threaded through the pipeline.
//!
//! These are the plain data the orchestration core moves between stages:
//! gallery and item identifiers, marketplaces, timestamps, the cron string a
//! schedule was registered with, and the opaque criteria and item payloads
//! that excluded modules produce and consume.

use vstd::prelude::*;
use std::collections::HashMap;

verus! {

/// Unique identifier of a gallery, stable across its whole lifecycle.
#[derive(Debug, PartialEq, Eq, Hash)]
pub struct GalleryId(pub String);

impl View for GalleryId {
    type V = Seq<char>;

    open spec fn view(&self) -> Seq<char> {
        self.0@
    }
}

impl Clone for GalleryId {
    fn clone(&self) -> (r: Self)
        ensures
            r == self,
    {
        GalleryId(self.0.clone())
    }
}

/// Unique identifier of a marketplace listing.
#[derive(Clone, Debug, PartialEq, Eq, Hash)]
pub struct ItemId(pub String);

/// A source marketplace; one gallery aggregates listings across several.
#[derive(Clone, Copy, Debug, PartialEq, Eq, Hash, Structural)]
pub enum Marketplace {
    Mercari,
    Ebay,
}

/// An absolute timestamp in whole seconds since the Unix epoch (UTC).
#[derive(Clone, Copy, Debug, PartialEq, Eq, Hash, Structural)]
pub struct UnixUtcDateTime(pub u64);

/// A cron expression already checked for syntactic validity before it enters
/// this core; the core only stores and threads it through.
#[derive(Clone, Debug, PartialEq, Eq)]
pub struct ValidCronString(pub String);

/// Search configuration for a gallery, produced by the registration flow and
/// consumed by the search-scraping module; opaque to this core.
#[derive(Debug, PartialEq, Eq)]
pub struct GallerySearchCriteria(pub String);

impl Clone for GallerySearchCriteria {
    fn clone(&self) -> (r: Self)
        ensures
            r == self,
    {
        GallerySearchCriteria(self.0.clone())
    }
}

/// Evaluation configuration for a gallery's items, consumed by the analysis
/// module; opaque to this core.
#[derive(Debug, PartialEq, Eq)]
pub struct EvaluationCriteria(pub String);

impl Clone for EvaluationCriteria {
    fn clone(&self) -> (r: Self)
        ensures
            r == self,
    {
        EvaluationCriteria(self.0.clone())
    }
}

/// A single scraped marketplace listing, as handed over by the item-scraping
/// module; opaque to this core.
#[derive(Clone, Debug, PartialEq)]
pub struct MarketplaceItemData {
    pub item_id: ItemId,
    pub name: String,
    pub price: u64,
    pub description: String,
}

/// One marketplace's items after analysis; opaque to this core.
#[derive(Clone, Debug, PartialEq)]
pub struct MarketplaceAnalyzedItems {
    pub items: Vec<MarketplaceItemData>,
    pub evaluation_answers: Vec<String>,
}

/// One marketplace's items after embedding and classification; opaque to
/// this core.
#[derive(Clone, Debug, PartialEq)]
pub struct MarketplaceEmbeddedAndAnalyzedItems {
    pub items: Vec<MarketplaceItemData>,
    pub evaluation_answers: Vec<String>,
    pub embeddings: Vec<Vec<u8>>,
}

/// Per-marketplace last-success timestamps carried by every stage.
pub type MarketplaceDatetimes = HashMap<Marketplace, UnixUtcDateTime>;

/// Per-marketplace last-failure descriptions carried by every stage.
pub type MarketplaceFailures = HashMap<Marketplace, String>;

} // verus!
