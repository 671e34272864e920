//! The per-gallery stage payloads of the scraping pipeline, and the pure
//! transition functions between them.
//!
//! Each stage payload is keyed by its `GalleryId` and always carries forward
//! the per-marketplace last-success timestamps and last-failure reasons, so
//! no stage loses a marketplace's history. A transition consumes the prior
//! stage's payload by value and takes the data the new stage contributes; it
//! never checks that it is called on the right stage — that is the state
//! tracker's job.

use vstd::prelude::*;
use std::collections::HashMap;
use crate::domain::{
    EvaluationCriteria, GalleryId, GallerySearchCriteria, ItemId, Marketplace,
    MarketplaceAnalyzedItems, MarketplaceDatetimes, MarketplaceEmbeddedAndAnalyzedItems,
    MarketplaceFailures, MarketplaceItemData, ValidCronString,
};

verus! {

/// The possible states of a gallery in the scraping pipeline.
#[derive(Clone, Debug, PartialEq)]
pub enum GalleryPipelineStates {
    Initialization(GallerySchedulerState),
    SearchScraping(GallerySearchScrapingState),
    ItemScraping(GalleryItemScrapingState),
    ItemAnalysis(GalleryItemAnalysisState),
    ItemEmbedding(GalleryItemEmbedderState),
    Final(GalleryFinalState),
}

/// A stateless enumeration of the pipeline's stages, used to ask "which stage
/// is this" without holding the full payload.
#[derive(Clone, Copy, Debug, PartialEq, Eq, Structural)]
pub enum GalleryPipelineStateTypes {
    Initialization,
    SearchScraping,
    ItemScraping,
    ItemAnalysis,
    ItemEmbedding,
    Final,
}

impl GalleryPipelineStates {
    /// The stage tag of this payload.
    pub open spec fn spec_state_type(&self) -> GalleryPipelineStateTypes {
        match self {
            GalleryPipelineStates::Initialization(_) => GalleryPipelineStateTypes::Initialization,
            GalleryPipelineStates::SearchScraping(_) => GalleryPipelineStateTypes::SearchScraping,
            GalleryPipelineStates::ItemScraping(_) => GalleryPipelineStateTypes::ItemScraping,
            GalleryPipelineStates::ItemAnalysis(_) => GalleryPipelineStateTypes::ItemAnalysis,
            GalleryPipelineStates::ItemEmbedding(_) => GalleryPipelineStateTypes::ItemEmbedding,
            GalleryPipelineStates::Final(_) => GalleryPipelineStateTypes::Final,
        }
    }

    /// Returns whether the state type matches the state.
    pub fn matches(&self, state_type: &GalleryPipelineStateTypes) -> (b: bool)
        ensures
            b == (self.spec_state_type() == *state_type),
    {
        matches!(
            (self, state_type),
            (GalleryPipelineStates::Initialization(_), GalleryPipelineStateTypes::Initialization) |
            (GalleryPipelineStates::SearchScraping(_), GalleryPipelineStateTypes::SearchScraping) |
            (GalleryPipelineStates::ItemScraping(_), GalleryPipelineStateTypes::ItemScraping) |
            (GalleryPipelineStates::ItemAnalysis(_), GalleryPipelineStateTypes::ItemAnalysis) |
            (GalleryPipelineStates::ItemEmbedding(_), GalleryPipelineStateTypes::ItemEmbedding) |
            (GalleryPipelineStates::Final(_), GalleryPipelineStateTypes::Final)
        )
    }

    /// Returns the state's state type.
    pub fn state_type(&self) -> (t: GalleryPipelineStateTypes)
        ensures
            t == self.spec_state_type(),
    {
        match self {
            GalleryPipelineStates::Initialization(_) => GalleryPipelineStateTypes::Initialization,
            GalleryPipelineStates::SearchScraping(_) => GalleryPipelineStateTypes::SearchScraping,
            GalleryPipelineStates::ItemScraping(_) => GalleryPipelineStateTypes::ItemScraping,
            GalleryPipelineStates::ItemAnalysis(_) => GalleryPipelineStateTypes::ItemAnalysis,
            GalleryPipelineStates::ItemEmbedding(_) => GalleryPipelineStateTypes::ItemEmbedding,
            GalleryPipelineStates::Final(_) => GalleryPipelineStateTypes::Final,
        }
    }
}

impl GalleryPipelineStateTypes {
    /// Returns whether this state type matches the state.
    pub fn matches(&self, state: &GalleryPipelineStates) -> (b: bool)
        ensures
            b == (state.spec_state_type() == *self),
    {
        state.matches(self)
    }
}

/// The state of a gallery while it sits in the scheduler, before a cron fire
/// re-enters it into the pipeline.
#[derive(Clone, Debug, PartialEq)]
pub struct GallerySchedulerState {
    pub gallery_id: GalleryId,
    pub scraping_periodicity: ValidCronString,
    pub search_criteria: GallerySearchCriteria,
    pub marketplace_previous_scraped_datetimes: MarketplaceDatetimes,
    pub evaluation_criteria: EvaluationCriteria,
}

impl GallerySchedulerState {
    /// The search-scraping payload this scheduler payload maps to: the gallery
    /// id, criteria and per-marketplace history, carried over unchanged.
    pub open spec fn spec_next_stage(self) -> GallerySearchScrapingState {
        GallerySearchScrapingState {
            gallery_id: self.gallery_id,
            search_criteria: self.search_criteria,
            marketplace_previous_scraped_datetimes: self.marketplace_previous_scraped_datetimes,
            evaluation_criteria: self.evaluation_criteria,
        }
    }

    /// Maps to the next stage's payload.
    pub fn to_next_stage(self) -> (r: GallerySearchScrapingState)
        ensures
            r == self.spec_next_stage(),
    {
        GallerySearchScrapingState {
            gallery_id: self.gallery_id,
            search_criteria: self.search_criteria,
            marketplace_previous_scraped_datetimes: self.marketplace_previous_scraped_datetimes,
            evaluation_criteria: self.evaluation_criteria,
        }
    }
}

/// The state a scraping run starts in: about to be search-scraped.
#[derive(Clone, Debug, PartialEq)]
pub struct GallerySearchScrapingState {
    pub gallery_id: GalleryId,
    pub search_criteria: GallerySearchCriteria,
    pub marketplace_previous_scraped_datetimes: MarketplaceDatetimes,
    pub evaluation_criteria: EvaluationCriteria,
}

/// The state of a gallery after it has been search-scraped: per-marketplace
/// item-id lists, waiting to have the items themselves scraped.
#[derive(Clone, Debug, PartialEq)]
pub struct GalleryItemScrapingState {
    pub gallery_id: GalleryId,
    pub item_ids: HashMap<Marketplace, Vec<ItemId>>,
    pub marketplace_updated_datetimes: MarketplaceDatetimes,
    pub failed_marketplace_reasons: MarketplaceFailures,
    pub evaluation_criteria: EvaluationCriteria,
}

impl GalleryItemScrapingState {
    /// The item-analysis payload this payload maps to, given the scraped
    /// items: ids are replaced by the items, everything else carries over.
    pub open spec fn spec_next_stage(
        self,
        items: HashMap<Marketplace, Vec<MarketplaceItemData>>,
    ) -> GalleryItemAnalysisState {
        GalleryItemAnalysisState {
            gallery_id: self.gallery_id,
            items,
            marketplace_updated_datetimes: self.marketplace_updated_datetimes,
            failed_marketplace_reasons: self.failed_marketplace_reasons,
            evaluation_criteria: self.evaluation_criteria,
        }
    }

    /// Maps to the next stage's payload, given the scraped items.
    pub fn to_next_stage(
        self,
        items: HashMap<Marketplace, Vec<MarketplaceItemData>>,
    ) -> (r: GalleryItemAnalysisState)
        ensures
            r == self.spec_next_stage(items),
    {
        GalleryItemAnalysisState {
            gallery_id: self.gallery_id,
            items,
            marketplace_updated_datetimes: self.marketplace_updated_datetimes,
            failed_marketplace_reasons: self.failed_marketplace_reasons,
            evaluation_criteria: self.evaluation_criteria,
        }
    }
}

/// The state of a gallery after its items are scraped, waiting for analysis.
#[derive(Clone, Debug, PartialEq)]
pub struct GalleryItemAnalysisState {
    pub gallery_id: GalleryId,
    pub items: HashMap<Marketplace, Vec<MarketplaceItemData>>,
    pub marketplace_updated_datetimes: MarketplaceDatetimes,
    pub failed_marketplace_reasons: MarketplaceFailures,
    pub evaluation_criteria: EvaluationCriteria,
}

impl GalleryItemAnalysisState {
    /// The item-embedding payload this payload maps to, given the analyzed
    /// items: scraped items are replaced by analyzed ones, history carries
    /// over; the evaluation criteria have served their purpose and end here.
    pub open spec fn spec_next_stage(
        self,
        items: HashMap<Marketplace, MarketplaceAnalyzedItems>,
    ) -> GalleryItemEmbedderState {
        GalleryItemEmbedderState {
            gallery_id: self.gallery_id,
            items,
            marketplace_updated_datetimes: self.marketplace_updated_datetimes,
            failed_marketplace_reasons: self.failed_marketplace_reasons,
        }
    }

    /// Maps to the next stage's payload, given the analyzed items.
    pub fn to_next_stage(
        self,
        items: HashMap<Marketplace, MarketplaceAnalyzedItems>,
    ) -> (r: GalleryItemEmbedderState)
        ensures
            r == self.spec_next_stage(items),
    {
        GalleryItemEmbedderState {
            gallery_id: self.gallery_id,
            items,
            marketplace_updated_datetimes: self.marketplace_updated_datetimes,
            failed_marketplace_reasons: self.failed_marketplace_reasons,
        }
    }
}

/// The state of a gallery after its items are analyzed, waiting for
/// embedding and classification.
#[derive(Clone, Debug, PartialEq)]
pub struct GalleryItemEmbedderState {
    pub gallery_id: GalleryId,
    pub items: HashMap<Marketplace, MarketplaceAnalyzedItems>,
    pub marketplace_updated_datetimes: MarketplaceDatetimes,
    pub failed_marketplace_reasons: MarketplaceFailures,
}

/// The state of a gallery after its items are embedded and classified into
/// groups: the end of one pipeline run.
#[derive(Clone, Debug, PartialEq)]
pub struct GalleryFinalState {
    pub gallery_id: GalleryId,
    pub items: HashMap<Marketplace, MarketplaceEmbeddedAndAnalyzedItems>,
    pub marketplace_updated_datetimes: MarketplaceDatetimes,
    pub failed_marketplace_reasons: MarketplaceFailures,
}

/// Law: mapping a scheduler payload to the search-scraping stage preserves
/// the gallery id, the search criteria, the per-marketplace scrape history
/// and the evaluation criteria exactly.
pub proof fn lemma_scheduler_transition_preserves_identity(s: GallerySchedulerState)
    ensures
        s.spec_next_stage().gallery_id == s.gallery_id,
        s.spec_next_stage().search_criteria == s.search_criteria,
        s.spec_next_stage().marketplace_previous_scraped_datetimes
            == s.marketplace_previous_scraped_datetimes,
        s.spec_next_stage().evaluation_criteria == s.evaluation_criteria,
{
}

/// Law: mapping an item-scraping payload forward replaces the item ids with
/// the supplied items and preserves the gallery id, both marketplace
/// histories and the evaluation criteria exactly.
pub proof fn lemma_item_scraping_transition_preserves_history(
    s: GalleryItemScrapingState,
    items: HashMap<Marketplace, Vec<MarketplaceItemData>>,
)
    ensures
        s.spec_next_stage(items).gallery_id == s.gallery_id,
        s.spec_next_stage(items).items == items,
        s.spec_next_stage(items).marketplace_updated_datetimes
            == s.marketplace_updated_datetimes,
        s.spec_next_stage(items).failed_marketplace_reasons == s.failed_marketplace_reasons,
        s.spec_next_stage(items).evaluation_criteria == s.evaluation_criteria,
{
}

/// Law: mapping an item-analysis payload forward replaces the scraped items
/// with the supplied analyzed items and preserves the gallery id and both
/// marketplace histories exactly.
pub proof fn lemma_item_analysis_transition_preserves_history(
    s: GalleryItemAnalysisState,
    items: HashMap<Marketplace, MarketplaceAnalyzedItems>,
)
    ensures
        s.spec_next_stage(items).gallery_id == s.gallery_id,
        s.spec_next_stage(items).items == items,
        s.spec_next_stage(items).marketplace_updated_datetimes
            == s.marketplace_updated_datetimes,
        s.spec_next_stage(items).failed_marketplace_reasons == s.failed_marketplace_reasons,
{
}

} // verus!
