//! The scraper scheduler: one recurring task per gallery, and the fire path
//! that re-enters a gallery into the pipeline's first processing stage.
//!
//! The scheduler owns no gallery payload. On each cron fire it asks the
//! state tracker to hand over (take) the gallery's payload; if the take
//! fails — the gallery is mid-pipeline (`Taken`) or in an ineligible stage —
//! the fire is skipped silently for that tick, so a slow pipeline run
//! throttles the scheduler instead of accumulating backlog. If the take
//! succeeds, the payload is transformed into the search-scraping payload and
//! forwarded to the search-scraping module's inbound queue; the gallery
//! stays `Taken` until that module releases it with an update.

use vstd::prelude::*;
use crate::cron::{next_fire_of, next_occurrence_unix};
use crate::domain::{GalleryId, UnixUtcDateTime};
use crate::message_bus::MessageError;
use crate::messages::{
    ScraperSchedulerReceiver, SchedulerMessage, SearchScraperMessage, SearchScraperSender,
    StateTrackerSender,
};
use crate::pipeline_states::{
    GalleryPipelineStateTypes, GalleryPipelineStates, GallerySchedulerState,
    GallerySearchScrapingState,
};
use crate::registry::GalleryMap;
use crate::state_tracker::{GallerySlot, SlotMap, StateTrackerError, spec_take};

verus! {

/// Why a scheduler operation was refused.
#[derive(Clone, Copy, Debug, PartialEq, Eq, Structural)]
pub enum SchedulerError {
    /// A recurring task already exists for the gallery.
    GalleryAlreadyScheduled,
    /// No recurring task exists for the gallery.
    GalleryNotFound,
}

/// The scheduler's whole task table as a specification value: gallery id to
/// the scheduler-stage payload its task was registered with.
pub type TaskMap = Map<Seq<char>, GallerySchedulerState>;

/// What `add_gallery` does: refuse an existing task, else register one.
pub open spec fn spec_sched_add(m: TaskMap, gallery: GallerySchedulerState) -> (
    TaskMap,
    Result<(), SchedulerError>,
) {
    if m.contains_key(gallery.gallery_id@) {
        (m, Err(SchedulerError::GalleryAlreadyScheduled))
    } else {
        (m.insert(gallery.gallery_id@, gallery), Ok(()))
    }
}

/// What `update_gallery` does: replace an existing task, else refuse.
pub open spec fn spec_sched_update(m: TaskMap, gallery: GallerySchedulerState) -> (
    TaskMap,
    Result<(), SchedulerError>,
) {
    if !m.contains_key(gallery.gallery_id@) {
        (m, Err(SchedulerError::GalleryNotFound))
    } else {
        (m.insert(gallery.gallery_id@, gallery), Ok(()))
    }
}

/// What `delete_gallery` does: cancel an existing task, else refuse.
pub open spec fn spec_sched_delete(m: TaskMap, id: Seq<char>) -> (
    TaskMap,
    Result<(), SchedulerError>,
) {
    if !m.contains_key(id) {
        (m, Err(SchedulerError::GalleryNotFound))
    } else {
        (m.remove(id), Ok(()))
    }
}

/// The instant a gallery's registered schedule next fires, strictly after
/// `now`: the next match of its cron expression, or nothing when no task is
/// registered for it (or the expression never matches again).
pub open spec fn spec_next_fire(m: TaskMap, id: Seq<char>, now: u64) -> Option<u64> {
    if m.contains_key(id) {
        next_fire_of(m[id].scraping_periodicity.0@, now)
    } else {
        None
    }
}

/// Whether a gallery's schedule calls for a fire: a task is registered and
/// its first match strictly after the previous fire has arrived by `now`.
pub open spec fn spec_fire_due(m: TaskMap, id: Seq<char>, last_fire: u64, now: u64) -> bool {
    match spec_next_fire(m, id, last_fire) {
        Some(t) => t <= now,
        None => false,
    }
}

/// Which stage the next take of one fire should expect, given the previous
/// take of the same fire, if any: the first take expects `Initialization` —
/// a gallery's very first run; when that take fails with a stage mismatch
/// the gallery has been through the pipeline before, so one retry expects
/// `Final`; any other outcome ends the fire's taking.
pub open spec fn spec_next_take_attempt(
    previous: Option<(GalleryPipelineStateTypes, Result<GalleryPipelineStates, StateTrackerError>)>,
) -> Option<GalleryPipelineStateTypes> {
    match previous {
        None => Some(GalleryPipelineStateTypes::Initialization),
        Some(
            (GalleryPipelineStateTypes::Initialization, Err(StateTrackerError::StateMismatch)),
        ) => Some(GalleryPipelineStateTypes::Final),
        Some(_) => None,
    }
}

/// The take a fire should attempt next, given the previous attempt's
/// expected stage and outcome, if any; `None` ends the taking, and
/// `finish_fire` decides from whatever the last take returned.
pub fn next_take_attempt(
    previous: &Option<(GalleryPipelineStateTypes, Result<GalleryPipelineStates, StateTrackerError>)>,
) -> (r: Option<GalleryPipelineStateTypes>)
    ensures
        r == spec_next_take_attempt(*previous),
{
    match previous {
        None => Some(GalleryPipelineStateTypes::Initialization),
        Some(
            (GalleryPipelineStateTypes::Initialization, Err(StateTrackerError::StateMismatch)),
        ) => Some(GalleryPipelineStateTypes::Final),
        Some(_) => None,
    }
}

/// The payload a fire dispatches, given the task it fires for and what the
/// take returned: a scheduler-stage payload maps forward to search scraping;
/// a final-stage payload cycles back to search scraping, its updated
/// datetimes becoming the new previous-scraped datetimes and the criteria
/// coming from the registered task; any failed take dispatches nothing.
pub open spec fn spec_fire_decision(
    task: GallerySchedulerState,
    take_result: Result<GalleryPipelineStates, StateTrackerError>,
) -> Option<GallerySearchScrapingState> {
    match take_result {
        Ok(GalleryPipelineStates::Initialization(s)) => Some(s.spec_next_stage()),
        Ok(GalleryPipelineStates::Final(f)) => Some(
            GallerySearchScrapingState {
                gallery_id: f.gallery_id,
                search_criteria: task.search_criteria,
                marketplace_previous_scraped_datetimes: f.marketplace_updated_datetimes,
                evaluation_criteria: task.evaluation_criteria,
            },
        ),
        Ok(_) => None,
        Err(_) => None,
    }
}

/// Turns a take's outcome into the payload to dispatch, if any. Total over
/// every outcome the tracker can return, so a fire handles whatever came
/// back: only the two stages a cron fire may re-enter — `Initialization` on
/// a gallery's first run, `Final` on every later one — dispatch.
pub fn fire_transform(
    task: &GallerySchedulerState,
    take_result: Result<GalleryPipelineStates, StateTrackerError>,
) -> (r: Option<GallerySearchScrapingState>)
    ensures
        r == spec_fire_decision(*task, take_result),
{
    match take_result {
        Ok(GalleryPipelineStates::Initialization(s)) => Some(s.to_next_stage()),
        Ok(GalleryPipelineStates::Final(f)) => Some(
            GallerySearchScrapingState {
                gallery_id: f.gallery_id,
                search_criteria: task.search_criteria.clone(),
                marketplace_previous_scraped_datetimes: f.marketplace_updated_datetimes,
                evaluation_criteria: task.evaluation_criteria.clone(),
            },
        ),
        Ok(_) => None,
        Err(_) => None,
    }
}

/// The scheduler's task table and its handles to the collaborators a fire
/// touches: the state tracker (to take the payload) and the search scraper
/// (to dispatch it).
pub struct SchedulerHandler {
    tasks: GalleryMap<GallerySchedulerState>,
    search_scraper_sender: SearchScraperSender,
    state_tracker_sender: StateTrackerSender,
}

impl View for SchedulerHandler {
    type V = TaskMap;

    closed spec fn view(&self) -> TaskMap {
        self.tasks@
    }
}

impl SchedulerHandler {
    /// A scheduler with no tasks yet.
    pub fn new(
        search_scraper_sender: SearchScraperSender,
        state_tracker_sender: StateTrackerSender,
    ) -> (s: Self)
        ensures
            s@ == Map::<Seq<char>, GallerySchedulerState>::empty(),
    {
        SchedulerHandler {
            tasks: GalleryMap::new(),
            search_scraper_sender,
            state_tracker_sender,
        }
    }

    /// Registers a new recurring task from an initialization-stage payload;
    /// fails if a task for that gallery already exists.
    pub fn add_gallery(&mut self, gallery: GallerySchedulerState) -> (r: Result<
        (),
        SchedulerError,
    >)
        ensures
            final(self)@ == spec_sched_add(old(self)@, gallery).0,
            r == spec_sched_add(old(self)@, gallery).1,
    {
        if self.tasks.contains_gallery(&gallery.gallery_id) {
            Err(SchedulerError::GalleryAlreadyScheduled)
        } else {
            let key = gallery.gallery_id.clone();
            let _ = self.tasks.insert(key, gallery);
            Ok(())
        }
    }

    /// Replaces an existing task's cron expression and criteria; fails if no
    /// task exists for the gallery.
    pub fn update_gallery(&mut self, gallery: GallerySchedulerState) -> (r: Result<
        (),
        SchedulerError,
    >)
        ensures
            final(self)@ == spec_sched_update(old(self)@, gallery).0,
            r == spec_sched_update(old(self)@, gallery).1,
    {
        if self.tasks.contains_gallery(&gallery.gallery_id) {
            let key = gallery.gallery_id.clone();
            let _ = self.tasks.insert(key, gallery);
            Ok(())
        } else {
            Err(SchedulerError::GalleryNotFound)
        }
    }

    /// Cancels a gallery's task; fails if no task exists.
    pub fn delete_gallery(&mut self, gallery_id: &GalleryId) -> (r: Result<(), SchedulerError>)
        ensures
            final(self)@ == spec_sched_delete(old(self)@, gallery_id@).0,
            r == spec_sched_delete(old(self)@, gallery_id@).1,
    {
        match self.tasks.remove_entry(gallery_id) {
            None => Err(SchedulerError::GalleryNotFound),
            Some(_entry) => Ok(()),
        }
    }

    /// Whether a task is registered for the gallery.
    pub fn has_gallery(&self, gallery_id: &GalleryId) -> (b: bool)
        ensures
            b == self@.contains_key(gallery_id@),
    {
        self.tasks.contains_gallery(gallery_id)
    }

    /// The galleries with a registered task, each exactly once: the fire
    /// loop's worklist.
    pub fn scheduled_galleries(&self) -> (r: Vec<GalleryId>)
        ensures
            forall|i: int| 0 <= i < r@.len() ==> self@.contains_key(#[trigger] r@[i]@),
            forall|k: Seq<char>| #[trigger] self@.contains_key(k) ==> exists|i: int|
                0 <= i < r@.len() && r@[i]@ == k,
            forall|i: int, j: int| 0 <= i < j < r@.len() ==> r@[i]@ != r@[j]@,
    {
        self.tasks.gallery_ids()
    }

    /// The instant the gallery's registered cron expression next fires,
    /// strictly after `now`; nothing when no task is registered or the
    /// expression never matches again.
    pub fn next_fire_time(&self, gallery_id: &GalleryId, now: UnixUtcDateTime) -> (r: Option<
        UnixUtcDateTime,
    >)
        ensures
            r == (match spec_next_fire(self@, gallery_id@, now.0) {
                Some(t) => Some(UnixUtcDateTime(t)),
                None => None,
            }),
            r matches Some(t) ==> t.0 > now.0,
    {
        match self.tasks.get(gallery_id) {
            None => None,
            Some(task) => match next_occurrence_unix(task.scraping_periodicity.0.as_str(), now.0) {
                Some(t) => Some(UnixUtcDateTime(t)),
                None => None,
            },
        }
    }

    /// Whether the gallery's schedule calls for a fire now: its first match
    /// strictly after the previous fire has arrived by `now`.
    pub fn fire_due(
        &self,
        gallery_id: &GalleryId,
        last_fire: UnixUtcDateTime,
        now: UnixUtcDateTime,
    ) -> (b: bool)
        ensures
            b == spec_fire_due(self@, gallery_id@, last_fire.0, now.0),
    {
        match self.next_fire_time(gallery_id, last_fire) {
            Some(t) => t.0 <= now.0,
            None => false,
        }
    }

    /// Starts a fire: asks the state tracker to hand over the gallery's
    /// payload in the given stage. The surrounding task loop awaits the
    /// returned reply receiver and feeds the outcome to `finish_fire`.
    pub fn begin_fire(
        &self,
        gallery_id: GalleryId,
        expected: GalleryPipelineStateTypes,
    ) -> (r: Result<
        tokio::sync::oneshot::Receiver<Result<GalleryPipelineStates, StateTrackerError>>,
        MessageError,
    >)
        ensures
            r matches Err(e) ==> e == MessageError::SendFailure,
    {
        self.state_tracker_sender.take_gallery_state(gallery_id, expected)
    }

    /// Finishes a fire, given what the take returned: dispatches the
    /// search-scraping payload exactly when the registered task and the take
    /// outcome call for one, and reports whether one was dispatched. A
    /// failed take, an unregistered gallery or an ineligible stage dispatch
    /// nothing — the tick is skipped silently.
    pub fn finish_fire(
        &self,
        gallery_id: &GalleryId,
        take_result: Result<GalleryPipelineStates, StateTrackerError>,
    ) -> (r: Result<bool, MessageError>)
        ensures
            ({
                let decision = if self@.contains_key(gallery_id@) {
                    spec_fire_decision(self@[gallery_id@], take_result)
                } else {
                    Option::<GallerySearchScrapingState>::None
                };
                match r {
                    Ok(dispatched) => dispatched == (decision is Some),
                    Err(_) => decision is Some,
                }
            }),
    {
        match self.tasks.get(gallery_id) {
            None => Ok(false),
            Some(task) => match fire_transform(task, take_result) {
                None => Ok(false),
                Some(payload) => match self.search_scraper_sender.send(
                    SearchScraperMessage::ScrapeSearch(payload),
                ) {
                    Ok(()) => Ok(true),
                    Err(e) => Err(e),
                },
            },
        }
    }
}

/// Configuration for the scraper scheduler module. Everything the scheduler
/// needs per gallery travels in the registration messages themselves, so
/// nothing is read from here yet; the type keeps the module's construction
/// uniform with the other modules'.
pub struct ScraperSchedulerConfig {}

/// Module in charge of scheduling scraping tasks.
///
/// Gallery creation, update and deletion are received through
/// `msg_receiver`; whenever a gallery is scheduled to be scraped, its
/// payload is sent through the search scraper's sender.
pub struct ScraperSchedulerModule {
    pub scheduler: SchedulerHandler,
    pub msg_receiver: ScraperSchedulerReceiver,
    pub search_scraper_sender: SearchScraperSender,
}

impl ScraperSchedulerModule {
    /// Initializes the module.
    pub fn init(
        config: ScraperSchedulerConfig,
        msg_receiver: ScraperSchedulerReceiver,
        search_scraper_sender: SearchScraperSender,
        state_tracker_sender: StateTrackerSender,
    ) -> (m: Self)
        ensures
            m.scheduler@ == Map::<Seq<char>, GallerySchedulerState>::empty(),
    {
        let ScraperSchedulerConfig {} = config;
        ScraperSchedulerModule {
            scheduler: SchedulerHandler::new(search_scraper_sender.clone(), state_tracker_sender),
            msg_receiver,
            search_scraper_sender,
        }
    }

    /// Handles one message variant: applies the operation to the task table
    /// and replies to the requester with the domain result. Returns whether
    /// the reply was delivered; a reply can fail only because the requester
    /// is gone, which leaves no one to notify.
    pub fn process_msg(&mut self, msg: SchedulerMessage) -> (delivered: bool)
        ensures
            final(self).scheduler@ == (match msg {
                SchedulerMessage::NewGallery(req) => spec_sched_add(
                    old(self).scheduler@,
                    req.data,
                ).0,
                SchedulerMessage::DeleteGallery(req) => spec_sched_delete(
                    old(self).scheduler@,
                    req.data@,
                ).0,
                SchedulerMessage::UpdateGallery(req) => spec_sched_update(
                    old(self).scheduler@,
                    req.data,
                ).0,
            }),
    {
        match msg {
            SchedulerMessage::NewGallery(req) => {
                let result = self.scheduler.add_gallery(req.data);
                req.reply.send(result).is_ok()
            },
            SchedulerMessage::DeleteGallery(req) => {
                let result = self.scheduler.delete_gallery(&req.data);
                req.reply.send(result).is_ok()
            },
            SchedulerMessage::UpdateGallery(req) => {
                let result = self.scheduler.update_gallery(req.data);
                req.reply.send(result).is_ok()
            },
        }
    }
}

/// Law: with a gallery's slot present in the initialization stage, a fire's
/// take succeeds and hands over exactly that payload, leaving the slot
/// `Taken`, and the fire dispatches exactly one search-scraping payload; a
/// second fire before any update finds the slot `Taken`, so its take fails
/// and it dispatches nothing, whatever stage it expects.
pub proof fn lemma_no_double_fire(
    m: SlotMap,
    task: GallerySchedulerState,
    init: GallerySchedulerState,
    id: Seq<char>,
    second_tag: GalleryPipelineStateTypes,
)
    requires
        m.contains_key(id),
        m[id] == GallerySlot::Present(GalleryPipelineStates::Initialization(init)),
    ensures
        ({
            let first = spec_take(m, id, GalleryPipelineStateTypes::Initialization);
            &&& first.1 == Ok::<GalleryPipelineStates, StateTrackerError>(
                GalleryPipelineStates::Initialization(init),
            )
            &&& first.0[id] == GallerySlot::Taken
            &&& spec_fire_decision(task, first.1) == Some(init.spec_next_stage())
            &&& spec_take(first.0, id, second_tag).1 == Err::<
                GalleryPipelineStates,
                StateTrackerError,
            >(StateTrackerError::GalleryStateTaken)
            &&& spec_fire_decision(task, spec_take(first.0, id, second_tag).1) is None
        }),
{
}

} // verus!
