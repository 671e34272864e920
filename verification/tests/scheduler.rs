use std::collections::HashMap;

use monolith::domain::{
    EvaluationCriteria, GalleryId, GallerySearchCriteria, Marketplace, UnixUtcDateTime,
    ValidCronString,
};
use monolith::message_bus::{Request, message_channel};
use monolith::messages::{SchedulerMessage, SearchScraperMessage, StateTrackerSender};
use monolith::pipeline_states::{
    GalleryFinalState, GalleryPipelineStateTypes, GalleryPipelineStates, GallerySchedulerState,
    GallerySearchScrapingState,
};
use monolith::scheduler::{
    ScraperSchedulerConfig, ScraperSchedulerModule, SchedulerError, fire_transform,
    next_take_attempt,
};
use monolith::state_tracker::{StateTracker, StateTrackerError};

fn gid(s: &str) -> GalleryId {
    GalleryId(s.to_string())
}

fn scheduler_state(id: &str) -> GallerySchedulerState {
    let mut datetimes = HashMap::new();
    datetimes.insert(Marketplace::Mercari, UnixUtcDateTime(1_700_000_000));
    GallerySchedulerState {
        gallery_id: gid(id),
        scraping_periodicity: ValidCronString("0 * * * *".to_string()),
        search_criteria: GallerySearchCriteria("fountain pens".to_string()),
        marketplace_previous_scraped_datetimes: datetimes,
        evaluation_criteria: EvaluationCriteria("does the nib write?".to_string()),
    }
}

/// A module wired to fresh channels, together with the other ends a test
/// drives: the scheduler's inbound sender, the search scraper's inbound
/// queue, and the state tracker's inbound queue.
fn wired_module() -> (
    ScraperSchedulerModule,
    tokio::sync::mpsc::UnboundedReceiver<SearchScraperMessage>,
    tokio::sync::mpsc::UnboundedReceiver<monolith::messages::StateTrackerMessage>,
) {
    let (tracker_sender, tracker_receiver) = message_channel();
    let (scraper_sender, scraper_receiver) = message_channel();
    let (_scheduler_sender, scheduler_receiver) = message_channel();
    let module = ScraperSchedulerModule::init(
        ScraperSchedulerConfig {},
        scheduler_receiver,
        scraper_sender,
        StateTrackerSender::new(tracker_sender),
    );
    (module, scraper_receiver.into_inner(), tracker_receiver.into_inner())
}

#[test]
fn add_gallery_twice_fails() {
    let (mut module, _scraper_rx, _tracker_rx) = wired_module();
    assert_eq!(module.scheduler.add_gallery(scheduler_state("G1")), Ok(()));
    assert!(module.scheduler.has_gallery(&gid("G1")));
    assert_eq!(
        module.scheduler.add_gallery(scheduler_state("G1")),
        Err(SchedulerError::GalleryAlreadyScheduled)
    );
}

#[test]
fn update_gallery_requires_existing_task() {
    let (mut module, _scraper_rx, _tracker_rx) = wired_module();
    assert_eq!(
        module.scheduler.update_gallery(scheduler_state("G1")),
        Err(SchedulerError::GalleryNotFound)
    );
    module.scheduler.add_gallery(scheduler_state("G1")).unwrap();
    let mut changed = scheduler_state("G1");
    changed.scraping_periodicity = ValidCronString("30 2 * * *".to_string());
    assert_eq!(module.scheduler.update_gallery(changed), Ok(()));
}

#[test]
fn delete_gallery_requires_existing_task() {
    let (mut module, _scraper_rx, _tracker_rx) = wired_module();
    assert_eq!(
        module.scheduler.delete_gallery(&gid("G1")),
        Err(SchedulerError::GalleryNotFound)
    );
    module.scheduler.add_gallery(scheduler_state("G1")).unwrap();
    assert_eq!(module.scheduler.delete_gallery(&gid("G1")), Ok(()));
    assert!(!module.scheduler.has_gallery(&gid("G1")));
}

#[test]
fn process_msg_registers_and_replies() {
    let (mut module, _scraper_rx, _tracker_rx) = wired_module();
    let (req, reply) = Request::new(scheduler_state("G1"));
    assert!(module.process_msg(SchedulerMessage::NewGallery(req)));
    assert_eq!(reply.blocking_recv().unwrap(), Ok(()));

    let (req, reply) = Request::new(scheduler_state("G1"));
    assert!(module.process_msg(SchedulerMessage::NewGallery(req)));
    assert_eq!(
        reply.blocking_recv().unwrap(),
        Err(SchedulerError::GalleryAlreadyScheduled)
    );

    let (req, reply) = Request::new(gid("G2"));
    assert!(module.process_msg(SchedulerMessage::DeleteGallery(req)));
    assert_eq!(reply.blocking_recv().unwrap(), Err(SchedulerError::GalleryNotFound));

    let (req, reply) = Request::new(scheduler_state("G1"));
    assert!(module.process_msg(SchedulerMessage::UpdateGallery(req)));
    assert_eq!(reply.blocking_recv().unwrap(), Ok(()));
}

#[test]
fn fire_transform_maps_initialization_forward() {
    let task = scheduler_state("G1");
    let payload = GalleryPipelineStates::Initialization(scheduler_state("G1"));
    let dispatched = fire_transform(&task, Ok(payload));
    assert_eq!(dispatched, Some(scheduler_state("G1").to_next_stage()));
}

#[test]
fn fire_transform_cycles_final_back_to_search_scraping() {
    let task = scheduler_state("G1");
    let mut updated = HashMap::new();
    updated.insert(Marketplace::Mercari, UnixUtcDateTime(1_700_900_000));
    let final_state = GalleryFinalState {
        gallery_id: gid("G1"),
        items: HashMap::new(),
        marketplace_updated_datetimes: updated.clone(),
        failed_marketplace_reasons: HashMap::new(),
    };
    let dispatched = fire_transform(&task, Ok(GalleryPipelineStates::Final(final_state)));
    let expected = GallerySearchScrapingState {
        gallery_id: gid("G1"),
        search_criteria: task.search_criteria.clone(),
        marketplace_previous_scraped_datetimes: updated,
        evaluation_criteria: task.evaluation_criteria.clone(),
    };
    assert_eq!(dispatched, Some(expected));
}

#[test]
fn fire_transform_skips_failed_or_ineligible_takes() {
    let task = scheduler_state("G1");
    assert_eq!(fire_transform(&task, Err(StateTrackerError::GalleryStateTaken)), None);
    assert_eq!(fire_transform(&task, Err(StateTrackerError::GalleryNotFound)), None);
    let mid_pipeline = GalleryPipelineStates::SearchScraping(scheduler_state("G1").to_next_stage());
    assert_eq!(fire_transform(&task, Ok(mid_pipeline)), None);
}

#[test]
fn fire_takes_initialization_first_then_final_on_mismatch() {
    // A fire's first take expects a gallery's very first stage.
    assert_eq!(next_take_attempt(&None), Some(GalleryPipelineStateTypes::Initialization));
    // A stage mismatch there means the gallery has run before: retry once,
    // expecting the final stage.
    let mismatch = Some((
        GalleryPipelineStateTypes::Initialization,
        Err(StateTrackerError::StateMismatch),
    ));
    assert_eq!(next_take_attempt(&mismatch), Some(GalleryPipelineStateTypes::Final));
    // Any other outcome ends the taking: a second mismatch, a lease already
    // out, a missing gallery, or a successful take.
    let final_mismatch = Some((
        GalleryPipelineStateTypes::Final,
        Err(StateTrackerError::StateMismatch),
    ));
    assert_eq!(next_take_attempt(&final_mismatch), None);
    let taken = Some((
        GalleryPipelineStateTypes::Initialization,
        Err(StateTrackerError::GalleryStateTaken),
    ));
    assert_eq!(next_take_attempt(&taken), None);
    let missing = Some((
        GalleryPipelineStateTypes::Initialization,
        Err(StateTrackerError::GalleryNotFound),
    ));
    assert_eq!(next_take_attempt(&missing), None);
    let succeeded = Some((
        GalleryPipelineStateTypes::Initialization,
        Ok(GalleryPipelineStates::Initialization(scheduler_state("G1"))),
    ));
    assert_eq!(next_take_attempt(&succeeded), None);
}

#[test]
fn scheduled_galleries_lists_each_task_once() {
    let (mut module, _scraper_rx, _tracker_rx) = wired_module();
    assert!(module.scheduler.scheduled_galleries().is_empty());
    module.scheduler.add_gallery(scheduler_state("G1")).unwrap();
    module.scheduler.add_gallery(scheduler_state("G2")).unwrap();
    let mut ids: Vec<String> =
        module.scheduler.scheduled_galleries().into_iter().map(|g| g.0).collect();
    ids.sort();
    assert_eq!(ids, vec!["G1".to_string(), "G2".to_string()]);
    module.scheduler.delete_gallery(&gid("G1")).unwrap();
    let ids: Vec<String> =
        module.scheduler.scheduled_galleries().into_iter().map(|g| g.0).collect();
    assert_eq!(ids, vec!["G2".to_string()]);
}

#[test]
fn fire_dispatches_once_and_second_fire_is_skipped() {
    let (mut module, mut scraper_rx, mut tracker_rx) = wired_module();
    let mut tracker = StateTracker::new();

    // Registration flow: the slot first, then the recurring task.
    tracker
        .add_gallery(gid("G1"), GalleryPipelineStates::Initialization(scheduler_state("G1")))
        .unwrap();
    module.scheduler.add_gallery(scheduler_state("G1")).unwrap();

    // First fire: the take succeeds, exactly one payload is dispatched, and
    // the slot is left taken.
    let take_reply = module
        .scheduler
        .begin_fire(gid("G1"), GalleryPipelineStateTypes::Initialization)
        .unwrap();
    let take_msg = tracker_rx.blocking_recv().unwrap();
    assert!(tracker.handle_message(take_msg));
    let take_result = take_reply.blocking_recv().unwrap();
    assert_eq!(module.scheduler.finish_fire(&gid("G1"), take_result), Ok(true));
    let dispatched = scraper_rx.try_recv().unwrap();
    assert_eq!(
        dispatched,
        SearchScraperMessage::ScrapeSearch(scheduler_state("G1").to_next_stage())
    );
    assert!(scraper_rx.try_recv().is_err());
    assert_eq!(
        tracker.check_gallery_state(&gid("G1"), &GalleryPipelineStateTypes::Initialization),
        Err(StateTrackerError::GalleryStateTaken)
    );

    // Second fire before any update: the take fails, nothing is dispatched.
    let take_reply = module
        .scheduler
        .begin_fire(gid("G1"), GalleryPipelineStateTypes::Initialization)
        .unwrap();
    let take_msg = tracker_rx.blocking_recv().unwrap();
    assert!(tracker.handle_message(take_msg));
    let take_result = take_reply.blocking_recv().unwrap();
    assert_eq!(take_result, Err(StateTrackerError::GalleryStateTaken));
    assert_eq!(module.scheduler.finish_fire(&gid("G1"), take_result), Ok(false));
    assert!(scraper_rx.try_recv().is_err());
}

#[test]
fn fire_for_unregistered_gallery_dispatches_nothing() {
    let (module, mut scraper_rx, _tracker_rx) = wired_module();
    let payload = GalleryPipelineStates::Initialization(scheduler_state("G9"));
    assert_eq!(module.scheduler.finish_fire(&gid("G9"), Ok(payload)), Ok(false));
    assert!(scraper_rx.try_recv().is_err());
}
