use std::collections::HashMap;

use monolith::domain::{
    EvaluationCriteria, GalleryId, GallerySearchCriteria, Marketplace, UnixUtcDateTime,
    ValidCronString,
};
use monolith::message_bus::message_channel;
use monolith::messages::{StateTrackerMessage, StateTrackerSender};
use monolith::pipeline_states::{
    GalleryPipelineStateTypes, GalleryPipelineStates, GallerySchedulerState,
};
use monolith::state_tracker::{StateTracker, StateTrackerError};

fn gid(s: &str) -> GalleryId {
    GalleryId(s.to_string())
}

fn scheduler_state(id: &str) -> GallerySchedulerState {
    let mut datetimes = HashMap::new();
    datetimes.insert(Marketplace::Mercari, UnixUtcDateTime(1_700_000_000));
    GallerySchedulerState {
        gallery_id: gid(id),
        scraping_periodicity: ValidCronString("0 * * * *".to_string()),
        search_criteria: GallerySearchCriteria("mechanical keyboards".to_string()),
        marketplace_previous_scraped_datetimes: datetimes,
        evaluation_criteria: EvaluationCriteria("are all keycaps present?".to_string()),
    }
}

fn initial(id: &str) -> GalleryPipelineStates {
    GalleryPipelineStates::Initialization(scheduler_state(id))
}

#[test]
fn add_then_check_doesnt_exist_fails() {
    let mut tracker = StateTracker::new();
    assert_eq!(tracker.check_gallery_doesnt_exist(&gid("G1")), Ok(()));
    assert_eq!(tracker.add_gallery(gid("G1"), initial("G1")), Ok(()));
    assert_eq!(
        tracker.check_gallery_doesnt_exist(&gid("G1")),
        Err(StateTrackerError::GalleryAlreadyExists)
    );
}

#[test]
fn add_twice_fails() {
    let mut tracker = StateTracker::new();
    assert_eq!(tracker.add_gallery(gid("G1"), initial("G1")), Ok(()));
    assert_eq!(
        tracker.add_gallery(gid("G1"), initial("G1")),
        Err(StateTrackerError::GalleryAlreadyExists)
    );
}

#[test]
fn take_twice_fails_with_taken() {
    let mut tracker = StateTracker::new();
    tracker.add_gallery(gid("G1"), initial("G1")).unwrap();
    let first = tracker.take_gallery_state(&gid("G1"), &GalleryPipelineStateTypes::Initialization);
    assert_eq!(first, Ok(initial("G1")));
    let second = tracker.take_gallery_state(&gid("G1"), &GalleryPipelineStateTypes::Initialization);
    assert_eq!(second, Err(StateTrackerError::GalleryStateTaken));
}

#[test]
fn update_without_take_fails() {
    let mut tracker = StateTracker::new();
    tracker.add_gallery(gid("G1"), initial("G1")).unwrap();
    assert_eq!(
        tracker.update_gallery_state(&gid("G1"), initial("G1")),
        Err(StateTrackerError::GalleryStateNotTaken)
    );
    // The failed update left the slot present and untouched.
    assert_eq!(
        tracker.check_gallery_state(&gid("G1"), &GalleryPipelineStateTypes::Initialization),
        Ok(())
    );
}

#[test]
fn take_wrong_tag_fails_and_leaves_slot_unchanged() {
    let mut tracker = StateTracker::new();
    tracker.add_gallery(gid("G1"), initial("G1")).unwrap();
    let taken = tracker.take_gallery_state(&gid("G1"), &GalleryPipelineStateTypes::ItemScraping);
    assert_eq!(taken, Err(StateTrackerError::StateMismatch));
    // A check with the actual tag still succeeds.
    assert_eq!(
        tracker.check_gallery_state(&gid("G1"), &GalleryPipelineStateTypes::Initialization),
        Ok(())
    );
}

#[test]
fn check_state_reports_taken() {
    let mut tracker = StateTracker::new();
    tracker.add_gallery(gid("G1"), initial("G1")).unwrap();
    tracker
        .take_gallery_state(&gid("G1"), &GalleryPipelineStateTypes::Initialization)
        .unwrap();
    assert_eq!(
        tracker.check_gallery_state(&gid("G1"), &GalleryPipelineStateTypes::Initialization),
        Err(StateTrackerError::GalleryStateTaken)
    );
}

#[test]
fn remove_present_slot_then_everything_not_found() {
    let mut tracker = StateTracker::new();
    tracker.add_gallery(gid("G1"), initial("G1")).unwrap();
    assert_eq!(tracker.remove_gallery(&gid("G1")), Ok(()));
    assert_eq!(
        tracker.check_gallery_state(&gid("G1"), &GalleryPipelineStateTypes::Initialization),
        Err(StateTrackerError::GalleryNotFound)
    );
    assert_eq!(
        tracker.take_gallery_state(&gid("G1"), &GalleryPipelineStateTypes::Initialization),
        Err(StateTrackerError::GalleryNotFound)
    );
    assert_eq!(
        tracker.update_gallery_state(&gid("G1"), initial("G1")),
        Err(StateTrackerError::GalleryNotFound)
    );
    assert_eq!(tracker.remove_gallery(&gid("G1")), Err(StateTrackerError::GalleryNotFound));
}

#[test]
fn remove_taken_slot_succeeds() {
    let mut tracker = StateTracker::new();
    tracker.add_gallery(gid("G1"), initial("G1")).unwrap();
    tracker
        .take_gallery_state(&gid("G1"), &GalleryPipelineStateTypes::Initialization)
        .unwrap();
    assert_eq!(tracker.remove_gallery(&gid("G1")), Ok(()));
    assert_eq!(
        tracker.check_gallery_state(&gid("G1"), &GalleryPipelineStateTypes::Initialization),
        Err(StateTrackerError::GalleryNotFound)
    );
}

#[test]
fn operations_on_absent_gallery_fail_not_found() {
    let mut tracker = StateTracker::new();
    assert_eq!(
        tracker.check_gallery_state(&gid("nope"), &GalleryPipelineStateTypes::Final),
        Err(StateTrackerError::GalleryNotFound)
    );
    assert_eq!(
        tracker.take_gallery_state(&gid("nope"), &GalleryPipelineStateTypes::Final),
        Err(StateTrackerError::GalleryNotFound)
    );
    assert_eq!(
        tracker.update_gallery_state(&gid("nope"), initial("nope")),
        Err(StateTrackerError::GalleryNotFound)
    );
    assert_eq!(tracker.remove_gallery(&gid("nope")), Err(StateTrackerError::GalleryNotFound));
}

#[test]
fn lease_cycle_take_update_take() {
    let mut tracker = StateTracker::new();
    tracker.add_gallery(gid("G1"), initial("G1")).unwrap();
    let payload = tracker
        .take_gallery_state(&gid("G1"), &GalleryPipelineStateTypes::Initialization)
        .unwrap();
    let next = match payload {
        GalleryPipelineStates::Initialization(s) => {
            GalleryPipelineStates::SearchScraping(s.to_next_stage())
        }
        other => panic!("expected an initialization payload, got {other:?}"),
    };
    assert_eq!(tracker.update_gallery_state(&gid("G1"), next), Ok(()));
    assert_eq!(
        tracker.check_gallery_state(&gid("G1"), &GalleryPipelineStateTypes::SearchScraping),
        Ok(())
    );
    let retaken =
        tracker.take_gallery_state(&gid("G1"), &GalleryPipelineStateTypes::SearchScraping);
    assert!(retaken.is_ok());
}

#[test]
fn handle_message_applies_operation_and_replies() {
    let (sender, receiver) = message_channel();
    let tracker_sender = StateTrackerSender::new(sender);
    let mut inbound = receiver.into_inner();
    let mut tracker = StateTracker::new();

    let reply = tracker_sender.add_gallery(gid("G1"), initial("G1")).unwrap();
    let msg = inbound.blocking_recv().unwrap();
    assert!(tracker.handle_message(msg));
    assert_eq!(reply.blocking_recv().unwrap(), Ok(()));

    let reply = tracker_sender.check_gallery_doesnt_exist(gid("G1")).unwrap();
    let msg = inbound.blocking_recv().unwrap();
    assert!(tracker.handle_message(msg));
    assert_eq!(
        reply.blocking_recv().unwrap(),
        Err(StateTrackerError::GalleryAlreadyExists)
    );

    let reply = tracker_sender
        .take_gallery_state(gid("G1"), GalleryPipelineStateTypes::Initialization)
        .unwrap();
    let msg = inbound.blocking_recv().unwrap();
    assert!(tracker.handle_message(msg));
    assert_eq!(reply.blocking_recv().unwrap(), Ok(initial("G1")));

    let reply = tracker_sender
        .update_gallery_state(gid("G1"), initial("G1"))
        .unwrap();
    let msg = inbound.blocking_recv().unwrap();
    assert!(tracker.handle_message(msg));
    assert_eq!(reply.blocking_recv().unwrap(), Ok(()));

    let reply = tracker_sender
        .check_gallery_state(gid("G1"), GalleryPipelineStateTypes::Initialization)
        .unwrap();
    let msg = inbound.blocking_recv().unwrap();
    assert!(tracker.handle_message(msg));
    assert_eq!(reply.blocking_recv().unwrap(), Ok(()));

    let reply = tracker_sender.remove_gallery(gid("G1")).unwrap();
    let msg = inbound.blocking_recv().unwrap();
    assert!(tracker.handle_message(msg));
    assert_eq!(reply.blocking_recv().unwrap(), Ok(()));
}

#[test]
fn message_constructors_wrap_the_right_variant() {
    let (msg, _reply) = StateTrackerMessage::new_take_gallery_state(
        gid("G1"),
        GalleryPipelineStateTypes::Final,
    );
    match msg {
        StateTrackerMessage::TakeGalleryState(req) => {
            assert_eq!(req.data.0, gid("G1"));
            assert_eq!(req.data.1, GalleryPipelineStateTypes::Final);
        }
        _ => panic!("the take constructor built a different message variant"),
    }
    let (msg, _reply) = StateTrackerMessage::new_remove_gallery(gid("G2"));
    match msg {
        StateTrackerMessage::RemoveGallery(req) => assert_eq!(req.data, gid("G2")),
        _ => panic!("the removal constructor built a different message variant"),
    }
}

#[test]
fn handle_message_reports_undeliverable_reply() {
    let (sender, receiver) = message_channel();
    let tracker_sender = StateTrackerSender::new(sender);
    let mut inbound = receiver.into_inner();
    let mut tracker = StateTracker::new();

    let reply = tracker_sender.add_gallery(gid("G1"), initial("G1")).unwrap();
    drop(reply);
    let msg = inbound.blocking_recv().unwrap();
    // The requester is gone, so the reply cannot be delivered — but the
    // operation itself was still applied.
    assert!(!tracker.handle_message(msg));
    assert_eq!(
        tracker.check_gallery_doesnt_exist(&gid("G1")),
        Err(StateTrackerError::GalleryAlreadyExists)
    );
}
