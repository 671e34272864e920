use std::collections::HashMap;

use monolith::domain::{
    EvaluationCriteria, GalleryId, GallerySearchCriteria, Marketplace, UnixUtcDateTime,
    ValidCronString,
};
use monolith::message_bus::message_channel;
use monolith::messages::StateTrackerSender;
use monolith::scheduler::SchedulerHandler;

fn gid(s: &str) -> GalleryId {
    GalleryId(s.to_string())
}

fn handler_with_task(id: &str, cron: &str) -> SchedulerHandler {
    let (tracker_sender, _tracker_receiver) = message_channel();
    let (scraper_sender, _scraper_receiver) = message_channel();
    let mut handler =
        SchedulerHandler::new(scraper_sender, StateTrackerSender::new(tracker_sender));
    let mut datetimes = HashMap::new();
    datetimes.insert(Marketplace::Mercari, UnixUtcDateTime(1_600_000_000));
    handler
        .add_gallery(monolith::pipeline_states::GallerySchedulerState {
            gallery_id: gid(id),
            scraping_periodicity: ValidCronString(cron.to_string()),
            search_criteria: GallerySearchCriteria("art books".to_string()),
            marketplace_previous_scraped_datetimes: datetimes,
            evaluation_criteria: EvaluationCriteria("first edition?".to_string()),
        })
        .unwrap();
    handler
}

// 1_700_000_000 seconds after the epoch is 22:13:20 UTC on a Tuesday; the
// hour that began at 22:00:00 started at 1_699_999_200, and the day at
// 1_699_920_000.

#[test]
fn hourly_schedule_fires_at_the_next_hour_boundary() {
    let handler = handler_with_task("G1", "0 * * * *");
    let next = handler.next_fire_time(&gid("G1"), UnixUtcDateTime(1_700_000_000));
    assert_eq!(next, Some(UnixUtcDateTime(1_700_002_800)));
}

#[test]
fn fire_on_a_boundary_is_strictly_after_it() {
    let handler = handler_with_task("G1", "0 * * * *");
    let next = handler.next_fire_time(&gid("G1"), UnixUtcDateTime(1_700_002_800));
    assert_eq!(next, Some(UnixUtcDateTime(1_700_006_400)));
}

#[test]
fn daily_schedule_fires_at_its_minute_and_hour() {
    let handler = handler_with_task("G1", "30 2 * * *");
    let next = handler.next_fire_time(&gid("G1"), UnixUtcDateTime(1_700_000_000));
    // 02:30:00 UTC on the following day.
    assert_eq!(next, Some(UnixUtcDateTime(1_700_015_400)));
}

#[test]
fn next_fire_for_unregistered_gallery_is_none() {
    let handler = handler_with_task("G1", "0 * * * *");
    assert_eq!(handler.next_fire_time(&gid("G2"), UnixUtcDateTime(1_700_000_000)), None);
}

#[test]
fn unparseable_expression_never_fires() {
    let handler = handler_with_task("G1", "not a cron expression");
    assert_eq!(handler.next_fire_time(&gid("G1"), UnixUtcDateTime(1_700_000_000)), None);
    assert!(!handler.fire_due(
        &gid("G1"),
        UnixUtcDateTime(1_700_000_000),
        UnixUtcDateTime(1_800_000_000)
    ));
}

#[test]
fn fire_due_once_the_boundary_has_arrived() {
    let handler = handler_with_task("G1", "0 * * * *");
    let last_fire = UnixUtcDateTime(1_700_000_000);
    // One second before the boundary: not due yet.
    assert!(!handler.fire_due(&gid("G1"), last_fire, UnixUtcDateTime(1_700_002_799)));
    // At the boundary and after it: due.
    assert!(handler.fire_due(&gid("G1"), last_fire, UnixUtcDateTime(1_700_002_800)));
    assert!(handler.fire_due(&gid("G1"), last_fire, UnixUtcDateTime(1_700_003_000)));
    // Not due for a gallery that was never registered.
    assert!(!handler.fire_due(&gid("G2"), last_fire, UnixUtcDateTime(1_700_003_000)));
}
