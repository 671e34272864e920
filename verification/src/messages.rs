//! The typed message contracts between the core's modules: one request type
//! per operation, grouped into each module's inbound message set, and the
//! sender handles call sites use.

use vstd::prelude::*;
use crate::domain::GalleryId;
use crate::message_bus::{MessageError, MessageReceiver, MessageSender, Request};
use crate::pipeline_states::{
    GalleryPipelineStateTypes, GalleryPipelineStates, GallerySchedulerState,
    GallerySearchScrapingState,
};
use crate::scheduler::SchedulerError;
use crate::state_tracker::StateTrackerError;

verus! {

/// Request to add a gallery to the state tracker.
pub type AddGalleryMessage = Request<
    (GalleryId, GalleryPipelineStates),
    Result<(), StateTrackerError>,
>;

/// Request to verify that a gallery has no slot yet.
pub type CheckGalleryDoesntExistMessage = Request<GalleryId, Result<(), StateTrackerError>>;

/// Request to verify that a gallery's slot is present with the given tag.
pub type CheckGalleryStateMessage = Request<
    (GalleryId, GalleryPipelineStateTypes),
    Result<(), StateTrackerError>,
>;

/// Request to take a gallery's payload, leaving its slot `Taken`.
pub type TakeGalleryStateMessage = Request<
    (GalleryId, GalleryPipelineStateTypes),
    Result<GalleryPipelineStates, StateTrackerError>,
>;

/// Request to release a lease by storing the new payload.
pub type UpdateGalleryStateMessage = Request<
    (GalleryId, GalleryPipelineStates),
    Result<(), StateTrackerError>,
>;

/// Request to delete a gallery's slot.
pub type RemoveGalleryMessage = Request<GalleryId, Result<(), StateTrackerError>>;

/// The state tracker's inbound message set.
pub enum StateTrackerMessage {
    AddGallery(AddGalleryMessage),
    CheckGalleryDoesntExist(CheckGalleryDoesntExistMessage),
    CheckGalleryState(CheckGalleryStateMessage),
    TakeGalleryState(TakeGalleryStateMessage),
    UpdateGalleryState(UpdateGalleryStateMessage),
    RemoveGallery(RemoveGalleryMessage),
}

impl StateTrackerMessage {
    /// Builds the add-gallery request around its payload, paired with the
    /// single-use receiver its reply will arrive on.
    pub fn new_add_gallery(gallery_id: GalleryId, state: GalleryPipelineStates) -> (r: (
        StateTrackerMessage,
        tokio::sync::oneshot::Receiver<Result<(), StateTrackerError>>,
    ))
        ensures
            r.0 matches StateTrackerMessage::AddGallery(req) && req.data == (gallery_id, state),
    {
        let (msg, receiver) = AddGalleryMessage::new((gallery_id, state));
        (StateTrackerMessage::AddGallery(msg), receiver)
    }

    /// Builds the existence-check request around its payload.
    pub fn new_check_gallery_doesnt_exist(gallery_id: GalleryId) -> (r: (
        StateTrackerMessage,
        tokio::sync::oneshot::Receiver<Result<(), StateTrackerError>>,
    ))
        ensures
            r.0 matches StateTrackerMessage::CheckGalleryDoesntExist(req) && req.data == gallery_id,
    {
        let (msg, receiver) = CheckGalleryDoesntExistMessage::new(gallery_id);
        (StateTrackerMessage::CheckGalleryDoesntExist(msg), receiver)
    }

    /// Builds the stage-check request around its payload.
    pub fn new_check_gallery_state(
        gallery_id: GalleryId,
        state_type: GalleryPipelineStateTypes,
    ) -> (r: (
        StateTrackerMessage,
        tokio::sync::oneshot::Receiver<Result<(), StateTrackerError>>,
    ))
        ensures
            r.0 matches StateTrackerMessage::CheckGalleryState(req) && req.data == (
                gallery_id,
                state_type,
            ),
    {
        let (msg, receiver) = CheckGalleryStateMessage::new((gallery_id, state_type));
        (StateTrackerMessage::CheckGalleryState(msg), receiver)
    }

    /// Builds the take request around its payload.
    pub fn new_take_gallery_state(
        gallery_id: GalleryId,
        state_type: GalleryPipelineStateTypes,
    ) -> (r: (
        StateTrackerMessage,
        tokio::sync::oneshot::Receiver<Result<GalleryPipelineStates, StateTrackerError>>,
    ))
        ensures
            r.0 matches StateTrackerMessage::TakeGalleryState(req) && req.data == (
                gallery_id,
                state_type,
            ),
    {
        let (msg, receiver) = TakeGalleryStateMessage::new((gallery_id, state_type));
        (StateTrackerMessage::TakeGalleryState(msg), receiver)
    }

    /// Builds the lease-release request around its payload.
    pub fn new_update_gallery_state(
        gallery_id: GalleryId,
        state: GalleryPipelineStates,
    ) -> (r: (
        StateTrackerMessage,
        tokio::sync::oneshot::Receiver<Result<(), StateTrackerError>>,
    ))
        ensures
            r.0 matches StateTrackerMessage::UpdateGalleryState(req) && req.data == (
                gallery_id,
                state,
            ),
    {
        let (msg, receiver) = UpdateGalleryStateMessage::new((gallery_id, state));
        (StateTrackerMessage::UpdateGalleryState(msg), receiver)
    }

    /// Builds the removal request around its payload.
    pub fn new_remove_gallery(gallery_id: GalleryId) -> (r: (
        StateTrackerMessage,
        tokio::sync::oneshot::Receiver<Result<(), StateTrackerError>>,
    ))
        ensures
            r.0 matches StateTrackerMessage::RemoveGallery(req) && req.data == gallery_id,
    {
        let (msg, receiver) = RemoveGalleryMessage::new(gallery_id);
        (StateTrackerMessage::RemoveGallery(msg), receiver)
    }
}

/// Request to register a new recurring scrape for a gallery.
pub type NewGalleryMessage = Request<GallerySchedulerState, Result<(), SchedulerError>>;

/// Request to cancel a gallery's recurring scrape.
pub type DeleteGalleryMessage = Request<GalleryId, Result<(), SchedulerError>>;

/// Request to replace a gallery's recurring scrape.
pub type UpdateGalleryMessage = Request<GallerySchedulerState, Result<(), SchedulerError>>;

/// The scraper scheduler's inbound message set.
pub enum SchedulerMessage {
    NewGallery(NewGalleryMessage),
    DeleteGallery(DeleteGalleryMessage),
    UpdateGallery(UpdateGalleryMessage),
}

/// The search-scraping module's inbound message set. That module is an
/// external collaborator of this core; the scheduler only dispatches into it.
#[derive(Debug, PartialEq)]
pub enum SearchScraperMessage {
    ScrapeSearch(GallerySearchScrapingState),
}

/// Handle for sending the scraper scheduler messages.
pub type ScraperSchedulerSender = MessageSender<SchedulerMessage>;

/// Handle for the scraper scheduler to receive messages.
pub type ScraperSchedulerReceiver = MessageReceiver<SchedulerMessage>;

/// Handle for sending messages to the search scraper.
pub type SearchScraperSender = MessageSender<SearchScraperMessage>;

/// Handle for the search scraper module to receive messages.
pub type SearchScraperReceiver = MessageReceiver<SearchScraperMessage>;

/// Handle for the state tracker to receive messages.
pub type StateTrackerReceiver = MessageReceiver<StateTrackerMessage>;

/// Handle for sending the state tracker messages.
///
/// Wraps messaging with one function per request kind: each builds the
/// request, sends it, and hands back the single-use receiver on which the
/// caller awaits the tracker's reply.
pub struct StateTrackerSender {
    sender: MessageSender<StateTrackerMessage>,
}

impl Clone for StateTrackerSender {
    fn clone(&self) -> Self {
        StateTrackerSender { sender: self.sender.clone() }
    }
}

impl StateTrackerSender {
    /// Initialize the message sender.
    pub fn new(sender: MessageSender<StateTrackerMessage>) -> Self {
        StateTrackerSender { sender }
    }

    /// Requests that a gallery be added with its initial payload; the reply
    /// is an `Err` if the gallery already exists. Fails only as the send
    /// does: the tracker's queue is gone.
    pub fn add_gallery(&self, gallery_id: GalleryId, state: GalleryPipelineStates) -> (r: Result<
        tokio::sync::oneshot::Receiver<Result<(), StateTrackerError>>,
        MessageError,
    >)
        ensures
            r matches Err(e) ==> e == MessageError::SendFailure,
    {
        let (msg, receiver) = StateTrackerMessage::new_add_gallery(gallery_id, state);
        match self.sender.send(msg) {
            Ok(()) => Ok(receiver),
            Err(e) => Err(e),
        }
    }

    /// Requests verification that a gallery doesn't exist; useful for
    /// modules to check before processing new galleries. The reply is an
    /// `Err` if it does.
    pub fn check_gallery_doesnt_exist(&self, gallery_id: GalleryId) -> (r: Result<
        tokio::sync::oneshot::Receiver<Result<(), StateTrackerError>>,
        MessageError,
    >)
        ensures
            r matches Err(e) ==> e == MessageError::SendFailure,
    {
        let (msg, receiver) = StateTrackerMessage::new_check_gallery_doesnt_exist(gallery_id);
        match self.sender.send(msg) {
            Ok(()) => Ok(receiver),
            Err(e) => Err(e),
        }
    }

    /// Requests verification that a gallery matches the given state type;
    /// the reply is an `Err` if it doesn't exist or doesn't match.
    pub fn check_gallery_state(
        &self,
        gallery_id: GalleryId,
        state_type: GalleryPipelineStateTypes,
    ) -> (r: Result<tokio::sync::oneshot::Receiver<Result<(), StateTrackerError>>, MessageError>)
        ensures
            r matches Err(e) ==> e == MessageError::SendFailure,
    {
        let (msg, receiver) = StateTrackerMessage::new_check_gallery_state(gallery_id, state_type);
        match self.sender.send(msg) {
            Ok(()) => Ok(receiver),
            Err(e) => Err(e),
        }
    }

    /// Requests a gallery's payload, leaving its slot `Taken`; the reply is
    /// an `Err` if it doesn't exist, its stage is wrong, or it is already
    /// taken.
    pub fn take_gallery_state(
        &self,
        gallery_id: GalleryId,
        state_type: GalleryPipelineStateTypes,
    ) -> (r: Result<
        tokio::sync::oneshot::Receiver<Result<GalleryPipelineStates, StateTrackerError>>,
        MessageError,
    >)
        ensures
            r matches Err(e) ==> e == MessageError::SendFailure,
    {
        let (msg, receiver) = StateTrackerMessage::new_take_gallery_state(gallery_id, state_type);
        match self.sender.send(msg) {
            Ok(()) => Ok(receiver),
            Err(e) => Err(e),
        }
    }

    /// Requests that a gallery's lease be released with the new payload; the
    /// reply is an `Err` if it doesn't exist or its state isn't taken.
    pub fn update_gallery_state(
        &self,
        gallery_id: GalleryId,
        state: GalleryPipelineStates,
    ) -> (r: Result<tokio::sync::oneshot::Receiver<Result<(), StateTrackerError>>, MessageError>)
        ensures
            r matches Err(e) ==> e == MessageError::SendFailure,
    {
        let (msg, receiver) = StateTrackerMessage::new_update_gallery_state(gallery_id, state);
        match self.sender.send(msg) {
            Ok(()) => Ok(receiver),
            Err(e) => Err(e),
        }
    }

    /// Requests that a gallery be removed from state; the reply is an `Err`
    /// if it doesn't exist.
    pub fn remove_gallery(&self, gallery_id: GalleryId) -> (r: Result<
        tokio::sync::oneshot::Receiver<Result<(), StateTrackerError>>,
        MessageError,
    >)
        ensures
            r matches Err(e) ==> e == MessageError::SendFailure,
    {
        let (msg, receiver) = StateTrackerMessage::new_remove_gallery(gallery_id);
        match self.sender.send(msg) {
            Ok(()) => Ok(receiver),
            Err(e) => Err(e),
        }
    }
}

} // verus!
