//! The state tracker: the single authoritative registry of which stage each
//! gallery is in, and whether some task currently owns its payload.
//!
//! Each gallery has exactly one slot, either `Present` (holding the stage
//! payload) or `Taken` (leased out to whichever task took it). Take and
//! update are the only transitions between the two; remove deletes a slot in
//! either state. Every operation is stated exactly, as a pure function from
//! the slot map before the call to the slot map after it together with the
//! returned domain result.

use vstd::prelude::*;
use crate::domain::GalleryId;
use crate::messages::StateTrackerMessage;
use crate::pipeline_states::{GalleryPipelineStateTypes, GalleryPipelineStates};
use crate::registry::GalleryMap;

verus! {

/// Why a state-tracker operation was refused.
#[derive(Clone, Copy, Debug, PartialEq, Eq, Structural)]
pub enum StateTrackerError {
    /// A slot (Present or Taken) already exists for the gallery.
    GalleryAlreadyExists,
    /// No slot exists for the gallery.
    GalleryNotFound,
    /// The slot is currently leased out.
    GalleryStateTaken,
    /// The slot is present but its stage tag differs from the expected one.
    StateMismatch,
    /// The slot is present, so there is no outstanding lease to release.
    GalleryStateNotTaken,
}

/// A gallery's slot: holding its stage payload, or leased out.
#[derive(Clone, Debug)]
pub enum GallerySlot {
    Present(GalleryPipelineStates),
    Taken,
}

/// The tracker's whole state as a specification value: gallery id to slot.
pub type SlotMap = Map<Seq<char>, GallerySlot>;

/// What `add_gallery` does: refuse any existing slot, else insert `Present`.
pub open spec fn spec_add(m: SlotMap, id: Seq<char>, state: GalleryPipelineStates) -> (
    SlotMap,
    Result<(), StateTrackerError>,
) {
    if m.contains_key(id) {
        (m, Err(StateTrackerError::GalleryAlreadyExists))
    } else {
        (m.insert(id, GallerySlot::Present(state)), Ok(()))
    }
}

/// What `check_gallery_doesnt_exist` returns; it never mutates.
pub open spec fn spec_check_doesnt_exist(m: SlotMap, id: Seq<char>) -> Result<
    (),
    StateTrackerError,
> {
    if m.contains_key(id) {
        Err(StateTrackerError::GalleryAlreadyExists)
    } else {
        Ok(())
    }
}

/// What `check_gallery_state` returns; it never mutates.
pub open spec fn spec_check_state(
    m: SlotMap,
    id: Seq<char>,
    tag: GalleryPipelineStateTypes,
) -> Result<(), StateTrackerError> {
    if !m.contains_key(id) {
        Err(StateTrackerError::GalleryNotFound)
    } else {
        match m[id] {
            GallerySlot::Taken => Err(StateTrackerError::GalleryStateTaken),
            GallerySlot::Present(state) => if state.spec_state_type() == tag {
                Ok(())
            } else {
                Err(StateTrackerError::StateMismatch)
            },
        }
    }
}

/// What `take_gallery_state` does: on success the slot becomes `Taken` and
/// the caller receives the payload; on any failure nothing changes.
pub open spec fn spec_take(m: SlotMap, id: Seq<char>, tag: GalleryPipelineStateTypes) -> (
    SlotMap,
    Result<GalleryPipelineStates, StateTrackerError>,
) {
    if !m.contains_key(id) {
        (m, Err(StateTrackerError::GalleryNotFound))
    } else {
        match m[id] {
            GallerySlot::Taken => (m, Err(StateTrackerError::GalleryStateTaken)),
            GallerySlot::Present(state) => if state.spec_state_type() == tag {
                (m.insert(id, GallerySlot::Taken), Ok(state))
            } else {
                (m, Err(StateTrackerError::StateMismatch))
            },
        }
    }
}

/// What `update_gallery_state` does: release an outstanding lease by storing
/// the new payload; refuse if no lease is outstanding.
pub open spec fn spec_update(m: SlotMap, id: Seq<char>, state: GalleryPipelineStates) -> (
    SlotMap,
    Result<(), StateTrackerError>,
) {
    if !m.contains_key(id) {
        (m, Err(StateTrackerError::GalleryNotFound))
    } else {
        match m[id] {
            GallerySlot::Present(_) => (m, Err(StateTrackerError::GalleryStateNotTaken)),
            GallerySlot::Taken => (m.insert(id, GallerySlot::Present(state)), Ok(())),
        }
    }
}

/// What `remove_gallery` does: delete the slot whatever its state.
pub open spec fn spec_remove(m: SlotMap, id: Seq<char>) -> (
    SlotMap,
    Result<(), StateTrackerError>,
) {
    if !m.contains_key(id) {
        (m, Err(StateTrackerError::GalleryNotFound))
    } else {
        (m.remove(id), Ok(()))
    }
}

/// The single-writer registry of gallery slots. All mutation of the slot map
/// goes through this value; in the running system one task owns it and
/// serializes every operation, which is what makes the take/update lease a
/// sound concurrency-control mechanism.
pub struct StateTracker {
    slots: GalleryMap<GallerySlot>,
}

impl View for StateTracker {
    type V = SlotMap;

    closed spec fn view(&self) -> SlotMap {
        self.slots@
    }
}

impl StateTracker {
    /// An empty tracker: no gallery exists.
    pub fn new() -> (t: Self)
        ensures
            t@ == Map::<Seq<char>, GallerySlot>::empty(),
    {
        StateTracker { slots: GalleryMap::new() }
    }

    /// Adds a gallery with its initial payload; fails with
    /// `GalleryAlreadyExists` if any slot, Present or Taken, already exists.
    pub fn add_gallery(&mut self, gallery_id: GalleryId, state: GalleryPipelineStates) -> (r:
        Result<(), StateTrackerError>)
        ensures
            final(self)@ == spec_add(old(self)@, gallery_id@, state).0,
            r == spec_add(old(self)@, gallery_id@, state).1,
    {
        if self.slots.contains_gallery(&gallery_id) {
            Err(StateTrackerError::GalleryAlreadyExists)
        } else {
            let _ = self.slots.insert(gallery_id, GallerySlot::Present(state));
            Ok(())
        }
    }

    /// Succeeds exactly when no slot exists for the gallery; never mutates.
    pub fn check_gallery_doesnt_exist(&self, gallery_id: &GalleryId) -> (r: Result<
        (),
        StateTrackerError,
    >)
        ensures
            r == spec_check_doesnt_exist(self@, gallery_id@),
    {
        if self.slots.contains_gallery(gallery_id) {
            Err(StateTrackerError::GalleryAlreadyExists)
        } else {
            Ok(())
        }
    }

    /// Succeeds exactly when the gallery's slot is present with the expected
    /// stage tag; never mutates.
    pub fn check_gallery_state(
        &self,
        gallery_id: &GalleryId,
        state_type: &GalleryPipelineStateTypes,
    ) -> (r: Result<(), StateTrackerError>)
        ensures
            r == spec_check_state(self@, gallery_id@, *state_type),
    {
        match self.slots.get(gallery_id) {
            None => Err(StateTrackerError::GalleryNotFound),
            Some(slot) => match slot {
                GallerySlot::Taken => Err(StateTrackerError::GalleryStateTaken),
                GallerySlot::Present(state) => {
                    if state.matches(state_type) {
                        Ok(())
                    } else {
                        Err(StateTrackerError::StateMismatch)
                    }
                },
            },
        }
    }

    /// Takes the gallery's payload, leaving the slot `Taken`: the caller now
    /// exclusively owns the payload until it is handed back by
    /// `update_gallery_state`. Fails like `check_gallery_state`, and on any
    /// failure the slot map is unchanged.
    pub fn take_gallery_state(
        &mut self,
        gallery_id: &GalleryId,
        state_type: &GalleryPipelineStateTypes,
    ) -> (r: Result<GalleryPipelineStates, StateTrackerError>)
        ensures
            final(self)@ == spec_take(old(self)@, gallery_id@, *state_type).0,
            r == spec_take(old(self)@, gallery_id@, *state_type).1,
    {
        match self.slots.remove_entry(gallery_id) {
            None => Err(StateTrackerError::GalleryNotFound),
            Some((gid, GallerySlot::Taken)) => {
                let _ = self.slots.insert(gid, GallerySlot::Taken);
                proof {
                    assert(self.slots@ =~= old(self)@);
                }
                Err(StateTrackerError::GalleryStateTaken)
            },
            Some((gid, GallerySlot::Present(state))) => {
                if state.matches(state_type) {
                    let _ = self.slots.insert(gid, GallerySlot::Taken);
                    proof {
                        assert(self.slots@ =~= old(self)@.insert(
                            gallery_id@,
                            GallerySlot::Taken,
                        ));
                    }
                    Ok(state)
                } else {
                    let _ = self.slots.insert(gid, GallerySlot::Present(state));
                    proof {
                        assert(self.slots@ =~= old(self)@);
                    }
                    Err(StateTrackerError::StateMismatch)
                }
            },
        }
    }

    /// Releases an outstanding lease by storing the new payload; fails with
    /// `GalleryStateNotTaken` if the slot is present (the caller skipped the
    /// take, or released twice), and on any failure nothing changes.
    pub fn update_gallery_state(
        &mut self,
        gallery_id: &GalleryId,
        state: GalleryPipelineStates,
    ) -> (r: Result<(), StateTrackerError>)
        ensures
            final(self)@ == spec_update(old(self)@, gallery_id@, state).0,
            r == spec_update(old(self)@, gallery_id@, state).1,
    {
        match self.slots.remove_entry(gallery_id) {
            None => Err(StateTrackerError::GalleryNotFound),
            Some((gid, GallerySlot::Present(prev))) => {
                let _ = self.slots.insert(gid, GallerySlot::Present(prev));
                proof {
                    assert(self.slots@ =~= old(self)@);
                }
                Err(StateTrackerError::GalleryStateNotTaken)
            },
            Some((gid, GallerySlot::Taken)) => {
                let _ = self.slots.insert(gid, GallerySlot::Present(state));
                proof {
                    assert(self.slots@ =~= old(self)@.insert(
                        gallery_id@,
                        GallerySlot::Present(state),
                    ));
                }
                Ok(())
            },
        }
    }

    /// Deletes the gallery's slot whether it is Present or Taken; this is
    /// the only way to force-release an abandoned lease.
    pub fn remove_gallery(&mut self, gallery_id: &GalleryId) -> (r: Result<
        (),
        StateTrackerError,
    >)
        ensures
            final(self)@ == spec_remove(old(self)@, gallery_id@).0,
            r == spec_remove(old(self)@, gallery_id@).1,
    {
        match self.slots.remove_entry(gallery_id) {
            None => Err(StateTrackerError::GalleryNotFound),
            Some(_entry) => Ok(()),
        }
    }

    /// Applies one inbound message: performs the operation it asks for and
    /// sends the domain result back on the request's reply channel. Returns
    /// whether the reply was delivered; a reply can fail only because the
    /// requester is gone, which leaves no one to notify.
    pub fn handle_message(&mut self, msg: StateTrackerMessage) -> (delivered: bool)
        ensures
            final(self)@ == (match msg {
                StateTrackerMessage::AddGallery(req) => spec_add(
                    old(self)@,
                    req.data.0@,
                    req.data.1,
                ).0,
                StateTrackerMessage::CheckGalleryDoesntExist(_) => old(self)@,
                StateTrackerMessage::CheckGalleryState(_) => old(self)@,
                StateTrackerMessage::TakeGalleryState(req) => spec_take(
                    old(self)@,
                    req.data.0@,
                    req.data.1,
                ).0,
                StateTrackerMessage::UpdateGalleryState(req) => spec_update(
                    old(self)@,
                    req.data.0@,
                    req.data.1,
                ).0,
                StateTrackerMessage::RemoveGallery(req) => spec_remove(old(self)@, req.data@).0,
            }),
    {
        match msg {
            StateTrackerMessage::AddGallery(req) => {
                let (gallery_id, state) = req.data;
                let result = self.add_gallery(gallery_id, state);
                req.reply.send(result).is_ok()
            },
            StateTrackerMessage::CheckGalleryDoesntExist(req) => {
                let result = self.check_gallery_doesnt_exist(&req.data);
                req.reply.send(result).is_ok()
            },
            StateTrackerMessage::CheckGalleryState(req) => {
                let result = self.check_gallery_state(&req.data.0, &req.data.1);
                req.reply.send(result).is_ok()
            },
            StateTrackerMessage::TakeGalleryState(req) => {
                let result = self.take_gallery_state(&req.data.0, &req.data.1);
                req.reply.send(result).is_ok()
            },
            StateTrackerMessage::UpdateGalleryState(req) => {
                let (gallery_id, state) = req.data;
                let result = self.update_gallery_state(&gallery_id, state);
                req.reply.send(result).is_ok()
            },
            StateTrackerMessage::RemoveGallery(req) => {
                let result = self.remove_gallery(&req.data);
                req.reply.send(result).is_ok()
            },
        }
    }
}

/// Law: adding a gallery that has no slot yet succeeds, and a subsequent
/// existence check fails with `GalleryAlreadyExists`.
pub proof fn lemma_add_then_check_exists(m: SlotMap, id: Seq<char>, state: GalleryPipelineStates)
    requires
        !m.contains_key(id),
    ensures
        spec_add(m, id, state).1 == Ok::<(), StateTrackerError>(()),
        spec_check_doesnt_exist(spec_add(m, id, state).0, id) == Err::<(), StateTrackerError>(
            StateTrackerError::GalleryAlreadyExists,
        ),
{
}

/// Law: after a successful take, a second take of the same gallery without
/// an intervening update fails with `GalleryStateTaken`, whatever tag it
/// expects, and changes nothing.
pub proof fn lemma_take_twice_fails(
    m: SlotMap,
    id: Seq<char>,
    tag1: GalleryPipelineStateTypes,
    tag2: GalleryPipelineStateTypes,
)
    requires
        spec_take(m, id, tag1).1 is Ok,
    ensures
        spec_take(spec_take(m, id, tag1).0, id, tag2).1 == Err::<
            GalleryPipelineStates,
            StateTrackerError,
        >(StateTrackerError::GalleryStateTaken),
        spec_take(spec_take(m, id, tag1).0, id, tag2).0 == spec_take(m, id, tag1).0,
{
}

/// Law: an update with no outstanding lease (the slot is present) fails with
/// `GalleryStateNotTaken` and changes nothing.
pub proof fn lemma_update_without_take_fails(
    m: SlotMap,
    id: Seq<char>,
    current: GalleryPipelineStates,
    new_state: GalleryPipelineStates,
)
    requires
        m.contains_key(id),
        m[id] == GallerySlot::Present(current),
    ensures
        spec_update(m, id, new_state).1 == Err::<(), StateTrackerError>(
            StateTrackerError::GalleryStateNotTaken,
        ),
        spec_update(m, id, new_state).0 == m,
{
}

/// Law: a take expecting the wrong tag fails with `StateMismatch`, leaves
/// the slot map unchanged, and a check with the actual tag still succeeds.
pub proof fn lemma_take_wrong_tag_preserves_slot(
    m: SlotMap,
    id: Seq<char>,
    current: GalleryPipelineStates,
    wrong_tag: GalleryPipelineStateTypes,
)
    requires
        m.contains_key(id),
        m[id] == GallerySlot::Present(current),
        current.spec_state_type() != wrong_tag,
    ensures
        spec_take(m, id, wrong_tag).1 == Err::<GalleryPipelineStates, StateTrackerError>(
            StateTrackerError::StateMismatch,
        ),
        spec_take(m, id, wrong_tag).0 == m,
        spec_check_state(m, id, current.spec_state_type()) == Ok::<(), StateTrackerError>(()),
{
}

/// Law: removal succeeds whether the slot is Present or Taken, and afterward
/// every operation that needs the slot fails with `GalleryNotFound`.
pub proof fn lemma_remove_then_not_found(
    m: SlotMap,
    id: Seq<char>,
    tag: GalleryPipelineStateTypes,
    state: GalleryPipelineStates,
)
    requires
        m.contains_key(id),
    ensures
        spec_remove(m, id).1 == Ok::<(), StateTrackerError>(()),
        !spec_remove(m, id).0.contains_key(id),
        spec_check_state(spec_remove(m, id).0, id, tag) == Err::<(), StateTrackerError>(
            StateTrackerError::GalleryNotFound,
        ),
        spec_take(spec_remove(m, id).0, id, tag).1 == Err::<
            GalleryPipelineStates,
            StateTrackerError,
        >(StateTrackerError::GalleryNotFound),
        spec_update(spec_remove(m, id).0, id, state).1 == Err::<(), StateTrackerError>(
            StateTrackerError::GalleryNotFound,
        ),
        spec_remove(spec_remove(m, id).0, id).1 == Err::<(), StateTrackerError>(
            StateTrackerError::GalleryNotFound,
        ),
{
}

} // verus!
