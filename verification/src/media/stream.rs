//! The media registry: the `track_id -> track` mapping of a call
//! session, and the command handling that keeps it free of lock
//! re-entrancy.
//!
//! The mapping's lock (held by the asynchronous shell around this
//! registry) must protect only the in-memory mutation.  Every entry
//! point here therefore only reads or mutates the mapping and *returns*
//! any delegation into a track's own (possibly suspending) methods as an
//! action, to be performed strictly after the lock is released.  A track
//! that calls back into the registry from such a delegation merely takes
//! the lock afresh — the re-entrant deadlock of a naive design cannot be
//! expressed.

use vstd::prelude::*;

use crate::media::first_index_of;
use crate::media::lemma_first_index_of;
use crate::media::lemma_first_index_of_is_first;
use crate::media::track::TrackConfig;

verus! {

/// Registry entry for one attached track: its identity and media
/// parameters.  The track's own negotiation and transport state stays
/// with the track, never inside the registry.
pub struct TrackEntry {
    pub id: String,
    pub config: TrackConfig,
}

/// A mutation or query posted to the registry.
pub enum RegistryCommand {
    /// Attach a track, or replace the one with the same id.
    UpdateTrack { id: String, config: TrackConfig },
    /// Renegotiate a track: locate it, then delegate outside the lock.
    UpdateRemoteDescription { id: String, answer: String },
    /// Detach a track.
    RemoveTrack { id: String },
}

/// What the caller must do after releasing the registry lock.
pub enum RegistryAction {
    /// Announce a newly attached track.
    EmitTrackAdded { id: String },
    /// Announce a detached track.
    EmitTrackRemoved { id: String },
    /// Call the located track's own renegotiation, outside the lock.
    DelegateRemoteDescription { id: String, answer: String },
}

/// The `track_id -> track` mapping of one call session.
pub struct MediaStream {
    pub tracks: Vec<TrackEntry>,
}

impl MediaStream {
    /// The attached ids, in attach order.
    pub open spec fn ids(self) -> Seq<Seq<char>> {
        self.tracks@.map_values(|t: TrackEntry| t.id@)
    }

    /// Attached ids are distinct.
    pub open spec fn wf(self) -> bool {
        forall|i: int, j: int| 0 <= i < j < self.ids().len() ==> self.ids()[i] != self.ids()[j]
    }

    pub open spec fn has_track(self, id: Seq<char>) -> bool {
        self.ids().contains(id)
    }

    pub fn new() -> (r: MediaStream)
        ensures
            r.wf(),
            r.tracks@.len() == 0,
    {
        MediaStream { tracks: Vec::new() }
    }

    fn find_track(&self, id: &String) -> (r: Option<usize>)
        requires
            self.wf(),
        ensures
            r is Some <==> self.has_track(id@),
            r matches Some(i) ==> i < self.tracks@.len() && i == first_index_of(self.ids(), id@)
                && self.tracks@[i as int].id@ == id@,
    {
        let n = self.tracks.len();
        let mut i: usize = 0;
        while i < n
            invariant
                self.wf(),
                n == self.tracks@.len(),
                i <= n,
                forall|j: int| 0 <= j < i ==> self.ids()[j] != id@,
            decreases n - i,
        {
            if self.tracks[i].id.eq(id) {
                proof {
                    assert(self.ids()[i as int] == id@);
                    assert(self.ids().contains(id@));
                    lemma_first_index_of_is_first(self.ids(), id@, i as int);
                }
                return Some(i);
            }
            proof {
                assert(self.ids()[i as int] == self.tracks@[i as int].id@);
            }
            i += 1;
        }
        proof {
            if self.has_track(id@) {
                let w = choose|w: int| 0 <= w < self.ids().len() && self.ids()[w] == id@;
                assert(self.ids()[w] != id@);
            }
        }
        None
    }

    /// Whether a track with this id is attached.
    pub fn contains_track(&self, id: &String) -> (r: bool)
        requires
            self.wf(),
        ensures
            r == self.has_track(id@),
    {
        match self.find_track(id) {
            Some(_) => true,
            None => false,
        }
    }

    /// Attach a track, or replace the entry carrying the same id.
    pub fn update_track(&mut self, id: String, config: TrackConfig)
        requires
            old(self).wf(),
        ensures
            final(self).wf(),
            final(self).has_track(id@),
            !old(self).has_track(id@) ==> final(self).ids() == old(self).ids().push(id@),
            old(self).has_track(id@) ==> final(self).ids() == old(self).ids(),
            forall|j: int|
                0 <= j < old(self).tracks@.len() && old(self).ids()[j] != id@ ==> final(self).tracks@[j] == old(self).tracks@[j],
    {
        match self.find_track(&id) {
            Some(i) => {
                self.tracks.set(i, TrackEntry { id, config });
                proof {
                    assert(self.ids() =~= old(self).ids());
                    assert(self.ids()[i as int] == id@);
                    assert(self.has_track(id@));
                }
            },
            None => {
                self.tracks.push(TrackEntry { id, config });
                proof {
                    assert(self.tracks@[old(self).tracks@.len() as int].id@ == id@);
                    assert(self.ids() =~= old(self).ids().push(id@));
                    assert(self.ids()[old(self).tracks@.len() as int] == id@);
                    assert(self.has_track(id@));
                    assert forall|x: int, y: int|
                        0 <= x < y < self.ids().len() implies self.ids()[x] != self.ids()[y] by {
                        if y < old(self).ids().len() {
                            assert(old(self).ids()[x] != old(self).ids()[y]);
                        } else {
                            assert(self.ids()[x] == old(self).ids()[x]);
                        }
                    }
                }
            },
        }
    }

    /// Detach the track with this id; report whether one was attached.
    pub fn remove_track(&mut self, id: &String) -> (r: bool)
        requires
            old(self).wf(),
        ensures
            final(self).wf(),
            r == old(self).has_track(id@),
            !final(self).has_track(id@),
            !old(self).has_track(id@) ==> *final(self) == *old(self),
            old(self).has_track(id@) ==> final(self).ids() == old(self).ids().remove(
                first_index_of(old(self).ids(), id@),
            ),
    {
        match self.find_track(id) {
            Some(i) => {
                self.tracks.remove(i);
                proof {
                    assert(self.ids() =~= old(self).ids().remove(i as int));
                    assert forall|x: int, y: int|
                        0 <= x < y < self.ids().len() implies self.ids()[x] != self.ids()[y] by {
                        let xo: int = if x < i { x } else { x + 1 };
                        let yo: int = if y < i { y } else { y + 1 };
                        assert(self.ids()[x] == old(self).ids()[xo]);
                        assert(self.ids()[y] == old(self).ids()[yo]);
                    }
                    if self.has_track(id@) {
                        let w = choose|w: int|
                            0 <= w < self.ids().len() && self.ids()[w] == id@;
                        let wo: int = if w < i { w } else { w + 1 };
                        assert(old(self).ids()[wo] == id@);
                        lemma_first_index_of(old(self).ids(), id@);
                        assert(old(self).ids()[i as int] == id@);
                    }
                }
                true
            },
            None => false,
        }
    }

    /// Apply one registry command under the lock, returning the actions
    /// to perform after releasing it.
    ///
    /// Renegotiation never calls into the track from here: locating the
    /// track and delegating to it are separated, so no suspension point
    /// is ever reached while the mapping is locked.
    pub fn handle_command(&mut self, cmd: RegistryCommand) -> (actions: Vec<RegistryAction>)
        requires
            old(self).wf(),
        ensures
            final(self).wf(),
            cmd matches RegistryCommand::UpdateTrack { id, config } ==> (final(self).has_track(id@)
                && actions@.len() == 1 && (actions@[0] matches RegistryAction::EmitTrackAdded {
                id: a,
            } && a@ == id@)),
            cmd matches RegistryCommand::UpdateTrack { id, config } ==> (!old(self).has_track(id@)
                ==> final(self).ids() == old(self).ids().push(id@)),
            cmd matches RegistryCommand::UpdateTrack { id, config } ==> (old(self).has_track(id@)
                ==> final(self).ids() == old(self).ids()),
            cmd matches RegistryCommand::UpdateRemoteDescription { id, answer } ==> (*final(self)
                == *old(self) && (old(self).has_track(id@) ==> actions@.len() == 1 && (actions@[0]
                matches RegistryAction::DelegateRemoteDescription { id: a, answer: b } && a@ == id@
                && b@ == answer@)) && (!old(self).has_track(id@) ==> actions@.len() == 0)),
            cmd matches RegistryCommand::RemoveTrack { id } ==> (!final(self).has_track(id@) && (
            old(self).has_track(id@) ==> actions@.len() == 1 && (actions@[0]
                matches RegistryAction::EmitTrackRemoved { id: a } && a@ == id@)) && (!old(self).has_track(id@) ==> actions@.len() == 0 && *final(self) == *old(self))),
    {
        let mut actions: Vec<RegistryAction> = Vec::new();
        match cmd {
            RegistryCommand::UpdateTrack { id, config } => {
                let announced = id.clone();
                self.update_track(id, config);
                actions.push(RegistryAction::EmitTrackAdded { id: announced });
            },
            RegistryCommand::UpdateRemoteDescription { id, answer } => {
                if self.contains_track(&id) {
                    actions.push(RegistryAction::DelegateRemoteDescription { id, answer });
                }
            },
            RegistryCommand::RemoveTrack { id } => {
                let removed = self.remove_track(&id);
                if removed {
                    actions.push(RegistryAction::EmitTrackRemoved { id });
                }
            },
        }
        actions
    }
}

} // verus!
