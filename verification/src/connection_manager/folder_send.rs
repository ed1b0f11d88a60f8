//! Sending a folder: one offer for all of it, on which the peer decides once,
//! and then the offers of its files, one after the other.
use vstd::prelude::*;

use super::outgoing::FileDetails;
use super::{no_session_text, Action, ConnectionManager, ManagerView};
use crate::crypto;
use crate::error::{CoreError, ErrorView, Result};
use crate::folder::{file_name_or_default, folder_name_or_default, sizes_sum, FolderManifest};
use crate::protocol::{clone_entries, FolderFileEntry, FolderOffer, ProtocolMessage};
use crate::transfer::FileSource;

verus! {

broadcast use vstd::std_specs::hash::group_hash_axioms;

/// A folder on its way: the list of its files, as it is offered to the peer,
/// and what has come of the offers of the files so far.
pub struct FolderSend {
    pub folder_batch_id: String,
    pub conversation_id: String,
    pub manifest: FolderManifest,
    /// The whole path and the name of each file of the list.
    pub files: Vec<(String, String)>,
    /// The transfer of each file that was offered; nothing for one whose offer
    /// failed.
    pub outcomes: Vec<Option<String>>,
}

/// The path inside the folder and the transfer of each file whose offer
/// succeeded, in the order of the list.
pub open spec fn offered_files(
    entries: Seq<FolderFileEntry>,
    outcomes: Seq<Option<String>>,
) -> Seq<(String, String)>
    decreases outcomes.len(),
{
    if outcomes.len() == 0 {
        Seq::empty()
    } else {
        let rest = offered_files(entries, outcomes.drop_last());
        match outcomes.last() {
            Some(transfer_id) => rest.push(
                (entries[outcomes.len() - 1].relative_path, transfer_id),
            ),
            None => rest,
        }
    }
}

impl FolderSend {
    pub open spec fn wf(self) -> bool {
        &&& self.manifest.wf()
        &&& self.files@.len() == self.manifest.entries@.len()
        &&& self.outcomes@.len() <= self.manifest.entries@.len()
    }

    /// The files offered so far.
    pub open spec fn results(self) -> Seq<(String, String)> {
        offered_files(self.manifest.entries@, self.outcomes@)
    }

    /// A folder without files yet, under a fresh name.
    pub fn new(conversation_id: String) -> (r: Self)
        ensures
            r.wf(),
            r.folder_batch_id@.len() == 36,
            r.conversation_id == conversation_id,
            r.manifest.entries@ == Seq::<FolderFileEntry>::empty(),
            r.manifest.total_size == 0,
            r.files@ == Seq::<(String, String)>::empty(),
            r.outcomes@ == Seq::<Option<String>>::empty(),
    {
        FolderSend::new_as(crypto::new_uuid(), conversation_id)
    }

    /// A folder without files yet, under a given name.
    pub fn new_as(folder_batch_id: String, conversation_id: String) -> (r: Self)
        ensures
            r.wf(),
            r.folder_batch_id == folder_batch_id,
            r.conversation_id == conversation_id,
            r.manifest.entries@ == Seq::<FolderFileEntry>::empty(),
            r.manifest.total_size == 0,
            r.files@ == Seq::<(String, String)>::empty(),
            r.outcomes@ == Seq::<Option<String>>::empty(),
    {
        FolderSend {
            folder_batch_id,
            conversation_id,
            manifest: FolderManifest::new(),
            files: Vec::new(),
            outcomes: Vec::new(),
        }
    }

    /// Adds a file to the end of the list.
    pub fn add_file(
        &mut self,
        path: String,
        file_name: Option<String>,
        relative_path: String,
        file_size: u64,
        mime_type: String,
    )
        requires
            old(self).wf(),
            old(self).manifest.total_size + file_size <= u64::MAX,
        ensures
            final(self).wf(),
            final(self).folder_batch_id == old(self).folder_batch_id,
            final(self).conversation_id == old(self).conversation_id,
            final(self).manifest.entries@ == old(self).manifest.entries@.push(
                (FolderFileEntry { relative_path, file_size, mime_type }),
            ),
            final(self).manifest.total_size == old(self).manifest.total_size + file_size,
            final(self).files@.len() == old(self).files@.len() + 1,
            final(self).files@.drop_last() == old(self).files@,
            final(self).files@.last().0 == path,
            match file_name {
                Some(n) => final(self).files@.last().1 == n,
                None => final(self).files@.last().1@ == "file"@,
            },
            final(self).outcomes == old(self).outcomes,
    {
        self.manifest.add_file(relative_path, file_size, mime_type);
        self.files.push((path, file_name_or_default(file_name)));
        assert(self.files@.drop_last() =~= old(self).files@);
    }

    /// The file to offer next, in the order of the list: its name, size, type
    /// and path are those that the peer accepted, and its offer names the
    /// folder. The message it belongs to gets a fresh name.
    pub fn next_file(&self) -> (r: Option<FileDetails>)
        requires
            self.wf(),
        ensures
            match r {
                Some(d) => {
                    let i = self.outcomes@.len() as int;
                    &&& i < self.manifest.entries@.len()
                    &&& d.message_id@.len() == 36
                    &&& d == file_details(
                        self.files@[i],
                        self.manifest.entries@[i],
                        d.message_id,
                        self.conversation_id,
                        self.folder_batch_id,
                    )
                },
                None => self.outcomes@.len() == self.manifest.entries@.len(),
            },
    {
        let i: usize = self.outcomes.len();
        if i == self.manifest.entries.len() {
            return None;
        }
        let entry: &FolderFileEntry = &self.manifest.entries[i];
        Some(
            FileDetails {
                source: FileSource::Path(self.files[i].0.clone()),
                file_name: self.files[i].1.clone(),
                file_size: entry.file_size,
                mime_type: entry.mime_type.clone(),
                message_id: crypto::new_uuid(),
                conversation_id: self.conversation_id.clone(),
                relative_path: entry.relative_path.clone(),
                folder_batch_id: Some(self.folder_batch_id.clone()),
            },
        )
    }

    /// Takes note of what came of the offer of that file: its transfer, or
    /// nothing. A file whose offer failed is left out.
    pub fn file_offered(&mut self, outcome: Option<String>)
        requires
            old(self).wf(),
            old(self).outcomes@.len() < old(self).manifest.entries@.len(),
        ensures
            final(self).wf(),
            final(self).folder_batch_id == old(self).folder_batch_id,
            final(self).conversation_id == old(self).conversation_id,
            final(self).manifest == old(self).manifest,
            final(self).files == old(self).files,
            final(self).outcomes@ == old(self).outcomes@.push(outcome),
            final(self).results() == (match outcome {
                Some(transfer_id) => old(self).results().push(
                    (
                        old(self).manifest.entries@[old(self).outcomes@.len() as int].relative_path,
                        transfer_id,
                    ),
                ),
                None => old(self).results(),
            }),
    {
        self.outcomes.push(outcome);
        assert(self.outcomes@.drop_last() =~= old(self).outcomes@);
    }
}

/// The details of the offer of one file of a folder.
pub open spec fn file_details(
    file: (String, String),
    entry: FolderFileEntry,
    message_id: String,
    conversation_id: String,
    folder_batch_id: String,
) -> FileDetails {
    FileDetails {
        source: FileSource::Path(file.0),
        file_name: file.1,
        file_size: entry.file_size,
        mime_type: entry.mime_type,
        message_id,
        conversation_id,
        relative_path: entry.relative_path,
        folder_batch_id: Some(folder_batch_id),
    }
}

impl ConnectionManager {
    /// Offers a whole folder to a peer, once, with the list of its files. The
    /// decision comes as an [`Action::ResolveFolder`]. An offer that cannot be
    /// sent stays listed; a folder without files is not offered at all.
    pub fn offer_folder(
        &mut self,
        peer_device_id: &String,
        folder_name: Option<String>,
        send: &FolderSend,
    ) -> (r: Result<Action>)
        requires
            old(self)@.wf(),
            send.wf(),
        ensures
            final(self)@.wf(),
            final(self)@ == (if send.manifest.entries@.len() == 0 {
                old(self)@
            } else {
                ManagerView {
                    folders: old(self)@.folders.insert(send.folder_batch_id@, true),
                    ..old(self)@
                }
            }),
            match r {
                Ok(Action::Send { link, message: ProtocolMessage::FolderOffer(offer) }) => {
                    &&& send.manifest.entries@.len() > 0
                    &&& old(self)@.sessions.contains_key(peer_device_id@)
                    &&& link == old(self)@.sessions[peer_device_id@]
                    &&& offer.folder_batch_id == send.folder_batch_id
                    &&& offer.conversation_id == send.conversation_id
                    &&& offer.total_files == send.manifest.entries@.len()
                    &&& offer.total_size == sizes_sum(send.manifest.entries@)
                    &&& offer.files@ == send.manifest.entries@
                    &&& match folder_name {
                        Some(n) => offer.folder_name == n,
                        None => offer.folder_name@ == "folder"@,
                    }
                },
                Ok(_) => false,
                Err(e) => if send.manifest.entries@.len() == 0 {
                    e@ == ErrorView::InvalidState("folder contains no files to send"@)
                } else {
                    &&& !old(self)@.sessions.contains_key(peer_device_id@)
                    &&& e@ == ErrorView::NotFound(no_session_text(peer_device_id@))
                },
            },
    {
        if send.manifest.entries.len() == 0 {
            return Err(CoreError::invalid_state("folder contains no files to send"));
        }
        self.pending_folder_offers.insert(send.folder_batch_id.clone(), true);
        let offer = FolderOffer {
            folder_batch_id: send.folder_batch_id.clone(),
            conversation_id: send.conversation_id.clone(),
            folder_name: folder_name_or_default(folder_name),
            total_files: send.manifest.entries.len() as u64,
            total_size: send.manifest.total_size,
            files: clone_entries(&send.manifest.entries),
        };
        self.send_to(peer_device_id, ProtocolMessage::FolderOffer(offer))
    }

    /// The decision on a folder is in, or its time is over. The files of a
    /// folder that was accepted are handed back to be offered; those of any
    /// other are not, so none of them is offered.
    pub fn folder_decided(&mut self, send: FolderSend, accepted: bool) -> (r: Result<FolderSend>)
        requires
            old(self)@.wf(),
        ensures
            final(self)@.wf(),
            final(self)@ == (ManagerView {
                folders: if accepted {
                    old(self)@.folders.insert(send.folder_batch_id@, false)
                } else {
                    old(self)@.folders.remove(send.folder_batch_id@)
                },
                ..old(self)@
            }),
            match r {
                Ok(s) => accepted && s == send,
                Err(e) => {
                    &&& !accepted
                    &&& e@ == ErrorView::InvalidState("folder offer was rejected or timed out"@)
                },
            },
    {
        if accepted {
            self.pending_folder_offers.insert(send.folder_batch_id.clone(), false);
            Ok(send)
        } else {
            let _ = self.pending_folder_offers.remove(&send.folder_batch_id);
            Err(CoreError::invalid_state("folder offer was rejected or timed out"))
        }
    }

    /// Every file of a folder has had its turn: the path inside the folder and
    /// the transfer of each file that was offered, in the order of the list. A
    /// folder none of whose files could be offered is an error.
    pub fn finish_folder(&mut self, send: FolderSend) -> (r: Result<Vec<(String, String)>>)
        requires
            old(self)@.wf(),
            send.wf(),
        ensures
            final(self)@.wf(),
            final(self)@ == (ManagerView {
                folders: old(self)@.folders.remove(send.folder_batch_id@),
                ..old(self)@
            }),
            match r {
                Ok(list) => list@ == send.results() && list@.len() > 0,
                Err(e) => {
                    &&& send.results().len() == 0
                    &&& e@ == ErrorView::InvalidState(
                        "no files in folder could be offered (all failed)"@,
                    )
                },
            },
    {
        let _ = self.pending_folder_offers.remove(&send.folder_batch_id);
        let mut list: Vec<(String, String)> = Vec::new();
        let mut i: usize = 0;
        assert(send.outcomes@.take(0) =~= Seq::empty());
        while i < send.outcomes.len()
            invariant
                send.wf(),
                i <= send.outcomes@.len(),
                list@ == offered_files(send.manifest.entries@, send.outcomes@.take(i as int)),
            decreases send.outcomes@.len() - i,
        {
            assert(send.outcomes@.take(i + 1).drop_last() =~= send.outcomes@.take(i as int));
            match &send.outcomes[i] {
                Some(transfer_id) => {
                    list.push(
                        (send.manifest.entries[i].relative_path.clone(), transfer_id.clone()),
                    );
                },
                None => {},
            }
            i = i + 1;
        }
        assert(send.outcomes@.take(send.outcomes@.len() as int) =~= send.outcomes@);
        if list.len() == 0 {
            return Err(
                CoreError::invalid_state("no files in folder could be offered (all failed)"),
            );
        }
        Ok(list)
    }
}

/// What the sending of a folder returns is a part of its list, in the same
/// order: exactly the files whose offer succeeded, each with its transfer. The
/// result tells the place of each of them in the list.
pub proof fn results_follow_the_list(
    entries: Seq<FolderFileEntry>,
    outcomes: Seq<Option<String>>,
) -> (places: Seq<int>)
    requires
        outcomes.len() <= entries.len(),
    ensures
        places.len() == offered_files(entries, outcomes).len(),
        forall|i: int|
            0 <= i < places.len() ==> {
                &&& 0 <= #[trigger] places[i] < outcomes.len()
                &&& outcomes[places[i]] matches Some(transfer_id)
                &&& offered_files(entries, outcomes)[i] == (
                    entries[places[i]].relative_path,
                    transfer_id,
                )
            },
        forall|i: int, j: int| 0 <= i < j < places.len() ==> places[i] < places[j],
        forall|k: int|
            0 <= k < outcomes.len() && (#[trigger] outcomes[k]) is Some ==> places.contains(k),
    decreases outcomes.len(),
{
    if outcomes.len() == 0 {
        Seq::empty()
    } else {
        let n = outcomes.len() - 1;
        let before = outcomes.drop_last();
        let rest = results_follow_the_list(entries, before);
        let places = if outcomes.last() is Some {
            rest.push(n)
        } else {
            rest
        };
        assert forall|k: int| 0 <= k < outcomes.len() && (
        #[trigger] outcomes[k]) is Some implies places.contains(k) by {
            if k < n {
                assert(before[k] is Some);
                let i = choose|i: int| 0 <= i < rest.len() && rest[i] == k;
                assert(places[i] == k);
            } else {
                assert(places[places.len() - 1] == k);
            }
        }
        assert forall|i: int| 0 <= i < places.len() implies {
            &&& 0 <= #[trigger] places[i] < outcomes.len()
            &&& outcomes[places[i]] matches Some(transfer_id)
            &&& offered_files(entries, outcomes)[i] == (
                entries[places[i]].relative_path,
                transfer_id,
            )
        } by {
            if i < rest.len() {
                assert(places[i] == rest[i]);
                assert(before[rest[i]] == outcomes[rest[i]]);
            }
        }
        places
    }
}

/// A folder that the peer accepted is accepted with all its files: an offer
/// that names the folder needs no answer of its own.
pub proof fn accepted_folder_covers_its_files(
    v: ManagerView,
    folder_batch_id: String,
    transfer_id: String,
    d: FileDetails,
)
    requires
        v.folders.contains_key(folder_batch_id@),
        d.folder_batch_id == Some(folder_batch_id),
    ensures
        !v.after_message(ProtocolMessage::FolderAccept { folder_batch_id }).after_offer(
            transfer_id,
            d,
        ).outgoing[transfer_id@].awaiting_decision,
{
}

} // verus!
