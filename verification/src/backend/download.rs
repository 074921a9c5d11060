//! The coordination of profile photo downloads: at most one download per
//! target at a time, and no more downloads at once than there are permits.

use crate::backend::{Backend, BackendError};
use crate::caches::{clear_target, find_handle, has_target, mark_target};
use crate::handle::ChatHandle;
use crate::raw::{RawChat, RawPhoto};
use crate::types::{bytes_view, photo_thumb};
use crate::utils::ProfilePhotoPath;
use vstd::prelude::*;

verus! {

/// The seconds between two looks at whether a download that is waited for
/// is over.
pub const DOWNLOAD_POLL_SECONDS: u64 = 200;

/// What the caller of a download step has to do next.
#[derive(Debug, Clone, Copy, PartialEq, Eq)]
pub enum DownloadStep {
    /// The photo of the target is being downloaded by someone else: wait
    /// until `is_photo_downloading` says that it is over, and take the path
    /// that was computed before as the answer.
    Wait,
    /// No permit is free: wait and ask again.
    Busy,
    /// A permit is taken and the target is marked: resolve the handle and
    /// report the chat with `photo_resolved`, or a failure with
    /// `download_finished`.
    Resolve(ChatHandle),
    /// A permit is taken and the target is marked: store the photo, then
    /// report with `download_finished`, whether it was stored or not.
    Fetch,
    /// A photo of the target is stored already: nothing is to be done.
    Stored,
}

/// A request for the profile photo of a chat: what is to be done next, and
/// the path under which the photo is found once the download is over.
#[derive(Debug, PartialEq, Eq)]
pub struct PhotoDownload {
    pub step: DownloadStep,
    pub path: String,
}

/// The step of a request, and the error of a request that was refused.
pub open spec fn step_of(request: Result<PhotoDownload, BackendError>) -> Result<
    DownloadStep,
    BackendError,
> {
    match request {
        Ok(download) => Ok(download.step),
        Err(error) => Err(error),
    }
}

/// Whether `request` is what `start` says, with the path `path` where the
/// request was taken.
pub open spec fn answers(
    request: Result<PhotoDownload, BackendError>,
    start: Result<DownloadStep, BackendError>,
    path: Seq<char>,
) -> bool {
    &&& step_of(request) == start
    &&& request is Ok ==> request->Ok_0.path@ == path
}

/// Whether a chat has a profile photo.
pub open spec fn has_photo(chat: RawChat) -> bool {
    match chat {
        RawChat::User(user) => user.photo is Some,
        RawChat::Group(group) => group.photo is Some,
        RawChat::Channel(channel) => channel.photo is Some,
    }
}

/// The preview bytes of the profile photo of a chat, where it has any.
pub open spec fn thumb_of_chat(chat: RawChat) -> Option<Seq<u8>> {
    match chat {
        RawChat::User(user) => RawPhoto::thumb_of(user.photo),
        RawChat::Group(group) => RawPhoto::thumb_of(group.photo),
        RawChat::Channel(channel) => RawPhoto::thumb_of(channel.photo),
    }
}

/// How a request for the photo of a chat that is known by its id starts.
/// A target in flight is waited for. Otherwise the handle must be known, and
/// a permit free.
pub open spec fn start_by_id(in_flight: bool, known: Option<ChatHandle>, free_permits: nat) -> Result<
    DownloadStep,
    BackendError,
> {
    if in_flight {
        Ok(DownloadStep::Wait)
    } else if known is None {
        Err(BackendError::UnknownChat)
    } else if free_permits == 0 {
        Ok(DownloadStep::Busy)
    } else {
        Ok(DownloadStep::Resolve(known->0))
    }
}

/// How a request for the photo of a chat that is at hand starts. A target in
/// flight is waited for. Otherwise the chat must have a photo, and a permit
/// must be free.
pub open spec fn start_direct(in_flight: bool, has_photo: bool, free_permits: nat) -> Result<
    DownloadStep,
    BackendError,
> {
    if in_flight {
        Ok(DownloadStep::Wait)
    } else if !has_photo {
        Err(BackendError::PhotoNotFound)
    } else if free_permits == 0 {
        Ok(DownloadStep::Busy)
    } else {
        Ok(DownloadStep::Fetch)
    }
}

/// Whether a step takes a permit and marks its target.
pub open spec fn takes_permit(step: Result<DownloadStep, BackendError>) -> bool {
    match step {
        Ok(DownloadStep::Resolve(_)) => true,
        Ok(DownloadStep::Fetch) => true,
        _ => false,
    }
}

/// Whether a chat has a profile photo.
pub fn chat_has_photo(chat: &RawChat) -> (found: bool)
    ensures
        found == has_photo(*chat),
{
    match chat {
        RawChat::User(user) => user.photo.is_some(),
        RawChat::Group(group) => group.photo.is_some(),
        RawChat::Channel(channel) => channel.photo.is_some(),
    }
}

/// The preview bytes of the profile photo of a chat, where it has any.
pub fn chat_photo_thumb(chat: &RawChat) -> (thumb: Option<Vec<u8>>)
    ensures
        bytes_view(thumb) == thumb_of_chat(*chat),
{
    match chat {
        RawChat::User(user) => photo_thumb(&user.photo),
        RawChat::Group(group) => photo_thumb(&group.photo),
        RawChat::Channel(channel) => photo_thumb(&channel.photo),
    }
}

impl<L, P, H> Backend<L, P, H> {
    /// Whether nothing but the downloads in flight and the free permits
    /// differs between two engines, and the target `target` is now marked
    /// and holds one permit more than before.
    pub open spec fn took_permit(&self, before: &Self, target: i64) -> bool {
        &&& self.same_but_downloads(before)
        &&& self.in_flight() == before.in_flight().insert(target)
        &&& self.free_permits() == before.free_permits() - 1
    }

    /// Whether nothing differs between two engines.
    pub open spec fn kept_downloads(&self, before: &Self) -> bool {
        &&& self.same_but_downloads(before)
        &&& self.in_flight() == before.in_flight()
        &&& self.free_permits() == before.free_permits()
    }

    /// Whether the photo of `chat_id` is being downloaded.
    pub fn is_photo_downloading(&self, chat_id: i64) -> (downloading: bool)
        ensures
            downloading == self.in_flight().contains(chat_id),
    {
        has_target(&self.profile_photo_downloading_set, chat_id)
    }

    /// How many more downloads may start now.
    pub fn available_permits(&self) -> (free: usize)
        ensures
            free == self.free_permits(),
    {
        self.free_permits
    }

    fn take_permit(&mut self, target: i64)
        requires
            old(self).wf(),
            old(self).free_permits() > 0,
            !old(self).in_flight().contains(target),
        ensures
            final(self).wf(),
            final(self).took_permit(old(self), target),
    {
        self.free_permits = self.free_permits - 1;
        mark_target(&mut self.profile_photo_downloading_set, target);
    }

    /// Starts the download of the profile photo of the chat `chat_id`, whose
    /// photo directory `profile_photo_path` describes.
    ///
    /// Where the photo of that chat is being downloaded already, the caller
    /// waits and nothing changes. Otherwise the handle of the chat must be
    /// known (`UnknownChat`) and a permit must be free (`Busy`); then the
    /// permit is taken, the chat is marked, and the handle is to be
    /// resolved. In each case the path of the request is the next path of
    /// the directory.
    pub fn download_chat_photo_by_chat_id(
        &mut self,
        chat_id: i64,
        profile_photo_path: &ProfilePhotoPath,
    ) -> (request: Result<PhotoDownload, BackendError>)
        requires
            old(self).wf(),
        ensures
            final(self).wf(),
            answers(
                request,
                start_by_id(
                    old(self).in_flight().contains(chat_id),
                    crate::backend::chat::handle_for(old(self).handles(), chat_id),
                    old(self).free_permits(),
                ),
                profile_photo_path.next@,
            ),
            takes_permit(step_of(request)) ==> final(self).took_permit(old(self), chat_id),
            !takes_permit(step_of(request)) ==> final(self).kept_downloads(old(self)),
    {
        if has_target(&self.profile_photo_downloading_set, chat_id) {
            return Ok(
                PhotoDownload { step: DownloadStep::Wait, path: profile_photo_path.next.clone() },
            );
        }
        let handle = match find_handle(&self.seen_packed_chats_map, chat_id) {
            Some(handle) => handle,
            None => {
                return Err(BackendError::UnknownChat);
            },
        };
        if self.free_permits == 0 {
            return Ok(
                PhotoDownload { step: DownloadStep::Busy, path: profile_photo_path.next.clone() },
            );
        }
        self.take_permit(chat_id);
        Ok(
            PhotoDownload {
                step: DownloadStep::Resolve(handle),
                path: profile_photo_path.next.clone(),
            },
        )
    }

    /// Takes the chat that the handle of a marked target resolved to. A
    /// chat without a photo ends the download with `PhotoNotFound`: the mark
    /// is cleared and the permit given back. Otherwise the photo is to be
    /// stored and nothing changes yet.
    pub fn photo_resolved(&mut self, chat_id: i64, chat: &RawChat) -> (step: Result<
        DownloadStep,
        BackendError,
    >)
        requires
            old(self).wf(),
        ensures
            final(self).wf(),
            final(self).same_but_downloads(old(self)),
            has_photo(*chat) ==> step == Ok::<DownloadStep, BackendError>(DownloadStep::Fetch)
                && final(self).kept_downloads(old(self)),
            !has_photo(*chat) ==> step == Err::<DownloadStep, BackendError>(
                BackendError::PhotoNotFound,
            ) && final(self).released(old(self), chat_id),
    {
        if chat_has_photo(chat) {
            Ok(DownloadStep::Fetch)
        } else {
            self.download_finished(chat_id);
            Err(BackendError::PhotoNotFound)
        }
    }

    /// Whether the mark of `target` is cleared and its permit given back:
    /// nothing changes for a target that was not marked.
    pub open spec fn released(&self, before: &Self, target: i64) -> bool {
        &&& self.in_flight() == before.in_flight().remove(target)
        &&& self.free_permits() == if before.in_flight().contains(target) {
            before.free_permits() + 1
        } else {
            before.free_permits()
        }
    }

    /// Ends the download of the photo of `target`, whether it was stored or
    /// not: the mark is cleared and the permit given back.
    pub fn download_finished(&mut self, target: i64)
        requires
            old(self).wf(),
        ensures
            final(self).wf(),
            final(self).same_but_downloads(old(self)),
            final(self).released(old(self), target),
    {
        if has_target(&self.profile_photo_downloading_set, target) {
            clear_target(&mut self.profile_photo_downloading_set, target);
            self.free_permits = self.free_permits + 1;
        } else {
            assert(self.in_flight().remove(target) =~= self.in_flight());
        }
    }

    /// Starts the download of the profile photo of a chat that is at hand.
    ///
    /// Where the photo of that chat is being downloaded already, the caller
    /// waits and nothing changes. Otherwise the chat must have a photo
    /// (`PhotoNotFound`) and a permit must be free (`Busy`); then the permit
    /// is taken, the chat is marked, and the photo is to be stored.
    pub fn download_chat_photo(&mut self, chat: &RawChat) -> (step: Result<
        DownloadStep,
        BackendError,
    >)
        requires
            old(self).wf(),
        ensures
            final(self).wf(),
            step == start_direct(
                old(self).in_flight().contains(chat.spec_id()),
                has_photo(*chat),
                old(self).free_permits(),
            ),
            takes_permit(step) ==> final(self).took_permit(old(self), chat.spec_id()),
            !takes_permit(step) ==> final(self).kept_downloads(old(self)),
    {
        let chat_id = chat.id();
        if has_target(&self.profile_photo_downloading_set, chat_id) {
            return Ok(DownloadStep::Wait);
        }
        if !chat_has_photo(chat) {
            return Err(BackendError::PhotoNotFound);
        }
        if self.free_permits == 0 {
            return Ok(DownloadStep::Busy);
        }
        self.take_permit(chat_id);
        Ok(DownloadStep::Fetch)
    }

    /// Starts the download of the profile photo of the sender of a message,
    /// whose photo directory `profile_photo_path` describes.
    ///
    /// A message without a sender gives `NoSender`. A sender of whom a photo
    /// is stored needs none. Otherwise the download starts as that of any
    /// chat at hand.
    pub fn download_sender_chat_photo(
        &mut self,
        sender: Option<&RawChat>,
        profile_photo_path: &ProfilePhotoPath,
    ) -> (step: Result<DownloadStep, BackendError>)
        requires
            old(self).wf(),
        ensures
            final(self).wf(),
            step == match sender {
                None => Err::<DownloadStep, BackendError>(BackendError::NoSender),
                Some(chat) => if profile_photo_path.current is Some {
                    Ok::<DownloadStep, BackendError>(DownloadStep::Stored)
                } else {
                    start_direct(
                        old(self).in_flight().contains(chat.spec_id()),
                        has_photo(*chat),
                        old(self).free_permits(),
                    )
                },
            },
            takes_permit(step) ==> sender is Some && final(self).took_permit(
                old(self),
                sender->0.spec_id(),
            ),
            !takes_permit(step) ==> final(self).kept_downloads(old(self)),
    {
        match sender {
            Some(chat) => {
                if profile_photo_path.current.is_none() {
                    self.download_chat_photo(chat)
                } else {
                    Ok(DownloadStep::Stored)
                }
            },
            None => Err(BackendError::NoSender),
        }
    }

    /// The handle that has to be resolved to read the preview of the profile
    /// photo of the chat `chat_id`; `UnknownChat` where none is known.
    pub fn get_chat_photo_thumb_by_chat_id(&self, chat_id: i64) -> (handle: Result<
        ChatHandle,
        BackendError,
    >)
        ensures
            handle == match crate::backend::chat::handle_for(self.handles(), chat_id) {
                Some(known) => Ok::<ChatHandle, BackendError>(known),
                None => Err::<ChatHandle, BackendError>(BackendError::UnknownChat),
            },
    {
        match find_handle(&self.seen_packed_chats_map, chat_id) {
            Some(known) => Ok(known),
            None => Err(BackendError::UnknownChat),
        }
    }
}

} // verus!
