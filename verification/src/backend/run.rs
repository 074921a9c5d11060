//! The loop over live updates, one turn at a time, and the guard against
//! running it twice.

use crate::backend::message::{handles_after_message, lookup, summary_after_message, IncomingAction};
use crate::backend::{Backend, BackendError};
use crate::raw::RawMessage;
use vstd::prelude::*;

verus! {

/// What the update stream delivers.
#[derive(Debug)]
pub enum Update {
    /// A new message.
    NewMessage(RawMessage),
    /// Anything else; it is passed over.
    Other,
}

/// How the loop goes on after one turn.
#[derive(Debug, Clone, Copy, PartialEq, Eq)]
pub enum RunStep {
    /// The update was taken: the session is to be saved in the background,
    /// and `incoming` says what a new message asks for. Then the loop waits
    /// for the next update.
    Continue { incoming: Option<IncomingAction> },
    /// Waiting for the update failed: the loop ends with this error.
    Fail(BackendError),
}

/// Whether a loop may be started: not while the one started before is still
/// running. `previous_finished` is `None` where no loop was started before.
pub open spec fn may_run(previous_finished: Option<bool>) -> bool {
    previous_finished != Some(false)
}

/// Decides whether the update loop may be started, given whether the loop
/// that was started before has finished: a loop that is still running gives
/// `AlreadyInProgress`.
pub fn check_run_allowed(previous_finished: Option<bool>) -> (result: Result<(), BackendError>)
    ensures
        may_run(previous_finished) ==> result is Ok,
        !may_run(previous_finished) ==> result == Err::<(), BackendError>(
            BackendError::AlreadyInProgress,
        ),
{
    match previous_finished {
        Some(finished) => {
            if !finished {
                return Err(BackendError::AlreadyInProgress);
            }
            Ok(())
        },
        None => Ok(()),
    }
}

impl<L, P, H> Backend<L, P, H> {
    /// Takes one turn of the update loop. `update` is what the stream
    /// delivered, `None` where waiting for it failed.
    ///
    /// A new message is applied as `incoming_message_handler` says; any
    /// other update changes nothing. A failure ends the loop and changes
    /// nothing.
    pub fn run(&mut self, update: Option<&Update>) -> (step: RunStep)
        requires
            old(self).wf(),
        ensures
            final(self).wf(),
            final(self).same_but_caches(old(self)),
            match update {
                Some(Update::NewMessage(raw_message)) => {
                    &&& final(self).handles() == handles_after_message(
                        old(self).handles(),
                        *raw_message,
                    )
                    &&& final(self).summaries() == old(self).summaries().insert(
                        raw_message.chat.spec_id(),
                        summary_after_message(
                            lookup(old(self).summaries(), raw_message.chat.spec_id()),
                            *raw_message,
                        ),
                    )
                    &&& step == (RunStep::Continue {
                        incoming: Some(
                            IncomingAction {
                                new_chat: !old(self).summaries().contains_key(
                                    raw_message.chat.spec_id(),
                                ),
                                prefetch_photo_of: match raw_message.sender {
                                    Some(sender) => Some(sender.spec_id()),
                                    None => None,
                                },
                            },
                        ),
                    })
                },
                Some(Update::Other) => {
                    &&& final(self).handles() == old(self).handles()
                    &&& final(self).summaries() == old(self).summaries()
                    &&& step == (RunStep::Continue { incoming: None })
                },
                None => {
                    &&& final(self).handles() == old(self).handles()
                    &&& final(self).summaries() == old(self).summaries()
                    &&& step == RunStep::Fail(BackendError::Transport)
                },
            },
    {
        match update {
            Some(Update::NewMessage(raw_message)) => {
                let action = self.incoming_message_handler(raw_message);
                RunStep::Continue { incoming: Some(action) }
            },
            Some(Update::Other) => RunStep::Continue { incoming: None },
            None => RunStep::Fail(BackendError::Transport),
        }
    }

    /// Keeps the handle of the update loop that was started, in place of an
    /// earlier one.
    pub fn set_run_handler(&mut self, handler: H)
        requires
            old(self).wf(),
        ensures
            final(self).wf(),
            final(self).run_handler() == Some(handler),
            final(self).handles() == old(self).handles(),
            final(self).summaries() == old(self).summaries(),
            final(self).in_flight() == old(self).in_flight(),
            final(self).permits() == old(self).permits(),
            final(self).free_permits() == old(self).free_permits(),
            final(self).state() == old(self).state(),
            final(self).login_token() == old(self).login_token(),
            final(self).password_token() == old(self).password_token(),
            final(self).user() == old(self).user(),
    {
        self.run_handler = Some(handler);
    }

    /// Hands out the handle of the update loop that was started last, and
    /// keeps none.
    pub fn get_run_handler(&mut self) -> (handler: Option<H>)
        requires
            old(self).wf(),
        ensures
            final(self).wf(),
            handler == old(self).run_handler(),
            final(self).run_handler() is None,
            final(self).handles() == old(self).handles(),
            final(self).summaries() == old(self).summaries(),
            final(self).in_flight() == old(self).in_flight(),
            final(self).permits() == old(self).permits(),
            final(self).free_permits() == old(self).free_permits(),
            final(self).state() == old(self).state(),
            final(self).login_token() == old(self).login_token(),
            final(self).password_token() == old(self).password_token(),
            final(self).user() == old(self).user(),
    {
        self.run_handler.take()
    }
}

} // verus!
