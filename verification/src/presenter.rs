//! The presenter: what the chat platform is asked to show for a call on
//! the sink.
//!
//! The bot's activity always shows the latest call. The status channel
//! gets a message only when the liveness shown changes, so that a new
//! player count does not announce the server again. The presenter
//! remembers the last call that the platform took; a call that failed is
//! never confirmed and so never counts as shown.

use vstd::prelude::*;
use crate::count::{decimal_digits, write_count};
use crate::record::{CallModel, SinkCall};
use crate::split::SPACE;

verus! {

/// The bytes of `Server offline`.
pub open spec fn offline_text() -> Seq<u8> {
    seq![
        83u8, 101u8, 114u8, 118u8, 101u8, 114u8, 32u8, 111u8, 102u8, 102u8, 108u8, 105u8, 110u8,
        101u8,
    ]
}

/// The bytes of `Server online`.
pub open spec fn online_text() -> Seq<u8> {
    seq![83u8, 101u8, 114u8, 118u8, 101u8, 114u8, 32u8, 111u8, 110u8, 108u8, 105u8, 110u8, 101u8]
}

/// The bytes of `/48`: the number of players that the server can hold.
pub open spec fn capacity_text() -> Seq<u8> {
    seq![47u8, 52u8, 56u8]
}

/// The message that announces a liveness.
pub open spec fn liveness_text(offline: bool) -> Seq<u8> {
    if offline {
        offline_text()
    } else {
        online_text()
    }
}

/// The text of the bot's activity for a call: `Server offline`, or
/// `Server online`, a space, the player count and `/48`.
pub open spec fn activity_text(call: CallModel) -> Seq<u8> {
    match call {
        CallModel::SetOffline => offline_text(),
        CallModel::SetOnline(n) => online_text().push(SPACE) + decimal_digits(n) + capacity_text(),
    }
}

/// True if both calls show the same liveness.
pub open spec fn same_liveness(a: CallModel, b: CallModel) -> bool {
    (a is SetOffline) == (b is SetOffline)
}

/// The message for the status channel when `call` follows `shown`: the
/// liveness of `call`, unless `shown` has the same.
pub open spec fn notice_text(shown: Option<CallModel>, call: CallModel) -> Option<Seq<u8>> {
    if shown is Some && same_liveness(shown->Some_0, call) {
        None
    } else {
        Some(liveness_text(call is SetOffline))
    }
}

/// What the chat platform is asked to show for one call.
#[derive(Clone, Debug, PartialEq, Eq)]
pub struct Presentation {
    /// The message for the status channel, if any.
    pub notice: Option<Vec<u8>>,
    /// The text of the bot's activity.
    pub activity: Vec<u8>,
}

/// The model of a [`Presentation`].
pub ghost struct PresentationModel {
    pub notice: Option<Seq<u8>>,
    pub activity: Seq<u8>,
}

impl View for Presentation {
    type V = PresentationModel;

    open spec fn view(&self) -> PresentationModel {
        PresentationModel {
            notice: match self.notice {
                Some(text) => Some(text@),
                None => None,
            },
            activity: self.activity@,
        }
    }
}

/// Remembers the last call that the chat platform took. Its view is that
/// call, if there was one.
#[derive(Clone, Copy, Debug)]
pub struct Presenter {
    shown: Option<SinkCall>,
}

impl View for Presenter {
    type V = Option<CallModel>;

    closed spec fn view(&self) -> Option<CallModel> {
        match self.shown {
            Some(call) => Some(call@),
            None => None,
        }
    }
}

/// The message that announces a liveness in the status channel:
/// `Server offline` or `Server online`.
pub fn announcement(offline: bool) -> (text: Vec<u8>)
    ensures
        text@ == liveness_text(offline),
{
    let mut text: Vec<u8> = Vec::new();
    if offline {
        let word: [u8; 14] = [83, 101, 114, 118, 101, 114, 32, 111, 102, 102, 108, 105, 110, 101];
        text.extend_from_slice(word.as_slice());
        assert(text@ =~= offline_text());
    } else {
        let word: [u8; 13] = [83, 101, 114, 118, 101, 114, 32, 111, 110, 108, 105, 110, 101];
        text.extend_from_slice(word.as_slice());
        assert(text@ =~= online_text());
    }
    text
}

/// The text of the bot's activity for a call.
pub fn render_activity(call: SinkCall) -> (text: Vec<u8>)
    ensures
        text@ == activity_text(call@),
{
    match call {
        SinkCall::SetOffline => announcement(true),
        SinkCall::SetOnline(n) => {
            let mut text = announcement(false);
            text.push(SPACE);
            let mut digits = write_count(n);
            text.append(&mut digits);
            text.push(47);
            text.push(52);
            text.push(56);
            assert(text@ =~= activity_text(call@));
            text
        },
    }
}

impl Presenter {
    /// A presenter for a platform that has been shown nothing yet.
    pub fn new() -> (presenter: Presenter)
        ensures
            presenter@ is None,
    {
        Presenter { shown: None }
    }

    /// What to show for `call`, given what the platform took last.
    pub fn present(&self, call: SinkCall) -> (shows: Presentation)
        ensures
            shows@ == (PresentationModel {
                notice: notice_text(self@, call@),
                activity: activity_text(call@),
            }),
    {
        let repeats = match (self.shown, call) {
            (Some(SinkCall::SetOffline), SinkCall::SetOffline) => true,
            (Some(SinkCall::SetOnline(_)), SinkCall::SetOnline(_)) => true,
            _ => false,
        };
        let notice = if repeats {
            None
        } else {
            match call {
                SinkCall::SetOffline => Some(announcement(true)),
                SinkCall::SetOnline(_) => Some(announcement(false)),
            }
        };
        Presentation { notice, activity: render_activity(call) }
    }

    /// Records that the platform took `call`.
    pub fn confirm(&mut self, call: SinkCall)
        ensures
            final(self)@ == Some(call@),
    {
        self.shown = Some(call);
    }
}

} // verus!
