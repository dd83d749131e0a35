//! Whole requests, from the first call to the status that is handed back.
//!
//! A [`Script`] fixes how the surroundings answer: what each text argument
//! holds, and whether the notification subsystem initializes and shows. The
//! calls that a dispatch asks for under a script form its [`trace`]. The
//! lemmas below say what the trace and the [`status`] are; they are proved
//! from [`open`], [`pending`] and [`react`], which the contracts of
//! [`Dispatch`](crate::dispatch::Dispatch) are stated over.

use vstd::prelude::*;
use crate::dispatch::{open, pending, react, ActionView, DispatchView, EventView, Field};
use crate::status::{STATUS_INIT_FAILED, STATUS_INVALID_TEXT, STATUS_OK, STATUS_SHOW_FAILED};

verus! {

/// A text argument as it arrives.
pub enum Handle {
    /// No text was passed.
    Null,
    /// A text was passed, and decoding it fails for this reason.
    Unreadable(Seq<char>),
    /// A text was passed, and decoding it gives this.
    Text(Seq<char>),
}

/// How the surroundings answer during one request.
pub struct Script {
    pub application: Handle,
    pub title: Handle,
    pub message: Handle,
    pub icon: Handle,
    /// Whether the notification subsystem initializes, and if not, why.
    pub init: Result<(), Seq<char>>,
    /// Whether the notification subsystem shows a notification, and if not, why.
    pub show: Result<(), Seq<char>>,
}

impl Script {
    /// The text argument of that name.
    pub open spec fn handle(self, field: Field) -> Handle {
        match field {
            Field::Application => self.application,
            Field::Title => self.title,
            Field::Message => self.message,
            Field::Icon => self.icon,
        }
    }

    /// What comes of carrying out an action. A null text cannot be decoded.
    /// No event follows `Return`: it ends the request, and the value given
    /// for it here is never used.
    pub open spec fn answer(self, action: ActionView) -> EventView {
        match action {
            ActionView::Decode(field) => match self.handle(field) {
                Handle::Text(text) => EventView::Decoded(text),
                Handle::Unreadable(detail) => EventView::DecodeFailed(detail),
                Handle::Null => EventView::DecodeFailed(Seq::empty()),
            },
            ActionView::Init { .. } => match self.init {
                Ok(_) => EventView::Initialized,
                Err(detail) => EventView::InitFailed(detail),
            },
            ActionView::Show { .. } => match self.show {
                Ok(_) => EventView::Shown,
                Err(detail) => EventView::ShowFailed(detail),
            },
            ActionView::Uninit => EventView::Released,
            ActionView::Return(_) => EventView::Released,
        }
    }

    /// All three required texts were passed.
    pub open spec fn required_present(self) -> bool {
        !(self.application is Null) && !(self.title is Null) && !(self.message is Null)
    }

    /// All three required texts were passed and can be decoded.
    pub open spec fn required_readable(self) -> bool {
        self.application is Text && self.title is Text && self.message is Text
    }

    /// The request gets as far as showing a notification: the required texts
    /// are readable, and so is the icon path if one was passed.
    pub open spec fn reaches_show(self) -> bool {
        self.required_readable() && !(self.icon is Unreadable)
    }

    /// The icon of the notification that the request shows.
    pub open spec fn icon_text(self) -> Option<Seq<char>> {
        match self.icon {
            Handle::Text(path) => Some(path),
            _ => None,
        }
    }
}

/// The most calls that a dispatch can still ask for, the final `Return` not
/// counted.
pub open spec fn calls_left(dispatch: DispatchView) -> nat {
    match dispatch {
        DispatchView::DecodingApplication { .. } => 7,
        DispatchView::DecodingTitle { .. } => 6,
        DispatchView::DecodingMessage { .. } => 5,
        DispatchView::Initializing { .. } => 4,
        DispatchView::DecodingIcon { .. } => 3,
        DispatchView::Showing { .. } => 2,
        DispatchView::Releasing { .. } => 1,
        DispatchView::Finished { .. } => 0,
    }
}

/// The actions that a dispatch asks for, one after the other, when each is
/// answered as the script says. The last one is the `Return`.
pub open spec fn trace_from(script: Script, dispatch: DispatchView) -> Seq<ActionView>
    decreases calls_left(dispatch),
{
    let action = pending(dispatch);
    if dispatch is Finished {
        seq![action]
    } else {
        seq![action] + trace_from(script, react(dispatch, script.answer(action)).dispatch)
    }
}

/// The dispatch that a request under this script starts with.
pub open spec fn first(script: Script) -> DispatchView {
    open(
        script.application is Null,
        script.title is Null,
        script.message is Null,
        script.icon is Null,
    ).dispatch
}

/// The actions of a whole request under this script.
pub open spec fn trace(script: Script) -> Seq<ActionView> {
    trace_from(script, first(script))
}

/// The status that a request under this script ends with: a text that is
/// missing or unreadable counts before everything else, then a failure to
/// show, then a failure to initialize.
pub open spec fn status(script: Script) -> int {
    if !script.reaches_show() {
        STATUS_INVALID_TEXT as int
    } else if script.show is Err {
        STATUS_SHOW_FAILED as int
    } else if script.init is Err {
        STATUS_INIT_FAILED as int
    } else {
        STATUS_OK as int
    }
}

/// The calls that come before the notification subsystem is touched.
pub open spec fn decoding_of_required() -> Seq<ActionView> {
    seq![
        ActionView::Decode(Field::Application),
        ActionView::Decode(Field::Title),
        ActionView::Decode(Field::Message),
    ]
}

/// Whether the notification subsystem is initialized after these calls, when
/// it was `before` them. Initializing an initialized subsystem keeps it so; a
/// failed attempt changes nothing.
pub open spec fn initialized_after(script: Script, before: bool, calls: Seq<ActionView>) -> bool
    decreases calls.len(),
{
    if calls.len() == 0 {
        before
    } else {
        let so_far = initialized_after(script, before, calls.drop_last());
        match calls.last() {
            ActionView::Init { .. } => so_far || script.init is Ok,
            ActionView::Uninit => false,
            _ => so_far,
        }
    }
}

/// Whether the notification subsystem is initialized after these requests,
/// made one after the other, when it was `before` the first.
pub open spec fn initialized_after_requests(scripts: Seq<Script>, before: bool) -> bool
    decreases scripts.len(),
{
    if scripts.len() == 0 {
        before
    } else {
        initialized_after(
            scripts.last(),
            initialized_after_requests(scripts.drop_last(), before),
            trace(scripts.last()),
        )
    }
}

/// Every request ends by handing back its status, and the status is the one
/// that [`status`] gives.
pub proof fn lemma_request_returns_status(script: Script)
    ensures
        trace(script).last() == ActionView::Return(status(script)),
{
    reveal_with_fuel(trace_from, 9);
}

/// A request with a required text argument that is null makes no call at all:
/// it hands back -1 at once, so nothing is decoded and the notification
/// subsystem is not touched.
pub proof fn lemma_null_argument_ends_request(script: Script)
    requires
        script.application is Null || script.title is Null || script.message is Null,
    ensures
        trace(script) == seq![ActionView::Return(-1)],
        status(script) == -1,
{
    reveal_with_fuel(trace_from, 2);
}

/// A required text argument that cannot be decoded ends the request with -1
/// before the notification subsystem is touched, and no argument after it is
/// decoded.
pub proof fn lemma_unreadable_argument_ends_request(script: Script)
    requires
        script.required_present(),
        !script.required_readable(),
    ensures
        status(script) == -1,
        trace(script) == if !(script.application is Text) {
            seq![ActionView::Decode(Field::Application), ActionView::Return(-1)]
        } else if !(script.title is Text) {
            seq![
                ActionView::Decode(Field::Application),
                ActionView::Decode(Field::Title),
                ActionView::Return(-1),
            ]
        } else {
            decoding_of_required().push(ActionView::Return(-1))
        },
{
    reveal_with_fuel(trace_from, 5);
}

/// An icon path that cannot be decoded ends the request with -1 after the
/// subsystem was asked to initialize: nothing is shown, and the subsystem is
/// not released.
pub proof fn lemma_unreadable_icon_ends_request(script: Script)
    requires
        script.required_readable(),
        script.icon is Unreadable,
    ensures
        status(script) == -1,
        trace(script) == decoding_of_required() + seq![
            ActionView::Init { application: script.application->Text_0 },
            ActionView::Decode(Field::Icon),
            ActionView::Return(-1),
        ],
{
    reveal_with_fuel(trace_from, 7);
}

/// A request whose texts can all be decoded initializes the subsystem once,
/// shows one notification made of the title, the message and the icon path if
/// there is one, releases the subsystem once, and hands back its status,
/// whether or not initializing and showing succeed.
pub proof fn lemma_readable_request(script: Script)
    requires
        script.reaches_show(),
    ensures
        trace(script) == decoding_of_required() + seq![
            ActionView::Init { application: script.application->Text_0 },
        ] + (if script.icon is Text {
            seq![ActionView::Decode(Field::Icon)]
        } else {
            seq![]
        }) + seq![
            ActionView::Show {
                summary: script.title->Text_0,
                body: script.message->Text_0,
                icon: script.icon_text(),
            },
            ActionView::Uninit,
            ActionView::Return(status(script)),
        ],
{
    reveal_with_fuel(trace_from, 9);
}

/// With readable required texts, no icon, and a subsystem that initializes
/// and shows, the request hands back 0 and shows exactly one notification,
/// without an icon.
pub proof fn lemma_plain_request_succeeds(script: Script)
    requires
        script.required_readable(),
        script.icon is Null,
        script.init is Ok,
        script.show is Ok,
    ensures
        status(script) == 0,
        trace(script) == decoding_of_required() + seq![
            ActionView::Init { application: script.application->Text_0 },
            ActionView::Show {
                summary: script.title->Text_0,
                body: script.message->Text_0,
                icon: None,
            },
            ActionView::Uninit,
            ActionView::Return(0),
        ],
{
    lemma_readable_request(script);
}

/// With a readable icon path, the one notification that is shown carries
/// that path, and it is shown after the path was decoded.
pub proof fn lemma_icon_is_shown(script: Script, path: Seq<char>)
    requires
        script.required_readable(),
        script.icon == Handle::Text(path),
    ensures
        trace(script) == decoding_of_required() + seq![
            ActionView::Init { application: script.application->Text_0 },
            ActionView::Decode(Field::Icon),
            ActionView::Show {
                summary: script.title->Text_0,
                body: script.message->Text_0,
                icon: Some(path),
            },
            ActionView::Uninit,
            ActionView::Return(status(script)),
        ],
{
    lemma_readable_request(script);
}

/// A failure to initialize is not forgotten when the notification is shown
/// all the same: the request hands back -3.
pub proof fn lemma_init_failure_is_reported(script: Script)
    requires
        script.reaches_show(),
        script.init is Err,
        script.show is Ok,
    ensures
        status(script) == -3,
        trace(script).last() == ActionView::Return(-3),
        trace(script).contains(
            ActionView::Show {
                summary: script.title->Text_0,
                body: script.message->Text_0,
                icon: script.icon_text(),
            },
        ),
{
    lemma_readable_request(script);
    let shown = ActionView::Show {
        summary: script.title->Text_0,
        body: script.message->Text_0,
        icon: script.icon_text(),
    };
    assert(trace(script)[trace(script).len() - 3] == shown);
}

/// When initializing fails and showing fails too, the later failure wins:
/// the request hands back -2.
pub proof fn lemma_show_failure_wins(script: Script)
    requires
        script.reaches_show(),
        script.init is Err,
        script.show is Err,
    ensures
        status(script) == -2,
        trace(script).last() == ActionView::Return(-2),
{
    lemma_request_returns_status(script);
}

/// What a request leaves behind: the subsystem is released at the end of
/// every request that gets as far as showing; a request that ends before
/// initializing leaves the subsystem as it found it; and a request that ends
/// over an unreadable icon path leaves it initialized if initializing
/// succeeded.
pub proof fn lemma_request_leaves(script: Script, before: bool)
    ensures
        initialized_after(script, before, trace(script)) == if script.reaches_show() {
            false
        } else if script.required_readable() {
            before || script.init is Ok
        } else {
            before
        },
{
    reveal_with_fuel(trace_from, 9);
    reveal_with_fuel(initialized_after, 9);
    let calls = trace(script);
    if script.reaches_show() {
        lemma_readable_request(script);
        assert(calls.drop_last().last() == ActionView::Uninit);
    } else if script.required_readable() {
        lemma_unreadable_icon_ends_request(script);
        assert(calls.drop_last().drop_last().last() == ActionView::Init {
            application: script.application->Text_0,
        });
        assert(calls.drop_last().drop_last().drop_last() =~= decoding_of_required());
        assert(calls.drop_last().last() == ActionView::Decode(Field::Icon));
    } else if script.required_present() {
        lemma_unreadable_argument_ends_request(script);
    } else {
        lemma_null_argument_ends_request(script);
    }
}

/// Requests made one after the other on a subsystem that works do not get in
/// each other's way: each initializes the subsystem, shows its notification
/// and releases the subsystem again, each hands back 0, and after the last
/// one the subsystem is not initialized.
pub proof fn lemma_requests_in_sequence(scripts: Seq<Script>)
    requires
        forall|i: int|
            0 <= i < scripts.len() ==> {
                &&& (#[trigger] scripts[i]).reaches_show()
                &&& scripts[i].init is Ok
                &&& scripts[i].show is Ok
            },
    ensures
        !initialized_after_requests(scripts, false),
        forall|i: int|
            0 <= i < scripts.len() ==> {
                &&& status(#[trigger] scripts[i]) == 0
                &&& !initialized_after(scripts[i], false, trace(scripts[i]))
            },
    decreases scripts.len(),
{
    assert forall|i: int| 0 <= i < scripts.len() implies {
        &&& status(#[trigger] scripts[i]) == 0
        &&& !initialized_after(scripts[i], false, trace(scripts[i]))
    } by {
        lemma_request_leaves(scripts[i], false);
    }
    if scripts.len() > 0 {
        lemma_requests_in_sequence(scripts.drop_last());
        lemma_request_leaves(scripts.last(), false);
    }
}

} // verus!
