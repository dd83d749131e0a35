//! The course of one notification request.
//!
//! A request is carried out by calls that this library does not make itself:
//! decoding a text argument, initializing the notification subsystem, showing
//! the notification, releasing the subsystem. [`Dispatch`] decides which call
//! comes next. The embedding code asks it for the pending [`Action`], carries
//! that out, and reports what happened as an [`Event`]; the dispatch moves on
//! and may hand back a line for the error stream.
//!
//! The types ending in `View` are the mathematical model that the contracts
//! speak of; [`open`], [`pending`] and [`react`] define the whole behaviour.

use vstd::prelude::*;
use vstd::string::StringExecFns;
use crate::status::{STATUS_INIT_FAILED, STATUS_INVALID_TEXT, STATUS_OK, STATUS_SHOW_FAILED};

verus! {

/// One of the four text arguments of a request.
#[derive(Clone, Copy, Debug, PartialEq, Eq)]
pub enum Field {
    Application,
    Title,
    Message,
    Icon,
}

/// What came of the action that was pending.
#[derive(Debug, PartialEq, Eq)]
pub enum Event {
    /// The text argument was decoded; this is its text.
    Decoded(String),
    /// The text argument could not be decoded; the text says why.
    DecodeFailed(String),
    /// The notification subsystem is initialized.
    Initialized,
    /// The notification subsystem could not be initialized; the text says why.
    InitFailed(String),
    /// The notification was shown.
    Shown,
    /// The notification could not be shown; the text says why.
    ShowFailed(String),
    /// The notification subsystem was released.
    Released,
}

/// The model of an [`Event`].
pub enum EventView {
    Decoded(Seq<char>),
    DecodeFailed(Seq<char>),
    Initialized,
    InitFailed(Seq<char>),
    Shown,
    ShowFailed(Seq<char>),
    Released,
}

impl View for Event {
    type V = EventView;

    open spec fn view(&self) -> EventView {
        match *self {
            Event::Decoded(text) => EventView::Decoded(text@),
            Event::DecodeFailed(detail) => EventView::DecodeFailed(detail@),
            Event::Initialized => EventView::Initialized,
            Event::InitFailed(detail) => EventView::InitFailed(detail@),
            Event::Shown => EventView::Shown,
            Event::ShowFailed(detail) => EventView::ShowFailed(detail@),
            Event::Released => EventView::Released,
        }
    }
}

/// The call that a dispatch waits for.
#[derive(Clone, Copy, Debug, PartialEq, Eq)]
pub enum Action<'a> {
    /// Decode this text argument.
    Decode(Field),
    /// Initialize the notification subsystem under this application name.
    Init { application: &'a str },
    /// Build a notification from these texts and show it.
    Show { summary: &'a str, body: &'a str, icon: Option<&'a str> },
    /// Release the notification subsystem.
    Uninit,
    /// Make no further call and hand this status back.
    Return(i32),
}

/// The model of an [`Action`].
pub enum ActionView {
    Decode(Field),
    Init { application: Seq<char> },
    Show { summary: Seq<char>, body: Seq<char>, icon: Option<Seq<char>> },
    Uninit,
    Return(int),
}

impl<'a> View for Action<'a> {
    type V = ActionView;

    open spec fn view(&self) -> ActionView {
        match *self {
            Action::Decode(field) => ActionView::Decode(field),
            Action::Init { application } => ActionView::Init { application: application@ },
            Action::Show { summary, body, icon } => ActionView::Show {
                summary: summary@,
                body: body@,
                icon: icon.deep_view(),
            },
            Action::Uninit => ActionView::Uninit,
            Action::Return(status) => ActionView::Return(status as int),
        }
    }
}

/// How far a request has come, with the texts decoded so far.
#[derive(Debug, PartialEq, Eq)]
pub enum Dispatch {
    /// The application name is being decoded.
    DecodingApplication { icon_present: bool },
    /// The title is being decoded.
    DecodingTitle { icon_present: bool, application: String },
    /// The message is being decoded.
    DecodingMessage { icon_present: bool, application: String, title: String },
    /// The notification subsystem is being initialized.
    Initializing { icon_present: bool, application: String, title: String, message: String },
    /// The icon path is being decoded; the subsystem has been asked to initialize.
    DecodingIcon { init_failed: bool, title: String, message: String },
    /// The notification is being shown.
    Showing { init_failed: bool, title: String, message: String, icon: Option<String> },
    /// The notification subsystem is being released.
    Releasing { status: i32 },
    /// Nothing is left to do.
    Finished { status: i32 },
}

/// The model of a [`Dispatch`].
pub enum DispatchView {
    DecodingApplication { icon_present: bool },
    DecodingTitle { icon_present: bool, application: Seq<char> },
    DecodingMessage { icon_present: bool, application: Seq<char>, title: Seq<char> },
    Initializing {
        icon_present: bool,
        application: Seq<char>,
        title: Seq<char>,
        message: Seq<char>,
    },
    DecodingIcon { init_failed: bool, title: Seq<char>, message: Seq<char> },
    Showing { init_failed: bool, title: Seq<char>, message: Seq<char>, icon: Option<Seq<char>> },
    Releasing { status: int },
    Finished { status: int },
}

impl View for Dispatch {
    type V = DispatchView;

    open spec fn view(&self) -> DispatchView {
        match *self {
            Dispatch::DecodingApplication { icon_present } => DispatchView::DecodingApplication {
                icon_present,
            },
            Dispatch::DecodingTitle { icon_present, application } => DispatchView::DecodingTitle {
                icon_present,
                application: application@,
            },
            Dispatch::DecodingMessage {
                icon_present,
                application,
                title,
            } => DispatchView::DecodingMessage {
                icon_present,
                application: application@,
                title: title@,
            },
            Dispatch::Initializing {
                icon_present,
                application,
                title,
                message,
            } => DispatchView::Initializing {
                icon_present,
                application: application@,
                title: title@,
                message: message@,
            },
            Dispatch::DecodingIcon { init_failed, title, message } => DispatchView::DecodingIcon {
                init_failed,
                title: title@,
                message: message@,
            },
            Dispatch::Showing { init_failed, title, message, icon } => DispatchView::Showing {
                init_failed,
                title: title@,
                message: message@,
                icon: icon.deep_view(),
            },
            Dispatch::Releasing { status } => DispatchView::Releasing { status: status as int },
            Dispatch::Finished { status } => DispatchView::Finished { status: status as int },
        }
    }
}

/// A dispatch after a move, with the line to write to the error stream, if
/// the move calls for one.
#[derive(Debug, PartialEq, Eq)]
pub struct Step {
    pub dispatch: Dispatch,
    pub diagnostic: Option<String>,
}

/// The model of a [`Step`].
pub struct StepView {
    pub dispatch: DispatchView,
    pub diagnostic: Option<Seq<char>>,
}

impl View for Step {
    type V = StepView;

    open spec fn view(&self) -> StepView {
        StepView { dispatch: self.dispatch@, diagnostic: self.diagnostic.deep_view() }
    }
}

/// A move that calls for no diagnostic.
pub open spec fn quiet(dispatch: DispatchView) -> StepView {
    StepView { dispatch, diagnostic: None }
}

/// The end of a request over a text argument: no call is left to make, the
/// status is [`STATUS_INVALID_TEXT`].
pub open spec fn rejected(diagnostic: Option<Seq<char>>) -> StepView {
    StepView { dispatch: DispatchView::Finished { status: STATUS_INVALID_TEXT as int }, diagnostic }
}

/// How a request starts, given which of its text arguments are null.
///
/// The first required argument that is null ends the request at once. The
/// icon path may be null: then the notification has no icon.
pub open spec fn open(
    application_null: bool,
    title_null: bool,
    message_null: bool,
    icon_null: bool,
) -> StepView {
    if application_null {
        rejected(Some("JString application was null!"@))
    } else if title_null {
        rejected(Some("JString title was null!"@))
    } else if message_null {
        rejected(Some("JString message was null!"@))
    } else {
        quiet(DispatchView::DecodingApplication { icon_present: !icon_null })
    }
}

/// The call that a dispatch waits for.
pub open spec fn pending(dispatch: DispatchView) -> ActionView {
    match dispatch {
        DispatchView::DecodingApplication { .. } => ActionView::Decode(Field::Application),
        DispatchView::DecodingTitle { .. } => ActionView::Decode(Field::Title),
        DispatchView::DecodingMessage { .. } => ActionView::Decode(Field::Message),
        DispatchView::Initializing { application, .. } => ActionView::Init { application },
        DispatchView::DecodingIcon { .. } => ActionView::Decode(Field::Icon),
        DispatchView::Showing { title, message, icon, .. } => ActionView::Show {
            summary: title,
            body: message,
            icon,
        },
        DispatchView::Releasing { .. } => ActionView::Uninit,
        DispatchView::Finished { status } => ActionView::Return(status),
    }
}

/// The dispatch that follows an attempt to initialize the subsystem. A failed
/// attempt is remembered and the request goes on.
pub open spec fn after_init(
    icon_present: bool,
    init_failed: bool,
    title: Seq<char>,
    message: Seq<char>,
) -> DispatchView {
    if icon_present {
        DispatchView::DecodingIcon { init_failed, title, message }
    } else {
        DispatchView::Showing { init_failed, title, message, icon: None }
    }
}

/// The status of a request whose notification was shown.
pub open spec fn status_after_show(init_failed: bool) -> int {
    if init_failed {
        STATUS_INIT_FAILED as int
    } else {
        STATUS_OK as int
    }
}

/// How a dispatch moves on an event.
///
/// An event that does not answer the pending action changes nothing, and a
/// finished dispatch stays as it is.
pub open spec fn react(dispatch: DispatchView, event: EventView) -> StepView {
    match (dispatch, event) {
        (
            DispatchView::DecodingApplication { icon_present },
            EventView::Decoded(text),
        ) => quiet(DispatchView::DecodingTitle { icon_present, application: text }),
        (DispatchView::DecodingApplication { .. }, EventView::DecodeFailed(detail)) => rejected(
            Some("couldn't read JString application! "@ + detail),
        ),
        (
            DispatchView::DecodingTitle { icon_present, application },
            EventView::Decoded(text),
        ) => quiet(DispatchView::DecodingMessage { icon_present, application, title: text }),
        (DispatchView::DecodingTitle { .. }, EventView::DecodeFailed(detail)) => rejected(
            Some("couldn't read JString title! "@ + detail),
        ),
        (
            DispatchView::DecodingMessage { icon_present, application, title },
            EventView::Decoded(text),
        ) => quiet(
            DispatchView::Initializing { icon_present, application, title, message: text },
        ),
        (DispatchView::DecodingMessage { .. }, EventView::DecodeFailed(detail)) => rejected(
            Some("couldn't read JString message! "@ + detail),
        ),
        (
            DispatchView::Initializing { icon_present, title, message, .. },
            EventView::Initialized,
        ) => quiet(after_init(icon_present, false, title, message)),
        (
            DispatchView::Initializing { icon_present, title, message, .. },
            EventView::InitFailed(detail),
        ) => StepView {
            dispatch: after_init(icon_present, true, title, message),
            diagnostic: Some("libnotify::init failed! "@ + detail),
        },
        (
            DispatchView::DecodingIcon { init_failed, title, message },
            EventView::Decoded(text),
        ) => quiet(DispatchView::Showing { init_failed, title, message, icon: Some(text) }),
        (DispatchView::DecodingIcon { .. }, EventView::DecodeFailed(_)) => rejected(None),
        (DispatchView::Showing { init_failed, .. }, EventView::Shown) => quiet(
            DispatchView::Releasing { status: status_after_show(init_failed) },
        ),
        (DispatchView::Showing { .. }, EventView::ShowFailed(detail)) => StepView {
            dispatch: DispatchView::Releasing { status: STATUS_SHOW_FAILED as int },
            diagnostic: Some("libnotify::Notification::show failed! "@ + detail),
        },
        (DispatchView::Releasing { status }, EventView::Released) => quiet(
            DispatchView::Finished { status },
        ),
        _ => quiet(dispatch),
    }
}

/// Joins the opening words of a diagnostic and the reason.
fn report(prefix: &str, detail: &str) -> (line: String)
    ensures
        line@ == prefix@ + detail@,
{
    String::from_str(prefix).concat(detail)
}

/// The step that ends a request over a text argument.
fn reject(diagnostic: Option<String>) -> (step: Step)
    ensures
        step@ == rejected(diagnostic.deep_view()),
{
    Step { dispatch: Dispatch::Finished { status: STATUS_INVALID_TEXT }, diagnostic }
}

impl Dispatch {
    /// Starts a request. Each argument says whether that text argument is null.
    pub fn start(
        application_null: bool,
        title_null: bool,
        message_null: bool,
        icon_null: bool,
    ) -> (step: Step)
        ensures
            step@ == open(application_null, title_null, message_null, icon_null),
    {
        if application_null {
            reject(Some(String::from_str("JString application was null!")))
        } else if title_null {
            reject(Some(String::from_str("JString title was null!")))
        } else if message_null {
            reject(Some(String::from_str("JString message was null!")))
        } else {
            Step {
                dispatch: Dispatch::DecodingApplication { icon_present: !icon_null },
                diagnostic: None,
            }
        }
    }

    /// The call that this dispatch waits for. The texts in it are the ones
    /// that were decoded for this request.
    pub fn action(&self) -> (action: Action<'_>)
        ensures
            action@ == pending(self@),
    {
        match self {
            Dispatch::DecodingApplication { .. } => Action::Decode(Field::Application),
            Dispatch::DecodingTitle { .. } => Action::Decode(Field::Title),
            Dispatch::DecodingMessage { .. } => Action::Decode(Field::Message),
            Dispatch::Initializing { application, .. } => Action::Init {
                application: application.as_str(),
            },
            Dispatch::DecodingIcon { .. } => Action::Decode(Field::Icon),
            Dispatch::Showing { title, message, icon, .. } => {
                let icon: Option<&str> = match icon {
                    Some(path) => Some(path.as_str()),
                    None => None,
                };
                Action::Show { summary: title.as_str(), body: message.as_str(), icon }
            },
            Dispatch::Releasing { .. } => Action::Uninit,
            Dispatch::Finished { status } => Action::Return(*status),
        }
    }

    /// Takes in what came of the pending action and moves on.
    pub fn advance(self, event: Event) -> (step: Step)
        ensures
            step@ == react(self@, event@),
    {
        match (self, event) {
            (Dispatch::DecodingApplication { icon_present }, Event::Decoded(text)) => Step {
                dispatch: Dispatch::DecodingTitle { icon_present, application: text },
                diagnostic: None,
            },
            (Dispatch::DecodingApplication { .. }, Event::DecodeFailed(detail)) => reject(
                Some(report("couldn't read JString application! ", detail.as_str())),
            ),
            (Dispatch::DecodingTitle { icon_present, application }, Event::Decoded(text)) => Step {
                dispatch: Dispatch::DecodingMessage { icon_present, application, title: text },
                diagnostic: None,
            },
            (Dispatch::DecodingTitle { .. }, Event::DecodeFailed(detail)) => reject(
                Some(report("couldn't read JString title! ", detail.as_str())),
            ),
            (
                Dispatch::DecodingMessage { icon_present, application, title },
                Event::Decoded(text),
            ) => Step {
                dispatch: Dispatch::Initializing { icon_present, application, title, message: text },
                diagnostic: None,
            },
            (Dispatch::DecodingMessage { .. }, Event::DecodeFailed(detail)) => reject(
                Some(report("couldn't read JString message! ", detail.as_str())),
            ),
            (
                Dispatch::Initializing { icon_present, title, message, .. },
                Event::Initialized,
            ) => Step {
                dispatch: Dispatch::prepared(icon_present, false, title, message),
                diagnostic: None,
            },
            (
                Dispatch::Initializing { icon_present, title, message, .. },
                Event::InitFailed(detail),
            ) => Step {
                dispatch: Dispatch::prepared(icon_present, true, title, message),
                diagnostic: Some(report("libnotify::init failed! ", detail.as_str())),
            },
            (Dispatch::DecodingIcon { init_failed, title, message }, Event::Decoded(text)) => Step {
                dispatch: Dispatch::Showing { init_failed, title, message, icon: Some(text) },
                diagnostic: None,
            },
            (Dispatch::DecodingIcon { .. }, Event::DecodeFailed(_)) => reject(None),
            (Dispatch::Showing { init_failed, .. }, Event::Shown) => {
                let status: i32 = if init_failed {
                    STATUS_INIT_FAILED
                } else {
                    STATUS_OK
                };
                Step { dispatch: Dispatch::Releasing { status }, diagnostic: None }
            },
            (Dispatch::Showing { .. }, Event::ShowFailed(detail)) => Step {
                dispatch: Dispatch::Releasing { status: STATUS_SHOW_FAILED },
                diagnostic: Some(
                    report("libnotify::Notification::show failed! ", detail.as_str()),
                ),
            },
            (Dispatch::Releasing { status }, Event::Released) => Step {
                dispatch: Dispatch::Finished { status },
                diagnostic: None,
            },
            (dispatch, _) => Step { dispatch, diagnostic: None },
        }
    }

    /// The dispatch that follows an attempt to initialize the subsystem.
    fn prepared(icon_present: bool, init_failed: bool, title: String, message: String) -> (next:
        Dispatch)
        ensures
            next@ == after_init(icon_present, init_failed, title@, message@),
    {
        if icon_present {
            Dispatch::DecodingIcon { init_failed, title, message }
        } else {
            Dispatch::Showing { init_failed, title, message, icon: None }
        }
    }
}

} // verus!
