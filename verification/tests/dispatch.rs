use jni_notifications::dispatch::{Action, Dispatch, Event, Field, Step};
use jni_notifications::status::{
    STATUS_INIT_FAILED, STATUS_INVALID_TEXT, STATUS_OK, STATUS_SHOW_FAILED,
};

fn text(s: &str) -> String {
    String::from(s)
}

/// Starts a request with all required texts present and decodes them.
fn decoded(icon_null: bool) -> Dispatch {
    let step = Dispatch::start(false, false, false, icon_null);
    assert_eq!(step.diagnostic, None);
    assert_eq!(step.dispatch.action(), Action::Decode(Field::Application));
    let step = step.dispatch.advance(Event::Decoded(text("mail")));
    assert_eq!(step.diagnostic, None);
    assert_eq!(step.dispatch.action(), Action::Decode(Field::Title));
    let step = step.dispatch.advance(Event::Decoded(text("New message")));
    assert_eq!(step.diagnostic, None);
    assert_eq!(step.dispatch.action(), Action::Decode(Field::Message));
    let step = step.dispatch.advance(Event::Decoded(text("Hello there")));
    assert_eq!(step.diagnostic, None);
    step.dispatch
}

/// Answers `Show` and `Uninit` and gives the status that is handed back.
fn finish(showing: Dispatch, shown: Event) -> (Option<String>, i32) {
    let step = showing.advance(shown);
    let diagnostic = step.diagnostic;
    assert_eq!(step.dispatch.action(), Action::Uninit);
    let step = step.dispatch.advance(Event::Released);
    assert_eq!(step.diagnostic, None);
    match step.dispatch.action() {
        Action::Return(status) => (diagnostic, status),
        other => panic!("the request is not over: {:?}", other),
    }
}

#[test]
fn status_codes_are_fixed() {
    assert_eq!(STATUS_OK, 0);
    assert_eq!(STATUS_INVALID_TEXT, -1);
    assert_eq!(STATUS_SHOW_FAILED, -2);
    assert_eq!(STATUS_INIT_FAILED, -3);
}

#[test]
fn null_application_ends_request() {
    let step = Dispatch::start(true, false, false, false);
    assert_eq!(step.diagnostic, Some(text("JString application was null!")));
    assert_eq!(step.dispatch, Dispatch::Finished { status: -1 });
    assert_eq!(step.dispatch.action(), Action::Return(-1));
}

#[test]
fn null_title_ends_request() {
    let step = Dispatch::start(false, true, false, true);
    assert_eq!(step.diagnostic, Some(text("JString title was null!")));
    assert_eq!(step.dispatch.action(), Action::Return(-1));
}

#[test]
fn null_message_ends_request() {
    let step = Dispatch::start(false, false, true, false);
    assert_eq!(step.diagnostic, Some(text("JString message was null!")));
    assert_eq!(step.dispatch.action(), Action::Return(-1));
}

#[test]
fn first_null_argument_is_reported() {
    let step = Dispatch::start(true, true, true, true);
    assert_eq!(step.diagnostic, Some(text("JString application was null!")));
    let step = Dispatch::start(false, true, true, true);
    assert_eq!(step.diagnostic, Some(text("JString title was null!")));
}

#[test]
fn null_icon_is_accepted() {
    let step = Dispatch::start(false, false, false, true);
    assert_eq!(step.diagnostic, None);
    assert_eq!(step.dispatch, Dispatch::DecodingApplication { icon_present: false });
    let step = Dispatch::start(false, false, false, false);
    assert_eq!(step.dispatch, Dispatch::DecodingApplication { icon_present: true });
}

#[test]
fn plain_request_succeeds() {
    let dispatch = decoded(true);
    assert_eq!(dispatch.action(), Action::Init { application: "mail" });
    let step = dispatch.advance(Event::Initialized);
    assert_eq!(step.diagnostic, None);
    assert_eq!(
        step.dispatch.action(),
        Action::Show { summary: "New message", body: "Hello there", icon: None }
    );
    assert_eq!(finish(step.dispatch, Event::Shown), (None, 0));
}

#[test]
fn icon_is_decoded_after_init_and_shown() {
    let dispatch = decoded(false);
    assert_eq!(dispatch.action(), Action::Init { application: "mail" });
    let step = dispatch.advance(Event::Initialized);
    assert_eq!(step.diagnostic, None);
    assert_eq!(step.dispatch.action(), Action::Decode(Field::Icon));
    let step = step.dispatch.advance(Event::Decoded(text("/usr/share/icons/mail.png")));
    assert_eq!(step.diagnostic, None);
    assert_eq!(
        step.dispatch.action(),
        Action::Show {
            summary: "New message",
            body: "Hello there",
            icon: Some("/usr/share/icons/mail.png"),
        }
    );
    assert_eq!(finish(step.dispatch, Event::Shown), (None, 0));
}

#[test]
fn init_failure_is_reported_after_show() {
    let step = decoded(true).advance(Event::InitFailed(text("Failed to initialize libnotify")));
    assert_eq!(
        step.diagnostic,
        Some(text("libnotify::init failed! Failed to initialize libnotify"))
    );
    assert_eq!(
        step.dispatch.action(),
        Action::Show { summary: "New message", body: "Hello there", icon: None }
    );
    assert_eq!(finish(step.dispatch, Event::Shown), (None, -3));
}

#[test]
fn init_failure_is_reported_after_show_with_icon() {
    let step = decoded(false).advance(Event::InitFailed(text("no bus")));
    assert_eq!(step.diagnostic, Some(text("libnotify::init failed! no bus")));
    assert_eq!(step.dispatch.action(), Action::Decode(Field::Icon));
    let step = step.dispatch.advance(Event::Decoded(text("icon.png")));
    assert_eq!(
        step.dispatch.action(),
        Action::Show { summary: "New message", body: "Hello there", icon: Some("icon.png") }
    );
    assert_eq!(finish(step.dispatch, Event::Shown), (None, -3));
}

#[test]
fn show_failure_overrides_init_failure() {
    let step = decoded(true).advance(Event::InitFailed(text("no bus")));
    let (diagnostic, status) = finish(step.dispatch, Event::ShowFailed(text("no daemon")));
    assert_eq!(diagnostic, Some(text("libnotify::Notification::show failed! no daemon")));
    assert_eq!(status, -2);
}

#[test]
fn show_failure_alone_gives_minus_two() {
    let step = decoded(true).advance(Event::Initialized);
    let (diagnostic, status) = finish(step.dispatch, Event::ShowFailed(text("timeout")));
    assert_eq!(diagnostic, Some(text("libnotify::Notification::show failed! timeout")));
    assert_eq!(status, -2);
}

#[test]
fn unreadable_application_ends_request() {
    let step = Dispatch::start(false, false, false, true);
    let step = step.dispatch.advance(Event::DecodeFailed(text("Null pointer in get_string")));
    assert_eq!(
        step.diagnostic,
        Some(text("couldn't read JString application! Null pointer in get_string"))
    );
    assert_eq!(step.dispatch.action(), Action::Return(-1));
}

#[test]
fn unreadable_title_ends_request() {
    let step = Dispatch::start(false, false, false, true);
    let step = step.dispatch.advance(Event::Decoded(text("mail")));
    let step = step.dispatch.advance(Event::DecodeFailed(text("JNI call failed")));
    assert_eq!(step.diagnostic, Some(text("couldn't read JString title! JNI call failed")));
    assert_eq!(step.dispatch.action(), Action::Return(-1));
}

#[test]
fn unreadable_message_ends_request() {
    let step = Dispatch::start(false, false, false, true);
    let step = step.dispatch.advance(Event::Decoded(text("mail")));
    let step = step.dispatch.advance(Event::Decoded(text("New message")));
    let step = step.dispatch.advance(Event::DecodeFailed(text("")));
    assert_eq!(step.diagnostic, Some(text("couldn't read JString message! ")));
    assert_eq!(step.dispatch.action(), Action::Return(-1));
}

#[test]
fn unreadable_icon_ends_request_without_release() {
    let step = decoded(false).advance(Event::Initialized);
    assert_eq!(step.dispatch.action(), Action::Decode(Field::Icon));
    let step = step.dispatch.advance(Event::DecodeFailed(text("JNI call failed")));
    assert_eq!(step.diagnostic, None);
    assert_eq!(step.dispatch, Dispatch::Finished { status: -1 });
    assert_eq!(step.dispatch.action(), Action::Return(-1));
}

#[test]
fn event_that_answers_nothing_is_ignored() {
    let dispatch = decoded(true);
    let step = dispatch.advance(Event::Shown);
    assert_eq!(step.diagnostic, None);
    assert_eq!(step.dispatch.action(), Action::Init { application: "mail" });
    let step = step.dispatch.advance(Event::Decoded(text("stray")));
    assert_eq!(step.diagnostic, None);
    assert_eq!(step.dispatch.action(), Action::Init { application: "mail" });
    let step = step.dispatch.advance(Event::Released);
    assert_eq!(step.dispatch.action(), Action::Init { application: "mail" });
    let step = Dispatch::start(false, false, false, true).dispatch.advance(Event::InitFailed(text("x")));
    assert_eq!(step, Step { dispatch: Dispatch::DecodingApplication { icon_present: false }, diagnostic: None });
}

#[test]
fn finished_dispatch_stays_finished() {
    let step = Dispatch::Finished { status: -3 }.advance(Event::Shown);
    assert_eq!(step, Step { dispatch: Dispatch::Finished { status: -3 }, diagnostic: None });
    let step = step.dispatch.advance(Event::DecodeFailed(text("late")));
    assert_eq!(step.diagnostic, None);
    assert_eq!(step.dispatch.action(), Action::Return(-3));
}

#[test]
fn release_keeps_the_status() {
    let step = Dispatch::Releasing { status: -2 }.advance(Event::Released);
    assert_eq!(step, Step { dispatch: Dispatch::Finished { status: -2 }, diagnostic: None });
}

#[test]
fn requests_in_sequence_are_independent() {
    let mut inits = 0;
    let mut releases = 0;
    for _ in 0..3 {
        let dispatch = decoded(true);
        if let Action::Init { .. } = dispatch.action() {
            inits += 1;
        }
        let step = dispatch.advance(Event::Initialized);
        let step = step.dispatch.advance(Event::Shown);
        if let Action::Uninit = step.dispatch.action() {
            releases += 1;
        }
        let step = step.dispatch.advance(Event::Released);
        assert_eq!(step.dispatch.action(), Action::Return(0));
    }
    assert_eq!(inits, 3);
    assert_eq!(releases, 3);
}

#[test]
fn empty_texts_are_passed_on() {
    let step = Dispatch::start(false, false, false, true);
    let step = step.dispatch.advance(Event::Decoded(text("")));
    let step = step.dispatch.advance(Event::Decoded(text("")));
    let step = step.dispatch.advance(Event::Decoded(text("")));
    assert_eq!(step.dispatch.action(), Action::Init { application: "" });
    let step = step.dispatch.advance(Event::Initialized);
    assert_eq!(step.dispatch.action(), Action::Show { summary: "", body: "", icon: None });
}
