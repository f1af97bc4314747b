use girl_technology::category::CategoryError;
use girl_technology::directory::Directory;
use girl_technology::models::{NewListing, NewListingForm, PgTimestamp};
use girl_technology::normalize::{parse_url, UrlDefect, UrlError};
use girl_technology::ownership::{FetchOutcome, VerifyError};
use girl_technology::admission::Decision;
use girl_technology::normalize::MAX_URL_BYTES;
use girl_technology::pipeline::{
    fetched, step, stored, submit, verified, Action, Entry, Event, Reply, Stage, StoreOutcome, SubmissionError,
};

fn form(url: &str) -> NewListingForm {
    NewListingForm { url: url.to_string() }
}

/// Drives one submission to its end against a directory in memory. The marker
/// is "served" by `serve`, which gets the address that is fetched.
fn drive(directory: &mut Directory, url: &str, now: i64, serve: impl Fn(&str) -> FetchOutcome) -> (Stage, Reply) {
    let mut stage = Stage::Start;
    let mut event = Event::Submitted(form(url));
    loop {
        let (next, action) = step(stage, event);
        stage = next;
        event = match action {
            Action::Fetch(address) => Event::Fetched(serve(&address)),
            Action::Upsert(listing) => {
                directory.upsert(listing, PgTimestamp(now));
                Event::Stored(StoreOutcome::Stored)
            }
            Action::Respond(reply) => return (stage, reply),
            Action::Ignore => panic!("the pipeline ignored its own event"),
        };
    }
}

#[test]
fn verified_submission_is_stored_and_confirmed() {
    let mut directory = Directory::new();
    let (stage, reply) = drive(&mut directory, "https://good.example/", 7, |address| {
        assert_eq!(address, "https://good.example/.well-known/girl.technology");
        FetchOutcome::Body("widgets".to_string())
    });
    assert_eq!(stage, Stage::Persisted("widgets".to_string()));
    assert_eq!(reply, Reply::Page("successfully added to the widgets category!".to_string()));
    assert_eq!(reply.status(), 200);
    assert!(reply.message().contains("widgets"));
    assert_eq!(directory.len(), 1);
    let listing = directory.get(0).unwrap();
    assert_eq!(listing.category, "widgets");
    assert_eq!(listing.url, "https://good.example/");
    assert_eq!(listing.timestamp, PgTimestamp(7));
}

#[test]
fn failed_fetch_stores_nothing() {
    let mut directory = Directory::new();
    let (stage, reply) = drive(&mut directory, "https://down.example/", 7, |_| {
        FetchOutcome::TransportFailed("connection refused".to_string())
    });
    assert_eq!(
        stage,
        Stage::Failed(SubmissionError::Verification(VerifyError::FetchError("connection refused".to_string())))
    );
    assert_eq!(reply, Reply::Page("error fetching url: connection refused".to_string()));
    assert_eq!(reply.status(), 200);
    assert_eq!(directory.len(), 0);
}

#[test]
fn marker_content_is_the_category_after_trimming() {
    let mut directory = Directory::new();
    let (stage, _) = drive(&mut directory, "http://a.example/blog", 1, |address| {
        assert_eq!(address, "http://a.example/blog/.well-known/girl.technology");
        FetchOutcome::Body("widgets\n".to_string())
    });
    assert_eq!(stage, Stage::Persisted("widgets".to_string()));
    assert_eq!(directory.get(0).unwrap().url, "http://a.example/blog");
    assert_eq!(directory.get(0).unwrap().category, "widgets");
}

#[test]
fn resubmission_updates_the_listing_in_place() {
    let mut directory = Directory::new();
    drive(&mut directory, "https://a.example/", 1, |_| FetchOutcome::Body("x".to_string()));
    drive(&mut directory, "https://a.example/", 2, |_| FetchOutcome::Body("x".to_string()));
    assert_eq!(directory.len(), 1);
    assert_eq!(directory.get(0).unwrap().category, "x");
    let (stage, reply) = drive(&mut directory, "https://a.example/", 3, |_| FetchOutcome::Body("y".to_string()));
    assert_eq!(stage, Stage::Persisted("y".to_string()));
    assert_eq!(reply.message(), "successfully added to the y category!");
    assert_eq!(directory.len(), 1);
    assert_eq!(directory.get(0).unwrap().category, "y");
    assert_eq!(directory.get(0).unwrap().url, "https://a.example/");
    assert_eq!(directory.get(0).unwrap().timestamp, PgTimestamp(3));
}

#[test]
fn invalid_url_ends_the_submission_with_a_page() {
    let (stage, action) = submit(form("not a url"));
    let error = UrlError::InvalidUrl(UrlDefect::Parse("relative URL without a base".to_string()));
    assert_eq!(stage, Stage::Failed(SubmissionError::Url(error)));
    assert_eq!(
        action,
        Action::Respond(Reply::Page("error parsing url: relative URL without a base".to_string()))
    );

    let (stage, action) = step(Stage::Start, Event::Submitted(form("ftp://x")));
    assert_eq!(stage, Stage::Failed(SubmissionError::Url(UrlError::InvalidScheme("ftp".to_string()))));
    assert_eq!(action, Action::Respond(Reply::Page("invalid url scheme ftp".to_string())));
}

#[test]
fn submission_asks_for_the_marker() {
    let (stage, action) = submit(form("https://a.example/p"));
    assert_eq!(stage, Stage::Normalized(parse_url("https://a.example/p".to_string()).unwrap()));
    assert_eq!(action, Action::Fetch("https://a.example/p/.well-known/girl.technology".to_string()));
    assert!(!stage.is_terminal());
}

#[test]
fn unreadable_body_ends_the_submission_with_a_page() {
    let url = parse_url("https://a.example/".to_string()).unwrap();
    let (stage, action) = fetched(url, FetchOutcome::BodyUnreadable("invalid utf-8".to_string()));
    assert_eq!(
        stage,
        Stage::Failed(SubmissionError::Verification(VerifyError::BodyDecodeError("invalid utf-8".to_string())))
    );
    assert_eq!(action, Action::Respond(Reply::Page("error getting request body: invalid utf-8".to_string())));
}

#[test]
fn invalid_category_ends_the_submission_with_a_page() {
    let cases = [
        ("", CategoryError::Empty, "category is 0 characters"),
        ("-abc", CategoryError::BoundaryDash, "category cannot start or end with -"),
        ("<html>", CategoryError::BadChars, "category must only contain 0-9, a-z, and -"),
    ];
    for (content, error, message) in cases {
        let url = parse_url("https://a.example/".to_string()).unwrap();
        let (stage, action) = verified(url, content.to_string());
        assert_eq!(stage, Stage::Failed(SubmissionError::InvalidCategory(error)));
        assert_eq!(action, Action::Respond(Reply::Page(message.to_string())));
    }
    let url = parse_url("https://a.example/".to_string()).unwrap();
    let (stage, action) = fetched(url, FetchOutcome::Body("a".repeat(256)));
    assert_eq!(stage, Stage::Failed(SubmissionError::InvalidCategory(CategoryError::TooLong)));
    assert_eq!(action, Action::Respond(Reply::Page("category is too long, max 255 chars".to_string())));
}

#[test]
fn valid_category_asks_for_the_write() {
    let url = parse_url("https://a.example/p?q=1".to_string()).unwrap();
    let (stage, action) = verified(url, " widgets ".to_string());
    assert_eq!(stage, Stage::CategoryValid("widgets".to_string()));
    assert_eq!(
        action,
        Action::Upsert(NewListing { category: "widgets".to_string(), url: "https://a.example/p?q=1".to_string() })
    );
}

#[test]
fn failed_write_is_a_server_error() {
    let (stage, action) = stored("widgets".to_string(), StoreOutcome::WriteFailed);
    assert_eq!(stage, Stage::Failed(SubmissionError::PersistFailed("error saving listing".to_string())));
    assert_eq!(action, Action::Respond(Reply::ServerError("error saving listing".to_string())));

    let (stage, action) = step(
        Stage::CategoryValid("widgets".to_string()),
        Event::Stored(StoreOutcome::Unavailable("pool timed out".to_string())),
    );
    assert_eq!(stage, Stage::Failed(SubmissionError::PersistFailed("pool timed out".to_string())));
    match action {
        Action::Respond(reply) => {
            assert_eq!(reply.status(), 500);
            assert_eq!(reply.message(), "pool timed out");
        }
        other => panic!("{:?}", other),
    }
}

#[test]
fn timeout_ends_a_running_submission() {
    let url = parse_url("https://a.example/".to_string()).unwrap();
    let running = [Stage::Start, Stage::Normalized(url), Stage::CategoryValid("widgets".to_string())];
    for stage in running {
        let (stage, action) = step(stage, Event::TimedOut);
        assert_eq!(stage, Stage::Failed(SubmissionError::AdmissionTimeout));
        assert_eq!(action, Action::Respond(Reply::ServerError("request timed out".to_string())));
    }
}

#[test]
fn finished_submission_ignores_every_event() {
    let events = || {
        vec![
            Event::Submitted(form("https://a.example/")),
            Event::Fetched(FetchOutcome::Body("widgets".to_string())),
            Event::Stored(StoreOutcome::Stored),
            Event::TimedOut,
        ]
    };
    for event in events() {
        let (stage, action) = step(Stage::Persisted("widgets".to_string()), event);
        assert_eq!(stage, Stage::Persisted("widgets".to_string()));
        assert_eq!(action, Action::Ignore);
        assert!(stage.is_terminal());
    }
    for event in events() {
        let (stage, action) = step(Stage::Failed(SubmissionError::AdmissionRejected), event);
        assert_eq!(stage, Stage::Failed(SubmissionError::AdmissionRejected));
        assert_eq!(action, Action::Ignore);
        assert!(stage.is_terminal());
    }
}

#[test]
fn event_out_of_turn_changes_nothing() {
    let (stage, action) = step(Stage::Start, Event::Stored(StoreOutcome::Stored));
    assert_eq!((stage, action), (Stage::Start, Action::Ignore));
    let (stage, action) = step(Stage::Start, Event::Fetched(FetchOutcome::Body("widgets".to_string())));
    assert_eq!((stage, action), (Stage::Start, Action::Ignore));
    let (stage, action) = step(Stage::CategoryValid("x".to_string()), Event::Submitted(form("https://a.example/")));
    assert_eq!((stage, action), (Stage::CategoryValid("x".to_string()), Action::Ignore));
    let url = parse_url("https://a.example/".to_string()).unwrap();
    let (stage, action) = step(Stage::Normalized(url.clone()), Event::Stored(StoreOutcome::Stored));
    assert_eq!((stage, action), (Stage::Normalized(url), Action::Ignore));
}

#[test]
fn failures_are_classified() {
    let caller = [
        SubmissionError::Url(UrlError::InvalidScheme("ftp".to_string())),
        SubmissionError::Url(UrlError::InvalidUrl(UrlDefect::NoPath)),
        SubmissionError::Verification(VerifyError::FetchError("x".to_string())),
        SubmissionError::Verification(VerifyError::BodyDecodeError("x".to_string())),
        SubmissionError::InvalidCategory(CategoryError::Empty),
    ];
    for error in caller {
        assert!(error.is_caller_input());
        assert_eq!(error.reply(), Reply::Page(error.message()));
        assert_eq!(error.reply().status(), 200);
    }
    let server = [
        (SubmissionError::PersistFailed("error saving listing".to_string()), "error saving listing"),
        (SubmissionError::AdmissionRejected, "service overloaded"),
        (SubmissionError::AdmissionTimeout, "request timed out"),
    ];
    for (error, message) in server {
        assert!(!error.is_caller_input());
        assert_eq!(error.message(), message);
        assert_eq!(error.reply(), Reply::ServerError(message.to_string()));
        assert_eq!(error.reply().status(), 500);
    }
}

#[test]
fn url_without_a_marker_address_is_an_invalid_url() {
    let long = format!("https://a.example/{}", "a".repeat(MAX_URL_BYTES));
    let (stage, action) = submit(form(&long));
    assert_eq!(stage, Stage::Failed(SubmissionError::Url(UrlError::InvalidUrl(UrlDefect::TooLong))));
    assert_eq!(action, Action::Respond(Reply::Page("url is too long".to_string())));
}

#[test]
fn marker_is_asked_for_below_the_submitted_url() {
    let (stage, action) = submit(form("HTTPS://User@A.example:8443/p/q?x=1#top"));
    assert_eq!(
        action,
        Action::Fetch("https://User@a.example:8443/p/q/.well-known/girl.technology?x=1#top".to_string())
    );
    match stage {
        Stage::Normalized(url) => assert_eq!(url.as_str(), "https://User@a.example:8443/p/q?x=1#top"),
        other => panic!("{:?}", other),
    }
}

#[test]
fn admission_decides_how_a_submission_enters() {
    assert_eq!(Entry::of(Decision::Accepted), Entry::Run);
    assert_eq!(Entry::of(Decision::Delayed { until: 1042 }), Entry::Wait(1042));
    let refused = Entry::of(Decision::Rejected);
    assert_eq!(refused, Entry::Refuse(Reply::ServerError("service overloaded".to_string())));
    assert_eq!(refused, Entry::Refuse(SubmissionError::AdmissionRejected.reply()));
    match refused {
        Entry::Refuse(reply) => assert_eq!(reply.status(), 500),
        other => panic!("{:?}", other),
    }
}
