use java2php::conversion::{Conversion, FileAction, FileEvent, Stage};
use java2php::mapper::TreePath;
use java2php::orchestrator::{ConversionTask, TaskError};
use java2php::translator::{Exchange, Reply, TranslationError};

fn tp(parts: &[&str]) -> TreePath {
    TreePath::from_components(parts.iter().map(|s| s.to_string()).collect())
}

fn task() -> ConversionTask {
    ConversionTask {
        source_path: tp(&["src", "a", "X.java"]),
        destination_path: tp(&["out", "a", "X.php"]),
    }
}

fn answered(status: u16, choices: &[&str]) -> FileEvent {
    FileEvent::Exchanged(Exchange::Answered {
        status,
        reply: Reply::Choices(choices.iter().map(|s| s.to_string()).collect()),
    })
}

fn exchanging() -> Conversion {
    let (mut conversion, _) = Conversion::begin(task());
    let action = conversion.step(FileEvent::Read(Ok("class X {}".to_string())));
    assert!(matches!(action, FileAction::Send(_)));
    assert_eq!(conversion.stage, Stage::Exchanging);
    conversion
}

#[test]
fn duplicate_copies_every_component() {
    let p = tp(&["", "out", "a", "X.php"]);
    assert_eq!(p.duplicate().components, p.components);
    assert_eq!(TreePath::new().duplicate().len(), 0);
}

#[test]
fn conversion_begins_by_reading_its_source() {
    let (conversion, action) = Conversion::begin(task());
    match action {
        FileAction::Read(path) => assert_eq!(path.display(), "src/a/X.java"),
        other => panic!("{:?}", other),
    }
    assert_eq!(conversion.stage, Stage::Reading);
    assert_eq!(conversion.source_path.display(), "src/a/X.java");
    assert_eq!(conversion.destination_path.display(), "out/a/X.php");
    assert!(!conversion.is_done());
}

#[test]
fn content_read_is_sent_in_a_prompt() {
    let (mut conversion, _) = Conversion::begin(task());
    match conversion.step(FileEvent::Read(Ok("class X {}".to_string()))) {
        FileAction::Send(request) => {
            assert_eq!(request.model, "text-davinci-003");
            assert_eq!(request.prompt, "#Java to PHP:\nJava:\nclass X {}\n\nPHP:");
            assert_eq!(request.max_tokens, 4080);
        }
        other => panic!("{:?}", other),
    }
    assert_eq!(conversion.stage, Stage::Exchanging);
}

#[test]
fn unreadable_source_fails_the_conversion() {
    let (mut conversion, _) = Conversion::begin(task());
    match conversion.step(FileEvent::Read(Err("permission denied".to_string()))) {
        FileAction::Done(Err(e @ TaskError::FileSystem(_))) => {
            assert_eq!(e.message(), "permission denied")
        }
        other => panic!("{:?}", other),
    }
    assert!(conversion.is_done());
}

#[test]
fn oversized_source_is_sent_all_the_same() {
    let (mut conversion, _) = Conversion::begin(task());
    let content = " ".repeat(1_000_000);
    match conversion.step(FileEvent::Read(Ok(content.clone()))) {
        FileAction::Send(request) => {
            assert_eq!(request.prompt, format!("#Java to PHP:\nJava:\n{}\n\nPHP:", content));
            assert_eq!(request.max_tokens, 0);
        }
        other => panic!("{:?}", other),
    }
    assert_eq!(conversion.stage, Stage::Exchanging);
    match conversion.step(answered(200, &["<?php"])) {
        FileAction::Write { path, content } => {
            assert_eq!(path.display(), "out/a/X.php");
            assert_eq!(content, "<?php");
        }
        other => panic!("{:?}", other),
    }
}

#[test]
fn first_candidate_is_written_to_the_destination() {
    let mut conversion = exchanging();
    match conversion.step(answered(200, &["<?php class X {}", "second"])) {
        FileAction::Write { path, content } => {
            assert_eq!(path.display(), "out/a/X.php");
            assert_eq!(content, "<?php class X {}");
        }
        other => panic!("{:?}", other),
    }
    assert_eq!(conversion.stage, Stage::Writing);
    assert!(matches!(conversion.step(FileEvent::Written(Ok(()))), FileAction::Done(Ok(()))));
    assert!(conversion.is_done());
}

#[test]
fn answer_without_candidate_writes_nothing() {
    let mut conversion = exchanging();
    match conversion.step(answered(200, &[])) {
        FileAction::Done(Err(e @ TaskError::Translation(TranslationError::NoResult))) => {
            assert_eq!(e.message(), "No choice received")
        }
        other => panic!("{:?}", other),
    }
    assert!(conversion.is_done());
}

#[test]
fn failed_exchanges_write_nothing() {
    let events = [
        answered(500, &["text"]),
        FileEvent::Exchanged(Exchange::Failed("timeout".to_string())),
        FileEvent::Exchanged(Exchange::Undecoded { status: 404, message: "eof".to_string() }),
        FileEvent::Exchanged(Exchange::Answered {
            status: 200,
            reply: Reply::Error("quota".to_string()),
        }),
    ];
    for event in events {
        let mut conversion = exchanging();
        let action = conversion.step(event);
        assert!(matches!(action, FileAction::Done(Err(TaskError::Translation(_)))));
        assert!(conversion.is_done());
    }
}

#[test]
fn failed_write_fails_the_conversion() {
    let mut conversion = exchanging();
    conversion.step(answered(200, &["text"]));
    match conversion.step(FileEvent::Written(Err("disk full".to_string()))) {
        FileAction::Done(Err(e @ TaskError::FileSystem(_))) => assert_eq!(e.message(), "disk full"),
        other => panic!("{:?}", other),
    }
    assert!(conversion.is_done());
}

#[test]
fn file_events_out_of_place_change_nothing() {
    let (mut conversion, _) = Conversion::begin(task());
    assert!(matches!(conversion.step(FileEvent::Written(Ok(()))), FileAction::Rejected));
    assert!(matches!(conversion.step(answered(200, &["x"])), FileAction::Rejected));
    assert_eq!(conversion.stage, Stage::Reading);
    let mut conversion = exchanging();
    assert!(matches!(conversion.step(FileEvent::Read(Ok(String::new()))), FileAction::Rejected));
    assert_eq!(conversion.stage, Stage::Exchanging);
    conversion.step(answered(200, &[]));
    assert!(matches!(conversion.step(FileEvent::Written(Ok(()))), FileAction::Rejected));
    assert!(conversion.is_done());
    assert_eq!(conversion.destination_path.display(), "out/a/X.php");
}
