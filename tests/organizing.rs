use raw_import::capture_date::{date_tool_args, find_capture_date, resolve_date, CaptureDate};
use raw_import::error::{ImportError, ToolOutcome};
use raw_import::greet;
use raw_import::organizer::{ImportJob, Organizer, OrganizerAction, OrganizerEvent};

fn date_output(text: &str) -> OrganizerEvent {
    OrganizerEvent::Tool(ToolOutcome::Exited { success: true, stdout: String::from(text), stderr: String::new() })
}

fn fs_ok() -> OrganizerEvent {
    OrganizerEvent::Fs(Ok(()))
}

fn job(sources: &[&str], convert: bool, delete_originals: bool) -> ImportJob {
    ImportJob {
        sources: sources.iter().map(|s| String::from(*s)).collect(),
        destination_root: String::from("/dest"),
        convert,
        delete_originals,
    }
}

#[test]
fn date_is_found_in_tool_output() {
    let d = find_capture_date("2024:03:15 10:20:30\n").unwrap();
    assert_eq!(d, CaptureDate { year: 2024, month: 3, day: 15 });
    assert_eq!(d.folder_name(), "2024-03-15");
}

#[test]
fn leftmost_date_wins() {
    let d = find_capture_date("x 19:99:0012:34:56 2001:02:03").unwrap();
    assert_eq!(d.folder_name(), "0012-34-56");
}

#[test]
fn no_date_in_output() {
    assert_eq!(find_capture_date(""), None);
    assert_eq!(find_capture_date("2024-03-15"), None);
    assert_eq!(find_capture_date("2024:3:15"), None);
}

#[test]
fn date_resolution_errors() {
    let r = resolve_date(&ToolOutcome::NotStarted(String::from("no such program")));
    assert_eq!(r, Err(ImportError::ToolInvocationFailed(String::from("no such program"))));
    let r = resolve_date(&ToolOutcome::Exited { success: false, stdout: String::from("2024:03:15"), stderr: String::from("bad file") });
    assert_eq!(r, Err(ImportError::ToolInvocationFailed(String::from("bad file"))));
    let r = resolve_date(&ToolOutcome::Exited { success: true, stdout: String::new(), stderr: String::new() });
    assert_eq!(r, Err(ImportError::DateNotFound));
}

#[test]
fn date_tool_arguments() {
    assert_eq!(date_tool_args("/card/a.cr2"), vec!["-DateTimeOriginal", "-s3", "/card/a.cr2"]);
}

#[test]
fn copy_lands_in_date_folder_and_keeps_source() {
    let mut o = Organizer::new(job(&["/card/DCIM/IMG_1.CR2"], false, false));
    assert_eq!(o.next_action(), OrganizerAction::RunDateTool { args: date_tool_args("/card/DCIM/IMG_1.CR2") });
    o.handle(date_output("2024:03:15 09:00:00"));
    assert_eq!(o.next_action(), OrganizerAction::CreateDir { path: String::from("/dest/2024-03-15") });
    o.handle(fs_ok());
    assert_eq!(
        o.next_action(),
        OrganizerAction::Copy {
            from: String::from("/card/DCIM/IMG_1.CR2"),
            to: String::from("/dest/2024-03-15/IMG_1.CR2"),
        }
    );
    o.handle(fs_ok());
    assert_eq!(o.next_action(), OrganizerAction::Done);
    assert_eq!(o.outcomes, vec![Ok(())]);
}

#[test]
fn delete_follows_successful_copy() {
    let mut o = Organizer::new(job(&["/card/a.nef"], false, true));
    o.handle(date_output("2023:12:31 23:59:59"));
    o.handle(fs_ok());
    assert_eq!(
        o.next_action(),
        OrganizerAction::Copy { from: String::from("/card/a.nef"), to: String::from("/dest/2023-12-31/a.nef") }
    );
    o.handle(fs_ok());
    assert_eq!(o.next_action(), OrganizerAction::Delete { path: String::from("/card/a.nef") });
    o.handle(fs_ok());
    assert_eq!(o.next_action(), OrganizerAction::Done);
    assert_eq!(o.outcomes, vec![Ok(())]);
}

#[test]
fn failed_delete_is_reported() {
    let mut o = Organizer::new(job(&["/card/a.nef"], false, true));
    o.handle(date_output("2023:12:31"));
    o.handle(fs_ok());
    o.handle(fs_ok());
    o.handle(OrganizerEvent::Fs(Err(String::from("read-only"))));
    assert_eq!(o.outcomes, vec![Err(ImportError::DeleteFailed(String::from("read-only")))]);
    assert_eq!(o.next_action(), OrganizerAction::Done);
}

#[test]
fn missing_date_fails_only_its_file() {
    let mut o = Organizer::new(job(&["/card/1.cr2", "/card/2.cr2", "/card/3.cr2"], false, false));
    o.handle(date_output("2024:01:01 00:00:00"));
    o.handle(fs_ok());
    assert_eq!(o.next_action(), OrganizerAction::Copy { from: String::from("/card/1.cr2"), to: String::from("/dest/2024-01-01/1.cr2") });
    o.handle(fs_ok());
    assert_eq!(o.next_action(), OrganizerAction::RunDateTool { args: date_tool_args("/card/2.cr2") });
    o.handle(date_output(""));
    assert_eq!(o.next_action(), OrganizerAction::RunDateTool { args: date_tool_args("/card/3.cr2") });
    o.handle(date_output("2024:01:03 00:00:00"));
    o.handle(fs_ok());
    assert_eq!(o.next_action(), OrganizerAction::Copy { from: String::from("/card/3.cr2"), to: String::from("/dest/2024-01-03/3.cr2") });
    o.handle(fs_ok());
    assert_eq!(o.next_action(), OrganizerAction::Done);
    assert_eq!(o.outcomes, vec![Ok(()), Err(ImportError::DateNotFound), Ok(())]);
}

#[test]
fn conversion_flow_and_failure() {
    let mut o = Organizer::new(job(&["/card/a.arw", "/card/b.arw"], true, false));
    o.handle(date_output("2022:05:06"));
    o.handle(fs_ok());
    assert_eq!(
        o.next_action(),
        OrganizerAction::RunConverter {
            args: vec![String::from("-mp"), String::from("-d"), String::from("/dest/2022-05-06"), String::from("/card/a.arw")],
        }
    );
    o.handle(OrganizerEvent::Tool(ToolOutcome::Exited { success: true, stdout: String::new(), stderr: String::new() }));
    o.handle(date_output("2022:05:07"));
    o.handle(fs_ok());
    o.handle(OrganizerEvent::Tool(ToolOutcome::Exited { success: false, stdout: String::new(), stderr: String::from("unsupported camera") }));
    assert_eq!(o.outcomes, vec![Ok(()), Err(ImportError::ConversionFailed(String::from("unsupported camera")))]);
    assert_eq!(o.next_action(), OrganizerAction::Done);
}

#[test]
fn destination_and_copy_failures() {
    let mut o = Organizer::new(job(&["/card/a.orf", "/card/b.orf"], false, false));
    o.handle(date_output("2020:02:29"));
    o.handle(OrganizerEvent::Fs(Err(String::from("disk full"))));
    o.handle(date_output("2020:03:01"));
    o.handle(fs_ok());
    o.handle(OrganizerEvent::Fs(Err(String::from("permission denied"))));
    assert_eq!(
        o.outcomes,
        vec![
            Err(ImportError::DestinationUnavailable(String::from("disk full"))),
            Err(ImportError::CopyFailed(String::from("permission denied"))),
        ]
    );
}

#[test]
fn tool_that_cannot_start_fails_the_file() {
    let mut o = Organizer::new(job(&["/card/a.orf"], false, false));
    o.handle(OrganizerEvent::Tool(ToolOutcome::NotStarted(String::from("exiftool missing"))));
    assert_eq!(o.outcomes, vec![Err(ImportError::ToolInvocationFailed(String::from("exiftool missing")))]);
}

#[test]
fn unexpected_event_changes_nothing() {
    let mut o = Organizer::new(job(&["/card/a.orf"], false, false));
    o.handle(fs_ok());
    assert!(o.outcomes.is_empty());
    assert_eq!(o.next_action(), OrganizerAction::RunDateTool { args: date_tool_args("/card/a.orf") });
}

#[test]
fn empty_job_is_done() {
    let o = Organizer::new(job(&[], false, false));
    assert_eq!(o.next_action(), OrganizerAction::Done);
}

#[test]
fn greeting() {
    assert_eq!(greet("Ada"), "Hello, Ada! You've been greeted from Rust!");
}
