use bleebo::client::{
    after_answer, after_file, FileOutcome, delete_site_url, entry_action, new_site_url, passwords_match,
    reset_password_url, upload_url, EntryAction, UploadStep, UploadTransition,
};

#[test]
fn request_addresses() {
    assert_eq!(new_site_url("hello"), "https://bleebo.dev/new/hello");
    assert_eq!(delete_site_url("hello"), "https://bleebo.dev/delete/hello");
    assert_eq!(upload_url("hello", "./css/main.css"), "https://bleebo.dev/upload/hello/./css/main.css");
    assert_eq!(reset_password_url(), "https://bleebo.dev/reset-password");
}

#[test]
fn entries_to_send() {
    assert_eq!(entry_action(Some(".git"), true), EntryAction::Skip);
    assert_eq!(entry_action(Some(".env"), false), EntryAction::Skip);
    assert_eq!(entry_action(Some("css"), true), EntryAction::Descend);
    assert_eq!(entry_action(Some("index"), false), EntryAction::Send);
    assert_eq!(entry_action(None, false), EntryAction::Send);
    assert_eq!(entry_action(Some(""), true), EntryAction::Descend);
}

#[test]
fn confirmation() {
    assert!(passwords_match("secret123", "secret123"));
    assert!(!passwords_match("secret123", "secret124"));
}

#[test]
fn upload_steps() {
    assert_eq!(
        after_answer(UploadStep::CreateSite, true),
        UploadTransition { next: UploadStep::ClearSite, show_answer: true }
    );
    assert_eq!(
        after_answer(UploadStep::ClearSite, true),
        UploadTransition { next: UploadStep::SendFiles, show_answer: false }
    );
    assert_eq!(
        after_answer(UploadStep::SendFiles, true),
        UploadTransition { next: UploadStep::Finished, show_answer: false }
    );
    assert_eq!(
        after_answer(UploadStep::CreateSite, false),
        UploadTransition { next: UploadStep::Finished, show_answer: false }
    );
}

#[test]
fn walk_stops_only_on_unopenable_files() {
    assert_eq!(after_file(FileOutcome::Unopenable), Err("failed to open file"));
    assert_eq!(after_file(FileOutcome::SendFailed), Ok(()));
    assert_eq!(after_file(FileOutcome::Sent), Ok(()));
}
