//! The client's decisions: the address of each request, which local files an
//! upload sends, and how an upload goes on after each answer.

use vstd::prelude::*;
use vstd::string::*;

use crate::users::same_text;
use crate::SERVER_HOST;

verus! {

/// `SERVER_HOST`, then `route`, then `site_name`.
fn server_url(route: &str, site_name: &str) -> (url: String)
    ensures
        url@ == SERVER_HOST@ + route@ + site_name@,
{
    let mut url = SERVER_HOST.to_owned();
    url.append(route);
    url.append(site_name);
    url
}

/// Address that creates a site for the signed-in user.
pub fn new_site_url(site_name: &str) -> (url: String)
    ensures
        url@ == SERVER_HOST@ + "/new/"@ + site_name@,
{
    server_url("/new/", site_name)
}

/// Address that deletes a site's files.
pub fn delete_site_url(site_name: &str) -> (url: String)
    ensures
        url@ == SERVER_HOST@ + "/delete/"@ + site_name@,
{
    server_url("/delete/", site_name)
}

/// Address that uploads the file shown as `file_path` to a site.
pub fn upload_url(site_name: &str, file_path: &str) -> (url: String)
    ensures
        url@ == SERVER_HOST@ + "/upload/"@ + site_name@ + "/"@ + file_path@,
{
    let mut url = server_url("/upload/", site_name);
    url.append("/");
    url.append(file_path);
    url
}

/// Address that sets the signed-in user's password.
pub fn reset_password_url() -> (url: String)
    ensures
        url@ == SERVER_HOST@ + "/reset-password"@,
{
    let mut url = SERVER_HOST.to_owned();
    url.append("/reset-password");
    url
}

/// What an upload does with a directory entry.
#[derive(Debug, Clone, Copy, PartialEq, Eq, Structural)]
pub enum EntryAction {
    /// A dot file or dot directory: left out.
    Skip,
    /// A directory: its entries are visited.
    Descend,
    /// A file: it is sent.
    Send,
}

/// A name that starts with a dot.
pub open spec fn is_dot_name(stem: Seq<char>) -> bool {
    stem.len() > 0 && stem[0] == '.'
}

/// Only a leading dot hides an entry: a stem that starts with `.` is a dot
/// name whatever follows, a stem that starts with anything else is not,
/// however many dots come later, and the empty stem is not.
pub proof fn lemma_dot_name_rule(rest: Seq<char>, first: char)
    ensures
        is_dot_name(seq!['.'] + rest),
        first != '.' ==> !is_dot_name(seq![first] + rest),
        !is_dot_name(Seq::<char>::empty()),
{
    assert((seq!['.'] + rest)[0] == '.');
    assert((seq![first] + rest)[0] == first);
}

/// What an upload does with an entry, given its file stem (`None` when it has
/// none or it is not valid unicode) and whether it is a directory: dot files
/// and dot directories are left out, directories are visited, files are sent.
pub fn entry_action(stem: Option<&str>, is_dir: bool) -> (a: EntryAction)
    ensures
        a == (if (stem matches Some(s) && is_dot_name(s@)) {
            EntryAction::Skip
        } else if is_dir {
            EntryAction::Descend
        } else {
            EntryAction::Send
        }),
{
    let dot = match stem {
        Some(s) => s.unicode_len() > 0 && s.get_char(0) == '.',
        None => false,
    };
    if dot {
        EntryAction::Skip
    } else if is_dir {
        EntryAction::Descend
    } else {
        EntryAction::Send
    }
}

/// How sending one local file ended.
#[derive(Debug, Clone, Copy, PartialEq, Eq, Structural)]
pub enum FileOutcome {
    /// The file could not be opened.
    Unopenable,
    /// The file was opened but the server did not take it.
    SendFailed,
    /// The server took the file.
    Sent,
}

/// The error a walk stops with when a file cannot be opened.
pub const FILE_UNOPENABLE: &'static str = "failed to open file";

/// Whether the walk over the local files goes on after a file: a file the
/// server did not take is reported and the walk goes on; a file that cannot
/// be opened stops the walk with `FILE_UNOPENABLE`.
pub fn after_file(outcome: FileOutcome) -> (r: Result<(), &'static str>)
    ensures
        outcome == FileOutcome::Unopenable ==> r == Err::<(), &'static str>(FILE_UNOPENABLE),
        outcome != FileOutcome::Unopenable ==> r is Ok,
{
    match outcome {
        FileOutcome::Unopenable => Err(FILE_UNOPENABLE),
        FileOutcome::SendFailed => Ok(()),
        FileOutcome::Sent => Ok(()),
    }
}

/// Whether the new password and its confirmation are the same.
pub fn passwords_match(new_password: &str, confirmation: &str) -> (b: bool)
    ensures
        b == (new_password@ == confirmation@),
{
    same_text(new_password, confirmation)
}

/// The steps of uploading a site: make sure the site exists and is the
/// user's, clear its old files, then send the local files.
#[derive(Debug, Clone, Copy, PartialEq, Eq, Structural)]
pub enum UploadStep {
    CreateSite,
    ClearSite,
    SendFiles,
    Finished,
}

/// What the client does once a step is answered.
#[derive(Debug, Clone, Copy, PartialEq, Eq, Structural)]
pub struct UploadTransition {
    /// The step that comes next.
    pub next: UploadStep,
    /// Whether the text of the answer is shown to the user.
    pub show_answer: bool,
}

/// The next step of an upload once the current one is answered. Any failure
/// ends the upload; the answer to creating the site is shown, that to
/// clearing it is not.
pub fn after_answer(step: UploadStep, succeeded: bool) -> (t: UploadTransition)
    ensures
        !succeeded ==> t == (UploadTransition { next: UploadStep::Finished, show_answer: false }),
        succeeded ==> t == (match step {
            UploadStep::CreateSite => UploadTransition { next: UploadStep::ClearSite, show_answer: true },
            UploadStep::ClearSite => UploadTransition { next: UploadStep::SendFiles, show_answer: false },
            UploadStep::SendFiles => UploadTransition { next: UploadStep::Finished, show_answer: false },
            UploadStep::Finished => UploadTransition { next: UploadStep::Finished, show_answer: false },
        }),
{
    if !succeeded {
        return UploadTransition { next: UploadStep::Finished, show_answer: false };
    }
    match step {
        UploadStep::CreateSite => UploadTransition { next: UploadStep::ClearSite, show_answer: true },
        UploadStep::ClearSite => UploadTransition { next: UploadStep::SendFiles, show_answer: false },
        UploadStep::SendFiles => UploadTransition { next: UploadStep::Finished, show_answer: false },
        UploadStep::Finished => UploadTransition { next: UploadStep::Finished, show_answer: false },
    }
}

} // verus!
