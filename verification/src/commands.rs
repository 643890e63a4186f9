//! The commands that the UI client can invoke.
//!
//! A command that needs a capability of the operating system comes in two
//! halves around the call: a request that says what to ask for, and a
//! function, named after the command, that turns what came back into the
//! reply for the client. A failure of the capability becomes a message for
//! the client; a dialog that the user dismissed is an ordinary reply.

use vstd::prelude::*;
use vstd::string::StringExecFns;
use crate::platform::Platform;

verus! {

/// A JSON value of `serde_json`, carried through without being inspected.
#[verifier::external_type_specification]
#[verifier::external_body]
pub struct ExJsonValue(serde_json::Value);

/// The reply of the open-file dialog.
#[derive(Clone, Debug, PartialEq, Eq)]
pub struct FileDialogResult {
    pub canceled: bool,
    pub paths: Vec<String>,
}

/// The reply of the save-file dialog.
#[derive(Clone, Debug, PartialEq, Eq)]
pub struct SaveDialogResult {
    pub canceled: bool,
    pub path: Option<String>,
}

/// A named group of file extensions that a file dialog offers.
#[derive(Clone, Debug, PartialEq, Eq)]
pub struct DialogFilter {
    pub name: &'static str,
    pub extensions: Vec<&'static str>,
}

/// What to ask the open-file dialog for.
#[derive(Clone, Debug, PartialEq, Eq)]
pub struct OpenDialogRequest {
    pub title: Option<String>,
    pub filters: Vec<DialogFilter>,
    pub multiple: bool,
}

/// What to ask the save-file dialog for.
#[derive(Clone, Debug, PartialEq, Eq)]
pub struct SaveDialogRequest {
    pub title: Option<String>,
    pub default_name: Option<String>,
}

/// What to ask the notification service for.
#[derive(Clone, Debug, PartialEq, Eq)]
pub struct NotificationRequest {
    pub title: String,
    pub body: Option<String>,
}

/// What the open-file dialog came back with.
#[derive(Clone, Debug, PartialEq, Eq)]
pub enum Picked {
    /// The user dismissed the dialog.
    Canceled,
    /// The user chose one file.
    One(String),
    /// The user chose files in a dialog that allows several.
    Many(Vec<String>),
}

/// How writing a value to the store ended.
#[derive(Clone, Debug, PartialEq, Eq)]
pub enum StoreWrite {
    /// The store could not be opened.
    OpenFailed(String),
    /// The value was set but the store could not be persisted.
    SaveFailed(String),
    /// The value was set and persisted.
    Saved,
}

/// How asking the update service ended.
#[derive(Clone, Debug, PartialEq, Eq)]
pub enum UpdateCheck {
    /// The update service could not be set up.
    Unavailable(String),
    /// The update service was asked and failed.
    Failed(String),
    /// No newer version exists.
    UpToDate,
    /// A newer version exists.
    Available,
}

/// The filters of the open-file dialog, as name and extensions: the book
/// formats together, each alone, and every file.
pub open spec fn book_filters() -> Seq<(Seq<char>, Seq<&'static str>)> {
    seq![
        ("Books"@, seq!["epub", "pdf"]),
        ("EPUB"@, seq!["epub"]),
        ("PDF"@, seq!["pdf"]),
        ("All Files"@, seq!["*"]),
    ]
}

/// The filters of a request, as name and extensions.
pub open spec fn filters_of(filters: Seq<DialogFilter>) -> Seq<(Seq<char>, Seq<&'static str>)> {
    filters.map_values(|f: DialogFilter| (f.name@, f.extensions@))
}

/// The message for the client: what failed, then the cause.
pub open spec fn failure(what: Seq<char>, cause: Seq<char>) -> Seq<char> {
    what + cause
}

fn describe(what: &str, cause: &str) -> (r: String)
    ensures
        r@ == failure(what@, cause@),
{
    String::from_str(what).concat(cause)
}

/// Greets the named user.
pub fn greet(name: &str) -> (r: String)
    ensures
        r@ == "Hello, "@ + name@ + "! Welcome to Read Master."@,
{
    String::from_str("Hello, ").concat(name).concat("! Welcome to Read Master.")
}

/// The version of the application.
pub fn get_app_version() -> (r: String)
    ensures
        r@ == "0.1.0"@,
{
    String::from_str("0.1.0")
}

/// The name of the platform, one of `macos`, `windows`, `linux` and
/// `unknown`.
pub fn get_platform(platform: Platform) -> (r: String)
    ensures
        r@ == platform.name(),
        r@ == "macos"@ || r@ == "windows"@ || r@ == "linux"@ || r@ == "unknown"@,
{
    String::from_str(platform.as_str())
}

/// What to ask the open-file dialog for: the title if one was given, the
/// book filters, and a single file unless several were asked for.
pub fn open_file_request(title: Option<String>, multiple: Option<bool>) -> (r: OpenDialogRequest)
    ensures
        r.title == title,
        filters_of(r.filters@) == book_filters(),
        r.multiple == (multiple == Some(true)),
{
    let filters = vec![
        DialogFilter { name: "Books", extensions: vec!["epub", "pdf"] },
        DialogFilter { name: "EPUB", extensions: vec!["epub"] },
        DialogFilter { name: "PDF", extensions: vec!["pdf"] },
        DialogFilter { name: "All Files", extensions: vec!["*"] },
    ];
    proof {
        let got = filters_of(filters@);
        assert(got[0].1 =~= book_filters()[0].1);
        assert(got[1].1 =~= book_filters()[1].1);
        assert(got[2].1 =~= book_filters()[2].1);
        assert(got[3].1 =~= book_filters()[3].1);
        assert(got =~= book_filters());
    }
    let several = match multiple {
        Some(flag) => flag,
        None => false,
    };
    OpenDialogRequest { title, filters, multiple: several }
}

/// The reply of the open-file dialog. A dismissed dialog is a reply with
/// `canceled` set and no path, not a failure; otherwise the reply holds the
/// chosen paths in order. The command fails only where the dialog could not
/// be had, with the cause as a message.
pub fn open_file_dialog(outcome: Result<Picked, String>) -> (r: Result<FileDialogResult, String>)
    ensures
        match outcome {
            Ok(Picked::Canceled) => r is Ok && r.unwrap().canceled && r.unwrap().paths@
                == Seq::<String>::empty(),
            Ok(Picked::One(path)) => r is Ok && !r.unwrap().canceled && r.unwrap().paths@
                == seq![path],
            Ok(Picked::Many(paths)) => r is Ok && !r.unwrap().canceled && r.unwrap().paths@
                == paths@,
            Err(cause) => r is Err && r->Err_0@ == failure("Dialog not available: "@, cause@),
        },
{
    match outcome {
        Ok(Picked::Canceled) => Ok(FileDialogResult { canceled: true, paths: Vec::new() }),
        Ok(Picked::One(path)) => Ok(FileDialogResult { canceled: false, paths: vec![path] }),
        Ok(Picked::Many(paths)) => Ok(FileDialogResult { canceled: false, paths }),
        Err(cause) => Err(describe("Dialog not available: ", cause.as_str())),
    }
}

/// What to ask the save-file dialog for: the title and the proposed file
/// name, each if it was given.
pub fn save_file_request(title: Option<String>, default_name: Option<String>) -> (r:
    SaveDialogRequest)
    ensures
        r.title == title,
        r.default_name == default_name,
{
    SaveDialogRequest { title, default_name }
}

/// The reply of the save-file dialog. A dismissed dialog is a reply with
/// `canceled` set and no path, not a failure. The command fails only where
/// the dialog could not be had, with the cause as a message.
pub fn save_file_dialog(outcome: Result<Option<String>, String>) -> (r: Result<
    SaveDialogResult,
    String,
>)
    ensures
        match outcome {
            Ok(picked) => r is Ok && r.unwrap().canceled == (picked is None) && r.unwrap().path
                == picked,
            Err(cause) => r is Err && r->Err_0@ == failure("Dialog not available: "@, cause@),
        },
{
    match outcome {
        Ok(Some(path)) => Ok(SaveDialogResult { canceled: false, path: Some(path) }),
        Ok(None) => Ok(SaveDialogResult { canceled: true, path: None }),
        Err(cause) => Err(describe("Dialog not available: ", cause.as_str())),
    }
}

/// The reply to reading a file: the bytes that were read, or the cause of
/// the failure as a message.
pub fn read_file(outcome: Result<Vec<u8>, String>) -> (r: Result<Vec<u8>, String>)
    ensures
        match outcome {
            Ok(bytes) => r == Ok::<Vec<u8>, String>(bytes),
            Err(cause) => r is Err && r->Err_0@ == failure("Failed to read file: "@, cause@),
        },
{
    match outcome {
        Ok(bytes) => Ok(bytes),
        Err(cause) => Err(describe("Failed to read file: ", cause.as_str())),
    }
}

/// The reply to writing a file: nothing, or the cause of the failure as a
/// message.
pub fn write_file(outcome: Result<(), String>) -> (r: Result<(), String>)
    ensures
        match outcome {
            Ok(_) => r is Ok,
            Err(cause) => r is Err && r->Err_0@ == failure("Failed to write file: "@, cause@),
        },
{
    match outcome {
        Ok(_) => Ok(()),
        Err(cause) => Err(describe("Failed to write file: ", cause.as_str())),
    }
}

/// What to ask the notification service for: the title, and the body if one
/// was given.
pub fn notification_request(title: String, body: Option<String>) -> (r: NotificationRequest)
    ensures
        r.title == title,
        r.body == body,
{
    NotificationRequest { title, body }
}

/// The reply to showing a notification: nothing, or the cause of the
/// failure as a message.
pub fn show_notification(outcome: Result<(), String>) -> (r: Result<(), String>)
    ensures
        match outcome {
            Ok(_) => r is Ok,
            Err(cause) => r is Err && r->Err_0@ == failure(
                "Failed to show notification: "@,
                cause@,
            ),
        },
{
    match outcome {
        Ok(_) => Ok(()),
        Err(cause) => Err(describe("Failed to show notification: ", cause.as_str())),
    }
}

/// The name of the store that holds the settings.
pub fn store_name() -> (r: &'static str)
    ensures
        r@ == "settings.json"@,
{
    "settings.json"
}

/// The reply to reading a key of the store: the value as the store gave it,
/// nothing for a key that was never set, or a message if the store could
/// not be opened.
pub fn get_store_value(outcome: Result<Option<serde_json::Value>, String>) -> (r: Result<
    Option<serde_json::Value>,
    String,
>)
    ensures
        match outcome {
            Ok(value) => r == Ok::<Option<serde_json::Value>, String>(value),
            Err(cause) => r is Err && r->Err_0@ == failure("Failed to open store: "@, cause@),
        },
{
    match outcome {
        Ok(value) => Ok(value),
        Err(cause) => Err(describe("Failed to open store: ", cause.as_str())),
    }
}

/// The reply to setting a key of the store: nothing once the value is
/// persisted, or a message that says which step failed.
pub fn set_store_value(outcome: StoreWrite) -> (r: Result<(), String>)
    ensures
        match outcome {
            StoreWrite::Saved => r is Ok,
            StoreWrite::OpenFailed(cause) => r is Err && r->Err_0@ == failure(
                "Failed to open store: "@,
                cause@,
            ),
            StoreWrite::SaveFailed(cause) => r is Err && r->Err_0@ == failure(
                "Failed to save store: "@,
                cause@,
            ),
        },
{
    match outcome {
        StoreWrite::Saved => Ok(()),
        StoreWrite::OpenFailed(cause) => Err(describe("Failed to open store: ", cause.as_str())),
        StoreWrite::SaveFailed(cause) => Err(describe("Failed to save store: ", cause.as_str())),
    }
}

/// The reply to an update check: whether a newer version exists, or a
/// message that says which step failed.
pub fn check_for_updates(outcome: UpdateCheck) -> (r: Result<bool, String>)
    ensures
        match outcome {
            UpdateCheck::Available => r == Ok::<bool, String>(true),
            UpdateCheck::UpToDate => r == Ok::<bool, String>(false),
            UpdateCheck::Unavailable(cause) => r is Err && r->Err_0@ == failure(
                "Updater not available: "@,
                cause@,
            ),
            UpdateCheck::Failed(cause) => r is Err && r->Err_0@ == failure(
                "Failed to check for updates: "@,
                cause@,
            ),
        },
{
    match outcome {
        UpdateCheck::Available => Ok(true),
        UpdateCheck::UpToDate => Ok(false),
        UpdateCheck::Unavailable(cause) => Err(describe("Updater not available: ", cause.as_str())),
        UpdateCheck::Failed(cause) => Err(
            describe("Failed to check for updates: ", cause.as_str()),
        ),
    }
}

} // verus!
