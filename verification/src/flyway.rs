//! What the two exports share: the files they write, the errors they end
//! with, and the notices they show to the user.

use vstd::prelude::*;
use vstd::string::*;

use crate::text::{decimal, decimal_string, same_text};

verus! {

/// What is shown in place of an export of nothing.
pub const COWARDLY_REFUSING_TO_CREATE_EMPTY_MIGRATION: &'static str =
    "Cowardly refusing to create an empty migration.\nPlease select some text and try again.\n";

/// What is shown when the user confirmed an empty file name.
pub const EMPTY_FILE_NAME: &'static str = "Please enter a file name!";

/// What is shown when nothing is selected in the object browser.
pub const NO_OBJECT_SELECTED_MESSAGE: &'static str =
    "Please select an object in the object browser first!";

/// The caption over `NO_OBJECT_SELECTED_MESSAGE`.
pub const NO_OBJECT_SELECTED_CAPTION: &'static str = "Nothing selected";

/// What is shown when several objects are to be exported as versioned
/// migrations too: one timestamp cannot tell their files apart.
pub const MULTIPLE_OBJECTS_MESSAGE: &'static str =
    "Exporting multiple selected objects as versioned and repeatable migrations is not supported!";

/// The caption over `MULTIPLE_OBJECTS_MESSAGE`.
pub const MULTIPLE_OBJECTS_CAPTION: &'static str = "Information";

/// What is shown when an export of objects wrote no migration.
pub const NOTHING_EXPORTED_MESSAGE: &'static str =
    "No repeatable migrations were created!\nPlease make sure you have selected one or more supported\nobject types.";

/// The caption over the summary of an export of objects.
pub const REPEATABLE_CAPTION: &'static str = "Repeatable migration";

/// The caption over the message of an error.
pub const ERROR_CAPTION: &'static str = "Error";

/// A file to be written: where, under which name, and what.
#[derive(Debug, PartialEq, Eq)]
pub struct MigrationFile {
    /// The folder of the file; empty for the current directory.
    pub folder: String,
    pub file_name: String,
    pub content: String,
}

/// A migration file as three texts.
pub struct MigrationFileView {
    pub folder: Seq<char>,
    pub file_name: Seq<char>,
    pub content: Seq<char>,
}

impl View for MigrationFile {
    type V = MigrationFileView;

    open spec fn view(&self) -> MigrationFileView {
        MigrationFileView {
            folder: self.folder@,
            file_name: self.file_name@,
            content: self.content@,
        }
    }
}

/// Why an export failed.
#[derive(Debug, PartialEq, Eq)]
pub enum FlywayError {
    /// There is no text to export.
    EmptySelectionError,
    /// The user confirmed an empty file name.
    EmptyFileName,
    /// The object is of a type that is not exported.
    UnsupportedObjectType(String),
    /// A file could not be created or written; the text says why.
    IOError(String),
}

/// An error with its detail as a text.
pub enum FlywayErrorView {
    EmptySelectionError,
    EmptyFileName,
    UnsupportedObjectType(Seq<char>),
    IOError(Seq<char>),
}

impl View for FlywayError {
    type V = FlywayErrorView;

    open spec fn view(&self) -> FlywayErrorView {
        match self {
            FlywayError::EmptySelectionError => FlywayErrorView::EmptySelectionError,
            FlywayError::EmptyFileName => FlywayErrorView::EmptyFileName,
            FlywayError::UnsupportedObjectType(object_type) => FlywayErrorView::UnsupportedObjectType(
                object_type@,
            ),
            FlywayError::IOError(detail) => FlywayErrorView::IOError(detail@),
        }
    }
}

impl FlywayErrorView {
    /// The message of the error.
    pub open spec fn message(self) -> Seq<char> {
        match self {
            FlywayErrorView::EmptySelectionError => COWARDLY_REFUSING_TO_CREATE_EMPTY_MIGRATION@,
            FlywayErrorView::EmptyFileName => EMPTY_FILE_NAME@,
            FlywayErrorView::UnsupportedObjectType(object_type) => object_type
                + " is not a supported object type"@,
            FlywayErrorView::IOError(detail) => "I/O error: "@ + detail,
        }
    }

    /// The notice that shows the error to the user.
    pub open spec fn notification(self) -> NotificationView {
        NotificationView {
            message: self.message(),
            caption: ERROR_CAPTION@,
            severity: Severity::Error,
        }
    }
}

impl FlywayError {
    /// The message of the error.
    pub fn to_string(&self) -> (message: String)
        ensures
            message@ == self@.message(),
    {
        match self {
            FlywayError::EmptySelectionError => COWARDLY_REFUSING_TO_CREATE_EMPTY_MIGRATION.to_owned(),
            FlywayError::EmptyFileName => EMPTY_FILE_NAME.to_owned(),
            FlywayError::UnsupportedObjectType(object_type) => {
                let mut message = object_type.clone();
                message.append(" is not a supported object type");
                message
            },
            FlywayError::IOError(detail) => {
                let mut message = "I/O error: ".to_owned();
                message.append(detail.as_str());
                message
            },
        }
    }

    /// The notice that shows the error to the user.
    pub fn notification(&self) -> (notice: Notification)
        ensures
            notice@ == self@.notification(),
    {
        Notification {
            message: self.to_string(),
            caption: ERROR_CAPTION.to_owned(),
            severity: Severity::Error,
        }
    }
}

/// How a notice is to be marked.
#[derive(Debug, Clone, Copy, PartialEq, Eq, Structural)]
pub enum Severity {
    Information,
    Error,
}

/// A notice for the user.
#[derive(Debug, PartialEq, Eq)]
pub struct Notification {
    pub message: String,
    pub caption: String,
    pub severity: Severity,
}

/// A notice as texts.
pub struct NotificationView {
    pub message: Seq<char>,
    pub caption: Seq<char>,
    pub severity: Severity,
}

impl View for Notification {
    type V = NotificationView;

    open spec fn view(&self) -> NotificationView {
        NotificationView {
            message: self.message@,
            caption: self.caption@,
            severity: self.severity,
        }
    }
}

/// The notice that nothing is selected.
pub open spec fn nothing_selected_notice() -> NotificationView {
    NotificationView {
        message: NO_OBJECT_SELECTED_MESSAGE@,
        caption: NO_OBJECT_SELECTED_CAPTION@,
        severity: Severity::Information,
    }
}

/// The notice that several objects cannot be exported as versioned
/// migrations.
pub open spec fn multiple_objects_notice() -> NotificationView {
    NotificationView {
        message: MULTIPLE_OBJECTS_MESSAGE@,
        caption: MULTIPLE_OBJECTS_CAPTION@,
        severity: Severity::Information,
    }
}

/// The message that counts the exported objects.
pub open spec fn exported_message(objects_exported: nat) -> Seq<char> {
    "Successfully exported "@ + decimal(objects_exported)
        + " objects as repeatable migration(s)."@
}

/// The notice at the end of an export of objects: the number of objects
/// exported, or an error if there is none.
pub open spec fn summary_notice(objects_exported: nat) -> NotificationView {
    if objects_exported > 0 {
        NotificationView {
            message: exported_message(objects_exported),
            caption: REPEATABLE_CAPTION@,
            severity: Severity::Information,
        }
    } else {
        NotificationView {
            message: NOTHING_EXPORTED_MESSAGE@,
            caption: REPEATABLE_CAPTION@,
            severity: Severity::Error,
        }
    }
}

impl Notification {
    /// The notice that nothing is selected.
    pub fn nothing_selected() -> (notice: Notification)
        ensures
            notice@ == nothing_selected_notice(),
    {
        Notification {
            message: NO_OBJECT_SELECTED_MESSAGE.to_owned(),
            caption: NO_OBJECT_SELECTED_CAPTION.to_owned(),
            severity: Severity::Information,
        }
    }

    /// The notice that several objects cannot be exported as versioned
    /// migrations.
    pub fn multiple_objects() -> (notice: Notification)
        ensures
            notice@ == multiple_objects_notice(),
    {
        Notification {
            message: MULTIPLE_OBJECTS_MESSAGE.to_owned(),
            caption: MULTIPLE_OBJECTS_CAPTION.to_owned(),
            severity: Severity::Information,
        }
    }

    /// The notice at the end of an export of objects.
    pub fn summary(objects_exported: usize) -> (notice: Notification)
        ensures
            notice@ == summary_notice(objects_exported as nat),
    {
        if objects_exported > 0 {
            let mut message = "Successfully exported ".to_owned();
            message.append(decimal_string(objects_exported).as_str());
            message.append(" objects as repeatable migration(s).");
            Notification {
                message,
                caption: REPEATABLE_CAPTION.to_owned(),
                severity: Severity::Information,
            }
        } else {
            Notification {
                message: NOTHING_EXPORTED_MESSAGE.to_owned(),
                caption: REPEATABLE_CAPTION.to_owned(),
                severity: Severity::Error,
            }
        }
    }
}

/// Whether objects of this type are exported.
pub open spec fn is_supported(object_type: Seq<char>) -> bool {
    ||| object_type == "FUNCTION"@
    ||| object_type == "PROCEDURE"@
    ||| object_type == "PACKAGE"@
    ||| object_type == "TYPE"@
    ||| object_type == "VIEW"@
    ||| object_type == "TRIGGER"@
}

/// Whether objects of this type have a body that is kept apart from their
/// specification.
pub open spec fn has_body(object_type: Seq<char>) -> bool {
    object_type == "PACKAGE"@ || object_type == "TYPE"@
}

/// The types of objects that are exported.
pub const SUPPORTED_OBJECT_TYPES: [&'static str; 6] = [
    "FUNCTION",
    "PROCEDURE",
    "PACKAGE",
    "TYPE",
    "VIEW",
    "TRIGGER",
];

/// Whether objects of this type are exported.
pub fn is_supported_object_type(object_type: &str) -> (supported: bool)
    ensures
        supported == is_supported(object_type@),
        supported == exists|i: int|
            0 <= i < SUPPORTED_OBJECT_TYPES@.len() && (#[trigger] SUPPORTED_OBJECT_TYPES@[i])@
                == object_type@,
{
    let types = SUPPORTED_OBJECT_TYPES;
    let mut i: usize = 0;
    while i < 6
        invariant
            i <= 6,
            types == SUPPORTED_OBJECT_TYPES,
            forall|k: int| 0 <= k < i ==> (#[trigger] types@[k])@ != object_type@,
        decreases 6 - i,
    {
        if same_text(types[i], object_type) {
            return true;
        }
        i += 1;
    }
    false
}

/// Accepts the types of objects that are exported, and refuses every other
/// type with `UnsupportedObjectType`.
pub fn check_object_type(object_type: &str) -> (checked: Result<(), FlywayError>)
    ensures
        checked is Ok <==> is_supported(object_type@),
        checked matches Err(error) ==> error@ == FlywayErrorView::UnsupportedObjectType(
            object_type@,
        ),
{
    if is_supported_object_type(object_type) {
        Ok(())
    } else {
        Err(FlywayError::UnsupportedObjectType(object_type.to_owned()))
    }
}

/// Whether objects of this type have a body that is kept apart from their
/// specification.
pub fn has_object_body(object_type: &str) -> (with_body: bool)
    ensures
        with_body == has_body(object_type@),
{
    same_text(object_type, "PACKAGE") || same_text(object_type, "TYPE")
}

} // verus!
