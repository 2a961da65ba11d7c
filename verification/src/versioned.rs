//! The export of the selected text as a versioned migration, as a machine
//! that decides and a caller that acts: the caller asks the user for a file
//! name and writes the file, each when the machine says so, and reports back
//! what came of it.

use vstd::prelude::*;
use vstd::string::*;

use crate::config::Config;
use crate::flyway::{FlywayError, FlywayErrorView, MigrationFile, MigrationFileView};
use crate::naming::{get_versioned_filename_impl, versioned_name};
use crate::string_utils::{has_nul, until_nul, utf8_lossy, vec_with_nul_to_string};
use crate::timestamp::{Timestamp, TimestampView};

verus! {

/// Why the dialog for the file name gave no name.
#[derive(Debug, PartialEq, Eq)]
pub enum SaveFileError {
    /// The user closed the dialog.
    Cancelled,
    /// The user confirmed an empty name.
    EmptyName,
    /// The dialog failed; the text says why.
    Other(String),
}

/// What the caller reports to the machine.
#[derive(Debug, PartialEq, Eq)]
pub enum VersionedEvent {
    /// The dialog for the file name has ended.
    FileName(Result<String, SaveFileError>),
    /// The file was written, or the text says why it was not.
    Written(Result<(), String>),
}

/// What the caller is to do next.
#[derive(Debug, PartialEq, Eq)]
pub enum VersionedAction {
    /// Ask the user for the base name of the file, and report `FileName`.
    AskFileName,
    /// Write the file, and report `Written`.
    WriteFile(MigrationFile),
    /// The export has ended, in this way.
    Finish(Result<(), FlywayError>),
}

/// Where an export stands.
#[derive(Debug, Clone, Copy, PartialEq, Eq, Structural)]
pub enum VersionedPhase {
    AwaitingFileName,
    AwaitingWrite,
    Finished,
}

/// An export of the selected text.
#[derive(Debug)]
pub struct VersionedMigration {
    phase: VersionedPhase,
    ddl: String,
    use_millisecond_precision: bool,
}

/// An event as texts.
pub enum VersionedEventView {
    Named(Seq<char>),
    Cancelled,
    EmptyName,
    DialogFailed(Seq<char>),
    Written,
    WriteFailed(Seq<char>),
}

/// An action as texts.
pub enum VersionedActionView {
    AskFileName,
    WriteFile(MigrationFileView),
    Finish(Result<(), FlywayErrorView>),
}

/// An export as texts.
pub struct VersionedMigrationView {
    pub phase: VersionedPhase,
    pub ddl: Seq<char>,
    pub use_millisecond_precision: bool,
}

impl View for VersionedEvent {
    type V = VersionedEventView;

    open spec fn view(&self) -> VersionedEventView {
        match self {
            VersionedEvent::FileName(Ok(basename)) => VersionedEventView::Named(basename@),
            VersionedEvent::FileName(Err(SaveFileError::Cancelled)) => VersionedEventView::Cancelled,
            VersionedEvent::FileName(Err(SaveFileError::EmptyName)) => VersionedEventView::EmptyName,
            VersionedEvent::FileName(Err(SaveFileError::Other(detail))) => VersionedEventView::DialogFailed(
                detail@,
            ),
            VersionedEvent::Written(Ok(_)) => VersionedEventView::Written,
            VersionedEvent::Written(Err(detail)) => VersionedEventView::WriteFailed(detail@),
        }
    }
}

impl View for VersionedAction {
    type V = VersionedActionView;

    open spec fn view(&self) -> VersionedActionView {
        match self {
            VersionedAction::AskFileName => VersionedActionView::AskFileName,
            VersionedAction::WriteFile(file) => VersionedActionView::WriteFile(file@),
            VersionedAction::Finish(Ok(_)) => VersionedActionView::Finish(Ok(())),
            VersionedAction::Finish(Err(error)) => VersionedActionView::Finish(Err(error@)),
        }
    }
}

impl View for VersionedMigration {
    type V = VersionedMigrationView;

    closed spec fn view(&self) -> VersionedMigrationView {
        VersionedMigrationView {
            phase: self.phase,
            ddl: self.ddl@,
            use_millisecond_precision: self.use_millisecond_precision,
        }
    }
}

/// The start of an export: a selection without text ends it at once, with
/// an error; any other makes the caller ask for a file name.
pub open spec fn versioned_begin(ddl: Seq<char>, use_millisecond_precision: bool) -> (
    VersionedMigrationView,
    VersionedActionView,
) {
    if ddl.len() == 0 {
        (
            VersionedMigrationView {
                phase: VersionedPhase::Finished,
                ddl,
                use_millisecond_precision,
            },
            VersionedActionView::Finish(Err(FlywayErrorView::EmptySelectionError)),
        )
    } else {
        (
            VersionedMigrationView {
                phase: VersionedPhase::AwaitingFileName,
                ddl,
                use_millisecond_precision,
            },
            VersionedActionView::AskFileName,
        )
    }
}

/// The export ended, in this way.
pub open spec fn versioned_end(
    state: VersionedMigrationView,
    result: Result<(), FlywayErrorView>,
) -> Option<(VersionedMigrationView, VersionedActionView)> {
    Some(
        (
            VersionedMigrationView { phase: VersionedPhase::Finished, ..state },
            VersionedActionView::Finish(result),
        ),
    )
}

/// One step of an export: the state and the action that follow an event
/// that arrives at the time `now`, or `None` for an event that the state does
/// not wait for.
///
/// A name makes the caller write the selected text, as it stands, to the
/// versioned file of that name in the current directory. A dialog that was
/// cancelled ends the export without an error. What the write reports ends
/// the export.
pub open spec fn versioned_step(
    state: VersionedMigrationView,
    event: VersionedEventView,
    now: TimestampView,
) -> Option<(VersionedMigrationView, VersionedActionView)> {
    match (state.phase, event) {
        (VersionedPhase::AwaitingFileName, VersionedEventView::Named(basename)) => Some(
            (
                VersionedMigrationView { phase: VersionedPhase::AwaitingWrite, ..state },
                VersionedActionView::WriteFile(
                    MigrationFileView {
                        folder: Seq::empty(),
                        file_name: versioned_name(state.use_millisecond_precision, now, basename),
                        content: state.ddl,
                    },
                ),
            ),
        ),
        (VersionedPhase::AwaitingFileName, VersionedEventView::Cancelled) => versioned_end(
            state,
            Ok(()),
        ),
        (VersionedPhase::AwaitingFileName, VersionedEventView::EmptyName) => versioned_end(
            state,
            Err(FlywayErrorView::EmptyFileName),
        ),
        (VersionedPhase::AwaitingFileName, VersionedEventView::DialogFailed(detail)) => versioned_end(
            state,
            Err(FlywayErrorView::IOError(detail)),
        ),
        (VersionedPhase::AwaitingWrite, VersionedEventView::Written) => versioned_end(state, Ok(())),
        (VersionedPhase::AwaitingWrite, VersionedEventView::WriteFailed(detail)) => versioned_end(
            state,
            Err(FlywayErrorView::IOError(detail)),
        ),
        _ => None,
    }
}

/// What a dialog for the file name came to: a dialog that the user did not
/// confirm was cancelled, and one that was confirmed gave `file_name`, or no
/// name at all if that is empty.
pub open spec fn chosen(confirmed: bool, file_name: Seq<char>) -> VersionedEventView {
    if !confirmed {
        VersionedEventView::Cancelled
    } else if file_name.len() == 0 {
        VersionedEventView::EmptyName
    } else {
        VersionedEventView::Named(file_name)
    }
}

/// What a dialog for the file name came to, from what it returned and the
/// name that it left.
pub fn chosen_file_name(confirmed: bool, file_name: String) -> (outcome: Result<
    String,
    SaveFileError,
>)
    ensures
        VersionedEvent::FileName(outcome)@ == chosen(confirmed, file_name@),
{
    if !confirmed {
        Err(SaveFileError::Cancelled)
    } else if file_name.as_str().is_empty() {
        Err(SaveFileError::EmptyName)
    } else {
        Ok(file_name)
    }
}

/// What a dialog for the file name came to, from what it returned and the
/// title buffer that it filled: the name is what stands in the buffer in
/// front of its first NUL.
pub fn save_file_name(confirmed: bool, file_title: &[u8]) -> (outcome: Result<
    String,
    SaveFileError,
>)
    requires
        confirmed ==> has_nul(file_title@),
    ensures
        VersionedEvent::FileName(outcome)@ == chosen(
            confirmed,
            utf8_lossy(until_nul(file_title@)),
        ),
{
    if confirmed {
        chosen_file_name(true, vec_with_nul_to_string(file_title))
    } else {
        Err(SaveFileError::Cancelled)
    }
}

impl VersionedMigration {
    /// Starts the export of the selected text `ddl`.
    ///
    /// An empty text ends the export at once with `EmptySelectionError`,
    /// before the user is asked for anything.
    pub fn begin(ddl: &str, config: &Config) -> (started: (VersionedMigration, VersionedAction))
        ensures
            (started.0@, started.1@) == versioned_begin(ddl@, config.use_millisecond_precision),
            ddl@.len() == 0 ==> started.1@ == VersionedActionView::Finish(
                Err(FlywayErrorView::EmptySelectionError),
            ) && started.0@.phase == VersionedPhase::Finished,
    {
        if ddl.is_empty() {
            (
                VersionedMigration {
                    phase: VersionedPhase::Finished,
                    ddl: ddl.to_owned(),
                    use_millisecond_precision: config.use_millisecond_precision,
                },
                VersionedAction::Finish(Err(FlywayError::EmptySelectionError)),
            )
        } else {
            (
                VersionedMigration {
                    phase: VersionedPhase::AwaitingFileName,
                    ddl: ddl.to_owned(),
                    use_millisecond_precision: config.use_millisecond_precision,
                },
                VersionedAction::AskFileName,
            )
        }
    }

    /// Whether the export has ended.
    pub fn is_finished(&self) -> (finished: bool)
        ensures
            finished == (self@.phase == VersionedPhase::Finished),
    {
        match self.phase {
            VersionedPhase::Finished => true,
            _ => false,
        }
    }

    /// Takes what the caller reports at the time `now`, and says what to do
    /// next. An event that the export does not wait for changes nothing and
    /// gives `None`.
    pub fn step(&mut self, event: VersionedEvent, now: Timestamp) -> (action: Option<
        VersionedAction,
    >)
        ensures
            match versioned_step(old(self)@, event@, now@) {
                Some((state, next)) => final(self)@ == state && action.is_some()
                    && action.unwrap()@ == next,
                None => final(self)@ == old(self)@ && action.is_none(),
            },
    {
        proof {
            reveal_strlit("");
        }
        match self.phase {
            VersionedPhase::AwaitingFileName => match event {
                VersionedEvent::FileName(Ok(basename)) => {
                    let config = Config::new(self.use_millisecond_precision);
                    let file = MigrationFile {
                        folder: "".to_owned(),
                        file_name: get_versioned_filename_impl(&config, now, basename.as_str()),
                        content: self.ddl.clone(),
                    };
                    assert(file@.folder =~= Seq::empty());
                    self.phase = VersionedPhase::AwaitingWrite;
                    Some(VersionedAction::WriteFile(file))
                },
                VersionedEvent::FileName(Err(SaveFileError::Cancelled)) => {
                    self.phase = VersionedPhase::Finished;
                    Some(VersionedAction::Finish(Ok(())))
                },
                VersionedEvent::FileName(Err(SaveFileError::EmptyName)) => {
                    self.phase = VersionedPhase::Finished;
                    Some(VersionedAction::Finish(Err(FlywayError::EmptyFileName)))
                },
                VersionedEvent::FileName(Err(SaveFileError::Other(detail))) => {
                    self.phase = VersionedPhase::Finished;
                    Some(VersionedAction::Finish(Err(FlywayError::IOError(detail))))
                },
                VersionedEvent::Written(_) => None,
            },
            VersionedPhase::AwaitingWrite => match event {
                VersionedEvent::Written(Ok(_)) => {
                    self.phase = VersionedPhase::Finished;
                    Some(VersionedAction::Finish(Ok(())))
                },
                VersionedEvent::Written(Err(detail)) => {
                    self.phase = VersionedPhase::Finished;
                    Some(VersionedAction::Finish(Err(FlywayError::IOError(detail))))
                },
                VersionedEvent::FileName(_) => None,
            },
            VersionedPhase::Finished => None,
        }
    }
}

/// An export of an empty selection ends before any dialog: its first action
/// is the error, and no event is taken after it.
pub proof fn empty_selection_fails_before_any_dialog(
    use_millisecond_precision: bool,
    event: VersionedEventView,
    now: TimestampView,
)
    ensures
        versioned_begin(Seq::empty(), use_millisecond_precision).1 == VersionedActionView::Finish(
            Err(FlywayErrorView::EmptySelectionError),
        ),
        versioned_step(versioned_begin(Seq::empty(), use_millisecond_precision).0, event, now)
            is None,
{
}

/// An export writes at most one file, and what it writes is the selected
/// text as it stands.
pub proof fn selected_text_is_written_verbatim(
    state: VersionedMigrationView,
    event: VersionedEventView,
    now: TimestampView,
)
    ensures
        versioned_step(state, event, now) matches Some((next, VersionedActionView::WriteFile(file)))
            ==> file.content == state.ddl && state.phase == VersionedPhase::AwaitingFileName
            && next.phase == VersionedPhase::AwaitingWrite,
        versioned_step(state, event, now) matches Some((next, _)) ==> next.ddl == state.ddl,
{
}

} // verus!
