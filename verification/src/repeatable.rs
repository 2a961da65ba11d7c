//! The export of the selected objects as repeatable migrations, as a machine
//! that decides and a caller that acts: the caller walks the selection, asks
//! for the folder, fetches sources and writes files, each when the machine
//! says so, and reports back what came of it.

use vstd::prelude::*;
use vstd::string::*;

use crate::config::Config;
use crate::ddl::{
    body_kind, get_object_source, get_object_source_and_body, normalized, source_and_body,
    type_of_object_body,
};
use crate::flyway::{
    check_object_type, has_body, has_object_body, is_supported, multiple_objects_notice,
    nothing_selected_notice, summary_notice, MigrationFile, MigrationFileView, Notification,
    NotificationView, Severity,
};
use crate::naming::{
    get_versioned_filename_impl, object_basename, repeatable_filename, repeatable_name,
    versioned_name,
};
use crate::plsqldev_api::{SelectedObject, SelectedObjectView};
use crate::text::to_uppercase;
use crate::timestamp::{Timestamp, TimestampView};

verus! {

/// What the caller reports to the machine.
#[derive(Debug, PartialEq, Eq)]
pub enum RepeatableEvent {
    /// The selection gave its first or its next object, or it has no more.
    Selected(Option<SelectedObject>),
    /// The user chose this folder.
    Folder(String),
    /// The IDE returned this text for the source that was asked for.
    Source(String),
    /// The file was written, or it was not.
    Written(bool),
}

/// What the caller is to do next.
#[derive(Debug, PartialEq, Eq)]
pub enum RepeatableAction {
    /// Ask the selection for its first object, and report `Selected`.
    AskFirstObject,
    /// Ask the selection for its next object, and report `Selected`.
    AskNextObject,
    /// Ask the user for the folder of the files, and report `Folder`.
    AskFolder,
    /// Fetch the source that the IDE keeps under this kind, owner and name,
    /// and report `Source`.
    FetchSource { object_type: String, object_owner: String, object_name: String },
    /// Write the file, and report `Written`.
    WriteFile(MigrationFile),
    /// Show the notice: the export has ended.
    Finish(Notification),
}

/// Where an export stands.
#[derive(Debug, Clone, Copy, PartialEq, Eq, Structural)]
pub enum RepeatablePhase {
    AwaitingFirst,
    /// Before a versioned export: is more than one object selected?
    AwaitingSecond,
    AwaitingFolder,
    AwaitingSource,
    AwaitingBody,
    AwaitingVersionedWrite,
    AwaitingRepeatableWrite,
    AwaitingNext,
    Finished,
}

/// An export of the selected objects.
#[derive(Debug)]
pub struct RepeatableMigration {
    phase: RepeatablePhase,
    export_versioned: bool,
    use_millisecond_precision: bool,
    folder: String,
    object: SelectedObject,
    source: String,
    versioned_written: bool,
    objects_exported: usize,
}

/// An event as texts.
pub enum RepeatableEventView {
    Selected(Option<SelectedObjectView>),
    Folder(Seq<char>),
    Source(Seq<char>),
    Written(bool),
}

/// An action as texts.
pub enum RepeatableActionView {
    AskFirstObject,
    AskNextObject,
    AskFolder,
    FetchSource { object_type: Seq<char>, object_owner: Seq<char>, object_name: Seq<char> },
    WriteFile(MigrationFileView),
    Finish(NotificationView),
}

/// An export as texts and numbers.
pub struct RepeatableMigrationView {
    pub phase: RepeatablePhase,
    /// Whether every object is written as a versioned migration too.
    pub export_versioned: bool,
    pub use_millisecond_precision: bool,
    /// The folder of the files, once it is chosen.
    pub folder: Seq<char>,
    /// The object in work.
    pub object: SelectedObjectView,
    /// The specification while the body is awaited, the whole source while
    /// the files are written.
    pub source: Seq<char>,
    /// Whether the versioned file of the object in work was written, or none
    /// was asked for.
    pub versioned_written: bool,
    /// The number of objects whose files were all written.
    pub objects_exported: nat,
}

impl View for RepeatableEvent {
    type V = RepeatableEventView;

    open spec fn view(&self) -> RepeatableEventView {
        match self {
            RepeatableEvent::Selected(Some(object)) => RepeatableEventView::Selected(
                Some(object@),
            ),
            RepeatableEvent::Selected(None) => RepeatableEventView::Selected(None),
            RepeatableEvent::Folder(folder) => RepeatableEventView::Folder(folder@),
            RepeatableEvent::Source(source) => RepeatableEventView::Source(source@),
            RepeatableEvent::Written(written) => RepeatableEventView::Written(*written),
        }
    }
}

impl View for RepeatableAction {
    type V = RepeatableActionView;

    open spec fn view(&self) -> RepeatableActionView {
        match self {
            RepeatableAction::AskFirstObject => RepeatableActionView::AskFirstObject,
            RepeatableAction::AskNextObject => RepeatableActionView::AskNextObject,
            RepeatableAction::AskFolder => RepeatableActionView::AskFolder,
            RepeatableAction::FetchSource {
                object_type,
                object_owner,
                object_name,
            } => RepeatableActionView::FetchSource {
                object_type: object_type@,
                object_owner: object_owner@,
                object_name: object_name@,
            },
            RepeatableAction::WriteFile(file) => RepeatableActionView::WriteFile(file@),
            RepeatableAction::Finish(notice) => RepeatableActionView::Finish(notice@),
        }
    }
}

impl View for RepeatableMigration {
    type V = RepeatableMigrationView;

    closed spec fn view(&self) -> RepeatableMigrationView {
        RepeatableMigrationView {
            phase: self.phase,
            export_versioned: self.export_versioned,
            use_millisecond_precision: self.use_millisecond_precision,
            folder: self.folder@,
            object: self.object@,
            source: self.source@,
            versioned_written: self.versioned_written,
            objects_exported: self.objects_exported as nat,
        }
    }
}

/// The object of which nothing is known.
pub open spec fn no_object() -> SelectedObjectView {
    SelectedObjectView {
        object_type: Seq::empty(),
        object_owner: Seq::empty(),
        object_name: Seq::empty(),
        sub_object: Seq::empty(),
    }
}

/// The start of an export: the caller asks for the first object.
pub open spec fn repeatable_begin(export_versioned: bool, use_millisecond_precision: bool) -> (
    RepeatableMigrationView,
    RepeatableActionView,
) {
    (
        RepeatableMigrationView {
            phase: RepeatablePhase::AwaitingFirst,
            export_versioned,
            use_millisecond_precision,
            folder: Seq::empty(),
            object: no_object(),
            source: Seq::empty(),
            versioned_written: false,
            objects_exported: 0,
        },
        RepeatableActionView::AskFirstObject,
    )
}

/// The export ends with a notice.
pub open spec fn finish(state: RepeatableMigrationView, notice: NotificationView) -> (
    RepeatableMigrationView,
    RepeatableActionView,
) {
    (
        RepeatableMigrationView { phase: RepeatablePhase::Finished, ..state },
        RepeatableActionView::Finish(notice),
    )
}

/// The export turns to an object: one of a supported type has its source
/// fetched, any other is passed over and the next object is asked for.
pub open spec fn take_up(state: RepeatableMigrationView, object: SelectedObjectView) -> (
    RepeatableMigrationView,
    RepeatableActionView,
) {
    if is_supported(object.object_type) {
        (
            RepeatableMigrationView { phase: RepeatablePhase::AwaitingSource, object, ..state },
            RepeatableActionView::FetchSource {
                object_type: object.object_type,
                object_owner: object.object_owner,
                object_name: object.object_name,
            },
        )
    } else {
        (
            RepeatableMigrationView { phase: RepeatablePhase::AwaitingNext, ..state },
            RepeatableActionView::AskNextObject,
        )
    }
}

/// The repeatable file of the object in work.
pub open spec fn repeatable_file(state: RepeatableMigrationView) -> MigrationFileView {
    MigrationFileView {
        folder: state.folder,
        file_name: repeatable_name(object_basename(state.object.object_name)),
        content: state.source,
    }
}

/// The versioned file of the object in work, written at the time `now`.
pub open spec fn versioned_file(state: RepeatableMigrationView, now: TimestampView) -> MigrationFileView {
    MigrationFileView {
        folder: state.folder,
        file_name: versioned_name(
            state.use_millisecond_precision,
            now,
            object_basename(state.object.object_name),
        ),
        content: state.source,
    }
}

/// The source of the object in work is complete: its files are written, the
/// versioned one first where it is asked for.
pub open spec fn write_out(state: RepeatableMigrationView, source: Seq<char>, now: TimestampView) -> (
    RepeatableMigrationView,
    RepeatableActionView,
) {
    if state.export_versioned {
        let next = RepeatableMigrationView {
            phase: RepeatablePhase::AwaitingVersionedWrite,
            source,
            versioned_written: false,
            ..state
        };
        (next, RepeatableActionView::WriteFile(versioned_file(next, now)))
    } else {
        let next = RepeatableMigrationView {
            phase: RepeatablePhase::AwaitingRepeatableWrite,
            source,
            versioned_written: true,
            ..state
        };
        (next, RepeatableActionView::WriteFile(repeatable_file(next)))
    }
}

/// One step of an export: the state and the action that follow an event
/// that arrives at the time `now`, or `None` for an event that the state does
/// not wait for.
///
/// Without a first object the export ends with a notice. A versioned export
/// looks for a second object before anything else, and ends with a notice if
/// there is one. Then the folder is chosen and the objects are taken up one
/// after the other. A package or a type has its body fetched after its
/// specification. The repeatable file is written whatever became of the
/// versioned one, and the object counts as exported if every file of it was
/// written. When the selection has no more objects the export ends with the
/// summary.
pub open spec fn repeatable_step(
    state: RepeatableMigrationView,
    event: RepeatableEventView,
    now: TimestampView,
) -> Option<(RepeatableMigrationView, RepeatableActionView)> {
    match (state.phase, event) {
        (RepeatablePhase::AwaitingFirst, RepeatableEventView::Selected(None)) => Some(
            finish(state, nothing_selected_notice()),
        ),
        (RepeatablePhase::AwaitingFirst, RepeatableEventView::Selected(Some(object))) => Some(
            if state.export_versioned {
                (
                    RepeatableMigrationView {
                        phase: RepeatablePhase::AwaitingSecond,
                        object,
                        ..state
                    },
                    RepeatableActionView::AskNextObject,
                )
            } else {
                (
                    RepeatableMigrationView {
                        phase: RepeatablePhase::AwaitingFolder,
                        object,
                        ..state
                    },
                    RepeatableActionView::AskFolder,
                )
            },
        ),
        (RepeatablePhase::AwaitingSecond, RepeatableEventView::Selected(Some(_))) => Some(
            finish(state, multiple_objects_notice()),
        ),
        (RepeatablePhase::AwaitingSecond, RepeatableEventView::Selected(None)) => Some(
            (
                RepeatableMigrationView { phase: RepeatablePhase::AwaitingFolder, ..state },
                RepeatableActionView::AskFolder,
            ),
        ),
        (RepeatablePhase::AwaitingFolder, RepeatableEventView::Folder(folder)) => Some(
            take_up(RepeatableMigrationView { folder, ..state }, state.object),
        ),
        (RepeatablePhase::AwaitingSource, RepeatableEventView::Source(text)) => Some(
            if has_body(state.object.object_type) {
                (
                    RepeatableMigrationView {
                        phase: RepeatablePhase::AwaitingBody,
                        source: text,
                        ..state
                    },
                    RepeatableActionView::FetchSource {
                        object_type: body_kind(state.object.object_type),
                        object_owner: state.object.object_owner,
                        object_name: state.object.object_name,
                    },
                )
            } else {
                write_out(
                    state,
                    normalized(
                        text,
                        state.object.object_type,
                        state.object.object_owner,
                        state.object.object_name,
                    ),
                    now,
                )
            },
        ),
        (RepeatablePhase::AwaitingBody, RepeatableEventView::Source(text)) => Some(
            write_out(state, source_and_body(state.object, state.source, text), now),
        ),
        (RepeatablePhase::AwaitingVersionedWrite, RepeatableEventView::Written(written)) => {
            let next = RepeatableMigrationView {
                phase: RepeatablePhase::AwaitingRepeatableWrite,
                versioned_written: written,
                ..state
            };
            Some((next, RepeatableActionView::WriteFile(repeatable_file(next))))
        },
        (RepeatablePhase::AwaitingRepeatableWrite, RepeatableEventView::Written(written)) => Some(
            (
                RepeatableMigrationView {
                    phase: RepeatablePhase::AwaitingNext,
                    objects_exported: if written && state.versioned_written {
                        state.objects_exported + 1
                    } else {
                        state.objects_exported
                    },
                    ..state
                },
                RepeatableActionView::AskNextObject,
            ),
        ),
        (RepeatablePhase::AwaitingNext, RepeatableEventView::Selected(Some(object))) => Some(
            take_up(state, object),
        ),
        (RepeatablePhase::AwaitingNext, RepeatableEventView::Selected(None)) => Some(
            finish(state, summary_notice(state.objects_exported)),
        ),
        _ => None,
    }
}

impl RepeatableMigration {
    /// Starts an export. With `export_versioned` every object is written as
    /// a versioned migration too; that is done for one object only.
    pub fn begin(config: &Config, export_versioned: bool) -> (started: (
        RepeatableMigration,
        RepeatableAction,
    ))
        ensures
            (started.0@, started.1@) == repeatable_begin(
                export_versioned,
                config.use_millisecond_precision,
            ),
            started.0@.wf(),
    {
        proof {
            reveal_strlit("");
        }
        let object = SelectedObject::new("", "", "", "");
        assert(""@ =~= Seq::<char>::empty());
        let state = RepeatableMigration {
            phase: RepeatablePhase::AwaitingFirst,
            export_versioned,
            use_millisecond_precision: config.use_millisecond_precision,
            folder: String::new(),
            object,
            source: String::new(),
            versioned_written: false,
            objects_exported: 0,
        };
        (state, RepeatableAction::AskFirstObject)
    }

    /// Whether the export has ended.
    pub fn is_finished(&self) -> (finished: bool)
        ensures
            finished == (self@.phase == RepeatablePhase::Finished),
    {
        match self.phase {
            RepeatablePhase::Finished => true,
            _ => false,
        }
    }

    /// The number of objects whose files were all written.
    pub fn objects_exported(&self) -> (count: usize)
        ensures
            count == self@.objects_exported,
    {
        self.objects_exported
    }

    /// Turns to `object`.
    fn take_up(&mut self, object: SelectedObject) -> (action: RepeatableAction)
        ensures
            (final(self)@, action@) == take_up(old(self)@, object@),
    {
        match check_object_type(object.object_type.as_str()) {
            Ok(_) => {
                self.phase = RepeatablePhase::AwaitingSource;
                self.object = object;
                RepeatableAction::FetchSource {
                    object_type: self.object.object_type.clone(),
                    object_owner: self.object.object_owner.clone(),
                    object_name: self.object.object_name.clone(),
                }
            },
            Err(_) => {
                self.phase = RepeatablePhase::AwaitingNext;
                RepeatableAction::AskNextObject
            },
        }
    }

    /// The repeatable file of the object in work.
    fn repeatable_file(&self) -> (file: MigrationFile)
        ensures
            file@ == repeatable_file(self@),
    {
        MigrationFile {
            folder: self.folder.clone(),
            file_name: repeatable_filename(
                to_uppercase(self.object.object_name.as_str()).as_str(),
            ),
            content: self.source.clone(),
        }
    }

    /// Starts writing the files of the object in work, whose source is
    /// `source`.
    fn write_out(&mut self, source: String, now: Timestamp) -> (action: RepeatableAction)
        ensures
            (final(self)@, action@) == write_out(old(self)@, source@, now@),
    {
        self.source = source;
        if self.export_versioned {
            self.phase = RepeatablePhase::AwaitingVersionedWrite;
            self.versioned_written = false;
            let config = Config::new(self.use_millisecond_precision);
            let basename = to_uppercase(self.object.object_name.as_str());
            RepeatableAction::WriteFile(
                MigrationFile {
                    folder: self.folder.clone(),
                    file_name: get_versioned_filename_impl(&config, now, basename.as_str()),
                    content: self.source.clone(),
                },
            )
        } else {
            self.phase = RepeatablePhase::AwaitingRepeatableWrite;
            self.versioned_written = true;
            RepeatableAction::WriteFile(self.repeatable_file())
        }
    }

    /// Ends the export with a notice.
    fn finish(&mut self, notice: Notification) -> (action: RepeatableAction)
        ensures
            (final(self)@, action@) == finish(old(self)@, notice@),
    {
        self.phase = RepeatablePhase::Finished;
        RepeatableAction::Finish(notice)
    }

    /// Takes what the caller reports at the time `now`, and says what to do
    /// next. An event that the export does not wait for changes nothing and
    /// gives `None`.
    pub fn step(&mut self, event: RepeatableEvent, now: Timestamp) -> (action: Option<
        RepeatableAction,
    >)
        requires
            old(self)@.objects_exported < usize::MAX,
        ensures
            match repeatable_step(old(self)@, event@, now@) {
                Some((state, next)) => final(self)@ == state && action.is_some()
                    && action.unwrap()@ == next,
                None => final(self)@ == old(self)@ && action.is_none(),
            },
            old(self)@.wf() ==> final(self)@.wf(),
    {
        match self.phase {
            RepeatablePhase::AwaitingFirst => match event {
                RepeatableEvent::Selected(None) => Some(
                    self.finish(Notification::nothing_selected()),
                ),
                RepeatableEvent::Selected(Some(object)) => {
                    self.object = object;
                    if self.export_versioned {
                        self.phase = RepeatablePhase::AwaitingSecond;
                        Some(RepeatableAction::AskNextObject)
                    } else {
                        self.phase = RepeatablePhase::AwaitingFolder;
                        Some(RepeatableAction::AskFolder)
                    }
                },
                _ => None,
            },
            RepeatablePhase::AwaitingSecond => match event {
                RepeatableEvent::Selected(Some(_)) => Some(
                    self.finish(Notification::multiple_objects()),
                ),
                RepeatableEvent::Selected(None) => {
                    self.phase = RepeatablePhase::AwaitingFolder;
                    Some(RepeatableAction::AskFolder)
                },
                _ => None,
            },
            RepeatablePhase::AwaitingFolder => match event {
                RepeatableEvent::Folder(folder) => {
                    self.folder = folder;
                    let object = self.object.duplicate();
                    Some(self.take_up(object))
                },
                _ => None,
            },
            RepeatablePhase::AwaitingSource => match event {
                RepeatableEvent::Source(text) => {
                    if has_object_body(self.object.object_type.as_str()) {
                        self.phase = RepeatablePhase::AwaitingBody;
                        self.source = text;
                        Some(
                            RepeatableAction::FetchSource {
                                object_type: type_of_object_body(
                                    self.object.object_type.as_str(),
                                ).to_owned(),
                                object_owner: self.object.object_owner.clone(),
                                object_name: self.object.object_name.clone(),
                            },
                        )
                    } else {
                        let source = get_object_source(&self.object, text.as_str());
                        Some(self.write_out(source, now))
                    }
                },
                _ => None,
            },
            RepeatablePhase::AwaitingBody => match event {
                RepeatableEvent::Source(text) => {
                    let source = get_object_source_and_body(
                        &self.object,
                        self.source.as_str(),
                        text.as_str(),
                    );
                    Some(self.write_out(source, now))
                },
                _ => None,
            },
            RepeatablePhase::AwaitingVersionedWrite => match event {
                RepeatableEvent::Written(written) => {
                    self.phase = RepeatablePhase::AwaitingRepeatableWrite;
                    self.versioned_written = written;
                    Some(RepeatableAction::WriteFile(self.repeatable_file()))
                },
                _ => None,
            },
            RepeatablePhase::AwaitingRepeatableWrite => match event {
                RepeatableEvent::Written(written) => {
                    self.phase = RepeatablePhase::AwaitingNext;
                    if written && self.versioned_written {
                        self.objects_exported = self.objects_exported + 1;
                    }
                    Some(RepeatableAction::AskNextObject)
                },
                _ => None,
            },
            RepeatablePhase::AwaitingNext => match event {
                RepeatableEvent::Selected(Some(object)) => Some(self.take_up(object)),
                RepeatableEvent::Selected(None) => {
                    let notice = Notification::summary(self.objects_exported);
                    Some(self.finish(notice))
                },
                _ => None,
            },
            RepeatablePhase::Finished => None,
        }
    }
}

/// An export that takes the events in order, each at its time: the state
/// that it ends in, and the actions that it asks for on the way. An event
/// that the export does not wait for is passed over.
pub open spec fn run(
    state: RepeatableMigrationView,
    events: Seq<(RepeatableEventView, TimestampView)>,
) -> (RepeatableMigrationView, Seq<RepeatableActionView>)
    decreases events.len(),
{
    if events.len() == 0 {
        (state, Seq::empty())
    } else {
        match repeatable_step(state, events[0].0, events[0].1) {
            Some((next, action)) => {
                let (end, actions) = run(next, events.drop_first());
                (end, seq![action] + actions)
            },
            None => run(state, events.drop_first()),
        }
    }
}

impl RepeatableMigrationView {
    /// What holds of every state that an export reaches: sources are
    /// fetched and files are written for objects of a supported type only, a
    /// body is awaited only for a type that has one, and only a versioned
    /// export looks for a second object or writes a versioned file.
    pub open spec fn wf(self) -> bool {
        &&& (self.phase == RepeatablePhase::AwaitingSource || self.phase
            == RepeatablePhase::AwaitingBody || self.phase
            == RepeatablePhase::AwaitingVersionedWrite || self.phase
            == RepeatablePhase::AwaitingRepeatableWrite) ==> is_supported(self.object.object_type)
        &&& self.phase == RepeatablePhase::AwaitingBody ==> has_body(self.object.object_type)
        &&& (self.phase == RepeatablePhase::AwaitingSecond || self.phase
            == RepeatablePhase::AwaitingVersionedWrite) ==> self.export_versioned
        &&& (self.phase == RepeatablePhase::AwaitingFirst || self.phase
            == RepeatablePhase::AwaitingSecond || self.phase == RepeatablePhase::AwaitingFolder)
            ==> self.objects_exported == 0
    }
}

/// An export starts in a well-formed state.
pub proof fn export_begins_well_formed(export_versioned: bool, use_millisecond_precision: bool)
    ensures
        repeatable_begin(export_versioned, use_millisecond_precision).0.wf(),
{
}

/// Every step keeps the state of an export well formed.
pub proof fn steps_keep_well_formed(
    state: RepeatableMigrationView,
    event: RepeatableEventView,
    now: TimestampView,
)
    requires
        state.wf(),
    ensures
        repeatable_step(state, event, now) matches Some((next, _)) ==> next.wf(),
{
}

/// An export that has ended takes no event: nothing is asked for or written
/// after its notice.
pub proof fn finished_takes_no_event(
    state: RepeatableMigrationView,
    event: RepeatableEventView,
    now: TimestampView,
)
    requires
        state.phase == RepeatablePhase::Finished,
    ensures
        repeatable_step(state, event, now) is None,
{
}

/// An object of a type that is not exported is passed over: the export asks
/// for the next object, fetches and writes nothing for this one, and the
/// number of exported objects stays as it is.
pub proof fn unsupported_object_is_passed_over(
    state: RepeatableMigrationView,
    object: SelectedObjectView,
    now: TimestampView,
)
    requires
        state.phase == RepeatablePhase::AwaitingNext,
        !is_supported(object.object_type),
    ensures
        repeatable_step(state, RepeatableEventView::Selected(Some(object)), now) == Some(
            (state, RepeatableActionView::AskNextObject),
        ),
{
}

/// The first object is passed over in the same way, once the folder is
/// chosen.
pub proof fn unsupported_first_object_is_passed_over(
    state: RepeatableMigrationView,
    folder: Seq<char>,
    now: TimestampView,
)
    requires
        state.phase == RepeatablePhase::AwaitingFolder,
        !is_supported(state.object.object_type),
    ensures
        repeatable_step(state, RepeatableEventView::Folder(folder), now) == Some(
            (
                RepeatableMigrationView { phase: RepeatablePhase::AwaitingNext, folder, ..state },
                RepeatableActionView::AskNextObject,
            ),
        ),
{
}

/// The number of exported objects grows by one when the repeatable file of
/// an object is written and its versioned file, if one was asked for, was
/// written too. No other step changes it.
pub proof fn only_written_objects_count(
    state: RepeatableMigrationView,
    event: RepeatableEventView,
    now: TimestampView,
)
    ensures
        repeatable_step(state, event, now) matches Some((next, _)) ==> next.objects_exported == (
        if state.phase == RepeatablePhase::AwaitingRepeatableWrite && event
            == RepeatableEventView::Written(true) && state.versioned_written {
            state.objects_exported + 1
        } else {
            state.objects_exported
        }),
{
}

/// Files are written for objects of a supported type only, into the folder
/// that was chosen, and one step writes one file.
pub proof fn files_are_written_for_supported_objects(
    state: RepeatableMigrationView,
    event: RepeatableEventView,
    now: TimestampView,
)
    requires
        state.wf(),
    ensures
        repeatable_step(state, event, now) matches Some((next, RepeatableActionView::WriteFile(file)))
            ==> is_supported(next.object.object_type) && next.object == state.object && file.folder
            == state.folder && file.content == next.source,
{
}

/// The summary at the end of an export is a piece of information if an
/// object was exported, and an error if none was.
pub proof fn summary_tells_success_from_failure(
    state: RepeatableMigrationView,
    now: TimestampView,
)
    requires
        state.phase == RepeatablePhase::AwaitingNext,
    ensures
        repeatable_step(state, RepeatableEventView::Selected(None), now) matches Some(
            (_, RepeatableActionView::Finish(notice)),
        ) && (notice.severity == Severity::Information <==> state.objects_exported > 0),
{
}

/// An export that has ended asks for nothing more, whatever is reported to
/// it.
pub proof fn finished_export_stays_finished(
    state: RepeatableMigrationView,
    events: Seq<(RepeatableEventView, TimestampView)>,
)
    requires
        state.phase == RepeatablePhase::Finished,
    ensures
        run(state, events) == (state, Seq::<RepeatableActionView>::empty()),
    decreases events.len(),
{
    if events.len() > 0 {
        finished_export_stays_finished(state, events.drop_first());
    }
}

/// Whatever is reported to a versioned export after a first and a second
/// object, it asks for the second object, shows the notice that several
/// objects are not supported, and does nothing else: no folder is asked for,
/// no source is fetched and no file is written.
pub proof fn versioned_export_of_several_objects_only_shows_the_notice(
    use_millisecond_precision: bool,
    first: (SelectedObjectView, TimestampView),
    second: (SelectedObjectView, TimestampView),
    rest: Seq<(RepeatableEventView, TimestampView)>,
)
    ensures
        ({
            let events = seq![
                (RepeatableEventView::Selected(Some(first.0)), first.1),
                (RepeatableEventView::Selected(Some(second.0)), second.1),
            ] + rest;
            let (end, actions) = run(repeatable_begin(true, use_millisecond_precision).0, events);
            &&& actions == seq![
                RepeatableActionView::AskNextObject,
                RepeatableActionView::Finish(multiple_objects_notice()),
            ]
            &&& end.phase == RepeatablePhase::Finished
            &&& end.objects_exported == 0
        }),
{
    let start = repeatable_begin(true, use_millisecond_precision).0;
    let first_event = (RepeatableEventView::Selected(Some(first.0)), first.1);
    let second_event = (RepeatableEventView::Selected(Some(second.0)), second.1);
    let events = seq![first_event, second_event] + rest;
    let probing = repeatable_step(start, first_event.0, first_event.1).unwrap().0;
    let ended = repeatable_step(probing, second_event.0, second_event.1).unwrap().0;
    assert(events.drop_first().drop_first() =~= rest);
    finished_export_stays_finished(ended, rest);
    assert(run(probing, events.drop_first()) == (
        ended,
        seq![RepeatableActionView::Finish(multiple_objects_notice())] + run(ended, rest).1,
    ));
}

/// An object of a type that is not exported changes nothing but that the
/// next object is asked for: the export goes on as if the object had not
/// been selected, and ends in the same state.
pub proof fn unsupported_object_does_not_change_the_export(
    state: RepeatableMigrationView,
    object: (SelectedObjectView, TimestampView),
    rest: Seq<(RepeatableEventView, TimestampView)>,
)
    requires
        state.phase == RepeatablePhase::AwaitingNext,
        !is_supported(object.0.object_type),
    ensures
        ({
            let events = seq![(RepeatableEventView::Selected(Some(object.0)), object.1)] + rest;
            &&& run(state, events).0 == run(state, rest).0
            &&& run(state, events).1 == seq![RepeatableActionView::AskNextObject] + run(
                state,
                rest,
            ).1
        }),
{
    let event = (RepeatableEventView::Selected(Some(object.0)), object.1);
    let events = seq![event] + rest;
    assert(events.drop_first() =~= rest);
}

} // verus!
