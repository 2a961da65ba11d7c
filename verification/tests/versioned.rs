use xanthidae::config::Config;
use xanthidae::flyway::{FlywayError, MigrationFile, Notification, Severity};
use xanthidae::timestamp::Timestamp;
use xanthidae::versioned::{
    chosen_file_name, save_file_name, SaveFileError, VersionedAction, VersionedEvent,
    VersionedMigration,
};

const PACKAGE_SPEC_WITH_UNICODE_CHARACTERS: &str = "create or replace package DEMO_USER.PKG_SNAFU is\n  CHARS constant varchar2(9 byte) := '€µψΨ';\nend pkg_snafu;\n/\n";

fn now() -> Timestamp {
    Timestamp::from_ymd_hms(2021, 4, 2, 10, 20, 30).unwrap()
}

/// Plays the caller: answers the dialog with `basename`, keeps what is
/// written in `files`, and lets every write end as `write_result` says.
fn create_versioned_migration_impl(
    ddl: &str,
    config: &Config,
    basename: Result<String, SaveFileError>,
    write_result: Result<(), String>,
    files: &mut Vec<MigrationFile>,
    dialogs: &mut usize,
) -> Result<(), FlywayError> {
    let (mut migration, mut action) = VersionedMigration::begin(ddl, config);
    let mut basename = Some(basename);
    let mut write_result = Some(write_result);
    loop {
        let event = match action {
            VersionedAction::AskFileName => {
                *dialogs += 1;
                VersionedEvent::FileName(basename.take().unwrap())
            }
            VersionedAction::WriteFile(file) => {
                files.push(file);
                VersionedEvent::Written(write_result.take().unwrap())
            }
            VersionedAction::Finish(result) => {
                assert!(migration.is_finished());
                return result;
            }
        };
        action = migration.step(event, now()).unwrap();
    }
}

#[test]
fn create_versioned_migration_from_package_with_unicode_characters() {
    const EXPECTED: &str = "create or replace package DEMO_USER.PKG_SNAFU is\n  CHARS constant varchar2(9 byte) := '€µψΨ';\nend pkg_snafu;\n/\n";
    let mut files = vec![];
    let mut dialogs = 0;
    let res = create_versioned_migration_impl(
        PACKAGE_SPEC_WITH_UNICODE_CHARACTERS,
        &Config::default(),
        Ok("PKG_SNAFU.sql".to_string()),
        Ok(()),
        &mut files,
        &mut dialogs,
    );
    assert_eq!(true, res.is_ok());
    assert_eq!(1, dialogs);
    for file in files {
        if file.file_name.contains("PKG_SNAFU") {
            assert_eq!(file.content, EXPECTED);
            assert_eq!(file.file_name, "V2021_04_02_10_20_30__PKG_SNAFU.sql");
            assert_eq!(file.folder, "");
            return;
        }
    }
    panic!("Output file of versioned migration not found!");
}

#[test]
fn create_versioned_migration_with_empty_selection_should_return_error() {
    let mut files = vec![];
    let mut dialogs = 0;
    let res = create_versioned_migration_impl(
        "",
        &Config::default(),
        Ok("PKG_SNAFU.sql".to_string()),
        Ok(()),
        &mut files,
        &mut dialogs,
    );
    match res {
        Ok(_) => panic!("This should have returned an error"),
        Err(e) => assert_eq!(FlywayError::EmptySelectionError, e),
    }
    assert_eq!(0, dialogs);
    assert!(files.is_empty());
}

#[test]
fn cancelled_dialog_ends_without_error_and_without_file() {
    let mut files = vec![];
    let mut dialogs = 0;
    let res = create_versioned_migration_impl(
        "select 1 from dual;",
        &Config::default(),
        Err(SaveFileError::Cancelled),
        Ok(()),
        &mut files,
        &mut dialogs,
    );
    assert_eq!(Ok(()), res);
    assert_eq!(1, dialogs);
    assert!(files.is_empty());
}

#[test]
fn empty_file_name_is_an_error() {
    let mut files = vec![];
    let mut dialogs = 0;
    let res = create_versioned_migration_impl(
        "select 1 from dual;",
        &Config::default(),
        Err(SaveFileError::EmptyName),
        Ok(()),
        &mut files,
        &mut dialogs,
    );
    assert_eq!(Err(FlywayError::EmptyFileName), res);
    assert!(files.is_empty());
}

#[test]
fn failed_dialog_and_failed_write_are_io_errors() {
    let mut files = vec![];
    let mut dialogs = 0;
    let res = create_versioned_migration_impl(
        "select 1 from dual;",
        &Config::default(),
        Err(SaveFileError::Other("no dialog".to_string())),
        Ok(()),
        &mut files,
        &mut dialogs,
    );
    assert_eq!(Err(FlywayError::IOError("no dialog".to_string())), res);
    assert!(files.is_empty());

    let res = create_versioned_migration_impl(
        "select 1 from dual;",
        &Config::new(true),
        Ok("x".to_string()),
        Err("disk full".to_string()),
        &mut files,
        &mut dialogs,
    );
    assert_eq!(Err(FlywayError::IOError("disk full".to_string())), res);
    assert_eq!(1, files.len());
    assert_eq!("V2021_04_02_10_20_30.000__x.sql", files[0].file_name);
    assert_eq!("select 1 from dual;", files[0].content);
}

#[test]
fn versioned_migration_ignores_events_it_does_not_wait_for() {
    let (mut migration, action) = VersionedMigration::begin("x", &Config::default());
    assert_eq!(VersionedAction::AskFileName, action);
    assert_eq!(None, migration.step(VersionedEvent::Written(Ok(())), now()));
    assert!(!migration.is_finished());
    let action = migration.step(VersionedEvent::FileName(Ok("a".to_string())), now());
    assert!(matches!(action, Some(VersionedAction::WriteFile(_))));
    assert_eq!(None, migration.step(VersionedEvent::FileName(Ok("b".to_string())), now()));
    assert_eq!(
        Some(VersionedAction::Finish(Ok(()))),
        migration.step(VersionedEvent::Written(Ok(())), now())
    );
    assert_eq!(None, migration.step(VersionedEvent::Written(Ok(())), now()));
    assert!(migration.is_finished());
}

#[test]
fn error_messages_and_notices() {
    assert_eq!(
        "Cowardly refusing to create an empty migration.\nPlease select some text and try again.\n",
        FlywayError::EmptySelectionError.to_string()
    );
    assert_eq!("Please enter a file name!", FlywayError::EmptyFileName.to_string());
    assert_eq!(
        "I/O error: disk full",
        FlywayError::IOError("disk full".to_string()).to_string()
    );
    assert_eq!(
        "TABLE is not a supported object type",
        FlywayError::UnsupportedObjectType("TABLE".to_string()).to_string()
    );
    assert_eq!(
        Notification {
            message: "Please enter a file name!".to_string(),
            caption: "Error".to_string(),
            severity: Severity::Error,
        },
        FlywayError::EmptyFileName.notification()
    );
}

#[test]
fn save_file_name_reads_the_title_buffer() {
    assert_eq!(Ok("do_it.sql".to_string()), save_file_name(true, b"do_it.sql\0\0\0"));
    assert_eq!(Err(SaveFileError::EmptyName), save_file_name(true, b"\0\0\0"));
    assert_eq!(Err(SaveFileError::Cancelled), save_file_name(false, b"do_it.sql\0"));
    assert_eq!(Err(SaveFileError::Cancelled), save_file_name(false, b""));
}

#[test]
fn chosen_file_name_tells_the_three_outcomes() {
    assert_eq!(Ok("a".to_string()), chosen_file_name(true, "a".to_string()));
    assert_eq!(Err(SaveFileError::EmptyName), chosen_file_name(true, String::new()));
    assert_eq!(Err(SaveFileError::Cancelled), chosen_file_name(false, "a".to_string()));
    assert_eq!(Err(SaveFileError::Cancelled), chosen_file_name(false, String::new()));
}
