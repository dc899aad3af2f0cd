//! Restoring, recovering, discovering, importing, and the settings file.
use simpletally::error::{DbError, ErrorKind};
use simpletally::path::FilePath;
use simpletally::service::db_service::{
    database_path, ensure_writable, exe_dir, open_at, settings_path, OpenAction, OpenReply,
    OpenStep, DB_FILENAME, SETTINGS_FILENAME,
};
use simpletally::service::discovery::{discover, Probe};
use simpletally::service::import::{
    import_rows, CombinedReport, ImportReport, KnownCategory, Reply as ImportReply, Request,
    TaskTypeImportRow,
};
use simpletally::service::restore::{
    path_of, recover_incomplete, restore, Action, Failure, FileId, OpenOutcome, Part,
    RecoverStep, Reply, RestoreStep, Slot,
};
use simpletally::service::settings::{
    load, save, tmp_path_for, ReadOutcome, SaveAction, SaveStep, Settings, Theme, WindowGeometry,
    CURRENT_VERSION,
};

fn path(s: &str) -> FilePath {
    FilePath { units: s.encode_utf16().collect() }
}

fn text_of(p: &FilePath) -> String {
    String::from_utf16(&p.units).unwrap()
}

fn io(message: &str) -> DbError {
    DbError { kind: ErrorKind::Io, message: message.to_string() }
}

// --- a disk to restore on ---

#[derive(Clone, Copy, Debug, PartialEq)]
enum Content {
    Data(i64),
    /// Data in the layout of an older version.
    Legacy(i64),
    Empty,
    Junk,
}

struct Disk {
    files: Vec<(FileId, Content)>,
    backup: Option<Content>,
}

const BASE: FileId = FileId::Database(Slot::Base, Part::Main);
const STAGING: FileId = FileId::Database(Slot::Staging, Part::Main);
const SAFETY: FileId = FileId::Database(Slot::Safety, Part::Main);

impl Disk {
    fn new(files: &[(FileId, Content)]) -> Disk {
        Disk { files: files.to_vec(), backup: None }
    }

    fn get(&self, f: FileId) -> Option<Content> {
        self.files.iter().find(|(g, _)| *g == f).map(|(_, c)| *c)
    }

    fn take(&mut self, f: FileId) -> Option<Content> {
        let i = self.files.iter().position(|(g, _)| *g == f)?;
        Some(self.files.remove(i).1)
    }

    fn put(&mut self, f: FileId, c: Content) {
        self.take(f);
        self.files.push((f, c));
    }

    fn perform(&mut self, action: Action) -> Reply {
        match action {
            Action::Ask(f) => Reply::Present(self.get(f).is_some()),
            Action::Remove(f) | Action::Discard(f) => {
                self.take(f);
                Reply::Done
            }
            Action::CopyBackup => match self.backup {
                Some(c) => {
                    self.put(STAGING, c);
                    Reply::Done
                }
                None => Reply::Failed(io("no such file")),
            },
            Action::Open(slot) => {
                let f = FileId::Database(slot, Part::Main);
                match self.get(f) {
                    Some(Content::Data(_)) => {
                        self.put(FileId::Database(slot, Part::Wal), Content::Junk);
                        Reply::Opened(OpenOutcome::Opened)
                    }
                    Some(Content::Legacy(n)) => {
                        self.put(f, Content::Data(n));
                        self.put(FileId::Database(slot, Part::Wal), Content::Junk);
                        Reply::Opened(OpenOutcome::Migrated)
                    }
                    Some(Content::Junk) => Reply::Failed(io("file is not a database")),
                    Some(Content::Empty) | None => {
                        self.put(f, Content::Empty);
                        Reply::Opened(OpenOutcome::Created)
                    }
                }
            }
            Action::CheckStaging => Reply::Done,
            Action::SaveSafety => {
                let live = self.get(BASE).unwrap();
                self.put(SAFETY, live);
                Reply::Done
            }
            Action::WriteMarker => {
                self.put(FileId::Marker, Content::Junk);
                Reply::Done
            }
            Action::Rename(a, b) => {
                let c = self.take(FileId::Database(a, Part::Main)).unwrap();
                self.put(FileId::Database(b, Part::Main), c);
                Reply::Done
            }
            Action::Stop => panic!("over"),
        }
    }

    fn recover(&mut self) -> Result<(), Failure> {
        let mut step = recover_incomplete();
        loop {
            if let RecoverStep::Over(r) = step {
                return r;
            }
            let reply = self.perform(step.action());
            step = step.next(reply);
        }
    }

    /// Restores, stopping after `limit` actions as a crash would.
    fn restore(&mut self, limit: usize) -> Option<Result<(), Failure>> {
        let mut step = restore();
        for _ in 0..limit {
            if let RestoreStep::Over(r) = step {
                return Some(r);
            }
            let reply = self.perform(step.action());
            step = step.next(reply);
        }
        None
    }

    fn sidecars(&self) -> usize {
        self.files
            .iter()
            .filter(|(f, _)| !matches!(f, FileId::Database(Slot::Base, _)))
            .count()
    }
}

#[test]
fn restore_replaces_live_with_backup_content() {
    // The backup holds 3 tallies; 7 more were added to the live database since.
    let mut disk = Disk::new(&[(BASE, Content::Data(10))]);
    disk.backup = Some(Content::Data(3));
    assert_eq!(disk.get(BASE), Some(Content::Data(10)));
    assert!(matches!(disk.restore(1000), Some(Ok(()))));
    assert_eq!(disk.get(BASE), Some(Content::Data(3)));
    assert_eq!(disk.sidecars(), 0);
}

#[test]
fn restore_validation_failure_leaves_live_untouched() {
    let mut disk = Disk::new(&[(BASE, Content::Data(3))]);
    disk.backup = Some(Content::Junk);
    match disk.restore(1000) {
        Some(Err(f)) => assert_eq!(f.message(), "file is not a database"),
        other => panic!("{other:?}"),
    }
    assert_eq!(disk.get(BASE), Some(Content::Data(3)));
    assert_eq!(disk.sidecars(), 0);
}

#[test]
fn restore_from_shipped_v38_fixture_migrates_if_present() {
    let mut disk = Disk::new(&[(BASE, Content::Data(3))]);
    disk.backup = Some(Content::Legacy(38));
    assert!(matches!(disk.restore(1000), Some(Ok(()))));
    // The live database holds the old data, brought up to date.
    assert_eq!(disk.get(BASE), Some(Content::Data(38)));
    assert!(matches!(disk.perform(Action::Open(Slot::Base)), Reply::Opened(OpenOutcome::Opened)));
    assert_eq!(disk.sidecars(), 0);
}

#[test]
fn restore_from_empty_or_unrelated_file_is_rejected_and_live_untouched() {
    let mut disk = Disk::new(&[(BASE, Content::Data(3))]);
    disk.backup = Some(Content::Empty);
    match disk.restore(1000) {
        Some(Err(f)) => {
            assert_eq!(f.message(), "backup file is not a recognizable SimpleTally database")
        }
        other => panic!("{other:?}"),
    }
    assert_eq!(disk.get(BASE), Some(Content::Data(3)));
    assert_eq!(disk.sidecars(), 0);
}

#[test]
fn a_crash_anywhere_loses_neither_database() {
    for limit in 0..60 {
        let mut disk = Disk::new(&[(BASE, Content::Data(1))]);
        disk.backup = Some(Content::Data(10));
        disk.restore(limit);
        assert!(disk.recover().is_ok());
        let live = disk.get(BASE);
        assert!(live == Some(Content::Data(1)) || live == Some(Content::Data(10)), "{limit} {live:?}");
        assert_eq!(disk.sidecars(), 0, "{limit}");
    }
}

#[test]
fn a_restore_over_an_interrupted_one_loses_nothing_either() {
    for first in 0..60 {
        for second in 0..60 {
            let mut disk = Disk::new(&[(BASE, Content::Data(1))]);
            disk.backup = Some(Content::Data(10));
            disk.restore(first);
            disk.backup = Some(Content::Data(20));
            let over = disk.restore(second);
            if matches!(over, Some(Ok(()))) {
                assert_eq!(disk.get(BASE), Some(Content::Data(20)));
            }
            assert!(disk.recover().is_ok());
            let live = disk.get(BASE);
            assert!([1, 10, 20].iter().any(|n| live == Some(Content::Data(*n))), "{first} {second}");
            assert_eq!(disk.sidecars(), 0, "{first} {second}");
        }
    }
}

#[test]
fn a_second_recovery_changes_nothing() {
    for limit in 0..60 {
        let mut disk = Disk::new(&[(BASE, Content::Data(1))]);
        disk.backup = Some(Content::Data(10));
        disk.restore(limit);
        assert!(disk.recover().is_ok());
        let files = disk.files.clone();
        assert!(disk.recover().is_ok());
        assert_eq!(disk.files, files, "{limit}");
    }
}

#[test]
fn recover_no_marker_clears_stale_sidecars() {
    let mut disk =
        Disk::new(&[(BASE, Content::Data(3)), (STAGING, Content::Junk), (SAFETY, Content::Junk)]);
    assert!(disk.recover().is_ok());
    assert_eq!(disk.sidecars(), 0);
    assert_eq!(disk.get(BASE), Some(Content::Data(3)));
}

#[test]
fn recover_finishes_swap_when_base_removed_and_staging_present() {
    let mut disk = Disk::new(&[(STAGING, Content::Data(42)), (FileId::Marker, Content::Junk)]);
    assert!(disk.recover().is_ok());
    assert_eq!(disk.get(BASE), Some(Content::Data(42)));
    assert_eq!(disk.sidecars(), 0);
}

#[test]
fn recover_finishes_swap_when_both_base_and_staging_present() {
    let mut disk = Disk::new(&[
        (BASE, Content::Data(1)),
        (STAGING, Content::Data(99)),
        (FileId::Marker, Content::Junk),
    ]);
    assert!(disk.recover().is_ok());
    assert_eq!(disk.get(BASE), Some(Content::Data(99)));
    assert_eq!(disk.sidecars(), 0);
}

#[test]
fn recover_finalizes_completed_swap() {
    let mut disk = Disk::new(&[
        (BASE, Content::Data(7)),
        (SAFETY, Content::Data(1)),
        (FileId::Marker, Content::Junk),
    ]);
    assert!(disk.recover().is_ok());
    assert_eq!(disk.get(BASE), Some(Content::Data(7)));
    assert_eq!(disk.sidecars(), 0);
}

#[test]
fn a_finished_swap_leaves_no_companions_of_the_old_file() {
    let mut disk = Disk::new(&[
        (BASE, Content::Data(7)),
        (FileId::Database(Slot::Base, Part::Wal), Content::Junk),
        (FileId::Database(Slot::Base, Part::Shm), Content::Junk),
        (FileId::Marker, Content::Junk),
    ]);
    assert!(disk.recover().is_ok());
    assert_eq!(disk.files, vec![(BASE, Content::Data(7))]);
}

#[test]
fn recover_falls_back_to_safety_when_both_gone() {
    let mut disk = Disk::new(&[(SAFETY, Content::Data(5)), (FileId::Marker, Content::Junk)]);
    assert!(disk.recover().is_ok());
    assert_eq!(disk.get(BASE), Some(Content::Data(5)));
    assert_eq!(disk.sidecars(), 0);
}

#[test]
fn files_stand_beside_the_database() {
    let base = path("/d/task_tally.db");
    assert_eq!(text_of(&path_of(&base, BASE)), "/d/task_tally.db");
    assert_eq!(text_of(&path_of(&base, STAGING)), "/d/task_tally.db.restore_staging");
    assert_eq!(text_of(&path_of(&base, SAFETY)), "/d/task_tally.db.restore_safety");
    assert_eq!(text_of(&path_of(&base, FileId::Marker)), "/d/task_tally.db.restore_marker");
    assert_eq!(
        text_of(&path_of(&base, FileId::Database(Slot::Base, Part::Wal))),
        "/d/task_tally.db-wal"
    );
}

// --- opening ---

fn open(disk: &mut Disk, writable: bool) -> Result<OpenOutcome, Failure> {
    let mut step = open_at(true);
    loop {
        let reply = match step.action() {
            OpenAction::CheckDirectory => match ensure_writable("/d", if writable { None } else { Some("denied".to_string()) }) {
                Ok(()) => OpenReply::Writable,
                Err(e) => OpenReply::NotWritable(e),
            },
            OpenAction::Recover(a) => OpenReply::Recovery(disk.perform(a)),
            OpenAction::Open => match disk.perform(Action::Open(Slot::Base)) {
                Reply::Opened(o) => {
                    if disk.get(BASE) == Some(Content::Empty) {
                        disk.put(BASE, Content::Data(0));
                    }
                    OpenReply::Opened(o)
                }
                Reply::Failed(e) => OpenReply::Failed(e),
                other => panic!("{other:?}"),
            },
            OpenAction::Stop => match step {
                OpenStep::Over(r) => return r,
                other => panic!("{other:?}"),
            },
        };
        step = step.next(reply);
    }
}

#[test]
fn exe_dir_and_database_path_resolve() {
    let dir = exe_dir(Some(path("/apps/tally"))).unwrap();
    assert_eq!(text_of(&dir), "/apps/tally");
    let database = text_of(&database_path(&dir, u16::from(b'/')));
    assert!(database.ends_with(DB_FILENAME));
    assert_eq!(database, "/apps/tally/task_tally.db");
    let settings = text_of(&settings_path(&dir, u16::from(b'/')));
    assert!(settings.ends_with(SETTINGS_FILENAME));
    assert_eq!(settings, "/apps/tally/settings.toml");
}

#[test]
fn paths_are_joined_with_one_separator() {
    let backslash = u16::from(b'\\');
    let joined = |dir: &str| text_of(&database_path(&path(dir), backslash));
    assert_eq!(joined("C:\\Tally"), "C:\\Tally\\task_tally.db");
    assert_eq!(joined("C:\\"), "C:\\task_tally.db");
    assert_eq!(joined("C:/"), "C:/task_tally.db");
    assert_eq!(joined(""), "task_tally.db");
}

#[test]
fn an_executable_without_a_directory_is_an_error() {
    let e = exe_dir(None).unwrap_err();
    assert_eq!(e.kind, ErrorKind::Invalid);
    assert_eq!(e.message, "executable path has no parent directory");
}

#[test]
fn ensure_writable_ok_on_temp_dir() {
    ensure_writable("/tmp/x", None).unwrap();
}

#[test]
fn ensure_writable_errors_on_missing_dir() {
    let e = ensure_writable("/d/does-not-exist", Some("No such file or directory".to_string())).unwrap_err();
    assert_eq!(e.kind, ErrorKind::Invalid);
    assert_eq!(
        e.message,
        "database directory is not writable: /d/does-not-exist (No such file or directory)"
    );
}

#[test]
fn open_at_creates_then_reopens() {
    let mut disk = Disk::new(&[]);
    assert!(matches!(open(&mut disk, true), Ok(OpenOutcome::Created)));
    disk.put(BASE, Content::Data(1));
    assert!(matches!(open(&mut disk, true), Ok(OpenOutcome::Opened)));
    assert_eq!(disk.get(BASE), Some(Content::Data(1)));
}

#[test]
fn open_at_finishes_interrupted_swap_first() {
    let mut disk = Disk::new(&[(STAGING, Content::Data(42)), (FileId::Marker, Content::Junk)]);
    assert!(matches!(open(&mut disk, true), Ok(OpenOutcome::Opened)));
    assert_eq!(disk.get(BASE), Some(Content::Data(42)));
    assert_eq!(disk.get(FileId::Marker), None);
    assert_eq!(disk.get(STAGING), None);
}

#[test]
fn an_unwritable_directory_opens_nothing() {
    let mut disk = Disk::new(&[(BASE, Content::Data(1)), (STAGING, Content::Junk)]);
    assert!(open(&mut disk, false).is_err());
    assert_eq!(disk.get(STAGING), Some(Content::Junk));
}

// --- discovery ---

fn probe(p: &str) -> Probe {
    Probe { path: path(p), spelled: path(p), canonical: Some(path(p)) }
}

fn listed(paths: &[FilePath]) -> Vec<String> {
    paths.iter().map(text_of).collect()
}

#[test]
fn no_files_anywhere_finds_nothing() {
    let r = discover(None, &[None]);
    assert!(r.beside_exe.is_none());
    assert!(r.other_candidates.is_empty());
}

#[test]
fn db_beside_exe_is_found() {
    let r = discover(Some(probe("/exe/task_tally.db")), &[]);
    assert_eq!(r.beside_exe.as_ref().map(text_of).as_deref(), Some("/exe/task_tally.db"));
    assert!(r.other_candidates.is_empty());
}

#[test]
fn db_only_in_extra_dir_is_a_candidate_not_beside_exe() {
    let r = discover(None, &[Some(probe("/extra/task_tally.db"))]);
    assert!(r.beside_exe.is_none());
    assert_eq!(listed(&r.other_candidates), vec!["/extra/task_tally.db"]);
}

#[test]
fn multiple_candidates_across_extra_dirs_are_all_listed() {
    let r = discover(None, &[Some(probe("/a/task_tally.db")), Some(probe("/b/task_tally.db"))]);
    assert!(r.beside_exe.is_none());
    assert_eq!(listed(&r.other_candidates), vec!["/a/task_tally.db", "/b/task_tally.db"]);
}

#[test]
fn beside_exe_path_not_duplicated_when_exe_dir_also_passed_as_extra() {
    let r = discover(Some(probe("/exe/task_tally.db")), &[Some(probe("/exe/task_tally.db"))]);
    assert_eq!(r.beside_exe.as_ref().map(text_of).as_deref(), Some("/exe/task_tally.db"));
    assert!(r.other_candidates.is_empty());
}

#[test]
fn missing_dir_is_skipped_without_error() {
    // Nothing beside the program, and one extra directory that does not exist.
    let r = discover(None, &[None]);
    assert!(r.beside_exe.is_none());
    assert!(r.other_candidates.is_empty());
}

#[test]
fn a_missing_dir_between_others_is_skipped() {
    let r = discover(None, &[None, Some(probe("/b/task_tally.db")), None]);
    assert_eq!(listed(&r.other_candidates), vec!["/b/task_tally.db"]);
}

#[test]
fn a_file_reached_twice_is_listed_once() {
    let mut again = probe("/a/task_tally.db");
    again.path = path("/link/task_tally.db");
    let r = discover(None, &[Some(probe("/a/task_tally.db")), Some(again)]);
    assert_eq!(listed(&r.other_candidates), vec!["/a/task_tally.db"]);
}

// --- importing ---

#[derive(Default)]
struct Db {
    categories: Vec<(i64, String)>,
    types: Vec<(i64, i64, String, bool)>,
}

impl Db {
    fn answer(&mut self, request: Request) -> ImportReply {
        match request {
            Request::ListCategories => ImportReply::Categories(
                self.categories
                    .iter()
                    .map(|(id, name)| KnownCategory { id: *id, name: name.clone() })
                    .collect(),
            ),
            Request::CreateCategory { name } => {
                let id = self.categories.len() as i64 + 1;
                self.categories.push((id, name));
                ImportReply::Created(id)
            }
            Request::CreateType { category_id, name, .. } => {
                if self.types.iter().any(|t| t.1 == category_id && t.2 == name) {
                    return ImportReply::Failed(DbError {
                        kind: ErrorKind::Duplicate,
                        message: "duplicate".to_string(),
                    });
                }
                let id = self.types.len() as i64 + 1;
                self.types.push((id, category_id, name, true));
                ImportReply::Created(id)
            }
            Request::Deactivate { id, .. } => {
                for t in self.types.iter_mut().filter(|t| t.0 == id) {
                    t.3 = false;
                }
                ImportReply::Done
            }
            Request::Stop => panic!("over"),
        }
    }

    fn import(&mut self, rows: Vec<TaskTypeImportRow>) -> CombinedReport {
        let mut import = import_rows(rows);
        loop {
            match import.request() {
                Request::Stop => break,
                request => {
                    let reply = self.answer(request);
                    import.accept(reply);
                }
            }
        }
        let parsed = ImportReport { skipped_duplicate: 4, skipped_malformed: 2, encoding: "utf-8".to_string() };
        import.report(&parsed).unwrap()
    }
}

fn row(category: &str, name: &str, description: &str, is_active: bool) -> TaskTypeImportRow {
    TaskTypeImportRow {
        category: category.to_string(),
        name: name.to_string(),
        description: description.to_string(),
        is_active,
    }
}

#[test]
fn clean_import_creates_category_and_type() {
    let mut db = Db::default();
    let report = db.import(vec![row("SAKTI", "Rekon", "reconciliation", true)]);
    assert_eq!(report.imported, 1);
    assert_eq!(report.categories_created, 1);
    assert_eq!(report.skipped_existing, 0);
    assert_eq!((report.skipped_in_file, report.skipped_malformed), (4, 2));
    assert_eq!(report.encoding, "utf-8");
    assert_eq!(db.types.len(), 1);
    assert_eq!(db.types[0].2, "Rekon");
}

#[test]
fn row_already_in_db_is_skipped_existing() {
    let mut db = Db::default();
    db.categories.push((1, "SAKTI".to_string()));
    db.types.push((1, 1, "Rekon".to_string(), true));
    let report = db.import(vec![row("SAKTI", "Rekon", "reconciliation", true)]);
    assert_eq!(report.imported, 0);
    assert_eq!(report.skipped_existing, 1);
    assert_eq!(report.categories_created, 0);
    assert_eq!(db.types.len(), 1);
}

#[test]
fn category_is_created_when_missing() {
    let mut db = Db::default();
    let report = db.import(vec![row("DIGIPAY", "Setor", "", true)]);
    assert_eq!(report.categories_created, 1);
    assert_eq!(db.categories.len(), 1);
    assert_eq!(db.categories[0].1, "DIGIPAY");
}

#[test]
fn a_category_is_created_once() {
    let mut db = Db::default();
    let report = db.import(vec![row("DIGIPAY", "Setor", "", true), row("digipay", "Tarik", "", true)]);
    assert_eq!(report.categories_created, 1);
    assert_eq!(db.categories.len(), 1);
    assert_eq!(db.categories[0].1, "DIGIPAY");
}

#[test]
fn category_match_is_case_insensitive_and_does_not_duplicate() {
    let mut db = Db::default();
    db.categories.push((1, "sakti".to_string()));
    let report = db.import(vec![row("SAKTI", "Rekon", "", true)]);
    assert_eq!(report.categories_created, 0);
    assert_eq!(db.categories.len(), 1);
    assert_eq!(report.imported, 1);
}

#[test]
fn category_match_ignores_the_case_of_every_letter() {
    let mut db = Db::default();
    db.categories.push((1, "École".to_string()));
    let report = db.import(vec![row("école", "Rekon", "", true), row("ECOLE", "Rekon", "", true)]);
    assert_eq!(report.categories_created, 1);
    assert_eq!(db.categories[1].1, "ECOLE");
    assert_eq!(report.imported, 2);
    assert_eq!(db.types[0].1, 1);
}

#[test]
fn a_second_import_skips_every_row() {
    let rows = || {
        vec![
            row("SAKTI", "Rekon", "", true),
            row("sakti", "Setor", "", false),
            row("Été", "Tarik", "", true),
        ]
    };
    let mut db = Db::default();
    let first = db.import(rows());
    assert_eq!((first.imported, first.categories_created), (3, 2));
    let (categories, types) = (db.categories.clone(), db.types.clone());
    let second = db.import(rows());
    assert_eq!((second.imported, second.categories_created), (0, 0));
    assert_eq!(second.skipped_existing, 3);
    assert_eq!((db.categories, db.types), (categories, types));
}

#[test]
fn the_report_counts_what_the_database_gained() {
    let mut db = Db::default();
    db.categories.push((1, "SAKTI".to_string()));
    db.types.push((1, 1, "Rekon".to_string(), true));
    let report = db.import(vec![
        row("sakti", "Rekon", "", true),
        row("sakti", "Setor", "", false),
        row("DIGIPAY", "Rekon", "", true),
    ]);
    assert_eq!((report.imported, report.skipped_existing, report.categories_created), (2, 1, 1));
    assert_eq!(db.types.len(), 1 + report.imported);
    assert_eq!(db.categories.len(), 1 + report.categories_created);
}

#[test]
fn inactive_row_creates_an_inactive_type() {
    let mut db = Db::default();
    let report = db.import(vec![row("SAKTI", "Rekon", "", false)]);
    assert_eq!(report.imported, 1);
    assert_eq!(db.types.len(), 1);
    assert!(!db.types[0].3);
}

#[test]
fn a_failure_ends_an_import() {
    let mut import = import_rows(vec![row("SAKTI", "Rekon", "", true)]);
    import.accept(ImportReply::Failed(io("gone")));
    assert!(matches!(import.request(), Request::Stop));
    let parsed = ImportReport { skipped_duplicate: 0, skipped_malformed: 0, encoding: "utf-8".to_string() };
    assert_eq!(import.report(&parsed).unwrap_err().message, "gone");
}

// --- settings ---

fn changed() -> Settings {
    Settings {
        version: CURRENT_VERSION,
        selected_date: Some("2026-09-16".to_string()),
        selected_category: Some(42),
        theme: Theme::Dark,
        range_kind: "custom".to_string(),
        range_anchor: Some("2026-09-01".to_string()),
        custom_range_from: Some("2026-09-01".to_string()),
        custom_range_to: Some("2026-09-16".to_string()),
        active_tab: "insights".to_string(),
        note_field_open: true,
        main_window_geometry: Some(WindowGeometry { x: 10, y: 20, width: 1280, height: 720 }),
        hide_to_tray_notice_dismissed: true,
        close_quits: true,
    }
}

/// The settings file and the temporary file beside it.
#[derive(Default)]
struct SettingsFiles {
    target: Option<Settings>,
    temporary: Option<Settings>,
}

impl SettingsFiles {
    fn save(&mut self, settings: Settings) -> Result<(), DbError> {
        let mut fresh = Some(settings);
        let mut step = save();
        loop {
            match step.action() {
                SaveAction::WriteTemporary => self.temporary = fresh.take(),
                SaveAction::Replace => self.target = self.temporary.take(),
                SaveAction::DiscardTemporary => self.temporary = None,
                SaveAction::Stop => match step {
                    SaveStep::Over(r) => return r,
                    other => panic!("{other:?}"),
                },
            }
            step = step.next(Ok(()));
        }
    }

    fn load(&mut self) -> (Settings, Option<String>) {
        let read = match self.target.take() {
            Some(s) => ReadOutcome::Parsed(s),
            None => ReadOutcome::Unreadable("not found".to_string()),
        };
        load(read, "settings.toml")
    }
}

#[test]
fn round_trip_save_then_load() {
    let mut files = SettingsFiles::default();
    files.save(changed()).expect("save should succeed");
    let (loaded, warning) = files.load();
    assert!(loaded.same_as(&changed()));
    assert!(!loaded.same_as(&Settings::default()));
    assert_eq!(warning, None);
}

#[test]
fn missing_file_returns_defaults_without_panicking() {
    let (loaded, warning) = load(ReadOutcome::Unreadable("not found".to_string()), "/d/settings.toml");
    assert!(loaded.same_as(&Settings::default()));
    assert_eq!(
        warning.as_deref(),
        Some("warning: could not read settings file /d/settings.toml: not found; using defaults")
    );
}

#[test]
fn corrupt_file_returns_defaults_not_an_error() {
    let (loaded, warning) = load(ReadOutcome::Unparseable("expected =".to_string()), "/d/settings.toml");
    assert!(loaded.same_as(&Settings::default()));
    assert!(warning.unwrap().contains("expected ="));
}

#[test]
fn partial_toml_defaults_missing_fields() {
    // `version = 1`, `active_tab = "types"` and `note_field_open = true` are all the file has.
    let parsed = Settings {
        version: 1,
        active_tab: "types".to_string(),
        note_field_open: true,
        ..Settings::default()
    };
    let (loaded, warning) = load(ReadOutcome::Parsed(parsed), "settings.toml");
    assert_eq!(warning, None);
    assert_eq!(loaded.version, 1);
    assert_eq!(loaded.active_tab, "types");
    assert!(loaded.note_field_open);
    assert_eq!(loaded.selected_date, None);
    assert_eq!(loaded.selected_category, None);
    assert_eq!(loaded.theme, Theme::System);
    assert_eq!(loaded.range_kind, "week");
    assert_eq!(loaded.main_window_geometry, None);
}

#[test]
fn default_settings_are_those_of_a_first_launch() {
    let s = Settings::default();
    assert_eq!(s.version, 1);
    assert_eq!(s.selected_date, None);
    assert_eq!(s.selected_category, None);
    assert_eq!(s.theme, Theme::System);
    assert_eq!(s.range_kind, "week");
    assert_eq!(s.active_tab, "today");
    assert_eq!(s.main_window_geometry, None);
    assert!(!s.close_quits && !s.note_field_open && !s.hide_to_tray_notice_dismissed);
}

#[test]
fn version_field_round_trips() {
    let mut s = Settings::default();
    s.version = 7;
    let mut files = SettingsFiles::default();
    files.save(s).expect("save should succeed");
    let (loaded, _) = files.load();
    assert_eq!(loaded.version, 7);
}

#[test]
fn atomic_save_leaves_no_leftover_tmp_file() {
    let mut files = SettingsFiles::default();
    files.save(Settings::default()).expect("save should succeed");
    assert!(files.target.is_some());
    assert!(files.temporary.is_none());
    assert_eq!(text_of(&tmp_path_for(&path("/d/settings.toml"))), "/d/settings.toml.tmp");
    let step = save();
    assert_eq!(step.action(), SaveAction::WriteTemporary);
    let step = step.next(Ok(()));
    assert_eq!(step.action(), SaveAction::Replace);
    let step = step.next(Ok(()));
    assert!(matches!(step, SaveStep::Over(Ok(()))));
    let step = save().next(Err(io("disk full")));
    assert_eq!(step.action(), SaveAction::DiscardTemporary);
    match step.next(Ok(())) {
        SaveStep::Over(Err(e)) => assert_eq!(e.message, "disk full"),
        other => panic!("{other:?}"),
    }
}
