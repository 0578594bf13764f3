use file_access::commands::{plan_write, WriteStep};
use file_access::failure::{FailureKind, IoCause, IoFailure, OperationFailure};
use file_access::license::LicenseStatus;
use file_access::listing::DirEntry;
use file_access::{check_license, list_files, read_file, select_directory, write_file};

fn failure(cause: IoCause, reason: &str) -> IoFailure {
    IoFailure { cause, reason: reason.to_string() }
}

fn named(name: &str) -> DirEntry {
    DirEntry::Named(name.to_string())
}

#[test]
fn select_directory_returns_the_chosen_path() {
    let result = select_directory(Some("/home/user/projects".to_string()));
    assert_eq!(result, Ok("/home/user/projects".to_string()));
}

#[test]
fn select_directory_cancelled_is_no_selection() {
    let result = select_directory(None);
    assert_eq!(
        result,
        Err(OperationFailure {
            kind: FailureKind::NoSelection,
            message: "Aucun dossier sélectionné".to_string(),
        })
    );
}

#[test]
fn select_directory_keeps_an_empty_choice() {
    assert_eq!(select_directory(Some(String::new())), Ok(String::new()));
}

#[test]
fn read_file_asks_for_the_given_path() {
    let pending = read_file("notes/today.txt".to_string());
    assert_eq!(pending.path(), "notes/today.txt");
}

#[test]
fn read_file_returns_the_content_as_read() {
    let pending = read_file("a.txt".to_string());
    let result = pending.resolve(Ok("line one\nligne deux: é\n".to_string()));
    assert_eq!(result, Ok("line one\nligne deux: é\n".to_string()));
}

#[test]
fn read_file_returns_empty_content() {
    let result = read_file("empty".to_string()).resolve(Ok(String::new()));
    assert_eq!(result, Ok(String::new()));
}

#[test]
fn read_file_of_missing_file_fails() {
    let pending = read_file("/no/such/file".to_string());
    let result =
        pending.resolve(Err(failure(IoCause::NotFound, "No such file or directory (os error 2)")));
    assert_eq!(
        result,
        Err(OperationFailure {
            kind: FailureKind::NotFound,
            message: "Erreur lecture fichier: No such file or directory (os error 2)".to_string(),
        })
    );
}

#[test]
fn read_file_denied_fails_with_permission_denied() {
    let result = read_file("/root/secret".to_string())
        .resolve(Err(failure(IoCause::PermissionDenied, "Permission denied (os error 13)")));
    let error = result.unwrap_err();
    assert_eq!(error.kind, FailureKind::PermissionDenied);
    assert_eq!(error.message, "Erreur lecture fichier: Permission denied (os error 13)");
}

#[test]
fn list_files_asks_for_the_given_directory() {
    let pending = list_files("/tmp/work".to_string());
    assert_eq!(pending.dir(), "/tmp/work");
}

#[test]
fn list_files_returns_the_three_names() {
    let entries = vec![named("a.txt"), named("b"), named("c.json")];
    let result = list_files("dir".to_string()).resolve(Ok(entries));
    let mut names = result.unwrap();
    assert_eq!(names.len(), 3);
    names.sort();
    assert_eq!(names, vec!["a.txt".to_string(), "b".to_string(), "c.json".to_string()]);
    assert!(!names.contains(&".".to_string()));
    assert!(!names.contains(&"..".to_string()));
    assert!(!names.contains(&"dir".to_string()));
}

#[test]
fn list_files_keeps_the_order_of_the_host() {
    let entries = vec![named("zeta"), named("alpha"), named("mid")];
    let result = list_files("dir".to_string()).resolve(Ok(entries));
    assert_eq!(result, Ok(vec!["zeta".to_string(), "alpha".to_string(), "mid".to_string()]));
}

#[test]
fn list_files_skips_entries_without_a_text_name() {
    let entries = vec![
        DirEntry::NonText,
        named("kept.txt"),
        DirEntry::Unreadable,
        DirEntry::NonText,
        named("also kept"),
        DirEntry::Unreadable,
    ];
    let result = list_files("dir".to_string()).resolve(Ok(entries));
    assert_eq!(result, Ok(vec!["kept.txt".to_string(), "also kept".to_string()]));
}

#[test]
fn list_files_of_empty_directory_is_empty() {
    let result = list_files("dir".to_string()).resolve(Ok(Vec::new()));
    assert_eq!(result, Ok(Vec::new()));
}

#[test]
fn list_files_with_only_nameless_entries_is_empty() {
    let result =
        list_files("dir".to_string()).resolve(Ok(vec![DirEntry::Unreadable, DirEntry::NonText]));
    assert_eq!(result, Ok(Vec::new()));
}

#[test]
fn list_files_keeps_repeated_names() {
    let result = list_files("dir".to_string()).resolve(Ok(vec![named("x"), named("x")]));
    assert_eq!(result, Ok(vec!["x".to_string(), "x".to_string()]));
}

#[test]
fn list_files_of_unopenable_directory_fails() {
    let result = list_files("/no/such/dir".to_string())
        .resolve(Err(failure(IoCause::NotFound, "No such file or directory (os error 2)")));
    assert_eq!(
        result,
        Err(OperationFailure {
            kind: FailureKind::NotFound,
            message: "Erreur lecture dossier: No such file or directory (os error 2)".to_string(),
        })
    );
}

#[test]
fn plan_write_with_parent_creates_it_first() {
    let step = plan_write("d/f.txt".to_string(), "body".to_string(), Some("d".to_string()));
    let dirs = match step {
        WriteStep::CreateDirs(dirs) => dirs,
        WriteStep::Write(_) => panic!("the directory comes first"),
    };
    assert_eq!(dirs.dir(), "d");
    let write = dirs.resolve(Ok(())).unwrap();
    assert_eq!(write.path(), "d/f.txt");
    assert_eq!(write.content(), "body");
    assert_eq!(write.resolve(Ok(())), Ok(()));
}

#[test]
fn plan_write_without_parent_writes_at_once() {
    let step = plan_write("f.txt".to_string(), "body".to_string(), None);
    let write = match step {
        WriteStep::Write(write) => write,
        WriteStep::CreateDirs(_) => panic!("there is no directory to create"),
    };
    assert_eq!(write.path(), "f.txt");
    assert_eq!(write.content(), "body");
}

#[test]
fn write_file_asks_for_the_parent_directory_first() {
    let step = write_file("out/reports/summary.txt".to_string(), "total: 3\n".to_string());
    let dirs = match step {
        WriteStep::CreateDirs(dirs) => dirs,
        WriteStep::Write(_) => panic!("the directory comes first"),
    };
    assert_eq!(dirs.dir(), "out/reports");
    assert_ne!(dirs.dir(), "out/reports/summary.txt");
    let write = dirs.resolve(Ok(())).unwrap();
    assert_eq!(write.path(), "out/reports/summary.txt");
    assert_eq!(write.content(), "total: 3\n");
    assert_eq!(write.resolve(Ok(())), Ok(()));
}

#[test]
fn write_file_parent_is_a_shorter_start_of_the_path() {
    let paths =
        ["out/reports/summary.txt", "/w/a/b/c/f.txt", "a/b/", "./x", "x", "a//b", "été/é.txt"];
    for path in paths {
        match write_file(path.to_string(), String::new()) {
            WriteStep::CreateDirs(dirs) => {
                assert!(dirs.dir().chars().count() < path.chars().count(), "{}", path);
                assert!(path.starts_with(dirs.dir()), "{}", path);
            }
            WriteStep::Write(_) => panic!("{} has a parent", path),
        }
    }
}

#[test]
fn write_file_of_bare_name_creates_the_empty_directory() {
    let step = write_file("summary.txt".to_string(), "x".to_string());
    match step {
        WriteStep::CreateDirs(dirs) => assert_eq!(dirs.dir(), ""),
        WriteStep::Write(_) => panic!("a bare name has the empty parent"),
    }
}

#[test]
fn write_file_of_empty_path_writes_at_once() {
    let step = write_file(String::new(), "x".to_string());
    match step {
        WriteStep::Write(write) => {
            assert_eq!(write.path(), "");
            assert_eq!(write.content(), "x");
        }
        WriteStep::CreateDirs(_) => panic!("the empty path has no parent"),
    }
}

#[test]
fn write_file_of_root_writes_at_once() {
    let step = write_file("/".to_string(), "x".to_string());
    assert!(matches!(step, WriteStep::Write(_)));
}

#[test]
fn write_file_stops_when_the_directory_cannot_be_created() {
    let step = write_file("/proc/nope/f.txt".to_string(), "x".to_string());
    let dirs = match step {
        WriteStep::CreateDirs(dirs) => dirs,
        WriteStep::Write(_) => panic!("the directory comes first"),
    };
    let result = dirs.resolve(Err(failure(IoCause::PermissionDenied, "Permission denied")));
    assert_eq!(
        result.unwrap_err(),
        OperationFailure {
            kind: FailureKind::PermissionDenied,
            message: "Erreur création dossier: Permission denied".to_string(),
        }
    );
}

#[test]
fn write_file_reports_a_failed_write() {
    let step = plan_write("f.txt".to_string(), "x".to_string(), None);
    let write = match step {
        WriteStep::Write(write) => write,
        WriteStep::CreateDirs(_) => panic!("there is no directory to create"),
    };
    let result = write.resolve(Err(failure(IoCause::Other, "No space left on device")));
    assert_eq!(
        result,
        Err(OperationFailure {
            kind: FailureKind::Other,
            message: "Erreur écriture fichier: No space left on device".to_string(),
        })
    );
}

#[test]
fn write_file_keeps_empty_content() {
    let step = plan_write("f.txt".to_string(), String::new(), None);
    match step {
        WriteStep::Write(write) => assert_eq!(write.content(), ""),
        WriteStep::CreateDirs(_) => panic!("there is no directory to create"),
    }
}

#[test]
fn check_license_is_valid_for_ninety_days() {
    assert_eq!(check_license(), Ok(LicenseStatus { valid: true, days_remaining: 90 }));
}

#[test]
fn check_license_is_the_same_after_other_commands() {
    let first = check_license();
    let _ = select_directory(None);
    let _ = read_file("a".to_string()).resolve(Err(failure(IoCause::Other, "x")));
    let _ = write_file("a/b".to_string(), "c".to_string());
    let _ = list_files("a".to_string()).resolve(Ok(vec![named("b")]));
    let second = check_license();
    assert_eq!(first, second);
    assert_eq!(second, Ok(LicenseStatus { valid: true, days_remaining: 90 }));
}
