use svault::error::{IoFailure, VaultError};
use svault::fsops::publish::{self, Event, Publication};
use svault::fsops::{
    is_operational_error, last_os_error, open_containment_root, resolve_target, validate_relative,
    CwdAct, CwdSearch, Opened,
};
use svault::transfer::Moved;

const MAX: usize = 4096;

#[test]
fn relative_validation_rejects_traversal_and_absolute() {
    assert!(validate_relative(".env", MAX).is_ok());
    assert!(validate_relative("sub/dir/.env", MAX).is_ok());
    assert!(validate_relative("/etc/passwd", MAX).is_err());
    assert!(validate_relative("../../outside", MAX).is_err());
    assert!(validate_relative("a/../b", MAX).is_err());
    assert!(validate_relative("..", MAX).is_err());
    assert!(validate_relative("./x", MAX).is_err());
    assert!(validate_relative("", MAX).is_err());
    assert!(validate_relative("a\0b", MAX).is_err());
}

#[test]
fn every_refused_destination_has_its_message() {
    let why = |p: &str, max: usize| validate_relative(p, max).err().unwrap().message();
    assert_eq!(why("", MAX), "invalid input: invalid destination path length");
    assert_eq!(why("abcd", 3), "invalid input: invalid destination path length");
    assert_eq!(why("a\0b", MAX), "invalid input: path contains NUL");
    assert_eq!(
        why("/etc/passwd", MAX),
        "invalid input: destination must be a relative path"
    );
    for p in ["a//b", "a/", "a/./b", "..", "x/.."] {
        assert_eq!(
            why(p, MAX),
            "invalid input: destination must be relative with no '..' or '.' components",
            "{p}"
        );
    }
}

#[test]
fn destinations_have_a_parent_and_a_name() {
    let d = resolve_target("sub/dir/.env", b"/srv/app", MAX).unwrap();
    assert_eq!(d.parent, Some(b"sub/dir".to_vec()));
    assert_eq!(d.file_name, b".env");
    assert_eq!(d.display_path, b"/srv/app/sub/dir/.env");
    let d = resolve_target(".env", b"/srv/app", MAX).unwrap();
    assert_eq!(d.parent, None);
    assert!(resolve_target("../x", b"/srv/app", MAX).is_err());
}

#[test]
fn folders_are_opened_from_the_root() {
    assert_eq!(open_containment_root(b"/srv/app").unwrap(), b"srv/app");
    assert!(open_containment_root(b"srv/app").is_err());
}

#[test]
fn kernel_errors_have_their_meaning() {
    let io = |code: i32| IoFailure { os_code: Some(code), text: "x".to_string() };
    for code in [5, 12, 23, 24] {
        assert!(is_operational_error(&last_os_error(io(code))), "{code}");
    }
    assert!(!is_operational_error(&VaultError::PathNotAuthorized));
    assert_eq!(last_os_error(io(17)).raw_os_error(), Some(17));
}

#[test]
fn a_working_directory_is_searched_folder_by_folder() {
    let roots = vec![b"/srv/a".to_vec(), b"/srv".to_vec()];
    let (mut search, act) =
        CwdSearch::open_authorized_cwd(b"/srv/a/b".to_vec(), roots, MAX);
    assert!(matches!(act, CwdAct::OpenFolder(f) if f == b"/srv/a"));
    let act = search.step(Opened::Done);
    assert!(matches!(act, CwdAct::OpenBeneath(p) if p == b"b"));
    let act = search.step(Opened::Failed(VaultError::PathNotAuthorized));
    assert!(matches!(act, CwdAct::OpenFolder(f) if f == b"/srv"));
    let act = search.step(Opened::Done);
    assert!(matches!(act, CwdAct::OpenBeneath(p) if p == b"a/b"));
    let act = search.step(Opened::Done);
    assert!(matches!(act, CwdAct::UseBeneath));
}

#[test]
fn a_working_directory_outside_is_refused() {
    let roots = || vec![b"/srv/a".to_vec()];
    let (_, act) = CwdSearch::open_authorized_cwd(b"/etc".to_vec(), roots(), MAX);
    assert!(matches!(act, CwdAct::Refuse(VaultError::PathNotAuthorized)));
    let (_, act) = CwdSearch::open_authorized_cwd(b"/srv/abc".to_vec(), roots(), MAX);
    assert!(matches!(act, CwdAct::Refuse(VaultError::PathNotAuthorized)));
    let (mut search, act) = CwdSearch::open_authorized_cwd(b"/srv/a".to_vec(), roots(), MAX);
    assert!(matches!(act, CwdAct::OpenFolder(_)));
    assert!(matches!(search.step(Opened::Done), CwdAct::UseFolder));
    let (mut search, _) = CwdSearch::open_authorized_cwd(b"/srv/a".to_vec(), roots(), MAX);
    let broken = VaultError::Io(IoFailure { os_code: Some(5), text: "io".to_string() });
    assert!(matches!(search.step(Opened::Failed(broken)), CwdAct::Refuse(VaultError::Io(_))));
}

type Act = publish::Act<Vec<u8>, VaultError>;

fn feed(p: &mut Publication, events: Vec<Event<String, VaultError>>) -> Act {
    let mut last = Act::Published;
    for e in events {
        assert!(p.accepts(&e));
        last = p.step(e);
    }
    last
}

const REGULAR: u32 = 0o100600;

#[test]
fn a_file_is_published_by_a_rename() {
    let (mut p, act) = Publication::write_file_atomic(b".env".to_vec(), 10);
    assert!(matches!(act, Act::Inspect(n) if n == b".env"));
    let act = feed(&mut p, vec![Event::Mode(None)]);
    assert!(matches!(act, Act::DrawSuffix));
    let temp = match feed(&mut p, vec![Event::Suffix("00ff".to_string())]) {
        Act::Create(t) => t,
        _ => panic!("the temporary file is created"),
    };
    assert_ne!(temp, b".env");
    let act = feed(&mut p, vec![Event::Done, Event::Mode(Some(REGULAR))]);
    assert!(matches!(act, Act::Write { from: 0 }));
    let act = feed(&mut p, vec![Event::Moved(Moved::Bytes(4))]);
    assert!(matches!(act, Act::Write { from: 4 }));
    let act = feed(&mut p, vec![Event::Moved(Moved::Bytes(6))]);
    assert!(matches!(act, Act::Sync));
    match feed(&mut p, vec![Event::Done]) {
        Act::Rename { from, to } => {
            assert_eq!(from, temp);
            assert_eq!(to, b".env");
        }
        _ => panic!("the file is renamed"),
    }
    let act = feed(&mut p, vec![Event::Done]);
    assert!(matches!(act, Act::SyncDir));
    let act = feed(&mut p, vec![Event::Done]);
    assert!(matches!(act, Act::Published));
}

#[test]
fn only_regular_files_are_replaced() {
    let (mut p, _) = Publication::write_file_atomic(b".env".to_vec(), 10);
    let act = feed(&mut p, vec![Event::Mode(Some(0o120777))]);
    assert!(matches!(act, Act::Refuse(VaultError::InvalidInput(_))));
    let (mut p, _) = Publication::write_file_atomic(b".env".to_vec(), 10);
    let act = feed(&mut p, vec![Event::Mode(Some(REGULAR))]);
    assert!(matches!(act, Act::DrawSuffix));
}

#[test]
fn a_failed_write_removes_the_temporary_file() {
    let (mut p, _) = Publication::write_file_atomic(b".env".to_vec(), 10);
    feed(
        &mut p,
        vec![
            Event::Mode(None),
            Event::Suffix("00ff".to_string()),
            Event::Done,
            Event::Mode(Some(REGULAR)),
        ],
    );
    let act = feed(&mut p, vec![Event::Moved(Moved::Failed(VaultError::Busy))]);
    assert!(matches!(act, Act::Unlink(_)));
    let act = feed(&mut p, vec![Event::Done]);
    assert!(matches!(act, Act::Refuse(VaultError::Busy)));
}

#[test]
fn names_that_are_taken_are_drawn_again() {
    let (mut p, _) = Publication::write_file_atomic(b".env".to_vec(), 10);
    feed(&mut p, vec![Event::Mode(None)]);
    for attempt in 0..5 {
        feed(&mut p, vec![Event::Suffix("00ff".to_string())]);
        let taken = VaultError::Io(IoFailure { os_code: Some(17), text: "taken".to_string() });
        let act = feed(&mut p, vec![Event::Failed(taken)]);
        if attempt < 4 {
            assert!(matches!(act, Act::DrawSuffix));
        } else {
            assert!(matches!(act, Act::Refuse(VaultError::Io(_))));
        }
    }
    let suffix = publish::fresh_suffix().unwrap();
    assert_eq!(suffix.len(), 16);
    assert_ne!(suffix, publish::fresh_suffix().unwrap());
}
