//! Containment on the file system: which paths may be used, how a working
//! directory is found below the authorized folders, and how a file is
//! published atomically.
//!
//! The kernel resolves every path below a pinned directory, without symbolic
//! links. What is decided here is what the kernel is asked for, and what its
//! answers mean. The system calls are the caller's.

use vstd::prelude::*;

use crate::error::{Fault, IoFailure, VaultError};
use crate::paths;
use crate::text;

pub mod laws;
pub mod publish;

verus! {

pub const RESOLVE_NO_MAGICLINKS: u64 = 0x02;

pub const RESOLVE_NO_SYMLINKS: u64 = 0x04;

pub const RESOLVE_BENEATH: u64 = 0x08;

/// Every resolution stays below its directory and follows no link.
pub const RESOLVE_FLAGS: u64 = RESOLVE_BENEATH | RESOLVE_NO_SYMLINKS | RESOLVE_NO_MAGICLINKS;

pub const O_CLOEXEC: i32 = 0o2000000;

pub const O_DIRECTORY: i32 = 0o200000;

pub const O_CREAT: i32 = 0o100;

pub const O_EXCL: i32 = 0o200;

pub const O_WRONLY: i32 = 1;

pub const O_RDONLY: i32 = 0;

/// How a directory is opened.
pub const OPEN_DIRECTORY: i32 = O_RDONLY | O_DIRECTORY | O_CLOEXEC;

/// How a temporary file is created.
pub const OPEN_TEMP: i32 = O_WRONLY | O_CREAT | O_EXCL | O_CLOEXEC;

/// The permissions of a temporary file.
pub const TEMP_MODE: u32 = 0o600;

/// Linux error numbers.
pub const EIO: i32 = 5;

pub const ENOMEM: i32 = 12;

pub const EEXIST: i32 = 17;

pub const ENFILE: i32 = 23;

pub const EMFILE: i32 = 24;

pub const ENOSYS: i32 = 38;

// --------------------------------------------------------------------- errors
/// What a failed system call becomes. A kernel that cannot resolve paths below
/// a directory is refused altogether.
pub open spec fn system_fault(os_code: Option<i32>, why: Seq<char>) -> Fault {
    if os_code == Some(ENOSYS) {
        Fault::Protocol(
            "kernel lacks openat2 support; refusing filesystem writes (fail closed)"@,
        )
    } else {
        Fault::Io { os_code, text: why }
    }
}

/// What a failed system call becomes; the error number is kept.
pub fn last_os_error(e: IoFailure) -> (r: VaultError)
    ensures
        r@ == system_fault(e.os_code, e.text@),
{
    match e.os_code {
        Some(c) => {
            if c == ENOSYS {
                return VaultError::Protocol(
                    "kernel lacks openat2 support; refusing filesystem writes (fail closed)".to_string(),
                );
            }
        },
        None => {},
    }
    VaultError::Io(e)
}

/// Whether an error says that the machine failed rather than that a path was
/// refused.
pub open spec fn is_operational(e: Fault) -> bool {
    match e {
        Fault::Protocol(_) => true,
        Fault::Io { os_code, .. } => os_code == Some(EMFILE) || os_code == Some(ENFILE) || os_code
            == Some(ENOMEM) || os_code == Some(EIO),
        _ => false,
    }
}

/// Whether an error must never be reported as a refused path.
pub fn is_operational_error(e: &VaultError) -> (r: bool)
    ensures
        r == is_operational(e@),
{
    match e {
        VaultError::Protocol(_) => true,
        VaultError::Io(io) => match io.os_code {
            Some(c) => c == EMFILE || c == ENFILE || c == ENOMEM || c == EIO,
            None => false,
        },
        _ => false,
    }
}

// ----------------------------------------------------------------------- NULs
pub open spec fn has_nul(b: Seq<u8>) -> bool {
    b.contains(0u8)
}

fn contains_nul(b: &[u8]) -> (r: bool)
    ensures
        r == has_nul(b@),
{
    let mut i: usize = 0;
    while i < b.len()
        invariant
            i <= b@.len(),
            forall|k: int| 0 <= k < i ==> b@[k] != 0,
        decreases b@.len() - i,
    {
        if b[i] == 0 {
            assert(b@[i as int] == 0u8);
            return true;
        }
        i = i + 1;
    }
    false
}

/// Checks that a path can be handed to the kernel.
pub fn kernel_path(path: &[u8]) -> (r: Result<(), VaultError>)
    ensures
        match r {
            Ok(_) => !has_nul(path@),
            Err(e) => has_nul(path@) && e@ == Fault::InvalidInput("path contains NUL"@),
        },
{
    if contains_nul(path) {
        Err(VaultError::InvalidInput("path contains NUL"))
    } else {
        Ok(())
    }
}

// --------------------------------------------------------------- destinations
pub open spec fn is_absolute(p: Seq<u8>) -> bool {
    p.len() > 0 && p[0] == paths::SLASH
}

fn absolute(p: &[u8]) -> (r: bool)
    ensures
        r == is_absolute(p@),
{
    p.len() > 0 && p[0] == paths::SLASH
}

/// What is wrong with a relative destination: it must be short enough, free of
/// NUL, relative, and made of proper names only.
pub open spec fn relative_fault(p: Seq<u8>, max_len: nat) -> Option<Fault> {
    if p.len() == 0 || p.len() > max_len {
        Some(Fault::InvalidInput("invalid destination path length"@))
    } else if has_nul(p) {
        Some(Fault::InvalidInput("path contains NUL"@))
    } else if is_absolute(p) {
        Some(Fault::InvalidInput("destination must be a relative path"@))
    } else if !paths::is_plain(p) {
        Some(
            Fault::InvalidInput(
                "destination must be relative with no '..' or '.' components"@,
            ),
        )
    } else {
        None
    }
}

/// Checks a relative destination: no absolute path, no `..`, `.` or empty
/// component, at most `max_len` bytes, no NUL.
pub fn validate_relative(relative: &str, max_len: usize) -> (r: Result<(), VaultError>)
    ensures
        match r {
            Ok(_) => relative_fault(text::utf8(relative@), max_len as nat) is None,
            Err(e) => relative_fault(text::utf8(relative@), max_len as nat) == Some(e@),
        },
{
    let b = relative.as_bytes();
    if b.len() == 0 || b.len() > max_len {
        return Err(VaultError::InvalidInput("invalid destination path length"));
    }
    if contains_nul(b) {
        return Err(VaultError::InvalidInput("path contains NUL"));
    }
    if absolute(b) {
        return Err(VaultError::InvalidInput("destination must be a relative path"));
    }
    if !paths::plain(b) {
        return Err(
            VaultError::InvalidInput(
                "destination must be relative with no '..' or '.' components",
            ),
        );
    }
    Ok(())
}

/// A destination: the directory to resolve below the folder, or the folder
/// itself, the name in it, and the path to show.
#[derive(Debug, PartialEq)]
pub struct Destination {
    pub parent: Option<Vec<u8>>,
    pub file_name: Vec<u8>,
    pub display_path: Vec<u8>,
}

/// The directory part of a relative path.
pub open spec fn parent_of(p: Seq<u8>) -> Option<Seq<u8>> {
    let n = paths::last_start(p);
    if n == 0 {
        None
    } else {
        Some(p.take(n - 1))
    }
}

/// The last component of a path.
pub open spec fn name_of(p: Seq<u8>) -> Seq<u8> {
    p.skip(paths::last_start(p) as int)
}

/// Splits a destination into the directory to resolve and the name in it.
pub fn resolve_target(relative: &str, folder: &[u8], max_len: usize) -> (r: Result<
    Destination,
    VaultError,
>)
    ensures
        match r {
            Ok(d) => {
                let p = text::utf8(relative@);
                &&& relative_fault(p, max_len as nat) is None
                &&& match d.parent {
                    Some(v) => parent_of(p) == Some(v@),
                    None => parent_of(p) is None,
                }
                &&& d.file_name@ == name_of(p)
                &&& d.display_path@ == paths::pushed(folder@, p)
            },
            Err(e) => relative_fault(text::utf8(relative@), max_len as nat) == Some(e@),
        },
{
    match validate_relative(relative, max_len) {
        Ok(_) => {},
        Err(e) => {
            return Err(e);
        },
    }
    let b = relative.as_bytes();
    let n: usize = paths::start_of_last(b, b.len());
    proof {
        assert(b@.take(b@.len() as int) =~= b@);
    }
    let parent = if n == 0 {
        None
    } else {
        let dir = vstd::slice::slice_subrange(b, 0, n - 1);
        assert(dir@ =~= b@.take(n - 1));
        Some(vstd::slice::slice_to_vec(dir))
    };
    let name = vstd::slice::slice_subrange(b, n, b.len());
    assert(name@ =~= b@.skip(n as int));
    Ok(
        Destination {
            parent,
            file_name: vstd::slice::slice_to_vec(name),
            display_path: paths::join(folder, b),
        },
    )
}

/// The last component is what stands behind the last separator.
proof fn lemma_last_component(p: Seq<u8>)
    ensures
        paths::components(p).len() > 0,
        paths::components(p).last() == name_of(p),
        paths::last_start(p) <= p.len(),
    decreases p.len(),
{
    if p.len() == 0 {
        assert(name_of(p) =~= Seq::<u8>::empty());
    } else {
        lemma_last_component(p.drop_last());
        if p.last() == paths::SLASH {
            assert(name_of(p) =~= Seq::<u8>::empty());
        } else {
            assert(name_of(p) =~= name_of(p.drop_last()).push(p.last()));
        }
    }
}

/// A checked destination ends in a proper file name.
pub proof fn law_destinations_end_in_a_name(p: Seq<u8>, max_len: nat)
    requires
        relative_fault(p, max_len) is None,
    ensures
        name_of(p).len() > 0,
        !paths::is_dot(name_of(p)),
        !paths::is_dot_dot(name_of(p)),
        !has_nul(name_of(p)),
{
    lemma_last_component(p);
    let c = paths::components(p);
    assert(!paths::is_dot(c[c.len() - 1]));
    let n = name_of(p);
    assert forall|i: int| 0 <= i < n.len() implies n[i] != 0u8 by {
        assert(n[i] == p[paths::last_start(p) + i]);
        assert(p.contains(p[paths::last_start(p) + i]));
    }
}

/// A checked destination never climbs out of its folder.
pub proof fn law_destinations_never_climb(p: Seq<u8>, max_len: nat)
    requires
        relative_fault(p, max_len) is None,
    ensures
        !is_absolute(p),
        !paths::climbs(p),
{
    let c = paths::components(p);
    assert forall|i: int| 0 <= i < c.len() implies !paths::is_dot_dot(#[trigger] c[i]) by {
        assert(!paths::is_dot(c[i]));
    }
}

// -------------------------------------------------------------------- folders
/// What is opened below the root directory for an authorized folder.
pub open spec fn folder_below_root(folder: Seq<u8>) -> Result<Seq<u8>, Fault> {
    if !is_absolute(folder) {
        Err(Fault::InvalidInput("authorized folder must be an absolute path"@))
    } else {
        let below = paths::trimmed(paths::skip_front(folder));
        if !vstd::utf8::valid_utf8(below) {
            Err(Fault::InvalidInput("authorized folder must be valid UTF-8"@))
        } else if is_absolute(below) || !paths::is_plain(below) {
            Err(
                Fault::InvalidInput(
                    "authorized folder is not a plain relative descendant path"@,
                ),
            )
        } else {
            Ok(below)
        }
    }
}

/// The path to open below the root directory for an authorized folder: it must
/// be made of proper names only.
pub fn open_containment_root(folder: &[u8]) -> (r: Result<Vec<u8>, VaultError>)
    ensures
        match r {
            Ok(v) => folder_below_root(folder@) == Ok::<Seq<u8>, Fault>(v@),
            Err(e) => folder_below_root(folder@) == Err::<Seq<u8>, Fault>(e@),
        },
{
    if !absolute(folder) {
        return Err(VaultError::InvalidInput("authorized folder must be an absolute path"));
    }
    let root: [u8; 1] = [47u8; 1];
    let below = paths::strip_prefix(folder, root.as_slice());
    proof {
        assert(root@ =~= seq![paths::SLASH]);
        assert(paths::skip_front(root@) =~= Seq::<u8>::empty()) by {
            assert(root@.skip(1) =~= Seq::<u8>::empty());
            reveal_with_fuel(paths::skip_front, 2);
        }
    }
    let below = match below {
        Some(v) => v,
        None => {
            return Err(VaultError::InvalidInput("authorized folder must be absolute"));
        },
    };
    match text::utf8_text(vstd::slice::slice_to_vec(below.as_slice())) {
        Some(_) => {},
        None => {
            return Err(VaultError::InvalidInput("authorized folder must be valid UTF-8"));
        },
    }
    if absolute(below.as_slice()) || !paths::plain(below.as_slice()) {
        return Err(
            VaultError::InvalidInput(
                "authorized folder is not a plain relative descendant path",
            ),
        );
    }
    Ok(below)
}

// ---------------------------------------------------------- working directory
/// What is wrong with a working directory before any folder is tried.
pub open spec fn cwd_fault(cwd: Seq<u8>, max_len: nat) -> Option<Fault> {
    if !is_absolute(cwd) {
        Some(Fault::PathNotAuthorized)
    } else if cwd.len() > max_len {
        Some(Fault::InvalidInput("cwd path too long"@))
    } else if !vstd::utf8::valid_utf8(cwd) {
        Some(Fault::InvalidInput("cwd must be valid UTF-8"@))
    } else if has_nul(cwd) {
        Some(Fault::InvalidInput("path contains NUL"@))
    } else if paths::climbs(cwd) {
        Some(Fault::PathNotAuthorized)
    } else {
        None
    }
}

fn check_cwd(cwd: &[u8], max_len: usize) -> (r: Result<(), VaultError>)
    ensures
        match r {
            Ok(_) => cwd_fault(cwd@, max_len as nat) is None,
            Err(e) => cwd_fault(cwd@, max_len as nat) == Some(e@),
        },
{
    if !absolute(cwd) {
        return Err(VaultError::PathNotAuthorized);
    }
    if cwd.len() > max_len {
        return Err(VaultError::InvalidInput("cwd path too long"));
    }
    match text::utf8_text(vstd::slice::slice_to_vec(cwd)) {
        Some(_) => {},
        None => {
            return Err(VaultError::InvalidInput("cwd must be valid UTF-8"));
        },
    }
    if contains_nul(cwd) {
        return Err(VaultError::InvalidInput("path contains NUL"));
    }
    if paths::has_parent_component(cwd) {
        return Err(VaultError::PathNotAuthorized);
    }
    Ok(())
}

/// Where the search for a working directory stands.
#[derive(Clone, Copy, Debug, PartialEq, Eq, Structural)]
pub enum CwdStage {
    /// A folder is being opened.
    Folder,
    /// The directory below it is being opened.
    Beneath,
    Over,
}

/// What came of opening something.
pub enum Opened<E> {
    Done,
    Failed(E),
}

/// What is to be done next.
pub enum CwdAct<B, E> {
    /// Open this authorized folder.
    OpenFolder(B),
    /// Open this path below the folder.
    OpenBeneath(B),
    /// The opened folder is the working directory.
    UseFolder,
    /// The opened directory is the working directory.
    UseBeneath,
    Refuse(E),
}

/// The search for a working directory below the authorized folders.
pub struct CwdSearch {
    cwd: Vec<u8>,
    roots: Vec<Vec<u8>>,
    at: usize,
    relative: Vec<u8>,
    stage: CwdStage,
}

/// The mathematical value of a [`CwdSearch`].
pub struct CwdV {
    pub cwd: Seq<u8>,
    pub roots: Seq<Seq<u8>>,
    pub at: nat,
    pub relative: Seq<u8>,
    pub stage: CwdStage,
}

impl View for CwdSearch {
    type V = CwdV;

    closed spec fn view(&self) -> CwdV {
        CwdV {
            cwd: self.cwd@,
            roots: paths::part_values(self.roots@),
            at: self.at as nat,
            relative: self.relative@,
            stage: self.stage,
        }
    }
}

pub type CwdActV = CwdAct<Seq<u8>, Fault>;

pub open spec fn cwd_act_value(a: CwdAct<Vec<u8>, VaultError>) -> CwdActV {
    match a {
        CwdAct::OpenFolder(v) => CwdAct::OpenFolder(v@),
        CwdAct::OpenBeneath(v) => CwdAct::OpenBeneath(v@),
        CwdAct::UseFolder => CwdAct::UseFolder,
        CwdAct::UseBeneath => CwdAct::UseBeneath,
        CwdAct::Refuse(e) => CwdAct::Refuse(e@),
    }
}

pub open spec fn opened_value(o: Opened<VaultError>) -> Opened<Fault> {
    match o {
        Opened::Done => Opened::Done,
        Opened::Failed(e) => Opened::Failed(e@),
    }
}

/// The path of a directory below a folder, if it lies there lexically.
pub open spec fn below(cwd: Seq<u8>, root: Seq<u8>) -> Option<Seq<u8>> {
    if is_absolute(root) {
        paths::stripped(cwd, root)
    } else {
        None
    }
}

/// Tries the folders from `from` on: the first one that the directory lies
/// below is opened.
pub open spec fn tried(v: CwdV, from: nat) -> (CwdV, CwdActV)
    decreases v.roots.len() - from,
{
    if from >= v.roots.len() {
        (CwdV { stage: CwdStage::Over, ..v }, CwdAct::Refuse(Fault::PathNotAuthorized))
    } else {
        match below(v.cwd, v.roots[from as int]) {
            Some(relative) => (
                CwdV { at: from, relative, stage: CwdStage::Folder, ..v },
                CwdAct::OpenFolder(v.roots[from as int]),
            ),
            None => tried(v, from + 1),
        }
    }
}

/// What follows what came of opening something. Only a refused path leads to
/// the next folder; a failure of the machine ends the search as itself.
pub open spec fn searched(v: CwdV, o: Opened<Fault>) -> (CwdV, CwdActV) {
    match (v.stage, o) {
        (CwdStage::Folder, Opened::Done) => if v.relative.len() == 0 {
            (CwdV { stage: CwdStage::Over, ..v }, CwdAct::UseFolder)
        } else {
            (CwdV { stage: CwdStage::Beneath, ..v }, CwdAct::OpenBeneath(v.relative))
        },
        (CwdStage::Beneath, Opened::Done) => (
            CwdV { stage: CwdStage::Over, ..v },
            CwdAct::UseBeneath,
        ),
        (_, Opened::Failed(e)) => if is_operational(e) {
            (CwdV { stage: CwdStage::Over, ..v }, CwdAct::Refuse(e))
        } else {
            tried(v, v.at + 1)
        },
        (CwdStage::Over, Opened::Done) => (v, CwdAct::Refuse(Fault::PathNotAuthorized)),
    }
}

impl CwdSearch {
    fn try_from_root(&mut self, from: usize) -> (r: CwdAct<Vec<u8>, VaultError>)
        requires
            from <= old(self)@.roots.len(),
        ensures
            (final(self)@, cwd_act_value(r)) == tried(old(self)@, from as nat),
    {
        let mut i: usize = from;
        while i < self.roots.len()
            invariant
                *self == *old(self),
                from <= i <= self.roots@.len(),
                tried(old(self)@, from as nat) == tried(self@, i as nat),
            decreases self.roots@.len() - i,
        {
            assert(self@.roots[i as int] == self.roots@[i as int]@);
            if absolute(self.roots[i].as_slice()) {
                match paths::strip_prefix(self.cwd.as_slice(), self.roots[i].as_slice()) {
                    Some(relative) => {
                        let folder = vstd::slice::slice_to_vec(self.roots[i].as_slice());
                        self.at = i;
                        self.relative = relative;
                        self.stage = CwdStage::Folder;
                        return CwdAct::OpenFolder(folder);
                    },
                    None => {},
                }
            }
            i = i + 1;
        }
        self.stage = CwdStage::Over;
        CwdAct::Refuse(VaultError::PathNotAuthorized)
    }

    /// Starts the search for a working directory.
    pub fn open_authorized_cwd(cwd: Vec<u8>, roots: Vec<Vec<u8>>, max_len: usize) -> (r: (
        CwdSearch,
        CwdAct<Vec<u8>, VaultError>,
    ))
        ensures
            ({
                let start = CwdV {
                    cwd: cwd@,
                    roots: paths::part_values(roots@),
                    at: 0,
                    relative: Seq::empty(),
                    stage: CwdStage::Over,
                };
                match cwd_fault(cwd@, max_len as nat) {
                    Some(e) => r.0@ == start && cwd_act_value(r.1) == CwdActV::Refuse(e),
                    None => (r.0@, cwd_act_value(r.1)) == tried(start, 0),
                }
            }),
            search_wf(r.0@),
            r.0@.stage != CwdStage::Over ==> r.0@.at < r.0@.roots.len(),
    {
        let checked = check_cwd(cwd.as_slice(), max_len);
        let mut search = CwdSearch {
            cwd,
            roots,
            at: 0,
            relative: Vec::new(),
            stage: CwdStage::Over,
        };
        proof {
            assert(search@.relative =~= Seq::<u8>::empty());
        }
        match checked {
            Ok(_) => {
                proof {
                    lemma_tried_in_range(search@, 0);
                }
                let act = search.try_from_root(0);
                (search, act)
            },
            Err(e) => (search, CwdAct::Refuse(e)),
        }
    }

    /// Where the search stands.
    pub fn stage(&self) -> (r: CwdStage)
        ensures
            r == self@.stage,
    {
        self.stage
    }

    /// Takes what came of opening something and gives the next action.
    pub fn step(&mut self, o: Opened<VaultError>) -> (r: CwdAct<Vec<u8>, VaultError>)
        requires
            old(self)@.stage != CwdStage::Over,
            old(self)@.at < old(self)@.roots.len(),
        ensures
            (final(self)@, cwd_act_value(r)) == searched(old(self)@, opened_value(o)),
            final(self)@.stage != CwdStage::Over ==> final(self)@.at < final(self)@.roots.len(),
    {
        match o {
            Opened::Failed(e) => {
                if is_operational_error(&e) {
                    self.stage = CwdStage::Over;
                    return CwdAct::Refuse(e);
                }
                assert(self.at < self.roots.len());
                let next: usize = self.at + 1;
                proof {
                    lemma_tried_in_range(self@, next as nat);
                }
                self.try_from_root(next)
            },
            Opened::Done => match self.stage {
                CwdStage::Folder => {
                    if self.relative.len() == 0 {
                        self.stage = CwdStage::Over;
                        CwdAct::UseFolder
                    } else {
                        let relative = vstd::slice::slice_to_vec(self.relative.as_slice());
                        self.stage = CwdStage::Beneath;
                        CwdAct::OpenBeneath(relative)
                    }
                },
                _ => {
                    self.stage = CwdStage::Over;
                    CwdAct::UseBeneath
                },
            },
        }
    }
}

/// A folder that is tried is one of the folders, and the directory lies below
/// it.
proof fn lemma_tried_in_range(v: CwdV, from: nat)
    ensures
        ({
            let (t, a) = tried(v, from);
            &&& t.cwd == v.cwd && t.roots == v.roots
            &&& t.stage == CwdStage::Over || t.stage == CwdStage::Folder
            &&& t.stage == CwdStage::Folder ==> from <= t.at < v.roots.len() && below(
                v.cwd,
                v.roots[t.at as int],
            ) == Some(t.relative) && a == CwdActV::OpenFolder(v.roots[t.at as int])
            &&& t.stage == CwdStage::Over ==> a == CwdActV::Refuse(Fault::PathNotAuthorized)
        }),
    decreases v.roots.len() - from,
{
    if from < v.roots.len() && below(v.cwd, v.roots[from as int]) is None {
        lemma_tried_in_range(v, from + 1);
    }
}

/// Whether a search is where only the rules can have brought it.
pub open spec fn search_wf(v: CwdV) -> bool {
    v.stage != CwdStage::Over ==> v.at < v.roots.len() && below(v.cwd, v.roots[v.at as int])
        == Some(v.relative)
}

/// The search never leaves the authorized folders: whatever is opened, the
/// working directory lies below the folder under trial, and what is used is
/// that folder or the directory below it.
pub proof fn law_working_directories_stay_authorized(v: CwdV, o: Opened<Fault>)
    requires
        search_wf(v),
        v.stage != CwdStage::Over,
    ensures
        search_wf(searched(v, o).0),
        searched(v, o).1 == CwdActV::UseFolder ==> v.stage == CwdStage::Folder && o is Done
            && v.relative.len() == 0,
        searched(v, o).1 == CwdActV::UseBeneath ==> v.stage == CwdStage::Beneath && o is Done,
        searched(v, o).1 matches CwdAct::OpenBeneath(p) ==> below(v.cwd, v.roots[v.at as int])
            == Some(p),
{
    lemma_tried_in_range(v, v.at + 1);
}

/// A failure of the machine is never reported as a refused path.
pub proof fn law_failures_are_not_denials(v: CwdV, e: Fault)
    requires
        v.stage != CwdStage::Over,
        is_operational(e),
    ensures
        searched(v, Opened::Failed(e)).1 == CwdActV::Refuse(e),
{
}

/// A directory below no authorized folder is refused without opening anything.
pub proof fn law_outside_is_refused(v: CwdV)
    requires
        forall|i: int|
            0 <= i < v.roots.len() ==> below(v.cwd, #[trigger] v.roots[i]) is None,
    ensures
        tried(v, 0).1 == CwdActV::Refuse(Fault::PathNotAuthorized),
{
    lemma_none_tried(v, 0);
}

proof fn lemma_none_tried(v: CwdV, from: nat)
    requires
        forall|i: int|
            0 <= i < v.roots.len() ==> below(v.cwd, #[trigger] v.roots[i]) is None,
    ensures
        tried(v, from).1 == CwdActV::Refuse(Fault::PathNotAuthorized),
    decreases v.roots.len() - from,
{
    if from < v.roots.len() {
        lemma_none_tried(v, from + 1);
    }
}

/// What stands for a value stands for all of it: the same variant, with every part.
pub proof fn law_cwd_act_value_is_faithful(a: CwdAct<Vec<u8>, VaultError>)
    ensures
        match (a, cwd_act_value(a)) {
            (CwdAct::OpenFolder(v), CwdAct::OpenFolder(v0)) => v0 == v@,
            (CwdAct::OpenBeneath(v), CwdAct::OpenBeneath(v0)) => v0 == v@,
            (CwdAct::UseFolder, CwdAct::UseFolder) => true,
            (CwdAct::UseBeneath, CwdAct::UseBeneath) => true,
            (CwdAct::Refuse(e), CwdAct::Refuse(v0)) => v0 == e@,
            _ => false,
        },
{
}

/// What stands for a value stands for all of it: the same variant, with every part.
pub proof fn law_opened_value_is_faithful(o: Opened<VaultError>)
    ensures
        match (o, opened_value(o)) {
            (Opened::Done, Opened::Done) => true,
            (Opened::Failed(e), Opened::Failed(v0)) => v0 == e@,
            _ => false,
        },
{
}

} // verus!
