//! What is accepted as a destination, a folder or a working directory, how a working
//! directory is found, and how a file is published where nothing goes wrong.

use vstd::prelude::*;

use crate::error::Fault;
use crate::fsops::publish::{self, ActV, Event, PublicationV, Stage};
use crate::fsops::{self, CwdActV, CwdStage, CwdV, Opened};
use crate::paths;
use crate::text;
use crate::transfer::Moved;

verus! {

/// A destination is accepted exactly when it is a short enough relative path of plain
/// names without a NUL, and each objection has its own words.
pub proof fn law_plain_destinations_are_accepted(p: Seq<u8>, max_len: nat)
    ensures
        fsops::relative_fault(p, max_len) is None <==> {
            &&& 0 < p.len() <= max_len
            &&& forall|i: int| 0 <= i < p.len() ==> p[i] != 0
            &&& p[0] != 47
            &&& paths::is_plain(p)
        },
        p.len() == 0 || p.len() > max_len ==> fsops::relative_fault(p, max_len) == Some(
            Fault::InvalidInput("invalid destination path length"@),
        ),
        0 < p.len() <= max_len && p.contains(0) ==> fsops::relative_fault(p, max_len) == Some(
            Fault::InvalidInput("path contains NUL"@),
        ),
        0 < p.len() <= max_len && !p.contains(0) && p[0] == 47 ==> fsops::relative_fault(p, max_len)
            == Some(Fault::InvalidInput("destination must be a relative path"@)),
        0 < p.len() <= max_len && !p.contains(0) && p[0] != 47 && !paths::is_plain(p)
            ==> fsops::relative_fault(p, max_len) == Some(
            Fault::InvalidInput("destination must be relative with no '..' or '.' components"@),
        ),
{
    if !p.contains(0) {
        assert forall|i: int| 0 <= i < p.len() implies p[i] != 0 by {
            assert(p.contains(p[i]));
        }
    }
}

/// A destination is its folder, a separator and its file name; one without a separator is
/// a file name alone.
pub proof fn law_destinations_are_a_folder_and_a_name(p: Seq<u8>)
    ensures
        !fsops::name_of(p).contains(47u8),
        match fsops::parent_of(p) {
            Some(folder) => p == folder + seq![47u8] + fsops::name_of(p),
            None => p == fsops::name_of(p),
        },
{
    paths::laws::law_the_last_component_ends_a_path(p);
    let n = paths::last_start(p) as int;
    if n == 0 {
        assert(p.skip(0) =~= p);
    } else {
        assert(p =~= p.take(n - 1) + seq![47u8] + p.skip(n));
    }
}

/// An absolute folder of plain names is opened by these names below the root.
pub proof fn law_folders_are_opened_below_the_root(parts: Seq<Seq<u8>>)
    requires
        paths::all_names(parts),
        parts.len() > 0,
        vstd::utf8::valid_utf8(paths::laws::relative(parts)),
    ensures
        fsops::folder_below_root(paths::rooted(parts)) == Ok::<Seq<u8>, Fault>(
            paths::laws::relative(parts),
        ),
{
    paths::laws::lemma_rooted_front(parts);
    paths::laws::lemma_plain(parts);
}

/// A relative folder is refused, and so is one that cannot be read as text or that is
/// not plain.
pub proof fn law_other_folders_are_refused(folder: Seq<u8>)
    ensures
        folder.len() == 0 || folder[0] != 47 ==> fsops::folder_below_root(folder) == Err::<
            Seq<u8>,
            Fault,
        >(Fault::InvalidInput("authorized folder must be an absolute path"@)),
        fsops::folder_below_root(folder) matches Ok(below) ==> {
            &&& folder.len() > 0 && folder[0] == 47
            &&& vstd::utf8::valid_utf8(below)
            &&& paths::is_plain(below)
            &&& below.len() > 0 ==> below[0] != 47
        },
{
}

/// A working directory is looked for exactly when it is a short enough absolute path of
/// text without a NUL that does not climb; a path that is relative or climbs is not
/// authorized, and the other objections have their own words.
pub proof fn law_proper_working_directories_are_looked_for(cwd: Seq<u8>, max_len: nat)
    ensures
        fsops::cwd_fault(cwd, max_len) is None <==> {
            &&& 0 < cwd.len() <= max_len
            &&& cwd[0] == 47
            &&& vstd::utf8::valid_utf8(cwd)
            &&& !cwd.contains(0)
            &&& !paths::climbs(cwd)
        },
        cwd.len() == 0 || cwd[0] != 47 ==> fsops::cwd_fault(cwd, max_len) == Some(
            Fault::PathNotAuthorized,
        ),
        cwd.len() > max_len && cwd.len() > 0 && cwd[0] == 47 ==> fsops::cwd_fault(cwd, max_len)
            == Some(Fault::InvalidInput("cwd path too long"@)),
        0 < cwd.len() <= max_len && cwd[0] == 47 && vstd::utf8::valid_utf8(cwd) && !cwd.contains(0)
            && paths::climbs(cwd) ==> fsops::cwd_fault(cwd, max_len) == Some(
            Fault::PathNotAuthorized,
        ),
        0 < cwd.len() <= max_len && cwd[0] == 47 && !vstd::utf8::valid_utf8(cwd)
            ==> fsops::cwd_fault(cwd, max_len) == Some(
            Fault::InvalidInput("cwd must be valid UTF-8"@),
        ),
        0 < cwd.len() <= max_len && cwd[0] == 47 && vstd::utf8::valid_utf8(cwd) && cwd.contains(0)
            ==> fsops::cwd_fault(cwd, max_len) == Some(Fault::InvalidInput("path contains NUL"@)),
{
}

/// The first authorized folder, from `from` on, that the working directory lies below is
/// opened.
pub proof fn law_the_first_folder_above_is_tried(v: CwdV, from: nat, i: int, rest: Seq<u8>)
    requires
        from <= i < v.roots.len(),
        fsops::below(v.cwd, v.roots[i]) == Some(rest),
        forall|k: int| from <= k < i ==> fsops::below(v.cwd, #[trigger] v.roots[k]) is None,
    ensures
        fsops::tried(v, from).1 == CwdActV::OpenFolder(v.roots[i]),
        fsops::tried(v, from).0 == (CwdV {
            at: i as nat,
            relative: rest,
            stage: CwdStage::Folder,
            ..v
        }),
    decreases i - from,
{
    if from < i {
        assert(fsops::below(v.cwd, v.roots[from as int]) is None);
        law_the_first_folder_above_is_tried(v, from + 1, i, rest);
    }
}

/// Where every folder opens, the working directory is used: the folder itself, or what
/// lies below it. A folder that does not open gives way to the next one above, and
/// where there is none the directory is not authorized.
pub proof fn law_a_working_directory_is_found(v: CwdV, e: Fault)
    requires
        fsops::search_wf(v),
        v.stage == CwdStage::Folder,
    ensures
        v.relative.len() == 0 ==> fsops::searched(v, Opened::Done).1 == CwdActV::UseFolder,
        v.relative.len() > 0 ==> {
            let (w, act) = fsops::searched(v, Opened::Done);
            &&& act == CwdActV::OpenBeneath(v.relative)
            &&& fsops::searched(w, Opened::Done).1 == CwdActV::UseBeneath
        },
        !fsops::is_operational(e) ==> fsops::searched(v, Opened::Failed(e)) == fsops::tried(
            v,
            v.at + 1,
        ),
        fsops::tried(v, v.roots.len()).1 == CwdActV::Refuse(Fault::PathNotAuthorized),
{
}

/// A kernel that cannot keep a path below its folder, a machine that is out of
/// descriptors or memory and a device that fails are failures, and nothing else is.
pub proof fn law_failures_of_the_machine_are_told_apart(os_code: Option<i32>, why: Seq<char>)
    ensures
        fsops::system_fault(os_code, why) == (if os_code == Some(38i32) {
            Fault::Protocol(
                "kernel lacks openat2 support; refusing filesystem writes (fail closed)"@,
            )
        } else {
            Fault::Io { os_code, text: why }
        }),
        fsops::is_operational(Fault::Io { os_code, text: why }) <==> (os_code == Some(24i32)
            || os_code == Some(23i32) || os_code == Some(12i32) || os_code == Some(5i32)),
        fsops::is_operational(Fault::Protocol(why)),
        !fsops::is_operational(Fault::PathNotAuthorized),
        !fsops::is_operational(Fault::NotFound),
        !fsops::is_operational(Fault::InvalidInput(why)),
{
}

/// A file is published under its name by way of a hidden temporary file beside it, in
/// this order: look at the name, draw a suffix, create, check, write, sync, rename, sync
/// the folder.
pub proof fn law_a_file_is_published_step_by_step(
    v: PublicationV,
    suffix: Seq<u8>,
    mode: u32,
    e: Fault,
)
    requires
        v.written <= v.len,
        v.attempts < 5,
        mode & 0o170000 == 0o100000,
    ensures
        v.stage == Stage::Inspect ==> {
            let fresh = publish::stepped(v, Event::Mode(None));
            let over = publish::stepped(v, Event::Mode(Some(mode)));
            &&& fresh.1 == ActV::DrawSuffix && fresh.0.stage == Stage::Suffix
            &&& over.1 == ActV::DrawSuffix && over.0.stage == Stage::Suffix
        },
        v.stage == Stage::Suffix ==> {
            let (w, act) = publish::stepped(v, Event::Suffix(suffix));
            let temp = seq![46u8] + v.name + text::utf8(".tmp."@) + suffix;
            &&& act == ActV::Create(temp)
            &&& w.temp == temp && w.stage == Stage::Create
        },
        v.stage == Stage::Create ==> publish::stepped(v, Event::Done).1 == ActV::CheckMode,
        v.stage == Stage::Create && v.attempts < 4 ==> publish::stepped(
            v,
            Event::Failed(Fault::Io { os_code: Some(17), text: Seq::empty() }),
        ).1 == ActV::DrawSuffix,
        v.stage == Stage::Check ==> publish::stepped(v, Event::Mode(Some(mode))).1 == (
        if v.len == 0 {
            ActV::Sync
        } else {
            ActV::Write { from: 0 }
        }),
        v.stage == Stage::Sync ==> publish::stepped(v, Event::Done).1 == (ActV::Rename {
            from: v.temp,
            to: v.name,
        }),
        v.stage == Stage::Rename ==> publish::stepped(v, Event::Done).1 == ActV::SyncDir,
        v.stage == Stage::SyncDir ==> publish::stepped(v, Event::Done).1 == ActV::Published
            && publish::stepped(v, Event::Failed(e)).1 == ActV::Published,
        forall|w: PublicationV| #[trigger]
            publish::stepped(v, Event::Done).0 == w ==> w.name == v.name && w.len == v.len,
{
}

/// Writing goes on from the last byte that was written, and is over with the last one.
pub proof fn law_writing_goes_on(v: PublicationV, n: usize)
    requires
        v.stage == Stage::Write,
        v.written < v.len,
        0 < n <= v.len - v.written,
    ensures
        v.written + n < v.len ==> publish::stepped(v, Event::Moved(Moved::Bytes(n))) == (
            PublicationV { written: (v.written + n) as usize, ..v },
            ActV::Write { from: (v.written + n) as usize },
        ),
        v.written + n == v.len ==> publish::stepped(v, Event::Moved(Moved::Bytes(n))).1
            == ActV::Sync,
        publish::stepped(v, Event::Moved(Moved::Interrupted)) == (
            v,
            ActV::Write { from: v.written },
        ),
{
}

/// What fails while the temporary file is there removes it and is then told as it was;
/// what fails before is told at once.
pub proof fn law_a_failed_publication_is_undone_and_told(v: PublicationV, e: Fault)
    ensures
        v.stage == Stage::Sync || v.stage == Stage::Rename ==> {
            let (w, act) = publish::stepped(v, Event::Failed(e));
            &&& act == ActV::Unlink(v.temp)
            &&& publish::stepped(w, Event::Done).1 == ActV::Refuse(e)
            &&& publish::stepped(w, Event::Failed(Fault::Auth)).1 == ActV::Refuse(e)
        },
        v.stage == Stage::Write ==> {
            let (w, act) = publish::stepped(v, Event::Moved(Moved::Failed(e)));
            &&& act == ActV::Unlink(v.temp)
            &&& publish::stepped(w, Event::Done).1 == ActV::Refuse(e)
        },
        v.stage == Stage::Write ==> {
            let (w, act) = publish::stepped(v, Event::Moved(Moved::Bytes(0)));
            &&& act == ActV::Unlink(v.temp)
            &&& publish::stepped(w, Event::Done).1 == ActV::Refuse(
                Fault::Io { os_code: None, text: "write returned zero"@ },
            )
        },
        v.stage == Stage::Suffix ==> publish::stepped(v, Event::Failed(e)).1 == ActV::Refuse(e),
        v.stage == Stage::Create && !(e is Io) ==> publish::stepped(v, Event::Failed(e)).1
            == ActV::Refuse(e),
{
}

/// What cannot be replaced, a temporary file that is none and names that are all taken are
/// refused with the reason.
pub proof fn law_refused_publications_say_why(v: PublicationV, mode: u32, why: Seq<char>)
    requires
        mode & 0o170000 != 0o100000,
    ensures
        v.stage == Stage::Inspect ==> publish::stepped(v, Event::Mode(Some(mode))).1
            == ActV::Refuse(
            Fault::InvalidInput(
                "destination exists and is not a regular file (symlinks, directories, FIFOs, sockets and devices are refused)"@,
            ),
        ),
        v.stage == Stage::Check ==> publish::stepped(v, Event::Mode(Some(mode))).1 == ActV::Refuse(
            Fault::Corrupt("created temp file is not regular"@),
        ) && publish::stepped(v, Event::Mode(None)).1 == ActV::Refuse(
            Fault::Corrupt("created temp file is not regular"@),
        ),
        v.stage == Stage::Create && v.attempts == 4 ==> publish::stepped(
            v,
            Event::Failed(Fault::Io { os_code: Some(17), text: why }),
        ).1 == ActV::Refuse(
            Fault::Io {
                os_code: None,
                text: "could not create a unique temp file after 5 attempts"@,
            },
        ),
{
}

} // verus!
