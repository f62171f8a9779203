//! Publishing a file atomically: a temporary file in the same directory is
//! written, synced and renamed over the destination. Only a regular file, or
//! nothing, is replaced.

use vstd::prelude::*;

use crate::crypto;
use crate::error::{Fault, IoFailure, VaultError};
use crate::fsops::{self, EEXIST};
use crate::text;
use crate::transfer::{self, Moved, Progress};

verus! {

/// The bits of a mode that tell the kind of a file.
pub const S_IFMT: u32 = 0o170000;

/// The kind of a regular file.
pub const S_IFREG: u32 = 0o100000;

/// How often a name for the temporary file is tried.
pub const MAX_ATTEMPTS: u64 = 5;

/// Whether a mode is that of a regular file.
pub open spec fn is_regular(mode: u32) -> bool {
    (mode & S_IFMT) == S_IFREG
}

/// Where a publication stands: the action whose outcome it waits for.
#[derive(Clone, Copy, Debug, PartialEq, Eq, Structural)]
pub enum Stage {
    Inspect,
    Suffix,
    Create,
    Check,
    Write,
    Sync,
    Rename,
    Undo,
    SyncDir,
    Over,
}

/// What came of an action.
pub enum Event<B, E> {
    Done,
    Failed(E),
    /// The mode of a file, if it could be read.
    Mode(Option<u32>),
    /// A random suffix.
    Suffix(B),
    Moved(Moved<E>),
}

/// What is to be done next.
#[allow(inconsistent_fields)]
pub enum Act<B, E> {
    /// Read the mode of the destination, without following it.
    Inspect(B),
    /// Draw a random suffix.
    DrawSuffix,
    /// Create this file, which must not exist.
    Create(B),
    /// Read the mode of the created file.
    CheckMode,
    /// Write from this position on.
    Write { from: usize },
    /// Sync the created file.
    Sync,
    /// Rename the first file to the second.
    Rename { from: B, to: B },
    /// Remove the created file.
    Unlink(B),
    /// Sync the directory; the publication holds whatever comes of it.
    SyncDir,
    /// The file is published.
    Published,
    Refuse(E),
}

/// A publication.
pub struct Publication {
    name: Vec<u8>,
    len: usize,
    temp: Vec<u8>,
    attempts: u64,
    written: usize,
    why: Option<VaultError>,
    stage: Stage,
}

/// The mathematical value of a [`Publication`].
pub struct PublicationV {
    pub name: Seq<u8>,
    pub len: usize,
    pub temp: Seq<u8>,
    pub attempts: u64,
    pub written: usize,
    pub why: Option<Fault>,
    pub stage: Stage,
}

impl View for Publication {
    type V = PublicationV;

    closed spec fn view(&self) -> PublicationV {
        PublicationV {
            name: self.name@,
            len: self.len,
            temp: self.temp@,
            attempts: self.attempts,
            written: self.written,
            why: match self.why {
                Some(e) => Some(e@),
                None => None,
            },
            stage: self.stage,
        }
    }
}

pub type EventV = Event<Seq<u8>, Fault>;

pub type ActV = Act<Seq<u8>, Fault>;

pub open spec fn event_value(e: Event<String, VaultError>) -> EventV {
    match e {
        Event::Done => Event::Done,
        Event::Failed(f) => Event::Failed(f@),
        Event::Mode(m) => Event::Mode(m),
        Event::Suffix(s) => Event::Suffix(text::utf8(s@)),
        Event::Moved(m) => Event::Moved(transfer::moved_value(m)),
    }
}

pub open spec fn act_value(a: Act<Vec<u8>, VaultError>) -> ActV {
    match a {
        Act::Inspect(v) => Act::Inspect(v@),
        Act::DrawSuffix => Act::DrawSuffix,
        Act::Create(v) => Act::Create(v@),
        Act::CheckMode => Act::CheckMode,
        Act::Write { from } => Act::Write { from },
        Act::Sync => Act::Sync,
        Act::Rename { from, to } => Act::Rename { from: from@, to: to@ },
        Act::Unlink(v) => Act::Unlink(v@),
        Act::SyncDir => Act::SyncDir,
        Act::Published => Act::Published,
        Act::Refuse(e) => Act::Refuse(e@),
    }
}

/// Whether an event can be the outcome of the action that a publication waits
/// for.
pub open spec fn fits(v: PublicationV, e: EventV) -> bool {
    match v.stage {
        Stage::Inspect | Stage::Check => e is Mode,
        Stage::Suffix => e is Suffix || e is Failed,
        Stage::Create | Stage::Sync | Stage::Rename | Stage::Undo | Stage::SyncDir => e is Done
            || e is Failed,
        Stage::Write => e matches Event::Moved(m) && (m matches Moved::Bytes(n) ==> n <= v.len
            - v.written),
        Stage::Over => false,
    }
}

/// What holds of every publication.
pub open spec fn publication_wf(v: PublicationV) -> bool {
    &&& v.written <= v.len
    &&& v.attempts < MAX_ATTEMPTS
    &&& v.stage == Stage::Undo ==> v.why is Some
}

pub open spec fn at(v: PublicationV, stage: Stage) -> PublicationV {
    PublicationV { stage, ..v }
}

pub open spec fn refused(v: PublicationV, e: Fault) -> (PublicationV, ActV) {
    (at(v, Stage::Over), Act::Refuse(e))
}

/// The created file is removed and the failure reported.
pub open spec fn undone(v: PublicationV, e: Fault) -> (PublicationV, ActV) {
    (PublicationV { why: Some(e), stage: Stage::Undo, ..v }, Act::Unlink(v.temp))
}

/// The name of a temporary file.
pub open spec fn temp_name(name: Seq<u8>, suffix: Seq<u8>) -> Seq<u8> {
    seq![46u8] + name + text::utf8(".tmp."@) + suffix
}

/// What follows what came of an action.
pub open spec fn stepped(v: PublicationV, e: EventV) -> (PublicationV, ActV) {
    match v.stage {
        Stage::Inspect => match e {
            Event::Mode(Some(m)) => if is_regular(m) {
                (at(v, Stage::Suffix), Act::DrawSuffix)
            } else {
                refused(
                    v,
                    Fault::InvalidInput(
                        "destination exists and is not a regular file (symlinks, directories, FIFOs, sockets and devices are refused)"@,
                    ),
                )
            },
            _ => (at(v, Stage::Suffix), Act::DrawSuffix),
        },
        Stage::Suffix => match e {
            Event::Suffix(s) => (
                PublicationV { temp: temp_name(v.name, s), stage: Stage::Create, ..v },
                Act::Create(temp_name(v.name, s)),
            ),
            Event::Failed(f) => refused(v, f),
            _ => (v, Act::DrawSuffix),
        },
        Stage::Create => match e {
            Event::Failed(f) => if f matches Fault::Io { os_code, .. } && os_code == Some(EEXIST) {
                if v.attempts + 1 < MAX_ATTEMPTS {
                    (
                        PublicationV {
                            attempts: (v.attempts + 1) as u64,
                            stage: Stage::Suffix,
                            ..v
                        },
                        Act::DrawSuffix,
                    )
                } else {
                    refused(
                        v,
                        Fault::Io {
                            os_code: None,
                            text: "could not create a unique temp file after 5 attempts"@,
                        },
                    )
                }
            } else {
                refused(v, f)
            },
            _ => (at(v, Stage::Check), Act::CheckMode),
        },
        Stage::Check => match e {
            Event::Mode(Some(m)) => if !is_regular(m) {
                refused(v, Fault::Corrupt("created temp file is not regular"@))
            } else if v.len == 0 {
                (PublicationV { written: 0, stage: Stage::Sync, ..v }, Act::Sync)
            } else {
                (PublicationV { written: 0, stage: Stage::Write, ..v }, Act::Write { from: 0 })
            },
            _ => refused(v, Fault::Corrupt("created temp file is not regular"@)),
        },
        Stage::Write => match e {
            Event::Moved(m) => match transfer::advanced(
                v.written,
                v.len,
                m,
                "write returned zero"@,
            ) {
                Progress::Go { from } => (
                    PublicationV { written: from, ..v },
                    Act::Write { from },
                ),
                Progress::Done => (
                    PublicationV { written: v.len, stage: Stage::Sync, ..v },
                    Act::Sync,
                ),
                Progress::Failed(f) => undone(v, f),
            },
            _ => (v, Act::Sync),
        },
        Stage::Sync => match e {
            Event::Failed(f) => undone(v, f),
            _ => (at(v, Stage::Rename), Act::Rename { from: v.temp, to: v.name }),
        },
        Stage::Rename => match e {
            Event::Failed(f) => undone(v, f),
            _ => (at(v, Stage::SyncDir), Act::SyncDir),
        },
        Stage::Undo => refused(PublicationV { why: None, ..v }, v.why->0),
        Stage::SyncDir => (at(v, Stage::Over), Act::Published),
        Stage::Over => (v, Act::Published),
    }
}

fn regular(mode: u32) -> (r: bool)
    ensures
        r == is_regular(mode),
{
    (mode & S_IFMT) == S_IFREG
}

/// A random suffix for the name of a temporary file: eight bytes in
/// hexadecimal notation.
pub fn fresh_suffix() -> (r: Result<String, VaultError>)
    ensures
        match r {
            Ok(s) => s@.len() == 16 && crypto::is_hex(text::utf8(s@)),
            Err(e) => crypto::is_csprng_failure(e@),
        },
{
    match crypto::random_bytes::<8>() {
        Ok(raw) => {
            proof {
                crypto::law_unhex_undoes_hex(raw@);
            }
            Ok(crypto::hex(raw.as_slice()))
        },
        Err(e) => Err(e),
    }
}

fn temp_for(name: &[u8], suffix: &str) -> (r: Vec<u8>)
    ensures
        r@ == temp_name(name@, text::utf8(suffix@)),
{
    let mut out: Vec<u8> = Vec::new();
    out.push(46u8);
    out.extend_from_slice(name);
    out.extend_from_slice(".tmp.".as_bytes());
    out.extend_from_slice(suffix.as_bytes());
    proof {
        assert(out@ =~= temp_name(name@, text::utf8(suffix@)));
    }
    out
}

impl Publication {
    /// Starts the publication of so many bytes under a name.
    pub fn write_file_atomic(
        name: Vec<u8>,
        len: usize,
    ) -> (r: (Publication, Act<Vec<u8>, VaultError>))
        ensures
            ({
                let start = PublicationV {
                    name: name@,
                    len,
                    temp: Seq::empty(),
                    attempts: 0,
                    written: 0,
                    why: None,
                    stage: Stage::Inspect,
                };
                (r.0@, act_value(r.1)) == (if fsops::has_nul(name@) {
                    refused(start, Fault::InvalidInput("file name contains NUL"@))
                } else {
                    (start, ActV::Inspect(name@))
                })
            }),
            publication_wf(r.0@),
    {
        let copy = vstd::slice::slice_to_vec(name.as_slice());
        let mut p = Publication {
            name,
            len,
            temp: Vec::new(),
            attempts: 0,
            written: 0,
            why: None,
            stage: Stage::Inspect,
        };
        proof {
            assert(p@.temp =~= Seq::<u8>::empty());
        }
        match fsops::kernel_path(copy.as_slice()) {
            Ok(_) => (p, Act::Inspect(copy)),
            Err(_) => {
                p.stage = Stage::Over;
                (p, Act::Refuse(VaultError::InvalidInput("file name contains NUL")))
            },
        }
    }

    /// Whether an event can be the outcome of the last action.
    pub fn accepts(&self, event: &Event<String, VaultError>) -> (r: bool)
        requires
            publication_wf(self@),
        ensures
            r == fits(self@, event_value(*event)),
    {
        match (self.stage, event) {
            (Stage::Inspect | Stage::Check, Event::Mode(_)) => true,
            (Stage::Suffix, Event::Suffix(_) | Event::Failed(_)) => true,
            (
                Stage::Create | Stage::Sync | Stage::Rename | Stage::Undo | Stage::SyncDir,
                Event::Done | Event::Failed(_),
            ) => true,
            (Stage::Write, Event::Moved(Moved::Bytes(n))) => *n <= self.len - self.written,
            (Stage::Write, Event::Moved(_)) => true,
            _ => false,
        }
    }

    fn refuse(&mut self, e: VaultError) -> (r: Act<Vec<u8>, VaultError>)
        ensures
            (final(self)@, act_value(r)) == refused(old(self)@, e@),
    {
        self.stage = Stage::Over;
        Act::Refuse(e)
    }

    fn undo(&mut self, e: VaultError) -> (r: Act<Vec<u8>, VaultError>)
        ensures
            (final(self)@, act_value(r)) == undone(old(self)@, e@),
    {
        self.stage = Stage::Undo;
        self.why = Some(e);
        Act::Unlink(vstd::slice::slice_to_vec(self.temp.as_slice()))
    }

    /// Takes what came of the last action and gives the next one.
    pub fn step(&mut self, event: Event<String, VaultError>) -> (r: Act<Vec<u8>, VaultError>)
        requires
            publication_wf(old(self)@),
            fits(old(self)@, event_value(event)),
        ensures
            (final(self)@, act_value(r)) == stepped(old(self)@, event_value(event)),
            publication_wf(final(self)@),
    {
        match (self.stage, event) {
            (Stage::Inspect, Event::Mode(m)) => {
                match m {
                    Some(mode) => {
                        if !regular(mode) {
                            return self.refuse(
                                VaultError::InvalidInput(
                                    "destination exists and is not a regular file (symlinks, directories, FIFOs, sockets and devices are refused)",
                                ),
                            );
                        }
                    },
                    None => {},
                }
                self.stage = Stage::Suffix;
                Act::DrawSuffix
            },
            (Stage::Suffix, Event::Suffix(s)) => {
                self.temp = temp_for(self.name.as_slice(), &s);
                self.stage = Stage::Create;
                Act::Create(vstd::slice::slice_to_vec(self.temp.as_slice()))
            },
            (Stage::Suffix, Event::Failed(e)) => self.refuse(e),
            (Stage::Create, Event::Failed(e)) => {
                let taken = match &e {
                    VaultError::Io(io) => match io.os_code {
                        Some(c) => c == EEXIST,
                        None => false,
                    },
                    _ => false,
                };
                if !taken {
                    return self.refuse(e);
                }
                if self.attempts + 1 < MAX_ATTEMPTS {
                    self.attempts = self.attempts + 1;
                    self.stage = Stage::Suffix;
                    return Act::DrawSuffix;
                }
                self.refuse(
                    VaultError::Io(
                        IoFailure {
                            os_code: None,
                            text: "could not create a unique temp file after 5 attempts".to_string(),
                        },
                    ),
                )
            },
            (Stage::Create, _) => {
                self.stage = Stage::Check;
                Act::CheckMode
            },
            (Stage::Check, Event::Mode(m)) => {
                let ok = match m {
                    Some(mode) => regular(mode),
                    None => false,
                };
                if !ok {
                    return self.refuse(
                        VaultError::Corrupt("created temp file is not regular".to_string()),
                    );
                }
                self.written = 0;
                if self.len == 0 {
                    self.stage = Stage::Sync;
                    return Act::Sync;
                }
                self.stage = Stage::Write;
                Act::Write { from: 0 }
            },
            (Stage::Write, Event::Moved(m)) => {
                match transfer::advance(self.written, self.len, m, "write returned zero") {
                    Progress::Go { from } => {
                        self.written = from;
                        Act::Write { from }
                    },
                    Progress::Done => {
                        self.written = self.len;
                        self.stage = Stage::Sync;
                        Act::Sync
                    },
                    Progress::Failed(e) => self.undo(e),
                }
            },
            (Stage::Sync, Event::Failed(e)) => self.undo(e),
            (Stage::Sync, _) => {
                self.stage = Stage::Rename;
                Act::Rename {
                    from: vstd::slice::slice_to_vec(self.temp.as_slice()),
                    to: vstd::slice::slice_to_vec(self.name.as_slice()),
                }
            },
            (Stage::Rename, Event::Failed(e)) => self.undo(e),
            (Stage::Rename, _) => {
                self.stage = Stage::SyncDir;
                Act::SyncDir
            },
            (Stage::Undo, _) => match self.why.take() {
                Some(e) => self.refuse(e),
                None => Act::Published,
            },
            _ => {
                self.stage = Stage::Over;
                Act::Published
            },
        }
    }
}

// ----------------------------------------------------------------------- laws
/// The destination is touched only by renaming a file that was written to its
/// end and synced.
pub proof fn law_publication_is_atomic(v: PublicationV, e: EventV)
    requires
        publication_wf(v),
        fits(v, e),
        stepped(v, e).1 is Rename,
    ensures
        v.stage == Stage::Sync,
        e is Done,
        stepped(v, e).1 == (ActV::Rename { from: v.temp, to: v.name }),
{
}

/// A file is synced only when every byte was written.
pub proof fn law_sync_follows_the_last_byte(v: PublicationV, e: EventV)
    requires
        publication_wf(v),
        fits(v, e),
        stepped(v, e).1 is Sync,
    ensures
        stepped(v, e).0.written == v.len,
{
}

/// Once the temporary file is being written, it is published or removed.
pub proof fn law_no_temp_file_stays(v: PublicationV, e: EventV)
    requires
        publication_wf(v),
        fits(v, e),
        v.stage == Stage::Write || v.stage == Stage::Sync || v.stage == Stage::Rename,
    ensures
        ({
            let (t, a) = stepped(v, e);
            &&& t.temp == v.temp
            &&& t.stage == Stage::Write || t.stage == Stage::Sync || t.stage == Stage::Rename
                || a == ActV::Unlink(v.temp) || (v.stage == Stage::Rename && e is Done)
        }),
{
}

/// Anything but a regular file is refused and nothing is created.
pub proof fn law_only_regular_files_are_replaced(v: PublicationV, mode: u32)
    requires
        v.stage == Stage::Inspect,
        !is_regular(mode),
    ensures
        stepped(v, Event::Mode(Some(mode))).1 is Refuse,
        stepped(v, Event::Mode(Some(mode))).0.stage == Stage::Over,
{
}

/// Names are tried a bounded number of times.
pub proof fn law_attempts_are_bounded(v: PublicationV, e: EventV)
    requires
        publication_wf(v),
        fits(v, e),
        v.stage == Stage::Create,
        stepped(v, e).1 is DrawSuffix,
    ensures
        stepped(v, e).0.attempts == v.attempts + 1,
        stepped(v, e).0.attempts < MAX_ATTEMPTS,
{
}

/// What stands for a value stands for all of it: the same variant, with every part.
pub proof fn law_event_value_is_faithful(e: Event<String, VaultError>)
    ensures
        match (e, event_value(e)) {
            (Event::Done, Event::Done) => true,
            (Event::Failed(f), Event::Failed(v0)) => v0 == f@,
            (Event::Mode(m), Event::Mode(v0)) => v0 == m,
            (Event::Suffix(s), Event::Suffix(v0)) => v0 == (text::utf8(s@)),
            (Event::Moved(m), Event::Moved(v0)) => v0 == (transfer::moved_value(m)),
            _ => false,
        },
{
}

/// What stands for a value stands for all of it: the same variant, with every part.
pub proof fn law_act_value_is_faithful(a: Act<Vec<u8>, VaultError>)
    ensures
        match (a, act_value(a)) {
            (Act::Inspect(v), Act::Inspect(v0)) => v0 == v@,
            (Act::DrawSuffix, Act::DrawSuffix) => true,
            (Act::Create(v), Act::Create(v0)) => v0 == v@,
            (Act::CheckMode, Act::CheckMode) => true,
            (Act::Write { from }, Act::Write { from: from_v }) => from_v == from,
            (Act::Sync, Act::Sync) => true,
            (
                Act::Rename { from, to },
                Act::Rename { from: from_v, to: to_v },
            ) => from_v == from@
                && to_v == to@,
            (Act::Unlink(v), Act::Unlink(v0)) => v0 == v@,
            (Act::SyncDir, Act::SyncDir) => true,
            (Act::Published, Act::Published) => true,
            (Act::Refuse(e), Act::Refuse(v0)) => v0 == e@,
            _ => false,
        },
{
}

} // verus!
