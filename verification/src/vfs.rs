//! The backend proxy model: classification of newly opened handles and the
//! counting rules applied around every forwarded storage operation.

use vstd::prelude::*;

use crate::Error;
use crate::FileStats;
use crate::FileType;
use crate::StatField;

verus! {

/// Open-flag bit marking the main database file.
pub const OPEN_MAIN_DB: u32 = 0x0000_0100;

/// Open-flag bit marking a rollback journal.
pub const OPEN_MAIN_JOURNAL: u32 = 0x0000_0800;

/// Open-flag bit marking a write-ahead log file.
pub const OPEN_WAL: u32 = 0x0008_0000;

/// Open-flag bit marking a master rollback journal.
pub const OPEN_MASTER_JOURNAL: u32 = 0x0000_4000;

/// Open-flag bit marking a subjournal.
pub const OPEN_SUBJOURNAL: u32 = 0x0000_2000;

/// Open-flag bit marking a TEMP database.
pub const OPEN_TEMP_DB: u32 = 0x0000_0200;

/// Open-flag bit marking a journal for a TEMP database.
pub const OPEN_TEMP_JOURNAL: u32 = 0x0000_1000;

/// The category an open request resolves to: the first match in the fixed
/// priority order main database, rollback journal, write-ahead log, master
/// journal, subjournal, TEMP database, TEMP journal; anything else is a
/// transient database. The catch-all category is never assigned here.
pub open spec fn classify_spec(flags: u32) -> FileType {
    if flags & OPEN_MAIN_DB != 0 {
        FileType::Main
    } else if flags & OPEN_MAIN_JOURNAL != 0 {
        FileType::Journal
    } else if flags & OPEN_WAL != 0 {
        FileType::Wal
    } else if flags & OPEN_MASTER_JOURNAL != 0 {
        FileType::MasterJournal
    } else if flags & OPEN_SUBJOURNAL != 0 {
        FileType::SubJournal
    } else if flags & OPEN_TEMP_DB != 0 {
        FileType::TempDb
    } else if flags & OPEN_TEMP_JOURNAL != 0 {
        FileType::TempJournal
    } else {
        FileType::Transient
    }
}

/// Resolves the category of an open request from its flags.
pub fn classify(flags: u32) -> (t: FileType)
    ensures
        t == classify_spec(flags),
{
    if flags & OPEN_MAIN_DB != 0 {
        FileType::Main
    } else if flags & OPEN_MAIN_JOURNAL != 0 {
        FileType::Journal
    } else if flags & OPEN_WAL != 0 {
        FileType::Wal
    } else if flags & OPEN_MASTER_JOURNAL != 0 {
        FileType::MasterJournal
    } else if flags & OPEN_SUBJOURNAL != 0 {
        FileType::SubJournal
    } else if flags & OPEN_TEMP_DB != 0 {
        FileType::TempDb
    } else if flags & OPEN_TEMP_JOURNAL != 0 {
        FileType::TempJournal
    } else {
        FileType::Transient
    }
}

/// Classification is first-match-wins over the fixed priority order: a set
/// bit earlier in the order decides the category whatever later bits say.
pub proof fn lemma_classify_priority(flags: u32)
    ensures
        flags & OPEN_MAIN_DB != 0 ==> classify_spec(flags) == FileType::Main,
        flags & OPEN_MAIN_DB == 0 && flags & OPEN_MAIN_JOURNAL != 0 ==> classify_spec(flags)
            == FileType::Journal,
        flags & OPEN_MAIN_DB == 0 && flags & OPEN_MAIN_JOURNAL == 0 && flags & OPEN_WAL != 0
            ==> classify_spec(flags) == FileType::Wal,
        flags & OPEN_MAIN_DB == 0 && flags & OPEN_MAIN_JOURNAL == 0 && flags & OPEN_WAL == 0
            && flags & OPEN_MASTER_JOURNAL != 0 ==> classify_spec(flags)
            == FileType::MasterJournal,
        flags & OPEN_MAIN_DB == 0 && flags & OPEN_MAIN_JOURNAL == 0 && flags & OPEN_WAL == 0
            && flags & OPEN_MASTER_JOURNAL == 0 && flags & OPEN_SUBJOURNAL != 0 ==> classify_spec(
            flags,
        ) == FileType::SubJournal,
        flags & OPEN_MAIN_DB == 0 && flags & OPEN_MAIN_JOURNAL == 0 && flags & OPEN_WAL == 0
            && flags & OPEN_MASTER_JOURNAL == 0 && flags & OPEN_SUBJOURNAL == 0 && flags
            & OPEN_TEMP_DB != 0 ==> classify_spec(flags) == FileType::TempDb,
        flags & OPEN_MAIN_DB == 0 && flags & OPEN_MAIN_JOURNAL == 0 && flags & OPEN_WAL == 0
            && flags & OPEN_MASTER_JOURNAL == 0 && flags & OPEN_SUBJOURNAL == 0 && flags
            & OPEN_TEMP_DB == 0 && flags & OPEN_TEMP_JOURNAL != 0 ==> classify_spec(flags)
            == FileType::TempJournal,
        flags & OPEN_MAIN_DB == 0 && flags & OPEN_MAIN_JOURNAL == 0 && flags & OPEN_WAL == 0
            && flags & OPEN_MASTER_JOURNAL == 0 && flags & OPEN_SUBJOURNAL == 0 && flags
            & OPEN_TEMP_DB == 0 && flags & OPEN_TEMP_JOURNAL == 0 ==> classify_spec(flags)
            == FileType::Transient,
        classify_spec(flags) != FileType::Any,
{
}

/// One recorded storage operation, as far as the counters care about it.
///
/// Per-handle operations carry the category the handle resolved to; the
/// transfer operations also carry the requested size and whether the
/// forwarded call reported success. Backend-wide operations carry nothing:
/// they always count under the catch-all category.
#[derive(Copy, Clone, Debug, PartialEq, Eq, Structural)]
pub enum Event {
    /// An open request; the category is resolved from the flags, and the
    /// request counts whether or not the open succeeded.
    Open { flags: u32 },
    /// A read request of `amt` bytes on a handle of category `t`.
    Read { t: FileType, amt: u64, ok: bool },
    /// A write request of `amt` bytes on a handle of category `t`.
    Write { t: FileType, amt: u64, ok: bool },
    /// A sync request on a handle of category `t`.
    Sync { t: FileType },
    /// A lock, unlock or reserved-lock check on a handle of category `t`.
    Lock { t: FileType },
    /// A backend-wide deletion.
    Delete,
    /// A backend-wide access check.
    Access,
    /// A backend-wide full path resolution.
    FullPath,
    /// A backend-wide randomness request.
    Random,
    /// A backend-wide sleep request.
    Sleep,
    /// A backend-wide current-time query.
    CurrentTime,
}

/// How much one recorded operation adds to the counter of category `t` and
/// metric `f`. Request-style metrics grow by one whatever the outcome;
/// bytes-in and bytes-out grow by the requested size only when the forwarded
/// call reported success.
pub open spec fn event_delta(e: Event, t: FileType, f: StatField) -> int {
    match e {
        Event::Open { flags } => if classify_spec(flags) == t && f == StatField::Open {
            1
        } else {
            0
        },
        Event::Read { t: rt, amt, ok } => if rt == t && f == StatField::Read {
            1
        } else if rt == t && f == StatField::BytesIn && ok {
            amt as int
        } else {
            0
        },
        Event::Write { t: wt, amt, ok } => if wt == t && f == StatField::Write {
            1
        } else if wt == t && f == StatField::BytesOut && ok {
            amt as int
        } else {
            0
        },
        Event::Sync { t: st } => if st == t && f == StatField::Sync {
            1
        } else {
            0
        },
        Event::Lock { t: lt } => if lt == t && f == StatField::Lock {
            1
        } else {
            0
        },
        Event::Delete => if t == FileType::Any && f == StatField::Delete {
            1
        } else {
            0
        },
        Event::Access => if t == FileType::Any && f == StatField::Access {
            1
        } else {
            0
        },
        Event::FullPath => if t == FileType::Any && f == StatField::FullPath {
            1
        } else {
            0
        },
        Event::Random => if t == FileType::Any && f == StatField::Random {
            1
        } else {
            0
        },
        Event::Sleep => if t == FileType::Any && f == StatField::Sleep {
            1
        } else {
            0
        },
        Event::CurrentTime => if t == FileType::Any && f == StatField::CurrentTime {
            1
        } else {
            0
        },
    }
}

/// The value a counter must hold after a history of operations: the sum of
/// every operation's contribution to it.
pub open spec fn tally(es: Seq<Event>, t: FileType, f: StatField) -> int
    decreases es.len(),
{
    if es.len() == 0 {
        0
    } else {
        tally(es.drop_last(), t, f) + event_delta(es.last(), t, f)
    }
}

/// Appending one operation to a history adds exactly that operation's
/// contribution to every counter.
pub proof fn lemma_tally_push(es: Seq<Event>, e: Event, t: FileType, f: StatField)
    ensures
        tally(es.push(e), t, f) == tally(es, t, f) + event_delta(e, t, f),
{
    assert(es.push(e).drop_last() =~= es);
    assert(es.push(e).last() == e);
}

/// The backend proxy: the counter store it owns, together with the history
/// of operations recorded so far (kept only for specification).
pub struct Vfs {
    /// The owned counter store.
    pub file_stats: FileStats,
    /// The operations recorded so far.
    pub history: Ghost<Seq<Event>>,
}

/// The transition one recorded operation makes: the history grows by the
/// operation and every counter grows by exactly its contribution.
pub open spec fn records(pre: Vfs, post: Vfs, e: Event) -> bool {
    &&& post.history@ == pre.history@.push(e)
    &&& forall|t: FileType, f: StatField|
        post.file_stats.count(t, f) == pre.file_stats.count(t, f) + event_delta(e, t, f)
}

/// The per-open-file record: the resolved category of the handle and whether
/// its operation set was installed. An open the parent rejected leaves the
/// operation set uninstalled, and later calls on the handle degrade to a
/// fixed success code instead of forwarding.
#[derive(Copy, Clone, Debug, PartialEq, Eq, Structural)]
pub struct StatConn {
    /// The category resolved from the open flags, immutable afterwards.
    pub filetype: FileType,
    /// Whether the instrumented operation set was installed on the handle.
    pub installed: bool,
}

impl StatConn {
    /// Whether closing this handle forwards to the real file: only a handle
    /// whose operation set was installed has a real file to close; closing
    /// one that failed to open reports success directly.
    pub fn forward_close(&self) -> (b: bool)
        ensures
            b == self.installed,
    {
        self.installed
    }
}

impl Vfs {
    /// Every counter holds exactly the tally of the recorded history.
    pub open spec fn wf(self) -> bool {
        forall|t: FileType, f: StatField| self.file_stats.count(t, f) == tally(self.history@, t, f)
    }

    /// A fresh proxy: no operations recorded, every counter at zero.
    pub fn new() -> (v: Vfs)
        ensures
            v.wf(),
            v.history@ == Seq::<Event>::empty(),
            forall|t: FileType, f: StatField| v.file_stats.count(t, f) == 0,
    {
        Vfs { file_stats: FileStats::default(), history: Ghost(Seq::empty()) }
    }

    /// Records an open request. The request counts under the category the
    /// flags classify to, whether or not the parent's open succeeded, and
    /// the returned handle record carries that category; its operation set
    /// is installed exactly when the parent reported success.
    pub fn open(&mut self, flags: u32, parent_rc: i32) -> (conn: StatConn)
        requires
            old(self).wf(),
            old(self).file_stats.count(classify_spec(flags), StatField::Open) < u64::MAX,
        ensures
            final(self).wf(),
            records(*old(self), *final(self), (Event::Open { flags })),
            conn.filetype == classify_spec(flags),
            conn.installed == (parent_rc == 0),
    {
        let t = classify(flags);
        self.file_stats.add(t, StatField::Open, 1);
        let ghost e = Event::Open { flags };
        self.history = Ghost(self.history@.push(e));
        proof {
            lemma_records_wf(*old(self), *self, e);
        }
        StatConn { filetype: t, installed: parent_rc == 0 }
    }

    /// Records a read request on `conn`. The request counts whatever the
    /// outcome; the requested size counts as bytes in only when the
    /// forwarded call reported success, and then in full, even if the read
    /// was short.
    pub fn record_read(&mut self, conn: &StatConn, amt: u64, ok: bool)
        requires
            old(self).wf(),
            old(self).file_stats.count(conn.filetype, StatField::Read) < u64::MAX,
            ok ==> old(self).file_stats.count(conn.filetype, StatField::BytesIn) + amt
                <= u64::MAX,
        ensures
            final(self).wf(),
            records(*old(self), *final(self), (Event::Read { t: conn.filetype, amt, ok })),
    {
        self.file_stats.add(conn.filetype, StatField::Read, 1);
        if ok {
            self.file_stats.add(conn.filetype, StatField::BytesIn, amt);
        }
        let ghost e = Event::Read { t: conn.filetype, amt, ok };
        self.history = Ghost(self.history@.push(e));
        proof {
            lemma_records_wf(*old(self), *self, e);
        }
    }

    /// Records a write request on `conn`. The request counts whatever the
    /// outcome; the requested size counts as bytes out only when the
    /// forwarded call reported success, and then in full, even if the write
    /// was short.
    pub fn record_write(&mut self, conn: &StatConn, amt: u64, ok: bool)
        requires
            old(self).wf(),
            old(self).file_stats.count(conn.filetype, StatField::Write) < u64::MAX,
            ok ==> old(self).file_stats.count(conn.filetype, StatField::BytesOut) + amt
                <= u64::MAX,
        ensures
            final(self).wf(),
            records(*old(self), *final(self), (Event::Write { t: conn.filetype, amt, ok })),
    {
        self.file_stats.add(conn.filetype, StatField::Write, 1);
        if ok {
            self.file_stats.add(conn.filetype, StatField::BytesOut, amt);
        }
        let ghost e = Event::Write { t: conn.filetype, amt, ok };
        self.history = Ghost(self.history@.push(e));
        proof {
            lemma_records_wf(*old(self), *self, e);
        }
    }

    /// Records a sync request on `conn`, whatever the forwarded outcome.
    pub fn record_sync(&mut self, conn: &StatConn)
        requires
            old(self).wf(),
            old(self).file_stats.count(conn.filetype, StatField::Sync) < u64::MAX,
        ensures
            final(self).wf(),
            records(*old(self), *final(self), (Event::Sync { t: conn.filetype })),
    {
        self.file_stats.add(conn.filetype, StatField::Sync, 1);
        let ghost e = Event::Sync { t: conn.filetype };
        self.history = Ghost(self.history@.push(e));
        proof {
            lemma_records_wf(*old(self), *self, e);
        }
    }

    /// Records a lock request on `conn`, whatever the forwarded outcome.
    pub fn record_lock(&mut self, conn: &StatConn)
        requires
            old(self).wf(),
            old(self).file_stats.count(conn.filetype, StatField::Lock) < u64::MAX,
        ensures
            final(self).wf(),
            records(*old(self), *final(self), (Event::Lock { t: conn.filetype })),
    {
        self.file_stats.add(conn.filetype, StatField::Lock, 1);
        let ghost e = Event::Lock { t: conn.filetype };
        self.history = Ghost(self.history@.push(e));
        proof {
            lemma_records_wf(*old(self), *self, e);
        }
    }

    /// Records an unlock request on `conn`; it shares the lock counter.
    pub fn record_unlock(&mut self, conn: &StatConn)
        requires
            old(self).wf(),
            old(self).file_stats.count(conn.filetype, StatField::Lock) < u64::MAX,
        ensures
            final(self).wf(),
            records(*old(self), *final(self), (Event::Lock { t: conn.filetype })),
    {
        self.record_lock(conn);
    }

    /// Records a reserved-lock check on `conn`; it shares the lock counter.
    pub fn record_check_reserved_lock(&mut self, conn: &StatConn)
        requires
            old(self).wf(),
            old(self).file_stats.count(conn.filetype, StatField::Lock) < u64::MAX,
        ensures
            final(self).wf(),
            records(*old(self), *final(self), (Event::Lock { t: conn.filetype })),
    {
        self.record_lock(conn);
    }

    /// Records a backend-wide deletion under the catch-all category.
    pub fn record_delete(&mut self)
        requires
            old(self).wf(),
            old(self).file_stats.count(FileType::Any, StatField::Delete) < u64::MAX,
        ensures
            final(self).wf(),
            records(*old(self), *final(self), Event::Delete),
    {
        self.file_stats.add(FileType::Any, StatField::Delete, 1);
        let ghost e = Event::Delete;
        self.history = Ghost(self.history@.push(e));
        proof {
            lemma_records_wf(*old(self), *self, e);
        }
    }

    /// Records a backend-wide access check under the catch-all category.
    pub fn record_access(&mut self)
        requires
            old(self).wf(),
            old(self).file_stats.count(FileType::Any, StatField::Access) < u64::MAX,
        ensures
            final(self).wf(),
            records(*old(self), *final(self), Event::Access),
    {
        self.file_stats.add(FileType::Any, StatField::Access, 1);
        let ghost e = Event::Access;
        self.history = Ghost(self.history@.push(e));
        proof {
            lemma_records_wf(*old(self), *self, e);
        }
    }

    /// Records a backend-wide full path resolution under the catch-all
    /// category.
    pub fn record_full_pathname(&mut self)
        requires
            old(self).wf(),
            old(self).file_stats.count(FileType::Any, StatField::FullPath) < u64::MAX,
        ensures
            final(self).wf(),
            records(*old(self), *final(self), Event::FullPath),
    {
        self.file_stats.add(FileType::Any, StatField::FullPath, 1);
        let ghost e = Event::FullPath;
        self.history = Ghost(self.history@.push(e));
        proof {
            lemma_records_wf(*old(self), *self, e);
        }
    }

    /// Records a backend-wide randomness request under the catch-all
    /// category.
    pub fn record_randomness(&mut self)
        requires
            old(self).wf(),
            old(self).file_stats.count(FileType::Any, StatField::Random) < u64::MAX,
        ensures
            final(self).wf(),
            records(*old(self), *final(self), Event::Random),
    {
        self.file_stats.add(FileType::Any, StatField::Random, 1);
        let ghost e = Event::Random;
        self.history = Ghost(self.history@.push(e));
        proof {
            lemma_records_wf(*old(self), *self, e);
        }
    }

    /// Records a backend-wide sleep request under the catch-all category.
    pub fn record_sleep(&mut self)
        requires
            old(self).wf(),
            old(self).file_stats.count(FileType::Any, StatField::Sleep) < u64::MAX,
        ensures
            final(self).wf(),
            records(*old(self), *final(self), Event::Sleep),
    {
        self.file_stats.add(FileType::Any, StatField::Sleep, 1);
        let ghost e = Event::Sleep;
        self.history = Ghost(self.history@.push(e));
        proof {
            lemma_records_wf(*old(self), *self, e);
        }
    }

    /// Records a backend-wide current-time query under the catch-all
    /// category; the two time-query entry points of the host share it.
    pub fn record_current_time(&mut self)
        requires
            old(self).wf(),
            old(self).file_stats.count(FileType::Any, StatField::CurrentTime) < u64::MAX,
        ensures
            final(self).wf(),
            records(*old(self), *final(self), Event::CurrentTime),
    {
        self.file_stats.add(FileType::Any, StatField::CurrentTime, 1);
        let ghost e = Event::CurrentTime;
        self.history = Ghost(self.history@.push(e));
        proof {
            lemma_records_wf(*old(self), *self, e);
        }
    }
}

/// Outcome of installing the proxy in front of the real backend: without a
/// registered default backend nothing can be wrapped, and a descriptor the
/// host rejects propagates the host's code; only then is the proxy in place.
pub fn registration_outcome(default_found: bool, register_rc: i32) -> (r: Result<(), Error>)
    ensures
        !default_found ==> r == Err::<(), Error>(Error::BackendNotFound),
        default_found && register_rc != 0 ==> r == Err::<(), Error>(
            Error::RegistrationFailed(register_rc),
        ),
        default_found && register_rc == 0 ==> r == Ok::<(), Error>(()),
{
    if !default_found {
        Err(Error::BackendNotFound)
    } else if register_rc != 0 {
        Err(Error::RegistrationFailed(register_rc))
    } else {
        Ok(())
    }
}

/// The per-handle storage size the proxy's descriptor must announce: the
/// parent's own size grown by the room one handle record needs, so the host
/// allocates enough space for both.
pub fn extended_handle_size(parent_size: i32, record_size: i32) -> (r: i32)
    requires
        0 <= parent_size,
        0 <= record_size,
        parent_size + record_size <= i32::MAX,
    ensures
        r == parent_size + record_size,
{
    parent_size + record_size
}

/// A well-formed proxy stays well-formed across any correctly recorded
/// operation.
proof fn lemma_records_wf(pre: Vfs, post: Vfs, e: Event)
    requires
        pre.wf(),
        records(pre, post, e),
    ensures
        post.wf(),
{
    assert forall|t: FileType, f: StatField|
        post.file_stats.count(t, f) == tally(post.history@, t, f) by {
        lemma_tally_push(pre.history@, e, t, f);
    }
}

/// No recorded operation ever shrinks a counter: every metric grows
/// monotonically for the life of the store.
pub proof fn lemma_counters_monotonic(pre: Vfs, post: Vfs, e: Event)
    requires
        records(pre, post, e),
    ensures
        forall|t: FileType, f: StatField|
            pre.file_stats.count(t, f) <= post.file_stats.count(t, f),
{
}

/// How many open requests in a history carry flags classifying to `c`,
/// whether or not the open succeeded.
pub open spec fn open_requests(es: Seq<Event>, c: FileType) -> int
    decreases es.len(),
{
    if es.len() == 0 {
        0
    } else {
        open_requests(es.drop_last(), c) + (match es.last() {
            Event::Open { flags } => if classify_spec(flags) == c {
                1int
            } else {
                0
            },
            _ => 0,
        })
    }
}

/// The sum of the requested sizes of the successful reads on handles of
/// category `c` in a history; failed reads contribute nothing.
pub open spec fn bytes_read_ok(es: Seq<Event>, c: FileType) -> int
    decreases es.len(),
{
    if es.len() == 0 {
        0
    } else {
        bytes_read_ok(es.drop_last(), c) + (match es.last() {
            Event::Read { t, amt, ok } => if t == c && ok {
                amt as int
            } else {
                0
            },
            _ => 0,
        })
    }
}

/// The sum of the requested sizes of the successful writes on handles of
/// category `c` in a history; failed writes contribute nothing.
pub open spec fn bytes_written_ok(es: Seq<Event>, c: FileType) -> int
    decreases es.len(),
{
    if es.len() == 0 {
        0
    } else {
        bytes_written_ok(es.drop_last(), c) + (match es.last() {
            Event::Write { t, amt, ok } => if t == c && ok {
                amt as int
            } else {
                0
            },
            _ => 0,
        })
    }
}

/// Over any history, only open requests move the open counter: its tally for
/// a category is exactly the number of opens whose flags classify there.
proof fn lemma_tally_opens(es: Seq<Event>, c: FileType)
    ensures
        tally(es, c, StatField::Open) == open_requests(es, c),
    decreases es.len(),
{
    if es.len() > 0 {
        lemma_tally_opens(es.drop_last(), c);
    }
}

/// Over any history, only successful reads move the bytes-in counter, each
/// by its full requested size.
proof fn lemma_tally_bytes_in(es: Seq<Event>, c: FileType)
    ensures
        tally(es, c, StatField::BytesIn) == bytes_read_ok(es, c),
    decreases es.len(),
{
    if es.len() > 0 {
        lemma_tally_bytes_in(es.drop_last(), c);
    }
}

/// Over any history, only successful writes move the bytes-out counter, each
/// by its full requested size.
proof fn lemma_tally_bytes_out(es: Seq<Event>, c: FileType)
    ensures
        tally(es, c, StatField::BytesOut) == bytes_written_ok(es, c),
    decreases es.len(),
{
    if es.len() > 0 {
        lemma_tally_bytes_out(es.drop_last(), c);
    }
}

/// Whatever operations were recorded, the open counter of a category equals
/// the number of open requests ever made with flags classifying to that
/// category, successful or not.
pub proof fn lemma_open_count(v: Vfs, c: FileType)
    requires
        v.wf(),
    ensures
        v.file_stats.count(c, StatField::Open) == open_requests(v.history@, c),
{
    lemma_tally_opens(v.history@, c);
}

/// Whatever operations were recorded, the bytes-in counter of a category
/// equals the sum of the requested transfer sizes over only the successful
/// reads on handles of that category: never more, never less.
pub proof fn lemma_bytes_in(v: Vfs, c: FileType)
    requires
        v.wf(),
    ensures
        v.file_stats.count(c, StatField::BytesIn) == bytes_read_ok(v.history@, c),
{
    lemma_tally_bytes_in(v.history@, c);
}

/// Whatever operations were recorded, the bytes-out counter of a category
/// equals the sum of the requested transfer sizes over only the successful
/// writes on handles of that category: never more, never less.
pub proof fn lemma_bytes_out(v: Vfs, c: FileType)
    requires
        v.wf(),
    ensures
        v.file_stats.count(c, StatField::BytesOut) == bytes_written_ok(v.history@, c),
{
    lemma_tally_bytes_out(v.history@, c);
}

} // verus!

