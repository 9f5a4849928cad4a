//! An instrumentation layer for a pluggable storage backend: every storage
//! operation routed through the backend is classified by the semantic role of
//! the file it touches and counted in a fixed table of per-category metrics,
//! and a cursor walks that table in a fixed total order to surface the
//! counters as rows.
//!
//! This crate holds the verified core: the category and metric taxonomy, the
//! counter store, the classification and counting rules, and the enumeration
//! state machine. The host-facing dispatch glue that forwards calls to the
//! real backend lives outside the verified library.

use vstd::prelude::*;

pub mod vfs;
pub mod vtab;

verus! {

/// Semantic role of a storage object, fixed when its handle is opened.
///
/// The declaration order is the slow-changing axis of the enumeration order
/// and is part of the public row-id contract.
#[derive(Copy, Clone, Debug, PartialEq, Eq, Structural)]
pub enum FileType {
    /// Main database file
    Main,
    /// Rollback journal
    Journal,
    /// Write-ahead log file
    Wal,
    /// Master rollback journal
    MasterJournal,
    /// Subjournal
    SubJournal,
    /// TEMP database
    TempDb,
    /// Journal for a TEMP database
    TempJournal,
    /// Transient database
    Transient,
    /// Catch-all for backend-wide operations not tied to one handle
    Any,
}

impl FileType {
    /// Position of the category in its declared order.
    pub open spec fn index(self) -> int {
        match self {
            FileType::Main => 0,
            FileType::Journal => 1,
            FileType::Wal => 2,
            FileType::MasterJournal => 3,
            FileType::SubJournal => 4,
            FileType::TempDb => 5,
            FileType::TempJournal => 6,
            FileType::Transient => 7,
            FileType::Any => 8,
        }
    }

    /// The declared position as a machine integer.
    pub fn ordinal(&self) -> (n: u8)
        ensures
            n as int == self.index(),
    {
        match self {
            FileType::Main => 0,
            FileType::Journal => 1,
            FileType::Wal => 2,
            FileType::MasterJournal => 3,
            FileType::SubJournal => 4,
            FileType::TempDb => 5,
            FileType::TempJournal => 6,
            FileType::Transient => 7,
            FileType::Any => 8,
        }
    }
}

/// One countable dimension of storage activity.
///
/// The declaration order is the fast-changing axis of the enumeration order
/// and is part of the public row-id contract.
#[derive(Copy, Clone, Debug, PartialEq, Eq, Structural)]
pub enum StatField {
    /// Bytes read in
    BytesIn,
    /// Bytes written out
    BytesOut,
    /// Read requests
    Read,
    /// Write requests
    Write,
    /// Sync requests
    Sync,
    /// File opens
    Open,
    /// Lock requests
    Lock,
    /// Access checks; category `Any` only
    Access,
    /// Deletions; category `Any` only
    Delete,
    /// Full path resolutions; category `Any` only
    FullPath,
    /// Randomness requests; category `Any` only
    Random,
    /// Sleep requests; category `Any` only
    Sleep,
    /// Current-time queries; category `Any` only
    CurrentTime,
}

impl StatField {
    /// Position of the metric in its declared order.
    pub open spec fn index(self) -> int {
        match self {
            StatField::BytesIn => 0,
            StatField::BytesOut => 1,
            StatField::Read => 2,
            StatField::Write => 3,
            StatField::Sync => 4,
            StatField::Open => 5,
            StatField::Lock => 6,
            StatField::Access => 7,
            StatField::Delete => 8,
            StatField::FullPath => 9,
            StatField::Random => 10,
            StatField::Sleep => 11,
            StatField::CurrentTime => 12,
        }
    }

    /// The declared position as a machine integer.
    pub fn ordinal(&self) -> (n: u8)
        ensures
            n as int == self.index(),
    {
        match self {
            StatField::BytesIn => 0,
            StatField::BytesOut => 1,
            StatField::Read => 2,
            StatField::Write => 3,
            StatField::Sync => 4,
            StatField::Open => 5,
            StatField::Lock => 6,
            StatField::Access => 7,
            StatField::Delete => 8,
            StatField::FullPath => 9,
            StatField::Random => 10,
            StatField::Sleep => 11,
            StatField::CurrentTime => 12,
        }
    }
}

/// The full record of metric counters for one category.
///
/// Every counter only ever grows while the store lives; nothing resets one.
#[derive(Copy, Clone, Debug)]
pub struct Stats {
    /// Bytes read in
    pub bytes_in: u64,
    /// Bytes written out
    pub bytes_out: u64,
    /// Read requests
    pub read: u64,
    /// Write requests
    pub write: u64,
    /// Sync requests
    pub sync: u64,
    /// File opens
    pub open: u64,
    /// Lock requests
    pub lock: u64,
    /// Access checks
    pub access: u64,
    /// Deletions
    pub delete: u64,
    /// Full path resolutions
    pub full_path: u64,
    /// Randomness requests
    pub random: u64,
    /// Sleep requests
    pub sleep: u64,
    /// Current-time queries
    pub current_time: u64,
}

impl Stats {
    /// The counter of one metric.
    pub open spec fn field(self, f: StatField) -> u64 {
        match f {
            StatField::BytesIn => self.bytes_in,
            StatField::BytesOut => self.bytes_out,
            StatField::Read => self.read,
            StatField::Write => self.write,
            StatField::Sync => self.sync,
            StatField::Open => self.open,
            StatField::Lock => self.lock,
            StatField::Access => self.access,
            StatField::Delete => self.delete,
            StatField::FullPath => self.full_path,
            StatField::Random => self.random,
            StatField::Sleep => self.sleep,
            StatField::CurrentTime => self.current_time,
        }
    }

    /// Reads the counter of one metric.
    pub fn get(&self, f: StatField) -> (n: u64)
        ensures
            n == self.field(f),
    {
        match f {
            StatField::BytesIn => self.bytes_in,
            StatField::BytesOut => self.bytes_out,
            StatField::Read => self.read,
            StatField::Write => self.write,
            StatField::Sync => self.sync,
            StatField::Open => self.open,
            StatField::Lock => self.lock,
            StatField::Access => self.access,
            StatField::Delete => self.delete,
            StatField::FullPath => self.full_path,
            StatField::Random => self.random,
            StatField::Sleep => self.sleep,
            StatField::CurrentTime => self.current_time,
        }
    }

    /// Adds `d` to one counter and leaves every other counter unchanged.
    pub fn add(&mut self, f: StatField, d: u64)
        requires
            old(self).field(f) + d <= u64::MAX,
        ensures
            forall|g: StatField|
                final(self).field(g) == old(self).field(g) + (if g == f { d as int } else { 0 }),
    {
        match f {
            StatField::BytesIn => self.bytes_in = self.bytes_in + d,
            StatField::BytesOut => self.bytes_out = self.bytes_out + d,
            StatField::Read => self.read = self.read + d,
            StatField::Write => self.write = self.write + d,
            StatField::Sync => self.sync = self.sync + d,
            StatField::Open => self.open = self.open + d,
            StatField::Lock => self.lock = self.lock + d,
            StatField::Access => self.access = self.access + d,
            StatField::Delete => self.delete = self.delete + d,
            StatField::FullPath => self.full_path = self.full_path + d,
            StatField::Random => self.random = self.random + d,
            StatField::Sleep => self.sleep = self.sleep + d,
            StatField::CurrentTime => self.current_time = self.current_time + d,
        }
    }
}

impl Default for Stats {
    /// A record with every counter at zero.
    fn default() -> (s: Self)
        ensures
            forall|f: StatField| s.field(f) == 0,
    {
        Stats {
            bytes_in: 0,
            bytes_out: 0,
            read: 0,
            write: 0,
            sync: 0,
            open: 0,
            lock: 0,
            access: 0,
            delete: 0,
            full_path: 0,
            random: 0,
            sleep: 0,
            current_time: 0,
        }
    }
}

/// The counter store: one full record of counters for every category,
/// always present and never removed.
#[derive(Copy, Clone, Debug)]
pub struct FileStats {
    /// Main database file
    pub main: Stats,
    /// Rollback journal
    pub journal: Stats,
    /// Write-ahead log file
    pub wal: Stats,
    /// Master rollback journal
    pub master_journal: Stats,
    /// Subjournal
    pub sub_journal: Stats,
    /// TEMP database
    pub temp_db: Stats,
    /// Journal for a TEMP database
    pub temp_journal: Stats,
    /// Transient database
    pub transient: Stats,
    /// Catch-all for backend-wide operations
    pub any: Stats,
}

impl FileStats {
    /// The record of counters of one category.
    pub open spec fn stats_of(self, t: FileType) -> Stats {
        match t {
            FileType::Main => self.main,
            FileType::Journal => self.journal,
            FileType::Wal => self.wal,
            FileType::MasterJournal => self.master_journal,
            FileType::SubJournal => self.sub_journal,
            FileType::TempDb => self.temp_db,
            FileType::TempJournal => self.temp_journal,
            FileType::Transient => self.transient,
            FileType::Any => self.any,
        }
    }

    /// The counter of one category and metric.
    pub open spec fn count(self, t: FileType, f: StatField) -> u64 {
        self.stats_of(t).field(f)
    }

    /// Reads the counter of one category and metric.
    pub fn get(&self, t: FileType, f: StatField) -> (n: u64)
        ensures
            n == self.count(t, f),
    {
        match t {
            FileType::Main => self.main.get(f),
            FileType::Journal => self.journal.get(f),
            FileType::Wal => self.wal.get(f),
            FileType::MasterJournal => self.master_journal.get(f),
            FileType::SubJournal => self.sub_journal.get(f),
            FileType::TempDb => self.temp_db.get(f),
            FileType::TempJournal => self.temp_journal.get(f),
            FileType::Transient => self.transient.get(f),
            FileType::Any => self.any.get(f),
        }
    }

    /// Adds `d` to the counter of one category and metric and leaves every
    /// other counter unchanged.
    pub fn add(&mut self, t: FileType, f: StatField, d: u64)
        requires
            old(self).count(t, f) + d <= u64::MAX,
        ensures
            forall|t2: FileType, f2: StatField|
                final(self).count(t2, f2) == old(self).count(t2, f2)
                    + (if t2 == t && f2 == f { d as int } else { 0 }),
    {
        match t {
            FileType::Main => self.main.add(f, d),
            FileType::Journal => self.journal.add(f, d),
            FileType::Wal => self.wal.add(f, d),
            FileType::MasterJournal => self.master_journal.add(f, d),
            FileType::SubJournal => self.sub_journal.add(f, d),
            FileType::TempDb => self.temp_db.add(f, d),
            FileType::TempJournal => self.temp_journal.add(f, d),
            FileType::Transient => self.transient.add(f, d),
            FileType::Any => self.any.add(f, d),
        }
    }
}

impl Default for FileStats {
    /// A store with every counter at zero.
    fn default() -> (s: Self)
        ensures
            forall|t: FileType, f: StatField| s.count(t, f) == 0,
    {
        FileStats {
            main: Stats::default(),
            journal: Stats::default(),
            wal: Stats::default(),
            master_journal: Stats::default(),
            sub_journal: Stats::default(),
            temp_db: Stats::default(),
            temp_journal: Stats::default(),
            transient: Stats::default(),
            any: Stats::default(),
        }
    }
}

/// What can go wrong in this layer.
#[derive(Copy, Clone, Debug, PartialEq, Eq, Structural)]
pub enum Error {
    /// No default backend was registered when initialization ran; fatal.
    BackendNotFound,
    /// The host rejected the proxy descriptor, with the host's own code; fatal.
    RegistrationFailed(i32),
    /// A mutation was attempted through the read-only query surface.
    Unsupported,
    /// A foreign handle could not be resolved to this layer's own records.
    InvariantViolation,
}

impl Error {
    /// A short description of the error.
    pub open spec fn message_spec(self) -> Seq<char> {
        match self {
            Error::BackendNotFound => "could not find the default backend"@,
            Error::RegistrationFailed(_) => "the host rejected the registration"@,
            Error::Unsupported => "the exposed table is read-only"@,
            Error::InvariantViolation => "a foreign handle does not belong to this layer"@,
        }
    }

    /// A short description of the error.
    pub fn message(&self) -> (s: &'static str)
        ensures
            s@ == self.message_spec(),
    {
        match self {
            Error::BackendNotFound => "could not find the default backend",
            Error::RegistrationFailed(_) => "the host rejected the registration",
            Error::Unsupported => "the exposed table is read-only",
            Error::InvariantViolation => "a foreign handle does not belong to this layer",
        }
    }
}

} // verus!
