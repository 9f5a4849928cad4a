//! The query-facing enumeration: a cursor over the cartesian product of
//! category and metric, projected lazily into rows of the counter store.

use vstd::prelude::*;

use crate::vfs::Vfs;
use crate::Error;
use crate::FileStats;
use crate::FileType;
use crate::StatField;

verus! {

/// The cursor of the exposed table: a position on the product of category
/// (slow axis) and metric (fast axis), both in their declared order.
#[derive(Copy, Clone, Debug, PartialEq, Eq, Structural)]
pub struct Cursor {
    /// The slow-changing axis of the walk.
    pub filetype: FileType,
    /// The fast-changing axis of the walk.
    pub field: StatField,
}

impl Cursor {
    /// The dense row id of this position: categories count thirteen rows
    /// each, one per metric.
    pub open spec fn index(self) -> int {
        self.filetype.index() * 13 + self.field.index()
    }

    /// The initial position of every enumeration.
    pub open spec fn first_spec() -> Cursor {
        Cursor { filetype: FileType::Main, field: StatField::BytesIn }
    }

    /// A cursor at the initial position.
    pub fn new() -> (c: Cursor)
        ensures
            c == Cursor::first_spec(),
    {
        Cursor { filetype: FileType::Main, field: StatField::BytesIn }
    }

    /// Where a rewind puts the cursor: back at the initial position, with no
    /// dependence on where it stood before.
    pub open spec fn rewind_spec(self) -> Cursor {
        Cursor::first_spec()
    }

    /// The successor position: the next metric under the same category, or,
    /// from the last metric, the first metric of the next category. From the
    /// very last position the walk wraps to the very first, so the successor
    /// is defined everywhere; correct enumeration never takes that step
    /// because exhaustion is checked first.
    pub open spec fn next_spec(self) -> Cursor {
        match self.field {
            StatField::BytesIn => Cursor { field: StatField::BytesOut, ..self },
            StatField::BytesOut => Cursor { field: StatField::Read, ..self },
            StatField::Read => Cursor { field: StatField::Write, ..self },
            StatField::Write => Cursor { field: StatField::Sync, ..self },
            StatField::Sync => Cursor { field: StatField::Open, ..self },
            StatField::Open => Cursor { field: StatField::Lock, ..self },
            StatField::Lock => Cursor { field: StatField::Access, ..self },
            StatField::Access => Cursor { field: StatField::Delete, ..self },
            StatField::Delete => Cursor { field: StatField::FullPath, ..self },
            StatField::FullPath => Cursor { field: StatField::Random, ..self },
            StatField::Random => Cursor { field: StatField::Sleep, ..self },
            StatField::Sleep => Cursor { field: StatField::CurrentTime, ..self },
            StatField::CurrentTime => Cursor {
                field: StatField::BytesIn,
                filetype: match self.filetype {
                    FileType::Main => FileType::Journal,
                    FileType::Journal => FileType::Wal,
                    FileType::Wal => FileType::MasterJournal,
                    FileType::MasterJournal => FileType::SubJournal,
                    FileType::SubJournal => FileType::TempDb,
                    FileType::TempDb => FileType::TempJournal,
                    FileType::TempJournal => FileType::Transient,
                    FileType::Transient => FileType::Any,
                    FileType::Any => FileType::Main,
                },
            },
        }
    }

    /// Resets the cursor to the initial position; queries re-executed on the
    /// same cursor rewind it any number of times.
    pub fn rewind(&mut self)
        ensures
            *final(self) == old(self).rewind_spec(),
    {
        self.filetype = FileType::Main;
        self.field = StatField::BytesIn;
    }

    /// Advances the cursor one position: row ids follow the walk one by one,
    /// and from the last position the walk wraps to row zero.
    pub fn next(&mut self)
        ensures
            *final(self) == old(self).next_spec(),
            final(self).index() == if old(self).index() == 116 {
                0int
            } else {
                old(self).index() + 1
            },
    {
        match self.field {
            StatField::BytesIn => self.field = StatField::BytesOut,
            StatField::BytesOut => self.field = StatField::Read,
            StatField::Read => self.field = StatField::Write,
            StatField::Write => self.field = StatField::Sync,
            StatField::Sync => self.field = StatField::Open,
            StatField::Open => self.field = StatField::Lock,
            StatField::Lock => self.field = StatField::Access,
            StatField::Access => self.field = StatField::Delete,
            StatField::Delete => self.field = StatField::FullPath,
            StatField::FullPath => self.field = StatField::Random,
            StatField::Random => self.field = StatField::Sleep,
            StatField::Sleep => self.field = StatField::CurrentTime,
            StatField::CurrentTime => {
                self.field = StatField::BytesIn;
                match self.filetype {
                    FileType::Main => self.filetype = FileType::Journal,
                    FileType::Journal => self.filetype = FileType::Wal,
                    FileType::Wal => self.filetype = FileType::MasterJournal,
                    FileType::MasterJournal => self.filetype = FileType::SubJournal,
                    FileType::SubJournal => self.filetype = FileType::TempDb,
                    FileType::TempDb => self.filetype = FileType::TempJournal,
                    FileType::TempJournal => self.filetype = FileType::Transient,
                    FileType::Transient => self.filetype = FileType::Any,
                    FileType::Any => self.filetype = FileType::Main,
                }
            },
        }
    }

    /// Whether the cursor stands on the last row of the enumeration. The row
    /// under the cursor is still a row: a full walk projects it and only
    /// then stops.
    pub fn eof(&self) -> (b: bool)
        ensures
            b == (self.index() == 116),
    {
        match (self.filetype, self.field) {
            (FileType::Any, StatField::CurrentTime) => true,
            _ => false,
        }
    }

    /// The dense row id of the cursor's position.
    pub fn rowid(&self) -> (r: i64)
        ensures
            r == self.index(),
            0 <= r <= 116,
    {
        (self.filetype.ordinal() as i64) * 13 + (self.field.ordinal() as i64)
    }
}

impl FileType {
    /// The stable name of the category in the first row column.
    pub open spec fn label_spec(self) -> Seq<char> {
        match self {
            FileType::Main => "main"@,
            FileType::Journal => "journal"@,
            FileType::Wal => "wal"@,
            FileType::MasterJournal => "master-journal"@,
            FileType::SubJournal => "sub-journal"@,
            FileType::TempDb => "temp-database"@,
            FileType::TempJournal => "temp-journal"@,
            FileType::Transient => "transient-db"@,
            FileType::Any => "*"@,
        }
    }

    /// The stable name of the category in the first row column.
    pub fn label(&self) -> (s: &'static str)
        ensures
            s@ == self.label_spec(),
    {
        match self {
            FileType::Main => "main",
            FileType::Journal => "journal",
            FileType::Wal => "wal",
            FileType::MasterJournal => "master-journal",
            FileType::SubJournal => "sub-journal",
            FileType::TempDb => "temp-database",
            FileType::TempJournal => "temp-journal",
            FileType::Transient => "transient-db",
            FileType::Any => "*",
        }
    }
}

impl StatField {
    /// The stable name of the metric in the second row column.
    pub open spec fn label_spec(self) -> Seq<char> {
        match self {
            StatField::BytesIn => "bytesIn"@,
            StatField::BytesOut => "bytesOut"@,
            StatField::Read => "read"@,
            StatField::Write => "write"@,
            StatField::Sync => "sync"@,
            StatField::Open => "open"@,
            StatField::Lock => "lock"@,
            StatField::Access => "access"@,
            StatField::Delete => "delete"@,
            StatField::FullPath => "fullPath"@,
            StatField::Random => "random"@,
            StatField::Sleep => "sleep"@,
            StatField::CurrentTime => "currentTime"@,
        }
    }

    /// The stable name of the metric in the second row column.
    pub fn label(&self) -> (s: &'static str)
        ensures
            s@ == self.label_spec(),
    {
        match self {
            StatField::BytesIn => "bytesIn",
            StatField::BytesOut => "bytesOut",
            StatField::Read => "read",
            StatField::Write => "write",
            StatField::Sync => "sync",
            StatField::Open => "open",
            StatField::Lock => "lock",
            StatField::Access => "access",
            StatField::Delete => "delete",
            StatField::FullPath => "fullPath",
            StatField::Random => "random",
            StatField::Sleep => "sleep",
            StatField::CurrentTime => "currentTime",
        }
    }
}

/// One projected row of the exposed table: the category name, the metric
/// name, the counter value read at projection time, and the dense row id.
#[derive(Copy, Clone, Debug)]
pub struct Row {
    /// The stable name of the category.
    pub file: &'static str,
    /// The stable name of the metric.
    pub stat: &'static str,
    /// The counter value, as the signed value the host column carries.
    pub count: i64,
    /// The dense row id of the position the row was projected from.
    pub rowid: i64,
}

/// Whether `r` is the row the cursor position `c` projects from `stats`.
pub open spec fn row_matches(r: Row, c: Cursor, stats: FileStats) -> bool {
    &&& r.file@ == c.filetype.label_spec()
    &&& r.stat@ == c.field.label_spec()
    &&& r.count == stats.count(c.filetype, c.field) as i64
    &&& r.rowid == c.index()
}

impl Cursor {
    /// Projects the row under the cursor, reading the counter store at
    /// projection time: a scan sees concurrent growth, by design, since the
    /// table is a live view and not a snapshot.
    pub fn row(&self, stats: &FileStats) -> (r: Row)
        ensures
            row_matches(r, *self, *stats),
    {
        Row {
            file: self.filetype.label(),
            stat: self.field.label(),
            count: #[verifier::truncate] (stats.get(self.filetype, self.field) as i64),
            rowid: self.rowid(),
        }
    }
}

/// The position a cursor reaches after `n` advances from `c`.
pub open spec fn advance_n(c: Cursor, n: nat) -> Cursor
    decreases n,
{
    if n == 0 {
        c
    } else {
        advance_n(c, (n - 1) as nat).next_spec()
    }
}

/// Walking from the initial position, the first 117 positions carry row ids
/// 0 through 116 in order: the walk visits every row exactly once before it
/// reports exhaustion.
pub proof fn lemma_walk_index(n: nat)
    requires
        n <= 116,
    ensures
        advance_n(Cursor::first_spec(), n).index() == n,
    decreases n,
{
    if n > 0 {
        lemma_walk_index((n - 1) as nat);
        lemma_next_index(advance_n(Cursor::first_spec(), (n - 1) as nat));
    }
}

/// The successor position's row id follows the walk: one more than the
/// current row id, wrapping to zero only from the very last row.
proof fn lemma_next_index(c: Cursor)
    ensures
        c.next_spec().index() == if c.index() == 116 {
            0int
        } else {
            c.index() + 1
        },
{
}

/// Whether `rows` is the full table projected from `stats`: exactly 117
/// rows, the i-th projected from the i-th position of the canonical walk.
pub open spec fn table_rows_ok(rows: Seq<Row>, stats: FileStats) -> bool {
    &&& rows.len() == 117
    &&& forall|i: int|
        0 <= i < 117 ==> row_matches(rows[i], advance_n(Cursor::first_spec(), i as nat), stats)
}

/// Projects the whole table in one pass: rewound cursor, one row per
/// position, stopping after the row on which the cursor reports exhaustion.
pub fn scan(stats: &FileStats) -> (rows: Vec<Row>)
    ensures
        table_rows_ok(rows@, *stats),
{
    let mut cur = Cursor::new();
    let mut rows: Vec<Row> = Vec::new();
    loop
        invariant_except_break
            rows@.len() <= 116,
            cur == advance_n(Cursor::first_spec(), rows@.len() as nat),
            cur.index() == rows@.len() as int,
        invariant
            rows@.len() <= 117,
            forall|i: int|
                0 <= i < rows@.len() ==> row_matches(
                    rows@[i],
                    advance_n(Cursor::first_spec(), i as nat),
                    *stats,
                ),
        ensures
            rows@.len() == 117,
        decreases 117 - rows@.len(),
    {
        let r = cur.row(stats);
        rows.push(r);
        if cur.eof() {
            break;
        }
        cur.next();
    }
    rows
}

/// In a full table every row id equals the row's position: ids are dense in
/// 0 through 116 and no two rows share one.
pub proof fn lemma_rowids_dense(rows: Seq<Row>, stats: FileStats)
    requires
        table_rows_ok(rows, stats),
    ensures
        forall|i: int| 0 <= i < 117 ==> rows[i].rowid == i,
        forall|i: int, j: int| 0 <= i < 117 && 0 <= j < 117 && i != j ==> rows[i].rowid != rows[j].rowid,
{
    assert forall|i: int| 0 <= i < 117 implies rows[i].rowid == i by {
        lemma_walk_index(i as nat);
    }
}

/// Two full tables projected from the same counter store agree row by row:
/// enumeration without intervening growth is reproducible.
pub proof fn lemma_scan_reproducible(a: Seq<Row>, b: Seq<Row>, stats: FileStats)
    requires
        table_rows_ok(a, stats),
        table_rows_ok(b, stats),
    ensures
        a.len() == b.len(),
        forall|i: int|
            0 <= i < a.len() ==> a[i].file@ == b[i].file@ && a[i].stat@ == b[i].stat@ && a[i].count
                == b[i].count && a[i].rowid == b[i].rowid,
{
}

/// After a rewind, the walk is the canonical one from the start: two
/// cursors rewound from any two positions agree at every later step, so
/// re-enumerating mid-scan reproduces the same row sequence.
pub proof fn lemma_rewind_replays(before1: Cursor, before2: Cursor, k: nat)
    ensures
        advance_n(before1.rewind_spec(), k) == advance_n(before2.rewind_spec(), k),
{
}

/// The query-extension module exposing the counter store as a table. It
/// holds no state of its own: cursors read the store directly.
#[derive(Copy, Clone, Debug)]
pub struct VTab {}

impl VTab {
    /// The fixed three-column schema the module declares to the host.
    pub fn schema() -> (s: &'static str)
        ensures
            s@ == "CREATE TABLE x(file,stat,count)"@,
    {
        "CREATE TABLE x(file,stat,count)"
    }

    /// Outcome of connecting the module: the table exists exactly when the
    /// host accepted the schema declaration; a refusal passes the host's
    /// code through unchanged.
    pub fn connect(declare_rc: i32) -> (r: Result<VTab, i32>)
        ensures
            declare_rc == 0 ==> r == Ok::<VTab, i32>(VTab {}),
            declare_rc != 0 ==> r == Err::<VTab, i32>(declare_rc),
    {
        if declare_rc == 0 {
            Ok(VTab {})
        } else {
            Err(declare_rc)
        }
    }

    /// Outcome of registering the module with the host's schema catalog: a
    /// refusal propagates the host's code.
    pub fn create_outcome(register_rc: i32) -> (r: Result<(), Error>)
        ensures
            register_rc == 0 ==> r == Ok::<(), Error>(()),
            register_rc != 0 ==> r == Err::<(), Error>(Error::RegistrationFailed(register_rc)),
    {
        if register_rc == 0 {
            Ok(())
        } else {
            Err(Error::RegistrationFailed(register_rc))
        }
    }

    /// Any insert, update or delete attempted through the query surface:
    /// always refused as unsupported, and no counter changes.
    pub fn update(v: &mut Vfs) -> (r: Result<(), Error>)
        ensures
            *final(v) == *old(v),
            r == Err::<(), Error>(Error::Unsupported),
    {
        Err(Error::Unsupported)
    }
}

} // verus!
