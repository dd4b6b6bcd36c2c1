//! A company listed on the exchange, as stored and as read from a listing file.

use crate::domain::{
    local_code_problem, DomainError, EnglishName, Id, JapaneseName, LocalCode, Section, SizeCode,
};
use crate::sector::{is_sector17code, is_sector33code, Sector17Code, Sector33Code};
use vstd::prelude::*;

verus! {

/// A point in time as seconds and nanoseconds since the Unix epoch, with the
/// offset from UTC, in seconds, of the zone that it is shown in.
#[derive(Debug, Clone, Copy, PartialEq, Eq, Default)]
pub struct Timestamp {
    pub seconds: i64,
    pub nanos: u32,
    pub offset_seconds: i32,
}

impl Timestamp {
    /// The nanoseconds are under a second and the offset is under a day.
    pub open spec fn wf(&self) -> bool {
        &&& self.nanos < 1_000_000_000
        &&& -86_400 < self.offset_seconds < 86_400
    }

    /// A timestamp from its parts, when they are in range.
    pub fn new(seconds: i64, nanos: u32, offset_seconds: i32) -> (r: Option<Timestamp>)
        ensures
            match r {
                Some(t) => t.wf() && t.seconds == seconds && t.nanos == nanos && t.offset_seconds
                    == offset_seconds,
                None => !(nanos < 1_000_000_000 && -86_400 < offset_seconds < 86_400),
            },
    {
        if nanos < 1_000_000_000 && -86_400 < offset_seconds && offset_seconds < 86_400 {
            Some(Timestamp { seconds, nanos, offset_seconds })
        } else {
            None
        }
    }
}

/// When a record was created.
#[derive(Debug, Clone, Copy, PartialEq, Eq, Default)]
pub struct CreatedAt(Timestamp);

impl CreatedAt {
    pub closed spec fn value(&self) -> Timestamp {
        self.0
    }

    pub fn new(t: Timestamp) -> (c: CreatedAt)
        ensures
            c.value() == t,
    {
        CreatedAt(t)
    }

    pub fn get(&self) -> (t: Timestamp)
        ensures
            t == self.value(),
    {
        self.0
    }
}

/// When a record was last changed.
#[derive(Debug, Clone, Copy, PartialEq, Eq, Default)]
pub struct UpdatedAt(Timestamp);

impl UpdatedAt {
    pub closed spec fn value(&self) -> Timestamp {
        self.0
    }

    pub fn new(t: Timestamp) -> (u: UpdatedAt)
        ensures
            u.value() == t,
    {
        UpdatedAt(t)
    }

    pub fn get(&self) -> (t: Timestamp)
        ensures
            t == self.value(),
    {
        self.0
    }
}

/// A listed company as the store keeps it.
#[derive(Debug, Clone, PartialEq, Eq)]
pub struct TokyoStockExchange {
    pub id: Option<Id>,
    pub local_code: LocalCode,
    pub english_name: EnglishName,
    pub japanese_name: JapaneseName,
    pub section: Section,
    pub sector33_code: Sector33Code,
    pub sector17_code: Sector17Code,
    pub size_code: SizeCode,
    pub created_at: CreatedAt,
    pub updated_at: UpdatedAt,
}

/// A listed company as a row of the store holds it, before its values are
/// checked.
#[derive(Debug, Clone, PartialEq, Eq)]
pub struct TokyoStockExchangeRow {
    pub id: i32,
    pub local_code: String,
    pub english_name: Option<String>,
    pub japanese_name: Option<String>,
    pub section: String,
    pub sector33_code: Option<i16>,
    pub sector17_code: Option<i16>,
    pub size_code: Option<i16>,
    pub created_at: Timestamp,
    pub updated_at: Timestamp,
}

/// The first rule that a row breaks, checked in field order: its local code,
/// then its 33-sector code, then its 17-sector code.
pub open spec fn row_problem(row: TokyoStockExchangeRow) -> Option<Seq<char>> {
    if local_code_problem(row.local_code@) is Some {
        local_code_problem(row.local_code@)
    } else if row.sector33_code is Some && !is_sector33code(row.sector33_code->0) {
        Some("Invalid sector33 code"@)
    } else if row.sector17_code is Some && !is_sector17code(row.sector17_code->0) {
        Some("Invalid sector17 code"@)
    } else {
        None
    }
}

impl TokyoStockExchange {
    /// The record that a stored row holds, when its values pass their checks.
    pub fn from_row(row: TokyoStockExchangeRow) -> (r: Result<TokyoStockExchange, DomainError>)
        ensures
            match row_problem(row) {
                Some(m) => r matches Err(DomainError::ValidationError(t)) && t@ == m,
                None => r matches Ok(t) && {
                    &&& t.id matches Some(i) && i.value() == row.id
                    &&& t.local_code.value() == row.local_code@
                    &&& t.english_name.value() == row.english_name
                    &&& t.japanese_name.value() == row.japanese_name
                    &&& t.section.value() == row.section@
                    &&& t.sector33_code.value() == row.sector33_code
                    &&& t.sector17_code.value() == row.sector17_code
                    &&& t.size_code.value() == row.size_code
                    &&& t.created_at.value() == row.created_at
                    &&& t.updated_at.value() == row.updated_at
                },
            },
    {
        let local_code = LocalCode::parse(row.local_code)?;
        let section = Section::parse(row.section)?;
        let sector33_code = Sector33Code::parse(row.sector33_code)?;
        let sector17_code = Sector17Code::parse(row.sector17_code)?;
        let size_code = SizeCode::parse(row.size_code)?;
        Ok(TokyoStockExchange {
            id: Some(Id::new(row.id)),
            local_code,
            english_name: EnglishName::new(row.english_name),
            japanese_name: JapaneseName::new(row.japanese_name),
            section,
            sector33_code,
            sector17_code,
            size_code,
            created_at: CreatedAt::new(row.created_at),
            updated_at: UpdatedAt::new(row.updated_at),
        })
    }
}

/// A listed company as a listing file gives it, before it is stored.
#[derive(Debug, Clone, PartialEq, Eq)]
pub struct TokyoStockExchangeAttributes {
    pub local_code: LocalCode,
    pub english_name: EnglishName,
    pub japanese_name: JapaneseName,
    pub section: Section,
    pub sector33_code: Sector33Code,
    pub sector17_code: Sector17Code,
    pub size_code: SizeCode,
}

/// What importing one listed company does to the store.
#[derive(Debug, Clone, PartialEq, Eq)]
pub enum ImportAction {
    /// The company is stored already: save the stored record.
    Save(TokyoStockExchange),
    /// The company is new: create it from the file's attributes.
    Create(TokyoStockExchangeAttributes),
}

/// Decides what to do with one company of a listing file, given the record
/// stored under its local code, if any.
pub fn plan_import(existing: Option<TokyoStockExchange>, file: TokyoStockExchangeAttributes) -> (a:
    ImportAction)
    ensures
        match existing {
            Some(t) => a == ImportAction::Save(t),
            None => a == ImportAction::Create(file),
        },
{
    match existing {
        Some(t) => ImportAction::Save(t),
        None => ImportAction::Create(file),
    }
}

/// Imports listing files into the store, through two repositories: one that
/// reads the files, one that holds the records.
pub struct ImportFilesUseCase<F, R> {
    file_repository: F,
    repository: R,
}

impl<F, R> ImportFilesUseCase<F, R> {
    pub closed spec fn files(&self) -> F {
        self.file_repository
    }

    pub closed spec fn records(&self) -> R {
        self.repository
    }

    pub fn new(file_repository: F, repository: R) -> (u: Self)
        ensures
            u.files() == file_repository,
            u.records() == repository,
    {
        ImportFilesUseCase { file_repository, repository }
    }

    /// The repository that reads the listing files.
    pub fn file_repository(&self) -> (f: &F)
        ensures
            *f == self.files(),
    {
        &self.file_repository
    }

    /// The repository that holds the records.
    pub fn repository(&self) -> (r: &R)
        ensures
            *r == self.records(),
    {
        &self.repository
    }
}

} // verus!
