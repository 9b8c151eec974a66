use crate::error::Fault;
use crate::extract::chars_of;
use crate::model::{ArchiveRecord, ExtractedMetaData, FileRecord};
use vstd::prelude::*;

verus! {

/// Creates the catalog table when it is not there; running it again changes nothing.
pub const SCHEMA_SQL: &'static str = "CREATE TABLE IF NOT EXISTS archive (id INTEGER PRIMARY KEY AUTOINCREMENT, genre TEXT NOT NULL, title TEXT NOT NULL, difficulty TEXT NOT NULL, summary TEXT NOT NULL, file_hash TEXT NOT NULL, file_cid TEXT NOT NULL)";

/// Appends a row; its six parameters come from `insert_params`, in order.
pub const INSERT_SQL: &'static str = "INSERT INTO archive (genre, title, difficulty, summary, file_hash, file_cid) VALUES (?1, ?2, ?3, ?4, ?5, ?6)";

/// Every row, columns in the order `record_from_row` reads them.
pub const SELECT_ALL_SQL: &'static str = "SELECT id, genre, title, difficulty, summary, file_hash, file_cid FROM archive";

/// The row with a given id.
pub const SELECT_BY_ID_SQL: &'static str = "SELECT id, genre, title, difficulty, summary, file_hash, file_cid FROM archive WHERE id = ?1";

/// What a search query holds before its column.
pub const SEARCH_SQL_HEAD: &'static str = "SELECT id, genre, title, difficulty, summary, file_hash, file_cid FROM archive WHERE instr(";

/// What a search query holds after its column: the searched text, bound as
/// its one parameter, must occur in the column as it stands.
pub const SEARCH_SQL_TAIL: &'static str = ", ?1) > 0";

/// The columns a catalog search may name.
#[derive(Debug, Clone, Copy, PartialEq, Eq, Structural)]
pub enum SearchField {
    Genre,
    Title,
    Difficulty,
    Summary,
    FileHash,
    FileCid,
}

/// The allow-list of searchable fields: a caller names the column itself.
pub open spec fn search_field_of(name: Seq<char>) -> Option<SearchField> {
    if name == seq!['g', 'e', 'n', 'r', 'e'] {
        Some(SearchField::Genre)
    } else if name == seq!['t', 'i', 't', 'l', 'e'] {
        Some(SearchField::Title)
    } else if name == seq!['d', 'i', 'f', 'f', 'i', 'c', 'u', 'l', 't', 'y'] {
        Some(SearchField::Difficulty)
    } else if name == seq!['s', 'u', 'm', 'm', 'a', 'r', 'y'] {
        Some(SearchField::Summary)
    } else if name == seq!['f', 'i', 'l', 'e', '_', 'h', 'a', 's', 'h'] {
        Some(SearchField::FileHash)
    } else if name == seq!['f', 'i', 'l', 'e', '_', 'c', 'i', 'd'] {
        Some(SearchField::FileCid)
    } else {
        None
    }
}

/// The table column a searchable field is stored in.
pub open spec fn column_of(f: SearchField) -> Seq<char> {
    match f {
        SearchField::Genre => "genre"@,
        SearchField::Title => "title"@,
        SearchField::Difficulty => "difficulty"@,
        SearchField::Summary => "summary"@,
        SearchField::FileHash => "file_hash"@,
        SearchField::FileCid => "file_cid"@,
    }
}

impl SearchField {
    /// The table column this field is stored in.
    pub fn column(self) -> (r: &'static str)
        ensures
            r@ == column_of(self),
    {
        match self {
            SearchField::Genre => "genre",
            SearchField::Title => "title",
            SearchField::Difficulty => "difficulty",
            SearchField::Summary => "summary",
            SearchField::FileHash => "file_hash",
            SearchField::FileCid => "file_cid",
        }
    }
}

fn chars_equal(cs: &Vec<char>, w: &[char]) -> (r: bool)
    ensures
        r == (cs@ == w@),
{
    if cs.len() != w.len() {
        return false;
    }
    let mut i: usize = 0;
    while i < w.len()
        invariant
            cs@.len() == w@.len(),
            i <= w@.len(),
            forall|k: int| 0 <= k < i ==> cs@[k] == w@[k],
        decreases w@.len() - i,
    {
        if cs[i] != w[i] {
            return false;
        }
        i = i + 1;
    }
    assert(cs@ =~= w@);
    true
}

/// Checks a field name against the allow-list.
pub fn parse_search_field(name: &str) -> (r: Result<SearchField, Fault>)
    ensures
        match search_field_of(name@) {
            Some(f) => r == Ok::<SearchField, Fault>(f),
            None => r == Err::<SearchField, Fault>(Fault::InvalidFieldQuery),
        },
{
    let cs = chars_of(name);
    if chars_equal(&cs, &['g', 'e', 'n', 'r', 'e']) {
        Ok(SearchField::Genre)
    } else if chars_equal(&cs, &['t', 'i', 't', 'l', 'e']) {
        Ok(SearchField::Title)
    } else if chars_equal(&cs, &['d', 'i', 'f', 'f', 'i', 'c', 'u', 'l', 't', 'y']) {
        Ok(SearchField::Difficulty)
    } else if chars_equal(&cs, &['s', 'u', 'm', 'm', 'a', 'r', 'y']) {
        Ok(SearchField::Summary)
    } else if chars_equal(&cs, &['f', 'i', 'l', 'e', '_', 'h', 'a', 's', 'h']) {
        Ok(SearchField::FileHash)
    } else if chars_equal(&cs, &['f', 'i', 'l', 'e', '_', 'c', 'i', 'd']) {
        Ok(SearchField::FileCid)
    } else {
        Err(Fault::InvalidFieldQuery)
    }
}

/// A search ready to run: its SQL text, and the text bound to its one parameter.
#[derive(Debug, Clone, PartialEq, Eq)]
pub struct SearchQuery {
    pub sql: String,
    pub needle: String,
}

/// Builds the search for rows whose `field` contains `q` as a substring,
/// character for character: no character of `q` is a wildcard, and case
/// counts. The field is checked against the allow-list first: any other name,
/// whatever it holds, fails with `InvalidFieldQuery` and no query text is
/// made. The searched text never enters the SQL; it is bound as is.
pub fn search_by_field(field: &str, q: &str) -> (r: Result<SearchQuery, Fault>)
    ensures
        match search_field_of(field@) {
            None => r == Err::<SearchQuery, Fault>(Fault::InvalidFieldQuery),
            Some(f) => r matches Ok(sq) && sq.sql@ == SEARCH_SQL_HEAD@ + column_of(f) + SEARCH_SQL_TAIL@
                && sq.needle@ == q@,
        },
{
    let f = match parse_search_field(field) {
        Ok(f) => f,
        Err(e) => return Err(e),
    };
    let mut sql = SEARCH_SQL_HEAD.to_owned();
    sql.append(f.column());
    sql.append(SEARCH_SQL_TAIL);
    Ok(SearchQuery { sql, needle: q.to_owned() })
}

/// A catalog entry as values.
pub struct EntryView {
    pub id: int,
    pub genre: Seq<char>,
    pub title: Seq<char>,
    pub difficulty: Seq<char>,
    pub summary: Seq<char>,
    pub file_hash: Seq<char>,
    pub file_cid: Seq<char>,
}

impl View for ArchiveRecord {
    type V = EntryView;

    open spec fn view(&self) -> EntryView {
        EntryView {
            id: self.id as int,
            genre: self.genre@,
            title: self.title@,
            difficulty: self.difficulty@,
            summary: self.summary@,
            file_hash: self.file_hash@,
            file_cid: self.file_cid@,
        }
    }
}

/// The values an insertion stores, in the order of `INSERT_SQL`'s parameters.
pub open spec fn insert_columns(m: ExtractedMetaData, f: FileRecord) -> Seq<Seq<char>> {
    seq![m.genre@, m.title@, m.difficulty@, m.summary@, f.file_hash@, f.file_cid@]
}

/// The entry a stored row with this id and these column values stands for.
pub open spec fn entry_of_row(id: int, cols: Seq<Seq<char>>) -> EntryView {
    EntryView {
        id,
        genre: cols[0],
        title: cols[1],
        difficulty: cols[2],
        summary: cols[3],
        file_hash: cols[4],
        file_cid: cols[5],
    }
}

/// The parameters of `INSERT_SQL` for a record.
pub fn insert_params(m: &ExtractedMetaData, f: &FileRecord) -> (r: Vec<String>)
    ensures
        r@.map_values(|s: String| s@) == insert_columns(*m, *f),
{
    let r = vec![
        m.genre.clone(),
        m.title.clone(),
        m.difficulty.clone(),
        m.summary.clone(),
        f.file_hash.clone(),
        f.file_cid.clone(),
    ];
    assert(r@.map_values(|s: String| s@) =~= insert_columns(*m, *f));
    r
}

/// The entry for a row read with `SELECT_ALL_SQL` or `SELECT_BY_ID_SQL`: its
/// id, then the six text columns in order.
pub fn record_from_row(id: i64, cols: &Vec<String>) -> (r: ArchiveRecord)
    requires
        cols@.len() == 6,
    ensures
        r@ == entry_of_row(id as int, cols@.map_values(|s: String| s@)),
{
    ArchiveRecord {
        id,
        genre: cols[0].clone(),
        title: cols[1].clone(),
        difficulty: cols[2].clone(),
        summary: cols[3].clone(),
        file_hash: cols[4].clone(),
        file_cid: cols[5].clone(),
    }
}

/// A row stored from a record and read back under the id the store gave it
/// is that record: every field equals the metadata's and the file record's.
pub proof fn lemma_catalog_round_trip(m: ExtractedMetaData, f: FileRecord, id: int)
    ensures
        entry_of_row(id, insert_columns(m, f)) == (EntryView {
            id,
            genre: m.genre@,
            title: m.title@,
            difficulty: m.difficulty@,
            summary: m.summary@,
            file_hash: f.file_hash@,
            file_cid: f.file_cid@,
        }),
{
}

} // verus!
