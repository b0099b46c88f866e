use vstd::prelude::*;
use crate::clock::{stored_text, Timestamp};
use crate::error::{keep_if_stored, Column, StoreError};
use crate::ident::{fresh_id, id_text, is_random_id, uuid_parse, uuid_text};
use crate::pool::ConnectionPool;
use crate::row::{
    flag_cell, flag_col, id_col, instant_col, int_col, opt_int_cell, opt_int_col, opt_text_cell,
    opt_text_col, read_flag, read_id, read_instant, read_int, read_opt_int, read_opt_text,
    read_text, text_col,
};
use crate::sql::{
    all_bindable, execute, fetch, row_view, text_view, SqlValue, SqlValueView, Statement,
};

verus! {

/// A player character of the campaign.
#[derive(Clone, Debug, PartialEq, Eq)]
pub struct Character {
    pub id: u128,
    pub name: String,
    pub class: String,
    pub race: String,
    pub background: Option<String>,
    pub level: i32,
    pub experience: i32,
    pub hit_points: i32,
    pub current_hit_points: i32,
    pub armor_class: i32,
    pub initiative: Option<i32>,
    pub alive: bool,
    pub notes: String,
    pub created_at_utc: Timestamp,
    pub updated_at_utc: Timestamp,
}

/// The mathematical form of a [`Character`].
pub struct CharacterView {
    pub id: u128,
    pub name: Seq<char>,
    pub class: Seq<char>,
    pub race: Seq<char>,
    pub background: Option<Seq<char>>,
    pub level: i32,
    pub experience: i32,
    pub hit_points: i32,
    pub current_hit_points: i32,
    pub armor_class: i32,
    pub initiative: Option<i32>,
    pub alive: bool,
    pub notes: Seq<char>,
    pub created_at_utc: Timestamp,
    pub updated_at_utc: Timestamp,
}

impl View for Character {
    type V = CharacterView;

    open spec fn view(&self) -> CharacterView {
        CharacterView {
            id: self.id,
            name: self.name@,
            class: self.class@,
            race: self.race@,
            background: text_view(self.background),
            level: self.level,
            experience: self.experience,
            hit_points: self.hit_points,
            current_hit_points: self.current_hit_points,
            armor_class: self.armor_class,
            initiative: self.initiative,
            alive: self.alive,
            notes: self.notes@,
            created_at_utc: self.created_at_utc,
            updated_at_utc: self.updated_at_utc,
        }
    }
}

/// The character that creation yields from what the caller gave, an identifier and an
/// instant: at full hit points, alive, with no initiative rolled, created and last
/// updated at that instant.
pub open spec fn created_character(
    id: u128,
    at: Timestamp,
    name: Seq<char>,
    class: Seq<char>,
    race: Seq<char>,
    background: Option<Seq<char>>,
    level: i32,
    experience: i32,
    hit_points: i32,
    armor_class: i32,
    notes: Seq<char>,
) -> CharacterView {
    CharacterView {
        id,
        name,
        class,
        race,
        background,
        level,
        experience,
        hit_points,
        current_hit_points: hit_points,
        armor_class,
        initiative: None,
        alive: true,
        notes,
        created_at_utc: at,
        updated_at_utc: at,
    }
}

/// The first column of a character that cannot be written: a timestamp whose text
/// would not read back as the same instant.
pub open spec fn unwritable_column(c: CharacterView) -> Option<Column> {
    if stored_text(c.created_at_utc) is None {
        Some(Column::CreatedAtUtc)
    } else if stored_text(c.updated_at_utc) is None {
        Some(Column::UpdatedAtUtc)
    } else {
        None
    }
}

/// The row of table `characters` for a character, column by column in the order of
/// the schema.
pub open spec fn character_row(c: CharacterView) -> Seq<SqlValueView>
    recommends
        unwritable_column(c) is None,
{
    seq![
        SqlValueView::Text(uuid_text(c.id)),
        SqlValueView::Text(c.name),
        SqlValueView::Text(c.class),
        SqlValueView::Text(c.race),
        opt_text_cell(c.background),
        SqlValueView::Integer(c.level as i64),
        SqlValueView::Integer(c.experience as i64),
        SqlValueView::Integer(c.hit_points as i64),
        SqlValueView::Integer(c.current_hit_points as i64),
        SqlValueView::Integer(c.armor_class as i64),
        opt_int_cell(c.initiative),
        flag_cell(c.alive),
        SqlValueView::Text(c.notes),
        SqlValueView::Text(stored_text(c.created_at_utc).unwrap()),
        SqlValueView::Text(stored_text(c.updated_at_utc).unwrap()),
    ]
}

/// The first column of a `characters` row that does not decode, if there is one.
pub open spec fn character_fault(row: Seq<SqlValueView>) -> Option<Column> {
    if id_col(row, 0) is None {
        Some(Column::Id)
    } else if text_col(row, 1) is None {
        Some(Column::Name)
    } else if text_col(row, 2) is None {
        Some(Column::Class)
    } else if text_col(row, 3) is None {
        Some(Column::Race)
    } else if opt_text_col(row, 4) is None {
        Some(Column::Background)
    } else if int_col(row, 5) is None {
        Some(Column::Level)
    } else if int_col(row, 6) is None {
        Some(Column::Experience)
    } else if int_col(row, 7) is None {
        Some(Column::HitPoints)
    } else if int_col(row, 8) is None {
        Some(Column::CurrentHitPoints)
    } else if int_col(row, 9) is None {
        Some(Column::ArmorClass)
    } else if opt_int_col(row, 10) is None {
        Some(Column::Initiative)
    } else if flag_col(row, 11) is None {
        Some(Column::Alive)
    } else if text_col(row, 12) is None {
        Some(Column::Notes)
    } else if instant_col(row, 13) is None {
        Some(Column::CreatedAtUtc)
    } else if instant_col(row, 14) is None {
        Some(Column::UpdatedAtUtc)
    } else {
        None
    }
}

/// What a `characters` row decodes to: the character that its fifteen columns spell,
/// or the first column that is missing, of the wrong kind, or not the text of an
/// identifier or of an instant.
pub open spec fn decode_character(row: Seq<SqlValueView>) -> Result<CharacterView, StoreError> {
    match character_fault(row) {
        Some(column) => Err(StoreError::DataCorruption(column)),
        None => Ok(
            CharacterView {
                id: id_col(row, 0).unwrap(),
                name: text_col(row, 1).unwrap(),
                class: text_col(row, 2).unwrap(),
                race: text_col(row, 3).unwrap(),
                background: opt_text_col(row, 4).unwrap(),
                level: int_col(row, 5).unwrap(),
                experience: int_col(row, 6).unwrap(),
                hit_points: int_col(row, 7).unwrap(),
                current_hit_points: int_col(row, 8).unwrap(),
                armor_class: int_col(row, 9).unwrap(),
                initiative: opt_int_col(row, 10).unwrap(),
                alive: flag_col(row, 11).unwrap(),
                notes: text_col(row, 12).unwrap(),
                created_at_utc: instant_col(row, 13).unwrap(),
                updated_at_utc: instant_col(row, 14).unwrap(),
            },
        ),
    }
}

/// What a lookup by identifier yields from the rows that the store returned:
/// `NotFound` where there is none, else the first row decoded. A row that decodes to
/// a character under another identifier than the one asked for is no answer to the
/// lookup, and is reported as corrupt in its identifier.
pub open spec fn lookup_character(id: u128, rows: Seq<Vec<SqlValue>>) -> Result<
    CharacterView,
    StoreError,
> {
    if rows.len() == 0 {
        Err(StoreError::NotFound)
    } else {
        match decode_character(row_view(rows[0]@)) {
            Ok(c) => if c.id == id {
                Ok(c)
            } else {
                Err(StoreError::DataCorruption(Column::Id))
            },
            Err(e) => Err(e),
        }
    }
}

/// Whether `out` holds, row for row, the characters that `rows` decode to.
pub open spec fn characters_of_rows(rows: Seq<Vec<SqlValue>>, out: Seq<Character>) -> bool {
    &&& out.len() == rows.len()
    &&& forall|i: int|
        0 <= i < rows.len() ==> decode_character(row_view(#[trigger] rows[i]@)) == Ok::<
            CharacterView,
            StoreError,
        >(out[i]@)
}

/// Whether `error` is what decoding the first row of `rows` that does not decode
/// reports.
pub open spec fn first_character_fault(rows: Seq<Vec<SqlValue>>, error: StoreError) -> bool {
    exists|i: int|
        {
            &&& 0 <= i < rows.len()
            &&& decode_character(row_view(#[trigger] rows[i]@)) == Err::<
                CharacterView,
                StoreError,
            >(error)
            &&& forall|j: int|
                0 <= j < i ==> decode_character(row_view(#[trigger] rows[j]@)) is Ok
        }
}

/// The view of the outcome of an operation that yields a character.
pub open spec fn character_outcome(outcome: Result<Character, StoreError>) -> Result<
    CharacterView,
    StoreError,
> {
    match outcome {
        Ok(c) => Ok(c@),
        Err(e) => Err(e),
    }
}

/// A row written for a character decodes to that character, whenever the character
/// can be written and its identifier reads back from its text.
pub proof fn lemma_character_row_reads_back(c: CharacterView)
    requires
        unwritable_column(c) is None,
        uuid_parse(uuid_text(c.id)) == Some(c.id),
    ensures
        decode_character(character_row(c)) == Ok::<CharacterView, StoreError>(c),
{
    let row = character_row(c);
    assert(row.len() == 15);
    assert(id_col(row, 0) == Some(c.id));
    assert(opt_text_col(row, 4) == Some(c.background));
    assert(int_col(row, 5) == Some(c.level));
    assert(int_col(row, 6) == Some(c.experience));
    assert(int_col(row, 7) == Some(c.hit_points));
    assert(int_col(row, 8) == Some(c.current_hit_points));
    assert(int_col(row, 9) == Some(c.armor_class));
    assert(opt_int_col(row, 10) == Some(c.initiative));
    assert(flag_col(row, 11) == Some(c.alive));
    assert(instant_col(row, 13) == Some(c.created_at_utc));
    assert(instant_col(row, 14) == Some(c.updated_at_utc));
    assert(character_fault(row) is None);
}

fn opt_text_value(text: &Option<String>) -> (value: SqlValue)
    ensures
        value@ == opt_text_cell(text_view(*text)),
{
    match text {
        Some(s) => SqlValue::Text(s.clone()),
        None => SqlValue::Null,
    }
}

fn opt_int_value(number: Option<i32>) -> (value: SqlValue)
    ensures
        value@ == opt_int_cell(number),
{
    match number {
        Some(n) => SqlValue::Integer(n as i64),
        None => SqlValue::Null,
    }
}

impl Character {
    /// A new character with a fresh random identifier, created now.
    pub fn new(
        name: String,
        class: String,
        race: String,
        background: Option<String>,
        level: i32,
        experience: i32,
        hit_points: i32,
        armor_class: i32,
        notes: String,
    ) -> (character: Character)
        ensures
            is_random_id(character.id),
            character@ == created_character(
                character.id,
                character.created_at_utc,
                name@,
                class@,
                race@,
                text_view(background),
                level,
                experience,
                hit_points,
                armor_class,
                notes@,
            ),
    {
        let now = Timestamp::now();
        Character {
            id: fresh_id(),
            name,
            class,
            race,
            background,
            level,
            experience,
            hit_points,
            current_hit_points: hit_points,
            armor_class,
            initiative: None,
            alive: true,
            notes,
            created_at_utc: now,
            updated_at_utc: now,
        }
    }

    /// Whether the store is known to hold this character already. A value in memory
    /// carries no such record, so the answer is always no.
    pub fn is_stored(&self) -> (stored: bool)
        ensures
            !stored,
    {
        false
    }

    /// The row to insert for this character. It fails on a timestamp that has no text
    /// reading back as itself, and names that column; a row that is returned decodes
    /// to this very character.
    pub fn to_row(&self) -> (row: Result<Vec<SqlValue>, StoreError>)
        ensures
            match row {
                Ok(cells) => {
                    &&& unwritable_column(self@) is None
                    &&& row_view(cells@) == character_row(self@)
                    &&& all_bindable(cells@)
                    &&& decode_character(row_view(cells@)) == Ok::<CharacterView, StoreError>(
                        self@,
                    )
                },
                Err(e) => unwritable_column(self@) matches Some(column) && e
                    == StoreError::DataCorruption(column),
            },
    {
        let created = match self.created_at_utc.to_text() {
            Some(text) => text,
            None => {
                return Err(StoreError::DataCorruption(Column::CreatedAtUtc));
            },
        };
        let updated = match self.updated_at_utc.to_text() {
            Some(text) => text,
            None => {
                return Err(StoreError::DataCorruption(Column::UpdatedAtUtc));
            },
        };
        let mut cells: Vec<SqlValue> = Vec::new();
        cells.push(SqlValue::Text(id_text(self.id)));
        cells.push(SqlValue::Text(self.name.clone()));
        cells.push(SqlValue::Text(self.class.clone()));
        cells.push(SqlValue::Text(self.race.clone()));
        cells.push(opt_text_value(&self.background));
        cells.push(SqlValue::Integer(self.level as i64));
        cells.push(SqlValue::Integer(self.experience as i64));
        cells.push(SqlValue::Integer(self.hit_points as i64));
        cells.push(SqlValue::Integer(self.current_hit_points as i64));
        cells.push(SqlValue::Integer(self.armor_class as i64));
        cells.push(opt_int_value(self.initiative));
        cells.push(SqlValue::Integer(if self.alive { 1i64 } else { 0i64 }));
        cells.push(SqlValue::Text(self.notes.clone()));
        cells.push(SqlValue::Text(created));
        cells.push(SqlValue::Text(updated));
        proof {
            assert(row_view(cells@) =~= character_row(self@));
            lemma_character_row_reads_back(self@);
        }
        Ok(cells)
    }

    /// Decodes a row of table `characters`, strictly: every column must be present and
    /// of its kind, and the error names the first that is not.
    pub fn from_row(row: &Vec<SqlValue>) -> (character: Result<Character, StoreError>)
        ensures
            character_outcome(character) == decode_character(row_view(row@)),
    {
        let id = match read_id(row, 0) {
            Some(v) => v,
            None => { return Err(StoreError::DataCorruption(Column::Id)); },
        };
        let name = match read_text(row, 1) {
            Some(v) => v,
            None => { return Err(StoreError::DataCorruption(Column::Name)); },
        };
        let class = match read_text(row, 2) {
            Some(v) => v,
            None => { return Err(StoreError::DataCorruption(Column::Class)); },
        };
        let race = match read_text(row, 3) {
            Some(v) => v,
            None => { return Err(StoreError::DataCorruption(Column::Race)); },
        };
        let background = match read_opt_text(row, 4) {
            Some(v) => v,
            None => { return Err(StoreError::DataCorruption(Column::Background)); },
        };
        let level = match read_int(row, 5) {
            Some(v) => v,
            None => { return Err(StoreError::DataCorruption(Column::Level)); },
        };
        let experience = match read_int(row, 6) {
            Some(v) => v,
            None => { return Err(StoreError::DataCorruption(Column::Experience)); },
        };
        let hit_points = match read_int(row, 7) {
            Some(v) => v,
            None => { return Err(StoreError::DataCorruption(Column::HitPoints)); },
        };
        let current_hit_points = match read_int(row, 8) {
            Some(v) => v,
            None => { return Err(StoreError::DataCorruption(Column::CurrentHitPoints)); },
        };
        let armor_class = match read_int(row, 9) {
            Some(v) => v,
            None => { return Err(StoreError::DataCorruption(Column::ArmorClass)); },
        };
        let initiative = match read_opt_int(row, 10) {
            Some(v) => v,
            None => { return Err(StoreError::DataCorruption(Column::Initiative)); },
        };
        let alive = match read_flag(row, 11) {
            Some(v) => v,
            None => { return Err(StoreError::DataCorruption(Column::Alive)); },
        };
        let notes = match read_text(row, 12) {
            Some(v) => v,
            None => { return Err(StoreError::DataCorruption(Column::Notes)); },
        };
        let created_at_utc = match read_instant(row, 13) {
            Some(v) => v,
            None => { return Err(StoreError::DataCorruption(Column::CreatedAtUtc)); },
        };
        let updated_at_utc = match read_instant(row, 14) {
            Some(v) => v,
            None => { return Err(StoreError::DataCorruption(Column::UpdatedAtUtc)); },
        };
        Ok(
            Character {
                id,
                name,
                class,
                race,
                background,
                level,
                experience,
                hit_points,
                current_hit_points,
                armor_class,
                initiative,
                alive,
                notes,
                created_at_utc,
                updated_at_utc,
            },
        )
    }

    /// What a lookup by identifier yields from the rows that the store returned.
    pub fn from_lookup(id: u128, rows: &Vec<Vec<SqlValue>>) -> (character: Result<
        Character,
        StoreError,
    >)
        ensures
            character_outcome(character) == lookup_character(id, rows@),
            rows@.len() == 0 ==> character matches Err(StoreError::NotFound),
            character matches Ok(c) ==> c.id == id,
    {
        if rows.len() == 0 {
            Err(StoreError::NotFound)
        } else {
            match Character::from_row(&rows[0]) {
                Ok(character) => {
                    if character.id == id {
                        Ok(character)
                    } else {
                        Err(StoreError::DataCorruption(Column::Id))
                    }
                },
                Err(e) => Err(e),
            }
        }
    }

    /// Decodes every row, in order; the first row that does not decode fails the whole.
    pub fn from_rows(rows: &Vec<Vec<SqlValue>>) -> (characters: Result<Vec<Character>, StoreError>)
        ensures
            characters_from_rows(rows@, characters),
    {
        let mut out: Vec<Character> = Vec::new();
        let mut i: usize = 0;
        while i < rows.len()
            invariant
                i <= rows@.len(),
                out@.len() == i,
                forall|j: int|
                    0 <= j < i ==> decode_character(row_view(#[trigger] rows@[j]@)) == Ok::<
                        CharacterView,
                        StoreError,
                    >(out@[j]@),
            decreases rows@.len() - i,
        {
            let ghost before = out@;
            match Character::from_row(&rows[i]) {
                Ok(character) => {
                    out.push(character);
                    assert(forall|j: int| 0 <= j < i ==> out@[j] == before[j]);
                },
                Err(e) => {
                    return Err(e);
                },
            }
            i = i + 1;
        }
        Ok(out)
    }

    /// Inserts this character into table `characters` with a single statement.
    ///
    /// A character that cannot be written is refused before the store is touched, with
    /// the column that cannot be written. Otherwise the outcome is the store's: a
    /// refusal by a constraint is a `ConstraintViolation`, any other failure a
    /// `ConnectionError`.
    pub fn save(&self, conn: &rusqlite::Connection) -> (saved: Result<(), StoreError>)
        ensures
            unwritable_column(self@) matches Some(column) ==> saved == Err::<(), StoreError>(
                StoreError::DataCorruption(column),
            ),
            unwritable_column(self@) is None ==> (saved matches Err(e) ==> e
                == StoreError::ConstraintViolation || e == StoreError::ConnectionError),
    {
        if self.is_stored() {
            return Ok(());
        }
        let cells = match self.to_row() {
            Ok(cells) => cells,
            Err(e) => {
                return Err(e);
            },
        };
        match execute(
            conn,
            Statement::InsertCharacter,
            &cells,
        ) {
            Ok(_) => Ok(()),
            Err(e) => Err(e),
        }
    }

    /// Looks a character up by its identifier.
    ///
    /// The store decides which rows come back, and the outcome is what
    /// `lookup_character` makes of them; a store that cannot be asked is a
    /// `ConnectionError`. So a character that is returned carries the identifier asked
    /// for, and no failure is a `ConstraintViolation`.
    pub fn load_by_id(id: u128, conn: &rusqlite::Connection) -> (character: Result<
        Character,
        StoreError,
    >)
        ensures
            looks_up_character(id, character),
            match character {
                Ok(c) => c.id == id,
                Err(e) => e != StoreError::ConstraintViolation,
            },
    {
        let mut params: Vec<SqlValue> = Vec::new();
        params.push(SqlValue::Text(id_text(id)));
        match fetch(
            conn,
            Statement::SelectCharacter,
            &params,
        ) {
            Ok(rows) => Character::from_lookup(id, &rows),
            Err(e) => Err(e),
        }
    }

    /// Creates a character and stores it.
    ///
    /// The character returned is the one built from the arguments: at full hit points,
    /// alive, without initiative, created and last updated at one instant. It is returned
    /// only if the store took it. A clock that gives an instant with no RFC 3339 text
    /// fails the call with a `DataCorruption` of the creation timestamp.
    pub fn create(
        conn: &rusqlite::Connection,
        name: String,
        class: String,
        race: String,
        background: Option<String>,
        level: i32,
        experience: i32,
        hit_points: i32,
        armor_class: i32,
        notes: String,
    ) -> (created: Result<Character, StoreError>)
        ensures
            match created {
                Ok(character) => {
                    &&& is_random_id(character.id)
                    &&& unwritable_column(character@) is None
                    &&& character@ == created_character(
                        character.id,
                        character.created_at_utc,
                        name@,
                        class@,
                        race@,
                        text_view(background),
                        level,
                        experience,
                        hit_points,
                        armor_class,
                        notes@,
                    )
                },
                Err(e) => e != StoreError::NotFound,
            },
    {
        let character = Character::new(
            name,
            class,
            race,
            background,
            level,
            experience,
            hit_points,
            armor_class,
            notes,
        );
        let saved = character.save(conn);
        keep_if_stored(character, saved)
    }

    /// Loads every stored character, in the order in which the store yields the rows.
    ///
    /// Which rows there are is the store's to say. The result is what `from_rows` makes
    /// of them, so a row that does not decode fails the call with a `DataCorruption`;
    /// a store that cannot be asked fails it with a `ConnectionError`.
    pub fn load_all(conn: &rusqlite::Connection) -> (characters: Result<
        Vec<Character>,
        StoreError,
    >)
        ensures
            loads_characters(characters),
    {
        let params: Vec<SqlValue> = Vec::new();
        match fetch(
            conn,
            Statement::SelectCharacters,
            &params,
        ) {
            Ok(rows) => Character::from_rows(&rows),
            Err(e) => Err(e),
        }
    }
}

/// Creates a character and stores it, on a connection borrowed from the pool for
/// this call. A pool that lends none fails the call with a `ConnectionError`.
pub fn create_character_command(
    pool: &ConnectionPool,
    name: String,
    class: String,
    race: String,
    background: Option<String>,
    level: i32,
    experience: i32,
    hit_points: i32,
    armor_class: i32,
    notes: String,
) -> (created: Result<Character, StoreError>)
    ensures
        match created {
            Ok(character) => {
                &&& is_random_id(character.id)
                &&& unwritable_column(character@) is None
                &&& character@ == created_character(
                    character.id,
                    character.created_at_utc,
                    name@,
                    class@,
                    race@,
                    text_view(background),
                    level,
                    experience,
                    hit_points,
                    armor_class,
                    notes@,
                )
            },
            Err(e) => e != StoreError::NotFound,
        },
{
    let lent = match pool.acquire() {
        Ok(lent) => lent,
        Err(e) => {
            return Err(e);
        },
    };
    Character::create(
        lent.connection(),
        name,
        class,
        race,
        background,
        level,
        experience,
        hit_points,
        armor_class,
        notes,
    )
}

/// Loads every stored character, on a connection borrowed from the pool for this
/// call.
pub fn load_characters_command(pool: &ConnectionPool) -> (characters: Result<
    Vec<Character>,
    StoreError,
>)
    ensures
        loads_characters(characters),
{
    let lent = match pool.acquire() {
        Ok(lent) => lent,
        Err(e) => {
            return Err(e);
        },
    };
    Character::load_all(lent.connection())
}

/// Whether `outcome` is what decoding `rows` in order yields: the characters that
/// they decode to, row for row, or the error of the first row that does not decode.
pub open spec fn characters_from_rows(
    rows: Seq<Vec<SqlValue>>,
    outcome: Result<Vec<Character>, StoreError>,
) -> bool {
    match outcome {
        Ok(out) => characters_of_rows(rows, out@),
        Err(e) => first_character_fault(rows, e),
    }
}

/// Whether `outcome` can come of loading every character. Either the store gave no
/// answer, which is a `ConnectionError`, or it answered with some rows and the outcome
/// is what decoding those rows in order yields. So a list that is returned holds
/// nothing but decoded rows, one for each row and in their order, and the only other
/// failure is a `DataCorruption` that names a column.
pub open spec fn loads_characters(outcome: Result<Vec<Character>, StoreError>) -> bool {
    &&& ((outcome matches Err(e) && e == StoreError::ConnectionError) || (exists|
        rows: Seq<Vec<SqlValue>>,
    | characters_from_rows(rows, outcome)))
    &&& (outcome matches Err(e) ==> e == StoreError::ConnectionError || e.column() is Some)
}

/// Whether `outcome` can come of looking a character up by `id`. Either the store
/// gave no answer, which is a `ConnectionError`, or it answered with some rows and the
/// outcome is what `lookup_character` makes of them: `NotFound` for no rows, else the
/// first row decoded.
pub open spec fn looks_up_character(id: u128, outcome: Result<Character, StoreError>) -> bool {
    (outcome matches Err(e) && e == StoreError::ConnectionError) || (exists|
        rows: Seq<Vec<SqlValue>>,
    | character_outcome(outcome) == #[trigger] lookup_character(id, rows))
}

} // verus!
