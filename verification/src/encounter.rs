use vstd::prelude::*;
use crate::character::{looks_up_character, Character};
use crate::error::{discard, discarded, keep_if_stored, Column, StoreError};
use crate::ident::{fresh_id, id_text, is_random_id, parse_id, uuid_parse, uuid_text};
use crate::pool::ConnectionPool;
use crate::row::{id_col, opt_int_cell, opt_int_col, read_id, read_opt_int, read_text, text_col};
use crate::sql::{all_bindable, execute, fetch, row_view, SqlValue, SqlValueView, Statement};

verus! {

/// A combat encounter.
#[derive(Clone, Debug, PartialEq, Eq)]
pub struct Encounter {
    pub id: u128,
    pub encounter_title: String,
}

/// The mathematical form of an [`Encounter`].
pub struct EncounterView {
    pub id: u128,
    pub encounter_title: Seq<char>,
}

impl View for Encounter {
    type V = EncounterView;

    open spec fn view(&self) -> EncounterView {
        EncounterView { id: self.id, encounter_title: self.encounter_title@ }
    }
}

/// What of a participation is stored: its own identifier, the encounter and the
/// character that it links, and the initiative rolled for this encounter.
#[derive(Clone, Copy, Debug, PartialEq, Eq, Structural)]
pub struct Participation {
    pub id: u128,
    pub encounter_id: u128,
    pub character_id: u128,
    pub initiative: Option<i32>,
}

/// A character taking part in an encounter.
///
/// The encounter is held by its identifier. The status effects live in memory only:
/// they are never written, and are empty on every participation that is loaded.
#[derive(Clone, Debug, PartialEq, Eq)]
pub struct EncounterCharacter {
    pub id: u128,
    pub character: Character,
    pub encounter_id: u128,
    pub initiative: Option<i32>,
    pub status_effects: Vec<String>,
}

impl EncounterCharacter {
    /// The stored part of this participation.
    pub open spec fn link(&self) -> Participation {
        Participation {
            id: self.id,
            encounter_id: self.encounter_id,
            character_id: self.character.id,
            initiative: self.initiative,
        }
    }
}

/// An encounter together with those who take part in it.
#[derive(Clone, Debug, PartialEq, Eq)]
pub struct EncounterDetail {
    pub encounter: Encounter,
    pub characters: Vec<EncounterCharacter>,
}

/// The row of table `encounters` for an encounter.
pub open spec fn encounter_row(e: EncounterView) -> Seq<SqlValueView> {
    seq![SqlValueView::Text(uuid_text(e.id)), SqlValueView::Text(e.encounter_title)]
}

/// What an `encounters` row decodes to: the encounter that its two columns spell, or
/// the first column that is missing, of the wrong kind, or not an identifier's text.
pub open spec fn decode_encounter(row: Seq<SqlValueView>) -> Result<EncounterView, StoreError> {
    if id_col(row, 0) is None {
        Err(StoreError::DataCorruption(Column::Id))
    } else if text_col(row, 1) is None {
        Err(StoreError::DataCorruption(Column::EncounterTitle))
    } else {
        Ok(EncounterView { id: id_col(row, 0).unwrap(), encounter_title: text_col(row, 1).unwrap() })
    }
}

/// What a lookup by identifier yields from the rows that the store returned:
/// `NotFound` where there is none, else the first row decoded. A row that decodes to
/// an encounter under another identifier than the one asked for is no answer to the
/// lookup, and is reported as corrupt in its identifier.
pub open spec fn lookup_encounter(id: u128, rows: Seq<Vec<SqlValue>>) -> Result<
    EncounterView,
    StoreError,
> {
    if rows.len() == 0 {
        Err(StoreError::NotFound)
    } else {
        match decode_encounter(row_view(rows[0]@)) {
            Ok(e) => if e.id == id {
                Ok(e)
            } else {
                Err(StoreError::DataCorruption(Column::Id))
            },
            Err(e) => Err(e),
        }
    }
}

/// The view of the outcome of an operation that yields an encounter.
pub open spec fn encounter_outcome(outcome: Result<Encounter, StoreError>) -> Result<
    EncounterView,
    StoreError,
> {
    match outcome {
        Ok(e) => Ok(e@),
        Err(e) => Err(e),
    }
}

/// Whether `out` holds, row for row, the encounters that `rows` decode to.
pub open spec fn encounters_of_rows(rows: Seq<Vec<SqlValue>>, out: Seq<Encounter>) -> bool {
    &&& out.len() == rows.len()
    &&& forall|i: int|
        0 <= i < rows.len() ==> decode_encounter(row_view(#[trigger] rows[i]@)) == Ok::<
            EncounterView,
            StoreError,
        >(out[i]@)
}

/// Whether `error` is what decoding the first row of `rows` that does not decode
/// reports.
pub open spec fn first_encounter_fault(rows: Seq<Vec<SqlValue>>, error: StoreError) -> bool {
    exists|i: int|
        {
            &&& 0 <= i < rows.len()
            &&& decode_encounter(row_view(#[trigger] rows[i]@)) == Err::<
                EncounterView,
                StoreError,
            >(error)
            &&& forall|j: int|
                0 <= j < i ==> decode_encounter(row_view(#[trigger] rows[j]@)) is Ok
        }
}

/// The row of table `encounter_characters` for a participation.
pub open spec fn participation_row(p: Participation) -> Seq<SqlValueView> {
    seq![
        SqlValueView::Text(uuid_text(p.id)),
        SqlValueView::Text(uuid_text(p.encounter_id)),
        SqlValueView::Text(uuid_text(p.character_id)),
        opt_int_cell(p.initiative),
    ]
}

/// What an `encounter_characters` row decodes to: the participation that its four
/// columns spell, or the first column that is missing, of the wrong kind, or not an
/// identifier's text.
pub open spec fn decode_participation(row: Seq<SqlValueView>) -> Result<
    Participation,
    StoreError,
> {
    if id_col(row, 0) is None {
        Err(StoreError::DataCorruption(Column::Id))
    } else if id_col(row, 1) is None {
        Err(StoreError::DataCorruption(Column::EncounterId))
    } else if id_col(row, 2) is None {
        Err(StoreError::DataCorruption(Column::CharacterId))
    } else if opt_int_col(row, 3) is None {
        Err(StoreError::DataCorruption(Column::Initiative))
    } else {
        Ok(
            Participation {
                id: id_col(row, 0).unwrap(),
                encounter_id: id_col(row, 1).unwrap(),
                character_id: id_col(row, 2).unwrap(),
                initiative: opt_int_col(row, 3).unwrap(),
            },
        )
    }
}

/// Whether a participant is what a stored participation makes: its stored part is that
/// participation, it carries no status effect, and its character is one that a lookup
/// under the participation's character identifier can yield.
pub open spec fn resolves(participant: EncounterCharacter, stored: Participation) -> bool {
    &&& participant.link() == stored
    &&& participant.status_effects@.len() == 0
    &&& looks_up_character(stored.character_id, Ok(participant.character))
}

/// Whether `out` holds, row for row, a participant of the encounter asked for,
/// resolved from each of `rows`.
pub open spec fn participants_of_rows(
    rows: Seq<Vec<SqlValue>>,
    encounter_id: u128,
    out: Seq<EncounterCharacter>,
) -> bool {
    &&& out.len() == rows.len()
    &&& forall|i: int|
        0 <= i < rows.len() ==> (decode_participation(row_view(#[trigger] rows[i]@)) matches Ok(
            stored,
        ) && stored.encounter_id == encounter_id && resolves(out[i], stored))
}

/// A row written for an encounter decodes to that encounter, whenever its identifier
/// reads back from its text.
pub proof fn lemma_encounter_row_reads_back(e: EncounterView)
    requires
        uuid_parse(uuid_text(e.id)) == Some(e.id),
    ensures
        decode_encounter(encounter_row(e)) == Ok::<EncounterView, StoreError>(e),
{
    let row = encounter_row(e);
    assert(id_col(row, 0) == Some(e.id));
    assert(text_col(row, 1) == Some(e.encounter_title));
}

/// A row written for a participation decodes to that participation, whenever its
/// three identifiers read back from their texts.
pub proof fn lemma_participation_row_reads_back(p: Participation)
    requires
        uuid_parse(uuid_text(p.id)) == Some(p.id),
        uuid_parse(uuid_text(p.encounter_id)) == Some(p.encounter_id),
        uuid_parse(uuid_text(p.character_id)) == Some(p.character_id),
    ensures
        decode_participation(participation_row(p)) == Ok::<Participation, StoreError>(p),
{
    let row = participation_row(p);
    assert(id_col(row, 0) == Some(p.id));
    assert(id_col(row, 1) == Some(p.encounter_id));
    assert(id_col(row, 2) == Some(p.character_id));
    assert(opt_int_col(row, 3) == Some(p.initiative));
}

impl Participation {
    /// Decodes a row of table `encounter_characters`, strictly.
    pub fn from_row(row: &Vec<SqlValue>) -> (stored: Result<Participation, StoreError>)
        ensures
            stored == decode_participation(row_view(row@)),
    {
        let id = match read_id(row, 0) {
            Some(v) => v,
            None => { return Err(StoreError::DataCorruption(Column::Id)); },
        };
        let encounter_id = match read_id(row, 1) {
            Some(v) => v,
            None => { return Err(StoreError::DataCorruption(Column::EncounterId)); },
        };
        let character_id = match read_id(row, 2) {
            Some(v) => v,
            None => { return Err(StoreError::DataCorruption(Column::CharacterId)); },
        };
        let initiative = match read_opt_int(row, 3) {
            Some(v) => v,
            None => { return Err(StoreError::DataCorruption(Column::Initiative)); },
        };
        Ok(Participation { id, encounter_id, character_id, initiative })
    }

    /// The row to insert for this participation; it decodes to this participation.
    pub fn to_row(&self) -> (cells: Vec<SqlValue>)
        ensures
            row_view(cells@) == participation_row(*self),
            all_bindable(cells@),
            decode_participation(row_view(cells@)) == Ok::<Participation, StoreError>(*self),
    {
        let mut cells: Vec<SqlValue> = Vec::new();
        cells.push(SqlValue::Text(id_text(self.id)));
        cells.push(SqlValue::Text(id_text(self.encounter_id)));
        cells.push(SqlValue::Text(id_text(self.character_id)));
        cells.push(
            match self.initiative {
                Some(n) => SqlValue::Integer(n as i64),
                None => SqlValue::Null,
            },
        );
        proof {
            assert(row_view(cells@) =~= participation_row(*self));
            lemma_participation_row_reads_back(*self);
        }
        cells
    }
}

impl Encounter {
    /// A new encounter with a fresh random identifier.
    pub fn new(encounter_title: String) -> (encounter: Encounter)
        ensures
            is_random_id(encounter.id),
            encounter.encounter_title@ == encounter_title@,
    {
        Encounter { id: fresh_id(), encounter_title }
    }

    /// The row to insert for this encounter; it decodes to this encounter.
    pub fn to_row(&self) -> (cells: Vec<SqlValue>)
        ensures
            row_view(cells@) == encounter_row(self@),
            all_bindable(cells@),
            decode_encounter(row_view(cells@)) == Ok::<EncounterView, StoreError>(self@),
    {
        let mut cells: Vec<SqlValue> = Vec::new();
        cells.push(SqlValue::Text(id_text(self.id)));
        cells.push(SqlValue::Text(self.encounter_title.clone()));
        proof {
            assert(row_view(cells@) =~= encounter_row(self@));
            lemma_encounter_row_reads_back(self@);
        }
        cells
    }

    /// Creates an encounter with the given title and stores it with a single insert.
    /// The encounter is returned only if the store took it.
    pub fn create(conn: &rusqlite::Connection, encounter_title: String) -> (created: Result<
        Encounter,
        StoreError,
    >)
        ensures
            match created {
                Ok(encounter) => is_random_id(encounter.id) && encounter.encounter_title@
                    == encounter_title@,
                Err(e) => e == StoreError::ConstraintViolation || e == StoreError::ConnectionError,
            },
    {
        let encounter = Encounter::new(encounter_title);
        let saved = encounter.save(conn);
        keep_if_stored(encounter, saved)
    }

    /// Inserts this encounter into table `encounters` with a single statement. A
    /// refusal by a constraint is a `ConstraintViolation`, any other failure a
    /// `ConnectionError`.
    pub fn save(&self, conn: &rusqlite::Connection) -> (saved: Result<(), StoreError>)
        ensures
            saved matches Err(e) ==> e == StoreError::ConstraintViolation || e
                == StoreError::ConnectionError,
    {
        let cells = self.to_row();
        match execute(conn, Statement::InsertEncounter, &cells) {
            Ok(_) => Ok(()),
            Err(e) => Err(e),
        }
    }

    /// Decodes a row of table `encounters`, strictly.
    pub fn from_row(row: &Vec<SqlValue>) -> (encounter: Result<Encounter, StoreError>)
        ensures
            encounter_outcome(encounter) == decode_encounter(row_view(row@)),
    {
        let id = match read_id(row, 0) {
            Some(v) => v,
            None => { return Err(StoreError::DataCorruption(Column::Id)); },
        };
        let encounter_title = match read_text(row, 1) {
            Some(v) => v,
            None => { return Err(StoreError::DataCorruption(Column::EncounterTitle)); },
        };
        Ok(Encounter { id, encounter_title })
    }

    /// What a lookup by identifier yields from the rows that the store returned.
    pub fn from_lookup(id: u128, rows: &Vec<Vec<SqlValue>>) -> (encounter: Result<
        Encounter,
        StoreError,
    >)
        ensures
            encounter_outcome(encounter) == lookup_encounter(id, rows@),
            rows@.len() == 0 ==> encounter matches Err(StoreError::NotFound),
            encounter matches Ok(e) ==> e.id == id,
    {
        if rows.len() == 0 {
            Err(StoreError::NotFound)
        } else {
            match Encounter::from_row(&rows[0]) {
                Ok(encounter) => {
                    if encounter.id == id {
                        Ok(encounter)
                    } else {
                        Err(StoreError::DataCorruption(Column::Id))
                    }
                },
                Err(e) => Err(e),
            }
        }
    }

    /// Decodes every row, in order; the first row that does not decode fails the whole.
    pub fn from_rows(rows: &Vec<Vec<SqlValue>>) -> (encounters: Result<Vec<Encounter>, StoreError>)
        ensures
            encounters_from_rows(rows@, encounters),
    {
        let mut out: Vec<Encounter> = Vec::new();
        let mut i: usize = 0;
        while i < rows.len()
            invariant
                i <= rows@.len(),
                out@.len() == i,
                forall|j: int|
                    0 <= j < i ==> decode_encounter(row_view(#[trigger] rows@[j]@)) == Ok::<
                        EncounterView,
                        StoreError,
                    >(out@[j]@),
            decreases rows@.len() - i,
        {
            let ghost before = out@;
            match Encounter::from_row(&rows[i]) {
                Ok(encounter) => {
                    out.push(encounter);
                    assert(forall|j: int| 0 <= j < i ==> out@[j] == before[j]);
                },
                Err(e) => {
                    return Err(e);
                },
            }
            i = i + 1;
        }
        Ok(out)
    }

    /// Loads every stored encounter, in the order in which the store yields the rows.
    pub fn load_all_encounters(conn: &rusqlite::Connection) -> (encounters: Result<
        Vec<Encounter>,
        StoreError,
    >)
        ensures
            loads_encounters(encounters),
    {
        let params: Vec<SqlValue> = Vec::new();
        match fetch(conn, Statement::SelectEncounters, &params) {
            Ok(rows) => Encounter::from_rows(&rows),
            Err(e) => Err(e),
        }
    }

    /// Looks an encounter up by its identifier.
    ///
    /// The store decides which rows come back, and the outcome is what
    /// `lookup_encounter` makes of them; a store that cannot be asked is a
    /// `ConnectionError`. So an encounter that is returned carries the identifier asked
    /// for, and no failure is a `ConstraintViolation`.
    pub fn load_by_id(conn: &rusqlite::Connection, encounter_id: u128) -> (encounter: Result<
        Encounter,
        StoreError,
    >)
        ensures
            looks_up_encounter(encounter_id, encounter),
            match encounter {
                Ok(e) => e.id == encounter_id,
                Err(e) => e != StoreError::ConstraintViolation,
            },
    {
        let mut params: Vec<SqlValue> = Vec::new();
        params.push(SqlValue::Text(id_text(encounter_id)));
        match fetch(conn, Statement::SelectEncounter, &params) {
            Ok(rows) => Encounter::from_lookup(encounter_id, &rows),
            Err(e) => Err(e),
        }
    }
}

impl EncounterCharacter {
    /// A new participation of `character` in `encounter`, with a fresh random
    /// identifier, no initiative and no status effect.
    pub fn new(character: Character, encounter: &Encounter) -> (participant: EncounterCharacter)
        ensures
            is_random_id(participant.id),
            participant.character == character,
            participant.encounter_id == encounter.id,
            participant.initiative is None,
            participant.status_effects@.len() == 0,
    {
        EncounterCharacter {
            id: fresh_id(),
            character,
            encounter_id: encounter.id,
            initiative: None,
            status_effects: Vec::new(),
        }
    }

    /// The stored part of this participation.
    pub fn stored(&self) -> (stored: Participation)
        ensures
            stored == self.link(),
    {
        Participation {
            id: self.id,
            encounter_id: self.encounter_id,
            character_id: self.character.id,
            initiative: self.initiative,
        }
    }

    /// The participant that a stored participation and the character resolved for it
    /// make. The status effects are not stored, so there are none.
    pub fn resolved(stored: Participation, character: Character) -> (participant:
        EncounterCharacter)
        ensures
            participant.id == stored.id,
            participant.encounter_id == stored.encounter_id,
            participant.initiative == stored.initiative,
            participant.character == character,
            participant.status_effects@.len() == 0,
    {
        EncounterCharacter {
            id: stored.id,
            character,
            encounter_id: stored.encounter_id,
            initiative: stored.initiative,
            status_effects: Vec::new(),
        }
    }

    /// What one row's resolution yields once its character has been looked up: the
    /// participant made of the stored participation and the character found, or the
    /// very error of the lookup.
    pub fn resolve_step(stored: Participation, found: Result<Character, StoreError>) -> (step:
        Result<EncounterCharacter, StoreError>)
        ensures
            match found {
                Ok(c) => step matches Ok(p) && p.id == stored.id && p.encounter_id
                    == stored.encounter_id && p.initiative == stored.initiative && p.character
                    == c && p.status_effects@.len() == 0,
                Err(e) => step == Err::<EncounterCharacter, StoreError>(e),
            },
    {
        match found {
            Ok(character) => Ok(EncounterCharacter::resolved(stored, character)),
            Err(e) => Err(e),
        }
    }

    /// Inserts this participation into table `encounter_characters` with a single
    /// statement. The status effects are not written. A refusal by a constraint is a
    /// `ConstraintViolation`, any other failure a `ConnectionError`.
    pub fn save(&self, conn: &rusqlite::Connection) -> (saved: Result<(), StoreError>)
        ensures
            saved matches Err(e) ==> e == StoreError::ConstraintViolation || e
                == StoreError::ConnectionError,
    {
        let cells = self.stored().to_row();
        match execute(
            conn,
            Statement::InsertParticipation,
            &cells,
        ) {
            Ok(_) => Ok(()),
            Err(e) => Err(e),
        }
    }

    /// Resolves the rows of one encounter's participations, in order: each row is
    /// decoded and its character looked up, one lookup per row.
    ///
    /// No rows give an empty list. The first row that does not decode, that belongs to
    /// another encounter than the one asked for (reported as corrupt in its
    /// encounter), or whose character cannot be loaded, fails the whole with that
    /// error; `resolve_step` says what is made of each lookup.
    pub fn resolve_rows(
        conn: &rusqlite::Connection,
        encounter_id: u128,
        rows: &Vec<Vec<SqlValue>>,
    ) -> (participants: Result<Vec<EncounterCharacter>, StoreError>)
        ensures
            rows@.len() == 0 ==> (participants matches Ok(out) && out@.len() == 0),
            rows@.len() > 0 ==> (row_fault(row_view(rows@[0]@), encounter_id) matches Some(e)
                ==> participants == Err::<Vec<EncounterCharacter>, StoreError>(e)),
            match participants {
                Ok(out) => participants_of_rows(rows@, encounter_id, out@),
                Err(e) => e != StoreError::ConstraintViolation && resolve_fails(
                    rows@,
                    encounter_id,
                    e,
                ),
            },
    {
        let mut out: Vec<EncounterCharacter> = Vec::new();
        let mut i: usize = 0;
        while i < rows.len()
            invariant
                i <= rows@.len(),
                out@.len() == i,
                forall|j: int|
                    0 <= j < i ==> (decode_participation(
                        row_view(#[trigger] rows@[j]@),
                    ) matches Ok(stored) && stored.encounter_id == encounter_id && resolves(
                        out@[j],
                        stored,
                    )),
            decreases rows@.len() - i,
        {
            let ghost before = out@;
            let stored = match Participation::from_row(&rows[i]) {
                Ok(stored) => stored,
                Err(e) => {
                    assert(resolve_fails_at(rows@, encounter_id, i as int, e));
                    return Err(e);
                },
            };
            if stored.encounter_id != encounter_id {
                assert(resolve_fails_at(
                    rows@,
                    encounter_id,
                    i as int,
                    StoreError::DataCorruption(Column::EncounterId),
                ));
                return Err(StoreError::DataCorruption(Column::EncounterId));
            }
            let found = Character::load_by_id(stored.character_id, conn);
            let ghost looked_up = found;
            let participant = match EncounterCharacter::resolve_step(stored, found) {
                Ok(participant) => participant,
                Err(e) => {
                    assert(looked_up == Err::<Character, StoreError>(e));
                    assert(resolve_fails_at(rows@, encounter_id, i as int, e));
                    return Err(e);
                },
            };
            assert(looks_up_character(stored.character_id, Ok(participant.character)));
            out.push(participant);
            assert(forall|j: int| 0 <= j < i ==> out@[j] == before[j]);
            i = i + 1;
        }
        Ok(out)
    }

    /// Loads those who take part in an encounter, each with its character resolved by
    /// a lookup of its own. An encounter without participants gives an empty list.
    ///
    /// Which rows there are is the store's to say, and the outcome is what
    /// `resolve_rows` makes of them; a store that cannot be asked is a
    /// `ConnectionError`.
    pub fn load_for_encounter(encounter: &Encounter, conn: &rusqlite::Connection) -> (participants:
        Result<Vec<EncounterCharacter>, StoreError>)
        ensures
            match participants {
                Ok(out) => resolves_some_rows(encounter.id, out@) && forall|i: int|
                    0 <= i < out@.len() ==> (#[trigger] out@[i]).encounter_id == encounter.id
                        && out@[i].status_effects@.len() == 0,
                Err(e) => e != StoreError::ConstraintViolation && (e
                    == StoreError::ConnectionError || fails_some_rows(encounter.id, e)),
            },
    {
        let mut params: Vec<SqlValue> = Vec::new();
        params.push(SqlValue::Text(id_text(encounter.id)));
        match fetch(
            conn,
            Statement::SelectParticipations,
            &params,
        ) {
            Ok(rows) => {
                let participants = EncounterCharacter::resolve_rows(conn, encounter.id, &rows);
                proof {
                    if let Err(e) = &participants {
                        assert(resolve_fails(rows@, encounter.id, *e));
                    }
                    if let Ok(out) = &participants {
                        assert forall|i: int| 0 <= i < out@.len() implies (#[trigger] out@[i]).encounter_id
                            == encounter.id && out@[i].status_effects@.len() == 0 by {
                            assert(decode_participation(row_view(rows@[i]@)) is Ok);
                        }
                    }
                }
                participants
            },
            Err(e) => Err(e),
        }
    }

    /// Decides what adding a character to an encounter makes of the two lookups. A
    /// character that was not found fails the whole with the error of its lookup,
    /// whatever came of the encounter; else an encounter that was not found fails it
    /// with the error of its lookup. Where both were found, the participation links
    /// them, with a fresh identifier, no initiative and no status effect.
    pub fn link_found(
        character: Result<Character, StoreError>,
        encounter: Result<Encounter, StoreError>,
    ) -> (linked: Result<EncounterCharacter, StoreError>)
        ensures
            match (character, encounter) {
                (Err(e), _) => linked == Err::<EncounterCharacter, StoreError>(e),
                (Ok(_), Err(e)) => linked == Err::<EncounterCharacter, StoreError>(e),
                (Ok(c), Ok(n)) => linked matches Ok(p) && links(p, c, n),
            },
    {
        match character {
            Ok(character) => match encounter {
                Ok(encounter) => Ok(EncounterCharacter::new(character, &encounter)),
                Err(e) => Err(e),
            },
            Err(e) => Err(e),
        }
    }

    /// Adds a character to an encounter.
    ///
    /// The character is looked up first, and the encounter only where the character
    /// was found; `link_found` decides what comes of the two lookups, so either one
    /// fails the call with its own error, `NotFound` where nothing is stored under the
    /// identifier, and nothing is inserted then. Where both were found, a
    /// participation with a fresh identifier and no initiative is inserted and
    /// returned, or the error of the insert. Nothing keeps a pair from being linked
    /// twice: each call inserts a row of its own. The lookups and the insert are
    /// separate statements, not a transaction.
    pub fn add(conn: &rusqlite::Connection, encounter_id: u128, character_id: u128) -> (added:
        Result<EncounterCharacter, StoreError>)
        ensures
            adds(encounter_id, character_id, added),
            added matches Ok(participant) ==> {
                &&& is_random_id(participant.id)
                &&& participant.link() == (Participation {
                    id: participant.id,
                    encounter_id,
                    character_id,
                    initiative: None,
                })
                &&& looks_up_character(character_id, Ok(participant.character))
                &&& participant.status_effects@.len() == 0
            },
    {
        let character = Character::load_by_id(character_id, conn);
        let encounter = match &character {
            Ok(_) => Encounter::load_by_id(conn, encounter_id),
            Err(e) => Err(*e),
        };
        let ghost found_character = character;
        let ghost found_encounter = encounter;
        match EncounterCharacter::link_found(character, encounter) {
            Ok(participant) => {
                let saved = participant.save(conn);
                let added = keep_if_stored(participant, saved);
                proof {
                    assert(add_steps(
                        encounter_id,
                        character_id,
                        found_character,
                        found_encounter,
                        saved,
                        added,
                    ));
                }
                added
            },
            Err(e) => {
                proof {
                    assert(add_steps(
                        encounter_id,
                        character_id,
                        found_character,
                        found_encounter,
                        Ok(()),
                        Err(e),
                    ));
                }
                Err(e)
            },
        }
    }
}

impl EncounterDetail {
    /// What loading a detail makes of the encounter found and of the outcome of
    /// loading its participants: the two paired, or the very error of that load.
    pub fn of_found(
        encounter: Encounter,
        participants: Result<Vec<EncounterCharacter>, StoreError>,
    ) -> (detail: Result<EncounterDetail, StoreError>)
        ensures
            match participants {
                Ok(out) => detail matches Ok(d) && d.encounter == encounter && d.characters == out,
                Err(e) => detail == Err::<EncounterDetail, StoreError>(e),
            },
    {
        match participants {
            Ok(characters) => Ok(EncounterDetail { encounter, characters }),
            Err(e) => Err(e),
        }
    }

    /// Loads an encounter with those who take part in it.
    ///
    /// The encounter is looked up first, and its lookup's error is the call's:
    /// `NotFound` where the encounter is not stored. Else the encounter is paired with
    /// what `load_for_encounter` yields for it, an empty list where nobody takes part,
    /// or the call fails with the error of that load.
    pub fn load_by_id(conn: &rusqlite::Connection, encounter_id: u128) -> (detail: Result<
        EncounterDetail,
        StoreError,
    >)
        ensures
            loads_detail(encounter_id, detail),
            match detail {
                Ok(d) => d.encounter.id == encounter_id && resolves_some_rows(
                    encounter_id,
                    d.characters@,
                ) && forall|i: int|
                    0 <= i < d.characters@.len() ==> (#[trigger] d.characters@[i]).encounter_id
                        == encounter_id && d.characters@[i].status_effects@.len() == 0,
                Err(e) => e != StoreError::ConstraintViolation,
            },
    {
        let found = Encounter::load_by_id(conn, encounter_id);
        let ghost looked_up = found;
        let encounter = match found {
            Ok(encounter) => encounter,
            Err(e) => {
                proof {
                    assert(detail_steps(encounter_id, looked_up, Err(e)));
                }
                return Err(e);
            },
        };
        let participants = EncounterCharacter::load_for_encounter(&encounter, conn);
        let detail = EncounterDetail::of_found(encounter, participants);
        proof {
            assert(detail_steps(encounter_id, looked_up, detail));
        }
        detail
    }
}

/// Creates an encounter with the given title and stores it, on a connection borrowed
/// from the pool for this call.
pub fn create_encounter_command(pool: &ConnectionPool, encounter_title: String) -> (created:
    Result<(), StoreError>)
    ensures
        created matches Err(e) ==> e == StoreError::ConstraintViolation || e
            == StoreError::ConnectionError,
{
    let lent = match pool.acquire() {
        Ok(lent) => lent,
        Err(e) => {
            return Err(e);
        },
    };
    discard(Encounter::create(lent.connection(), encounter_title))
}

/// Loads every stored encounter, on a connection borrowed from the pool for this
/// call.
pub fn load_encounters_command(pool: &ConnectionPool) -> (encounters: Result<
    Vec<Encounter>,
    StoreError,
>)
    ensures
        loads_encounters(encounters),
{
    let lent = match pool.acquire() {
        Ok(lent) => lent,
        Err(e) => {
            return Err(e);
        },
    };
    Encounter::load_all_encounters(lent.connection())
}

/// Loads the detail of the encounter whose identifier is given as text. A text that
/// is no identifier names no encounter: the call fails with `NotFound`, and neither
/// the pool nor the store is asked. Else the outcome is that of
/// `EncounterDetail::load_by_id` for the identifier read, on a connection borrowed
/// from the pool; a pool that lends none is a `ConnectionError`.
pub fn load_encounter_detail_command(pool: &ConnectionPool, encounter_id: &str) -> (detail:
    Result<EncounterDetail, StoreError>)
    ensures
        match uuid_parse(encounter_id@) {
            Some(id) => loads_detail(id, detail),
            None => detail == Err::<EncounterDetail, StoreError>(StoreError::NotFound),
        },
        match detail {
            Ok(d) => uuid_parse(encounter_id@) == Some(d.encounter.id) && resolves_some_rows(
                d.encounter.id,
                d.characters@,
            ) && forall|i: int|
                0 <= i < d.characters@.len() ==> (#[trigger] d.characters@[i]).encounter_id
                    == d.encounter.id && d.characters@[i].status_effects@.len() == 0,
            Err(e) => e != StoreError::ConstraintViolation,
        },
{
    let id = match parse_id(encounter_id) {
        Some(id) => id,
        None => {
            return Err(StoreError::NotFound);
        },
    };
    let lent = match pool.acquire() {
        Ok(lent) => lent,
        Err(e) => {
            proof {
                assert(detail_steps(
                    id,
                    Err::<Encounter, StoreError>(e),
                    Err::<EncounterDetail, StoreError>(e),
                ));
            }
            return Err(e);
        },
    };
    EncounterDetail::load_by_id(lent.connection(), id)
}

/// Adds a character to an encounter, both given by the text of their identifiers. A
/// text that is no identifier names nothing: the call fails with `NotFound`, and
/// neither the pool nor the store is asked. Else the outcome is that of
/// `EncounterCharacter::add` for the encounter read from `encounter_id` and the
/// character read from `character_id`, without the participation; a pool that lends no
/// connection is a `ConnectionError`.
pub fn add_character_to_encounter_command(
    pool: &ConnectionPool,
    encounter_id: &str,
    character_id: &str,
) -> (added: Result<(), StoreError>)
    ensures
        match (uuid_parse(encounter_id@), uuid_parse(character_id@)) {
            (Some(encounter), Some(character)) => adds_quietly(encounter, character, added),
            _ => added == Err::<(), StoreError>(StoreError::NotFound),
        },
{
    let character = match parse_id(character_id) {
        Some(id) => id,
        None => {
            return Err(StoreError::NotFound);
        },
    };
    let encounter = match parse_id(encounter_id) {
        Some(id) => id,
        None => {
            return Err(StoreError::NotFound);
        },
    };
    let lent = match pool.acquire() {
        Ok(lent) => lent,
        Err(e) => {
            proof {
                let unasked = Err::<EncounterCharacter, StoreError>(e);
                assert(add_steps(
                    encounter,
                    character,
                    Err::<Character, StoreError>(e),
                    Err::<Encounter, StoreError>(e),
                    Ok::<(), StoreError>(()),
                    unasked,
                ));
                assert(adds(encounter, character, unasked));
                assert(discarded(unasked) == Err::<(), StoreError>(e));
            }
            return Err(e);
        },
    };
    let linked = EncounterCharacter::add(lent.connection(), encounter, character);
    let ghost outcome = linked;
    let added = discard(linked);
    proof {
        assert(adds(encounter, character, outcome) && added == discarded(outcome));
    }
    added
}

/// Whether `outcome` is what decoding `rows` in order yields: the encounters that
/// they decode to, row for row, or the error of the first row that does not decode.
pub open spec fn encounters_from_rows(
    rows: Seq<Vec<SqlValue>>,
    outcome: Result<Vec<Encounter>, StoreError>,
) -> bool {
    match outcome {
        Ok(out) => encounters_of_rows(rows, out@),
        Err(e) => first_encounter_fault(rows, e),
    }
}

/// Whether `outcome` can come of loading every encounter. Either the store gave no
/// answer, which is a `ConnectionError`, or it answered with some rows and the outcome
/// is what decoding those rows in order yields. So a list that is returned holds
/// nothing but decoded rows, one for each row and in their order, and the only other
/// failure is a `DataCorruption` that names a column.
pub open spec fn loads_encounters(outcome: Result<Vec<Encounter>, StoreError>) -> bool {
    &&& ((outcome matches Err(e) && e == StoreError::ConnectionError) || (exists|
        rows: Seq<Vec<SqlValue>>,
    | encounters_from_rows(rows, outcome)))
    &&& (outcome matches Err(e) ==> e == StoreError::ConnectionError || e.column() is Some)
}

/// Whether `out` is a list of participants that the store's answer can give for an
/// encounter: there are rows of that encounter, one for each participant and in their
/// order, such that each participant's stored part is what its row decodes to.
pub open spec fn resolves_some_rows(encounter_id: u128, out: Seq<EncounterCharacter>) -> bool {
    exists|rows: Seq<Vec<SqlValue>>| participants_of_rows(rows, encounter_id, out)
}

/// Whether `outcome` can come of looking an encounter up by `id`. Either the store
/// gave no answer, which is a `ConnectionError`, or it answered with some rows and the
/// outcome is what `lookup_encounter` makes of them: `NotFound` for no rows, else the
/// first row decoded.
pub open spec fn looks_up_encounter(id: u128, outcome: Result<Encounter, StoreError>) -> bool {
    (outcome matches Err(e) && e == StoreError::ConnectionError) || (exists|
        rows: Seq<Vec<SqlValue>>,
    | encounter_outcome(outcome) == #[trigger] lookup_encounter(id, rows))
}

/// The error that a row of participations gives before any character is looked up:
/// that of its decoding, or, for a row of another encounter than the one asked for, a
/// corrupt encounter column. `None` for a row that is in order.
pub open spec fn row_fault(row: Seq<SqlValueView>, encounter_id: u128) -> Option<StoreError> {
    match decode_participation(row) {
        Err(e) => Some(e),
        Ok(stored) => if stored.encounter_id != encounter_id {
            Some(StoreError::DataCorruption(Column::EncounterId))
        } else {
            None
        },
    }
}

/// Whether a participation links a character and an encounter as a new link does: it
/// holds that very character, belongs to that encounter, has a random identifier of
/// its own, no initiative and no status effect.
pub open spec fn links(participant: EncounterCharacter, character: Character, encounter: Encounter) -> bool {
    &&& participant.character == character
    &&& participant.encounter_id == encounter.id
    &&& participant.initiative is None
    &&& participant.status_effects@.len() == 0
    &&& is_random_id(participant.id)
}

/// Whether `added` is what adding a character to an encounter yields, given what the
/// store answered at each step: the lookup of the character under `character_id`, the
/// lookup of the encounter under `encounter_id` where the character was found, and the
/// insert where both were. A failed lookup is the outcome, and the outcome of the
/// insert is not asked for. Where both were found, the outcome is the participation
/// that links them, if the store took it, or the error of the insert.
pub open spec fn add_steps(
    encounter_id: u128,
    character_id: u128,
    character: Result<Character, StoreError>,
    encounter: Result<Encounter, StoreError>,
    saved: Result<(), StoreError>,
    added: Result<EncounterCharacter, StoreError>,
) -> bool {
    &&& looks_up_character(character_id, character)
    &&& match character {
        Err(e) => added == Err::<EncounterCharacter, StoreError>(e),
        Ok(c) => looks_up_encounter(encounter_id, encounter) && match encounter {
            Err(e) => added == Err::<EncounterCharacter, StoreError>(e),
            Ok(n) => match saved {
                Err(e) => (e == StoreError::ConstraintViolation || e
                    == StoreError::ConnectionError) && added == Err::<
                    EncounterCharacter,
                    StoreError,
                >(e),
                Ok(_) => added matches Ok(p) && links(p, c, n),
            },
        },
    }
}

/// Whether `added` can come of adding the character under `character_id` to the
/// encounter under `encounter_id`: whether there are answers of the store for which
/// `add_steps` gives it.
pub open spec fn adds(
    encounter_id: u128,
    character_id: u128,
    added: Result<EncounterCharacter, StoreError>,
) -> bool {
    exists|
        character: Result<Character, StoreError>,
        encounter: Result<Encounter, StoreError>,
        saved: Result<(), StoreError>,
    | add_steps(encounter_id, character_id, character, encounter, saved, added)
}

/// Whether `added` is an outcome of such an adding, without the participation.
pub open spec fn adds_quietly(encounter_id: u128, character_id: u128, added: Result<(), StoreError>) -> bool {
    exists|linked: Result<EncounterCharacter, StoreError>| #[trigger]
        adds(encounter_id, character_id, linked) && added == discarded(linked)
}

/// Whether `detail` is what loading a detail yields, given what the lookup of the
/// encounter under `encounter_id` answered: a failed lookup is the outcome; an
/// encounter that was found is the detail's own, together with participants that the
/// store's answer can give for it, or the load of the participants failed.
pub open spec fn detail_steps(
    encounter_id: u128,
    found: Result<Encounter, StoreError>,
    detail: Result<EncounterDetail, StoreError>,
) -> bool {
    &&& looks_up_encounter(encounter_id, found)
    &&& match found {
        Err(e) => detail == Err::<EncounterDetail, StoreError>(e),
        Ok(n) => match detail {
            Ok(d) => d.encounter == n && resolves_some_rows(encounter_id, d.characters@),
            Err(e) => e != StoreError::ConstraintViolation,
        },
    }
}

/// Whether `detail` can come of loading the detail of the encounter under
/// `encounter_id`.
pub open spec fn loads_detail(encounter_id: u128, detail: Result<EncounterDetail, StoreError>) -> bool {
    exists|found: Result<Encounter, StoreError>| detail_steps(encounter_id, found, detail)
}

/// Whether resolving `rows` can fail with `error` at the row `at`: every row before it
/// is in order, and the row itself does not decode, or belongs to another encounter,
/// or its character's lookup can fail with that error.
pub open spec fn resolve_fails_at(
    rows: Seq<Vec<SqlValue>>,
    encounter_id: u128,
    at: int,
    error: StoreError,
) -> bool {
    &&& 0 <= at < rows.len()
    &&& forall|j: int|
        0 <= j < at ==> row_fault(row_view(#[trigger] rows[j]@), encounter_id) is None
    &&& match decode_participation(row_view(rows[at]@)) {
        Err(e) => error == e,
        Ok(stored) => if stored.encounter_id != encounter_id {
            error == StoreError::DataCorruption(Column::EncounterId)
        } else {
            looks_up_character(stored.character_id, Err::<Character, StoreError>(error))
        },
    }
}

/// Whether loading the participants of an encounter can fail with `error` on an
/// answer of the store: whether there are rows whose resolving can fail with it.
pub open spec fn fails_some_rows(encounter_id: u128, error: StoreError) -> bool {
    exists|rows: Seq<Vec<SqlValue>>| resolve_fails(rows, encounter_id, error)
}

/// Whether resolving `rows` can fail with `error`.
pub open spec fn resolve_fails(rows: Seq<Vec<SqlValue>>, encounter_id: u128, error: StoreError) -> bool {
    exists|at: int| resolve_fails_at(rows, encounter_id, at, error)
}

/// A pair that was linked twice takes part twice. Where two rows of one encounter name
/// one character under two identifiers of their own, what they resolve to has two
/// participants, in the rows' order, each under its row's identifier and with its
/// row's initiative, and each holding a character under the identifier named.
pub proof fn lemma_linked_twice_takes_part_twice(
    rows: Seq<Vec<SqlValue>>,
    encounter_id: u128,
    first: Participation,
    second: Participation,
    out: Seq<EncounterCharacter>,
)
    requires
        rows.len() == 2,
        decode_participation(row_view(rows[0]@)) == Ok::<Participation, StoreError>(first),
        decode_participation(row_view(rows[1]@)) == Ok::<Participation, StoreError>(second),
        first.character_id == second.character_id,
        first.id != second.id,
        participants_of_rows(rows, encounter_id, out),
    ensures
        out.len() == 2,
        out[0].id == first.id && out[1].id == second.id && out[0].id != out[1].id,
        out[0].initiative == first.initiative && out[1].initiative == second.initiative,
        out[0].character.id == first.character_id && out[1].character.id == first.character_id,
        out[0].encounter_id == encounter_id && out[1].encounter_id == encounter_id,
{
    assert(decode_participation(row_view(rows[0]@)) is Ok);
    assert(decode_participation(row_view(rows[1]@)) is Ok);
}

} // verus!
