use dm_companion::character::Character;
use dm_companion::clock::Timestamp;
use dm_companion::encounter::{Encounter, EncounterCharacter, EncounterDetail, Participation};
use dm_companion::error::{discard, keep_if_stored, Column, StoreError};
use dm_companion::row::{read_flag, read_id, read_instant, read_int, read_opt_int, read_opt_text, read_text};
use dm_companion::sql::{failure_kind, SqlValue, Statement};
use dm_companion::storage::{bootstrap_plan, tables, Configuration, Table};

fn text(s: &str) -> SqlValue {
    SqlValue::Text(String::from(s))
}

fn sample() -> Character {
    Character {
        id: 0x550e8400_e29b_41d4_a716_446655440000u128,
        name: String::from("Thorin"),
        class: String::from("Fighter"),
        race: String::from("Dwarf"),
        background: None,
        level: 3,
        experience: 900,
        hit_points: 28,
        current_hit_points: 11,
        armor_class: 16,
        initiative: Some(-2),
        alive: false,
        notes: String::from("n"),
        created_at_utc: Timestamp { secs: 1431648000, nanos: 0 },
        updated_at_utc: Timestamp { secs: 1431648001, nanos: 500_000_000 },
    }
}

fn sample_row() -> Vec<SqlValue> {
    vec![
        text("550e8400-e29b-41d4-a716-446655440000"),
        text("Thorin"),
        text("Fighter"),
        text("Dwarf"),
        SqlValue::Null,
        SqlValue::Integer(3),
        SqlValue::Integer(900),
        SqlValue::Integer(28),
        SqlValue::Integer(11),
        SqlValue::Integer(16),
        SqlValue::Integer(-2),
        SqlValue::Integer(0),
        text("n"),
        text("2015-05-15T00:00:00+00:00"),
        text("2015-05-15T00:00:01.500+00:00"),
    ]
}

#[test]
fn character_row_is_written_column_by_column() {
    assert_eq!(sample().to_row(), Ok(sample_row()));
}

#[test]
fn character_row_decodes_to_the_character() {
    assert_eq!(Character::from_row(&sample_row()), Ok(sample()));
    let c = sample();
    assert_eq!(Character::from_row(&c.to_row().unwrap()), Ok(c));
}

#[test]
fn character_row_faults_name_the_first_bad_column() {
    let columns = [
        Column::Id,
        Column::Name,
        Column::Class,
        Column::Race,
        Column::Background,
        Column::Level,
        Column::Experience,
        Column::HitPoints,
        Column::CurrentHitPoints,
        Column::ArmorClass,
        Column::Initiative,
        Column::Alive,
        Column::Notes,
        Column::CreatedAtUtc,
        Column::UpdatedAtUtc,
    ];
    for (at, column) in columns.iter().enumerate() {
        let mut row = sample_row();
        row[at] = SqlValue::Unsupported;
        if at + 1 < row.len() {
            row[at + 1] = SqlValue::Unsupported;
        }
        assert_eq!(Character::from_row(&row), Err(StoreError::DataCorruption(*column)));
        let short: Vec<SqlValue> = sample_row().into_iter().take(at).collect();
        assert_eq!(Character::from_row(&short), Err(StoreError::DataCorruption(*column)));
    }
}

#[test]
fn character_row_is_decoded_strictly() {
    let mut row = sample_row();
    row[0] = text("550e8400-e29b-41d4-a716-44665544000");
    assert_eq!(Character::from_row(&row), Err(StoreError::DataCorruption(Column::Id)));
    let mut row = sample_row();
    row[5] = SqlValue::Integer(2147483648);
    assert_eq!(Character::from_row(&row), Err(StoreError::DataCorruption(Column::Level)));
    let mut row = sample_row();
    row[5] = text("3");
    assert_eq!(Character::from_row(&row), Err(StoreError::DataCorruption(Column::Level)));
    let mut row = sample_row();
    row[13] = text("2015-05-15 00:00:00");
    assert_eq!(Character::from_row(&row), Err(StoreError::DataCorruption(Column::CreatedAtUtc)));
    let mut row = sample_row();
    row[11] = SqlValue::Null;
    assert_eq!(Character::from_row(&row), Err(StoreError::DataCorruption(Column::Alive)));
}

#[test]
fn extra_columns_are_ignored() {
    let mut row = sample_row();
    row.push(SqlValue::Unsupported);
    assert_eq!(Character::from_row(&row), Ok(sample()));
}

#[test]
fn lookup_takes_the_first_row_or_reports_not_found() {
    let id = sample().id;
    assert_eq!(Character::from_lookup(id, &Vec::new()), Err(StoreError::NotFound));
    assert_eq!(Character::from_lookup(id, &vec![sample_row()]), Ok(sample()));
    assert_eq!(Character::from_lookup(id, &vec![sample_row(), Vec::new()]), Ok(sample()));
    assert_eq!(
        Character::from_lookup(id, &vec![Vec::new(), sample_row()]),
        Err(StoreError::DataCorruption(Column::Id))
    );
    assert_eq!(
        Character::from_lookup(id + 1, &vec![sample_row()]),
        Err(StoreError::DataCorruption(Column::Id))
    );
    let mut bad = sample_row();
    bad[2] = SqlValue::Null;
    assert_eq!(
        Character::from_lookup(id + 1, &vec![bad]),
        Err(StoreError::DataCorruption(Column::Class))
    );
    let row = vec![text("00000000-0000-0000-0000-000000000007"), text("Goblin Ambush")];
    assert_eq!(Encounter::from_lookup(7, &Vec::new()), Err(StoreError::NotFound));
    assert_eq!(
        Encounter::from_lookup(7, &vec![row.clone()]),
        Ok(Encounter { id: 7, encounter_title: String::from("Goblin Ambush") })
    );
    assert_eq!(
        Encounter::from_lookup(8, &vec![row]),
        Err(StoreError::DataCorruption(Column::Id))
    );
}

#[test]
fn rows_decode_in_order_and_fail_on_the_first_bad_one() {
    let mut second = sample();
    second.name = String::from("Balin");
    let mut second_row = sample_row();
    second_row[1] = text("Balin");
    assert_eq!(
        Character::from_rows(&vec![sample_row(), second_row.clone()]),
        Ok(vec![sample(), second])
    );
    let mut bad_notes = sample_row();
    bad_notes[12] = SqlValue::Null;
    let mut bad_race = sample_row();
    bad_race[3] = SqlValue::Null;
    assert_eq!(
        Character::from_rows(&vec![sample_row(), bad_notes, bad_race]),
        Err(StoreError::DataCorruption(Column::Notes))
    );
    assert_eq!(Character::from_rows(&Vec::new()), Ok(Vec::new()));
}

#[test]
fn encounter_row_round_trip() {
    let e = Encounter { id: 7, encounter_title: String::from("Goblin Ambush") };
    let row = vec![text("00000000-0000-0000-0000-000000000007"), text("Goblin Ambush")];
    assert_eq!(e.to_row(), row);
    assert_eq!(Encounter::from_row(&row), Ok(e.clone()));
    assert_eq!(Encounter::from_rows(&vec![row.clone(), row]), Ok(vec![e.clone(), e]));
    assert_eq!(
        Encounter::from_row(&vec![text("00000000-0000-0000-0000-000000000007")]),
        Err(StoreError::DataCorruption(Column::EncounterTitle))
    );
    assert_eq!(
        Encounter::from_rows(&vec![vec![SqlValue::Null]]),
        Err(StoreError::DataCorruption(Column::Id))
    );
}

#[test]
fn participation_row_round_trip() {
    let p = Participation { id: 1, encounter_id: 2, character_id: u128::MAX, initiative: Some(17) };
    let row = vec![
        text("00000000-0000-0000-0000-000000000001"),
        text("00000000-0000-0000-0000-000000000002"),
        text("ffffffff-ffff-ffff-ffff-ffffffffffff"),
        SqlValue::Integer(17),
    ];
    assert_eq!(p.to_row(), row);
    assert_eq!(Participation::from_row(&row), Ok(p));
    let unrolled = Participation { initiative: None, ..p };
    assert_eq!(unrolled.to_row()[3], SqlValue::Null);
    assert_eq!(Participation::from_row(&unrolled.to_row()), Ok(unrolled));
    let mut bad = row.clone();
    bad[1] = text("two");
    assert_eq!(Participation::from_row(&bad), Err(StoreError::DataCorruption(Column::EncounterId)));
    let mut bad = row.clone();
    bad[2] = SqlValue::Integer(2);
    assert_eq!(Participation::from_row(&bad), Err(StoreError::DataCorruption(Column::CharacterId)));
    let mut bad = row;
    bad[3] = text("17");
    assert_eq!(Participation::from_row(&bad), Err(StoreError::DataCorruption(Column::Initiative)));
}

#[test]
fn participant_is_built_without_status_effects() {
    let e = Encounter { id: 9, encounter_title: String::from("t") };
    let fresh = EncounterCharacter::new(sample(), &e);
    assert_eq!(fresh.encounter_id, 9);
    assert_eq!(fresh.character, sample());
    assert_eq!(fresh.initiative, None);
    assert!(fresh.status_effects.is_empty());
    assert_eq!(
        fresh.stored(),
        Participation { id: fresh.id, encounter_id: 9, character_id: sample().id, initiative: None }
    );
    let stored =
        Participation { id: 4, encounter_id: 5, character_id: sample().id, initiative: Some(3) };
    let resolved = EncounterCharacter::resolved(stored, sample());
    assert_eq!(resolved.id, 4);
    assert_eq!(resolved.encounter_id, 5);
    assert_eq!(resolved.stored(), stored);
    assert_eq!(resolved.initiative, Some(3));
    assert_eq!(resolved.character, sample());
    assert!(resolved.status_effects.is_empty());
}

#[test]
fn timestamps_are_written_as_rfc3339() {
    let at = Timestamp { secs: 1431648000, nanos: 0 };
    assert_eq!(at.to_text(), Some(String::from("2015-05-15T00:00:00+00:00")));
    let fine = Timestamp { secs: 0, nanos: 123_456_789 };
    assert_eq!(fine.to_text(), Some(String::from("1970-01-01T00:00:00.123456789+00:00")));
    assert_eq!(Timestamp { secs: i64::MAX, nanos: 0 }.to_text(), None);
    assert_eq!(Timestamp { secs: 0, nanos: 2_000_000_000 }.to_text(), None);
}

#[test]
fn timestamps_are_read_as_utc_instants() {
    assert_eq!(
        Timestamp::from_text("2015-05-15T00:00:00+00:00"),
        Some(Timestamp { secs: 1431648000, nanos: 0 })
    );
    assert_eq!(
        Timestamp::from_text("1996-12-19T16:39:57-08:00"),
        Some(Timestamp { secs: 851042397, nanos: 0 })
    );
    assert_eq!(
        Timestamp::from_text("1970-01-01T00:00:00.5Z"),
        Some(Timestamp { secs: 0, nanos: 500_000_000 })
    );
    assert_eq!(Timestamp::from_text("2015-05-15"), None);
    assert_eq!(Timestamp::from_text(""), None);
}

#[test]
fn now_is_written_and_read_back() {
    let now = Timestamp::now();
    let written = now.to_text().unwrap();
    assert_eq!(Timestamp::from_text(&written), Some(now));
}

#[test]
fn columns_are_read_by_kind() {
    let row = vec![
        text("abc"),
        SqlValue::Null,
        SqlValue::Integer(-2147483648),
        SqlValue::Integer(-2147483649),
        SqlValue::Integer(5),
        text("550E8400-E29B-41D4-A716-446655440000"),
        text("2015-05-15T00:00:00Z"),
    ];
    assert_eq!(read_text(&row, 0), Some(String::from("abc")));
    assert_eq!(read_text(&row, 1), None);
    assert_eq!(read_text(&row, 7), None);
    assert_eq!(read_opt_text(&row, 0), Some(Some(String::from("abc"))));
    assert_eq!(read_opt_text(&row, 1), Some(None));
    assert_eq!(read_opt_text(&row, 2), None);
    assert_eq!(read_int(&row, 2), Some(i32::MIN));
    assert_eq!(read_int(&row, 3), None);
    assert_eq!(read_int(&row, 1), None);
    assert_eq!(read_opt_int(&row, 1), Some(None));
    assert_eq!(read_opt_int(&row, 4), Some(Some(5)));
    assert_eq!(read_opt_int(&row, 3), None);
    assert_eq!(read_flag(&row, 4), Some(true));
    assert_eq!(read_flag(&row, 0), None);
    assert_eq!(read_flag(&vec![SqlValue::Integer(0)], 0), Some(false));
    assert_eq!(read_id(&row, 5), Some(0x550e8400_e29b_41d4_a716_446655440000u128));
    assert_eq!(read_id(&row, 0), None);
    assert_eq!(read_instant(&row, 6), Some(Timestamp { secs: 1431648000, nanos: 0 }));
    assert_eq!(read_instant(&row, 0), None);
}

#[test]
fn errors_and_columns_have_their_words() {
    assert_eq!(Column::CurrentHitPoints.name(), "current_hit_points");
    assert_eq!(Column::EncounterTitle.name(), "encounter_title");
    assert_eq!(Column::Id.name(), "id");
    assert_eq!(StoreError::NotFound.summary(), "no stored entity has this identifier");
    assert_eq!(
        StoreError::DataCorruption(Column::Name).summary(),
        "a stored row could not be decoded"
    );
    assert_eq!(StoreError::ConstraintViolation.summary(), "the store rejected the insert");
    assert_eq!(StoreError::ConnectionError.summary(), "the store could not be reached");
    assert_eq!(StoreError::DataCorruption(Column::Name).column(), Some(Column::Name));
    assert_eq!(StoreError::NotFound.column(), None);
    assert_eq!(failure_kind(true), StoreError::ConstraintViolation);
    assert_eq!(failure_kind(false), StoreError::ConnectionError);
}

#[test]
fn schema_statements_create_only_what_is_missing() {
    let all = tables();
    assert_eq!(all, vec![Table::Characters, Table::Encounters, Table::EncounterCharacters]);
    for table in all {
        assert!(table.create_sql().starts_with("CREATE TABLE IF NOT EXISTS "));
    }
    assert!(Table::Characters.create_sql().contains(" characters ("));
    assert!(Table::Encounters.create_sql().contains(" encounters (id TEXT PRIMARY KEY, encounter_title TEXT NOT NULL)"));
    assert!(Table::EncounterCharacters.create_sql().contains(" encounter_characters ("));
}

#[test]
fn linking_needs_both_lookups_to_succeed() {
    let encounter = Encounter { id: 9, encounter_title: String::from("t") };
    assert_eq!(
        EncounterCharacter::link_found(Err(StoreError::NotFound), Ok(encounter.clone())),
        Err(StoreError::NotFound)
    );
    assert_eq!(
        EncounterCharacter::link_found(
            Err(StoreError::DataCorruption(Column::Name)),
            Err(StoreError::NotFound)
        ),
        Err(StoreError::DataCorruption(Column::Name))
    );
    assert_eq!(
        EncounterCharacter::link_found(Ok(sample()), Err(StoreError::NotFound)),
        Err(StoreError::NotFound)
    );
    assert_eq!(
        EncounterCharacter::link_found(Ok(sample()), Err(StoreError::ConnectionError)),
        Err(StoreError::ConnectionError)
    );
    let linked = EncounterCharacter::link_found(Ok(sample()), Ok(encounter)).unwrap();
    assert_eq!(linked.character, sample());
    assert_eq!(linked.encounter_id, 9);
    assert_eq!(linked.initiative, None);
    assert!(linked.status_effects.is_empty());
    assert_eq!(uuid::Uuid::from_u128(linked.id).get_version_num(), 4);
}

#[test]
fn a_row_resolves_to_its_character_or_the_lookups_error() {
    let stored =
        Participation { id: 4, encounter_id: 5, character_id: sample().id, initiative: Some(3) };
    assert_eq!(
        EncounterCharacter::resolve_step(stored, Err(StoreError::NotFound)),
        Err(StoreError::NotFound)
    );
    assert_eq!(
        EncounterCharacter::resolve_step(stored, Err(StoreError::DataCorruption(Column::Alive))),
        Err(StoreError::DataCorruption(Column::Alive))
    );
    let participant = EncounterCharacter::resolve_step(stored, Ok(sample())).unwrap();
    assert_eq!(participant.id, 4);
    assert_eq!(participant.encounter_id, 5);
    assert_eq!(participant.initiative, Some(3));
    assert_eq!(participant.character, sample());
    assert!(participant.status_effects.is_empty());
}

#[test]
fn a_detail_pairs_the_encounter_with_its_participants() {
    let encounter = Encounter { id: 9, encounter_title: String::from("Goblin Ambush") };
    assert_eq!(
        EncounterDetail::of_found(encounter.clone(), Err(StoreError::NotFound)),
        Err(StoreError::NotFound)
    );
    let participant = EncounterCharacter::new(sample(), &encounter);
    let detail =
        EncounterDetail::of_found(encounter.clone(), Ok(vec![participant.clone()])).unwrap();
    assert_eq!(detail.encounter, encounter);
    assert_eq!(detail.characters, vec![participant]);
    let empty = EncounterDetail::of_found(encounter.clone(), Ok(Vec::new())).unwrap();
    assert_eq!(empty.encounter, encounter);
    assert!(empty.characters.is_empty());
}

#[test]
fn outcomes_are_passed_on() {
    assert_eq!(discard(Ok::<i32, StoreError>(5)), Ok(()));
    assert_eq!(discard(Err::<i32, StoreError>(StoreError::NotFound)), Err(StoreError::NotFound));
    assert_eq!(keep_if_stored(7, Ok(())), Ok(7));
    assert_eq!(
        keep_if_stored(7, Err(StoreError::ConstraintViolation)),
        Err(StoreError::ConstraintViolation)
    );
}

#[test]
fn statements_have_their_texts() {
    assert_eq!(
        Statement::InsertCharacter.text(),
        "INSERT INTO characters (id, name, class, race, background, level, experience, hit_points, current_hit_points, armor_class, initiative, alive, notes, created_at_utc, updated_at_utc) VALUES (?1, ?2, ?3, ?4, ?5, ?6, ?7, ?8, ?9, ?10, ?11, ?12, ?13, ?14, ?15)"
    );
    assert_eq!(
        Statement::SelectCharacter.text(),
        "SELECT id, name, class, race, background, level, experience, hit_points, current_hit_points, armor_class, initiative, alive, notes, created_at_utc, updated_at_utc FROM characters WHERE id = ?1"
    );
    assert_eq!(
        Statement::SelectCharacters.text(),
        "SELECT id, name, class, race, background, level, experience, hit_points, current_hit_points, armor_class, initiative, alive, notes, created_at_utc, updated_at_utc FROM characters"
    );
    assert_eq!(
        Statement::InsertEncounter.text(),
        "INSERT INTO encounters (id, encounter_title) VALUES (?1, ?2)"
    );
    assert_eq!(
        Statement::SelectEncounter.text(),
        "SELECT id, encounter_title FROM encounters WHERE id = ?1"
    );
    assert_eq!(Statement::SelectEncounters.text(), "SELECT id, encounter_title FROM encounters");
    assert_eq!(
        Statement::InsertParticipation.text(),
        "INSERT INTO encounter_characters (id, encounter_id, character_id, initiative) VALUES (?1, ?2, ?3, ?4)"
    );
    assert_eq!(
        Statement::SelectParticipations.text(),
        "SELECT id, encounter_id, character_id, initiative FROM encounter_characters WHERE encounter_id = ?1"
    );
    assert_eq!(Statement::Create(Table::Encounters).text(), Table::Encounters.create_sql());
}

#[test]
fn the_whole_schema_is_planned_in_either_mode() {
    let all = vec![Table::Characters, Table::Encounters, Table::EncounterCharacters];
    for development_mode in [false, true] {
        let configuration =
            Configuration { db_path: String::new(), pool_wait_secs: 1, development_mode };
        assert_eq!(bootstrap_plan(&configuration), all);
    }
}
