use dm_companion::character::Character;
use dm_companion::clock::Timestamp;
use dm_companion::encounter::{Encounter, EncounterCharacter, EncounterDetail};
use dm_companion::error::{Column, StoreError};
use dm_companion::storage::{setup_structure, Configuration};
use rusqlite::Connection;

fn configuration(development_mode: bool) -> Configuration {
    Configuration { db_path: String::from(":memory:"), pool_wait_secs: 1, development_mode }
}

fn store() -> Connection {
    let conn = Connection::open_in_memory().unwrap();
    setup_structure(&conn, &configuration(false)).unwrap();
    conn
}

fn thorin(conn: &Connection) -> Character {
    Character::create(
        conn,
        String::from("Thorin"),
        String::from("Fighter"),
        String::from("Dwarf"),
        Some(String::from("Noble")),
        3,
        900,
        28,
        16,
        String::from("Carries the key"),
    )
    .unwrap()
}

fn id_string(id: u128) -> String {
    uuid::Uuid::from_u128(id).to_string()
}

fn count(conn: &Connection, sql: &str) -> i64 {
    conn.query_row(sql, [], |row| row.get(0)).unwrap()
}

#[test]
fn created_character_has_the_given_fields() {
    let conn = store();
    let c = thorin(&conn);
    assert_eq!(c.name, "Thorin");
    assert_eq!(c.class, "Fighter");
    assert_eq!(c.race, "Dwarf");
    assert_eq!(c.background, Some(String::from("Noble")));
    assert_eq!(c.level, 3);
    assert_eq!(c.experience, 900);
    assert_eq!(c.hit_points, 28);
    assert_eq!(c.current_hit_points, 28);
    assert_eq!(c.armor_class, 16);
    assert_eq!(c.initiative, None);
    assert!(c.alive);
    assert_eq!(c.notes, "Carries the key");
    assert_eq!(c.created_at_utc, c.updated_at_utc);
    assert!(c.created_at_utc.secs > 1_600_000_000);
}

#[test]
fn created_character_loads_back_equal() {
    let conn = store();
    let created = thorin(&conn);
    let loaded = Character::load_by_id(created.id, &conn).unwrap();
    assert_eq!(loaded, created);
}

#[test]
fn character_without_background_loads_back_equal() {
    let conn = store();
    let created = Character::create(
        &conn,
        String::from("Mira"),
        String::from("Rogue"),
        String::from("Elf"),
        None,
        1,
        0,
        -4,
        i32::MAX,
        String::new(),
    )
    .unwrap();
    let loaded = Character::load_by_id(created.id, &conn).unwrap();
    assert_eq!(loaded.background, None);
    assert_eq!(loaded.hit_points, -4);
    assert_eq!(loaded.current_hit_points, -4);
    assert_eq!(loaded.armor_class, i32::MAX);
    assert_eq!(loaded, created);
}

#[test]
fn fresh_identifiers_are_version_four_and_differ() {
    let a = Character::new(
        String::from("a"),
        String::from("b"),
        String::from("c"),
        None,
        1,
        0,
        1,
        1,
        String::new(),
    );
    let b = Encounter::new(String::from("t"));
    assert_eq!(uuid::Uuid::from_u128(a.id).get_version_num(), 4);
    assert_eq!(uuid::Uuid::from_u128(b.id).get_version_num(), 4);
    assert_eq!(a.id & 0xF000_C000_0000_0000_0000u128, 0x4000_8000_0000_0000_0000u128);
    assert_ne!(a.id, b.id);
    assert!(!a.is_stored());
}

#[test]
fn unknown_character_is_not_found() {
    let conn = store();
    thorin(&conn);
    let never_created = uuid::Uuid::new_v4().as_u128();
    assert_eq!(Character::load_by_id(never_created, &conn), Err(StoreError::NotFound));
}

#[test]
fn unknown_encounter_is_not_found() {
    let conn = store();
    let never_created = uuid::Uuid::new_v4().as_u128();
    assert_eq!(Encounter::load_by_id(&conn, never_created), Err(StoreError::NotFound));
    assert_eq!(EncounterDetail::load_by_id(&conn, never_created), Err(StoreError::NotFound));
}

#[test]
fn load_all_returns_every_character() {
    let conn = store();
    assert_eq!(Character::load_all(&conn), Ok(Vec::new()));
    let a = thorin(&conn);
    let b = thorin(&conn);
    let all = Character::load_all(&conn).unwrap();
    assert_eq!(all.len(), 2);
    assert!(all.contains(&a));
    assert!(all.contains(&b));
    assert_ne!(a.id, b.id);
}

#[test]
fn created_encounter_loads_back_equal() {
    let conn = store();
    let created = Encounter::create(&conn, String::from("Goblin Ambush")).unwrap();
    assert_eq!(created.encounter_title, "Goblin Ambush");
    assert_eq!(uuid::Uuid::from_u128(created.id).get_version_num(), 4);
    assert_eq!(Encounter::load_by_id(&conn, created.id), Ok(created));
}

#[test]
fn encounter_is_saved_and_loaded() {
    let conn = store();
    let e = Encounter::new(String::from("Goblin Ambush"));
    assert_eq!(e.save(&conn), Ok(()));
    assert_eq!(Encounter::load_by_id(&conn, e.id), Ok(e.clone()));
    assert_eq!(Encounter::load_all_encounters(&conn), Ok(vec![e]));
}

#[test]
fn adding_twice_links_twice() {
    let conn = store();
    let c = thorin(&conn);
    let e = Encounter::new(String::from("Bridge"));
    e.save(&conn).unwrap();
    let first = EncounterCharacter::add(&conn, e.id, c.id).unwrap();
    let second = EncounterCharacter::add(&conn, e.id, c.id).unwrap();
    assert_ne!(first.id, second.id);
    assert_eq!(first.character, c);
    assert_eq!(first.encounter_id, e.id);
    assert_eq!(first.initiative, None);
    assert!(first.status_effects.is_empty());
    let loaded = EncounterCharacter::load_for_encounter(&e, &conn).unwrap();
    assert_eq!(loaded.len(), 2);
    assert!(loaded.contains(&first));
    assert!(loaded.contains(&second));
    assert_eq!(count(&conn, "SELECT COUNT(*) FROM encounter_characters"), 2);
}

#[test]
fn adding_needs_both_to_exist() {
    let conn = store();
    let c = thorin(&conn);
    let e = Encounter::new(String::from("Bridge"));
    e.save(&conn).unwrap();
    let missing = uuid::Uuid::new_v4().as_u128();
    assert_eq!(EncounterCharacter::add(&conn, e.id, missing), Err(StoreError::NotFound));
    assert_eq!(EncounterCharacter::add(&conn, missing, c.id), Err(StoreError::NotFound));
    assert_eq!(count(&conn, "SELECT COUNT(*) FROM encounter_characters"), 0);
}

#[test]
fn encounter_without_participants_loads_empty() {
    let conn = store();
    let e = Encounter::new(String::from("Empty Hall"));
    e.save(&conn).unwrap();
    assert_eq!(EncounterCharacter::load_for_encounter(&e, &conn), Ok(Vec::new()));
    let detail = EncounterDetail::load_by_id(&conn, e.id).unwrap();
    assert_eq!(detail.encounter, e);
    assert!(detail.characters.is_empty());
}

#[test]
fn participants_of_other_encounters_are_left_out() {
    let conn = store();
    let c = thorin(&conn);
    let here = Encounter::new(String::from("Here"));
    let there = Encounter::new(String::from("There"));
    here.save(&conn).unwrap();
    there.save(&conn).unwrap();
    let linked = EncounterCharacter::add(&conn, here.id, c.id).unwrap();
    assert_eq!(EncounterCharacter::load_for_encounter(&here, &conn), Ok(vec![linked]));
    assert_eq!(EncounterCharacter::load_for_encounter(&there, &conn), Ok(Vec::new()));
}

#[test]
fn bootstrap_twice_keeps_tables_and_rows() {
    let conn = Connection::open_in_memory().unwrap();
    assert_eq!(setup_structure(&conn, &configuration(false)), Ok(()));
    let c = thorin(&conn);
    assert_eq!(setup_structure(&conn, &configuration(false)), Ok(()));
    assert_eq!(setup_structure(&conn, &configuration(true)), Ok(()));
    assert_eq!(count(&conn, "SELECT COUNT(*) FROM sqlite_master WHERE type = 'table'"), 3);
    for table in ["characters", "encounters", "encounter_characters"] {
        let sql = format!(
            "SELECT COUNT(*) FROM sqlite_master WHERE type = 'table' AND name = '{}'",
            table
        );
        assert_eq!(count(&conn, &sql), 1);
    }
    assert_eq!(Character::load_by_id(c.id, &conn), Ok(c));
}

#[test]
fn development_mode_still_creates_the_schema() {
    let conn = Connection::open_in_memory().unwrap();
    assert_eq!(setup_structure(&conn, &configuration(true)), Ok(()));
    assert_eq!(count(&conn, "SELECT COUNT(*) FROM sqlite_master WHERE type = 'table'"), 3);
}

#[test]
fn saving_one_character_twice_violates_the_key() {
    let conn = store();
    let c = thorin(&conn);
    assert_eq!(c.save(&conn), Err(StoreError::ConstraintViolation));
    let e = Encounter::new(String::from("Twice"));
    assert_eq!(e.save(&conn), Ok(()));
    assert_eq!(e.save(&conn), Err(StoreError::ConstraintViolation));
}

#[test]
fn store_without_schema_is_a_connection_error() {
    let conn = Connection::open_in_memory().unwrap();
    let id = uuid::Uuid::new_v4().as_u128();
    assert_eq!(Character::load_by_id(id, &conn), Err(StoreError::ConnectionError));
    assert_eq!(Character::load_all(&conn), Err(StoreError::ConnectionError));
    assert_eq!(Encounter::load_all_encounters(&conn), Err(StoreError::ConnectionError));
    assert_eq!(
        Encounter::create(&conn, String::from("x")),
        Err(StoreError::ConnectionError)
    );
}

#[test]
fn unwritable_timestamp_is_refused_before_the_store() {
    let conn = store();
    let mut c = thorin(&conn);
    c.id = uuid::Uuid::new_v4().as_u128();
    c.updated_at_utc = Timestamp { secs: i64::MAX, nanos: 0 };
    assert_eq!(c.save(&conn), Err(StoreError::DataCorruption(Column::UpdatedAtUtc)));
    c.created_at_utc = Timestamp { secs: 0, nanos: 2_000_000_000 };
    assert_eq!(c.save(&conn), Err(StoreError::DataCorruption(Column::CreatedAtUtc)));
    assert_eq!(count(&conn, "SELECT COUNT(*) FROM characters"), 1);
}

#[test]
fn corrupt_stored_rows_are_reported_by_column() {
    let conn = store();
    let id = uuid::Uuid::new_v4();
    conn.execute(
        "INSERT INTO characters VALUES (?1, 'n', 'c', 'r', NULL, 1, 2, 3, 3, 4, NULL, 1, '', 'yesterday', '2015-05-15T00:00:00+00:00')",
        [id.to_string()],
    )
    .unwrap();
    assert_eq!(
        Character::load_by_id(id.as_u128(), &conn),
        Err(StoreError::DataCorruption(Column::CreatedAtUtc))
    );
    assert_eq!(
        Character::load_all(&conn),
        Err(StoreError::DataCorruption(Column::CreatedAtUtc))
    );
    conn.execute("INSERT INTO encounters VALUES ('not an id', 'Title')", []).unwrap();
    assert_eq!(Encounter::load_all_encounters(&conn), Err(StoreError::DataCorruption(Column::Id)));
}

#[test]
fn participation_of_a_missing_character_fails_the_load() {
    let conn = store();
    let e = Encounter::new(String::from("Ghosts"));
    e.save(&conn).unwrap();
    let ghost = uuid::Uuid::new_v4();
    conn.execute(
        "INSERT INTO encounter_characters VALUES (?1, ?2, ?3, 12)",
        [uuid::Uuid::new_v4().to_string(), id_string(e.id), ghost.to_string()],
    )
    .unwrap();
    assert_eq!(EncounterCharacter::load_for_encounter(&e, &conn), Err(StoreError::NotFound));
    let c = thorin(&conn);
    conn.execute("DELETE FROM encounter_characters", []).unwrap();
    let link = uuid::Uuid::new_v4();
    conn.execute(
        "INSERT INTO encounter_characters VALUES (?1, ?2, ?3, 12)",
        [link.to_string(), id_string(e.id), id_string(c.id)],
    )
    .unwrap();
    let loaded = EncounterCharacter::load_for_encounter(&e, &conn).unwrap();
    assert_eq!(loaded.len(), 1);
    assert_eq!(loaded[0].id, link.as_u128());
    assert_eq!(loaded[0].initiative, Some(12));
    assert_eq!(loaded[0].character, c);
    assert!(loaded[0].status_effects.is_empty());
}

#[test]
fn rows_of_a_pair_linked_twice_resolve_to_two_participants() {
    let conn = store();
    let c = thorin(&conn);
    let e = Encounter::new(String::from("Bridge"));
    e.save(&conn).unwrap();
    let first = EncounterCharacter::add(&conn, e.id, c.id).unwrap();
    let second = EncounterCharacter::add(&conn, e.id, c.id).unwrap();
    let rows = vec![first.stored().to_row(), second.stored().to_row()];
    let resolved = EncounterCharacter::resolve_rows(&conn, e.id, &rows).unwrap();
    assert_eq!(resolved, vec![first.clone(), second.clone()]);
    assert_eq!(
        EncounterCharacter::resolve_rows(&conn, e.id + 1, &rows),
        Err(StoreError::DataCorruption(Column::EncounterId))
    );
    let mut broken = rows.clone();
    broken[0].truncate(2);
    assert_eq!(
        EncounterCharacter::resolve_rows(&conn, e.id, &broken),
        Err(StoreError::DataCorruption(Column::CharacterId))
    );
}

#[test]
fn detail_of_a_stored_encounter_holds_its_title_and_participants() {
    let conn = store();
    let c = thorin(&conn);
    let e = Encounter::create(&conn, String::from("Goblin Ambush")).unwrap();
    let linked = EncounterCharacter::add(&conn, e.id, c.id).unwrap();
    let detail = EncounterDetail::load_by_id(&conn, e.id).unwrap();
    assert_eq!(detail.encounter, e);
    assert_eq!(Ok(detail.characters), EncounterCharacter::load_for_encounter(&e, &conn));
    assert_eq!(EncounterCharacter::load_for_encounter(&e, &conn), Ok(vec![linked]));
}
