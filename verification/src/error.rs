use vstd::prelude::*;

verus! {

/// A column of one of the three tables of the campaign store.
#[derive(Clone, Copy, Debug, PartialEq, Eq, Structural)]
pub enum Column {
    Id,
    Name,
    Class,
    Race,
    Background,
    Level,
    Experience,
    HitPoints,
    CurrentHitPoints,
    ArmorClass,
    Initiative,
    Alive,
    Notes,
    CreatedAtUtc,
    UpdatedAtUtc,
    EncounterTitle,
    EncounterId,
    CharacterId,
}

/// Why a store operation did not produce its value.
#[derive(Clone, Copy, Debug, PartialEq, Eq, Structural)]
pub enum StoreError {
    /// No row carries the identifier that was looked up.
    NotFound,
    /// A stored row does not decode; the column is the first one that failed.
    DataCorruption(Column),
    /// The store rejected an insert because a constraint of a table forbids it.
    ConstraintViolation,
    /// The store could not be reached or could not run the statement.
    ConnectionError,
}

/// The name that a column has in the schema.
pub open spec fn column_name(column: Column) -> Seq<char> {
    match column {
        Column::Id => "id"@,
        Column::Name => "name"@,
        Column::Class => "class"@,
        Column::Race => "race"@,
        Column::Background => "background"@,
        Column::Level => "level"@,
        Column::Experience => "experience"@,
        Column::HitPoints => "hit_points"@,
        Column::CurrentHitPoints => "current_hit_points"@,
        Column::ArmorClass => "armor_class"@,
        Column::Initiative => "initiative"@,
        Column::Alive => "alive"@,
        Column::Notes => "notes"@,
        Column::CreatedAtUtc => "created_at_utc"@,
        Column::UpdatedAtUtc => "updated_at_utc"@,
        Column::EncounterTitle => "encounter_title"@,
        Column::EncounterId => "encounter_id"@,
        Column::CharacterId => "character_id"@,
    }
}

/// The sentence shown for each kind of failure, without the column.
pub open spec fn error_summary(error: StoreError) -> Seq<char> {
    match error {
        StoreError::NotFound => "no stored entity has this identifier"@,
        StoreError::DataCorruption(_) => "a stored row could not be decoded"@,
        StoreError::ConstraintViolation => "the store rejected the insert"@,
        StoreError::ConnectionError => "the store could not be reached"@,
    }
}

impl Column {
    pub fn name(&self) -> (text: &'static str)
        ensures
            text@ == column_name(*self),
    {
        match self {
            Column::Id => "id",
            Column::Name => "name",
            Column::Class => "class",
            Column::Race => "race",
            Column::Background => "background",
            Column::Level => "level",
            Column::Experience => "experience",
            Column::HitPoints => "hit_points",
            Column::CurrentHitPoints => "current_hit_points",
            Column::ArmorClass => "armor_class",
            Column::Initiative => "initiative",
            Column::Alive => "alive",
            Column::Notes => "notes",
            Column::CreatedAtUtc => "created_at_utc",
            Column::UpdatedAtUtc => "updated_at_utc",
            Column::EncounterTitle => "encounter_title",
            Column::EncounterId => "encounter_id",
            Column::CharacterId => "character_id",
        }
    }
}

impl StoreError {
    /// The column that failed to decode, where the error is a decoding one.
    pub open spec fn spec_column(&self) -> Option<Column> {
        match self {
            StoreError::DataCorruption(column) => Some(*column),
            _ => None,
        }
    }

    #[verifier::when_used_as_spec(spec_column)]
    pub fn column(&self) -> (column: Option<Column>)
        ensures
            column == self.spec_column(),
    {
        match self {
            StoreError::DataCorruption(column) => Some(*column),
            _ => None,
        }
    }

    pub fn summary(&self) -> (text: &'static str)
        ensures
            text@ == error_summary(*self),
    {
        match self {
            StoreError::NotFound => "no stored entity has this identifier",
            StoreError::DataCorruption(_) => "a stored row could not be decoded",
            StoreError::ConstraintViolation => "the store rejected the insert",
            StoreError::ConnectionError => "the store could not be reached",
        }
    }
}

/// What is left of an outcome for a caller that wants no value back: success, or the
/// very error.
pub open spec fn discarded<T>(outcome: Result<T, StoreError>) -> Result<(), StoreError> {
    match outcome {
        Ok(_) => Ok(()),
        Err(e) => Err(e),
    }
}

/// What a creation yields once the store has answered the insert: the value, if the
/// store took it, or the very error of the insert.
pub open spec fn kept_if_stored<T>(value: T, saved: Result<(), StoreError>) -> Result<
    T,
    StoreError,
> {
    match saved {
        Ok(_) => Ok(value),
        Err(e) => Err(e),
    }
}

/// Drops the value of an outcome and keeps its success or its error.
pub fn discard<T>(outcome: Result<T, StoreError>) -> (done: Result<(), StoreError>)
    ensures
        done == discarded(outcome),
{
    match outcome {
        Ok(_) => Ok(()),
        Err(e) => Err(e),
    }
}

/// Hands a value on if the store took its row, and the store's error if not.
pub fn keep_if_stored<T>(value: T, saved: Result<(), StoreError>) -> (kept: Result<T, StoreError>)
    ensures
        kept == kept_if_stored(value, saved),
{
    match saved {
        Ok(_) => Ok(value),
        Err(e) => Err(e),
    }
}

} // verus!
