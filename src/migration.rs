use vstd::prelude::*;

verus! {

/// Where the records are kept: a SQLite database file.
pub const DATABASE_URL: &'static str = "sqlite:pomodoro.db";

/// The direction of a schema migration.
#[derive(Clone, Copy, Debug, PartialEq, Eq, Structural)]
pub enum MigrationKind {
    Up,
    Down,
}

/// One declared schema migration: its version, what it does, and its
/// direction. Its SQL text is kept beside the application, not here.
#[derive(Clone, Copy, Debug, PartialEq, Eq)]
pub struct MigrationStep {
    pub version: i64,
    pub description: &'static str,
    pub kind: MigrationKind,
}

/// The migrations that the schema is built by, in the order they are applied:
/// one forward migration, version 1, which creates the initial tables.
pub open spec fn declared_steps() -> Seq<(i64, Seq<char>, MigrationKind)> {
    seq![(1i64, "create initial tables"@, MigrationKind::Up)]
}

/// The model of a migration step.
pub open spec fn step_model(m: MigrationStep) -> (i64, Seq<char>, MigrationKind) {
    (m.version, m.description@, m.kind)
}

/// Versions rise strictly along a list of migrations, so that no version is
/// declared twice and each migration is applied at most once under the
/// versioning scheme.
pub open spec fn versions_rising(ms: Seq<(i64, Seq<char>, MigrationKind)>) -> bool {
    forall|i: int, j: int| 0 <= i < j < ms.len() ==> #[trigger] ms[i].0 < #[trigger] ms[j].0
}

/// The declared migrations, in the order they are applied.
pub fn declared_migrations() -> (r: Vec<MigrationStep>)
    ensures
        r@.len() == declared_steps().len(),
        forall|i: int| 0 <= i < r@.len() ==> step_model(#[trigger] r@[i]) == declared_steps()[i],
{
    vec![MigrationStep { version: 1, description: "create initial tables", kind: MigrationKind::Up }]
}

/// The declared migrations are all forward migrations with positive
/// versions, and no version is declared twice: each version rises above the
/// one before it.
pub proof fn lemma_declared_versions_rise()
    ensures
        versions_rising(declared_steps()),
        forall|i: int|
            0 <= i < declared_steps().len() ==> #[trigger] declared_steps()[i].0 >= 1
                && declared_steps()[i].2 == MigrationKind::Up,
{
}

} // verus!
