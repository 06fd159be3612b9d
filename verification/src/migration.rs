//! The migration registry: an ordered, append-only list of named schema
//! migrations. An external runner applies them sequentially, in list order,
//! and records the applied state itself; nothing here mutates a schema.

use vstd::prelude::*;

verus! {

/// One schema migration, identified by its timestamp-prefixed name.
///
/// The forward and reverse schema operations live with the external
/// migration runner; the registry models only the identity of each
/// migration and its position in the list.
pub struct MigrationDescriptor {
    /// Timestamp-prefixed name, unique within the registry.
    pub name: String,
}

/// The names of the registered migrations, in registration order.
pub open spec fn registry_names() -> Seq<Seq<char>> {
    seq![
        "m20220101_000001_users"@,
        "m20231103_114510_notes"@,
        "m20240624_160829_posts"@,
        "m20240626_170111_articles"@,
        "m20240627_134905_comments"@,
    ]
}

/// The sequence of names carried by a sequence of descriptors.
pub open spec fn names_of(ds: Seq<MigrationDescriptor>) -> Seq<Seq<char>> {
    ds.map_values(|d: MigrationDescriptor| d.name@)
}

/// The migration registry.
pub struct Migrator;

impl Migrator {
    /// Lists the registered migrations, in the order in which an external
    /// runner must apply them: users, notes, posts, articles, comments.
    pub fn migrations() -> (r: Vec<MigrationDescriptor>)
        ensures
            r@.len() == 5,
            names_of(r@) == registry_names(),
            r@[0].name@ == "m20220101_000001_users"@,
            r@[1].name@ == "m20231103_114510_notes"@,
            r@[2].name@ == "m20240624_160829_posts"@,
            r@[3].name@ == "m20240626_170111_articles"@,
            r@[4].name@ == "m20240627_134905_comments"@,
    {
        let mut r: Vec<MigrationDescriptor> = Vec::new();
        r.push(MigrationDescriptor { name: "m20220101_000001_users".to_owned() });
        r.push(MigrationDescriptor { name: "m20231103_114510_notes".to_owned() });
        r.push(MigrationDescriptor { name: "m20240624_160829_posts".to_owned() });
        r.push(MigrationDescriptor { name: "m20240626_170111_articles".to_owned() });
        r.push(MigrationDescriptor { name: "m20240627_134905_comments".to_owned() });
        proof {
            assert(names_of(r@) =~= registry_names());
        }
        r
    }
}

/// Migrations are identified by their names: the registry's names are
/// pairwise distinct, so the applied state the external runner records per
/// name never conflates two migrations.
pub proof fn lemma_registry_names_distinct()
    ensures
        forall|i: int, j: int|
            0 <= i < j < registry_names().len() ==> registry_names()[i] != registry_names()[j],
{
    reveal_strlit("m20220101_000001_users");
    reveal_strlit("m20231103_114510_notes");
    reveal_strlit("m20240624_160829_posts");
    reveal_strlit("m20240626_170111_articles");
    reveal_strlit("m20240627_134905_comments");
    assert(registry_names()[0][4] != registry_names()[1][4]);
    assert(registry_names()[0][4] != registry_names()[2][4]);
    assert(registry_names()[0][4] != registry_names()[3][4]);
    assert(registry_names()[0][4] != registry_names()[4][4]);
    assert(registry_names()[1][4] != registry_names()[2][4]);
    assert(registry_names()[1][4] != registry_names()[3][4]);
    assert(registry_names()[1][4] != registry_names()[4][4]);
    assert(registry_names()[2][8] != registry_names()[3][8]);
    assert(registry_names()[2][8] != registry_names()[4][8]);
    assert(registry_names()[3][8] != registry_names()[4][8]);
}

} // verus!
