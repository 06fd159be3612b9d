use guides::migration::Migrator;

#[test]
fn migrations_lists_five_in_order() {
    let migs = Migrator::migrations();
    assert_eq!(migs.len(), 5);
    assert_eq!(migs[0].name, "m20220101_000001_users");
    assert_eq!(migs[1].name, "m20231103_114510_notes");
    assert_eq!(migs[2].name, "m20240624_160829_posts");
    assert_eq!(migs[3].name, "m20240626_170111_articles");
    assert_eq!(migs[4].name, "m20240627_134905_comments");
}

#[test]
fn migration_names_are_distinct() {
    let migs = Migrator::migrations();
    for i in 0..migs.len() {
        for j in (i + 1)..migs.len() {
            assert_ne!(migs[i].name, migs[j].name);
        }
    }
}

#[test]
fn migration_listing_is_stable() {
    let first = Migrator::migrations();
    let second = Migrator::migrations();
    assert_eq!(first.len(), second.len());
    for i in 0..first.len() {
        assert_eq!(first[i].name, second[i].name);
    }
}
