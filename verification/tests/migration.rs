use itchat::utils::migration::{first_pending, numbering_is_consistent, Migration};

#[test]
fn migration_files() {
    let m = Migration::from_file("00001_init.sql", "CREATE TABLE x ()".to_string());
    assert_eq!(m.id, 1);
    assert_eq!(m.name, "init.sql");
    assert_eq!(m.content, "CREATE TABLE x ()");
    let m = Migration::from_file("00012-users", String::new());
    assert_eq!(m.id, 12);
    assert_eq!(m.name, "users");

    let ok = vec![
        Migration::from_file("00001_a", String::new()),
        Migration::from_file("00002_b", String::new()),
    ];
    assert!(numbering_is_consistent(&ok));
    let gap = vec![
        Migration::from_file("00001_a", String::new()),
        Migration::from_file("00003_b", String::new()),
    ];
    assert!(!numbering_is_consistent(&gap));
    assert!(numbering_is_consistent(&vec![]));
    assert_eq!(first_pending(2, Some(1)), 1);
    assert_eq!(first_pending(2, None), 0);
}

#[test]
fn second_run_runs_nothing() {
    // After a full run the database records the last migration, whose number
    // is the count of the files: nothing is pending.
    assert_eq!(first_pending(3, Some(3)), 3);
    assert_eq!(first_pending(3, None), 0);
    assert_eq!(first_pending(3, Some(1)), 1);
}
