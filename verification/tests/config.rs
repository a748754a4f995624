use twc::config::{
    get_config, save_config, startup_step, Configuration, ShutdownStep, StartupStep,
    TableConfiguration, TABLE_FALLBACK_DIRECTION, TABLE_FALLBACK_PATH, TABLE_FALLBACK_PREDICATE,
};

#[test]
fn test_table_configuration_default() {
    let table_config = TableConfiguration::default();

    assert_eq!(String::from(TABLE_FALLBACK_PATH), *table_config.path());
    assert_eq!(TABLE_FALLBACK_PREDICATE, table_config.sort_predicate());
    assert_eq!(TABLE_FALLBACK_DIRECTION, table_config.sort_direction());
}

#[test]
fn test_configuration_default() {
    let config = Configuration::default();
    let table_config = TableConfiguration::default();

    assert_eq!(*config.left_table_config(), table_config);
    assert_eq!(*config.right_table_config(), table_config);
}

#[test]
fn fallback_values_are_root_name_ascending() {
    let table_config = TableConfiguration::default();
    assert_eq!(table_config.path(), "/");
    assert_eq!(table_config.sort_predicate(), "name");
    assert_eq!(table_config.sort_direction(), "asc");
    assert!(!Configuration::default().show_hidden_files());
}

#[test]
fn setters_change_one_value_each() {
    let mut config = Configuration::default();
    config.left_table_config_mut().set_path(String::from("/tmp"));
    config.left_table_config_mut().set_predicate(String::from("size"));
    config.right_table_config_mut().set_sort_direction(String::from("desc"));
    config.set_show_hidden_files(true);

    assert_eq!(config.left_table_config().path(), "/tmp");
    assert_eq!(config.left_table_config().sort_predicate(), "size");
    assert_eq!(config.left_table_config().sort_direction(), "asc");
    assert_eq!(config.right_table_config().path(), "/");
    assert_eq!(config.right_table_config().sort_predicate(), "name");
    assert_eq!(config.right_table_config().sort_direction(), "desc");
    assert!(config.show_hidden_files());
}

#[test]
fn new_and_duplicate_keep_the_texts() {
    let table = TableConfiguration::new(
        String::from("/a/b"),
        String::from("modified"),
        String::from("desc"),
    );
    assert_eq!(table.duplicate(), table);
    let config = Configuration::new(table.duplicate(), TableConfiguration::default(), true);
    assert_eq!(*config.left_table_config(), table);
    assert_eq!(*config.right_table_config(), TableConfiguration::default());
    assert!(config.show_hidden_files());
}

#[test]
fn startup_steps() {
    assert_eq!(startup_step(true, true), StartupStep::Load);
    assert_eq!(startup_step(true, false), StartupStep::SaveDefault);
    assert_eq!(startup_step(false, false), StartupStep::CreateDirThenSaveDefault);
    assert_eq!(startup_step(false, true), StartupStep::CreateDirThenSaveDefault);
}

#[test]
fn shutdown_steps() {
    assert_eq!(save_config(true), ShutdownStep::Save);
    assert_eq!(save_config(false), ShutdownStep::CreateDirThenSave);
}

#[test]
fn unreadable_settings_fall_back() {
    assert_eq!(get_config(None), Configuration::default());
    let mut stored = Configuration::default();
    stored.set_show_hidden_files(true);
    stored.right_table_config_mut().set_path(String::from("/home"));
    let kept = get_config(Some(stored));
    assert!(kept.show_hidden_files());
    assert_eq!(kept.right_table_config().path(), "/home");
}
