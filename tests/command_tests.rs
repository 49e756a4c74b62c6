use mihome_core::commands::{BindingChange, CommandRegistry, RegistryError, SavedCommand};

fn cmd(name: &str, shortcut: Option<&str>) -> SavedCommand {
    SavedCommand {
        name: name.to_string(),
        method: "set_power".to_string(),
        params: "[\"on\"]".to_string(),
        shortcut: shortcut.map(|s| s.to_string()),
    }
}

#[test]
fn create_then_create_same_name_fails() {
    let mut r = CommandRegistry::new();
    assert_eq!(
        r.create(cmd("lamp", Some("Ctrl+1"))),
        Ok(BindingChange { release: None, install: Some("Ctrl+1".to_string()) })
    );
    let before = r.commands().clone();
    assert_eq!(r.create(cmd("lamp", None)), Err(RegistryError::DuplicateName));
    assert_eq!(r.commands(), &before);
    assert_eq!(r.commands().len(), 1);
}

#[test]
fn names_are_case_sensitive() {
    let mut r = CommandRegistry::new();
    assert!(r.create(cmd("lamp", None)).is_ok());
    assert!(r.create(cmd("Lamp", None)).is_ok());
    assert_eq!(r.commands().len(), 2);
}

#[test]
fn same_binding_for_another_name_is_refused() {
    let mut r = CommandRegistry::new();
    r.create(cmd("lamp", Some("Ctrl+1"))).unwrap();
    r.create(cmd("fan", None)).unwrap();
    let before = r.commands().clone();
    assert_eq!(r.create(cmd("heater", Some("Ctrl+1"))), Err(RegistryError::DuplicateBinding));
    assert_eq!(r.update(cmd("fan", Some("Ctrl+1"))), Err(RegistryError::DuplicateBinding));
    assert_eq!(r.commands(), &before);
}

#[test]
fn update_may_keep_its_own_binding() {
    let mut r = CommandRegistry::new();
    r.create(cmd("lamp", Some("Ctrl+1"))).unwrap();
    let mut changed = cmd("lamp", Some("Ctrl+1"));
    changed.method = "toggle".to_string();
    assert_eq!(
        r.update(changed.clone()),
        Ok(BindingChange { release: Some("Ctrl+1".to_string()), install: Some("Ctrl+1".to_string()) })
    );
    assert_eq!(r.commands()[0], changed);
}

#[test]
fn update_moves_binding() {
    let mut r = CommandRegistry::new();
    r.create(cmd("lamp", Some("Ctrl+1"))).unwrap();
    assert_eq!(
        r.update(cmd("lamp", Some("Ctrl+2"))),
        Ok(BindingChange { release: Some("Ctrl+1".to_string()), install: Some("Ctrl+2".to_string()) })
    );
    assert!(r.create(cmd("fan", Some("Ctrl+1"))).is_ok());
}

#[test]
fn update_and_delete_of_unknown_name_fail() {
    let mut r = CommandRegistry::new();
    r.create(cmd("lamp", None)).unwrap();
    assert_eq!(r.update(cmd("fan", None)), Err(RegistryError::NotFound));
    assert_eq!(r.delete(&"fan".to_string()), Err(RegistryError::NotFound));
    assert_eq!(r.commands().len(), 1);
}

#[test]
fn delete_frees_binding() {
    let mut r = CommandRegistry::new();
    r.create(cmd("lamp", Some("Alt+L"))).unwrap();
    r.create(cmd("fan", None)).unwrap();
    assert_eq!(
        r.delete(&"lamp".to_string()),
        Ok(BindingChange { release: Some("Alt+L".to_string()), install: None })
    );
    assert_eq!(r.commands(), &vec![cmd("fan", None)]);
    assert!(r.create(cmd("heater", Some("Alt+L"))).is_ok());
}

#[test]
fn blank_binding_is_refused() {
    let mut r = CommandRegistry::new();
    assert_eq!(r.create(cmd("lamp", Some(""))), Err(RegistryError::EmptyBinding));
    assert_eq!(r.create(cmd("lamp", Some("  \t"))), Err(RegistryError::EmptyBinding));
    assert!(r.commands().is_empty());
    assert!(r.create(cmd("lamp", Some(" Ctrl+1 "))).is_ok());
}

#[test]
fn validate_shortcut_checks_blank_and_conflict() {
    let mut r = CommandRegistry::new();
    r.create(cmd("lamp", Some("Ctrl+1"))).unwrap();
    assert_eq!(r.validate_shortcut(&"   ".to_string()), Err(RegistryError::EmptyBinding));
    assert_eq!(r.validate_shortcut(&"Ctrl+1".to_string()), Err(RegistryError::DuplicateBinding));
    assert_eq!(r.validate_shortcut(&"Ctrl+2".to_string()), Ok(()));
}

#[test]
fn load_keeps_first_of_each_name_and_unique_bindings() {
    let stored = vec![
        cmd("lamp", Some("Ctrl+1")),
        cmd("lamp", Some("Ctrl+2")),
        cmd("fan", Some("Ctrl+1")),
        cmd("heater", Some("Ctrl+3")),
    ];
    let r = CommandRegistry::load_all_commands(Some(stored));
    assert_eq!(
        r.commands(),
        &vec![cmd("lamp", Some("Ctrl+1")), cmd("fan", None), cmd("heater", Some("Ctrl+3"))]
    );
    assert!(CommandRegistry::load_all_commands(None).commands().is_empty());
}

#[test]
fn well_formed_file_loads_unchanged() {
    let stored = vec![cmd("lamp", Some("Ctrl+1")), cmd("fan", None)];
    let r = CommandRegistry::load_all_commands(Some(stored.clone()));
    assert_eq!(r.commands(), &stored);
}

#[test]
fn bound_commands_lists_those_with_a_binding() {
    let mut r = CommandRegistry::new();
    r.create(cmd("lamp", Some("Ctrl+1"))).unwrap();
    r.create(cmd("fan", None)).unwrap();
    r.create(cmd("heater", Some("Ctrl+3"))).unwrap();
    assert_eq!(r.bound_commands(), vec![cmd("lamp", Some("Ctrl+1")), cmd("heater", Some("Ctrl+3"))]);
    assert_eq!(r.find(&"heater".to_string()), Some(2));
    assert_eq!(r.find(&"nothing".to_string()), None);
}
