use midas_app::registry::HistoricalDataRegistry;

#[test]
fn registry_starts_empty() {
    let reg: HistoricalDataRegistry<u32> = HistoricalDataRegistry::new();
    assert!(reg.active_data_provider().is_none());
    assert_eq!(reg.data_provider_names().len(), 0);
    assert_eq!(reg.active_data_provider_name(), "None");
}

#[test]
fn registry_register_and_lookup() {
    let mut reg = HistoricalDataRegistry::new();
    reg.register_data_provider("Test Data".to_owned(), 7u32);
    assert_eq!(reg.data_provider_names(), vec!["Test Data".to_string()]);
    assert_eq!(reg.active_data_provider(), Some(&7));
    assert_eq!(reg.active_data_provider_name(), "Test Data");
}

#[test]
fn registry_find_by_name() {
    let mut reg = HistoricalDataRegistry::new();
    reg.register_data_provider("Test Data".to_owned(), 1u32);
    reg.register_data_provider("IB".to_owned(), 2u32);
    assert_eq!(reg.find_data_provider_index("Test Data"), Some(0));
    assert_eq!(reg.find_data_provider_index("IB"), Some(1));
    assert_eq!(reg.find_data_provider_index("Unknown"), None);
}

#[test]
fn registry_set_active_data() {
    let mut reg = HistoricalDataRegistry::new();
    reg.register_data_provider("Test Data".to_owned(), 1u32);
    assert!(!reg.set_active_data(5));
    assert!(!reg.set_active_data(0));
    reg.register_data_provider("IB".to_owned(), 2u32);
    assert!(reg.set_active_data(1));
    assert_eq!(reg.active_data_idx, 1);
    assert_eq!(reg.active_data_provider(), Some(&2));
}
