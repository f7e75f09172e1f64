use worker::persona::{check_persona_config, PersonaManager, CommunicationRules, GovernanceLevel, PersonaCapabilities, PersonaConfig,
    PersonaConfigError, PersonaRegistry, PersonaType, WorkflowRules};

#[test]
fn registry_test_list_available() {
    let registry = PersonaRegistry::new();
    let list = registry.list_available();
    assert_eq!(list.len(), 4);
    assert!(list.iter().all(|l| l.bundled));
}

#[test]
fn test_persona_type_slug() {
    assert_eq!(PersonaType::MasterBa.slug(), "master-ba");
    assert_eq!(PersonaType::ProjectBa.slug(), "project-ba");
    assert_eq!(PersonaType::Coder.slug(), "coder");
    assert_eq!(PersonaType::Tester.slug(), "tester");
}

#[test]
fn test_persona_type_from_str() {
    assert_eq!("master-ba".parse::<PersonaType>().unwrap(), PersonaType::MasterBa);
    assert_eq!("project-ba".parse::<PersonaType>().unwrap(), PersonaType::ProjectBa);
    assert_eq!("coder".parse::<PersonaType>().unwrap(), PersonaType::Coder);
    assert_eq!("tester".parse::<PersonaType>().unwrap(), PersonaType::Tester);
    assert!("unknown".parse::<PersonaType>().is_err());
}

#[test]
fn persona_names_in_other_spellings() {
    assert_eq!(PersonaType::parse_name("Master_BA"), Ok(PersonaType::MasterBa));
    assert_eq!(PersonaType::parse_name("PROJECTBA"), Ok(PersonaType::ProjectBa));
    assert_eq!(
        PersonaType::parse_name("boss"),
        Err("Unknown persona type 'boss'. Valid: master-ba, project-ba, coder, tester".to_string())
    );
    assert_eq!(PersonaType::MasterBa.to_string(), "Master BA");
}

#[test]
fn test_persona_type_all() {
    let all = PersonaType::all();
    assert_eq!(all.len(), 4);
}

#[test]
fn test_governance_level() {
    assert_eq!(PersonaType::MasterBa.governance_level(), GovernanceLevel::Programme);
    assert_eq!(PersonaType::ProjectBa.governance_level(), GovernanceLevel::Project);
    assert_eq!(PersonaType::Coder.governance_level(), GovernanceLevel::Delivery);
    assert_eq!(PersonaType::Tester.governance_level(), GovernanceLevel::Delivery);
}

fn config(pt: PersonaType, version: &str) -> PersonaConfig {
    PersonaConfig {
        persona_type: pt,
        version: version.to_string(),
        description: "d".to_string(),
        system_prompt: "p".to_string(),
        capabilities: PersonaCapabilities::default(),
        communication: CommunicationRules::default(),
        workflow: WorkflowRules::default(),
    }
}

#[test]
fn persona_config_checks() {
    assert_eq!(check_persona_config(&config(PersonaType::Coder, "1.0"), PersonaType::Coder), Ok(()));
    assert_eq!(
        check_persona_config(&config(PersonaType::Tester, "1.0"), PersonaType::Coder),
        Err(PersonaConfigError::TypeMismatch { found: PersonaType::Tester, expected: PersonaType::Coder })
    );
    assert_eq!(
        check_persona_config(&config(PersonaType::Coder, ""), PersonaType::Coder),
        Err(PersonaConfigError::EmptyVersion)
    );
    assert_eq!(WorkflowRules::default().max_concurrent_milestones, 5);
}

#[test]
fn persona_manager_layout_and_activation() {
    let mut mgr = PersonaManager::new("/tmp/personas".to_string());
    assert_eq!(mgr.persona_dir(), "/tmp/personas");
    assert_eq!(mgr.persona_path(PersonaType::Coder), "/tmp/personas/coder");
    assert_eq!(mgr.config_path(PersonaType::MasterBa), "/tmp/personas/master-ba/config.toml");
    assert_eq!(mgr.active_file_path(), "/tmp/personas/active.txt");
    assert!(mgr.active_persona().is_none());
    assert!(mgr.activate_loaded(PersonaType::Coder, config(PersonaType::Tester, "1")).is_err());
    assert!(mgr.active_persona().is_none());
    assert!(mgr.activate_loaded(PersonaType::Coder, config(PersonaType::Coder, "1")).is_ok());
    assert_eq!(mgr.active_persona().unwrap().persona_type, PersonaType::Coder);
}
