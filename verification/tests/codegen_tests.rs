use tenantcore::codegen::CodeGenerator;
use tenantcore::codegen::CodeGeneratorConfig;
use tenantcore::codegen::CodeScope;
use tenantcore::errors::CodeError;

fn contacts_config() -> CodeGeneratorConfig {
    CodeGeneratorConfig {
        table_name: "contacts".to_string(),
        code_column: "code".to_string(),
        workspace_column: Some("workspace_id".to_string()),
        prefix_length: 2,
        number_length: 5,
        separator: "-".to_string(),
    }
}

#[test]
fn acme_round_trip_yields_sequential_codes() {
    let generator = CodeGenerator::new();
    let config = contacts_config();
    let mut scope = CodeScope::new();

    let first = generator.get_next_available_code(&config, "Acme Corporation", &scope).unwrap();
    assert_eq!(first, "AC-00001");

    scope.insert_code(first).unwrap();
    let second = generator.get_next_available_code(&config, "Acme Corporation", &scope).unwrap();
    assert_eq!(second, "AC-00002");
}

#[test]
fn single_token_name_takes_leading_characters() {
    let generator = CodeGenerator::new();
    assert_eq!(generator.generate_prefix_from_name("Apple", 2), "AP");
}

#[test]
fn empty_name_falls_back_to_x() {
    let generator = CodeGenerator::new();
    assert_eq!(generator.generate_prefix_from_name("", 2), "X");
    assert_eq!(generator.generate_prefix_from_name("   ", 2), "X");
}

#[test]
fn multi_token_names_take_initials() {
    let generator = CodeGenerator::new();
    assert_eq!(generator.generate_prefix_from_name("John Doe", 2), "JD");
    assert_eq!(generator.generate_prefix_from_name("Acme Corporation", 2), "AC");
    assert_eq!(generator.generate_prefix_from_name("PT Maju Jaya", 3), "PMJ");
}

#[test]
fn short_single_token_is_used_whole() {
    let generator = CodeGenerator::new();
    assert_eq!(generator.generate_prefix_from_name("a", 3), "A");
}

#[test]
fn increment_pads_and_carries() {
    let generator = CodeGenerator::new();
    let config = contacts_config();
    assert_eq!(generator.increment_code("AC-00009", &config).unwrap(), "AC-00010");
    assert_eq!(generator.increment_code("AC-00123", &config).unwrap(), "AC-00124");
}

#[test]
fn increment_at_digit_capacity_is_exhausted() {
    let generator = CodeGenerator::new();
    let config = contacts_config();
    assert!(matches!(generator.increment_code("AC-99999", &config), Err(CodeError::Exhausted)));
}

#[test]
fn increment_rejects_malformed_codes() {
    let generator = CodeGenerator::new();
    let config = contacts_config();
    assert!(matches!(generator.increment_code("AC00009", &config), Err(CodeError::InvalidFormat)));
    assert!(matches!(generator.increment_code("AC-00-09", &config), Err(CodeError::InvalidFormat)));
    assert!(matches!(generator.increment_code("AC-12a45", &config), Err(CodeError::InvalidFormat)));
    assert!(matches!(generator.increment_code("AC-", &config), Err(CodeError::InvalidFormat)));
}

#[test]
fn concurrent_allocations_propose_the_same_code_and_insert_rejects_the_second() {
    let generator = CodeGenerator::new();
    let config = contacts_config();
    let mut scope = CodeScope::new();

    // Two tasks read the same empty scope before either inserts: both may
    // legitimately propose the same candidate.
    let first = generator.get_next_available_code(&config, "Acme Corporation", &scope).unwrap();
    let second = generator.get_next_available_code(&config, "Acme Corporation", &scope).unwrap();
    assert_eq!(first, second);

    // The insert layer's uniqueness constraint is the backstop: the second
    // identical insert is a conflict, not a silent duplicate.
    assert!(scope.insert_code(first).is_ok());
    assert!(matches!(scope.insert_code(second), Err(CodeError::Conflict)));
    assert_eq!(scope.codes.len(), 1);
}

#[test]
fn next_code_ignores_codes_of_other_prefixes_and_widths() {
    let generator = CodeGenerator::new();
    let config = contacts_config();
    let mut scope = CodeScope::new();
    scope.insert_code("AB-00007".to_string()).unwrap();
    scope.insert_code("AC-001".to_string()).unwrap();
    scope.insert_code("ACX-00003".to_string()).unwrap();

    let next = generator.get_next_available_code(&config, "Acme Corporation", &scope).unwrap();
    assert_eq!(next, "AC-00001");
}

#[test]
fn next_code_picks_the_numerically_greatest_match() {
    let generator = CodeGenerator::new();
    let config = contacts_config();
    let mut scope = CodeScope::new();
    scope.insert_code("AC-00002".to_string()).unwrap();
    scope.insert_code("AC-00010".to_string()).unwrap();
    scope.insert_code("AC-00005".to_string()).unwrap();

    let next = generator.get_next_available_code(&config, "Acme Corporation", &scope).unwrap();
    assert_eq!(next, "AC-00011");
}

#[test]
fn code_exists_is_direct_equality() {
    let generator = CodeGenerator::new();
    let mut scope = CodeScope::new();
    scope.insert_code("AC-00001".to_string()).unwrap();
    assert!(generator.code_exists("AC-00001", &scope));
    assert!(!generator.code_exists("AC-00002", &scope));
    assert!(!generator.code_exists("AC-0000", &scope));
}

#[test]
fn lookup_query_is_parameterized_and_anchored() {
    let generator = CodeGenerator::new();
    let config = contacts_config();
    let (sql, params) = generator.build_query(&config, "AC", true).unwrap();
    assert_eq!(
        sql,
        "SELECT code FROM contacts WHERE workspace_id = $1 AND code LIKE $2 AND code ~ $3 ORDER BY code DESC LIMIT 1"
    );
    assert_eq!(params.len(), 2);
    assert_eq!(params[0], "AC-%");
    assert_eq!(params[1], "^AC\\-\\d{5}$");
}

#[test]
fn lookup_query_without_workspace_column() {
    let generator = CodeGenerator::new();
    let config = CodeGeneratorConfig {
        table_name: "counters".to_string(),
        code_column: "code".to_string(),
        workspace_column: None,
        prefix_length: 2,
        number_length: 5,
        separator: "-".to_string(),
    };
    let (sql, params) = generator.build_query(&config, "AC", false).unwrap();
    assert_eq!(
        sql,
        "SELECT code FROM counters WHERE code LIKE $1 AND code ~ $2 ORDER BY code DESC LIMIT 1"
    );
    assert_eq!(params.len(), 2);
}

#[test]
fn workspace_configuration_mismatch_is_rejected() {
    let generator = CodeGenerator::new();
    let config = contacts_config();
    assert!(matches!(
        generator.build_query(&config, "AC", false),
        Err(CodeError::ConfigMismatch)
    ));
    assert!(matches!(
        generator.build_exists_query(&config, false),
        Err(CodeError::ConfigMismatch)
    ));
}

#[test]
fn exists_query_is_direct_equality_lookup() {
    let generator = CodeGenerator::new();
    let config = contacts_config();
    let sql = generator.build_exists_query(&config, true).unwrap();
    assert_eq!(sql, "SELECT 1 FROM contacts WHERE workspace_id = $1 AND code = $2 LIMIT 1");
}

#[test]
fn default_config_matches_the_contact_scope() {
    let config = CodeGeneratorConfig::default();
    assert_eq!(config.code_column, "code");
    assert_eq!(config.workspace_column.as_deref(), Some("workspace_id"));
    assert_eq!(config.prefix_length, 2);
    assert_eq!(config.number_length, 5);
    assert_eq!(config.separator, "-");
}

#[test]
fn prefix_containing_the_separator_still_increments() {
    let generator = CodeGenerator::new();
    let config = contacts_config();
    let mut scope = CodeScope::new();

    let first = generator.get_next_available_code(&config, "A-B", &scope).unwrap();
    assert_eq!(first, "A--00001");

    scope.insert_code(first).unwrap();
    let second = generator.get_next_available_code(&config, "A-B", &scope).unwrap();
    assert_eq!(second, "A--00002");

    assert_eq!(generator.increment_code("A--00001", &config).unwrap(), "A--00002");
}

#[test]
fn multi_character_separators_are_supported() {
    let generator = CodeGenerator::new();
    let config = CodeGeneratorConfig {
        table_name: "contacts".to_string(),
        code_column: "code".to_string(),
        workspace_column: Some("workspace_id".to_string()),
        prefix_length: 2,
        number_length: 5,
        separator: "::".to_string(),
    };
    let scope = CodeScope::new();
    let first = generator.get_next_available_code(&config, "Acme Corporation", &scope).unwrap();
    assert_eq!(first, "AC::00001");
    assert_eq!(generator.increment_code("AC::00009", &config).unwrap(), "AC::00010");
    assert!(matches!(generator.increment_code("AC-00009", &config), Err(CodeError::InvalidFormat)));
}
