use mssql_tiberius_bridge::config::{
    ApplicationIntent, AuthMethod, Config, EncryptionLevel, EncryptionSetting,
    TdsAuthenticationMethod, DRIVER_NAME,
};

#[test]
fn default_config() {
    let cfg = Config::new();
    assert_eq!(cfg.get_addr(), "localhost:1433");
    assert_eq!(cfg.datasource_string(), "tcp:localhost,1433");
}

#[test]
fn config_to_datasource() {
    let mut cfg = Config::new();
    cfg.host("myserver").port(1433).database("testdb");
    assert_eq!(cfg.datasource_string(), "tcp:myserver,1433");
}

#[test]
fn fluent_builder() {
    let mut cfg = Config::new();
    cfg.host("db.example.com")
        .port(1445)
        .database("mydb")
        .authentication(AuthMethod::sql_server("sa", "pass123"))
        .trust_cert()
        .encryption(EncryptionLevel::Required);
    assert_eq!(cfg.get_addr(), "db.example.com:1445");
    assert_eq!(cfg.datasource_string(), "tcp:db.example.com,1445");

    let ctx = cfg.to_client_context();
    assert_eq!(ctx.user_name.as_deref(), Some("sa"));
    assert_eq!(ctx.password.as_deref(), Some("pass123"));
    assert_eq!(ctx.database, "mydb");
    assert!(ctx.encryption_options.trust_server_certificate);
}

#[test]
fn trust_cert_ca_sets_server_certificate() {
    let mut cfg = Config::new();
    cfg.trust_cert_ca("/etc/ssl/ca.pem");
    let ctx = cfg.to_client_context();
    assert_eq!(
        ctx.encryption_options.server_certificate.as_deref(),
        Some("/etc/ssl/ca.pem")
    );
    assert!(!ctx.encryption_options.trust_server_certificate);
}

#[test]
fn trust_cert_ca_independent_of_trust_cert() {
    let mut cfg = Config::new();
    cfg.trust_cert().trust_cert_ca("/tmp/ca.pem");
    let ctx = cfg.to_client_context();
    assert!(ctx.encryption_options.trust_server_certificate);
    assert_eq!(
        ctx.encryption_options.server_certificate.as_deref(),
        Some("/tmp/ca.pem")
    );
}

#[test]
fn readonly_sets_application_intent() {
    let mut cfg = Config::new();
    assert_eq!(
        cfg.to_client_context().application_intent,
        ApplicationIntent::ReadWrite
    );
    cfg.readonly(true);
    assert_eq!(
        cfg.to_client_context().application_intent,
        ApplicationIntent::ReadOnly
    );
    cfg.readonly(false);
    assert_eq!(
        cfg.to_client_context().application_intent,
        ApplicationIntent::ReadWrite
    );
}

#[test]
fn instance_name_in_datasource() {
    let mut cfg = Config::new();
    cfg.host("server").instance_name("SQLEXPRESS");
    // Port is omitted when an instance name is set so the driver runs SSRP.
    assert_eq!(cfg.datasource_string(), "tcp:server\\SQLEXPRESS");
}

#[test]
fn instance_name_overrides_port_in_datasource() {
    let mut cfg = Config::new();
    cfg.host("server").port(14330).instance_name("SQLEXPRESS");
    // Even with an explicit port, instance triggers SSRP; port is dropped.
    assert_eq!(cfg.datasource_string(), "tcp:server\\SQLEXPRESS");
}

#[test]
fn integrated_auth() {
    let mut cfg = Config::new();
    cfg.authentication(AuthMethod::integrated());
    let ctx = cfg.to_client_context();
    assert!(matches!(
        ctx.tds_authentication_method,
        Some(TdsAuthenticationMethod::SSPI)
    ));
}

#[test]
fn aad_token_sets_access_token() {
    let mut cfg = Config::new();
    cfg.authentication(AuthMethod::aad_token("eyJ0eXAi.fake.jwt"));
    let ctx = cfg.to_client_context();
    assert!(matches!(
        ctx.tds_authentication_method,
        Some(TdsAuthenticationMethod::AccessToken)
    ));
    assert_eq!(ctx.access_token.as_deref(), Some("eyJ0eXAi.fake.jwt"));
    // user_name/password keep the driver's empty default when using AAD
    assert!(ctx.user_name.is_none());
    assert!(ctx.password.is_none());
}

#[test]
fn driver_identity_is_set() {
    let cfg = Config::new();
    let ctx = cfg.to_client_context();

    // Login7 library name
    assert_eq!(ctx.library_name, "MS-TIB-BRID");

    // UserAgent feature extension fields
    assert_eq!(ctx.user_agent_library_name, "MS-TIB-BRID");
    assert_eq!(DRIVER_NAME, "MS-TIB-BRID");
}

#[test]
fn client_name_sets_workstation_id() {
    let mut cfg = Config::new();
    cfg.client_name("app-host-01");
    assert_eq!(
        cfg.to_client_context().workstation_id.as_deref(),
        Some("app-host-01")
    );
}

#[test]
fn default_client_name_keeps_driver_default() {
    let cfg = Config::new();
    assert!(cfg.to_client_context().workstation_id.is_none());
    assert!(cfg.to_client_context().application_name.is_none());
}

#[test]
fn host_name_in_certificate_sets_tls_override() {
    let mut cfg = Config::new();
    cfg.host_name_in_certificate("sql.example.com");
    assert_eq!(
        cfg.to_client_context()
            .encryption_options
            .host_name_in_cert
            .as_deref(),
        Some("sql.example.com")
    );
}

#[test]
fn send_string_parameters_as_unicode_defaults_to_true() {
    let mut cfg = Config::new();
    assert!(cfg.string_parameters_as_unicode());
    cfg.send_string_parameters_as_unicode(false);
    assert!(!cfg.string_parameters_as_unicode());
}

#[test]
fn encryption_level_strict_maps_to_strict() {
    let mut cfg = Config::new();
    cfg.encryption(EncryptionLevel::Strict);
    assert_eq!(
        cfg.to_client_context().encryption_options.mode,
        EncryptionSetting::Strict
    );
}

#[test]
fn encryption_level_required_maps_to_required() {
    let mut cfg = Config::new();
    cfg.encryption(EncryptionLevel::Required);
    assert_eq!(
        cfg.to_client_context().encryption_options.mode,
        EncryptionSetting::Required
    );
}

#[test]
fn encryption_level_on_maps_to_on() {
    let mut cfg = Config::new();
    cfg.encryption(EncryptionLevel::On);
    assert_eq!(
        cfg.to_client_context().encryption_options.mode,
        EncryptionSetting::On
    );
}

#[test]
fn encryption_level_off_maps_to_prefer_off() {
    let mut cfg = Config::new();
    cfg.encryption(EncryptionLevel::Off);
    assert_eq!(
        cfg.to_client_context().encryption_options.mode,
        EncryptionSetting::PreferOff
    );
}

#[test]
fn encryption_level_not_supported_maps_to_prefer_off() {
    let mut cfg = Config::new();
    cfg.encryption(EncryptionLevel::NotSupported);
    assert_eq!(
        cfg.to_client_context().encryption_options.mode,
        EncryptionSetting::PreferOff
    );
}

#[test]
fn default_encryption_is_on() {
    let cfg = Config::new();
    assert_eq!(
        cfg.to_client_context().encryption_options.mode,
        EncryptionSetting::On
    );
}

#[test]
fn strict_preserves_host_name_in_certificate_and_ca() {
    let mut cfg = Config::new();
    cfg.encryption(EncryptionLevel::Strict)
        .host_name_in_certificate("sql.example.com")
        .trust_cert_ca("/etc/ssl/ca.pem");
    let opts = cfg.to_client_context().encryption_options;
    assert_eq!(opts.mode, EncryptionSetting::Strict);
    assert_eq!(opts.host_name_in_cert.as_deref(), Some("sql.example.com"));
    assert_eq!(opts.server_certificate.as_deref(), Some("/etc/ssl/ca.pem"));
}

#[test]
fn multi_subnet_failover_defaults_to_off() {
    let cfg = Config::new();
    assert!(!cfg.is_multi_subnet_failover());
    assert!(!cfg.to_client_context().multi_subnet_failover);
}

#[test]
fn multi_subnet_failover_setter_propagates() {
    let mut cfg = Config::new();
    cfg.multi_subnet_failover(true);
    assert!(cfg.is_multi_subnet_failover());
    assert!(cfg.to_client_context().multi_subnet_failover);

    cfg.multi_subnet_failover(false);
    assert!(!cfg.is_multi_subnet_failover());
    assert!(!cfg.to_client_context().multi_subnet_failover);
}

#[test]
fn default_config_uses_master_and_sql_auth() {
    let cfg = Config::default();
    let ctx = cfg.to_client_context();
    assert_eq!(ctx.database, "master");
    assert_eq!(ctx.user_name.as_deref(), Some(""));
    assert_eq!(ctx.password.as_deref(), Some(""));
    assert!(ctx.tds_authentication_method.is_none());
    assert!(!ctx.encryption_options.trust_server_certificate);
}

#[test]
fn application_name_is_passed_through() {
    let mut cfg = Config::new();
    cfg.application_name("reporting");
    assert_eq!(
        cfg.to_client_context().application_name.as_deref(),
        Some("reporting")
    );
}

#[test]
fn port_extremes_render_in_addresses() {
    let mut cfg = Config::new();
    cfg.host("h").port(0);
    assert_eq!(cfg.get_addr(), "h:0");
    cfg.port(65535);
    assert_eq!(cfg.datasource_string(), "tcp:h,65535");
}
