//! Connection configuration builder mirroring tiberius' `Config` API.
//!
//! Use [`Config`] to build connection settings with a fluent API. The
//! settings are turned into the native driver's login parameters by
//! [`Config::to_client_context`], and into the driver's datasource string by
//! [`Config::datasource_string`].

use vstd::prelude::*;

use crate::text::{decimal_digits, lemma_decimal_digits_injective, push_decimal, push_str, string_from_chars};

verus! {

/// The driver name sent in the TDS Login7 packet and UserAgent feature extension.
pub const DRIVER_NAME: &'static str = "MS-TIB-BRID";

/// TLS encryption level for the connection. Mirrors tiberius' `EncryptionLevel`.
///
/// `Off` and `NotSupported` are aliases: both map to the driver's `PreferOff`.
/// `Strict` (TDS 8.0) performs the TLS handshake before pre-login and always
/// validates the server certificate.
#[derive(Debug, Clone, Copy, PartialEq, Eq, Structural)]
pub enum EncryptionLevel {
    /// Don't request encryption from the client side.
    Off,
    /// Encrypt the entire connection (default).
    On,
    /// Advertise that the client does not support encryption.
    NotSupported,
    /// Require encryption; fail if the server doesn't support it.
    Required,
    /// TDS 8.0 strict mode.
    Strict,
}

/// Authentication method for SQL Server connections.
#[derive(Debug, Clone)]
pub enum AuthMethod {
    /// SQL Server authentication with username and password.
    SqlServer { user: String, password: String },
    /// Windows Integrated authentication (Kerberos/NTLM).
    Integrated,
    /// Microsoft Entra ID (Azure AD) federated authentication using a
    /// pre-acquired access token (JWT).
    AadToken { token: String },
}

impl AuthMethod {
    /// Create SQL Server authentication credentials.
    pub fn sql_server(user: &str, password: &str) -> (r: Self)
        ensures
            r matches AuthMethod::SqlServer { user: u, password: p } && u@ == user@ && p@
                == password@,
    {
        AuthMethod::SqlServer { user: String::from_str(user), password: String::from_str(password) }
    }

    /// Create Windows Integrated authentication.
    pub fn integrated() -> (r: Self)
        ensures
            r is Integrated,
    {
        AuthMethod::Integrated
    }

    /// Create AAD/Entra ID federated authentication from a pre-acquired
    /// access token (JWT).
    pub fn aad_token(token: &str) -> (r: Self)
        ensures
            r matches AuthMethod::AadToken { token: t } && t@ == token@,
    {
        AuthMethod::AadToken { token: String::from_str(token) }
    }
}

/// The driver's encryption modes.
#[derive(Debug, Clone, Copy, PartialEq, Eq, Structural)]
pub enum EncryptionSetting {
    /// Don't encrypt if the server allows it.
    PreferOff,
    /// Encrypt the connection after pre-login.
    On,
    /// Require encryption after pre-login.
    Required,
    /// Encrypt the entire stream including pre-login (TDS 8.0).
    Strict,
}

/// The driver's authentication modes that the facade selects.
#[derive(Debug, Clone, Copy, PartialEq, Eq, Structural)]
pub enum TdsAuthenticationMethod {
    /// Integrated authentication via SSPI (Windows) or GSSAPI.
    SSPI,
    /// Pre-acquired access token (bearer JWT).
    AccessToken,
}

/// Read-write or read-only application intent sent at login.
#[derive(Debug, Clone, Copy, PartialEq, Eq, Structural)]
pub enum ApplicationIntent {
    /// The default intent.
    ReadWrite,
    /// Route to a readable secondary.
    ReadOnly,
}

/// TLS settings that the facade passes to the driver.
#[derive(Debug, Clone)]
pub struct EncryptionOptions {
    /// Encryption mode.
    pub mode: EncryptionSetting,
    /// Skip server certificate chain validation.
    pub trust_server_certificate: bool,
    /// Path of a pinned server certificate.
    pub server_certificate: Option<String>,
    /// Expected name in the server certificate.
    pub host_name_in_cert: Option<String>,
}

/// The login parameters that the facade decides for the native driver's
/// `ClientContext`. Every `None` field leaves the driver's default in place.
#[derive(Debug, Clone)]
pub struct ClientContext {
    /// Initial database catalog.
    pub database: String,
    /// SQL authentication user name.
    pub user_name: Option<String>,
    /// SQL authentication password.
    pub password: Option<String>,
    /// Authentication method, when it is not the driver's default (password).
    pub tds_authentication_method: Option<TdsAuthenticationMethod>,
    /// Pre-acquired access token.
    pub access_token: Option<String>,
    /// TLS settings.
    pub encryption_options: EncryptionOptions,
    /// Application name reported in the login packet.
    pub application_name: Option<String>,
    /// Workstation id reported in the login packet.
    pub workstation_id: Option<String>,
    /// Client library name sent in the login packet.
    pub library_name: String,
    /// Application intent.
    pub application_intent: ApplicationIntent,
    /// Multi-subnet failover.
    pub multi_subnet_failover: bool,
    /// Library name of the UserAgent feature extension.
    pub user_agent_library_name: String,
}

/// Fluent connection configuration builder, mirroring tiberius' `Config`.
///
/// Defaults: host `localhost`, port `1433`, database `master`, encryption
/// [`On`](EncryptionLevel::On), no certificate trust, empty SQL credentials.
#[derive(Debug, Clone)]
pub struct Config {
    pub(crate) host: String,
    pub(crate) port: u16,
    pub(crate) database: String,
    pub(crate) auth: AuthMethod,
    pub(crate) trust_cert: bool,
    pub(crate) server_certificate: Option<String>,
    pub(crate) host_name_in_certificate: Option<String>,
    pub(crate) readonly: bool,
    pub(crate) encryption: EncryptionLevel,
    pub(crate) application_name: Option<String>,
    pub(crate) instance_name: Option<String>,
    pub(crate) client_name: Option<String>,
    pub(crate) send_string_parameters_as_unicode: bool,
    pub(crate) multi_subnet_failover: bool,
}

/// The settings of a [`Config`].
pub struct ConfigView {
    pub host: Seq<char>,
    pub port: u16,
    pub database: Seq<char>,
    pub auth: AuthMethod,
    pub trust_cert: bool,
    pub server_certificate: Option<Seq<char>>,
    pub host_name_in_certificate: Option<Seq<char>>,
    pub readonly: bool,
    pub encryption: EncryptionLevel,
    pub application_name: Option<Seq<char>>,
    pub instance_name: Option<Seq<char>>,
    pub client_name: Option<Seq<char>>,
    pub send_string_parameters_as_unicode: bool,
    pub multi_subnet_failover: bool,
}

impl View for Config {
    type V = ConfigView;

    closed spec fn view(&self) -> ConfigView {
        ConfigView {
            host: self.host@,
            port: self.port,
            database: self.database@,
            auth: self.auth,
            trust_cert: self.trust_cert,
            server_certificate: opt_text(self.server_certificate),
            host_name_in_certificate: opt_text(self.host_name_in_certificate),
            readonly: self.readonly,
            encryption: self.encryption,
            application_name: opt_text(self.application_name),
            instance_name: opt_text(self.instance_name),
            client_name: opt_text(self.client_name),
            send_string_parameters_as_unicode: self.send_string_parameters_as_unicode,
            multi_subnet_failover: self.multi_subnet_failover,
        }
    }
}

/// The view of an optional string.
pub open spec fn opt_text(o: Option<String>) -> Option<Seq<char>> {
    match o {
        Some(s) => Some(s@),
        None => None,
    }
}

/// `host:port`.
pub open spec fn addr_text(host: Seq<char>, port: u16) -> Seq<char> {
    host + ":"@ + decimal_digits(port as nat)
}

/// The TDS datasource string: `tcp:host\instance` when an instance is named
/// (the port is then resolved by SQL Browser), `tcp:host,port` otherwise.
pub open spec fn datasource_text(
    host: Seq<char>,
    port: u16,
    instance: Option<Seq<char>>,
) -> Seq<char> {
    match instance {
        Some(inst) => "tcp:"@ + host + "\\"@ + inst,
        None => "tcp:"@ + host + ","@ + decimal_digits(port as nat),
    }
}

/// The driver encryption mode that a facade encryption level selects.
pub open spec fn encryption_setting(level: EncryptionLevel) -> EncryptionSetting {
    match level {
        EncryptionLevel::Off => EncryptionSetting::PreferOff,
        EncryptionLevel::On => EncryptionSetting::On,
        EncryptionLevel::NotSupported => EncryptionSetting::PreferOff,
        EncryptionLevel::Required => EncryptionSetting::Required,
        EncryptionLevel::Strict => EncryptionSetting::Strict,
    }
}

/// `Off` and `NotSupported` are aliases: whichever of the two a
/// configuration names, it logs in with the same driver encryption mode,
/// `PreferOff`; the other levels select distinct modes.
pub proof fn lemma_encryption_aliases(a: EncryptionLevel, b: EncryptionLevel)
    ensures
        (encryption_setting(a) == encryption_setting(b)) <==> (a == b || ((a
            == EncryptionLevel::Off || a == EncryptionLevel::NotSupported) && (b
            == EncryptionLevel::Off || b == EncryptionLevel::NotSupported))),
        (a == EncryptionLevel::Off || a == EncryptionLevel::NotSupported) ==> encryption_setting(a)
            == EncryptionSetting::PreferOff,
{
}

/// A named instance drops the port: the datasource of a host and instance
/// is the same whatever the port, while without an instance two different
/// ports give two different datasources.
pub proof fn lemma_instance_ignores_port(host: Seq<char>, p1: u16, p2: u16, instance: Option<Seq<char>>)
    ensures
        instance is Some ==> datasource_text(host, p1, instance) == datasource_text(host, p2, instance),
        instance is None && p1 != p2 ==> datasource_text(host, p1, instance) != datasource_text(host, p2, instance),
{
    if instance is None && p1 != p2 {
        lemma_decimal_digits_injective(p1 as nat, p2 as nat);
        let prefix = "tcp:"@ + host + ","@;
        let a = prefix + decimal_digits(p1 as nat);
        let b = prefix + decimal_digits(p2 as nat);
        if a == b {
            assert(decimal_digits(p1 as nat) =~= a.subrange(prefix.len() as int, a.len() as int));
            assert(decimal_digits(p2 as nat) =~= b.subrange(prefix.len() as int, b.len() as int));
        }
    }
}

fn clone_opt(o: &Option<String>) -> (r: Option<String>)
    ensures
        r == *o,
{
    match o {
        Some(s) => Some(s.clone()),
        None => None,
    }
}

impl Config {
    /// The default settings.
    pub open spec fn has_default_settings(self) -> bool {
        &&& self@.port == 1433
        &&& !self@.trust_cert
        &&& self@.server_certificate is None
        &&& self@.host_name_in_certificate is None
        &&& !self@.readonly
        &&& self@.encryption == EncryptionLevel::On
        &&& self@.application_name is None
        &&& self@.instance_name is None
        &&& self@.client_name is None
        &&& self@.send_string_parameters_as_unicode
        &&& !self@.multi_subnet_failover
    }

    /// Create a new `Config` with defaults (`localhost:1433`, `master`
    /// database, empty SQL auth, encryption on, strings sent as Unicode).
    pub fn new() -> (r: Self)
        ensures
            r.has_default_settings(),
            r@.host == "localhost"@,
            r@.database == "master"@,
            r@.auth matches AuthMethod::SqlServer { user, password } && user@.len() == 0
                && password@.len() == 0,
    {
        Config {
            host: String::from_str("localhost"),
            port: 1433,
            database: String::from_str("master"),
            auth: AuthMethod::SqlServer { user: String::new(), password: String::new() },
            trust_cert: false,
            server_certificate: None,
            host_name_in_certificate: None,
            readonly: false,
            encryption: EncryptionLevel::On,
            application_name: None,
            instance_name: None,
            client_name: None,
            send_string_parameters_as_unicode: true,
            multi_subnet_failover: false,
        }
    }

    /// Set the server hostname or IP address.
    pub fn host(&mut self, host: &str) -> (r: &mut Self)
        ensures
            *final(self) == *final(r),
            r@ == (ConfigView { host: host@, ..old(self)@ }),
    {
        self.host = String::from_str(host);
        self
    }

    /// Set the server port (default: 1433).
    pub fn port(&mut self, port: u16) -> (r: &mut Self)
        ensures
            *final(self) == *final(r),
            r@ == (ConfigView { port, ..old(self)@ }),
    {
        self.port = port;
        self
    }

    /// Set the default database to connect to.
    pub fn database(&mut self, database: &str) -> (r: &mut Self)
        ensures
            *final(self) == *final(r),
            r@ == (ConfigView { database: database@, ..old(self)@ }),
    {
        self.database = String::from_str(database);
        self
    }

    /// Set the authentication method (see [`AuthMethod`]).
    pub fn authentication(&mut self, auth: AuthMethod) -> (r: &mut Self)
        ensures
            *final(self) == *final(r),
            r@ == (ConfigView { auth, ..old(self)@ }),
    {
        self.auth = auth;
        self
    }

    /// Trust the server's TLS certificate without validation.
    pub fn trust_cert(&mut self) -> (r: &mut Self)
        ensures
            *final(self) == *final(r),
            r@ == (ConfigView { trust_cert: true, ..old(self)@ }),
    {
        self.trust_cert = true;
        self
    }

    /// Pin the server's TLS certificate to the X.509 file at `path`.
    /// It supersedes [`trust_cert`](Self::trust_cert) in the driver; both
    /// settings are forwarded unchanged.
    pub fn trust_cert_ca(&mut self, path: &str) -> (r: &mut Self)
        ensures
            *final(self) == *final(r),
            r@ == (ConfigView { server_certificate: Some(path@), ..old(self)@ }),
    {
        self.server_certificate = Some(String::from_str(path));
        self
    }

    /// Override the hostname used for TLS certificate name validation.
    pub fn host_name_in_certificate(&mut self, name: &str) -> (r: &mut Self)
        ensures
            *final(self) == *final(r),
            r@ == (ConfigView { host_name_in_certificate: Some(name@), ..old(self)@ }),
    {
        self.host_name_in_certificate = Some(String::from_str(name));
        self
    }

    /// Set the client workstation name sent in the Login7 packet.
    pub fn client_name(&mut self, name: &str) -> (r: &mut Self)
        ensures
            *final(self) == *final(r),
            r@ == (ConfigView { client_name: Some(name@), ..old(self)@ }),
    {
        self.client_name = Some(String::from_str(name));
        self
    }

    /// Controls whether string parameters are sent as NVARCHAR (default) or
    /// VARCHAR.
    pub fn send_string_parameters_as_unicode(&mut self, enabled: bool) -> (r: &mut Self)
        ensures
            *final(self) == *final(r),
            r@ == (ConfigView { send_string_parameters_as_unicode: enabled, ..old(self)@ }),
    {
        self.send_string_parameters_as_unicode = enabled;
        self
    }

    /// Whether string parameters are sent as NVARCHAR.
    pub fn string_parameters_as_unicode(&self) -> (r: bool)
        ensures
            r == self@.send_string_parameters_as_unicode,
    {
        self.send_string_parameters_as_unicode
    }

    /// Send `ApplicationIntent=ReadOnly` in the login.
    pub fn readonly(&mut self, readonly: bool) -> (r: &mut Self)
        ensures
            *final(self) == *final(r),
            r@ == (ConfigView { readonly, ..old(self)@ }),
    {
        self.readonly = readonly;
        self
    }

    /// Set the TLS encryption level.
    pub fn encryption(&mut self, level: EncryptionLevel) -> (r: &mut Self)
        ensures
            *final(self) == *final(r),
            r@ == (ConfigView { encryption: level, ..old(self)@ }),
    {
        self.encryption = level;
        self
    }

    /// Enable `MultiSubnetFailover` connection mode (TCP only).
    pub fn multi_subnet_failover(&mut self, enabled: bool) -> (r: &mut Self)
        ensures
            *final(self) == *final(r),
            r@ == (ConfigView { multi_subnet_failover: enabled, ..old(self)@ }),
    {
        self.multi_subnet_failover = enabled;
        self
    }

    /// Returns whether `MultiSubnetFailover` is enabled on this config.
    pub fn is_multi_subnet_failover(&self) -> (r: bool)
        ensures
            r == self@.multi_subnet_failover,
    {
        self.multi_subnet_failover
    }

    /// Set the application name reported to the server.
    pub fn application_name(&mut self, name: &str) -> (r: &mut Self)
        ensures
            *final(self) == *final(r),
            r@ == (ConfigView { application_name: Some(name@), ..old(self)@ }),
    {
        self.application_name = Some(String::from_str(name));
        self
    }

    /// Set the named instance (e.g., `SQLEXPRESS`); the port is then resolved
    /// through SQL Browser.
    pub fn instance_name(&mut self, name: &str) -> (r: &mut Self)
        ensures
            *final(self) == *final(r),
            r@ == (ConfigView { instance_name: Some(name@), ..old(self)@ }),
    {
        self.instance_name = Some(String::from_str(name));
        self
    }

    /// The address as `host:port` (useful for logging).
    pub fn get_addr(&self) -> (r: String)
        ensures
            r@ == addr_text(self@.host, self@.port),
    {
        let mut out: Vec<char> = Vec::new();
        push_str(&mut out, self.host.as_str());
        push_str(&mut out, ":");
        push_decimal(&mut out, self.port as u128);
        proof {
            assert(out@ =~= addr_text(self.host@, self.port));
        }
        string_from_chars(out)
    }

    /// The TDS datasource string: `tcp:host,port`, or `tcp:host\instance`
    /// when an instance name is set (the port is then dropped so that the
    /// driver resolves it through SQL Browser).
    pub fn datasource_string(&self) -> (r: String)
        ensures
            r@ == datasource_text(self@.host, self@.port, self@.instance_name),
    {
        let mut out: Vec<char> = Vec::new();
        push_str(&mut out, "tcp:");
        push_str(&mut out, self.host.as_str());
        match &self.instance_name {
            Some(inst) => {
                push_str(&mut out, "\\");
                push_str(&mut out, inst.as_str());
            },
            None => {
                push_str(&mut out, ",");
                push_decimal(&mut out, self.port as u128);
            },
        }
        proof {
            assert(out@ =~= datasource_text(self.host@, self.port, opt_text(self.instance_name)));
        }
        string_from_chars(out)
    }

    /// The login parameters for the native driver: credentials or the
    /// authentication mode, TLS settings, application and workstation names,
    /// the driver identity `MS-TIB-BRID`, application intent and
    /// multi-subnet failover.
    pub fn to_client_context(&self) -> (r: ClientContext)
        ensures
            r.database@ == self@.database,
            match self@.auth {
                AuthMethod::SqlServer { user, password } => {
                    &&& opt_text(r.user_name) == Some(user@)
                    &&& opt_text(r.password) == Some(password@)
                    &&& r.tds_authentication_method is None
                    &&& r.access_token is None
                },
                AuthMethod::Integrated => {
                    &&& r.user_name is None
                    &&& r.password is None
                    &&& r.tds_authentication_method == Some(TdsAuthenticationMethod::SSPI)
                    &&& r.access_token is None
                },
                AuthMethod::AadToken { token } => {
                    &&& r.user_name is None
                    &&& r.password is None
                    &&& r.tds_authentication_method == Some(
                        TdsAuthenticationMethod::AccessToken,
                    )
                    &&& opt_text(r.access_token) == Some(token@)
                },
            },
            r.encryption_options.mode == encryption_setting(self@.encryption),
            r.encryption_options.trust_server_certificate == self@.trust_cert,
            opt_text(r.encryption_options.server_certificate) == self@.server_certificate,
            opt_text(r.encryption_options.host_name_in_cert) == self@.host_name_in_certificate,
            opt_text(r.application_name) == self@.application_name,
            opt_text(r.workstation_id) == self@.client_name,
            r.library_name@ == DRIVER_NAME@,
            r.user_agent_library_name@ == DRIVER_NAME@,
            r.application_intent == (if self@.readonly {
                ApplicationIntent::ReadOnly
            } else {
                ApplicationIntent::ReadWrite
            }),
            r.multi_subnet_failover == self@.multi_subnet_failover,
    {
        let (user_name, password, method, token) = match &self.auth {
            AuthMethod::SqlServer { user, password } => (
                Some(user.clone()),
                Some(password.clone()),
                None,
                None,
            ),
            AuthMethod::Integrated => (None, None, Some(TdsAuthenticationMethod::SSPI), None),
            AuthMethod::AadToken { token } => (
                None,
                None,
                Some(TdsAuthenticationMethod::AccessToken),
                Some(token.clone()),
            ),
        };
        let mode = match self.encryption {
            EncryptionLevel::Off => EncryptionSetting::PreferOff,
            EncryptionLevel::On => EncryptionSetting::On,
            EncryptionLevel::NotSupported => EncryptionSetting::PreferOff,
            EncryptionLevel::Required => EncryptionSetting::Required,
            EncryptionLevel::Strict => EncryptionSetting::Strict,
        };
        ClientContext {
            database: self.database.clone(),
            user_name,
            password,
            tds_authentication_method: method,
            access_token: token,
            encryption_options: EncryptionOptions {
                mode,
                trust_server_certificate: self.trust_cert,
                server_certificate: clone_opt(&self.server_certificate),
                host_name_in_cert: clone_opt(&self.host_name_in_certificate),
            },
            application_name: clone_opt(&self.application_name),
            workstation_id: clone_opt(&self.client_name),
            library_name: String::from_str(DRIVER_NAME),
            application_intent: if self.readonly {
                ApplicationIntent::ReadOnly
            } else {
                ApplicationIntent::ReadWrite
            },
            multi_subnet_failover: self.multi_subnet_failover,
            user_agent_library_name: String::from_str(DRIVER_NAME),
        }
    }
}

impl Default for Config {
    fn default() -> (r: Self)
        ensures
            r.has_default_settings(),
            r@.host == "localhost"@,
            r@.database == "master"@,
    {
        Self::new()
    }
}

} // verus!
