//! Where the server's certificate comes from.

use crate::addr::SocketAddr;
use crate::config::{CertMode, Config, TlsConfig};
use crate::error::ConfigError;
use crate::path::FilePath;
use crate::pem::{KeyKind, PrivateKey};
use rustls::pki_types::{CertificateDer, PrivateKeyDer};
use rustls::ServerConfig;
use std::sync::Arc;
use vstd::prelude::*;

verus! {

/// The TLS configuration of a server, of the `rustls` crate.
#[verifier::external_type_specification]
#[verifier::external_body]
pub struct ExServerConfig(rustls::ServerConfig);

/// An error of the `rustls` crate.
#[verifier::external_type_specification]
#[verifier::external_body]
pub struct ExTlsError(rustls::Error);

/// The clone of a `rustls::ServerConfig` is the same configuration: the derived
/// `clone` copies or shares each of its fields.
pub assume_specification[ <rustls::ServerConfig as Clone>::clone ](
    config: &rustls::ServerConfig,
) -> (copy: rustls::ServerConfig)
    ensures
        copy == *config,
;

/// What is to be done to get a certificate.
#[derive(Debug)]
pub enum CertPlan {
    /// Read the private key and the certificates from files.
    Manual { cert_path: FilePath, key_path: FilePath },
    /// Order a certificate for `domains` from LetsEncrypt: from its production
    /// server if `production` is set, else from its staging server. What comes is
    /// kept in `cache_dir`.
    LetsEncrypt {
        domains: Vec<String>,
        contacts: Vec<String>,
        cache_dir: String,
        production: bool,
    },
    /// Read the private key and the certificates from files, again and again.
    Reloading { cert_path: FilePath, key_path: FilePath },
}

/// What is to be done to run TLS, and where.
#[derive(Debug)]
pub struct TlsPlan {
    pub https_bind_addr: SocketAddr,
    pub quic_bind_addr: SocketAddr,
    pub cert: CertPlan,
}

/// The certificate that a server runs with.
#[derive(Debug, PartialEq, Eq)]
pub enum CertConfig {
    /// These certificates, each in its DER encoding.
    Manual { certs: Vec<Vec<u8>> },
    /// The certificate that LetsEncrypt issues.
    LetsEncrypt,
    /// The certificate that was read last.
    Reloading,
}

/// What a server needs to run TLS.
#[derive(Debug)]
pub struct RelayTlsConfig {
    pub https_bind_addr: SocketAddr,
    pub quic_bind_addr: SocketAddr,
    pub cert: CertConfig,
    pub server_config: ServerConfig,
}

/// Why TLS cannot run with the certificates and the private key that were read.
#[derive(Debug)]
pub enum LoadTlsError {
    /// The private key is unusable, or does not belong to the first certificate.
    Unusable(rustls::Error),
}

impl CertMode {
    /// Whether a server that gets its certificate in this way runs with `cert`.
    pub open spec fn gives(self, cert: CertConfig) -> bool {
        match self {
            CertMode::Manual => cert is Manual,
            CertMode::LetsEncrypt => cert is LetsEncrypt,
            CertMode::Reloading => cert is Reloading,
        }
    }
}

impl CertPlan {
    /// The way in which this plan gets a certificate.
    pub open spec fn mode(self) -> CertMode {
        match self {
            CertPlan::Manual { .. } => CertMode::Manual,
            CertPlan::LetsEncrypt { .. } => CertMode::LetsEncrypt,
            CertPlan::Reloading { .. } => CertMode::Reloading,
        }
    }
}

/// The texts of a list of strings.
pub open spec fn texts(list: Seq<String>) -> Seq<Seq<char>> {
    list.map_values(|text: String| text@)
}

impl TlsConfig {
    /// What is missing for the certificate that is configured.
    pub open spec fn missing(self) -> Option<ConfigError> {
        if self.cert_mode != CertMode::LetsEncrypt {
            None
        } else if self.hostname is None {
            Some(ConfigError::MissingHostname)
        } else if self.contact is None {
            Some(ConfigError::MissingContact)
        } else {
            None
        }
    }

    /// Whether `plan` gets the certificate that is configured.
    pub open spec fn is_served_by(self, plan: CertPlan) -> bool {
        match self.cert_mode {
            CertMode::Manual => plan matches CertPlan::Manual { cert_path, key_path } && cert_path@
                == self.cert_file() && key_path@ == self.key_file(),
            CertMode::LetsEncrypt => plan matches CertPlan::LetsEncrypt {
                domains,
                contacts,
                cache_dir,
                production,
            } && self.hostname is Some && self.contact is Some && texts(domains@)
                == seq![self.hostname->0@] && texts(contacts@) == seq![
                "mailto:"@ + self.contact->0@,
            ] && cache_dir@ == self.dir() && production == self.prod_tls,
            CertMode::Reloading => plan matches CertPlan::Reloading { cert_path, key_path }
                && cert_path@ == self.cert_file() && key_path@ == self.key_file(),
        }
    }

    /// Says what is to be done to get the certificate that is configured.
    pub fn plan_cert(&self) -> (result: Result<CertPlan, ConfigError>)
        ensures
            match self.missing() {
                Some(error) => result == Err::<CertPlan, ConfigError>(error),
                None => result matches Ok(plan) && self.is_served_by(plan),
            },
    {
        match self.cert_mode {
            CertMode::Manual => Ok(
                CertPlan::Manual { cert_path: self.cert_path(), key_path: self.key_path() },
            ),
            CertMode::LetsEncrypt => {
                let hostname: String = match &self.hostname {
                    Some(hostname) => hostname.clone(),
                    None => {
                        return Err(ConfigError::MissingHostname);
                    },
                };
                let contact: String = match &self.contact {
                    Some(contact) => "mailto:".to_owned().concat(contact.as_str()),
                    None => {
                        return Err(ConfigError::MissingContact);
                    },
                };
                let mut domains: Vec<String> = Vec::new();
                domains.push(hostname);
                let mut contacts: Vec<String> = Vec::new();
                contacts.push(contact);
                assert(texts(domains@) =~= seq![self.hostname->0@]);
                assert(texts(contacts@) =~= seq!["mailto:"@ + self.contact->0@]);
                Ok(
                    CertPlan::LetsEncrypt {
                        domains,
                        contacts,
                        cache_dir: self.cert_dir(),
                        production: self.prod_tls,
                    },
                )
            },
            CertMode::Reloading => Ok(
                CertPlan::Reloading { cert_path: self.cert_path(), key_path: self.key_path() },
            ),
        }
    }
}

impl TlsPlan {
    /// Whether this plan is for the `tls` section of `config`.
    pub open spec fn is_for(self, config: Config) -> bool {
        config.tls matches Some(tls) && {
            &&& self.https_bind_addr == tls.https_addr(config)
            &&& self.quic_bind_addr == tls.quic_addr(config)
            &&& tls.is_served_by(self.cert)
        }
    }
}

/// Says what is to be done to run TLS; nothing, if no TLS is configured or no
/// server uses it.
pub fn plan_tls(config: &Config) -> (result: Result<Option<TlsPlan>, ConfigError>)
    ensures
        match config.tls {
            Some(tls) if config.uses_tls() => match tls.missing() {
                Some(error) => result == Err::<Option<TlsPlan>, ConfigError>(error),
                None => result matches Ok(Some(plan)) && plan.is_for(*config),
            },
            _ => result == Ok::<Option<TlsPlan>, ConfigError>(None),
        },
{
    if !config.enable_quic_addr_discovery && (!config.enable_relay || config.is_http_only()) {
        return Ok(None);
    }
    match &config.tls {
        None => Ok(None),
        Some(tls) => match tls.plan_cert() {
            Err(error) => Err(error),
            Ok(cert) => Ok(
                Some(
                    TlsPlan {
                        https_bind_addr: tls.https_bind_addr(config),
                        quic_bind_addr: tls.quic_bind_addr(config),
                        cert,
                    },
                ),
            ),
        },
    }
}

/// Whether the private key of form `kind` with the contents `der` can be used,
/// and belongs to the first of `certs`, as `with_single_cert` of
/// `rustls::ServerConfig`'s builder sees it with the provider of `ring`.
pub uninterp spec fn key_fits(certs: Seq<Seq<u8>>, kind: KeyKind, der: Seq<u8>) -> bool;

/// Calls `with_single_cert` of the builder of `rustls::ServerConfig`, for the
/// provider of `ring`, the default protocol versions and no client
/// authentication. It gives a configuration only if the private key fits the
/// certificates, and never without a certificate. It gives one whenever a key in
/// the form of PKCS #1 fits: such a key can only be read as an RSA key, for which
/// nothing but the key and the certificates counts. Of the other forms that is not
/// claimed: among them are elliptic-curve keys, for which `ring` draws on the
/// system's source of randomness, which may fail.
#[verifier::external_body]
fn single_cert_config(certs: &Vec<Vec<u8>>, key: PrivateKey) -> (result: Result<
    ServerConfig,
    rustls::Error,
>)
    ensures
        result is Ok ==> key_fits(crate::pem::contents(certs@), key.kind, key.der@),
        result is Ok ==> certs@.len() > 0,
        key.kind == KeyKind::Pkcs1 && key_fits(crate::pem::contents(certs@), key.kind, key.der@)
            ==> result is Ok,
{
    let key: PrivateKeyDer<'static> = match key.kind {
        KeyKind::Pkcs1 => PrivateKeyDer::Pkcs1(key.der.into()),
        KeyKind::Pkcs8 => PrivateKeyDer::Pkcs8(key.der.into()),
        KeyKind::Sec1 => PrivateKeyDer::Sec1(key.der.into()),
    };
    ServerConfig::builder_with_provider(Arc::new(rustls::crypto::ring::default_provider()))
        .with_safe_default_protocol_versions()
        .expect("protocols supported by ring")
        .with_no_client_auth()
        .with_single_cert(certs.iter().cloned().map(CertificateDer::from).collect(), key)
}

/// Whether `made` is what a call of `with_single_cert` of `rustls::ServerConfig`'s
/// builder, with `certs` and `key`, can give. It need not be the only such value:
/// each configuration has a session store of its own, and a call may fail for want
/// of randomness.
pub closed spec fn made_with(
    certs: Vec<Vec<u8>>,
    key: PrivateKey,
    made: Result<ServerConfig, rustls::Error>,
) -> bool {
    call_ensures(single_cert_config, (&certs, key), made)
}

impl TlsPlan {
    /// Puts together what a server needs to run TLS, once its certificate is
    /// there.
    fn finish(&self, cert: CertConfig, server_config: ServerConfig) -> (tls: RelayTlsConfig)
        ensures
            tls == (RelayTlsConfig {
                https_bind_addr: self.https_bind_addr,
                quic_bind_addr: self.quic_bind_addr,
                cert,
                server_config,
            }),
    {
        RelayTlsConfig {
            https_bind_addr: self.https_bind_addr,
            quic_bind_addr: self.quic_bind_addr,
            cert,
            server_config,
        }
    }

    /// Puts together what a server needs to run TLS with a certificate that
    /// `server_config` looks up by itself: one of LetsEncrypt, or one that is read
    /// again from time to time. Gives nothing if this plan is for a certificate that
    /// is read once.
    pub fn finish_resolved(&self, server_config: ServerConfig) -> (result: Option<RelayTlsConfig>)
        ensures
            self.cert is Manual <==> result is None,
            result matches Some(tls) ==> {
                &&& tls.https_bind_addr == self.https_bind_addr
                &&& tls.quic_bind_addr == self.quic_bind_addr
                &&& self.cert.mode().gives(tls.cert)
                &&& tls.server_config == server_config
            },
    {
        match &self.cert {
            CertPlan::Manual { .. } => None,
            CertPlan::LetsEncrypt { .. } => Some(
                self.finish(CertConfig::LetsEncrypt, server_config),
            ),
            CertPlan::Reloading { .. } => Some(self.finish(CertConfig::Reloading, server_config)),
        }
    }

    /// Whether `result` is what comes of running TLS with `certs`, where `made` is
    /// what came of making a server configuration with them.
    pub open spec fn manual_outcome(
        self,
        certs: Vec<Vec<u8>>,
        made: Result<ServerConfig, rustls::Error>,
        result: Result<RelayTlsConfig, LoadTlsError>,
    ) -> bool {
        match made {
            Ok(server_config) => result == Ok::<RelayTlsConfig, LoadTlsError>(
                RelayTlsConfig {
                    https_bind_addr: self.https_bind_addr,
                    quic_bind_addr: self.quic_bind_addr,
                    cert: CertConfig::Manual { certs },
                    server_config,
                },
            ),
            Err(error) => result == Err::<RelayTlsConfig, LoadTlsError>(
                LoadTlsError::Unusable(error),
            ),
        }
    }

    /// Puts together what a server needs to run TLS with `certs`, where `made` is
    /// what came of making a server configuration with them.
    pub fn finish_manual(
        &self,
        certs: Vec<Vec<u8>>,
        made: Result<ServerConfig, rustls::Error>,
    ) -> (result: Result<RelayTlsConfig, LoadTlsError>)
        ensures
            self.manual_outcome(certs, made, result),
    {
        match made {
            Ok(server_config) => Ok(self.finish(CertConfig::Manual { certs }, server_config)),
            Err(error) => Err(LoadTlsError::Unusable(error)),
        }
    }

    /// Puts together what a server needs to run TLS with the certificates and the
    /// private key that were read from files: the server configuration, or the error,
    /// that a call of `with_single_cert` with them gives. This fails where the key
    /// does not fit the certificates, and for a key in the form of PKCS #1 only
    /// there. A key of another form that fits may still be refused, where the system
    /// has no randomness to give.
    pub fn load_manual(&self, certs: Vec<Vec<u8>>, key: PrivateKey) -> (result: Result<
        RelayTlsConfig,
        LoadTlsError,
    >)
        ensures
            result matches Ok(tls) ==> {
                &&& tls.https_bind_addr == self.https_bind_addr
                &&& tls.quic_bind_addr == self.quic_bind_addr
                &&& tls.cert == CertConfig::Manual { certs }
                &&& key_fits(crate::pem::contents(certs@), key.kind, key.der@)
                &&& certs@.len() > 0
            },
            certs@.len() == 0 ==> result is Err,
            key.kind == KeyKind::Pkcs1 ==> (result is Ok <==> key_fits(
                crate::pem::contents(certs@),
                key.kind,
                key.der@,
            )),
            exists|made: Result<ServerConfig, rustls::Error>| #[trigger]
                made_with(certs, key, made) && self.manual_outcome(certs, made, result),
    {
        let made: Result<ServerConfig, rustls::Error> = single_cert_config(&certs, key);
        assert(made_with(certs, key, made));
        self.finish_manual(certs, made)
    }
}

/// Whether `loaded` is what a server with this configuration runs TLS with: it is
/// there exactly where TLS is configured and used, on the addresses that are
/// configured, and with a certificate that was got in the way that is configured.
pub open spec fn loaded_for(config: Config, loaded: Option<RelayTlsConfig>) -> bool {
    match config.tls {
        Some(tls) if config.uses_tls() => loaded matches Some(loaded) && loaded.https_bind_addr
            == tls.https_addr(config) && loaded.quic_bind_addr == tls.quic_addr(config)
            && tls.cert_mode.gives(loaded.cert),
        _ => loaded is None,
    }
}

impl TlsConfig {
    /// Whether `other` has the same in every field that counts for the way in which
    /// this section gets its certificate: the hostname, the contact, the directory and
    /// the choice of server for LetsEncrypt; for files their paths, and the directory
    /// unless both paths are given.
    pub open spec fn counts_as(self, other: TlsConfig) -> bool {
        &&& self.https_bind_addr == other.https_bind_addr
        &&& self.quic_bind_addr == other.quic_bind_addr
        &&& self.dangerous_http_only == other.dangerous_http_only
        &&& self.cert_mode == other.cert_mode
        &&& match self.cert_mode {
            CertMode::LetsEncrypt => {
                &&& self.hostname == other.hostname
                &&& self.contact == other.contact
                &&& self.cert_dir == other.cert_dir
                &&& self.prod_tls == other.prod_tls
            },
            CertMode::Manual | CertMode::Reloading => {
                &&& self.manual_cert_path == other.manual_cert_path
                &&& self.manual_key_path == other.manual_key_path
                &&& self.manual_cert_path is Some && self.manual_key_path is Some || self.cert_dir
                    == other.cert_dir
            },
        }
    }
}

/// The fields of the `tls` section that do not count for the way in which it gets
/// its certificate make no difference: neither to what is missing, nor to what is
/// to be done, nor to what the server runs with.
pub proof fn unused_fields_make_no_difference(
    config: Config,
    tls: TlsConfig,
    other: TlsConfig,
    plan: TlsPlan,
    loaded: Option<RelayTlsConfig>,
    token: Option<String>,
)
    requires
        tls.counts_as(other),
    ensures
        ({
            let first = Config { tls: Some(tls), ..config };
            let second = Config { tls: Some(other), ..config };
            &&& first.uses_tls() == second.uses_tls()
            &&& tls.missing() == other.missing()
            &&& plan.is_for(first) == plan.is_for(second)
            &&& loaded_for(first, loaded) == loaded_for(second, loaded)
            &&& first.error_with(loaded) == second.error_with(loaded)
            &&& first.server(loaded, token) == second.server(loaded, token)
        }),
{
}

/// What was made with certificates and a key came of a call with that very list and
/// that very key.
proof fn made_by_the_call(
    certs: Vec<Vec<u8>>,
    key: PrivateKey,
    made: Result<ServerConfig, rustls::Error>,
)
    requires
        made_with(certs, key, made),
    ensures
        call_ensures(single_cert_config, (&certs, key), made),
{
}

/// A call of `with_single_cert` gives a configuration only for certificates, and only
/// for a key that fits them. For a key in the form of PKCS #1 it gives one whenever
/// the key fits.
pub proof fn configurations_are_made_with_fitting_keys(
    certs: Vec<Vec<u8>>,
    key: PrivateKey,
    made: Result<ServerConfig, rustls::Error>,
)
    requires
        made_with(certs, key, made),
    ensures
        made is Ok ==> certs@.len() > 0,
        made is Ok ==> key_fits(crate::pem::contents(certs@), key.kind, key.der@),
        key.kind == KeyKind::Pkcs1 ==> (made is Ok <==> key_fits(
            crate::pem::contents(certs@),
            key.kind,
            key.der@,
        )),
{
    made_by_the_call(certs, key, made);
}

/// What is put together from the plan for a configuration is what a server with
/// that configuration runs TLS with, once the certificate was got as planned.
pub proof fn finished_plan_is_loaded(
    config: Config,
    plan: TlsPlan,
    cert: CertConfig,
    server_config: ServerConfig,
)
    requires
        config.uses_tls(),
        plan.is_for(config),
        plan.cert.mode().gives(cert),
    ensures
        loaded_for(
            config,
            Some(
                RelayTlsConfig {
                    https_bind_addr: plan.https_bind_addr,
                    quic_bind_addr: plan.quic_bind_addr,
                    cert,
                    server_config,
                },
            ),
        ),
{
}

} // verus!
