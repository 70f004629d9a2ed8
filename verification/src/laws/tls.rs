//! What holds of the TLS that a server runs with.

use crate::addr::SocketAddr;
use crate::config::{CertMode, Config, TlsConfig};
use crate::error::ConfigError;
use crate::path::FilePath;
use crate::pem::{KeyKind, PrivateKey};
use crate::tls::{plan_tls, CertConfig, CertPlan, LoadTlsError, RelayTlsConfig, TlsPlan};
use rustls::ServerConfig;
use vstd::prelude::*;

verus! {

/// Two files are at the same place exactly where their texts agree.
pub proof fn files_are_told_by_their_texts(a: FilePath, b: FilePath)
    ensures
        a@ == b@ <==> match (a, b) {
            (FilePath::At(path_a), FilePath::At(path_b)) => path_a@ == path_b@,
            (
                FilePath::In { dir: dir_a, name: name_a },
                FilePath::In { dir: dir_b, name: name_b },
            ) => dir_a@ == dir_b@ && name_a@ == name_b@,
            _ => false,
        },
{
}

/// A certificate is refused exactly where it is to come from LetsEncrypt and the
/// hostname or the contact is missing; the hostname is asked for first.
pub proof fn letsencrypt_needs_hostname_and_contact(
    tls: TlsConfig,
    result: Result<CertPlan, ConfigError>,
)
    requires
        call_ensures(TlsConfig::plan_cert, (&tls,), result),
    ensures
        result is Err <==> tls.cert_mode == CertMode::LetsEncrypt && (tls.hostname is None
            || tls.contact is None),
        result matches Err(error) ==> (error == ConfigError::MissingHostname <==> tls.hostname
            is None),
        result matches Err(error) ==> (error == ConfigError::MissingContact <==> tls.hostname
            is Some),
{
}

/// A certificate is got in the way that is configured.
pub proof fn plan_follows_the_mode(tls: TlsConfig, plan: CertPlan)
    requires
        call_ensures(TlsConfig::plan_cert, (&tls,), Ok::<CertPlan, ConfigError>(plan)),
    ensures
        plan is Manual <==> tls.cert_mode == CertMode::Manual,
        plan is LetsEncrypt <==> tls.cert_mode == CertMode::LetsEncrypt,
        plan is Reloading <==> tls.cert_mode == CertMode::Reloading,
{
}

/// A certificate of LetsEncrypt is ordered for the configured hostname and for it
/// alone, with the configured address as the one contact, from the configured
/// server, and is kept in the directory of the certificates: the configured one, if
/// one is.
pub proof fn order_holds_what_is_configured(tls: TlsConfig, plan: CertPlan, dir: String)
    requires
        call_ensures(TlsConfig::plan_cert, (&tls,), Ok::<CertPlan, ConfigError>(plan)),
        call_ensures(TlsConfig::cert_dir, (&tls,), dir),
    ensures
        plan matches CertPlan::LetsEncrypt { domains, contacts, cache_dir, production } ==> {
            &&& domains@.len() == 1 && tls.hostname is Some && domains@[0]@ == tls.hostname->0@
            &&& contacts@.len() == 1 && tls.contact is Some && contacts@[0]@ == "mailto:"@
                + tls.contact->0@
            &&& cache_dir@ == dir@
            &&& tls.cert_dir matches Some(configured) ==> cache_dir@ == configured@
            &&& tls.cert_dir is None ==> cache_dir@ == "."@
            &&& production == tls.prod_tls
        },
{
    if let CertPlan::LetsEncrypt { domains, contacts, .. } = plan {
        let (domain_texts, contact_texts) = (
            crate::tls::texts(domains@),
            crate::tls::texts(contacts@),
        );
        assert(domain_texts.len() == domains@.len());
        assert(contact_texts.len() == contacts@.len());
        assert(domain_texts[0] == domains@[0]@);
        assert(contact_texts[0] == contacts@[0]@);
    }
}

/// Files are read from where the certificate and the private key are: from the
/// configured paths, or from the directory of the certificates.
pub proof fn files_are_where_configured(
    tls: TlsConfig,
    plan: CertPlan,
    cert: FilePath,
    key: FilePath,
)
    requires
        call_ensures(TlsConfig::plan_cert, (&tls,), Ok::<CertPlan, ConfigError>(plan)),
        call_ensures(TlsConfig::cert_path, (&tls,), cert),
        call_ensures(TlsConfig::key_path, (&tls,), key),
    ensures
        plan matches CertPlan::Manual { cert_path, key_path } ==> cert_path@ == cert@ && key_path@
            == key@,
        plan matches CertPlan::Reloading { cert_path, key_path } ==> cert_path@ == cert@
            && key_path@ == key@,
        tls.manual_cert_path matches Some(path) ==> cert@ == crate::path::FilePathView::At(path@),
        tls.manual_key_path matches Some(path) ==> key@ == crate::path::FilePathView::At(path@),
{
}

/// A plan that serves two sections tells that they are the same in all that it holds:
/// in the mode, and for LetsEncrypt in the hostname, the contact, the server and the
/// directories that are named; for files in the paths that are given.
pub proof fn plan_serves_one_kind_of_section(a: TlsConfig, b: TlsConfig, plan: CertPlan)
    requires
        a.is_served_by(plan),
        b.is_served_by(plan),
    ensures
        a.cert_mode == b.cert_mode,
        a.cert_mode == CertMode::LetsEncrypt ==> {
            &&& a.hostname is Some && b.hostname is Some && a.hostname->0@ == b.hostname->0@
            &&& a.contact is Some && b.contact is Some && a.contact->0@ == b.contact->0@
            &&& a.prod_tls == b.prod_tls
            &&& a.cert_dir is Some && b.cert_dir is Some ==> a.cert_dir->0@ == b.cert_dir->0@
        },
        a.cert_mode != CertMode::LetsEncrypt ==> {
            &&& a.manual_cert_path is Some <==> b.manual_cert_path is Some
            &&& a.manual_key_path is Some <==> b.manual_key_path is Some
            &&& a.manual_cert_path is Some ==> a.manual_cert_path->0@ == b.manual_cert_path->0@
            &&& a.manual_key_path is Some ==> a.manual_key_path->0@ == b.manual_key_path->0@
            &&& a.manual_cert_path is None && a.cert_dir is Some && b.cert_dir is Some
                ==> a.cert_dir->0@ == b.cert_dir->0@
            &&& a.manual_key_path is None && a.cert_dir is Some && b.cert_dir is Some
                ==> a.cert_dir->0@ == b.cert_dir->0@
        },
{
    if let CertPlan::LetsEncrypt { domains, contacts, .. } = plan {
        let (domain_texts, contact_texts) = (
            crate::tls::texts(domains@),
            crate::tls::texts(contacts@),
        );
        assert(domain_texts[0] == a.hostname->0@ && domain_texts[0] == b.hostname->0@);
        let (mail_a, mail_b) = ("mailto:"@ + a.contact->0@, "mailto:"@ + b.contact->0@);
        assert(contact_texts[0] == mail_a && contact_texts[0] == mail_b);
        assert(mail_a.skip("mailto:"@.len() as int) =~= a.contact->0@);
        assert(mail_b.skip("mailto:"@.len() as int) =~= b.contact->0@);
    }
}

/// TLS is planned exactly where there is a `tls` section and a server that uses it:
/// the QUIC server, or the relay with HTTPS bound. The plan is then refused as its
/// certificate is.
pub proof fn tls_is_planned_where_used(
    config: Config,
    planned: Result<Option<TlsPlan>, ConfigError>,
    cert: Result<CertPlan, ConfigError>,
)
    requires
        call_ensures(plan_tls, (&config,), planned),
        config.tls matches Some(tls) ==> call_ensures(TlsConfig::plan_cert, (&tls,), cert),
    ensures
        planned == Ok::<Option<TlsPlan>, ConfigError>(None) <==> {
            ||| config.tls is None
            ||| !config.enable_quic_addr_discovery && !config.enable_relay
            ||| !config.enable_quic_addr_discovery && config.tls->0.dangerous_http_only
        },
        planned != Ok::<Option<TlsPlan>, ConfigError>(None) ==> match cert {
            Err(error) => planned == Err::<Option<TlsPlan>, ConfigError>(error),
            Ok(_) => planned matches Ok(Some(_)),
        },
{
}

/// A plan is for the addresses of the HTTPS server and of the QUIC server, each in its
/// place, and for the certificate of the section.
pub proof fn plan_is_for_its_section(
    config: Config,
    tls: TlsConfig,
    plan: TlsPlan,
    https: SocketAddr,
    quic: SocketAddr,
    dir: String,
    cert: FilePath,
    key: FilePath,
)
    requires
        config.tls == Some(tls),
        call_ensures(plan_tls, (&config,), Ok::<Option<TlsPlan>, ConfigError>(Some(plan))),
        call_ensures(TlsConfig::https_bind_addr, (&tls, &config), https),
        call_ensures(TlsConfig::quic_bind_addr, (&tls, &config), quic),
        call_ensures(TlsConfig::cert_dir, (&tls,), dir),
        call_ensures(TlsConfig::cert_path, (&tls,), cert),
        call_ensures(TlsConfig::key_path, (&tls,), key),
    ensures
        plan.https_bind_addr == https,
        plan.quic_bind_addr == quic,
        plan.cert is Manual <==> tls.cert_mode == CertMode::Manual,
        plan.cert is LetsEncrypt <==> tls.cert_mode == CertMode::LetsEncrypt,
        plan.cert is Reloading <==> tls.cert_mode == CertMode::Reloading,
        match plan.cert {
            CertPlan::Manual { cert_path, key_path } => cert_path@ == cert@ && key_path@ == key@,
            CertPlan::Reloading { cert_path, key_path } => cert_path@ == cert@ && key_path@ == key@,
            CertPlan::LetsEncrypt { domains, contacts, cache_dir, production } => {
                &&& domains@.len() == 1 && tls.hostname is Some && domains@[0]@ == tls.hostname->0@
                &&& contacts@.len() == 1 && tls.contact is Some && contacts@[0]@ == "mailto:"@
                    + tls.contact->0@
                &&& cache_dir@ == dir@
                &&& production == tls.prod_tls
            },
        },
{
    if let CertPlan::LetsEncrypt { domains, contacts, .. } = plan.cert {
        let (domain_texts, contact_texts) = (
            crate::tls::texts(domains@),
            crate::tls::texts(contacts@),
        );
        assert(domain_texts.len() == domains@.len());
        assert(contact_texts.len() == contacts@.len());
        assert(domain_texts[0] == domains@[0]@);
        assert(contact_texts[0] == contacts@[0]@);
    }
}

/// What is put together with a server configuration that looks its certificate up by
/// itself keeps that configuration and the addresses of the plan, and has the kind of
/// certificate that is planned. Nothing is put together for files that are read once.
pub proof fn resolved_certificate_is_as_planned(
    plan: TlsPlan,
    server_config: ServerConfig,
    result: Option<RelayTlsConfig>,
)
    requires
        call_ensures(TlsPlan::finish_resolved, (&plan, server_config), result),
    ensures
        result is None <==> plan.cert is Manual,
        result matches Some(tls) ==> {
            &&& tls.https_bind_addr == plan.https_bind_addr
            &&& tls.quic_bind_addr == plan.quic_bind_addr
            &&& tls.server_config == server_config
            &&& tls.cert is LetsEncrypt <==> plan.cert is LetsEncrypt
            &&& tls.cert is Reloading <==> plan.cert is Reloading
        },
{
}

/// What is put together with certificates that were read keeps them all and in order,
/// with the addresses of the plan and the server configuration that was made, and
/// fails exactly where that could not be made, with the same error.
pub proof fn read_certificates_are_kept(
    plan: TlsPlan,
    certs: Vec<Vec<u8>>,
    made: Result<ServerConfig, rustls::Error>,
    result: Result<RelayTlsConfig, LoadTlsError>,
)
    requires
        call_ensures(TlsPlan::finish_manual, (&plan, certs, made), result),
    ensures
        result is Ok <==> made is Ok,
        result matches Ok(tls) ==> {
            &&& tls.https_bind_addr == plan.https_bind_addr
            &&& tls.quic_bind_addr == plan.quic_bind_addr
            &&& tls.server_config == made->Ok_0
            &&& tls.cert == CertConfig::Manual { certs }
        },
        result matches Err(LoadTlsError::Unusable(error)) ==> error == made->Err_0,
{
}

/// A server configuration is made only of certificates, and of a key that fits them;
/// for a key in the form of PKCS #1 it is made exactly of those that fit. What is
/// loaded from files holds what was made of these very certificates and this key.
pub proof fn loaded_certificates_are_kept(
    plan: TlsPlan,
    certs: Vec<Vec<u8>>,
    key: PrivateKey,
    result: Result<RelayTlsConfig, LoadTlsError>,
)
    requires
        call_ensures(TlsPlan::load_manual, (&plan, certs, key), result),
    ensures
        result matches Ok(tls) ==> {
            &&& tls.https_bind_addr == plan.https_bind_addr
            &&& tls.quic_bind_addr == plan.quic_bind_addr
            &&& tls.cert == CertConfig::Manual { certs }
            &&& certs@.len() > 0
            &&& crate::tls::made_with(
                certs,
                key,
                Ok::<ServerConfig, rustls::Error>(tls.server_config),
            )
            &&& crate::tls::key_fits(crate::pem::contents(certs@), key.kind, key.der@)
        },
        result matches Err(LoadTlsError::Unusable(error)) ==> crate::tls::made_with(
            certs,
            key,
            Err::<ServerConfig, rustls::Error>(error),
        ),
        key.kind == KeyKind::Pkcs1 ==> (result is Ok <==> crate::tls::key_fits(
            crate::pem::contents(certs@),
            key.kind,
            key.der@,
        )),
{
}

} // verus!
