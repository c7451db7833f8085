//! A single-document store with fingerprint-conditional writes, and the
//! mutual-TLS configuration that guards it.

pub mod certs;
pub mod config;
pub mod fingerprint;
pub mod store;

pub use certs::{
    alpn_protocols, config_from_der, config_from_pem, io_other, select_private_key, TlsError,
};
pub use config::{
    data_dir, join, system_config_dir, user_config_dir, BasePaths, CertificateKind,
    Certificates, DataDirAction, Error, Kind,
};
pub use fingerprint::fingerprint;
pub use store::{
    decide_write, etag_of, path, path_is_valid, DocumentStore, WriteDecision, WriteError,
};
