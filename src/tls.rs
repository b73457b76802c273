//! The TLS material of the etcd client, and the order in which the client's
//! TLS context takes it in.
use vstd::prelude::*;

verus! {

/// Files for TLS to etcd: a CA bundle to trust, and a certificate with its
/// private key to present. Each is optional on its own.
#[derive(Debug, PartialEq, Eq)]
pub struct SSLOptions {
    pub ca_file: Option<String>,
    pub cert_and_key: Option<(String, String)>,
}

/// One change to the TLS context, naming the PEM file it reads.
#[derive(Debug, PartialEq, Eq)]
pub enum TlsStep {
    /// Trust the CA certificates in this file.
    TrustCaFile(String),
    /// Present the client certificate in this file.
    UseCertificateFile(String),
    /// Use the private key in this file for the client certificate.
    UsePrivateKeyFile(String),
}

/// The changes to make to the TLS context for `o`, in order: the CA first,
/// then the certificate, then its key.
pub open spec fn steps_for(o: SSLOptions) -> Seq<TlsStep> {
    let ca = match o.ca_file {
        Some(f) => seq![TlsStep::TrustCaFile(f)],
        None => Seq::empty(),
    };
    let pair = match o.cert_and_key {
        Some((c, k)) => seq![TlsStep::UseCertificateFile(c), TlsStep::UsePrivateKeyFile(k)],
        None => Seq::empty(),
    };
    ca + pair
}

impl SSLOptions {
    /// Options with all three files given, as the command line asks for them.
    pub fn from_args(ca_file: String, cert_file: String, key_file: String) -> (r: SSLOptions)
        ensures
            r.ca_file == Some(ca_file),
            r.cert_and_key == Some((cert_file, key_file)),
    {
        SSLOptions { ca_file: Some(ca_file), cert_and_key: Some((cert_file, key_file)) }
    }

    /// The changes to make to the TLS context of the etcd client.
    pub fn tls_steps(&self) -> (r: Vec<TlsStep>)
        ensures
            r@ == steps_for(*self),
    {
        let mut steps: Vec<TlsStep> = Vec::new();
        if let Some(ca) = &self.ca_file {
            steps.push(TlsStep::TrustCaFile(ca.clone()));
        }
        if let Some((cert, key)) = &self.cert_and_key {
            steps.push(TlsStep::UseCertificateFile(cert.clone()));
            steps.push(TlsStep::UsePrivateKeyFile(key.clone()));
        }
        assert(steps@ =~= steps_for(*self));
        steps
    }
}

} // verus!
