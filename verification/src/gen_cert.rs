//! The certificate store's contents, as plain values: the subject names,
//! serial numbers, validity, key usages and subject alternative names of
//! the CA and the two leaves, and the file each one is written to. Issuing
//! the certificates from these blueprints is the caller's business; the
//! library pins down what is issued and where it goes.

use vstd::prelude::*;
use vstd::string::StringExecFns;

verus! {

/// The subject name fields every certificate of the store carries.
#[derive(Debug, Clone)]
pub struct SubjectName {
    pub common_name: String,
    pub organization: String,
    pub organizational_unit: String,
    pub state: String,
    pub country: String,
    pub locality: String,
}

/// A key-usage flag of a generated certificate.
#[derive(Debug, Clone, Copy, PartialEq, Eq, Structural)]
pub enum KeyUse {
    CertSign,
    CrlSign,
    DigitalSignature,
    KeyEncipherment,
}

/// A subject alternative name of the server leaf.
#[derive(Debug, Clone)]
pub enum AltName {
    Dns(String),
    Ip(String),
}

/// Everything one certificate of the store is generated from, as plain
/// values.
#[derive(Debug, Clone)]
pub struct CertBlueprint {
    pub subject: SubjectName,
    /// Serial number: 1 for the CA, 2 for the server leaf, 3 for the
    /// client leaf.
    pub serial: u64,
    /// Validity from now, in days.
    pub validity_days: u64,
    /// Whether this is the CA (constrained to sign leaves only).
    pub ca: bool,
    pub key_uses: Vec<KeyUse>,
    pub alt_names: Vec<AltName>,
}

/// The generator of the store: it knows the output directory and the fixed
/// contents of the three certificates.
#[derive(Debug, Clone)]
pub struct CertGenerator {
    pub output_path: String,
}

/// The subject every certificate of the store carries, distinguished only
/// by its common name.
fn subject(common_name: String) -> (r: SubjectName)
    ensures
        r.common_name == common_name,
        r.organization@ == "Rex Test Org"@,
        r.organizational_unit@ == "Rex Test Unit"@,
        r.state@ == "Test State"@,
        r.country@ == "CN"@,
        r.locality@ == "Somewhere"@,
{
    SubjectName {
        common_name,
        organization: "Rex Test Org".to_owned(),
        organizational_unit: "Rex Test Unit".to_owned(),
        state: "Test State".to_owned(),
        country: "CN".to_owned(),
        locality: "Somewhere".to_owned(),
    }
}

impl CertGenerator {
    pub fn new(output_path: String) -> (r: CertGenerator)
        ensures
            r.output_path == output_path,
    {
        CertGenerator { output_path }
    }

    /// The trust anchor: a CA constrained to directly issued leaves, one
    /// year of validity, serial 1, and the signing-grade key usages.
    pub fn ca_blueprint(&self) -> (r: CertBlueprint)
        ensures
            r.subject.common_name@ == "Rex Test CA"@,
            r.subject.organization@ == "Rex Test Org"@,
            r.subject.organizational_unit@ == "Rex Test Unit"@,
            r.subject.state@ == "Test State"@,
            r.subject.country@ == "CN"@,
            r.subject.locality@ == "Somewhere"@,
            r.serial == 1,
            r.validity_days == 365,
            r.ca,
            r.key_uses@ == seq![
                KeyUse::CertSign,
                KeyUse::CrlSign,
                KeyUse::DigitalSignature,
                KeyUse::KeyEncipherment,
            ],
            r.alt_names@.len() == 0,
    {
        let mut key_uses: Vec<KeyUse> = Vec::new();
        key_uses.push(KeyUse::CertSign);
        key_uses.push(KeyUse::CrlSign);
        key_uses.push(KeyUse::DigitalSignature);
        key_uses.push(KeyUse::KeyEncipherment);
        proof {
            assert(key_uses@ =~= seq![
                KeyUse::CertSign,
                KeyUse::CrlSign,
                KeyUse::DigitalSignature,
                KeyUse::KeyEncipherment,
            ]);
        }
        CertBlueprint {
            subject: subject("Rex Test CA".to_owned()),
            serial: 1,
            validity_days: 365,
            ca: true,
            key_uses,
            alt_names: Vec::new(),
        }
    }

    /// The server leaf: one year of validity, serial 2, transport-grade
    /// key usages, and the loopback subject alternative names the client
    /// may dial.
    pub fn server_blueprint(&self) -> (r: CertBlueprint)
        ensures
            r.subject.common_name@ == "Rex Test Server"@,
            r.subject.organization@ == "Rex Test Org"@,
            r.subject.organizational_unit@ == "Rex Test Unit"@,
            r.subject.state@ == "Test State"@,
            r.subject.country@ == "CN"@,
            r.subject.locality@ == "Somewhere"@,
            r.serial == 2,
            r.validity_days == 365,
            !r.ca,
            r.key_uses@ == seq![KeyUse::KeyEncipherment, KeyUse::DigitalSignature],
            r.alt_names@.len() == 3,
            r.alt_names@[0] matches AltName::Dns(d) && d@ == "localhost"@,
            r.alt_names@[1] matches AltName::Ip(a) && a@ == "127.0.0.1"@,
            r.alt_names@[2] matches AltName::Ip(a) && a@ == "::1"@,
    {
        let mut key_uses: Vec<KeyUse> = Vec::new();
        key_uses.push(KeyUse::KeyEncipherment);
        key_uses.push(KeyUse::DigitalSignature);
        proof {
            assert(key_uses@ =~= seq![KeyUse::KeyEncipherment, KeyUse::DigitalSignature]);
        }
        let mut alt_names: Vec<AltName> = Vec::new();
        alt_names.push(AltName::Dns("localhost".to_owned()));
        alt_names.push(AltName::Ip("127.0.0.1".to_owned()));
        alt_names.push(AltName::Ip("::1".to_owned()));
        CertBlueprint {
            subject: subject("Rex Test Server".to_owned()),
            serial: 2,
            validity_days: 365,
            ca: false,
            key_uses,
            alt_names,
        }
    }

    /// The client leaf: one year of validity, serial 3, transport-grade
    /// key usages, no subject alternative names.
    pub fn client_blueprint(&self) -> (r: CertBlueprint)
        ensures
            r.subject.common_name@ == "Rex Test Client"@,
            r.subject.organization@ == "Rex Test Org"@,
            r.subject.organizational_unit@ == "Rex Test Unit"@,
            r.subject.state@ == "Test State"@,
            r.subject.country@ == "CN"@,
            r.subject.locality@ == "Somewhere"@,
            r.serial == 3,
            r.validity_days == 365,
            !r.ca,
            r.key_uses@ == seq![KeyUse::KeyEncipherment, KeyUse::DigitalSignature],
            r.alt_names@.len() == 0,
    {
        let mut key_uses: Vec<KeyUse> = Vec::new();
        key_uses.push(KeyUse::KeyEncipherment);
        key_uses.push(KeyUse::DigitalSignature);
        proof {
            assert(key_uses@ =~= seq![KeyUse::KeyEncipherment, KeyUse::DigitalSignature]);
        }
        CertBlueprint {
            subject: subject("Rex Test Client".to_owned()),
            serial: 3,
            validity_days: 365,
            ca: false,
            key_uses,
            alt_names: Vec::new(),
        }
    }

    /// A file of the store, under the output directory.
    fn file_path(&self, name: &str) -> (r: String)
        ensures
            r@ == self.output_path@ + "/"@ + name@,
    {
        let mut p = self.output_path.clone();
        p.append("/");
        p.append(name);
        p
    }

    /// Where the trust anchor is written.
    pub fn ca_cert_path(&self) -> (r: String)
        ensures
            r@ == self.output_path@ + "/"@ + "ca_cert.crt"@,
    {
        self.file_path("ca_cert.crt")
    }

    /// Where the server leaf certificate is written.
    pub fn server_cert_path(&self) -> (r: String)
        ensures
            r@ == self.output_path@ + "/"@ + "server_cert.crt"@,
    {
        self.file_path("server_cert.crt")
    }

    /// Where the server leaf key is written.
    pub fn server_secret_path(&self) -> (r: String)
        ensures
            r@ == self.output_path@ + "/"@ + "server_secret.pem"@,
    {
        self.file_path("server_secret.pem")
    }

    /// Where the client leaf certificate is written.
    pub fn client_cert_path(&self) -> (r: String)
        ensures
            r@ == self.output_path@ + "/"@ + "client_cert.crt"@,
    {
        self.file_path("client_cert.crt")
    }

    /// Where the client leaf key is written.
    pub fn client_secret_path(&self) -> (r: String)
        ensures
            r@ == self.output_path@ + "/"@ + "client_secret.pem"@,
    {
        self.file_path("client_secret.pem")
    }
}

} // verus!
