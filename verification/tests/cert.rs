//! The certificate store's fixed contents and file layout, the
//! configuration directory, and the default addresses.

use exec_with_local_desktop::args::{default_bind_address, default_server_address, u16_to_string};
use exec_with_local_desktop::client::ExecuteOptions;
use exec_with_local_desktop::config_dir;
use exec_with_local_desktop::gen_cert::{AltName, CertGenerator, KeyUse};
use exec_with_local_desktop::DEFAULT_PORT;

#[test]
fn ca_blueprint_is_fixed() {
    let g = CertGenerator::new("/tmp/certs".to_string());
    let b = g.ca_blueprint();
    assert_eq!(b.subject.common_name, "Rex Test CA");
    assert_eq!(b.subject.organization, "Rex Test Org");
    assert_eq!(b.subject.organizational_unit, "Rex Test Unit");
    assert_eq!(b.subject.state, "Test State");
    assert_eq!(b.subject.country, "CN");
    assert_eq!(b.subject.locality, "Somewhere");
    assert_eq!(b.serial, 1);
    assert_eq!(b.validity_days, 365);
    assert!(b.ca);
    assert_eq!(
        b.key_uses,
        vec![KeyUse::CertSign, KeyUse::CrlSign, KeyUse::DigitalSignature, KeyUse::KeyEncipherment]
    );
    assert!(b.alt_names.is_empty());
}

#[test]
fn server_blueprint_is_fixed() {
    let g = CertGenerator::new("/tmp/certs".to_string());
    let b = g.server_blueprint();
    assert_eq!(b.subject.common_name, "Rex Test Server");
    assert_eq!(b.serial, 2);
    assert_eq!(b.validity_days, 365);
    assert!(!b.ca);
    assert_eq!(b.key_uses, vec![KeyUse::KeyEncipherment, KeyUse::DigitalSignature]);
    assert_eq!(b.alt_names.len(), 3);
    assert!(matches!(&b.alt_names[0], AltName::Dns(d) if d.as_str() == "localhost"));
    assert!(matches!(&b.alt_names[1], AltName::Ip(a) if a.as_str() == "127.0.0.1"));
    assert!(matches!(&b.alt_names[2], AltName::Ip(a) if a.as_str() == "::1"));
}

#[test]
fn client_blueprint_is_fixed() {
    let g = CertGenerator::new("/tmp/certs".to_string());
    let b = g.client_blueprint();
    assert_eq!(b.subject.common_name, "Rex Test Client");
    assert_eq!(b.serial, 3);
    assert_eq!(b.validity_days, 365);
    assert!(!b.ca);
    assert_eq!(b.key_uses, vec![KeyUse::KeyEncipherment, KeyUse::DigitalSignature]);
    assert!(b.alt_names.is_empty());
}

#[test]
fn store_file_layout() {
    let g = CertGenerator::new("/etc/rex".to_string());
    assert_eq!(g.ca_cert_path(), "/etc/rex/ca_cert.crt");
    assert_eq!(g.server_cert_path(), "/etc/rex/server_cert.crt");
    assert_eq!(g.server_secret_path(), "/etc/rex/server_secret.pem");
    assert_eq!(g.client_cert_path(), "/etc/rex/client_cert.crt");
    assert_eq!(g.client_secret_path(), "/etc/rex/client_secret.pem");
}

#[test]
fn config_dir_under_home() {
    assert_eq!(config_dir("/home/u"), "/home/u/.config/rex");
}

#[test]
fn default_addresses() {
    assert_eq!(DEFAULT_PORT, 30521);
    assert_eq!(default_server_address(), "https://[::1]:30521");
    assert_eq!(default_bind_address(), "[::1]:30521");
}

#[test]
fn port_decimal_notation() {
    assert_eq!(u16_to_string(0), "0");
    assert_eq!(u16_to_string(7), "7");
    assert_eq!(u16_to_string(10), "10");
    assert_eq!(u16_to_string(30521), "30521");
    assert_eq!(u16_to_string(65535), "65535");
}

#[test]
fn options_builder_sets_every_field() {
    let options = ExecuteOptions::builder()
        .executable("bash".to_string())
        .current_dir(Some("/tmp".to_string()))
        .args(vec!["-c".to_string(), "sleep 10".to_string()])
        .leak(false)
        .build();
    assert_eq!(options.executable, "bash");
    assert_eq!(options.current_dir, Some("/tmp".to_string()));
    assert_eq!(options.args, vec!["-c".to_string(), "sleep 10".to_string()]);
    assert!(!options.leak);
}
