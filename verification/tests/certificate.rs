use linuxdo_accelerator::certificate::{
    android_cert_common_name, android_cert_subject_hash_old, certificate_der, certificate_subject,
    subject_common_name, subject_hash_text, CertificateSubject,
};
use linuxdo_accelerator::failure::{format_error_chain, Failure};
use linuxdo_accelerator::file_path::FilePath;
use linuxdo_accelerator::platform::android_trust::{
    android_ca_file_name, android_ca_store_candidates, android_ca_store_destinations,
    android_ca_store_dirs, android_install_ca, android_uninstall_ca, file_to_remove,
    read_certificate, tries_next_store, walks_on, StoreEntry, StoreOutcome, StoreVisit, StoreWrite,
};

const ROOT: &str = "-----BEGIN CERTIFICATE-----
MIIB5jCCAY2gAwIBAgIUa9joXKzM2zmvbCHTpcF4Bdor6s8wCgYIKoZIzj0EAwIw
SDEdMBsGA1UECgwUTGludXguZG8gQWNjZWxlcmF0b3IxJzAlBgNVBAMMHkxpbnV4
LmRvIEFjY2VsZXJhdG9yIFRlc3QgUm9vdDAgFw0yNjExMTYxMTIxMzlaGA8yMTI2
MTAyMzExMjEzOVowSDEdMBsGA1UECgwUTGludXguZG8gQWNjZWxlcmF0b3IxJzAl
BgNVBAMMHkxpbnV4LmRvIEFjY2VsZXJhdG9yIFRlc3QgUm9vdDBZMBMGByqGSM49
AgEGCCqGSM49AwEHA0IABGyhRAvDn1MM5+Y0U35MTPiydUV3i77FobQxpZZNis1m
BNcEMeXsCkjwyVh5hPJdN4zU9Nv960e7S+NbioyE5GmjUzBRMB0GA1UdDgQWBBRZ
bGwmSNRGSAB+wyFL5IFTmMhIKzAfBgNVHSMEGDAWgBRZbGwmSNRGSAB+wyFL5IFT
mMhIKzAPBgNVHRMBAf8EBTADAQH/MAoGCCqGSM49BAMCA0cAMEQCIEHHoJnfyq5v
BTUBztOZcMC8W3n872WsHg4gO/c4wyBiAiAiIsxvNF9uMCTASun4p2Zay7d8wrnC
I2W9KEviWPVfiw==
-----END CERTIFICATE-----
";

const NAMELESS: &str = "-----BEGIN CERTIFICATE-----
MIIBiTCCAS+gAwIBAgIUahHVo+VkA3UZPbqlciaFKaNTlX4wCgYIKoZIzj0EAwIw
GTEXMBUGA1UECgwOTm8gQ29tbW9uIE5hbWUwIBcNMjYxMTE2MTEyMTM5WhgPMjEy
NjEwMjMxMTIxMzlaMBkxFzAVBgNVBAoMDk5vIENvbW1vbiBOYW1lMFkwEwYHKoZI
zj0CAQYIKoZIzj0DAQcDQgAEbKFEC8OfUwzn5jRTfkxM+LJ1RXeLvsWhtDGllk2K
zWYE1wQx5ewKSPDJWHmE8l03jNT02/3rR7tL41uKjITkaaNTMFEwHQYDVR0OBBYE
FFlsbCZI1EZIAH7DIUvkgVOYyEgrMB8GA1UdIwQYMBaAFFlsbCZI1EZIAH7DIUvk
gVOYyEgrMA8GA1UdEwEB/wQFMAMBAf8wCgYIKoZIzj0EAwIDSAAwRQIhAKaIk5jI
SEpQsOkkutV7zX61TxQFfCPfEQqiLBjg9j8iAiAVMp3S4QzZ9bmTC9so7NactIkd
9sThONkAApFE3FCRSA==
-----END CERTIFICATE-----
";

const BMP_NAME: &str = "-----BEGIN CERTIFICATE-----
MIIBXDCCAQGgAwIBAgIUPGeNwqOOsrYe75Mas5/n1kFlbgcwCgYIKoZIzj0EAwIw
GzEZMBcGA1UEAx4QAEIAbQBwACAATgBhAG0AZTAgFw0yNjExMTYxMTIxMzlaGA8y
MTI2MTAyMzExMjEzOVowGzEZMBcGA1UEAx4QAEIAbQBwACAATgBhAG0AZTBZMBMG
ByqGSM49AgEGCCqGSM49AwEHA0IABGyhRAvDn1MM5+Y0U35MTPiydUV3i77FobQx
pZZNis1mBNcEMeXsCkjwyVh5hPJdN4zU9Nv960e7S+NbioyE5GmjITAfMB0GA1Ud
DgQWBBRZbGwmSNRGSAB+wyFL5IFTmMhIKzAKBggqhkjOPQQDAgNJADBGAiEA7aqf
H6eTqJN8GEZbZ5giOdPTWG9LJOMNy9jbFVN8rPECIQDigPWIrgA/RjCQhQ+AwQmc
iym9+DuADoS8EkXFjBt8BQ==
-----END CERTIFICATE-----
";

const NOT_A_CERTIFICATE: &str = "-----BEGIN CERTIFICATE-----
AAECAwQ=
-----END CERTIFICATE-----
";

fn pem(text: &str) -> Vec<u8> {
    text.as_bytes().to_vec()
}

#[test]
fn subject_hash_is_that_of_openssl() {
    assert_eq!(android_cert_subject_hash_old(&pem(ROOT)).unwrap(), "742c268e");
    assert_eq!(android_cert_subject_hash_old(&pem(NAMELESS)).unwrap(), "1d00ae83");
}

#[test]
fn file_name_is_the_hash_and_a_number() {
    assert_eq!(android_ca_file_name(&pem(ROOT)).unwrap(), "742c268e.0");
}

#[test]
fn subject_hash_reads_the_lowest_byte_first() {
    let mut digest = [0u8; 16];
    digest[0] = 0x8e;
    digest[1] = 0x26;
    digest[2] = 0x2c;
    digest[3] = 0x74;
    digest[4] = 0xff;
    assert_eq!(subject_hash_text(&digest), "742c268e");
    assert_eq!(subject_hash_text(&[0u8; 16]), "00000000");
    assert_eq!(subject_hash_text(&[0xffu8; 16]), "ffffffff");
}

#[test]
fn common_name_is_read_from_the_subject() {
    assert_eq!(
        android_cert_common_name(&pem(ROOT)).unwrap(),
        "Linux.do Accelerator Test Root"
    );
    assert_eq!(
        android_cert_common_name(&pem(NAMELESS)).unwrap_err().message,
        "certificate common name is missing"
    );
    let undecodable = android_cert_common_name(&pem(BMP_NAME)).unwrap_err();
    assert!(undecodable.message.starts_with("failed to decode certificate common name: "));
}

#[test]
fn only_the_first_certificate_counts() {
    let both = format!("{}{}", ROOT, NAMELESS);
    assert_eq!(android_cert_subject_hash_old(&pem(&both)).unwrap(), "742c268e");
}

#[test]
fn files_without_a_certificate_are_refused() {
    assert_eq!(
        android_cert_subject_hash_old(&pem("hello")).unwrap_err().message,
        "certificate PEM is empty"
    );
    let broken = android_cert_common_name(&pem(NOT_A_CERTIFICATE)).unwrap_err();
    assert!(broken.message.starts_with("failed to parse X509 certificate: "));
    let unended = "-----BEGIN CERTIFICATE-----\nAAEC\n";
    let torn = android_cert_subject_hash_old(&pem(unended)).unwrap_err();
    assert_eq!(torn.message, "failed to parse PEM certificate");
    assert_eq!(torn.causes.len(), 1);
}

#[test]
fn results_of_the_parsers_become_failures() {
    assert_eq!(
        format_error_chain(&certificate_der(Some(Err("bad line".to_string()))).unwrap_err()),
        "failed to parse PEM certificate\ncaused by: bad line"
    );
    assert_eq!(certificate_der(Some(Ok(vec![1, 2]))).unwrap(), vec![1, 2]);
    assert_eq!(
        certificate_subject(Err("no tag".to_string())).unwrap_err().message,
        "failed to parse X509 certificate: no tag"
    );
    let subject = CertificateSubject { raw: vec![], common_name: Some(Err("tag 30".to_string())) };
    assert_eq!(
        subject_common_name(subject).unwrap_err().message,
        "failed to decode certificate common name: tag 30"
    );
}

#[test]
fn stores_that_exist_are_used_in_order() {
    assert_eq!(
        android_ca_store_candidates(),
        vec!["/apex/com.android.conscrypt/cacerts", "/system/etc/security/cacerts"]
    );
    assert_eq!(android_ca_store_dirs(false, true), vec!["/system/etc/security/cacerts"]);
    assert_eq!(android_ca_store_dirs(false, false), Vec::<String>::new());
    let dirs = android_ca_store_dirs(true, true);
    assert_eq!(
        android_ca_store_destinations(&dirs, "742c268e.0"),
        vec![
            "/apex/com.android.conscrypt/cacerts/742c268e.0",
            "/system/etc/security/cacerts/742c268e.0"
        ]
    );
}

fn write(path: &str, outcome: StoreOutcome) -> StoreWrite {
    StoreWrite { path: path.to_string(), outcome }
}

#[test]
fn one_store_is_enough_for_android() {
    let writes =
        vec![write("/a", StoreOutcome::NotWritten), write("/b", StoreOutcome::Written(Ok(())))];
    assert_eq!(android_install_ca(writes, "Root").unwrap(), "installed root certificate: Root");
    assert_eq!(
        android_install_ca(vec![write("/a", StoreOutcome::NotWritten)], "Root")
            .unwrap_err()
            .message,
        "failed to install Android CA into any known trust store"
    );
}

#[test]
fn a_file_that_stays_unreadable_is_a_failure() {
    let writes = vec![
        write("/a", StoreOutcome::Written(Ok(()))),
        write("/b", StoreOutcome::Written(Err(Failure::new("denied".to_string())))),
    ];
    assert!(tries_next_store(&writes[0]));
    assert!(!tries_next_store(&writes[1]));
    assert!(tries_next_store(&write("/c", StoreOutcome::NotWritten)));
    assert_eq!(
        format_error_chain(&android_install_ca(writes, "Root").unwrap_err()),
        "failed to chmod /b\ncaused by: denied"
    );
}

#[test]
fn removal_goes_by_the_common_name() {
    let removed = |content: Option<Vec<u8>>, common_name: &str| {
        let entry = StoreEntry::Entry(FilePath::Given(3, "/store/a.0".to_string()), content);
        file_to_remove("/store", entry, common_name).unwrap().map(|path: FilePath<u8>| path.text())
    };
    assert_eq!(
        removed(Some(pem(ROOT)), "Linux.do Accelerator Test Root").as_deref(),
        Some("/store/a.0")
    );
    assert_eq!(removed(Some(pem(ROOT)), "Linux.do Accelerator"), None);
    assert_eq!(removed(Some(pem(NAMELESS)), ""), None);
    assert_eq!(removed(None, "Linux.do Accelerator Test Root"), None);
    let unlisted: StoreEntry<u8> = StoreEntry::Unlisted(Failure::new("e".to_string()));
    assert_eq!(
        file_to_remove("/store", unlisted, "x").unwrap_err().message,
        "failed to read directory /store"
    );
    let unreadable: StoreEntry<u8> = StoreEntry::Unreadable(Failure::new("e".to_string()));
    assert_eq!(
        file_to_remove("/store", unreadable, "x").unwrap_err().message,
        "failed to walk /store"
    );
    assert_eq!(read_certificate("/ca.pem", Ok(vec![1])).unwrap(), vec![1]);
    assert_eq!(
        read_certificate("/ca.pem", Err(Failure::new("e".to_string()))).unwrap_err().message,
        "failed to read /ca.pem"
    );
    let gone = |result| StoreVisit::Removed("/store/a.0".to_string(), result);
    assert_eq!(
        android_uninstall_ca(vec![StoreVisit::Passed, gone(Ok(())), StoreVisit::Passed], "Root")
            .unwrap(),
        None
    );
    assert_eq!(
        android_uninstall_ca(vec![StoreVisit::Passed], "Root").unwrap().unwrap(),
        "root certificate not found in Android trust store: Root"
    );
    let refused = gone(Err(Failure::new("denied".to_string())));
    assert!(!walks_on(&refused));
    assert!(walks_on(&gone(Ok(()))) && walks_on(&StoreVisit::Passed));
    assert_eq!(
        format_error_chain(&android_uninstall_ca(vec![gone(Ok(())), refused], "Root").unwrap_err()),
        "failed to remove /store/a.0\ncaused by: denied"
    );
    let failed = StoreVisit::Failed(Failure::new("first".to_string()));
    assert!(!walks_on(&failed));
    assert_eq!(android_uninstall_ca(vec![failed], "Root").unwrap_err().message, "first");
}
