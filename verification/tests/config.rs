//! The shared parameters, the errors and the version text.

use bench::version::version_str;
use bench::{
    openssl_version_str, CipherSuite, CryptoConfig, ECGroup, Error, HandshakeType, SigType,
};

#[test]
fn defaults_of_the_parameters() {
    assert_eq!(HandshakeType::default(), HandshakeType::ServerAuth);
    assert_eq!(CipherSuite::default(), CipherSuite::AES_128_GCM_SHA256);
    assert_eq!(ECGroup::default(), ECGroup::X25519);
    assert_eq!(SigType::default(), SigType::Ec384);
    let config = CryptoConfig::default();
    assert_eq!(config.cipher_suite, CipherSuite::AES_128_GCM_SHA256);
    assert_eq!(config.ec_group, ECGroup::X25519);
    assert_eq!(config.sig_type, SigType::Ec384);
}

#[test]
fn crypto_config_holds_what_it_was_made_of() {
    let config =
        CryptoConfig::new(CipherSuite::AES_256_GCM_SHA384, ECGroup::SECP256R1, SigType::Rsa4096);
    assert_eq!(config.cipher_suite, CipherSuite::AES_256_GCM_SHA384);
    assert_eq!(config.ec_group, ECGroup::SECP256R1);
    assert_eq!(config.sig_type, SigType::Rsa4096);
    assert_eq!(
        CryptoConfig::new(CipherSuite::default(), ECGroup::default(), SigType::default()),
        CryptoConfig::default()
    );
    assert_ne!(config, CryptoConfig::default());
}

#[test]
fn text_of_each_error() {
    assert_eq!(
        Error::UnsupportedParameterCombination.to_string(),
        "unsupported parameter combination"
    );
    assert_eq!(Error::HandshakeFailed.to_string(), "handshake failed");
    assert_eq!(Error::TransportExhausted.to_string(), "transport exhausted");
    assert_eq!(Error::UnknownCipherSuite.to_string(), "unknown cipher suite");
    assert_eq!(Error::EngineFailed.to_string(), "engine failed");
}

#[test]
fn version_text_of_known_releases() {
    assert_eq!(version_str(0x1010106f), "openssl1.1.1f");
    assert_eq!(version_str(0x1000201f), "openssl1.0.2a");
    assert_eq!(version_str(0x0090605f), "openssl0.9.6e");
    assert_eq!(version_str(0x101011af), "openssl1.1.1z");
}

#[test]
fn version_text_writes_every_field_in_decimal() {
    assert_eq!(version_str(0xff_ff_ff_01_f), "openssl255.255.255a");
    assert_eq!(version_str(0xf_ff_ff_01_f), "openssl15.255.255a");
    assert_eq!(version_str(0x1_0a_64_02_0), "openssl1.10.100b");
    // everything above the major version is left out
    assert_eq!(version_str(0xabcd_1_02_03_04_f), "openssl209.2.3d");
}

#[test]
fn version_text_counts_the_patch_letter_within_a_byte() {
    assert_eq!(version_str(0x3_00_00_00_0), "openssl3.0.0`");
    assert_eq!(version_str(0x3_00_00_1b_0), "openssl3.0.0{");
    assert_eq!(version_str(0x3_00_00_9f_0), format!("openssl3.0.0{}", 0xffu8 as char));
    assert_eq!(version_str(0x3_00_00_a0_0), "openssl3.0.0\0");
    assert_eq!(version_str(0x3_00_00_ff_0), "openssl3.0.0_");
}

#[test]
fn version_text_of_the_linked_library() {
    let text = openssl_version_str();
    assert_eq!(text, version_str(openssl::version::number() as u64));
    let rest = text.strip_prefix("openssl").unwrap();
    assert_eq!(rest.split('.').count(), 3);
    assert!(rest.chars().next().unwrap().is_ascii_digit());
}
