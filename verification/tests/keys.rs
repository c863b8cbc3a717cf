use rskm::keys::key_types;
use rskm::keys::keys::{KeyGenSettings, KeyTypes};

#[test]
fn test_strict_key_type_names() {
    assert_eq!(key_types::KeyTypes::parse("ed25519").unwrap(), key_types::KeyTypes::Ed25519);
    assert_eq!(key_types::KeyTypes::parse("ecdsa").unwrap(), key_types::KeyTypes::Ecdsa);
    assert_eq!(key_types::KeyTypes::parse("xmss").unwrap(), key_types::KeyTypes::Xmss);
    assert_eq!(key_types::KeyTypes::parse("rsa").unwrap(), key_types::KeyTypes::Rsa);
    assert_eq!("rsa".parse::<key_types::KeyTypes>().unwrap(), key_types::KeyTypes::Rsa);
}

#[test]
fn test_strict_key_type_refuses_other_names() {
    for name in ["RSA", "Ed25519", "dsa", "", " rsa", "rsa "] {
        match key_types::KeyTypes::parse(name) {
            Err(rskm::errors::RskmError::UnknownKeyType(t)) => assert_eq!(t, name),
            _ => panic!("expected UnknownKeyType for {:?}", name),
        }
    }
}

#[test]
fn test_key_type_any_case() {
    assert_eq!(KeyTypes::parse("ed25519").unwrap(), KeyTypes::ED25519);
    assert_eq!(KeyTypes::parse("ECDSA").unwrap(), KeyTypes::ECDSA);
    assert_eq!(KeyTypes::parse("XmSs").unwrap(), KeyTypes::XMSS);
    assert_eq!("Rsa".parse::<KeyTypes>().unwrap(), KeyTypes::RSA);
}

#[test]
fn test_key_type_any_case_refuses_other_names() {
    assert_eq!(KeyTypes::parse("dsa").unwrap_err(), "Unknown key type: dsa");
    assert_eq!(KeyTypes::parse("rsa2").unwrap_err(), "Unknown key type: rsa2");
}

#[test]
fn test_from_uppercase_quotes_name() {
    assert_eq!(KeyTypes::from_uppercase("RSA", "rsa").unwrap(), KeyTypes::RSA);
    assert_eq!(KeyTypes::from_uppercase("rsa", "rsa").unwrap_err(), "Unknown key type: rsa");
    assert_eq!(KeyTypes::from_uppercase("DSA", "dsa").unwrap_err(), "Unknown key type: dsa");
}

#[test]
fn test_ssh_keygen_args() {
    assert_eq!(KeyTypes::ED25519.ssh_keygen_args(), vec!["-t", "ed25519"]);
    assert_eq!(KeyTypes::ECDSA.ssh_keygen_args(), vec!["-t", "ecdsa", "-b", "521"]);
    assert_eq!(KeyTypes::XMSS.ssh_keygen_args(), vec!["-t", "xmss"]);
    assert_eq!(KeyTypes::RSA.ssh_keygen_args(), vec!["-t", "rsa", "-b", "4096"]);
}

#[test]
fn test_keygen_settings_default() {
    let s = KeyGenSettings::with_home_dir("/home/user");
    assert_eq!(s.key_type(), KeyTypes::ED25519);
    assert!(s.no_passphrase());
    assert_eq!(s.output_dir(), "/home/user/.rskm");
}

#[test]
fn test_keygen_args_name_their_key_type() {
    let strict = [
        key_types::KeyTypes::Ed25519,
        key_types::KeyTypes::Ecdsa,
        key_types::KeyTypes::Xmss,
        key_types::KeyTypes::Rsa,
    ];
    for (k, s) in [KeyTypes::ED25519, KeyTypes::ECDSA, KeyTypes::XMSS, KeyTypes::RSA]
        .into_iter()
        .zip(strict)
    {
        let args = k.ssh_keygen_args();
        assert_eq!(args[0], "-t");
        assert!(args.len() == 2 || (args.len() == 4 && args[2] == "-b"));
        assert_eq!(KeyTypes::parse(args[1]).unwrap(), k);
        assert_eq!(key_types::KeyTypes::parse(args[1]).unwrap(), s);
    }
}
