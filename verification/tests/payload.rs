use ciphercanvas::Encryption;
use ciphercanvas::build_payload;

#[test]
fn test_build_payload_wpa_exact() {
    let payload = build_payload("MyNet", &Encryption::Wpa, "secret");
    assert_eq!(payload, "WIFI:S:MyNet;T:WPA;P:secret;;");
}

#[test]
fn test_build_payload_deterministic() {
    let first = build_payload("MyNet", &Encryption::Wpa, "secret");
    let second = build_payload("MyNet", &Encryption::Wpa, "secret");
    assert_eq!(first, second);
}

#[test]
fn test_build_payload_wep() {
    let payload = build_payload("Attic", &Encryption::Wep, "0123456789");
    assert_eq!(payload, "WIFI:S:Attic;T:WEP;P:0123456789;;");
}

#[test]
fn test_build_payload_nopass() {
    let payload = build_payload("Cafe", &Encryption::Nopass, "");
    assert_eq!(payload, "WIFI:S:Cafe;T:nopass;P:;;");
}

#[test]
fn test_build_payload_verbatim_specials() {
    let payload = build_payload("My;Net", &Encryption::Wpa, "a:b,c");
    assert_eq!(payload, "WIFI:S:My;Net;T:WPA;P:a:b,c;;");
}

#[test]
fn test_encryption_tokens() {
    assert_eq!(Encryption::Wpa.as_token(), "WPA");
    assert_eq!(Encryption::Wep.as_token(), "WEP");
    assert_eq!(Encryption::Nopass.as_token(), "nopass");
}
