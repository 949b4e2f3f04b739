use vstd::prelude::*;

verus! {

/// The encryption mode of a WiFi network, as it appears in the `T:` field of
/// a WIFI-URI join string.
#[derive(Clone, Copy, Debug, PartialEq, Eq, Structural)]
pub enum Encryption {
    Wpa,
    Wep,
    Nopass,
}

/// The fixed token that each encryption mode contributes to the payload.
pub open spec fn enc_token(e: Encryption) -> Seq<char> {
    match e {
        Encryption::Wpa => "WPA"@,
        Encryption::Wep => "WEP"@,
        Encryption::Nopass => "nopass"@,
    }
}

impl Encryption {
    /// The literal token for this mode: `WPA`, `WEP` or `nopass`.
    pub fn as_token(&self) -> (r: &'static str)
        ensures
            r@ == enc_token(*self),
    {
        match self {
            Encryption::Wpa => "WPA",
            Encryption::Wep => "WEP",
            Encryption::Nopass => "nopass",
        }
    }
}

/// The WIFI-URI join string for the given credentials:
/// `WIFI:S:<ssid>;T:<token>;P:<password>;;`.
///
/// SSID and password are inserted verbatim: the WIFI-URI convention as used
/// here performs no escaping, so `;`, `:`, `,` or `\` inside either field
/// pass through unchanged and can corrupt the payload. This is a known
/// limitation of the format, kept rather than silently repaired.
pub open spec fn spec_payload(ssid: Seq<char>, e: Encryption, password: Seq<char>) -> Seq<char> {
    "WIFI:S:"@ + ssid + ";T:"@ + enc_token(e) + ";P:"@ + password + ";;"@
}

/// Builds the WIFI-URI payload from the credentials.
///
/// Pure and deterministic: the result is exactly `spec_payload` of the
/// inputs, character for character.
pub fn build_payload(ssid: &str, encryption: &Encryption, password: &str) -> (r: String)
    ensures
        r@ == spec_payload(ssid@, *encryption, password@),
{
    let mut s: String = "WIFI:S:".to_owned();
    s.append(ssid);
    s.append(";T:");
    s.append(encryption.as_token());
    s.append(";P:");
    s.append(password);
    s.append(";;");
    s
}

} // verus!
