use libcoap::crypto::{
    CoapClientCryptoIdentity, CoapClientCryptoProvider, CoapServerCryptoHint,
    CoapServerCryptoProvider,
};

struct FixedClient;

impl CoapClientCryptoProvider for FixedClient {
    fn provide_info_for_hint(&mut self, hint: Option<&Vec<u8>>) -> Option<CoapClientCryptoIdentity> {
        let _ = hint;
        Some(CoapClientCryptoIdentity {
            identity: b"user".to_vec(),
            key: b"SECRET-REDACTED".to_vec(),
        })
    }
}

struct SingleKeyServer;

impl CoapServerCryptoProvider for SingleKeyServer {
    fn provide_key_for_identity(&mut self, identity: &Vec<u8>) -> Option<Vec<u8>> {
        if identity.as_slice() == b"user" {
            Some(b"SECRET-REDACTED".to_vec())
        } else {
            None
        }
    }

    fn provide_hint_for_sni(&mut self, sni: Option<&String>) -> Option<CoapServerCryptoHint> {
        match sni {
            Some(name) if name == "example.org" => Some(CoapServerCryptoHint {
                hint: b"user".to_vec(),
                key: b"SECRET-REDACTED".to_vec(),
            }),
            _ => None,
        }
    }
}

#[test]
fn client_provider_supplies_identity_and_key() {
    let mut p = FixedClient;
    let info = p.provide_info_for_hint(None).unwrap();
    assert_eq!(info.identity, b"user".to_vec());
    assert!(!info.key.is_empty());
}

#[test]
fn server_provider_looks_up_keys_by_identity() {
    let mut p = SingleKeyServer;
    assert!(p.provide_key_for_identity(&b"user".to_vec()).is_some());
    assert_eq!(p.provide_key_for_identity(&b"other".to_vec()), None);
}

#[test]
fn server_provider_selects_hints_by_name() {
    let mut p = SingleKeyServer;
    let name = String::from("example.org");
    let hint = p.provide_hint_for_sni(Some(&name)).unwrap();
    assert_eq!(hint.hint, b"user".to_vec());
    assert_eq!(p.provide_hint_for_sni(None), None);
}
