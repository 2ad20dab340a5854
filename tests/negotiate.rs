use ssh_hostkey_probe::algos::get_client_config;
use ssh_hostkey_probe::negotiate::{
    first_common_name, list_contains, negotiate, NegotiationError, ServerProposal,
};

fn owned(v: &[&str]) -> Vec<String> {
    v.iter().map(|s| s.to_string()).collect()
}

fn server(host_keys: &[&str]) -> ServerProposal {
    ServerProposal {
        kex_algos: owned(&["curve25519-sha256", "diffie-hellman-group14-sha256"]),
        server_pubkey_algos: owned(host_keys),
        cipher_algos_cts: owned(&["aes128-ctr", "aes256-gcm@openssh.com"]),
        cipher_algos_stc: owned(&["aes256-gcm@openssh.com"]),
        mac_algos_cts: owned(&["hmac-sha2-256"]),
        mac_algos_stc: owned(&["hmac-sha1", "hmac-sha2-512"]),
        compression_algos_cts: owned(&["none", "zlib@openssh.com"]),
        compression_algos_stc: owned(&["none"]),
    }
}

#[test]
fn ed25519_against_ed25519_server() {
    let a = negotiate(&get_client_config("ed25519"), &server(&["ssh-ed25519"])).unwrap();
    assert_eq!(a.server_pubkey, "ssh-ed25519");
    assert_eq!(a.kex, "curve25519-sha256");
    assert_eq!(a.cipher_cts, "aes256-gcm@openssh.com");
    assert_eq!(a.cipher_stc, "aes256-gcm@openssh.com");
    assert_eq!(a.mac_cts, "hmac-sha2-256");
    assert_eq!(a.mac_stc, "hmac-sha2-512");
    assert_eq!(a.compression_cts, "none");
}

#[test]
fn rsa_sha2_against_ed25519_only_server_fails() {
    let r = negotiate(&get_client_config("rsa_sha2"), &server(&["ssh-ed25519"]));
    assert!(matches!(r, Err(NegotiationError::HostKey)));
}

#[test]
fn rsa_against_server_without_ssh_rsa_fails() {
    let r = negotiate(&get_client_config("rsa"), &server(&["ssh-ed25519", "rsa-sha2-256"]));
    assert!(matches!(r, Err(NegotiationError::HostKey)));
}

#[test]
fn rsa_sha2_prefers_sha256() {
    let a = negotiate(
        &get_client_config("rsa_sha2"),
        &server(&["rsa-sha2-512", "rsa-sha2-256"]),
    )
    .unwrap();
    assert_eq!(a.server_pubkey, "rsa-sha2-256");
}

#[test]
fn ecdsa_against_nistp384_only_server() {
    let a = negotiate(&get_client_config("ecdsa"), &server(&["ecdsa-sha2-nistp384"])).unwrap();
    assert_eq!(a.server_pubkey, "ecdsa-sha2-nistp384");
}

#[test]
fn bogus_tag_fails_against_any_server() {
    let all = [
        "ssh-ed25519",
        "rsa-sha2-256",
        "rsa-sha2-512",
        "ecdsa-sha2-nistp256",
        "ecdsa-sha2-nistp384",
        "ssh-rsa",
    ];
    let r = negotiate(&get_client_config("bogus"), &server(&all));
    assert!(matches!(r, Err(NegotiationError::HostKey)));
}

#[test]
fn each_category_reports_its_failure() {
    let c = get_client_config("ed25519");
    let mut s = server(&["ssh-ed25519"]);
    s.kex_algos = owned(&["sntrup761x25519-sha512@openssh.com"]);
    assert!(matches!(negotiate(&c, &s), Err(NegotiationError::Kex)));

    let mut s = server(&["ssh-ed25519"]);
    s.cipher_algos_stc = owned(&["3des-cbc"]);
    assert!(matches!(negotiate(&c, &s), Err(NegotiationError::Cipher)));

    let mut s = server(&["ssh-ed25519"]);
    s.mac_algos_cts = Vec::new();
    assert!(matches!(negotiate(&c, &s), Err(NegotiationError::Mac)));

    let mut s = server(&["ssh-ed25519"]);
    s.compression_algos_stc = owned(&["zlib"]);
    assert!(matches!(negotiate(&c, &s), Err(NegotiationError::Compression)));
}

#[test]
fn first_common_follows_client_order() {
    let client = owned(&["a", "b", "c"]);
    assert_eq!(first_common_name(&client, &owned(&["c", "b"])), Some("b".to_string()));
    assert_eq!(first_common_name(&client, &owned(&["x"])), None);
    assert_eq!(first_common_name(&Vec::new(), &owned(&["a"])), None);
    assert!(list_contains(&client, &"c".to_string()));
    assert!(!list_contains(&client, &"cc".to_string()));
}
