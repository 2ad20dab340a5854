//! Algorithm identifiers and the client configuration built from a host-key
//! family tag.

use vstd::prelude::*;

verus! {

/// The identifiers of one algorithm category, in preference order.
pub open spec fn names(v: &Vec<String>) -> Seq<Seq<char>> {
    v@.map_values(|s: String| s@)
}

/// Key-exchange preference list.
pub open spec fn kex_prefs() -> Seq<Seq<char>> {
    seq![
        "curve25519-sha256"@,
        "curve25519-sha256@libssh.org"@,
        "diffie-hellman-group14-sha256"@,
        "diffie-hellman-group16-sha512"@,
        "diffie-hellman-group18-sha512"@,
        "diffie-hellman-group14-sha1"@,
    ]
}

/// Host-key preference list selected by a family tag; an unknown tag selects
/// nothing, which makes negotiation fail.
pub open spec fn host_key_prefs(tag: Seq<char>) -> Seq<Seq<char>> {
    if tag == "ed25519"@ {
        seq!["ssh-ed25519"@]
    } else if tag == "rsa_sha2"@ {
        seq!["rsa-sha2-256"@, "rsa-sha2-512"@]
    } else if tag == "ecdsa"@ {
        seq!["ecdsa-sha2-nistp256"@, "ecdsa-sha2-nistp384"@]
    } else if tag == "rsa"@ {
        seq!["ssh-rsa"@]
    } else {
        Seq::empty()
    }
}

/// Cipher preference list, used for both directions.
pub open spec fn cipher_prefs() -> Seq<Seq<char>> {
    seq![
        "chacha20-poly1305@openssh.com"@,
        "aes128-gcm@openssh.com"@,
        "aes256-gcm@openssh.com"@,
        "aes128-ctr"@,
        "aes192-ctr"@,
        "aes256-ctr"@,
        "aes128-cbc"@,
        "aes192-cbc"@,
        "aes256-cbc"@,
    ]
}

/// MAC preference list, used for both directions.
pub open spec fn mac_prefs() -> Seq<Seq<char>> {
    seq![
        "hmac-sha2-256-etm@openssh.com"@,
        "hmac-sha2-512-etm@openssh.com"@,
        "hmac-sha2-256"@,
        "hmac-sha2-512"@,
        "hmac-sha1-etm@openssh.com"@,
        "hmac-sha1"@,
    ]
}

/// Compression preference list.
pub open spec fn compression_prefs() -> Seq<Seq<char>> {
    seq!["none"@]
}

/// The client's algorithm preferences, one list per category.
pub struct ClientConfig {
    pub kex_algos: Vec<String>,
    pub server_pubkey_algos: Vec<String>,
    pub cipher_algos: Vec<String>,
    pub mac_algos: Vec<String>,
    pub compression_algos: Vec<String>,
}

/// The configuration's lists as sequences of identifiers.
pub struct ConfigModel {
    pub kex: Seq<Seq<char>>,
    pub host_key: Seq<Seq<char>>,
    pub cipher: Seq<Seq<char>>,
    pub mac: Seq<Seq<char>>,
    pub compression: Seq<Seq<char>>,
}

impl View for ClientConfig {
    type V = ConfigModel;

    open spec fn view(&self) -> ConfigModel {
        ConfigModel {
            kex: names(&self.kex_algos),
            host_key: names(&self.server_pubkey_algos),
            cipher: names(&self.cipher_algos),
            mac: names(&self.mac_algos),
            compression: names(&self.compression_algos),
        }
    }
}

/// The configuration that a probe for the family `tag` uses.
pub open spec fn config_for(tag: Seq<char>) -> ConfigModel {
    ConfigModel {
        kex: kex_prefs(),
        host_key: host_key_prefs(tag),
        cipher: cipher_prefs(),
        mac: mac_prefs(),
        compression: compression_prefs(),
    }
}

/// Whether two strings hold the same characters.
pub fn str_equal(a: &str, b: &str) -> (r: bool)
    ensures
        r == (a@ == b@),
{
    let n = a.unicode_len();
    if n != b.unicode_len() {
        return false;
    }
    let mut i: usize = 0;
    while i < n
        invariant
            n == a@.len(),
            n == b@.len(),
            i <= n,
            a@.subrange(0, i as int) == b@.subrange(0, i as int),
        decreases n - i,
    {
        if a.get_char(i) != b.get_char(i) {
            assert(a@[i as int] != b@[i as int]);
            return false;
        }
        assert(a@.subrange(0, i + 1) == a@.subrange(0, i as int).push(a@[i as int]));
        assert(b@.subrange(0, i + 1) == b@.subrange(0, i as int).push(b@[i as int]));
        i = i + 1;
    }
    assert(a@ == a@.subrange(0, n as int));
    assert(b@ == b@.subrange(0, n as int));
    true
}

/// A list of owned identifiers holding the given literals, in order.
fn owned_names(list: &[&str]) -> (r: Vec<String>)
    ensures
        r@.len() == list@.len(),
        forall|i: int| 0 <= i < list@.len() ==> #[trigger] r@[i]@ == list@[i]@,
{
    let mut r: Vec<String> = Vec::new();
    let mut i: usize = 0;
    while i < list.len()
        invariant
            i <= list@.len(),
            r@.len() == i,
            forall|j: int| 0 <= j < i ==> #[trigger] r@[j]@ == list@[j]@,
        decreases list@.len() - i,
    {
        r.push(list[i].to_owned());
        i = i + 1;
    }
    r
}

/// Host-key preference list for the family tag `key_type`.
pub fn host_key_algos(key_type: &str) -> (r: Vec<String>)
    ensures
        names(&r) == host_key_prefs(key_type@),
{
    let r = if str_equal(key_type, "ed25519") {
        owned_names(&["ssh-ed25519"])
    } else if str_equal(key_type, "rsa_sha2") {
        owned_names(&["rsa-sha2-256", "rsa-sha2-512"])
    } else if str_equal(key_type, "ecdsa") {
        owned_names(&["ecdsa-sha2-nistp256", "ecdsa-sha2-nistp384"])
    } else if str_equal(key_type, "rsa") {
        owned_names(&["ssh-rsa"])
    } else {
        Vec::new()
    };
    assert(names(&r) =~= host_key_prefs(key_type@));
    r
}

/// The configuration for a probe that asks the server for a host key of
/// the family `key_type` (`ed25519`, `rsa_sha2`, `ecdsa` or `rsa`).
pub fn get_client_config(key_type: &str) -> (c: ClientConfig)
    ensures
        c@ == config_for(key_type@),
{
    let kex_algos = owned_names(
        &[
            "curve25519-sha256",
            "curve25519-sha256@libssh.org",
            "diffie-hellman-group14-sha256",
            "diffie-hellman-group16-sha512",
            "diffie-hellman-group18-sha512",
            "diffie-hellman-group14-sha1",
        ],
    );
    let server_pubkey_algos = host_key_algos(key_type);
    let cipher_algos = owned_names(
        &[
            "chacha20-poly1305@openssh.com",
            "aes128-gcm@openssh.com",
            "aes256-gcm@openssh.com",
            "aes128-ctr",
            "aes192-ctr",
            "aes256-ctr",
            "aes128-cbc",
            "aes192-cbc",
            "aes256-cbc",
        ],
    );
    let mac_algos = owned_names(
        &[
            "hmac-sha2-256-etm@openssh.com",
            "hmac-sha2-512-etm@openssh.com",
            "hmac-sha2-256",
            "hmac-sha2-512",
            "hmac-sha1-etm@openssh.com",
            "hmac-sha1",
        ],
    );
    let compression_algos = owned_names(&["none"]);
    let c = ClientConfig {
        kex_algos,
        server_pubkey_algos,
        cipher_algos,
        mac_algos,
        compression_algos,
    };
    assert(names(&c.kex_algos) =~= kex_prefs());
    assert(names(&c.cipher_algos) =~= cipher_prefs());
    assert(names(&c.mac_algos) =~= mac_prefs());
    assert(names(&c.compression_algos) =~= compression_prefs());
    c
}

} // verus!
