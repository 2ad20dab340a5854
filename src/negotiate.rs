//! Algorithm negotiation: for each category, the first identifier of the
//! client's list that the server's list also holds.

use vstd::prelude::*;
use crate::algos::{names, config_for, host_key_prefs, ClientConfig, ConfigModel};

verus! {

/// The first identifier of `client` that `server` also holds.
pub open spec fn first_common(client: Seq<Seq<char>>, server: Seq<Seq<char>>) -> Option<Seq<char>>
    decreases client.len(),
{
    if client.len() == 0 {
        None
    } else if server.contains(client[0]) {
        Some(client[0])
    } else {
        first_common(client.drop_first(), server)
    }
}

/// The lists of the server's key-exchange proposal, one per category and
/// direction (cts: client to server, stc: server to client).
pub struct ServerProposal {
    pub kex_algos: Vec<String>,
    pub server_pubkey_algos: Vec<String>,
    pub cipher_algos_cts: Vec<String>,
    pub cipher_algos_stc: Vec<String>,
    pub mac_algos_cts: Vec<String>,
    pub mac_algos_stc: Vec<String>,
    pub compression_algos_cts: Vec<String>,
    pub compression_algos_stc: Vec<String>,
}

pub struct ProposalModel {
    pub kex: Seq<Seq<char>>,
    pub host_key: Seq<Seq<char>>,
    pub cipher_cts: Seq<Seq<char>>,
    pub cipher_stc: Seq<Seq<char>>,
    pub mac_cts: Seq<Seq<char>>,
    pub mac_stc: Seq<Seq<char>>,
    pub compression_cts: Seq<Seq<char>>,
    pub compression_stc: Seq<Seq<char>>,
}

impl View for ServerProposal {
    type V = ProposalModel;

    open spec fn view(&self) -> ProposalModel {
        ProposalModel {
            kex: names(&self.kex_algos),
            host_key: names(&self.server_pubkey_algos),
            cipher_cts: names(&self.cipher_algos_cts),
            cipher_stc: names(&self.cipher_algos_stc),
            mac_cts: names(&self.mac_algos_cts),
            mac_stc: names(&self.mac_algos_stc),
            compression_cts: names(&self.compression_algos_cts),
            compression_stc: names(&self.compression_algos_stc),
        }
    }
}

/// The algorithms that both sides agreed on.
pub struct Agreed {
    pub kex: String,
    pub server_pubkey: String,
    pub cipher_cts: String,
    pub cipher_stc: String,
    pub mac_cts: String,
    pub mac_stc: String,
    pub compression_cts: String,
    pub compression_stc: String,
}

pub struct AgreedModel {
    pub kex: Seq<char>,
    pub server_pubkey: Seq<char>,
    pub cipher_cts: Seq<char>,
    pub cipher_stc: Seq<char>,
    pub mac_cts: Seq<char>,
    pub mac_stc: Seq<char>,
    pub compression_cts: Seq<char>,
    pub compression_stc: Seq<char>,
}

impl View for Agreed {
    type V = AgreedModel;

    open spec fn view(&self) -> AgreedModel {
        AgreedModel {
            kex: self.kex@,
            server_pubkey: self.server_pubkey@,
            cipher_cts: self.cipher_cts@,
            cipher_stc: self.cipher_stc@,
            mac_cts: self.mac_cts@,
            mac_stc: self.mac_stc@,
            compression_cts: self.compression_cts@,
            compression_stc: self.compression_stc@,
        }
    }
}

/// The category whose lists have no identifier in common.
#[derive(Clone, Copy, Debug, PartialEq, Eq, Structural)]
pub enum NegotiationError {
    Kex,
    HostKey,
    Cipher,
    Mac,
    Compression,
}

/// The outcome of negotiation, categories checked in the order key
/// exchange, host key, cipher, MAC, compression.
pub open spec fn negotiate_spec(c: ConfigModel, s: ProposalModel) -> Result<AgreedModel, NegotiationError> {
    let kex = first_common(c.kex, s.kex);
    let host_key = first_common(c.host_key, s.host_key);
    let cipher_cts = first_common(c.cipher, s.cipher_cts);
    let cipher_stc = first_common(c.cipher, s.cipher_stc);
    let mac_cts = first_common(c.mac, s.mac_cts);
    let mac_stc = first_common(c.mac, s.mac_stc);
    let compression_cts = first_common(c.compression, s.compression_cts);
    let compression_stc = first_common(c.compression, s.compression_stc);
    if kex is None {
        Err(NegotiationError::Kex)
    } else if host_key is None {
        Err(NegotiationError::HostKey)
    } else if cipher_cts is None || cipher_stc is None {
        Err(NegotiationError::Cipher)
    } else if mac_cts is None || mac_stc is None {
        Err(NegotiationError::Mac)
    } else if compression_cts is None || compression_stc is None {
        Err(NegotiationError::Compression)
    } else {
        Ok(
            AgreedModel {
                kex: kex->0,
                server_pubkey: host_key->0,
                cipher_cts: cipher_cts->0,
                cipher_stc: cipher_stc->0,
                mac_cts: mac_cts->0,
                mac_stc: mac_stc->0,
                compression_cts: compression_cts->0,
                compression_stc: compression_stc->0,
            },
        )
    }
}

/// Whether `list` holds the identifier `name`.
pub fn list_contains(list: &Vec<String>, name: &String) -> (r: bool)
    ensures
        r == names(list).contains(name@),
{
    let mut i: usize = 0;
    while i < list.len()
        invariant
            i <= list@.len(),
            forall|j: int| 0 <= j < i ==> names(list)[j] != name@,
        decreases list@.len() - i,
    {
        if list[i] == *name {
            assert(names(list)[i as int] == name@);
            return true;
        }
        i = i + 1;
    }
    false
}

/// The first identifier of `client` that `server` also holds.
pub fn first_common_name(client: &Vec<String>, server: &Vec<String>) -> (r: Option<String>)
    ensures
        match r {
            Some(x) => first_common(names(client), names(server)) == Some(x@),
            None => first_common(names(client), names(server)) is None,
        },
{
    let ghost s = names(server);
    assert(names(client).skip(0) =~= names(client));
    let mut i: usize = 0;
    while i < client.len()
        invariant
            i <= client@.len(),
            s == names(server),
            first_common(names(client), s) == first_common(names(client).skip(i as int), s),
        decreases client@.len() - i,
    {
        let ghost rest = names(client).skip(i as int);
        assert(rest[0] == client@[i as int]@);
        if list_contains(server, &client[i]) {
            return Some(client[i].clone());
        }
        assert(rest.drop_first() =~= names(client).skip(i + 1));
        i = i + 1;
    }
    assert(names(client).skip(i as int).len() == 0);
    None
}

/// Negotiates every category of `config` against the server's proposal.
pub fn negotiate(config: &ClientConfig, server: &ServerProposal) -> (r: Result<Agreed, NegotiationError>)
    ensures
        match r {
            Ok(a) => negotiate_spec(config@, server@) == Ok::<AgreedModel, NegotiationError>(a@),
            Err(e) => negotiate_spec(config@, server@) == Err::<AgreedModel, NegotiationError>(e),
        },
{
    let kex = match first_common_name(&config.kex_algos, &server.kex_algos) {
        Some(x) => x,
        None => return Err(NegotiationError::Kex),
    };
    let server_pubkey = match first_common_name(&config.server_pubkey_algos, &server.server_pubkey_algos) {
        Some(x) => x,
        None => return Err(NegotiationError::HostKey),
    };
    let cipher_cts = match first_common_name(&config.cipher_algos, &server.cipher_algos_cts) {
        Some(x) => x,
        None => return Err(NegotiationError::Cipher),
    };
    let cipher_stc = match first_common_name(&config.cipher_algos, &server.cipher_algos_stc) {
        Some(x) => x,
        None => return Err(NegotiationError::Cipher),
    };
    let mac_cts = match first_common_name(&config.mac_algos, &server.mac_algos_cts) {
        Some(x) => x,
        None => return Err(NegotiationError::Mac),
    };
    let mac_stc = match first_common_name(&config.mac_algos, &server.mac_algos_stc) {
        Some(x) => x,
        None => return Err(NegotiationError::Mac),
    };
    let compression_cts = match first_common_name(&config.compression_algos, &server.compression_algos_cts) {
        Some(x) => x,
        None => return Err(NegotiationError::Compression),
    };
    let compression_stc = match first_common_name(&config.compression_algos, &server.compression_algos_stc) {
        Some(x) => x,
        None => return Err(NegotiationError::Compression),
    };
    Ok(
        Agreed {
            kex,
            server_pubkey,
            cipher_cts,
            cipher_stc,
            mac_cts,
            mac_stc,
            compression_cts,
            compression_stc,
        },
    )
}

/// `first_common` finds nothing exactly when no identifier of `client` is
/// held by `server`.
pub proof fn lemma_first_common_none(client: Seq<Seq<char>>, server: Seq<Seq<char>>)
    ensures
        first_common(client, server) is None <==> forall|i: int|
            0 <= i < client.len() ==> !server.contains(#[trigger] client[i]),
    decreases client.len(),
{
    if client.len() > 0 {
        lemma_first_common_none(client.drop_first(), server);
        assert forall|i: int| 1 <= i < client.len() implies client[i] == #[trigger] client.drop_first()[i - 1] by {}
        if !server.contains(client[0]) && first_common(client, server) is None {
            assert forall|i: int| 0 <= i < client.len() implies !server.contains(#[trigger] client[i]) by {
                if i > 0 {
                    assert(client[i] == client.drop_first()[i - 1]);
                }
            }
        }
    }
}

/// What `first_common` finds is held by both lists.
pub proof fn lemma_first_common_in_both(client: Seq<Seq<char>>, server: Seq<Seq<char>>)
    ensures
        first_common(client, server) matches Some(x) ==> client.contains(x) && server.contains(x),
    decreases client.len(),
{
    if client.len() > 0 && !server.contains(client[0]) {
        lemma_first_common_in_both(client.drop_first(), server);
        if let Some(x) = first_common(client, server) {
            let j = choose|j: int| 0 <= j < client.drop_first().len() && client.drop_first()[j] == x;
            assert(client[j + 1] == x);
        }
    }
}

/// A negotiated host-key algorithm is one that the client asked for and the
/// server offered.
pub proof fn agreed_host_key_is_offered_by_both(c: ConfigModel, s: ProposalModel)
    ensures
        negotiate_spec(c, s) matches Ok(a) ==> c.host_key.contains(a.server_pubkey) && s.host_key.contains(a.server_pubkey),
{
    lemma_first_common_in_both(c.host_key, s.host_key);
}

/// Where the server offers no identifier of the host-key list selected by
/// `tag`, negotiation fails.
pub proof fn no_shared_host_key_fails(tag: Seq<char>, s: ProposalModel)
    requires
        forall|i: int| 0 <= i < host_key_prefs(tag).len() ==> !s.host_key.contains(#[trigger] host_key_prefs(tag)[i]),
    ensures
        negotiate_spec(config_for(tag), s) is Err,
{
    lemma_first_common_none(host_key_prefs(tag), s.host_key);
}

/// A tag other than `ed25519`, `rsa_sha2`, `ecdsa` and `rsa` selects no
/// host-key algorithm, and negotiation then fails whatever the server offers.
pub proof fn unknown_tag_fails(tag: Seq<char>, s: ProposalModel)
    requires
        tag != "ed25519"@,
        tag != "rsa_sha2"@,
        tag != "ecdsa"@,
        tag != "rsa"@,
    ensures
        host_key_prefs(tag).len() == 0,
        negotiate_spec(config_for(tag), s) is Err,
{
    no_shared_host_key_fails(tag, s);
}

} // verus!
