//! The identity of a broker: a persistent Ed25519 key, a signed handshake, and
//! one pin per socket on the client's side.
//!
//! A client remembers the public key of the broker behind a socket. On every
//! connection the broker proves that it holds the private key before the
//! client writes a credential byte, and anything that differs fails closed.

use ed25519_dalek::Signer;
use ed25519_dalek::Verifier;
use vstd::prelude::*;

use crate::crypto::{self, SecretKey};
use crate::error::{Fault, IoFailure, VaultError};
use crate::json::{self, Json, JsonV};
use crate::paths;
use crate::text::{self, joined, same};

pub mod handshake;
pub mod laws;

verus! {

/// Length of the nonces of a handshake.
pub const NONCE_LEN: usize = 32;

/// The operation that opens a handshake.
pub const HELLO_OP: &'static str = "broker.hello";

/// Separates a handshake's signature from those of any other protocol.
pub const DOMAIN: &'static str = "svault/broker-hello/v1";

// --------------------------------------------------------- outside functions
/// The Ed25519 public key of a private key.
pub uninterp spec fn ed25519_public(private: Seq<u8>) -> [u8; 32];

/// `ed25519_dalek::SigningKey::verifying_key`: the public key, a function of
/// the private key. It is a well-formed key.
#[verifier::external_body]
fn ed25519_public_key(private: &[u8; 32]) -> (r: [u8; 32])
    ensures
        r@ == ed25519_public(private@)@,
        ed25519_well_formed(r@),
{
    ed25519_dalek::SigningKey::from_bytes(private).verifying_key().to_bytes()
}

/// The Ed25519 signature of a message.
pub uninterp spec fn ed25519_signature(private: Seq<u8>, message: Seq<u8>) -> [u8; 64];

/// `ed25519_dalek::Signer::sign` on a `SigningKey`: the signature, a function
/// of the private key and the message. It verifies under the public key.
#[verifier::external_body]
fn ed25519_sign(private: &[u8; 32], message: &[u8]) -> (r: [u8; 64])
    ensures
        r@ == ed25519_signature(private@, message@)@,
        ed25519_verifies(ed25519_public(private@)@, message@, r@),
{
    ed25519_dalek::SigningKey::from_bytes(private).sign(message).to_bytes()
}

/// Whether 32 bytes are an Ed25519 public key.
pub uninterp spec fn ed25519_well_formed(public: Seq<u8>) -> bool;

/// `ed25519_dalek::VerifyingKey::from_bytes`: whether it takes the bytes, a
/// function of them.
#[verifier::external_body]
fn ed25519_key_ok(public: &[u8; 32]) -> (r: bool)
    ensures
        r == ed25519_well_formed(public@),
{
    ed25519_dalek::VerifyingKey::from_bytes(public).is_ok()
}

/// Whether a signature of a message verifies under a public key.
pub uninterp spec fn ed25519_verifies(
    public: Seq<u8>,
    message: Seq<u8>,
    signature: Seq<u8>,
) -> bool;

/// `ed25519_dalek::Verifier::verify` on a `VerifyingKey`: whether it takes the
/// signature, a function of the key, the message and the signature.
#[verifier::external_body]
fn ed25519_verify(public: &[u8; 32], message: &[u8], signature: &[u8; 64]) -> (r: bool)
    requires
        ed25519_well_formed(public@),
    ensures
        r == ed25519_verifies(public@, message@, signature@),
{
    ed25519_dalek::VerifyingKey::from_bytes(public).expect("a well-formed key").verify(
        message,
        &ed25519_dalek::Signature::from_bytes(signature),
    ).is_ok()
}

/// The text of some bytes, where what is not UTF-8 is replaced.
pub uninterp spec fn lossy_text(bytes: Seq<u8>) -> Seq<char>;

/// `String::from_utf8_lossy` of std: a function of the bytes. Valid UTF-8 is
/// not changed.
#[verifier::external_body]
fn lossy(bytes: &[u8]) -> (r: String)
    ensures
        r@ == lossy_text(bytes@),
        vstd::utf8::valid_utf8(bytes@) ==> r@ == vstd::utf8::decode_utf8(bytes@),
{
    String::from_utf8_lossy(bytes).into_owned()
}

// ---------------------------------------------------------------- locations
/// A path with a further relative part.
pub open spec fn under(base: Seq<char>, tail: Seq<char>) -> Seq<char> {
    if base.len() == 0 {
        tail
    } else if base.last() == '/' {
        base + tail
    } else {
        base + "/"@ + tail
    }
}

fn join_path(base: &str, tail: &str) -> (r: String)
    ensures
        r@ == under(base@, tail@),
{
    let chars = text::chars_of(base);
    let mut out = base.to_string();
    if chars.len() > 0 && chars[chars.len() - 1] != '/' {
        out.push_str("/");
    }
    out.push_str(tail);
    proof {
        assert(out@ =~= under(base@, tail@));
    }
    out
}

fn missing_variable(what: &str) -> (e: VaultError)
    ensures
        e@ == (Fault::Io { os_code: None, text: what@ }),
{
    VaultError::Io(IoFailure { os_code: None, text: what.to_string() })
}

/// The default socket: `svault/svault.sock` in the runtime directory, which is
/// the value of `XDG_RUNTIME_DIR`.
pub fn default_socket_path(runtime_dir: Option<&str>) -> (r: Result<String, VaultError>)
    ensures
        match runtime_dir {
            Some(d) => r matches Ok(p) && p@ == under(under(d@, "svault"@), "svault.sock"@),
            None => r matches Err(e) && e@ == (Fault::Io {
                os_code: None,
                text: "XDG_RUNTIME_DIR not set"@,
            }),
        },
{
    match runtime_dir {
        Some(d) => Ok(join_path(&join_path(d, "svault"), "svault.sock")),
        None => Err(missing_variable("XDG_RUNTIME_DIR not set")),
    }
}

/// The directory of the pins: below `XDG_DATA_HOME` unless that is unset or
/// empty, and below `HOME` otherwise.
pub open spec fn pin_directory(data_home: Option<Seq<char>>, home: Option<Seq<char>>) -> Option<
    Seq<char>,
> {
    let base = match data_home {
        Some(d) => if d.len() > 0 {
            Some(d)
        } else {
            home_share(home)
        },
        None => home_share(home),
    };
    match base {
        Some(b) => Some(under(under(b, "svault"@), "pins"@)),
        None => None,
    }
}

pub open spec fn home_share(home: Option<Seq<char>>) -> Option<Seq<char>> {
    match home {
        Some(h) => Some(under(h, ".local/share"@)),
        None => None,
    }
}

/// The directory of the pins, from the values of `XDG_DATA_HOME` and `HOME`.
pub fn pin_dir(data_home: Option<&str>, home: Option<&str>) -> (r: Result<String, VaultError>)
    ensures
        match pin_directory(json::opt_str(data_home), json::opt_str(home)) {
            Some(p) => r matches Ok(s) && s@ == p,
            None => r matches Err(e) && e@ == (Fault::Io { os_code: None, text: "HOME not set"@ }),
        },
{
    let base = match data_home {
        Some(d) => if d.is_empty() {
            None
        } else {
            Some(d.to_string())
        },
        None => None,
    };
    let base = match base {
        Some(b) => b,
        None => match home {
            Some(h) => join_path(h, ".local/share"),
            None => {
                return Err(missing_variable("HOME not set"));
            },
        },
    };
    Ok(join_path(&join_path(&base, "svault"), "pins"))
}

/// The name of the identity file of a vault.
pub open spec fn identity_name(vault: Seq<u8>) -> Seq<u8> {
    text::utf8(
        (match paths::file_name_of(vault) {
            Some(n) => lossy_text(n),
            None => "vault.enc"@,
        }) + ".broker-id"@,
    )
}

/// The identity file of a vault: a sibling of the vault file.
pub fn identity_path(vault_path: &[u8]) -> (r: Vec<u8>)
    ensures
        r@ == paths::with_name(vault_path@, identity_name(vault_path@)),
{
    let base = match paths::file_name(vault_path) {
        Some(n) => lossy(n.as_slice()),
        None => "vault.enc".to_string(),
    };
    let name = joined(&base, ".broker-id");
    paths::with_file_name(vault_path, name.as_str().as_bytes())
}

/// The form of a socket's path that the pin, the signature and the comparison
/// of pins share. It is lexical, so the socket need not exist.
pub fn canonical_socket_path(socket: &[u8], cwd: &[u8]) -> (r: Vec<u8>)
    ensures
        r@ == paths::canonical(socket@, cwd@),
{
    paths::canonical_path(socket, cwd)
}

/// The name of the pin file of a socket.
pub fn pin_file_name(socket: &[u8], cwd: &[u8]) -> (r: String)
    ensures
        r@ == crypto::hex_text(crypto::sha256_digest(paths::canonical(socket@, cwd@))) + ".pin"@,
{
    let canon = paths::canonical_path(socket, cwd);
    let digest = crypto::sha256(canon.as_slice());
    joined(&crypto::hex(digest.as_slice()), ".pin")
}

// -------------------------------------------------------------- fingerprints
/// The fingerprint of a public key: its lowercase hexadecimal notation.
pub fn fingerprint(public_key: &[u8; 32]) -> (r: String)
    ensures
        r@ == crypto::hex_text(public_key@),
{
    crypto::hex(public_key.as_slice())
}

/// Whether a byte is a lowercase hexadecimal digit.
pub open spec fn is_lower_hex(b: u8) -> bool {
    48 <= b <= 57 || 97 <= b <= 102
}

/// Whether some bytes are a fingerprint: 64 lowercase hexadecimal digits.
pub open spec fn is_fingerprint(b: Seq<u8>) -> bool {
    b.len() == 64 && forall|i: int| 0 <= i < b.len() ==> is_lower_hex(#[trigger] b[i])
}

/// Reads a fingerprint: exactly 64 lowercase hexadecimal digits.
pub fn parse_fingerprint(s: &str) -> (r: Result<[u8; 32], VaultError>)
    ensures
        match r {
            Ok(k) => is_fingerprint(text::utf8(s@)) && k@ == crypto::unhex_bytes(text::utf8(s@)),
            Err(e) => !is_fingerprint(text::utf8(s@)) && e@ == Fault::InvalidInput(
                "fingerprint must be 64 hex characters"@,
            ),
        },
{
    let b = s.as_bytes();
    if b.len() != 64 {
        return Err(VaultError::InvalidInput("fingerprint must be 64 hex characters"));
    }
    let mut i: usize = 0;
    while i < 64
        invariant
            b@ == text::utf8(s@),
            b@.len() == 64,
            i <= 64,
            forall|k: int| 0 <= k < i ==> is_lower_hex(#[trigger] b@[k]),
        decreases 64 - i,
    {
        let c: u8 = b[i];
        if !((48 <= c && c <= 57) || (97 <= c && c <= 102)) {
            assert(!is_lower_hex(b@[i as int]));
            return Err(VaultError::InvalidInput("fingerprint must be 64 hex characters"));
        }
        i = i + 1;
    }
    proof {
        assert forall|k: int| 0 <= k < b@.len() implies crypto::digit_value(
            #[trigger] b@[k] as int,
        ) is Some by {
            assert(is_lower_hex(b@[k]));
        }
    }
    match crypto::unhex(s) {
        Some(v) => match crate::envelope::key_of(v.as_slice()) {
            Some(k) => Ok(k),
            None => Err(VaultError::InvalidInput("fingerprint must be 64 hex characters")),
        },
        None => Err(VaultError::InvalidInput("fingerprint must be 64 hex characters")),
    }
}

/// Reading the fingerprint of a key gives the key.
pub proof fn law_fingerprint_reads_back(key: Seq<u8>)
    requires
        key.len() == 32,
    ensures
        is_fingerprint(text::utf8(crypto::hex_text(key))),
        crypto::unhex_bytes(text::utf8(crypto::hex_text(key))) == key,
{
    crypto::law_unhex_undoes_hex(key);
    crypto::lemma_hex_lower(key);
}

// ------------------------------------------------------------------ handshake
/// What a broker signs: the domain, both nonces and the socket's path.
pub open spec fn hello_message(
    client_nonce: Seq<u8>,
    server_nonce: Seq<u8>,
    socket: Seq<u8>,
    cwd: Seq<u8>,
) -> Seq<u8> {
    text::utf8(DOMAIN@) + client_nonce + server_nonce + paths::canonical(socket, cwd)
}

/// The bytes that a broker signs. The client's nonce makes a recorded
/// handshake useless, and the path keeps a reply for one socket from being
/// used on another.
pub fn signed_message(
    client_nonce: &[u8; NONCE_LEN],
    server_nonce: &[u8; NONCE_LEN],
    socket_path: &[u8],
    cwd: &[u8],
) -> (r: Vec<u8>)
    ensures
        r@ == hello_message(client_nonce@, server_nonce@, socket_path@, cwd@),
{
    let canon = paths::canonical_path(socket_path, cwd);
    let mut msg = vstd::slice::slice_to_vec(DOMAIN.as_bytes());
    msg.extend_from_slice(client_nonce.as_slice());
    msg.extend_from_slice(server_nonce.as_slice());
    msg.extend_from_slice(canon.as_slice());
    proof {
        assert(msg@ =~= hello_message(client_nonce@, server_nonce@, socket_path@, cwd@));
    }
    msg
}

/// The message fixes what was signed: messages that are equal come from equal
/// nonces and from one socket.
pub proof fn law_signed_message_is_unambiguous(
    a_client: Seq<u8>,
    a_server: Seq<u8>,
    a_socket: Seq<u8>,
    b_client: Seq<u8>,
    b_server: Seq<u8>,
    b_socket: Seq<u8>,
    cwd: Seq<u8>,
)
    requires
        a_client.len() == NONCE_LEN,
        a_server.len() == NONCE_LEN,
        b_client.len() == NONCE_LEN,
        b_server.len() == NONCE_LEN,
        hello_message(a_client, a_server, a_socket, cwd) == hello_message(
            b_client,
            b_server,
            b_socket,
            cwd,
        ),
    ensures
        a_client == b_client,
        a_server == b_server,
        paths::canonical(a_socket, cwd) == paths::canonical(b_socket, cwd),
{
    let d = text::utf8(DOMAIN@);
    let pa = paths::canonical(a_socket, cwd);
    let pb = paths::canonical(b_socket, cwd);
    lemma_four_parts(d, a_client, a_server, pa, b_client, b_server, pb);
}

/// A recorded handshake is useless: where a signature verifies for its own
/// message alone, it is refused for another client's nonce, another server's
/// nonce and another socket.
pub proof fn law_replays_are_refused(
    key: Seq<u8>,
    signature: Seq<u8>,
    client: Seq<u8>,
    server: Seq<u8>,
    socket: Seq<u8>,
    cwd: Seq<u8>,
    other_client: Seq<u8>,
    other_server: Seq<u8>,
    other_socket: Seq<u8>,
    other_cwd: Seq<u8>,
)
    requires
        client.len() == NONCE_LEN,
        server.len() == NONCE_LEN,
        other_client.len() == NONCE_LEN,
        other_server.len() == NONCE_LEN,
        forall|m: Seq<u8>| #[trigger]
            ed25519_verifies(key, m, signature) ==> m == hello_message(
                client,
                server,
                socket,
                cwd,
            ),
        client != other_client || server != other_server || paths::canonical(socket, cwd)
            != paths::canonical(other_socket, other_cwd),
    ensures
        match hello_fault(
            key,
            other_client,
            other_server,
            signature,
            other_socket,
            other_cwd,
        ) {
            Some(f) => f is BrokerUntrusted,
            None => false,
        },
{
    let other = hello_message(other_client, other_server, other_socket, other_cwd);
    if ed25519_verifies(key, other, signature) {
        lemma_four_parts(
            text::utf8(DOMAIN@),
            client,
            server,
            paths::canonical(socket, cwd),
            other_client,
            other_server,
            paths::canonical(other_socket, other_cwd),
        );
    }
}

proof fn lemma_four_parts(
    d: Seq<u8>,
    c1: Seq<u8>,
    s1: Seq<u8>,
    p1: Seq<u8>,
    c2: Seq<u8>,
    s2: Seq<u8>,
    p2: Seq<u8>,
)
    requires
        c1.len() == 32,
        s1.len() == 32,
        c2.len() == 32,
        s2.len() == 32,
        d + c1 + s1 + p1 == d + c2 + s2 + p2,
    ensures
        c1 == c2,
        s1 == s2,
        p1 == p2,
{
    let m1 = d + c1 + s1 + p1;
    let m2 = d + c2 + s2 + p2;
    let n = d.len() as int;
    assert(c1 =~= m1.subrange(n, n + 32));
    assert(c2 =~= m2.subrange(n, n + 32));
    assert(s1 =~= m1.subrange(n + 32, n + 64));
    assert(s2 =~= m2.subrange(n + 32, n + 64));
    assert(p1 =~= m1.skip(n + 64));
    assert(p2 =~= m2.skip(n + 64));
}

/// The identity of a broker: its private key, wiped when it is dropped.
pub struct BrokerIdentity {
    private: SecretKey,
}

impl View for BrokerIdentity {
    type V = Seq<u8>;

    closed spec fn view(&self) -> Seq<u8> {
        self.private@
    }
}

/// The public key of an identity.
pub open spec fn public_key_of(private: Seq<u8>) -> Seq<u8> {
    ed25519_public(private)@
}

/// The signature of a handshake.
pub open spec fn hello_signature(
    private: Seq<u8>,
    client_nonce: Seq<u8>,
    server_nonce: Seq<u8>,
    socket: Seq<u8>,
    cwd: Seq<u8>,
) -> Seq<u8> {
    ed25519_signature(private, hello_message(client_nonce, server_nonce, socket, cwd))@
}

impl BrokerIdentity {
    /// The identity that the bytes of an identity file hold.
    pub fn load(bytes: &[u8]) -> (r: Result<BrokerIdentity, VaultError>)
        ensures
            match r {
                Ok(i) => bytes@.len() == 32 && i@ == bytes@,
                Err(e) => bytes@.len() != 32 && e@ == Fault::Corrupt("broker identity file"@),
            },
    {
        match crate::envelope::key_of(bytes) {
            Some(k) => Ok(BrokerIdentity { private: SecretKey::from_bytes(k) }),
            None => Err(VaultError::Corrupt("broker identity file".to_string())),
        }
    }

    /// A fresh identity.
    pub fn generate() -> (r: Result<BrokerIdentity, VaultError>)
        ensures
            r matches Err(e) ==> crypto::is_csprng_failure(e@),
    {
        match SecretKey::generate() {
            Ok(k) => Ok(BrokerIdentity { private: k }),
            Err(e) => Err(e),
        }
    }

    /// The bytes of the identity file.
    pub fn to_bytes(&self) -> (r: [u8; 32])
        ensures
            r@ == self@,
    {
        *self.private.as_bytes()
    }

    /// The public key.
    pub fn public_key(&self) -> (r: [u8; 32])
        ensures
            r@ == public_key_of(self@),
            ed25519_well_formed(r@),
    {
        ed25519_public_key(self.private.as_bytes())
    }

    /// Signs a client's nonce with the given server nonce. What it signs
    /// verifies under the public key.
    pub fn hello_with(
        &self,
        client_nonce: &[u8; NONCE_LEN],
        server_nonce: &[u8; NONCE_LEN],
        socket_path: &[u8],
        cwd: &[u8],
    ) -> (r: [u8; 64])
        ensures
            r@ == hello_signature(self@, client_nonce@, server_nonce@, socket_path@, cwd@),
            ed25519_verifies(
                public_key_of(self@),
                hello_message(client_nonce@, server_nonce@, socket_path@, cwd@),
                r@,
            ),
    {
        let msg = signed_message(client_nonce, server_nonce, socket_path, cwd);
        ed25519_sign(self.private.as_bytes(), msg.as_slice())
    }

    /// Answers a client's nonce with a fresh server nonce and the signature.
    pub fn hello_reply(
        &self,
        client_nonce: &[u8; NONCE_LEN],
        socket_path: &[u8],
        cwd: &[u8],
    ) -> (r: Result<([u8; NONCE_LEN], [u8; 64]), VaultError>)
        ensures
            match r {
                Ok((server_nonce, signature)) => signature@ == hello_signature(
                    self@,
                    client_nonce@,
                    server_nonce@,
                    socket_path@,
                    cwd@,
                ) && ed25519_verifies(
                    public_key_of(self@),
                    hello_message(client_nonce@, server_nonce@, socket_path@, cwd@),
                    signature@,
                ),
                Err(e) => crypto::is_csprng_failure(e@),
            },
    {
        match crypto::random_bytes::<32>() {
            Ok(server_nonce) => {
                let sig = self.hello_with(client_nonce, &server_nonce, socket_path, cwd);
                Ok((server_nonce, sig))
            },
            Err(e) => Err(e),
        }
    }
}

/// Whether a handshake verifies, or why it does not.
pub open spec fn hello_fault(
    public: Seq<u8>,
    client_nonce: Seq<u8>,
    server_nonce: Seq<u8>,
    signature: Seq<u8>,
    socket: Seq<u8>,
    cwd: Seq<u8>,
) -> Option<Fault> {
    if !ed25519_well_formed(public) {
        Some(Fault::BrokerUntrusted("broker public key is malformed"@))
    } else if !ed25519_verifies(
        public,
        hello_message(client_nonce, server_nonce, socket, cwd),
        signature,
    ) {
        Some(Fault::BrokerUntrusted("broker signature verification failed"@))
    } else {
        None
    }
}

pub(crate) fn untrusted(why: &str) -> (e: VaultError)
    ensures
        e@ == Fault::BrokerUntrusted(why@),
{
    VaultError::BrokerUntrusted(why.to_string())
}

/// Verifies a handshake against the key that the broker presents.
pub fn verify_hello(
    public_key: &[u8; 32],
    client_nonce: &[u8; NONCE_LEN],
    server_nonce: &[u8; NONCE_LEN],
    signature: &[u8; 64],
    socket_path: &[u8],
    cwd: &[u8],
) -> (r: Result<(), VaultError>)
    ensures
        match r {
            Ok(_) => hello_fault(
                public_key@,
                client_nonce@,
                server_nonce@,
                signature@,
                socket_path@,
                cwd@,
            ) is None,
            Err(e) => hello_fault(
                public_key@,
                client_nonce@,
                server_nonce@,
                signature@,
                socket_path@,
                cwd@,
            ) == Some(e@),
        },
{
    if !ed25519_key_ok(public_key) {
        return Err(untrusted("broker public key is malformed"));
    }
    let msg = signed_message(client_nonce, server_nonce, socket_path, cwd);
    if ed25519_verify(public_key, msg.as_slice(), signature) {
        Ok(())
    } else {
        Err(untrusted("broker signature verification failed"))
    }
}

// ----------------------------------------------------------------------- pins
/// What the client's policy decides on a verified handshake.
#[derive(Debug, PartialEq)]
pub enum PinDecision {
    /// The presented key is the pinned one.
    Proceed([u8; 32]),
    /// First contact: a person at a terminal must confirm the key.
    NeedHumanConfirm([u8; 32]),
}

/// The mathematical value of a [`PinDecision`].
pub enum PinV {
    Proceed(Seq<u8>),
    NeedHumanConfirm(Seq<u8>),
}

impl View for PinDecision {
    type V = PinV;

    open spec fn view(&self) -> PinV {
        match self {
            PinDecision::Proceed(k) => PinV::Proceed(k@),
            PinDecision::NeedHumanConfirm(k) => PinV::NeedHumanConfirm(k@),
        }
    }
}

/// The bytes of an optional key.
pub open spec fn opt_key(k: Option<[u8; 32]>) -> Option<Seq<u8>> {
    match k {
        Some(a) => Some(a@),
        None => None,
    }
}

pub open spec fn opt_key_ref(k: Option<&[u8; 32]>) -> Option<Seq<u8>> {
    match k {
        Some(a) => Some(a@),
        None => None,
    }
}

/// What reading a pin came to.
pub open spec fn pin_read(
    r: Result<Option<[u8; 32]>, VaultError>,
) -> Result<Option<Seq<u8>>, Fault> {
    match r {
        Ok(k) => Ok(opt_key(k)),
        Err(e) => Err(e@),
    }
}

/// The client's pin policy, given what reading the pin of the socket came to.
pub open spec fn pin_decision(
    pin: Result<Option<Seq<u8>>, Fault>,
    presented: Seq<u8>,
    hello_ok: bool,
    trust_fingerprint: Option<Seq<u8>>,
    interactive: bool,
) -> Result<PinV, Fault> {
    match pin {
        Err(e) => Err(e),
        Ok(Some(pinned)) => if hello_ok && pinned == presented {
            Ok(PinV::Proceed(pinned))
        } else {
            Err(
                Fault::BrokerUntrusted(
                    "broker identity does not match the pinned key; refusing to send credentials (run `svault trust show` to compare, `trust reset` + re-pin after investigation)"@,
                ),
            )
        },
        Ok(None) => if !hello_ok {
            Err(Fault::BrokerUntrusted("broker signature verification failed"@))
        } else if trust_fingerprint matches Some(fp) && fp != presented {
            Err(
                Fault::BrokerUntrusted(
                    "broker fingerprint does not match --trust-fingerprint; refusing to send credentials"@,
                ),
            )
        } else if !interactive {
            Err(
                Fault::BrokerUntrusted(
                    "no pinned broker identity for this socket; refusing to send credentials (a human must pin once at a TTY: run any svault command interactively, verify the fingerprint out-of-band, answer `yes`)"@,
                ),
            )
        } else {
            Ok(PinV::NeedHumanConfirm(presented))
        },
    }
}

/// Decides on a presented key. It never writes a pin: a pin is written only
/// after a person has confirmed the key at a terminal.
pub fn decide_pin(
    pin: Result<Option<[u8; 32]>, VaultError>,
    presented: &[u8; 32],
    hello_ok: bool,
    trust_fingerprint: Option<&[u8; 32]>,
    interactive: bool,
) -> (r: Result<PinDecision, VaultError>)
    ensures
        match r {
            Ok(d) => pin_decision(
                pin_read(pin),
                presented@,
                hello_ok,
                opt_key_ref(trust_fingerprint),
                interactive,
            ) == Ok::<PinV, Fault>(d@),
            Err(e) => pin_decision(
                pin_read(pin),
                presented@,
                hello_ok,
                opt_key_ref(trust_fingerprint),
                interactive,
            ) == Err::<PinV, Fault>(e@),
        },
{
    match pin {
        Err(e) => {
            return Err(e);
        },
        Ok(Some(pinned)) => {
            if hello_ok && text::same_bytes(pinned.as_slice(), presented.as_slice()) {
                return Ok(PinDecision::Proceed(pinned));
            }
            return Err(
                untrusted(
                    "broker identity does not match the pinned key; refusing to send credentials (run `svault trust show` to compare, `trust reset` + re-pin after investigation)",
                ),
            );
        },
        Ok(None) => {},
    }
    if !hello_ok {
        return Err(untrusted("broker signature verification failed"));
    }
    match trust_fingerprint {
        Some(fp) => {
            if !text::same_bytes(fp.as_slice(), presented.as_slice()) {
                return Err(
                    untrusted(
                        "broker fingerprint does not match --trust-fingerprint; refusing to send credentials",
                    ),
                );
            }
        },
        None => {},
    }
    if !interactive {
        return Err(
            untrusted(
                "no pinned broker identity for this socket; refusing to send credentials (a human must pin once at a TTY: run any svault command interactively, verify the fingerprint out-of-band, answer `yes`)",
            ),
        );
    }
    Ok(PinDecision::NeedHumanConfirm(*presented))
}

/// Nothing proceeds but the pinned key after a handshake that verified.
pub proof fn law_only_the_pinned_key_proceeds(
    pin: Result<Option<Seq<u8>>, Fault>,
    presented: Seq<u8>,
    hello_ok: bool,
    trust_fingerprint: Option<Seq<u8>>,
    interactive: bool,
    key: Seq<u8>,
)
    ensures
        pin_decision(pin, presented, hello_ok, trust_fingerprint, interactive) == Ok::<PinV, Fault>(
            PinV::Proceed(key),
        ) <==> pin == Ok::<Option<Seq<u8>>, Fault>(Some(key)) && presented == key && hello_ok,
{
}

/// Without a person at a terminal there is no first contact, whatever
/// fingerprint was given.
pub proof fn law_first_contact_needs_a_person(
    presented: Seq<u8>,
    hello_ok: bool,
    trust_fingerprint: Option<Seq<u8>>,
)
    ensures
        pin_decision(Ok(None), presented, hello_ok, trust_fingerprint, false) is Err,
{
}

/// A pin is never replaced by a decision: with a pin the only success is the
/// pinned key.
pub proof fn law_pins_are_never_replaced(
    pinned: Seq<u8>,
    presented: Seq<u8>,
    hello_ok: bool,
    trust_fingerprint: Option<Seq<u8>>,
    interactive: bool,
)
    ensures
        pin_decision(
            Ok(Some(pinned)),
            presented,
            hello_ok,
            trust_fingerprint,
            interactive,
        ) matches Ok(d)
            ==> d == PinV::Proceed(pinned) && presented == pinned,
{
}

/// What a pin file holds: the key and the socket.
pub open spec fn pin_members(canon: Seq<u8>, key: Seq<u8>) -> Seq<(Seq<char>, Seq<char>)> {
    seq![("key_hex"@, crypto::hex_text(key)), ("socket"@, lossy_text(canon))]
}

/// The bytes of a pin file.
pub open spec fn pin_bytes(canon: Seq<u8>, key: Seq<u8>) -> Seq<u8> {
    json::text_document(pin_members(canon, key))
}

/// Writes a pin file.
pub fn pin_document(socket: &[u8], cwd: &[u8], public_key: &[u8; 32]) -> (r: Vec<u8>)
    ensures
        r@ == pin_bytes(paths::canonical(socket@, cwd@), public_key@),
{
    let canon = paths::canonical_path(socket, cwd);
    let mut j = Json::object();
    j.put("key_hex", Json::string(&crypto::hex(public_key.as_slice())));
    j.put("socket", Json::string(&lossy(canon.as_slice())));
    proof {
        let members = pin_members(canon@, public_key@);
        assert(j@ == json::text_object(members)) by {
            assert(j@->Object_0 =~= json::text_object(members)->Object_0);
        }
    }
    vstd::slice::slice_to_vec(j.to_text().as_str().as_bytes())
}

pub open spec fn corrupt_pin() -> Fault {
    Fault::BrokerUntrusted("broker pin file is corrupt; delete it and re-pin at a TTY"@)
}

/// The bytes of a fixed number that a text writes in hexadecimal notation.
pub open spec fn hex_field(t: Option<Seq<char>>, len: nat) -> Option<Seq<u8>> {
    match t {
        Some(s) => if crypto::is_hex(text::utf8(s)) && text::utf8(s).len() == 2 * len {
            Some(crypto::unhex_bytes(text::utf8(s)))
        } else {
            None
        },
        None => None,
    }
}

/// The pin in the bytes of a pin file, where `stored` and `key_hex` are the
/// texts that the file as a JSON document has for the socket and the key. An
/// old pin is the bare key.
pub open spec fn pinned_key(
    bytes: Seq<u8>,
    stored: Option<Seq<char>>,
    key_hex: Option<Seq<char>>,
    canon: Seq<u8>,
) -> Result<Seq<u8>, Fault> {
    if is_bare_pin(bytes) {
        Ok(bytes)
    } else {
        match stored {
            None => Err(corrupt_pin()),
            Some(s) => if s != lossy_text(canon) {
                Err(
                    Fault::BrokerUntrusted(
                        "broker pin is for a different socket path; refusing to send credentials (re-pin this exact path at a TTY)"@,
                    ),
                )
            } else {
                match hex_field(key_hex, 32) {
                    None => Err(corrupt_pin()),
                    Some(k) => Ok(k),
                }
            },
        }
    }
}

/// Whether the bytes of a pin file are an old pin.
pub open spec fn is_bare_pin(bytes: Seq<u8>) -> bool {
    bytes.len() == 32 && bytes[0] != 123
}

/// Reads the bytes of a key in hexadecimal notation.
fn key_of_hex(t: Option<&str>) -> (r: Option<[u8; 32]>)
    ensures
        opt_key(r) == hex_field(json::opt_str(t), 32),
{
    match t {
        Some(s) => match crypto::unhex(s) {
            Some(v) => {
                proof {
                    let b = text::utf8(s@);
                    assert(v@.len() == b.len() / 2 && b.len() % 2 == 0);
                }
                crate::envelope::key_of(v.as_slice())
            },
            None => None,
        },
        None => None,
    }
}

pub(crate) fn hex_bytes(j: &Json, key: &str) -> (r: Option<Vec<u8>>)
    ensures
        match r {
            Some(v) => j@.at(key@).text() matches Some(s) && crypto::is_hex(text::utf8(s)) && v@
                == crypto::unhex_bytes(text::utf8(s)),
            None => !(j@.at(key@).text() matches Some(s) && crypto::is_hex(text::utf8(s))),
        },
{
    match j.text_at(key) {
        Some(s) => crypto::unhex(s),
        None => None,
    }
}

pub(crate) fn key_at(j: &Json, key: &str) -> (r: Option<[u8; 32]>)
    ensures
        opt_key(r) == hex_field(j@.at(key@).text(), 32),
{
    key_of_hex(j.text_at(key))
}

/// Reads the pin in the bytes of a pin file, given what it holds as a document.
/// A pin for another path and a malformed one fail closed.
pub fn read_pin(
    bytes: &[u8],
    stored: Option<&str>,
    key_hex: Option<&str>,
    socket: &[u8],
    cwd: &[u8],
) -> (r: Result<[u8; 32], VaultError>)
    ensures
        ({
            let expected = pinned_key(
                bytes@,
                json::opt_str(stored),
                json::opt_str(key_hex),
                paths::canonical(socket@, cwd@),
            );
            match r {
                Ok(k) => expected == Ok::<Seq<u8>, Fault>(k@),
                Err(e) => expected == Err::<Seq<u8>, Fault>(e@),
            }
        }),
{
    if bytes.len() == 32 && bytes[0] != 123 {
        return match crate::envelope::key_of(bytes) {
            Some(k) => Ok(k),
            None => Err(untrusted("broker pin file is corrupt; delete it and re-pin at a TTY")),
        };
    }
    let stored = match stored {
        Some(s) => s,
        None => {
            return Err(untrusted("broker pin file is corrupt; delete it and re-pin at a TTY"));
        },
    };
    let canon = paths::canonical_path(socket, cwd);
    if !same(stored, &lossy(canon.as_slice())) {
        return Err(
            untrusted(
                "broker pin is for a different socket path; refusing to send credentials (re-pin this exact path at a TTY)",
            ),
        );
    }
    match key_of_hex(key_hex) {
        Some(k) => Ok(k),
        None => Err(untrusted("broker pin file is corrupt; delete it and re-pin at a TTY")),
    }
}

/// Reads the pin of a socket from its file, if there is one. A file that was
/// written for the socket, under whatever spelling of its path, gives the key
/// back; a pin for another path and a malformed one fail closed.
pub fn load_pin(file: Option<&[u8]>, socket: &[u8], cwd: &[u8]) -> (r: Result<
    Option<[u8; 32]>,
    VaultError,
>)
    ensures
        match file {
            None => r matches Ok(k) && k is None,
            Some(bytes) => {
                let canon = paths::canonical(socket@, cwd@);
                let expected = pinned_key(
                    bytes@,
                    json::document_text(bytes@, "socket"@),
                    json::document_text(bytes@, "key_hex"@),
                    canon,
                );
                &&& match r {
                    Ok(k) => k matches Some(a) && expected == Ok::<Seq<u8>, Fault>(a@),
                    Err(e) => expected == Err::<Seq<u8>, Fault>(e@),
                }
                &&& forall|key: Seq<u8>|
                    key.len() == 32 && bytes@ == #[trigger] pin_bytes(canon, key) ==> (r matches Ok(
                        Some(a),
                    ) && a@ == key)
            },
        },
{
    let bytes = match file {
        Some(b) => b,
        None => {
            return Ok(None);
        },
    };
    let stored = json::text_in(bytes, "socket");
    let key_hex = json::text_in(bytes, "key_hex");
    proof {
        let canon = paths::canonical(socket@, cwd@);
        assert forall|key: Seq<u8>|
            key.len() == 32 && bytes@ == #[trigger] pin_bytes(canon, key) implies pinned_key(
            bytes@,
            json::document_text(bytes@, "socket"@),
            json::document_text(bytes@, "key_hex"@),
            canon,
        ) == Ok::<Seq<u8>, Fault>(key) by {
            law_stored_pin_reads_back(socket@, socket@, cwd@, key);
        }
    }
    match read_pin(bytes, borrowed(&stored), borrowed(&key_hex), socket, cwd) {
        Ok(k) => Ok(Some(k)),
        Err(e) => Err(e),
    }
}

fn borrowed(t: &Option<String>) -> (r: Option<&str>)
    ensures
        json::opt_str(r) == json::opt_text(*t),
{
    match t {
        Some(s) => Some(s.as_str()),
        None => None,
    }
}

/// A pin that was stored for a socket is read back for that socket, under
/// every spelling of its path: the file is no old pin, and what it was written
/// from gives the key.
pub proof fn law_stored_pin_reads_back(
    socket: Seq<u8>,
    spelling: Seq<u8>,
    cwd: Seq<u8>,
    key: Seq<u8>,
)
    requires
        key.len() == 32,
        paths::canonical(spelling, cwd) == paths::canonical(socket, cwd),
    ensures
        ({
            let canon = paths::canonical(socket, cwd);
            let members = pin_members(canon, key);
            let document = json::text_object(members);
            &&& json::names_differ(members)
            &&& pinned_key(
                pin_bytes(canon, key),
                document.at("socket"@).text(),
                document.at("key_hex"@).text(),
                paths::canonical(spelling, cwd),
            ) == Ok::<Seq<u8>, Fault>(key)
        }),
{
    reveal_strlit("socket");
    reveal_strlit("key_hex");
    assert("socket"@.len() == 6 && "key_hex"@.len() == 7);
    let canon = paths::canonical(socket, cwd);
    let members = pin_members(canon, key);
    let k = ("key_hex"@, JsonV::Str(crypto::hex_text(key)));
    let s = ("socket"@, JsonV::Str(lossy_text(canon)));
    let listed = json::text_object(members)->Object_0;
    assert(listed =~= seq![k, s]);
    assert(listed.drop_first() =~= seq![s]);
    reveal_with_fuel(json::member, 3);
    json::lemma_documents_start_with_a_brace(members);
    crypto::law_unhex_undoes_hex(key);
    crypto::lemma_hex_bytes(key);
}

/// What stands for a value stands for all of it: the same variant, with every part.
pub proof fn law_the_view_of_pin_decision_is_faithful(x: PinDecision)
    ensures
        match (x, x@) {
            (PinDecision::Proceed(k), PinV::Proceed(v0)) => v0 == k@,
            (PinDecision::NeedHumanConfirm(k), PinV::NeedHumanConfirm(v0)) => v0 == k@,
            _ => false,
        },
{
}

} // verus!
