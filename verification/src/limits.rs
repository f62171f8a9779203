//! The limits that hold between the parts, and what stands for what may be absent.

use vstd::prelude::*;

use crate::audit::{self, chain};
use crate::broker::{daemon, gate, params, rows, run};
use crate::broker_identity;
use crate::cli::{self, errand, grammar};
use crate::crypto::{self, SecretKey, SecretText};
use crate::dashboard;
use crate::envelope;
use crate::error::VaultError;
use crate::fdpass;
use crate::fsops::{self, publish};
use crate::json::{self, Json};
use crate::text;
use crate::wire;

verus! {

/// Paths are opened without following links and never above their folder; directories and
/// temporary files are opened for what they are and closed on execution, and a temporary
/// file must be new and is its owner's alone.
pub proof fn law_files_are_opened_with_care()
    ensures
        fsops::RESOLVE_FLAGS == 0x08u64 | 0x04u64 | 0x02u64,
        fsops::OPEN_DIRECTORY == 0i32 | 0o200000i32 | 0o2000000i32,
        fsops::OPEN_TEMP == 1i32 | 0o100i32 | 0o200i32 | 0o2000000i32,
        fsops::TEMP_MODE == 0o600,
        publish::S_IFMT == 0o170000,
        publish::S_IFREG == 0o100000,
        publish::MAX_ATTEMPTS == 5,
        fsops::EEXIST == 17,
{
}

/// The log may grow to sixteen mebibytes, of which two are kept for what must be written.
pub proof fn law_the_log_keeps_room_for_what_must_be_written()
    ensures
        audit::MAX_AUDIT_LEN == 16 * 1024 * 1024,
        audit::AUDIT_HEADROOM == 2 * 1024 * 1024,
        audit::AUDIT_SOFT_LIMIT == audit::MAX_AUDIT_LEN - audit::AUDIT_HEADROOM,
        chain::audit_label() == text::utf8("svault/audit-mac/v1"@),
{
}

/// The lengths of keys, nonces, salts and tags, the bounds of a vault file, and the bounds
/// of a connection.
pub proof fn law_lengths_and_bounds()
    ensures
        crypto::KEY_LEN == 32 && crypto::NONCE_LEN == 24 && crypto::SALT_LEN == 16
            && crypto::TAG_LEN == 16,
        envelope::VERSION == 1 && envelope::PREFIX_LEN == 6 + 4 + 4,
        envelope::MAX_HEADER_LEN == 1024 * 1024 && envelope::MAX_FILE_LEN == 16 * 1024 * 1024,
        envelope::magic() == text::utf8("SVAULT"@),
        daemon::MAX_CONCURRENT_CONNECTIONS == 32 && daemon::FIRST_REQUEST_TIMEOUT_SECS == 5
            && daemon::CONNECTION_IDLE_TIMEOUT_SECS == 30 && daemon::IDLE_RETRY_BACKOFF_SECS == 5,
        run::POLL_INTERVAL_MS == 20 && run::STDIO_FDS == 3,
        cli::DEFAULT_IDLE_LOCK_SECS == 15 * 60 && grammar::DEFAULT_TAIL == 20,
        fdpass::DATA_CHUNK == 8192 && fdpass::MAX_RECV_FDS == 32,
        broker_identity::NONCE_LEN == 32,
        broker_identity::HELLO_OP@ == "broker.hello"@,
        broker_identity::DOMAIN@ == "svault/broker-hello/v1"@,
        dashboard::OVERVIEW_SECRETS_PROJECT_CAP == 50,
{
    reveal_strlit("SVAULT");
    let m = "SVAULT"@;
    assert(m.len() == 6 && m[0] == 'S' && m[1] == 'V' && m[2] == 'A' && m[3] == 'U' && m[4] == 'L'
        && m[5] == 'T');
    assert(vstd::utf8::is_ascii_chars(m));
    vstd::utf8::is_ascii_chars_encode_utf8(m);
    assert(envelope::magic() =~= text::utf8(m));
}

/// What stands for something that may be absent is absent with it, and is otherwise what
/// stands for it; what stands for a list stands for each of its items, in order.
pub proof fn law_what_is_absent_stays_absent(
    s: String,
    t: &str,
    v: Vec<String>,
    j: Json,
    k: [u8; 32],
    key: &SecretKey,
    secret: SecretText,
    n: u64,
    m: i32,
    d: gate::Denial,
    x: run::Exit<String>,
)
    ensures
        json::opt_text(Some(s)) == Some(s@) && json::opt_text(None) is None,
        json::opt_str(Some(t)) == Some(t@) && json::opt_str(None) is None,
        cli::or_empty(Some(t)) == t@ && cli::or_empty(None).len() == 0,
        rows::or_empty(Some(s)) == s@ && rows::or_empty(None).len() == 0,
        text::texts(v@).len() == v@.len(),
        forall|i: int| 0 <= i < v@.len() ==> #[trigger] text::texts(v@)[i] == v@[i]@,
        params::opt_texts(Some(v)) == Some(text::texts(v@)) && params::opt_texts(None) is None,
        run::opt_texts(Some(v)) == Some(text::texts(v@)) && run::opt_texts(None) is None,
        wire::opt_json(Some(j)) == Some(j@) && wire::opt_json(None) is None,
        broker_identity::opt_key(Some(k)) == Some(k@) && broker_identity::opt_key(None) is None,
        broker_identity::opt_key_ref(Some(&k)) == Some(k@) && broker_identity::opt_key_ref(
            None,
        ) is None,
        chain::opt_key(Some(key)) == Some(key@) && chain::opt_key(None) is None,
        errand::secret(Some(secret)) == Some(secret@) && errand::secret(None) is None,
        audit::opt_u64(Some(n)) == Some(n as int) && audit::opt_u64(None) is None,
        audit::opt_i32(Some(m)) == Some(m as int) && audit::opt_i32(None) is None,
        gate::opt_denial(Some(d)) == Some(d@) && gate::opt_denial(None) is None,
        run::opt_exit(Some(x)) == Some(run::exit_value(x)) && run::opt_exit(None) is None,
{
    reveal_strlit("");
}

/// What was read of a pin is the key, its absence or the error, as it was.
pub proof fn law_what_was_read_of_a_pin_stays(k: Option<[u8; 32]>, e: VaultError)
    ensures
        broker_identity::pin_read(Ok(k)) == Ok::<Option<Seq<u8>>, crate::error::Fault>(
            broker_identity::opt_key(k),
        ),
        broker_identity::pin_read(Err(e)) == Err::<Option<Seq<u8>>, crate::error::Fault>(e@),
{
}

} // verus!
