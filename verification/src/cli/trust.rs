//! Trust at the terminal: showing fingerprints, confirming a broker's key and
//! rotating an identity.
//!
//! Nothing here sends a credential.

use vstd::prelude::*;

use crate::broker_identity;
use crate::dotenv;
use crate::error::{Fault, VaultError};
use crate::json;
use crate::text::{self, joined, same};

verus! {

/// A text without white space at its ends.
pub open spec fn trimmed(s: Seq<char>) -> Seq<char>
    decreases s.len(),
{
    if s.len() == 0 {
        s
    } else if dotenv::is_white(s[0]) {
        trimmed(s.skip(1))
    } else if dotenv::is_white(s.last()) {
        trimmed(s.drop_last())
    } else {
        s
    }
}

/// Whether a line says a word, whatever white space surrounds it.
pub fn says(line: &str, word: &str) -> (r: bool)
    ensures
        r == (trimmed(line@) == word@),
{
    let chars = text::chars_of(line);
    let mut a: usize = 0;
    let mut b: usize = chars.len();
    proof {
        assert(line@.subrange(0, line@.len() as int) =~= line@);
    }
    while a < b && (dotenv::white(chars[a]) || dotenv::white(chars[b - 1]))
        invariant
            a <= b <= chars@.len(),
            chars@ == line@,
            trimmed(line@) == trimmed(line@.subrange(a as int, b as int)),
        decreases b - a,
    {
        proof {
            let s = line@.subrange(a as int, b as int);
            assert(s[0] == line@[a as int]);
            assert(s.last() == line@[b - 1]);
            assert(s.skip(1) =~= line@.subrange(a + 1, b as int));
            assert(s.drop_last() =~= line@.subrange(a as int, b - 1));
        }
        if dotenv::white(chars[a]) {
            a = a + 1;
        } else {
            b = b - 1;
        }
    }
    proof {
        let s = line@.subrange(a as int, b as int);
        if a < b {
            assert(s[0] == line@[a as int]);
            assert(s.last() == line@[b - 1]);
        }
        assert(trimmed(line@) == s);
    }
    let w = text::chars_of(word);
    if w.len() != b - a {
        return false;
    }
    let mut i: usize = 0;
    while i < w.len()
        invariant
            a <= b <= chars@.len(),
            chars@ == line@,
            w@ == word@,
            w@.len() == b - a,
            trimmed(line@) == line@.subrange(a as int, b as int),
            i <= w@.len(),
            forall|k: int| 0 <= k < i ==> w@[k] == chars@[a + k],
        decreases w@.len() - i,
    {
        if w[i] != chars[a + i] {
            assert(trimmed(line@)[i as int] != word@[i as int]);
            return false;
        }
        i = i + 1;
    }
    proof {
        assert(trimmed(line@) =~= word@);
    }
    true
}

// ------------------------------------------------------------------- show
/// What is shown of a broker's identity: lines, and whether to warn that the
/// running daemon and the identity file disagree.
pub struct Shown {
    pub lines: Vec<String>,
    pub disagree: bool,
}

/// What is shown of a broker's identity.
pub open spec fn shown(live: Option<Seq<char>>, file: Option<Seq<char>>) -> Result<
    (Seq<Seq<char>>, bool),
    Fault,
> {
    match (live, file) {
        (Some(l), Some(f)) => if l == f {
            Ok((seq!["broker fingerprint: "@ + l], false))
        } else {
            Ok(
                (
                    seq![
                        "broker fingerprint (live daemon): "@ + l,
                        "broker fingerprint (identity file): "@ + f,
                    ],
                    true,
                ),
            )
        },
        (Some(l), None) => Ok((seq!["broker fingerprint: "@ + l], false)),
        (None, Some(f)) => Ok(
            (seq!["broker fingerprint (identity file, daemon not reachable): "@ + f], false),
        ),
        (None, None) => Err(
            Fault::BrokerUntrusted("no live daemon and no identity file; nothing to show"@),
        ),
    }
}

fn one(line: String) -> (r: Vec<String>)
    ensures
        text::texts(r@) == seq![line@],
{
    let ghost t = line@;
    let mut v: Vec<String> = Vec::new();
    v.push(line);
    proof {
        assert(text::texts(v@) =~= seq![t]);
    }
    v
}

/// Gives what is shown of a broker's identity.
pub fn trust_show(live: Option<&str>, file: Option<&str>) -> (r: Result<Shown, VaultError>)
    ensures
        match r {
            Ok(s) => shown(json::opt_str(live), json::opt_str(file)) == Ok::<
                (Seq<Seq<char>>, bool),
                Fault,
            >((text::texts(s.lines@), s.disagree)),
            Err(e) => shown(json::opt_str(live), json::opt_str(file)) == Err::<
                (Seq<Seq<char>>, bool),
                Fault,
            >(e@),
        },
{
    match (live, file) {
        (Some(l), Some(f)) => {
            if same(l, f) {
                return Ok(
                    Shown { lines: one(joined("broker fingerprint: ", l)), disagree: false },
                );
            }
            let mut lines = one(joined("broker fingerprint (live daemon): ", l));
            let second = joined("broker fingerprint (identity file): ", f);
            let ghost t = second@;
            let ghost before = text::texts(lines@);
            lines.push(second);
            proof {
                assert(text::texts(lines@) =~= before.push(t));
                assert(text::texts(lines@) =~= seq![
                    "broker fingerprint (live daemon): "@ + l@,
                    t,
                ]);
            }
            Ok(Shown { lines, disagree: true })
        },
        (Some(l), None) => Ok(
            Shown { lines: one(joined("broker fingerprint: ", l)), disagree: false },
        ),
        (None, Some(f)) => Ok(
            Shown {
                lines: one(
                    joined("broker fingerprint (identity file, daemon not reachable): ", f),
                ),
                disagree: false,
            },
        ),
        (None, None) => Err(
            VaultError::BrokerUntrusted(
                "no live daemon and no identity file; nothing to show".to_string(),
            ),
        ),
    }
}

/// A disagreement is shown with both fingerprints, never with one of them.
pub proof fn law_disagreement_is_loud(live: Seq<char>, file: Seq<char>)
    requires
        live != file,
    ensures
        shown(Some(live), Some(file)) matches Ok((lines, disagree)) && disagree && lines.len() == 2,
{
}

// ------------------------------------------------------------------ reset
/// What stands in the way of a rotation.
pub open spec fn reset_fault(terminal: bool, passphrase_file: bool, live: bool) -> Option<Fault> {
    if !terminal && !passphrase_file {
        Some(Fault::HumanRequired)
    } else if live {
        Some(
            Fault::InvalidInput(
                "a daemon is still serving this socket: stop it before `trust reset`, then start it again afterwards so it loads the new identity"@,
            ),
        )
    } else {
        None
    }
}

/// Checks that an identity may be rotated: a person is there and no daemon
/// still proves with the old key.
pub fn trust_reset(terminal: bool, passphrase_file: bool, live: bool) -> (r: Result<(), VaultError>)
    ensures
        match r {
            Ok(_) => reset_fault(terminal, passphrase_file, live) is None,
            Err(e) => reset_fault(terminal, passphrase_file, live) == Some(e@),
        },
{
    if !terminal && !passphrase_file {
        return Err(VaultError::HumanRequired);
    }
    if live {
        return Err(
            VaultError::InvalidInput(
                "a daemon is still serving this socket: stop it before `trust reset`, then start it again afterwards so it loads the new identity",
            ),
        );
    }
    Ok(())
}

/// Takes the answer to the question whether to rotate.
pub fn confirm_reset_tty(line: &str) -> (r: Result<(), VaultError>)
    ensures
        match r {
            Ok(_) => trimmed(line@) == "ROTATE"@,
            Err(e) => trimmed(line@) != "ROTATE"@ && e@ == Fault::BrokerUntrusted(
                "rotation aborted"@,
            ),
        },
{
    if says(line, "ROTATE") {
        Ok(())
    } else {
        Err(VaultError::BrokerUntrusted("rotation aborted".to_string()))
    }
}

// ---------------------------------------------------------------- confirm
/// What stands in the way of pinning a key: a mismatch with the expected one,
/// no terminal, or any answer but `yes`.
pub open spec fn confirm_fault(
    key: Seq<u8>,
    expected: Option<Seq<u8>>,
    answer: Option<Seq<char>>,
) -> Option<Fault> {
    if expected matches Some(e) && e != key {
        Some(
            Fault::BrokerUntrusted(
                "broker fingerprint does not match --trust-fingerprint; refusing to send credentials"@,
            ),
        )
    } else {
        match answer {
            None => Some(
                Fault::BrokerUntrusted(
                    "no pinned broker identity for this socket; refusing to send credentials (a human must pin once at a TTY: run any svault command interactively, verify the fingerprint out-of-band, answer `yes`)"@,
                ),
            ),
            Some(line) => if trimmed(line) == "yes"@ {
                None
            } else {
                Some(
                    Fault::BrokerUntrusted(
                        "broker identity not confirmed; refusing to send credentials"@,
                    ),
                )
            },
        }
    }
}

/// Whether a key differs from the expected one, which ends the ceremony before
/// anybody is asked.
pub fn is_unexpected(key: &[u8; 32], expected: Option<&[u8; 32]>) -> (r: bool)
    ensures
        r == (broker_identity::opt_key_ref(expected) matches Some(e) && e != key@),
{
    match expected {
        Some(e) => !text::same_bytes(e.as_slice(), key.as_slice()),
        None => false,
    }
}

/// Takes the answer to the question whether to pin a key; `None` where there
/// is no terminal to ask at.
pub fn confirm_broker_pin(key: &[u8; 32], expected: Option<&[u8; 32]>, answer: Option<&str>) -> (r:
    Result<(), VaultError>)
    ensures
        ({
            let fault = confirm_fault(
                key@,
                broker_identity::opt_key_ref(expected),
                json::opt_str(answer),
            );
            match r {
                Ok(_) => fault is None,
                Err(e) => fault == Some(e@),
            }
        }),
{
    if is_unexpected(key, expected) {
        return Err(
            VaultError::BrokerUntrusted(
                "broker fingerprint does not match --trust-fingerprint; refusing to send credentials".to_string(),
            ),
        );
    }
    match answer {
        None => Err(
            VaultError::BrokerUntrusted(
                "no pinned broker identity for this socket; refusing to send credentials (a human must pin once at a TTY: run any svault command interactively, verify the fingerprint out-of-band, answer `yes`)".to_string(),
            ),
        ),
        Some(line) => if says(line, "yes") {
            Ok(())
        } else {
            Err(
                VaultError::BrokerUntrusted(
                    "broker identity not confirmed; refusing to send credentials".to_string(),
                ),
            )
        },
    }
}

/// Only an explicit `yes` pins a key.
pub proof fn law_only_yes_pins(key: Seq<u8>, expected: Option<Seq<u8>>, answer: Option<Seq<char>>)
    requires
        confirm_fault(key, expected, answer) is None,
    ensures
        answer matches Some(line) && trimmed(line) == "yes"@,
        expected is Some ==> expected == Some(key),
{
}

} // verus!
