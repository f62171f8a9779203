//! How the parameters of a request are read.
//!
//! A malformed parameter is never read as an absent one: an absent selection
//! means "everything", so that reading would turn a typo into a full dump.

use vstd::prelude::*;

use crate::broker::ops::{self, Operation};
use crate::json::{self, Json, JsonV};
use crate::text;
use crate::wire::Request;

verus! {

pub open spec fn params_not_object() -> Seq<char> {
    "params must be an object"@
}

pub open spec fn handle_is_no_credential() -> Seq<char> {
    "lease_id is a public handle and does not authorize; present the credential instead"@
}

pub open spec fn no_lease_for_humans() -> Seq<char> {
    "human operations take no lease; leases narrow agent grants only"@
}

/// The lease credential that a request presents, if any. A lease handle in its
/// place is refused, since ignoring it would run the request on the full grant.
pub open spec fn lease_credential(params: JsonV) -> Result<Option<Seq<char>>, Seq<char>> {
    if !(params is Object) {
        Err(params_not_object())
    } else if !(params.at("lease_id"@) is Null) {
        Err(handle_is_no_credential())
    } else {
        match params.at("lease"@) {
            JsonV::Null => Ok(None),
            JsonV::Str(s) => if s.len() > 0 {
                Ok(Some(s))
            } else {
                Err("invalid lease credential"@)
            },
            _ => Err("invalid lease credential"@),
        }
    }
}

/// Why a request of the owner is refused for a lease that it names: the owner
/// acts with full authority, so a named lease must not be ignored.
pub open spec fn lease_objection(op: Option<Operation>, params: JsonV) -> Option<Seq<char>> {
    if !(params is Object) {
        Some(params_not_object())
    } else if !(params.at("lease"@) is Null) {
        Some(no_lease_for_humans())
    } else if !(op matches Some(o) && o.targets_a_lease()) && !(params.at("lease_id"@) is Null) {
        Some(no_lease_for_humans())
    } else {
        None
    }
}

/// Whether every item is a string.
pub open spec fn all_texts(items: Seq<JsonV>) -> bool {
    forall|i: int| 0 <= i < items.len() ==> #[trigger] items[i] is Str
}

/// The selected keys: an absent or null selection is "every secret", and
/// anything else must be an array of strings.
pub open spec fn key_selection(params: JsonV) -> Result<Option<Seq<Seq<char>>>, Seq<char>> {
    match params.at("keys"@) {
        JsonV::Null => Ok(None),
        JsonV::Array(items) => if all_texts(items) {
            Ok(Some(Seq::new(items.len(), |i: int| items[i]->Str_0)))
        } else {
            Err("keys must be an array of strings"@)
        },
        _ => Err("keys must be an array of strings"@),
    }
}

/// The strings among some items, in order.
pub open spec fn only_texts(items: Seq<JsonV>) -> Seq<Seq<char>>
    decreases items.len(),
{
    if items.len() == 0 {
        Seq::empty()
    } else {
        let rest = only_texts(items.drop_last());
        match items.last() {
            JsonV::Str(s) => rest.push(s),
            _ => rest,
        }
    }
}

/// The name and the folders of a new project; folders that are no strings are
/// left out, and absent folders are none.
pub open spec fn project_of(params: JsonV) -> Option<(Seq<char>, Seq<Seq<char>>)> {
    match params.at("name"@) {
        JsonV::Str(name) => Some(
            (
                name,
                match params.at("paths"@) {
                    JsonV::Array(items) => only_texts(items),
                    _ => Seq::empty(),
                },
            ),
        ),
        _ => None,
    }
}

/// The value of a selection of keys.
pub open spec fn opt_texts(o: Option<Vec<String>>) -> Option<Seq<Seq<char>>> {
    match o {
        Some(v) => Some(text::texts(v@)),
        None => None,
    }
}

/// Reads the lease credential that a request presents.
pub fn lease_credential_param(req: &Request) -> (r: Result<Option<String>, &'static str>)
    ensures
        match r {
            Ok(c) => lease_credential(req@.params) == Ok::<Option<Seq<char>>, Seq<char>>(
                json::opt_text(c),
            ),
            Err(why) => lease_credential(req@.params) == Err::<Option<Seq<char>>, Seq<char>>(why@),
        },
{
    if !req.params.is_object() {
        return Err("params must be an object");
    }
    if req.params.present("lease_id") {
        return Err(
            "lease_id is a public handle and does not authorize; present the credential instead",
        );
    }
    match req.params.get("lease") {
        None => Ok(None),
        Some(Json::Null) => Ok(None),
        Some(Json::Str(s)) => if s.as_str().is_empty() {
            Err("invalid lease credential")
        } else {
            Ok(Some(s.clone()))
        },
        Some(_) => Err("invalid lease credential"),
    }
}

/// Refuses a lease on a request of the owner.
pub fn reject_lease_on_human_op(req: &Request) -> (r: Result<(), &'static str>)
    ensures
        match r {
            Ok(_) => lease_objection(
                ops::operation_named(req@.op),
                req@.params,
            ) is None,
            Err(why) => lease_objection(
                ops::operation_named(req@.op),
                req@.params,
            ) == Some(why@),
        },
{
    if !req.params.is_object() {
        return Err("params must be an object");
    }
    if req.params.present("lease") {
        return Err("human operations take no lease; leases narrow agent grants only");
    }
    let targets = match Operation::parse(&req.op) {
        Some(Operation::LeaseRevoke) => true,
        _ => false,
    };
    if !targets && req.params.present("lease_id") {
        return Err("human operations take no lease; leases narrow agent grants only");
    }
    Ok(())
}

/// Reads the selected keys.
pub fn keys_param(params: &Json) -> (r: Result<Option<Vec<String>>, &'static str>)
    ensures
        match r {
            Ok(k) => key_selection(params@) == Ok::<Option<Seq<Seq<char>>>, Seq<char>>(
                opt_texts(k),
            ),
            Err(why) => key_selection(params@) == Err::<Option<Seq<Seq<char>>>, Seq<char>>(why@),
        },
{
    match params.get("keys") {
        None => Ok(None),
        Some(Json::Null) => Ok(None),
        Some(Json::Array(items)) => {
            let ghost all = params@.at("keys"@)->Array_0;
            let mut out: Vec<String> = Vec::new();
            let mut i: usize = 0;
            while i < items.len()
                invariant
                    i <= items@.len(),
                    out@.len() == i,
                    all.len() == items@.len(),
                    params@.at("keys"@) == JsonV::Array(all),
                    forall|k: int| 0 <= k < all.len() ==> #[trigger] all[k] == items@[k]@,
                    forall|k: int|
                        0 <= k < i ==> #[trigger] all[k] == JsonV::Str(out@[k]@),
                decreases items@.len() - i,
            {
                match &items[i] {
                    Json::Str(s) => out.push(s.clone()),
                    _ => {
                        assert(!(all[i as int] is Str));
                        return Err("keys must be an array of strings");
                    },
                }
                i = i + 1;
            }
            proof {
                assert(text::texts(out@) =~= Seq::new(all.len(), |i: int| all[i]->Str_0));
            }
            Ok(Some(out))
        },
        Some(_) => Err("keys must be an array of strings"),
    }
}

/// Reads the name and the folders of a new project.
pub fn project_params(req: &Request) -> (r: Option<(String, Vec<String>)>)
    ensures
        match r {
            Some((name, paths)) => project_of(req@.params) == Some((name@, text::texts(paths@))),
            None => project_of(req@.params) is None,
        },
{
    let name = match req.params.text_at("name") {
        Some(n) => n.to_string(),
        None => {
            return None;
        },
    };
    let mut out: Vec<String> = Vec::new();
    match req.params.get("paths") {
        Some(Json::Array(items)) => {
            let ghost all = req.params@.at("paths"@)->Array_0;
            let mut i: usize = 0;
            while i < items.len()
                invariant
                    i <= items@.len(),
                    all.len() == items@.len(),
                    forall|k: int| 0 <= k < all.len() ==> #[trigger] all[k] == items@[k]@,
                    text::texts(out@) == only_texts(all.take(i as int)),
                decreases items@.len() - i,
            {
                let ghost before = out@;
                proof {
                    assert(all.take(i + 1).drop_last() =~= all.take(i as int));
                    assert(all.take(i + 1).last() == all[i as int]);
                }
                match &items[i] {
                    Json::Str(s) => {
                        out.push(s.clone());
                        proof {
                            assert(text::texts(out@) =~= text::texts(before).push(s@));
                        }
                    },
                    _ => {},
                }
                i = i + 1;
            }
            proof {
                assert(all.take(all.len() as int) =~= all);
            }
        },
        _ => {
            proof {
                assert(text::texts(out@) =~= Seq::<Seq<char>>::empty());
            }
        },
    }
    Some((name, out))
}

/// A malformed selection of keys is never read as "every secret".
pub proof fn law_malformed_keys_are_not_all_keys(params: JsonV)
    ensures
        key_selection(params) == Ok::<Option<Seq<Seq<char>>>, Seq<char>>(None) <==> params.at(
            "keys"@,
        ) is Null,
{
}

/// A lease named by the owner is refused, wherever it is not what the
/// operation acts on; the credential form is refused without exception.
pub proof fn law_owner_never_ignores_a_lease(op: Option<Operation>, params: JsonV)
    ensures
        !(params.at("lease"@) is Null) ==> lease_objection(op, params) is Some,
        !(params.at("lease_id"@) is Null) && op != Some(Operation::LeaseRevoke)
            ==> lease_objection(op, params) is Some,
{
}

/// A lease handle never stands in for a lease credential.
pub proof fn law_handle_never_authorizes(params: JsonV)
    ensures
        !(params.at("lease_id"@) is Null) ==> lease_credential(params) is Err,
        lease_credential(params) matches Ok(Some(c)) ==> c.len() > 0 && params.at("lease"@)
            == JsonV::Str(c),
{
}

} // verus!
