//! The confirmation resolver.
//!
//! A request carries a guest name and an attendance decision.  The resolver
//! looks the guest up by a case-insensitive name match and, when the guest is
//! on the list, records the decision; the outcome is one of confirmed,
//! not-found, or unexpected-error.  The two decision steps are functions of
//! their own, so a caller that reaches a real database can hand each storage
//! result in as a plain value; [`handle_confirmation`] runs the whole
//! resolver against an in-memory [`Store`].

use vstd::prelude::*;

use crate::models::Convidados;
use crate::store::{conf_map, count_for, has_match, matches_query, Store};
use vstd::string::StringExecFns;

verus! {

/// A decoded confirmation request.
pub struct ConfirmationInput {
    /// The guest's name, matched case-insensitively against the list.
    pub guest_name: String,
    /// Whether the guest will attend.
    pub will_attend: bool,
}

/// The outcome of a confirmation request, each variant carrying the body the
/// endpoint answers with.
pub enum Response {
    /// The decision was recorded; the body is empty.
    Confirmed(String),
    /// No invitee matches the guest name; the body says so.
    NotFound(String),
    /// The storage layer failed; the body carries its diagnostic.
    Unexpected(String),
}

/// The body sent when no invitee matches the guest name.
pub open spec fn not_found_body() -> Seq<char> {
    "{ \"response\": \"Não foi encontrado nenhum convidado com este nome!\"  }"@
}

/// The prefix of the diagnostic sent when the storage layer fails.
pub open spec fn unexpected_prefix() -> Seq<char> {
    "Um erro inesperado ocorreu: "@
}

/// The decision after the lookup: a found invitee's id goes on to the
/// upsert; no invitee ends the request with the not-found response,
/// whatever the attendance decision was.
pub fn resolve_lookup(lookup: Option<Convidados>) -> (r: Result<i32, Response>)
    ensures
        match lookup {
            Some(inv) => r matches Ok(id) && id == inv.id,
            None => r matches Err(resp) && resp matches Response::NotFound(body) && body@
                == not_found_body(),
        },
{
    match lookup {
        Some(inv) => Ok(inv.id),
        None => Err(
            Response::NotFound(
                "{ \"response\": \"Não foi encontrado nenhum convidado com este nome!\"  }".to_owned(),
            ),
        ),
    }
}

/// The unexpected-error response for a storage failure's diagnostic.
fn unexpected_response(e: String) -> (r: Response)
    ensures
        r matches Response::Unexpected(body) && body@ == unexpected_prefix() + e@,
{
    Response::Unexpected("Um erro inesperado ocorreu: ".to_owned().concat(e.as_str()))
}

/// The decision after the lookup round trip: a storage failure during
/// connection or query ends the request with the unexpected outcome carrying
/// the failure's diagnostic; an answer from the store decides as
/// [`resolve_lookup`] says.
pub fn resolve_lookup_outcome(lookup: Result<Option<Convidados>, String>) -> (r: Result<
    i32,
    Response,
>)
    ensures
        match lookup {
            Ok(Some(inv)) => r matches Ok(id) && id == inv.id,
            Ok(None) => r matches Err(resp) && resp matches Response::NotFound(body) && body@
                == not_found_body(),
            Err(e) => r matches Err(resp) && resp matches Response::Unexpected(body) && body@
                == unexpected_prefix() + e@,
        },
{
    match lookup {
        Ok(answer) => resolve_lookup(answer),
        Err(e) => Err(unexpected_response(e)),
    }
}

/// The decision after the upsert: success is answered with the confirmed
/// outcome and an empty body, a storage failure with the unexpected outcome
/// carrying the failure's diagnostic.
pub fn resolve_persist(outcome: Result<usize, String>) -> (r: Response)
    ensures
        match outcome {
            Ok(_) => r matches Response::Confirmed(body) && body@ == Seq::<char>::empty(),
            Err(e) => r matches Response::Unexpected(body) && body@ == unexpected_prefix() + e@,
        },
{
    match outcome {
        Ok(_) => Response::Confirmed(String::new()),
        Err(e) => unexpected_response(e),
    }
}

/// The body of the preflight route: empty.
pub fn confirmation_options() -> (r: &'static str)
    ensures
        r@.len() == 0,
{
    proof {
        reveal_strlit("");
    }
    ""
}

/// The whole resolver, run against an in-memory store: look the guest up by
/// a case-insensitive name match; when some invitee matches, record the
/// decision under that invitee's id — the invitee ends up with exactly one
/// confirmation row, holding this request's decision — and answer confirmed
/// with an empty body; when nobody matches, leave the store as it is and
/// answer not-found, whatever the decision was.
pub fn handle_confirmation(store: &mut Store, confirmation: &ConfirmationInput) -> (r: Response)
    requires
        old(store).wf(),
    ensures
        final(store).wf(),
        final(store).convidados@ == old(store).convidados@,
        r is Confirmed <==> has_match(old(store).convidados@, confirmation.guest_name@),
        r matches Response::Confirmed(body) ==> body@ == Seq::<char>::empty(),
        has_match(old(store).convidados@, confirmation.guest_name@) ==> exists|inv: Convidados|
            {
                &&& #[trigger] old(store).convidados@.contains(inv)
                &&& matches_query(inv, confirmation.guest_name@)
                &&& conf_map(final(store).confirmacoes@) == conf_map(
                    old(store).confirmacoes@,
                ).insert(inv.id as int, confirmation.will_attend)
                &&& count_for(final(store).confirmacoes@, inv.id as int) == 1
            },
        !has_match(old(store).convidados@, confirmation.guest_name@) ==> {
            &&& r matches Response::NotFound(body) && body@ == not_found_body()
            &&& final(store).confirmacoes@ == old(store).confirmacoes@
        },
{
    let lookup = store.is_guest_invited(&confirmation.guest_name);
    let ghost answer = lookup;
    match resolve_lookup(lookup) {
        Err(resp) => resp,
        Ok(id) => {
            let n = store.persist_confirmation(id, confirmation.will_attend);
            proof {
                let inv = answer->Some_0;
                assert(old(store).convidados@.contains(inv) && matches_query(
                    inv,
                    confirmation.guest_name@,
                ) && conf_map(store.confirmacoes@) == conf_map(old(store).confirmacoes@).insert(
                    inv.id as int,
                    confirmation.will_attend,
                ) && count_for(store.confirmacoes@, inv.id as int) == 1);
            }
            resolve_persist(Ok(n))
        },
    }
}

} // verus!
