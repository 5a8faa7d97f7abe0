//! End-to-end tests of the confirmation resolver against an in-memory store.

use rsvp::http::{cors_headers, preflight_status, status_of_response};
use rsvp::models::{Confirmacao, Convidados};
use rsvp::resolver::{
    confirmation_options, handle_confirmation, resolve_lookup, resolve_lookup_outcome,
    resolve_persist, ConfirmationInput, Response,
};
use rsvp::store::Store;

const NOT_FOUND_BODY: &str =
    "{ \"response\": \"Não foi encontrado nenhum convidado com este nome!\"  }";

fn store_with(convidados: Vec<(i32, &str)>) -> Store {
    Store {
        convidados: convidados
            .into_iter()
            .map(|(id, name)| Convidados { id, name: name.to_string() })
            .collect(),
        confirmacoes: Vec::new(),
    }
}

fn confirm(store: &mut Store, guest_name: &str, will_attend: bool) -> Response {
    let input = ConfirmationInput { guest_name: guest_name.to_string(), will_attend };
    handle_confirmation(store, &input)
}

#[test]
fn lookup_is_case_insensitive() {
    let store = store_with(vec![(7, "Alice")]);
    for query in ["alice", "ALICE", "Alice", "aLiCe"] {
        let found = store.is_guest_invited(&query.to_string());
        match found {
            Some(inv) => {
                assert_eq!(inv.id, 7);
                assert_eq!(inv.name, "Alice");
            }
            None => panic!("{query} should match Alice"),
        }
    }
}

#[test]
fn some_matching_invitee_is_returned() {
    // Which of several same-named invitees comes back is left open; it must
    // only be one of those that match.
    let store = store_with(vec![(1, "Alice"), (2, "ALICE"), (3, "Bob")]);
    let found = store.is_guest_invited(&"alice".to_string()).unwrap();
    assert!(found.id == 1 || found.id == 2);
    assert!(found.name.eq_ignore_ascii_case("alice"));
}

#[test]
fn lookup_misses_on_other_names() {
    let store = store_with(vec![(1, "Alice")]);
    assert!(store.is_guest_invited(&"Alicia".to_string()).is_none());
    assert!(store.is_guest_invited(&"Alic".to_string()).is_none());
    assert!(store.is_guest_invited(&"".to_string()).is_none());
}

#[test]
fn lookup_on_an_empty_list_misses() {
    let store = store_with(vec![]);
    assert!(store.is_guest_invited(&"Alice".to_string()).is_none());
}

#[test]
fn punctuation_and_digits_stand_for_themselves() {
    let store = store_with(vec![(3, "Ana-Maria 2")]);
    assert!(store.is_guest_invited(&"ana-maria 2".to_string()).is_some());
    assert!(store.is_guest_invited(&"ana_maria 2".to_string()).is_none());
}

#[test]
fn unknown_guest_is_not_found_either_way() {
    let mut store = store_with(vec![(1, "Maria")]);
    for will_attend in [true, false] {
        match confirm(&mut store, "Nobody", will_attend) {
            Response::NotFound(body) => assert_eq!(body, NOT_FOUND_BODY),
            _ => panic!("an unknown guest must be answered not-found"),
        }
    }
    assert!(store.confirmacoes.is_empty());
}

#[test]
fn not_found_response_maps_to_404() {
    let mut store = store_with(vec![]);
    let response = confirm(&mut store, "Nobody", true);
    assert_eq!(status_of_response(&response), 404);
}

#[test]
fn confirming_a_new_guest_inserts_one_row() {
    let mut store = store_with(vec![(1, "Maria")]);
    match confirm(&mut store, "MARIA", true) {
        Response::Confirmed(body) => assert_eq!(body, ""),
        _ => panic!("a listed guest must be confirmed"),
    }
    assert_eq!(store.confirmacoes.len(), 1);
    assert_eq!(store.confirmacoes[0].id_convidado, 1);
    assert!(store.confirmacoes[0].estara_presente);
}

#[test]
fn confirmed_response_maps_to_204() {
    let mut store = store_with(vec![(1, "Maria")]);
    let response = confirm(&mut store, "Maria", true);
    assert_eq!(status_of_response(&response), 204);
}

#[test]
fn confirming_again_updates_in_place() {
    let mut store = store_with(vec![(1, "Maria")]);
    confirm(&mut store, "Maria", true);
    match confirm(&mut store, "Maria", false) {
        Response::Confirmed(body) => assert_eq!(body, ""),
        _ => panic!("a listed guest must be confirmed"),
    }
    assert_eq!(store.confirmacoes.len(), 1);
    assert_eq!(store.confirmacoes[0], Confirmacao { id_convidado: 1, estara_presente: false });
}

#[test]
fn last_write_wins_across_cases() {
    let mut store = store_with(vec![(1, "Maria")]);
    confirm(&mut store, "maria", false);
    confirm(&mut store, "MARIA", true);
    assert_eq!(store.confirmacoes.len(), 1);
    assert!(store.confirmacoes[0].estara_presente);
}

#[test]
fn distinct_guests_get_distinct_rows() {
    let mut store = store_with(vec![(1, "Maria"), (2, "João")]);
    confirm(&mut store, "Maria", true);
    confirm(&mut store, "João", false);
    assert_eq!(store.confirmacoes.len(), 2);
    assert_eq!(store.confirmacoes[0], Confirmacao { id_convidado: 1, estara_presente: true });
    assert_eq!(store.confirmacoes[1], Confirmacao { id_convidado: 2, estara_presente: false });
}

#[test]
fn lookup_step_passes_the_id_on() {
    let invitee = Convidados { id: 9, name: "Maria".to_string() };
    match resolve_lookup(Some(invitee)) {
        Ok(id) => assert_eq!(id, 9),
        Err(_) => panic!("a found invitee goes on to the upsert"),
    }
}

#[test]
fn lookup_step_answers_not_found() {
    match resolve_lookup(None) {
        Err(Response::NotFound(body)) => assert_eq!(body, NOT_FOUND_BODY),
        _ => panic!("no invitee must end in the not-found response"),
    }
}

#[test]
fn lookup_outcome_passes_the_answer_on() {
    let invitee = Convidados { id: 4, name: "Rui".to_string() };
    match resolve_lookup_outcome(Ok(Some(invitee))) {
        Ok(id) => assert_eq!(id, 4),
        Err(_) => panic!("a found invitee goes on to the upsert"),
    }
    match resolve_lookup_outcome(Ok(None)) {
        Err(Response::NotFound(body)) => assert_eq!(body, NOT_FOUND_BODY),
        _ => panic!("no invitee must end in the not-found response"),
    }
}

#[test]
fn lookup_failure_carries_the_diagnostic() {
    match resolve_lookup_outcome(Err("connection refused".to_string())) {
        Err(Response::Unexpected(body)) => {
            assert_eq!(body, "Um erro inesperado ocorreu: connection refused");
        }
        _ => panic!("a lookup-stage failure must be answered unexpected"),
    }
}

#[test]
fn upsert_success_is_confirmed_with_an_empty_body() {
    match resolve_persist(Ok(1)) {
        Response::Confirmed(body) => assert_eq!(body, ""),
        _ => panic!("a successful upsert must be confirmed"),
    }
}

#[test]
fn storage_failure_carries_the_diagnostic() {
    let response = resolve_persist(Err("connection refused".to_string()));
    match &response {
        Response::Unexpected(body) => {
            assert_eq!(body, "Um erro inesperado ocorreu: connection refused");
        }
        _ => panic!("a storage failure must be answered unexpected"),
    }
    assert_eq!(status_of_response(&response), 500);
}

#[test]
fn preflight_is_answered_200_with_open_origin() {
    assert_eq!(preflight_status(true, 404), 200);
    assert_eq!(preflight_status(true, 500), 200);
    assert_eq!(preflight_status(false, 204), 204);
    let headers = cors_headers();
    assert!(headers.contains(&("Access-Control-Allow-Origin".to_string(), "*".to_string())));
}

#[test]
fn every_response_carries_the_permissive_headers() {
    let headers = cors_headers();
    let expected = [
        ("Access-Control-Allow-Origin", "*"),
        ("Access-Control-Allow-Methods", "POST, OPTIONS"),
        ("Access-Control-Allow-Headers", "*"),
        ("Access-Control-Allow-Credentials", "true"),
    ];
    assert_eq!(headers.len(), expected.len());
    for (got, want) in headers.iter().zip(expected.iter()) {
        assert_eq!(got.0, want.0);
        assert_eq!(got.1, want.1);
    }
}

#[test]
fn the_preflight_route_has_an_empty_body() {
    assert_eq!(confirmation_options(), "");
}
