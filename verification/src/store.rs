//! The storage model.
//!
//! A [`Store`] holds what the two tables hold: the invitee list and the
//! confirmation rows.  Its invariant is the one the schema promises — at most
//! one confirmation row per invitee — and its two operations are the two the
//! service needs: find an invitee by a case-insensitive name match, and
//! insert-or-update a confirmation keyed by the invitee's id.

use vstd::prelude::*;

use crate::models::{Confirmacao, Convidados};
use crate::names::{names_match, str_names_match};

verus! {

/// The confirmation rows read as a map from invitee id to attendance
/// decision.  Later rows win, which is immaterial under [`unique_ids`].
pub open spec fn conf_map(s: Seq<Confirmacao>) -> Map<int, bool>
    decreases s.len(),
{
    if s.len() == 0 {
        Map::empty()
    } else {
        conf_map(s.drop_last()).insert(s.last().id_convidado as int, s.last().estara_presente)
    }
}

/// How many confirmation rows carry the given invitee id.
pub open spec fn count_for(s: Seq<Confirmacao>, id: int) -> nat
    decreases s.len(),
{
    if s.len() == 0 {
        0
    } else {
        count_for(s.drop_last(), id) + if s.last().id_convidado as int == id {
            1nat
        } else {
            0nat
        }
    }
}

/// At most one confirmation row per invitee.
pub open spec fn unique_ids(s: Seq<Confirmacao>) -> bool {
    forall|i: int, j: int|
        0 <= i < j < s.len() ==> s[i].id_convidado != s[j].id_convidado
}

/// Whether an invitee's stored name matches the query under the fold.
pub open spec fn matches_query(inv: Convidados, name: Seq<char>) -> bool {
    names_match(inv.name@, name)
}

/// Whether any invitee on the list matches the query.
pub open spec fn has_match(s: Seq<Convidados>, name: Seq<char>) -> bool {
    exists|i: int| 0 <= i < s.len() && matches_query(s[i], name)
}

/// A sequence with no row for `id` counts no row for `id`.
proof fn lemma_count_absent(s: Seq<Confirmacao>, id: int)
    requires
        forall|i: int| 0 <= i < s.len() ==> s[i].id_convidado as int != id,
    ensures
        count_for(s, id) == 0,
    decreases s.len(),
{
    if s.len() > 0 {
        lemma_count_absent(s.drop_last(), id);
    }
}

/// Under the invariant, the row at `i` is the only one with its id.
proof fn lemma_count_present(s: Seq<Confirmacao>, i: int)
    requires
        unique_ids(s),
        0 <= i < s.len(),
    ensures
        count_for(s, s[i].id_convidado as int) == 1,
    decreases s.len(),
{
    let id = s[i].id_convidado as int;
    if i == s.len() - 1 {
        assert(forall|j: int|
            0 <= j < s.drop_last().len() ==> s.drop_last()[j].id_convidado as int != id);
        lemma_count_absent(s.drop_last(), id);
    } else {
        lemma_count_present(s.drop_last(), i);
    }
}

/// Replacing row `i` by one with the same id leaves every count unchanged.
proof fn lemma_count_update(s: Seq<Confirmacao>, i: int, c: Confirmacao, id: int)
    requires
        0 <= i < s.len(),
        s[i].id_convidado == c.id_convidado,
    ensures
        count_for(s.update(i, c), id) == count_for(s, id),
    decreases s.len(),
{
    let t = s.update(i, c);
    if i == s.len() - 1 {
        assert(t.drop_last() =~= s.drop_last());
    } else {
        assert(t.drop_last() =~= s.drop_last().update(i, c));
        lemma_count_update(s.drop_last(), i, c, id);
    }
}

/// Appending a row adds one to its own id's count and nothing to any other.
proof fn lemma_count_push(s: Seq<Confirmacao>, c: Confirmacao, id: int)
    ensures
        count_for(s.push(c), id) == count_for(s, id) + if c.id_convidado as int == id {
            1nat
        } else {
            0nat
        },
{
    assert(s.push(c).drop_last() =~= s);
}

/// Replacing row `i` by one with the same id rewrites that id's entry of the
/// confirmation map and nothing else.
proof fn lemma_conf_map_update(s: Seq<Confirmacao>, i: int, c: Confirmacao)
    requires
        unique_ids(s),
        0 <= i < s.len(),
        s[i].id_convidado == c.id_convidado,
    ensures
        conf_map(s.update(i, c)) == conf_map(s).insert(
            c.id_convidado as int,
            c.estara_presente,
        ),
    decreases s.len(),
{
    let t = s.update(i, c);
    let id = c.id_convidado as int;
    if i == s.len() - 1 {
        assert(t.drop_last() =~= s.drop_last());
        assert(conf_map(s.drop_last()).insert(id, c.estara_presente) =~= conf_map(
            s.drop_last(),
        ).insert(id, s.last().estara_presente).insert(id, c.estara_presente));
    } else {
        assert(t.drop_last() =~= s.drop_last().update(i, c));
        lemma_conf_map_update(s.drop_last(), i, c);
        let last = s.last();
        assert(t.last() == last);
        assert(last.id_convidado as int != id);
        assert(conf_map(s.drop_last()).insert(id, c.estara_presente).insert(
            last.id_convidado as int,
            last.estara_presente,
        ) =~= conf_map(s.drop_last()).insert(
            last.id_convidado as int,
            last.estara_presente,
        ).insert(id, c.estara_presente));
    }
}

/// Appending a row adds its id's entry to the confirmation map.
proof fn lemma_conf_map_push(s: Seq<Confirmacao>, c: Confirmacao)
    ensures
        conf_map(s.push(c)) == conf_map(s).insert(c.id_convidado as int, c.estara_presente),
{
    assert(s.push(c).drop_last() =~= s);
}

/// The confirmation map is faithful to the rows: an id is in the map exactly
/// when some row carries it.
pub proof fn lemma_conf_map_contains(s: Seq<Confirmacao>, id: int)
    ensures
        conf_map(s).contains_key(id) <==> exists|i: int|
            0 <= i < s.len() && s[i].id_convidado as int == id,
    decreases s.len(),
{
    if s.len() > 0 {
        let dl = s.drop_last();
        lemma_conf_map_contains(dl, id);
        if s.last().id_convidado as int == id {
            assert(s[s.len() - 1].id_convidado as int == id);
        } else {
            if conf_map(dl).contains_key(id) {
                let i = choose|i: int| 0 <= i < dl.len() && dl[i].id_convidado as int == id;
                assert(s[i].id_convidado as int == id);
            }
            if exists|i: int| 0 <= i < s.len() && s[i].id_convidado as int == id {
                let i = choose|i: int| 0 <= i < s.len() && s[i].id_convidado as int == id;
                assert(i < s.len() - 1);
                assert(dl[i].id_convidado as int == id);
            }
        }
    }
}

/// Under the invariant, the mapped value of a row's id is that row's value.
pub proof fn lemma_conf_map_value(s: Seq<Confirmacao>, i: int)
    requires
        unique_ids(s),
        0 <= i < s.len(),
    ensures
        conf_map(s).contains_key(s[i].id_convidado as int),
        conf_map(s)[s[i].id_convidado as int] == s[i].estara_presente,
    decreases s.len(),
{
    if i < s.len() - 1 {
        lemma_conf_map_value(s.drop_last(), i);
        assert(s.last().id_convidado as int != s[i].id_convidado as int);
    }
}

/// The store: the invitee list (read-only here) and the confirmation rows.
pub struct Store {
    /// The invitee list, populated by an outside process.
    pub convidados: Vec<Convidados>,
    /// The confirmation rows, at most one per invitee.
    pub confirmacoes: Vec<Confirmacao>,
}

impl Store {
    /// The store's invariant: at most one confirmation row per invitee.
    pub open spec fn wf(self) -> bool {
        unique_ids(self.confirmacoes@)
    }

    /// Look a guest up by a case-insensitive name match.  Some invitee comes
    /// back exactly when one matches, and whatever comes back is on the list
    /// with a matching name; when several invitees share a folded name,
    /// which of them comes back is left open, as the store leaves it open.
    pub fn is_guest_invited(&self, guest_name: &String) -> (r: Option<Convidados>)
        ensures
            r is Some <==> has_match(self.convidados@, guest_name@),
            r matches Some(inv) ==> self.convidados@.contains(inv) && matches_query(
                inv,
                guest_name@,
            ),
    {
        let n = self.convidados.len();
        let mut i: usize = 0;
        while i < n
            invariant
                i <= n,
                n == self.convidados@.len(),
                forall|j: int| 0 <= j < i ==> !matches_query(self.convidados@[j], guest_name@),
            decreases n - i,
        {
            if str_names_match(self.convidados[i].name.as_str(), guest_name.as_str()) {
                let found = self.convidados[i].clone();
                proof {
                    assert(matches_query(self.convidados@[i as int], guest_name@));
                    assert(self.convidados@[i as int] == found);
                }
                return Some(found);
            }
            i += 1;
        }
        assert(!has_match(self.convidados@, guest_name@));
        None
    }

    /// Record an invitee's decision: update the invitee's confirmation row in
    /// place if one exists, insert a fresh row otherwise.  Either way exactly
    /// one row is written, the invitee ends up with exactly one row carrying
    /// the new decision, and no other invitee's rows change.
    pub fn persist_confirmation(&mut self, guest_id: i32, will_attend: bool) -> (n: usize)
        requires
            old(self).wf(),
        ensures
            final(self).wf(),
            final(self).convidados@ == old(self).convidados@,
            conf_map(final(self).confirmacoes@) == conf_map(old(self).confirmacoes@).insert(
                guest_id as int,
                will_attend,
            ),
            count_for(final(self).confirmacoes@, guest_id as int) == 1,
            forall|id: int|
                id != guest_id as int ==> count_for(final(self).confirmacoes@, id) == count_for(
                    old(self).confirmacoes@,
                    id,
                ),
            n == 1,
    {
        let ghost s0 = self.confirmacoes@;
        let row = Confirmacao { id_convidado: guest_id, estara_presente: will_attend };
        let len = self.confirmacoes.len();
        let mut i: usize = 0;
        while i < len
            invariant
                i <= len,
                len == self.confirmacoes@.len(),
                self.convidados@ == old(self).convidados@,
                self.confirmacoes@ == s0,
                s0 == old(self).confirmacoes@,
                unique_ids(s0),
                row.id_convidado == guest_id,
                row.estara_presente == will_attend,
                forall|j: int| 0 <= j < i ==> s0[j].id_convidado != guest_id,
            decreases len - i,
        {
            if self.confirmacoes[i].id_convidado == guest_id {
                self.confirmacoes[i] = row;
                proof {
                    let t = self.confirmacoes@;
                    assert(t == s0.update(i as int, row));
                    assert(unique_ids(t)) by {
                        assert(forall|k: int|
                            0 <= k < t.len() ==> t[k].id_convidado == s0[k].id_convidado);
                    }
                    lemma_conf_map_update(s0, i as int, row);
                    lemma_count_update(s0, i as int, row, guest_id as int);
                    lemma_count_present(s0, i as int);
                    assert forall|id: int| id != guest_id as int implies count_for(t, id)
                        == count_for(s0, id) by {
                        lemma_count_update(s0, i as int, row, id);
                    }
                }
                return 1;
            }
            i += 1;
        }
        self.confirmacoes.push(row);
        proof {
            let t = self.confirmacoes@;
            assert(t == s0.push(row));
            assert(unique_ids(t)) by {
                assert(forall|k: int| 0 <= k < s0.len() ==> t[k] == s0[k]);
                assert(t[t.len() - 1] == row);
            }
            lemma_conf_map_push(s0, row);
            lemma_count_absent(s0, guest_id as int);
            lemma_count_push(s0, row, guest_id as int);
            assert forall|id: int| id != guest_id as int implies count_for(t, id) == count_for(
                s0,
                id,
            ) by {
                lemma_count_push(s0, row, id);
            }
        }
        1
    }
}

/// Matching is case-insensitive in the query: two queries that fold alike
/// are matched by exactly the same invitees, so one has a match on a list
/// exactly when the other does.
pub proof fn lemma_match_case_insensitive(s: Seq<Convidados>, a: Seq<char>, b: Seq<char>)
    requires
        names_match(a, b),
    ensures
        forall|inv: Convidados| #[trigger] matches_query(inv, a) == matches_query(inv, b),
        has_match(s, a) == has_match(s, b),
{
    if has_match(s, a) {
        let i = choose|i: int| 0 <= i < s.len() && matches_query(s[i], a);
        assert(matches_query(s[i], b));
    }
    if has_match(s, b) {
        let i = choose|i: int| 0 <= i < s.len() && matches_query(s[i], b);
        assert(matches_query(s[i], a));
    }
}

/// Last write wins: when one decision and then another are recorded for the
/// same invitee — each step related to the one before it as
/// [`Store::persist_confirmation`] promises — the invitee ends up with
/// exactly one confirmation row, and it holds the second decision.
pub proof fn lemma_last_write_wins(
    first: Store,
    second: Store,
    third: Store,
    guest_id: i32,
    v1: bool,
    v2: bool,
)
    requires
        first.wf(),
        second.wf(),
        third.wf(),
        conf_map(second.confirmacoes@) == conf_map(first.confirmacoes@).insert(
            guest_id as int,
            v1,
        ),
        conf_map(third.confirmacoes@) == conf_map(second.confirmacoes@).insert(
            guest_id as int,
            v2,
        ),
    ensures
        count_for(third.confirmacoes@, guest_id as int) == 1,
        forall|i: int|
            0 <= i < third.confirmacoes@.len() && third.confirmacoes@[i].id_convidado == guest_id
                ==> third.confirmacoes@[i].estara_presente == v2,
        exists|i: int|
            0 <= i < third.confirmacoes@.len() && third.confirmacoes@[i].id_convidado == guest_id,
{
    let t = third.confirmacoes@;
    let id = guest_id as int;
    assert(conf_map(t).contains_key(id));
    lemma_conf_map_contains(t, id);
    let w = choose|i: int| 0 <= i < t.len() && t[i].id_convidado as int == id;
    lemma_count_present(t, w);
    assert forall|i: int|
        0 <= i < t.len() && t[i].id_convidado == guest_id implies t[i].estara_presente == v2 by {
        lemma_conf_map_value(t, i);
    }
    assert(t[w].id_convidado == guest_id);
}

} // verus!
