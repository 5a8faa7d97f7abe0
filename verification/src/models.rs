//! The two persistent records.
//!
//! Invitees are pre-registered by an outside process and read-only here; a
//! confirmation records one invitee's attendance decision and is keyed by the
//! invitee's id.

use vstd::prelude::*;

verus! {

/// An invitee on the guest list.
pub struct Convidados {
    /// The unique, externally generated id.
    pub id: i32,
    /// The stored name, matched case-insensitively.
    pub name: String,
}

impl Clone for Convidados {
    /// A clone keeps the id and the name.
    fn clone(&self) -> (res: Self)
        ensures
            res == *self,
    {
        Convidados { id: self.id, name: self.name.clone() }
    }
}

/// An invitee's recorded attendance decision.
#[derive(Clone, Copy, Debug, PartialEq, Eq, Structural)]
pub struct Confirmacao {
    /// The id of the invitee the decision belongs to.
    pub id_convidado: i32,
    /// Whether the invitee will attend.
    pub estara_presente: bool,
}

} // verus!
