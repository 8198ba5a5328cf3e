use vstd::prelude::*;
use crate::model::{HubVisit, Profile};
use crate::request::{delete_model, optional_text, upsert_model, visit_model, ApiClient, ApiRequest};

verus! {

/// Whether a check-in writes the visit: always when notes are given, and otherwise
/// only when no visit exists yet for the date.
pub open spec fn writes_visit(has_existing: bool, has_notes: bool) -> bool {
    !has_existing || has_notes
}

/// What a check-in does once it knows whether a visit already exists.
#[derive(Clone, Debug, PartialEq, Eq)]
pub enum CheckinNext {
    /// A visit exists and there is nothing new to write: report it and stop.
    AlreadyCheckedIn(HubVisit),
    /// Send this create-or-update request and report the visit it returns.
    Write(ApiRequest),
}

/// The notes as they are shown: absent and empty notes are not shown.
pub fn visible_notes(notes: &Option<String>) -> (r: Option<String>)
    ensures
        r is Some <==> (notes is Some && notes->0@.len() > 0),
        r matches Some(n) ==> n@ == notes->0@,
{
    match notes {
        Some(n) => {
            if n.as_str().is_empty() {
                None
            } else {
                Some(n.clone())
            }
        },
        None => None,
    }
}

impl ApiClient {
    /// The first request of a check-in once the user is known: the removal of the
    /// user's visit for the date, or else the lookup of it.
    pub fn checkin_first_request(&self, me: &Profile, date: &str, remove: bool) -> (r: ApiRequest)
        ensures
            remove ==> r@ == delete_model(self.token(), me.id as int, date@),
            !remove ==> r@ == visit_model(self.token(), me.id as int, date@),
    {
        if remove {
            self.delete_request(me.id, date)
        } else {
            self.visit_request(me.id, date)
        }
    }

    /// The step of a check-in after the lookup: stop at a visit that exists when no
    /// notes are given, else write the visit, with the notes if there are any.
    pub fn checkin_after_lookup(
        &self,
        me: &Profile,
        date: &str,
        existing: Option<HubVisit>,
        notes: Option<&str>,
    ) -> (r: CheckinNext)
        ensures
            !writes_visit(existing is Some, notes is Some) ==> r == CheckinNext::AlreadyCheckedIn(
                existing->0,
            ),
            writes_visit(existing is Some, notes is Some) ==> (r matches CheckinNext::Write(req)
                && req@ == upsert_model(self.token(), me.id as int, date@, optional_text(notes))),
    {
        if notes.is_none() {
            if let Some(v) = existing {
                return CheckinNext::AlreadyCheckedIn(v);
            }
        }
        CheckinNext::Write(self.create_or_update_request(me.id, date, notes))
    }
}

} // verus!
