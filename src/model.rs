use vstd::prelude::*;

verus! {

/// The authenticated user, as returned by `GET /profiles/me`.
#[derive(Clone, Debug, PartialEq, Eq)]
pub struct Profile {
    pub id: i64,
    pub name: String,
}

/// The person that a visit belongs to.
#[derive(Clone, Debug, PartialEq, Eq)]
pub struct VisitPerson {
    pub id: i64,
    pub name: String,
}

/// One person's presence record for one calendar date (`YYYY-MM-DD`).
#[derive(Clone, Debug, PartialEq, Eq)]
pub struct HubVisit {
    pub date: String,
    pub notes: Option<String>,
    pub person: VisitPerson,
}

/// The ways in which an operation can fail.
#[derive(Clone, Debug, PartialEq, Eq)]
pub enum ApiError {
    /// The request could not be sent, or no response came back.
    Network(String),
    /// A response came back with a status outside 2xx.
    Api(u16),
    /// A 2xx response body did not have the expected shape.
    Parse(String),
    /// An input was rejected before any request was made.
    Validation(String),
}

} // verus!
