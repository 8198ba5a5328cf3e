//! Client layer for the hub check-in API: builds the authenticated requests for
//! each operation, interprets the responses, and holds the few decisions that a
//! check-in makes. Sending and receiving is left to the caller.

pub mod model;
pub mod text;
pub mod request;
pub mod response;
pub mod date;
pub mod checkin;

pub use checkin::CheckinNext;
pub use model::{ApiError, HubVisit, Profile, VisitPerson};
pub use request::{ApiClient, ApiRequest, Method, API_BASE};
