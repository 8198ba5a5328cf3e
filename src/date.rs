use vstd::prelude::*;
use vstd::string::*;
use chrono::Datelike;
use crate::model::ApiError;

verus! {

#[verifier::external_type_specification]
#[verifier::external_body]
pub struct ExDateParseError(chrono::ParseError);

/// The calendar date (year, month, day) that chrono reads from a text in a format,
/// if it reads one.
pub uninterp spec fn parsed_date(s: Seq<char>, fmt: Seq<char>) -> Option<(i32, u32, u32)>;

/// Relies on chrono::NaiveDate::parse_from_str: whether the text reads as a valid
/// calendar date in the format, and which one, depends on the two texts alone.
#[verifier::external_body]
fn parse_date(s: &str, fmt: &str) -> (r: Result<(i32, u32, u32), chrono::ParseError>)
    ensures
        r is Ok <==> parsed_date(s@, fmt@) is Some,
        r matches Ok(t) ==> parsed_date(s@, fmt@) == Some(t),
{
    chrono::NaiveDate::parse_from_str(s, fmt).map(|d| (d.year(), d.month(), d.day()))
}

/// The format of every date the service takes.
pub const DATE_FORMAT: &'static str = "%Y-%m-%d";

/// A text that reads as a calendar date written `YYYY-MM-DD`.
pub open spec fn is_valid_date(s: Seq<char>) -> bool {
    parsed_date(s, "%Y-%m-%d"@) is Some
}

/// The date an operation is for: the one given, else today's.
pub open spec fn resolved_date(date: Option<Seq<char>>, today: Seq<char>) -> Seq<char> {
    match date {
        Some(d) => d,
        None => today,
    }
}

/// Picks the given date, or today's when none is given.
pub fn resolve_date(date: Option<String>, today: String) -> (r: String)
    ensures
        r@ == resolved_date(
            match date {
                Some(d) => Some(d@),
                None => None,
            },
            today@,
        ),
{
    match date {
        Some(d) => d,
        None => today,
    }
}

/// Accepts a date written `YYYY-MM-DD`, and rejects any other text with a validation error.
pub fn validate_date(date: &str) -> (r: Result<(), ApiError>)
    ensures
        r is Ok <==> is_valid_date(date@),
        r matches Err(e) ==> e is Validation,
{
    match parse_date(date, DATE_FORMAT) {
        Ok(_) => Ok(()),
        Err(_) => Err(ApiError::Validation(String::from_str("Invalid date format. Use YYYY-MM-DD"))),
    }
}

/// The date that a listing of visits is for: the given one or today's, once it has
/// been checked to read as `YYYY-MM-DD`.
pub fn listing_date(date: Option<String>, today: String) -> (r: Result<String, ApiError>)
    ensures
        ({
            let d = resolved_date(
                match date {
                    Some(d) => Some(d@),
                    None => None,
                },
                today@,
            );
            &&& r is Ok <==> is_valid_date(d)
            &&& r matches Ok(s) ==> s@ == d
            &&& r matches Err(e) ==> e is Validation
        }),
{
    let d = resolve_date(date, today);
    match validate_date(d.as_str()) {
        Ok(()) => Ok(d),
        Err(e) => Err(e),
    }
}

} // verus!
