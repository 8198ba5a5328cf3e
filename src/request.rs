use vstd::prelude::*;
use vstd::string::*;
use crate::text::{decimal, decimal_string, digit_char};

verus! {

#[verifier::external_type_specification]
#[verifier::external_body]
pub struct ExJsonError(serde_json::Error);

/// A hexadecimal digit, lower case.
pub open spec fn hex_digit(d: nat) -> char {
    if d < 10 {
        digit_char(d)
    } else if d == 10 {
        'a'
    } else if d == 11 {
        'b'
    } else if d == 12 {
        'c'
    } else if d == 13 {
        'd'
    } else if d == 14 {
        'e'
    } else {
        'f'
    }
}

/// How one character stands inside a JSON string: a quote, a backslash and the
/// control characters are escaped, with a short escape where JSON has one and
/// `\u00xx` otherwise; every other character stands as it is.
pub open spec fn json_escaped_char(c: char) -> Seq<char> {
    if c == '"' {
        seq!['\\', '"']
    } else if c == '\\' {
        seq!['\\', '\\']
    } else if c == '\u{8}' {
        seq!['\\', 'b']
    } else if c == '\t' {
        seq!['\\', 't']
    } else if c == '\n' {
        seq!['\\', 'n']
    } else if c == '\u{c}' {
        seq!['\\', 'f']
    } else if c == '\r' {
        seq!['\\', 'r']
    } else if (c as u32) < 0x20 {
        seq!['\\', 'u', '0', '0', hex_digit((c as u32 / 16) as nat), hex_digit((c as u32 % 16) as nat)]
    } else {
        seq![c]
    }
}

/// The characters of a text, each as it stands inside a JSON string.
pub open spec fn json_escaped(s: Seq<char>) -> Seq<char>
    decreases s.len(),
{
    if s.len() == 0 {
        seq![]
    } else {
        json_escaped(s.drop_last()) + json_escaped_char(s.last())
    }
}

/// The JSON string literal of a text.
pub open spec fn json_string_literal(s: Seq<char>) -> Seq<char> {
    seq!['"'] + json_escaped(s) + seq!['"']
}

/// A character that JSON writes as an escape: a quote, a backslash or a control character.
pub open spec fn needs_json_escape(c: char) -> bool {
    c == '"' || c == '\\' || (c as u32) < 0x20
}

/// Text with no character that JSON escapes.
pub open spec fn is_plain_json_text(s: Seq<char>) -> bool {
    forall|i: int| 0 <= i < s.len() ==> !needs_json_escape(#[trigger] s[i])
}

/// Text with nothing to escape stands in a JSON string as it is.
pub proof fn lemma_plain_text_unescaped(s: Seq<char>)
    requires
        is_plain_json_text(s),
    ensures
        json_escaped(s) == s,
    decreases s.len(),
{
    if s.len() > 0 {
        let front = s.drop_last();
        assert forall|i: int| 0 <= i < front.len() implies !needs_json_escape(#[trigger] front[i]) by {
            assert(front[i] == s[i]);
        }
        lemma_plain_text_unescaped(front);
        assert(!needs_json_escape(s[s.len() - 1]));
        assert(front + seq![s.last()] =~= s);
    }
}

/// Relies on serde_json::to_string applied to a `str`: it writes the text as a JSON
/// string literal into a `Vec<u8>`, which cannot fail, escaping as `ESCAPE` and
/// `write_char_escape` in its serializer do.
#[verifier::external_body]
fn encode_json_string(s: &str) -> (r: Result<String, serde_json::Error>)
    ensures
        r is Ok,
        r matches Ok(q) ==> q@ == json_string_literal(s@),
{
    serde_json::to_string(s)
}

/// The HTTP method of a request.
#[derive(Clone, Copy, Debug, PartialEq, Eq)]
pub enum Method {
    Get,
    Patch,
    Delete,
}

/// An authenticated request, ready to be sent: method, full URL, query pairs,
/// the bearer token, and the JSON body if there is one.
#[derive(Clone, Debug, PartialEq, Eq)]
pub struct ApiRequest {
    pub method: Method,
    pub url: String,
    pub query: Vec<(String, String)>,
    pub bearer: String,
    pub body: Option<String>,
}

/// What a request is, as plain text.
pub struct RequestView {
    pub method: Method,
    pub url: Seq<char>,
    pub query: Seq<(Seq<char>, Seq<char>)>,
    pub bearer: Seq<char>,
    pub body: Option<Seq<char>>,
}

impl View for ApiRequest {
    type V = RequestView;

    open spec fn view(&self) -> RequestView {
        RequestView {
            method: self.method,
            url: self.url@,
            query: self.query@.map_values(|p: (String, String)| (p.0@, p.1@)),
            bearer: self.bearer@,
            body: match self.body {
                Some(b) => Some(b@),
                None => None,
            },
        }
    }
}

/// The root of every resource path.
pub const API_BASE: &'static str = "https://www.recurse.com/api/v1";

pub open spec fn url_of(path: Seq<char>) -> Seq<char> {
    "https://www.recurse.com/api/v1"@ + path
}

pub open spec fn profile_path() -> Seq<char> {
    "/profiles/me"@
}

pub open spec fn visits_path() -> Seq<char> {
    "/hub_visits"@
}

/// The resource of one person's visit on one date.
pub open spec fn visit_path(person_id: int, date: Seq<char>) -> Seq<char> {
    "/hub_visits/"@ + decimal(person_id) + "/"@ + date
}

/// The body of a create-or-update request that sets the notes.
pub open spec fn notes_body(notes: Seq<char>) -> Seq<char> {
    "{\"notes\":"@ + json_string_literal(notes) + "}"@
}

/// The same body, for notes that JSON writes unescaped.
pub open spec fn plain_notes_body(notes: Seq<char>) -> Seq<char> {
    "{\"notes\":\""@ + notes + "\"}"@
}

pub open spec fn optional_text(s: Option<&str>) -> Option<Seq<char>> {
    match s {
        Some(t) => Some(t@),
        None => None,
    }
}

pub open spec fn request_model(
    method: Method,
    token: Seq<char>,
    path: Seq<char>,
    query: Seq<(Seq<char>, Seq<char>)>,
    body: Option<Seq<char>>,
) -> RequestView {
    RequestView { method, url: url_of(path), query, bearer: token, body }
}

pub open spec fn current_user_model(token: Seq<char>) -> RequestView {
    request_model(Method::Get, token, profile_path(), seq![], None)
}

pub open spec fn visit_model(token: Seq<char>, person_id: int, date: Seq<char>) -> RequestView {
    request_model(Method::Get, token, visit_path(person_id, date), seq![], None)
}

pub open spec fn visits_model(token: Seq<char>, date: Seq<char>) -> RequestView {
    request_model(Method::Get, token, visits_path(), seq![("date"@, date)], None)
}

pub open spec fn upsert_model(
    token: Seq<char>,
    person_id: int,
    date: Seq<char>,
    notes: Option<Seq<char>>,
) -> RequestView {
    request_model(
        Method::Patch,
        token,
        visit_path(person_id, date),
        seq![],
        match notes {
            Some(n) => Some(notes_body(n)),
            None => None,
        },
    )
}

pub open spec fn delete_model(token: Seq<char>, person_id: int, date: Seq<char>) -> RequestView {
    request_model(Method::Delete, token, visit_path(person_id, date), seq![], None)
}

/// Creating or updating a visit replaces it: the request is a PATCH of the very
/// resource that the lookup and the removal of the same person and date address, and
/// it carries the whole new notes value and nothing else, so sending it a second time
/// asks for the same final record as the first time.
pub proof fn lemma_create_or_update_replaces(
    token: Seq<char>,
    person_id: int,
    date: Seq<char>,
    notes: Option<Seq<char>>,
)
    ensures
        upsert_model(token, person_id, date, notes).method == Method::Patch,
        upsert_model(token, person_id, date, notes).url == visit_model(token, person_id, date).url,
        upsert_model(token, person_id, date, notes).url == delete_model(token, person_id, date).url,
        upsert_model(token, person_id, date, notes).body == (match notes {
            Some(n) => Some(notes_body(n)),
            None => None::<Seq<char>>,
        }),
        upsert_model(token, person_id, date, notes).bearer == token,
{
}

fn full_url(path: String) -> (r: String)
    ensures
        r@ == url_of(path@),
{
    String::from_str(API_BASE).concat(path.as_str())
}

fn visit_path_string(person_id: i64, date: &str) -> (r: String)
    ensures
        r@ == visit_path(person_id as int, date@),
{
    let p = String::from_str("/hub_visits/").concat(decimal_string(person_id).as_str());
    let p = p.concat("/");
    p.concat(date)
}

fn make_request(method: Method, token: &String, path: String) -> (r: ApiRequest)
    ensures
        r@ == request_model(method, token@, path@, seq![], None),
{
    let r = ApiRequest {
        method,
        url: full_url(path),
        query: Vec::new(),
        bearer: token.clone(),
        body: None,
    };
    assert(r@.query =~= Seq::<(Seq<char>, Seq<char>)>::empty());
    r
}

/// A client bound to one bearer token, which every request it builds carries.
pub struct ApiClient {
    token: String,
}

impl ApiClient {
    /// The bearer token of this client.
    pub closed spec fn token(&self) -> Seq<char> {
        self.token@
    }

    pub fn new(token: String) -> (r: Self)
        ensures
            r.token() == token@,
    {
        ApiClient { token }
    }

    /// `GET /profiles/me`.
    pub fn current_user_request(&self) -> (r: ApiRequest)
        ensures
            r@ == current_user_model(self.token()),
    {
        make_request(Method::Get, &self.token, String::from_str("/profiles/me"))
    }

    /// `GET /hub_visits/{person_id}/{date}`.
    pub fn visit_request(&self, person_id: i64, date: &str) -> (r: ApiRequest)
        ensures
            r@ == visit_model(self.token(), person_id as int, date@),
    {
        make_request(Method::Get, &self.token, visit_path_string(person_id, date))
    }

    /// `GET /hub_visits?date={date}`.
    pub fn visits_request(&self, date: &str) -> (r: ApiRequest)
        ensures
            r@ == visits_model(self.token(), date@),
    {
        let mut r = make_request(Method::Get, &self.token, String::from_str("/hub_visits"));
        r.query = vec![(String::from_str("date"), String::from_str(date))];
        assert(r@.query =~= seq![("date"@, date@)]);
        r
    }

    /// `PATCH /hub_visits/{person_id}/{date}`, with the body `{"notes":...}` when notes
    /// are given and no body otherwise.
    pub fn create_or_update_request(&self, person_id: i64, date: &str, notes: Option<&str>) -> (r:
        ApiRequest)
        ensures
            r@ == upsert_model(self.token(), person_id as int, date@, optional_text(notes)),
            notes is Some && is_plain_json_text(notes->0@) ==> r@.body == Some(
                plain_notes_body(notes->0@),
            ),
    {
        let mut req = make_request(Method::Patch, &self.token, visit_path_string(person_id, date));
        if let Some(n) = notes {
            let q = encode_json_string(n).unwrap();
            let body = String::from_str("{\"notes\":").concat(q.as_str()).concat("}");
            proof {
                if is_plain_json_text(n@) {
                    lemma_plain_text_unescaped(n@);
                    reveal_strlit("{\"notes\":");
                    reveal_strlit("}");
                    reveal_strlit("{\"notes\":\"");
                    reveal_strlit("\"}");
                    assert(notes_body(n@) =~= plain_notes_body(n@));
                }
            }
            req.body = Some(body);
        }
        req
    }

    /// `DELETE /hub_visits/{person_id}/{date}`.
    pub fn delete_request(&self, person_id: i64, date: &str) -> (r: ApiRequest)
        ensures
            r@ == delete_model(self.token(), person_id as int, date@),
    {
        make_request(Method::Delete, &self.token, visit_path_string(person_id, date))
    }
}

} // verus!
