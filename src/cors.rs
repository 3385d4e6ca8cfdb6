use vstd::prelude::*;

verus! {

/// The cross-origin headers added to every response.
pub struct CORS();

pub const CORS_NAME: &'static str = "Add CORS headers to requests";

pub const WILDCARD: &'static str = "*";

pub const ALLOW_ORIGIN: &'static str = "Access-Control-Allow-Origin";

pub const ALLOW_METHODS: &'static str = "Access-Control-Allow-Methods";

pub const ALLOW_HEADERS: &'static str = "Access-Control-Allow-Headers";

pub const ALLOW_CREDENTIALS: &'static str = "Access-Control-Allow-Credentials";

pub const METHODS: &'static str = "POST, GET, PATCH, OPTIONS";

pub const TRUE: &'static str = "true";

/// The headers, in order, for responses to pages served to `origin`.
pub open spec fn cors_headers(origin: Seq<char>) -> Seq<(Seq<char>, Seq<char>)> {
    seq![
        (ALLOW_ORIGIN@, origin),
        (ALLOW_METHODS@, METHODS@),
        (ALLOW_HEADERS@, WILDCARD@),
        (ALLOW_CREDENTIALS@, TRUE@),
    ]
}

fn header(name: &str, value: &str) -> (r: (String, String))
    ensures
        r.0@ == name@,
        r.1@ == value@,
{
    (String::from_str(name), String::from_str(value))
}

impl CORS {
    /// The name under which the headers are registered.
    pub fn name(&self) -> (r: &'static str)
        ensures
            r@ == CORS_NAME@,
    {
        CORS_NAME
    }

    /// The origin that is allowed: the configured one, or any.
    pub fn allowed_origin(configured: Option<String>) -> (r: String)
        ensures
            r@ == match configured {
                Some(o) => o@,
                None => WILDCARD@,
            },
    {
        match configured {
            Some(o) => o,
            None => String::from_str(WILDCARD),
        }
    }

    /// The headers, as name and value, that allow `origin` to use the
    /// service.
    pub fn headers(&self, origin: &str) -> (r: Vec<(String, String)>)
        ensures
            r@.map_values(|h: (String, String)| (h.0@, h.1@)) == cors_headers(origin@),
    {
        let r = vec![
            header(ALLOW_ORIGIN, origin),
            header(ALLOW_METHODS, METHODS),
            header(ALLOW_HEADERS, WILDCARD),
            header(ALLOW_CREDENTIALS, TRUE),
        ];
        proof {
            assert(r@.map_values(|h: (String, String)| (h.0@, h.1@)) =~= cors_headers(origin@));
        }
        r
    }
}

} // verus!
