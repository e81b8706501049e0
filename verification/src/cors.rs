use vstd::prelude::*;

verus! {

/// Adds the CORS headers to every response.
pub struct CORS;

/// A header to set on a response: its name and its value.
pub struct Header {
    pub name: String,
    pub value: String,
}

/// What CORS does to one response.
pub struct CorsResponse {
    /// The status to give the response instead of its own, where any.
    pub status: Option<u16>,
    /// The headers to set, in order.
    pub headers: Vec<Header>,
}

/// The views of a list of headers.
pub open spec fn header_texts(hs: Seq<Header>) -> Seq<(Seq<char>, Seq<char>)> {
    hs.map_values(|h: Header| (h.name@, h.value@))
}

/// The headers that CORS sets on a response: for a pre-flight (`OPTIONS`)
/// request, the allowed methods and headers first; then, for every response,
/// the allowed origin and that credentials are allowed.
pub open spec fn cors_headers(preflight: bool, origin: Seq<char>) -> Seq<(Seq<char>, Seq<char>)> {
    (if preflight {
        seq![
            ("Access-Control-Allow-Methods"@, "POST, PATCH, GET, DELETE"@),
            ("Access-Control-Allow-Headers"@, "*"@),
        ]
    } else {
        Seq::empty()
    }) + seq![
        ("Access-Control-Allow-Origin"@, origin),
        ("Access-Control-Allow-Credentials"@, "true"@),
    ]
}

fn header(name: &str, value: &str) -> (r: Header)
    ensures
        r.name@ == name@,
        r.value@ == value@,
{
    Header { name: String::from_str(name), value: String::from_str(value) }
}

impl CORS {
    /// The name under which the fairing registers.
    pub fn name(&self) -> (r: &'static str)
        ensures
            r@ == "Add CORS headers to responses"@,
    {
        "Add CORS headers to responses"
    }

    /// What to do to a response: a pre-flight request (`OPTIONS`) is answered
    /// with 204 No Content and the allowed methods and headers; every
    /// response allows the origin `allowed_origin` with credentials.
    pub fn on_response(&self, preflight: bool, allowed_origin: &str) -> (r: CorsResponse)
        ensures
            r.status == if preflight {
                Some(204u16)
            } else {
                None::<u16>
            },
            header_texts(r.headers@) == cors_headers(preflight, allowed_origin@),
    {
        let mut headers: Vec<Header> = Vec::new();
        let status = if preflight {
            headers.push(header("Access-Control-Allow-Methods", "POST, PATCH, GET, DELETE"));
            headers.push(header("Access-Control-Allow-Headers", "*"));
            Some(204)
        } else {
            None
        };
        headers.push(header("Access-Control-Allow-Origin", allowed_origin));
        headers.push(header("Access-Control-Allow-Credentials", "true"));
        proof {
            assert(header_texts(headers@) =~= cors_headers(preflight, allowed_origin@));
        }
        CorsResponse { status, headers }
    }
}

} // verus!
