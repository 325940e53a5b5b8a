//! Requests bound to their method and path.
use vstd::prelude::*;

verus! {

/// The HTTP methods that endpoints are bound to.
#[derive(Debug, Clone, Copy, PartialEq, Eq, Structural)]
pub enum Method {
    Get,
    Post,
    Put,
    Patch,
    Delete,
}

pub open spec fn method_name(m: Method) -> Seq<char> {
    match m {
        Method::Get => seq!['G', 'E', 'T'],
        Method::Post => seq!['P', 'O', 'S', 'T'],
        Method::Put => seq!['P', 'U', 'T'],
        Method::Patch => seq!['P', 'A', 'T', 'C', 'H'],
        Method::Delete => seq!['D', 'E', 'L', 'E', 'T', 'E'],
    }
}

impl Method {
    /// The method's name as it appears on the request line.
    pub fn as_str(&self) -> (r: &'static str)
        ensures
            r@ == method_name(*self),
    {
        match self {
            Method::Get => {
                let r = "GET";
                proof {
                    reveal_strlit("GET");
                }
                r
            },
            Method::Post => {
                let r = "POST";
                proof {
                    reveal_strlit("POST");
                }
                r
            },
            Method::Put => {
                let r = "PUT";
                proof {
                    reveal_strlit("PUT");
                }
                r
            },
            Method::Patch => {
                let r = "PATCH";
                proof {
                    reveal_strlit("PATCH");
                }
                r
            },
            Method::Delete => {
                let r = "DELETE";
                proof {
                    reveal_strlit("DELETE");
                }
                r
            },
        }
    }
}

/// A request body with the method and the path (relative to the base URL)
/// of its endpoint.
#[derive(Debug)]
pub struct Request<Body> {
    pub method: Method,
    pub path: String,
    pub body: Body,
}

} // verus!
