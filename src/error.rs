use vstd::prelude::*;

verus! {

/// The typed failures of the gateway. At the boundary each one becomes text,
/// but inside the library callers can branch on the kind.
#[derive(Debug, Clone, PartialEq, Eq)]
pub enum GatewayError {
    /// A handler asked for the store connection before it was established.
    NotEstablished,
    /// No route has the request's path.
    RouteNotFound,
    /// A route has the request's path, but not under the request's method.
    MethodNotAllowed,
    /// A path parameter, the query or the body could not be decoded.
    Decode(String),
    /// The handler's own failure.
    Handler(String),
}

/// The HTTP status that a failure is answered with.
pub open spec fn status_of(e: GatewayError) -> u16 {
    match e {
        GatewayError::NotEstablished => 500,
        GatewayError::RouteNotFound => 404,
        GatewayError::MethodNotAllowed => 405,
        GatewayError::Decode(_) => 400,
        GatewayError::Handler(_) => 500,
    }
}

/// The text that describes a failure.
pub open spec fn message_of(e: GatewayError) -> Seq<char> {
    match e {
        GatewayError::NotEstablished => "Database connection not established"@,
        GatewayError::RouteNotFound => "Route not found"@,
        GatewayError::MethodNotAllowed => "Method not allowed"@,
        GatewayError::Decode(m) => m@,
        GatewayError::Handler(m) => m@,
    }
}

impl GatewayError {
    /// The HTTP status that this failure is answered with.
    pub fn status_code(&self) -> (s: u16)
        ensures
            s == status_of(*self),
    {
        match self {
            GatewayError::NotEstablished => 500,
            GatewayError::RouteNotFound => 404,
            GatewayError::MethodNotAllowed => 405,
            GatewayError::Decode(_) => 400,
            GatewayError::Handler(_) => 500,
        }
    }

    /// The text that describes this failure.
    pub fn message(&self) -> (m: String)
        ensures
            m@ == message_of(*self),
    {
        match self {
            GatewayError::NotEstablished => String::from_str("Database connection not established"),
            GatewayError::RouteNotFound => String::from_str("Route not found"),
            GatewayError::MethodNotAllowed => String::from_str("Method not allowed"),
            GatewayError::Decode(m) => m.clone(),
            GatewayError::Handler(m) => m.clone(),
        }
    }
}

} // verus!
