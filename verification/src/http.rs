//! Basic HTTP vocabulary: methods, versions and status codes.

use vstd::prelude::*;

verus! {

/// An HTTP request method.
#[derive(Clone, Copy, PartialEq, Eq, Structural, Debug)]
pub enum Method {
    GET,
    HEAD,
    POST,
    PUT,
    DELETE,
    OPTIONS,
    TRACE,
    PATCH,
}

impl Method {
    /// The token of the method as it appears on the wire.
    pub fn as_str(&self) -> (r: &'static str)
        ensures
            self is GET ==> r@ == "GET"@,
            self is HEAD ==> r@ == "HEAD"@,
            self is POST ==> r@ == "POST"@,
            self is PUT ==> r@ == "PUT"@,
            self is DELETE ==> r@ == "DELETE"@,
            self is OPTIONS ==> r@ == "OPTIONS"@,
            self is TRACE ==> r@ == "TRACE"@,
            self is PATCH ==> r@ == "PATCH"@,
    {
        match self {
            Method::GET => "GET",
            Method::HEAD => "HEAD",
            Method::POST => "POST",
            Method::PUT => "PUT",
            Method::DELETE => "DELETE",
            Method::OPTIONS => "OPTIONS",
            Method::TRACE => "TRACE",
            Method::PATCH => "PATCH",
        }
    }
}

/// An HTTP protocol version.
#[allow(non_camel_case_types)]
#[derive(Clone, Copy, PartialEq, Eq, Structural, Debug)]
pub enum Version {
    HTTP_09,
    HTTP_10,
    HTTP_11,
    HTTP_2,
    HTTP_3,
}

/// An HTTP status code, always in the range `100..=599`.
#[derive(Clone, Copy, PartialEq, Eq, Structural, Debug)]
pub struct StatusCode(pub u16);

impl StatusCode {
    /// Whether the code is well-formed.
    pub open spec fn wf(&self) -> bool {
        100 <= self.0 <= 599
    }

    /// The numeric value of the code.
    pub fn as_int(&self) -> (r: u16)
        ensures
            r == self.0,
    {
        self.0
    }

    /// Whether the code signals success (2xx).
    pub fn is_success(&self) -> (r: bool)
        ensures
            r == (200 <= self.0 < 300),
    {
        200 <= self.0 && self.0 < 300
    }

    /// Whether the code signals a redirection (3xx).
    pub fn is_redirection(&self) -> (r: bool)
        ensures
            r == (300 <= self.0 < 400),
    {
        300 <= self.0 && self.0 < 400
    }

    /// Whether the code signals a client error (4xx).
    pub fn is_client_error(&self) -> (r: bool)
        ensures
            r == (400 <= self.0 < 500),
    {
        400 <= self.0 && self.0 < 500
    }

    /// Whether the code signals a server error (5xx).
    pub fn is_server_error(&self) -> (r: bool)
        ensures
            r == (500 <= self.0 < 600),
    {
        500 <= self.0 && self.0 < 600
    }
}

/// An IP address, as plain bytes.
#[derive(Clone, Debug)]
pub enum IpAddr {
    /// Four octets.
    V4(u8, u8, u8, u8),
    /// Sixteen octets.
    V6(Vec<u8>),
}

impl IpAddr {
    /// Whether the address is well-formed: a V6 address has exactly sixteen
    /// octets.
    pub open spec fn wf(&self) -> bool {
        match self {
            IpAddr::V4(_, _, _, _) => true,
            IpAddr::V6(o) => o@.len() == 16,
        }
    }
}

/// An IP socket address.
#[derive(Clone, Debug)]
pub struct SocketAddr {
    /// The IP address.
    pub ip: IpAddr,
    /// The port number.
    pub port: u16,
}

impl SocketAddr {
    /// Whether the socket address is well-formed.
    pub open spec fn wf(&self) -> bool {
        self.ip.wf()
    }

    /// The port number of the socket address.
    pub fn port(&self) -> (r: u16)
        ensures
            r == self.port,
    {
        self.port
    }
}

} // verus!
