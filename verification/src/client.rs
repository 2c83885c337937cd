//! The client: a built configuration and the per-call entry points.
//!
//! A client is created once from a builder — any configuration mistake
//! fails here, before a connection is ever attempted — and then plans
//! requests: one entry point per HTTP verb plus the generic
//! [`Client::request`], each producing the fully resolved [`WirePlan`]
//! that the transport edge sends. Every entry point carries the full
//! contract of the planner it delegates to: success if and only if the
//! inputs are well-formed, and on success every field of the result pinned.

use vstd::prelude::*;

use crate::config::{build_config, spec_build_ok, spec_config_matches, Builder, ClientConfig};
use crate::cookies::valid_header_value;
use crate::error::Error;
use crate::http::Method;
use crate::request::{
    plan_request, plan_websocket, spec_opt_bytes, spec_plan_matches, spec_plan_ok,
    spec_ws_plan_matches, spec_ws_plan_ok, RequestSpec, WebSocketRequest, WirePlan, WsPlan,
};

verus! {

/// A client holding an immutable effective configuration. The connection
/// pool it shares with its clones lives at the transport edge; the engine
/// only ever reads the configuration.
#[derive(Debug)]
pub struct Client {
    /// The effective configuration, assembled once at build time.
    pub config: ClientConfig,
}

impl Client {
    /// Builds a client from a sparse builder. Fails synchronously, with a
    /// configuration error, exactly when the builder is invalid: a
    /// root-certificate store that could not be read, or a malformed
    /// default header — never deferred to the first request. On success
    /// the held configuration is exactly the one the builder assembles to
    /// ([`spec_config_matches`]): every effective field pinned, documented
    /// defaults for unset options, last-write-wins for the protocol
    /// conflict.
    pub fn new(builder: Builder) -> (r: Result<Client, Error>)
        ensures
            r is Ok <==> spec_build_ok(builder),
            r is Err ==> r == Result::<Client, Error>::Err(Error::Config),
            r matches Ok(c) ==> spec_config_matches(builder, c.config),
    {
        match build_config(builder) {
            Ok(config) => Ok(Client { config }),
            Err(e) => Err(e),
        }
    }

    /// Plans one request: merges the per-call spec against the client
    /// configuration. Succeeds exactly when the spec is well-formed
    /// ([`spec_plan_ok`]); on success every field of the plan is pinned by
    /// [`spec_plan_matches`]. `store_cookie` is the `Cookie` value the
    /// cookie store derived for this URL, if any.
    pub fn request(
        &self,
        method: Method,
        url: String,
        spec: RequestSpec,
        store_cookie: Option<Vec<u8>>,
    ) -> (r: Result<WirePlan, Error>)
        requires
            (store_cookie matches Some(v) ==> valid_header_value(v@)),
        ensures
            r is Ok <==> spec_plan_ok(spec),
            r is Err ==> r == Result::<WirePlan, Error>::Err(Error::Config),
            r matches Ok(p) ==> spec_plan_matches(
                self.config,
                method,
                url@,
                spec,
                spec_opt_bytes(store_cookie),
                p,
            ),
    {
        plan_request(&self.config, method, url, spec, store_cookie)
    }

    /// Plans a WebSocket upgrade. Succeeds exactly when the request is
    /// well-formed ([`spec_ws_plan_ok`]); on success every field of the
    /// plan is pinned by [`spec_ws_plan_matches`].
    pub fn websocket(
        &self,
        url: String,
        req: WebSocketRequest,
        store_cookie: Option<Vec<u8>>,
    ) -> (r: Result<WsPlan, Error>)
        requires
            (store_cookie matches Some(v) ==> valid_header_value(v@)),
        ensures
            r is Ok <==> spec_ws_plan_ok(req),
            r is Err ==> r == Result::<WsPlan, Error>::Err(Error::Config),
            r matches Ok(p) ==> spec_ws_plan_matches(
                self.config,
                url@,
                req,
                spec_opt_bytes(store_cookie),
                p,
            ),
    {
        plan_websocket(&self.config, url, req, store_cookie)
    }

    /// Plans a GET request, with [`Client::request`]'s full contract.
    pub fn get(&self, url: String, spec: RequestSpec, store_cookie: Option<Vec<u8>>) -> (r: Result<
        WirePlan,
        Error,
    >)
        requires
            (store_cookie matches Some(v) ==> valid_header_value(v@)),
        ensures
            r is Ok <==> spec_plan_ok(spec),
            r is Err ==> r == Result::<WirePlan, Error>::Err(Error::Config),
            r matches Ok(p) ==> spec_plan_matches(
                self.config,
                Method::GET,
                url@,
                spec,
                spec_opt_bytes(store_cookie),
                p,
            ),
    {
        plan_request(&self.config, Method::GET, url, spec, store_cookie)
    }

    /// Plans a HEAD request, with [`Client::request`]'s full contract.
    pub fn head(&self, url: String, spec: RequestSpec, store_cookie: Option<Vec<u8>>) -> (r: Result<
        WirePlan,
        Error,
    >)
        requires
            (store_cookie matches Some(v) ==> valid_header_value(v@)),
        ensures
            r is Ok <==> spec_plan_ok(spec),
            r is Err ==> r == Result::<WirePlan, Error>::Err(Error::Config),
            r matches Ok(p) ==> spec_plan_matches(
                self.config,
                Method::HEAD,
                url@,
                spec,
                spec_opt_bytes(store_cookie),
                p,
            ),
    {
        plan_request(&self.config, Method::HEAD, url, spec, store_cookie)
    }

    /// Plans a POST request, with [`Client::request`]'s full contract.
    pub fn post(&self, url: String, spec: RequestSpec, store_cookie: Option<Vec<u8>>) -> (r: Result<
        WirePlan,
        Error,
    >)
        requires
            (store_cookie matches Some(v) ==> valid_header_value(v@)),
        ensures
            r is Ok <==> spec_plan_ok(spec),
            r is Err ==> r == Result::<WirePlan, Error>::Err(Error::Config),
            r matches Ok(p) ==> spec_plan_matches(
                self.config,
                Method::POST,
                url@,
                spec,
                spec_opt_bytes(store_cookie),
                p,
            ),
    {
        plan_request(&self.config, Method::POST, url, spec, store_cookie)
    }

    /// Plans a PUT request, with [`Client::request`]'s full contract.
    pub fn put(&self, url: String, spec: RequestSpec, store_cookie: Option<Vec<u8>>) -> (r: Result<
        WirePlan,
        Error,
    >)
        requires
            (store_cookie matches Some(v) ==> valid_header_value(v@)),
        ensures
            r is Ok <==> spec_plan_ok(spec),
            r is Err ==> r == Result::<WirePlan, Error>::Err(Error::Config),
            r matches Ok(p) ==> spec_plan_matches(
                self.config,
                Method::PUT,
                url@,
                spec,
                spec_opt_bytes(store_cookie),
                p,
            ),
    {
        plan_request(&self.config, Method::PUT, url, spec, store_cookie)
    }

    /// Plans a DELETE request, with [`Client::request`]'s full contract.
    pub fn delete(
        &self,
        url: String,
        spec: RequestSpec,
        store_cookie: Option<Vec<u8>>,
    ) -> (r: Result<WirePlan, Error>)
        requires
            (store_cookie matches Some(v) ==> valid_header_value(v@)),
        ensures
            r is Ok <==> spec_plan_ok(spec),
            r is Err ==> r == Result::<WirePlan, Error>::Err(Error::Config),
            r matches Ok(p) ==> spec_plan_matches(
                self.config,
                Method::DELETE,
                url@,
                spec,
                spec_opt_bytes(store_cookie),
                p,
            ),
    {
        plan_request(&self.config, Method::DELETE, url, spec, store_cookie)
    }

    /// Plans an OPTIONS request, with [`Client::request`]'s full contract.
    pub fn options(
        &self,
        url: String,
        spec: RequestSpec,
        store_cookie: Option<Vec<u8>>,
    ) -> (r: Result<WirePlan, Error>)
        requires
            (store_cookie matches Some(v) ==> valid_header_value(v@)),
        ensures
            r is Ok <==> spec_plan_ok(spec),
            r is Err ==> r == Result::<WirePlan, Error>::Err(Error::Config),
            r matches Ok(p) ==> spec_plan_matches(
                self.config,
                Method::OPTIONS,
                url@,
                spec,
                spec_opt_bytes(store_cookie),
                p,
            ),
    {
        plan_request(&self.config, Method::OPTIONS, url, spec, store_cookie)
    }

    /// Plans a TRACE request, with [`Client::request`]'s full contract.
    pub fn trace(
        &self,
        url: String,
        spec: RequestSpec,
        store_cookie: Option<Vec<u8>>,
    ) -> (r: Result<WirePlan, Error>)
        requires
            (store_cookie matches Some(v) ==> valid_header_value(v@)),
        ensures
            r is Ok <==> spec_plan_ok(spec),
            r is Err ==> r == Result::<WirePlan, Error>::Err(Error::Config),
            r matches Ok(p) ==> spec_plan_matches(
                self.config,
                Method::TRACE,
                url@,
                spec,
                spec_opt_bytes(store_cookie),
                p,
            ),
    {
        plan_request(&self.config, Method::TRACE, url, spec, store_cookie)
    }

    /// Plans a PATCH request, with [`Client::request`]'s full contract.
    pub fn patch(
        &self,
        url: String,
        spec: RequestSpec,
        store_cookie: Option<Vec<u8>>,
    ) -> (r: Result<WirePlan, Error>)
        requires
            (store_cookie matches Some(v) ==> valid_header_value(v@)),
        ensures
            r is Ok <==> spec_plan_ok(spec),
            r is Err ==> r == Result::<WirePlan, Error>::Err(Error::Config),
            r matches Ok(p) ==> spec_plan_matches(
                self.config,
                Method::PATCH,
                url@,
                spec,
                spec_opt_bytes(store_cookie),
                p,
            ),
    {
        plan_request(&self.config, Method::PATCH, url, spec, store_cookie)
    }
}

} // verus!
