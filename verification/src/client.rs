//! The requests that the client sends to the registry, and what it answers.
//!
//! A [`Client`] lays out each request of the registry's HTTP surface as a
//! [`RequestBuilder`]; sending it is left to the transport. Values that only
//! the caller can serialise arrive as JSON texts.
use vstd::prelude::*;
use vstd::string::*;
use crate::config::{Config, Timeout};
use crate::error::{Error, ErrorView, clone_opt_string};
use crate::request::{
    BuilderView, Form, Method, RequestBuilder, form_value, json_of_int, json_view,
    serialize_failure, with_pair,
};
use crate::service::{AppNodes, Service, ServiceDescEvent};
use crate::watcher::RevisionResult;

verus! {

/// A configuration item.
#[derive(Debug, PartialEq, Eq, Clone)]
pub struct Item {
    pub name: String,
    pub value: String,
    pub version: u64,
}

/// Configuration items at a revision.
#[derive(Debug, Clone)]
pub struct ItemsResult {
    pub configs: Vec<Item>,
    pub revision: u64,
}

/// One configuration item at a revision.
#[derive(Debug, Clone)]
pub struct ItemResult {
    pub config: Item,
    pub revision: u64,
}

/// A service at a revision.
#[derive(Debug, Clone)]
pub struct ServiceResult {
    pub service: Service,
    pub revision: u64,
}

/// A lease that the registry granted.
#[derive(Debug, Clone, Copy, PartialEq, Eq)]
pub struct LeaseGrantResult {
    pub lease_id: i64,
    pub ttl: i64,
    pub new_app_node: Option<bool>,
}

/// The registry's answer to a plug: the lease that the services now stand under.
#[derive(Debug, Clone, Copy, PartialEq, Eq)]
pub struct PlugResult {
    pub lease_id: i64,
    pub ttl: i64,
}

/// The changes of the catalog of service descriptions up to a revision.
#[derive(Debug, Clone)]
pub struct ServiceDescWatchResult {
    pub events: Option<Vec<ServiceDescEvent>>,
    pub revision: u64,
}

/// A service with the names of its zones.
#[derive(Debug, Clone)]
pub struct ServiceWithRawZone {
    pub service: String,
    pub zones: Vec<String>,
}

/// The zones of a service at a revision.
#[derive(Debug, Clone)]
pub struct ServiceWithRawZoneResult {
    pub service: ServiceWithRawZone,
    pub revision: u64,
}

impl RevisionResult for ServiceResult {
    open spec fn revision(&self) -> u64 {
        self.revision
    }

    fn get_revision(&self) -> (r: u64) {
        self.revision
    }
}

impl RevisionResult for ServiceDescWatchResult {
    open spec fn revision(&self) -> u64 {
        self.revision
    }

    fn get_revision(&self) -> (r: u64) {
        self.revision
    }
}

impl RevisionResult for AppNodes {
    open spec fn revision(&self) -> u64 {
        self.revision
    }

    fn get_revision(&self) -> (r: u64) {
        self.revision
    }
}

/// The decimal text that std's `Display` writes for a signed integer.
pub uninterp spec fn decimal_of_i64(n: i64) -> Seq<char>;

/// The decimal text that std's `Display` writes for an unsigned integer.
pub uninterp spec fn decimal_of_u64(n: u64) -> Seq<char>;

/// Calls std's `to_string` on a signed integer, which writes it in decimal.
#[verifier::external_body]
fn i64_text(n: i64) -> (r: String)
    ensures
        r@ == decimal_of_i64(n),
{
    n.to_string()
}

/// Calls std's `to_string` on an unsigned integer, which writes it in decimal.
#[verifier::external_body]
fn u64_text(n: u64) -> (r: String)
    ensures
        r@ == decimal_of_u64(n),
{
    n.to_string()
}

/// What `serde_json::to_string` makes of a list of strings: the JSON text,
/// or the text of its error.
pub uninterp spec fn json_of_strings(keys: Seq<Seq<char>>) -> Result<Seq<char>, Seq<char>>;

/// The texts of a list of strings.
pub open spec fn key_texts(keys: Seq<String>) -> Seq<Seq<char>> {
    Seq::new(keys.len(), |i: int| keys[i]@)
}

/// Calls `serde_json::to_string` on a list of strings.
#[verifier::external_body]
fn strings_to_json(keys: &Vec<String>) -> (r: Result<String, String>)
    ensures
        json_view(r) == json_of_strings(key_texts(keys@)),
{
    match serde_json::to_string(keys) {
        Ok(s) => Ok(s),
        Err(e) => Err(e.to_string()),
    }
}

/// A field of a form: its name, and its value as JSON or the text of the
/// error that serialising it gave.
pub type Field = (Seq<char>, Result<Seq<char>, Seq<char>>);

/// The body of the form that holds the fields in their order, or the error
/// of the first field that could not be serialised.
pub open spec fn form_text(fields: Seq<Field>) -> Result<Seq<char>, ErrorView>
    decreases fields.len(),
{
    if fields.len() == 0 {
        Ok(Seq::empty())
    } else {
        match form_text(fields.drop_last()) {
            Err(e) => Err(e),
            Ok(body) => match fields.last().1 {
                Ok(json) => Ok(with_pair(body, fields.last().0, form_value(json))),
                Err(detail) => Err(serialize_failure(fields.last().0, detail)),
            },
        }
    }
}

/// The fields of a list as plain values.
pub open spec fn field_texts(fields: Seq<(String, Result<String, String>)>) -> Seq<Field> {
    Seq::new(fields.len(), |i: int| (fields[i].0@, json_view(fields[i].1)))
}

/// The view of a form or of the error in its place.
pub open spec fn form_view(form: Result<Form, Error>) -> Result<Seq<char>, ErrorView> {
    match form {
        Ok(f) => Ok(f@),
        Err(e) => Err(e@),
    }
}

fn clone_json(json: &Result<String, String>) -> (r: Result<String, String>)
    ensures
        r == *json,
{
    match json {
        Ok(s) => Ok(s.clone()),
        Err(e) => Err(e.clone()),
    }
}

/// Makes a form of the fields in their order; the first field that could not
/// be serialised ends it with its error.
pub fn make_form(fields: &Vec<(String, Result<String, String>)>) -> (r: Result<Form, Error>)
    ensures
        form_view(r) == form_text(field_texts(fields@)),
{
    let mut form = Form::new();
    let mut i: usize = 0;
    let ghost all = field_texts(fields@);
    assert(all.subrange(0, 0) =~= Seq::empty());
    while i < fields.len()
        invariant
            i <= fields.len(),
            all == field_texts(fields@),
            form_text(all.subrange(0, i as int)) == Ok::<Seq<char>, ErrorView>(form@),
        decreases fields.len() - i,
    {
        proof {
            assert(all.subrange(0, i + 1).drop_last() =~= all.subrange(0, i as int));
            assert(all.subrange(0, i + 1).last() == all[i as int]);
        }
        match form.set(fields[i].0.as_str(), clone_json(&fields[i].1)) {
            Ok(_) => {},
            Err(e) => {
                proof {
                    lemma_form_error_stays(all, i + 1);
                }
                return Err(e);
            },
        }
        i += 1;
    }
    assert(all.subrange(0, fields.len() as int) =~= all);
    Ok(form)
}

/// Once a field has failed, the fields after it change nothing.
proof fn lemma_form_error_stays(fields: Seq<Field>, n: int)
    requires
        0 <= n <= fields.len(),
        form_text(fields.subrange(0, n)) is Err,
    ensures
        form_text(fields) == form_text(fields.subrange(0, n)),
    decreases fields.len() - n,
{
    if n < fields.len() {
        assert(fields.subrange(0, n + 1).drop_last() =~= fields.subrange(0, n));
        lemma_form_error_stays(fields, n + 1);
    } else {
        assert(fields.subrange(0, n) =~= fields);
    }
}

fn deadline(timeout: Timeout, request_timeout: Timeout) -> (r: Timeout)
    requires
        timeout.fits(request_timeout),
    ensures
        r == timeout.plus(request_timeout),
{
    match timeout.checked_add(request_timeout) {
        Some(t) => t,
        None => timeout,
    }
}

fn join(a: &str, b: &str) -> (r: String)
    ensures
        r@ == a@ + b@,
{
    let mut out = String::from_str(a);
    out.append(b);
    out
}

fn int_field(name: &str, v: Option<i64>) -> (r: (String, Result<String, String>))
    ensures
        r.0@ == name@,
        json_view(r.1) == json_of_int(v),
{
    (String::from_str(name), crate::request::int_to_json(v))
}

/// A long poll that ran out brought no change; any other failure stays one.
pub fn absorb_timeout<T>(result: Result<T, Error>) -> (r: Result<Option<T>, Error>)
    ensures
        r == match result {
            Ok(t) => Ok::<Option<T>, Error>(Some(t)),
            Err(e) => if e.timeout() {
                Ok(None)
            } else {
                Err(e)
            },
        },
{
    match result {
        Ok(t) => Ok(Some(t)),
        Err(e) => if e.is_timeout() {
            Ok(None)
        } else {
            Err(e)
        },
    }
}

/// As [`absorb_timeout`], for an answer that may lack a value.
pub fn absorb_timeout_option<T>(result: Result<Option<T>, Error>) -> (r: Result<Option<T>, Error>)
    ensures
        r == match result {
            Ok(t) => Ok::<Option<T>, Error>(t),
            Err(e) => if e.timeout() {
                Ok(None)
            } else {
                Err(e)
            },
        },
{
    match result {
        Ok(t) => Ok(t),
        Err(e) => if e.is_timeout() {
            Ok(None)
        } else {
            Err(e)
        },
    }
}

/// The client's side of the registry: who it is and where the registry is.
#[derive(Debug)]
pub struct Client {
    pub app_name: Option<String>,
    pub config: Config,
}

impl Clone for Client {
    fn clone(&self) -> (r: Self)
        ensures
            r == *self,
    {
        Client { app_name: clone_opt_string(&self.app_name), config: self.config.clone() }
    }
}

/// The text of an optional string.
pub open spec fn opt_str(o: Option<&str>) -> Option<Seq<char>> {
    match o {
        Some(s) => Some(s@),
        None => None,
    }
}

impl Client {
    pub const DEFAULT_MAX_IDLE_PER_HOST: usize = 20;

    /// A request with the client's endpoint and, where the configuration
    /// names a development application, the header that carries it.
    pub open spec fn base(&self, method: Method, path: Seq<char>, timeout: Timeout) -> BuilderView {
        let b = BuilderView::start(self.config.endpoint@, method, path, Some(timeout));
        match self.config.dev_app {
            Some(app) => b.header("Dev-App"@, app@),
            None => b,
        }
    }

    /// Makes a client. The application's name is the one set for
    /// development, else the common name of the client's certificate as the
    /// transport found it; it may not come from both sides.
    pub fn new(config: Config, cert_name: Option<String>) -> (r: Result<Client, Error>)
        ensures
            if config.dev_app is Some && config.cert_key_file is Some {
                r is Err && r->Err_0@ == ErrorView::Other("dev_app & config duplicated"@)
            } else {
                &&& r matches Ok(client)
                &&& client.config == config
                &&& client.app_name == if config.dev_app is Some {
                    config.dev_app
                } else {
                    cert_name
                }
            },
    {
        match config.check_app_source() {
            Err(e) => Err(e),
            Ok(_) => {
                let app_name = if config.dev_app.is_some() {
                    clone_opt_string(&config.dev_app)
                } else {
                    cert_name
                };
                Ok(Client { app_name, config })
            },
        }
    }

    pub fn get_app_name(&self) -> (r: Option<&str>)
        ensures
            opt_str(r) == crate::request::body_text(self.app_name),
    {
        match &self.app_name {
            Some(name) => Some(name.as_str()),
            None => None,
        }
    }

    /// How many idle connections per host the transport keeps.
    pub fn max_idle_per_host(&self) -> (n: usize)
        ensures
            n == match self.config.max_idle_connections {
                Some(m) => m,
                None => 20usize,
            },
    {
        match self.config.max_idle_connections {
            Some(m) => m,
            None => Self::DEFAULT_MAX_IDLE_PER_HOST,
        }
    }

    /// A request with the configured timeout.
    pub fn request(&self, method: Method, path: &str) -> (b: RequestBuilder)
        ensures
            b@ == self.base(method, path@, self.config.request_timeout),
    {
        self.request_timeout(method, path, self.config.request_timeout)
    }

    /// A request with a timeout of its own.
    pub fn request_timeout(&self, method: Method, path: &str, timeout: Timeout) -> (b: RequestBuilder)
        ensures
            b@ == self.base(method, path@, timeout),
    {
        let builder = RequestBuilder::new(
            self.config.endpoint.as_str(),
            method,
            path,
            Some(timeout),
        );
        match &self.config.dev_app {
            Some(dev_app) => builder.header("Dev-App", dev_app.as_str()),
            None => builder,
        }
    }

    /// Fetch one configuration item.
    pub fn get(&self, key: &str) -> (b: RequestBuilder)
        ensures
            b@ == self.base(Method::Get, "/api/configs/"@ + key@, self.config.request_timeout),
    {
        self.request(Method::Get, join("/api/configs/", key).as_str())
    }

    /// Fetch many configuration items: their keys go as a JSON array.
    pub fn get_all(&self, keys: &Vec<String>) -> (r: Result<RequestBuilder, Error>)
        ensures
            match json_of_strings(key_texts(keys@)) {
                Ok(json) => r is Ok && r->Ok_0@ == self.base(
                    Method::Get,
                    "/api/configs"@,
                    self.config.request_timeout,
                ).param("keys"@, json),
                Err(detail) => r is Err && r->Err_0@ == ErrorView::Serialize(detail),
            },
    {
        match strings_to_json(keys) {
            Ok(val) => Ok(self.request(Method::Get, "/api/configs").param("keys", val.as_str())),
            Err(detail) => Err(Error::Serialize(detail)),
        }
    }

    /// Fetch a service.
    pub fn get_service(&self, service: &str) -> (b: RequestBuilder)
        ensures
            b@ == self.base(
                Method::Get,
                "/api/v1/services/"@ + service@,
                self.config.request_timeout,
            ),
    {
        self.request(Method::Get, join("/api/v1/services/", service).as_str())
    }

    /// Fetch the zones of a service.
    pub fn get_service_only_zones(&self, service: &str) -> (b: RequestBuilder)
        ensures
            b@ == self.base(
                Method::Get,
                "/api/v1/services/"@ + service@ + "?only_zone=true"@,
                self.config.request_timeout,
            ),
    {
        let mut path = join("/api/v1/services/", service);
        path.append("?only_zone=true");
        self.request(Method::Get, path.as_str())
    }

    /// Fetch a service in one zone.
    pub fn get_service_by_zone(&self, service: &str, zone: &str) -> (b: RequestBuilder)
        ensures
            b@ == self.base(
                Method::Get,
                "/api/v1/services/"@ + service@ + "/"@ + zone@,
                self.config.request_timeout,
            ),
    {
        let mut path = join("/api/v1/services/", service);
        path.append("/");
        path.append(zone);
        self.request(Method::Get, path.as_str())
    }

    /// Plug one service: `desc` and `endpoint` are the JSON of the service's
    /// description and of its endpoint.
    pub fn plug_service(
        &self,
        service: &str,
        desc: Result<String, String>,
        endpoint: Result<String, String>,
        ttl: Option<i64>,
        lease_id: Option<i64>,
    ) -> (b: RequestBuilder)
        ensures
            b@ == self.base(
                Method::Post,
                "/api/v1/services/"@ + service@,
                self.config.request_timeout,
            ).form_result(
                form_text(
                    seq![
                        ("ttl"@, json_of_int(ttl)),
                        ("lease_id"@, json_of_int(lease_id)),
                        ("desc"@, json_view(desc)),
                        ("endpoint"@, json_view(endpoint)),
                    ],
                ),
            ),
    {
        let mut fields: Vec<(String, Result<String, String>)> = Vec::new();
        fields.push(int_field("ttl", ttl));
        fields.push(int_field("lease_id", lease_id));
        fields.push((String::from_str("desc"), desc));
        fields.push((String::from_str("endpoint"), endpoint));
        assert(field_texts(fields@) =~= seq![
            ("ttl"@, json_of_int(ttl)),
            ("lease_id"@, json_of_int(lease_id)),
            ("desc"@, json_view(desc)),
            ("endpoint"@, json_view(endpoint)),
        ]);
        let form = make_form(&fields);
        self.request(Method::Post, join("/api/v1/services/", service).as_str()).form_result(form)
    }

    /// Plug all services: `descs` and `endpoint` are the JSON of the list of
    /// descriptions and of the endpoint.
    pub fn plug_all_services(
        &self,
        descs: Result<String, String>,
        endpoint: Result<String, String>,
        lease_id: Option<i64>,
        ttl: Option<i64>,
    ) -> (b: RequestBuilder)
        ensures
            b@ == self.base(
                Method::Post,
                "/api/v1/services"@,
                self.config.request_timeout,
            ).form_result(
                form_text(
                    seq![
                        ("ttl"@, json_of_int(ttl)),
                        ("lease_id"@, json_of_int(lease_id)),
                        ("descs"@, json_view(descs)),
                        ("endpoint"@, json_view(endpoint)),
                    ],
                ),
            ),
    {
        let mut fields: Vec<(String, Result<String, String>)> = Vec::new();
        fields.push(int_field("ttl", ttl));
        fields.push(int_field("lease_id", lease_id));
        fields.push((String::from_str("descs"), descs));
        fields.push((String::from_str("endpoint"), endpoint));
        assert(field_texts(fields@) =~= seq![
            ("ttl"@, json_of_int(ttl)),
            ("lease_id"@, json_of_int(lease_id)),
            ("descs"@, json_view(descs)),
            ("endpoint"@, json_view(endpoint)),
        ]);
        let form = make_form(&fields);
        self.request(Method::Post, "/api/v1/services").form_result(form)
    }

    /// Unplug one endpoint of a service in a zone.
    pub fn unplug_service(&self, service: &str, zone: &str, addr: &str) -> (b: RequestBuilder)
        ensures
            b@ == self.base(
                Method::Delete,
                "/api/v1/services/"@ + service@ + "/"@ + zone@ + "/"@ + addr@,
                self.config.request_timeout,
            ),
    {
        let mut path = join("/api/v1/services/", service);
        path.append("/");
        path.append(zone);
        path.append("/");
        path.append(addr);
        self.request(Method::Delete, path.as_str())
    }

    /// Ask for a lease: `app_node` is the JSON of the application node, where
    /// the lease is to own one.
    pub fn grant_lease(&self, ttl: Option<i64>, app_node: Option<Result<String, String>>) -> (b:
        RequestBuilder)
        ensures
            b@ == ({
                let req = self.base(Method::Post, "/api/leases"@, self.config.request_timeout);
                let req = match ttl {
                    Some(n) => req.param("ttl"@, decimal_of_i64(n)),
                    None => req,
                };
                match app_node {
                    Some(json) => req.form_result(form_text(seq![("app_node"@, json_view(json))])),
                    None => req,
                }
            }),
    {
        let mut req = self.request(Method::Post, "/api/leases");
        if let Some(n) = ttl {
            req = req.param("ttl", i64_text(n).as_str());
        }
        if let Some(json) = app_node {
            let mut fields: Vec<(String, Result<String, String>)> = Vec::new();
            fields.push((String::from_str("app_node"), json));
            assert(field_texts(fields@) =~= seq![("app_node"@, json_view(json))]);
            req = req.form_result(make_form(&fields));
        }
        req
    }

    /// Keep a lease alive.
    pub fn keepalive_lease(&self, lease_id: i64) -> (b: RequestBuilder)
        ensures
            b@ == self.base(
                Method::Post,
                "/api/leases/"@ + decimal_of_i64(lease_id),
                self.config.request_timeout,
            ),
    {
        self.request(Method::Post, join("/api/leases/", i64_text(lease_id).as_str()).as_str())
    }

    /// Revoke a lease.
    pub fn revoke_lease(&self, lease_id: i64) -> (b: RequestBuilder)
        ensures
            b@ == self.base(
                Method::Delete,
                "/api/leases/"@ + decimal_of_i64(lease_id),
                self.config.request_timeout,
            ),
    {
        self.request(Method::Delete, join("/api/leases/", i64_text(lease_id).as_str()).as_str())
    }

    /// Revoke a lease and remove the application node that it owns.
    pub fn revoke_lease_with_node(&self, lease_id: i64, key: &str, label: Option<&str>) -> (b:
        RequestBuilder)
        ensures
            b@ == self.base(
                Method::Delete,
                "/api/leases/"@ + decimal_of_i64(lease_id),
                self.config.request_timeout,
            ).param("rm_node_key"@, key@).param_opt("app_node_label"@, opt_str(label)),
    {
        self.request(
            Method::Delete,
            join("/api/leases/", i64_text(lease_id).as_str()).as_str(),
        ).param("rm_node_key", key).param_opt("app_node_label", label)
    }

    /// Fetch the nodes of an application.
    pub fn get_app_nodes(&self, name: &str, label: Option<&str>) -> (b: RequestBuilder)
        ensures
            b@ == self.base(
                Method::Get,
                "/api/apps/"@ + name@ + "/nodes"@,
                self.config.request_timeout,
            ).param_opt("label"@, opt_str(label)),
    {
        let mut path = join("/api/apps/", name);
        path.append("/nodes");
        self.request(Method::Get, path.as_str()).param_opt("label", label)
    }

    /// Long-poll the nodes of an application from a revision on. The poll's
    /// timeout goes to the registry in whole seconds; the request's deadline
    /// is that timeout and the configured one together.
    pub fn watch_app_nodes_once(&self, app: &str, label: Option<&str>, revision: u64, timeout: Timeout) -> (b:
        RequestBuilder)
        requires
            timeout.fits(self.config.request_timeout),
        ensures
            b@ == self.base(
                Method::Get,
                "/api/apps/"@ + app@ + "/nodes"@,
                timeout.plus(self.config.request_timeout),
            ).param_opt("label"@, opt_str(label)).param("revision"@, decimal_of_u64(revision)).param(
                "timeout"@,
                decimal_of_u64(timeout.secs),
            ),
    {
        let mut path = join("/api/apps/", app);
        path.append("/nodes");
        self.request_timeout(
            Method::Get,
            path.as_str(),
            deadline(timeout, self.config.request_timeout),
        ).param_opt("label", label).param("revision", u64_text(revision).as_str()).param(
            "timeout",
            u64_text(timeout.as_secs()).as_str(),
        )
    }

    /// The request of a watch on the nodes of an application: the snapshot
    /// first, then a long poll from the revision after the last one seen.
    pub fn watch_app_nodes(&self, app: &str, label: Option<&str>, timeout: Timeout, revision: Option<u64>) -> (b:
        RequestBuilder)
        requires
            timeout.fits(self.config.request_timeout),
            revision matches Some(r) ==> r < u64::MAX,
        ensures
            b@ == match revision {
                Some(r) => self.base(
                    Method::Get,
                    "/api/apps/"@ + app@ + "/nodes"@,
                    timeout.plus(self.config.request_timeout),
                ).param_opt("label"@, opt_str(label)).param(
                    "revision"@,
                    decimal_of_u64((r + 1) as u64),
                ).param("timeout"@, decimal_of_u64(timeout.secs)),
                None => self.base(
                    Method::Get,
                    "/api/apps/"@ + app@ + "/nodes"@,
                    self.config.request_timeout,
                ).param_opt("label"@, opt_str(label)),
            },
    {
        match revision {
            Some(r) => self.watch_app_nodes_once(app, label, r + 1, timeout),
            None => self.get_app_nodes(app, label),
        }
    }

    /// Probe whether a node of an application is online.
    pub fn is_app_node_online(&self, app: &str, label: Option<&str>, key: &str) -> (b:
        RequestBuilder)
        ensures
            b@ == self.base(
                Method::Get,
                "/api/apps/"@ + app@ + "/online"@,
                self.config.request_timeout,
            ).param_opt("label"@, opt_str(label)).param("key"@, key@),
    {
        let mut path = join("/api/apps/", app);
        path.append("/online");
        self.request(Method::Get, path.as_str()).param_opt("label", label).param("key", key)
    }

    /// Long-poll a service from a revision on.
    pub fn watch_service_once(&self, service: &str, revision: u64, timeout: Timeout) -> (b:
        RequestBuilder)
        requires
            timeout.fits(self.config.request_timeout),
        ensures
            b@ == self.base(
                Method::Get,
                "/api/v1/services/"@ + service@,
                timeout.plus(self.config.request_timeout),
            ).param("watch"@, "true"@).param("revision"@, decimal_of_u64(revision)).param(
                "timeout"@,
                decimal_of_u64(timeout.secs),
            ),
    {
        self.request_timeout(
            Method::Get,
            join("/api/v1/services/", service).as_str(),
            deadline(timeout, self.config.request_timeout),
        ).param("watch", "true").param("revision", u64_text(revision).as_str()).param(
            "timeout",
            u64_text(timeout.as_secs()).as_str(),
        )
    }

    /// Delete a service, in one zone or in the zone without a name.
    pub fn delete_service(&self, service: &str, zone: Option<&str>) -> (b: RequestBuilder)
        ensures
            b@ == self.base(
                Method::Delete,
                "/api/v1/services/"@ + service@,
                self.config.request_timeout,
            ).param(
                "zone"@,
                match zone {
                    Some(z) => z@,
                    None => ""@,
                },
            ),
    {
        let z = match zone {
            Some(z) => z,
            None => "",
        };
        self.request(Method::Delete, join("/api/v1/services/", service).as_str()).param("zone", z)
    }

    /// The request of a watch on a service: the snapshot first, then a long
    /// poll from the revision after the last one seen.
    pub fn watch_service(&self, service: &str, revision: Option<u64>, interval: Timeout) -> (b:
        RequestBuilder)
        requires
            interval.fits(self.config.request_timeout),
            revision matches Some(r) ==> r < u64::MAX,
        ensures
            b@ == match revision {
                Some(r) => self.base(
                    Method::Get,
                    "/api/v1/services/"@ + service@,
                    interval.plus(self.config.request_timeout),
                ).param("watch"@, "true"@).param("revision"@, decimal_of_u64((r + 1) as u64)).param(
                    "timeout"@,
                    decimal_of_u64(interval.secs),
                ),
                None => self.base(
                    Method::Get,
                    "/api/v1/services/"@ + service@,
                    self.config.request_timeout,
                ),
            },
    {
        match revision {
            Some(r) => self.watch_service_once(service, r + 1, interval),
            None => self.get_service(service),
        }
    }

    /// Long-poll the catalog of service descriptions from a revision on.
    pub fn watch_service_descs_once(&self, zone: Option<&str>, revision: u64, timeout: Timeout) -> (b:
        RequestBuilder)
        requires
            timeout.fits(self.config.request_timeout),
        ensures
            b@ == self.base(
                Method::Get,
                "/api/v1/service-descs"@,
                timeout.plus(self.config.request_timeout),
            ).param_opt("zone"@, opt_str(zone)).param("revision"@, decimal_of_u64(revision)).param(
                "timeout"@,
                decimal_of_u64(timeout.secs),
            ),
    {
        self.request_timeout(
            Method::Get,
            "/api/v1/service-descs",
            deadline(timeout, self.config.request_timeout),
        ).param_opt("zone", zone).param("revision", u64_text(revision).as_str()).param(
            "timeout",
            u64_text(timeout.as_secs()).as_str(),
        )
    }

    /// The request of a watch on the catalog of service descriptions: a long
    /// poll from the revision after the last one seen, or from the first.
    pub fn watch_service_descs(&self, zone: Option<&str>, revision: Option<u64>, interval: Timeout) -> (b:
        RequestBuilder)
        requires
            interval.fits(self.config.request_timeout),
            revision matches Some(r) ==> r < u64::MAX,
        ensures
            b@ == self.base(
                Method::Get,
                "/api/v1/service-descs"@,
                interval.plus(self.config.request_timeout),
            ).param_opt("zone"@, opt_str(zone)).param(
                "revision"@,
                decimal_of_u64(
                    (match revision {
                        Some(r) => r,
                        None => 0,
                    } + 1) as u64,
                ),
            ).param("timeout"@, decimal_of_u64(interval.secs)),
    {
        let last = match revision {
            Some(r) => r,
            None => 0,
        };
        self.watch_service_descs_once(zone, last + 1, interval)
    }
}

} // verus!
