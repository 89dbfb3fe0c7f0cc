//! The keeper of one lease and of the services plugged under it.
//!
//! A [`KeepTask`] is the keeper's state. It takes commands and the outcomes of
//! the three operations that it schedules (grant, replug-all, keepalive), and
//! answers each with the actions to perform. At most one operation of each
//! kind is in flight: an action that schedules one replaces the one before.
use vstd::prelude::*;
use vstd::string::*;
use crate::client::{LeaseGrantResult, PlugResult};
use crate::error::{Error, ErrorView, texts, clone_opt_string};
use crate::service::{AppNode, ServiceDesc, ServiceEndpoint};
use crate::seqs::{lemma_filter_distinct, lemma_filter_next, lemma_filter_origin, pairwise_distinct};

verus! {

/// Seconds to wait before a grant or a replug is tried again after a failure
/// that was no timeout.
pub const GRANT_RETRY_INTERVAL: u64 = 5;

/// A command to the keeper. Acknowledgers, completion signals and
/// subscribers are named by numbers that the caller hands out.
#[derive(Debug, PartialEq, Eq)]
pub enum Cmd {
    Start,
    UpdateEndpoint(ServiceEndpoint),
    /// The service, the acknowledger of the plug, and whether it may replace
    /// a registration under the same key.
    Plug(ServiceDesc, u64, bool),
    Unplug(String, String),
    Cancel(String, String),
    Clear(u64),
    RevokeAndClose(u64),
    NotifyNodeOnline(u64),
}

/// What the keeper asks its driver to do.
#[derive(Debug, PartialEq, Eq)]
pub enum Action {
    /// Ask for a lease after `delay` seconds. This takes the grant slot, and
    /// whatever ran in the keepalive and replug slots is dropped.
    Grant { delay: u64, ttl: Option<i64>, app_node: Option<AppNode> },
    /// Keep the lease alive after `delay` seconds. This takes the keepalive slot.
    Keepalive { delay: u64, lease_id: i64 },
    /// Plug all the services under the lease after `delay` seconds. This
    /// takes the replug slot.
    ReplugAll { delay: u64, services: Vec<ServiceDesc>, endpoint: ServiceEndpoint, lease_id: i64 },
    /// Empty the keepalive slot.
    StopKeepalive,
    /// Empty the replug slot.
    StopReplug,
    /// Plug one service under the lease, outside the slots; its outcome goes
    /// to [`plug_one_done`].
    PlugOne { desc: ServiceDesc, endpoint: ServiceEndpoint, lease_id: i64, ack: u64 },
    /// Unplug one service from the endpoint's address, without waiting.
    Unplug { service: String, zone: String, address: String },
    /// Revoke the lease, with the node's key and label where the keeper has
    /// a node, then signal `done`.
    Revoke { lease_id: i64, node: Option<(String, Option<String>)>, done: u64 },
    /// Signal `done` at once.
    Done { done: u64 },
    /// Fulfil an acknowledger.
    Ack { ack: u64, result: Result<(), Error> },
    /// Drop an acknowledger unfulfilled.
    Abandon { ack: u64 },
    /// Tell a subscriber that the node came online, and whether for the first time.
    NotifyOnline { subscriber: u64, first: bool },
}

/// An action as a plain value.
pub enum ActionView {
    Grant { delay: u64, ttl: Option<i64>, app_node: Option<AppNode> },
    Keepalive { delay: u64, lease_id: i64 },
    ReplugAll { delay: u64, services: Seq<ServiceDesc>, endpoint: ServiceEndpoint, lease_id: i64 },
    StopKeepalive,
    StopReplug,
    PlugOne { desc: ServiceDesc, endpoint: ServiceEndpoint, lease_id: i64, ack: u64 },
    Unplug { service: Seq<char>, zone: Seq<char>, address: Seq<char> },
    Revoke { lease_id: i64, key: Option<Seq<char>>, label: Option<Seq<char>>, done: u64 },
    Done { done: u64 },
    Ack { ack: u64, result: Result<(), ErrorView> },
    Abandon { ack: u64 },
    NotifyOnline { subscriber: u64, first: bool },
}

/// The text of an optional string.
pub open spec fn opt_text(o: Option<String>) -> Option<Seq<char>> {
    match o {
        Some(s) => Some(s@),
        None => None,
    }
}

impl View for Action {
    type V = ActionView;

    open spec fn view(&self) -> ActionView {
        match self {
            Action::Grant { delay, ttl, app_node } => ActionView::Grant {
                delay: *delay,
                ttl: *ttl,
                app_node: *app_node,
            },
            Action::Keepalive { delay, lease_id } => ActionView::Keepalive {
                delay: *delay,
                lease_id: *lease_id,
            },
            Action::ReplugAll { delay, services, endpoint, lease_id } => ActionView::ReplugAll {
                delay: *delay,
                services: services@,
                endpoint: *endpoint,
                lease_id: *lease_id,
            },
            Action::StopKeepalive => ActionView::StopKeepalive,
            Action::StopReplug => ActionView::StopReplug,
            Action::PlugOne { desc, endpoint, lease_id, ack } => ActionView::PlugOne {
                desc: *desc,
                endpoint: *endpoint,
                lease_id: *lease_id,
                ack: *ack,
            },
            Action::Unplug { service, zone, address } => ActionView::Unplug {
                service: service@,
                zone: zone@,
                address: address@,
            },
            Action::Revoke { lease_id, node, done } => ActionView::Revoke {
                lease_id: *lease_id,
                key: match node {
                    Some(n) => Some(n.0@),
                    None => None,
                },
                label: match node {
                    Some(n) => opt_text(n.1),
                    None => None,
                },
                done: *done,
            },
            Action::Done { done } => ActionView::Done { done: *done },
            Action::Ack { ack, result } => ActionView::Ack {
                ack: *ack,
                result: match result {
                    Ok(_) => Ok(()),
                    Err(e) => Err(e@),
                },
            },
            Action::Abandon { ack } => ActionView::Abandon { ack: *ack },
            Action::NotifyOnline { subscriber, first } => ActionView::NotifyOnline {
                subscriber: *subscriber,
                first: *first,
            },
        }
    }
}

/// The actions of a list as plain values.
pub open spec fn views(actions: Seq<Action>) -> Seq<ActionView> {
    Seq::new(actions.len(), |i: int| actions[i]@)
}

/// An acknowledger that waits for the next replug-all to succeed.
#[derive(Debug, PartialEq, Eq)]
pub struct Pending {
    pub service: String,
    pub zone: String,
    pub ack: u64,
}

/// The test that keeps every service but the one under `(service, zone)`.
pub open spec fn other_service(service: Seq<char>, zone: Seq<char>) -> spec_fn(ServiceDesc) -> bool {
    |d: ServiceDesc| !d.has_key(service, zone)
}

/// The test that keeps every acknowledger but those under `(service, zone)`.
pub open spec fn other_pending(service: Seq<char>, zone: Seq<char>) -> spec_fn(Pending) -> bool {
    |p: Pending| !(p.service@ == service && p.zone@ == zone)
}

/// The test that picks the acknowledgers under `(service, zone)`.
pub open spec fn this_pending(service: Seq<char>, zone: Seq<char>) -> spec_fn(Pending) -> bool {
    |p: Pending| p.service@ == service && p.zone@ == zone
}

/// Whether a service is registered under `(service, zone)`.
pub open spec fn registered(services: Seq<ServiceDesc>, service: Seq<char>, zone: Seq<char>) -> bool {
    exists|i: int| 0 <= i < services.len() && #[trigger] services[i].has_key(service, zone)
}

/// No two services stand under the same key.
pub open spec fn distinct_services(services: Seq<ServiceDesc>) -> bool {
    forall|i: int, j: int|
        #![trigger services[i], services[j]]
        0 <= i < j < services.len() ==> !services[i].same_key(&services[j])
}

/// The keepalive comes after half of the lease's time to live.
pub open spec fn keepalive_delay(ttl: i64) -> u64 {
    (ttl as u64) / 2
}

/// The action that abandons an acknowledger.
pub open spec fn abandon_of(p: Pending) -> ActionView {
    ActionView::Abandon { ack: p.ack }
}

/// The action that fulfils an acknowledger with success.
pub open spec fn success_of(p: Pending) -> ActionView {
    ActionView::Ack { ack: p.ack, result: Ok(()) }
}

/// The action that tells an acknowledger that its service is not permitted.
pub open spec fn denial_of(p: Pending) -> ActionView {
    ActionView::Ack {
        ack: p.ack,
        result: Err(ErrorView::NotPermitted("not permitted"@, seq![p.service@])),
    }
}

/// The actions that abandon the acknowledgers of a list, in its order.
pub open spec fn abandoned(pending: Seq<Pending>) -> Seq<ActionView> {
    pending.map_values(|p: Pending| abandon_of(p))
}

/// The actions that fulfil the acknowledgers of a list with success, in its order.
pub open spec fn succeeded(pending: Seq<Pending>) -> Seq<ActionView> {
    pending.map_values(|p: Pending| success_of(p))
}

/// The actions that tell the acknowledgers of a list that their service is
/// not permitted, in its order.
pub open spec fn denied(pending: Seq<Pending>) -> Seq<ActionView> {
    pending.map_values(|p: Pending| denial_of(p))
}

/// The actions that tell each subscriber that the node came online.
pub open spec fn told(subscribers: Seq<u64>, first: bool) -> Seq<ActionView> {
    subscribers.map_values(|subscriber: u64| ActionView::NotifyOnline { subscriber, first })
}

/// The test that keeps every subscriber but one.
pub open spec fn other_subscriber(subscriber: u64) -> spec_fn(u64) -> bool {
    |s: u64| s != subscriber
}

/// The test that keeps the services whose name is not among `names`.
pub open spec fn permitted_service(names: Seq<Seq<char>>) -> spec_fn(ServiceDesc) -> bool {
    |d: ServiceDesc| !names.contains(d.service@)
}

/// The test that keeps the acknowledgers whose service is not among `names`.
pub open spec fn permitted_pending(names: Seq<Seq<char>>) -> spec_fn(Pending) -> bool {
    |p: Pending| !names.contains(p.service@)
}

/// The test that picks the acknowledgers whose service is among `names`.
pub open spec fn denied_pending(names: Seq<Seq<char>>) -> spec_fn(Pending) -> bool {
    |p: Pending| names.contains(p.service@)
}

/// No two acknowledgers wait under the same key.
pub open spec fn distinct_pending(pending: Seq<Pending>) -> bool {
    forall|i: int, j: int|
        #![trigger pending[i], pending[j]]
        0 <= i < j < pending.len() ==> !(pending[i].service@ == pending[j].service@
            && pending[i].zone@ == pending[j].zone@)
}

/// The outcome of the operation that ran in one of the three slots.
#[derive(Debug, PartialEq, Eq)]
pub enum Completion {
    Grant(Result<LeaseGrantResult, Error>),
    Replug(Result<PlugResult, Error>),
    Keepalive(Result<(), Error>),
}

/// Every acknowledger waits for a service that is registered.
pub open spec fn pending_registered(services: Seq<ServiceDesc>, pending: Seq<Pending>) -> bool {
    forall|i: int|
        0 <= i < pending.len() ==> registered(
            services,
            (#[trigger] pending[i]).service@,
            pending[i].zone@,
        )
}

/// What happened outside the keeper.
#[derive(Debug, PartialEq, Eq)]
pub enum Event {
    /// A command arrived.
    Command(Cmd),
    /// The last sender of commands is gone.
    Disconnected,
    /// An operation in one of the three slots came back.
    Completed(Completion),
    /// A subscriber no longer listens.
    NotifierClosed(u64),
}

/// The keeper's state as a plain value.
pub struct KeepView {
    pub started: bool,
    pub closing: bool,
    pub ttl: Option<i64>,
    pub endpoint: ServiceEndpoint,
    pub app_node: Option<AppNode>,
    pub services: Seq<ServiceDesc>,
    pub lease_result: Option<LeaseGrantResult>,
    pub lease_future: bool,
    pub replug_future: bool,
    pub lease_keep_future: bool,
    pub replug_backs: Seq<Pending>,
    pub is_first_online: bool,
    pub online_notifiers: Seq<u64>,
}

/// A state together with the actions that led to it.
pub type Step = (KeepView, Seq<ActionView>);

impl KeepView {
    /// The registries hold each key once, an acknowledger waits only for a
    /// service that is registered, a grant in flight means that no lease is
    /// held, and without a lease neither replug nor keepalive runs.
    pub open spec fn wf(self) -> bool {
        &&& distinct_services(self.services)
        &&& distinct_pending(self.replug_backs)
        &&& pending_registered(self.services, self.replug_backs)
        &&& self.lease_future ==> self.lease_result is None
        &&& self.lease_result is None ==> !self.replug_future && !self.lease_keep_future
    }

    /// A grant is scheduled; the lease and the other two slots are given up.
    pub open spec fn new_lease(self, delay_new: bool) -> Step {
        (
            KeepView {
                lease_future: true,
                lease_keep_future: false,
                lease_result: None,
                replug_future: false,
                ..self
            },
            seq![
                ActionView::Grant {
                    delay: if delay_new { GRANT_RETRY_INTERVAL } else { 0 },
                    ttl: self.ttl,
                    app_node: self.app_node,
                },
            ],
        )
    }

    /// The next keepalive is scheduled, if a lease is held.
    pub open spec fn keep_lease(self) -> Step {
        match self.lease_result {
            Some(lease) => (
                KeepView { lease_keep_future: true, ..self },
                seq![
                    ActionView::Keepalive {
                        delay: keepalive_delay(lease.ttl),
                        lease_id: lease.lease_id,
                    },
                ],
            ),
            None => (KeepView { lease_keep_future: false, ..self }, seq![ActionView::StopKeepalive]),
        }
    }

    /// A replug of all services is scheduled, if a lease is held and any
    /// service is registered.
    pub open spec fn replug_all(self, delay_plug: bool) -> Step {
        match self.lease_result {
            Some(lease) if self.services.len() > 0 => (
                KeepView { replug_future: true, ..self },
                seq![
                    ActionView::ReplugAll {
                        delay: if delay_plug { GRANT_RETRY_INTERVAL } else { 0 },
                        services: self.services,
                        endpoint: self.endpoint,
                        lease_id: lease.lease_id,
                    },
                ],
            ),
            _ => (KeepView { replug_future: false, ..self }, seq![ActionView::StopReplug]),
        }
    }

    /// One service is plugged under the lease that is held.
    pub open spec fn plug_one(self, service: ServiceDesc, ack: u64) -> ActionView {
        match self.lease_result {
            Some(lease) => ActionView::PlugOne {
                desc: service,
                endpoint: self.endpoint,
                lease_id: lease.lease_id,
                ack,
            },
            None => ActionView::Abandon { ack },
        }
    }

    /// The lease that is held is revoked, with the node where there is one.
    pub open spec fn revoke_lease(self, done: u64) -> ActionView {
        match self.lease_result {
            Some(lease) => ActionView::Revoke {
                lease_id: lease.lease_id,
                key: match self.app_node {
                    Some(node) => Some(node.key@),
                    None => None,
                },
                label: match self.app_node {
                    Some(node) => opt_text(node.label),
                    None => None,
                },
                done,
            },
            None => ActionView::Done { done },
        }
    }

    /// The acknowledgers under a key are dropped.
    pub open spec fn unpark(self, service: Seq<char>, zone: Seq<char>) -> Step {
        (
            KeepView {
                replug_backs: self.replug_backs.filter(other_pending(service, zone)),
                ..self
            },
            abandoned(self.replug_backs.filter(this_pending(service, zone))),
        )
    }

    /// An acknowledger waits under its key for the next replug-all, in place
    /// of any that waited there.
    pub open spec fn park(self, service: String, zone: String, ack: u64) -> Step {
        let (s, dropped) = self.unpark(service@, zone@);
        (KeepView { replug_backs: s.replug_backs.push(Pending { service, zone, ack }), ..s }, dropped)
    }

    /// The keeper starts: without a lease it asks for one, unless a grant is
    /// in flight; with a lease it replugs. A keeper that was started stays as
    /// it is.
    pub open spec fn start(self) -> Step {
        if self.started {
            (self, seq![])
        } else {
            let s = KeepView { started: true, ..self };
            if s.lease_result is None {
                if !s.lease_future {
                    s.new_lease(false)
                } else {
                    (s, seq![])
                }
            } else {
                s.replug_all(false)
            }
        }
    }

    /// The endpoint is replaced; a keeper that was started and holds services
    /// takes a fresh lease for it.
    pub open spec fn update_endpoint(self, endpoint: ServiceEndpoint) -> Step {
        let s = KeepView { endpoint, ..self };
        if s.services.len() > 0 && s.started {
            s.new_lease(false)
        } else {
            (s, seq![])
        }
    }

    /// A service is registered. Under a key that is taken it is refused,
    /// unless it may replace. With a lease it is plugged alone at once;
    /// without one its acknowledger waits for the next replug-all, and a
    /// keeper that was started asks for a lease unless a grant is in flight.
    pub open spec fn plug(self, desc: ServiceDesc, ack: u64, replaceable: bool) -> Step {
        if registered(self.services, desc.service@, desc.zone@) && !replaceable {
            (
                self,
                seq![
                    ActionView::Ack { ack, result: Err(ErrorView::Other("already plugged"@)) },
                ],
            )
        } else {
            let s = KeepView {
                services: self.services.filter(other_service(desc.service@, desc.zone@)).push(
                    desc,
                ),
                ..self
            };
            if s.started && s.lease_result is Some {
                (s, seq![s.plug_one(desc, ack)])
            } else {
                let (parked, dropped) = s.park(desc.service, desc.zone, ack);
                if s.started && !s.lease_future {
                    let (granted, grant) = parked.new_lease(false);
                    (granted, dropped + grant)
                } else {
                    (parked, dropped)
                }
            }
        }
    }

    /// A service and the acknowledgers under its key are forgotten; a keeper
    /// that was started tells the registry if the service was registered.
    pub open spec fn unplug(self, service: String, zone: String) -> Step {
        let (s, dropped) = self.unpark(service@, zone@);
        let t = KeepView { services: s.services.filter(other_service(service@, zone@)), ..s };
        if registered(self.services, service@, zone@) && self.started {
            (
                t,
                dropped.push(
                    ActionView::Unplug {
                        service: service@,
                        zone: zone@,
                        address: self.endpoint.address@,
                    },
                ),
            )
        } else {
            (t, dropped)
        }
    }

    /// A service and the acknowledgers under its key are forgotten, and the
    /// registry is not told.
    pub open spec fn cancel(self, service: String, zone: String) -> Step {
        let (s, dropped) = self.unpark(service@, zone@);
        (KeepView { services: s.services.filter(other_service(service@, zone@)), ..s }, dropped)
    }

    /// The lease is revoked, keepalive and replug are stopped, and every
    /// service and acknowledger is forgotten.
    pub open spec fn clear(self, done: u64) -> Step {
        (
            KeepView {
                lease_keep_future: false,
                replug_future: false,
                replug_backs: Seq::empty(),
                services: Seq::empty(),
                ..self
            },
            seq![self.revoke_lease(done), ActionView::StopKeepalive, ActionView::StopReplug]
                + abandoned(self.replug_backs),
        )
    }

    /// The lease is revoked and the keeper ends.
    pub open spec fn revoke_and_close(self, done: u64) -> Step {
        (KeepView { closing: true, ..self }, seq![self.revoke_lease(done)])
    }

    /// A subscriber is added.
    pub open spec fn notify_node_online(self, subscriber: u64) -> Step {
        (KeepView { online_notifiers: self.online_notifiers.push(subscriber), ..self }, seq![])
    }

    /// The state and the actions after a command.
    pub open spec fn process_cmd(self, cmd: Cmd) -> Step {
        match cmd {
            Cmd::Start => self.start(),
            Cmd::UpdateEndpoint(endpoint) => self.update_endpoint(endpoint),
            Cmd::Plug(desc, ack, replaceable) => self.plug(desc, ack, replaceable),
            Cmd::Unplug(service, zone) => self.unplug(service, zone),
            Cmd::Cancel(service, zone) => self.cancel(service, zone),
            Cmd::Clear(done) => self.clear(done),
            Cmd::RevokeAndClose(done) => self.revoke_and_close(done),
            Cmd::NotifyNodeOnline(subscriber) => self.notify_node_online(subscriber),
        }
    }

    /// The state and the actions after the grant in flight came back.
    pub open spec fn granted(self, result: Result<LeaseGrantResult, Error>) -> Step {
        if !self.lease_future {
            (self, seq![])
        } else {
            match result {
                Ok(grant) => {
                    let online = grant.new_app_node == Some(true);
                    let heard = if online {
                        told(self.online_notifiers, self.is_first_online)
                    } else {
                        seq![]
                    };
                    let s = KeepView {
                        lease_future: false,
                        lease_result: Some(grant),
                        is_first_online: self.is_first_online && !online,
                        ..self
                    };
                    let (kept, keep) = s.keep_lease();
                    let (replugged, replug) = kept.replug_all(false);
                    (replugged, heard + keep + replug)
                },
                Err(e) => self.new_lease(!e.timeout()),
            }
        }
    }

    /// The state and the actions after the replug-all in flight came back.
    pub open spec fn replugged(self, result: Result<PlugResult, Error>) -> Step {
        if !self.replug_future {
            (self, seq![])
        } else {
            match result {
                Ok(plugged) => (
                    KeepView {
                        replug_future: false,
                        replug_backs: Seq::empty(),
                        lease_result: match self.lease_result {
                            Some(lease) => Some(
                                LeaseGrantResult { lease_id: plugged.lease_id, ..lease },
                            ),
                            None => None,
                        },
                        ..self
                    },
                    succeeded(self.replug_backs),
                ),
                Err(Error::NotPermitted(_, keys)) => {
                    let names = texts(keys@);
                    let s = KeepView {
                        services: self.services.filter(permitted_service(names)),
                        replug_backs: self.replug_backs.filter(permitted_pending(names)),
                        ..self
                    };
                    let (next, replug) = s.replug_all(false);
                    (
                        next,
                        denied(self.replug_backs.filter(denied_pending(names))) + replug,
                    )
                },
                Err(e) => self.replug_all(!e.timeout()),
            }
        }
    }

    /// The state and the actions after the keepalive in flight came back.
    pub open spec fn kept_alive(self, result: Result<(), Error>) -> Step {
        if !self.lease_keep_future {
            (self, seq![])
        } else {
            match result {
                Ok(_) => self.keep_lease(),
                Err(e) => if e.timeout() {
                    self.keep_lease()
                } else {
                    self.new_lease(false)
                },
            }
        }
    }

    /// The state and the actions after an operation in a slot came back.
    pub open spec fn process_futures(self, completion: Completion) -> Step {
        match completion {
            Completion::Grant(result) => self.granted(result),
            Completion::Replug(result) => self.replugged(result),
            Completion::Keepalive(result) => self.kept_alive(result),
        }
    }

    /// A subscriber that no longer listens is forgotten.
    pub open spec fn notifier_closed(self, subscriber: u64) -> Step {
        (
            KeepView {
                online_notifiers: self.online_notifiers.filter(other_subscriber(subscriber)),
                ..self
            },
            seq![],
        )
    }

    /// The state after a sequence of events.
    pub open spec fn run(self, events: Seq<Event>) -> KeepView
        decreases events.len(),
    {
        if events.len() == 0 {
            self
        } else {
            self.run(events.drop_last()).poll(events.last()).0
        }
    }

    /// The state and the actions after an event. A keeper that is closing
    /// takes no event any more.
    pub open spec fn poll(self, event: Event) -> Step {
        if self.closing {
            (self, seq![])
        } else {
            match event {
                Event::Command(cmd) => self.process_cmd(cmd),
                Event::Disconnected => (KeepView { closing: true, ..self }, seq![]),
                Event::Completed(completion) => self.process_futures(completion),
                Event::NotifierClosed(subscriber) => self.notifier_closed(subscriber),
            }
        }
    }
}

impl Clone for Pending {
    fn clone(&self) -> (r: Self)
        ensures
            r == *self,
    {
        Pending { service: self.service.clone(), zone: self.zone.clone(), ack: self.ack }
    }
}

/// The keeper's state.
#[derive(Debug)]
pub struct KeepTask {
    pub started: bool,
    pub closing: bool,
    pub ttl: Option<i64>,
    pub endpoint: ServiceEndpoint,
    pub app_node: Option<AppNode>,
    /// The registered services, each key once, in the order of their plugging.
    pub services: Vec<ServiceDesc>,
    /// The lease that is held.
    pub lease_result: Option<LeaseGrantResult>,
    /// Whether a grant is in flight.
    pub lease_future: bool,
    /// Whether a replug-all is in flight.
    pub replug_future: bool,
    /// Whether a keepalive is in flight.
    pub lease_keep_future: bool,
    /// The acknowledgers that wait for the next replug-all, each key once.
    pub replug_backs: Vec<Pending>,
    pub is_first_online: bool,
    pub online_notifiers: Vec<u64>,
}

impl View for KeepTask {
    type V = KeepView;

    open spec fn view(&self) -> KeepView {
        KeepView {
            started: self.started,
            closing: self.closing,
            ttl: self.ttl,
            endpoint: self.endpoint,
            app_node: self.app_node,
            services: self.services@,
            lease_result: self.lease_result,
            lease_future: self.lease_future,
            replug_future: self.replug_future,
            lease_keep_future: self.lease_keep_future,
            replug_backs: self.replug_backs@,
            is_first_online: self.is_first_online,
            online_notifiers: self.online_notifiers@,
        }
    }
}

/// `post` and `now` are what `step` makes of the actions `before`.
pub open spec fn follows(
    before: Seq<ActionView>,
    step: Step,
    post: KeepView,
    now: Seq<ActionView>,
) -> bool {
    post == step.0 && now == before + step.1
}

fn push_action(actions: &mut Vec<Action>, action: Action)
    ensures
        views(final(actions)@) == views(old(actions)@).push(action@),
{
    actions.push(action);
    assert(views(actions@) =~= views(old(actions)@).push(action@));
}

fn clone_opt_node(node: &Option<AppNode>) -> (r: Option<AppNode>)
    ensures
        r == *node,
{
    match node {
        Some(n) => Some(n.clone()),
        None => None,
    }
}

fn clone_services(services: &Vec<ServiceDesc>) -> (r: Vec<ServiceDesc>)
    ensures
        r@ == services@,
{
    let mut out: Vec<ServiceDesc> = Vec::new();
    let mut i: usize = 0;
    while i < services.len()
        invariant
            i <= services.len(),
            out@ == services@.subrange(0, i as int),
        decreases services.len() - i,
    {
        out.push(services[i].clone());
        assert(out@ =~= services@.subrange(0, i + 1));
        i += 1;
    }
    assert(services@.subrange(0, services.len() as int) =~= services@);
    out
}

/// The services without the one under `(service, zone)`, and whether there was one.
fn services_without(services: &Vec<ServiceDesc>, service: &String, zone: &String) -> (r: (
    Vec<ServiceDesc>,
    bool,
))
    ensures
        r.0@ == services@.filter(other_service(service@, zone@)),
        r.1 == registered(services@, service@, zone@),
{
    let mut kept: Vec<ServiceDesc> = Vec::new();
    let mut found = false;
    let mut i: usize = 0;
    while i < services.len()
        invariant
            i <= services.len(),
            kept@ == services@.subrange(0, i as int).filter(other_service(service@, zone@)),
            found == exists|j: int|
                0 <= j < i && #[trigger] services@[j].has_key(service@, zone@),
        decreases services.len() - i,
    {
        proof {
            lemma_filter_next(services@, other_service(service@, zone@), i as int);
        }
        if services[i].service == *service && services[i].zone == *zone {
            found = true;
        } else {
            kept.push(services[i].clone());
        }
        i += 1;
    }
    assert(services@.subrange(0, services.len() as int) =~= services@);
    (kept, found)
}

/// The acknowledgers without those under `(service, zone)`, which are abandoned.
fn pending_without(
    pending: &Vec<Pending>,
    service: &String,
    zone: &String,
    actions: &mut Vec<Action>,
) -> (kept: Vec<Pending>)
    ensures
        kept@ == pending@.filter(other_pending(service@, zone@)),
        views(final(actions)@) == views(old(actions)@) + abandoned(
            pending@.filter(this_pending(service@, zone@)),
        ),
{
    let mut kept: Vec<Pending> = Vec::new();
    let mut i: usize = 0;
    assert(views(actions@) =~= views(old(actions)@) + abandoned(
        pending@.subrange(0, 0).filter(this_pending(service@, zone@)),
    )) by {
        lemma_filter_origin(pending@.subrange(0, 0), this_pending(service@, zone@));
    }
    while i < pending.len()
        invariant
            i <= pending.len(),
            kept@ == pending@.subrange(0, i as int).filter(other_pending(service@, zone@)),
            views(actions@) == views(old(actions)@) + abandoned(
                pending@.subrange(0, i as int).filter(this_pending(service@, zone@)),
            ),
        decreases pending.len() - i,
    {
        proof {
            lemma_filter_next(pending@, other_pending(service@, zone@), i as int);
            lemma_filter_next(pending@, this_pending(service@, zone@), i as int);
        }
        let ghost gone = pending@.subrange(0, i as int).filter(this_pending(service@, zone@));
        if pending[i].service == *service && pending[i].zone == *zone {
            push_action(actions, Action::Abandon { ack: pending[i].ack });
            assert(abandoned(gone.push(pending@[i as int])) =~= abandoned(gone).push(
                abandon_of(pending@[i as int]),
            ));
            assert(views(actions@) =~= views(old(actions)@) + abandoned(
                gone.push(pending@[i as int]),
            ));
        } else {
            kept.push(pending[i].clone());
        }
        i += 1;
    }
    assert(pending@.subrange(0, pending.len() as int) =~= pending@);
    kept
}

/// Whether `name` is among `names`.
fn names_contain(names: &Vec<String>, name: &String) -> (r: bool)
    ensures
        r == texts(names@).contains(name@),
{
    let mut i: usize = 0;
    while i < names.len()
        invariant
            i <= names.len(),
            forall|j: int| 0 <= j < i ==> texts(names@)[j] != name@,
        decreases names.len() - i,
    {
        if names[i] == *name {
            assert(texts(names@)[i as int] == name@);
            return true;
        }
        i += 1;
    }
    false
}

/// The services whose name is not among `names`.
fn services_permitted(services: &Vec<ServiceDesc>, names: &Vec<String>) -> (kept: Vec<ServiceDesc>)
    ensures
        kept@ == services@.filter(permitted_service(texts(names@))),
{
    let mut kept: Vec<ServiceDesc> = Vec::new();
    let mut i: usize = 0;
    while i < services.len()
        invariant
            i <= services.len(),
            kept@ == services@.subrange(0, i as int).filter(permitted_service(texts(names@))),
        decreases services.len() - i,
    {
        proof {
            lemma_filter_next(services@, permitted_service(texts(names@)), i as int);
        }
        if !names_contain(names, &services[i].service) {
            kept.push(services[i].clone());
        }
        i += 1;
    }
    assert(services@.subrange(0, services.len() as int) =~= services@);
    kept
}

/// The acknowledgers whose service is not among `names`; the others are told
/// that their service is not permitted.
fn pending_permitted(pending: &Vec<Pending>, names: &Vec<String>, actions: &mut Vec<Action>) -> (kept:
    Vec<Pending>)
    ensures
        kept@ == pending@.filter(permitted_pending(texts(names@))),
        views(final(actions)@) == views(old(actions)@) + denied(
            pending@.filter(denied_pending(texts(names@))),
        ),
{
    let mut kept: Vec<Pending> = Vec::new();
    let mut i: usize = 0;
    assert(views(actions@) =~= views(old(actions)@) + denied(
        pending@.subrange(0, 0).filter(denied_pending(texts(names@))),
    )) by {
        lemma_filter_origin(pending@.subrange(0, 0), denied_pending(texts(names@)));
    }
    while i < pending.len()
        invariant
            i <= pending.len(),
            kept@ == pending@.subrange(0, i as int).filter(permitted_pending(texts(names@))),
            views(actions@) == views(old(actions)@) + denied(
                pending@.subrange(0, i as int).filter(denied_pending(texts(names@))),
            ),
        decreases pending.len() - i,
    {
        proof {
            lemma_filter_next(pending@, permitted_pending(texts(names@)), i as int);
            lemma_filter_next(pending@, denied_pending(texts(names@)), i as int);
        }
        let ghost gone = pending@.subrange(0, i as int).filter(denied_pending(texts(names@)));
        if names_contain(names, &pending[i].service) {
            let mut keys: Vec<String> = Vec::new();
            keys.push(pending[i].service.clone());
            assert(texts(keys@) =~= seq![pending@[i as int].service@]);
            let refusal = Error::NotPermitted(String::from_str("not permitted"), keys);
            push_action(actions, Action::Ack { ack: pending[i].ack, result: Err(refusal) });
            assert(denied(gone.push(pending@[i as int])) =~= denied(gone).push(
                denial_of(pending@[i as int]),
            ));
            assert(views(actions@) =~= views(old(actions)@) + denied(
                gone.push(pending@[i as int]),
            ));
        } else {
            kept.push(pending[i].clone());
        }
        i += 1;
    }
    assert(pending@.subrange(0, pending.len() as int) =~= pending@);
    kept
}

/// Every acknowledger of the list is fulfilled with success.
fn acknowledge_all(pending: &Vec<Pending>, actions: &mut Vec<Action>)
    ensures
        views(final(actions)@) == views(old(actions)@) + succeeded(pending@),
{
    let mut i: usize = 0;
    assert(views(actions@) =~= views(old(actions)@) + succeeded(pending@.subrange(0, 0)));
    while i < pending.len()
        invariant
            i <= pending.len(),
            views(actions@) == views(old(actions)@) + succeeded(pending@.subrange(0, i as int)),
        decreases pending.len() - i,
    {
        push_action(actions, Action::Ack { ack: pending[i].ack, result: Ok(()) });
        assert(pending@.subrange(0, i + 1) =~= pending@.subrange(0, i as int).push(
            pending@[i as int],
        ));
        assert(views(actions@) =~= views(old(actions)@) + succeeded(pending@.subrange(0, i + 1)));
        i += 1;
    }
    assert(pending@.subrange(0, pending.len() as int) =~= pending@);
}

/// Every acknowledger of the list is abandoned.
fn abandon_all(pending: &Vec<Pending>, actions: &mut Vec<Action>)
    ensures
        views(final(actions)@) == views(old(actions)@) + abandoned(pending@),
{
    let mut i: usize = 0;
    assert(views(actions@) =~= views(old(actions)@) + abandoned(pending@.subrange(0, 0)));
    while i < pending.len()
        invariant
            i <= pending.len(),
            views(actions@) == views(old(actions)@) + abandoned(pending@.subrange(0, i as int)),
        decreases pending.len() - i,
    {
        push_action(actions, Action::Abandon { ack: pending[i].ack });
        assert(pending@.subrange(0, i + 1) =~= pending@.subrange(0, i as int).push(
            pending@[i as int],
        ));
        assert(views(actions@) =~= views(old(actions)@) + abandoned(pending@.subrange(0, i + 1)));
        i += 1;
    }
    assert(pending@.subrange(0, pending.len() as int) =~= pending@);
}

/// Every subscriber is told that the node came online.
fn tell_all(subscribers: &Vec<u64>, first: bool, actions: &mut Vec<Action>)
    ensures
        views(final(actions)@) == views(old(actions)@) + told(subscribers@, first),
{
    let mut i: usize = 0;
    assert(views(actions@) =~= views(old(actions)@) + told(subscribers@.subrange(0, 0), first));
    while i < subscribers.len()
        invariant
            i <= subscribers.len(),
            views(actions@) == views(old(actions)@) + told(
                subscribers@.subrange(0, i as int),
                first,
            ),
        decreases subscribers.len() - i,
    {
        push_action(actions, Action::NotifyOnline { subscriber: subscribers[i], first });
        assert(subscribers@.subrange(0, i + 1) =~= subscribers@.subrange(0, i as int).push(
            subscribers@[i as int],
        ));
        assert(views(actions@) =~= views(old(actions)@) + told(
            subscribers@.subrange(0, i + 1),
            first,
        ));
        i += 1;
    }
    assert(subscribers@.subrange(0, subscribers.len() as int) =~= subscribers@);
}

/// The subscribers without one of them.
fn subscribers_without(subscribers: &Vec<u64>, subscriber: u64) -> (kept: Vec<u64>)
    ensures
        kept@ == subscribers@.filter(other_subscriber(subscriber)),
{
    let mut kept: Vec<u64> = Vec::new();
    let mut i: usize = 0;
    while i < subscribers.len()
        invariant
            i <= subscribers.len(),
            kept@ == subscribers@.subrange(0, i as int).filter(other_subscriber(subscriber)),
        decreases subscribers.len() - i,
    {
        proof {
            lemma_filter_next(subscribers@, other_subscriber(subscriber), i as int);
        }
        if subscribers[i] != subscriber {
            kept.push(subscribers[i]);
        }
        i += 1;
    }
    assert(subscribers@.subrange(0, subscribers.len() as int) =~= subscribers@);
    kept
}

impl KeepTask {
    /// A keeper that was not started, holds no lease and knows no service.
    pub fn new(ttl: Option<i64>, app_node: Option<AppNode>, endpoint: ServiceEndpoint) -> (task:
        KeepTask)
        ensures
            task@ == (KeepView {
                started: false,
                closing: false,
                ttl,
                endpoint,
                app_node,
                services: Seq::empty(),
                lease_result: None,
                lease_future: false,
                replug_future: false,
                lease_keep_future: false,
                replug_backs: Seq::empty(),
                is_first_online: true,
                online_notifiers: Seq::empty(),
            }),
            task@.wf(),
    {
        KeepTask {
            started: false,
            closing: false,
            ttl,
            app_node,
            endpoint,
            services: Vec::new(),
            lease_result: None,
            lease_future: false,
            replug_future: false,
            replug_backs: Vec::new(),
            lease_keep_future: false,
            is_first_online: true,
            online_notifiers: Vec::new(),
        }
    }

    fn new_lease(&mut self, delay_new: bool, actions: &mut Vec<Action>)
        ensures
            follows(
                views(old(actions)@),
                old(self)@.new_lease(delay_new),
                final(self)@,
                views(final(actions)@),
            ),
    {
        let delay: u64 = if delay_new {
            GRANT_RETRY_INTERVAL
        } else {
            0
        };
        push_action(
            actions,
            Action::Grant { delay, ttl: self.ttl, app_node: clone_opt_node(&self.app_node) },
        );
        self.lease_future = true;
        self.lease_keep_future = false;
        self.lease_result = None;
        self.replug_future = false;
        assert(views(actions@) =~= views(old(actions)@) + old(self)@.new_lease(delay_new).1);
    }

    fn keep_lease(&mut self, actions: &mut Vec<Action>)
        ensures
            follows(
                views(old(actions)@),
                old(self)@.keep_lease(),
                final(self)@,
                views(final(actions)@),
            ),
    {
        match self.lease_result {
            Some(lease) => {
                let delay: u64 = #[verifier::truncate]
                (lease.ttl as u64) / 2;
                push_action(actions, Action::Keepalive { delay, lease_id: lease.lease_id });
                self.lease_keep_future = true;
            },
            None => {
                push_action(actions, Action::StopKeepalive);
                self.lease_keep_future = false;
            },
        }
        assert(views(actions@) =~= views(old(actions)@) + old(self)@.keep_lease().1);
    }

    fn replug_all(&mut self, delay_plug: bool, actions: &mut Vec<Action>)
        ensures
            follows(
                views(old(actions)@),
                old(self)@.replug_all(delay_plug),
                final(self)@,
                views(final(actions)@),
            ),
    {
        self.replug_future = false;
        let mut scheduled = false;
        if let Some(lease) = self.lease_result {
            if self.services.len() > 0 {
                let delay: u64 = if delay_plug {
                    GRANT_RETRY_INTERVAL
                } else {
                    0
                };
                push_action(
                    actions,
                    Action::ReplugAll {
                        delay,
                        services: clone_services(&self.services),
                        endpoint: self.endpoint.clone(),
                        lease_id: lease.lease_id,
                    },
                );
                self.replug_future = true;
                scheduled = true;
            }
        }
        if !scheduled {
            push_action(actions, Action::StopReplug);
        }
        assert(views(actions@) =~= views(old(actions)@) + old(self)@.replug_all(delay_plug).1);
    }

    fn plug_one(&self, service: ServiceDesc, ack: u64, actions: &mut Vec<Action>)
        ensures
            views(final(actions)@) == views(old(actions)@).push(self@.plug_one(service, ack)),
    {
        match self.lease_result {
            Some(lease) => {
                push_action(
                    actions,
                    Action::PlugOne {
                        desc: service,
                        endpoint: self.endpoint.clone(),
                        lease_id: lease.lease_id,
                        ack,
                    },
                );
            },
            None => {
                push_action(actions, Action::Abandon { ack });
            },
        }
    }

    fn revoke_lease(&self, done: u64, actions: &mut Vec<Action>)
        ensures
            views(final(actions)@) == views(old(actions)@).push(self@.revoke_lease(done)),
    {
        match self.lease_result {
            Some(lease) => {
                let node = match &self.app_node {
                    Some(n) => Some((n.key.clone(), clone_opt_string(&n.label))),
                    None => None,
                };
                push_action(actions, Action::Revoke { lease_id: lease.lease_id, node, done });
            },
            None => {
                push_action(actions, Action::Done { done });
            },
        }
    }

    fn unpark(&mut self, service: &String, zone: &String, actions: &mut Vec<Action>)
        ensures
            follows(
                views(old(actions)@),
                old(self)@.unpark(service@, zone@),
                final(self)@,
                views(final(actions)@),
            ),
    {
        let kept = pending_without(&self.replug_backs, service, zone, actions);
        self.replug_backs = kept;
    }

    fn start(&mut self, actions: &mut Vec<Action>)
        ensures
            follows(views(old(actions)@), old(self)@.start(), final(self)@, views(final(actions)@)),
    {
        if !self.started {
            self.started = true;
            if self.lease_result.is_none() {
                if !self.lease_future {
                    self.new_lease(false, actions);
                }
            } else {
                self.replug_all(false, actions);
            }
        }
        assert(views(actions@) =~= views(old(actions)@) + old(self)@.start().1);
    }

    fn update_endpoint(&mut self, endpoint: ServiceEndpoint, actions: &mut Vec<Action>)
        ensures
            follows(
                views(old(actions)@),
                old(self)@.update_endpoint(endpoint),
                final(self)@,
                views(final(actions)@),
            ),
    {
        self.endpoint = endpoint;
        if self.services.len() > 0 && self.started {
            self.new_lease(false, actions);
        }
        assert(views(actions@) =~= views(old(actions)@) + old(self)@.update_endpoint(endpoint).1);
    }

    fn plug(&mut self, desc: ServiceDesc, ack: u64, replaceable: bool, actions: &mut Vec<Action>)
        ensures
            follows(
                views(old(actions)@),
                old(self)@.plug(desc, ack, replaceable),
                final(self)@,
                views(final(actions)@),
            ),
    {
        let (mut kept, found) = services_without(&self.services, &desc.service, &desc.zone);
        if found && !replaceable {
            push_action(
                actions,
                Action::Ack { ack, result: Err(Error::other("already plugged")) },
            );
        } else {
            kept.push(desc.clone());
            self.services = kept;
            if self.started && self.lease_result.is_some() {
                self.plug_one(desc, ack, actions);
            } else {
                self.unpark(&desc.service, &desc.zone, actions);
                self.replug_backs.push(Pending { service: desc.service, zone: desc.zone, ack });
                if self.started && !self.lease_future {
                    self.new_lease(false, actions);
                }
            }
        }
        assert(views(actions@) =~= views(old(actions)@) + old(self)@.plug(
            desc,
            ack,
            replaceable,
        ).1);
    }

    fn unplug(&mut self, service: String, zone: String, actions: &mut Vec<Action>)
        ensures
            follows(
                views(old(actions)@),
                old(self)@.unplug(service, zone),
                final(self)@,
                views(final(actions)@),
            ),
    {
        self.unpark(&service, &zone, actions);
        let (kept, found) = services_without(&self.services, &service, &zone);
        self.services = kept;
        if found && self.started {
            let address = self.endpoint.address.clone();
            push_action(actions, Action::Unplug { service, zone, address });
        }
        assert(views(actions@) =~= views(old(actions)@) + old(self)@.unplug(service, zone).1);
    }

    fn cancel(&mut self, service: String, zone: String, actions: &mut Vec<Action>)
        ensures
            follows(
                views(old(actions)@),
                old(self)@.cancel(service, zone),
                final(self)@,
                views(final(actions)@),
            ),
    {
        let (kept, _found) = services_without(&self.services, &service, &zone);
        self.services = kept;
        self.unpark(&service, &zone, actions);
    }

    fn clear(&mut self, done: u64, actions: &mut Vec<Action>)
        ensures
            follows(
                views(old(actions)@),
                old(self)@.clear(done),
                final(self)@,
                views(final(actions)@),
            ),
    {
        self.revoke_lease(done, actions);
        push_action(actions, Action::StopKeepalive);
        push_action(actions, Action::StopReplug);
        abandon_all(&self.replug_backs, actions);
        self.lease_keep_future = false;
        self.replug_future = false;
        self.replug_backs = Vec::new();
        self.services = Vec::new();
        assert(views(actions@) =~= views(old(actions)@) + old(self)@.clear(done).1);
    }

    /// Takes one command and appends the actions that it asks for.
    pub fn process_cmd(&mut self, cmd: Cmd) -> (actions: Vec<Action>)
        ensures
            final(self)@ == old(self)@.process_cmd(cmd).0,
            views(actions@) == old(self)@.process_cmd(cmd).1,
    {
        let mut actions: Vec<Action> = Vec::new();
        assert(views(actions@) =~= Seq::empty());
        match cmd {
            Cmd::Start => {
                self.start(&mut actions);
            },
            Cmd::UpdateEndpoint(endpoint) => {
                self.update_endpoint(endpoint, &mut actions);
            },
            Cmd::Plug(desc, ack, replaceable) => {
                self.plug(desc, ack, replaceable, &mut actions);
            },
            Cmd::Unplug(service, zone) => {
                self.unplug(service, zone, &mut actions);
            },
            Cmd::Cancel(service, zone) => {
                self.cancel(service, zone, &mut actions);
            },
            Cmd::Clear(done) => {
                self.clear(done, &mut actions);
            },
            Cmd::RevokeAndClose(done) => {
                self.revoke_lease(done, &mut actions);
                self.closing = true;
            },
            Cmd::NotifyNodeOnline(subscriber) => {
                self.online_notifiers.push(subscriber);
            },
        }
        assert(views(actions@) =~= old(self)@.process_cmd(cmd).1);
        actions
    }

    fn granted(&mut self, result: Result<LeaseGrantResult, Error>, actions: &mut Vec<Action>)
        ensures
            follows(
                views(old(actions)@),
                old(self)@.granted(result),
                final(self)@,
                views(final(actions)@),
            ),
    {
        if self.lease_future {
            match result {
                Ok(grant) => {
                    let online = match grant.new_app_node {
                        Some(b) => b,
                        None => false,
                    };
                    if online {
                        tell_all(&self.online_notifiers, self.is_first_online, actions);
                        self.is_first_online = false;
                    }
                    self.lease_future = false;
                    self.lease_result = Some(grant);
                    self.keep_lease(actions);
                    self.replug_all(false, actions);
                },
                Err(e) => {
                    self.new_lease(!e.is_timeout(), actions);
                },
            }
        }
        assert(views(actions@) =~= views(old(actions)@) + old(self)@.granted(result).1);
    }

    fn replugged(&mut self, result: Result<PlugResult, Error>, actions: &mut Vec<Action>)
        ensures
            follows(
                views(old(actions)@),
                old(self)@.replugged(result),
                final(self)@,
                views(final(actions)@),
            ),
    {
        if self.replug_future {
            match result {
                Ok(plugged) => {
                    self.replug_future = false;
                    acknowledge_all(&self.replug_backs, actions);
                    self.replug_backs = Vec::new();
                    if let Some(lease) = self.lease_result {
                        self.lease_result = Some(
                            LeaseGrantResult {
                                lease_id: plugged.lease_id,
                                ttl: lease.ttl,
                                new_app_node: lease.new_app_node,
                            },
                        );
                    }
                },
                Err(Error::NotPermitted(_, keys)) => {
                    let services = services_permitted(&self.services, &keys);
                    let pending = pending_permitted(&self.replug_backs, &keys, actions);
                    self.services = services;
                    self.replug_backs = pending;
                    self.replug_all(false, actions);
                },
                Err(e) => {
                    self.replug_all(!e.is_timeout(), actions);
                },
            }
        }
        assert(views(actions@) =~= views(old(actions)@) + old(self)@.replugged(result).1);
    }

    fn kept_alive(&mut self, result: Result<(), Error>, actions: &mut Vec<Action>)
        ensures
            follows(
                views(old(actions)@),
                old(self)@.kept_alive(result),
                final(self)@,
                views(final(actions)@),
            ),
    {
        if self.lease_keep_future {
            match result {
                Ok(_) => {
                    self.keep_lease(actions);
                },
                Err(e) => {
                    if e.is_timeout() {
                        self.keep_lease(actions);
                    } else {
                        self.new_lease(false, actions);
                    }
                },
            }
        }
        assert(views(actions@) =~= views(old(actions)@) + old(self)@.kept_alive(result).1);
    }

    /// Takes the outcome of an operation that ran in one of the three slots.
    /// An outcome for a slot in which nothing runs changes nothing.
    pub fn process_futures(&mut self, completion: Completion) -> (actions: Vec<Action>)
        ensures
            final(self)@ == old(self)@.process_futures(completion).0,
            views(actions@) == old(self)@.process_futures(completion).1,
    {
        let mut actions: Vec<Action> = Vec::new();
        assert(views(actions@) =~= Seq::empty());
        match completion {
            Completion::Grant(result) => {
                self.granted(result, &mut actions);
            },
            Completion::Replug(result) => {
                self.replugged(result, &mut actions);
            },
            Completion::Keepalive(result) => {
                self.kept_alive(result, &mut actions);
            },
        }
        assert(views(actions@) =~= old(self)@.process_futures(completion).1);
        actions
    }

    /// Takes one event. The keeper has ended once `closing` is set; from then
    /// on it takes no event.
    pub fn poll(&mut self, event: Event) -> (actions: Vec<Action>)
        ensures
            final(self)@ == old(self)@.poll(event).0,
            views(actions@) == old(self)@.poll(event).1,
            old(self)@.wf() ==> final(self)@.wf(),
    {
        proof {
            if self@.wf() {
                poll_keeps_well_formed(self@, event);
            }
        }
        if self.closing {
            let actions: Vec<Action> = Vec::new();
            assert(views(actions@) =~= Seq::empty());
            return actions;
        }
        match event {
            Event::Command(cmd) => self.process_cmd(cmd),
            Event::Completed(completion) => self.process_futures(completion),
            Event::Disconnected => {
                self.closing = true;
                let actions: Vec<Action> = Vec::new();
                assert(views(actions@) =~= Seq::empty());
                actions
            },
            Event::NotifierClosed(subscriber) => {
                let kept = subscribers_without(&self.online_notifiers, subscriber);
                self.online_notifiers = kept;
                let actions: Vec<Action> = Vec::new();
                assert(views(actions@) =~= Seq::empty());
                actions
            },
        }
    }
}

/// What follows the outcome of a plug of one service: the command to send
/// to the keeper, if any, and then the answer for the acknowledger.
#[derive(Debug, PartialEq, Eq)]
pub struct PlugOutcome {
    pub cancel: Option<Cmd>,
    pub ack: Action,
}

/// Decides what follows the outcome of a plug of one service. The
/// acknowledger gets the outcome; a failure that cannot be retried also
/// cancels the registration.
pub fn plug_one_done(service: ServiceDesc, ack: u64, result: Result<PlugResult, Error>) -> (out:
    PlugOutcome)
    ensures
        out.ack@ == (ActionView::Ack {
            ack,
            result: match result {
                Ok(_) => Ok(()),
                Err(e) => Err(e@),
            },
        }),
        out.cancel == match result {
            Err(e) if !e.retryable() => Some(Cmd::Cancel(service.service, service.zone)),
            _ => None,
        },
{
    match result {
        Ok(_) => PlugOutcome { cancel: None, ack: Action::Ack { ack, result: Ok(()) } },
        Err(e) => {
            let cancel = if !e.can_retry() {
                Some(Cmd::Cancel(service.service, service.zone))
            } else {
                None
            };
            PlugOutcome { cancel, ack: Action::Ack { ack, result: Err(e) } }
        },
    }
}

/// The failure of a revoke that is worth reporting: any but "not found".
pub fn revoke_failure(result: Result<(), Error>) -> (r: Option<Error>)
    ensures
        r == match result {
            Err(e) if !e.not_found() => Some(e),
            _ => None,
        },
{
    match result {
        Ok(_) => None,
        Err(e) => if e.is_not_found() {
            None
        } else {
            Some(e)
        },
    }
}

/// What the caller of a plug learns: the keeper's answer, or that the keeper
/// has ended where the acknowledger was dropped unfulfilled.
pub fn plug_reply(reply: Option<Result<(), Error>>) -> (r: Result<(), Error>)
    ensures
        match reply {
            Some(Ok(_)) => r is Ok,
            Some(Err(e)) => r == Err::<(), Error>(e),
            None => r is Err && r->Err_0@ == ErrorView::Other("keep task closed"@),
        },
{
    match reply {
        Some(Ok(_)) => Ok(()),
        Some(Err(e)) => Err(e),
        None => Err(Error::other("keep task closed")),
    }
}

/// Whatever happens, a well-formed keeper stays well formed: its registries
/// hold each key once, an acknowledger waits only for a registered service,
/// and no replug or keepalive runs without a lease.
pub proof fn poll_keeps_well_formed(s: KeepView, event: Event)
    requires
        s.wf(),
    ensures
        s.poll(event).0.wf(),
{
    let t = s.poll(event).0;
    if !s.closing {
        match event {
            Event::Command(Cmd::Plug(desc, ack, replaceable)) => {
                lemma_without_service(s.services, desc.service@, desc.zone@);
                lemma_without_pending(s.replug_backs, desc.service@, desc.zone@);
                lemma_registered_after_plug(s.services, desc);
                lemma_filter_origin(s.replug_backs, other_pending(desc.service@, desc.zone@));
                assert forall|i: int| 0 <= i < t.replug_backs.len() implies registered(
                    t.services,
                    (#[trigger] t.replug_backs[i]).service@,
                    t.replug_backs[i].zone@,
                ) by {
                    let p = t.replug_backs[i];
                    if !(p.service@ == desc.service@ && p.zone@ == desc.zone@) {
                        assert(s.replug_backs.contains(p));
                        let k = choose|k: int| 0 <= k < s.replug_backs.len() && s.replug_backs[k] == p;
                        assert(registered(s.services, s.replug_backs[k].service@, s.replug_backs[k].zone@));
                    }
                }
            },
            Event::Command(Cmd::Unplug(service, zone)) => {
                lemma_without_service(s.services, service@, zone@);
                lemma_without_pending(s.replug_backs, service@, zone@);
                lemma_registered_after_filter(s.services, other_service(service@, zone@));
                lemma_pending_after_filter(s, t, other_pending(service@, zone@));
            },
            Event::Command(Cmd::Cancel(service, zone)) => {
                lemma_without_service(s.services, service@, zone@);
                lemma_without_pending(s.replug_backs, service@, zone@);
                lemma_registered_after_filter(s.services, other_service(service@, zone@));
                lemma_pending_after_filter(s, t, other_pending(service@, zone@));
            },
            Event::Completed(Completion::Replug(Err(Error::NotPermitted(_, keys)))) => {
                if s.replug_future {
                    let names = texts(keys@);
                    lemma_filter_distinct_services(s.services, permitted_service(names));
                    lemma_filter_distinct_pending(s.replug_backs, permitted_pending(names));
                    lemma_registered_after_filter(s.services, permitted_service(names));
                    lemma_pending_after_filter(s, t, permitted_pending(names));
                }
            },
            _ => {},
        }
    }
}

/// Through its whole life a keeper is well formed, and once it is closing it
/// stays so.
pub proof fn keeper_stays_well_formed(s: KeepView, events: Seq<Event>)
    requires
        s.wf(),
    ensures
        s.run(events).wf(),
        s.closing ==> s.run(events) == s,
    decreases events.len(),
{
    if events.len() > 0 {
        keeper_stays_well_formed(s, events.drop_last());
        poll_keeps_well_formed(s.run(events.drop_last()), events.last());
    }
}

/// A key that is registered stays so after a plug, and the key of the plug
/// is registered.
proof fn lemma_registered_after_plug(services: Seq<ServiceDesc>, desc: ServiceDesc)
    ensures
        registered(
            services.filter(other_service(desc.service@, desc.zone@)).push(desc),
            desc.service@,
            desc.zone@,
        ),
        forall|service: Seq<char>, zone: Seq<char>| #[trigger]
            registered(services, service, zone) ==> registered(
                services.filter(other_service(desc.service@, desc.zone@)).push(desc),
                service,
                zone,
            ),
{
    let kept = services.filter(other_service(desc.service@, desc.zone@));
    let after = kept.push(desc);
    lemma_filter_origin(services, other_service(desc.service@, desc.zone@));
    assert(after[kept.len() as int].has_key(desc.service@, desc.zone@));
    assert forall|service: Seq<char>, zone: Seq<char>| #[trigger]
        registered(services, service, zone) implies registered(after, service, zone) by {
        let j = choose|j: int| 0 <= j < services.len() && #[trigger] services[j].has_key(service, zone);
        if services[j].has_key(desc.service@, desc.zone@) {
            assert(after[kept.len() as int].has_key(service, zone));
        } else {
            assert(services.contains(services[j]));
            assert(kept.contains(services[j]));
            let m = choose|m: int| 0 <= m < kept.len() && kept[m] == services[j];
            assert(after[m].has_key(service, zone));
        }
    }
}

/// A key that is registered stays so after a filter that keeps a service
/// under it.
proof fn lemma_registered_after_filter(services: Seq<ServiceDesc>, keep: spec_fn(ServiceDesc) -> bool)
    ensures
        forall|j: int|
            0 <= j < services.len() && keep(#[trigger] services[j]) ==> registered(
                services.filter(keep),
                services[j].service@,
                services[j].zone@,
            ),
{
    let kept = services.filter(keep);
    lemma_filter_origin(services, keep);
    assert forall|j: int| 0 <= j < services.len() && keep(#[trigger] services[j]) implies registered(
        kept,
        services[j].service@,
        services[j].zone@,
    ) by {
        assert(services.contains(services[j]));
        assert(kept.contains(services[j]));
        let m = choose|m: int| 0 <= m < kept.len() && kept[m] == services[j];
        assert(kept[m].has_key(services[j].service@, services[j].zone@));
    }
}

/// The acknowledgers that a filter keeps still wait for registered services,
/// where every service under the key of a kept acknowledger is kept too.
proof fn lemma_pending_after_filter(s: KeepView, t: KeepView, keep: spec_fn(Pending) -> bool)
    requires
        pending_registered(s.services, s.replug_backs),
        t.replug_backs == s.replug_backs.filter(keep),
        forall|j: int, p: Pending|
            0 <= j < s.services.len() && keep(p) && #[trigger] s.services[j].has_key(
                p.service@,
                p.zone@,
            ) ==> registered(t.services, p.service@, p.zone@),
    ensures
        pending_registered(t.services, t.replug_backs),
{
    lemma_filter_origin(s.replug_backs, keep);
    assert forall|i: int| 0 <= i < t.replug_backs.len() implies registered(
        t.services,
        (#[trigger] t.replug_backs[i]).service@,
        t.replug_backs[i].zone@,
    ) by {
        let p = t.replug_backs[i];
        assert(keep(p));
        assert(s.replug_backs.contains(p));
        let k = choose|k: int| 0 <= k < s.replug_backs.len() && s.replug_backs[k] == p;
        assert(registered(s.services, s.replug_backs[k].service@, s.replug_backs[k].zone@));
        let j = choose|j: int|
            0 <= j < s.services.len() && #[trigger] s.services[j].has_key(p.service@, p.zone@);
        assert(s.services[j].has_key(p.service@, p.zone@));
    }
}

/// Filtering keeps the keys of services distinct.
proof fn lemma_filter_distinct_services(s: Seq<ServiceDesc>, p: spec_fn(ServiceDesc) -> bool)
    requires
        distinct_services(s),
    ensures
        distinct_services(s.filter(p)),
{
    let same = |a: ServiceDesc, b: ServiceDesc| a.same_key(&b);
    assert(pairwise_distinct(s, same));
    lemma_filter_distinct(s, p, same);
}

/// Filtering keeps the keys of acknowledgers distinct.
proof fn lemma_filter_distinct_pending(s: Seq<Pending>, p: spec_fn(Pending) -> bool)
    requires
        distinct_pending(s),
    ensures
        distinct_pending(s.filter(p)),
{
    let same = |a: Pending, b: Pending| a.service@ == b.service@ && a.zone@ == b.zone@;
    assert(pairwise_distinct(s, same));
    lemma_filter_distinct(s, p, same);
}

/// Without the service under a key, the keys stay distinct, none of them is
/// that key, and a service under that key can be added.
proof fn lemma_without_service(s: Seq<ServiceDesc>, service: Seq<char>, zone: Seq<char>)
    requires
        distinct_services(s),
    ensures
        distinct_services(s.filter(other_service(service, zone))),
        !registered(s.filter(other_service(service, zone)), service, zone),
        forall|d: ServiceDesc|
            d.has_key(service, zone) ==> distinct_services(
                #[trigger] s.filter(other_service(service, zone)).push(d),
            ),
{
    lemma_filter_distinct_services(s, other_service(service, zone));
    lemma_filter_origin(s, other_service(service, zone));
}

/// Without the acknowledgers under a key, the keys stay distinct, and an
/// acknowledger under that key can be added.
proof fn lemma_without_pending(s: Seq<Pending>, service: Seq<char>, zone: Seq<char>)
    requires
        distinct_pending(s),
    ensures
        distinct_pending(s.filter(other_pending(service, zone))),
        forall|p: Pending|
            p.service@ == service && p.zone@ == zone ==> distinct_pending(
                #[trigger] s.filter(other_pending(service, zone)).push(p),
            ),
{
    lemma_filter_distinct_pending(s, other_pending(service, zone));
    lemma_filter_origin(s, other_pending(service, zone));
}

/// After an unplug no service stands under the key, so no replug-all that is
/// scheduled from then on carries it, until it is plugged again.
pub proof fn unplug_forgets_service(s: KeepView, service: String, zone: String, delay: bool)
    ensures
        !registered(s.unplug(service, zone).0.services, service@, zone@),
        !registered(s.cancel(service, zone).0.services, service@, zone@),
        forall|i: int|
            0 <= i < s.unplug(service, zone).0.replug_backs.len() ==> !(
            #[trigger] s.unplug(service, zone).0.replug_backs[i].service@ == service@ && s.unplug(
                service,
                zone,
            ).0.replug_backs[i].zone@ == zone@),
        s.unplug(service, zone).0.replug_all(delay).1[0] matches ActionView::ReplugAll {
            services,
            ..
        } ==> !registered(services, service@, zone@),
{
    lemma_filter_origin(s.services, other_service(service@, zone@));
    lemma_filter_origin(s.replug_backs, other_pending(service@, zone@));
}

/// A grant that succeeds schedules the keepalive and then, where services
/// are registered, one replug-all of exactly those services under the new
/// lease and without delay. The acknowledgers that wait are left waiting:
/// only a replug-all that succeeds fulfils them, all of them and in order.
pub proof fn grant_replugs_all_services(s: KeepView, grant: LeaseGrantResult, plugged: PlugResult)
    requires
        s.lease_future,
    ensures
        s.granted(Ok(grant)).0.lease_result == Some(grant),
        s.granted(Ok(grant)).0.replug_backs == s.replug_backs,
        s.granted(Ok(grant)).0.services == s.services,
        s.granted(Ok(grant)).0.lease_keep_future,
        !s.granted(Ok(grant)).0.lease_future,
        s.services.len() > 0 ==> s.granted(Ok(grant)).0.replug_future && s.granted(
            Ok(grant),
        ).1.last() == (ActionView::ReplugAll {
            delay: 0,
            services: s.services,
            endpoint: s.endpoint,
            lease_id: grant.lease_id,
        }),
        s.services.len() == 0 ==> !s.granted(Ok(grant)).0.replug_future,
        s.replug_future ==> s.replugged(Ok(plugged)).1 == succeeded(s.replug_backs)
            && s.replugged(Ok(plugged)).0.replug_backs.len() == 0,
{
}

/// A refusal that names services removes exactly the services of those names
/// and tells exactly the acknowledgers of those names; every other service
/// and acknowledger stays, and the rest is replugged at once.
pub proof fn refusal_removes_named_services(s: KeepView, message: String, keys: Vec<String>)
    requires
        s.replug_future,
    ensures
        ({
            let names = texts(keys@);
            let (t, actions) = s.replugged(Err(Error::NotPermitted(message, keys)));
            &&& forall|d: ServiceDesc|
                t.services.contains(d) <==> s.services.contains(d) && !names.contains(d.service@)
            &&& forall|p: Pending|
                t.replug_backs.contains(p) <==> s.replug_backs.contains(p) && !names.contains(
                    p.service@,
                )
            &&& actions.len() == s.replug_backs.filter(denied_pending(names)).len() + 1
            &&& forall|i: int|
                0 <= i < actions.len() - 1 ==> #[trigger] actions[i] == denial_of(
                    s.replug_backs.filter(denied_pending(names))[i],
                )
            &&& actions.last() == t.replug_all(false).1[0]
            &&& t.replug_all(false).1[0] matches ActionView::ReplugAll { delay, services, .. }
                ==> delay == 0 && services == t.services
        }),
{
    let names = texts(keys@);
    lemma_filter_origin(s.services, permitted_service(names));
    lemma_filter_origin(s.replug_backs, permitted_pending(names));
    let (t, actions) = s.replugged(Err(Error::NotPermitted(message, keys)));
    assert forall|d: ServiceDesc| t.services.contains(d) implies s.services.contains(d)
        && !names.contains(d.service@) by {
        let i = choose|i: int| 0 <= i < t.services.len() && t.services[i] == d;
        assert(permitted_service(names)(s.services.filter(permitted_service(names))[i]));
    }
    assert forall|p: Pending| t.replug_backs.contains(p) implies s.replug_backs.contains(p)
        && !names.contains(p.service@) by {
        let i = choose|i: int| 0 <= i < t.replug_backs.len() && t.replug_backs[i] == p;
        assert(permitted_pending(names)(s.replug_backs.filter(permitted_pending(names))[i]));
    }
}

/// Closing revokes the lease once if one is held and signals at once if none
/// is; a keeper that is closing performs nothing more.
pub proof fn close_revokes_held_lease(s: KeepView, done: u64, event: Event)
    requires
        !s.closing,
    ensures
        ({
            let (t, actions) = s.poll(Event::Command(Cmd::RevokeAndClose(done)));
            &&& t.closing
            &&& actions.len() == 1
            &&& s.lease_result is Some <==> actions[0] is Revoke
            &&& s.lease_result is None <==> actions[0] == (ActionView::Done { done })
            &&& t.poll(event) == (t, Seq::<ActionView>::empty())
        }),
{
}

/// Whether an action takes one of the three slots.
pub open spec fn takes_slot(a: ActionView) -> bool {
    a is Grant || a is ReplugAll || a is Keepalive
}

/// Each slot holds one operation at most, and no step schedules two
/// operations for one slot. A grant that is scheduled is the only operation
/// that the step schedules.
pub proof fn step_takes_each_slot_once(s: KeepView, event: Event)
    ensures
        ({
            let a = s.poll(event).1;
            &&& forall|i: int, j: int|
                0 <= i < a.len() && 0 <= j < a.len() && a[i] is Grant && takes_slot(a[j]) ==> i
                    == j
            &&& forall|i: int, j: int|
                0 <= i < a.len() && 0 <= j < a.len() && a[i] is ReplugAll && a[j] is ReplugAll
                    ==> i == j
            &&& forall|i: int, j: int|
                0 <= i < a.len() && 0 <= j < a.len() && a[i] is Keepalive && a[j] is Keepalive
                    ==> i == j
        }),
{
    let a = s.poll(event).1;
    assert forall|i: int| 0 <= i < a.len() && takes_slot(#[trigger] a[i]) implies i == a.len() - 1
        || (i == a.len() - 2 && a[i] is Keepalive && !(a[a.len() - 1] is Keepalive) && !(a[a.len()
        - 1] is Grant)) by {
        lemma_slot_actions_come_last(s, event, i);
    }
}

/// An action that takes a slot is the last of its step, or a keepalive just
/// before a replug-all or its omission.
proof fn lemma_slot_actions_come_last(s: KeepView, event: Event, i: int)
    requires
        0 <= i < s.poll(event).1.len(),
        takes_slot(s.poll(event).1[i]),
    ensures
        i == s.poll(event).1.len() - 1 || (i == s.poll(event).1.len() - 2 && s.poll(event).1[i] is Keepalive
            && !(s.poll(event).1.last() is Keepalive) && !(s.poll(event).1.last() is Grant)),
{
    let a = s.poll(event).1;
    if !s.closing {
        match event {
            Event::Command(Cmd::Plug(desc, ack, replaceable)) => {
                let p = s.replug_backs.filter(this_pending(desc.service@, desc.zone@));
                assert(forall|k: int| 0 <= k < abandoned(p).len() ==> abandoned(p)[k] is Abandon);
            },
            Event::Command(Cmd::Unplug(service, zone)) => {
                let p = s.replug_backs.filter(this_pending(service@, zone@));
                assert(forall|k: int| 0 <= k < abandoned(p).len() ==> abandoned(p)[k] is Abandon);
            },
            Event::Command(Cmd::Cancel(service, zone)) => {
                let p = s.replug_backs.filter(this_pending(service@, zone@));
                assert(forall|k: int| 0 <= k < abandoned(p).len() ==> abandoned(p)[k] is Abandon);
            },
            Event::Command(Cmd::Clear(done)) => {
                assert(forall|k: int|
                    0 <= k < abandoned(s.replug_backs).len() ==> abandoned(s.replug_backs)[k] is Abandon);
            },
            Event::Completed(Completion::Grant(Ok(grant))) => {
                let t = told(s.online_notifiers, s.is_first_online);
                assert(forall|k: int| 0 <= k < t.len() ==> t[k] is NotifyOnline);
            },
            Event::Completed(Completion::Replug(Ok(plugged))) => {
                assert(forall|k: int|
                    0 <= k < succeeded(s.replug_backs).len() ==> succeeded(s.replug_backs)[k] is Ack);
            },
            Event::Completed(Completion::Replug(Err(Error::NotPermitted(_, keys)))) => {
                let p = s.replug_backs.filter(denied_pending(texts(keys@)));
                assert(forall|k: int| 0 <= k < denied(p).len() ==> denied(p)[k] is Ack);
            },
            _ => {},
        }
    }
}

} // verus!
