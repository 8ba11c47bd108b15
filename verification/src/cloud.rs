//! The cloud provider as the engine sees it: resources, requests and replies.
//!
//! Nothing here talks to the provider. A request says which call the caller
//! has to make; a reply carries back what the provider answered, in plain
//! values.

use vstd::prelude::*;

verus! {

/// A provider-side floating IP: its id and the server it is attached to.
#[derive(Debug, Clone, Copy, PartialEq, Eq, Structural)]
pub struct FloatingIpResource {
    pub id: i64,
    /// The id of the server the address is attached to, if any.
    pub server: Option<i64>,
}

/// A provider-side server: its id and its name.
#[derive(Debug, Clone, PartialEq, Eq)]
pub struct ServerResource {
    pub id: i64,
    pub name: String,
}

/// The mathematical content of a [`ServerResource`].
pub struct ServerResourceView {
    pub id: i64,
    pub name: Seq<char>,
}

impl View for ServerResource {
    type V = ServerResourceView;

    open spec fn view(&self) -> ServerResourceView {
        ServerResourceView { id: self.id, name: self.name@ }
    }
}

/// A failed provider call: transport, authentication, rate limit or timeout.
#[derive(Debug, Clone, PartialEq, Eq)]
pub struct CloudError {
    pub message: String,
}

impl View for CloudError {
    type V = Seq<char>;

    open spec fn view(&self) -> Seq<char> {
        self.message@
    }
}

/// A call that the caller has to make against the provider.
#[derive(Debug, Clone, PartialEq, Eq)]
pub enum CloudRequest {
    /// List the floating IPs with exactly this name.
    FindFloatingIp { name: String },
    /// List the servers with exactly this name.
    FindServer { name: String },
    /// Attach a floating IP to a server.
    AssignFloatingIp { floating_ip_id: i64, server_id: i64 },
}

/// The mathematical content of a [`CloudRequest`].
pub enum CloudRequestView {
    FindFloatingIp { name: Seq<char> },
    FindServer { name: Seq<char> },
    AssignFloatingIp { floating_ip_id: i64, server_id: i64 },
}

impl CloudRequestView {
    /// Whether the call changes provider state.
    pub open spec fn is_mutating(self) -> bool {
        self is AssignFloatingIp
    }
}

impl View for CloudRequest {
    type V = CloudRequestView;

    open spec fn view(&self) -> CloudRequestView {
        match self {
            CloudRequest::FindFloatingIp { name } => CloudRequestView::FindFloatingIp {
                name: name@,
            },
            CloudRequest::FindServer { name } => CloudRequestView::FindServer { name: name@ },
            CloudRequest::AssignFloatingIp { floating_ip_id, server_id } => {
                CloudRequestView::AssignFloatingIp {
                    floating_ip_id: *floating_ip_id,
                    server_id: *server_id,
                }
            },
        }
    }
}

impl CloudRequest {
    /// Whether the call changes provider state.
    pub fn is_mutating(&self) -> (mutating: bool)
        ensures
            mutating == self@.is_mutating(),
    {
        match self {
            CloudRequest::AssignFloatingIp { .. } => true,
            _ => false,
        }
    }
}

/// What the provider answered to a [`CloudRequest`].
#[derive(Debug, PartialEq, Eq)]
pub enum CloudReply {
    /// The floating IPs that matched the name; none is an answer, not an error.
    FloatingIps(Result<Vec<FloatingIpResource>, CloudError>),
    /// The servers that matched the name; none is an answer, not an error.
    Servers(Result<Vec<ServerResource>, CloudError>),
    /// Whether the attach call went through.
    Assigned(Result<(), CloudError>),
}

/// The mathematical content of a [`CloudReply`].
pub enum CloudReplyView {
    FloatingIps(Result<Seq<FloatingIpResource>, Seq<char>>),
    Servers(Result<Seq<ServerResourceView>, Seq<char>>),
    Assigned(Result<(), Seq<char>>),
}

/// The views of a list of servers, in order.
pub open spec fn servers_view(servers: Seq<ServerResource>) -> Seq<ServerResourceView> {
    servers.map_values(|s: ServerResource| s@)
}

impl View for CloudReply {
    type V = CloudReplyView;

    open spec fn view(&self) -> CloudReplyView {
        match self {
            CloudReply::FloatingIps(Ok(found)) => CloudReplyView::FloatingIps(Ok(found@)),
            CloudReply::FloatingIps(Err(e)) => CloudReplyView::FloatingIps(Err(e@)),
            CloudReply::Servers(Ok(found)) => CloudReplyView::Servers(Ok(servers_view(found@))),
            CloudReply::Servers(Err(e)) => CloudReplyView::Servers(Err(e@)),
            CloudReply::Assigned(Ok(())) => CloudReplyView::Assigned(Ok(())),
            CloudReply::Assigned(Err(e)) => CloudReplyView::Assigned(Err(e@)),
        }
    }
}

} // verus!
