//! Host identifiers: plain text names for chains, clients, connections, ports
//! and channels. Two identifiers are equal when they spell the same text.
use vstd::prelude::*;
use vstd::std_specs::cmp::PartialEqSpecImpl;

verus! {

/// Identifier of a chain.
#[derive(Debug)]
pub struct ChainId {
    id: String,
}

impl View for ChainId {
    type V = Seq<char>;

    closed spec fn view(&self) -> Seq<char> {
        self.id@
    }
}

impl Clone for ChainId {
    fn clone(&self) -> (r: Self)
        ensures
            r == *self,
    {
        ChainId { id: self.id.clone() }
    }
}

impl PartialEq for ChainId {
    fn eq(&self, other: &Self) -> (r: bool) {
        self.id == other.id
    }
}

impl Eq for ChainId {

}

impl PartialEqSpecImpl for ChainId {
    open spec fn obeys_eq_spec() -> bool {
        true
    }

    open spec fn eq_spec(&self, other: &Self) -> bool {
        self@ == other@
    }
}

impl ChainId {
    /// An identifier spelling `id`.
    pub fn new(id: &str) -> (r: Self)
        ensures
            r@ == id@,
    {
        ChainId { id: id.to_owned() }
    }

    /// The text of the identifier.
    pub fn as_str(&self) -> (r: &str)
        ensures
            r@ == self@,
    {
        self.id.as_str()
    }
}

/// Identifier of a light client hosted on a chain.
#[derive(Debug)]
pub struct ClientId {
    id: String,
}

impl View for ClientId {
    type V = Seq<char>;

    closed spec fn view(&self) -> Seq<char> {
        self.id@
    }
}

impl Clone for ClientId {
    fn clone(&self) -> (r: Self)
        ensures
            r == *self,
    {
        ClientId { id: self.id.clone() }
    }
}

impl PartialEq for ClientId {
    fn eq(&self, other: &Self) -> (r: bool) {
        self.id == other.id
    }
}

impl Eq for ClientId {

}

impl PartialEqSpecImpl for ClientId {
    open spec fn obeys_eq_spec() -> bool {
        true
    }

    open spec fn eq_spec(&self, other: &Self) -> bool {
        self@ == other@
    }
}

impl ClientId {
    /// An identifier spelling `id`.
    pub fn new(id: &str) -> (r: Self)
        ensures
            r@ == id@,
    {
        ClientId { id: id.to_owned() }
    }

    /// The text of the identifier.
    pub fn as_str(&self) -> (r: &str)
        ensures
            r@ == self@,
    {
        self.id.as_str()
    }
}

/// Calls `ibc::ics24_host::identifier::ClientId::default` and returns the text
/// of the identifier it makes. The contract claims what the source of that
/// function shows: it parses the literal `defaultClient`, which passes the
/// identifier checks, and keeps it unchanged.
#[verifier::external_body]
fn default_client_text() -> (r: String)
    ensures
        r@ == "defaultClient"@,
{
    ibc::ics24_host::identifier::ClientId::default().as_str().to_string()
}

impl Default for ClientId {
    /// The placeholder identifier used until a real one is known.
    fn default() -> (r: Self)
        ensures
            r@ == "defaultClient"@,
    {
        ClientId { id: default_client_text() }
    }
}

/// Identifier of a connection end on a chain.
#[derive(Debug)]
pub struct ConnectionId {
    id: String,
}

impl View for ConnectionId {
    type V = Seq<char>;

    closed spec fn view(&self) -> Seq<char> {
        self.id@
    }
}

impl Clone for ConnectionId {
    fn clone(&self) -> (r: Self)
        ensures
            r == *self,
    {
        ConnectionId { id: self.id.clone() }
    }
}

impl PartialEq for ConnectionId {
    fn eq(&self, other: &Self) -> (r: bool) {
        self.id == other.id
    }
}

impl Eq for ConnectionId {

}

impl PartialEqSpecImpl for ConnectionId {
    open spec fn obeys_eq_spec() -> bool {
        true
    }

    open spec fn eq_spec(&self, other: &Self) -> bool {
        self@ == other@
    }
}

impl ConnectionId {
    /// An identifier spelling `id`.
    pub fn new(id: &str) -> (r: Self)
        ensures
            r@ == id@,
    {
        ConnectionId { id: id.to_owned() }
    }

    /// The text of the identifier.
    pub fn as_str(&self) -> (r: &str)
        ensures
            r@ == self@,
    {
        self.id.as_str()
    }
}

/// Calls `ibc::ics24_host::identifier::ConnectionId::default` and returns the text
/// of the identifier it makes. The contract claims what the source of that
/// function shows: it parses the literal `defaultConnection`, which passes the
/// identifier checks, and keeps it unchanged.
#[verifier::external_body]
fn default_connection_text() -> (r: String)
    ensures
        r@ == "defaultConnection"@,
{
    ibc::ics24_host::identifier::ConnectionId::default().as_str().to_string()
}

impl Default for ConnectionId {
    /// The placeholder identifier used until a real one is known.
    fn default() -> (r: Self)
        ensures
            r@ == "defaultConnection"@,
    {
        ConnectionId { id: default_connection_text() }
    }
}

/// Identifier of a port, the module-level endpoint a channel binds to.
#[derive(Debug)]
pub struct PortId {
    id: String,
}

impl View for PortId {
    type V = Seq<char>;

    closed spec fn view(&self) -> Seq<char> {
        self.id@
    }
}

impl Clone for PortId {
    fn clone(&self) -> (r: Self)
        ensures
            r == *self,
    {
        PortId { id: self.id.clone() }
    }
}

impl PartialEq for PortId {
    fn eq(&self, other: &Self) -> (r: bool) {
        self.id == other.id
    }
}

impl Eq for PortId {

}

impl PartialEqSpecImpl for PortId {
    open spec fn obeys_eq_spec() -> bool {
        true
    }

    open spec fn eq_spec(&self, other: &Self) -> bool {
        self@ == other@
    }
}

impl PortId {
    /// An identifier spelling `id`.
    pub fn new(id: &str) -> (r: Self)
        ensures
            r@ == id@,
    {
        PortId { id: id.to_owned() }
    }

    /// The text of the identifier.
    pub fn as_str(&self) -> (r: &str)
        ensures
            r@ == self@,
    {
        self.id.as_str()
    }
}

/// Identifier of a channel end, allocated by the chain that hosts it.
#[derive(Debug)]
pub struct ChannelId {
    id: String,
}

impl View for ChannelId {
    type V = Seq<char>;

    closed spec fn view(&self) -> Seq<char> {
        self.id@
    }
}

impl Clone for ChannelId {
    fn clone(&self) -> (r: Self)
        ensures
            r == *self,
    {
        ChannelId { id: self.id.clone() }
    }
}

impl PartialEq for ChannelId {
    fn eq(&self, other: &Self) -> (r: bool) {
        self.id == other.id
    }
}

impl Eq for ChannelId {

}

impl PartialEqSpecImpl for ChannelId {
    open spec fn obeys_eq_spec() -> bool {
        true
    }

    open spec fn eq_spec(&self, other: &Self) -> bool {
        self@ == other@
    }
}

impl ChannelId {
    /// An identifier spelling `id`.
    pub fn new(id: &str) -> (r: Self)
        ensures
            r@ == id@,
    {
        ChannelId { id: id.to_owned() }
    }

    /// The text of the identifier.
    pub fn as_str(&self) -> (r: &str)
        ensures
            r@ == self@,
    {
        self.id.as_str()
    }
}

/// Calls `ibc::ics24_host::identifier::ChannelId::default` and returns the text
/// of the identifier it makes. The contract claims what the source of that
/// function shows: it parses the literal `defaultChannel`, which passes the
/// identifier checks, and keeps it unchanged.
#[verifier::external_body]
fn default_channel_text() -> (r: String)
    ensures
        r@ == "defaultChannel"@,
{
    ibc::ics24_host::identifier::ChannelId::default().as_str().to_string()
}

impl Default for ChannelId {
    /// The placeholder identifier used until a real one is known.
    fn default() -> (r: Self)
        ensures
            r@ == "defaultChannel"@,
    {
        ChannelId { id: default_channel_text() }
    }
}

} // verus!
