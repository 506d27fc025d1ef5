//! Errors reported while building and submitting handshake messages.
use crate::identifier::ChannelId;
use vstd::prelude::*;

verus! {

/// What went wrong.
#[derive(Clone, Debug, PartialEq, Eq)]
pub enum Kind {
    /// The signer of a chain could not be looked up.
    KeyBase,
    /// A chain could not answer a query or take a submission.
    Query(String),
    /// A channel that already exists on the destination is not compatible
    /// with the one about to be opened.
    ChanOpen(ChannelId, String),
    /// The first step of the handshake failed.
    ChanOpenInit(String),
    /// The second step of the handshake failed.
    ChanOpenTry(String),
    /// The third step of the handshake failed.
    ChanOpenAck(ChannelId, String),
    /// The fourth step of the handshake failed.
    ChanOpenConfirm(ChannelId, String),
}

/// The text-level model of a `Kind`.
pub ghost enum KindView {
    KeyBase,
    Query(Seq<char>),
    ChanOpen(Seq<char>, Seq<char>),
    ChanOpenInit(Seq<char>),
    ChanOpenTry(Seq<char>),
    ChanOpenAck(Seq<char>, Seq<char>),
    ChanOpenConfirm(Seq<char>, Seq<char>),
}

impl View for Kind {
    type V = KindView;

    open spec fn view(&self) -> KindView {
        match *self {
            Kind::KeyBase => KindView::KeyBase,
            Kind::Query(m) => KindView::Query(m@),
            Kind::ChanOpen(c, m) => KindView::ChanOpen(c@, m@),
            Kind::ChanOpenInit(m) => KindView::ChanOpenInit(m@),
            Kind::ChanOpenTry(m) => KindView::ChanOpenTry(m@),
            Kind::ChanOpenAck(c, m) => KindView::ChanOpenAck(c@, m@),
            Kind::ChanOpenConfirm(c, m) => KindView::ChanOpenConfirm(c@, m@),
        }
    }
}

/// An error: its kind and, where one error was caused by another, the cause.
#[derive(Debug, PartialEq, Eq)]
pub struct Error {
    pub kind: Kind,
    pub source: Option<Box<Error>>,
}

/// The text-level model of an `Error`: its kind and the chain of causes.
pub ghost struct ErrorView {
    pub kind: KindView,
    pub source: Option<Box<ErrorView>>,
}

impl View for Error {
    type V = ErrorView;

    open spec fn view(&self) -> ErrorView
        decreases self,
    {
        ErrorView {
            kind: self.kind@,
            source: match self.source {
                Some(cause) => Some(Box::new((*cause)@)),
                None => None,
            },
        }
    }
}

impl Kind {
    /// An error of this kind with no recorded cause.
    pub fn into_error(self) -> (r: Error)
        ensures
            r == (Error { kind: self, source: None }),
    {
        Error { kind: self, source: None }
    }

    /// An error of this kind, caused by `source`.
    pub fn context(self, source: Error) -> (r: Error)
        ensures
            r == (Error { kind: self, source: Some(Box::new(source)) }),
    {
        Error { kind: self, source: Some(Box::new(source)) }
    }
}

impl Error {
    pub fn kind(&self) -> (r: &Kind)
        ensures
            *r == self.kind,
    {
        &self.kind
    }
}

} // verus!
