//! The errors that subscribing and transforming can end in.

use crate::model::SubscriptionId;
use vstd::prelude::*;

verus! {

/// What a [`SocketError`] holds, as contracts speak of it.
pub enum SocketErrorView {
    Subscribe(Seq<char>),
    Unsupported { entity: Seq<char>, item: Seq<char> },
    Unidentifiable(Seq<char>),
}

/// An error raised while a connection is set up or while its messages are transformed.
#[derive(Eq, PartialEq, Debug)]
pub enum SocketError {
    /// The subscriptions of one connection cannot be subscribed to together.
    Subscribe(String),
    /// The exchange named `entity` cannot serve `item`.
    Unsupported { entity: &'static str, item: String },
    /// A message arrived under an identifier that nothing subscribed to.
    Unidentifiable(SubscriptionId),
}

impl View for SocketError {
    type V = SocketErrorView;

    open spec fn view(&self) -> SocketErrorView {
        match self {
            SocketError::Subscribe(reason) => SocketErrorView::Subscribe(reason@),
            SocketError::Unsupported { entity, item } => SocketErrorView::Unsupported {
                entity: entity@,
                item: item@,
            },
            SocketError::Unidentifiable(id) => SocketErrorView::Unidentifiable(id@),
        }
    }
}

impl Clone for SocketError {
    fn clone(&self) -> (error: SocketError)
        ensures
            error == *self,
    {
        match self {
            SocketError::Subscribe(reason) => SocketError::Subscribe(reason.clone()),
            SocketError::Unsupported { entity, item } => SocketError::Unsupported {
                entity: *entity,
                item: item.clone(),
            },
            SocketError::Unidentifiable(id) => SocketError::Unidentifiable(id.clone()),
        }
    }
}

} // verus!
