//! Replies of actors to the messages they handle: a result known at once,
//! or a future that yields it later.
use vstd::prelude::*;

verus! {

/// What a reply holds: the result itself, or the future `F` that yields it.
#[derive(Debug, PartialEq, Eq)]
pub enum ResponseItem<I, E, F> {
    Result(Result<I, E>),
    Fut(F),
}

/// An actor's reply to a message whose result is a `Result<I, E>`.
pub struct Response<I, E, F> {
    item: ResponseItem<I, E, F>,
}

/// What becomes of a reply once the actor has produced it. `T` is the
/// channel back to the sender, if the sender waits for an answer.
#[derive(Debug, PartialEq, Eq)]
pub enum Delivery<I, E, F, T> {
    /// Run the future; when it completes, send its result on the channel,
    /// if there is one.
    Spawn(F, Option<T>),
    /// Send the result on the channel now.
    Send(T, Result<I, E>),
    /// Nobody waits for the result: drop it.
    Discard(Result<I, E>),
}

impl<I, E, F> Response<I, E, F> {
    /// The reply's content.
    pub closed spec fn item(self) -> ResponseItem<I, E, F> {
        self.item
    }

    /// A reply that yields its result later, through `fut`.
    pub fn future(fut: F) -> (r: Self)
        ensures
            r.item() == ResponseItem::<I, E, F>::Fut(fut),
    {
        Response { item: ResponseItem::Fut(fut) }
    }

    /// A reply whose result is known now.
    pub fn reply(val: Result<I, E>) -> (r: Self)
        ensures
            r.item() == ResponseItem::<I, E, F>::Result(val),
    {
        Response { item: ResponseItem::Result(val) }
    }

    /// Decides how the reply reaches the sender: a future is spawned and
    /// takes the channel along; a result is sent on the channel if there is
    /// one, and dropped otherwise.
    pub fn deliver<T>(self, tx: Option<T>) -> (d: Delivery<I, E, F, T>)
        ensures
            d == delivery_of(self.item(), tx),
    {
        match self.item {
            ResponseItem::Fut(fut) => Delivery::Spawn(fut, tx),
            ResponseItem::Result(res) => match tx {
                Some(t) => Delivery::Send(t, res),
                None => Delivery::Discard(res),
            },
        }
    }
}

/// How a reply with content `item` reaches the sender, given the channel
/// `tx` back to it.
pub open spec fn delivery_of<I, E, F, T>(item: ResponseItem<I, E, F>, tx: Option<T>) -> Delivery<I, E, F, T> {
    match item {
        ResponseItem::Fut(fut) => Delivery::Spawn(fut, tx),
        ResponseItem::Result(res) => match tx {
            Some(t) => Delivery::Send(t, res),
            None => Delivery::Discard(res),
        },
    }
}

/// What an actor replies reaches a waiting sender unchanged: a reply made
/// with `reply(val)` is delivered as `val` on the sender's channel, and a
/// reply made with `future(fut)` is spawned with that channel.
pub proof fn lemma_reply_reaches_sender<I, E, F, T>(val: Result<I, E>, fut: F, t: T)
    ensures
        forall|r: Response<I, E, F>|
            r.item() == ResponseItem::<I, E, F>::Result(val) ==> #[trigger] delivery_of(r.item(), Some(t))
                == Delivery::<I, E, F, T>::Send(t, val),
        forall|r: Response<I, E, F>, tx: Option<T>|
            r.item() == ResponseItem::<I, E, F>::Fut(fut) ==> #[trigger] delivery_of(r.item(), tx)
                == Delivery::<I, E, F, T>::Spawn(fut, tx),
{
}

} // verus!
