//! Dispatch to the end: the decision, the call of the handler that it
//! names, and what becomes of a failure.

use crate::bot::{outcome_view, Bot, DispatchError, HandlerFailure, Route};
use crate::messages::{Message, ResponseMessage, Update, UpdateView};
use crate::parse::{parse, parsed, ParseError};
use vstd::prelude::*;

verus! {

/// The text of the reply that stands in for a dispatch that failed.
pub open spec fn apology() -> Seq<char> {
    "Got error"@
}

/// What a handler's answer is as the outcome of a dispatch.
pub open spec fn settled(answer: Result<ResponseMessage, HandlerFailure>) -> Result<
    ResponseMessage,
    DispatchError,
> {
    match answer {
        Ok(reply) => Ok(reply),
        Err(failure) => Err(DispatchError::HandlerFailure(failure)),
    }
}

/// Turns a handler's answer into the outcome of the dispatch: its reply,
/// or the failure as a dispatch error.
pub fn settle(answer: Result<ResponseMessage, HandlerFailure>) -> (outcome: Result<
    ResponseMessage,
    DispatchError,
>)
    ensures
        outcome == settled(answer),
{
    match answer {
        Ok(reply) => Ok(reply),
        Err(failure) => Err(DispatchError::HandlerFailure(failure)),
    }
}

/// Whether `reply` is what the sender gets to see of `outcome`: the
/// reply of a dispatch that succeeded; for one that failed, the apology,
/// sent into `chat_id`; and the error itself where there is no chat to
/// send it into.
pub open spec fn responded(
    chat_id: Option<u64>,
    outcome: Result<ResponseMessage, DispatchError>,
    reply: Result<ResponseMessage, DispatchError>,
) -> bool {
    match outcome {
        Ok(sent) => reply == Ok::<ResponseMessage, DispatchError>(sent),
        Err(error) => match chat_id {
            Some(chat_id) => reply matches Ok(sent) && sent@ == ResponseMessage::plain(
                chat_id,
                apology(),
            ),
            None => reply == Err::<ResponseMessage, DispatchError>(error),
        },
    }
}

/// Makes of the outcome of a dispatch what the sender gets to see: a
/// failure becomes the apology, sent into `chat_id`, and is handed on
/// only where there is no chat.
pub fn respond(chat_id: Option<u64>, outcome: Result<ResponseMessage, DispatchError>) -> (reply:
    Result<ResponseMessage, DispatchError>)
    ensures
        responded(chat_id, outcome, reply),
{
    match outcome {
        Ok(sent) => Ok(sent),
        Err(error) => match chat_id {
            Some(chat_id) => Ok(ResponseMessage::text(chat_id, "Got error".to_owned())),
            None => Err(error),
        },
    }
}

/// Why a delivery got no reply.
#[derive(Debug, Clone, PartialEq, Eq)]
pub enum Rejection {
    /// The bytes are no update.
    Parse(ParseError),
    /// The dispatch failed and there is no chat to say so in.
    Dispatch(DispatchError),
}

/// What handling an update ended in, as the answer to its delivery.
pub open spec fn delivery_answer(reply: Result<ResponseMessage, DispatchError>) -> Result<
    ResponseMessage,
    Rejection,
> {
    match reply {
        Ok(sent) => Ok(sent),
        Err(error) => Err(Rejection::Dispatch(error)),
    }
}

impl<H, C> Bot<H, C> where
    H: Fn(Message) -> Result<ResponseMessage, HandlerFailure>,
    C: Fn(Message, Option<u64>) -> Result<ResponseMessage, HandlerFailure>,
 {
    /// Every registered handler takes every message.
    pub open spec fn total(&self) -> bool {
        &&& forall|i: int, message: Message|
            0 <= i < self.handlers().commands.len() ==> #[trigger] call_requires(
                self.handlers().commands[i],
                (message,),
            )
        &&& forall|i: int, message: Message|
            0 <= i < self.handlers().inline_commands.len() ==> #[trigger] call_requires(
                self.handlers().inline_commands[i],
                (message,),
            )
        &&& forall|i: int, message: Message, message_id: Option<u64>|
            0 <= i < self.handlers().callbacks.len() ==> #[trigger] call_requires(
                self.handlers().callbacks[i],
                (message, message_id),
            )
    }

    /// Whether `outcome` is what following `route` can end in: the bot's
    /// own reply as it stands, or an answer of the handler that the route
    /// names, called with what the route carries.
    pub open spec fn answers(
        &self,
        route: Route,
        outcome: Result<ResponseMessage, DispatchError>,
    ) -> bool {
        match route {
            Route::Reply(reply) => outcome == Ok::<ResponseMessage, DispatchError>(reply),
            Route::Command { index, message } => exists|
                answer: Result<ResponseMessage, HandlerFailure>,
            |
                #[trigger] call_ensures(
                    self.handlers().commands[index as int],
                    (message,),
                    answer,
                ) && outcome == settled(answer),
            Route::Inline { index, message } => exists|
                answer: Result<ResponseMessage, HandlerFailure>,
            |
                #[trigger] call_ensures(
                    self.handlers().inline_commands[index as int],
                    (message,),
                    answer,
                ) && outcome == settled(answer),
            Route::Callback { index, message, message_id } => exists|
                answer: Result<ResponseMessage, HandlerFailure>,
            |
                #[trigger] call_ensures(
                    self.handlers().callbacks[index as int],
                    (message, message_id),
                    answer,
                ) && outcome == settled(answer),
        }
    }

    /// Whether `outcome` is what a dispatch of `update` can end in: what
    /// concludes the decision of [`crate::bot::BotView::step`] for some active
    /// position.
    pub open spec fn dispatches(
        &self,
        update: UpdateView,
        outcome: Result<ResponseMessage, DispatchError>,
    ) -> bool {
        exists|active: usize, decision: Result<Route, DispatchError>|
            outcome_view(decision) == (#[trigger] self@.step(active, update)).outcome
                && #[trigger] self.concludes(decision, outcome)
    }

    /// Whether `reply` is what handling `update` can end in: what the
    /// sender gets to see of a dispatch of it.
    pub open spec fn handles(
        &self,
        update: UpdateView,
        reply: Result<ResponseMessage, DispatchError>,
    ) -> bool {
        exists|outcome: Result<ResponseMessage, DispatchError>|
            #[trigger] self.dispatches(update, outcome) && responded(
                update.contents.chat_id(),
                outcome,
                reply,
            )
    }

    /// Whether `outcome` is what a dispatch that decided `decision` can
    /// end in.
    pub open spec fn concludes(
        &self,
        decision: Result<Route, DispatchError>,
        outcome: Result<ResponseMessage, DispatchError>,
    ) -> bool {
        match decision {
            Ok(route) => self.answers(route, outcome),
            Err(error) => outcome == Err::<ResponseMessage, DispatchError>(error),
        }
    }

    /// Follows `route`: hands back the bot's own reply, or calls the one
    /// handler that the route names, once, and settles its answer.
    pub fn invoke(&self, route: Route) -> (outcome: Result<ResponseMessage, DispatchError>)
        requires
            self.total(),
            self.serves(Ok(route)),
        ensures
            self.answers(route, outcome),
    {
        match route {
            Route::Reply(reply) => Ok(reply),
            Route::Command { index, message } => match self.command_handler(index) {
                Some(handler) => {
                    assert(call_requires(self.handlers().commands[index as int], (message,)));
                    settle(handler(message))
                },
                None => Err(DispatchError::NoActiveCommand),
            },
            Route::Inline { index, message } => match self.inline_handler(index) {
                Some(handler) => {
                    assert(call_requires(self.handlers().inline_commands[index as int], (message,)));
                    settle(handler(message))
                },
                None => Err(DispatchError::NoActiveCommand),
            },
            Route::Callback { index, message, message_id } => match self.callback_handler(index) {
                Some(handler) => {
                    assert(call_requires(
                        self.handlers().callbacks[index as int],
                        (message, message_id),
                    ));
                    settle(handler(message, message_id))
                },
                None => Err(DispatchError::NoActiveCommand),
            },
        }
    }

    /// Dispatches `update`: decides where it goes, as [`Bot::route`]
    /// does, and follows the route, as [`Bot::invoke`] does.
    ///
    /// The outcome is what concludes the decision of [`crate::bot::BotView::step`]
    /// for some active position, and for every position where the
    /// decision does not look at it. An update that carries nothing fails
    /// with `EmptyUpdate`; no handler is called for it and no reply is
    /// made.
    pub fn dispatch(&self, update: Update) -> (outcome: Result<ResponseMessage, DispatchError>)
        requires
            self.total(),
        ensures
            self.dispatches(update@, outcome),
            !self@.reads_active(update@.contents) ==> exists|
                decision: Result<Route, DispatchError>,
            |
                #[trigger] self.concludes(decision, outcome) && forall|active: usize|
                    outcome_view(decision) == (#[trigger] self@.step(active, update@)).outcome,
            update@.contents is Empty ==> outcome == Err::<ResponseMessage, DispatchError>(
                DispatchError::EmptyUpdate,
            ),
    {
        let decision = self.route(update);
        let outcome = match decision {
            Ok(route) => self.invoke(route),
            Err(error) => Err(error),
        };
        assert(self.concludes(decision, outcome));
        outcome
    }

    /// Dispatches `update` and makes of the outcome what the sender gets
    /// to see, as [`respond`] does with the chat that the update came
    /// from. An update that carries nothing has no chat: it is handed
    /// back as the error `EmptyUpdate`.
    pub fn handle(&self, update: Update) -> (reply: Result<ResponseMessage, DispatchError>)
        requires
            self.total(),
        ensures
            self.handles(update@, reply),
            update@.contents is Empty ==> reply == Err::<ResponseMessage, DispatchError>(
                DispatchError::EmptyUpdate,
            ),
            !(update@.contents is Empty) ==> reply is Ok,
    {
        let chat_id = update.chat_id();
        let outcome = self.dispatch(update);
        respond(chat_id, outcome)
    }

    /// Takes the bytes of one delivery all the way: parses them,
    /// dispatches the update and shapes the outcome as [`Bot::handle`]
    /// does. Bytes that are no update are rejected with the error of
    /// [`parsed`], and nothing is dispatched.
    pub fn parse_and_dispatch(&self, raw_body: &[u8]) -> (reply: Result<
        ResponseMessage,
        Rejection,
    >)
        requires
            self.total(),
        ensures
            match parsed(raw_body@) {
                Ok(update) => exists|handled: Result<ResponseMessage, DispatchError>|
                    #[trigger] self.handles(update, handled) && reply == delivery_answer(handled),
                Err(error) => reply == Err::<ResponseMessage, Rejection>(Rejection::Parse(error)),
            },
    {
        match parse(raw_body) {
            Ok(update) => {
                let handled = self.handle(update);
                assert(self.handles(update@, handled));
                match handled {
                    Ok(sent) => Ok(sent),
                    Err(error) => Err(Rejection::Dispatch(error)),
                }
            },
            Err(error) => Err(Rejection::Parse(error)),
        }
    }
}

} // verus!
