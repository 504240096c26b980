//! The bot: three tables of handlers, the switch for the question which
//! command is active, and the decision which handler an update goes to.

use crate::messages::{
    CallbackMessage, Command, Contents, ContentsView, Message, MessageView, ResponseMessage,
    ResponseMessageView, Update, UpdateView,
};
use crate::registry::{lemma_position, position, registered, RegistryError, Table};
use crate::state::ActiveCommand;
use vstd::prelude::*;

verus! {

/// What a handler says when it cannot answer.
#[derive(Debug, Clone, PartialEq, Eq)]
pub struct HandlerFailure {
    pub reason: String,
}

/// Why a dispatch produced no reply.
#[derive(Debug, Clone, PartialEq, Eq)]
pub enum DispatchError {
    /// The update carries nothing, so there is no chat to answer into.
    EmptyUpdate,
    /// The question which command is active is switched off.
    FeatureDisabled,
    /// No command is registered under the name that was asked for.
    UnknownCommand(String),
    /// The active position points at no registered command.
    NoActiveCommand,
    /// The handler that the update went to failed.
    HandlerFailure(HandlerFailure),
}

/// What a [`DispatchError`] is.
pub enum DispatchErrorView {
    EmptyUpdate,
    FeatureDisabled,
    UnknownCommand(Seq<char>),
    NoActiveCommand,
    HandlerFailure(Seq<char>),
}

impl View for DispatchError {
    type V = DispatchErrorView;

    open spec fn view(&self) -> DispatchErrorView {
        match self {
            DispatchError::EmptyUpdate => DispatchErrorView::EmptyUpdate,
            DispatchError::FeatureDisabled => DispatchErrorView::FeatureDisabled,
            DispatchError::UnknownCommand(name) => DispatchErrorView::UnknownCommand(name@),
            DispatchError::NoActiveCommand => DispatchErrorView::NoActiveCommand,
            DispatchError::HandlerFailure(failure) => DispatchErrorView::HandlerFailure(
                failure.reason@,
            ),
        }
    }
}

/// Where an update goes: the bot answers it itself, or one handler does,
/// named by its position in its table.
#[derive(Debug, Clone, PartialEq, Eq)]
pub enum Route {
    /// The bot's own reply; no handler is called.
    Reply(ResponseMessage),
    /// The handler of the command at `index` gets `message`.
    Command { index: usize, message: Message },
    /// The handler of the inline command at `index` gets `message`.
    Inline { index: usize, message: Message },
    /// The callback at `index` gets the message that the button was
    /// under, and the message of origin that the token names.
    Callback { index: usize, message: Message, message_id: Option<u64> },
}

/// What a [`Route`] is.
pub enum RouteView {
    Reply(ResponseMessageView),
    Command { index: usize, message: MessageView },
    Inline { index: usize, message: MessageView },
    Callback { index: usize, message: MessageView, message_id: Option<u64> },
}

impl View for Route {
    type V = RouteView;

    open spec fn view(&self) -> RouteView {
        match self {
            Route::Reply(reply) => RouteView::Reply(reply@),
            Route::Command { index, message } => RouteView::Command {
                index: *index,
                message: message@,
            },
            Route::Inline { index, message } => RouteView::Inline {
                index: *index,
                message: message@,
            },
            Route::Callback { index, message, message_id } => RouteView::Callback {
                index: *index,
                message: message@,
                message_id: *message_id,
            },
        }
    }
}

/// The view of what a dispatch decided.
pub open spec fn outcome_view(outcome: Result<Route, DispatchError>) -> Result<
    RouteView,
    DispatchErrorView,
> {
    match outcome {
        Ok(route) => Ok(route@),
        Err(error) => Err(error@),
    }
}

/// One decision: where the update goes, and the position that becomes the
/// active one, if the update selects a command.
#[derive(Debug, PartialEq, Eq)]
pub struct Step {
    pub outcome: Result<Route, DispatchError>,
    pub select: Option<usize>,
}

/// What a [`Step`] is.
pub struct StepView {
    pub outcome: Result<RouteView, DispatchErrorView>,
    pub select: Option<usize>,
}

impl View for Step {
    type V = StepView;

    open spec fn view(&self) -> StepView {
        StepView { outcome: outcome_view(self.outcome), select: self.select }
    }
}

/// The text that confirms the selection of the command `name`.
pub open spec fn confirmation(name: Seq<char>) -> Seq<char> {
    "Command set to "@ + name
}

/// What a bot is, apart from the handlers themselves: the names in each
/// of its tables, in order of registration, and the switch.
pub struct BotView {
    pub commands: Seq<Seq<char>>,
    pub inline_commands: Seq<Seq<char>>,
    pub callbacks: Seq<Seq<char>>,
    pub enabled_current_command: bool,
}

impl BotView {
    /// The bot that nothing was registered with.
    pub open spec fn empty() -> BotView {
        BotView {
            commands: Seq::empty(),
            inline_commands: Seq::empty(),
            callbacks: Seq::empty(),
            enabled_current_command: false,
        }
    }

    /// No name stands twice in one table.
    pub open spec fn well_formed(self) -> bool {
        &&& self.commands.no_duplicates()
        &&& self.inline_commands.no_duplicates()
        &&& self.callbacks.no_duplicates()
    }

    /// The bot after `name` was offered as a command.
    pub open spec fn with_command(self, name: Seq<char>) -> Result<BotView, RegistryError> {
        match registered(self.commands, name) {
            Ok(commands) => Ok(BotView { commands, ..self }),
            Err(error) => Err(error),
        }
    }

    /// The bot after `name` was offered as an inline command.
    pub open spec fn with_inline(self, name: Seq<char>) -> Result<BotView, RegistryError> {
        match registered(self.inline_commands, name) {
            Ok(inline_commands) => Ok(BotView { inline_commands, ..self }),
            Err(error) => Err(error),
        }
    }

    /// The bot after `name` was offered as a callback.
    pub open spec fn with_callback(self, name: Seq<char>) -> Result<BotView, RegistryError> {
        match registered(self.callbacks, name) {
            Ok(callbacks) => Ok(BotView { callbacks, ..self }),
            Err(error) => Err(error),
        }
    }

    /// The bot's answer to the question which command is active, asked
    /// from `chat_id` while `active` is the active position.
    pub open spec fn current(self, active: usize, chat_id: u64) -> Result<
        RouteView,
        DispatchErrorView,
    > {
        if !self.enabled_current_command {
            Err(DispatchErrorView::FeatureDisabled)
        } else if active < self.commands.len() {
            Ok(RouteView::Reply(ResponseMessage::plain(chat_id, self.commands[active as int])))
        } else {
            Err(DispatchErrorView::NoActiveCommand)
        }
    }

    /// Where plain text goes while `active` is the active position: to
    /// the inline command whose name is the whole text, if there is one,
    /// and else to the active command.
    pub open spec fn plain(self, active: usize, message: MessageView) -> Result<
        RouteView,
        DispatchErrorView,
    > {
        match position(self.inline_commands, message.text) {
            Some(index) => Ok(RouteView::Inline { index: index as usize, message }),
            None => if active < self.commands.len() {
                Ok(RouteView::Command { index: active, message })
            } else {
                Err(DispatchErrorView::NoActiveCommand)
            },
        }
    }

    /// Whether the decision on `contents` looks at the active position.
    pub open spec fn reads_active(self, contents: ContentsView) -> bool {
        match contents {
            ContentsView::Current(_) => self.enabled_current_command,
            ContentsView::Message(message) => position(self.inline_commands, message.text)
                is None,
            _ => false,
        }
    }

    /// The decision on `update` while `active` is the active position.
    ///
    /// A button press goes to the callback under the token's name; where
    /// there is none, the bot replies with that name. The question which
    /// command is active is answered with the name at the active
    /// position, if the switch is on. A command selects the position of
    /// its name and is confirmed; its handler is not called. Plain text
    /// goes where [`BotView::plain`] says. An update that carries nothing
    /// fails.
    pub open spec fn step(self, active: usize, update: UpdateView) -> StepView {
        match update.contents {
            ContentsView::CallbackMessage(callback) => StepView {
                outcome: match position(self.callbacks, callback.data.command) {
                    Some(index) => Ok(
                        RouteView::Callback {
                            index: index as usize,
                            message: callback.message,
                            message_id: callback.data.message_id,
                        },
                    ),
                    None => Ok(
                        RouteView::Reply(
                            ResponseMessage::plain(callback.message.chat.id, callback.data.command),
                        ),
                    ),
                },
                select: None,
            },
            ContentsView::Current(chat_id) => StepView {
                outcome: self.current(active, chat_id),
                select: None,
            },
            ContentsView::Command(command) => match position(self.commands, command.command) {
                Some(index) => StepView {
                    outcome: Ok(
                        RouteView::Reply(
                            ResponseMessage::plain(command.chat_id, confirmation(command.command)),
                        ),
                    ),
                    select: Some(index as usize),
                },
                None => StepView {
                    outcome: Err(DispatchErrorView::UnknownCommand(command.command)),
                    select: None,
                },
            },
            ContentsView::Message(message) => StepView {
                outcome: self.plain(active, message),
                select: None,
            },
            ContentsView::Empty => StepView {
                outcome: Err(DispatchErrorView::EmptyUpdate),
                select: None,
            },
        }
    }
}

/// A name is taken table by table. Offering a name that a table holds
/// fails with `DuplicateName`, and offering one that it does not hold
/// succeeds, whatever the other two tables hold. So the same name offered
/// twice to one table fails the second time, and still succeeds in each
/// table that does not hold it yet.
pub proof fn duplicate_name_fails_in_its_table_only(bot: BotView, name: Seq<char>)
    ensures
        bot.commands.contains(name) <==> bot.with_command(name) == Err::<BotView, RegistryError>(
            RegistryError::DuplicateName,
        ),
        bot.inline_commands.contains(name) <==> bot.with_inline(name) == Err::<
            BotView,
            RegistryError,
        >(RegistryError::DuplicateName),
        bot.callbacks.contains(name) <==> bot.with_callback(name) == Err::<
            BotView,
            RegistryError,
        >(RegistryError::DuplicateName),
        !bot.commands.contains(name) <==> bot.with_command(name) is Ok,
        !bot.inline_commands.contains(name) <==> bot.with_inline(name) is Ok,
        !bot.callbacks.contains(name) <==> bot.with_callback(name) is Ok,
        bot.with_command(name) matches Ok(after) ==> {
            &&& after.with_command(name) is Err
            &&& after.with_inline(name) is Ok <==> bot.with_inline(name) is Ok
            &&& after.with_callback(name) is Ok <==> bot.with_callback(name) is Ok
        },
        bot.with_inline(name) matches Ok(after) ==> {
            &&& after.with_inline(name) is Err
            &&& after.with_command(name) is Ok <==> bot.with_command(name) is Ok
            &&& after.with_callback(name) is Ok <==> bot.with_callback(name) is Ok
        },
        bot.with_callback(name) matches Ok(after) ==> {
            &&& after.with_callback(name) is Err
            &&& after.with_command(name) is Ok <==> bot.with_command(name) is Ok
            &&& after.with_inline(name) is Ok <==> bot.with_inline(name) is Ok
        },
{
    assert(bot.commands.push(name).last() == name);
    assert(bot.inline_commands.push(name).last() == name);
    assert(bot.callbacks.push(name).last() == name);
}

/// Registration keeps the names of each table free of duplicates.
pub proof fn registration_keeps_names_unique(bot: BotView, name: Seq<char>)
    requires
        bot.well_formed(),
    ensures
        bot.with_command(name) matches Ok(after) ==> after.well_formed(),
        bot.with_inline(name) matches Ok(after) ==> after.well_formed(),
        bot.with_callback(name) matches Ok(after) ==> after.well_formed(),
{
}

/// After a command was selected by its name, plain text goes to the
/// handler registered under that name, whichever command was active
/// before: the selection names the position of the name, and with that
/// position active the next plain message is routed to that position.
/// Text that is the name of an inline command goes to that inline command
/// instead and is left out here.
pub proof fn selected_command_receives_plain_text(
    bot: BotView,
    active: usize,
    selection: UpdateView,
    next: UpdateView,
)
    requires
        bot.commands.len() <= usize::MAX,
        selection.contents matches ContentsView::Command(command) && bot.commands.contains(
            command.command,
        ),
        next.contents matches ContentsView::Message(message) && !bot.inline_commands.contains(
            message.text,
        ),
    ensures
        bot.step(active, selection).select matches Some(index) && index < bot.commands.len()
            && bot.commands[index as int] == selection.contents->Command_0.command && bot.step(
            index,
            next,
        ).outcome == Ok::<RouteView, DispatchErrorView>(
            RouteView::Command { index, message: next.contents->Message_0 },
        ),
{
    lemma_position(bot.commands, selection.contents->Command_0.command);
    lemma_position(bot.inline_commands, next.contents->Message_0.text);
}

/// An update that carries nothing fails with `EmptyUpdate`, for every
/// bot and every active position: no route, no reply, no selection.
pub proof fn empty_update_fails(bot: BotView, active: usize, update: UpdateView)
    requires
        update.contents is Empty,
    ensures
        bot.step(active, update) == (StepView {
            outcome: Err(DispatchErrorView::EmptyUpdate),
            select: None,
        }),
{
}

/// Where the decision does not look at the active position, it is the
/// same for every position.
pub proof fn step_ignores_unread_position(
    bot: BotView,
    active: usize,
    other: usize,
    update: UpdateView,
)
    requires
        !bot.reads_active(update.contents),
    ensures
        bot.step(active, update) == bot.step(other, update),
{
}

/// The handlers of a bot, table by table. The handler at a position
/// belongs to the name at that position.
pub struct Handlers<H, C> {
    pub commands: Seq<H>,
    pub inline_commands: Seq<H>,
    pub callbacks: Seq<C>,
}

/// A bot, made once, filled by registrations, and then asked to dispatch.
/// `H` is what handles a message, `C` what handles a button press.
pub struct Bot<H, C> {
    commands: Table<H>,
    inline_commands: Table<H>,
    current_command: ActiveCommand,
    enabled_current_command: bool,
    callbacks: Table<C>,
}

impl<H, C> View for Bot<H, C> {
    type V = BotView;

    closed spec fn view(&self) -> BotView {
        BotView {
            commands: self.commands.names(),
            inline_commands: self.inline_commands.names(),
            callbacks: self.callbacks.names(),
            enabled_current_command: self.enabled_current_command,
        }
    }
}

impl<H, C> Bot<H, C> {
    /// The handlers that were registered.
    pub closed spec fn handlers(&self) -> Handlers<H, C> {
        Handlers {
            commands: self.commands.handlers(),
            inline_commands: self.inline_commands.handlers(),
            callbacks: self.callbacks.handlers(),
        }
    }

    /// What holds of every bot: no name stands twice in one table, and
    /// each table holds as many handlers as names.
    pub open spec fn sound(&self) -> bool {
        &&& self@.well_formed()
        &&& self.handlers().commands.len() == self@.commands.len()
        &&& self.handlers().inline_commands.len() == self@.inline_commands.len()
        &&& self.handlers().callbacks.len() == self@.callbacks.len()
    }


    /// A bot without handlers, with the question which command is active
    /// switched off.
    pub fn new() -> (bot: Bot<H, C>)
        ensures
            bot@ == BotView::empty(),
            bot.handlers() == (Handlers::<H, C> {
                commands: Seq::empty(),
                inline_commands: Seq::empty(),
                callbacks: Seq::empty(),
            }),
            bot.sound(),
    {
        Bot {
            commands: Table::new(),
            inline_commands: Table::new(),
            current_command: ActiveCommand::new(),
            enabled_current_command: false,
            callbacks: Table::new(),
        }
    }

    /// Registers a command under a name known when the program is
    /// written. The name must be free among the commands.
    pub fn add_command_static(&mut self, name: &'static str, cb: H)
        requires
            !old(self)@.commands.contains(name@),
        ensures
            old(self)@.with_command(name@) == Ok::<BotView, RegistryError>(final(self)@),
            final(self).handlers() == (Handlers {
                commands: old(self).handlers().commands.push(cb),
                ..old(self).handlers()
            }),
            final(self).sound(),
    {
        let _ = self.commands.insert(name.to_owned(), cb);
        proof {
            use_type_invariant(&self.commands);
            use_type_invariant(&self.inline_commands);
            use_type_invariant(&self.callbacks);
        }
    }

    /// Registers a command behind those registered before. Fails with
    /// `DuplicateName`, and changes nothing, exactly where a command has
    /// that name already; names of inline commands and of callbacks do
    /// not count.
    pub fn add_command_dynamic(&mut self, name: String, cb: H) -> (outcome: Result<
        (),
        RegistryError,
    >)
        ensures
            match outcome {
                Ok(()) => old(self)@.with_command(name@) == Ok::<BotView, RegistryError>(
                    final(self)@,
                ) && final(self).handlers() == (Handlers {
                    commands: old(self).handlers().commands.push(cb),
                    ..old(self).handlers()
                }),
                Err(error) => old(self)@.with_command(name@) == Err::<BotView, RegistryError>(
                    error,
                ) && final(self)@ == old(self)@ && final(self).handlers() == old(self).handlers(),
            },
            final(self).sound(),
    {
        let outcome = self.commands.insert(name, cb);
        proof {
            use_type_invariant(&self.commands);
            use_type_invariant(&self.inline_commands);
            use_type_invariant(&self.callbacks);
        }
        outcome
    }

    /// Registers an inline command under a name known when the program
    /// is written. The name must be free among the inline commands.
    pub fn add_command_inline_static(&mut self, name: &'static str, cb: H)
        requires
            !old(self)@.inline_commands.contains(name@),
        ensures
            old(self)@.with_inline(name@) == Ok::<BotView, RegistryError>(final(self)@),
            final(self).handlers() == (Handlers {
                inline_commands: old(self).handlers().inline_commands.push(cb),
                ..old(self).handlers()
            }),
            final(self).sound(),
    {
        let _ = self.inline_commands.insert(name.to_owned(), cb);
        proof {
            use_type_invariant(&self.commands);
            use_type_invariant(&self.inline_commands);
            use_type_invariant(&self.callbacks);
        }
    }

    /// Registers an inline command: a handler for messages whose whole
    /// text is `name`. Fails with `DuplicateName`, and changes nothing,
    /// exactly where an inline command has that name already.
    pub fn add_command_inline_dynamic(&mut self, name: String, cb: H) -> (outcome: Result<
        (),
        RegistryError,
    >)
        ensures
            match outcome {
                Ok(()) => old(self)@.with_inline(name@) == Ok::<BotView, RegistryError>(
                    final(self)@,
                ) && final(self).handlers() == (Handlers {
                    inline_commands: old(self).handlers().inline_commands.push(cb),
                    ..old(self).handlers()
                }),
                Err(error) => old(self)@.with_inline(name@) == Err::<BotView, RegistryError>(
                    error,
                ) && final(self)@ == old(self)@ && final(self).handlers() == old(self).handlers(),
            },
            final(self).sound(),
    {
        let outcome = self.inline_commands.insert(name, cb);
        proof {
            use_type_invariant(&self.commands);
            use_type_invariant(&self.inline_commands);
            use_type_invariant(&self.callbacks);
        }
        outcome
    }

    /// Switches on the question which command is active.
    pub fn enable_current_command(&mut self)
        ensures
            final(self)@ == (BotView { enabled_current_command: true, ..old(self)@ }),
            final(self).handlers() == old(self).handlers(),
            final(self).sound(),
    {
        self.enabled_current_command = true;
        proof {
            use_type_invariant(&self.commands);
            use_type_invariant(&self.inline_commands);
            use_type_invariant(&self.callbacks);
        }
    }

    /// Registers a callback under a name known when the program is
    /// written. The name must be free among the callbacks.
    pub fn add_callback_static(&mut self, name: &'static str, cb: C)
        requires
            !old(self)@.callbacks.contains(name@),
        ensures
            old(self)@.with_callback(name@) == Ok::<BotView, RegistryError>(final(self)@),
            final(self).handlers() == (Handlers {
                callbacks: old(self).handlers().callbacks.push(cb),
                ..old(self).handlers()
            }),
            final(self).sound(),
    {
        let _ = self.callbacks.insert(name.to_owned(), cb);
        proof {
            use_type_invariant(&self.commands);
            use_type_invariant(&self.inline_commands);
            use_type_invariant(&self.callbacks);
        }
    }

    /// Registers a callback: a handler for presses of buttons whose token
    /// names `name`. Fails with `DuplicateName`, and changes nothing,
    /// exactly where a callback has that name already.
    pub fn add_callback_dynamic(&mut self, name: String, cb: C) -> (outcome: Result<
        (),
        RegistryError,
    >)
        ensures
            match outcome {
                Ok(()) => old(self)@.with_callback(name@) == Ok::<BotView, RegistryError>(
                    final(self)@,
                ) && final(self).handlers() == (Handlers {
                    callbacks: old(self).handlers().callbacks.push(cb),
                    ..old(self).handlers()
                }),
                Err(error) => old(self)@.with_callback(name@) == Err::<BotView, RegistryError>(
                    error,
                ) && final(self)@ == old(self)@ && final(self).handlers() == old(self).handlers(),
            },
            final(self).sound(),
    {
        let outcome = self.callbacks.insert(name, cb);
        proof {
            use_type_invariant(&self.commands);
            use_type_invariant(&self.inline_commands);
            use_type_invariant(&self.callbacks);
        }
        outcome
    }

    /// The handler of the command at `index`, where there is one.
    pub fn command_handler(&self, index: usize) -> (handler: Option<&H>)
        ensures
            match handler {
                Some(handler) => index < self.handlers().commands.len() && *handler
                    == self.handlers().commands[index as int],
                None => index >= self.handlers().commands.len(),
            },
    {
        self.commands.handler_at(index)
    }

    /// The handler of the inline command at `index`, where there is one.
    pub fn inline_handler(&self, index: usize) -> (handler: Option<&H>)
        ensures
            match handler {
                Some(handler) => index < self.handlers().inline_commands.len() && *handler
                    == self.handlers().inline_commands[index as int],
                None => index >= self.handlers().inline_commands.len(),
            },
    {
        self.inline_commands.handler_at(index)
    }

    /// The callback at `index`, where there is one.
    pub fn callback_handler(&self, index: usize) -> (handler: Option<&C>)
        ensures
            match handler {
                Some(handler) => index < self.handlers().callbacks.len() && *handler
                    == self.handlers().callbacks[index as int],
                None => index >= self.handlers().callbacks.len(),
            },
    {
        self.callbacks.handler_at(index)
    }

    /// Whether the handler that `outcome` names is there.
    pub open spec fn serves(&self, outcome: Result<Route, DispatchError>) -> bool {
        match outcome {
            Ok(Route::Command { index, .. }) => index < self.handlers().commands.len(),
            Ok(Route::Inline { index, .. }) => index < self.handlers().inline_commands.len(),
            Ok(Route::Callback { index, .. }) => index < self.handlers().callbacks.len(),
            _ => true,
        }
    }

    fn step_callback(&self, callback_message: CallbackMessage) -> (step: Step)
        ensures
            step@ == self@.step(
                0,
                UpdateView {
                    update_id: 0,
                    contents: ContentsView::CallbackMessage(callback_message@),
                },
            ),
            self.serves(step.outcome),
    {
        let found = self.callbacks.find(&callback_message.data.command);
        proof {
            use_type_invariant(&self.callbacks);
            lemma_position(self@.callbacks, callback_message.data.command@);
        }
        let outcome = match found {
            Some(index) => Ok(
                Route::Callback {
                    index,
                    message: callback_message.message,
                    message_id: callback_message.data.message_id,
                },
            ),
            None => Ok(
                Route::Reply(
                    ResponseMessage::text(
                        callback_message.message.chat.id,
                        callback_message.data.command,
                    ),
                ),
            ),
        };
        Step { outcome, select: None }
    }

    fn step_current(&self, active: usize, chat_id: u64) -> (outcome: Result<Route, DispatchError>)
        ensures
            outcome_view(outcome) == self@.current(active, chat_id),
            self.serves(outcome),
    {
        if !self.enabled_current_command {
            return Err(DispatchError::FeatureDisabled);
        }
        match self.commands.name_at(active) {
            Some(name) => Ok(Route::Reply(ResponseMessage::text(chat_id, name.clone()))),
            None => Err(DispatchError::NoActiveCommand),
        }
    }

    fn step_command(&self, command: Command) -> (step: Step)
        ensures
            step@ == self@.step(
                0,
                UpdateView { update_id: 0, contents: ContentsView::Command(command@) },
            ),
            self.serves(step.outcome),
    {
        match self.commands.find(&command.command) {
            Some(index) => {
                let mut text = "Command set to ".to_owned();
                text.append(command.command.as_str());
                Step {
                    outcome: Ok(Route::Reply(ResponseMessage::text(command.chat_id, text))),
                    select: Some(index),
                }
            },
            None => Step {
                outcome: Err(DispatchError::UnknownCommand(command.command)),
                select: None,
            },
        }
    }

    fn step_message(&self, active: usize, message: Message) -> (outcome: Result<
        Route,
        DispatchError,
    >)
        ensures
            outcome_view(outcome) == self@.plain(active, message@),
            self.serves(outcome),
    {
        let found = self.inline_commands.find(&message.text);
        let size = self.commands.len();
        proof {
            use_type_invariant(&self.commands);
            use_type_invariant(&self.inline_commands);
            lemma_position(self@.inline_commands, message.text@);
        }
        match found {
            Some(index) => Ok(Route::Inline { index, message }),
            None => if active < size {
                Ok(Route::Command { index: active, message })
            } else {
                Err(DispatchError::NoActiveCommand)
            },
        }
    }

    /// Decides where `update` goes while `active` is the active position.
    /// The decision is [`BotView::step`] of the bot, the position and the
    /// update, for every bot, position and update. In particular an
    /// update that carries nothing fails with `EmptyUpdate`. A handler
    /// that the decision names is there.
    pub fn step(&self, active: usize, update: Update) -> (step: Step)
        ensures
            step@ == self@.step(active, update@),
            update@.contents is Empty ==> step.outcome == Err::<Route, DispatchError>(
                DispatchError::EmptyUpdate,
            ),
            self.serves(step.outcome),
    {
        match update.contents {
            Contents::CallbackMessage(callback_message) => self.step_callback(callback_message),
            Contents::Current(chat_id) => Step {
                outcome: self.step_current(active, chat_id),
                select: None,
            },
            Contents::Command(command) => self.step_command(command),
            Contents::Message(message) => Step {
                outcome: self.step_message(active, message),
                select: None,
            },
            Contents::Empty => Step { outcome: Err(DispatchError::EmptyUpdate), select: None },
        }
    }

    /// Dispatches `update` as far as a decision goes: reads the active
    /// position, decides as [`Bot::step`] does, and makes the selected
    /// position the active one where the update selects a command.
    ///
    /// Other dispatches may run at the same time, so the position that
    /// was read is some position, not a known one: the outcome is that
    /// of [`BotView::step`] for some position. Where the decision does
    /// not look at the position, it is that of every position.
    pub fn route(&self, update: Update) -> (outcome: Result<Route, DispatchError>)
        ensures
            exists|active: usize|
                outcome_view(outcome) == (#[trigger] self@.step(active, update@)).outcome,
            !self@.reads_active(update@.contents) ==> forall|active: usize|
                outcome_view(outcome) == (#[trigger] self@.step(active, update@)).outcome,
            update@.contents is Empty ==> outcome == Err::<Route, DispatchError>(
                DispatchError::EmptyUpdate,
            ),
            self.serves(outcome),
    {
        let active = self.current_command.get();
        let step = self.step(active, update);
        if let Some(index) = step.select {
            self.current_command.set(index);
        }
        step.outcome
    }
}

} // verus!
