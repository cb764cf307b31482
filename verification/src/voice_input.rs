//! Voice input: who may listen, and how a recognition session turns into events for the user.
use vstd::prelude::*;

use crate::error::Error;
use crate::realtime::{RealtimeSpeechEvent, RealtimeSpeechRecognizer, SessionControl};

verus! {

/// What a running session is told to do.
#[derive(Clone, Copy, Debug, PartialEq, Eq, Structural)]
pub enum VoiceSessionCommand {
    Stop,
    Cancel,
}

/// Whether a key went down or up.
#[derive(Clone, Copy, Debug, PartialEq, Eq, Structural)]
pub enum KeyState {
    Pressed,
    Released,
}

/// By what voice input was switched.
#[derive(Clone, Copy, Debug, PartialEq, Eq, Structural)]
pub enum VoiceInputToggledFrom {
    Button,
    Key { state: KeyState },
}

/// Whether the system lets the program use the microphone.
#[derive(Clone, Copy, Debug, PartialEq, Eq, Structural)]
pub enum MicrophoneAccessState {
    /// The user has refused it.
    Denied,
    /// The system's administrator has refused it.
    Restricted,
    /// Nobody has refused it.
    NotRefused,
}

impl MicrophoneAccessState {
    /// The microphone may not be used.
    pub open spec fn refused(self) -> bool {
        self is Denied || self is Restricted
    }

    /// Whether the microphone may not be used.
    pub fn is_refused(self) -> (refused: bool)
        ensures
            refused == self.refused(),
    {
        match self {
            MicrophoneAccessState::Denied | MicrophoneAccessState::Restricted => true,
            MicrophoneAccessState::NotRefused => false,
        }
    }
}

/// What went wrong with a session.
#[derive(Debug)]
pub enum VoiceSessionError {
    SpeechPrivacyPolicyNotAccepted,
    Other(String),
}

/// The model of [`VoiceSessionError`].
pub ghost enum SessionErrorView {
    SpeechPrivacyPolicyNotAccepted,
    Other(Seq<char>),
}

/// What a session tells the user.
#[allow(inconsistent_fields)]
#[derive(Debug)]
pub enum VoiceSessionEvent {
    Hypothesis { text: String },
    Final { text: String },
    Completed { session_duration_ms: u64 },
    Canceled { session_duration_ms: Option<u64> },
    Error(VoiceSessionError),
}

/// The model of [`VoiceSessionEvent`].
pub ghost enum SessionEventView {
    Hypothesis(Seq<char>),
    Final(Seq<char>),
    Completed(u64),
    Canceled(Option<u64>),
    Error(SessionErrorView),
}

/// Why listening could not be started.
#[derive(Debug)]
pub enum StartListeningError {
    AlreadyRunning,
    AccessDenied,
    Other(String),
}

impl View for VoiceSessionError {
    type V = SessionErrorView;

    open spec fn view(&self) -> SessionErrorView {
        match self {
            VoiceSessionError::SpeechPrivacyPolicyNotAccepted => {
                SessionErrorView::SpeechPrivacyPolicyNotAccepted
            },
            VoiceSessionError::Other(message) => SessionErrorView::Other(message@),
        }
    }
}

impl View for VoiceSessionEvent {
    type V = SessionEventView;

    open spec fn view(&self) -> SessionEventView {
        match self {
            VoiceSessionEvent::Hypothesis { text } => SessionEventView::Hypothesis(text@),
            VoiceSessionEvent::Final { text } => SessionEventView::Final(text@),
            VoiceSessionEvent::Completed { session_duration_ms } => SessionEventView::Completed(
                *session_duration_ms,
            ),
            VoiceSessionEvent::Canceled { session_duration_ms } => SessionEventView::Canceled(
                *session_duration_ms,
            ),
            VoiceSessionEvent::Error(error) => SessionEventView::Error(error@),
        }
    }
}

impl Clone for VoiceSessionError {
    fn clone(&self) -> (copy: Self)
        ensures
            copy@ == self@,
    {
        match self {
            VoiceSessionError::SpeechPrivacyPolicyNotAccepted => {
                VoiceSessionError::SpeechPrivacyPolicyNotAccepted
            },
            VoiceSessionError::Other(message) => VoiceSessionError::Other(message.clone()),
        }
    }
}

impl Clone for VoiceSessionEvent {
    fn clone(&self) -> (copy: Self)
        ensures
            copy@ == self@,
    {
        match self {
            VoiceSessionEvent::Hypothesis { text } => VoiceSessionEvent::Hypothesis {
                text: text.clone(),
            },
            VoiceSessionEvent::Final { text } => VoiceSessionEvent::Final { text: text.clone() },
            VoiceSessionEvent::Completed { session_duration_ms } => VoiceSessionEvent::Completed {
                session_duration_ms: *session_duration_ms,
            },
            VoiceSessionEvent::Canceled { session_duration_ms } => VoiceSessionEvent::Canceled {
                session_duration_ms: *session_duration_ms,
            },
            VoiceSessionEvent::Error(error) => VoiceSessionEvent::Error(error.clone()),
        }
    }
}

/// What a session tells the user about an error of the recognizer.
pub open spec fn session_error(error: Error) -> SessionErrorView {
    match error {
        Error::SpeechPrivacyPolicyNotAccepted => SessionErrorView::SpeechPrivacyPolicyNotAccepted,
        _ => SessionErrorView::Other(error.text()),
    }
}

impl VoiceSessionError {
    /// What a session tells the user about an error of the recognizer.
    pub fn from(error: &Error) -> (told: VoiceSessionError)
        ensures
            told@ == session_error(*error),
    {
        match error {
            Error::SpeechPrivacyPolicyNotAccepted => {
                VoiceSessionError::SpeechPrivacyPolicyNotAccepted
            },
            _ => VoiceSessionError::Other(error.to_text()),
        }
    }

    /// The text of the error.
    pub open spec fn text(&self) -> Seq<char> {
        match self {
            VoiceSessionError::SpeechPrivacyPolicyNotAccepted => "Windows speech recognition privacy is disabled. Enable speech recognition in Windows Settings > Privacy & security > Speech."@,
            VoiceSessionError::Other(message) => message@,
        }
    }

    /// The text of the error.
    pub fn to_text(&self) -> (text: String)
        ensures
            text@ == self.text(),
    {
        match self {
            VoiceSessionError::SpeechPrivacyPolicyNotAccepted => "Windows speech recognition privacy is disabled. Enable speech recognition in Windows Settings > Privacy & security > Speech.".to_owned(),
            VoiceSessionError::Other(message) => message.clone(),
        }
    }
}

/// What a session tells the user about an error reads as the error itself does.
pub proof fn session_errors_read_alike(error: Error, told: VoiceSessionError)
    requires
        told@ == session_error(error),
    ensures
        told.text() == error.text(),
{
}

impl StartListeningError {
    /// The text of the error.
    pub open spec fn text(&self) -> Seq<char> {
        match self {
            StartListeningError::AlreadyRunning => "Voice input is already running"@,
            StartListeningError::AccessDenied => "Microphone access denied"@,
            StartListeningError::Other(message) => message@,
        }
    }

    /// The text of the error.
    pub fn to_text(&self) -> (text: String)
        ensures
            text@ == self.text(),
    {
        match self {
            StartListeningError::AlreadyRunning => "Voice input is already running".to_owned(),
            StartListeningError::AccessDenied => "Microphone access denied".to_owned(),
            StartListeningError::Other(message) => message.clone(),
        }
    }
}

/// The sending end of a channel of `async_channel`.
#[verifier::external_type_specification]
#[verifier::external_body]
#[verifier::reject_recursive_types(T)]
pub struct ExSender<T>(async_channel::Sender<T>);

/// The receiving end of a channel of `async_channel`.
#[verifier::external_type_specification]
#[verifier::external_body]
#[verifier::reject_recursive_types(T)]
pub struct ExReceiver<T>(async_channel::Receiver<T>);

/// A moment of the monotonic clock.
#[verifier::external_type_specification]
#[verifier::external_body]
pub struct ExInstant(instant::Instant);

/// How many commands the channel behind `sender` was made to hold.
pub uninterp spec fn command_room(sender: async_channel::Sender<VoiceSessionCommand>) -> nat;

/// The two ends belong to one channel for commands.
pub uninterp spec fn command_ends_meet(
    sender: async_channel::Sender<VoiceSessionCommand>,
    receiver: async_channel::Receiver<VoiceSessionCommand>,
) -> bool;

/// The commands that have been offered at `sender`, in order.
pub uninterp spec fn commands_offered(
    sender: async_channel::Sender<VoiceSessionCommand>,
) -> Seq<VoiceSessionCommand>;

/// The commands that the channel has taken of those offered at `sender`, in order.
pub uninterp spec fn commands_taken(
    sender: async_channel::Sender<VoiceSessionCommand>,
) -> Seq<VoiceSessionCommand>;

/// No other sender belongs to the channel behind `sender`.
pub uninterp spec fn only_sender(sender: async_channel::Sender<VoiceSessionCommand>) -> bool;

/// `command` was offered at `sender` while `waiting` was waiting at the other end, and was answered
/// by `taken`; `closed` says whether nobody could receive it any more.
pub uninterp spec fn command_answered(
    sender: async_channel::Sender<VoiceSessionCommand>,
    command: VoiceSessionCommand,
    waiting: Option<VoiceSessionCommand>,
    closed: bool,
    taken: Result<(), CommandRefusal>,
) -> bool;

/// The clock once said that it was `moment`.
pub uninterp spec fn clock_read(moment: instant::Instant) -> bool;

/// The clock once said that `start` lay `nanos` nanoseconds back.
pub uninterp spec fn clock_read_since(start: instant::Instant, nanos: u128) -> bool;

/// The two ends belong to one channel for events.
pub uninterp spec fn event_ends_meet(
    sender: async_channel::Sender<VoiceSessionEvent>,
    receiver: async_channel::Receiver<VoiceSessionEvent>,
) -> bool;

/// Why a command was not taken; the command is handed back.
#[derive(Clone, Copy, Debug, PartialEq, Eq, Structural)]
pub enum CommandRefusal {
    /// A command is waiting already.
    Full(VoiceSessionCommand),
    /// Nobody receives commands any more.
    Closed(VoiceSessionCommand),
}

/// How a channel with room for one command answers an offer: it refuses every command once nobody
/// can receive it, and any command while another is waiting.
pub open spec fn answer(
    waiting: Option<VoiceSessionCommand>,
    closed: bool,
    command: VoiceSessionCommand,
) -> Result<(), CommandRefusal> {
    if closed {
        Err(CommandRefusal::Closed(command))
    } else if waiting is Some {
        Err(CommandRefusal::Full(command))
    } else {
        Ok(())
    }
}

/// `waiting` can be what waits where `taken` has been taken and nobody else sends: nothing, or the
/// command that was taken last.
pub open spec fn can_wait(
    taken: Seq<VoiceSessionCommand>,
    waiting: Option<VoiceSessionCommand>,
) -> bool {
    waiting matches Some(command) ==> taken.len() > 0 && command == taken.last()
}

/// The commands that have been taken once another has been offered and so answered.
pub open spec fn taken_after(
    taken: Seq<VoiceSessionCommand>,
    command: VoiceSessionCommand,
    answer: Result<(), CommandRefusal>,
) -> Seq<VoiceSessionCommand> {
    if answer is Ok {
        taken.push(command)
    } else {
        taken
    }
}

/// Calls [`async_channel::bounded`], which panics on a capacity of zero and on one that memory
/// cannot hold; it is asked for room for one command. The two ends belong to one channel, which
/// has the capacity asked for, no other sender, and nothing offered yet.
#[verifier::external_body]
fn command_channel(room: usize) -> (ends: (
    async_channel::Sender<VoiceSessionCommand>,
    async_channel::Receiver<VoiceSessionCommand>,
))
    requires
        room == 1,
    ensures
        command_room(ends.0) == room,
        command_ends_meet(ends.0, ends.1),
        only_sender(ends.0),
        commands_offered(ends.0) == Seq::<VoiceSessionCommand>::empty(),
        commands_taken(ends.0) == Seq::<VoiceSessionCommand>::empty(),
{
    async_channel::bounded(room)
}

/// Calls [`async_channel::unbounded`]. The two ends belong to one channel. Nothing is said of what
/// passes through it: that depends on who holds the ends.
#[verifier::external_body]
fn event_channel() -> (ends: (
    async_channel::Sender<VoiceSessionEvent>,
    async_channel::Receiver<VoiceSessionEvent>,
))
    ensures
        event_ends_meet(ends.0, ends.1),
{
    async_channel::unbounded()
}

/// Calls [`async_channel::Sender::try_send`] of `sender` with `command`, once. A channel with room
/// for one command refuses it where another is waiting, or where nobody can receive it any more; a
/// command that is just being taken out still counts as waiting. With one sender, what waits is
/// the command that was taken last, unless it has been received. Whether it has been, and whether
/// anybody receives, depends on the receiving side. A command that is not taken is handed back.
/// The sender is borrowed mutably so that no command is offered through a shared one; it stays
/// with its channel.
#[verifier::external_body]
fn offer_command(
    sender: &mut async_channel::Sender<VoiceSessionCommand>,
    command: VoiceSessionCommand,
) -> (taken: Result<(), CommandRefusal>)
    ensures
        commands_offered(*final(sender)) == commands_offered(*old(sender)).push(command),
        commands_taken(*final(sender)) == taken_after(
            commands_taken(*old(sender)),
            command,
            taken,
        ),
        command_room(*final(sender)) == command_room(*old(sender)),
        only_sender(*final(sender)) == only_sender(*old(sender)),
        forall|receiver: async_channel::Receiver<VoiceSessionCommand>| #[trigger]
            command_ends_meet(*final(sender), receiver) == command_ends_meet(
                *old(sender),
                receiver,
            ),
        exists|waiting: Option<VoiceSessionCommand>, closed: bool| #[trigger]
            command_answered(*old(sender), command, waiting, closed, taken) && (command_room(
                *old(sender),
            ) == 1 ==> taken == answer(waiting, closed, command)) && (command_room(*old(sender))
                == 1 && only_sender(*old(sender)) ==> can_wait(
                commands_taken(*old(sender)),
                waiting,
            )),
        taken matches Err(CommandRefusal::Full(refused)) ==> refused == command,
        taken matches Err(CommandRefusal::Closed(refused)) ==> refused == command,
{
    sender.try_send(command).map_err(
        |refusal|
            match refusal {
                async_channel::TrySendError::Full(command) => CommandRefusal::Full(command),
                async_channel::TrySendError::Closed(command) => CommandRefusal::Closed(command),
            },
    )
}

/// Calls [`instant::Instant::now`]. Of the moment it is said only that the clock gave it.
#[verifier::external_body]
pub(crate) fn clock_now() -> (now: instant::Instant)
    ensures
        clock_read(now),
{
    instant::Instant::now()
}

/// Calls [`instant::Instant::elapsed`] of `start` and gives the time in whole nanoseconds. Of the
/// time it is said only that the clock gave it for `start`.
#[verifier::external_body]
pub(crate) fn nanos_since(start: &instant::Instant) -> (nanos: u128)
    ensures
        clock_read_since(*start, nanos),
{
    start.elapsed().as_nanos()
}

/// The end of a session's channel at which it is told what to do. There is one to a session.
#[derive(Debug)]
pub struct CommandSender {
    sender: async_channel::Sender<VoiceSessionCommand>,
}

impl CommandSender {
    /// The channel has room for one command and no other sender.
    pub closed spec fn wf(self) -> bool {
        command_room(self.sender) == 1 && only_sender(self.sender)
    }

    /// The commands that have been offered to the session, in order.
    pub closed spec fn told(self) -> Seq<VoiceSessionCommand> {
        commands_offered(self.sender)
    }

    /// The commands among them that the channel has taken, in order.
    pub closed spec fn taken(self) -> Seq<VoiceSessionCommand> {
        commands_taken(self.sender)
    }

    /// What is taken here comes out at `receiver`.
    pub closed spec fn reaches(
        self,
        receiver: async_channel::Receiver<VoiceSessionCommand>,
    ) -> bool {
        command_ends_meet(self.sender, receiver)
    }

    /// `command` was offered next while `waiting` was waiting, and was answered accordingly.
    pub closed spec fn answered(
        self,
        command: VoiceSessionCommand,
        waiting: Option<VoiceSessionCommand>,
        closed: bool,
    ) -> bool {
        command_answered(self.sender, command, waiting, closed, answer(waiting, closed, command))
    }

    /// The sender once `command`, and nothing else, has been offered while `waiting` was waiting;
    /// `closed` says whether nobody could receive it any more.
    pub open spec fn told_while(
        before: CommandSender,
        after: CommandSender,
        command: VoiceSessionCommand,
        waiting: Option<VoiceSessionCommand>,
        closed: bool,
    ) -> bool {
        &&& before.answered(command, waiting, closed)
        &&& can_wait(before.taken(), waiting)
        &&& after.told() == before.told().push(command)
        &&& after.taken() == taken_after(
            before.taken(),
            command,
            answer(waiting, closed, command),
        )
        &&& after.wf()
        &&& forall|receiver: async_channel::Receiver<VoiceSessionCommand>| #[trigger]
            after.reaches(receiver) == before.reaches(receiver)
    }

    /// Offers a command, and says what became of it.
    fn send(&mut self, command: VoiceSessionCommand) -> (delivery: CommandDelivery)
        requires
            old(self).wf(),
        ensures
            exists|waiting: Option<VoiceSessionCommand>, closed: bool|
                {
                    &&& #[trigger] CommandSender::told_while(
                        *old(self),
                        *final(self),
                        command,
                        waiting,
                        closed,
                    )
                    &&& delivery == delivery_of(command, answer(waiting, closed, command))
                },
    {
        let ghost before = *self;
        let taken = offer_command(&mut self.sender, command);
        proof {
            let (waiting, closed) = choose|waiting: Option<VoiceSessionCommand>, closed: bool|
                #[trigger]
                command_answered(before.sender, command, waiting, closed, taken) && taken == answer(
                    waiting,
                    closed,
                    command,
                ) && can_wait(commands_taken(before.sender), waiting);
            assert(CommandSender::told_while(before, *self, command, waiting, closed));
        }
        delivered(command, taken)
    }
}

/// Whether a session is running.
#[derive(Debug)]
pub enum VoiceInputState {
    Idle,
    Listening {
        enabled_from: VoiceInputToggledFrom,
        session_start: instant::Instant,
        command_tx: CommandSender,
    },
}

/// Voice input: at most one session at a time.
#[derive(Debug)]
pub struct VoiceInput {
    pub state: VoiceInputState,
    pub should_suppress_new_feature_popup: bool,
    pub recognizer: RealtimeSpeechRecognizer,
}

/// A session that has been started: the ends of its channels, and since when it runs.
#[derive(Debug)]
pub struct StartedSession {
    pub event_tx: async_channel::Sender<VoiceSessionEvent>,
    pub event_rx: async_channel::Receiver<VoiceSessionEvent>,
    pub command_rx: async_channel::Receiver<VoiceSessionCommand>,
    pub session_start: instant::Instant,
}

/// What became of a command.
#[derive(Clone, Copy, Debug, PartialEq, Eq, Structural)]
pub enum CommandDelivery {
    /// No session is running.
    NotListening,
    /// The session will see the command.
    Sent(VoiceSessionCommand),
    /// The session did not take the command: another is waiting, or the session is at its end.
    Refused(VoiceSessionCommand),
}

impl VoiceInput {
    /// A session is running.
    pub open spec fn listening(&self) -> bool {
        self.state is Listening
    }

    /// The running session has room for one command, and is told what to do from here alone.
    pub open spec fn wf(&self) -> bool {
        self.state matches VoiceInputState::Listening { command_tx, .. } ==> command_tx.wf()
    }

    /// The commands that have been offered to the running session, in order.
    pub open spec fn told(&self) -> Seq<VoiceSessionCommand> {
        match self.state {
            VoiceInputState::Listening { command_tx, .. } => command_tx.told(),
            VoiceInputState::Idle => seq![],
        }
    }

    /// The commands among them that the session's channel has taken, in order.
    pub open spec fn taken(&self) -> Seq<VoiceSessionCommand> {
        match self.state {
            VoiceInputState::Listening { command_tx, .. } => command_tx.taken(),
            VoiceInputState::Idle => seq![],
        }
    }

    /// By what the running session was switched on.
    pub open spec fn source(&self) -> Option<VoiceInputToggledFrom> {
        match self.state {
            VoiceInputState::Listening { enabled_from, .. } => Some(enabled_from),
            VoiceInputState::Idle => None,
        }
    }

    /// Voice input listens to `session`, which `source` switched on: commands that are sent here
    /// go to the session, and what the session says comes out at its receiving end. The session
    /// has not been told anything yet.
    pub open spec fn listens_to(
        &self,
        session: StartedSession,
        source: VoiceInputToggledFrom,
    ) -> bool {
        &&& self.state matches VoiceInputState::Listening {
            enabled_from,
            session_start,
            command_tx,
        }
        &&& enabled_from == source
        &&& session_start == session.session_start
        &&& clock_read(session_start)
        &&& command_tx.reaches(session.command_rx)
        &&& command_tx.told() == Seq::<VoiceSessionCommand>::empty()
        &&& command_tx.taken() == Seq::<VoiceSessionCommand>::empty()
        &&& event_ends_meet(session.event_tx, session.event_rx)
    }

    /// Voice input that does not listen.
    pub fn new(recognizer: RealtimeSpeechRecognizer) -> (input: VoiceInput)
        ensures
            input.wf(),
            input.state is Idle,
            !input.should_suppress_new_feature_popup,
            input.recognizer == recognizer,
    {
        VoiceInput {
            state: VoiceInputState::Idle,
            should_suppress_new_feature_popup: false,
            recognizer,
        }
    }

    /// Whether a session is running.
    pub fn is_listening(&self) -> (listening: bool)
        ensures
            listening == self.listening(),
    {
        match self.state {
            VoiceInputState::Listening { .. } => true,
            VoiceInputState::Idle => false,
        }
    }

    /// Whether a session is running.
    pub fn is_active(&self) -> (active: bool)
        ensures
            active == self.listening(),
    {
        self.is_listening()
    }

    /// Whether a session is running, and which.
    pub fn state(&self) -> (state: &VoiceInputState)
        ensures
            *state == self.state,
    {
        &self.state
    }

    /// Whether the running session was switched on by pressing a key.
    pub fn started_from_key_press(&self) -> (r: bool)
        ensures
            r == (self.source() == Some(VoiceInputToggledFrom::Key { state: KeyState::Pressed })),
    {
        match self.state {
            VoiceInputState::Listening {
                enabled_from: VoiceInputToggledFrom::Key { state: KeyState::Pressed },
                ..
            } => true,
            _ => false,
        }
    }

    /// Why listening cannot be started, if it cannot.
    pub open spec fn start_refused(&self, access: MicrophoneAccessState) -> Option<
        StartListeningError,
    > {
        if self.listening() {
            Some(StartListeningError::AlreadyRunning)
        } else if access.refused() {
            Some(StartListeningError::AccessDenied)
        } else {
            None
        }
    }

    /// Starts a session, unless one is running or the microphone may not be used. The caller
    /// runs the session with what it is given.
    pub fn start_listening(
        &mut self,
        source: VoiceInputToggledFrom,
        access: MicrophoneAccessState,
    ) -> (r: Result<StartedSession, StartListeningError>)
        requires
            old(self).wf(),
        ensures
            final(self).wf(),
            final(self).should_suppress_new_feature_popup == old(self).should_suppress_new_feature_popup,
            final(self).recognizer == old(self).recognizer,
            match old(self).start_refused(access) {
                Some(error) => r == Err::<StartedSession, StartListeningError>(error)
                    && final(self).state == old(self).state,
                None => r matches Ok(session) && final(self).listens_to(session, source),
            },
    {
        if self.is_listening() {
            return Err(StartListeningError::AlreadyRunning);
        }
        if access.is_refused() {
            return Err(StartListeningError::AccessDenied);
        }
        let (event_tx, event_rx) = event_channel();
        let (sender, command_rx) = command_channel(1);
        let command_tx = CommandSender { sender };
        let session_start = clock_now();
        self.state =
        VoiceInputState::Listening { enabled_from: source, session_start, command_tx };
        Ok(StartedSession { event_tx, event_rx, command_rx, session_start })
    }

    /// Notes that the session has come to its end.
    pub fn session_ended(&mut self)
        ensures
            final(self).wf(),
            final(self).state is Idle,
            final(self).should_suppress_new_feature_popup == old(self).should_suppress_new_feature_popup,
            final(self).recognizer == old(self).recognizer,
    {
        self.state = VoiceInputState::Idle;
    }

    /// Voice input once the running session has been told `command`, and nothing else, while
    /// `waiting` was waiting; `closed` says whether the session could not receive it any more.
    pub open spec fn told_while(
        before: VoiceInput,
        after: VoiceInput,
        command: VoiceSessionCommand,
        waiting: Option<VoiceSessionCommand>,
        closed: bool,
    ) -> bool {
        &&& before.state matches VoiceInputState::Listening {
            enabled_from: source_before,
            session_start: start_before,
            command_tx: sender_before,
        }
        &&& after.state matches VoiceInputState::Listening {
            enabled_from: source_after,
            session_start: start_after,
            command_tx: sender_after,
        }
        &&& source_after == source_before
        &&& start_after == start_before
        &&& CommandSender::told_while(sender_before, sender_after, command, waiting, closed)
        &&& after.should_suppress_new_feature_popup == before.should_suppress_new_feature_popup
        &&& after.recognizer == before.recognizer
    }

    /// Voice input once the running session, if there is one, has been told `command` and nothing
    /// else. Where none is running nothing happens.
    pub open spec fn tells(
        before: VoiceInput,
        after: VoiceInput,
        command: VoiceSessionCommand,
    ) -> bool {
        if before.listening() {
            exists|waiting: Option<VoiceSessionCommand>, closed: bool| #[trigger]
                VoiceInput::told_while(before, after, command, waiting, closed)
        } else {
            after == before
        }
    }

    /// Tells the running session to stop, so that it still recognizes what has been said. That
    /// there is no session, or that it cannot take the command, is no error.
    pub fn stop_listening(&mut self) -> (r: Result<(), Error>)
        requires
            old(self).wf(),
        ensures
            r == Ok::<(), Error>(()),
            VoiceInput::tells(*old(self), *final(self), VoiceSessionCommand::Stop),
            final(self).wf(),
            old(self).listening() ==> final(self).told() == old(self).told().push(
                VoiceSessionCommand::Stop),
    {
        self.send_command(VoiceSessionCommand::Stop);
        Ok(())
    }

    /// Tells the running session to give up.
    pub fn abort_listening(&mut self)
        requires
            old(self).wf(),
        ensures
            VoiceInput::tells(*old(self), *final(self), VoiceSessionCommand::Cancel),
            final(self).wf(),
            old(self).listening() ==> final(self).told() == old(self).told().push(
                VoiceSessionCommand::Cancel),
    {
        self.send_command(VoiceSessionCommand::Cancel);
    }

    /// Hands a command to the running session, and says what became of it.
    pub fn send_command(&mut self, command: VoiceSessionCommand) -> (delivery: CommandDelivery)
        requires
            old(self).wf(),
        ensures
            VoiceInput::tells(*old(self), *final(self), command),
            final(self).wf(),
            if old(self).listening() {
                exists|waiting: Option<VoiceSessionCommand>, closed: bool|
                    {
                        &&& #[trigger] VoiceInput::told_while(
                            *old(self),
                            *final(self),
                            command,
                            waiting,
                            closed,
                        )
                        &&& delivery == delivery_of(command, answer(waiting, closed, command))
                    }
            } else {
                delivery is NotListening
            },
    {
        let ghost before = *self;
        match &mut self.state {
            VoiceInputState::Idle => CommandDelivery::NotListening,
            VoiceInputState::Listening { command_tx, .. } => {
                let ghost sender = *command_tx;
                let delivery = command_tx.send(command);
                proof {
                    let told = *command_tx;
                    let (waiting, closed) = choose|
                        waiting: Option<VoiceSessionCommand>,
                        closed: bool,
                    | #[trigger]
                        CommandSender::told_while(sender, told, command, waiting, closed)
                            && delivery == delivery_of(command, answer(waiting, closed, command));
                    assert(VoiceInput::told_while(before, *self, command, waiting, closed));
                }
                delivery
            },
        }
    }
}

/// What became of a command that was offered to a session, given whether the session took it.
pub open spec fn delivery_of(
    command: VoiceSessionCommand,
    taken: Result<(), CommandRefusal>,
) -> CommandDelivery {
    match taken {
        Ok(()) => CommandDelivery::Sent(command),
        Err(CommandRefusal::Full(refused)) => CommandDelivery::Refused(refused),
        Err(CommandRefusal::Closed(refused)) => CommandDelivery::Refused(refused),
    }
}

/// The running session was told `command` while another was still waiting for it.
pub open spec fn told_while_pending(
    before: VoiceInput,
    after: VoiceInput,
    command: VoiceSessionCommand,
) -> bool {
    exists|waiting: VoiceSessionCommand, closed: bool| #[trigger]
        VoiceInput::told_while(before, after, command, Some(waiting), closed)
}

/// The first command wins: where the running session takes a command and is told another before it
/// has received the first, the other is refused and the first is the one that waits, such as a
/// cancel with a stop behind it.
pub proof fn first_command_wins(
    before: VoiceInput,
    between: VoiceInput,
    after: VoiceInput,
    first: VoiceSessionCommand,
    other: VoiceSessionCommand,
    waiting: VoiceSessionCommand,
    closed: bool,
)
    requires
        VoiceInput::told_while(before, between, first, None, false),
        VoiceInput::told_while(between, after, other, Some(waiting), closed),
    ensures
        waiting == first,
        delivery_of(other, answer(Some(waiting), closed, other)) == CommandDelivery::Refused(other),
        after.taken() == between.taken(),
        after.taken() == before.taken().push(first),
        after.told() == before.told().push(first).push(other),
{
}

/// However many commands the running session is told while one is waiting for it, the one that
/// waits stays, and none of the others is taken.
pub proof fn pending_commands_stay(inputs: Seq<VoiceInput>, commands: Seq<VoiceSessionCommand>)
    requires
        inputs.len() == commands.len() + 1,
        forall|i: int|
            0 <= i < commands.len() ==> #[trigger] told_while_pending(
                inputs[i],
                inputs[i + 1],
                commands[i],
            ),
    ensures
        inputs.last().taken() == inputs.first().taken(),
        inputs.last().told() == inputs.first().told() + commands,
        commands.len() > 0 ==> inputs.first().taken().len() > 0,
    decreases commands.len(),
{
    if commands.len() > 0 {
        let last = commands.len() - 1;
        let fewer = inputs.drop_last();
        assert(told_while_pending(inputs[last], inputs[last + 1], commands[last]));
        assert forall|i: int| 0 <= i < commands.drop_last().len() implies #[trigger]
            told_while_pending(fewer[i], fewer[i + 1], commands.drop_last()[i]) by {
            assert(told_while_pending(inputs[i], inputs[i + 1], commands[i]));
        }
        pending_commands_stay(fewer, commands.drop_last());
        assert(inputs.last().told() =~= inputs.first().told() + commands);
    } else {
        assert(inputs.first().told() + commands =~= inputs.first().told());
    }
}

/// What becomes of a command follows from what was waiting when it was offered: the session takes
/// it where nothing was and somebody receives, and in no other case.
pub proof fn deliveries_follow_the_channel(
    command: VoiceSessionCommand,
    waiting: Option<VoiceSessionCommand>,
    closed: bool,
)
    ensures
        delivery_of(command, answer(waiting, closed, command)) == if waiting is None && !closed {
            CommandDelivery::Sent(command)
        } else {
            CommandDelivery::Refused(command)
        },
{
}

/// What became of a command that was offered to a session, given whether the session took it.
pub fn delivered(command: VoiceSessionCommand, taken: Result<(), CommandRefusal>) -> (delivery:
    CommandDelivery)
    ensures
        delivery == delivery_of(command, taken),
{
    match taken {
        Ok(()) => CommandDelivery::Sent(command),
        Err(CommandRefusal::Full(refused)) => CommandDelivery::Refused(refused),
        Err(CommandRefusal::Closed(refused)) => CommandDelivery::Refused(refused),
    }
}

/// How far a session has come.
#[derive(Clone, Copy, Debug, PartialEq, Eq, Structural)]
pub enum SessionPhase {
    /// The recognizer is being started.
    Starting,
    Running,
    /// The recognizer has been told to stop.
    Stopping,
    /// The recognizer has been told to give up.
    Canceling,
    /// The recognizer has stopped; what it still had to say is passed on.
    FlushingStopped,
    /// The recognizer has given up; what it still had to say is passed on.
    FlushingCanceled,
    Ended,
}

/// What happens to a session.
#[derive(Debug)]
pub enum SessionInput {
    Started,
    StartFailed(Error),
    Command(VoiceSessionCommand),
    /// Nobody can send commands any more.
    CommandsClosed,
    Event(RealtimeSpeechEvent),
    /// The recognizer will send no more events.
    EventsClosed,
    /// The recognizer has done as it was told.
    ControlDone,
    ControlFailed(Error),
    /// The recognizer has no event left to pass on.
    NothingPending,
}

/// What a session does.
#[derive(Debug)]
pub struct SessionOutput {
    /// What the user is told.
    pub send: Option<VoiceSessionEvent>,
    /// What the recognizer is told.
    pub control: Option<SessionControl>,
    /// How the session ended, once it has.
    pub result: Option<Result<(), Error>>,
}

/// The event after which a session has nothing more to say.
pub open spec fn is_terminal(event: SessionEventView) -> bool {
    event is Completed || event is Canceled || event is Error
}

/// What the user is told about an event of the recognizer, `elapsed_ms` after the session began.
pub open spec fn forwarded(event: RealtimeSpeechEvent, elapsed_ms: u64) -> SessionEventView {
    match event {
        RealtimeSpeechEvent::Hypothesis { text } => SessionEventView::Hypothesis(text@),
        RealtimeSpeechEvent::Final { text } => SessionEventView::Final(text@),
        RealtimeSpeechEvent::Completed => SessionEventView::Completed(elapsed_ms),
        RealtimeSpeechEvent::Canceled => SessionEventView::Canceled(Some(elapsed_ms)),
        RealtimeSpeechEvent::Error(message) => SessionEventView::Error(
            SessionErrorView::Other(message@),
        ),
    }
}

/// The whole milliseconds in a time, as far as they fit in 64 bits.
pub open spec fn whole_ms(nanos: u128) -> u64 {
    (nanos / 1_000_000) as u64
}

/// The phase that follows.
pub open spec fn next_phase(phase: SessionPhase, input: SessionInput, elapsed_ms: u64) -> SessionPhase {
    match (phase, input) {
        (SessionPhase::Starting, SessionInput::Started) => SessionPhase::Running,
        (SessionPhase::Starting, SessionInput::StartFailed(_)) => SessionPhase::Ended,
        (SessionPhase::Running, SessionInput::Command(VoiceSessionCommand::Stop)) => {
            SessionPhase::Stopping
        },
        (SessionPhase::Running, SessionInput::Command(VoiceSessionCommand::Cancel)) => {
            SessionPhase::Canceling
        },
        (SessionPhase::Running, SessionInput::CommandsClosed) => SessionPhase::Canceling,
        (SessionPhase::Running, SessionInput::EventsClosed) => SessionPhase::Ended,
        (SessionPhase::Stopping, SessionInput::ControlDone) => SessionPhase::FlushingStopped,
        (SessionPhase::Stopping, SessionInput::ControlFailed(_)) => SessionPhase::Ended,
        (SessionPhase::Canceling, SessionInput::ControlDone) => SessionPhase::FlushingCanceled,
        (SessionPhase::Canceling, SessionInput::ControlFailed(_)) => SessionPhase::Ended,
        (SessionPhase::FlushingStopped, SessionInput::NothingPending) => SessionPhase::Ended,
        (SessionPhase::FlushingCanceled, SessionInput::NothingPending) => SessionPhase::Ended,
        (_, SessionInput::Event(event)) => if passes_events(phase) && is_terminal(
            forwarded(event, elapsed_ms),
        ) {
            SessionPhase::Ended
        } else {
            phase
        },
        _ => phase,
    }
}

/// Events of the recognizer are passed on in this phase.
pub open spec fn passes_events(phase: SessionPhase) -> bool {
    phase is Running || phase is FlushingStopped || phase is FlushingCanceled
}

/// What the user is told.
pub open spec fn sent(phase: SessionPhase, input: SessionInput, elapsed_ms: u64) -> Option<
    SessionEventView,
> {
    match (phase, input) {
        (SessionPhase::Starting, SessionInput::StartFailed(error)) => Some(
            SessionEventView::Error(session_error(error)),
        ),
        (SessionPhase::Running, SessionInput::EventsClosed) => Some(
            SessionEventView::Completed(elapsed_ms),
        ),
        (SessionPhase::FlushingStopped, SessionInput::NothingPending) => Some(
            SessionEventView::Completed(elapsed_ms),
        ),
        (SessionPhase::FlushingCanceled, SessionInput::NothingPending) => Some(
            SessionEventView::Canceled(Some(elapsed_ms)),
        ),
        (_, SessionInput::Event(event)) => if passes_events(phase) {
            Some(forwarded(event, elapsed_ms))
        } else {
            None
        },
        _ => None,
    }
}

/// What the recognizer is told.
pub open spec fn controlled(phase: SessionPhase, input: SessionInput) -> Option<SessionControl> {
    match (phase, input) {
        (SessionPhase::Running, SessionInput::Command(VoiceSessionCommand::Stop)) => Some(
            SessionControl::Stop,
        ),
        (SessionPhase::Running, SessionInput::Command(VoiceSessionCommand::Cancel)) => Some(
            SessionControl::Cancel,
        ),
        (SessionPhase::Running, SessionInput::CommandsClosed) => Some(SessionControl::Cancel),
        _ => None,
    }
}

/// How the session ended, if it did in this step: with the failure of its start or of its
/// control, and well otherwise.
pub open spec fn ended(phase: SessionPhase, input: SessionInput, elapsed_ms: u64) -> Option<
    Result<(), Error>,
> {
    if phase is Ended || next_phase(phase, input, elapsed_ms) !is Ended {
        None
    } else {
        match input {
            SessionInput::StartFailed(error) => Some(Err(error)),
            SessionInput::ControlFailed(error) => Some(Err(error)),
            _ => Some(Ok(())),
        }
    }
}

/// `r` is what a session in `phase` does about `input`.
pub open spec fn stepped(
    phase: SessionPhase,
    input: SessionInput,
    elapsed_ms: u64,
    r: (SessionPhase, SessionOutput),
) -> bool {
    &&& r.0 == next_phase(phase, input, elapsed_ms)
    &&& event_view(r.1.send) == sent(phase, input, elapsed_ms)
    &&& r.1.control == controlled(phase, input)
    &&& r.1.result == ended(phase, input, elapsed_ms)
}

/// The model of an optional event.
pub open spec fn event_view(event: Option<VoiceSessionEvent>) -> Option<SessionEventView> {
    match event {
        Some(event) => Some(event@),
        None => None,
    }
}

/// What the user is told about an event of the recognizer, and whether the session is at its end
/// with it.
pub fn forward_realtime_event(event: RealtimeSpeechEvent, elapsed_ms: u64) -> (r: (
    VoiceSessionEvent,
    bool,
))
    ensures
        r.0@ == forwarded(event, elapsed_ms),
        r.1 == is_terminal(forwarded(event, elapsed_ms)),
{
    match event {
        RealtimeSpeechEvent::Hypothesis { text } => (
            VoiceSessionEvent::Hypothesis { text },
            false,
        ),
        RealtimeSpeechEvent::Final { text } => (VoiceSessionEvent::Final { text }, false),
        RealtimeSpeechEvent::Completed => (
            VoiceSessionEvent::Completed { session_duration_ms: elapsed_ms },
            true,
        ),
        RealtimeSpeechEvent::Canceled => (
            VoiceSessionEvent::Canceled { session_duration_ms: Some(elapsed_ms) },
            true,
        ),
        RealtimeSpeechEvent::Error(message) => (
            VoiceSessionEvent::Error(VoiceSessionError::Other(message)),
            true,
        ),
    }
}

/// A session that does nothing and stays in `phase`.
fn nothing(phase: SessionPhase) -> (r: (SessionPhase, SessionOutput))
    ensures
        r.0 == phase,
        r.1 == (SessionOutput { send: None, control: None, result: None }),
{
    (phase, SessionOutput { send: None, control: None, result: None })
}

/// A session that ends well, telling the user `event`.
fn ends_with(event: VoiceSessionEvent) -> (r: (SessionPhase, SessionOutput))
    ensures
        r.0 is Ended,
        r.1 == (SessionOutput { send: Some(event), control: None, result: Some(Ok(())) }),
{
    (
        SessionPhase::Ended,
        SessionOutput { send: Some(event), control: None, result: Some(Ok(())) },
    )
}

/// A session that fails without another word.
fn fails_with(error: Error) -> (r: (SessionPhase, SessionOutput))
    ensures
        r.0 is Ended,
        r.1 == (SessionOutput { send: None, control: None, result: Some(Err(error)) }),
{
    (SessionPhase::Ended, SessionOutput { send: None, control: None, result: Some(Err(error)) })
}

/// A session that passes an event of the recognizer on.
fn passes_on(phase: SessionPhase, event: RealtimeSpeechEvent, elapsed_ms: u64) -> (r: (
    SessionPhase,
    SessionOutput,
))
    requires
        passes_events(phase),
    ensures
        stepped(phase, SessionInput::Event(event), elapsed_ms, r),
{
    let (event, terminal) = forward_realtime_event(event, elapsed_ms);
    if terminal {
        ends_with(event)
    } else {
        (phase, SessionOutput { send: Some(event), control: None, result: None })
    }
}

/// A session that tells the recognizer to end.
fn controls(phase: SessionPhase, control: SessionControl) -> (r: (SessionPhase, SessionOutput))
    ensures
        r.0 == phase,
        r.1 == (SessionOutput { send: None, control: Some(control), result: None }),
{
    (phase, SessionOutput { send: None, control: Some(control), result: None })
}

/// What a session in `phase` does about `input`, `elapsed_ms` after it began.
pub fn session_step(phase: SessionPhase, input: SessionInput, elapsed_ms: u64) -> (r: (
    SessionPhase,
    SessionOutput,
))
    ensures
        stepped(phase, input, elapsed_ms, r),
{
    match (phase, input) {
        (SessionPhase::Starting, SessionInput::Started) => nothing(SessionPhase::Running),
        (SessionPhase::Starting, SessionInput::StartFailed(error)) => {
            let told = VoiceSessionError::from(&error);
            (
                SessionPhase::Ended,
                SessionOutput {
                    send: Some(VoiceSessionEvent::Error(told)),
                    control: None,
                    result: Some(Err(error)),
                },
            )
        },
        (SessionPhase::Running, SessionInput::Command(VoiceSessionCommand::Stop)) => controls(
            SessionPhase::Stopping,
            SessionControl::Stop,
        ),
        (SessionPhase::Running, SessionInput::Command(VoiceSessionCommand::Cancel)) => controls(
            SessionPhase::Canceling,
            SessionControl::Cancel,
        ),
        (SessionPhase::Running, SessionInput::CommandsClosed) => controls(
            SessionPhase::Canceling,
            SessionControl::Cancel,
        ),
        (SessionPhase::Running, SessionInput::Event(event)) => passes_on(phase, event, elapsed_ms),
        (SessionPhase::Running, SessionInput::EventsClosed) => ends_with(
            VoiceSessionEvent::Completed { session_duration_ms: elapsed_ms },
        ),
        (SessionPhase::Stopping, SessionInput::ControlDone) => nothing(
            SessionPhase::FlushingStopped,
        ),
        (SessionPhase::Canceling, SessionInput::ControlDone) => nothing(
            SessionPhase::FlushingCanceled,
        ),
        (SessionPhase::Stopping, SessionInput::ControlFailed(error)) => fails_with(error),
        (SessionPhase::Canceling, SessionInput::ControlFailed(error)) => fails_with(error),
        (SessionPhase::FlushingStopped, SessionInput::Event(event)) => passes_on(
            phase,
            event,
            elapsed_ms,
        ),
        (SessionPhase::FlushingCanceled, SessionInput::Event(event)) => passes_on(
            phase,
            event,
            elapsed_ms,
        ),
        (SessionPhase::FlushingStopped, SessionInput::NothingPending) => ends_with(
            VoiceSessionEvent::Completed { session_duration_ms: elapsed_ms },
        ),
        (SessionPhase::FlushingCanceled, SessionInput::NothingPending) => ends_with(
            VoiceSessionEvent::Canceled { session_duration_ms: Some(elapsed_ms) },
        ),
        _ => nothing(phase),
    }
}

/// What a session that began at `session_start` does about `input` now.
pub fn run_session(
    phase: SessionPhase,
    input: SessionInput,
    session_start: &instant::Instant,
) -> (r: (SessionPhase, SessionOutput))
    ensures
        exists|nanos: u128| #[trigger]
            clock_read_since(*session_start, nanos) && stepped(phase, input, whole_ms(nanos), r),
{
    let nanos: u128 = nanos_since(session_start);
    let elapsed_ms: u64 = #[verifier::truncate] ((nanos / 1_000_000) as u64);
    assert(elapsed_ms == whole_ms(nanos));
    session_step(phase, input, elapsed_ms)
}

/// What a session says is seen as what it holds.
pub proof fn session_events_are_seen_whole(event: VoiceSessionEvent, error: VoiceSessionError)
    ensures
        match event {
            VoiceSessionEvent::Hypothesis { text } => event@ == SessionEventView::Hypothesis(text@),
            VoiceSessionEvent::Final { text } => event@ == SessionEventView::Final(text@),
            VoiceSessionEvent::Completed { session_duration_ms } => event@
                == SessionEventView::Completed(session_duration_ms),
            VoiceSessionEvent::Canceled { session_duration_ms } => event@
                == SessionEventView::Canceled(session_duration_ms),
            VoiceSessionEvent::Error(told) => event@ == SessionEventView::Error(told@),
        },
        match error {
            VoiceSessionError::SpeechPrivacyPolicyNotAccepted => {
                error@ is SpeechPrivacyPolicyNotAccepted
            },
            VoiceSessionError::Other(message) => error@ == SessionErrorView::Other(message@),
        },
        event_view(Some(event)) == Some(event@),
        event_view(None) is None,
{
}

/// The missing consent is told as such, and any other error by its whole text.
pub proof fn session_errors_are_told_whole(error: Error, message: String)
    ensures
        error is SpeechPrivacyPolicyNotAccepted ==> session_error(error)
            == SessionErrorView::SpeechPrivacyPolicyNotAccepted,
        !(error is SpeechPrivacyPolicyNotAccepted) ==> session_error(error)
            == SessionErrorView::Other(error.text()),
        VoiceSessionError::Other(message).text() == message@,
        StartListeningError::Other(message).text() == message@,
        StartListeningError::AlreadyRunning.text() == "Voice input is already running"@,
        StartListeningError::AccessDenied.text() == "Microphone access denied"@,
{
}

/// Listening is refused exactly where a session is running or the microphone is denied or
/// restricted, and the running session is what counts where both hold.
pub proof fn listening_is_refused_for_a_reason(input: VoiceInput, access: MicrophoneAccessState)
    ensures
        input.state is Listening ==> input.start_refused(access) == Some(
            StartListeningError::AlreadyRunning,
        ),
        input.state is Idle && (access is Denied || access is Restricted) ==> input.start_refused(
            access,
        ) == Some(StartListeningError::AccessDenied),
        input.state is Idle && access is NotRefused ==> input.start_refused(access) is None,
        access.refused() <==> access is Denied || access is Restricted,
{
}

/// Voice input listens where its state says so, to a session that was switched on by what the state
/// says.
pub proof fn voice_input_is_what_its_state_says(input: VoiceInput)
    ensures
        input.listening() <==> input.state is Listening,
        match input.state {
            VoiceInputState::Listening { enabled_from, command_tx, .. } => {
                &&& input.source() == Some(enabled_from)
                &&& input.told() == command_tx.told()
                &&& input.taken() == command_tx.taken()
                &&& input.wf() == command_tx.wf()
            },
            VoiceInputState::Idle => {
                &&& input.source() is None
                &&& input.told().len() == 0
                &&& input.taken().len() == 0
                &&& input.wf()
            },
        },
{
}

/// A session that has just been started is the one that voice input listens to: it was switched on
/// by what was said, began when it says, takes its commands from here and has been told nothing.
pub proof fn started_sessions_are_listened_to(
    input: VoiceInput,
    session: StartedSession,
    source: VoiceInputToggledFrom,
)
    requires
        input.listens_to(session, source),
    ensures
        input.state is Listening,
        input.state->enabled_from == source,
        input.state->session_start == session.session_start,
        input.state->command_tx.reaches(session.command_rx),
        event_ends_meet(session.event_tx, session.event_rx),
        clock_read(session.session_start),
        input.told().len() == 0,
        input.taken().len() == 0,
{
}

/// A channel with room for one command takes it exactly where nothing waits and somebody receives;
/// it says why it refuses one, and hands that command back.
pub proof fn channels_take_one_command(
    waiting: Option<VoiceSessionCommand>,
    closed: bool,
    command: VoiceSessionCommand,
    taken: Seq<VoiceSessionCommand>,
)
    ensures
        waiting is None && !closed ==> answer(waiting, closed, command) == Ok::<(), CommandRefusal>(
            (),
        ),
        closed ==> answer(waiting, closed, command) == Err::<(), CommandRefusal>(
            CommandRefusal::Closed(command),
        ),
        waiting is Some && !closed ==> answer(waiting, closed, command) == Err::<
            (),
            CommandRefusal,
        >(CommandRefusal::Full(command)),
        taken_after(taken, command, Ok(())) == taken.push(command),
        taken_after(taken, command, Err(CommandRefusal::Full(command))) == taken,
        taken_after(taken, command, Err(CommandRefusal::Closed(command))) == taken,
        can_wait(taken, None),
        waiting is Some ==> (can_wait(taken, waiting) <==> taken.len() > 0 && waiting == Some(
            taken.last(),
        )),
        delivery_of(command, Ok(())) == CommandDelivery::Sent(command),
        delivery_of(command, Err(CommandRefusal::Full(command))) == CommandDelivery::Refused(
            command,
        ),
        delivery_of(command, Err(CommandRefusal::Closed(command))) == CommandDelivery::Refused(
            command,
        ),
{
}

/// Telling the running session something tells it that and nothing else, and changes nothing else
/// of voice input; where no session runs nothing changes at all.
pub proof fn telling_is_all_that_happens(
    before: VoiceInput,
    after: VoiceInput,
    command: VoiceSessionCommand,
)
    requires
        VoiceInput::tells(before, after, command),
    ensures
        before.state is Idle ==> after == before,
        before.state is Listening ==> {
            &&& after.state is Listening
            &&& after.told() == before.told().push(command)
            &&& after.taken() == before.taken() || after.taken() == before.taken().push(command)
            &&& after.state->enabled_from == before.state->enabled_from
            &&& after.state->session_start == before.state->session_start
            &&& after.should_suppress_new_feature_popup == before.should_suppress_new_feature_popup
            &&& after.recognizer == before.recognizer
            &&& forall|receiver: async_channel::Receiver<VoiceSessionCommand>|
                before.state->command_tx.reaches(receiver)
                    ==> #[trigger] after.state->command_tx.reaches(receiver)
        },
{
}

/// The whole milliseconds in a time that fits are no more than the time, and one more would be too
/// many. Of a longer time the low 64 bits are left.
pub proof fn milliseconds_are_whole(nanos: u128)
    ensures
        nanos / 1_000_000 <= u64::MAX ==> whole_ms(nanos) * 1_000_000 <= nanos < (whole_ms(nanos)
            + 1) * 1_000_000,
        whole_ms(nanos) == (nanos / 1_000_000) % 0x1_0000_0000_0000_0000,
{
    let ms: u128 = nanos / 1_000_000;
    assert(ms as u64 == ms % 0x1_0000_0000_0000_0000u128) by (bit_vector);
}

/// What is known of a sender is what is known of its end of the channel.
proof fn senders_are_ends_of_their_channel(
    sender: CommandSender,
    receiver: async_channel::Receiver<VoiceSessionCommand>,
    command: VoiceSessionCommand,
    waiting: Option<VoiceSessionCommand>,
    closed: bool,
)
    ensures
        sender.wf() <==> command_room(sender.sender) == 1 && only_sender(sender.sender),
        sender.told() == commands_offered(sender.sender),
        sender.taken() == commands_taken(sender.sender),
        sender.reaches(receiver) <==> command_ends_meet(sender.sender, receiver),
        sender.answered(command, waiting, closed) <==> command_answered(
            sender.sender,
            command,
            waiting,
            closed,
            answer(waiting, closed, command),
        ),
{
}

/// While events are passed on, every event of the recognizer is told at once and as it is: what has
/// been understood, so far or for good, with the session going on, and the end of the recognition
/// with the session ending well.
pub proof fn recognizer_events_are_passed_on(
    phase: SessionPhase,
    event: RealtimeSpeechEvent,
    elapsed_ms: u64,
    r: (SessionPhase, SessionOutput),
)
    requires
        phase is Running || phase is FlushingStopped || phase is FlushingCanceled,
        stepped(phase, SessionInput::Event(event), elapsed_ms, r),
    ensures
        r.1.control is None,
        match event {
            RealtimeSpeechEvent::Hypothesis { text } => {
                &&& r.0 == phase
                &&& r.1.result is None
                &&& r.1.send matches Some(VoiceSessionEvent::Hypothesis { text: told })
                &&& told@ == text@
            },
            RealtimeSpeechEvent::Final { text } => {
                &&& r.0 == phase
                &&& r.1.result is None
                &&& r.1.send matches Some(VoiceSessionEvent::Final { text: told })
                &&& told@ == text@
            },
            RealtimeSpeechEvent::Completed => {
                &&& r.0 is Ended
                &&& r.1.result == Some(Ok::<(), Error>(()))
                &&& r.1.send matches Some(VoiceSessionEvent::Completed { session_duration_ms })
                &&& session_duration_ms == elapsed_ms
            },
            RealtimeSpeechEvent::Canceled => {
                &&& r.0 is Ended
                &&& r.1.result == Some(Ok::<(), Error>(()))
                &&& r.1.send matches Some(VoiceSessionEvent::Canceled { session_duration_ms })
                &&& session_duration_ms == Some(elapsed_ms)
            },
            RealtimeSpeechEvent::Error(message) => {
                &&& r.0 is Ended
                &&& r.1.result == Some(Ok::<(), Error>(()))
                &&& r.1.send matches Some(VoiceSessionEvent::Error(VoiceSessionError::Other(told)))
                &&& told@ == message@
            },
        },
{
    match r.1.send {
        Some(VoiceSessionEvent::Error(told)) => {
            assert(event_view(r.1.send) == Some(SessionEventView::Error(told@)));
        },
        _ => {},
    }
}

/// A running session that is told to stop stops its recognizer, and one that is told to give up, or
/// that nobody can tell anything any more, cancels it; neither says anything yet. Where the
/// recognizer has no more events the session has completed.
pub proof fn running_sessions_heed_their_commands(
    input: SessionInput,
    elapsed_ms: u64,
    r: (SessionPhase, SessionOutput),
)
    requires
        stepped(SessionPhase::Running, input, elapsed_ms, r),
    ensures
        input == SessionInput::Command(VoiceSessionCommand::Stop) ==> r.0 is Stopping && r.1.control
            == Some(SessionControl::Stop) && r.1.send is None && r.1.result is None,
        input == SessionInput::Command(VoiceSessionCommand::Cancel) || input is CommandsClosed
            ==> r.0 is Canceling && r.1.control == Some(SessionControl::Cancel) && r.1.send is None
            && r.1.result is None,
        input is EventsClosed ==> {
            &&& r.0 is Ended
            &&& r.1.control is None
            &&& r.1.result == Some(Ok::<(), Error>(()))
            &&& r.1.send matches Some(VoiceSessionEvent::Completed { session_duration_ms })
            &&& session_duration_ms == elapsed_ms
        },
        input is Started || input is StartFailed || input is ControlDone || input is ControlFailed
            || input is NothingPending ==> r.0 is Running && r.1.send is None && r.1.control is None
            && r.1.result is None,
{
}

/// A session runs once its recognizer has started; where that fails it ends with the failure, of
/// which the user is told. Nothing else counts before.
pub proof fn sessions_run_once_they_have_started(
    input: SessionInput,
    elapsed_ms: u64,
    r: (SessionPhase, SessionOutput),
)
    requires
        stepped(SessionPhase::Starting, input, elapsed_ms, r),
    ensures
        r.1.control is None,
        input is Started ==> r.0 is Running && r.1.send is None && r.1.result is None,
        input matches SessionInput::StartFailed(error) ==> {
            &&& r.0 is Ended
            &&& r.1.result == Some(Err::<(), Error>(error))
            &&& r.1.send matches Some(VoiceSessionEvent::Error(told))
            &&& (told is SpeechPrivacyPolicyNotAccepted <==> error is SpeechPrivacyPolicyNotAccepted)
            &&& (told matches VoiceSessionError::Other(message) ==> message@ == error.text())
        },
        !(input is Started) && !(input is StartFailed) ==> r.0 is Starting && r.1.send is None
            && r.1.result is None,
{
    match r.1.send {
        Some(VoiceSessionEvent::Error(told)) => {
            assert(event_view(r.1.send) == Some(SessionEventView::Error(told@)));
        },
        _ => {},
    }
}

/// A session whose recognizer has been told to end passes on what is left once the recognizer has
/// done so, and fails without a word where it could not. Nothing else counts meanwhile.
pub proof fn ending_sessions_wait_for_their_recognizer(
    phase: SessionPhase,
    input: SessionInput,
    elapsed_ms: u64,
    r: (SessionPhase, SessionOutput),
)
    requires
        phase is Stopping || phase is Canceling,
        stepped(phase, input, elapsed_ms, r),
    ensures
        r.1.send is None,
        r.1.control is None,
        input is ControlDone && phase is Stopping ==> r.0 is FlushingStopped && r.1.result is None,
        input is ControlDone && phase is Canceling ==> r.0 is FlushingCanceled && r.1.result is None,
        input matches SessionInput::ControlFailed(error) ==> r.0 is Ended && r.1.result == Some(
            Err::<(), Error>(error),
        ),
        !(input is ControlDone) && !(input is ControlFailed) ==> r.0 == phase && r.1.result is None,
{
}

/// A session that has nothing left to pass on has completed where it was told to stop, and was
/// canceled where it was told to give up. Only events of the recognizer count meanwhile.
pub proof fn flushed_sessions_end(
    phase: SessionPhase,
    input: SessionInput,
    elapsed_ms: u64,
    r: (SessionPhase, SessionOutput),
)
    requires
        phase is FlushingStopped || phase is FlushingCanceled,
        stepped(phase, input, elapsed_ms, r),
    ensures
        r.1.control is None,
        input is NothingPending ==> r.0 is Ended && r.1.result == Some(Ok::<(), Error>(())),
        input is NothingPending && phase is FlushingStopped ==> (r.1.send matches Some(
            VoiceSessionEvent::Completed { session_duration_ms },
        ) && session_duration_ms == elapsed_ms),
        input is NothingPending && phase is FlushingCanceled ==> (r.1.send matches Some(
            VoiceSessionEvent::Canceled { session_duration_ms },
        ) && session_duration_ms == Some(elapsed_ms)),
        !(input is NothingPending) && !(input is Event) ==> r.0 == phase && r.1.send is None
            && r.1.result is None,
{
}

/// A session that has ended does nothing, whatever happens.
pub proof fn ended_sessions_do_nothing(
    input: SessionInput,
    elapsed_ms: u64,
    r: (SessionPhase, SessionOutput),
)
    requires
        stepped(SessionPhase::Ended, input, elapsed_ms, r),
    ensures
        r.0 is Ended,
        r.1.send is None,
        r.1.control is None,
        r.1.result is None,
{
}

/// What happens to a session, and how long after its beginning.
pub ghost struct TimedInput {
    pub input: SessionInput,
    pub elapsed_ms: u64,
}

/// The phase in which a session is once everything has happened to it.
pub open spec fn phase_after(phase: SessionPhase, inputs: Seq<TimedInput>) -> SessionPhase
    decreases inputs.len(),
{
    if inputs.len() == 0 {
        phase
    } else {
        let first = inputs.first();
        phase_after(next_phase(phase, first.input, first.elapsed_ms), inputs.drop_first())
    }
}

/// All that a session tells the user.
pub open spec fn told(phase: SessionPhase, inputs: Seq<TimedInput>) -> Seq<SessionEventView>
    decreases inputs.len(),
{
    if inputs.len() == 0 {
        seq![]
    } else {
        let first = inputs.first();
        let rest = told(
            next_phase(phase, first.input, first.elapsed_ms),
            inputs.drop_first(),
        );
        match sent(phase, first.input, first.elapsed_ms) {
            Some(event) => seq![event] + rest,
            None => rest,
        }
    }
}

/// What happens to a session in two parts happens to it as a whole.
pub proof fn sessions_go_on_where_they_were(
    phase: SessionPhase,
    first: Seq<TimedInput>,
    rest: Seq<TimedInput>,
)
    ensures
        phase_after(phase, first + rest) == phase_after(phase_after(phase, first), rest),
        told(phase, first + rest) == told(phase, first) + told(phase_after(phase, first), rest),
        first.len() == 1 ==> phase_after(phase, first) == next_phase(
            phase,
            first[0].input,
            first[0].elapsed_ms,
        ),
        first.len() == 1 ==> match sent(phase, first[0].input, first[0].elapsed_ms) {
            Some(event) => told(phase, first) == seq![event],
            None => told(phase, first).len() == 0,
        },
        first.len() == 0 ==> phase_after(phase, first) == phase && told(phase, first).len() == 0,
    decreases first.len(),
{
    if first.len() == 0 {
        assert(first + rest =~= rest);
        assert(told(phase, first) + told(phase, rest) =~= told(phase, rest));
    } else {
        let head = first.first();
        let next = next_phase(phase, head.input, head.elapsed_ms);
        assert((first + rest).first() == head);
        assert((first + rest).drop_first() =~= first.drop_first() + rest);
        sessions_go_on_where_they_were(next, first.drop_first(), rest);
        assert(told(phase, first + rest) =~= told(phase, first) + told(
            phase_after(phase, first),
            rest,
        ));
        if first.len() == 1 {
            assert(first.drop_first() =~= seq![]);
            assert(told(next, first.drop_first()) =~= seq![]);
            match sent(phase, head.input, head.elapsed_ms) {
                Some(event) => {
                    assert(told(phase, first) =~= seq![event]);
                },
                None => {},
            }
        }
    }
}

/// What the recognizer understands along the way is told one for one and in order, with the session
/// going on.
pub proof fn what_is_understood_is_told(phase: SessionPhase, heard: Seq<TimedInput>)
    requires
        phase is Running || phase is FlushingStopped || phase is FlushingCanceled,
        forall|i: int|
            0 <= i < heard.len() ==> {
                &&& (#[trigger] heard[i]).input matches SessionInput::Event(event)
                &&& event is Hypothesis || event is Final
            },
    ensures
        phase_after(phase, heard) == phase,
        told(phase, heard).len() == heard.len(),
        forall|i: int|
            0 <= i < heard.len() ==> match (#[trigger] heard[i]).input->Event_0 {
                RealtimeSpeechEvent::Hypothesis { text } => told(phase, heard)[i]
                    == SessionEventView::Hypothesis(text@),
                RealtimeSpeechEvent::Final { text } => told(phase, heard)[i]
                    == SessionEventView::Final(text@),
                _ => false,
            },
    decreases heard.len(),
{
    if heard.len() > 0 {
        let head = heard[0];
        let rest = heard.drop_first();
        assert(head.input is Event);
        assert forall|i: int| 0 <= i < rest.len() implies {
            &&& (#[trigger] rest[i]).input matches SessionInput::Event(event)
            &&& event is Hypothesis || event is Final
        } by {
            assert(rest[i] == heard[i + 1]);
        }
        what_is_understood_is_told(phase, rest);
        let event = sent(phase, head.input, head.elapsed_ms)->0;
        assert(told(phase, heard) =~= seq![event] + told(phase, rest));
        assert forall|i: int| 0 <= i < heard.len() implies match (#[trigger] heard[i]).input->Event_0 {
            RealtimeSpeechEvent::Hypothesis { text } => told(phase, heard)[i]
                == SessionEventView::Hypothesis(text@),
            RealtimeSpeechEvent::Final { text } => told(phase, heard)[i]
                == SessionEventView::Final(text@),
            _ => false,
        } by {
            if i > 0 {
                assert(rest[i - 1] == heard[i]);
            }
        }
    }
}

/// The events of the recognizer up to the first that ends the recognition are told one for one and
/// in order, and nothing that happens later is.
pub proof fn recognitions_are_told_to_their_end(
    phase: SessionPhase,
    heard: Seq<TimedInput>,
    end: TimedInput,
    later: Seq<TimedInput>,
)
    requires
        phase is Running || phase is FlushingStopped || phase is FlushingCanceled,
        forall|i: int|
            0 <= i < heard.len() ==> {
                &&& (#[trigger] heard[i]).input matches SessionInput::Event(event)
                &&& event is Hypothesis || event is Final
            },
        end.input matches SessionInput::Event(event) && (event is Completed || event is Canceled
            || event is Error),
    ensures
        ({
            let all = told(phase, heard + seq![end] + later);
            &&& phase_after(phase, heard + seq![end] + later) is Ended
            &&& all.len() == heard.len() + 1
            &&& forall|i: int|
                0 <= i < heard.len() ==> match (#[trigger] heard[i]).input->Event_0 {
                    RealtimeSpeechEvent::Hypothesis { text } => all[i]
                        == SessionEventView::Hypothesis(text@),
                    RealtimeSpeechEvent::Final { text } => all[i] == SessionEventView::Final(text@),
                    _ => false,
                }
            &&& match end.input->Event_0 {
                RealtimeSpeechEvent::Completed => all.last() == SessionEventView::Completed(
                    end.elapsed_ms,
                ),
                RealtimeSpeechEvent::Canceled => all.last() == SessionEventView::Canceled(
                    Some(end.elapsed_ms),
                ),
                RealtimeSpeechEvent::Error(message) => all.last() == SessionEventView::Error(
                    SessionErrorView::Other(message@),
                ),
                _ => false,
            }
        }),
{
    what_is_understood_is_told(phase, heard);
    sessions_go_on_where_they_were(phase, heard, seq![end]);
    sessions_go_on_where_they_were(phase, seq![end], seq![]);
    sessions_go_on_where_they_were(phase, heard + seq![end], later);
    ended_sessions_are_silent(later);
    let all = told(phase, heard + seq![end] + later);
    assert(all =~= told(phase, heard) + told(phase, seq![end]));
    assert forall|i: int| 0 <= i < heard.len() implies match (#[trigger] heard[i]).input->Event_0 {
        RealtimeSpeechEvent::Hypothesis { text } => all[i] == SessionEventView::Hypothesis(text@),
        RealtimeSpeechEvent::Final { text } => all[i] == SessionEventView::Final(text@),
        _ => false,
    } by {
        assert(all[i] == told(phase, heard)[i]);
    }
}

/// A session that is told to stop tells what is understood before and, for as long as the
/// recognizer has anything left, after it; then it says that it has completed.
pub proof fn stopped_sessions_tell_what_is_left(
    before: Seq<TimedInput>,
    stop: TimedInput,
    done: TimedInput,
    left: Seq<TimedInput>,
    end: TimedInput,
)
    requires
        forall|i: int|
            0 <= i < before.len() ==> {
                &&& (#[trigger] before[i]).input matches SessionInput::Event(event)
                &&& event is Hypothesis || event is Final
            },
        forall|i: int|
            0 <= i < left.len() ==> {
                &&& (#[trigger] left[i]).input matches SessionInput::Event(event)
                &&& event is Hypothesis || event is Final
            },
        stop.input is Command || stop.input is CommandsClosed,
        done.input is ControlDone,
        end.input is NothingPending,
    ensures
        ({
            let inputs = before + seq![stop, done] + left + seq![end];
            let stopping = stop.input == SessionInput::Command(VoiceSessionCommand::Stop);
            let flushing = if stopping {
                SessionPhase::FlushingStopped
            } else {
                SessionPhase::FlushingCanceled
            };
            let last = if stopping {
                SessionEventView::Completed(end.elapsed_ms)
            } else {
                SessionEventView::Canceled(Some(end.elapsed_ms))
            };
            &&& phase_after(SessionPhase::Running, inputs) is Ended
            &&& told(SessionPhase::Running, inputs) == told(SessionPhase::Running, before) + told(
                flushing,
                left,
            ) + seq![last]
        }),
{
    let running = SessionPhase::Running;
    let control = seq![stop, done];
    let stopping = stop.input == SessionInput::Command(VoiceSessionCommand::Stop);
    let flushing = if stopping {
        SessionPhase::FlushingStopped
    } else {
        SessionPhase::FlushingCanceled
    };
    what_is_understood_is_told(running, before);
    what_is_understood_is_told(flushing, left);
    sessions_go_on_where_they_were(running, before, control);
    sessions_go_on_where_they_were(running, seq![stop], seq![done]);
    assert(control =~= seq![stop] + seq![done]);
    let between = next_phase(running, stop.input, stop.elapsed_ms);
    sessions_go_on_where_they_were(between, seq![done], seq![]);
    assert(phase_after(running, control) == flushing);
    assert(told(running, control) =~= seq![]);
    sessions_go_on_where_they_were(running, before + control, left);
    sessions_go_on_where_they_were(running, before + control + left, seq![end]);
    sessions_go_on_where_they_were(flushing, seq![end], seq![]);
    assert(told(running, before + control) =~= told(running, before));
}

/// A session that has ended stays so and says nothing more, whatever happens.
pub proof fn ended_sessions_are_silent(inputs: Seq<TimedInput>)
    ensures
        phase_after(SessionPhase::Ended, inputs) is Ended,
        told(SessionPhase::Ended, inputs) == Seq::<SessionEventView>::empty(),
    decreases inputs.len(),
{
    if inputs.len() > 0 {
        ended_sessions_are_silent(inputs.drop_first());
    }
}

/// A session says that it is at its end at most once, and nothing after it.
pub proof fn terminal_events_come_last(phase: SessionPhase, inputs: Seq<TimedInput>, i: int)
    requires
        0 <= i < told(phase, inputs).len() - 1,
    ensures
        !is_terminal(told(phase, inputs)[i]),
    decreases inputs.len(),
{
    let first = inputs.first();
    let next = next_phase(phase, first.input, first.elapsed_ms);
    let rest = inputs.drop_first();
    match sent(phase, first.input, first.elapsed_ms) {
        Some(event) => {
            if is_terminal(event) {
                assert(next is Ended);
                ended_sessions_are_silent(rest);
            }
            if i > 0 {
                assert(told(phase, inputs)[i] == told(next, rest)[i - 1]);
                terminal_events_come_last(next, rest, i - 1);
            }
        },
        None => {
            terminal_events_come_last(next, rest, i);
        },
    }
}

/// A session that ends has said so, unless it ended because the recognizer could not be told to
/// end.
pub proof fn ending_sessions_say_so(phase: SessionPhase, inputs: Seq<TimedInput>)
    requires
        phase !is Ended,
        phase_after(phase, inputs) is Ended,
        forall|i: int|
            0 <= i < inputs.len() ==> (#[trigger] inputs[i]).input !is ControlFailed,
    ensures
        told(phase, inputs).len() > 0,
        is_terminal(told(phase, inputs).last()),
    decreases inputs.len(),
{
    let first = inputs.first();
    let next = next_phase(phase, first.input, first.elapsed_ms);
    let rest = inputs.drop_first();
    assert(inputs[0].input !is ControlFailed);
    if next is Ended {
        ended_sessions_are_silent(rest);
        assert(told(phase, inputs) =~= seq![sent(phase, first.input, first.elapsed_ms)->0]);
    } else {
        assert forall|i: int| 0 <= i < rest.len() implies (#[trigger] rest[i]).input
            !is ControlFailed by {
            assert(rest[i] == inputs[i + 1]);
        }
        ending_sessions_say_so(next, rest);
        assert(told(phase, inputs).last() == told(next, rest).last());
    }
}

/// A session that has not ended has not said that it has.
pub proof fn going_sessions_say_nothing_of_an_end(phase: SessionPhase, inputs: Seq<TimedInput>, i: int)
    requires
        phase_after(phase, inputs) !is Ended,
        0 <= i < told(phase, inputs).len(),
    ensures
        !is_terminal(told(phase, inputs)[i]),
    decreases inputs.len(),
{
    let first = inputs.first();
    let next = next_phase(phase, first.input, first.elapsed_ms);
    let rest = inputs.drop_first();
    if next is Ended {
        ended_sessions_are_silent(rest);
    }
    match sent(phase, first.input, first.elapsed_ms) {
        Some(event) => {
            if i > 0 {
                assert(told(phase, inputs)[i] == told(next, rest)[i - 1]);
                going_sessions_say_nothing_of_an_end(next, rest, i - 1);
            }
        },
        None => {
            going_sessions_say_nothing_of_an_end(next, rest, i);
        },
    }
}

} // verus!
