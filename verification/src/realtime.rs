//! Real-time speech recognition: how a session starts, what its notifications mean, and how it
//! is ended.
use vstd::prelude::*;

use crate::error::{Error, WindowsError};
#[allow(unused_imports)]
use crate::error::SPEECH_PRIVACY_POLICY_NOT_ACCEPTED;
use crate::text::joined;

verus! {

/// An event of a recognition session.
#[derive(Debug)]
pub enum RealtimeSpeechEvent {
    /// What has been understood so far; later events may correct it.
    Hypothesis { text: String },
    /// What has been understood for good.
    Final { text: String },
    Completed,
    Canceled,
    Error(String),
}

/// The model of [`RealtimeSpeechEvent`].
pub ghost enum SpeechEventView {
    Hypothesis(Seq<char>),
    Final(Seq<char>),
    Completed,
    Canceled,
    Error(Seq<char>),
}

impl View for RealtimeSpeechEvent {
    type V = SpeechEventView;

    open spec fn view(&self) -> SpeechEventView {
        match self {
            RealtimeSpeechEvent::Hypothesis { text } => SpeechEventView::Hypothesis(text@),
            RealtimeSpeechEvent::Final { text } => SpeechEventView::Final(text@),
            RealtimeSpeechEvent::Completed => SpeechEventView::Completed,
            RealtimeSpeechEvent::Canceled => SpeechEventView::Canceled,
            RealtimeSpeechEvent::Error(message) => SpeechEventView::Error(message@),
        }
    }
}

impl Clone for RealtimeSpeechEvent {
    fn clone(&self) -> (copy: Self)
        ensures
            copy@ == self@,
    {
        match self {
            RealtimeSpeechEvent::Hypothesis { text } => RealtimeSpeechEvent::Hypothesis {
                text: text.clone(),
            },
            RealtimeSpeechEvent::Final { text } => RealtimeSpeechEvent::Final {
                text: text.clone(),
            },
            RealtimeSpeechEvent::Completed => RealtimeSpeechEvent::Completed,
            RealtimeSpeechEvent::Canceled => RealtimeSpeechEvent::Canceled,
            RealtimeSpeechEvent::Error(message) => RealtimeSpeechEvent::Error(message.clone()),
        }
    }
}

/// The model of an optional event.
pub open spec fn speech_event_view(event: Option<RealtimeSpeechEvent>) -> Option<SpeechEventView> {
    match event {
        Some(event) => Some(event@),
        None => None,
    }
}

/// Makes recognition sessions.
#[derive(Clone, Copy, Debug)]
pub struct RealtimeSpeechRecognizer;

impl RealtimeSpeechRecognizer {
    pub fn new() -> (r: Result<RealtimeSpeechRecognizer, Error>)
        ensures
            r == Ok::<RealtimeSpeechRecognizer, Error>(RealtimeSpeechRecognizer),
    {
        Ok(RealtimeSpeechRecognizer)
    }
}

/// How a recognition, or a preparation for one, ended.
#[derive(Clone, Copy, Debug, PartialEq, Eq, Structural)]
pub enum SpeechRecognitionResultStatus {
    Success,
    TopicLanguageNotSupported,
    GrammarLanguageMismatch,
    GrammarCompilationFailure,
    AudioQualityFailure,
    UserCanceled,
    Unknown,
    TimeoutExceeded,
    PauseLimitExceeded,
    NetworkFailure,
    MicrophoneUnavailable,
    /// A status that has no name here.
    Unlisted,
}

/// A status and the way in which it is shown.
#[derive(Debug)]
pub struct StatusReport {
    pub status: SpeechRecognitionResultStatus,
    pub shown: String,
}

/// What the notification of a session's end comes with.
#[derive(Debug)]
pub enum CompletionNotice {
    /// Nothing.
    Bare,
    /// A status that cannot be read.
    Unreadable,
    Status(StatusReport),
}

/// The event for the end of a session.
pub open spec fn completion(notice: CompletionNotice) -> Option<SpeechEventView> {
    match notice {
        CompletionNotice::Bare => Some(SpeechEventView::Completed),
        CompletionNotice::Unreadable => None,
        CompletionNotice::Status(report) => match report.status {
            SpeechRecognitionResultStatus::Success => Some(SpeechEventView::Completed),
            SpeechRecognitionResultStatus::UserCanceled => Some(SpeechEventView::Canceled),
            SpeechRecognitionResultStatus::Unlisted => Some(
                SpeechEventView::Error(
                    "Recognition completed with unknown status: "@ + report.shown@,
                ),
            ),
            _ => Some(
                SpeechEventView::Error("Recognition completed with status: "@ + report.shown@),
            ),
        },
    }
}

/// The event for a notification of what has been understood so far. `text` is missing where it
/// could not be read; then there is none.
pub fn hypothesis_event(text: Option<String>) -> (event: Option<RealtimeSpeechEvent>)
    ensures
        event == match text {
            Some(text) => Some(RealtimeSpeechEvent::Hypothesis { text }),
            None => None,
        },
{
    match text {
        Some(text) => Some(RealtimeSpeechEvent::Hypothesis { text }),
        None => None,
    }
}

/// The event for a notification of what has been understood for good. There is one where the
/// recognition succeeded and its text could be read.
pub fn result_event(status: Option<SpeechRecognitionResultStatus>, text: Option<String>) -> (event:
    Option<RealtimeSpeechEvent>)
    ensures
        event == match (status, text) {
            (Some(SpeechRecognitionResultStatus::Success), Some(text)) => Some(
                RealtimeSpeechEvent::Final { text },
            ),
            _ => None,
        },
{
    match (status, text) {
        (Some(SpeechRecognitionResultStatus::Success), Some(text)) => Some(
            RealtimeSpeechEvent::Final { text },
        ),
        _ => None,
    }
}

/// The event for the notification of a session's end.
pub fn completion_event(notice: CompletionNotice) -> (event: Option<RealtimeSpeechEvent>)
    ensures
        speech_event_view(event) == completion(notice),
{
    match notice {
        CompletionNotice::Bare => Some(RealtimeSpeechEvent::Completed),
        CompletionNotice::Unreadable => None,
        CompletionNotice::Status(report) => match report.status {
            SpeechRecognitionResultStatus::Success => Some(RealtimeSpeechEvent::Completed),
            SpeechRecognitionResultStatus::UserCanceled => Some(RealtimeSpeechEvent::Canceled),
            SpeechRecognitionResultStatus::Unlisted => Some(
                RealtimeSpeechEvent::Error(
                    joined("Recognition completed with unknown status: ", &report.shown),
                ),
            ),
            _ => Some(
                RealtimeSpeechEvent::Error(
                    joined("Recognition completed with status: ", &report.shown),
                ),
            ),
        },
    }
}

/// The steps in which a session is started.
#[derive(Clone, Copy, Debug, PartialEq, Eq, Structural)]
pub enum StartupStep {
    CreateRecognizer,
    CompileConstraints,
    AwaitCompilation,
    ReadCompilationStatus,
    OpenSession,
    WatchHypotheses,
    WatchResults,
    WatchCompletion,
    Start,
    AwaitStart,
    /// The session is running.
    Running,
}

/// What a step came to.
#[derive(Debug)]
pub enum StepReport {
    Done,
    /// The status with which the constraints were compiled.
    Compiled(StatusReport),
    Failed(WindowsError),
}

impl StartupStep {
    /// The call that the step makes.
    pub open spec fn call(self) -> Seq<char> {
        match self {
            StartupStep::CreateRecognizer => "SpeechRecognizer::new"@,
            StartupStep::CompileConstraints => "CompileConstraintsAsync"@,
            StartupStep::AwaitCompilation => "CompileConstraintsAsync.await"@,
            StartupStep::ReadCompilationStatus => "CompilationResult.Status"@,
            StartupStep::OpenSession => "ContinuousRecognitionSession"@,
            StartupStep::WatchHypotheses => "HypothesisGenerated handler"@,
            StartupStep::WatchResults => "ResultGenerated handler"@,
            StartupStep::WatchCompletion => "Completed handler"@,
            StartupStep::Start => "StartAsync"@,
            StartupStep::AwaitStart => "StartAsync.await"@,
            StartupStep::Running => ""@,
        }
    }

    /// The step that follows.
    pub open spec fn following(self) -> StartupStep {
        match self {
            StartupStep::CreateRecognizer => StartupStep::CompileConstraints,
            StartupStep::CompileConstraints => StartupStep::AwaitCompilation,
            StartupStep::AwaitCompilation => StartupStep::ReadCompilationStatus,
            StartupStep::ReadCompilationStatus => StartupStep::OpenSession,
            StartupStep::OpenSession => StartupStep::WatchHypotheses,
            StartupStep::WatchHypotheses => StartupStep::WatchResults,
            StartupStep::WatchResults => StartupStep::WatchCompletion,
            StartupStep::WatchCompletion => StartupStep::Start,
            StartupStep::Start => StartupStep::AwaitStart,
            StartupStep::AwaitStart => StartupStep::Running,
            StartupStep::Running => StartupStep::Running,
        }
    }

    /// Whether the step starts the recognition, which Windows refuses without consent to the
    /// speech privacy policy.
    pub open spec fn starts(self) -> bool {
        self is Start || self is AwaitStart
    }

    /// `error` is the one for this step's failure with `source`.
    pub open spec fn failed_with(self, source: WindowsError, error: Error) -> bool {
        if self.starts() && source.code == SPEECH_PRIVACY_POLICY_NOT_ACCEPTED {
            error == Error::SpeechPrivacyPolicyNotAccepted
        } else {
            names_operation(error, self.call(), source)
        }
    }

    /// The call that the step makes.
    pub fn operation(self) -> (operation: &'static str)
        ensures
            operation@ == self.call(),
    {
        match self {
            StartupStep::CreateRecognizer => "SpeechRecognizer::new",
            StartupStep::CompileConstraints => "CompileConstraintsAsync",
            StartupStep::AwaitCompilation => "CompileConstraintsAsync.await",
            StartupStep::ReadCompilationStatus => "CompilationResult.Status",
            StartupStep::OpenSession => "ContinuousRecognitionSession",
            StartupStep::WatchHypotheses => "HypothesisGenerated handler",
            StartupStep::WatchResults => "ResultGenerated handler",
            StartupStep::WatchCompletion => "Completed handler",
            StartupStep::Start => "StartAsync",
            StartupStep::AwaitStart => "StartAsync.await",
            StartupStep::Running => "",
        }
    }

    /// The step to take once this one came to `report`, if the start goes on. The compilation of
    /// the constraints has to have succeeded; until its status is reported this step is the one
    /// to take.
    pub open spec fn advanced(self, report: StepReport) -> Option<StartupStep> {
        match report {
            StepReport::Failed(_) => None,
            StepReport::Compiled(compiled) => if compiled.status
                == SpeechRecognitionResultStatus::Success {
                Some(self.following())
            } else {
                None
            },
            StepReport::Done => if self is ReadCompilationStatus {
                Some(self)
            } else {
                Some(self.following())
            },
        }
    }

    /// The step to take once this one came to `report`, or why the start has failed.
    pub fn advance(self, report: StepReport) -> (next: Result<StartupStep, Error>)
        ensures
            match (self.advanced(report), report) {
                (Some(step), _) => next == Ok::<StartupStep, Error>(step),
                (None, StepReport::Failed(source)) => next matches Err(error) && self.failed_with(
                    source,
                    error,
                ),
                (None, StepReport::Compiled(compiled)) => next matches Err(Error::Other(message))
                    && message@ == "Speech recognition constraint compilation failed: "@
                    + compiled.shown@,
                (None, StepReport::Done) => false,
            },
    {
        match report {
            StepReport::Failed(source) => {
                let operation = self.operation();
                match self {
                    StartupStep::Start | StartupStep::AwaitStart => Err(
                        Error::from_windows_operation(operation, source),
                    ),
                    _ => Err(Error::WindowsOperation { operation, source }),
                }
            },
            StepReport::Compiled(report) => match report.status {
                SpeechRecognitionResultStatus::Success => Ok(self.next_step()),
                _ => Err(
                    Error::Other(
                        joined(
                            "Speech recognition constraint compilation failed: ",
                            &report.shown,
                        ),
                    ),
                ),
            },
            StepReport::Done => match self {
                StartupStep::ReadCompilationStatus => Ok(self),
                _ => Ok(self.next_step()),
            },
        }
    }

    /// The step that follows.
    fn next_step(self) -> (next: StartupStep)
        ensures
            next == self.following(),
    {
        match self {
            StartupStep::CreateRecognizer => StartupStep::CompileConstraints,
            StartupStep::CompileConstraints => StartupStep::AwaitCompilation,
            StartupStep::AwaitCompilation => StartupStep::ReadCompilationStatus,
            StartupStep::ReadCompilationStatus => StartupStep::OpenSession,
            StartupStep::OpenSession => StartupStep::WatchHypotheses,
            StartupStep::WatchHypotheses => StartupStep::WatchResults,
            StartupStep::WatchResults => StartupStep::WatchCompletion,
            StartupStep::WatchCompletion => StartupStep::Start,
            StartupStep::Start => StartupStep::AwaitStart,
            StartupStep::AwaitStart => StartupStep::Running,
            StartupStep::Running => StartupStep::Running,
        }
    }
}

/// `error` says that the Windows call `operation` failed with `source`.
pub open spec fn names_operation(error: Error, operation: Seq<char>, source: WindowsError) -> bool {
    error matches Error::WindowsOperation { operation: named, source: reason } && named@
        == operation && reason == source
}

/// The step that is reached from `step` once every report has come in, if the start goes on so
/// far.
pub open spec fn startup(step: StartupStep, reports: Seq<StepReport>) -> Option<StartupStep>
    decreases reports.len(),
{
    if reports.len() == 0 {
        Some(step)
    } else {
        match step.advanced(reports.first()) {
            Some(next) => startup(next, reports.drop_first()),
            None => None,
        }
    }
}

/// The report says that the constraints were compiled.
pub open spec fn compiled(report: StepReport) -> bool {
    report matches StepReport::Compiled(compiled) && compiled.status
        == SpeechRecognitionResultStatus::Success
}

/// How many steps lie ahead of the running session.
pub open spec fn steps_left(step: StartupStep) -> nat {
    match step {
        StartupStep::CreateRecognizer => 10,
        StartupStep::CompileConstraints => 9,
        StartupStep::AwaitCompilation => 8,
        StartupStep::ReadCompilationStatus => 7,
        StartupStep::OpenSession => 6,
        StartupStep::WatchHypotheses => 5,
        StartupStep::WatchResults => 4,
        StartupStep::WatchCompletion => 3,
        StartupStep::Start => 2,
        StartupStep::AwaitStart => 1,
        StartupStep::Running => 0,
    }
}

/// A session runs no sooner than its start has been through every step, so that by then all its
/// notifications are watched.
pub proof fn sessions_run_after_every_step(step: StartupStep, reports: Seq<StepReport>)
    requires
        startup(step, reports) == Some(StartupStep::Running),
    ensures
        reports.len() >= steps_left(step),
    decreases reports.len(),
{
    if reports.len() > 0 {
        sessions_run_after_every_step(step.advanced(reports.first())->0, reports.drop_first());
    }
}

/// A session runs only where its constraints were compiled.
pub proof fn running_sessions_compiled_their_constraints(
    step: StartupStep,
    reports: Seq<StepReport>,
)
    requires
        steps_left(step) >= 7,
        startup(step, reports) == Some(StartupStep::Running),
    ensures
        exists|i: int| 0 <= i < reports.len() && #[trigger] compiled(reports[i]),
    decreases reports.len(),
{
    if reports.len() > 0 {
        let next = step.advanced(reports.first())->0;
        let rest = reports.drop_first();
        if compiled(reports[0]) {
        } else if steps_left(next) >= 7 {
            running_sessions_compiled_their_constraints(next, rest);
            let i = choose|i: int| 0 <= i < rest.len() && #[trigger] compiled(rest[i]);
            assert(compiled(reports[i + 1]));
        }
    }
}

/// A session does not run where a step has failed.
pub proof fn failed_steps_end_the_start(step: StartupStep, reports: Seq<StepReport>, i: int)
    requires
        0 <= i < reports.len(),
        reports[i] is Failed,
    ensures
        startup(step, reports) is None,
    decreases reports.len(),
{
    if i > 0 {
        if let Some(next) = step.advanced(reports.first()) {
            assert(reports.drop_first()[i - 1] == reports[i]);
            failed_steps_end_the_start(next, reports.drop_first(), i - 1);
        }
    }
}

/// An event of a session is seen as what it holds.
pub proof fn speech_events_are_seen_whole(event: RealtimeSpeechEvent)
    ensures
        match event {
            RealtimeSpeechEvent::Hypothesis { text } => event@ == SpeechEventView::Hypothesis(text@),
            RealtimeSpeechEvent::Final { text } => event@ == SpeechEventView::Final(text@),
            RealtimeSpeechEvent::Completed => event@ is Completed,
            RealtimeSpeechEvent::Canceled => event@ is Canceled,
            RealtimeSpeechEvent::Error(message) => event@ == SpeechEventView::Error(message@),
        },
        speech_event_view(Some(event)) == Some(event@),
        speech_event_view(None) is None,
{
}

/// A session that ends well has completed, one that the user ended was canceled, and any other end
/// is an error that shows its status whole, whatever the status is. Only an end whose status cannot
/// be read makes no event.
pub proof fn ends_of_sessions_are_told(notice: CompletionNotice)
    ensures
        notice is Bare ==> completion(notice) == Some(SpeechEventView::Completed),
        notice is Unreadable ==> completion(notice) is None,
        notice matches CompletionNotice::Status(report) ==> {
            &&& report.status is Success ==> completion(notice) == Some(SpeechEventView::Completed)
            &&& report.status is UserCanceled ==> completion(notice) == Some(
                SpeechEventView::Canceled,
            )
            &&& report.status is Unlisted ==> completion(notice) == Some(
                SpeechEventView::Error(
                    "Recognition completed with unknown status: "@ + report.shown@,
                ),
            )
            &&& !(report.status is Success) && !(report.status is UserCanceled) && !(
            report.status is Unlisted) ==> completion(notice) == Some(
                SpeechEventView::Error("Recognition completed with status: "@ + report.shown@),
            )
        },
{
}

/// The start goes on where a step is done and stops where one has failed; only the compilation of
/// the constraints has to have its status reported too, which has to be a success.
pub proof fn starts_go_on_where_steps_are_done(step: StartupStep, report: StepReport)
    ensures
        report is Failed ==> step.advanced(report) is None,
        report is Done && !(step is ReadCompilationStatus) ==> step.advanced(report) == Some(
            step.following(),
        ),
        report is Done && step is ReadCompilationStatus ==> step.advanced(report) == Some(step),
        report matches StepReport::Compiled(compiled) ==> {
            &&& compiled.status is Success ==> step.advanced(report) == Some(step.following())
            &&& !(compiled.status is Success) ==> step.advanced(report) is None
        },
{
}

/// The steps of a start follow each other, and notifications are watched before the recognition is
/// started.
pub proof fn steps_follow_each_other()
    ensures
        StartupStep::CreateRecognizer.following() is CompileConstraints,
        StartupStep::CompileConstraints.following() is AwaitCompilation,
        StartupStep::AwaitCompilation.following() is ReadCompilationStatus,
        StartupStep::ReadCompilationStatus.following() is OpenSession,
        StartupStep::OpenSession.following() is WatchHypotheses,
        StartupStep::WatchHypotheses.following() is WatchResults,
        StartupStep::WatchResults.following() is WatchCompletion,
        StartupStep::WatchCompletion.following() is Start,
        StartupStep::Start.following() is AwaitStart,
        StartupStep::AwaitStart.following() is Running,
        StartupStep::Running.following() is Running,
{
}

/// A step that fails names its call and keeps all that Windows said; only the two steps that start
/// the recognition can fail for want of consent.
pub proof fn failed_steps_name_their_call(step: StartupStep, source: WindowsError, error: Error)
    requires
        step.failed_with(source, error),
    ensures
        !(step is Start || step is AwaitStart) || source.code != -2147199735 ==> {
            &&& error matches Error::WindowsOperation { operation, source: reason }
            &&& operation@ == step.call()
            &&& reason == source
        },
        (step is Start || step is AwaitStart) && source.code == -2147199735 ==> error
            == Error::SpeechPrivacyPolicyNotAccepted,
{
}

/// A step that waits for a call is known by the call that it waits for, and so is the end of a
/// session; stopping and canceling are told apart by their calls.
pub proof fn waits_are_known_by_their_call(control: SessionControl)
    ensures
        StartupStep::AwaitCompilation.call() == StartupStep::CompileConstraints.call()
            + ".await"@,
        StartupStep::AwaitStart.call() == StartupStep::Start.call() + ".await"@,
        control.call(ControlStep::Await) == control.call(ControlStep::Request) + ".await"@,
        control.call(ControlStep::OpenSession) == StartupStep::OpenSession.call(),
        control is Stop ==> control.call(ControlStep::Request) == "StopAsync"@,
        control is Cancel ==> control.call(ControlStep::Request) == "CancelAsync"@,
        StartupStep::Start.call() == "StartAsync"@,
        StartupStep::CompileConstraints.call() == "CompileConstraintsAsync"@,
{
    reveal_strlit(".await");
    reveal_strlit("StartAsync");
    reveal_strlit("StartAsync.await");
    reveal_strlit("StopAsync");
    reveal_strlit("StopAsync.await");
    reveal_strlit("CancelAsync");
    reveal_strlit("CancelAsync.await");
    reveal_strlit("CompileConstraintsAsync");
    reveal_strlit("CompileConstraintsAsync.await");
    assert("StartAsync.await"@ =~= "StartAsync"@ + ".await"@);
    assert("StopAsync.await"@ =~= "StopAsync"@ + ".await"@);
    assert("CancelAsync.await"@ =~= "CancelAsync"@ + ".await"@);
    assert("CompileConstraintsAsync.await"@ =~= "CompileConstraintsAsync"@ + ".await"@);
}

/// An error names the operation that it says failed, and keeps all that Windows said.
pub proof fn operations_are_named(error: Error, operation: Seq<char>, source: WindowsError)
    requires
        names_operation(error, operation, source),
    ensures
        error matches Error::WindowsOperation { operation: named, source: reason } && named@
            == operation && reason == source,
{
}

/// How a session is ended.
#[derive(Clone, Copy, Debug, PartialEq, Eq, Structural)]
pub enum SessionControl {
    /// What has been said is still recognized.
    Stop,
    Cancel,
}

/// The steps in which a session is ended.
#[derive(Clone, Copy, Debug, PartialEq, Eq, Structural)]
pub enum ControlStep {
    OpenSession,
    Request,
    Await,
}

impl SessionControl {
    /// The call that a step makes.
    pub open spec fn call(self, step: ControlStep) -> Seq<char> {
        match (self, step) {
            (_, ControlStep::OpenSession) => "ContinuousRecognitionSession"@,
            (SessionControl::Stop, ControlStep::Request) => "StopAsync"@,
            (SessionControl::Stop, ControlStep::Await) => "StopAsync.await"@,
            (SessionControl::Cancel, ControlStep::Request) => "CancelAsync"@,
            (SessionControl::Cancel, ControlStep::Await) => "CancelAsync.await"@,
        }
    }

    /// The error for the failure of a step.
    pub fn failed(self, step: ControlStep, source: WindowsError) -> (error: Error)
        ensures
            names_operation(error, self.call(step), source),
    {
        let operation: &'static str = match (self, step) {
            (_, ControlStep::OpenSession) => "ContinuousRecognitionSession",
            (SessionControl::Stop, ControlStep::Request) => "StopAsync",
            (SessionControl::Stop, ControlStep::Await) => "StopAsync.await",
            (SessionControl::Cancel, ControlStep::Request) => "CancelAsync",
            (SessionControl::Cancel, ControlStep::Await) => "CancelAsync.await",
        };
        Error::WindowsOperation { operation, source }
    }
}

} // verus!
