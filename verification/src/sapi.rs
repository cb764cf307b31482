//! Dictation through the Windows speech interface: what its events mean, how a recognition is
//! waited for, and when the component runtime has to be shut down again.
use vstd::prelude::*;

use crate::error::Error;

verus! {

/// The numbers by which Windows tells events and their parameters apart.
#[derive(Clone, Copy, Debug, PartialEq, Eq, Structural)]
pub struct SapiCodes {
    pub recognition: i32,
    pub false_recognition: i32,
    pub end_input_stream: i32,
    pub end_sr_stream: i32,
    pub lparam_is_object: i32,
    pub lparam_is_undefined: i32,
}

/// An event of a recognition. `R` is what a recognition comes with.
#[derive(Debug)]
pub enum Event<R> {
    Recognition(R),
    FalseRecognition,
    /// The input has come to its end.
    EndStream,
    Other,
}

/// What the pending events amount to.
#[derive(Debug)]
pub enum DrainResult {
    Recognition(String),
    EndStream,
    Pending,
}

/// The model of an [`Event`] that comes with the recognized text.
pub ghost enum EventView {
    Recognition(Seq<char>),
    FalseRecognition,
    EndStream,
    Other,
}

/// The model of [`DrainResult`].
pub ghost enum DrainView {
    Recognition(Seq<char>),
    EndStream,
    Pending,
}

impl View for Event<String> {
    type V = EventView;

    open spec fn view(&self) -> EventView {
        match self {
            Event::Recognition(text) => EventView::Recognition(text@),
            Event::FalseRecognition => EventView::FalseRecognition,
            Event::EndStream => EventView::EndStream,
            Event::Other => EventView::Other,
        }
    }
}

impl View for DrainResult {
    type V = DrainView;

    open spec fn view(&self) -> DrainView {
        match self {
            DrainResult::Recognition(text) => DrainView::Recognition(text@),
            DrainResult::EndStream => DrainView::EndStream,
            DrainResult::Pending => DrainView::Pending,
        }
    }
}

/// The number of an event, which an event record packs into the low half of a word.
pub open spec fn event_id(bitfield: i32) -> i32 {
    bitfield & 0xffff
}

/// The kind of an event's parameter, which an event record packs into the high half of a word.
pub open spec fn lparam_type(bitfield: i32) -> i32 {
    bitfield >> 16
}

/// The event that a record stands for: a recognition or a false recognition where the parameter
/// is an object, the end of the input where there is no parameter, and otherwise nothing of
/// interest.
pub open spec fn sapi_event(bitfield: i32, codes: SapiCodes) -> Event<()> {
    let id = event_id(bitfield);
    if lparam_type(bitfield) == codes.lparam_is_object {
        if id == codes.recognition {
            Event::Recognition(())
        } else if id == codes.false_recognition {
            Event::FalseRecognition
        } else {
            Event::Other
        }
    } else if lparam_type(bitfield) == codes.lparam_is_undefined && (id == codes.end_input_stream
        || id == codes.end_sr_stream) {
        Event::EndStream
    } else {
        Event::Other
    }
}

impl Event<()> {
    /// The event that the packed word of an event record stands for.
    pub fn from_sapi(bitfield: i32, codes: &SapiCodes) -> (event: Event<()>)
        ensures
            event == sapi_event(bitfield, *codes),
    {
        let id: i32 = bitfield & 0xffff;
        let lparam_type: i32 = bitfield >> 16;
        if lparam_type == codes.lparam_is_object {
            if id == codes.recognition {
                Event::Recognition(())
            } else if id == codes.false_recognition {
                Event::FalseRecognition
            } else {
                Event::Other
            }
        } else if lparam_type == codes.lparam_is_undefined && (id == codes.end_input_stream || id
            == codes.end_sr_stream) {
            Event::EndStream
        } else {
            Event::Other
        }
    }
}

/// The two halves of an event record are read apart: the word that packs an event number below
/// 65536 with a parameter kind is the word from which both come back.
pub proof fn packed_events_come_apart(id: i32, kind: i32)
    requires
        0 <= id < 0x1_0000,
        -0x8000 <= kind < 0x8000,
    ensures
        event_id((kind << 16) | id) == id,
        lparam_type((kind << 16) | id) == kind,
{
    assert(((kind << 16) | id) & 0xffff == id) by (bit_vector)
        requires
            0 <= id < 0x1_0000,
    ;
    assert(((kind << 16) | id) >> 16 == kind) by (bit_vector)
        requires
            0 <= id < 0x1_0000,
            -0x8000 <= kind < 0x8000,
    ;
}

/// What a row of events amounts to: the first recognition, else the end of the input, else
/// nothing yet.
pub open spec fn drained(events: Seq<EventView>) -> DrainView
    decreases events.len(),
{
    if events.len() == 0 {
        DrainView::Pending
    } else {
        match (events.first(), drained(events.drop_first())) {
            (EventView::Recognition(text), _) => DrainView::Recognition(text),
            (EventView::EndStream, DrainView::Pending) => DrainView::EndStream,
            (_, rest) => rest,
        }
    }
}

/// The pending events as they are taken one by one.
#[derive(Clone, Copy, Debug, PartialEq, Eq, Structural)]
pub struct EventDrain {
    /// Whether the end of the input has been seen.
    pub end_stream: bool,
}

/// What the events amount to once `event` has been taken, if that is settled. `None` stands for
/// the end of the pending events.
pub open spec fn settled(end_stream: bool, event: Option<EventView>) -> Option<DrainView> {
    match event {
        Some(EventView::Recognition(text)) => Some(DrainView::Recognition(text)),
        Some(_) => None,
        None if end_stream => Some(DrainView::EndStream),
        None => Some(DrainView::Pending),
    }
}

/// What taking `events` one by one, to the end of them or to the first that settles it, amounts
/// to.
pub open spec fn taken(end_stream: bool, events: Seq<EventView>) -> DrainView
    decreases events.len(),
{
    if events.len() == 0 {
        settled(end_stream, None)->0
    } else {
        match settled(end_stream, Some(events.first())) {
            Some(result) => result,
            None => taken(end_stream || events.first() is EndStream, events.drop_first()),
        }
    }
}

/// Taking the events one by one amounts to what they amount to together.
pub proof fn taking_events_drains_them(events: Seq<EventView>)
    ensures
        taken(false, events) == drained(events),
{
    taking_goes_on(false, events);
}

/// Taking the events behind the end of the input differs only where they settle nothing.
proof fn taking_goes_on(end_stream: bool, events: Seq<EventView>)
    ensures
        taken(end_stream, events) == (if end_stream && drained(events) is Pending {
            DrainView::EndStream
        } else {
            drained(events)
        }),
    decreases events.len(),
{
    if events.len() > 0 {
        taking_goes_on(end_stream || events.first() is EndStream, events.drop_first());
    }
}

/// An event record stands for a recognition or a false recognition where it comes with an object
/// and carries the number of one, for the end of the input where it comes with nothing and carries
/// one of the two numbers of that, and for nothing of interest otherwise.
pub proof fn records_stand_for_their_event(id: i32, kind: i32, codes: SapiCodes)
    requires
        0 <= id < 0x1_0000,
        -0x8000 <= kind < 0x8000,
        codes.lparam_is_object != codes.lparam_is_undefined,
        codes.recognition != codes.false_recognition,
    ensures
        sapi_event((kind << 16) | id, codes) is Recognition <==> kind == codes.lparam_is_object && id
            == codes.recognition,
        sapi_event((kind << 16) | id, codes) is FalseRecognition <==> kind == codes.lparam_is_object
            && id == codes.false_recognition,
        sapi_event((kind << 16) | id, codes) is EndStream <==> kind == codes.lparam_is_undefined && (
        id == codes.end_input_stream || id == codes.end_sr_stream),
{
    packed_events_come_apart(id, kind);
}

/// A row of events amounts to its first recognition, whatever stands around it.
pub proof fn the_first_recognition_counts(events: Seq<EventView>, k: int, text: Seq<char>)
    requires
        0 <= k < events.len(),
        events[k] == EventView::Recognition(text),
        forall|j: int| 0 <= j < k ==> (#[trigger] events[j]) !is Recognition,
    ensures
        drained(events) == DrainView::Recognition(text),
        taken(false, events) == DrainView::Recognition(text),
    decreases events.len(),
{
    taking_events_drains_them(events);
    if k > 0 {
        assert(events[0] !is Recognition);
        let rest = events.drop_first();
        assert forall|j: int| 0 <= j < k - 1 implies (#[trigger] rest[j]) !is Recognition by {
            assert(rest[j] == events[j + 1]);
        }
        the_first_recognition_counts(rest, k - 1, text);
    }
}

/// A row of events without a recognition amounts to the end of the input where it holds that, and
/// to nothing yet where it does not.
pub proof fn events_without_recognition(events: Seq<EventView>)
    requires
        forall|j: int| 0 <= j < events.len() ==> (#[trigger] events[j]) !is Recognition,
    ensures
        drained(events) is EndStream <==> events.contains(EventView::EndStream),
        drained(events) is Pending <==> !events.contains(EventView::EndStream),
        taken(false, events) == drained(events),
    decreases events.len(),
{
    taking_events_drains_them(events);
    if events.len() > 0 {
        assert(events[0] !is Recognition);
        let rest = events.drop_first();
        assert forall|j: int| 0 <= j < rest.len() implies (#[trigger] rest[j]) !is Recognition by {
            assert(rest[j] == events[j + 1]);
        }
        events_without_recognition(rest);
        if rest.contains(EventView::EndStream) {
            let j = choose|j: int| 0 <= j < rest.len() && rest[j] == EventView::EndStream;
            assert(events[j + 1] == EventView::EndStream);
        }
        if events.contains(EventView::EndStream) && events[0] != EventView::EndStream {
            let j = choose|j: int| 0 <= j < events.len() && events[j] == EventView::EndStream;
            assert(rest[j - 1] == EventView::EndStream);
        }
        if events[0] == EventView::EndStream {
            assert(events.contains(EventView::EndStream));
        }
    }
}

/// One event settles what the pending events amount to where it is a recognition, and the end of
/// them settles it in any case.
pub proof fn recognitions_settle_the_wait(end_stream: bool, event: EventView, text: Seq<char>)
    ensures
        settled(end_stream, Some(EventView::Recognition(text))) == Some(
            DrainView::Recognition(text),
        ),
        event !is Recognition ==> settled(end_stream, Some(event)) is None,
        settled(true, None) == Some(DrainView::EndStream),
        settled(false, None) == Some(DrainView::Pending),
{
}

/// The model of an optional event.
pub open spec fn event_view(event: Option<Event<String>>) -> Option<EventView> {
    match event {
        Some(event) => Some(event@),
        None => None,
    }
}

/// The model of an optional result.
pub open spec fn drain_view(result: Option<DrainResult>) -> Option<DrainView> {
    match result {
        Some(result) => Some(result@),
        None => None,
    }
}

impl EventDrain {
    /// A drain that has taken no event.
    pub fn new() -> (drain: EventDrain)
        ensures
            !drain.end_stream,
    {
        EventDrain { end_stream: false }
    }

    /// Takes the next pending event, or the news that there is none, and says what the events
    /// amount to once that is settled. A false recognition settles nothing.
    pub fn drain_events(&mut self, next: Option<Event<String>>) -> (result: Option<DrainResult>)
        ensures
            drain_view(result) == settled(old(self).end_stream, event_view(next)),
            final(self).end_stream == (old(self).end_stream || event_view(next) == Some(
                EventView::EndStream,
            )),
    {
        match next {
            Some(Event::Recognition(text)) => Some(DrainResult::Recognition(text)),
            Some(Event::EndStream) => {
                self.end_stream = true;
                None
            },
            Some(Event::FalseRecognition) | Some(Event::Other) => None,
            None => if self.end_stream {
                Some(DrainResult::EndStream)
            } else {
                Some(DrainResult::Pending)
            },
        }
    }
}

/// What events and results are seen as is what they hold.
pub proof fn events_are_seen_whole(event: Event<String>, result: DrainResult)
    ensures
        match event {
            Event::Recognition(text) => event@ == EventView::Recognition(text@),
            Event::FalseRecognition => event@ is FalseRecognition,
            Event::EndStream => event@ is EndStream,
            Event::Other => event@ is Other,
        },
        match result {
            DrainResult::Recognition(text) => result@ == DrainView::Recognition(text@),
            DrainResult::EndStream => result@ is EndStream,
            DrainResult::Pending => result@ is Pending,
        },
        event_view(Some(event)) == Some(event@),
        event_view(None) is None,
        drain_view(Some(result)) == Some(result@),
        drain_view(None) is None,
{
}

/// What is to be done about a recognition.
#[derive(Debug)]
pub enum WaitStep {
    /// The recognition has come to its end with this text.
    Finished(String),
    /// The next notification has to be waited for, at most so many milliseconds.
    WaitFor(u32),
}

/// The longest wait for one notification: a longer time is cut down to it.
pub open spec fn wait_ms(remaining_ms: u128) -> u32 {
    if remaining_ms <= u32::MAX {
        remaining_ms as u32
    } else {
        (u32::MAX - 1) as u32
    }
}

/// A wait lasts as long as there is time, as far as 32 bits can say it, and never forever.
pub proof fn waits_last_as_long_as_there_is_time(remaining_ms: u128)
    ensures
        remaining_ms <= 0xffff_ffff ==> wait_ms(remaining_ms) == remaining_ms,
        remaining_ms > 0xffff_ffff ==> wait_ms(remaining_ms) == 0xffff_fffe,
{
}

/// What is to be done about a recognition whose pending events amount to `drained`.
/// `remaining_ms` is how long it may still take; `None` stands for no time left.
pub fn wait_for_recognition(drained: DrainResult, remaining_ms: Option<u128>) -> (step: Result<
    WaitStep,
    Error,
>)
    ensures
        match (drained, remaining_ms) {
            (DrainResult::Recognition(text), _) => step == Ok::<WaitStep, Error>(
                WaitStep::Finished(text),
            ),
            (DrainResult::EndStream, _) => step matches Ok(WaitStep::Finished(text)) && text@
                == Seq::<char>::empty(),
            (DrainResult::Pending, Some(ms)) => step == Ok::<WaitStep, Error>(
                WaitStep::WaitFor(wait_ms(ms)),
            ),
            (DrainResult::Pending, None) => step == Err::<WaitStep, Error>(Error::Timeout),
        },
{
    match drained {
        DrainResult::Recognition(text) => Ok(WaitStep::Finished(text)),
        DrainResult::EndStream => Ok(WaitStep::Finished(String::new())),
        DrainResult::Pending => match remaining_ms {
            None => Err(Error::Timeout),
            Some(ms) => if ms <= u32::MAX as u128 {
                Ok(WaitStep::WaitFor(ms as u32))
            } else {
                Ok(WaitStep::WaitFor(u32::MAX - 1))
            },
        },
    }
}

/// How the component runtime was found.
#[derive(Clone, Copy, Debug, PartialEq, Eq, Structural)]
pub enum ComState {
    /// It has been initialized and has to be shut down again.
    Initialized,
    /// The thread uses it in another mode; it must be left alone.
    InUse,
    /// It is not there, with the result code.
    Failed(i32),
}

/// How the component runtime was found, given the result code of its initialization.
/// `changed_mode` is the code for a thread that uses it in another mode.
pub fn com_state(result: i32, changed_mode: i32) -> (state: ComState)
    ensures
        state == if result >= 0 {
            ComState::Initialized
        } else if result == changed_mode {
            ComState::InUse
        } else {
            ComState::Failed(result)
        },
{
    if result >= 0 {
        ComState::Initialized
    } else if result == changed_mode {
        ComState::InUse
    } else {
        ComState::Failed(result)
    }
}

} // verus!
