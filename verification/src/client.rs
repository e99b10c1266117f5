//! The decisions of a real-time messaging session: where to connect, and what
//! to do on each thing that happens on the connection.
//!
//! The session itself (sockets, TLS, the websocket, the handler's futures) runs
//! outside this module; it feeds each happening to [`step`] as an [`Input`] and
//! carries out the [`Action`] that comes back.

use vstd::prelude::*;
use vstd::string::*;
use crate::events::{decodes_to, Event, EventError, EventErrorView};

verus! {

/// Errors of a client session.
#[derive(Clone, Debug)]
pub enum Error {
    /// A failure that the session reports itself, with its description.
    Internal(String),
    /// A failure of the connection underneath (TCP, TLS, the websocket), with its description.
    Transport(String),
}

/// An [`Error`] with its description taken by its view.
pub enum ErrorView {
    Internal(Seq<char>),
    Transport(Seq<char>),
}

impl View for Error {
    type V = ErrorView;

    open spec fn view(&self) -> ErrorView {
        match self {
            Error::Internal(m) => ErrorView::Internal(m@),
            Error::Transport(m) => ErrorView::Transport(m@),
        }
    }
}

/// The description of an internal error.
fn internal(description: &str) -> (e: Error)
    ensures
        e@ == ErrorView::Internal(description@),
{
    Error::Internal(String::from_str(description))
}

/// The origin of a websocket URL, as far as the connection needs it.
pub enum UrlOrigin {
    /// A scheme, host and port whose host is a domain name.
    Domain(String),
    /// A scheme, host and port whose host is an address; holds the host's debug text.
    OtherHost(String),
    /// An opaque origin; holds its debug text.
    Opaque(String),
}

/// A parsed websocket URL.
pub struct WsUrl {
    /// The URL's serialization.
    pub url: String,
    /// Its origin.
    pub origin: UrlOrigin,
}

/// An origin by what the connection reads of it: the domain, or else the debug
/// text of an address host (`None` for an opaque origin).
pub open spec fn origin_view(o: UrlOrigin) -> Result<Seq<char>, Option<Seq<char>>> {
    match o {
        UrlOrigin::Domain(d) => Ok(d@),
        UrlOrigin::OtherHost(h) => Err(Some(h@)),
        UrlOrigin::Opaque(_) => Err(None),
    }
}

/// What parsing `text` as a URL gives: its serialization and its origin (as
/// `origin_view` reads it), or the debug text of the parse error.
pub uninterp spec fn url_parsed(text: Seq<char>) -> Result<(Seq<char>, Result<Seq<char>, Option<Seq<char>>>), Seq<char>>;

/// Parses `text` with `url::Url::parse` and reads the URL's `origin()`; an error
/// and an address host are kept as their debug texts. The contract claims that
/// the serialization, the origin and the error text are functions of `text`,
/// named `url_parsed`. The debug text of an opaque origin is left unsaid: it
/// holds a number that the `url` crate draws from a process-wide counter.
#[verifier::external_body]
fn parse_url(text: &str) -> (r: Result<WsUrl, String>)
    ensures
        match r {
            Ok(u) => url_parsed(text@) == Ok::<_, Seq<char>>((u.url@, origin_view(u.origin))),
            Err(m) => url_parsed(text@) == Err::<(Seq<char>, Result<Seq<char>, Option<Seq<char>>>), _>(m@),
        },
{
    match url::Url::parse(text) {
        Ok(u) => {
            let origin = match u.origin() {
                url::Origin::Tuple(_, url::Host::Domain(d), _) => UrlOrigin::Domain(d),
                url::Origin::Tuple(_, host, _) => UrlOrigin::OtherHost(format!("{:?}", host)),
                opaque => UrlOrigin::Opaque(format!("{:?}", opaque)),
            };
            Ok(WsUrl { url: u.to_string(), origin })
        },
        Err(e) => Err(format!("{:?}", e)),
    }
}

/// The websocket URL that the `rtm.start` answer gives, parsed.
pub fn websocket_url(start_url: &Option<String>) -> (r: Result<WsUrl, Error>)
    ensures
        match start_url {
            None => r matches Err(e) && e@ == ErrorView::Internal("Missing websocket url from slack"@),
            Some(s) => match url_parsed(s@) {
                Err(m) => r matches Err(e) && e@ == ErrorView::Internal(m),
                Ok((u, o)) => r matches Ok(w) && w.url@ == u && origin_view(w.origin) == o,
            },
        },
{
    match start_url {
        None => Err(internal("Missing websocket url from slack")),
        Some(s) => match parse_url(s.as_str()) {
            Ok(w) => Ok(w),
            Err(m) => Err(Error::Internal(m)),
        },
    }
}

/// The domain that the TLS connection to a websocket URL is made for.
pub fn websocket_domain(url: &WsUrl) -> (r: Result<String, Error>)
    ensures
        match url.origin {
            UrlOrigin::Domain(d) => r matches Ok(s) && s@ == d@,
            UrlOrigin::OtherHost(h) => r matches Err(e)
                && e@ == ErrorView::Internal("Expected domain in url found: "@ + h@),
            UrlOrigin::Opaque(o) => r matches Err(e)
                && e@ == ErrorView::Internal("Expected domain origin, found: "@ + o@),
        },
{
    match &url.origin {
        UrlOrigin::Domain(d) => Ok(d.clone()),
        UrlOrigin::OtherHost(h) => Err(Error::Internal(String::from_str("Expected domain in url found: ").concat(h.as_str()))),
        UrlOrigin::Opaque(o) => Err(Error::Internal(String::from_str("Expected domain origin, found: ").concat(o.as_str()))),
    }
}

/// An outgoing websocket message, queued by a sender.
#[derive(Clone, Debug)]
pub enum WsMessage {
    /// Ends the session.
    Close,
    /// A text frame to send.
    Text(String),
}

/// A [`WsMessage`] with its text taken by its view.
pub enum WsMessageView {
    Close,
    Text(Seq<char>),
}

impl View for WsMessage {
    type V = WsMessageView;

    open spec fn view(&self) -> WsMessageView {
        match self {
            WsMessage::Close => WsMessageView::Close,
            WsMessage::Text(t) => WsMessageView::Text(t@),
        }
    }
}

/// An incoming websocket frame.
pub enum Frame {
    Text(String),
    Binary(Vec<u8>),
}

/// Where a session stands.
pub enum Phase {
    /// The websocket connection is being opened.
    Connecting,
    /// The handler's `on_connect` is running.
    Greeting,
    /// Waiting for the next frame.
    Reading,
    /// The handler's `on_event` is running on the last event.
    Dispatching,
    /// The handler's `on_close` is running; holds the session's outcome.
    Closing(Result<(), Error>),
    /// The session is over.
    Finished,
}

/// A [`Phase`] with its strings taken by their views.
pub enum PhaseView {
    Connecting,
    Greeting,
    Reading,
    Dispatching,
    Closing(Result<(), ErrorView>),
    Finished,
}

/// An outcome with its error taken by its view.
pub open spec fn outcome_view(r: Result<(), Error>) -> Result<(), ErrorView> {
    match r {
        Ok(()) => Ok(()),
        Err(e) => Err(e@),
    }
}

impl View for Phase {
    type V = PhaseView;

    open spec fn view(&self) -> PhaseView {
        match self {
            Phase::Connecting => PhaseView::Connecting,
            Phase::Greeting => PhaseView::Greeting,
            Phase::Reading => PhaseView::Reading,
            Phase::Dispatching => PhaseView::Dispatching,
            Phase::Closing(r) => PhaseView::Closing(outcome_view(*r)),
            Phase::Finished => PhaseView::Finished,
        }
    }
}

/// Something that happened on the connection or to the handler.
pub enum Input {
    /// The websocket connection is open.
    Opened,
    /// Opening the connection failed.
    OpenFailed(Error),
    /// The handler's `on_connect` finished: `true` where it succeeded.
    Greeted(bool),
    /// A text frame held this event.
    Received(Event),
    /// A text frame held no event that could be decoded.
    Unreadable { text: String, error: EventError },
    /// A binary frame arrived.
    BinaryFrame,
    /// The handler's `on_event` finished: `true` where it succeeded.
    Handled(bool),
    /// The stream of frames ended.
    StreamEnded,
    /// The stream of frames failed.
    StreamFailed(Error),
    /// A sender queued this message.
    Queued(WsMessage),
    /// Every sender is gone.
    QueueEnded,
    /// The websocket refused a frame that was sent.
    SendFailed,
    /// The handler's `on_close` finished.
    Closed,
}

/// An [`Input`] with its strings taken by their views.
pub enum InputView {
    Opened,
    OpenFailed(ErrorView),
    Greeted(bool),
    Received(Event),
    Unreadable { text: Seq<char>, error: EventErrorView },
    BinaryFrame,
    Handled(bool),
    StreamEnded,
    StreamFailed(ErrorView),
    Queued(WsMessageView),
    QueueEnded,
    SendFailed,
    Closed,
}

impl View for Input {
    type V = InputView;

    open spec fn view(&self) -> InputView {
        match self {
            Input::Opened => InputView::Opened,
            Input::OpenFailed(e) => InputView::OpenFailed(e@),
            Input::Greeted(ok) => InputView::Greeted(*ok),
            Input::Received(ev) => InputView::Received(*ev),
            Input::Unreadable { text, error } => InputView::Unreadable { text: text@, error: error@ },
            Input::BinaryFrame => InputView::BinaryFrame,
            Input::Handled(ok) => InputView::Handled(*ok),
            Input::StreamEnded => InputView::StreamEnded,
            Input::StreamFailed(e) => InputView::StreamFailed(e@),
            Input::Queued(m) => InputView::Queued(m@),
            Input::QueueEnded => InputView::QueueEnded,
            Input::SendFailed => InputView::SendFailed,
            Input::Closed => InputView::Closed,
        }
    }
}

/// What the session does next.
pub enum Action {
    /// Nothing: wait for the next input.
    Wait,
    /// Call the handler's `on_connect`.
    Greet,
    /// Call the handler's `on_event` with this event.
    Dispatch(Event),
    /// Log a frame that held no event, and read on.
    Log { text: String, error: EventError },
    /// Send this text frame.
    Send(String),
    /// Call the handler's `on_close`.
    Farewell,
    /// End the session with this outcome.
    Finish(Result<(), Error>),
}

/// An [`Action`] with its strings taken by their views.
pub enum ActionView {
    Wait,
    Greet,
    Dispatch(Event),
    Log { text: Seq<char>, error: EventErrorView },
    Send(Seq<char>),
    Farewell,
    Finish(Result<(), ErrorView>),
}

impl View for Action {
    type V = ActionView;

    open spec fn view(&self) -> ActionView {
        match self {
            Action::Wait => ActionView::Wait,
            Action::Greet => ActionView::Greet,
            Action::Dispatch(ev) => ActionView::Dispatch(*ev),
            Action::Log { text, error } => ActionView::Log { text: text@, error: error@ },
            Action::Send(t) => ActionView::Send(t@),
            Action::Farewell => ActionView::Farewell,
            Action::Finish(r) => ActionView::Finish(outcome_view(*r)),
        }
    }
}

/// The error that a failed handler future, or a failed send, ends the session with.
pub open spec fn unit_error() -> ErrorView {
    ErrorView::Internal("Unit Error"@)
}

/// The phase that `p` moves to on input `i`, and the action to take.
///
/// Inputs that cannot happen in a phase leave it unchanged and ask for nothing.
pub open spec fn next(p: PhaseView, i: InputView) -> (PhaseView, ActionView) {
    match (p, i) {
        (PhaseView::Connecting, InputView::Opened) => (PhaseView::Greeting, ActionView::Greet),
        (PhaseView::Connecting, InputView::OpenFailed(e)) => (PhaseView::Finished, ActionView::Finish(Err(e))),
        (PhaseView::Greeting, InputView::Greeted(ok)) => if ok {
            (PhaseView::Reading, ActionView::Wait)
        } else {
            (PhaseView::Closing(Err(unit_error())), ActionView::Farewell)
        },
        (PhaseView::Reading, InputView::Received(ev)) => (PhaseView::Dispatching, ActionView::Dispatch(ev)),
        (PhaseView::Reading, InputView::Unreadable { text, error }) => (PhaseView::Reading, ActionView::Log { text, error }),
        (PhaseView::Reading, InputView::BinaryFrame) => (PhaseView::Reading, ActionView::Wait),
        (PhaseView::Reading, InputView::StreamEnded) => (PhaseView::Closing(Ok(())), ActionView::Farewell),
        (PhaseView::Reading, InputView::StreamFailed(e)) => (PhaseView::Closing(Err(e)), ActionView::Farewell),
        (PhaseView::Dispatching, InputView::Handled(ok)) => if ok {
            (PhaseView::Reading, ActionView::Wait)
        } else {
            (PhaseView::Closing(Err(unit_error())), ActionView::Farewell)
        },
        (PhaseView::Reading, InputView::Queued(m)) | (PhaseView::Dispatching, InputView::Queued(m)) => match m {
            WsMessageView::Close => (PhaseView::Closing(Ok(())), ActionView::Farewell),
            WsMessageView::Text(t) => (p, ActionView::Send(t)),
        },
        (PhaseView::Reading, InputView::QueueEnded) | (PhaseView::Dispatching, InputView::QueueEnded) =>
            (PhaseView::Closing(Ok(())), ActionView::Farewell),
        (PhaseView::Reading, InputView::SendFailed) | (PhaseView::Dispatching, InputView::SendFailed) =>
            (PhaseView::Closing(Err(unit_error())), ActionView::Farewell),
        (PhaseView::Closing(r), InputView::Closed) => (PhaseView::Finished, ActionView::Finish(r)),
        _ => (p, ActionView::Wait),
    }
}

/// Moves the session on by one input: the new phase, and what to do.
pub fn step(phase: Phase, input: Input) -> (r: (Phase, Action))
    ensures
        (r.0@, r.1@) == next(phase@, input@),
{
    match (phase, input) {
        (Phase::Connecting, Input::Opened) => (Phase::Greeting, Action::Greet),
        (Phase::Connecting, Input::OpenFailed(e)) => (Phase::Finished, Action::Finish(Err(e))),
        (Phase::Greeting, Input::Greeted(ok)) => if ok {
            (Phase::Reading, Action::Wait)
        } else {
            (Phase::Closing(Err(internal("Unit Error"))), Action::Farewell)
        },
        (Phase::Reading, Input::Received(ev)) => (Phase::Dispatching, Action::Dispatch(ev)),
        (Phase::Reading, Input::Unreadable { text, error }) => (Phase::Reading, Action::Log { text, error }),
        (Phase::Reading, Input::BinaryFrame) => (Phase::Reading, Action::Wait),
        (Phase::Reading, Input::StreamEnded) => (Phase::Closing(Ok(())), Action::Farewell),
        (Phase::Reading, Input::StreamFailed(e)) => (Phase::Closing(Err(e)), Action::Farewell),
        (Phase::Dispatching, Input::Handled(ok)) => if ok {
            (Phase::Reading, Action::Wait)
        } else {
            (Phase::Closing(Err(internal("Unit Error"))), Action::Farewell)
        },
        (Phase::Reading, Input::Queued(m)) => match m {
            WsMessage::Close => (Phase::Closing(Ok(())), Action::Farewell),
            WsMessage::Text(t) => (Phase::Reading, Action::Send(t)),
        },
        (Phase::Dispatching, Input::Queued(m)) => match m {
            WsMessage::Close => (Phase::Closing(Ok(())), Action::Farewell),
            WsMessage::Text(t) => (Phase::Dispatching, Action::Send(t)),
        },
        (Phase::Reading, Input::QueueEnded) | (Phase::Dispatching, Input::QueueEnded) =>
            (Phase::Closing(Ok(())), Action::Farewell),
        (Phase::Reading, Input::SendFailed) | (Phase::Dispatching, Input::SendFailed) =>
            (Phase::Closing(Err(internal("Unit Error"))), Action::Farewell),
        (Phase::Closing(r), Input::Closed) => (Phase::Finished, Action::Finish(r)),
        (phase, _) => (phase, Action::Wait),
    }
}

/// Whether the session reads the next frame in phase `phase`.
pub fn reads_frames(phase: &Phase) -> (b: bool)
    ensures
        b == (phase@ is Reading),
{
    match phase {
        Phase::Reading => true,
        _ => false,
    }
}

/// Whether the session takes queued messages in phase `phase`: once the handler's
/// `on_connect` has succeeded and until the session closes.
pub fn takes_messages(phase: &Phase) -> (b: bool)
    ensures
        b == (phase@ is Reading || phase@ is Dispatching),
{
    match phase {
        Phase::Reading | Phase::Dispatching => true,
        _ => false,
    }
}

/// The input that a websocket frame gives the session: a binary frame is
/// passed over, and a text frame is decoded into its event or its error;
/// `None` where the event decoder does not handle the text.
pub fn read_frame(frame: Frame) -> (r: Option<Input>)
    ensures
        match frame {
            Frame::Binary(_) => r matches Some(Input::BinaryFrame),
            Frame::Text(t) => match r {
                None => decodes_to(t@, None),
                Some(Input::Received(ev)) => decodes_to(t@, Some(Ok(ev))),
                Some(Input::Unreadable { text, error }) => text@ == t@ && decodes_to(t@, Some(Err(error))),
                _ => false,
            },
        },
{
    match frame {
        Frame::Binary(_) => Some(Input::BinaryFrame),
        Frame::Text(t) => match Event::from_json(t.as_str()) {
            None => None,
            Some(Ok(ev)) => Some(Input::Received(ev)),
            Some(Err(error)) => Some(Input::Unreadable { text: t, error }),
        },
    }
}

/// The phase that a session reaches from `p` on `inputs`, and the actions it
/// takes, one per input.
pub open spec fn run(p: PhaseView, inputs: Seq<InputView>) -> (PhaseView, Seq<ActionView>)
    decreases inputs.len(),
{
    if inputs.len() == 0 {
        (p, Seq::empty())
    } else {
        let before = run(p, inputs.drop_last());
        let last = next(before.0, inputs.last());
        (last.0, before.1.push(last.1))
    }
}

/// How far a phase stands in the course of a session.
spec fn rank(p: PhaseView) -> int {
    match p {
        PhaseView::Connecting => 0,
        PhaseView::Greeting => 1,
        PhaseView::Reading => 2,
        PhaseView::Dispatching => 2,
        PhaseView::Closing(_) => 3,
        PhaseView::Finished => 4,
    }
}

/// The phase after the first `k` inputs.
spec fn phase_at(p: PhaseView, inputs: Seq<InputView>, k: int) -> PhaseView {
    run(p, inputs.take(k)).0
}

proof fn lemma_next_facts(p: PhaseView, i: InputView)
    ensures
        rank(next(p, i).0) >= rank(p),
        next(p, i).1 is Greet ==> p is Connecting && next(p, i).0 is Greeting,
        next(p, i).1 is Farewell ==> (rank(p) == 1 || rank(p) == 2) && next(p, i).0 is Closing,
        next(p, i).1 is Finish ==> (p is Connecting || p is Closing) && next(p, i).0 is Finished,
        next(p, i).1 is Dispatch ==> p is Reading,
        p is Finished ==> next(p, i).0 is Finished && next(p, i).1 is Wait,
        rank(p) == 0 && rank(next(p, i).0) != 0 ==> next(p, i).1 is Greet || next(p, i).0 is Finished,
        (rank(p) == 1 || rank(p) == 2) && rank(next(p, i).0) == 3 ==> next(p, i).1 is Farewell,
        rank(p) == 4 <==> p is Finished,
        rank(p) == 2 <==> (p is Reading || p is Dispatching),
        next(p, i).1 is Dispatch ==> next(p, i).0 is Dispatching,
        p is Dispatching && next(p, i).0 is Reading ==> i is Handled,
{
}

proof fn lemma_run_len(p: PhaseView, inputs: Seq<InputView>)
    ensures
        run(p, inputs).1.len() == inputs.len(),
    decreases inputs.len(),
{
    if inputs.len() > 0 {
        lemma_run_len(p, inputs.drop_last());
    }
}

/// The action on input `k` is the step from the phase after the first `k` inputs.
proof fn lemma_step_at(p: PhaseView, inputs: Seq<InputView>, k: int)
    requires
        0 <= k < inputs.len(),
    ensures
        run(p, inputs).1[k] == next(phase_at(p, inputs, k), inputs[k]).1,
        phase_at(p, inputs, k + 1) == next(phase_at(p, inputs, k), inputs[k]).0,
    decreases inputs.len(),
{
    lemma_run_len(p, inputs.drop_last());
    if k == inputs.len() - 1 {
        assert(inputs.take(k) =~= inputs.drop_last());
        assert(inputs.take(k + 1) =~= inputs);
    } else {
        lemma_step_at(p, inputs.drop_last(), k);
        assert(inputs.drop_last().take(k) =~= inputs.take(k));
        assert(inputs.drop_last().take(k + 1) =~= inputs.take(k + 1));
    }
}

proof fn lemma_rank_grows(p: PhaseView, inputs: Seq<InputView>, i: int, j: int)
    requires
        0 <= i <= j <= inputs.len(),
    ensures
        rank(phase_at(p, inputs, i)) <= rank(phase_at(p, inputs, j)),
    decreases j - i,
{
    if i < j {
        lemma_rank_grows(p, inputs, i, j - 1);
        lemma_step_at(p, inputs, j - 1);
        lemma_next_facts(phase_at(p, inputs, j - 1), inputs[j - 1]);
    }
}

/// A finished session stays finished and does nothing more, whatever happens.
pub proof fn law_finished_is_final(inputs: Seq<InputView>)
    ensures
        run(PhaseView::Finished, inputs).0 is Finished,
        forall|k: int| 0 <= k < inputs.len() ==> #[trigger] run(PhaseView::Finished, inputs).1[k] is Wait,
    decreases inputs.len(),
{
    lemma_run_len(PhaseView::Finished, inputs);
    if inputs.len() > 0 {
        law_finished_is_final(inputs.drop_last());
        lemma_next_facts(run(PhaseView::Finished, inputs.drop_last()).0, inputs.last());
        assert forall|k: int| 0 <= k < inputs.len() implies #[trigger] run(PhaseView::Finished, inputs).1[k] is Wait by {
            if k < inputs.len() - 1 {
                assert(run(PhaseView::Finished, inputs).1[k] == run(PhaseView::Finished, inputs.drop_last()).1[k]);
            }
        }
    }
}

/// Once a session ends, it takes no other action: in particular it ends at
/// most once.
pub proof fn law_nothing_after_finish(p: PhaseView, inputs: Seq<InputView>)
    ensures
        forall|i: int, j: int|
            0 <= i < j < inputs.len() && #[trigger] run(p, inputs).1[i] is Finish
                ==> #[trigger] run(p, inputs).1[j] is Wait,
{
    assert forall|i: int, j: int|
        0 <= i < j < inputs.len() && #[trigger] run(p, inputs).1[i] is Finish
            implies #[trigger] run(p, inputs).1[j] is Wait by {
        lemma_step_at(p, inputs, i);
        lemma_next_facts(phase_at(p, inputs, i), inputs[i]);
        lemma_rank_grows(p, inputs, i + 1, j);
        lemma_step_at(p, inputs, j);
        lemma_next_facts(phase_at(p, inputs, i + 1), inputs[i]);
        lemma_next_facts(phase_at(p, inputs, j), inputs[j]);
    }
}

/// Before a session from its start calls `on_connect`, nothing but an ending
/// happens: every later step has `on_connect` behind it.
proof fn lemma_greeted_before(inputs: Seq<InputView>, m: int)
    requires
        0 <= m <= inputs.len(),
        1 <= rank(phase_at(PhaseView::Connecting, inputs, m)) <= 3,
    ensures
        exists|i: int| 0 <= i < m && #[trigger] run(PhaseView::Connecting, inputs).1[i] is Greet,
    decreases m,
{
    let p = PhaseView::Connecting;
    assert(inputs.take(0) =~= Seq::<InputView>::empty());
    assert(m > 0);
    lemma_step_at(p, inputs, m - 1);
    lemma_next_facts(phase_at(p, inputs, m - 1), inputs[m - 1]);
    if 1 <= rank(phase_at(p, inputs, m - 1)) <= 3 {
        lemma_greeted_before(inputs, m - 1);
        let i = choose|i: int| 0 <= i < m - 1 && #[trigger] run(p, inputs).1[i] is Greet;
        assert(run(p, inputs).1[i] is Greet);
    } else {
        assert(run(p, inputs).1[m - 1] is Greet);
    }
}

/// A session calls `on_connect` at most once, and before it calls `on_event`
/// or `on_close`.
pub proof fn law_connect_comes_first(inputs: Seq<InputView>)
    ensures
        forall|i: int, j: int|
            0 <= i < j < inputs.len() && #[trigger] run(PhaseView::Connecting, inputs).1[i] is Greet
                ==> !(#[trigger] run(PhaseView::Connecting, inputs).1[j] is Greet),
        forall|j: int|
            0 <= j < inputs.len() && (#[trigger] run(PhaseView::Connecting, inputs).1[j] is Dispatch
                || run(PhaseView::Connecting, inputs).1[j] is Farewell)
                ==> exists|i: int| 0 <= i < j && #[trigger] run(PhaseView::Connecting, inputs).1[i] is Greet,
{
    let p = PhaseView::Connecting;
    assert forall|i: int, j: int|
        0 <= i < j < inputs.len() && #[trigger] run(p, inputs).1[i] is Greet
            implies !(#[trigger] run(p, inputs).1[j] is Greet) by {
        lemma_step_at(p, inputs, i);
        lemma_next_facts(phase_at(p, inputs, i), inputs[i]);
        lemma_rank_grows(p, inputs, i + 1, j);
        lemma_step_at(p, inputs, j);
        lemma_next_facts(phase_at(p, inputs, j), inputs[j]);
    }
    assert forall|j: int|
        0 <= j < inputs.len() && (#[trigger] run(p, inputs).1[j] is Dispatch || run(p, inputs).1[j] is Farewell)
            implies exists|i: int| 0 <= i < j && #[trigger] run(p, inputs).1[i] is Greet by {
        lemma_step_at(p, inputs, j);
        lemma_next_facts(phase_at(p, inputs, j), inputs[j]);
        lemma_greeted_before(inputs, j);
    }
}

/// A session that stands at `on_close` at input `m` called it after input `g`,
/// from which on it was open.
proof fn lemma_farewell_between(p: PhaseView, inputs: Seq<InputView>, g: int, m: int)
    requires
        0 <= g < m <= inputs.len(),
        rank(phase_at(p, inputs, g + 1)) == 1,
        rank(phase_at(p, inputs, m)) == 3,
    ensures
        exists|k: int| g < k < m && #[trigger] run(p, inputs).1[k] is Farewell,
    decreases m,
{
    assert(m > g + 1);
    lemma_step_at(p, inputs, m - 1);
    lemma_next_facts(phase_at(p, inputs, m - 1), inputs[m - 1]);
    lemma_rank_grows(p, inputs, g + 1, m - 1);
    if rank(phase_at(p, inputs, m - 1)) == 3 {
        lemma_farewell_between(p, inputs, g, m - 1);
        let k = choose|k: int| g < k < m - 1 && #[trigger] run(p, inputs).1[k] is Farewell;
        assert(run(p, inputs).1[k] is Farewell);
    } else {
        assert(run(p, inputs).1[m - 1] is Farewell);
    }
}

/// A session that called `on_connect` calls `on_close` before it ends, and a
/// session calls `on_close` at most once.
pub proof fn law_close_follows_connect(p: PhaseView, inputs: Seq<InputView>)
    ensures
        forall|i: int, j: int|
            0 <= i < inputs.len() && 0 <= j < inputs.len() && #[trigger] run(p, inputs).1[i] is Greet
                && #[trigger] run(p, inputs).1[j] is Finish
                ==> i < j && exists|k: int| i < k < j && #[trigger] run(p, inputs).1[k] is Farewell,
        forall|i: int, j: int|
            0 <= i < j < inputs.len() && #[trigger] run(p, inputs).1[i] is Farewell
                ==> !(#[trigger] run(p, inputs).1[j] is Farewell),
{
    assert forall|i: int, j: int|
        0 <= i < inputs.len() && 0 <= j < inputs.len() && #[trigger] run(p, inputs).1[i] is Greet
            && #[trigger] run(p, inputs).1[j] is Finish
            implies i < j && exists|k: int| i < k < j && #[trigger] run(p, inputs).1[k] is Farewell by {
        law_nothing_after_finish(p, inputs);
        if j < i {
            assert(run(p, inputs).1[i] is Wait);
        }
        lemma_step_at(p, inputs, i);
        lemma_next_facts(phase_at(p, inputs, i), inputs[i]);
        lemma_step_at(p, inputs, j);
        lemma_next_facts(phase_at(p, inputs, j), inputs[j]);
        lemma_rank_grows(p, inputs, i + 1, j);
        lemma_farewell_between(p, inputs, i, j);
    }
    assert forall|i: int, j: int|
        0 <= i < j < inputs.len() && #[trigger] run(p, inputs).1[i] is Farewell
            implies !(#[trigger] run(p, inputs).1[j] is Farewell) by {
        lemma_step_at(p, inputs, i);
        lemma_next_facts(phase_at(p, inputs, i), inputs[i]);
        lemma_rank_grows(p, inputs, i + 1, j);
        lemma_step_at(p, inputs, j);
        lemma_next_facts(phase_at(p, inputs, j), inputs[j]);
    }
}

/// A session that dispatched an event after input `g` and reads again at input
/// `m` saw the handler finish in between.
proof fn lemma_handled_between(p: PhaseView, inputs: Seq<InputView>, g: int, m: int)
    requires
        0 <= g < m <= inputs.len(),
        phase_at(p, inputs, g + 1) is Dispatching,
        phase_at(p, inputs, m) is Reading,
    ensures
        exists|k: int| g < k < m && #[trigger] inputs[k] is Handled,
    decreases m,
{
    assert(m > g + 1);
    lemma_step_at(p, inputs, m - 1);
    lemma_next_facts(phase_at(p, inputs, m - 1), inputs[m - 1]);
    lemma_rank_grows(p, inputs, g + 1, m - 1);
    lemma_rank_grows(p, inputs, m - 1, m);
    lemma_next_facts(phase_at(p, inputs, g + 1), inputs[g]);
    lemma_next_facts(phase_at(p, inputs, m), inputs[g]);
    if phase_at(p, inputs, m - 1) is Reading {
        lemma_handled_between(p, inputs, g, m - 1);
        let k = choose|k: int| g < k < m - 1 && #[trigger] inputs[k] is Handled;
        assert(inputs[k] is Handled);
    } else {
        assert(inputs[m - 1] is Handled);
    }
}

/// A session hands the handler one event at a time: between two calls of
/// `on_event` the first one has finished.
pub proof fn law_one_event_at_a_time(p: PhaseView, inputs: Seq<InputView>)
    ensures
        forall|i: int, j: int|
            0 <= i < j < inputs.len() && #[trigger] run(p, inputs).1[i] is Dispatch
                && #[trigger] run(p, inputs).1[j] is Dispatch
                ==> exists|k: int| i < k < j && #[trigger] inputs[k] is Handled,
{
    assert forall|i: int, j: int|
        0 <= i < j < inputs.len() && #[trigger] run(p, inputs).1[i] is Dispatch
            && #[trigger] run(p, inputs).1[j] is Dispatch
            implies exists|k: int| i < k < j && #[trigger] inputs[k] is Handled by {
        lemma_step_at(p, inputs, i);
        lemma_next_facts(phase_at(p, inputs, i), inputs[i]);
        lemma_step_at(p, inputs, j);
        lemma_next_facts(phase_at(p, inputs, j), inputs[j]);
        lemma_handled_between(p, inputs, i, j);
    }
}

/// While a session takes queued messages, a queued text is sent as it is and
/// the session stays where it was.
pub proof fn law_queued_text_is_sent(p: PhaseView, t: Seq<char>)
    requires
        p is Reading || p is Dispatching,
    ensures
        next(p, InputView::Queued(WsMessageView::Text(t))) == (p, ActionView::Send(t)),
{
}

/// While a session takes queued messages, a queued `Close`, or the loss of
/// every sender, closes it without error by calling `on_close`.
pub proof fn law_close_request_closes(p: PhaseView)
    requires
        p is Reading || p is Dispatching,
    ensures
        next(p, InputView::Queued(WsMessageView::Close)) == (PhaseView::Closing(Ok(())), ActionView::Farewell),
        next(p, InputView::QueueEnded) == (PhaseView::Closing(Ok(())), ActionView::Farewell),
        next(p, InputView::SendFailed) == (PhaseView::Closing(Err(ErrorView::Internal("Unit Error"@))), ActionView::Farewell),
{
}

/// A session that reads hands each decoded event, unchanged, to `on_event`,
/// logs each undecodable frame with its text and error, and passes binary
/// frames over.
pub proof fn law_frames_reach_the_handler(ev: Event, text: Seq<char>, error: EventErrorView)
    ensures
        next(PhaseView::Reading, InputView::Received(ev)) == (PhaseView::Dispatching, ActionView::Dispatch(ev)),
        next(PhaseView::Reading, InputView::Unreadable { text, error }) == (PhaseView::Reading, ActionView::Log { text, error }),
        next(PhaseView::Reading, InputView::BinaryFrame) == (PhaseView::Reading, ActionView::Wait),
{
}

/// The outcome of a handler's future decides how the session goes on: after
/// success it reads the next frame; after failure it closes with "Unit Error".
pub proof fn law_handler_outcome(ok: bool)
    ensures
        next(PhaseView::Greeting, InputView::Greeted(ok)) == if ok {
            (PhaseView::Reading, ActionView::Wait)
        } else {
            (PhaseView::Closing(Err(ErrorView::Internal("Unit Error"@))), ActionView::Farewell)
        },
        next(PhaseView::Dispatching, InputView::Handled(ok)) == if ok {
            (PhaseView::Reading, ActionView::Wait)
        } else {
            (PhaseView::Closing(Err(ErrorView::Internal("Unit Error"@))), ActionView::Farewell)
        },
{
}

/// Opening greets the handler or ends the session with the failure; the end
/// of the frames closes the session with its outcome; once `on_close` is done
/// the session ends with the outcome it closed with.
pub proof fn law_connection_outcomes(e: ErrorView, r: Result<(), ErrorView>)
    ensures
        next(PhaseView::Connecting, InputView::Opened) == (PhaseView::Greeting, ActionView::Greet),
        next(PhaseView::Connecting, InputView::OpenFailed(e)) == (PhaseView::Finished, ActionView::Finish(Err(e))),
        next(PhaseView::Reading, InputView::StreamEnded) == (PhaseView::Closing(Ok(())), ActionView::Farewell),
        next(PhaseView::Reading, InputView::StreamFailed(e)) == (PhaseView::Closing(Err(e)), ActionView::Farewell),
        next(PhaseView::Closing(r), InputView::Closed) == (PhaseView::Finished, ActionView::Finish(r)),
{
}

} // verus!
