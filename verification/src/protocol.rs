//! The protocol engine: the table of outstanding requests and the decision
//! of what to do with every inbound message.
//!
//! The engine never waits. Issuing a request registers it and sends it; the
//! response, the deadline or the end of the channel resolves it later, each
//! by removing the entry from the table, so that whichever comes first wins
//! and the others find nothing to do.

use crate::error::ErrorKind;
use crate::message::{
    decode, decoded, encode, encoded, Envelope, EnvelopeView, ErrorObject, ErrorObjectView,
    Message, MessageView, RequestId, RequestIdView, INTERNAL_ERROR, METHOD_NOT_FOUND,
};
use crate::transport::{Channel, Transport, TransportError};
use crate::types::same_text;
use std::collections::HashMap;
use vstd::prelude::*;
use vstd::std_specs::iter::IteratorSpec;

verus! {

broadcast use vstd::std_specs::hash::group_hash_axioms;

/// The deadline that requests get when the caller names none, in time units.
pub const DEFAULT_REQUEST_TIMEOUT: u64 = 60000;

/// What a caller may ask for when issuing a request.
#[derive(Clone, Copy, Debug, PartialEq, Eq)]
pub struct RequestOptions {
    /// How long to wait for the response, in time units; `None` to wait
    /// until the channel ends.
    pub timeout: Option<u64>,
}

impl Default for RequestOptions {
    fn default() -> (options: RequestOptions)
        ensures
            options.timeout == Some(DEFAULT_REQUEST_TIMEOUT),
    {
        RequestOptions { timeout: Some(DEFAULT_REQUEST_TIMEOUT) }
    }
}

/// The bookkeeping entry of one outstanding request.
#[derive(Clone, Copy, Debug, PartialEq, Eq)]
pub struct PendingRequest {
    pub id: u64,
    /// The time from which the request counts as timed out.
    pub deadline: Option<u64>,
}

/// How an outstanding request ended. A request ends once, in one of these
/// ways.
#[derive(Clone, Debug, PartialEq)]
pub enum Outcome {
    /// The peer answered with a result.
    Success(serde_json::Value),
    /// The peer answered with an error.
    Failure(ErrorObject),
    /// The deadline passed first.
    TimedOut,
    /// The channel ended first.
    Closed,
}

/// Mathematical content of an [`Outcome`].
pub ghost enum OutcomeView {
    Success(serde_json::Value),
    Failure(ErrorObjectView),
    TimedOut,
    Closed,
}

impl View for Outcome {
    type V = OutcomeView;

    open spec fn view(&self) -> OutcomeView {
        match *self {
            Outcome::Success(value) => OutcomeView::Success(value),
            Outcome::Failure(error) => OutcomeView::Failure(error@),
            Outcome::TimedOut => OutcomeView::TimedOut,
            Outcome::Closed => OutcomeView::Closed,
        }
    }
}

/// Why an inbound message needed no action.
#[derive(Clone, Copy, Debug, PartialEq, Eq, Structural)]
pub enum Ignored {
    /// A response whose id matches no outstanding request.
    StaleResponse,
    /// A notification that no handler is registered for.
    UnknownNotification,
    /// An envelope that holds no message.
    Malformed,
}

/// What the engine decided, for the caller to carry out or to take note of.
#[allow(inconsistent_fields)]
#[derive(Debug, PartialEq)]
pub enum Step {
    /// The outstanding request `id` ended with `outcome`.
    Resolved { id: u64, outcome: Outcome },
    /// The inbound message was dropped.
    Ignored(Ignored),
    /// The handler registered for `method` is to be invoked, and its result
    /// sent back under `id`.
    Invoke { id: RequestId, method: String, params: Option<serde_json::Value> },
    /// `message` is to be sent back to the peer.
    Reply { message: Message },
    /// The notification handler registered for `method` is to be invoked.
    Deliver { method: String, params: Option<serde_json::Value> },
    /// The channel ended; the outstanding requests `resolved` all end with
    /// [`Outcome::Closed`].
    Closed { resolved: Vec<u64> },
    /// The channel failed.
    Failed { error: TransportError },
    /// Nothing that needs the caller's attention has arrived yet.
    Idle,
}

/// Mathematical content of a [`Step`].
#[allow(inconsistent_fields)]
pub ghost enum StepView {
    Resolved { id: u64, outcome: OutcomeView },
    Ignored(Ignored),
    Invoke { id: RequestIdView, method: Seq<char>, params: Option<serde_json::Value> },
    Reply { message: MessageView },
    Deliver { method: Seq<char>, params: Option<serde_json::Value> },
    Closed { resolved: Seq<u64> },
    Failed { error: TransportError },
    Idle,
}

impl View for Step {
    type V = StepView;

    open spec fn view(&self) -> StepView {
        match *self {
            Step::Resolved { id, outcome } => StepView::Resolved { id, outcome: outcome@ },
            Step::Ignored(why) => StepView::Ignored(why),
            Step::Invoke { id, method, params } => StepView::Invoke {
                id: id@,
                method: method@,
                params,
            },
            Step::Reply { message } => StepView::Reply { message: message@ },
            Step::Deliver { method, params } => StepView::Deliver { method: method@, params },
            Step::Closed { resolved } => StepView::Closed { resolved: resolved@ },
            Step::Failed { error } => StepView::Failed { error },
            Step::Idle => StepView::Idle,
        }
    }
}

/// The state of an engine: the next id to mint, the outstanding requests by
/// id, and whether the channel has ended.
pub ghost struct EngineState {
    pub next_id: u64,
    pub pending: Map<u64, PendingRequest>,
    pub closed: bool,
}

/// The time from which a request issued at `now` counts as timed out.
pub open spec fn deadline_of(options: RequestOptions, now: u64) -> Option<u64> {
    match options.timeout {
        Some(timeout) => Some(
            if now + timeout > u64::MAX {
                u64::MAX
            } else {
                (now + timeout) as u64
            },
        ),
        None => None,
    }
}

impl EngineState {
    /// The state of an engine that has done nothing yet.
    pub open spec fn initial() -> EngineState {
        EngineState { next_id: 0, pending: Map::empty(), closed: false }
    }

    /// Every outstanding id was minted, every entry is filed under its own
    /// id, and nothing is outstanding once the channel has ended.
    pub open spec fn wf(self) -> bool {
        &&& self.pending.dom().finite()
        &&& forall|id: u64| #[trigger]
            self.pending.contains_key(id) ==> id < self.next_id && self.pending[id].id == id
        &&& self.closed ==> self.pending == Map::<u64, PendingRequest>::empty()
    }

    /// Whether a request can be issued: the channel has not ended and an id
    /// is left to mint.
    pub open spec fn can_issue(self) -> bool {
        !self.closed && self.next_id < u64::MAX
    }

    /// The state after a request was issued at `now` under the id
    /// `self.next_id`.
    pub open spec fn issued(self, options: RequestOptions, now: u64) -> EngineState {
        EngineState {
            next_id: (self.next_id + 1) as u64,
            pending: self.pending.insert(
                self.next_id,
                PendingRequest { id: self.next_id, deadline: deadline_of(options, now) },
            ),
            closed: self.closed,
        }
    }

    /// The state after the request `id` ended, or the same state where no
    /// such request was outstanding.
    pub open spec fn resolved(self, id: u64) -> EngineState {
        EngineState { next_id: self.next_id, pending: self.pending.remove(id), closed: self.closed }
    }

    /// The state after the channel ended.
    pub open spec fn closed_down(self) -> EngineState {
        EngineState { next_id: self.next_id, pending: Map::empty(), closed: true }
    }

    /// Whether the request `id` is outstanding and its deadline has come.
    pub open spec fn is_due(self, id: u64, now: u64) -> bool {
        &&& self.pending.contains_key(id)
        &&& self.pending[id].deadline matches Some(deadline)
        &&& deadline <= now
    }

    /// The state after the inbound `message` was handled: a response ends
    /// the request that its id names, and nothing else changes anything.
    pub open spec fn after_message(self, message: MessageView) -> EngineState {
        match message {
            MessageView::Response { id: RequestIdView::Number(id), .. } => self.resolved(id),
            _ => self,
        }
    }
}

/// The names that a list of method names holds.
pub open spec fn names_of(methods: Seq<String>) -> Set<Seq<char>> {
    Set::new(
        |name: Seq<char>|
            exists|i: int| 0 <= i < methods.len() && (#[trigger] methods[i])@ == name,
    )
}

/// How the request ended that a response answers.
pub open spec fn outcome_of(result: Result<serde_json::Value, ErrorObjectView>) -> OutcomeView {
    match result {
        Ok(value) => OutcomeView::Success(value),
        Err(error) => OutcomeView::Failure(error),
    }
}

/// The text of the error that answers a request for an unknown method.
pub open spec fn method_not_found_text(method: Seq<char>) -> Seq<char> {
    "Method not found: "@ + method
}

/// The response that answers a request for an unknown method.
pub open spec fn method_not_found(id: RequestIdView, method: Seq<char>) -> MessageView {
    MessageView::Response {
        id,
        result: Err(
            ErrorObjectView {
                code: METHOD_NOT_FOUND,
                message: method_not_found_text(method),
                data: None,
            },
        ),
    }
}

/// What the engine decides on an inbound message, given the outstanding
/// requests and the methods that handlers are registered for.
pub open spec fn step_for(
    state: EngineState,
    request_methods: Set<Seq<char>>,
    notification_methods: Set<Seq<char>>,
    message: MessageView,
) -> StepView {
    match message {
        MessageView::Response { id, result } => match id {
            RequestIdView::Number(id) => if state.pending.contains_key(id) {
                StepView::Resolved { id, outcome: outcome_of(result) }
            } else {
                StepView::Ignored(Ignored::StaleResponse)
            },
            RequestIdView::Text(_) => StepView::Ignored(Ignored::StaleResponse),
        },
        MessageView::Request { id, method, params } => if request_methods.contains(method) {
            StepView::Invoke { id, method, params }
        } else {
            StepView::Reply { message: method_not_found(id, method) }
        },
        MessageView::Notification { method, params } => if notification_methods.contains(method) {
            StepView::Deliver { method, params }
        } else {
            StepView::Ignored(Ignored::UnknownNotification)
        },
    }
}

/// What holds of the step that a round of listening ends with, and of the
/// states before and after the round: the step alone accounts for the
/// change of state. A response ended an outstanding request; or the channel
/// ended and every outstanding request with it; or a registered handler is
/// to be invoked, the channel failed, or nothing arrived, and the state is
/// as it was. Dropped messages and answers sent on the spot end no round.
pub open spec fn attended(
    before: EngineState,
    request_methods: Set<Seq<char>>,
    notification_methods: Set<Seq<char>>,
    step: Step,
    after: EngineState,
) -> bool {
    match step {
        Step::Resolved { id, outcome } => before.pending.contains_key(id) && after
            == before.resolved(id) && (outcome is Success || outcome is Failure),
        Step::Closed { resolved } => resolved@.no_duplicates() && resolved@.to_set()
            == before.pending.dom() && after == before.closed_down(),
        Step::Invoke { id, method, params } => request_methods.contains(method@) && after == before,
        Step::Deliver { method, params } => notification_methods.contains(method@) && after
            == before,
        Step::Failed { error } => after == before,
        Step::Idle => after == before,
        Step::Ignored(_) => false,
        Step::Reply { message } => false,
    }
}

/// Whether `step` is what the engine decides on what the channel handed
/// over. A failure of the channel is reported. The end of the channel
/// resolves every outstanding request. A malformed envelope is dropped.
/// Every other envelope is handled as the message it holds.
pub open spec fn decided(
    state: EngineState,
    request_methods: Set<Seq<char>>,
    notification_methods: Set<Seq<char>>,
    incoming: Result<Option<Envelope>, TransportError>,
    step: Step,
) -> bool {
    match incoming {
        Err(error) => step == (Step::Failed { error }),
        Ok(None) => step matches Step::Closed { resolved } && resolved@.no_duplicates()
            && resolved@.to_set() == state.pending.dom(),
        Ok(Some(envelope)) => match decoded(envelope@) {
            None => step == Step::Ignored(Ignored::Malformed),
            Some(message) => step@ == step_for(
                state,
                request_methods,
                notification_methods,
                message,
            ),
        },
    }
}

/// The state after the engine handled what the channel handed over.
pub open spec fn state_after(
    state: EngineState,
    incoming: Result<Option<Envelope>, TransportError>,
) -> EngineState {
    match incoming {
        Err(_) => state,
        Ok(None) => state.closed_down(),
        Ok(Some(envelope)) => match decoded(envelope@) {
            None => state,
            Some(message) => state.after_message(message),
        },
    }
}

/// Whether the engine passes over what the channel handed over, without
/// the caller's attention: an envelope that it drops, or a request that it
/// answers on the spot because its method has no handler.
pub open spec fn passed_over(
    state: EngineState,
    request_methods: Set<Seq<char>>,
    notification_methods: Set<Seq<char>>,
    incoming: Result<Option<Envelope>, TransportError>,
) -> bool {
    match incoming {
        Ok(Some(envelope)) => match decoded(envelope@) {
            None => true,
            Some(message) => step_for(state, request_methods, notification_methods, message)
                is Ignored || step_for(state, request_methods, notification_methods, message)
                is Reply,
        },
        _ => false,
    }
}

/// What a round of listening took from the channel, and why it ended.
/// `after` is `before` with at most `budget` more items. Every new item but
/// the last was passed over. A round that ends idle has spent its budget on
/// items that were all passed over; any other round ends with the first
/// item that was not passed over, and `step` is the decision on it.
pub open spec fn took(
    state: EngineState,
    request_methods: Set<Seq<char>>,
    notification_methods: Set<Seq<char>>,
    before: Seq<Result<Option<Envelope>, TransportError>>,
    after: Seq<Result<Option<Envelope>, TransportError>>,
    budget: u64,
    step: Step,
) -> bool {
    &&& before.len() <= after.len() <= before.len() + budget
    &&& after.subrange(0, before.len() as int) == before
    &&& forall|i: int|
        before.len() <= i < after.len() - 1 ==> passed_over(
            state,
            request_methods,
            notification_methods,
            #[trigger] after[i],
        )
    &&& if step is Idle {
        &&& after.len() == before.len() + budget
        &&& after.len() > before.len() ==> passed_over(
            state,
            request_methods,
            notification_methods,
            after.last(),
        )
    } else {
        &&& after.len() > before.len()
        &&& !passed_over(state, request_methods, notification_methods, after.last())
        &&& decided(state, request_methods, notification_methods, after.last(), step)
    }
}

/// The answer that goes out on the spot for what the channel handed over:
/// the method-not-found answer, under the request's id, to a request whose
/// method has no handler. Nothing goes out for anything else.
pub open spec fn answer_to(
    request_methods: Set<Seq<char>>,
    incoming: Result<Option<Envelope>, TransportError>,
) -> Option<EnvelopeView> {
    match incoming {
        Ok(Some(envelope)) => match decoded(envelope@) {
            Some(MessageView::Request { id, method, .. }) => if request_methods.contains(method) {
                None
            } else {
                Some(encoded(method_not_found(id, method)))
            },
            _ => None,
        },
        _ => None,
    }
}

/// The answers that go out on the spot for a run of items that the channel
/// handed over: one for each request whose method has no handler, in the
/// order of the requests.
pub open spec fn answers_to(
    request_methods: Set<Seq<char>>,
    items: Seq<Result<Option<Envelope>, TransportError>>,
) -> Seq<EnvelopeView>
    decreases items.len(),
{
    if items.len() == 0 {
        Seq::empty()
    } else {
        match answer_to(request_methods, items.last()) {
            Some(answer) => answers_to(request_methods, items.drop_last()).push(answer),
            None => answers_to(request_methods, items.drop_last()),
        }
    }
}

/// Only a request for a method without a handler is answered on the spot,
/// with one method-not-found answer under its own id. A response, a
/// notification, a request for a method with a handler, a malformed
/// envelope, the end of the channel and a failure of the channel are
/// answered with nothing.
pub proof fn lemma_only_unknown_methods_are_answered(
    request_methods: Set<Seq<char>>,
    incoming: Result<Option<Envelope>, TransportError>,
)
    ensures
        match incoming {
            Ok(Some(envelope)) => match decoded(envelope@) {
                Some(MessageView::Request { id, method, .. }) => answer_to(
                    request_methods,
                    incoming,
                ) == (if request_methods.contains(method) {
                    None
                } else {
                    Some(encoded(method_not_found(id, method)))
                }),
                Some(MessageView::Response { .. }) => answer_to(request_methods, incoming) is None,
                Some(MessageView::Notification { .. }) => answer_to(request_methods, incoming)
                    is None,
                None => answer_to(request_methods, incoming) is None,
            },
            Ok(None) => answer_to(request_methods, incoming) is None,
            Err(_) => answer_to(request_methods, incoming) is None,
        },
        answers_to(request_methods, seq![incoming]) == match answer_to(request_methods, incoming) {
            Some(answer) => seq![answer],
            None => Seq::<EnvelopeView>::empty(),
        },
{
    lemma_answers_to_one_more(request_methods, Seq::empty(), incoming);
    assert(Seq::empty().push(incoming) =~= seq![incoming]);
    assert(answers_to(request_methods, Seq::empty()) =~= Seq::<EnvelopeView>::empty());
    if let Some(answer) = answer_to(request_methods, incoming) {
        assert(Seq::<EnvelopeView>::empty().push(answer) =~= seq![answer]);
    }
}

/// One more item adds its own answer, where it has one, behind the answers
/// to the items before it.
pub proof fn lemma_answers_to_one_more(
    request_methods: Set<Seq<char>>,
    items: Seq<Result<Option<Envelope>, TransportError>>,
    item: Result<Option<Envelope>, TransportError>,
)
    ensures
        answers_to(request_methods, items.push(item)) == match answer_to(request_methods, item) {
            Some(answer) => answers_to(request_methods, items).push(answer),
            None => answers_to(request_methods, items),
        },
{
    assert(items.push(item).drop_last() =~= items);
    assert(items.push(item).last() == item);
}

/// What is passed over without an answer sends nothing, and so does
/// everything that is not passed over: an answer goes out exactly for the
/// step that asks for a reply.
pub proof fn lemma_answer_goes_with_reply(
    state: EngineState,
    request_methods: Set<Seq<char>>,
    notification_methods: Set<Seq<char>>,
    incoming: Result<Option<Envelope>, TransportError>,
    step: Step,
)
    requires
        decided(state, request_methods, notification_methods, incoming, step),
    ensures
        match step {
            Step::Reply { message } => answer_to(request_methods, incoming) == Some(
                encoded(message@),
            ),
            _ => answer_to(request_methods, incoming) is None,
        },
{
}

/// Handling a message changes the state only where it resolves a request.
pub proof fn lemma_only_resolution_changes_state(
    state: EngineState,
    request_methods: Set<Seq<char>>,
    notification_methods: Set<Seq<char>>,
    message: MessageView,
)
    ensures
        !(step_for(state, request_methods, notification_methods, message) is Resolved)
            ==> state.after_message(message) == state,
        step_for(state, request_methods, notification_methods, message) matches StepView::Resolved {
            id,
            ..
        } ==> state.pending.contains_key(id) && state.after_message(message) == state.resolved(id),
{
    if let MessageView::Response { id: RequestIdView::Number(id), .. } = message {
        if !state.pending.contains_key(id) {
            assert(state.pending.remove(id) =~= state.pending);
        }
    }
}

/// Why a handler could not answer a request.
#[derive(Clone, Debug, PartialEq)]
pub struct HandlerFailure {
    pub message: String,
}

/// The response that carries what a handler returned: its result, or an
/// error object built from its failure.
pub open spec fn response_of(
    id: RequestIdView,
    result: Result<serde_json::Value, HandlerFailure>,
) -> MessageView {
    MessageView::Response {
        id,
        result: match result {
            Ok(value) => Ok(value),
            Err(failure) => Err(
                ErrorObjectView { code: INTERNAL_ERROR, message: failure.message@, data: None },
            ),
        },
    }
}

/// Builds the response that carries what a handler returned.
pub fn response_for(id: RequestId, result: Result<serde_json::Value, HandlerFailure>) -> (message:
    Message)
    ensures
        message@ == response_of(id@, result),
{
    match result {
        Ok(value) => Message::Response { id, result: Ok(value) },
        Err(failure) => Message::Response {
            id,
            result: Err(ErrorObject { code: INTERNAL_ERROR, message: failure.message, data: None }),
        },
    }
}

/// Builds the notification of `method` with `params`.
pub fn notification(method: &str, params: Option<serde_json::Value>) -> (message: Message)
    ensures
        message@ == (MessageView::Notification { method: method@, params }),
{
    Message::Notification { method: method.to_owned(), params }
}

/// What a caller learns of how a send went: a failure of the channel is
/// [`ErrorKind::Transport`].
pub fn delivery(sent: Result<(), TransportError>) -> (delivered: Result<(), ErrorKind>)
    ensures
        delivered == match sent {
            Ok(_) => Ok::<(), ErrorKind>(()),
            Err(_) => Err::<(), ErrorKind>(ErrorKind::Transport),
        },
{
    match sent {
        Ok(_) => Ok(()),
        Err(_) => Err(ErrorKind::Transport),
    }
}

/// Whether `methods` holds `name`.
fn holds_name(methods: &Vec<String>, name: &str) -> (found: bool)
    ensures
        found == names_of(methods@).contains(name@),
{
    let mut i: usize = 0;
    while i < methods.len()
        invariant
            i <= methods@.len(),
            forall|j: int| 0 <= j < i ==> (#[trigger] methods@[j])@ != name@,
        decreases methods@.len() - i,
    {
        if same_text(methods[i].as_str(), name) {
            return true;
        }
        i += 1;
    }
    false
}

/// Collects the pieces of an engine.
pub struct ProtocolBuilder<T: Transport> {
    transport: T,
    request_methods: Vec<String>,
    notification_methods: Vec<String>,
}

impl<T: Transport> ProtocolBuilder<T> {
    /// The channel that the engine will own.
    pub closed spec fn transport(&self) -> T {
        self.transport
    }

    /// The methods for which request handlers are registered.
    pub closed spec fn request_methods(&self) -> Set<Seq<char>> {
        names_of(self.request_methods@)
    }

    /// The methods for which notification handlers are registered.
    pub closed spec fn notification_methods(&self) -> Set<Seq<char>> {
        names_of(self.notification_methods@)
    }

    /// Starts from a channel and no handlers.
    pub fn new(transport: T) -> (builder: ProtocolBuilder<T>)
        ensures
            builder.transport() == transport,
            builder.request_methods() == Set::<Seq<char>>::empty(),
            builder.notification_methods() == Set::<Seq<char>>::empty(),
    {
        let builder = ProtocolBuilder {
            transport,
            request_methods: Vec::new(),
            notification_methods: Vec::new(),
        };
        assert(builder.request_methods() =~= Set::<Seq<char>>::empty());
        assert(builder.notification_methods() =~= Set::<Seq<char>>::empty());
        builder
    }

    /// Registers a request handler for `method`.
    pub fn request_handler(self, method: &str) -> (builder: ProtocolBuilder<T>)
        ensures
            builder.transport() == self.transport(),
            builder.request_methods() == self.request_methods().insert(method@),
            builder.notification_methods() == self.notification_methods(),
    {
        let mut builder = self;
        builder.request_methods.push(method.to_owned());
        proof {
            lemma_names_of_push(self.request_methods@, builder.request_methods@.last());
            assert(builder.request_methods@ =~= self.request_methods@.push(
                builder.request_methods@.last(),
            ));
        }
        builder
    }

    /// Registers a notification handler for `method`.
    pub fn notification_handler(self, method: &str) -> (builder: ProtocolBuilder<T>)
        ensures
            builder.transport() == self.transport(),
            builder.request_methods() == self.request_methods(),
            builder.notification_methods() == self.notification_methods().insert(method@),
    {
        let mut builder = self;
        builder.notification_methods.push(method.to_owned());
        proof {
            lemma_names_of_push(self.notification_methods@, builder.notification_methods@.last());
            assert(builder.notification_methods@ =~= self.notification_methods@.push(
                builder.notification_methods@.last(),
            ));
        }
        builder
    }

    /// Makes the engine: nothing issued, nothing outstanding, the channel
    /// open.
    pub fn build(self) -> (protocol: Protocol<T>)
        ensures
            protocol.engine@ == EngineState::initial(),
            protocol.channel.transport() == self.transport(),
            protocol.channel.unused(),
            protocol.engine.request_methods() == self.request_methods(),
            protocol.engine.notification_methods() == self.notification_methods(),
    {
        Protocol {
            channel: Channel::new(self.transport),
            engine: Engine {
                next_id: 0,
                pending: HashMap::new(),
                closed: false,
                request_methods: self.request_methods,
                notification_methods: self.notification_methods,
            },
        }
    }
}

/// One more method name in the list is one more name in the set.
proof fn lemma_names_of_push(methods: Seq<String>, method: String)
    ensures
        names_of(methods.push(method)) == names_of(methods).insert(method@),
{
    let longer = methods.push(method);
    assert forall|name: Seq<char>| names_of(longer).contains(name) <==> names_of(methods).insert(
        method@,
    ).contains(name) by {
        if names_of(longer).contains(name) {
            let i = choose|i: int| 0 <= i < longer.len() && (#[trigger] longer[i])@ == name;
            if i < methods.len() {
                assert(methods[i]@ == name);
            }
        }
        if names_of(methods).contains(name) {
            let i = choose|i: int| 0 <= i < methods.len() && (#[trigger] methods[i])@ == name;
            assert(longer[i]@ == name);
        }
        if name == method@ {
            assert(longer[methods.len() as int]@ == name);
        }
    }
    assert(names_of(longer) =~= names_of(methods).insert(method@));
}

/// The bookkeeping of a protocol engine: what is outstanding, and which
/// methods have handlers. It decides and never touches a channel.
pub struct Engine {
    next_id: u64,
    pending: HashMap<u64, PendingRequest>,
    closed: bool,
    request_methods: Vec<String>,
    notification_methods: Vec<String>,
}

impl View for Engine {
    type V = EngineState;

    closed spec fn view(&self) -> EngineState {
        EngineState { next_id: self.next_id, pending: self.pending@, closed: self.closed }
    }
}

/// A protocol engine together with the channel that it runs over.
pub struct Protocol<T: Transport> {
    pub channel: Channel<T>,
    pub engine: Engine,
}

impl Engine {
    #[verifier::type_invariant]
    spec fn well_formed(self) -> bool {
        self@.wf()
    }

    /// The methods for which request handlers are registered.
    pub closed spec fn request_methods(&self) -> Set<Seq<char>> {
        names_of(self.request_methods@)
    }

    /// The methods for which notification handlers are registered.
    pub closed spec fn notification_methods(&self) -> Set<Seq<char>> {
        names_of(self.notification_methods@)
    }

    /// Whether the same methods have handlers in `other`.
    pub open spec fn same_handlers(&self, other: &Engine) -> bool {
        &&& self.request_methods() == other.request_methods()
        &&& self.notification_methods() == other.notification_methods()
    }

    /// The id that the next request will get.
    pub fn next_id(&self) -> (id: u64)
        ensures
            id == self@.next_id,
    {
        self.next_id
    }

    /// Whether the channel has ended.
    pub fn is_closed(&self) -> (closed: bool)
        ensures
            closed == self@.closed,
    {
        self.closed
    }

    /// Whether the request `id` is outstanding.
    pub fn is_pending(&self, id: u64) -> (pending: bool)
        ensures
            pending == self@.pending.contains_key(id),
    {
        self.pending.contains_key(&id)
    }

    /// How many requests are outstanding.
    pub fn pending_count(&self) -> (count: usize)
        ensures
            count == self@.pending.len(),
            self@.wf(),
    {
        proof {
            use_type_invariant(self);
        }
        self.pending.len()
    }
}

impl Engine {
    /// Registers a new request and builds its message, without sending it.
    ///
    /// The request gets the next id, which no outstanding request has, and
    /// a deadline counted from `now`. Once the channel has ended nothing is
    /// issued: the call fails with [`ErrorKind::ConnectionClosed`].
    pub fn issue(
        &mut self,
        method: &str,
        params: Option<serde_json::Value>,
        options: RequestOptions,
        now: u64,
    ) -> (issued: Result<(u64, Message), ErrorKind>)
        requires
            old(self)@.closed || old(self)@.next_id < u64::MAX,
        ensures
            final(self).same_handlers(old(self)),
            final(self)@.wf(),
            old(self)@.closed ==> issued == Err::<(u64, Message), ErrorKind>(
                ErrorKind::ConnectionClosed,
            ) && final(self)@ == old(self)@,
            !old(self)@.closed ==> final(self)@ == old(self)@.issued(options, now),
            !old(self)@.closed ==> !old(self)@.pending.contains_key(old(self)@.next_id),
            !old(self)@.closed ==> (issued matches Ok((id, message)) && id == old(self)@.next_id
                && message@ == (MessageView::Request {
                id: RequestIdView::Number(id),
                method: method@,
                params,
            })),
    {
        proof {
            use_type_invariant(&*self);
        }
        if self.closed {
            return Err(ErrorKind::ConnectionClosed);
        }
        let id = self.next_id;
        let deadline = match options.timeout {
            Some(timeout) => Some(
                if timeout > u64::MAX - now {
                    u64::MAX
                } else {
                    now + timeout
                },
            ),
            None => None,
        };
        self.next_id = id + 1;
        let mut pending: HashMap<u64, PendingRequest> = HashMap::new();
        std::mem::swap(&mut self.pending, &mut pending);
        pending.insert(id, PendingRequest { id, deadline });
        self.pending = pending;
        Ok((id, Message::Request { id: RequestId::Number(id), method: method.to_owned(), params }))
    }

    /// Takes note of how the sending of the request `id` went. A request
    /// that could not be sent is outstanding no more, and the failure is
    /// [`ErrorKind::Transport`].
    pub fn settle(&mut self, id: u64, sent: Result<(), TransportError>) -> (settled: Result<
        u64,
        ErrorKind,
    >)
        ensures
            final(self).same_handlers(old(self)),
            final(self)@.wf(),
            match sent {
                Ok(_) => settled == Ok::<u64, ErrorKind>(id) && final(self)@ == old(self)@,
                Err(_) => settled == Err::<u64, ErrorKind>(ErrorKind::Transport) && final(self)@
                    == old(self)@.resolved(id),
            },
    {
        proof {
            use_type_invariant(&*self);
        }
        match sent {
            Ok(_) => Ok(id),
            Err(_) => {
                let mut pending: HashMap<u64, PendingRequest> = HashMap::new();
                std::mem::swap(&mut self.pending, &mut pending);
                pending.remove(&id);
                assert(old(self)@.closed ==> pending@ =~= Map::<u64, PendingRequest>::empty());
                self.pending = pending;
                Err(ErrorKind::Transport)
            },
        }
    }

    /// Decides what to do with one inbound message.
    ///
    /// A response ends the outstanding request that its id names and hands
    /// out how it ended; a response that names none is dropped and changes
    /// nothing. A request goes to the handler registered for its method, or
    /// is answered with a method-not-found error. A notification goes to
    /// the handler registered for its method, or is dropped.
    pub fn handle_message(&mut self, message: Message) -> (step: Step)
        ensures
            final(self).same_handlers(old(self)),
            final(self)@.wf(),
            step@ == step_for(
                old(self)@,
                old(self).request_methods(),
                old(self).notification_methods(),
                message@,
            ),
            final(self)@ == old(self)@.after_message(message@),
    {
        proof {
            use_type_invariant(&*self);
        }
        match message {
            Message::Response { id, result } => match id {
                RequestId::Number(number) => {
                    if self.pending.contains_key(&number) {
                        let mut pending: HashMap<u64, PendingRequest> = HashMap::new();
                        std::mem::swap(&mut self.pending, &mut pending);
                        pending.remove(&number);
                        self.pending = pending;
                        let outcome = match result {
                            Ok(value) => Outcome::Success(value),
                            Err(error) => Outcome::Failure(error),
                        };
                        Step::Resolved { id: number, outcome }
                    } else {
                        assert(old(self)@.pending.remove(number) =~= old(self)@.pending);
                        Step::Ignored(Ignored::StaleResponse)
                    }
                },
                RequestId::Text(_) => Step::Ignored(Ignored::StaleResponse),
            },
            Message::Request { id, method, params } => {
                if holds_name(&self.request_methods, method.as_str()) {
                    Step::Invoke { id, method, params }
                } else {
                    let mut text = String::from_str("Method not found: ");
                    text.append(method.as_str());
                    Step::Reply {
                        message: Message::Response {
                            id,
                            result: Err(
                                ErrorObject { code: METHOD_NOT_FOUND, message: text, data: None },
                            ),
                        },
                    }
                }
            },
            Message::Notification { method, params } => {
                if holds_name(&self.notification_methods, method.as_str()) {
                    Step::Deliver { method, params }
                } else {
                    Step::Ignored(Ignored::UnknownNotification)
                }
            },
        }
    }

    /// Takes note that the channel has ended. Every outstanding request is
    /// resolved: the ids of all of them are handed out, each once, for the
    /// caller to end with [`Outcome::Closed`]. From now on nothing can be
    /// issued.
    pub fn handle_closure(&mut self) -> (resolved: Vec<u64>)
        ensures
            final(self).same_handlers(old(self)),
            final(self)@.wf(),
            final(self)@ == old(self)@.closed_down(),
            resolved@.no_duplicates(),
            resolved@.to_set() == old(self)@.pending.dom(),
    {
        proof {
            use_type_invariant(&*self);
        }
        let mut pending: HashMap<u64, PendingRequest> = HashMap::new();
        std::mem::swap(&mut self.pending, &mut pending);
        self.closed = true;
        let mut resolved: Vec<u64> = Vec::new();
        let keys = pending.keys();
        let ghost all = keys;
        for id in it: keys
            invariant
                resolved@.len() == it.index(),
                forall|j: int| 0 <= j < resolved@.len() ==> resolved@[j] == *it.seq()[j],
                it.seq() == all.remaining(),
        {
            resolved.push(*id);
        }
        assert(resolved@ =~= all.remaining().unref());
        resolved
    }

    /// Ends the request `id` with a timeout if it is outstanding and its
    /// deadline has come by `now`; does nothing otherwise. A request that a
    /// response or the end of the channel has already resolved is not
    /// outstanding, so nothing happens to it.
    pub fn expire(&mut self, id: u64, now: u64) -> (expired: Option<Outcome>)
        ensures
            final(self).same_handlers(old(self)),
            final(self)@.wf(),
            old(self)@.is_due(id, now) ==> expired == Some(Outcome::TimedOut) && final(self)@
                == old(self)@.resolved(id),
            !old(self)@.is_due(id, now) ==> expired is None && final(self)@ == old(self)@,
    {
        proof {
            use_type_invariant(&*self);
        }
        let due = match self.pending.get(&id) {
            Some(entry) => match entry.deadline {
                Some(deadline) => deadline <= now,
                None => false,
            },
            None => false,
        };
        if due {
            let mut pending: HashMap<u64, PendingRequest> = HashMap::new();
            std::mem::swap(&mut self.pending, &mut pending);
            pending.remove(&id);
            self.pending = pending;
            Some(Outcome::TimedOut)
        } else {
            None
        }
    }

    /// Decides what to do with what the channel handed over: see
    /// [`decided`] for the step and [`state_after`] for the state.
    pub fn handle_incoming(&mut self, incoming: Result<Option<Envelope>, TransportError>) -> (step:
        Step)
        ensures
            final(self).same_handlers(old(self)),
            final(self)@.wf(),
            decided(
                old(self)@,
                old(self).request_methods(),
                old(self).notification_methods(),
                incoming,
                step,
            ),
            final(self)@ == state_after(old(self)@, incoming),
    {
        proof {
            use_type_invariant(&*self);
        }
        match incoming {
            Err(error) => Step::Failed { error },
            Ok(None) => Step::Closed { resolved: self.handle_closure() },
            Ok(Some(envelope)) => match decode(envelope) {
                Err(_) => Step::Ignored(Ignored::Malformed),
                Ok(message) => self.handle_message(message),
            },
        }
    }

}

impl<T: Transport> Protocol<T> {
    /// Starts collecting the pieces of an engine over `transport`.
    pub fn builder(transport: T) -> (builder: ProtocolBuilder<T>)
        ensures
            builder.transport() == transport,
            builder.request_methods() == Set::<Seq<char>>::empty(),
            builder.notification_methods() == Set::<Seq<char>>::empty(),
    {
        ProtocolBuilder::new(transport)
    }

    /// What holds of a call of `request` that led from `before` to `self`
    /// and returned `issued`.
    ///
    /// Once the channel has ended the call fails with
    /// [`ErrorKind::ConnectionClosed`] and changes nothing: nothing is
    /// sent. Otherwise exactly one envelope is handed to the channel, the
    /// request under the next id, and the call succeeds exactly if the
    /// channel accepts it. On success the request is outstanding under that
    /// id, which no outstanding request had. On failure the kind is
    /// [`ErrorKind::Transport`] and no entry is left behind: the
    /// outstanding requests are those from before the call.
    pub open spec fn requested(
        &self,
        before: &Protocol<T>,
        method: Seq<char>,
        params: Option<serde_json::Value>,
        options: RequestOptions,
        now: u64,
        issued: Result<u64, ErrorKind>,
    ) -> bool {
        let id = before.engine@.next_id;
        let request = MessageView::Request { id: RequestIdView::Number(id), method, params };
        &&& self.engine.same_handlers(&before.engine)
        &&& self.engine@.wf()
        &&& self.channel.received() == before.channel.received()
        &&& if before.engine@.closed {
            &&& issued == Err::<u64, ErrorKind>(ErrorKind::ConnectionClosed)
            &&& self.engine@ == before.engine@
            &&& self.channel == before.channel
        } else {
            &&& self.channel.sent() == before.channel.sent().push(encoded(request))
            &&& self.channel.accepted() == before.channel.accepted().push(issued is Ok)
            &&& match issued {
                Ok(given) => {
                    &&& given == id
                    &&& !before.engine@.pending.contains_key(id)
                    &&& self.engine@ == before.engine@.issued(options, now)
                },
                Err(kind) => {
                    &&& kind == ErrorKind::Transport
                    &&& self.engine@ == before.engine@.issued(options, now).resolved(id)
                    &&& self.engine@.pending == before.engine@.pending
                },
            }
        }
    }

    /// Issues a request: registers it, sends it, and returns its id. The
    /// request stays outstanding until a response, its deadline or the end
    /// of the channel resolves it. See [`Protocol::requested`].
    pub fn request(
        &mut self,
        method: &str,
        params: Option<serde_json::Value>,
        options: RequestOptions,
        now: u64,
    ) -> (issued: Result<u64, ErrorKind>)
        requires
            old(self).engine@.closed || old(self).engine@.next_id < u64::MAX,
        ensures
            final(self).requested(old(self), method@, params, options, now, issued),
    {
        match self.engine.issue(method, params, options, now) {
            Err(kind) => Err(kind),
            Ok((id, message)) => {
                let envelope = encode(message);
                let sent = self.channel.send(&envelope);
                let settled = self.engine.settle(id, sent);
                proof {
                    assert(old(self).engine@.pending.insert(
                        id,
                        PendingRequest { id, deadline: deadline_of(options, now) },
                    ).remove(id) =~= old(self).engine@.pending);
                }
                settled
            },
        }
    }

    /// Sends the [`notification`] of `method` with `params`. No request
    /// becomes outstanding by it. The result is the [`delivery`] of what the
    /// channel returned.
    pub fn notify(&mut self, method: &str, params: Option<serde_json::Value>) -> (sent: Result<
        (),
        ErrorKind,
    >)
        ensures
            final(self).engine == old(self).engine,
            final(self).channel.sent() == old(self).channel.sent().push(
                encoded(MessageView::Notification { method: method@, params }),
            ),
            final(self).channel.accepted() == old(self).channel.accepted().push(sent is Ok),
            final(self).channel.received() == old(self).channel.received(),
            sent matches Err(kind) ==> kind == ErrorKind::Transport,
    {
        let envelope = encode(notification(method, params));
        delivery(self.channel.send(&envelope))
    }

    /// Sends back what a handler returned for the request `id`: the
    /// message that [`response_for`] builds. The result is the [`delivery`]
    /// of what the channel returned.
    pub fn respond(
        &mut self,
        id: RequestId,
        result: Result<serde_json::Value, HandlerFailure>,
    ) -> (sent: Result<(), ErrorKind>)
        ensures
            final(self).engine == old(self).engine,
            final(self).channel.sent() == old(self).channel.sent().push(
                encoded(response_of(id@, result)),
            ),
            final(self).channel.accepted() == old(self).channel.accepted().push(sent is Ok),
            final(self).channel.received() == old(self).channel.received(),
            sent matches Err(kind) ==> kind == ErrorKind::Transport,
    {
        let envelope = encode(response_for(id, result));
        delivery(self.channel.send(&envelope))
    }

    /// What holds of a round of listening that led from `before` to `self`
    /// and ended with `step`: the registered methods are as they were; the
    /// step alone accounts for the change of state ([`attended`]); the
    /// step is the decision on the last item that the channel handed over,
    /// and every item before it was passed over ([`took`]); and what was
    /// handed to the channel for sending is one method-not-found answer for
    /// each request taken in this round whose method has no handler, in
    /// their order, and nothing else ([`answers_to`]).
    pub open spec fn listened(&self, before: &Protocol<T>, budget: u64, step: Step) -> bool {
        let taken = self.channel.received().skip(before.channel.received().len() as int);
        let answers = answers_to(before.engine.request_methods(), taken);
        &&& self.engine.same_handlers(&before.engine)
        &&& self.engine@.wf()
        &&& budget == 0 ==> self.channel == before.channel
        &&& attended(
            before.engine@,
            before.engine.request_methods(),
            before.engine.notification_methods(),
            step,
            self.engine@,
        )
        &&& took(
            before.engine@,
            before.engine.request_methods(),
            before.engine.notification_methods(),
            before.channel.received(),
            self.channel.received(),
            budget,
            step,
        )
        &&& !(step is Idle) ==> self.engine@ == state_after(
            before.engine@,
            self.channel.received().last(),
        )
        &&& self.channel.sent() == before.channel.sent() + answers
        &&& self.channel.accepted().len() == before.channel.accepted().len() + answers.len()
        &&& self.channel.accepted().subrange(0, before.channel.accepted().len() as int)
            == before.channel.accepted()
    }

    /// Receives and handles inbound messages until one needs the caller's
    /// attention, the channel ends or fails, or `budget` messages were
    /// handled without any of these.
    ///
    /// Messages that are dropped, and requests for unknown methods, which
    /// are answered on the spot, need no attention: the loop goes on after
    /// them, and none of them changes the engine's state. A failure to send
    /// such an answer does not stop the loop either.
    pub fn listen(&mut self, budget: u64) -> (step: Step)
        ensures
            final(self).listened(old(self), budget, step),
    {
        let ghost start = self.channel.received().len() as int;
        let ghost methods = self.engine.request_methods();
        proof {
            use_type_invariant(&self.engine);
            assert(self.channel.received().subrange(0, start) =~= self.channel.received());
            assert(self.channel.received().skip(start) =~= Seq::empty());
            assert(self.channel.sent() + answers_to(methods, self.channel.received().skip(start))
                =~= self.channel.sent());
            assert(self.channel.accepted().subrange(0, self.channel.accepted().len() as int)
                =~= self.channel.accepted());
        }
        let mut left: u64 = budget;
        while left > 0
            invariant
                left <= budget,
                start == old(self).channel.received().len(),
                methods == old(self).engine.request_methods(),
                self.engine.same_handlers(&old(self).engine),
                left == budget ==> self.channel == old(self).channel,
                self.engine@ == old(self).engine@,
                self.engine@.wf(),
                self.channel.received().len() == start + (budget - left),
                self.channel.received().subrange(0, start) == old(self).channel.received(),
                forall|i: int|
                    start <= i < self.channel.received().len() ==> passed_over(
                        old(self).engine@,
                        old(self).engine.request_methods(),
                        old(self).engine.notification_methods(),
                        #[trigger] self.channel.received()[i],
                    ),
                self.channel.sent() == old(self).channel.sent() + answers_to(
                    methods,
                    self.channel.received().skip(start),
                ),
                self.channel.accepted().len() == old(self).channel.accepted().len() + answers_to(
                    methods,
                    self.channel.received().skip(start),
                ).len(),
                self.channel.accepted().subrange(0, old(self).channel.accepted().len() as int)
                    == old(self).channel.accepted(),
            decreases left,
        {
            let ghost taken_before = self.channel.received();
            let ghost sent_before = self.channel.sent();
            let ghost accepted_before = self.channel.accepted();
            let incoming = self.channel.receive();
            let ghost received = incoming;
            let step = self.engine.handle_incoming(incoming);
            proof {
                assert(self.channel.received().subrange(0, start) =~= taken_before.subrange(
                    0,
                    start,
                ));
                assert(self.channel.received().skip(start) =~= taken_before.skip(start).push(
                    received,
                ));
                lemma_answers_to_one_more(methods, taken_before.skip(start), received);
                lemma_answer_goes_with_reply(
                    old(self).engine@,
                    methods,
                    old(self).engine.notification_methods(),
                    received,
                    step,
                );
                if let Ok(Some(envelope)) = received {
                    if let Some(message) = decoded(envelope@) {
                        lemma_only_resolution_changes_state(
                            old(self).engine@,
                            old(self).engine.request_methods(),
                            old(self).engine.notification_methods(),
                            message,
                        );
                    }
                }
            }
            match step {
                Step::Ignored(_) => {},
                Step::Reply { message } => {
                    let envelope = encode(message);
                    let _ = self.channel.send(&envelope);
                    proof {
                        let answers = answers_to(methods, taken_before.skip(start));
                        assert(self.channel.sent() =~= old(self).channel.sent() + answers.push(
                            envelope@,
                        ));
                        assert(self.channel.accepted().subrange(
                            0,
                            old(self).channel.accepted().len() as int,
                        ) =~= accepted_before.subrange(
                            0,
                            old(self).channel.accepted().len() as int,
                        ));
                    }
                },
                other => {
                    return other;
                },
            }
            left = left - 1;
        }
        Step::Idle
    }
}

/// The id that a request is issued under is that of no outstanding
/// request, and issuing keeps the state well formed: the new request is
/// outstanding under its own id, with its deadline, and every other
/// outstanding request is as it was.
pub proof fn lemma_issued_id_is_fresh(state: EngineState, options: RequestOptions, now: u64)
    requires
        state.wf(),
        state.can_issue(),
    ensures
        !state.pending.contains_key(state.next_id),
        forall|id: u64| #[trigger] state.pending.contains_key(id) ==> id != state.next_id,
        state.issued(options, now).wf(),
        state.issued(options, now).pending.contains_key(state.next_id),
        state.issued(options, now).pending[state.next_id] == (PendingRequest {
            id: state.next_id,
            deadline: deadline_of(options, now),
        }),
        forall|id: u64|
            state.pending.contains_key(id) ==> #[trigger] state.issued(
                options,
                now,
            ).pending.contains_key(id) && state.issued(options, now).pending[id]
                == state.pending[id],
{
    if state.pending.contains_key(state.next_id) {
        assert(state.next_id < state.next_id);
    }
}

/// Two requests issued one after the other get different ids, whatever was
/// resolved in between.
pub proof fn lemma_issued_ids_differ(
    state: EngineState,
    options: RequestOptions,
    now: u64,
    resolved_between: u64,
)
    requires
        state.wf(),
        state.can_issue(),
    ensures
        state.issued(options, now).resolved(resolved_between).next_id != state.next_id,
        state.issued(options, now).resolved(resolved_between).wf(),
{
    lemma_issued_id_is_fresh(state, options, now);
    lemma_resolved_request_is_gone(state.issued(options, now), resolved_between);
}

/// A request that has ended is outstanding no more, whatever ended it, and
/// ending it touches no other request.
pub proof fn lemma_resolved_request_is_gone(state: EngineState, id: u64)
    requires
        state.wf(),
    ensures
        state.resolved(id).wf(),
        !state.resolved(id).pending.contains_key(id),
        forall|other: u64|
            other != id ==> (#[trigger] state.resolved(id).pending.contains_key(other)
                == state.pending.contains_key(other)) && (state.pending.contains_key(other)
                ==> state.resolved(id).pending[other] == state.pending[other]),
        state.resolved(id).resolved(id) == state.resolved(id),
{
    assert(state.resolved(id).pending.remove(id) =~= state.resolved(id).pending);
    if state.closed {
        assert(state.resolved(id).pending =~= Map::<u64, PendingRequest>::empty());
    }
}

/// A response whose id names no outstanding request is dropped: it yields
/// no resolution and leaves the state, and so every outstanding request, as
/// it was.
pub proof fn lemma_stale_response_changes_nothing(
    state: EngineState,
    request_methods: Set<Seq<char>>,
    notification_methods: Set<Seq<char>>,
    id: RequestIdView,
    result: Result<serde_json::Value, ErrorObjectView>,
)
    requires
        id matches RequestIdView::Number(number) ==> !state.pending.contains_key(number),
    ensures
        step_for(
            state,
            request_methods,
            notification_methods,
            MessageView::Response { id, result },
        ) == StepView::Ignored(Ignored::StaleResponse),
        state.after_message(MessageView::Response { id, result }) == state,
{
    lemma_only_resolution_changes_state(
        state,
        request_methods,
        notification_methods,
        MessageView::Response { id, result },
    );
}

/// A request is resolved at most once: after it has ended, by a response,
/// by its deadline or by the end of the channel, a response that carries
/// its id is dropped and changes nothing.
pub proof fn lemma_resolved_at_most_once(
    state: EngineState,
    request_methods: Set<Seq<char>>,
    notification_methods: Set<Seq<char>>,
    id: u64,
    result: Result<serde_json::Value, ErrorObjectView>,
)
    requires
        state.wf(),
    ensures
        step_for(
            state.resolved(id),
            request_methods,
            notification_methods,
            MessageView::Response { id: RequestIdView::Number(id), result },
        ) == StepView::Ignored(Ignored::StaleResponse),
        state.resolved(id).after_message(
            MessageView::Response { id: RequestIdView::Number(id), result },
        ) == state.resolved(id),
        step_for(
            state.closed_down(),
            request_methods,
            notification_methods,
            MessageView::Response { id: RequestIdView::Number(id), result },
        ) == StepView::Ignored(Ignored::StaleResponse),
        !state.resolved(id).is_due(id, u64::MAX),
{
    lemma_resolved_request_is_gone(state, id);
    lemma_stale_response_changes_nothing(
        state.resolved(id),
        request_methods,
        notification_methods,
        RequestIdView::Number(id),
        result,
    );
}

/// Outstanding requests are resolved independently of each other: ending
/// one leaves the other outstanding with its own entry, the response to the
/// other still resolves it with its own content, and the order in which the
/// two end makes no difference to the state.
pub proof fn lemma_resolutions_are_independent(
    state: EngineState,
    request_methods: Set<Seq<char>>,
    notification_methods: Set<Seq<char>>,
    first: u64,
    second: u64,
    result: Result<serde_json::Value, ErrorObjectView>,
)
    requires
        state.wf(),
        first != second,
        state.pending.contains_key(second),
    ensures
        state.resolved(first).pending.contains_key(second),
        state.resolved(first).pending[second] == state.pending[second],
        step_for(
            state.resolved(first),
            request_methods,
            notification_methods,
            MessageView::Response { id: RequestIdView::Number(second), result },
        ) == (StepView::Resolved { id: second, outcome: outcome_of(result) }),
        state.resolved(first).resolved(second) == state.resolved(second).resolved(first),
{
    assert(state.pending.remove(first).remove(second) =~= state.pending.remove(second).remove(
        first,
    ));
}

/// Once the channel has ended nothing is outstanding, nothing can be
/// issued, and the state stays as it is under every further message.
pub proof fn lemma_nothing_after_closure(state: EngineState, message: MessageView)
    requires
        state.wf(),
    ensures
        state.closed_down().wf(),
        state.closed_down().closed,
        state.closed_down().pending.dom() == Set::<u64>::empty(),
        !state.closed_down().can_issue(),
        state.closed_down().after_message(message) == state.closed_down(),
        state.closed_down().closed_down() == state.closed_down(),
{
    let down = state.closed_down();
    assert(down.pending.dom() =~= Set::<u64>::empty());
    if let MessageView::Response { id: RequestIdView::Number(id), .. } = message {
        assert(down.pending.remove(id) =~= down.pending);
    }
}

/// A request with a timeout is due from its deadline on and not before:
/// issued at `issued_at` with the timeout `timeout`, it is due at `now`
/// exactly if `now` is `timeout` or more after `issued_at`. After it timed
/// out, a response that carries its id is dropped, and no other request
/// was touched.
pub proof fn lemma_timeout_comes_at_the_deadline(
    state: EngineState,
    timeout: u64,
    issued_at: u64,
    now: u64,
)
    requires
        state.wf(),
        state.can_issue(),
        issued_at + timeout <= u64::MAX,
    ensures
        state.issued(RequestOptions { timeout: Some(timeout) }, issued_at).is_due(
            state.next_id,
            now,
        ) <==> issued_at + timeout <= now,
        !state.issued(RequestOptions { timeout: None }, issued_at).is_due(state.next_id, now),
        state.issued(RequestOptions { timeout: Some(timeout) }, issued_at).resolved(
            state.next_id,
        ) == (EngineState { next_id: (state.next_id + 1) as u64, ..state }),
{
    let options = RequestOptions { timeout: Some(timeout) };
    lemma_issued_id_is_fresh(state, options, issued_at);
    lemma_issued_id_is_fresh(state, RequestOptions { timeout: None }, issued_at);
    assert(state.issued(options, issued_at).pending.remove(state.next_id) =~= state.pending);
}

/// Every response resolves its own request and no other: whatever else is
/// outstanding, and in whatever order the responses come, the response that
/// carries the id of an outstanding request ends that request with its own
/// content and leaves every other outstanding request as it was.
pub proof fn lemma_response_resolves_its_own_request(
    state: EngineState,
    request_methods: Set<Seq<char>>,
    notification_methods: Set<Seq<char>>,
    id: u64,
    result: Result<serde_json::Value, ErrorObjectView>,
)
    requires
        state.wf(),
        state.pending.contains_key(id),
    ensures
        step_for(
            state,
            request_methods,
            notification_methods,
            MessageView::Response { id: RequestIdView::Number(id), result },
        ) == (StepView::Resolved { id, outcome: outcome_of(result) }),
        state.after_message(MessageView::Response { id: RequestIdView::Number(id), result })
            == state.resolved(id),
        state.resolved(id).wf(),
        !state.resolved(id).pending.contains_key(id),
        forall|other: u64|
            other != id ==> (#[trigger] state.resolved(id).pending.contains_key(other)
                == state.pending.contains_key(other)) && (state.pending.contains_key(other)
                ==> state.resolved(id).pending[other] == state.pending[other]),
{
    lemma_resolved_request_is_gone(state, id);
}

/// A request is due exactly from its deadline on, whatever its timeout,
/// and a request without a timeout is never due. With a timeout above zero
/// it is not yet due when it is issued, unless it is issued at the very end
/// of time, where the deadline cannot lie later. After a request timed out,
/// the outstanding requests are those from before it was issued.
pub proof fn lemma_issued_request_is_due_from_its_deadline(
    state: EngineState,
    options: RequestOptions,
    issued_at: u64,
    now: u64,
)
    requires
        state.wf(),
        state.can_issue(),
    ensures
        state.issued(options, issued_at).is_due(state.next_id, now) <==> (deadline_of(
            options,
            issued_at,
        ) matches Some(deadline) && deadline <= now),
        options.timeout matches Some(timeout) && timeout > 0 && issued_at < u64::MAX
            ==> !state.issued(options, issued_at).is_due(state.next_id, issued_at),
        state.issued(options, issued_at).resolved(state.next_id).pending == state.pending,
        !state.issued(options, issued_at).resolved(state.next_id).is_due(state.next_id, now),
{
    lemma_issued_id_is_fresh(state, options, issued_at);
    assert(state.issued(options, issued_at).pending.remove(state.next_id) =~= state.pending);
}

} // verus!
