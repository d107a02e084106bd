//! The control protocol of the engine: newline-delimited JSON commands with
//! request ids, the table of requests that still await a reply, and the
//! reader that sorts inbound lines into events and replies.
//!
//! The client holds no stream. It decides what is written and what each
//! inbound line means; the caller writes the lines, waits, and keeps the
//! completion channel of each request id.

use std::collections::HashSet;
use vstd::prelude::*;
use vstd::string::*;
use crate::json::{
    copy_of,
    is_null,
    json_is_null,
    json_member,
    json_parsed,
    json_quoted,
    json_text,
    json_u64,
    lemma_quoted_has_no_newline,
    member,
    parse,
    quote,
    text_of,
    u64_of,
};
use crate::text::{decimal, decimal_string, join2, text_eq};

verus! {

broadcast use vstd::std_specs::hash::group_hash_axioms;

/// A reply of the engine to one command.
#[derive(Debug)]
pub struct MpvResponse {
    pub error: String,
    pub data: Option<serde_json::Value>,
    pub request_id: Option<u64>,
}

/// What a reply holds, as mathematical values.
pub struct ReplyModel {
    pub error: Seq<char>,
    pub data: Option<serde_json::Value>,
    pub request_id: Option<u64>,
}

impl View for MpvResponse {
    type V = ReplyModel;

    open spec fn view(&self) -> ReplyModel {
        ReplyModel { error: self.error@, data: self.data, request_id: self.request_id }
    }
}

/// An unsolicited message of the engine.
#[derive(Debug)]
pub struct MpvEvent {
    pub event: String,
    pub name: Option<String>,
    pub data: Option<serde_json::Value>,
    pub id: Option<u64>,
}

/// What an event holds, as mathematical values.
pub struct EventModel {
    pub event: Seq<char>,
    pub name: Option<Seq<char>>,
    pub data: Option<serde_json::Value>,
    pub id: Option<u64>,
}

/// The characters of an optional string.
pub open spec fn optional_text(text: Option<String>) -> Option<Seq<char>> {
    match text {
        Some(t) => Some(t@),
        None => None,
    }
}

impl View for MpvEvent {
    type V = EventModel;

    open spec fn view(&self) -> EventModel {
        EventModel {
            event: self.event@,
            name: optional_text(self.name),
            data: self.data,
            id: self.id,
        }
    }
}

/// The change of one observed property, as a `property-change` event
/// reports it.
#[derive(Debug)]
pub struct MpvPropertyChange {
    pub name: String,
    pub data: Option<serde_json::Value>,
}

/// What a property change holds, as mathematical values.
pub struct ChangeModel {
    pub name: Seq<char>,
    pub data: Option<serde_json::Value>,
}

impl View for MpvPropertyChange {
    type V = ChangeModel;

    open spec fn view(&self) -> ChangeModel {
        ChangeModel { name: self.name@, data: self.data }
    }
}

/// The change that an event reports: the name and the new value of the
/// property, where the event is a `property-change` that names one.
pub open spec fn change_in(event: EventModel) -> Option<ChangeModel> {
    if event.event == "property-change"@ && event.name is Some {
        Some(ChangeModel { name: event.name.unwrap(), data: event.data })
    } else {
        None
    }
}

impl MpvEvent {
    /// The change that the event reports, if it reports one.
    pub fn property_change(&self) -> (out: Option<MpvPropertyChange>)
        ensures
            match out {
                Some(change) => change_in(self@) == Some(change@),
                None => change_in(self@) is None,
            },
    {
        if !text_eq(self.event.as_str(), "property-change") {
            return None;
        }
        match &self.name {
            Some(name) => {
                let data = match &self.data {
                    Some(value) => Some(copy_of(value)),
                    None => None,
                };
                Some(MpvPropertyChange { name: name.clone(), data })
            },
            None => None,
        }
    }
}

/// A command on its way out: the request id it was given and the line to
/// write, newline included.
#[derive(Debug)]
pub struct Request {
    pub request_id: u64,
    pub line: String,
}

/// How the round trip of one command ended on the caller's side.
#[derive(Debug)]
pub enum Delivery {
    /// Writing the line failed, with the reason.
    WriteFailed(String),
    /// Flushing the stream failed, with the reason.
    FlushFailed(String),
    /// No reply came within the timeout.
    TimedOut,
    /// The reply came.
    Replied(MpvResponse),
}

/// An inbound line, sorted.
#[derive(Debug)]
pub enum Inbound {
    Event(MpvEvent),
    Reply(MpvResponse),
    Dropped,
}

pub enum InboundModel {
    Event(EventModel),
    Reply(ReplyModel),
    Dropped,
}

impl View for Inbound {
    type V = InboundModel;

    open spec fn view(&self) -> InboundModel {
        match self {
            Inbound::Event(e) => InboundModel::Event(e@),
            Inbound::Reply(r) => InboundModel::Reply(r@),
            Inbound::Dropped => InboundModel::Dropped,
        }
    }
}

/// What the reader does with one inbound line.
#[derive(Debug)]
pub enum ReaderAction {
    /// Hand the event to the sink.
    Notify(MpvEvent),
    /// Complete the request with this id, once, with this reply.
    Fulfil(u64, MpvResponse),
    /// Nothing: the line is dropped.
    Nothing,
}

pub enum ActionModel {
    Notify(EventModel),
    Fulfil(u64, ReplyModel),
    Nothing,
}

impl View for ReaderAction {
    type V = ActionModel;

    open spec fn view(&self) -> ActionModel {
        match self {
            ReaderAction::Notify(e) => ActionModel::Notify(e@),
            ReaderAction::Fulfil(id, r) => ActionModel::Fulfil(*id, r@),
            ReaderAction::Nothing => ActionModel::Nothing,
        }
    }
}

/// The characters of each argument of a command.
pub open spec fn texts(args: Seq<String>) -> Seq<Seq<char>> {
    Seq::new(args.len(), |i: int| args[i]@)
}

/// The arguments as JSON string literals, separated by commas.
pub open spec fn quoted_list(args: Seq<Seq<char>>) -> Seq<char>
    decreases args.len(),
{
    if args.len() == 0 {
        Seq::empty()
    } else if args.len() == 1 {
        json_quoted(args[0])
    } else {
        quoted_list(args.drop_last()) + ","@ + json_quoted(args.last())
    }
}

/// The line that carries a command: a JSON object with the arguments under
/// `command` and the id under `request_id`, and a newline.
pub open spec fn command_line(args: Seq<Seq<char>>, id: u64) -> Seq<char> {
    "{\"command\":["@ + quoted_list(args) + "],\"request_id\":"@ + decimal(id as nat) + "}\n"@
}

/// A member of an object that is there and is not `null`.
pub open spec fn present(value: serde_json::Value, key: Seq<char>) -> Option<serde_json::Value> {
    match json_member(value, key) {
        Some(found) => if json_is_null(found) {
            None
        } else {
            Some(found)
        },
        None => None,
    }
}

/// Whether an optional member, where it is present, is a string.
pub open spec fn text_or_absent(field: Option<serde_json::Value>) -> bool {
    field is Some ==> json_text(field.unwrap()) is Some
}

/// Whether an optional member, where it is present, is a number that fits
/// `u64`.
pub open spec fn u64_or_absent(field: Option<serde_json::Value>) -> bool {
    field is Some ==> json_u64(field.unwrap()) is Some
}

/// The text of an optional string member.
pub open spec fn text_in(field: Option<serde_json::Value>) -> Option<Seq<char>> {
    match field {
        Some(v) => json_text(v),
        None => None,
    }
}

/// The number of an optional numeric member.
pub open spec fn u64_in(field: Option<serde_json::Value>) -> Option<u64> {
    match field {
        Some(v) => json_u64(v),
        None => None,
    }
}

/// The event that a JSON value is, if it has the shape of one: a string
/// under `event`; under `name` a string, `null` or nothing; under `id` a
/// number that fits `u64`, `null` or nothing; under `data` anything.
pub open spec fn event_of(value: serde_json::Value) -> Option<EventModel> {
    let kind = text_in(json_member(value, "event"@));
    let name = present(value, "name"@);
    let id = present(value, "id"@);
    if kind is Some && text_or_absent(name) && u64_or_absent(id) {
        Some(
            EventModel {
                event: kind.unwrap(),
                name: text_in(name),
                data: present(value, "data"@),
                id: u64_in(id),
            },
        )
    } else {
        None
    }
}

/// The reply that a JSON value is, if it has the shape of one: a string
/// under `error`; under `request_id` a number that fits `u64`, `null` or
/// nothing; under `data` anything.
pub open spec fn reply_of(value: serde_json::Value) -> Option<ReplyModel> {
    let error = text_in(json_member(value, "error"@));
    let id = present(value, "request_id"@);
    if error is Some && u64_or_absent(id) {
        Some(
            ReplyModel {
                error: error.unwrap(),
                data: present(value, "data"@),
                request_id: u64_in(id),
            },
        )
    } else {
        None
    }
}

/// What an inbound line is: a `property-change` event, else a reply, else
/// nothing. Empty lines, text that is no JSON and values of neither shape
/// are dropped, and so are events of every other kind unless they also have
/// the shape of a reply.
pub open spec fn inbound_of(line: Seq<char>) -> InboundModel {
    if line.len() == 0 {
        InboundModel::Dropped
    } else {
        match json_parsed(line) {
            None => InboundModel::Dropped,
            Some(value) => {
                let event = event_of(value);
                if event is Some && event.unwrap().event == "property-change"@ {
                    InboundModel::Event(event.unwrap())
                } else {
                    match reply_of(value) {
                        Some(reply) => InboundModel::Reply(reply),
                        None => InboundModel::Dropped,
                    }
                }
            },
        }
    }
}

/// What one inbound message does to the table of pending requests, and what
/// the reader is to do. An event leaves the table alone and goes to the
/// sink. A reply whose id is in the table takes its entry out and completes
/// that request. Everything else changes nothing.
pub open spec fn dispatch(pending: Set<u64>, message: InboundModel) -> (Set<u64>, ActionModel) {
    match message {
        InboundModel::Event(event) => (pending, ActionModel::Notify(event)),
        InboundModel::Reply(reply) => {
            if reply.request_id is Some && pending.contains(reply.request_id.unwrap()) {
                (
                    pending.remove(reply.request_id.unwrap()),
                    ActionModel::Fulfil(reply.request_id.unwrap(), reply),
                )
            } else {
                (pending, ActionModel::Nothing)
            }
        },
        InboundModel::Dropped => (pending, ActionModel::Nothing),
    }
}

/// What a stream of inbound messages does to the table, and what the reader
/// is to do about each message, in order: the messages are dispatched one
/// after the other, each on the table that the one before it left.
pub open spec fn run(pending: Set<u64>, messages: Seq<InboundModel>) -> (Set<u64>, Seq<ActionModel>)
    decreases messages.len(),
{
    if messages.len() == 0 {
        (pending, Seq::empty())
    } else {
        let before = run(pending, messages.drop_last());
        let step = dispatch(before.0, messages.last());
        (step.0, before.1.push(step.1))
    }
}

/// The request id that a message answers: a reply's, where it has one.
pub open spec fn reply_id(message: InboundModel) -> Option<u64> {
    match message {
        InboundModel::Reply(reply) => reply.request_id,
        _ => None,
    }
}

/// Whether a stream answers the id.
pub open spec fn answers(messages: Seq<InboundModel>, id: u64) -> bool {
    exists|i: int| 0 <= i < messages.len() && #[trigger] reply_id(messages[i]) == Some(id)
}

/// Whether no two messages of a stream answer the same request id.
pub open spec fn distinct_reply_ids(messages: Seq<InboundModel>) -> bool {
    forall|i: int, j: int|
        0 <= i < j < messages.len() && (#[trigger] reply_id(messages[i])) is Some ==> reply_id(
            messages[i],
        ) != #[trigger] reply_id(messages[j])
}

/// Whether `order` puts the places of a stream of `len` messages into
/// another order: every place is named, and named once.
pub open spec fn reorders(order: Seq<int>, len: nat) -> bool {
    &&& order.len() == len
    &&& forall|i: int| 0 <= i < len ==> 0 <= #[trigger] order[i] < len
    &&& forall|i: int, j: int| 0 <= i < j < len ==> #[trigger] order[i] != #[trigger] order[j]
    &&& forall|k: int| 0 <= k < len ==> #[trigger] names(order, k)
}

/// Whether `order` names the place `k`.
pub open spec fn names(order: Seq<int>, k: int) -> bool {
    exists|i: int| 0 <= i < order.len() && #[trigger] order[i] == k
}

/// The words of a command that was not issued because every request id was
/// given out.
pub open spec fn exhausted_text() -> Seq<char> {
    "Request ids exhausted"@
}

/// What the caller of a command gets for each way its round trip can end:
/// the reply, or the failure in words.
pub open spec fn outcome_of(delivery: Delivery) -> Result<ReplyModel, Seq<char>> {
    match delivery {
        Delivery::WriteFailed(reason) => Err("Failed to send command: "@ + reason@),
        Delivery::FlushFailed(reason) => Err("Failed to flush: "@ + reason@),
        Delivery::TimedOut => Err("Command timeout"@),
        Delivery::Replied(reply) => Ok(reply@),
    }
}

/// Whether a reply reports success.
pub open spec fn succeeded(reply: ReplyModel) -> bool {
    reply.error == "success"@
}

fn present_member<'a>(value: &'a serde_json::Value, key: &str) -> (out: Option<
    &'a serde_json::Value,
>)
    ensures
        match out {
            Some(found) => present(*value, key@) == Some(*found),
            None => present(*value, key@) is None,
        },
{
    match member(value, key) {
        Some(found) => {
            if is_null(found) {
                None
            } else {
                Some(found)
            }
        },
        None => None,
    }
}

fn data_member(value: &serde_json::Value) -> (out: Option<serde_json::Value>)
    ensures
        out == present(*value, "data"@),
{
    match present_member(value, "data") {
        Some(found) => Some(copy_of(found)),
        None => None,
    }
}

/// Reads an event out of a JSON value, where the value has the shape of one.
pub fn decode_event(value: &serde_json::Value) -> (out: Option<MpvEvent>)
    ensures
        match out {
            Some(event) => event_of(*value) == Some(event@),
            None => event_of(*value) is None,
        },
{
    let kind = match member(value, "event") {
        Some(found) => match text_of(found) {
            Some(text) => String::from_str(text),
            None => {
                return None;
            },
        },
        None => {
            return None;
        },
    };
    let name = match present_member(value, "name") {
        Some(found) => match text_of(found) {
            Some(text) => Some(String::from_str(text)),
            None => {
                return None;
            },
        },
        None => None,
    };
    let id = match present_member(value, "id") {
        Some(found) => match u64_of(found) {
            Some(number) => Some(number),
            None => {
                return None;
            },
        },
        None => None,
    };
    let data = data_member(value);
    Some(MpvEvent { event: kind, name, data, id })
}

/// Reads a reply out of a JSON value, where the value has the shape of one.
pub fn decode_response(value: &serde_json::Value) -> (out: Option<MpvResponse>)
    ensures
        match out {
            Some(reply) => reply_of(*value) == Some(reply@),
            None => reply_of(*value) is None,
        },
{
    let error = match member(value, "error") {
        Some(found) => match text_of(found) {
            Some(text) => String::from_str(text),
            None => {
                return None;
            },
        },
        None => {
            return None;
        },
    };
    let request_id = match present_member(value, "request_id") {
        Some(found) => match u64_of(found) {
            Some(number) => Some(number),
            None => {
                return None;
            },
        },
        None => None,
    };
    let data = data_member(value);
    Some(MpvResponse { error, data, request_id })
}

/// Sorts one inbound line, without its newline.
pub fn classify_line(line: &str) -> (out: Inbound)
    ensures
        out@ == inbound_of(line@),
{
    if line.is_empty() {
        return Inbound::Dropped;
    }
    let value = match parse(line) {
        Some(value) => value,
        None => {
            return Inbound::Dropped;
        },
    };
    match decode_event(&value) {
        Some(event) => {
            if text_eq(event.event.as_str(), "property-change") {
                return Inbound::Event(event);
            }
        },
        None => {},
    }
    match decode_response(&value) {
        Some(reply) => Inbound::Reply(reply),
        None => Inbound::Dropped,
    }
}

/// How long the caller of a command waits for its reply, in milliseconds.
/// A command whose reply has not come by then has timed out.
pub const COMMAND_TIMEOUT_MILLIS: u64 = 5000;

/// Whether a text holds no newline.
pub open spec fn no_newline(text: Seq<char>) -> bool {
    forall|i: int| 0 <= i < text.len() ==> #[trigger] text[i] != '\n'
}

/// Whether a text is one line on the wire: it ends with a newline and
/// holds no other.
pub open spec fn one_line(text: Seq<char>) -> bool {
    text.len() > 0 && text.last() == '\n' && no_newline(text.drop_last())
}

proof fn lemma_decimal_has_no_newline(n: nat)
    ensures
        no_newline(decimal(n)),
    decreases n,
{
    if n >= 10 {
        lemma_decimal_has_no_newline(n / 10);
    }
}

/// Builds the line of a command with a given request id. Whatever the
/// arguments hold, the command is one line on the wire.
pub fn frame_command(command: &Vec<String>, id: u64) -> (line: String)
    ensures
        line@ == command_line(texts(command@), id),
        one_line(line@),
{
    let ghost args = texts(command@);
    let mut line = String::from_str("{\"command\":[");
    proof {
        reveal_strlit("{\"command\":[");
        reveal_strlit(",");
        reveal_strlit("],\"request_id\":");
        reveal_strlit("}\n");
    }
    let mut i: usize = 0;
    while i < command.len()
        invariant
            i <= command.len(),
            args == texts(command@),
            line@ == "{\"command\":["@ + quoted_list(args.take(i as int)),
            no_newline(line@),
            no_newline(","@),
        decreases command.len() - i,
    {
        if i > 0 {
            line.append(",");
        }
        let quoted = quote(command[i].as_str());
        line.append(quoted.as_str());
        proof {
            lemma_quoted_has_no_newline(command@[i as int]@);
            let next = args.take(i as int + 1);
            assert(next.drop_last() =~= args.take(i as int));
            assert(next.last() == command@[i as int]@);
            if i == 0 {
                assert(quoted_list(args.take(0)) =~= Seq::<char>::empty());
                assert(next[0] == next.last());
            }
            assert(line@ =~= "{\"command\":["@ + quoted_list(next));
        }
        i += 1;
    }
    assert(args.take(i as int) =~= args);
    line.append("],\"request_id\":");
    let number = decimal_string(id);
    proof {
        lemma_decimal_has_no_newline(id as nat);
    }
    line.append(number.as_str());
    let ghost body = line@;
    assert(no_newline(body));
    line.append("}\n");
    assert(line@ =~= command_line(args, id));
    proof {
        let closing = "}\n"@;
        assert(closing.len() == 2 && closing[0] == '}' && closing[1] == '\n');
        assert(line@ =~= body + closing);
        assert(line@.drop_last() =~= body.push('}'));
    }
    line
}

/// The client's side of the protocol: the next request id and the table of
/// requests that still await their reply.
pub struct MpvIpcClient {
    next_id: u64,
    pending: HashSet<u64>,
}

/// What issuing a command that awaits a reply does to a client. While an id
/// is left, the command gets the next id, which is larger than every id
/// given out before and was not in the table; the id enters the table; and
/// the line carries the arguments and the id. Once every id was given out,
/// nothing is issued and nothing changes.
pub open spec fn issued_by(
    before: MpvIpcClient,
    after: MpvIpcClient,
    out: Result<Request, String>,
    args: Seq<Seq<char>>,
) -> bool {
    &&& after.wf()
    &&& match out {
        Ok(request) => {
            &&& before.next_request_id() < u64::MAX
            &&& request.request_id == before.next_request_id()
            &&& !before.is_pending(request.request_id)
            &&& after.next_request_id() == request.request_id + 1
            &&& after.pending_ids() == before.pending_ids().insert(request.request_id)
            &&& request.line@ == command_line(args, request.request_id)
            &&& one_line(request.line@)
        },
        Err(message) => {
            &&& before.next_request_id() == u64::MAX
            &&& message@ == exhausted_text()
            &&& after.next_request_id() == before.next_request_id()
            &&& after.pending_ids() == before.pending_ids()
        },
    }
}

/// What issuing a command that awaits no reply does to a client. While an
/// id is left, the command uses up the next id, the table stays as it is,
/// and the line carries the arguments and the id. Once every id was given
/// out, nothing is issued and nothing changes.
pub open spec fn sent_by(
    before: MpvIpcClient,
    after: MpvIpcClient,
    out: Result<String, String>,
    args: Seq<Seq<char>>,
) -> bool {
    &&& after.wf()
    &&& after.pending_ids() == before.pending_ids()
    &&& match out {
        Ok(line) => {
            &&& before.next_request_id() < u64::MAX
            &&& after.next_request_id() == before.next_request_id() + 1
            &&& line@ == command_line(args, before.next_request_id())
            &&& one_line(line@)
        },
        Err(message) => {
            &&& before.next_request_id() == u64::MAX
            &&& message@ == exhausted_text()
            &&& after.next_request_id() == before.next_request_id()
        },
    }
}

/// What each of a list of lines holds.
pub open spec fn inbound_models(lines: Seq<String>) -> Seq<InboundModel> {
    Seq::new(lines.len(), |i: int| inbound_of(lines[i]@))
}

/// What each of a list of actions holds.
pub open spec fn action_models(actions: Seq<ReaderAction>) -> Seq<ActionModel> {
    Seq::new(actions.len(), |i: int| actions[i]@)
}

pub(crate) fn exhausted() -> (message: String)
    ensures
        message@ == exhausted_text(),
{
    String::from_str("Request ids exhausted")
}

impl MpvIpcClient {
    /// The id that the next command will get.
    pub closed spec fn next_request_id(&self) -> u64 {
        self.next_id
    }

    /// The ids that await a reply.
    pub closed spec fn pending_ids(&self) -> Set<u64> {
        self.pending@
    }

    /// Whether a request id awaits its reply.
    pub open spec fn is_pending(&self, id: u64) -> bool {
        self.pending_ids().contains(id)
    }

    /// The invariant of the client: ids start at 1, and every id in the
    /// table was given out before the next one.
    pub open spec fn wf(&self) -> bool {
        &&& self.next_request_id() >= 1
        &&& forall|id: u64|
            (#[trigger] self.pending_ids().contains(id)) ==> 1 <= id < self.next_request_id()
    }

    /// A client that has issued nothing: its first request id is 1 and its
    /// table is empty.
    pub fn fresh() -> (client: Self)
        ensures
            client.wf(),
            client.next_request_id() == 1,
            client.pending_ids() == Set::<u64>::empty(),
    {
        MpvIpcClient { next_id: 1, pending: HashSet::new() }
    }

    /// A client that goes on where an earlier one left off: its first
    /// request id is the given one, or 1 for 0, and its table is empty.
    pub fn starting_at(first_id: u64) -> (client: Self)
        ensures
            client.wf(),
            client.next_request_id() == (if first_id == 0 {
                1
            } else {
                first_id
            }),
            client.pending_ids() == Set::<u64>::empty(),
    {
        let next_id = if first_id == 0 {
            1
        } else {
            first_id
        };
        MpvIpcClient { next_id, pending: HashSet::new() }
    }

    /// The client of a connection, from the outcome of opening the stream.
    /// A stream that opened gives a client whose first request id is 1 and
    /// whose table is empty; one that did not gives the failure in words,
    /// which name the kind of endpoint.
    pub fn connect(opened: Result<(), String>, named_pipe: bool) -> (out: Result<Self, String>)
        ensures
            match (opened, out) {
                (Ok(_), Ok(client)) => {
                    &&& client.wf()
                    &&& client.next_request_id() == 1
                    &&& client.pending_ids() == Set::<u64>::empty()
                },
                (Err(reason), Err(message)) => message@ == (if named_pipe {
                    "Failed to connect to mpv pipe: "@
                } else {
                    "Failed to connect to mpv socket: "@
                }) + reason@,
                _ => false,
            },
    {
        match opened {
            Ok(_) => Ok(MpvIpcClient::fresh()),
            Err(reason) => {
                if named_pipe {
                    Err(join2("Failed to connect to mpv pipe: ", reason.as_str()))
                } else {
                    Err(join2("Failed to connect to mpv socket: ", reason.as_str()))
                }
            },
        }
    }

    /// The id that the next command will get.
    pub fn next_id(&self) -> (id: u64)
        ensures
            id == self.next_request_id(),
    {
        self.next_id
    }

    /// Whether another request id can be issued.
    pub fn has_free_id(&self) -> (free: bool)
        ensures
            free == (self.next_request_id() < u64::MAX),
    {
        self.next_id < u64::MAX
    }

    /// How many requests await a reply.
    pub fn pending_count(&self) -> (count: usize)
        ensures
            count == self.pending_ids().len(),
    {
        self.pending.len()
    }

    /// Whether a request id awaits its reply.
    pub fn is_waiting(&self, id: u64) -> (waiting: bool)
        ensures
            waiting == self.is_pending(id),
    {
        self.pending.contains(&id)
    }

    /// Issues a command that awaits a reply, and returns the line to
    /// write. The reply, or its absence, is then taken by
    /// `complete_command`.
    pub fn send_command(&mut self, command: &Vec<String>) -> (out: Result<Request, String>)
        requires
            old(self).wf(),
        ensures
            issued_by(*old(self), *final(self), out, texts(command@)),
    {
        if self.next_id == u64::MAX {
            return Err(exhausted());
        }
        let id = self.next_id;
        let line = frame_command(command, id);
        self.pending.insert(id);
        self.next_id = id + 1;
        proof {
            if old(self).pending_ids().contains(id) {
                assert(id < old(self).next_request_id());
            }
            assert forall|other: u64| #[trigger] self.pending_ids().contains(other) implies 1
                <= other < self.next_request_id() by {
                if other != id {
                    assert(old(self).pending_ids().contains(other));
                }
            };
        }
        Ok(Request { request_id: id, line })
    }

    /// Issues a command that awaits no reply, and returns the line to
    /// write.
    pub fn send_command_async(&mut self, command: &Vec<String>) -> (out: Result<String, String>)
        requires
            old(self).wf(),
        ensures
            sent_by(*old(self), *final(self), out, texts(command@)),
    {
        if self.next_id == u64::MAX {
            return Err(exhausted());
        }
        let id = self.next_id;
        let line = frame_command(command, id);
        self.next_id = id + 1;
        proof {
            assert forall|other: u64| #[trigger] self.pending_ids().contains(other) implies 1
                <= other < self.next_request_id() by {
                assert(old(self).pending_ids().contains(other));
            };
        }
        Ok(line)
    }

    /// Issues the command that ends the engine, and returns the line to
    /// write. No reply is awaited. There is always an id for it: the last
    /// id is given to no other command.
    pub fn quit(&mut self) -> (line: String)
        requires
            old(self).wf(),
        ensures
            final(self).wf(),
            final(self).pending_ids() == old(self).pending_ids(),
            final(self).next_request_id() == (if old(self).next_request_id() < u64::MAX {
                old(self).next_request_id() + 1
            } else {
                old(self).next_request_id() as int
            }),
            line@ == command_line(seq!["quit"@], old(self).next_request_id()),
            one_line(line@),
    {
        let command = vec![String::from_str("quit")];
        assert(texts(command@) =~= seq!["quit"@]);
        let line = frame_command(&command, self.next_id);
        if self.next_id < u64::MAX {
            self.next_id = self.next_id + 1;
        }
        proof {
            assert forall|id: u64| #[trigger] self.pending_ids().contains(id) implies 1 <= id
                < self.next_request_id() by {
                assert(old(self).pending_ids().contains(id));
            };
        }
        line
    }

    /// Issues the command that asks the engine to report changes of a
    /// property under an observer id. No reply is awaited.
    pub fn observe_property(&mut self, id: u64, property: &str) -> (out: Result<String, String>)
        requires
            old(self).wf(),
        ensures
            sent_by(
                *old(self),
                *final(self),
                out,
                seq!["observe_property"@, decimal(id as nat), property@],
            ),
    {
        let command = vec![
            String::from_str("observe_property"),
            decimal_string(id),
            String::from_str(property),
        ];
        assert(texts(command@) =~= seq!["observe_property"@, decimal(id as nat), property@]);
        self.send_command_async(&command)
    }

    /// Issues the command that reads a property. What was read is then
    /// taken by `property_value`.
    pub fn get_property(&mut self, property: &str) -> (out: Result<Request, String>)
        requires
            old(self).wf(),
        ensures
            issued_by(*old(self), *final(self), out, seq!["get_property"@, property@]),
    {
        let command = vec![String::from_str("get_property"), String::from_str(property)];
        assert(texts(command@) =~= seq!["get_property"@, property@]);
        self.send_command(&command)
    }

    /// Issues the command that sets a property to a value given as text.
    /// How it went is then taken by `property_set`.
    pub fn set_property(&mut self, property: &str, value: &str) -> (out: Result<Request, String>)
        requires
            old(self).wf(),
        ensures
            issued_by(*old(self), *final(self), out, seq!["set_property"@, property@, value@]),
    {
        let command = vec![
            String::from_str("set_property"),
            String::from_str(property),
            String::from_str(value),
        ];
        assert(texts(command@) =~= seq!["set_property"@, property@, value@]);
        self.send_command(&command)
    }

    /// Takes a reply that came in. Where its request id is in the table,
    /// the entry leaves the table and the reply is handed back with the id,
    /// to complete that request once. Where it has no id, or one that is
    /// not in the table, the reply is dropped and nothing changes.
    pub fn handle_response(&mut self, response: MpvResponse) -> (out: Option<(u64, MpvResponse)>)
        requires
            old(self).wf(),
        ensures
            final(self).wf(),
            final(self).next_request_id() == old(self).next_request_id(),
            (final(self).pending_ids(), fulfilment(out)) == dispatch(
                old(self).pending_ids(),
                InboundModel::Reply(response@),
            ),
            out is Some ==> out.unwrap().1 == response,
    {
        let id = match response.request_id {
            Some(id) => id,
            None => {
                return None;
            },
        };
        if self.pending.remove(&id) {
            Some((id, response))
        } else {
            assert(self.pending@ =~= old(self).pending@);
            None
        }
    }

    /// Takes one inbound line, without its newline, and says what the
    /// reader is to do with it.
    pub fn handle_line(&mut self, line: &str) -> (action: ReaderAction)
        requires
            old(self).wf(),
        ensures
            final(self).wf(),
            final(self).next_request_id() == old(self).next_request_id(),
            (final(self).pending_ids(), action@) == dispatch(
                old(self).pending_ids(),
                inbound_of(line@),
            ),
    {
        match classify_line(line) {
            Inbound::Event(event) => ReaderAction::Notify(event),
            Inbound::Reply(reply) => match self.handle_response(reply) {
                Some((id, reply)) => ReaderAction::Fulfil(id, reply),
                None => ReaderAction::Nothing,
            },
            Inbound::Dropped => ReaderAction::Nothing,
        }
    }

    /// Takes the lines of a stream, in order, and says what the reader is
    /// to do with each.
    pub fn handle_lines(&mut self, lines: &Vec<String>) -> (actions: Vec<ReaderAction>)
        requires
            old(self).wf(),
        ensures
            final(self).wf(),
            final(self).next_request_id() == old(self).next_request_id(),
            (final(self).pending_ids(), action_models(actions@)) == run(
                old(self).pending_ids(),
                inbound_models(lines@),
            ),
    {
        let ghost all = inbound_models(lines@);
        let mut actions: Vec<ReaderAction> = Vec::new();
        let mut i: usize = 0;
        assert(action_models(actions@) =~= Seq::<ActionModel>::empty());
        assert(all.take(0) =~= Seq::<InboundModel>::empty());
        while i < lines.len()
            invariant
                i <= lines.len(),
                all == inbound_models(lines@),
                self.wf(),
                self.next_request_id() == old(self).next_request_id(),
                (self.pending_ids(), action_models(actions@)) == run(
                    old(self).pending_ids(),
                    all.take(i as int),
                ),
            decreases lines.len() - i,
        {
            let ghost before = action_models(actions@);
            let action = self.handle_line(lines[i].as_str());
            actions.push(action);
            proof {
                let next = all.take(i as int + 1);
                assert(next.drop_last() =~= all.take(i as int));
                assert(next.last() == inbound_of(lines@[i as int]@));
                assert(action_models(actions@) =~= before.push(action@));
            }
            i += 1;
        }
        assert(all.take(i as int) =~= all);
        actions
    }
}

/// The reader's action that a handled reply amounts to.
pub open spec fn fulfilment(out: Option<(u64, MpvResponse)>) -> ActionModel {
    match out {
        Some((id, reply)) => ActionModel::Fulfil(id, reply@),
        None => ActionModel::Nothing,
    }
}

/// The start of the reader: what it gave, from the outcome of opening the
/// stream for it: nothing, or the failure in words, which name the kind of
/// endpoint. The reading itself is `handle_line`, line by line, and
/// `handle_lines` for a whole stream: a reader that was started takes lines
/// until the stream ends and hands each to `handle_line`.
pub fn start_reader_thread(opened: Result<(), String>, named_pipe: bool) -> (out: Result<(), String>)
    ensures
        match opened {
            Ok(_) => out is Ok,
            Err(reason) => out is Err && out->Err_0@ == (if named_pipe {
                "Failed to open mpv pipe for reading: "@
            } else {
                "Failed to connect to mpv socket for reading: "@
            }) + reason@,
        },
{
    match opened {
        Ok(_) => Ok(()),
        Err(reason) => {
            if named_pipe {
                Err(join2("Failed to open mpv pipe for reading: ", reason.as_str()))
            } else {
                Err(join2("Failed to connect to mpv socket for reading: ", reason.as_str()))
            }
        },
    }
}

/// What the caller of a command gets once its round trip has ended: the
/// reply, or, for a failed write, a failed flush or a timeout, the failure
/// in words.
pub fn complete_command(delivery: Delivery) -> (out: Result<MpvResponse, String>)
    ensures
        match (out, outcome_of(delivery)) {
            (Ok(reply), Ok(model)) => reply@ == model && delivery == Delivery::Replied(reply),
            (Err(message), Err(model)) => message@ == model,
            _ => false,
        },
{
    match delivery {
        Delivery::WriteFailed(reason) => Err(join2("Failed to send command: ", reason.as_str())),
        Delivery::FlushFailed(reason) => Err(join2("Failed to flush: ", reason.as_str())),
        Delivery::TimedOut => Err(String::from_str("Command timeout")),
        Delivery::Replied(reply) => Ok(reply),
    }
}

/// What reading a property gives, from the end of the round trip: the data
/// of a reply that reports success, the engine's own message for one that
/// does not, and the failure in words where no reply came.
pub fn property_value(outcome: Result<MpvResponse, String>) -> (out: Result<
    Option<serde_json::Value>,
    String,
>)
    ensures
        match outcome {
            Ok(reply) => if succeeded(reply@) {
                out == Ok::<Option<serde_json::Value>, String>(reply.data)
            } else {
                out is Err && out->Err_0@ == reply.error@
            },
            Err(message) => out is Err && out->Err_0@ == message@,
        },
{
    match outcome {
        Ok(reply) => {
            if text_eq(reply.error.as_str(), "success") {
                Ok(reply.data)
            } else {
                Err(reply.error)
            }
        },
        Err(message) => Err(message),
    }
}

/// What setting a property gives, from the end of the round trip: nothing
/// for a reply that reports success, the engine's own message for one that
/// does not, and the failure in words where no reply came.
pub fn property_set(outcome: Result<MpvResponse, String>) -> (out: Result<(), String>)
    ensures
        match outcome {
            Ok(reply) => if succeeded(reply@) {
                out is Ok
            } else {
                out is Err && out->Err_0@ == reply.error@
            },
            Err(message) => out is Err && out->Err_0@ == message@,
        },
{
    match outcome {
        Ok(reply) => {
            if text_eq(reply.error.as_str(), "success") {
                Ok(())
            } else {
                Err(reply.error)
            }
        },
        Err(message) => Err(message),
    }
}

/// A request id is issued once: the id that the next command gets is in
/// no entry of the table, and every id in the table is smaller. So an id
/// is not used again while its entry stands, nor ever after.
pub proof fn lemma_next_id_is_fresh(client: MpvIpcClient)
    requires
        client.wf(),
    ensures
        !client.is_pending(client.next_request_id()),
        forall|id: u64| client.is_pending(id) ==> id < client.next_request_id(),
{
}

/// Of two commands issued one after the other, the later gets the larger
/// id, and both ids stand in the table afterwards.
pub proof fn lemma_later_id_is_larger(
    first: MpvIpcClient,
    second: MpvIpcClient,
    third: MpvIpcClient,
    earlier: Request,
    later: Request,
    earlier_args: Seq<Seq<char>>,
    later_args: Seq<Seq<char>>,
)
    requires
        first.wf(),
        issued_by(first, second, Ok(earlier), earlier_args),
        issued_by(second, third, Ok(later), later_args),
    ensures
        earlier.request_id < later.request_id,
        third.is_pending(earlier.request_id),
        third.is_pending(later.request_id),
{
}

/// A command that was issued waits in the table until its reply comes,
/// however long that takes: what the caller makes of a round trip that
/// timed out touches no table, so the entry stands, and every entry that
/// stood before stands as it did.
pub proof fn lemma_timed_out_entry_stands(
    before: MpvIpcClient,
    after: MpvIpcClient,
    request: Request,
    args: Seq<Seq<char>>,
)
    requires
        before.wf(),
        issued_by(before, after, Ok(request), args),
    ensures
        outcome_of(Delivery::TimedOut) == Err::<ReplyModel, Seq<char>>("Command timeout"@),
        after.is_pending(request.request_id),
        forall|id: u64| before.is_pending(id) ==> after.is_pending(id),
        forall|id: u64| after.is_pending(id) ==> before.is_pending(id) || id == request.request_id,
        dispatch(
            after.pending_ids(),
            InboundModel::Reply(
                ReplyModel { error: "success"@, data: None, request_id: Some(request.request_id) },
            ),
        ).0 == before.pending_ids(),
{
    assert(after.pending_ids().remove(request.request_id) =~= before.pending_ids());
}

/// A reply whose request id is in no entry of the table, or that has none,
/// is dropped: the table stays as it was and the reader does nothing. This
/// is what happens to a reply that comes after its request was taken out.
pub proof fn lemma_unmatched_reply_is_dropped(pending: Set<u64>, reply: ReplyModel)
    requires
        reply.request_id is None || !pending.contains(reply.request_id.unwrap()),
    ensures
        dispatch(pending, InboundModel::Reply(reply)) == (pending, ActionModel::Nothing),
{
}

/// Once a reply has taken its entry out of the table, the same reply
/// coming again changes nothing: a request is completed at most once.
pub proof fn lemma_reply_fulfils_once(pending: Set<u64>, reply: ReplyModel)
    ensures
        dispatch(dispatch(pending, InboundModel::Reply(reply)).0, InboundModel::Reply(reply)).1
            == ActionModel::Nothing,
        dispatch(dispatch(pending, InboundModel::Reply(reply)).0, InboundModel::Reply(reply)).0
            == dispatch(pending, InboundModel::Reply(reply)).0,
{
}

/// One event and one reply to a pending request, in either order, end in
/// the same table, hand exactly the event to the sink and complete exactly
/// that request.
pub proof fn lemma_event_and_reply_in_either_order(
    pending: Set<u64>,
    event: EventModel,
    reply: ReplyModel,
)
    requires
        reply.request_id is Some,
        pending.contains(reply.request_id.unwrap()),
    ensures
        ({
            let e = InboundModel::Event(event);
            let r = InboundModel::Reply(reply);
            let id = reply.request_id.unwrap();
            let event_first = dispatch(pending, e);
            let then_reply = dispatch(event_first.0, r);
            let reply_first = dispatch(pending, r);
            let then_event = dispatch(reply_first.0, e);
            &&& event_first.1 == ActionModel::Notify(event)
            &&& then_reply.1 == ActionModel::Fulfil(id, reply)
            &&& reply_first.1 == ActionModel::Fulfil(id, reply)
            &&& then_event.1 == ActionModel::Notify(event)
            &&& then_reply.0 == then_event.0
            &&& then_reply.0 == pending.remove(id)
            &&& !then_reply.0.contains(id)
        }),
{
}

/// In a stream whose replies answer different request ids, every message is
/// dealt with as if it were the only one: an event goes to the sink, a
/// reply completes its request if the id was in the table at the start, and
/// everything else is dropped. At the end the table holds the ids it held
/// at the start, without those that the stream answered.
pub proof fn lemma_stream_line_by_line(pending: Set<u64>, messages: Seq<InboundModel>)
    requires
        distinct_reply_ids(messages),
    ensures
        run(pending, messages).1.len() == messages.len(),
        forall|i: int|
            0 <= i < messages.len() ==> #[trigger] run(pending, messages).1[i] == dispatch(
                pending,
                messages[i],
            ).1,
        forall|id: u64|
            (#[trigger] run(pending, messages).0.contains(id)) <==> pending.contains(id) && !answers(
                messages,
                id,
            ),
    decreases messages.len(),
{
    if messages.len() > 0 {
        let front = messages.drop_last();
        let last = messages.last();
        let n = front.len() as int;
        assert forall|i: int, j: int|
            0 <= i < j < front.len() && (#[trigger] reply_id(front[i])) is Some implies reply_id(
            front[i],
        ) != #[trigger] reply_id(front[j]) by {
            assert(front[i] == messages[i] && front[j] == messages[j]);
        };
        lemma_stream_line_by_line(pending, front);
        let before = run(pending, front);
        let step = dispatch(before.0, last);
        if reply_id(last) is Some {
            let k = reply_id(last).unwrap();
            if answers(front, k) {
                let i = choose|i: int| 0 <= i < front.len() && #[trigger] reply_id(front[i]) == Some(k);
                assert(front[i] == messages[i]);
                assert(reply_id(messages[i]) != reply_id(messages[n]));
                assert(false);
            }
            assert(before.0.contains(k) <==> pending.contains(k));
        }
        assert(step.1 == dispatch(pending, last).1);
        assert forall|i: int| 0 <= i < messages.len() implies #[trigger] run(pending, messages).1[i]
            == dispatch(pending, messages[i]).1 by {
            if i < n {
                assert(run(pending, messages).1[i] == before.1[i]);
                assert(front[i] == messages[i]);
            }
        };
        assert forall|id: u64|
            (#[trigger] run(pending, messages).0.contains(id)) <==> pending.contains(id) && !answers(
                messages,
                id,
            ) by {
            if answers(messages, id) {
                let i = choose|i: int|
                    0 <= i < messages.len() && #[trigger] reply_id(messages[i]) == Some(id);
                if i < n {
                    assert(front[i] == messages[i]);
                    assert(answers(front, id));
                }
            }
            if answers(front, id) {
                let i = choose|i: int| 0 <= i < front.len() && #[trigger] reply_id(front[i]) == Some(id);
                assert(front[i] == messages[i]);
                assert(reply_id(messages[i]) == Some(id));
                assert(answers(messages, id));
            }
            if reply_id(last) == Some(id) {
                assert(reply_id(messages[n]) == Some(id));
                assert(answers(messages, id));
            }
        };
    }
}

/// The order in which the lines of a stream arrive does not matter. For a
/// stream whose replies answer different request ids, and the same
/// messages in any other order: the table ends the same, and every message
/// is dealt with in the one run as it is in the other. So as many events
/// reach the sink, and the same requests are completed, each once.
pub proof fn lemma_stream_in_any_order(
    pending: Set<u64>,
    messages: Seq<InboundModel>,
    reordered: Seq<InboundModel>,
    order: Seq<int>,
)
    requires
        distinct_reply_ids(messages),
        reorders(order, messages.len()),
        reordered.len() == messages.len(),
        forall|i: int| 0 <= i < reordered.len() ==> #[trigger] reordered[i] == messages[order[i]],
    ensures
        run(pending, reordered).0 == run(pending, messages).0,
        run(pending, reordered).1.len() == run(pending, messages).1.len(),
        forall|i: int|
            0 <= i < reordered.len() ==> #[trigger] run(pending, reordered).1[i] == run(
                pending,
                messages,
            ).1[order[i]],
{
    assert forall|i: int, j: int|
        0 <= i < j < reordered.len() && (#[trigger] reply_id(reordered[i])) is Some implies reply_id(
        reordered[i],
    ) != #[trigger] reply_id(reordered[j]) by {
        let a = order[i];
        let b = order[j];
        assert(reordered[i] == messages[a] && reordered[j] == messages[b]);
        assert(a != b);
        if reply_id(messages[b]) is Some {
            if a < b {
                assert(reply_id(messages[a]) != reply_id(messages[b]));
            } else {
                assert(reply_id(messages[b]) != reply_id(messages[a]));
            }
        }
    };
    lemma_stream_line_by_line(pending, messages);
    lemma_stream_line_by_line(pending, reordered);
    assert forall|id: u64| answers(reordered, id) <==> answers(messages, id) by {
        if answers(reordered, id) {
            let i = choose|i: int|
                0 <= i < reordered.len() && #[trigger] reply_id(reordered[i]) == Some(id);
            assert(reordered[i] == messages[order[i]]);
            assert(reply_id(messages[order[i]]) == Some(id));
        }
        if answers(messages, id) {
            let k = choose|k: int|
                0 <= k < messages.len() && #[trigger] reply_id(messages[k]) == Some(id);
            assert(names(order, k));
            let i = choose|i: int| 0 <= i < order.len() && #[trigger] order[i] == k;
            assert(reordered[i] == messages[order[i]]);
            assert(reply_id(reordered[i]) == Some(id));
        }
    };
    assert forall|id: u64|
        run(pending, reordered).0.contains(id) <==> run(pending, messages).0.contains(id) by {
        assert(answers(reordered, id) <==> answers(messages, id));
    };
    assert(run(pending, reordered).0 =~= run(pending, messages).0);
    assert forall|i: int| 0 <= i < reordered.len() implies #[trigger] run(pending, reordered).1[i]
        == run(pending, messages).1[order[i]] by {
        assert(reordered[i] == messages[order[i]]);
    };
}

} // verus!
