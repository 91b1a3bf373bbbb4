//! Wire vocabulary: method names, error codes, message shapes and the final
//! outcome of a command.

use vstd::prelude::*;
use vstd::string::*;

verus! {

pub const INITIALIZE_METHOD: &'static str = "initialize";

pub const COMMAND_EXEC_METHOD: &'static str = "command/exec";

pub const COMMAND_EXEC_WRITE_METHOD: &'static str = "command/exec/write";

pub const COMMAND_EXEC_RESIZE_METHOD: &'static str = "command/exec/resize";

pub const COMMAND_EXEC_TERMINATE_METHOD: &'static str = "command/exec/terminate";

pub const COMMAND_EXEC_OUTPUT_DELTA_METHOD: &'static str = "command/exec/outputDelta";

pub const COMMAND_EXEC_REQUEST_NETWORK_APPROVAL_METHOD: &'static str =
    "command/exec/requestNetworkApproval";

pub const COMMAND_EXEC_REQUEST_PERMISSIONS_APPROVAL_METHOD: &'static str =
    "command/exec/requestPermissionsApproval";

pub const INVALID_REQUEST_CODE: i64 = -32600;

pub const METHOD_NOT_FOUND_CODE: i64 = -32601;

pub const INVALID_PARAMS_CODE: i64 = -32602;

pub const INTERNAL_ERROR_CODE: i64 = -32603;

/// One client connection of the service.
#[derive(Clone, Copy, Debug, PartialEq, Eq, Hash, Structural)]
pub struct ConnectionId(pub u64);

/// The characters of each string of a list.
pub open spec fn texts(list: Seq<String>) -> Seq<Seq<char>> {
    list.map_values(|text: String| text@)
}

/// The characters of an optional string.
pub open spec fn opt_text(text: Option<String>) -> Option<Seq<char>> {
    match text {
        Some(t) => Some(t@),
        None => None,
    }
}

pub(crate) fn clone_texts(list: &Vec<String>) -> (copy: Vec<String>)
    ensures
        copy@ == list@,
{
    let mut copy: Vec<String> = Vec::new();
    let mut i: usize = 0;
    while i < list.len()
        invariant
            i <= list@.len(),
            copy@ == list@.take(i as int),
        decreases list@.len() - i,
    {
        copy.push(list[i].clone());
        i = i + 1;
        assert(copy@ =~= list@.take(i as int));
    }
    assert(copy@ =~= list@);
    copy
}

pub(crate) fn clone_opt_text(text: &Option<String>) -> (copy: Option<String>)
    ensures
        copy == *text,
{
    match text {
        Some(t) => Some(t.clone()),
        None => None,
    }
}

/// The id that ties a reply to its request.
#[derive(Debug, Clone, PartialEq, Eq)]
pub enum RequestId {
    Text(String),
    Integer(i64),
}

/// A request id as a mathematical value.
pub enum RequestIdView {
    Text(Seq<char>),
    Integer(int),
}

impl View for RequestId {
    type V = RequestIdView;

    open spec fn view(&self) -> RequestIdView {
        match *self {
            RequestId::Text(text) => RequestIdView::Text(text@),
            RequestId::Integer(number) => RequestIdView::Integer(number as int),
        }
    }
}

/// An error answered to a request.
#[derive(Debug, Clone, PartialEq, Eq)]
pub struct JSONRPCErrorError {
    pub code: i64,
    pub message: String,
}

/// An error as a mathematical value.
#[verifier::ext_equal]
pub struct ErrorView {
    pub code: i64,
    pub message: Seq<char>,
}

impl View for JSONRPCErrorError {
    type V = ErrorView;

    open spec fn view(&self) -> ErrorView {
        ErrorView { code: self.code, message: self.message@ }
    }
}

/// The error for a request that is invalid in the current state.
pub open spec fn invalid_request_error(message: Seq<char>) -> ErrorView {
    ErrorView { code: INVALID_REQUEST_CODE, message }
}

/// The error for parameters that are invalid in themselves.
pub open spec fn invalid_params_error(message: Seq<char>) -> ErrorView {
    ErrorView { code: INVALID_PARAMS_CODE, message }
}

/// The error for an unknown method.
pub open spec fn method_not_found_error(message: Seq<char>) -> ErrorView {
    ErrorView { code: METHOD_NOT_FOUND_CODE, message }
}

/// The error for a failure inside the service.
pub open spec fn internal_error_view(message: Seq<char>) -> ErrorView {
    ErrorView { code: INTERNAL_ERROR_CODE, message }
}

/// A result whose error is seen as a mathematical value.
pub open spec fn error_of<T>(result: Result<T, JSONRPCErrorError>) -> Option<ErrorView> {
    match result {
        Ok(_) => None,
        Err(error) => Some(error@),
    }
}

pub fn invalid_request(message: String) -> (error: JSONRPCErrorError)
    ensures
        error@ == invalid_request_error(message@),
{
    rpc_error(INVALID_REQUEST_CODE, message)
}

pub fn invalid_params(message: String) -> (error: JSONRPCErrorError)
    ensures
        error@ == invalid_params_error(message@),
{
    rpc_error(INVALID_PARAMS_CODE, message)
}

pub fn method_not_found(message: String) -> (error: JSONRPCErrorError)
    ensures
        error@ == method_not_found_error(message@),
{
    rpc_error(METHOD_NOT_FOUND_CODE, message)
}

pub fn internal_error(message: String) -> (error: JSONRPCErrorError)
    ensures
        error@ == internal_error_view(message@),
{
    rpc_error(INTERNAL_ERROR_CODE, message)
}

fn rpc_error(code: i64, message: String) -> (error: JSONRPCErrorError)
    ensures
        error@ == (ErrorView { code, message: message@ }),
{
    JSONRPCErrorError { code, message }
}

/// The value of a member of a JSON object that the service sends.
#[derive(Debug, Clone, PartialEq, Eq)]
pub enum FieldValue {
    Null,
    Flag(bool),
    Number(i64),
    Text(String),
    TextList(Vec<String>),
    /// A JSON value that is already in its text form.
    Json(String),
}

/// A member value as a mathematical value.
#[verifier::ext_equal]
pub enum FieldValueView {
    Null,
    Flag(bool),
    Number(int),
    Text(Seq<char>),
    TextList(Seq<Seq<char>>),
    Json(Seq<char>),
}

impl View for FieldValue {
    type V = FieldValueView;

    open spec fn view(&self) -> FieldValueView {
        match *self {
            FieldValue::Null => FieldValueView::Null,
            FieldValue::Flag(flag) => FieldValueView::Flag(flag),
            FieldValue::Number(number) => FieldValueView::Number(number as int),
            FieldValue::Text(text) => FieldValueView::Text(text@),
            FieldValue::TextList(list) => FieldValueView::TextList(texts(list@)),
            FieldValue::Json(json) => FieldValueView::Json(json@),
        }
    }
}

/// A member of a JSON object that the service sends.
#[derive(Debug, Clone, PartialEq, Eq)]
pub struct Field {
    pub name: &'static str,
    pub value: FieldValue,
}

impl View for Field {
    type V = (Seq<char>, FieldValueView);

    open spec fn view(&self) -> (Seq<char>, FieldValueView) {
        (self.name@, self.value@)
    }
}

/// A JSON object: its members in order.
pub type ObjectView = Seq<(Seq<char>, FieldValueView)>;

/// The members of an object.
pub open spec fn object(fields: Seq<Field>) -> ObjectView {
    fields.map_values(|field: Field| field@)
}

/// A member that holds a text or `null`.
pub open spec fn text_or_null(text: Option<Seq<char>>) -> FieldValueView {
    match text {
        Some(t) => FieldValueView::Text(t),
        None => FieldValueView::Null,
    }
}

pub(crate) fn text_or_null_value(text: Option<String>) -> (value: FieldValue)
    ensures
        value@ == text_or_null(opt_text(text)),
{
    match text {
        Some(t) => FieldValue::Text(t),
        None => FieldValue::Null,
    }
}

/// A message from the service to a client.
#[derive(Debug, Clone, PartialEq, Eq)]
pub enum OutgoingMessage {
    Request { id: RequestId, method: &'static str, params: Vec<Field> },
    Response { id: RequestId, result: Vec<Field> },
    Error { id: RequestId, error: JSONRPCErrorError },
    Notification { method: &'static str, params: Vec<Field> },
}

/// A message as a mathematical value.
#[verifier::ext_equal]
pub enum MessageView {
    Request { id: RequestIdView, method: Seq<char>, params: ObjectView },
    Response { id: RequestIdView, result: ObjectView },
    Error { id: RequestIdView, error: ErrorView },
    Notification { method: Seq<char>, params: ObjectView },
}

impl View for OutgoingMessage {
    type V = MessageView;

    open spec fn view(&self) -> MessageView {
        match *self {
            OutgoingMessage::Request { id, method, params } => MessageView::Request {
                id: id@,
                method: method@,
                params: object(params@),
            },
            OutgoingMessage::Response { id, result } => MessageView::Response {
                id: id@,
                result: object(result@),
            },
            OutgoingMessage::Error { id, error } => MessageView::Error { id: id@, error: error@ },
            OutgoingMessage::Notification { method, params } => MessageView::Notification {
                method: method@,
                params: object(params@),
            },
        }
    }
}

/// The reply that carries an empty object.
pub open spec fn empty_response(id: RequestIdView) -> MessageView {
    MessageView::Response { id, result: Seq::empty() }
}

pub(crate) fn empty_reply(id: RequestId) -> (message: OutgoingMessage)
    ensures
        message@ == empty_response(id@),
{
    let result: Vec<Field> = Vec::new();
    assert(object(result@) =~= Seq::empty());
    OutgoingMessage::Response { id, result }
}

pub(crate) fn error_reply(id: RequestId, error: JSONRPCErrorError) -> (message: OutgoingMessage)
    ensures
        message@ == (MessageView::Error { id: id@, error: error@ }),
{
    OutgoingMessage::Error { id, error }
}

/// Final result for `command/exec`.
///
/// Both variants deliberately have the same payload shape so clients can map
/// the tagged wire value directly into an algebraic data type.
#[derive(Debug, Clone, PartialEq, Eq)]
pub enum CommandExecOutcome {
    Completed { exit_code: i32, stdout: String, stderr: String },
    SandboxDenied { exit_code: i32, stdout: String, stderr: String },
}

/// The members of a final result: its tag and a payload of the same shape for
/// both tags.
pub open spec fn outcome_object(
    sandbox_denied: bool,
    exit_code: int,
    stdout: Seq<char>,
    stderr: Seq<char>,
) -> ObjectView {
    let tag = if sandbox_denied {
        "sandboxDenied"@
    } else {
        "completed"@
    };
    seq![
        ("type"@, FieldValueView::Text(tag)),
        ("exitCode"@, FieldValueView::Number(exit_code)),
        ("stdout"@, FieldValueView::Text(stdout)),
        ("stderr"@, FieldValueView::Text(stderr)),
    ]
}

impl CommandExecOutcome {
    pub open spec fn denied(self) -> bool {
        self is SandboxDenied
    }

    pub open spec fn code(self) -> i32 {
        match self {
            CommandExecOutcome::Completed { exit_code, .. } => exit_code,
            CommandExecOutcome::SandboxDenied { exit_code, .. } => exit_code,
        }
    }

    pub open spec fn out(self) -> String {
        match self {
            CommandExecOutcome::Completed { stdout, .. } => stdout,
            CommandExecOutcome::SandboxDenied { stdout, .. } => stdout,
        }
    }

    pub open spec fn err(self) -> String {
        match self {
            CommandExecOutcome::Completed { stderr, .. } => stderr,
            CommandExecOutcome::SandboxDenied { stderr, .. } => stderr,
        }
    }

    pub fn new(sandbox_denied: bool, exit_code: i32, stdout: String, stderr: String) -> (outcome:
        Self)
        ensures
            outcome == (if sandbox_denied {
                CommandExecOutcome::SandboxDenied { exit_code, stdout, stderr }
            } else {
                CommandExecOutcome::Completed { exit_code, stdout, stderr }
            }),
    {
        if sandbox_denied {
            Self::SandboxDenied { exit_code, stdout, stderr }
        } else {
            Self::Completed { exit_code, stdout, stderr }
        }
    }

    /// The tagged wire object of the outcome.
    pub fn into_fields(self) -> (fields: Vec<Field>)
        ensures
            object(fields@) == outcome_object(
                self.denied(),
                self.code() as int,
                self.out()@,
                self.err()@,
            ),
    {
        let (tag, exit_code, stdout, stderr) = match self {
            Self::Completed { exit_code, stdout, stderr } => (
                "completed",
                exit_code,
                stdout,
                stderr,
            ),
            Self::SandboxDenied { exit_code, stdout, stderr } => (
                "sandboxDenied",
                exit_code,
                stdout,
                stderr,
            ),
        };
        let mut fields: Vec<Field> = Vec::new();
        fields.push(Field { name: "type", value: FieldValue::Text(tag.to_owned()) });
        fields.push(Field { name: "exitCode", value: FieldValue::Number(exit_code as i64) });
        fields.push(Field { name: "stdout", value: FieldValue::Text(stdout) });
        fields.push(Field { name: "stderr", value: FieldValue::Text(stderr) });
        assert(object(fields@) =~= outcome_object(
            self.denied(),
            self.code() as int,
            self.out()@,
            self.err()@,
        ));
        fields
    }
}

/// The names of the members of an object, in order.
pub open spec fn member_names(object: ObjectView) -> Seq<Seq<char>> {
    object.map_values(|member: (Seq<char>, FieldValueView)| member.0)
}

/// Whether an object has a member with this name and value.
pub open spec fn has_member(object: ObjectView, name: Seq<char>, value: FieldValueView) -> bool {
    exists|i: int| 0 <= i < object.len() && #[trigger] object[i] == (name, value)
}

/// An outcome has exactly a tag, an exit code and the two texts. Whatever the exit
/// code and the kind, the code and both texts are there whole, and the tag tells a
/// denial from a completion.
pub proof fn law_outcomes_are_answered_whole(outcome: CommandExecOutcome)
    ensures
        ({
            let answered = outcome_object(
                outcome.denied(),
                outcome.code() as int,
                outcome.out()@,
                outcome.err()@,
            );
            let (tag, exit_code, stdout, stderr) = match outcome {
                CommandExecOutcome::Completed { exit_code, stdout, stderr } => (
                    "completed"@,
                    exit_code,
                    stdout@,
                    stderr@,
                ),
                CommandExecOutcome::SandboxDenied { exit_code, stdout, stderr } => (
                    "sandboxDenied"@,
                    exit_code,
                    stdout@,
                    stderr@,
                ),
            };
            &&& member_names(answered) == seq!["type"@, "exitCode"@, "stdout"@, "stderr"@]
            &&& has_member(answered, "type"@, FieldValueView::Text(tag))
            &&& has_member(answered, "exitCode"@, FieldValueView::Number(exit_code as int))
            &&& has_member(answered, "stdout"@, FieldValueView::Text(stdout))
            &&& has_member(answered, "stderr"@, FieldValueView::Text(stderr))
        }),
{
    let answered = outcome_object(
        outcome.denied(),
        outcome.code() as int,
        outcome.out()@,
        outcome.err()@,
    );
    assert(member_names(answered) =~= seq!["type"@, "exitCode"@, "stdout"@, "stderr"@]);
    assert(answered[0].0 == "type"@ && answered[1].0 == "exitCode"@);
    assert(answered[2].0 == "stdout"@ && answered[3].0 == "stderr"@);
}

/// Each kind of error has its own code, and its message is the given one.
pub proof fn law_errors_carry_their_code_and_message(message: Seq<char>)
    ensures
        invalid_request_error(message).code == -32600,
        method_not_found_error(message).code == -32601,
        invalid_params_error(message).code == -32602,
        internal_error_view(message).code == -32603,
        invalid_request_error(message).message == message,
        method_not_found_error(message).message == message,
        invalid_params_error(message).message == message,
        internal_error_view(message).message == message,
{
}

/// An error that is returned is seen with its code and its message, and a success
/// as none.
pub proof fn law_errors_are_seen_whole<T>(result: Result<T, JSONRPCErrorError>)
    ensures
        match result {
            Ok(_) => error_of(result) is None,
            Err(error) => error_of(result) matches Some(seen) && seen.code == error.code
                && seen.message == error.message@,
        },
{
}

/// Nothing of a value is lost in how contracts see it: each member is seen with its
/// name and value, and each value as what it is.
pub proof fn law_members_are_seen_whole(fields: Seq<Field>, i: int)
    requires
        0 <= i < fields.len(),
    ensures
        object(fields).len() == fields.len(),
        object(fields)[i].0 == fields[i].name@,
        match fields[i].value {
            FieldValue::Null => object(fields)[i].1 == FieldValueView::Null,
            FieldValue::Flag(flag) => object(fields)[i].1 == FieldValueView::Flag(flag),
            FieldValue::Number(number) => object(fields)[i].1 == FieldValueView::Number(
                number as int,
            ),
            FieldValue::Text(text) => object(fields)[i].1 == FieldValueView::Text(text@),
            FieldValue::TextList(list) => object(fields)[i].1 matches FieldValueView::TextList(
                seen,
            ) && seen.len() == list@.len() && forall|j: int|
                0 <= j < seen.len() ==> #[trigger] seen[j] == list@[j]@,
            FieldValue::Json(json) => object(fields)[i].1 == FieldValueView::Json(json@),
        },
{
}

/// Nothing of a message is lost in how contracts see it.
pub proof fn law_messages_are_seen_whole(message: OutgoingMessage)
    ensures
        match message {
            OutgoingMessage::Request { id, method, params } => message@
                matches MessageView::Request { id: seen, method: name, params: members } && seen
                == id@ && name == method@ && members == object(params@),
            OutgoingMessage::Response { id, result } => message@ matches MessageView::Response {
                id: seen,
                result: members,
            } && seen == id@ && members == object(result@),
            OutgoingMessage::Error { id, error } => message@ matches MessageView::Error {
                id: seen,
                error: shown,
            } && seen == id@ && shown.code == error.code && shown.message == error.message@,
            OutgoingMessage::Notification { method, params } => message@
                matches MessageView::Notification { method: name, params: members } && name
                == method@ && members == object(params@),
        },
{
}

/// Two request ids are seen as the same only if they are: a text and a number never
/// are.
pub proof fn law_request_ids_are_told_apart(a: RequestId, b: RequestId)
    requires
        a@ == b@,
    ensures
        match (a, b) {
            (RequestId::Text(s), RequestId::Text(t)) => s@ == t@,
            (RequestId::Integer(m), RequestId::Integer(n)) => m == n,
            _ => false,
        },
{
}

/// The reply to a control has the id of its request and no members.
pub proof fn law_empty_replies_hold_nothing(id: RequestIdView)
    ensures
        empty_response(id) matches MessageView::Response { id: own, result } && own == id
            && result.len() == 0,
{
}

/// A missing text is sent as `null`, and one that is there as itself.
pub proof fn law_missing_texts_are_null(text: Seq<char>)
    ensures
        text_or_null(None) == FieldValueView::Null,
        text_or_null(Some(text)) == FieldValueView::Text(text),
{
}

} // verus!
