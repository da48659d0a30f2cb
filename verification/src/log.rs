//! The request log: one record per response, with the correlation id, the
//! request, the caller if there is one, and the error if there was one.

use vstd::prelude::*;
use vstd::string::*;
use crate::ctx::Ctx;
use crate::decimal::{decimal_digits, format_decimal};
use crate::error::{ClientError, Error};

verus! {

/// The structured payload of an error: what it carries besides its kind.
#[derive(Debug, Clone, Copy, PartialEq, Eq, Structural)]
pub struct ErrorData {
    pub id: u64,
}

/// The payload of `error`, if it has one: the id of a ticket that was not
/// found.
pub open spec fn error_data_of(error: Error) -> Option<ErrorData> {
    match error {
        Error::RecordDeleteFailIdNotFound { id } => Some(ErrorData { id }),
        _ => None,
    }
}

/// One record of the request log.
#[derive(Debug, Clone)]
pub struct RequestLogLine {
    pub uuid: String,
    pub timestamp: String,
    pub user_id: Option<u64>,
    pub req_path: String,
    pub req_method: String,
    pub client_error_type: Option<String>,
    pub error_type: Option<String>,
    pub error_data: Option<ErrorData>,
}

/// A log record as plain values.
pub struct RequestLogLineView {
    pub uuid: Seq<char>,
    pub timestamp: Seq<char>,
    pub user_id: Option<u64>,
    pub req_path: Seq<char>,
    pub req_method: Seq<char>,
    pub client_error_type: Option<Seq<char>>,
    pub error_type: Option<Seq<char>>,
    pub error_data: Option<ErrorData>,
}

/// The text of an optional string.
pub open spec fn optional_text(s: Option<String>) -> Option<Seq<char>> {
    match s {
        None => None,
        Some(text) => Some(text@),
    }
}

impl View for RequestLogLine {
    type V = RequestLogLineView;

    open spec fn view(&self) -> RequestLogLineView {
        RequestLogLineView {
            uuid: self.uuid@,
            timestamp: self.timestamp@,
            user_id: self.user_id,
            req_path: self.req_path@,
            req_method: self.req_method@,
            client_error_type: optional_text(self.client_error_type),
            error_type: optional_text(self.error_type),
            error_data: self.error_data,
        }
    }
}

/// The record of one request: the timestamp in decimal, the caller's id if
/// the request was authenticated, and, if it failed, the internal error's
/// name and payload with the kind that the client was told.
pub open spec fn log_line_of(
    uuid: Seq<char>,
    timestamp_ms: u128,
    request_method: Seq<char>,
    uri: Seq<char>,
    context: Option<Ctx>,
    service_error: Option<Error>,
    client_error: Option<ClientError>,
) -> RequestLogLineView {
    RequestLogLineView {
        uuid,
        timestamp: decimal_digits(timestamp_ms as nat),
        user_id: match context {
            None => None,
            Some(ctx) => Some(ctx.id()),
        },
        req_path: uri,
        req_method: request_method,
        client_error_type: match client_error {
            None => None,
            Some(kind) => Some(kind.name()),
        },
        error_type: match service_error {
            None => None,
            Some(error) => Some(error.name()),
        },
        error_data: match service_error {
            None => None,
            Some(error) => error_data_of(error),
        },
    }
}

/// An optional error, by value.
pub open spec fn optional_error(error: Option<&Error>) -> Option<Error> {
    match error {
        None => None,
        Some(e) => Some(*e),
    }
}

impl Error {
    /// The structured payload of the error, if it has one.
    pub fn data(&self) -> (data: Option<ErrorData>)
        ensures
            data == error_data_of(*self),
    {
        match self {
            Error::RecordDeleteFailIdNotFound { id } => Some(ErrorData { id: *id }),
            _ => None,
        }
    }
}

/// Builds the log record of one request. `timestamp_ms` is the clock's
/// reading in milliseconds since the epoch. The record is returned to be
/// emitted: building it cannot fail, so a sink that fails later has no way to
/// fail the request.
pub fn log_request(
    uuid: &str,
    timestamp_ms: u128,
    request_method: &str,
    uri: &str,
    context: Option<Ctx>,
    service_error: Option<&Error>,
    client_error: Option<ClientError>,
) -> (line: RequestLogLine)
    ensures
        line@ == log_line_of(
            uuid@,
            timestamp_ms,
            request_method@,
            uri@,
            context,
            optional_error(service_error),
            client_error,
        ),
{
    let error_type = match service_error {
        None => None,
        Some(error) => Some(error.as_str().to_owned()),
    };
    let error_data = match service_error {
        None => None,
        Some(error) => error.data(),
    };
    let user_id = match context {
        None => None,
        Some(ctx) => Some(ctx.user_id()),
    };
    let client_error_type = match client_error {
        None => None,
        Some(kind) => Some(kind.as_str().to_owned()),
    };
    RequestLogLine {
        uuid: uuid.to_owned(),
        timestamp: format_decimal(timestamp_ms),
        user_id,
        req_path: uri.to_owned(),
        req_method: request_method.to_owned(),
        client_error_type,
        error_type,
        error_data,
    }
}

/// The value of one emitted field.
#[derive(Debug, Clone)]
pub enum LogValue {
    Text(String),
    Number(u64),
    Data(ErrorData),
}

/// The value of one emitted field, as a plain value.
pub enum LogValueView {
    Text(Seq<char>),
    Number(u64),
    Data(ErrorData),
}

impl View for LogValue {
    type V = LogValueView;

    open spec fn view(&self) -> LogValueView {
        match self {
            LogValue::Text(text) => LogValueView::Text(text@),
            LogValue::Number(n) => LogValueView::Number(*n),
            LogValue::Data(data) => LogValueView::Data(*data),
        }
    }
}

/// One emitted field: its name and its value.
#[derive(Debug, Clone)]
pub struct LogField {
    pub name: &'static str,
    pub value: LogValue,
}

impl View for LogField {
    type V = (Seq<char>, LogValueView);

    open spec fn view(&self) -> (Seq<char>, LogValueView) {
        (self.name@, self.value@)
    }
}

/// The field `name` with a text, if there is one, and nothing otherwise.
pub open spec fn text_field(name: Seq<char>, text: Option<Seq<char>>) -> Seq<
    (Seq<char>, LogValueView),
> {
    match text {
        None => Seq::empty(),
        Some(t) => seq![(name, LogValueView::Text(t))],
    }
}

/// The fields that a record is emitted with, in order. The four fields that
/// every record has come always; each of the others comes only if it has a
/// value, and is left out otherwise.
pub open spec fn emitted_fields(line: RequestLogLineView) -> Seq<(Seq<char>, LogValueView)> {
    seq![
        ("uuid"@, LogValueView::Text(line.uuid)),
        ("timestamp"@, LogValueView::Text(line.timestamp)),
    ] + (match line.user_id {
        None => Seq::empty(),
        Some(id) => seq![("user_id"@, LogValueView::Number(id))],
    }) + seq![
        ("req_path"@, LogValueView::Text(line.req_path)),
        ("req_method"@, LogValueView::Text(line.req_method)),
    ] + text_field("client_error_type"@, line.client_error_type) + text_field(
        "error_type"@,
        line.error_type,
    ) + (match line.error_data {
        None => Seq::empty(),
        Some(data) => seq![("error_data"@, LogValueView::Data(data))],
    })
}

/// The fields of a list, as plain values.
pub open spec fn fields_view(fields: Seq<LogField>) -> Seq<(Seq<char>, LogValueView)> {
    Seq::new(fields.len(), |i: int| fields[i]@)
}

/// The number of optional fields of a record that have a value.
pub open spec fn present_optional_fields(line: RequestLogLineView) -> nat {
    (if line.user_id is Some { 1nat } else { 0nat })
        + (if line.client_error_type is Some { 1nat } else { 0nat })
        + (if line.error_type is Some { 1nat } else { 0nat })
        + (if line.error_data is Some { 1nat } else { 0nat })
}

impl RequestLogLine {
    /// The fields to emit this record with: those that have a value, in
    /// order. A field without a value is not in the list.
    pub fn fields(&self) -> (fields: Vec<LogField>)
        ensures
            fields_view(fields@) == emitted_fields(self@),
    {
        let mut fields: Vec<LogField> = Vec::new();
        fields.push(LogField { name: "uuid", value: LogValue::Text(self.uuid.clone()) });
        fields.push(LogField { name: "timestamp", value: LogValue::Text(self.timestamp.clone()) });
        match self.user_id {
            None => {},
            Some(id) => {
                fields.push(LogField { name: "user_id", value: LogValue::Number(id) });
            },
        }
        fields.push(LogField { name: "req_path", value: LogValue::Text(self.req_path.clone()) });
        fields.push(
            LogField { name: "req_method", value: LogValue::Text(self.req_method.clone()) },
        );
        match &self.client_error_type {
            None => {},
            Some(kind) => {
                fields.push(
                    LogField { name: "client_error_type", value: LogValue::Text(kind.clone()) },
                );
            },
        }
        match &self.error_type {
            None => {},
            Some(name) => {
                fields.push(LogField { name: "error_type", value: LogValue::Text(name.clone()) });
            },
        }
        match self.error_data {
            None => {},
            Some(data) => {
                fields.push(LogField { name: "error_data", value: LogValue::Data(data) });
            },
        }
        assert(fields_view(fields@) =~= emitted_fields(self@));
        fields
    }
}

/// The members that an error's payload is emitted with: the id, under the
/// name `id`.
pub open spec fn error_data_fields(data: ErrorData) -> Seq<(Seq<char>, LogValueView)> {
    seq![("id"@, LogValueView::Number(data.id))]
}

impl ErrorData {
    /// The members to emit this payload with, by name.
    pub fn fields(&self) -> (fields: Vec<LogField>)
        ensures
            fields_view(fields@) == error_data_fields(*self),
    {
        let mut fields: Vec<LogField> = Vec::new();
        fields.push(LogField { name: "id", value: LogValue::Number(self.id) });
        assert(fields_view(fields@) =~= error_data_fields(*self));
        fields
    }
}

/// A record is emitted with its four fixed fields and with one field for
/// each optional value that is there: nothing stands in for a missing one.
pub proof fn lemma_absent_fields_are_omitted(line: RequestLogLineView)
    ensures
        emitted_fields(line).len() == 4 + present_optional_fields(line),
        line.user_id is None ==> forall|i: int|
            0 <= i < emitted_fields(line).len() ==> (#[trigger] emitted_fields(line)[i]).0
                != "user_id"@,
        line.client_error_type is None ==> forall|i: int|
            0 <= i < emitted_fields(line).len() ==> (#[trigger] emitted_fields(line)[i]).0
                != "client_error_type"@,
        line.error_type is None ==> forall|i: int|
            0 <= i < emitted_fields(line).len() ==> (#[trigger] emitted_fields(line)[i]).0
                != "error_type"@,
        line.error_data is None ==> forall|i: int|
            0 <= i < emitted_fields(line).len() ==> (#[trigger] emitted_fields(line)[i]).0
                != "error_data"@,
{
    reveal_strlit("uuid");
    reveal_strlit("timestamp");
    reveal_strlit("user_id");
    reveal_strlit("req_path");
    reveal_strlit("req_method");
    reveal_strlit("client_error_type");
    reveal_strlit("error_type");
    reveal_strlit("error_data");
    assert("uuid"@.len() == 4 && "timestamp"@.len() == 9 && "user_id"@.len() == 7);
    assert("req_path"@.len() == 8 && "req_method"@.len() == 10);
    assert("client_error_type"@.len() == 17);
    assert("error_type"@.len() == 10 && "error_data"@.len() == 10);
    assert("req_method"@[0] == 'r' && "error_type"@[0] == 'e' && "error_data"@[0] == 'e');
    assert("error_type"@[6] == 't' && "error_data"@[6] == 'd');
    let fixed_head = seq![
        ("uuid"@, LogValueView::Text(line.uuid)),
        ("timestamp"@, LogValueView::Text(line.timestamp)),
    ];
    let user = match line.user_id {
        None => Seq::<(Seq<char>, LogValueView)>::empty(),
        Some(id) => seq![("user_id"@, LogValueView::Number(id))],
    };
    let fixed_tail = seq![
        ("req_path"@, LogValueView::Text(line.req_path)),
        ("req_method"@, LogValueView::Text(line.req_method)),
    ];
    let client = text_field("client_error_type"@, line.client_error_type);
    let kind = text_field("error_type"@, line.error_type);
    let data = match line.error_data {
        None => Seq::<(Seq<char>, LogValueView)>::empty(),
        Some(d) => seq![("error_data"@, LogValueView::Data(d))],
    };
    let all = emitted_fields(line);
    assert(all == fixed_head + user + fixed_tail + client + kind + data);
    assert forall|i: int| 0 <= i < all.len() implies {
        let name = (#[trigger] all[i]).0;
        &&& name == "uuid"@ || name == "timestamp"@ || name == "req_path"@ || name
            == "req_method"@ || (name == "user_id"@ && line.user_id is Some) || (name
            == "client_error_type"@ && line.client_error_type is Some) || (name == "error_type"@
            && line.error_type is Some) || (name == "error_data"@ && line.error_data is Some)
    } by {
        let a = fixed_head.len() as int;
        let b = a + user.len();
        let c = b + fixed_tail.len();
        let d = c + client.len();
        let e = d + kind.len();
        if i < a {
            assert(all[i] == fixed_head[i]);
        } else if i < b {
            assert(all[i] == user[i - a]);
        } else if i < c {
            assert(all[i] == fixed_tail[i - b]);
        } else if i < d {
            assert(all[i] == client[i - c]);
        } else if i < e {
            assert(all[i] == kind[i - d]);
        } else {
            assert(all[i] == data[i - e]);
        }
    }
}

} // verus!
