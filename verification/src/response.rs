//! The response mapper: the one place that decides what a client sees of an
//! error.
//!
//! It runs on every response. A response that carries an internal error is
//! replaced by the status and the client-safe kind of the mapping table,
//! with a fresh correlation id; any other response passes unchanged. Either
//! way one log record is built, under the same correlation id.

use vstd::prelude::*;
use vstd::string::*;
use crate::ctx::Ctx;
use crate::error::{ClientError, Error, HttpStatus};
use crate::log::{log_line_of, log_request, optional_error, RequestLogLine};
use crate::request_id::{is_uuid_v4_text, new_request_uuid};

verus! {

/// The body of an error response: `{"error": {"type": .., "req_uuid": ..}}`.
/// `fields` spells it out.
#[derive(Debug, Clone)]
pub struct ClientErrorBody {
    pub error_type: ClientError,
    pub req_uuid: String,
}

/// One member of the object that an error body holds: its name and its
/// text.
#[derive(Debug, Clone)]
pub struct BodyMember {
    pub name: &'static str,
    pub value: String,
}

impl View for BodyMember {
    type V = (Seq<char>, Seq<char>);

    open spec fn view(&self) -> (Seq<char>, Seq<char>) {
        (self.name@, self.value@)
    }
}

/// One field of an error body: its name, and the members of the object
/// that stands under it.
#[derive(Debug, Clone)]
pub struct BodyField {
    pub name: &'static str,
    pub members: Vec<BodyMember>,
}

/// A list of members, as plain values.
pub open spec fn members_view(members: Seq<BodyMember>) -> Seq<(Seq<char>, Seq<char>)> {
    Seq::new(members.len(), |i: int| members[i]@)
}

impl View for BodyField {
    type V = (Seq<char>, Seq<(Seq<char>, Seq<char>)>);

    open spec fn view(&self) -> (Seq<char>, Seq<(Seq<char>, Seq<char>)>) {
        (self.name@, members_view(self.members@))
    }
}

/// A list of body fields, as plain values.
pub open spec fn body_fields_view(fields: Seq<BodyField>) -> Seq<
    (Seq<char>, Seq<(Seq<char>, Seq<char>)>),
> {
    Seq::new(fields.len(), |i: int| fields[i]@)
}

/// What a client receives for an error of the kind `error_type` under the
/// correlation id `req_uuid`: one field `error`, and under it the kind's
/// identifier as `type` and the id as `req_uuid`, in this order and with
/// nothing else.
pub open spec fn client_error_body_fields(error_type: ClientError, req_uuid: Seq<char>) -> Seq<
    (Seq<char>, Seq<(Seq<char>, Seq<char>)>),
> {
    seq![("error"@, seq![("type"@, error_type.name()), ("req_uuid"@, req_uuid)])]
}

impl ClientErrorBody {
    /// The fields of the body by name, as they go to the client.
    pub fn fields(&self) -> (fields: Vec<BodyField>)
        ensures
            body_fields_view(fields@) == client_error_body_fields(self.error_type, self.req_uuid@),
    {
        let mut members: Vec<BodyMember> = Vec::new();
        members.push(BodyMember { name: "type", value: self.error_type.as_str().to_owned() });
        members.push(BodyMember { name: "req_uuid", value: self.req_uuid.clone() });
        assert(members_view(members@) =~= seq![
            ("type"@, self.error_type.name()),
            ("req_uuid"@, self.req_uuid@),
        ]);
        let mut fields: Vec<BodyField> = Vec::new();
        fields.push(BodyField { name: "error", members });
        assert(body_fields_view(fields@) =~= client_error_body_fields(
            self.error_type,
            self.req_uuid@,
        ));
        fields
    }
}

/// The response that takes the place of one that carried an error.
#[derive(Debug, Clone)]
pub struct ErrorResponse {
    pub status: HttpStatus,
    pub body: ClientErrorBody,
}

/// What the mapper decided for one response.
#[derive(Debug, Clone)]
pub struct MappedResponse {
    /// The response to send in place of the handler's; `None` if the
    /// handler's response goes out as it is.
    pub error_response: Option<ErrorResponse>,
    /// The record to emit for this request.
    pub log_line: RequestLogLine,
}

/// The kind that the client is told, if the response carried an error.
pub open spec fn client_error_of(service_error: Option<Error>) -> Option<ClientError> {
    match service_error {
        None => None,
        Some(error) => Some(error.status_and_client_error().1),
    }
}

/// True if `out` is what the mapper owes for a response that carried
/// `service_error`, under the correlation id `uuid`: without an error, no
/// replacement; with one, the status and kind of the mapping table and the
/// id in the body; in both cases the log record of the request under the
/// same id.
pub open spec fn is_mapped(
    out: MappedResponse,
    uuid: Seq<char>,
    timestamp_ms: u128,
    context: Option<Ctx>,
    uri: Seq<char>,
    request_method: Seq<char>,
    service_error: Option<Error>,
) -> bool {
    &&& match service_error {
        None => out.error_response is None,
        Some(error) => {
            &&& out.error_response is Some
            &&& out.error_response->0.status == error.status_and_client_error().0
            &&& out.error_response->0.body.error_type == error.status_and_client_error().1
            &&& out.error_response->0.body.req_uuid@ == uuid
        },
    }
    &&& out.log_line@ == log_line_of(
        uuid,
        timestamp_ms,
        request_method,
        uri,
        context,
        service_error,
        client_error_of(service_error),
    )
}

/// Maps one response under the correlation id `uuid`.
pub fn map_response(
    uuid: String,
    timestamp_ms: u128,
    context: Option<Ctx>,
    uri: &str,
    request_method: &str,
    service_error: Option<&Error>,
) -> (out: MappedResponse)
    ensures
        is_mapped(
            out,
            uuid@,
            timestamp_ms,
            context,
            uri@,
            request_method@,
            optional_error(service_error),
        ),
{
    let client_status_error = match service_error {
        None => None,
        Some(error) => Some(error.client_status_and_error()),
    };
    let client_error = match client_status_error {
        None => None,
        Some((_, kind)) => Some(kind),
    };
    let log_line = log_request(
        uuid.as_str(),
        timestamp_ms,
        request_method,
        uri,
        context,
        service_error,
        client_error,
    );
    let error_response = match client_status_error {
        None => None,
        Some((status, kind)) => Some(
            ErrorResponse { status, body: ClientErrorBody { error_type: kind, req_uuid: uuid } },
        ),
    };
    MappedResponse { error_response, log_line }
}

/// The response mapper. Draws a fresh correlation id and maps the response
/// under it: see `map_response`. `service_error` is the internal error that
/// the response carries, if any; `timestamp_ms` is the clock's reading.
pub fn main_response_mapper(
    timestamp_ms: u128,
    context: Option<Ctx>,
    uri: &str,
    request_method: &str,
    service_error: Option<&Error>,
) -> (out: MappedResponse)
    ensures
        is_uuid_v4_text(out.log_line@.uuid),
        is_mapped(
            out,
            out.log_line@.uuid,
            timestamp_ms,
            context,
            uri@,
            request_method@,
            optional_error(service_error),
        ),
{
    let uuid = new_request_uuid();
    map_response(uuid, timestamp_ms, context, uri, request_method, service_error)
}

/// Whatever the response carried, the mapper gives one log record for it,
/// and where it replaces the response, the id in the body is the id of that
/// record, the status and kind are those of the mapping table, and the
/// record names the error that the client is not shown.
pub proof fn lemma_one_record_per_response(
    out: MappedResponse,
    uuid: Seq<char>,
    timestamp_ms: u128,
    context: Option<Ctx>,
    uri: Seq<char>,
    request_method: Seq<char>,
    service_error: Option<Error>,
)
    requires
        is_mapped(out, uuid, timestamp_ms, context, uri, request_method, service_error),
    ensures
        out.log_line@.uuid == uuid,
        out.error_response is Some <==> service_error is Some,
        out.error_response is Some ==> out.error_response->0.body.req_uuid@ == out.log_line@.uuid,
        out.error_response is Some ==> out.log_line@.error_type == Some(service_error->0.name())
            && out.log_line@.client_error_type == Some(
            out.error_response->0.body.error_type.name(),
        ),
        out.error_response is None ==> out.log_line@.error_type is None
            && out.log_line@.client_error_type is None && out.log_line@.error_data is None,
{
}

} // verus!
