//! The sample request handler: it fails, says so in the log, and answers
//! with a server error.

use vstd::prelude::*;
use crate::context::ContextModel;
use crate::error::SomeError;
use crate::event::{AttrModel, AttrValue, Attribute, RecordModel};
use crate::level::Level;
use crate::pipeline::Pipeline;
use crate::scope::{current_of, TaskScope};

verus! {

/// The status code of an internal server error.
///
/// Trusted: `as_u16` of `axum::http::StatusCode::INTERNAL_SERVER_ERROR`
/// is 500.
#[verifier::external_body]
fn internal_server_error() -> (code: u16)
    ensures
        code == 500,
{
    axum::http::StatusCode::INTERNAL_SERVER_ERROR.as_u16()
}

/// The record that the handler logs from a task whose ambient context is
/// `ambient`: at level `Error`, with the text of the error as a field.
pub open spec fn error_record(ambient: Option<ContextModel>) -> RecordModel {
    RecordModel {
        level: Level::Error,
        target: "make_error"@,
        message: "Some error trace!"@,
        fields: seq![("error"@, AttrModel::Text(SomeError::message_spec()))],
        context: ambient,
        error_context: None,
    }
}

/// Handles a request: the work fails with [`SomeError`], the failure is
/// logged at level `Error`, and the answer is the status code 500.
pub fn make_error(pipeline: &mut Pipeline, scope: &TaskScope) -> (r: Result<String, u16>)
    requires
        old(pipeline).wf(),
    ensures
        r == Err::<String, u16>(500),
        final(pipeline).wf(),
        final(pipeline)@ == old(pipeline)@.logged(
            error_record(current_of(scope@)),
            current_of(scope@),
        ),
{
    let failure = SomeError;
    let mut fields: Vec<Attribute> = Vec::new();
    fields.push(Attribute { key: String::from_str("error"), value: AttrValue::Text(failure.message()) });
    let record = scope.record(
        Level::Error,
        String::from_str("make_error"),
        String::from_str("Some error trace!"),
        fields,
    );
    assert(record@.fields =~= error_record(current_of(scope@)).fields);
    pipeline.on_log_record(scope, record);
    Err(internal_server_error())
}

} // verus!
