//! Reporting the firmware version to the server after an upgrade.

use vstd::prelude::*;
use vstd::string::*;

use crate::activation::{http_form, strip_trailing_slashes, without_trailing_slashes};

verus! {

/// Why a report failed.
#[derive(Debug, Clone, PartialEq, Eq)]
pub enum ReportError {
    /// The HTTP request failed.
    HttpError(String),
    /// The body could not be written or read.
    ParseError(String),
    /// The server answered with an error status.
    ServerError(u16, String),
}

/// What a `ReportError` holds.
pub enum ReportErrorView {
    HttpError(Seq<char>),
    ParseError(Seq<char>),
    ServerError(u16, Seq<char>),
}

impl View for ReportError {
    type V = ReportErrorView;

    open spec fn view(&self) -> ReportErrorView {
        match *self {
            ReportError::HttpError(message) => ReportErrorView::HttpError(message@),
            ReportError::ParseError(message) => ReportErrorView::ParseError(message@),
            ReportError::ServerError(status, body) => ReportErrorView::ServerError(status, body@),
        }
    }
}

/// Turns the address of a WebSocket server into that of its HTTP side.
pub fn convert_ws_to_http(url: &str) -> (http: String)
    ensures
        http@ == http_form(url@),
{
    crate::activation::convert_ws_to_http(url)
}

/// The address that takes the report of a server given in its WebSocket or
/// HTTP form.
pub fn report_url(server_url: &str) -> (url: String)
    ensures
        url@ == without_trailing_slashes(http_form(server_url@)) + "/api/devices/report"@,
{
    let base = convert_ws_to_http(server_url);
    let mut url = strip_trailing_slashes(base.as_str());
    url.append("/api/devices/report");
    url
}

/// Judges the status of the answer to a report: only 200 is a success.
pub fn check_report_status(status: u16, body: String) -> (outcome: Result<(), ReportError>)
    ensures
        status == 200 ==> outcome is Ok,
        status != 200 ==> outcome is Err && outcome->Err_0@ == ReportErrorView::ServerError(
            status,
            body@,
        ),
{
    if status == 200 {
        Ok(())
    } else {
        Err(ReportError::ServerError(status, body))
    }
}

} // verus!
