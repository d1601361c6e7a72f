//! The rules of the service's REST interface: where each request goes and
//! what an answer amounts to. Sending the request is left to the caller.

use crate::error::Error;
use crate::error::ErrorView;
use crate::json::member_text;
use crate::json::member_text_of;
use crate::text::decimal;
use crate::text::joined;
use crate::text::push_decimal;
use crate::text::push_joined;
use crate::text::texts;
use reqwest::header::HeaderValue;
use serde_json::Value;
use vstd::prelude::*;
use vstd::string::*;

verus! {

/// The address under which the service's REST interface stands.
pub open spec fn api_base() -> Seq<char> {
    "https://api.figma.com/v1"@
}

/// A character that may stand in the value of a header: anything but the
/// control characters, of which only the tab may.
pub open spec fn header_safe(c: char) -> bool {
    (c as u32 >= 32 && c as u32 != 127) || c == '\t'
}

/// Every character of `token` may stand in the value of a header.
pub open spec fn is_header_value(token: Seq<char>) -> bool {
    forall|i: int| 0 <= i < token.len() ==> header_safe(#[trigger] token[i])
}

/// The message for a token that cannot be sent.
pub open spec fn invalid_token_message() -> Seq<char> {
    "Invalid token format"@
}

/// `?depth=` or `&depth=` and the number, where a depth is given.
pub open spec fn depth_param(lead: Seq<char>, depth: Option<u32>) -> Seq<char> {
    match depth {
        Some(levels) => lead + "depth="@ + decimal(levels as nat),
        None => Seq::<char>::empty(),
    }
}

/// The address from which a file is fetched.
pub open spec fn file_address(file_id: Seq<char>, depth: Option<u32>) -> Seq<char> {
    api_base() + "/files/"@ + file_id + depth_param("?"@, depth)
}

/// The address from which nodes of a file are fetched. The ids stand in the
/// query as they are given, with commas between them.
pub open spec fn file_nodes_address(
    file_id: Seq<char>,
    node_ids: Seq<Seq<char>>,
    depth: Option<u32>,
) -> Seq<char> {
    api_base() + "/files/"@ + file_id + "/nodes?ids="@ + joined(node_ids, ","@) + depth_param(
        "&"@,
        depth,
    )
}

/// The address at which an export of nodes is asked for. `scale` is the
/// scale as it is to be written, where one is given.
pub open spec fn images_address(
    file_id: Seq<char>,
    node_ids: Seq<Seq<char>>,
    format: Seq<char>,
    scale: Option<Seq<char>>,
) -> Seq<char> {
    api_base() + "/images/"@ + file_id + "?ids="@ + joined(node_ids, ","@) + "&format="@ + format
        + match scale {
        Some(factor) => "&scale="@ + factor,
        None => Seq::<char>::empty(),
    }
}

/// The address from which the user of the token is fetched.
pub open spec fn me_address() -> Seq<char> {
    api_base() + "/me"@
}

/// A status of the range that stands for success.
pub open spec fn is_success(code: u16) -> bool {
    200 <= code < 300
}

/// Tells whether a status stands for success.
pub fn status_is_success(code: u16) -> (b: bool)
    ensures
        b == is_success(code),
{
    200 <= code && code < 300
}

/// The message for an answer whose status is not a success. `status` is
/// the status as it reads, `body` the text that came with it.
pub open spec fn http_failure_message(status: Seq<char>, body: Seq<char>) -> Seq<char> {
    "HTTP "@ + status + ": "@ + body
}

/// What an answer with the status `code` amounts to before its payload is
/// read: nothing yet for a success, else an error that holds the status
/// and the body.
pub open spec fn status_outcome(code: u16, status: Seq<char>, body: Seq<char>) -> Result<(), ErrorView> {
    if is_success(code) {
        Ok(())
    } else {
        Err(ErrorView::FigmaApi(http_failure_message(status, body)))
    }
}

/// What the payload of a good answer amounts to: the service may put an
/// error into it, which then is the outcome. `embedded` is the text of that
/// error, where the payload holds one.
pub open spec fn payload_outcome(embedded: Option<Seq<char>>) -> Result<(), ErrorView> {
    match embedded {
        Some(text) => Err(ErrorView::FigmaApi(text)),
        None => Ok(()),
    }
}

/// The name of the member in which the service puts an error.
pub open spec fn embedded_error_key() -> Seq<char> {
    "err"@
}

/// The views of the two sides of a result that holds nothing.
pub open spec fn unit_result_view(r: Result<(), Error>) -> Result<(), ErrorView> {
    match r {
        Ok(()) => Ok(()),
        Err(e) => Err(e@),
    }
}

/// Tries the text as the value of a header with `HeaderValue::from_str`,
/// which looks at the bytes of the text one by one and takes all of them
/// but the control characters other than the tab. Each character below 128
/// is one such byte, and the bytes of any other character are all 128 or
/// more.
#[verifier::external_body]
fn header_accepts(token: &str) -> (ok: bool)
    ensures
        ok == is_header_value(token@),
{
    HeaderValue::from_str(token).is_ok()
}

/// The rules of the service's REST interface for one access token: which
/// address a request goes to, and what an answer amounts to.
#[derive(Debug, Clone)]
pub struct FigmaClient {
    token: String,
}

impl FigmaClient {
    /// The token of the client.
    pub closed spec fn token(&self) -> Seq<char> {
        self.token@
    }

    /// A client for the token. A token that cannot be sent as the value of
    /// a header is refused.
    pub fn new(token: String) -> (made: Result<FigmaClient, Error>)
        ensures
            match made {
                Ok(client) => is_header_value(token@) && client.token() == token@,
                Err(e) => !is_header_value(token@) && e@ == ErrorView::Auth(invalid_token_message()),
            },
    {
        if header_accepts(token.as_str()) {
            Ok(FigmaClient { token })
        } else {
            Err(Error::Auth(String::from_str("Invalid token format")))
        }
    }

    pub fn get_token(&self) -> (token: &str)
        ensures
            token@ == self.token(),
    {
        self.token.as_str()
    }

    fn push_depth(address: &mut String, lead: &str, depth: Option<u32>)
        ensures
            final(address)@ == old(address)@ + depth_param(lead@, depth),
    {
        if let Some(levels) = depth {
            address.append(lead);
            address.append("depth=");
            push_decimal(address, levels);
        }
    }

    /// Computes `file_address`.
    pub fn file_url(file_id: &str, depth: Option<u32>) -> (address: String)
        ensures
            address@ == file_address(file_id@, depth),
    {
        let mut address = String::from_str("https://api.figma.com/v1");
        address.append("/files/");
        address.append(file_id);
        Self::push_depth(&mut address, "?", depth);
        address
    }

    /// Computes `file_nodes_address`.
    pub fn file_nodes_url(file_id: &str, node_ids: &Vec<String>, depth: Option<u32>) -> (address: String)
        ensures
            address@ == file_nodes_address(file_id@, texts(node_ids@), depth),
    {
        let mut address = String::from_str("https://api.figma.com/v1");
        address.append("/files/");
        address.append(file_id);
        address.append("/nodes?ids=");
        push_joined(&mut address, node_ids, ",");
        Self::push_depth(&mut address, "&", depth);
        address
    }

    /// Computes `images_address`.
    pub fn images_url(
        file_id: &str,
        node_ids: &Vec<String>,
        format: &str,
        scale: Option<&str>,
    ) -> (address: String)
        ensures
            address@ == images_address(
                file_id@,
                texts(node_ids@),
                format@,
                match scale {
                    Some(factor) => Some(factor@),
                    None => None,
                },
            ),
    {
        let mut address = String::from_str("https://api.figma.com/v1");
        address.append("/images/");
        address.append(file_id);
        address.append("?ids=");
        push_joined(&mut address, node_ids, ",");
        address.append("&format=");
        address.append(format);
        if let Some(factor) = scale {
            address.append("&scale=");
            address.append(factor);
        }
        address
    }

    /// Computes `me_address`.
    pub fn me_url() -> (address: String)
        ensures
            address@ == me_address(),
    {
        let mut address = String::from_str("https://api.figma.com/v1");
        address.append("/me");
        address
    }

    /// The error for an answer whose status is not a success. `status` is
    /// the status as it reads, `body` the text that came with it.
    pub fn http_failure(status: &str, body: &str) -> (error: Error)
        ensures
            error@ == ErrorView::FigmaApi(http_failure_message(status@, body@)),
    {
        let mut message = String::from_str("HTTP ");
        message.append(status);
        message.append(": ");
        message.append(body);
        Error::FigmaApi(message)
    }

    /// Computes `status_outcome`.
    pub fn check_status(code: u16, status: &str, body: &str) -> (outcome: Result<(), Error>)
        ensures
            unit_result_view(outcome) == status_outcome(code, status@, body@),
    {
        if status_is_success(code) {
            Ok(())
        } else {
            Err(Self::http_failure(status, body))
        }
    }

    /// Looks into the payload of a good answer: a payload with a member
    /// `err` is an error of the service, which holds that member as it is
    /// written. Any other payload is handed on as it is.
    pub fn read_payload(payload: Value) -> (outcome: Result<Value, Error>)
        ensures
            match member_text_of(payload, embedded_error_key()) {
                Some(text) => outcome matches Err(e) && e@ == ErrorView::FigmaApi(text),
                None => outcome == Ok::<Value, Error>(payload),
            },
    {
        match Self::check_payload(member_text(&payload, "err")) {
            Ok(()) => Ok(payload),
            Err(e) => Err(e),
        }
    }

    /// Computes `payload_outcome`.
    pub fn check_payload(embedded: Option<String>) -> (outcome: Result<(), Error>)
        ensures
            unit_result_view(outcome) == payload_outcome(
                match embedded {
                    Some(text) => Some(text@),
                    None => None,
                },
            ),
    {
        match embedded {
            Some(text) => Err(Error::FigmaApi(text)),
            None => Ok(()),
        }
    }
}

} // verus!
