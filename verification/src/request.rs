//! The request that asks the translation service for one text: its body,
//! its headers and its signature.

use vstd::prelude::*;
use crate::calendar::{date_of, date_text};
use crate::json::{
    json_number, json_object, json_object_text, json_print, json_string, json_string_text,
    member_texts,
};
use crate::language::{target_language, target_of, Language};
use crate::signer::{authorization_of, request_signable, sign_request, CONTENT_TYPE};
use crate::text::{decimal, decimal_text};

verus! {

/// The name of the service in the credential scope.
pub const SERVICE: &'static str = "tmt";

/// The host of the service.
pub const HOST: &'static str = "tmt.tencentcloudapi.com";

/// The region the request is sent for.
pub const REGION: &'static str = "ap-guangzhou";

/// The version of the service's interface.
pub const VERSION: &'static str = "2018-03-21";

/// The action asked of the service.
pub const ACTION: &'static str = "TextTranslate";

/// Where the request is posted.
pub const ENDPOINT: &'static str = "https://tmt.tencentcloudapi.com";

/// The pair of identifier and secret key that the service issued.
pub struct Credentials {
    pub secret_id: String,
    pub secret_key: String,
}

/// A request ready to be sent: a POST of `body` to `endpoint` with
/// `headers`, each a name and a value.
pub struct SignedRequest {
    pub endpoint: String,
    pub headers: Vec<(String, String)>,
    pub body: String,
}

/// What a signed request holds.
pub ghost struct RequestView {
    pub endpoint: Seq<char>,
    pub headers: Seq<(Seq<char>, Seq<char>)>,
    pub body: Seq<char>,
}

/// Names and values of a list of headers.
pub open spec fn header_texts(headers: Seq<(String, String)>) -> Seq<(Seq<char>, Seq<char>)> {
    headers.map_values(|h: (String, String)| (h.0@, h.1@))
}

impl View for SignedRequest {
    type V = RequestView;

    open spec fn view(&self) -> RequestView {
        RequestView {
            endpoint: self.endpoint@,
            headers: header_texts(self.headers@),
            body: self.body@,
        }
    }
}

/// Why no request could be built.
#[derive(Clone, Copy, Debug, PartialEq, Eq, Structural)]
pub enum BuildError {
    /// The timestamp lies outside the calendar.
    NoCalendarDate,
    /// A text is too long to be hashed.
    TooLong,
}

/// The body of the request: a JSON object of the text, the source language
/// left to the service, the target language and the project number 0.
pub open spec fn body_text(text: Seq<char>, target: Language) -> Seq<char> {
    json_object_text(
        seq![
            ("SourceText"@, json_string_text(text)),
            ("Source"@, json_string_text("auto"@)),
            ("Target"@, json_string_text(target.code_text())),
            ("ProjectId"@, decimal_text(0)),
        ],
    )
}

/// The headers of the request, in the order they are sent.
pub open spec fn header_list(authorization: Seq<char>, timestamp: nat) -> Seq<
    (Seq<char>, Seq<char>),
> {
    seq![
        ("Authorization"@, authorization),
        ("Content-Type"@, CONTENT_TYPE@),
        ("Host"@, HOST@),
        ("X-TC-Action"@, ACTION@),
        ("X-TC-Timestamp"@, decimal_text(timestamp)),
        ("X-TC-Version"@, VERSION@),
        ("X-TC-Region"@, REGION@),
    ]
}

/// What building the request for `text` at `timestamp` comes to.
pub open spec fn built(
    secret_id: Seq<char>,
    secret_key: Seq<char>,
    text: Seq<char>,
    timestamp: u64,
) -> Result<RequestView, BuildError> {
    let body = body_text(text, target_of(text));
    match date_text(timestamp) {
        None => Err(BuildError::NoCalendarDate),
        Some(date) => if request_signable(
            secret_key,
            date,
            SERVICE@,
            HOST@,
            ACTION@,
            body,
            timestamp as nat,
        ) {
            Ok(
                RequestView {
                    endpoint: ENDPOINT@,
                    headers: header_list(
                        authorization_of(
                            secret_id,
                            secret_key,
                            date,
                            SERVICE@,
                            HOST@,
                            ACTION@,
                            body,
                            timestamp as nat,
                        ),
                        timestamp as nat,
                    ),
                    body,
                },
            )
        } else {
            Err(BuildError::TooLong)
        },
    }
}

/// Writes the body of the request that asks for `text` in `target`.
pub fn request_body(text: &str, target: Language) -> (body: String)
    ensures
        body@ == body_text(text@, target),
{
    let mut members: Vec<(String, serde_json::Value)> = Vec::new();
    members.push((String::from_str("SourceText"), json_string(text)));
    members.push((String::from_str("Source"), json_string("auto")));
    members.push((String::from_str("Target"), json_string(target.code())));
    members.push((String::from_str("ProjectId"), json_number(0)));
    proof {
        assert(member_texts(members@) =~= seq![
            ("SourceText"@, json_string_text(text@)),
            ("Source"@, json_string_text("auto"@)),
            ("Target"@, json_string_text(target.code_text())),
            ("ProjectId"@, decimal_text(0)),
        ]);
    }
    let object = json_object(members);
    json_print(&object)
}

/// Lists the headers of a request signed by `authorization` at `timestamp`.
pub fn request_headers(authorization: &str, timestamp: u64) -> (headers: Vec<(String, String)>)
    ensures
        header_texts(headers@) == header_list(authorization@, timestamp as nat),
{
    let mut headers: Vec<(String, String)> = Vec::new();
    headers.push((String::from_str("Authorization"), String::from_str(authorization)));
    headers.push((String::from_str("Content-Type"), String::from_str(CONTENT_TYPE)));
    headers.push((String::from_str("Host"), String::from_str(HOST)));
    headers.push((String::from_str("X-TC-Action"), String::from_str(ACTION)));
    headers.push((String::from_str("X-TC-Timestamp"), decimal(timestamp)));
    headers.push((String::from_str("X-TC-Version"), String::from_str(VERSION)));
    headers.push((String::from_str("X-TC-Region"), String::from_str(REGION)));
    proof {
        assert(header_texts(headers@) =~= header_list(authorization@, timestamp as nat));
    }
    headers
}

/// Builds the signed request that asks for the translation of `text`, as
/// of `timestamp`, the seconds since the start of 1970. The target is
/// chosen by the script of `text`.
pub fn build_request(credentials: &Credentials, text: &str, timestamp: u64) -> (r: Result<
    SignedRequest,
    BuildError,
>)
    ensures
        match r {
            Ok(request) => built(
                credentials.secret_id@,
                credentials.secret_key@,
                text@,
                timestamp,
            ) == Ok::<RequestView, BuildError>(request@),
            Err(e) => built(credentials.secret_id@, credentials.secret_key@, text@, timestamp)
                == Err::<RequestView, BuildError>(e),
        },
{
    let target = target_language(text);
    let body = request_body(text, target);
    let date = match date_of(timestamp) {
        Some(date) => date,
        None => {
            return Err(BuildError::NoCalendarDate);
        },
    };
    let authorization = match sign_request(
        credentials.secret_id.as_str(),
        credentials.secret_key.as_str(),
        date.as_str(),
        SERVICE,
        HOST,
        ACTION,
        body.as_str(),
        timestamp,
    ) {
        Some(value) => value,
        None => {
            return Err(BuildError::TooLong);
        },
    };
    let headers = request_headers(authorization.as_str(), timestamp);
    Ok(SignedRequest { endpoint: String::from_str(ENDPOINT), headers, body })
}

} // verus!
