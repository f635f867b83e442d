//! The decisions of the request client.
//!
//! Sending requests and reading responses is the caller's work. This module
//! holds what is decided in between: where a message is posted to and what its
//! body is, what a response to it means, and which gateway the instance
//! names.
use crate::codec::{decode_message, message_of_json};
use crate::gateway::{GatewayClient, GatewayClientView};
use crate::json::{
    json_model, json_parse, json_string, optional_text, optional_u64, parse_value, quote_text,
    required_text, required_u64, text_equals, JsonValue,
};
use crate::models::{clone_text, text_view, Message, MessageView};
use crate::REST_URL;
use vstd::prelude::*;
use vstd::string::*;

verus! {

/// What an instance tells about itself. The client needs the url of the
/// gateway, so that must be there; everything else is kept where the instance
/// tells it.
#[derive(Debug, PartialEq, Eq)]
pub struct InstanceInfo {
    /// The name of the instance.
    pub instance_name: Option<String>,
    /// What the instance says of itself.
    pub description: Option<String>,
    /// The version that the instance runs.
    pub version: Option<String>,
    /// The greatest number of characters in a message.
    pub message_limit: Option<u64>,
    /// The url of the instance's rest api.
    pub oprish_url: Option<String>,
    /// The url of the instance's gateway.
    pub pandemonium_url: String,
    /// The url of the instance's file server.
    pub effis_url: Option<String>,
    /// The greatest size of a file, in bytes.
    pub file_size: Option<u64>,
    /// The greatest size of an attachment, in bytes.
    pub attachment_file_size: Option<u64>,
}

/// The view of an [`InstanceInfo`].
pub struct InstanceInfoView {
    pub instance_name: Option<Seq<char>>,
    pub description: Option<Seq<char>>,
    pub version: Option<Seq<char>>,
    pub message_limit: Option<u64>,
    pub oprish_url: Option<Seq<char>>,
    pub pandemonium_url: Seq<char>,
    pub effis_url: Option<Seq<char>>,
    pub file_size: Option<u64>,
    pub attachment_file_size: Option<u64>,
}

impl View for InstanceInfo {
    type V = InstanceInfoView;

    open spec fn view(&self) -> InstanceInfoView {
        InstanceInfoView {
            instance_name: text_view(self.instance_name),
            description: text_view(self.description),
            version: text_view(self.version),
            message_limit: self.message_limit,
            oprish_url: text_view(self.oprish_url),
            pandemonium_url: self.pandemonium_url@,
            effis_url: text_view(self.effis_url),
            file_size: self.file_size,
            attachment_file_size: self.attachment_file_size,
        }
    }
}

impl Clone for InstanceInfo {
    fn clone(&self) -> (copy: Self)
        ensures
            copy == *self,
    {
        InstanceInfo {
            instance_name: clone_text(&self.instance_name),
            description: clone_text(&self.description),
            version: clone_text(&self.version),
            message_limit: self.message_limit,
            oprish_url: clone_text(&self.oprish_url),
            pandemonium_url: self.pandemonium_url.clone(),
            effis_url: clone_text(&self.effis_url),
            file_size: self.file_size,
            attachment_file_size: self.attachment_file_size,
        }
    }
}

/// The view of an optional [`InstanceInfo`].
pub open spec fn instance_info_view(info: Option<InstanceInfo>) -> Option<InstanceInfoView> {
    match info {
        Some(info) => Some(info@),
        None => None,
    }
}

/// The instance info that a document describes: the url of the gateway under
/// `"pandemonium_url"`, which must be there, and whatever else of an instance
/// info the document holds.
pub open spec fn instance_info_of_json(json: JsonValue) -> Option<InstanceInfoView> {
    let instance_name = json.optional_text("instance_name"@);
    let description = json.optional_text("description"@);
    let version = json.optional_text("version"@);
    let message_limit = json.optional_u64("message_limit"@);
    let oprish_url = json.optional_text("oprish_url"@);
    let pandemonium_url = json.required_text("pandemonium_url"@);
    let effis_url = json.optional_text("effis_url"@);
    let file_size = json.optional_u64("file_size"@);
    let attachment_file_size = json.optional_u64("attachment_file_size"@);
    if instance_name is Some && description is Some && version is Some && message_limit is Some
        && oprish_url is Some && pandemonium_url is Some && effis_url is Some && file_size is Some
        && attachment_file_size is Some {
        Some(
            InstanceInfoView {
                instance_name: instance_name.unwrap(),
                description: description.unwrap(),
                version: version.unwrap(),
                message_limit: message_limit.unwrap(),
                oprish_url: oprish_url.unwrap(),
                pandemonium_url: pandemonium_url.unwrap(),
                effis_url: effis_url.unwrap(),
                file_size: file_size.unwrap(),
                attachment_file_size: attachment_file_size.unwrap(),
            },
        )
    } else {
        None
    }
}

/// The instance info that the body of a response describes.
pub open spec fn instance_info_of_body(body: Seq<char>) -> Option<InstanceInfoView> {
    match json_parse(body) {
        Some(json) => instance_info_of_json(json),
        None => None,
    }
}

/// Decodes an instance info.
pub fn decode_instance_info(value: &serde_json::Value) -> (info: Option<InstanceInfo>)
    ensures
        instance_info_view(info) == instance_info_of_json(json_model(*value)),
{
    let instance_name = match optional_text(value, "instance_name") {
        Some(instance_name) => instance_name,
        None => return None,
    };
    let description = match optional_text(value, "description") {
        Some(description) => description,
        None => return None,
    };
    let version = match optional_text(value, "version") {
        Some(version) => version,
        None => return None,
    };
    let message_limit = match optional_u64(value, "message_limit") {
        Some(message_limit) => message_limit,
        None => return None,
    };
    let oprish_url = match optional_text(value, "oprish_url") {
        Some(oprish_url) => oprish_url,
        None => return None,
    };
    let pandemonium_url = match required_text(value, "pandemonium_url") {
        Some(pandemonium_url) => pandemonium_url,
        None => return None,
    };
    let effis_url = match optional_text(value, "effis_url") {
        Some(effis_url) => effis_url,
        None => return None,
    };
    let file_size = match optional_u64(value, "file_size") {
        Some(file_size) => file_size,
        None => return None,
    };
    let attachment_file_size = match optional_u64(value, "attachment_file_size") {
        Some(attachment_file_size) => attachment_file_size,
        None => return None,
    };
    Some(
        InstanceInfo {
            instance_name,
            description,
            version,
            message_limit,
            oprish_url,
            pandemonium_url,
            effis_url,
            file_size,
            attachment_file_size,
        },
    )
}

/// Decodes the instance info that the body of a response describes. A body
/// that is no JSON or describes no instance info gives `None`.
pub fn decode_instance_info_body(body: &str) -> (info: Option<InstanceInfo>)
    ensures
        instance_info_view(info) == instance_info_of_body(body@),
{
    match parse_value(body) {
        Some(value) => decode_instance_info(&value),
        None => None,
    }
}

/// Why the instance turned a request down.
#[derive(Debug, PartialEq, Eq)]
pub enum ErrorResponse {
    /// Too many requests: the next one may follow after `retry_after`
    /// milliseconds.
    RateLimited { retry_after: u64 },
    /// A field of the request is not valid.
    Validation { value_name: String, info: String },
    /// Any other error, by the name of its type.
    Other { kind: String },
}

/// The view of an [`ErrorResponse`].
pub enum ErrorResponseView {
    RateLimited { retry_after: u64 },
    Validation { value_name: Seq<char>, info: Seq<char> },
    Other { kind: Seq<char> },
}

impl View for ErrorResponse {
    type V = ErrorResponseView;

    open spec fn view(&self) -> ErrorResponseView {
        match *self {
            ErrorResponse::RateLimited { retry_after } => ErrorResponseView::RateLimited {
                retry_after,
            },
            ErrorResponse::Validation { value_name, info } => ErrorResponseView::Validation {
                value_name: value_name@,
                info: info@,
            },
            ErrorResponse::Other { kind } => ErrorResponseView::Other { kind: kind@ },
        }
    }
}

/// The response to a message that was posted: the message as the instance
/// took it, or an error.
#[derive(Debug, PartialEq, Eq)]
pub enum MessageResponse {
    Message(Message),
    Error(ErrorResponse),
}

/// The view of a [`MessageResponse`].
pub enum MessageResponseView {
    Message(MessageView),
    Error(ErrorResponseView),
}

impl View for MessageResponse {
    type V = MessageResponseView;

    open spec fn view(&self) -> MessageResponseView {
        match *self {
            MessageResponse::Message(message) => MessageResponseView::Message(message@),
            MessageResponse::Error(error) => MessageResponseView::Error(error@),
        }
    }
}

/// The view of an optional [`MessageResponse`].
pub open spec fn response_view(response: Option<MessageResponse>) -> Option<MessageResponseView> {
    match response {
        Some(response) => Some(response@),
        None => None,
    }
}

/// The error that a document describes: its `"type"` names the error, and a
/// rate limit and a validation error bring their details.
pub open spec fn error_of_json(json: JsonValue) -> Option<ErrorResponseView> {
    match json.required_text("type"@) {
        Some(kind) => if kind == "RATE_LIMITED"@ {
            match json.required_u64("retry_after"@) {
                Some(retry_after) => Some(ErrorResponseView::RateLimited { retry_after }),
                None => None,
            }
        } else if kind == "VALIDATION"@ {
            let value_name = json.required_text("value_name"@);
            let info = json.required_text("info"@);
            if value_name is Some && info is Some {
                Some(
                    ErrorResponseView::Validation {
                        value_name: value_name.unwrap(),
                        info: info.unwrap(),
                    },
                )
            } else {
                None
            }
        } else {
            Some(ErrorResponseView::Other { kind })
        },
        None => None,
    }
}

/// The response that a document describes: a message where it describes one,
/// else an error.
pub open spec fn response_of_json(json: JsonValue) -> Option<MessageResponseView> {
    match message_of_json(json) {
        Some(message) => Some(MessageResponseView::Message(message)),
        None => match error_of_json(json) {
            Some(error) => Some(MessageResponseView::Error(error)),
            None => None,
        },
    }
}

/// The response that the body of a response describes.
pub open spec fn response_of_body(body: Seq<char>) -> Option<MessageResponseView> {
    match json_parse(body) {
        Some(json) => response_of_json(json),
        None => None,
    }
}

/// Decodes an error.
pub fn decode_error(value: &serde_json::Value) -> (error: Option<ErrorResponse>)
    ensures
        match error {
            Some(error) => error_of_json(json_model(*value)) == Some(error@),
            None => error_of_json(json_model(*value)) is None,
        },
{
    let kind = match required_text(value, "type") {
        Some(kind) => kind,
        None => return None,
    };
    if text_equals(kind.as_str(), "RATE_LIMITED") {
        match required_u64(value, "retry_after") {
            Some(retry_after) => Some(ErrorResponse::RateLimited { retry_after }),
            None => None,
        }
    } else if text_equals(kind.as_str(), "VALIDATION") {
        let value_name = match required_text(value, "value_name") {
            Some(value_name) => value_name,
            None => return None,
        };
        let info = match required_text(value, "info") {
            Some(info) => info,
            None => return None,
        };
        Some(ErrorResponse::Validation { value_name, info })
    } else {
        Some(ErrorResponse::Other { kind })
    }
}

/// Decodes the response to a message that was posted.
pub fn decode_response(value: &serde_json::Value) -> (response: Option<MessageResponse>)
    ensures
        response_view(response) == response_of_json(json_model(*value)),
{
    match decode_message(value) {
        Some(message) => Some(MessageResponse::Message(message)),
        None => match decode_error(value) {
            Some(error) => Some(MessageResponse::Error(error)),
            None => None,
        },
    }
}

/// Why a message could not be sent.
#[derive(Debug, PartialEq, Eq)]
pub enum SendError {
    /// The instance found a field of the message not valid.
    Validation { value_name: String, info: String },
    /// The instance turned the message down with an error of type `kind`.
    Rejected { kind: String },
    /// The response is neither a message nor an error.
    Undecodable,
}

/// The view of a [`SendError`].
pub enum SendErrorView {
    Validation { value_name: Seq<char>, info: Seq<char> },
    Rejected { kind: Seq<char> },
    Undecodable,
}

impl View for SendError {
    type V = SendErrorView;

    open spec fn view(&self) -> SendErrorView {
        match *self {
            SendError::Validation { value_name, info } => SendErrorView::Validation {
                value_name: value_name@,
                info: info@,
            },
            SendError::Rejected { kind } => SendErrorView::Rejected { kind: kind@ },
            SendError::Undecodable => SendErrorView::Undecodable,
        }
    }
}

impl SendErrorView {
    /// The words for this error.
    pub open spec fn message(self) -> Seq<char> {
        match self {
            SendErrorView::Validation { value_name, info } =>
                "Ran into a validation error with field "@ + value_name + ": "@ + info,
            SendErrorView::Rejected { kind } => "Could not send message: "@ + kind,
            SendErrorView::Undecodable => "Could not read the response to the message"@,
        }
    }
}

impl SendError {
    /// The words for this error.
    pub fn message(&self) -> (message: String)
        ensures
            message@ == self@.message(),
    {
        match self {
            SendError::Validation { value_name, info } => {
                let mut message = "Ran into a validation error with field ".to_owned();
                message.append(value_name.as_str());
                message.append(": ");
                message.append(info.as_str());
                message
            },
            SendError::Rejected { kind } => {
                let mut message = "Could not send message: ".to_owned();
                message.append(kind.as_str());
                message
            },
            SendError::Undecodable => "Could not read the response to the message".to_owned(),
        }
    }
}

/// What follows the response to a message that was posted.
#[derive(Debug, PartialEq, Eq)]
pub enum SendStep {
    /// The message is sent: this is it, as the instance took it.
    Sent(Message),
    /// The client is rate limited: wait `millis` milliseconds and post the
    /// message again.
    RetryAfter { millis: u64 },
    /// The message cannot be sent.
    Fail(SendError),
}

/// The view of a [`SendStep`].
pub enum SendStepView {
    Sent(MessageView),
    RetryAfter { millis: u64 },
    Fail(SendErrorView),
}

impl View for SendStep {
    type V = SendStepView;

    open spec fn view(&self) -> SendStepView {
        match *self {
            SendStep::Sent(message) => SendStepView::Sent(message@),
            SendStep::RetryAfter { millis } => SendStepView::RetryAfter { millis },
            SendStep::Fail(error) => SendStepView::Fail(error@),
        }
    }
}

/// What follows `response`, where `None` stands for a body that is not
/// decodable: only a rate limit is answered by trying again.
pub open spec fn send_step(response: Option<MessageResponseView>) -> SendStepView {
    match response {
        Some(MessageResponseView::Message(message)) => SendStepView::Sent(message),
        Some(MessageResponseView::Error(ErrorResponseView::RateLimited { retry_after })) =>
            SendStepView::RetryAfter { millis: retry_after },
        Some(MessageResponseView::Error(ErrorResponseView::Validation { value_name, info })) =>
            SendStepView::Fail(SendErrorView::Validation { value_name, info }),
        Some(MessageResponseView::Error(ErrorResponseView::Other { kind })) => SendStepView::Fail(
            SendErrorView::Rejected { kind },
        ),
        None => SendStepView::Fail(SendErrorView::Undecodable),
    }
}

/// The body of the request that posts a message with the content `content`.
pub open spec fn message_body(content: Seq<char>) -> Seq<char> {
    "{\"content\":"@ + json_string(content) + "}"@
}

/// The url that messages are posted to.
pub open spec fn messages_url(rest_url: Seq<char>) -> Seq<char> {
    rest_url + "/messages"@
}

/// The view of an [`HttpClient`].
pub struct HttpClientView {
    pub instance_info: Option<InstanceInfoView>,
    pub token: Seq<char>,
    pub rest_url: Seq<char>,
}

/// Simple Http client
#[derive(Debug)]
pub struct HttpClient {
    instance_info: Option<InstanceInfo>,
    token: String,
    pub rest_url: String,
}

impl View for HttpClient {
    type V = HttpClientView;

    closed spec fn view(&self) -> HttpClientView {
        HttpClientView {
            instance_info: instance_info_view(self.instance_info),
            token: self.token@,
            rest_url: self.rest_url@,
        }
    }
}

impl Clone for HttpClient {
    fn clone(&self) -> (copy: Self)
        ensures
            copy@ == self@,
    {
        let instance_info = match &self.instance_info {
            Some(info) => Some(info.clone()),
            None => None,
        };
        HttpClient {
            instance_info,
            token: self.token.clone(),
            rest_url: self.rest_url.clone(),
        }
    }
}

impl HttpClient {
    /// Create a new HttpClient
    pub fn new(token: &str) -> (client: Self)
        ensures
            client@ == (HttpClientView { instance_info: None, token: token@, rest_url: REST_URL@ }),
    {
        HttpClient { instance_info: None, token: token.to_owned(), rest_url: REST_URL.to_owned() }
    }

    /// Change the url of the HttpClient
    pub fn rest_url(self, url: String) -> (client: Self)
        ensures
            client@ == (HttpClientView { rest_url: url@, ..self@ }),
    {
        let mut client = self;
        client.rest_url = url;
        client
    }

    /// The token that requests are authorized with.
    pub fn token(&self) -> (token: &String)
        ensures
            token@ == self@.token,
    {
        &self.token
    }

    /// The url that the instance info is fetched from.
    pub fn url(&self) -> (url: &String)
        ensures
            url@ == self@.rest_url,
    {
        &self.rest_url
    }

    /// The url that messages are posted to.
    pub fn messages_url(&self) -> (url: String)
        ensures
            url@ == messages_url(self@.rest_url),
    {
        let mut url = self.rest_url.clone();
        url.append("/messages");
        url
    }

    /// The body of the request that posts a message with the content
    /// `content`.
    pub fn message_body(content: &str) -> (body: String)
        ensures
            body@ == message_body(content@),
    {
        let quoted = quote_text(content);
        let mut body = "{\"content\":".to_owned();
        body.append(quoted.as_str());
        body.append("}");
        body
    }

    /// The instance info that the client holds, if it has fetched one.
    pub fn get_instance_info(&self) -> (info: Option<&InstanceInfo>)
        ensures
            match info {
                Some(info) => self@.instance_info == Some(info@),
                None => self@.instance_info is None,
            },
    {
        self.instance_info.as_ref()
    }

    /// Holds `info` from now on as the info of the instance.
    pub fn set_instance_info(&mut self, info: InstanceInfo)
        ensures
            final(self)@ == (HttpClientView { instance_info: Some(info@), ..old(self)@ }),
    {
        self.instance_info = Some(info);
    }

    /// Takes the body of the response that the instance info was fetched
    /// with. Where the body describes an instance info, the client holds it
    /// from now on; else the client is left as it is. Returns whether it did.
    pub fn on_instance_info(&mut self, body: &str) -> (decoded: bool)
        ensures
            decoded == (instance_info_of_body(body@) is Some),
            final(self)@ == if decoded {
                HttpClientView { instance_info: instance_info_of_body(body@), ..old(self)@ }
            } else {
                old(self)@
            },
    {
        match decode_instance_info_body(body) {
            Some(info) => {
                self.set_instance_info(info);
                true
            },
            None => false,
        }
    }

    /// Tells what follows a response to a message that was posted, from what
    /// its body decodes to.
    pub fn send_step(response: Option<MessageResponse>) -> (step: SendStep)
        ensures
            step@ == send_step(response_view(response)),
    {
        match response {
            Some(MessageResponse::Message(message)) => SendStep::Sent(message),
            Some(MessageResponse::Error(error)) => match error {
                ErrorResponse::RateLimited { retry_after } => SendStep::RetryAfter {
                    millis: retry_after,
                },
                ErrorResponse::Validation { value_name, info } => SendStep::Fail(
                    SendError::Validation { value_name, info },
                ),
                ErrorResponse::Other { kind } => SendStep::Fail(SendError::Rejected { kind }),
            },
            None => SendStep::Fail(SendError::Undecodable),
        }
    }

    /// Tells what follows a response to a message that was posted, from its
    /// body.
    pub fn on_send_response(body: &str) -> (step: SendStep)
        ensures
            step@ == send_step(response_of_body(body@)),
    {
        let response = match parse_value(body) {
            Some(value) => decode_response(&value),
            None => None,
        };
        HttpClient::send_step(response)
    }

    /// Create a [`GatewayClient`] using the connected instance's instance info
    /// pandemonium url if any.
    pub fn create_gateway(&self) -> (gateway: Option<GatewayClient>)
        ensures
            match gateway {
                Some(gateway) => self@.instance_info is Some && gateway@ == (GatewayClientView {
                    gateway_url: self@.instance_info.unwrap().pandemonium_url,
                    token: self@.token,
                }),
                None => self@.instance_info is None,
            },
    {
        match &self.instance_info {
            Some(info) => {
                let gateway_url = info.pandemonium_url.clone();
                Some(GatewayClient::new(self.token.as_str()).gateway_url(gateway_url))
            },
            None => None,
        }
    }
}

} // verus!
