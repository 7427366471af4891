//! The record a conversion request ends with, and the status it is sent
//! under.

use vstd::prelude::*;

verus! {

/// HTTP status classes used by the service.
#[derive(Clone, Copy, Debug, PartialEq, Eq, Structural)]
pub enum Status {
    /// 200: the request succeeded.
    Success,
    /// 400: the request or the uploaded file is at fault.
    BadRequest,
    /// 404: no such artifact.
    NotFound,
    /// 500: storage or the encoder failed on the server's side.
    InternalServerError,
}

impl Status {
    /// The numeric status code.
    pub open spec fn spec_code(self) -> u16 {
        match self {
            Status::Success => 200,
            Status::BadRequest => 400,
            Status::NotFound => 404,
            Status::InternalServerError => 500,
        }
    }

    /// The numeric status code.
    #[verifier::when_used_as_spec(spec_code)]
    pub fn code(self) -> (code: u16)
        ensures
            code == self.spec_code(),
    {
        match self {
            Status::Success => 200,
            Status::BadRequest => 400,
            Status::NotFound => 404,
            Status::InternalServerError => 500,
        }
    }
}

/// Why a request failed. Every failure is final for its request: nothing
/// is retried.
#[derive(Clone, Copy, Debug, PartialEq, Eq, Structural)]
pub enum Failure {
    /// The request holds no part named `file`.
    RequestMalformed,
    /// A storage directory or the upload could not be written.
    StorageFailure,
    /// The inspection run found the upload unusable.
    InputRejected,
    /// The encoder could not be started.
    ToolUnavailable,
    /// The encoder started and exited with a failure.
    ConversionFailed,
    /// No artifact of the requested name exists.
    ArtifactNotFound,
}

impl Failure {
    /// The status a failure is reported under: what the client got wrong
    /// is a 400, what went wrong on the server is a 500, and a missing
    /// artifact is a 404.
    pub open spec fn spec_status(self) -> Status {
        match self {
            Failure::RequestMalformed => Status::BadRequest,
            Failure::StorageFailure => Status::InternalServerError,
            Failure::InputRejected => Status::BadRequest,
            Failure::ToolUnavailable => Status::InternalServerError,
            Failure::ConversionFailed => Status::InternalServerError,
            Failure::ArtifactNotFound => Status::NotFound,
        }
    }

    /// The status a failure is reported under.
    #[verifier::when_used_as_spec(spec_status)]
    pub fn status(self) -> (status: Status)
        ensures
            status == self.spec_status(),
    {
        match self {
            Failure::RequestMalformed => Status::BadRequest,
            Failure::StorageFailure => Status::InternalServerError,
            Failure::InputRejected => Status::BadRequest,
            Failure::ToolUnavailable => Status::InternalServerError,
            Failure::ConversionFailed => Status::InternalServerError,
            Failure::ArtifactNotFound => Status::NotFound,
        }
    }
}

/// The mathematical content of a [`ConversionResult`].
pub struct ConversionResultView {
    pub success: bool,
    pub message: Seq<char>,
    pub original_filename: Option<Seq<char>>,
    pub output_filename: Option<Seq<char>>,
}

impl ConversionResultView {
    /// An output filename is present exactly when the conversion succeeded.
    pub open spec fn well_formed(self) -> bool {
        self.output_filename is Some <==> self.success
    }
}

/// The record of a successful conversion.
pub open spec fn converted_view(
    original_filename: Seq<char>,
    output_filename: Seq<char>,
) -> ConversionResultView {
    ConversionResultView {
        success: true,
        message: "Conversion successful!"@,
        original_filename: Some(original_filename),
        output_filename: Some(output_filename),
    }
}

/// The record of a failure; it never names an output file.
pub open spec fn failed_view(
    message: Seq<char>,
    original_filename: Option<Seq<char>>,
) -> ConversionResultView {
    ConversionResultView { success: false, message, original_filename, output_filename: None }
}

/// The outcome of one conversion request, as reported to the client.
///
/// Every value names an output file exactly when it reports success; the
/// fields are private so that no other combination can be built.
#[derive(Debug)]
pub struct ConversionResult {
    success: bool,
    message: String,
    original_filename: Option<String>,
    output_filename: Option<String>,
}

impl View for ConversionResult {
    type V = ConversionResultView;

    closed spec fn view(&self) -> ConversionResultView {
        ConversionResultView {
            success: self.success,
            message: self.message@,
            original_filename: self.original_filename.deep_view(),
            output_filename: self.output_filename.deep_view(),
        }
    }
}

impl ConversionResult {
    #[verifier::type_invariant]
    spec fn names_output_iff_success(self) -> bool {
        self.output_filename is Some <==> self.success
    }

    /// The record of a successful conversion of `original_filename` into
    /// the artifact `output_filename`.
    pub fn converted(original_filename: String, output_filename: String) -> (r: ConversionResult)
        ensures
            r@ == converted_view(original_filename@, output_filename@),
    {
        ConversionResult {
            success: true,
            message: String::from_str("Conversion successful!"),
            original_filename: Some(original_filename),
            output_filename: Some(output_filename),
        }
    }

    /// The record of a failure with the given message, for the named
    /// upload if there was one.
    pub fn failed(message: String, original_filename: Option<String>) -> (r: ConversionResult)
        ensures
            r@ == failed_view(message@, original_filename.deep_view()),
    {
        ConversionResult { success: false, message, original_filename, output_filename: None }
    }

    /// Builds a record from its four fields, if they fit together: the
    /// result is `None` exactly when success is claimed without an output
    /// filename, or an output filename is given for a failure.
    pub fn from_parts(
        success: bool,
        message: String,
        original_filename: Option<String>,
        output_filename: Option<String>,
    ) -> (r: Option<ConversionResult>)
        ensures
            r is Some <==> (output_filename is Some <==> success),
            r matches Some(record) ==> record@ == (ConversionResultView {
                success,
                message: message@,
                original_filename: original_filename.deep_view(),
                output_filename: output_filename.deep_view(),
            }),
    {
        if output_filename.is_some() == success {
            Some(ConversionResult { success, message, original_filename, output_filename })
        } else {
            None
        }
    }

    /// Takes the record apart into success flag, message, original
    /// filename and output filename.
    pub fn into_parts(self) -> (parts: (bool, String, Option<String>, Option<String>))
        ensures
            parts.0 == self@.success,
            parts.1@ == self@.message,
            parts.2.deep_view() == self@.original_filename,
            parts.3.deep_view() == self@.output_filename,
            parts.3 is Some <==> parts.0,
    {
        proof {
            use_type_invariant(&self);
        }
        (self.success, self.message, self.original_filename, self.output_filename)
    }

    /// Whether the conversion succeeded.
    pub fn success(&self) -> (b: bool)
        ensures
            b == self@.success,
    {
        self.success
    }

    /// The message for the user.
    pub fn message(&self) -> (m: &str)
        ensures
            m@ == self@.message,
    {
        self.message.as_str()
    }

    /// The name the upload was stored under, if a file was uploaded.
    pub fn original_filename(&self) -> (name: &Option<String>)
        ensures
            name.deep_view() == self@.original_filename,
    {
        &self.original_filename
    }

    /// The name of the produced artifact; present exactly on success.
    pub fn output_filename(&self) -> (name: &Option<String>)
        ensures
            name.deep_view() == self@.output_filename,
            name is Some <==> self@.success,
            self@.well_formed(),
    {
        proof {
            use_type_invariant(self);
        }
        &self.output_filename
    }
}

/// The mathematical content of a [`Response`].
pub struct ResponseView {
    pub status: Status,
    pub body: ConversionResultView,
}

impl ResponseView {
    /// The status is 200 exactly when the body reports success, and the
    /// body is well formed.
    pub open spec fn well_formed(self) -> bool {
        &&& self.body.well_formed()
        &&& self.status == Status::Success <==> self.body.success
    }
}

/// The response to a successful conversion.
pub open spec fn converted_response(
    original_filename: Seq<char>,
    output_filename: Seq<char>,
) -> ResponseView {
    ResponseView {
        status: Status::Success,
        body: converted_view(original_filename, output_filename),
    }
}

/// The response to a request that failed for the given reason.
pub open spec fn failed_response(
    failure: Failure,
    message: Seq<char>,
    original_filename: Option<Seq<char>>,
) -> ResponseView {
    ResponseView { status: failure.spec_status(), body: failed_view(message, original_filename) }
}

/// What the service answers a conversion request with: a status and the
/// outcome record sent as the body.
#[derive(Debug)]
pub struct Response {
    pub status: Status,
    pub body: ConversionResult,
}

impl View for Response {
    type V = ResponseView;

    open spec fn view(&self) -> ResponseView {
        ResponseView { status: self.status, body: self.body@ }
    }
}

impl Response {
    /// The 200 response to a successful conversion.
    pub fn converted(original_filename: String, output_filename: String) -> (r: Response)
        ensures
            r@ == converted_response(original_filename@, output_filename@),
    {
        Response {
            status: Status::Success,
            body: ConversionResult::converted(original_filename, output_filename),
        }
    }

    /// The response to a request that failed for the given reason.
    pub fn failed(
        failure: Failure,
        message: String,
        original_filename: Option<String>,
    ) -> (r: Response)
        ensures
            r@ == failed_response(failure, message@, original_filename.deep_view()),
    {
        Response {
            status: failure.status(),
            body: ConversionResult::failed(message, original_filename),
        }
    }
}

} // verus!
