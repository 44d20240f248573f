//! Types that the API server answers with: the API version, error codes,
//! errors and responses.

use vstd::prelude::*;
use crate::text::{concat, str_eq, views};

verus! {

/// A JSON value from `serde_json`, carried through as error details.
#[verifier::external_type_specification]
#[verifier::external_body]
pub struct ExJsonValue(serde_json::Value);

/// Specification version for charted's HTTP specification.
#[derive(Debug, Clone, Copy, Hash, PartialEq, Eq, Structural, PartialOrd, Ord)]
pub enum Version {
    /// Released since the initial release of **charted-server**.
    V1,
}

impl Default for Version {
    fn default() -> (r: Version)
        ensures
            r == Version::V1,
    {
        Version::V1
    }
}

impl Version {
    /// The textual form of the version, as used in URLs.
    pub open spec fn spec_str(self) -> Seq<char> {
        match self {
            Version::V1 => "v1"@,
        }
    }

    /// The number of the version.
    pub open spec fn spec_number(self) -> u8 {
        match self {
            Version::V1 => 1,
        }
    }

    /// The version as `Display` writes it: its `as_str` form.
    pub fn to_string(&self) -> (r: String)
        ensures
            r@ == self.spec_str(),
    {
        String::from_str(self.as_str())
    }

    /// Returns the textual form of the version (`"v1"`).
    pub fn as_str(&self) -> (r: &'static str)
        ensures
            r@ == self.spec_str(),
    {
        match self {
            Version::V1 => "v1",
        }
    }

    /// Returns every available version.
    pub fn as_slice() -> (r: Vec<Version>)
        ensures
            r@ == seq![Version::V1],
    {
        let r = vec![Version::V1];
        assert(r@ =~= seq![Version::V1]);
        r
    }

    /// Converts the number of a version into the version; only `1` is one.
    pub fn from_u8(value: u8) -> (r: Version)
        requires
            value == 1,
        ensures
            r.spec_number() == value,
    {
        Version::V1
    }

    /// Decodes a version number as deserialization does: `Some` exactly for
    /// the number of an existing version.
    pub fn decode(value: u8) -> (r: Option<Version>)
        ensures
            match r {
                Some(v) => v.spec_number() == value,
                None => value != 1,
            },
    {
        if value == 1 {
            Some(Version::V1)
        } else {
            None
        }
    }

    /// A version number read back gives the version that wrote it.
    pub proof fn law_number_identifies(a: Version, b: Version)
        requires
            a.spec_number() == b.spec_number(),
        ensures
            a == b,
    {
    }

    /// Returns the number of the version (`1`).
    pub fn as_u8(self) -> (r: u8)
        ensures
            r == self.spec_number(),
    {
        match self {
            Version::V1 => 1,
        }
    }
}

/// Contextualized error code on why a request failed.
#[derive(Debug, Clone, Copy, Hash, PartialEq, Eq, Structural)]
pub enum ErrorCode {
    /// A system failure occurred.
    SystemFailure,
    /// Unexpected EOF when encoding or decoding data.
    UnexpectedEOF,
    /// The endpoint that you're trying to reach is not avaliable.
    RestEndpointNotFound,
    /// The endpoint that you're trying to reach is using an invalid HTTP method.
    InvalidHTTPMethod,
    /// The entity was not found.
    EntityNotFound,
    /// The entity already exists.
    EntityAlreadyExists,
    /// Unexpected internal server error.
    InternalServerError,
    /// Validation for the input data received failed.
    ValidationFailed,
    /// The `Content-Type` header value was invalid.
    InvalidContentType,
    /// Received an invalid HTTP header name.
    InvalidHTTPHeaderName,
    /// Received an invalid HTTP header name.
    InvalidHTTPHeaderValue,
    /// This endpoint only allows Bearer tokens.
    RequiresSessionToken,
    /// Unable to decode base64 content given.
    UnableToDecodeBase64,
    /// Unable to decode ULID given.
    UnableToDecodeUlid,
    /// received invalid UTF-8 data
    InvalidUtf8,
    /// received invalid request body
    InvalidBody,
    /// missing a required header
    MissingHeader,
    /// registrations are disabled
    RegistrationsDisabled,
    /// missing a password to use for authentication
    MissingPassword,
    /// given access was not permitted
    AccessNotPermitted,
    /// something went wrong with the given input/output stream.
    Io,
    /// received an invalid type that was expected
    InvalidType,
    /// generic bad request error
    BadRequest,
    /// missing a `Content-Type` header in your request
    MissingContentType,
    /// reached an unexpected EOF marker.
    ReachedUnexpectedEof,
    /// invalid input was given
    InvalidInput,
    /// unable to parse a path parameter.
    UnableToParsePathParameter,
    /// missing a required path parameter in the request.
    MissingPathParameter,
    /// received the wrong list of path parameters
    WrongParameters,
    /// the server had failed to validate the path parameter's content.
    ParsingFailedInPathParam,
    /// failed to parse query parameters specified in the uri of the request
    ParsingQueryParamsFailed,
    /// received JWT claim was not found or was invalid
    InvalidJwtClaim,
    /// was missing an `Authorization` header
    MissingAuthorizationHeader,
    /// password given was invalid
    InvalidPassword,
    /// received invalid authentication type
    InvalidAuthenticationType,
    /// received an invalid part in an Authorization header value
    InvalidAuthorizationParts,
    /// received an invalid JWT token
    InvalidSessionToken,
    /// Session already expired.
    SessionExpired,
    /// unknown session.
    UnknownSession,
    /// a refresh token is required in this request.
    RefreshTokenRequired,
    /// the `?per_page` query parameter is maxed out to 100
    MaxPerPageExceeded,
    /// while parsing through the JSON tree received, something went wrong
    InvalidJsonPayload,
    /// multipart field expected was not found
    UnknownMultipartField,
    /// incomplete field data given
    IncompleteMultipartFieldData,
    /// unable to completely read multipart header received
    ReadMultipartHeaderFailed,
    /// was unable to decode the `Content-Type` header in this request
    DecodeMultipartContentTypeFailed,
    /// missing a multipart boundry to parse
    MissingMultipartBoundary,
    /// expected `multipart/form-data`; received something else
    NoMultipartReceived,
    /// received incomplete multipart stream
    IncompleteMultipartStream,
    /// was unable to decode a header name in a multipart request
    DecodeMultipartHeaderNameFailed,
    /// exceeded the maximum amount to stream from
    StreamSizeExceeded,
    /// exceeded the maximum amount of fields to use
    MultipartFieldsSizeExceeded,
    /// received unknown error while reading the given stream
    MultipartStreamReadFailed,
    /// missing an expected multipart field in this request.
    MissingMultipartField,
    /// received an invalid multipart boundary
    InvalidMultipartBoundary,
}

impl ErrorCode {
    /// The code as the API writes it, in `SCREAMING_SNAKE_CASE`.
    pub open spec fn spec_code(self) -> Seq<char> {
        match self {
            ErrorCode::SystemFailure => "SYSTEM_FAILURE"@,
            ErrorCode::UnexpectedEOF => "UNEXPECTED_E_O_F"@,
            ErrorCode::RestEndpointNotFound => "REST_ENDPOINT_NOT_FOUND"@,
            ErrorCode::InvalidHTTPMethod => "INVALID_H_T_T_P_METHOD"@,
            ErrorCode::EntityNotFound => "ENTITY_NOT_FOUND"@,
            ErrorCode::EntityAlreadyExists => "ENTITY_ALREADY_EXISTS"@,
            ErrorCode::InternalServerError => "INTERNAL_SERVER_ERROR"@,
            ErrorCode::ValidationFailed => "VALIDATION_FAILED"@,
            ErrorCode::InvalidContentType => "INVALID_CONTENT_TYPE"@,
            ErrorCode::InvalidHTTPHeaderName => "INVALID_H_T_T_P_HEADER_NAME"@,
            ErrorCode::InvalidHTTPHeaderValue => "INVALID_H_T_T_P_HEADER_VALUE"@,
            ErrorCode::RequiresSessionToken => "REQUIRES_SESSION_TOKEN"@,
            ErrorCode::UnableToDecodeBase64 => "UNABLE_TO_DECODE_BASE64"@,
            ErrorCode::UnableToDecodeUlid => "UNABLE_TO_DECODE_ULID"@,
            ErrorCode::InvalidUtf8 => "INVALID_UTF8"@,
            ErrorCode::InvalidBody => "INVALID_BODY"@,
            ErrorCode::MissingHeader => "MISSING_HEADER"@,
            ErrorCode::RegistrationsDisabled => "REGISTRATIONS_DISABLED"@,
            ErrorCode::MissingPassword => "MISSING_PASSWORD"@,
            ErrorCode::AccessNotPermitted => "ACCESS_NOT_PERMITTED"@,
            ErrorCode::Io => "IO"@,
            ErrorCode::InvalidType => "INVALID_TYPE"@,
            ErrorCode::BadRequest => "BAD_REQUEST"@,
            ErrorCode::MissingContentType => "MISSING_CONTENT_TYPE"@,
            ErrorCode::ReachedUnexpectedEof => "REACHED_UNEXPECTED_EOF"@,
            ErrorCode::InvalidInput => "INVALID_INPUT"@,
            ErrorCode::UnableToParsePathParameter => "UNABLE_TO_PARSE_PATH_PARAMETER"@,
            ErrorCode::MissingPathParameter => "MISSING_PATH_PARAMETER"@,
            ErrorCode::WrongParameters => "WRONG_PARAMETERS"@,
            ErrorCode::ParsingFailedInPathParam => "PARSING_FAILED_IN_PATH_PARAM"@,
            ErrorCode::ParsingQueryParamsFailed => "PARSING_QUERY_PARAMS_FAILED"@,
            ErrorCode::InvalidJwtClaim => "INVALID_JWT_CLAIM"@,
            ErrorCode::MissingAuthorizationHeader => "MISSING_AUTHORIZATION_HEADER"@,
            ErrorCode::InvalidPassword => "INVALID_PASSWORD"@,
            ErrorCode::InvalidAuthenticationType => "INVALID_AUTHENTICATION_TYPE"@,
            ErrorCode::InvalidAuthorizationParts => "INVALID_AUTHORIZATION_PARTS"@,
            ErrorCode::InvalidSessionToken => "INVALID_SESSION_TOKEN"@,
            ErrorCode::SessionExpired => "SESSION_EXPIRED"@,
            ErrorCode::UnknownSession => "UNKNOWN_SESSION"@,
            ErrorCode::RefreshTokenRequired => "REFRESH_TOKEN_REQUIRED"@,
            ErrorCode::MaxPerPageExceeded => "MAX_PER_PAGE_EXCEEDED"@,
            ErrorCode::InvalidJsonPayload => "INVALID_JSON_PAYLOAD"@,
            ErrorCode::UnknownMultipartField => "UNKNOWN_MULTIPART_FIELD"@,
            ErrorCode::IncompleteMultipartFieldData => "INCOMPLETE_MULTIPART_FIELD_DATA"@,
            ErrorCode::ReadMultipartHeaderFailed => "READ_MULTIPART_HEADER_FAILED"@,
            ErrorCode::DecodeMultipartContentTypeFailed => "DECODE_MULTIPART_CONTENT_TYPE_FAILED"@,
            ErrorCode::MissingMultipartBoundary => "MISSING_MULTIPART_BOUNDARY"@,
            ErrorCode::NoMultipartReceived => "NO_MULTIPART_RECEIVED"@,
            ErrorCode::IncompleteMultipartStream => "INCOMPLETE_MULTIPART_STREAM"@,
            ErrorCode::DecodeMultipartHeaderNameFailed => "DECODE_MULTIPART_HEADER_NAME_FAILED"@,
            ErrorCode::StreamSizeExceeded => "STREAM_SIZE_EXCEEDED"@,
            ErrorCode::MultipartFieldsSizeExceeded => "MULTIPART_FIELDS_SIZE_EXCEEDED"@,
            ErrorCode::MultipartStreamReadFailed => "MULTIPART_STREAM_READ_FAILED"@,
            ErrorCode::MissingMultipartField => "MISSING_MULTIPART_FIELD"@,
            ErrorCode::InvalidMultipartBoundary => "INVALID_MULTIPART_BOUNDARY"@,
        }
    }

    /// Returns the code as the API writes it.
    pub fn code(&self) -> (r: &'static str)
        ensures
            r@ == self.spec_code(),
    {
        match self {
            ErrorCode::SystemFailure => "SYSTEM_FAILURE",
            ErrorCode::UnexpectedEOF => "UNEXPECTED_E_O_F",
            ErrorCode::RestEndpointNotFound => "REST_ENDPOINT_NOT_FOUND",
            ErrorCode::InvalidHTTPMethod => "INVALID_H_T_T_P_METHOD",
            ErrorCode::EntityNotFound => "ENTITY_NOT_FOUND",
            ErrorCode::EntityAlreadyExists => "ENTITY_ALREADY_EXISTS",
            ErrorCode::InternalServerError => "INTERNAL_SERVER_ERROR",
            ErrorCode::ValidationFailed => "VALIDATION_FAILED",
            ErrorCode::InvalidContentType => "INVALID_CONTENT_TYPE",
            ErrorCode::InvalidHTTPHeaderName => "INVALID_H_T_T_P_HEADER_NAME",
            ErrorCode::InvalidHTTPHeaderValue => "INVALID_H_T_T_P_HEADER_VALUE",
            ErrorCode::RequiresSessionToken => "REQUIRES_SESSION_TOKEN",
            ErrorCode::UnableToDecodeBase64 => "UNABLE_TO_DECODE_BASE64",
            ErrorCode::UnableToDecodeUlid => "UNABLE_TO_DECODE_ULID",
            ErrorCode::InvalidUtf8 => "INVALID_UTF8",
            ErrorCode::InvalidBody => "INVALID_BODY",
            ErrorCode::MissingHeader => "MISSING_HEADER",
            ErrorCode::RegistrationsDisabled => "REGISTRATIONS_DISABLED",
            ErrorCode::MissingPassword => "MISSING_PASSWORD",
            ErrorCode::AccessNotPermitted => "ACCESS_NOT_PERMITTED",
            ErrorCode::Io => "IO",
            ErrorCode::InvalidType => "INVALID_TYPE",
            ErrorCode::BadRequest => "BAD_REQUEST",
            ErrorCode::MissingContentType => "MISSING_CONTENT_TYPE",
            ErrorCode::ReachedUnexpectedEof => "REACHED_UNEXPECTED_EOF",
            ErrorCode::InvalidInput => "INVALID_INPUT",
            ErrorCode::UnableToParsePathParameter => "UNABLE_TO_PARSE_PATH_PARAMETER",
            ErrorCode::MissingPathParameter => "MISSING_PATH_PARAMETER",
            ErrorCode::WrongParameters => "WRONG_PARAMETERS",
            ErrorCode::ParsingFailedInPathParam => "PARSING_FAILED_IN_PATH_PARAM",
            ErrorCode::ParsingQueryParamsFailed => "PARSING_QUERY_PARAMS_FAILED",
            ErrorCode::InvalidJwtClaim => "INVALID_JWT_CLAIM",
            ErrorCode::MissingAuthorizationHeader => "MISSING_AUTHORIZATION_HEADER",
            ErrorCode::InvalidPassword => "INVALID_PASSWORD",
            ErrorCode::InvalidAuthenticationType => "INVALID_AUTHENTICATION_TYPE",
            ErrorCode::InvalidAuthorizationParts => "INVALID_AUTHORIZATION_PARTS",
            ErrorCode::InvalidSessionToken => "INVALID_SESSION_TOKEN",
            ErrorCode::SessionExpired => "SESSION_EXPIRED",
            ErrorCode::UnknownSession => "UNKNOWN_SESSION",
            ErrorCode::RefreshTokenRequired => "REFRESH_TOKEN_REQUIRED",
            ErrorCode::MaxPerPageExceeded => "MAX_PER_PAGE_EXCEEDED",
            ErrorCode::InvalidJsonPayload => "INVALID_JSON_PAYLOAD",
            ErrorCode::UnknownMultipartField => "UNKNOWN_MULTIPART_FIELD",
            ErrorCode::IncompleteMultipartFieldData => "INCOMPLETE_MULTIPART_FIELD_DATA",
            ErrorCode::ReadMultipartHeaderFailed => "READ_MULTIPART_HEADER_FAILED",
            ErrorCode::DecodeMultipartContentTypeFailed => "DECODE_MULTIPART_CONTENT_TYPE_FAILED",
            ErrorCode::MissingMultipartBoundary => "MISSING_MULTIPART_BOUNDARY",
            ErrorCode::NoMultipartReceived => "NO_MULTIPART_RECEIVED",
            ErrorCode::IncompleteMultipartStream => "INCOMPLETE_MULTIPART_STREAM",
            ErrorCode::DecodeMultipartHeaderNameFailed => "DECODE_MULTIPART_HEADER_NAME_FAILED",
            ErrorCode::StreamSizeExceeded => "STREAM_SIZE_EXCEEDED",
            ErrorCode::MultipartFieldsSizeExceeded => "MULTIPART_FIELDS_SIZE_EXCEEDED",
            ErrorCode::MultipartStreamReadFailed => "MULTIPART_STREAM_READ_FAILED",
            ErrorCode::MissingMultipartField => "MISSING_MULTIPART_FIELD",
            ErrorCode::InvalidMultipartBoundary => "INVALID_MULTIPART_BOUNDARY",
        }
    }

    /// Every error code, in declaration order.
    pub open spec fn spec_all() -> Seq<ErrorCode> {
        seq![ErrorCode::SystemFailure, ErrorCode::UnexpectedEOF, ErrorCode::RestEndpointNotFound, ErrorCode::InvalidHTTPMethod, ErrorCode::EntityNotFound, ErrorCode::EntityAlreadyExists, ErrorCode::InternalServerError, ErrorCode::ValidationFailed, ErrorCode::InvalidContentType, ErrorCode::InvalidHTTPHeaderName, ErrorCode::InvalidHTTPHeaderValue, ErrorCode::RequiresSessionToken, ErrorCode::UnableToDecodeBase64, ErrorCode::UnableToDecodeUlid, ErrorCode::InvalidUtf8, ErrorCode::InvalidBody, ErrorCode::MissingHeader, ErrorCode::RegistrationsDisabled, ErrorCode::MissingPassword, ErrorCode::AccessNotPermitted, ErrorCode::Io, ErrorCode::InvalidType, ErrorCode::BadRequest, ErrorCode::MissingContentType, ErrorCode::ReachedUnexpectedEof, ErrorCode::InvalidInput, ErrorCode::UnableToParsePathParameter, ErrorCode::MissingPathParameter, ErrorCode::WrongParameters, ErrorCode::ParsingFailedInPathParam, ErrorCode::ParsingQueryParamsFailed, ErrorCode::InvalidJwtClaim, ErrorCode::MissingAuthorizationHeader, ErrorCode::InvalidPassword, ErrorCode::InvalidAuthenticationType, ErrorCode::InvalidAuthorizationParts, ErrorCode::InvalidSessionToken, ErrorCode::SessionExpired, ErrorCode::UnknownSession, ErrorCode::RefreshTokenRequired, ErrorCode::MaxPerPageExceeded, ErrorCode::InvalidJsonPayload, ErrorCode::UnknownMultipartField, ErrorCode::IncompleteMultipartFieldData, ErrorCode::ReadMultipartHeaderFailed, ErrorCode::DecodeMultipartContentTypeFailed, ErrorCode::MissingMultipartBoundary, ErrorCode::NoMultipartReceived, ErrorCode::IncompleteMultipartStream, ErrorCode::DecodeMultipartHeaderNameFailed, ErrorCode::StreamSizeExceeded, ErrorCode::MultipartFieldsSizeExceeded, ErrorCode::MultipartStreamReadFailed, ErrorCode::MissingMultipartField, ErrorCode::InvalidMultipartBoundary]
    }

    /// Returns every error code, in declaration order.
    pub fn all() -> (r: Vec<ErrorCode>)
        ensures
            r@ == Self::spec_all(),
    {
        let r = vec![ErrorCode::SystemFailure, ErrorCode::UnexpectedEOF, ErrorCode::RestEndpointNotFound, ErrorCode::InvalidHTTPMethod, ErrorCode::EntityNotFound, ErrorCode::EntityAlreadyExists, ErrorCode::InternalServerError, ErrorCode::ValidationFailed, ErrorCode::InvalidContentType, ErrorCode::InvalidHTTPHeaderName, ErrorCode::InvalidHTTPHeaderValue, ErrorCode::RequiresSessionToken, ErrorCode::UnableToDecodeBase64, ErrorCode::UnableToDecodeUlid, ErrorCode::InvalidUtf8, ErrorCode::InvalidBody, ErrorCode::MissingHeader, ErrorCode::RegistrationsDisabled, ErrorCode::MissingPassword, ErrorCode::AccessNotPermitted, ErrorCode::Io, ErrorCode::InvalidType, ErrorCode::BadRequest, ErrorCode::MissingContentType, ErrorCode::ReachedUnexpectedEof, ErrorCode::InvalidInput, ErrorCode::UnableToParsePathParameter, ErrorCode::MissingPathParameter, ErrorCode::WrongParameters, ErrorCode::ParsingFailedInPathParam, ErrorCode::ParsingQueryParamsFailed, ErrorCode::InvalidJwtClaim, ErrorCode::MissingAuthorizationHeader, ErrorCode::InvalidPassword, ErrorCode::InvalidAuthenticationType, ErrorCode::InvalidAuthorizationParts, ErrorCode::InvalidSessionToken, ErrorCode::SessionExpired, ErrorCode::UnknownSession, ErrorCode::RefreshTokenRequired, ErrorCode::MaxPerPageExceeded, ErrorCode::InvalidJsonPayload, ErrorCode::UnknownMultipartField, ErrorCode::IncompleteMultipartFieldData, ErrorCode::ReadMultipartHeaderFailed, ErrorCode::DecodeMultipartContentTypeFailed, ErrorCode::MissingMultipartBoundary, ErrorCode::NoMultipartReceived, ErrorCode::IncompleteMultipartStream, ErrorCode::DecodeMultipartHeaderNameFailed, ErrorCode::StreamSizeExceeded, ErrorCode::MultipartFieldsSizeExceeded, ErrorCode::MultipartStreamReadFailed, ErrorCode::MissingMultipartField, ErrorCode::InvalidMultipartBoundary];
        assert(r@ =~= Self::spec_all());
        r
    }

    /// Every error code occurs in [`Self::spec_all`].
    pub proof fn lemma_in_all(self)
        ensures
            Self::spec_all().contains(self),
    {
        match self {
            ErrorCode::SystemFailure => assert(Self::spec_all()[0] == self),
            ErrorCode::UnexpectedEOF => assert(Self::spec_all()[1] == self),
            ErrorCode::RestEndpointNotFound => assert(Self::spec_all()[2] == self),
            ErrorCode::InvalidHTTPMethod => assert(Self::spec_all()[3] == self),
            ErrorCode::EntityNotFound => assert(Self::spec_all()[4] == self),
            ErrorCode::EntityAlreadyExists => assert(Self::spec_all()[5] == self),
            ErrorCode::InternalServerError => assert(Self::spec_all()[6] == self),
            ErrorCode::ValidationFailed => assert(Self::spec_all()[7] == self),
            ErrorCode::InvalidContentType => assert(Self::spec_all()[8] == self),
            ErrorCode::InvalidHTTPHeaderName => assert(Self::spec_all()[9] == self),
            ErrorCode::InvalidHTTPHeaderValue => assert(Self::spec_all()[10] == self),
            ErrorCode::RequiresSessionToken => assert(Self::spec_all()[11] == self),
            ErrorCode::UnableToDecodeBase64 => assert(Self::spec_all()[12] == self),
            ErrorCode::UnableToDecodeUlid => assert(Self::spec_all()[13] == self),
            ErrorCode::InvalidUtf8 => assert(Self::spec_all()[14] == self),
            ErrorCode::InvalidBody => assert(Self::spec_all()[15] == self),
            ErrorCode::MissingHeader => assert(Self::spec_all()[16] == self),
            ErrorCode::RegistrationsDisabled => assert(Self::spec_all()[17] == self),
            ErrorCode::MissingPassword => assert(Self::spec_all()[18] == self),
            ErrorCode::AccessNotPermitted => assert(Self::spec_all()[19] == self),
            ErrorCode::Io => assert(Self::spec_all()[20] == self),
            ErrorCode::InvalidType => assert(Self::spec_all()[21] == self),
            ErrorCode::BadRequest => assert(Self::spec_all()[22] == self),
            ErrorCode::MissingContentType => assert(Self::spec_all()[23] == self),
            ErrorCode::ReachedUnexpectedEof => assert(Self::spec_all()[24] == self),
            ErrorCode::InvalidInput => assert(Self::spec_all()[25] == self),
            ErrorCode::UnableToParsePathParameter => assert(Self::spec_all()[26] == self),
            ErrorCode::MissingPathParameter => assert(Self::spec_all()[27] == self),
            ErrorCode::WrongParameters => assert(Self::spec_all()[28] == self),
            ErrorCode::ParsingFailedInPathParam => assert(Self::spec_all()[29] == self),
            ErrorCode::ParsingQueryParamsFailed => assert(Self::spec_all()[30] == self),
            ErrorCode::InvalidJwtClaim => assert(Self::spec_all()[31] == self),
            ErrorCode::MissingAuthorizationHeader => assert(Self::spec_all()[32] == self),
            ErrorCode::InvalidPassword => assert(Self::spec_all()[33] == self),
            ErrorCode::InvalidAuthenticationType => assert(Self::spec_all()[34] == self),
            ErrorCode::InvalidAuthorizationParts => assert(Self::spec_all()[35] == self),
            ErrorCode::InvalidSessionToken => assert(Self::spec_all()[36] == self),
            ErrorCode::SessionExpired => assert(Self::spec_all()[37] == self),
            ErrorCode::UnknownSession => assert(Self::spec_all()[38] == self),
            ErrorCode::RefreshTokenRequired => assert(Self::spec_all()[39] == self),
            ErrorCode::MaxPerPageExceeded => assert(Self::spec_all()[40] == self),
            ErrorCode::InvalidJsonPayload => assert(Self::spec_all()[41] == self),
            ErrorCode::UnknownMultipartField => assert(Self::spec_all()[42] == self),
            ErrorCode::IncompleteMultipartFieldData => assert(Self::spec_all()[43] == self),
            ErrorCode::ReadMultipartHeaderFailed => assert(Self::spec_all()[44] == self),
            ErrorCode::DecodeMultipartContentTypeFailed => assert(Self::spec_all()[45] == self),
            ErrorCode::MissingMultipartBoundary => assert(Self::spec_all()[46] == self),
            ErrorCode::NoMultipartReceived => assert(Self::spec_all()[47] == self),
            ErrorCode::IncompleteMultipartStream => assert(Self::spec_all()[48] == self),
            ErrorCode::DecodeMultipartHeaderNameFailed => assert(Self::spec_all()[49] == self),
            ErrorCode::StreamSizeExceeded => assert(Self::spec_all()[50] == self),
            ErrorCode::MultipartFieldsSizeExceeded => assert(Self::spec_all()[51] == self),
            ErrorCode::MultipartStreamReadFailed => assert(Self::spec_all()[52] == self),
            ErrorCode::MissingMultipartField => assert(Self::spec_all()[53] == self),
            ErrorCode::InvalidMultipartBoundary => assert(Self::spec_all()[54] == self),
        }
    }

    /// The error code that the API writes as `code`, if there is one.
    pub open spec fn spec_from_code(code: Seq<char>) -> Option<ErrorCode> {
        if code.len() == 14 {
            if code == "SYSTEM_FAILURE"@ {
                Some(ErrorCode::SystemFailure)
            } else if code == "MISSING_HEADER"@ {
                Some(ErrorCode::MissingHeader)
            } else {
                None
            }
        } else if code.len() == 16 {
            if code == "UNEXPECTED_E_O_F"@ {
                Some(ErrorCode::UnexpectedEOF)
            } else if code == "ENTITY_NOT_FOUND"@ {
                Some(ErrorCode::EntityNotFound)
            } else if code == "MISSING_PASSWORD"@ {
                Some(ErrorCode::MissingPassword)
            } else if code == "WRONG_PARAMETERS"@ {
                Some(ErrorCode::WrongParameters)
            } else if code == "INVALID_PASSWORD"@ {
                Some(ErrorCode::InvalidPassword)
            } else {
                None
            }
        } else if code.len() == 23 {
            if code == "REST_ENDPOINT_NOT_FOUND"@ {
                Some(ErrorCode::RestEndpointNotFound)
            } else if code == "UNABLE_TO_DECODE_BASE64"@ {
                Some(ErrorCode::UnableToDecodeBase64)
            } else if code == "UNKNOWN_MULTIPART_FIELD"@ {
                Some(ErrorCode::UnknownMultipartField)
            } else if code == "MISSING_MULTIPART_FIELD"@ {
                Some(ErrorCode::MissingMultipartField)
            } else {
                None
            }
        } else if code.len() == 22 {
            if code == "INVALID_H_T_T_P_METHOD"@ {
                Some(ErrorCode::InvalidHTTPMethod)
            } else if code == "REQUIRES_SESSION_TOKEN"@ {
                Some(ErrorCode::RequiresSessionToken)
            } else if code == "REGISTRATIONS_DISABLED"@ {
                Some(ErrorCode::RegistrationsDisabled)
            } else if code == "REACHED_UNEXPECTED_EOF"@ {
                Some(ErrorCode::ReachedUnexpectedEof)
            } else if code == "MISSING_PATH_PARAMETER"@ {
                Some(ErrorCode::MissingPathParameter)
            } else if code == "REFRESH_TOKEN_REQUIRED"@ {
                Some(ErrorCode::RefreshTokenRequired)
            } else {
                None
            }
        } else if code.len() == 21 {
            if code == "ENTITY_ALREADY_EXISTS"@ {
                Some(ErrorCode::EntityAlreadyExists)
            } else if code == "INTERNAL_SERVER_ERROR"@ {
                Some(ErrorCode::InternalServerError)
            } else if code == "UNABLE_TO_DECODE_ULID"@ {
                Some(ErrorCode::UnableToDecodeUlid)
            } else if code == "INVALID_SESSION_TOKEN"@ {
                Some(ErrorCode::InvalidSessionToken)
            } else if code == "MAX_PER_PAGE_EXCEEDED"@ {
                Some(ErrorCode::MaxPerPageExceeded)
            } else if code == "NO_MULTIPART_RECEIVED"@ {
                Some(ErrorCode::NoMultipartReceived)
            } else {
                None
            }
        } else if code.len() == 17 {
            if code == "VALIDATION_FAILED"@ {
                Some(ErrorCode::ValidationFailed)
            } else if code == "INVALID_JWT_CLAIM"@ {
                Some(ErrorCode::InvalidJwtClaim)
            } else {
                None
            }
        } else if code.len() == 20 {
            if code == "INVALID_CONTENT_TYPE"@ {
                Some(ErrorCode::InvalidContentType)
            } else if code == "ACCESS_NOT_PERMITTED"@ {
                Some(ErrorCode::AccessNotPermitted)
            } else if code == "MISSING_CONTENT_TYPE"@ {
                Some(ErrorCode::MissingContentType)
            } else if code == "INVALID_JSON_PAYLOAD"@ {
                Some(ErrorCode::InvalidJsonPayload)
            } else if code == "STREAM_SIZE_EXCEEDED"@ {
                Some(ErrorCode::StreamSizeExceeded)
            } else {
                None
            }
        } else if code.len() == 27 {
            if code == "INVALID_H_T_T_P_HEADER_NAME"@ {
                Some(ErrorCode::InvalidHTTPHeaderName)
            } else if code == "PARSING_QUERY_PARAMS_FAILED"@ {
                Some(ErrorCode::ParsingQueryParamsFailed)
            } else if code == "INVALID_AUTHENTICATION_TYPE"@ {
                Some(ErrorCode::InvalidAuthenticationType)
            } else if code == "INVALID_AUTHORIZATION_PARTS"@ {
                Some(ErrorCode::InvalidAuthorizationParts)
            } else if code == "INCOMPLETE_MULTIPART_STREAM"@ {
                Some(ErrorCode::IncompleteMultipartStream)
            } else {
                None
            }
        } else if code.len() == 28 {
            if code == "INVALID_H_T_T_P_HEADER_VALUE"@ {
                Some(ErrorCode::InvalidHTTPHeaderValue)
            } else if code == "PARSING_FAILED_IN_PATH_PARAM"@ {
                Some(ErrorCode::ParsingFailedInPathParam)
            } else if code == "MISSING_AUTHORIZATION_HEADER"@ {
                Some(ErrorCode::MissingAuthorizationHeader)
            } else if code == "READ_MULTIPART_HEADER_FAILED"@ {
                Some(ErrorCode::ReadMultipartHeaderFailed)
            } else if code == "MULTIPART_STREAM_READ_FAILED"@ {
                Some(ErrorCode::MultipartStreamReadFailed)
            } else {
                None
            }
        } else if code.len() == 12 {
            if code == "INVALID_UTF8"@ {
                Some(ErrorCode::InvalidUtf8)
            } else if code == "INVALID_BODY"@ {
                Some(ErrorCode::InvalidBody)
            } else if code == "INVALID_TYPE"@ {
                Some(ErrorCode::InvalidType)
            } else {
                None
            }
        } else if code.len() == 2 {
            if code == "IO"@ {
                Some(ErrorCode::Io)
            } else {
                None
            }
        } else if code.len() == 11 {
            if code == "BAD_REQUEST"@ {
                Some(ErrorCode::BadRequest)
            } else {
                None
            }
        } else if code.len() == 13 {
            if code == "INVALID_INPUT"@ {
                Some(ErrorCode::InvalidInput)
            } else {
                None
            }
        } else if code.len() == 30 {
            if code == "UNABLE_TO_PARSE_PATH_PARAMETER"@ {
                Some(ErrorCode::UnableToParsePathParameter)
            } else if code == "MULTIPART_FIELDS_SIZE_EXCEEDED"@ {
                Some(ErrorCode::MultipartFieldsSizeExceeded)
            } else {
                None
            }
        } else if code.len() == 15 {
            if code == "SESSION_EXPIRED"@ {
                Some(ErrorCode::SessionExpired)
            } else if code == "UNKNOWN_SESSION"@ {
                Some(ErrorCode::UnknownSession)
            } else {
                None
            }
        } else if code.len() == 31 {
            if code == "INCOMPLETE_MULTIPART_FIELD_DATA"@ {
                Some(ErrorCode::IncompleteMultipartFieldData)
            } else {
                None
            }
        } else if code.len() == 36 {
            if code == "DECODE_MULTIPART_CONTENT_TYPE_FAILED"@ {
                Some(ErrorCode::DecodeMultipartContentTypeFailed)
            } else {
                None
            }
        } else if code.len() == 26 {
            if code == "MISSING_MULTIPART_BOUNDARY"@ {
                Some(ErrorCode::MissingMultipartBoundary)
            } else if code == "INVALID_MULTIPART_BOUNDARY"@ {
                Some(ErrorCode::InvalidMultipartBoundary)
            } else {
                None
            }
        } else if code.len() == 35 {
            if code == "DECODE_MULTIPART_HEADER_NAME_FAILED"@ {
                Some(ErrorCode::DecodeMultipartHeaderNameFailed)
            } else {
                None
            }
        } else {
            None
        }
    }

    /// Looking an error code's own text up gives that code back.
    pub proof fn lemma_from_own_code(self)
        ensures
            Self::spec_from_code(self.spec_code()) == Some(self),
    {
        match self {
            ErrorCode::SystemFailure => {
                reveal_strlit("SYSTEM_FAILURE");
                assert("SYSTEM_FAILURE"@.len() == 14);
            },
            ErrorCode::UnexpectedEOF => {
                reveal_strlit("UNEXPECTED_E_O_F");
                assert("UNEXPECTED_E_O_F"@.len() == 16);
            },
            ErrorCode::RestEndpointNotFound => {
                reveal_strlit("REST_ENDPOINT_NOT_FOUND");
                assert("REST_ENDPOINT_NOT_FOUND"@.len() == 23);
            },
            ErrorCode::InvalidHTTPMethod => {
                reveal_strlit("INVALID_H_T_T_P_METHOD");
                assert("INVALID_H_T_T_P_METHOD"@.len() == 22);
            },
            ErrorCode::EntityNotFound => {
                reveal_strlit("ENTITY_NOT_FOUND");
                assert("ENTITY_NOT_FOUND"@.len() == 16);
                reveal_strlit("UNEXPECTED_E_O_F");
                assert("ENTITY_NOT_FOUND"@[0] != "UNEXPECTED_E_O_F"@[0]);
            },
            ErrorCode::EntityAlreadyExists => {
                reveal_strlit("ENTITY_ALREADY_EXISTS");
                assert("ENTITY_ALREADY_EXISTS"@.len() == 21);
            },
            ErrorCode::InternalServerError => {
                reveal_strlit("INTERNAL_SERVER_ERROR");
                assert("INTERNAL_SERVER_ERROR"@.len() == 21);
                reveal_strlit("ENTITY_ALREADY_EXISTS");
                assert("INTERNAL_SERVER_ERROR"@[0] != "ENTITY_ALREADY_EXISTS"@[0]);
            },
            ErrorCode::ValidationFailed => {
                reveal_strlit("VALIDATION_FAILED");
                assert("VALIDATION_FAILED"@.len() == 17);
            },
            ErrorCode::InvalidContentType => {
                reveal_strlit("INVALID_CONTENT_TYPE");
                assert("INVALID_CONTENT_TYPE"@.len() == 20);
            },
            ErrorCode::InvalidHTTPHeaderName => {
                reveal_strlit("INVALID_H_T_T_P_HEADER_NAME");
                assert("INVALID_H_T_T_P_HEADER_NAME"@.len() == 27);
            },
            ErrorCode::InvalidHTTPHeaderValue => {
                reveal_strlit("INVALID_H_T_T_P_HEADER_VALUE");
                assert("INVALID_H_T_T_P_HEADER_VALUE"@.len() == 28);
            },
            ErrorCode::RequiresSessionToken => {
                reveal_strlit("REQUIRES_SESSION_TOKEN");
                assert("REQUIRES_SESSION_TOKEN"@.len() == 22);
                reveal_strlit("INVALID_H_T_T_P_METHOD");
                assert("REQUIRES_SESSION_TOKEN"@[0] != "INVALID_H_T_T_P_METHOD"@[0]);
            },
            ErrorCode::UnableToDecodeBase64 => {
                reveal_strlit("UNABLE_TO_DECODE_BASE64");
                assert("UNABLE_TO_DECODE_BASE64"@.len() == 23);
                reveal_strlit("REST_ENDPOINT_NOT_FOUND");
                assert("UNABLE_TO_DECODE_BASE64"@[0] != "REST_ENDPOINT_NOT_FOUND"@[0]);
            },
            ErrorCode::UnableToDecodeUlid => {
                reveal_strlit("UNABLE_TO_DECODE_ULID");
                assert("UNABLE_TO_DECODE_ULID"@.len() == 21);
                reveal_strlit("ENTITY_ALREADY_EXISTS");
                assert("UNABLE_TO_DECODE_ULID"@[0] != "ENTITY_ALREADY_EXISTS"@[0]);
                reveal_strlit("INTERNAL_SERVER_ERROR");
                assert("UNABLE_TO_DECODE_ULID"@[0] != "INTERNAL_SERVER_ERROR"@[0]);
            },
            ErrorCode::InvalidUtf8 => {
                reveal_strlit("INVALID_UTF8");
                assert("INVALID_UTF8"@.len() == 12);
            },
            ErrorCode::InvalidBody => {
                reveal_strlit("INVALID_BODY");
                assert("INVALID_BODY"@.len() == 12);
                reveal_strlit("INVALID_UTF8");
                assert("INVALID_BODY"@[8] != "INVALID_UTF8"@[8]);
            },
            ErrorCode::MissingHeader => {
                reveal_strlit("MISSING_HEADER");
                assert("MISSING_HEADER"@.len() == 14);
                reveal_strlit("SYSTEM_FAILURE");
                assert("MISSING_HEADER"@[0] != "SYSTEM_FAILURE"@[0]);
            },
            ErrorCode::RegistrationsDisabled => {
                reveal_strlit("REGISTRATIONS_DISABLED");
                assert("REGISTRATIONS_DISABLED"@.len() == 22);
                reveal_strlit("INVALID_H_T_T_P_METHOD");
                assert("REGISTRATIONS_DISABLED"@[0] != "INVALID_H_T_T_P_METHOD"@[0]);
                reveal_strlit("REQUIRES_SESSION_TOKEN");
                assert("REGISTRATIONS_DISABLED"@[2] != "REQUIRES_SESSION_TOKEN"@[2]);
            },
            ErrorCode::MissingPassword => {
                reveal_strlit("MISSING_PASSWORD");
                assert("MISSING_PASSWORD"@.len() == 16);
                reveal_strlit("UNEXPECTED_E_O_F");
                assert("MISSING_PASSWORD"@[0] != "UNEXPECTED_E_O_F"@[0]);
                reveal_strlit("ENTITY_NOT_FOUND");
                assert("MISSING_PASSWORD"@[0] != "ENTITY_NOT_FOUND"@[0]);
            },
            ErrorCode::AccessNotPermitted => {
                reveal_strlit("ACCESS_NOT_PERMITTED");
                assert("ACCESS_NOT_PERMITTED"@.len() == 20);
                reveal_strlit("INVALID_CONTENT_TYPE");
                assert("ACCESS_NOT_PERMITTED"@[0] != "INVALID_CONTENT_TYPE"@[0]);
            },
            ErrorCode::Io => {
                reveal_strlit("IO");
                assert("IO"@.len() == 2);
            },
            ErrorCode::InvalidType => {
                reveal_strlit("INVALID_TYPE");
                assert("INVALID_TYPE"@.len() == 12);
                reveal_strlit("INVALID_UTF8");
                assert("INVALID_TYPE"@[8] != "INVALID_UTF8"@[8]);
                reveal_strlit("INVALID_BODY");
                assert("INVALID_TYPE"@[8] != "INVALID_BODY"@[8]);
            },
            ErrorCode::BadRequest => {
                reveal_strlit("BAD_REQUEST");
                assert("BAD_REQUEST"@.len() == 11);
            },
            ErrorCode::MissingContentType => {
                reveal_strlit("MISSING_CONTENT_TYPE");
                assert("MISSING_CONTENT_TYPE"@.len() == 20);
                reveal_strlit("INVALID_CONTENT_TYPE");
                assert("MISSING_CONTENT_TYPE"@[0] != "INVALID_CONTENT_TYPE"@[0]);
                reveal_strlit("ACCESS_NOT_PERMITTED");
                assert("MISSING_CONTENT_TYPE"@[0] != "ACCESS_NOT_PERMITTED"@[0]);
            },
            ErrorCode::ReachedUnexpectedEof => {
                reveal_strlit("REACHED_UNEXPECTED_EOF");
                assert("REACHED_UNEXPECTED_EOF"@.len() == 22);
                reveal_strlit("INVALID_H_T_T_P_METHOD");
                assert("REACHED_UNEXPECTED_EOF"@[0] != "INVALID_H_T_T_P_METHOD"@[0]);
                reveal_strlit("REQUIRES_SESSION_TOKEN");
                assert("REACHED_UNEXPECTED_EOF"@[2] != "REQUIRES_SESSION_TOKEN"@[2]);
                reveal_strlit("REGISTRATIONS_DISABLED");
                assert("REACHED_UNEXPECTED_EOF"@[2] != "REGISTRATIONS_DISABLED"@[2]);
            },
            ErrorCode::InvalidInput => {
                reveal_strlit("INVALID_INPUT");
                assert("INVALID_INPUT"@.len() == 13);
            },
            ErrorCode::UnableToParsePathParameter => {
                reveal_strlit("UNABLE_TO_PARSE_PATH_PARAMETER");
                assert("UNABLE_TO_PARSE_PATH_PARAMETER"@.len() == 30);
            },
            ErrorCode::MissingPathParameter => {
                reveal_strlit("MISSING_PATH_PARAMETER");
                assert("MISSING_PATH_PARAMETER"@.len() == 22);
                reveal_strlit("INVALID_H_T_T_P_METHOD");
                assert("MISSING_PATH_PARAMETER"@[0] != "INVALID_H_T_T_P_METHOD"@[0]);
                reveal_strlit("REQUIRES_SESSION_TOKEN");
                assert("MISSING_PATH_PARAMETER"@[0] != "REQUIRES_SESSION_TOKEN"@[0]);
                reveal_strlit("REGISTRATIONS_DISABLED");
                assert("MISSING_PATH_PARAMETER"@[0] != "REGISTRATIONS_DISABLED"@[0]);
                reveal_strlit("REACHED_UNEXPECTED_EOF");
                assert("MISSING_PATH_PARAMETER"@[0] != "REACHED_UNEXPECTED_EOF"@[0]);
            },
            ErrorCode::WrongParameters => {
                reveal_strlit("WRONG_PARAMETERS");
                assert("WRONG_PARAMETERS"@.len() == 16);
                reveal_strlit("UNEXPECTED_E_O_F");
                assert("WRONG_PARAMETERS"@[0] != "UNEXPECTED_E_O_F"@[0]);
                reveal_strlit("ENTITY_NOT_FOUND");
                assert("WRONG_PARAMETERS"@[0] != "ENTITY_NOT_FOUND"@[0]);
                reveal_strlit("MISSING_PASSWORD");
                assert("WRONG_PARAMETERS"@[0] != "MISSING_PASSWORD"@[0]);
            },
            ErrorCode::ParsingFailedInPathParam => {
                reveal_strlit("PARSING_FAILED_IN_PATH_PARAM");
                assert("PARSING_FAILED_IN_PATH_PARAM"@.len() == 28);
                reveal_strlit("INVALID_H_T_T_P_HEADER_VALUE");
                assert("PARSING_FAILED_IN_PATH_PARAM"@[0] != "INVALID_H_T_T_P_HEADER_VALUE"@[0]);
            },
            ErrorCode::ParsingQueryParamsFailed => {
                reveal_strlit("PARSING_QUERY_PARAMS_FAILED");
                assert("PARSING_QUERY_PARAMS_FAILED"@.len() == 27);
                reveal_strlit("INVALID_H_T_T_P_HEADER_NAME");
                assert("PARSING_QUERY_PARAMS_FAILED"@[0] != "INVALID_H_T_T_P_HEADER_NAME"@[0]);
            },
            ErrorCode::InvalidJwtClaim => {
                reveal_strlit("INVALID_JWT_CLAIM");
                assert("INVALID_JWT_CLAIM"@.len() == 17);
                reveal_strlit("VALIDATION_FAILED");
                assert("INVALID_JWT_CLAIM"@[0] != "VALIDATION_FAILED"@[0]);
            },
            ErrorCode::MissingAuthorizationHeader => {
                reveal_strlit("MISSING_AUTHORIZATION_HEADER");
                assert("MISSING_AUTHORIZATION_HEADER"@.len() == 28);
                reveal_strlit("INVALID_H_T_T_P_HEADER_VALUE");
                assert("MISSING_AUTHORIZATION_HEADER"@[0] != "INVALID_H_T_T_P_HEADER_VALUE"@[0]);
                reveal_strlit("PARSING_FAILED_IN_PATH_PARAM");
                assert("MISSING_AUTHORIZATION_HEADER"@[0] != "PARSING_FAILED_IN_PATH_PARAM"@[0]);
            },
            ErrorCode::InvalidPassword => {
                reveal_strlit("INVALID_PASSWORD");
                assert("INVALID_PASSWORD"@.len() == 16);
                reveal_strlit("UNEXPECTED_E_O_F");
                assert("INVALID_PASSWORD"@[0] != "UNEXPECTED_E_O_F"@[0]);
                reveal_strlit("ENTITY_NOT_FOUND");
                assert("INVALID_PASSWORD"@[0] != "ENTITY_NOT_FOUND"@[0]);
                reveal_strlit("MISSING_PASSWORD");
                assert("INVALID_PASSWORD"@[0] != "MISSING_PASSWORD"@[0]);
                reveal_strlit("WRONG_PARAMETERS");
                assert("INVALID_PASSWORD"@[0] != "WRONG_PARAMETERS"@[0]);
            },
            ErrorCode::InvalidAuthenticationType => {
                reveal_strlit("INVALID_AUTHENTICATION_TYPE");
                assert("INVALID_AUTHENTICATION_TYPE"@.len() == 27);
                reveal_strlit("INVALID_H_T_T_P_HEADER_NAME");
                assert("INVALID_AUTHENTICATION_TYPE"@[8] != "INVALID_H_T_T_P_HEADER_NAME"@[8]);
                reveal_strlit("PARSING_QUERY_PARAMS_FAILED");
                assert("INVALID_AUTHENTICATION_TYPE"@[0] != "PARSING_QUERY_PARAMS_FAILED"@[0]);
            },
            ErrorCode::InvalidAuthorizationParts => {
                reveal_strlit("INVALID_AUTHORIZATION_PARTS");
                assert("INVALID_AUTHORIZATION_PARTS"@.len() == 27);
                reveal_strlit("INVALID_H_T_T_P_HEADER_NAME");
                assert("INVALID_AUTHORIZATION_PARTS"@[8] != "INVALID_H_T_T_P_HEADER_NAME"@[8]);
                reveal_strlit("PARSING_QUERY_PARAMS_FAILED");
                assert("INVALID_AUTHORIZATION_PARTS"@[0] != "PARSING_QUERY_PARAMS_FAILED"@[0]);
                reveal_strlit("INVALID_AUTHENTICATION_TYPE");
                assert("INVALID_AUTHORIZATION_PARTS"@[12] != "INVALID_AUTHENTICATION_TYPE"@[12]);
            },
            ErrorCode::InvalidSessionToken => {
                reveal_strlit("INVALID_SESSION_TOKEN");
                assert("INVALID_SESSION_TOKEN"@.len() == 21);
                reveal_strlit("ENTITY_ALREADY_EXISTS");
                assert("INVALID_SESSION_TOKEN"@[0] != "ENTITY_ALREADY_EXISTS"@[0]);
                reveal_strlit("INTERNAL_SERVER_ERROR");
                assert("INVALID_SESSION_TOKEN"@[2] != "INTERNAL_SERVER_ERROR"@[2]);
                reveal_strlit("UNABLE_TO_DECODE_ULID");
                assert("INVALID_SESSION_TOKEN"@[0] != "UNABLE_TO_DECODE_ULID"@[0]);
            },
            ErrorCode::SessionExpired => {
                reveal_strlit("SESSION_EXPIRED");
                assert("SESSION_EXPIRED"@.len() == 15);
            },
            ErrorCode::UnknownSession => {
                reveal_strlit("UNKNOWN_SESSION");
                assert("UNKNOWN_SESSION"@.len() == 15);
                reveal_strlit("SESSION_EXPIRED");
                assert("UNKNOWN_SESSION"@[0] != "SESSION_EXPIRED"@[0]);
            },
            ErrorCode::RefreshTokenRequired => {
                reveal_strlit("REFRESH_TOKEN_REQUIRED");
                assert("REFRESH_TOKEN_REQUIRED"@.len() == 22);
                reveal_strlit("INVALID_H_T_T_P_METHOD");
                assert("REFRESH_TOKEN_REQUIRED"@[0] != "INVALID_H_T_T_P_METHOD"@[0]);
                reveal_strlit("REQUIRES_SESSION_TOKEN");
                assert("REFRESH_TOKEN_REQUIRED"@[2] != "REQUIRES_SESSION_TOKEN"@[2]);
                reveal_strlit("REGISTRATIONS_DISABLED");
                assert("REFRESH_TOKEN_REQUIRED"@[2] != "REGISTRATIONS_DISABLED"@[2]);
                reveal_strlit("REACHED_UNEXPECTED_EOF");
                assert("REFRESH_TOKEN_REQUIRED"@[2] != "REACHED_UNEXPECTED_EOF"@[2]);
                reveal_strlit("MISSING_PATH_PARAMETER");
                assert("REFRESH_TOKEN_REQUIRED"@[0] != "MISSING_PATH_PARAMETER"@[0]);
            },
            ErrorCode::MaxPerPageExceeded => {
                reveal_strlit("MAX_PER_PAGE_EXCEEDED");
                assert("MAX_PER_PAGE_EXCEEDED"@.len() == 21);
                reveal_strlit("ENTITY_ALREADY_EXISTS");
                assert("MAX_PER_PAGE_EXCEEDED"@[0] != "ENTITY_ALREADY_EXISTS"@[0]);
                reveal_strlit("INTERNAL_SERVER_ERROR");
                assert("MAX_PER_PAGE_EXCEEDED"@[0] != "INTERNAL_SERVER_ERROR"@[0]);
                reveal_strlit("UNABLE_TO_DECODE_ULID");
                assert("MAX_PER_PAGE_EXCEEDED"@[0] != "UNABLE_TO_DECODE_ULID"@[0]);
                reveal_strlit("INVALID_SESSION_TOKEN");
                assert("MAX_PER_PAGE_EXCEEDED"@[0] != "INVALID_SESSION_TOKEN"@[0]);
            },
            ErrorCode::InvalidJsonPayload => {
                reveal_strlit("INVALID_JSON_PAYLOAD");
                assert("INVALID_JSON_PAYLOAD"@.len() == 20);
                reveal_strlit("INVALID_CONTENT_TYPE");
                assert("INVALID_JSON_PAYLOAD"@[8] != "INVALID_CONTENT_TYPE"@[8]);
                reveal_strlit("ACCESS_NOT_PERMITTED");
                assert("INVALID_JSON_PAYLOAD"@[0] != "ACCESS_NOT_PERMITTED"@[0]);
                reveal_strlit("MISSING_CONTENT_TYPE");
                assert("INVALID_JSON_PAYLOAD"@[0] != "MISSING_CONTENT_TYPE"@[0]);
            },
            ErrorCode::UnknownMultipartField => {
                reveal_strlit("UNKNOWN_MULTIPART_FIELD");
                assert("UNKNOWN_MULTIPART_FIELD"@.len() == 23);
                reveal_strlit("REST_ENDPOINT_NOT_FOUND");
                assert("UNKNOWN_MULTIPART_FIELD"@[0] != "REST_ENDPOINT_NOT_FOUND"@[0]);
                reveal_strlit("UNABLE_TO_DECODE_BASE64");
                assert("UNKNOWN_MULTIPART_FIELD"@[2] != "UNABLE_TO_DECODE_BASE64"@[2]);
            },
            ErrorCode::IncompleteMultipartFieldData => {
                reveal_strlit("INCOMPLETE_MULTIPART_FIELD_DATA");
                assert("INCOMPLETE_MULTIPART_FIELD_DATA"@.len() == 31);
            },
            ErrorCode::ReadMultipartHeaderFailed => {
                reveal_strlit("READ_MULTIPART_HEADER_FAILED");
                assert("READ_MULTIPART_HEADER_FAILED"@.len() == 28);
                reveal_strlit("INVALID_H_T_T_P_HEADER_VALUE");
                assert("READ_MULTIPART_HEADER_FAILED"@[0] != "INVALID_H_T_T_P_HEADER_VALUE"@[0]);
                reveal_strlit("PARSING_FAILED_IN_PATH_PARAM");
                assert("READ_MULTIPART_HEADER_FAILED"@[0] != "PARSING_FAILED_IN_PATH_PARAM"@[0]);
                reveal_strlit("MISSING_AUTHORIZATION_HEADER");
                assert("READ_MULTIPART_HEADER_FAILED"@[0] != "MISSING_AUTHORIZATION_HEADER"@[0]);
            },
            ErrorCode::DecodeMultipartContentTypeFailed => {
                reveal_strlit("DECODE_MULTIPART_CONTENT_TYPE_FAILED");
                assert("DECODE_MULTIPART_CONTENT_TYPE_FAILED"@.len() == 36);
            },
            ErrorCode::MissingMultipartBoundary => {
                reveal_strlit("MISSING_MULTIPART_BOUNDARY");
                assert("MISSING_MULTIPART_BOUNDARY"@.len() == 26);
            },
            ErrorCode::NoMultipartReceived => {
                reveal_strlit("NO_MULTIPART_RECEIVED");
                assert("NO_MULTIPART_RECEIVED"@.len() == 21);
                reveal_strlit("ENTITY_ALREADY_EXISTS");
                assert("NO_MULTIPART_RECEIVED"@[0] != "ENTITY_ALREADY_EXISTS"@[0]);
                reveal_strlit("INTERNAL_SERVER_ERROR");
                assert("NO_MULTIPART_RECEIVED"@[0] != "INTERNAL_SERVER_ERROR"@[0]);
                reveal_strlit("UNABLE_TO_DECODE_ULID");
                assert("NO_MULTIPART_RECEIVED"@[0] != "UNABLE_TO_DECODE_ULID"@[0]);
                reveal_strlit("INVALID_SESSION_TOKEN");
                assert("NO_MULTIPART_RECEIVED"@[0] != "INVALID_SESSION_TOKEN"@[0]);
                reveal_strlit("MAX_PER_PAGE_EXCEEDED");
                assert("NO_MULTIPART_RECEIVED"@[0] != "MAX_PER_PAGE_EXCEEDED"@[0]);
            },
            ErrorCode::IncompleteMultipartStream => {
                reveal_strlit("INCOMPLETE_MULTIPART_STREAM");
                assert("INCOMPLETE_MULTIPART_STREAM"@.len() == 27);
                reveal_strlit("INVALID_H_T_T_P_HEADER_NAME");
                assert("INCOMPLETE_MULTIPART_STREAM"@[2] != "INVALID_H_T_T_P_HEADER_NAME"@[2]);
                reveal_strlit("PARSING_QUERY_PARAMS_FAILED");
                assert("INCOMPLETE_MULTIPART_STREAM"@[0] != "PARSING_QUERY_PARAMS_FAILED"@[0]);
                reveal_strlit("INVALID_AUTHENTICATION_TYPE");
                assert("INCOMPLETE_MULTIPART_STREAM"@[2] != "INVALID_AUTHENTICATION_TYPE"@[2]);
                reveal_strlit("INVALID_AUTHORIZATION_PARTS");
                assert("INCOMPLETE_MULTIPART_STREAM"@[2] != "INVALID_AUTHORIZATION_PARTS"@[2]);
            },
            ErrorCode::DecodeMultipartHeaderNameFailed => {
                reveal_strlit("DECODE_MULTIPART_HEADER_NAME_FAILED");
                assert("DECODE_MULTIPART_HEADER_NAME_FAILED"@.len() == 35);
            },
            ErrorCode::StreamSizeExceeded => {
                reveal_strlit("STREAM_SIZE_EXCEEDED");
                assert("STREAM_SIZE_EXCEEDED"@.len() == 20);
                reveal_strlit("INVALID_CONTENT_TYPE");
                assert("STREAM_SIZE_EXCEEDED"@[0] != "INVALID_CONTENT_TYPE"@[0]);
                reveal_strlit("ACCESS_NOT_PERMITTED");
                assert("STREAM_SIZE_EXCEEDED"@[0] != "ACCESS_NOT_PERMITTED"@[0]);
                reveal_strlit("MISSING_CONTENT_TYPE");
                assert("STREAM_SIZE_EXCEEDED"@[0] != "MISSING_CONTENT_TYPE"@[0]);
                reveal_strlit("INVALID_JSON_PAYLOAD");
                assert("STREAM_SIZE_EXCEEDED"@[0] != "INVALID_JSON_PAYLOAD"@[0]);
            },
            ErrorCode::MultipartFieldsSizeExceeded => {
                reveal_strlit("MULTIPART_FIELDS_SIZE_EXCEEDED");
                assert("MULTIPART_FIELDS_SIZE_EXCEEDED"@.len() == 30);
                reveal_strlit("UNABLE_TO_PARSE_PATH_PARAMETER");
                assert("MULTIPART_FIELDS_SIZE_EXCEEDED"@[0] != "UNABLE_TO_PARSE_PATH_PARAMETER"@[0]);
            },
            ErrorCode::MultipartStreamReadFailed => {
                reveal_strlit("MULTIPART_STREAM_READ_FAILED");
                assert("MULTIPART_STREAM_READ_FAILED"@.len() == 28);
                reveal_strlit("INVALID_H_T_T_P_HEADER_VALUE");
                assert("MULTIPART_STREAM_READ_FAILED"@[0] != "INVALID_H_T_T_P_HEADER_VALUE"@[0]);
                reveal_strlit("PARSING_FAILED_IN_PATH_PARAM");
                assert("MULTIPART_STREAM_READ_FAILED"@[0] != "PARSING_FAILED_IN_PATH_PARAM"@[0]);
                reveal_strlit("MISSING_AUTHORIZATION_HEADER");
                assert("MULTIPART_STREAM_READ_FAILED"@[1] != "MISSING_AUTHORIZATION_HEADER"@[1]);
                reveal_strlit("READ_MULTIPART_HEADER_FAILED");
                assert("MULTIPART_STREAM_READ_FAILED"@[0] != "READ_MULTIPART_HEADER_FAILED"@[0]);
            },
            ErrorCode::MissingMultipartField => {
                reveal_strlit("MISSING_MULTIPART_FIELD");
                assert("MISSING_MULTIPART_FIELD"@.len() == 23);
                reveal_strlit("REST_ENDPOINT_NOT_FOUND");
                assert("MISSING_MULTIPART_FIELD"@[0] != "REST_ENDPOINT_NOT_FOUND"@[0]);
                reveal_strlit("UNABLE_TO_DECODE_BASE64");
                assert("MISSING_MULTIPART_FIELD"@[0] != "UNABLE_TO_DECODE_BASE64"@[0]);
                reveal_strlit("UNKNOWN_MULTIPART_FIELD");
                assert("MISSING_MULTIPART_FIELD"@[0] != "UNKNOWN_MULTIPART_FIELD"@[0]);
            },
            ErrorCode::InvalidMultipartBoundary => {
                reveal_strlit("INVALID_MULTIPART_BOUNDARY");
                assert("INVALID_MULTIPART_BOUNDARY"@.len() == 26);
                reveal_strlit("MISSING_MULTIPART_BOUNDARY");
                assert("INVALID_MULTIPART_BOUNDARY"@[0] != "MISSING_MULTIPART_BOUNDARY"@[0]);
            },
        }
    }

    /// A text that the lookup accepts is the text of the code it gives.
    pub proof fn lemma_from_code_sound(code: Seq<char>)
        ensures
            match Self::spec_from_code(code) {
                Some(c) => c.spec_code() == code,
                None => forall|c: ErrorCode| #[trigger] c.spec_code() != code,
            },
    {
        assert forall|c: ErrorCode| Self::spec_from_code(code) is None implies #[trigger] c.spec_code() != code by {
            c.lemma_from_own_code();
        }
    }

    /// No two error codes are written alike, so a code read back gives the
    /// code that was written.
    pub proof fn law_code_identifies(a: ErrorCode, b: ErrorCode)
        requires
            a.spec_code() == b.spec_code(),
        ensures
            a == b,
    {
        a.lemma_from_own_code();
        b.lemma_from_own_code();
    }

    /// Reads an error code as the API writes it.
    pub fn from_code(code: &str) -> (r: Option<ErrorCode>)
        ensures
            r == Self::spec_from_code(code@),
    {
        let all = Self::all();
        let mut i: usize = 0;
        while i < all.len()
            invariant
                all@ == Self::spec_all(),
                i <= all@.len(),
                forall|j: int| 0 <= j < i ==> (#[trigger] all@[j]).spec_code() != code@,
            decreases all@.len() - i,
        {
            if str_eq(all[i].code(), code) {
                proof { all@[i as int].lemma_from_own_code(); }
                return Some(all[i]);
            }
            i = i + 1;
        }
        proof {
            assert forall|c: ErrorCode| c.spec_code() != code@ by {
                c.lemma_in_all();
                let j = choose|j: int| 0 <= j < all@.len() && all@[j] == c;
            }
            Self::lemma_from_code_sound(code@);
        }
        None
    }
}

/// Representation of a error from an error trace.
pub struct Error {
    /// Contextualized error code on why this request failed.
    pub code: ErrorCode,
    /// A humane description based off the contextualised `code` field.
    pub message: String,
    /// If provided, more information about the error.
    pub details: Option<serde_json::Value>,
}

impl Error {
    /// An error with a code and a message and no details.
    pub fn new(code: ErrorCode, message: &str) -> (r: Error)
        ensures
            r.code == code,
            r.message@ == message@,
            r.details is None,
    {
        Error { code, message: String::from_str(message), details: None }
    }

    /// An error with a code, a message and optional details.
    pub fn with_details(code: ErrorCode, message: String, details: Option<serde_json::Value>) -> (r: Error)
        ensures
            r.code == code,
            r.message@ == message@,
            r.details == details,
    {
        Error { code, message, details }
    }
}

/// Representation of a response that the API server sends for each request.
pub struct Response<T> {
    /// The HTTP status code of the response.
    pub status: u16,
    /// Was the request that was processed a success?
    pub success: bool,
    /// The data that the REST endpoint sends back, if any.
    pub data: Option<T>,
    /// The error trace for the request that was processed by the API server.
    pub errors: Vec<Error>,
}

/// The `200 OK` status code.
pub const STATUS_OK: u16 = 200;

/// The `204 No Content` status code.
pub const STATUS_NO_CONTENT: u16 = 204;

/// The `500 Internal Server Error` status code.
pub const STATUS_INTERNAL_SERVER_ERROR: u16 = 500;

/// Return a successful API response.
pub fn ok<T>(status: u16, data: T) -> (r: Response<T>)
    ensures
        r.status == status,
        r.success,
        r.data == Some(data),
        r.errors@.len() == 0,
{
    Response { success: true, errors: Vec::new(), status, data: Some(data) }
}

/// Returns a empty HTTP API response.
pub fn no_content() -> (r: Response<()>)
    ensures
        r.status == STATUS_NO_CONTENT,
        r.success,
        r.data == Some(()),
        r.errors@.len() == 0,
{
    ok(STATUS_NO_CONTENT, ())
}

/// Return a success HTTP API response holding `T`'s [`Default`] value.
pub fn from_default<T: Default>(status: u16) -> (r: Response<T>)
    ensures
        r.status == status,
        r.success,
        r.data is Some,
        r.errors@.len() == 0,
{
    ok(status, T::default())
}

/// Returns a failed HTTP API response carrying `error`.
pub fn err(status: u16, error: Error) -> (r: Response<()>)
    ensures
        r.status == status,
        !r.success,
        r.data is None,
        r.errors@.len() == 1,
        r.errors@[0].code == error.code,
        r.errors@[0].message@ == error.message@,
        r.errors@[0].details == error.details,
{
    let mut errors: Vec<Error> = Vec::new();
    errors.push(error);
    Response { success: false, errors, status, data: None }
}

/// Propagate a HTTP API response as a internal server error.
pub fn internal_server_error() -> (r: Response<()>)
    ensures
        r.status == STATUS_INTERNAL_SERVER_ERROR,
        !r.success,
        r.data is None,
        r.errors@.len() == 1,
        r.errors@[0].code == ErrorCode::InternalServerError,
        r.errors@[0].message@ == "Internal Server Error"@,
        r.errors@[0].details is None,
{
    err(STATUS_INTERNAL_SERVER_ERROR, Error::new(ErrorCode::InternalServerError, "Internal Server Error"))
}

/// The message of a system failure response for an error displayed as `error`.
pub open spec fn system_failure_message(error: Seq<char>) -> Seq<char> {
    "system failure occurred: "@ + error
}

/// The JSON array `serde_json::Value::Array` whose elements are the strings
/// `items`, each a `Value::String`, in order.
pub uninterp spec fn json_strings(items: Seq<Seq<char>>) -> serde_json::Value;

/// Builds a JSON array of strings with the constructors
/// `serde_json::Value::Array` and `serde_json::Value::String`.
#[verifier::external_body]
fn json_string_array(items: Vec<String>) -> (r: serde_json::Value)
    ensures
        r == json_strings(views(items@)),
{
    serde_json::Value::Array(items.into_iter().map(serde_json::Value::String).collect())
}

/// The sources that a system failure lists in its details: the direct
/// source of the error, if it has one.
pub open spec fn spec_failure_sources(source: Option<Seq<char>>) -> Seq<Seq<char>> {
    match source {
        Some(s) => seq![s],
        None => Seq::empty(),
    }
}

/// The list of sources that a system failure shows.
pub fn failure_sources(source: Option<String>) -> (r: Vec<String>)
    ensures
        views(r@) == spec_failure_sources(match source {
            Some(s) => Some(s@),
            None => None,
        }),
{
    let mut sources: Vec<String> = Vec::new();
    match source {
        Some(s) => {
            sources.push(s);
            assert(views(sources@) =~= seq![sources@[0]@]);
        },
        None => {
            assert(views(sources@) =~= Seq::<Seq<char>>::empty());
        },
    }
    sources
}

/// Propagate a system failure response for an error that displays as
/// `error` and whose source (if any) displays as `source`: the message
/// names the error, the details list the source.
pub fn system_failure(error: &str, source: Option<String>) -> (r: Response<()>)
    ensures
        r.status == STATUS_INTERNAL_SERVER_ERROR,
        !r.success,
        r.data is None,
        r.errors@.len() == 1,
        r.errors@[0].code == ErrorCode::SystemFailure,
        r.errors@[0].message@ == system_failure_message(error@),
        r.errors@[0].details == Some(json_strings(spec_failure_sources(match source {
            Some(s) => Some(s@),
            None => None,
        }))),
{
    let sources = failure_sources(source);
    let message = concat("system failure occurred: ", error);
    let details = json_string_array(sources);
    err(
        STATUS_INTERNAL_SERVER_ERROR,
        Error::with_details(ErrorCode::SystemFailure, message, Some(details)),
    )
}

} // verus!
