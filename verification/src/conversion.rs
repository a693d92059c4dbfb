//! Conversion-webhook envelopes: parsing a `ConversionReview` into a request
//! and building the typed response around it.
//!
//! A response lists its converted objects in exactly the order of the
//! request's objects, and lists none on failure; the `ensures` clauses of
//! [`ConversionResponse::success`] and [`ConversionResponse::failure`] state
//! this for every input.

use vstd::prelude::*;

verus! {

use crate::meta::{Status, TypeMeta};

/// Returned when a `ConversionReview` carries no request.
#[derive(Debug, Clone, Copy, PartialEq, Eq, Structural)]
pub struct ConvertConversionReviewError;

/// The envelope the API server sends and expects back: type information plus
/// a request on input and a response on output.
pub struct ConversionReview {
    /// The API version and kind of the envelope.
    pub types: TypeMeta,
    /// The conversion request, set on input.
    pub request: Option<ConversionRequest>,
    /// The conversion response, set on output.
    pub response: Option<ConversionResponse>,
}

/// The part of a `ConversionReview` the API server fills in.
pub struct ConversionRequest {
    /// The envelope's type information, copied over when the request is
    /// extracted from its review.
    pub types: Option<TypeMeta>,
    /// Random identifier correlating this conversion call.
    pub uid: String,
    /// The API group and version the objects should be converted to.
    pub desired_api_version: String,
    /// The objects to convert, possibly in several versions.
    pub objects: Vec<serde_json::Value>,
}

/// The part of a `ConversionReview` the webhook fills in.
pub struct ConversionResponse {
    /// The envelope's type information, copied from the request.
    pub types: Option<TypeMeta>,
    /// Copy of the request's `uid`.
    pub uid: String,
    /// The outcome of the conversion.
    pub result: Status,
    /// The converted objects, in the exact order of the request's objects;
    /// empty when the conversion failed.
    pub converted_objects: Vec<serde_json::Value>,
}

impl ConversionRequest {
    /// Extracts the request from a review, keeping the review's type
    /// information; fails exactly when the review carries no request.
    pub fn from_review(review: ConversionReview) -> (r: Result<
        ConversionRequest,
        ConvertConversionReviewError,
    >)
        ensures
            match review.request {
                Some(req) => {
                    &&& r matches Ok(q)
                    &&& q.types == Some(review.types)
                    &&& q.uid == req.uid
                    &&& q.desired_api_version == req.desired_api_version
                    &&& q.objects@ == req.objects@
                },
                None => r is Err,
            },
    {
        match review.request {
            Some(req) => Ok(
                ConversionRequest {
                    types: Some(review.types),
                    uid: req.uid,
                    desired_api_version: req.desired_api_version,
                    objects: req.objects,
                },
            ),
            None => Err(ConvertConversionReviewError),
        }
    }
}

/// On the wire a missing or null `convertedObjects` field means an empty
/// list; this states that reading.
pub fn converted_objects_or_empty(field: Option<Vec<serde_json::Value>>) -> (r: Vec<
    serde_json::Value,
>)
    ensures
        match field {
            Some(v) => r@ == v@,
            None => r@.len() == 0,
        },
{
    match field {
        Some(v) => v,
        None => Vec::new(),
    }
}

impl ConversionResponse {
    /// Creates a new response matching the provided request: same correlation
    /// `uid`, an unset result and no converted objects yet. Finalize it with
    /// [`ConversionResponse::success`] or [`ConversionResponse::failure`].
    pub fn for_request(request: ConversionRequest) -> (r: ConversionResponse)
        ensures
            r.types == request.types,
            r.uid == request.uid,
            r.result.status is None,
            r.result.code == 0,
            r.converted_objects@.len() == 0,
    {
        ConversionResponse {
            types: request.types,
            uid: request.uid,
            result: Status {
                status: None,
                code: 0,
                message: "".to_owned(),
                reason: "".to_owned(),
            },
            converted_objects: Vec::new(),
        }
    }

    /// Finalizes a successful conversion: the response carries exactly the
    /// given objects, which the caller lists in the same order as the
    /// request's objects.
    pub fn success(self, converted_objects: Vec<serde_json::Value>) -> (r: ConversionResponse)
        ensures
            r.result.spec_is_success(),
            r.converted_objects@ == converted_objects@,
            r.uid == self.uid,
            r.types == self.types,
    {
        ConversionResponse {
            types: self.types,
            uid: self.uid,
            result: Status::success(),
            converted_objects,
        }
    }

    /// Finalizes a failed conversion: the result carries the message and
    /// reason, and the response lists no converted objects.
    pub fn failure(self, message: &str, reason: &str) -> (r: ConversionResponse)
        ensures
            !r.result.spec_is_success(),
            r.result.message@ == message@,
            r.result.reason@ == reason@,
            r.converted_objects@.len() == 0,
            r.uid == self.uid,
            r.types == self.types,
    {
        ConversionResponse {
            types: self.types,
            uid: self.uid,
            result: Status::failure(message, reason),
            converted_objects: Vec::new(),
        }
    }

    /// A failed conversion response matched with no request, for when the
    /// review itself could not be parsed: its `uid` is empty.
    pub fn invalid(message: &str, reason: &str) -> (r: ConversionResponse)
        ensures
            !r.result.spec_is_success(),
            r.result.message@ == message@,
            r.result.reason@ == reason@,
            r.uid@.len() == 0,
            r.types is None,
            r.converted_objects@.len() == 0,
    {
        ConversionResponse {
            types: None,
            uid: String::new(),
            result: Status::failure(message, reason),
            converted_objects: Vec::new(),
        }
    }

    /// Wraps the response back into a `ConversionReview`, ready to be sent.
    /// A response that kept no type information (one built by
    /// [`ConversionResponse::invalid`]) is stamped as a v1 review.
    pub fn into_review(self) -> (r: ConversionReview)
        ensures
            match self.types {
                Some(t) => r.types == t,
                None => {
                    &&& r.types.api_version@ == "apiextensions.k8s.io/v1"@
                    &&& r.types.kind@ == "ConversionReview"@
                },
            },
            r.request is None,
            r.response matches Some(resp) && {
                &&& resp.uid == self.uid
                &&& resp.result == self.result
                &&& resp.converted_objects@ == self.converted_objects@
                &&& resp.types is None
            },
    {
        let types = match &self.types {
            Some(t) => TypeMeta { api_version: t.api_version.clone(), kind: t.kind.clone() },
            None => TypeMeta {
                api_version: "apiextensions.k8s.io/v1".to_owned(),
                kind: "ConversionReview".to_owned(),
            },
        };
        ConversionReview {
            types,
            request: None,
            response: Some(
                ConversionResponse {
                    types: None,
                    uid: self.uid,
                    result: self.result,
                    converted_objects: self.converted_objects,
                },
            ),
        }
    }
}

} // verus!
