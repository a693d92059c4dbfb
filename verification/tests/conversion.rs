use kubecore::conversion::{
    converted_objects_or_empty, ConversionRequest, ConversionResponse, ConversionReview,
};
use kubecore::meta::TypeMeta;
use serde_json::Value;

fn review_with_request(objects: Vec<Value>) -> ConversionReview {
    ConversionReview {
        types: TypeMeta {
            api_version: "apiextensions.k8s.io/v1".to_owned(),
            kind: "ConversionReview".to_owned(),
        },
        request: Some(ConversionRequest {
            types: None,
            uid: "uid-123".to_owned(),
            desired_api_version: "example.io/v2".to_owned(),
            objects,
        }),
        response: None,
    }
}

fn three_objects() -> Vec<Value> {
    vec![
        Value::String("one".to_owned()),
        Value::Bool(true),
        Value::Null,
    ]
}

#[test]
fn request_extraction_round_trip() {
    let review = review_with_request(three_objects());
    let request = ConversionRequest::from_review(review).unwrap();
    assert_eq!(request.uid, "uid-123");
    assert_eq!(request.desired_api_version, "example.io/v2");
    assert_eq!(request.objects.len(), 3);
    let types = request.types.as_ref().unwrap();
    assert_eq!(types.kind, "ConversionReview");

    let response = ConversionResponse::for_request(request);
    assert_eq!(response.uid, "uid-123");
    let review = response.into_review();
    assert_eq!(review.types.kind, "ConversionReview");
    assert!(review.request.is_none());
    assert_eq!(review.response.as_ref().unwrap().uid, "uid-123");
}

#[test]
fn review_without_request_is_rejected() {
    let review = ConversionReview {
        types: TypeMeta {
            api_version: "apiextensions.k8s.io/v1".to_owned(),
            kind: "ConversionReview".to_owned(),
        },
        request: None,
        response: None,
    };
    assert!(ConversionRequest::from_review(review).is_err());
}

#[test]
fn successful_response_keeps_count_and_order() {
    let review = review_with_request(three_objects());
    let request = ConversionRequest::from_review(review).unwrap();
    let n = request.objects.len();
    let converted: Vec<Value> = request
        .objects
        .iter()
        .map(|o| Value::Array(vec![o.clone()]))
        .collect();
    let response = ConversionResponse::for_request(request).success(converted);
    assert!(response.result.is_success());
    assert_eq!(response.converted_objects.len(), n);
    assert_eq!(
        response.converted_objects[0],
        Value::Array(vec![Value::String("one".to_owned())])
    );
    assert_eq!(
        response.converted_objects[2],
        Value::Array(vec![Value::Null])
    );
}

#[test]
fn failed_response_has_no_objects() {
    let review = review_with_request(three_objects());
    let request = ConversionRequest::from_review(review).unwrap();
    let response = ConversionResponse::for_request(request)
        .failure("conversion exploded", "Invalid");
    assert!(!response.result.is_success());
    assert_eq!(response.result.message, "conversion exploded");
    assert_eq!(response.result.reason, "Invalid");
    assert_eq!(response.converted_objects.len(), 0);
}

#[test]
fn invalid_response_has_empty_uid_and_v1_stamp() {
    let response = ConversionResponse::invalid("could not parse review", "BadRequest");
    assert_eq!(response.uid, "");
    assert_eq!(response.converted_objects.len(), 0);
    let review = response.into_review();
    assert_eq!(review.types.api_version, "apiextensions.k8s.io/v1");
    assert_eq!(review.types.kind, "ConversionReview");
}

#[test]
fn null_converted_objects_mean_empty() {
    assert_eq!(converted_objects_or_empty(None).len(), 0);
    let some = converted_objects_or_empty(Some(vec![Value::Bool(false)]));
    assert_eq!(some, vec![Value::Bool(false)]);
}
