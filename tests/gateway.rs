use meal_gateway::analysis::{
    chat_payload, interpret_response, plan_analysis, prompt_text, upstream_error_message,
    DEFAULT_PROMPT, PROVIDER_ENDPOINT,
};
use meal_gateway::error::GatewayError;
use meal_gateway::naming::{decimal_text, resolve};
use meal_gateway::request::{decode_analysis_request, decode_upload_request};
use meal_gateway::response::{error_reply, json_reply, upload_outcome_reply, upload_reply};
use meal_gateway::storage::{
    decode_payload, finish_upload, object_url, plan_upload, plan_upload_now, region_or_default, upload_result,
    IMAGE_CONTENT_TYPE,
};

#[test]
fn label_mode_with_name() {
    let k = resolve(Some("label"), Some("x.png"), "u9", 5);
    assert_eq!(k.key, "meal-labels/meal_label_x.png");
    assert_eq!(k.folder, "meal-labels");
    assert_eq!(k.filename, "meal_label_x.png");
}

#[test]
fn default_mode_without_name() {
    let k = resolve(None, None, "u1", 1700000000000);
    assert_eq!(k.key, "meal-images/meal_image_u1_1700000000000.jpg");
    assert_eq!(k.folder, "meal-images");
}

#[test]
fn other_mode_uses_image_folder() {
    let k = resolve(Some("Label"), Some("a.jpg"), "u1", 0);
    assert_eq!(k.key, "meal-images/meal_image_a.jpg");
    let k = resolve(Some(""), None, "u2", 0);
    assert_eq!(k.key, "meal-images/meal_image_u2_0.jpg");
}

#[test]
fn resolution_is_repeatable() {
    let a = resolve(Some("label"), None, "user", 42);
    let b = resolve(Some("label"), None, "user", 42);
    assert_eq!(a.key, b.key);
    assert_eq!(a.key, "meal-labels/meal_label_user_42.jpg");
}

#[test]
fn decimal_text_of_edge_values() {
    assert_eq!(decimal_text(0), "0");
    assert_eq!(decimal_text(-7), "-7");
    assert_eq!(decimal_text(i64::MIN), i64::MIN.to_string());
    assert_eq!(decimal_text(i64::MAX), i64::MAX.to_string());
    assert_eq!(decimal_text(1700000000000), "1700000000000");
}

#[test]
fn analysis_request_by_either_name() {
    let a = decode_analysis_request(br#"{"image_url":"http://i/1.jpg","prompt":"hi"}"#).unwrap();
    let b = decode_analysis_request(br#"{"imageUrl":"http://i/1.jpg","prompt":"hi"}"#).unwrap();
    assert_eq!(a.image_url, "http://i/1.jpg");
    assert_eq!(a.image_url, b.image_url);
    assert_eq!(a.prompt, Some("hi".to_string()));
    assert_eq!(a.prompt, b.prompt);
}

#[test]
fn analysis_request_without_url_is_malformed() {
    let r = decode_analysis_request(br#"{"prompt":"hi"}"#);
    assert!(matches!(r, Err(GatewayError::MalformedRequest(_))));
}

#[test]
fn analysis_request_edge_cases() {
    let r = decode_analysis_request(br#"{"image_url":"a","imageUrl":"b"}"#);
    assert!(matches!(r, Err(GatewayError::MalformedRequest(_))));
    let r = decode_analysis_request(br#"{"image_url":3}"#);
    assert!(matches!(r, Err(GatewayError::MalformedRequest(_))));
    let r = decode_analysis_request(b"not json");
    assert!(matches!(r, Err(GatewayError::MalformedRequest(_))));
    let r = decode_analysis_request(br#"["a"]"#);
    assert!(matches!(r, Err(GatewayError::MalformedRequest(_))));
    let q = decode_analysis_request(br#"{"image_url":"a","prompt":null,"extra":1}"#).unwrap();
    assert_eq!(q.prompt, None);
    let q = decode_analysis_request(br#"{"image_url":"a","prompt":""}"#).unwrap();
    assert_eq!(q.prompt, Some(String::new()));
}

#[test]
fn upload_request_by_aliases() {
    let q = decode_upload_request(
        br#"{"imageDataBase64":"aGk=","userId":"u1","mode":"label","imageName":"n.png"}"#,
    )
    .unwrap();
    assert_eq!(q.image_data_base64, "aGk=");
    assert_eq!(q.user_id, "u1");
    assert_eq!(q.mode, Some("label".to_string()));
    assert_eq!(q.image_name, Some("n.png".to_string()));
    let q = decode_upload_request(br#"{"image_data_base64":"aGk=","user_id":"u1"}"#).unwrap();
    assert_eq!(q.mode, None);
    assert_eq!(q.image_name, None);
    let r = decode_upload_request(br#"{"image_data_base64":"aGk="}"#);
    assert!(matches!(r, Err(GatewayError::MalformedRequest(_))));
}

#[test]
fn failed_provider_call_names_status_and_body() {
    let r = interpret_response(401, Some("Unauthorized"), "unauthorized");
    match r {
        Err(GatewayError::Upstream(m)) => {
            assert!(m.contains("401"));
            assert!(m.contains("unauthorized"));
            assert_eq!(m, "OpenRouter responded with 401 Unauthorized: unauthorized");
        }
        other => panic!("unexpected {:?}", other),
    }
    assert_eq!(
        upstream_error_message(599, None, "x"),
        "OpenRouter responded with 599 <unknown status code>: x"
    );
}

#[test]
fn successful_provider_json_is_passed_through() {
    let body = r#"{"choices":[{"message":{"content":"about 500 kcal"}}],"id":"abc","n":1.5}"#;
    let v = interpret_response(200, Some("OK"), body).unwrap();
    let expected: serde_json::Value = serde_json::from_str(body).unwrap();
    assert_eq!(v, expected);
}

#[test]
fn successful_status_with_bad_json_is_upstream_error() {
    let r = interpret_response(200, Some("OK"), "<html>");
    assert!(matches!(r, Err(GatewayError::Upstream(_))));
}

#[test]
fn payload_holds_prompt_then_image() {
    let p = chat_payload("http://img/a \"b\".jpg", None);
    let v: serde_json::Value = serde_json::from_str(&p).unwrap();
    assert_eq!(v["model"], "openai/gpt-4.1-nano");
    let content = &v["messages"][0]["content"];
    assert_eq!(v["messages"][0]["role"], "user");
    assert_eq!(content[0]["type"], "text");
    assert_eq!(content[0]["text"], DEFAULT_PROMPT);
    assert_eq!(content[1]["type"], "image_url");
    assert_eq!(content[1]["image_url"]["url"], "http://img/a \"b\".jpg");
    let p = chat_payload("u", Some("count\ncalories".to_string()));
    let v: serde_json::Value = serde_json::from_str(&p).unwrap();
    assert_eq!(v["messages"][0]["content"][0]["text"], "count\ncalories");
}

#[test]
fn prompt_defaults_when_absent() {
    assert_eq!(prompt_text(None), "Please analyze this image and estimate macros/calories.");
    assert_eq!(prompt_text(Some("p".to_string())), "p");
}

#[test]
fn analysis_without_credential_plans_no_call() {
    let r = plan_analysis(None, br#"{"image_url":"a"}"#);
    assert!(matches!(r, Err(GatewayError::Configuration(_))));
    let r = plan_analysis(Some("k".to_string()), br#"{}"#);
    assert!(matches!(r, Err(GatewayError::MalformedRequest(_))));
    let c = plan_analysis(Some("k".to_string()), br#"{"imageUrl":"a"}"#).unwrap();
    assert_eq!(c.api_key, "k");
    assert_eq!(c.endpoint, PROVIDER_ENDPOINT);
    assert_eq!(c.payload, chat_payload("a", None));
}

#[test]
fn invalid_base64_plans_no_put() {
    assert!(matches!(decode_payload("@@not base64@@"), Err(GatewayError::InvalidPayload(_))));
    let r = plan_upload(
        Some("b".to_string()),
        br#"{"image_data_base64":"%%%","user_id":"u1"}"#,
        1,
    );
    assert!(matches!(r, Err(GatewayError::InvalidPayload(_))));
}

#[test]
fn base64_payload_is_decoded() {
    assert_eq!(decode_payload("aGVsbG8=").unwrap(), b"hello".to_vec());
    assert_eq!(decode_payload("").unwrap(), Vec::<u8>::new());
}

#[test]
fn upload_plan_for_valid_request() {
    let p = plan_upload(
        Some("b".to_string()),
        br#"{"image_data_base64":"aGVsbG8=","user_id":"u1"}"#,
        1700000000000,
    )
    .unwrap();
    assert_eq!(p.bucket, "b");
    assert_eq!(p.key.key, "meal-images/meal_image_u1_1700000000000.jpg");
    assert_eq!(p.body, b"hello".to_vec());
    assert_eq!(p.content_type, IMAGE_CONTENT_TYPE);
    let p = plan_upload_now(
        Some("b".to_string()),
        br#"{"imageDataBase64":"aGk=","userId":"u1","mode":"label","imageName":"x.png"}"#,
    )
    .unwrap();
    assert_eq!(p.key.key, "meal-labels/meal_label_x.png");
}

#[test]
fn upload_without_bucket_plans_no_put() {
    let r = plan_upload(None, br#"{"image_data_base64":"aGk=","user_id":"u1"}"#, 1);
    assert!(matches!(r, Err(GatewayError::Configuration(_))));
    let r = plan_upload_now(None, b"{}");
    assert!(matches!(r, Err(GatewayError::Configuration(_))));
}

#[test]
fn object_url_is_virtual_hosted() {
    let u = object_url("b", "us-east-1", "meal-images/meal_image_u1_1700000000000.jpg");
    assert_eq!(u, "https://b.s3.us-east-1.amazonaws.com/meal-images/meal_image_u1_1700000000000.jpg");
    let r = upload_result("b", "eu-west-1", "k/x");
    assert!(r.success);
    assert_eq!(r.url, "https://b.s3.eu-west-1.amazonaws.com/k/x");
    assert_eq!(r.key, "k/x");
}

#[test]
fn region_falls_back() {
    assert_eq!(region_or_default(None), "us-east-1");
    assert_eq!(region_or_default(Some("ap-south-1".to_string())), "ap-south-1");
}

#[test]
fn replies_are_json_envelopes() {
    let e = GatewayError::Storage("put \"failed\"".to_string());
    let r = error_reply(&e);
    assert_eq!(r.status, 500);
    let v: serde_json::Value = serde_json::from_str(&r.body).unwrap();
    assert_eq!(v["error"], "put \"failed\"");
    assert_eq!(e.message(), "put \"failed\"");

    let u = upload_result("b", "us-east-1", "k");
    let r = upload_reply(&u);
    assert_eq!(r.status, 200);
    assert_eq!(r.body, r#"{"key":"k","success":true,"url":"https://b.s3.us-east-1.amazonaws.com/k"}"#);

    let r = upload_outcome_reply(&Err(GatewayError::InvalidPayload("bad".to_string())));
    assert_eq!(r.status, 500);
    assert_eq!(r.body, r#"{"error":"bad"}"#);

    let r = json_reply("{}".to_string());
    assert_eq!(r.status, 200);
    assert_eq!(r.body, "{}");
}

#[test]
fn put_outcome_decides_result() {
    let p = plan_upload(
        Some("b".to_string()),
        br#"{"image_data_base64":"aGk=","user_id":"u1","image_name":"n.jpg"}"#,
        1,
    )
    .unwrap();
    let ok = finish_upload(&p, None, None).unwrap();
    assert!(ok.success);
    assert_eq!(ok.key, "meal-images/meal_image_n.jpg");
    assert_eq!(ok.url, "https://b.s3.us-east-1.amazonaws.com/meal-images/meal_image_n.jpg");
    let ok = finish_upload(&p, Some("eu-central-1".to_string()), None).unwrap();
    assert_eq!(ok.url, "https://b.s3.eu-central-1.amazonaws.com/meal-images/meal_image_n.jpg");
    let r = finish_upload(&p, None, Some("access denied".to_string()));
    match r {
        Err(GatewayError::Storage(m)) => assert_eq!(m, "access denied"),
        other => panic!("unexpected {:?}", other),
    }
}
