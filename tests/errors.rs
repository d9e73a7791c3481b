use actix_learn::errors::{
    describe, handle_error, ErrorVariant, InternalDbError, MyError, MyNewError, ResponseDescriptor,
    UserError, UserFacingError,
};

fn status(e: ErrorVariant) -> u16 {
    handle_error(&e).status
}

#[test]
fn timeout_is_408() {
    assert_eq!(status(ErrorVariant::Timeout), 408);
}

#[test]
fn bad_client_data_is_400() {
    assert_eq!(status(ErrorVariant::BadClientData), 400);
}

#[test]
fn internal_is_500() {
    assert_eq!(status(ErrorVariant::Internal), 500);
}

#[test]
fn validation_error_is_400() {
    assert_eq!(status(ErrorVariant::ValidationError { field: "age".to_string() }), 400);
}

#[test]
fn user_facing_internal_is_500() {
    assert_eq!(status(ErrorVariant::UserFacingInternal), 500);
}

#[test]
fn every_variant_renders_as_json_with_its_description() {
    let cases = vec![
        (ErrorVariant::Internal, "内部错误"),
        (ErrorVariant::Timeout, "请求超时"),
        (ErrorVariant::BadClientData, "请求错误"),
        (ErrorVariant::ValidationError { field: "name".to_string() }, "验证错误: name"),
        (ErrorVariant::UserFacingInternal, "发生了内部错误(用户可见错误)"),
    ];
    for (e, body) in cases {
        let r = handle_error(&e);
        assert_eq!(r.content_type, "application/json");
        assert_eq!(r.body, body);
        assert_eq!(describe(&e), body);
    }
}

#[test]
fn validation_error_on_email_names_the_field() {
    let r = handle_error(&ErrorVariant::ValidationError { field: "email".to_string() });
    assert_eq!(r.status, 400);
    assert!(r.body.contains("email"));
}

#[test]
fn user_facing_error_hides_the_database_detail() {
    let db = InternalDbError;
    let detail = db.message();
    assert_eq!(detail, "数据库内部错误");
    let e = UserFacingError::from(db);
    assert_eq!(e, UserFacingError::InternalError);
    let r = e.error_response();
    assert_eq!(r.status, 500);
    assert_eq!(r.body, "发生了内部错误(用户可见错误)");
    assert!(!r.body.contains(&detail));
    assert_eq!(e.status_code(), 500);
    assert_eq!(e.message(), r.body);
}

#[test]
fn my_error_uses_the_default_rendering() {
    let e = MyError { name: "测试错误" };
    assert_eq!(e.status_code(), 500);
    assert_eq!(e.message(), "测试错误");
    assert_eq!(
        e.error_response(),
        ResponseDescriptor {
            status: 500,
            content_type: "text/plain; charset=utf-8".to_string(),
            body: "测试错误".to_string(),
        }
    );
}

#[test]
fn my_new_error_maps_each_case() {
    let cases = vec![
        (MyNewError::InternalError, 500, "内部错误"),
        (MyNewError::Timeout, 408, "请求超时"),
        (MyNewError::BadClientData, 400, "请求错误"),
    ];
    for (e, code, body) in cases {
        assert_eq!(e.status_code(), code);
        assert_eq!(e.message(), body);
        let r = e.error_response();
        assert_eq!(r.status, code);
        assert_eq!(r.content_type, "application/json");
        assert_eq!(r.body, body);
    }
    assert_eq!(MyNewError::Timeout.variant(), ErrorVariant::Timeout);
}

#[test]
fn user_error_renders_the_field() {
    let e = UserError::ValidationError { field: "email".to_string() };
    assert_eq!(e.status_code(), 400);
    assert_eq!(e.message(), "验证错误: email");
    assert_eq!(e.variant(), ErrorVariant::ValidationError { field: "email".to_string() });
    let r = e.error_response();
    assert_eq!(r.status, 400);
    assert_eq!(r.content_type, "application/json");
    assert_eq!(r.body, "验证错误: email");
}

#[test]
fn validation_error_with_an_empty_field_still_renders() {
    let r = handle_error(&ErrorVariant::ValidationError { field: String::new() });
    assert_eq!(r.status, 400);
    assert_eq!(r.body, "验证错误: ");
}
