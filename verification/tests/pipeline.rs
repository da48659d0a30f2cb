use ticket_service::ctx::Ctx;
use ticket_service::error::{ClientError, Error, HttpStatus};
use ticket_service::model::{ModelController, TicketToCreate};
use ticket_service::response::{main_response_mapper, map_response, ClientErrorBody};
use ticket_service::web::middleware_auth::{
    extract_ctx, middleware_context_resolver, middleware_require_auth, resolve_context,
    RequestExtensions,
};
use ticket_service::web::routes_login::{api_login, DEMO_USER_ID};
use ticket_service::web::routes_tickets::{create_ticket, delete_ticket, list_tickets};
use ticket_service::web::AUTH_TOKEN;

fn resolved(cookie: Option<&str>) -> RequestExtensions {
    let mut extensions = RequestExtensions::new();
    middleware_context_resolver(&mut extensions, cookie);
    extensions
}

fn is_uuid_v4_text(s: &str) -> bool {
    let chars: Vec<char> = s.chars().collect();
    chars.len() == 36
        && chars.iter().enumerate().all(|(i, c)| match i {
            8 | 13 | 18 | 23 => *c == '-',
            _ => matches!(*c, '0'..='9' | 'a'..='f'),
        })
        && chars[14] == '4'
        && matches!(chars[19], '8' | '9' | 'a' | 'b')
}

#[test]
fn cookie_name() {
    assert_eq!(AUTH_TOKEN, "auth-token");
}

#[test]
fn resolve_without_cookie() {
    assert_eq!(resolve_context(None), Err(Error::AuthFailNoAuthTokenCookie));
}

#[test]
fn resolve_with_malformed_cookie() {
    for value in ["", "garbage", "user-1.exp.sign", "1.exp", "1.exp.sign.x", "1..sign"] {
        assert_eq!(resolve_context(Some(value)), Err(Error::AuthFailTokenWrongFormat));
    }
}

#[test]
fn resolve_with_valid_cookie() {
    assert_eq!(resolve_context(Some("1.exp.sign")), Ok(Ctx::new(1)));
    assert_eq!(resolve_context(Some("0.a.b")), Ok(Ctx::new(0)));
    assert_eq!(resolve_context(Some("0012.a.b")), Ok(Ctx::new(12)));
    assert_eq!(
        resolve_context(Some("18446744073709551615.never.forged")),
        Ok(Ctx::new(u64::MAX))
    );
}

#[test]
fn resolver_records_and_never_rejects() {
    assert_eq!(resolved(None).get(), Some(Err(Error::AuthFailNoAuthTokenCookie)));
    assert_eq!(resolved(Some("nope")).get(), Some(Err(Error::AuthFailTokenWrongFormat)));
    assert_eq!(resolved(Some("5.e.s")).get(), Some(Ok(Ctx::new(5))));
}

#[test]
fn resolver_overwrites_an_earlier_record() {
    let mut extensions = RequestExtensions::new();
    extensions.insert(Ok(Ctx::new(9)));
    middleware_context_resolver(&mut extensions, None);
    assert_eq!(extensions.get(), Some(Err(Error::AuthFailNoAuthTokenCookie)));
    middleware_context_resolver(&mut extensions, Some("3.e.s"));
    assert_eq!(extensions.get(), Some(Ok(Ctx::new(3))));
}

#[test]
fn extractor_without_a_record() {
    let extensions = RequestExtensions::new();
    assert_eq!(extensions.get(), None);
    assert_eq!(extract_ctx(&extensions), Err(Error::AuthFailContextNotInRequestExtension));
    assert_eq!(
        middleware_require_auth(&extensions),
        Err(Error::AuthFailContextNotInRequestExtension)
    );
}

#[test]
fn extractor_surfaces_the_recorded_failure() {
    assert_eq!(extract_ctx(&resolved(None)), Err(Error::AuthFailNoAuthTokenCookie));
    assert_eq!(extract_ctx(&resolved(Some("x"))), Err(Error::AuthFailTokenWrongFormat));
    assert_eq!(extract_ctx(&resolved(Some("8.e.s"))), Ok(Ctx::new(8)));
}

#[test]
fn guard_passes_or_rejects() {
    assert_eq!(middleware_require_auth(&resolved(Some("8.e.s"))), Ok(()));
    assert_eq!(middleware_require_auth(&resolved(None)), Err(Error::AuthFailNoAuthTokenCookie));
    assert_eq!(
        middleware_require_auth(&resolved(Some("8.e"))),
        Err(Error::AuthFailTokenWrongFormat)
    );
}

#[test]
fn protected_route_without_cookie_is_403_no_auth() {
    let mut store = ModelController::new().unwrap();
    let extensions = resolved(None);
    let error = create_ticket(&mut store, &extensions, TicketToCreate { title: "x".to_string() })
        .unwrap_err();
    assert_eq!(error, Error::AuthFailNoAuthTokenCookie);
    let out = map_response("id-1".to_string(), 0, None, "/api/tickets", "POST", Some(&error));
    let response = out.error_response.unwrap();
    assert_eq!(response.status.as_u16(), 403);
    assert_eq!(response.body.error_type.as_str(), "NO_AUTH");
    assert!(list_tickets(&store, &resolved(Some("1.e.s"))).unwrap().is_empty());
}

#[test]
fn protected_route_with_malformed_cookie_is_403_no_auth() {
    let mut store = ModelController::new().unwrap();
    for value in ["1.exp", "a.b.c", "1.2.3.4", ""] {
        let extensions = resolved(Some(value));
        assert_eq!(list_tickets(&store, &extensions).unwrap_err(), Error::AuthFailTokenWrongFormat);
        let error = delete_ticket(&mut store, &extensions, 0).unwrap_err();
        assert_eq!(error, Error::AuthFailTokenWrongFormat);
        assert_eq!(
            error.client_status_and_error(),
            (HttpStatus::Forbidden, ClientError::NO_AUTH)
        );
    }
}

#[test]
fn protected_route_sees_the_subject_of_a_valid_cookie() {
    let mut store = ModelController::new().unwrap();
    for (value, user_id) in [("1.e.s", 1u64), ("42.e.s", 42), ("0.e.s", 0), ("00077.x.y", 77)] {
        let ticket = create_ticket(
            &mut store,
            &resolved(Some(value)),
            TicketToCreate { title: "t".to_string() },
        )
        .unwrap();
        assert_eq!(ticket.creator_user_id, user_id);
    }
    assert_eq!(list_tickets(&store, &resolved(Some("1.e.s"))).unwrap().len(), 4);
}

#[test]
fn rejected_request_does_not_touch_the_store() {
    let mut store = ModelController::new().unwrap();
    let caller = resolved(Some("1.e.s"));
    create_ticket(&mut store, &caller, TicketToCreate { title: "keep".to_string() }).unwrap();
    assert!(delete_ticket(&mut store, &resolved(None), 0).is_err());
    assert!(create_ticket(&mut store, &RequestExtensions::new(), TicketToCreate {
        title: "no".to_string()
    })
    .is_err());
    let listed = list_tickets(&store, &caller).unwrap();
    assert_eq!(listed.len(), 1);
    assert_eq!(listed[0].title, "keep");
}

#[test]
fn login_with_other_credentials_fails() {
    for (user, password) in [
        ("demo1", "wrong"),
        ("demo2", "welcome"),
        ("", ""),
        ("welcome", "demo1"),
        ("demo1 ", "welcome"),
        ("DEMO1", "welcome"),
    ] {
        let error = api_login(user, password).unwrap_err();
        assert_eq!(error, Error::LoginFail);
        assert_eq!(
            error.client_status_and_error(),
            (HttpStatus::Forbidden, ClientError::LOGIN_FAILED)
        );
    }
}

#[test]
fn login_with_the_demo_pair_mints_a_cookie() {
    assert_eq!(api_login("demo1", "welcome"), Ok("1.exp.sign".to_string()));
}

#[test]
fn login_cookie_authenticates_the_user() {
    let cookie = api_login("demo1", "welcome").unwrap();
    assert_eq!(resolve_context(Some(&cookie)), Ok(Ctx::new(DEMO_USER_ID)));
    assert_eq!(extract_ctx(&resolved(Some(&cookie))).unwrap().user_id(), 1);
}

#[test]
fn mapper_passes_a_response_without_error() {
    let out = map_response("abc".to_string(), 5, Some(Ctx::new(1)), "/api/tickets", "GET", None);
    assert!(out.error_response.is_none());
    assert_eq!(out.log_line.uuid, "abc");
    assert_eq!(out.log_line.error_type, None);
    assert_eq!(out.log_line.client_error_type, None);
    assert_eq!(out.log_line.error_data, None);
}

#[test]
fn mapper_rewrites_each_error() {
    for (error, status, kind) in [
        (Error::LoginFail, 403u16, "LOGIN_FAILED"),
        (Error::AuthFailNoAuthTokenCookie, 403, "NO_AUTH"),
        (Error::AuthFailTokenWrongFormat, 403, "NO_AUTH"),
        (Error::AuthFailContextNotInRequestExtension, 403, "NO_AUTH"),
        (Error::RecordDeleteFailIdNotFound { id: 1 }, 404, "NO_AUTH"),
        (Error::ServiceFail, 500, "SERVICE_ERROR"),
    ] {
        let out = map_response("the-id".to_string(), 0, None, "/p", "GET", Some(&error));
        let response = out.error_response.unwrap();
        assert_eq!(response.status.as_u16(), status);
        assert_eq!(response.body.error_type.as_str(), kind);
        assert_eq!(response.body.req_uuid, "the-id");
        assert_eq!(out.log_line.uuid, "the-id");
        assert_eq!(out.log_line.error_type.as_deref(), Some(error.as_str()));
        assert_eq!(out.log_line.client_error_type.as_deref(), Some(kind));
    }
}

#[test]
fn mapper_draws_a_uuid() {
    let out = main_response_mapper(1, None, "/hello", "GET", None);
    assert!(is_uuid_v4_text(&out.log_line.uuid), "{}", out.log_line.uuid);
    assert!(out.error_response.is_none());

    let error = Error::LoginFail;
    let out = main_response_mapper(1, None, "/api/login", "POST", Some(&error));
    assert!(is_uuid_v4_text(&out.log_line.uuid), "{}", out.log_line.uuid);
    assert_eq!(out.error_response.unwrap().body.req_uuid, out.log_line.uuid);
}

#[test]
fn mapper_draws_a_new_uuid_each_time() {
    let mut seen: Vec<String> = Vec::new();
    for _ in 0..64 {
        let out = main_response_mapper(1, None, "/hello", "GET", None);
        assert!(!seen.contains(&out.log_line.uuid));
        seen.push(out.log_line.uuid);
    }
}

#[test]
fn login_create_delete_scenario() {
    let mut store = ModelController::new().unwrap();

    // POST /api/login {"username":"demo1","password":"welcome"}
    let cookie = api_login("demo1", "welcome").unwrap();
    let out = main_response_mapper(10, None, "/api/login", "POST", None);
    assert!(out.error_response.is_none());

    // POST /api/tickets {"title":"x"} with that cookie
    let extensions = resolved(Some(&cookie));
    assert_eq!(middleware_require_auth(&extensions), Ok(()));
    let ticket =
        create_ticket(&mut store, &extensions, TicketToCreate { title: "x".to_string() }).unwrap();
    assert_eq!((ticket.id, ticket.creator_user_id, ticket.title.as_str()), (0, 1, "x"));
    let context = extract_ctx(&extensions).ok();
    let out = main_response_mapper(11, context, "/api/tickets", "POST", None);
    assert!(out.error_response.is_none());
    assert_eq!(out.log_line.user_id, Some(1));

    // DELETE /api/tickets/1
    let extensions = resolved(Some(&cookie));
    assert_eq!(middleware_require_auth(&extensions), Ok(()));
    let error = delete_ticket(&mut store, &extensions, 1).unwrap_err();
    assert_eq!(error, Error::RecordDeleteFailIdNotFound { id: 1 });
    let context = extract_ctx(&extensions).ok();
    let out = main_response_mapper(12, context, "/api/tickets/1", "DELETE", Some(&error));
    let response = out.error_response.unwrap();
    assert_eq!(response.status.as_u16(), 404);
    assert_eq!(response.body.error_type.as_str(), "NO_AUTH");
    assert!(is_uuid_v4_text(&response.body.req_uuid));
    assert_eq!(response.body.req_uuid, out.log_line.uuid);
    assert_eq!(out.log_line.error_type.as_deref(), Some("RecordDeleteFailIdNotFound"));
    assert_eq!(out.log_line.error_data.map(|d| d.id), Some(1));
    assert_eq!(list_tickets(&store, &extensions).unwrap().len(), 1);
}

fn body_shape(body: &ClientErrorBody) -> Vec<(String, Vec<(String, String)>)> {
    body.fields()
        .into_iter()
        .map(|field| {
            let members =
                field.members.into_iter().map(|m| (m.name.to_string(), m.value)).collect();
            (field.name.to_string(), members)
        })
        .collect()
}

#[test]
fn error_body_fields_by_name() {
    let body = ClientErrorBody { error_type: ClientError::NO_AUTH, req_uuid: "r-1".to_string() };
    assert_eq!(
        body_shape(&body),
        vec![(
            "error".to_string(),
            vec![
                ("type".to_string(), "NO_AUTH".to_string()),
                ("req_uuid".to_string(), "r-1".to_string()),
            ]
        )]
    );
}

#[test]
fn error_body_of_each_kind() {
    for (kind, name) in [
        (ClientError::LOGIN_FAILED, "LOGIN_FAILED"),
        (ClientError::NO_AUTH, "NO_AUTH"),
        (ClientError::INVALID_PARAMS, "INVALID_PARAMS"),
        (ClientError::SERVICE_ERROR, "SERVICE_ERROR"),
    ] {
        let body = ClientErrorBody { error_type: kind, req_uuid: String::new() };
        let shape = body_shape(&body);
        assert_eq!(shape.len(), 1);
        assert_eq!(shape[0].0, "error");
        assert_eq!(shape[0].1[0], ("type".to_string(), name.to_string()));
        assert_eq!(shape[0].1[1], ("req_uuid".to_string(), String::new()));
    }
}

#[test]
fn mapped_error_body_carries_the_drawn_id() {
    let error = Error::RecordDeleteFailIdNotFound { id: 1 };
    let out = main_response_mapper(12, Some(Ctx::new(1)), "/api/tickets/1", "DELETE", Some(&error));
    let response = out.error_response.unwrap();
    assert_eq!(response.status.as_u16(), 404);
    assert_eq!(
        body_shape(&response.body),
        vec![(
            "error".to_string(),
            vec![
                ("type".to_string(), "NO_AUTH".to_string()),
                ("req_uuid".to_string(), out.log_line.uuid.clone()),
            ]
        )]
    );
}
