use linera_rest_api::manager::ServiceInstance;
use linera_rest_api::manager::LineraManager;
use linera_rest_api::models::ApiResponse;
use linera_rest_api::proxy::{health_check, is_success, request_body, GraphQLProxy};
use linera_rest_api::state::{AppState, ProxyError};

#[test]
fn base_url_uses_port() {
    assert_eq!(GraphQLProxy::new(8080).base_url(), "http://localhost:8080");
    assert_eq!(GraphQLProxy::new(0).base_url(), "http://localhost:0");
    assert_eq!(GraphQLProxy::new(65535).base_url(), "http://localhost:65535");
}

#[test]
fn chain_query_target() {
    let p = GraphQLProxy::new(8080);
    let url = p.query_url("c1", None);
    assert!(url.ends_with("/chains/c1"));
    assert_eq!(url, "http://localhost:8080/chains/c1");
    assert_eq!(p.query_url("c1", Some("a2")), "http://localhost:8080/chains/c1/applications/a2");
    assert_eq!(p.system_url(), "http://localhost:8080/");
}

#[test]
fn body_holds_query_and_variables() {
    assert_eq!(request_body("{ x }", None), "{\"query\":\"{ x }\"}");
    assert_eq!(request_body("q", Some("{\"a\":1}")), "{\"query\":\"q\",\"variables\":{\"a\":1}}");
    assert_eq!(request_body("say \"hi\"\n", None), "{\"query\":\"say \\\"hi\\\"\\n\"}");
}

#[test]
fn health_is_true_only_for_2xx() {
    assert!(!health_check(None));
    assert!(health_check(Some(200)));
    assert!(health_check(Some(204)));
    assert!(health_check(Some(299)));
    assert!(!health_check(Some(199)));
    assert!(!health_check(Some(300)));
    assert!(!health_check(Some(404)));
    assert!(!health_check(Some(500)));
    assert!(is_success(201));
}

#[test]
fn end_to_end_lifecycle_gates_the_proxy() {
    let mut s: AppState<u32> = AppState::new(LineraManager::new("/h", None, None, None));
    assert_eq!(s.proxy_query_target("id", None), Err(ProxyError::ServiceNotRunning));
    assert!(s.start_service(8080).is_ok());
    s.service_started(5, Some(77), 8080);
    let st = s.get_status();
    assert!(st.running);
    assert_eq!(st.port, Some(8080));
    assert_eq!(st.pid, Some(77));
    assert_eq!(s.proxy_query_target("id", None).unwrap(), "http://localhost:8080/chains/id");
    assert_eq!(s.proxy_system_target().unwrap(), "http://localhost:8080/");
    assert!(s.start_service(8080).is_err());
    let inst: ServiceInstance<u32> = s.stop_service().unwrap();
    assert_eq!(inst.handle, 5);
    let r = s.proxy_query_target("id", None);
    assert_eq!(r, Err(ProxyError::ServiceNotRunning));
    assert_eq!(r.unwrap_err().message(), "Linera service is not running");
    assert_eq!(s.proxy_system_target(), Err(ProxyError::ServiceNotRunning));
    assert!(s.stop_service().is_err());
    assert!(!s.manager().is_running());
}

#[test]
fn api_response_envelopes() {
    let ok = ApiResponse::success(3u32);
    assert!(ok.success);
    assert_eq!(ok.data, Some(3));
    assert_eq!(ok.error, None);
    let err: ApiResponse<u32> = ApiResponse::error("bad".to_string());
    assert!(!err.success);
    assert_eq!(err.data, None);
    assert_eq!(err.error, Some("bad".to_string()));
}
