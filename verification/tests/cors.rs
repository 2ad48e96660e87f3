use http_policy::cors::{AllowHeaders, CorsRequest, Depot, ExposeHeaders, HeaderJudge};

fn req_with(value: &str) -> CorsRequest {
    CorsRequest { request_headers: Some(value.to_string()) }
}

fn req_without() -> CorsRequest {
    CorsRequest { request_headers: None }
}

struct EchoJudge;

impl HeaderJudge for EchoJudge {
    fn decide(&self, origin: &String, _req: &CorsRequest, depot: &Depot) -> String {
        let mut tag = String::from("echo");
        for (k, v) in &depot.entries {
            tag = format!("{}[{}={}]", tag, k, v);
        }
        format!("{}:{}", tag, origin)
    }
}

#[test]
fn allow_list_joins_in_order() {
    let p: AllowHeaders = AllowHeaders::list(vec![
        "content-type".to_string(),
        "x-api-key".to_string(),
    ]);
    let r = p.to_header(None, &req_without(), &Depot::default());
    let (name, value) = r.expect("a fixed policy always emits");
    assert_eq!(name, "Access-Control-Allow-Headers");
    assert_eq!(value, "content-type,x-api-key");
}

#[test]
fn allow_list_keeps_order_case_and_duplicates() {
    let p: AllowHeaders = AllowHeaders::list(vec![
        "X-B".to_string(),
        "x-a".to_string(),
        "X-B".to_string(),
    ]);
    let r = p.to_header(Some(&"https://a.example".to_string()), &req_without(), &Depot::default());
    assert_eq!(r.unwrap().1, "X-B,x-a,X-B");
}

#[test]
fn allow_list_single_name_has_no_comma() {
    let p: AllowHeaders = AllowHeaders::list(vec!["x-one".to_string()]);
    assert_eq!(p.to_header(None, &req_without(), &Depot::default()).unwrap().1, "x-one");
}

#[test]
fn allow_any_resolves_to_wildcard() {
    let p: AllowHeaders = AllowHeaders::any();
    assert!(p.is_wildcard());
    let origin = "https://a.example".to_string();
    for (o, req) in [
        (None, req_without()),
        (Some(&origin), req_with("x-foo")),
        (None, req_with("x-bar")),
    ] {
        let (name, value) = p.to_header(o, &req, &Depot::default()).expect("wildcard always emits");
        assert_eq!(name, "Access-Control-Allow-Headers");
        assert_eq!(value, "*");
    }
}

#[test]
fn allow_list_is_not_wildcard_unless_star() {
    let p: AllowHeaders = AllowHeaders::list(vec!["x-a".to_string()]);
    assert!(!p.is_wildcard());
    let q: AllowHeaders = AllowHeaders::list(vec!["*".to_string()]);
    assert!(q.is_wildcard());
}

#[test]
fn allow_empty_list_emits_nothing() {
    let p: AllowHeaders = AllowHeaders::list(Vec::new());
    let origin = "https://a.example".to_string();
    assert!(p.to_header(None, &req_without(), &Depot::default()).is_none());
    assert!(p.to_header(Some(&origin), &req_with("x-foo"), &Depot::default()).is_none());
    assert!(!p.is_wildcard());
}

#[test]
fn allow_default_emits_nothing() {
    let p: AllowHeaders = AllowHeaders::default();
    assert!(p.to_header(None, &req_with("x-foo"), &Depot::default()).is_none());
}

#[test]
fn allow_mirror_echoes_request_headers() {
    let p: AllowHeaders = AllowHeaders::mirror_request();
    let r = p.to_header(None, &req_with("x-foo,x-bar"), &Depot::default());
    let (name, value) = r.expect("mirror emits when the request header is present");
    assert_eq!(name, "Access-Control-Allow-Headers");
    assert_eq!(value, "x-foo,x-bar");
}

#[test]
fn allow_mirror_without_request_header_emits_nothing() {
    let p: AllowHeaders = AllowHeaders::mirror_request();
    assert!(p.to_header(Some(&"https://a.example".to_string()), &req_without(), &Depot::default()).is_none());
}

#[test]
fn allow_judge_runs_only_with_origin() {
    let p = AllowHeaders::judge(EchoJudge);
    let origin = "https://a.example".to_string();
    let (name, value) = p.to_header(Some(&origin), &req_without(), &Depot::default()).unwrap();
    assert_eq!(name, "Access-Control-Allow-Headers");
    assert_eq!(value, "echo:https://a.example");
    assert!(p.to_header(None, &req_with("x-foo"), &Depot::default()).is_none());
}

#[test]
fn judge_sees_depot_entries() {
    let p = AllowHeaders::judge(EchoJudge);
    let depot = Depot { entries: vec![("tenant".to_string(), "acme".to_string())] };
    let origin = "https://a.example".to_string();
    assert_eq!(
        p.to_header(Some(&origin), &req_without(), &depot).unwrap().1,
        "echo[tenant=acme]:https://a.example"
    );
}

#[test]
fn expose_list_joins_in_order() {
    let p: ExposeHeaders = ExposeHeaders::list(vec![
        "content-type".to_string(),
        "x-api-key".to_string(),
    ]);
    let (name, value) = p.to_header(None, &req_without(), &Depot::default()).unwrap();
    assert_eq!(name, "Access-Control-Expose-Headers");
    assert_eq!(value, "content-type,x-api-key");
}

#[test]
fn expose_any_resolves_to_wildcard() {
    let p: ExposeHeaders = ExposeHeaders::any();
    assert!(p.is_wildcard());
    let (name, value) = p.to_header(None, &req_with("x-foo"), &Depot::default()).unwrap();
    assert_eq!(name, "Access-Control-Expose-Headers");
    assert_eq!(value, "*");
}

#[test]
fn expose_empty_list_emits_nothing() {
    let p: ExposeHeaders = ExposeHeaders::list(Vec::new());
    assert!(p.to_header(Some(&"https://a.example".to_string()), &req_with("x"), &Depot::default()).is_none());
}

#[test]
fn expose_default_emits_nothing() {
    let p: ExposeHeaders = ExposeHeaders::default();
    assert!(p.to_header(None, &req_without(), &Depot::default()).is_none());
}

#[test]
fn expose_judge_runs_only_with_origin() {
    let p = ExposeHeaders::judge(EchoJudge);
    let origin = "https://b.example".to_string();
    assert_eq!(p.to_header(Some(&origin), &req_without(), &Depot::default()).unwrap().1, "echo:https://b.example");
    assert!(p.to_header(None, &req_without(), &Depot::default()).is_none());
}
