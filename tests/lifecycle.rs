use xmlhttprequest::grammar::{is_field_value, is_token, trim_http_whitespace};
use xmlhttprequest::response::ResponseValue;
use xmlhttprequest::types::{
    BodyInit, GenerationId, HeadOutcome, Notification, ProgressKind, ReadyState, ResponseMetadata,
    ResponseType, XHRProgress, XhrError,
};
use xmlhttprequest::xhr::{Action, HostContext, XMLHttpRequest};

fn host() -> HostContext {
    HostContext {
        in_window: true,
        fully_active: true,
        base_url: "https://example.test/".to_string(),
        referrer_url: None,
        upload_observed: false,
    }
}

fn pump(x: &mut XMLHttpRequest) -> Vec<Action> {
    let mut all = Vec::new();
    loop {
        all.extend(x.take_actions());
        if !x.resume() {
            break;
        }
    }
    all.extend(x.take_actions());
    all
}

fn notes(actions: &[Action]) -> Vec<Notification> {
    actions
        .iter()
        .filter_map(|a| match a {
            Action::Notify(n) => Some(*n),
            _ => None,
        })
        .collect()
}

fn kinds(actions: &[Action], upload: bool) -> Vec<ProgressKind> {
    notes(actions)
        .into_iter()
        .filter_map(|n| match n {
            Notification::Progress { upload: u, kind, .. } if u == upload => Some(kind),
            _ => None,
        })
        .collect()
}

fn headers(list: Vec<(&str, &str)>) -> Vec<(Vec<u8>, Vec<u8>)> {
    list.into_iter().map(|(n, v)| (n.as_bytes().to_vec(), v.as_bytes().to_vec())).collect()
}

fn opened_get(url: &str) -> XMLHttpRequest {
    let mut x = XMLHttpRequest::new(host());
    x.Open(b"GET", url).unwrap();
    pump(&mut x);
    x
}

fn deliver_head(x: &mut XMLHttpRequest, hs: Vec<(&str, &str)>) -> Vec<Action> {
    let g = x.generation_id;
    x.process_partial_response(XHRProgress::HeadersReceived(g, Some(headers(hs)), Some((200, b"OK".to_vec()))));
    pump(x)
}

#[test]
fn field_value_grammar() {
    assert!(is_field_value(b"value"));
    assert!(!is_field_value(b"va\x01lue"));
    assert!(is_field_value(b"line1\r\n value2"));
    assert!(!is_field_value(b"line1\r\nvalue2"));
    assert!(is_field_value(b"a\r\n\tb"));
    assert!(!is_field_value(b"caf\xc3\xa9"));
    assert!(is_field_value(b""));
    assert!(!is_field_value(b"a\r\n"));
    assert!(!is_field_value(b"a\r"));
    assert!(is_field_value(b"a\r\n "));
}

#[test]
fn token_grammar_and_trim() {
    assert!(is_token(b"X-Foo"));
    assert!(!is_token(b""));
    assert!(!is_token(b"a b"));
    assert!(!is_token(b"a:b"));
    assert_eq!(trim_http_whitespace(b" \t a b \r\n"), b"a b".to_vec());
    assert_eq!(trim_http_whitespace(b"  "), Vec::<u8>::new());
}

#[test]
fn open_advances_generation_each_time() {
    let mut x = XMLHttpRequest::new(host());
    assert_eq!(x.generation_id, GenerationId(0));
    x.Open(b"GET", "a").unwrap();
    assert_eq!(x.generation_id, GenerationId(1));
    x.Open(b"POST", "b").unwrap();
    assert_eq!(x.generation_id, GenerationId(2));
    x.Open(b"PUT", "c").unwrap();
    assert_eq!(x.generation_id, GenerationId(3));
    let actions = pump(&mut x);
    assert_eq!(actions.iter().filter(|a| matches!(a, Action::CancelFetch)).count(), 3);
    // the state changed once, to Opened
    assert_eq!(notes(&actions), vec![Notification::ReadyStateChange]);
    assert_eq!(x.ready_state, ReadyState::Opened);
}

#[test]
fn stale_events_are_never_observed() {
    let mut x = opened_get("/a");
    x.Send(None).unwrap();
    pump(&mut x);
    let old = x.generation_id;
    x.Open(b"GET", "/b").unwrap();
    pump(&mut x);
    let before_state = x.ready_state;
    x.process_partial_response(XHRProgress::HeadersReceived(old, Some(headers(vec![])), Some((200, b"OK".to_vec()))));
    x.process_partial_response(XHRProgress::Loading(old, b"late".to_vec()));
    x.process_partial_response(XHRProgress::Done(old));
    assert!(x.process_response_complete(old, Ok(())).is_ok());
    assert!(pump(&mut x).is_empty());
    assert_eq!(x.ready_state, before_state);
    assert!(x.response.bytes.is_empty());
    assert_eq!(x.response.status, 0);
}

#[test]
fn abort_when_unsent_is_silent() {
    let mut x = XMLHttpRequest::new(host());
    x.Abort();
    let actions = pump(&mut x);
    assert!(notes(&actions).is_empty());
    assert_eq!(x.ready_state, ReadyState::Unsent);
    x.Abort();
    let actions = pump(&mut x);
    assert!(notes(&actions).is_empty());
    assert_eq!(x.ready_state, ReadyState::Unsent);
    assert_eq!(x.generation_id, GenerationId(2));
}

#[test]
fn request_header_values_combine() {
    let mut x = opened_get("/a");
    x.SetRequestHeader(b"X-Foo", b"a").unwrap();
    x.SetRequestHeader(b"X-Foo", b"b").unwrap();
    assert_eq!(x.request.headers, headers(vec![("x-foo", "a, b")]));
    x.Send(None).unwrap();
    let actions = pump(&mut x);
    let submitted: Vec<_> = actions
        .iter()
        .filter_map(|a| match a {
            Action::Submit(d) => Some(d),
            _ => None,
        })
        .collect();
    assert_eq!(submitted.len(), 1);
    assert_eq!(submitted[0].headers, headers(vec![("x-foo", "a, b")]));
    assert_eq!(submitted[0].url, "https://example.test/a");
    assert_eq!(submitted[0].method, b"GET".to_vec());
}

#[test]
fn request_header_errors() {
    let mut x = XMLHttpRequest::new(host());
    assert_eq!(x.SetRequestHeader(b"X-Foo", b"a"), Err(XhrError::InvalidState));
    x.Open(b"GET", "/").unwrap();
    assert_eq!(x.SetRequestHeader(b"X Foo", b"a"), Err(XhrError::Syntax));
    assert_eq!(x.SetRequestHeader(b"X-Foo", b"a\r\nb"), Err(XhrError::Syntax));
    assert_eq!(x.SetRequestHeader(b"Cookie", b"a=b"), Ok(()));
    assert_eq!(x.SetRequestHeader(b"Sec-Thing", b"1"), Ok(()));
    assert!(x.request.headers.is_empty());
    assert_eq!(x.SetRequestHeader(b"X-Foo", b"  padded \t"), Ok(()));
    assert_eq!(x.request.headers, headers(vec![("x-foo", "padded")]));
    x.Send(None).unwrap();
    assert_eq!(x.SetRequestHeader(b"X-Bar", b"a"), Err(XhrError::InvalidState));
}

#[test]
fn open_errors() {
    let mut x = XMLHttpRequest::new(host());
    assert_eq!(x.Open(b"CONNECT", "/"), Err(XhrError::Security));
    assert_eq!(x.Open(b"trace", "/"), Err(XhrError::Security));
    assert_eq!(x.Open(b"track", "/"), Err(XhrError::Security));
    assert_eq!(x.Open(b"GE T", "/"), Err(XhrError::Syntax));
    assert_eq!(x.Open(b"", "/"), Err(XhrError::Syntax));
    assert_eq!(x.Open(b"GET", "http://[::1"), Err(XhrError::Syntax));
    assert_eq!(x.generation_id, GenerationId(0));
    assert_eq!(x.SetTimeout(10), Ok(()));
    assert_eq!(x.open_(b"GET", "/", false, None, None), Err(XhrError::InvalidAccess));
    let mut inactive = XMLHttpRequest::new(HostContext { fully_active: false, ..host() });
    assert_eq!(inactive.Open(b"GET", "/"), Err(XhrError::InvalidState));
    assert!(inactive.take_actions().is_empty());
}

#[test]
fn open_normalizes_methods_and_resolves_urls() {
    let mut x = XMLHttpRequest::new(host());
    x.Open(b"post", "dir/page?q=1").unwrap();
    assert_eq!(x.request.method, b"POST".to_vec());
    assert_eq!(x.request.url, "https://example.test/dir/page?q=1");
    x.Open(b"patch", "/x").unwrap();
    assert_eq!(x.request.method, b"patch".to_vec());
    x.open_(b"GET", "/y", true, Some("user"), Some("pw")).unwrap();
    assert_eq!(x.request.url, "https://user:pw@example.test/y");
    x.Send(None).unwrap();
    let actions = pump(&mut x);
    match actions.iter().find(|a| matches!(a, Action::Submit(_))) {
        Some(Action::Submit(d)) => assert!(d.use_url_credentials),
        _ => panic!("no submission"),
    }
}

#[test]
fn empty_body_completes_upload_before_submission() {
    let mut x = XMLHttpRequest::new(host());
    x.Open(b"POST", "/up").unwrap();
    pump(&mut x);
    x.Send(Some(BodyInit::ArrayBuffer(Vec::new()))).unwrap();
    assert!(x.request.upload_complete);
    let first = x.take_actions();
    assert_eq!(first.len(), 1);
    assert!(!first.iter().any(|a| matches!(a, Action::Submit(_))));
    let rest = pump(&mut x);
    assert!(rest.iter().any(|a| matches!(a, Action::Submit(_))));
    // no upload notifications for an empty body
    assert!(kinds(&first, true).is_empty() && kinds(&rest, true).is_empty());
}

#[test]
fn nonempty_body_notifies_upload_start() {
    let mut x = XMLHttpRequest::new(host());
    x.Open(b"POST", "/up").unwrap();
    pump(&mut x);
    x.Send(Some(BodyInit::String("hello".to_string()))).unwrap();
    assert!(!x.request.upload_complete);
    assert_eq!(x.request.body_len, 5);
    let actions = pump(&mut x);
    assert_eq!(kinds(&actions, false), vec![ProgressKind::LoadStart]);
    assert_eq!(kinds(&actions, true), vec![ProgressKind::LoadStart]);
    match actions.iter().find(|a| matches!(a, Action::Submit(_))) {
        Some(Action::Submit(d)) => {
            assert_eq!(d.body, Some(b"hello".to_vec()));
            assert_eq!(d.headers, headers(vec![("content-type", "text/plain;charset=UTF-8")]));
        },
        _ => panic!("no submission"),
    }
}

#[test]
fn text_body_charset_is_rewritten() {
    let mut x = XMLHttpRequest::new(host());
    x.Open(b"POST", "/up").unwrap();
    x.SetRequestHeader(b"Content-Type", b"text/plain; charset=latin1; format=flowed").unwrap();
    x.Send(Some(BodyInit::String("hi".to_string()))).unwrap();
    let actions = pump(&mut x);
    match actions.iter().find(|a| matches!(a, Action::Submit(_))) {
        Some(Action::Submit(d)) => {
            assert_eq!(d.headers, headers(vec![("content-type", "text/plain; charset=UTF-8; format=flowed")]));
        },
        _ => panic!("no submission"),
    }
}

#[test]
fn text_body_charset_keeps_parameter_order() {
    let mut x = XMLHttpRequest::new(host());
    x.Open(b"POST", "/up").unwrap();
    x.SetRequestHeader(b"Content-Type", b"text/plain; format=flowed; charset=latin1").unwrap();
    x.Send(Some(BodyInit::String("hi".to_string()))).unwrap();
    let actions = pump(&mut x);
    match actions.iter().find(|a| matches!(a, Action::Submit(_))) {
        Some(Action::Submit(d)) => {
            assert_eq!(d.headers, headers(vec![("content-type", "text/plain; format=flowed; charset=UTF-8")]));
        },
        _ => panic!("no submission"),
    }
    let mut y = XMLHttpRequest::new(host());
    y.Open(b"POST", "/up").unwrap();
    y.SetRequestHeader(b"Content-Type", b"text/plain; charset=utf-8").unwrap();
    y.Send(Some(BodyInit::String("hi".to_string()))).unwrap();
    let actions = pump(&mut y);
    match actions.iter().find(|a| matches!(a, Action::Submit(_))) {
        Some(Action::Submit(d)) => {
            assert_eq!(d.headers, headers(vec![("content-type", "text/plain; charset=utf-8")]));
        },
        _ => panic!("no submission"),
    }
}

#[test]
fn get_sends_no_body() {
    let mut x = opened_get("/a");
    x.Send(Some(BodyInit::String("ignored".to_string()))).unwrap();
    assert!(x.request.upload_complete);
    let actions = pump(&mut x);
    match actions.iter().find(|a| matches!(a, Action::Submit(_))) {
        Some(Action::Submit(d)) => {
            assert_eq!(d.body, None);
            assert!(d.headers.is_empty());
        },
        _ => panic!("no submission"),
    }
}

#[test]
fn send_twice_is_refused() {
    let mut x = opened_get("/a");
    x.Send(None).unwrap();
    assert_eq!(x.Send(None), Err(XhrError::InvalidState));
    let mut y = XMLHttpRequest::new(host());
    assert_eq!(y.Send(None), Err(XhrError::InvalidState));
}

#[test]
fn declared_length_reserve_is_capped() {
    let mut x = opened_get("/a");
    x.Send(None).unwrap();
    pump(&mut x);
    deliver_head(&mut x, vec![("content-length", "5000000")]);
    assert_eq!(x.response.reserved, 4194304);
    let mut y = opened_get("/a");
    y.Send(None).unwrap();
    pump(&mut y);
    deliver_head(&mut y, vec![("content-length", "10")]);
    assert_eq!(y.response.reserved, 10);
    let mut z = opened_get("/a");
    z.Send(None).unwrap();
    pump(&mut z);
    deliver_head(&mut z, vec![]);
    assert_eq!(z.response.reserved, 0);
}

fn done_with_body(kind: ResponseType, body: &[u8], hs: Vec<(&str, &str)>) -> XMLHttpRequest {
    let mut x = opened_get("/a");
    x.SetResponseType(kind).unwrap();
    x.Send(None).unwrap();
    pump(&mut x);
    deliver_head(&mut x, hs);
    let g = x.generation_id;
    if !body.is_empty() {
        x.process_data_available(g, body.to_vec());
        pump(&mut x);
    }
    x.process_response_complete(g, Ok(())).unwrap();
    pump(&mut x);
    x
}

#[test]
fn json_response_values() {
    let mut empty = done_with_body(ResponseType::Json, b"", vec![]);
    assert!(matches!(empty.Response(), ResponseValue::Null));
    let mut bad = done_with_body(ResponseType::Json, b"not json", vec![]);
    assert!(matches!(bad.Response(), ResponseValue::Null));
    let mut num = done_with_body(ResponseType::Json, b"42", vec![]);
    match num.Response() {
        ResponseValue::Json(v) => assert_eq!(v, serde_json::Value::from(42)),
        _ => panic!("expected a JSON value"),
    }
    // cached: a second read gives the same value
    match num.Response() {
        ResponseValue::Json(v) => assert_eq!(v, serde_json::Value::from(42)),
        _ => panic!("expected a JSON value"),
    }
    let mut bom = done_with_body(ResponseType::Json, b"\xEF\xBB\xBF[1]", vec![("content-type", "application/json; charset=latin1")]);
    match bom.Response() {
        ResponseValue::Json(v) => assert_eq!(v, serde_json::Value::from(vec![1])),
        _ => panic!("expected a JSON value"),
    }
}

#[test]
fn end_to_end_get() {
    let mut x = opened_get("https://example.test/a");
    x.Send(None).unwrap();
    let mut actions = pump(&mut x);
    let g = x.generation_id;
    x.process_partial_response(XHRProgress::HeadersReceived(g, Some(Vec::new()), Some((200, b"OK".to_vec()))));
    actions.extend(pump(&mut x));
    x.process_partial_response(XHRProgress::Loading(g, b"hello".to_vec()));
    actions.extend(pump(&mut x));
    x.process_partial_response(XHRProgress::Done(g));
    actions.extend(pump(&mut x));
    assert_eq!(x.ready_state, ReadyState::Done);
    assert_eq!(x.GetResponseText(), Ok("hello".to_string()));
    let response = kinds(&actions, false);
    assert_eq!(response.iter().filter(|k| **k == ProgressKind::Load).count(), 1);
    assert_eq!(response.iter().filter(|k| **k == ProgressKind::LoadEnd).count(), 1);
    assert!(!response.contains(&ProgressKind::Error));
    assert_eq!(x.Status(), 200);
    assert_eq!(x.StatusText(), b"OK".to_vec());
    match x.Response() {
        ResponseValue::Text(t) => assert_eq!(t, "hello"),
        _ => panic!("expected text"),
    }
}

#[test]
fn abort_right_after_send() {
    let mut x = opened_get("https://example.test/a");
    x.Send(None).unwrap();
    pump(&mut x);
    let g = x.generation_id;
    x.Abort();
    let actions = pump(&mut x);
    assert_eq!(x.generation_id, GenerationId(g.0 + 1));
    assert_eq!(x.ready_state, ReadyState::Unsent);
    assert_eq!(kinds(&actions, false), vec![ProgressKind::Abort, ProgressKind::LoadEnd]);
    x.process_partial_response(XHRProgress::HeadersReceived(g, Some(Vec::new()), Some((200, b"OK".to_vec()))));
    x.process_partial_response(XHRProgress::Loading(g, b"hello".to_vec()));
    x.process_partial_response(XHRProgress::Done(g));
    assert!(pump(&mut x).is_empty());
    assert_eq!(x.ready_state, ReadyState::Unsent);
    assert_eq!(x.Status(), 0);
}

#[test]
fn abort_during_a_sequence_skips_its_rest() {
    let mut x = opened_get("/a");
    x.Send(None).unwrap();
    pump(&mut x);
    let g = x.generation_id;
    x.process_partial_response(XHRProgress::HeadersReceived(g, Some(Vec::new()), Some((200, b"OK".to_vec()))));
    // an observer of the first upload notification aborts
    let first = x.take_actions();
    assert_eq!(kinds(&first, true), vec![ProgressKind::Progress]);
    x.Abort();
    let rest = pump(&mut x);
    assert!(kinds(&rest, true).is_empty());
    assert_eq!(kinds(&rest, false), vec![ProgressKind::Abort, ProgressKind::LoadEnd]);
    assert_eq!(x.ready_state, ReadyState::Unsent);
    assert_eq!(x.Status(), 0);
}

#[test]
fn network_error_and_timeout() {
    let mut x = opened_get("/a");
    x.Send(None).unwrap();
    pump(&mut x);
    let g = x.generation_id;
    assert_eq!(x.process_headers_available(g, HeadOutcome::NetworkError), Err(XhrError::Network));
    let actions = pump(&mut x);
    assert_eq!(kinds(&actions, false), vec![ProgressKind::Error, ProgressKind::LoadEnd]);
    assert_eq!(x.ready_state, ReadyState::Done);
    assert_eq!(x.take_sync_status(), Some(Err(XhrError::Network)));

    let mut y = opened_get("/a");
    y.SetTimeout(50).unwrap();
    y.Send(None).unwrap();
    let actions = pump(&mut y);
    let cb = actions.into_iter().find_map(|a| match a {
        Action::ScheduleTimeout(cb, ms) => Some((cb, ms)),
        _ => None,
    });
    let (cb, ms) = cb.expect("a timeout is scheduled");
    assert_eq!(ms, 50);
    cb.invoke(&mut y);
    let actions = pump(&mut y);
    assert_eq!(kinds(&actions, false), vec![ProgressKind::Timeout, ProgressKind::LoadEnd]);
    assert!(y.response.errored);
}

#[test]
fn timeout_rescheduling() {
    let mut x = opened_get("/a");
    x.Send(None).unwrap();
    pump(&mut x);
    x.request.fetch_time = 100;
    assert_eq!(x.set_timeout_at(5000, 102), Ok(()));
    let actions = x.take_actions();
    assert!(matches!(actions.last(), Some(Action::ScheduleTimeout(_, 3000))));
    assert_eq!(x.set_timeout_at(1000, 105), Ok(()));
    let actions = x.take_actions();
    assert!(matches!(actions[0], Action::CancelTimeout));
    assert!(matches!(actions.last(), Some(Action::ScheduleTimeout(_, 0))));
    assert_eq!(x.set_timeout_at(0, 105), Ok(()));
    assert!(matches!(x.take_actions().last(), Some(Action::CancelTimeout)));
    let mut s = XMLHttpRequest::new(host());
    s.open_(b"GET", "/", false, None, None).unwrap();
    assert_eq!(s.set_timeout_at(10, 0), Err(XhrError::InvalidAccess));
    assert_eq!(s.Timeout(), 10);
}

#[test]
fn synchronous_request_reports_its_outcome() {
    let mut x = XMLHttpRequest::new(host());
    x.open_(b"GET", "/s", false, None, None).unwrap();
    pump(&mut x);
    x.Send(None).unwrap();
    let actions = x.take_actions();
    assert!(matches!(actions.as_slice(), [Action::Submit(d)] if d.synchronous));
    let g = x.generation_id;
    let meta = ResponseMetadata { final_url: "https://example.test/s".to_string(), headers: Some(Vec::new()), status: Some((200, b"OK".to_vec())) };
    x.process_headers_available(g, HeadOutcome::Head(meta)).unwrap();
    x.process_data_available(g, b"sync".to_vec());
    assert_eq!(x.ready_state, ReadyState::Opened);
    assert_eq!(x.process_response_complete(g, Ok(())), Ok(()));
    assert_eq!(x.take_sync_status(), Some(Ok(())));
    pump(&mut x);
    assert_eq!(x.ready_state, ReadyState::Done);
    assert_eq!(x.GetResponseText(), Ok("sync".to_string()));
    assert_eq!(x.ResponseURL(), "https://example.test/s");
}

#[test]
fn opaque_head_is_a_network_error() {
    let mut x = opened_get("/a");
    x.Send(None).unwrap();
    pump(&mut x);
    let g = x.generation_id;
    assert_eq!(x.process_headers_available(g, HeadOutcome::Opaque), Err(XhrError::Network));
    assert_eq!(x.ready_state, ReadyState::Opened);
}

#[test]
fn charset_decoding() {
    let x = done_with_body(ResponseType::Text, b"caf\xe9", vec![("content-type", "text/plain; charset=windows-1252")]);
    assert_eq!(x.GetResponseText(), Ok("caf\u{e9}".to_string()));
    let y = done_with_body(ResponseType::Empty, b"caf\xc3\xa9", vec![]);
    assert_eq!(y.GetResponseText(), Ok("caf\u{e9}".to_string()));
    let mut z = opened_get("/a");
    z.OverrideMimeType(b"text/plain;charset=windows-1252").unwrap();
    z.Send(None).unwrap();
    pump(&mut z);
    deliver_head(&mut z, vec![("content-type", "text/plain; charset=utf-8")]);
    let g = z.generation_id;
    z.process_data_available(g, b"\xe9".to_vec());
    pump(&mut z);
    assert_eq!(z.GetResponseText(), Ok("\u{e9}".to_string()));
}

#[test]
fn override_mime_type() {
    let mut x = opened_get("/a");
    assert_eq!(x.OverrideMimeType(b"not a mime"), Err(XhrError::Syntax));
    x.OverrideMimeType(b"text/xml; charset=utf-8").unwrap();
    let m = x.config.override_mime.as_ref().unwrap();
    assert_eq!(m.source, b"text/xml".to_vec());
    assert!(m.params.is_empty());
    assert_eq!(x.config.override_charset, Some(b"utf-8".to_vec()));
    let mut d = done_with_body(ResponseType::Text, b"x", vec![]);
    assert_eq!(d.OverrideMimeType(b"text/plain"), Err(XhrError::InvalidState));
}

#[test]
fn response_type_rules() {
    let mut x = opened_get("/a");
    assert_eq!(x.SetResponseType(ResponseType::Blob), Ok(()));
    assert_eq!(x.ResponseType(), ResponseType::Blob);
    assert_eq!(x.GetResponseText(), Err(XhrError::InvalidState));
    let mut w = XMLHttpRequest::new(HostContext { in_window: false, ..host() });
    assert_eq!(w.SetResponseType(ResponseType::Document), Ok(()));
    assert_eq!(w.ResponseType(), ResponseType::Empty);
    let mut s = XMLHttpRequest::new(host());
    s.open_(b"GET", "/", false, None, None).unwrap();
    assert_eq!(s.SetResponseType(ResponseType::Json), Err(XhrError::InvalidAccess));
    let mut d = done_with_body(ResponseType::Text, b"x", vec![]);
    assert_eq!(d.SetResponseType(ResponseType::Json), Err(XhrError::InvalidState));
    assert_eq!(d.SetWithCredentials(true), Err(XhrError::InvalidState));
}

#[test]
fn with_credentials_flows_into_the_request() {
    let mut x = opened_get("/a");
    x.SetWithCredentials(true).unwrap();
    assert!(x.WithCredentials());
    x.Send(None).unwrap();
    let actions = pump(&mut x);
    match actions.iter().find(|a| matches!(a, Action::Submit(_))) {
        Some(Action::Submit(d)) => assert!(d.credentials_include && !d.use_url_credentials),
        _ => panic!("no submission"),
    }
}

#[test]
fn blob_and_array_buffer_views() {
    let mut b = done_with_body(ResponseType::Blob, b"abc", vec![("content-type", "image/png")]);
    match b.Response() {
        ResponseValue::Blob(blob) => {
            assert_eq!(blob.bytes, b"abc".to_vec());
            assert_eq!(blob.type_, b"image/png".to_vec());
        },
        _ => panic!("expected a blob"),
    }
    let mut a = done_with_body(ResponseType::ArrayBuffer, b"xyz", vec![]);
    match a.Response() {
        ResponseValue::ArrayBuffer(v) => assert_eq!(v, b"xyz".to_vec()),
        _ => panic!("expected bytes"),
    }
    let mut early = opened_get("/a");
    early.SetResponseType(ResponseType::Blob).unwrap();
    assert!(matches!(early.Response(), ResponseValue::Null));
}

#[test]
fn document_views() {
    let mut xml = done_with_body(ResponseType::Document, b"<a/>", vec![("content-type", "application/xml")]);
    match xml.Response() {
        ResponseValue::Document(d) => {
            assert!(!d.is_html);
            assert_eq!(d.source, "<a/>");
        },
        _ => panic!("expected a document"),
    }
    let mut html = done_with_body(ResponseType::Document, b"<p>", vec![("content-type", "text/html")]);
    assert!(matches!(html.Response(), ResponseValue::Document(d) if d.is_html));
    let mut html_default = done_with_body(ResponseType::Empty, b"<p>", vec![("content-type", "text/html")]);
    assert!(matches!(html_default.GetResponseXML(), Ok(None)));
    let mut svg = done_with_body(ResponseType::Document, b"<svg/>", vec![("content-type", "image/svg+xml")]);
    assert!(matches!(svg.Response(), ResponseValue::Document(d) if !d.is_html));
    let mut png = done_with_body(ResponseType::Document, b"x", vec![("content-type", "image/png")]);
    assert!(matches!(png.Response(), ResponseValue::Null));
    let mut none = done_with_body(ResponseType::Empty, b"<a/>", vec![]);
    assert!(matches!(none.GetResponseXML(), Ok(Some(d)) if !d.is_html));
    let mut text = done_with_body(ResponseType::Text, b"x", vec![]);
    assert_eq!(text.GetResponseXML().err(), Some(XhrError::InvalidState));
}

#[test]
fn response_header_queries() {
    let mut x = opened_get("/a");
    x.Send(None).unwrap();
    pump(&mut x);
    deliver_head(
        &mut x,
        vec![("content-type", "text/plain"), ("x-a", " one "), ("set-cookie", "s=1"), ("x-a", "two"), ("x-b", "3")],
    );
    assert_eq!(x.GetResponseHeader(b"X-A"), Some(b"one, two".to_vec()));
    assert_eq!(x.GetResponseHeader(b"set-cookie"), None);
    assert_eq!(x.GetResponseHeader(b"missing"), None);
    assert_eq!(
        x.GetAllResponseHeaders(),
        b"content-type: text/plain\r\nx-a:  one , two\r\nx-b: 3\r\n".to_vec()
    );
}

#[test]
fn progress_totals_follow_content_length() {
    let mut x = opened_get("/a");
    x.Send(None).unwrap();
    pump(&mut x);
    deliver_head(&mut x, vec![("content-length", "5")]);
    let g = x.generation_id;
    x.process_data_available(g, b"hel".to_vec());
    let actions = pump(&mut x);
    assert!(notes(&actions).contains(&Notification::Progress {
        upload: false,
        kind: ProgressKind::Progress,
        loaded: 3,
        total: 5,
        length_computable: true,
    }));
    assert_eq!(x.ready_state, ReadyState::Loading);
    assert_eq!(x.ReadyState(), 3);
}

#[test]
fn constructor_starts_unsent() {
    let x = XMLHttpRequest::Constructor(host()).unwrap();
    assert_eq!(x.ReadyState(), 0);
    assert_eq!(x.Status(), 0);
    assert_eq!(x.Timeout(), 0);
    assert!(!x.WithCredentials());
    assert_eq!(XHRProgress::Done(GenerationId(4)).generation_id(), GenerationId(4));
}

#[test]
fn response_header_skips_values_that_are_not_text() {
    let mut x = opened_get("/a");
    x.Send(None).unwrap();
    pump(&mut x);
    let g = x.generation_id;
    let hs = vec![
        (b"x-a".to_vec(), b"one".to_vec()),
        (b"x-a".to_vec(), vec![0xff]),
        (b"x-b".to_vec(), vec![0xfe]),
    ];
    x.process_partial_response(XHRProgress::HeadersReceived(g, Some(hs), Some((200, b"OK".to_vec()))));
    pump(&mut x);
    assert_eq!(x.GetResponseHeader(b"x-a"), Some(b"one".to_vec()));
    assert_eq!(x.GetResponseHeader(b"x-b"), None);
}
