use base64::Engine;
use log_service::clock::{log_timestamp, request_log_time};
use log_service::config::{parse_host, parse_trusted_origins, parse_u16, split_text, AppConfig};
use log_service::encoding::{compress_database, encode_archive, is_archivable};
use log_service::events::{process_log_queue, EventBus, LogEvent, UncommittedLog};
use log_service::ingest::{handle_post_log, header_value_text, service_name, Dispatch};
use log_service::middleware::{error_log_line, request_log_line, response_log_line, Logger, OriginValidation};
use log_service::query::{find_param, get_log_reply, log_query_from_params, FetchOutcome};
use log_service::reply::{empty_ok, json_error, not_found, Reply, ReplyBody};
use log_service::rotation::{LogRotation, RotateAction, RotateEvent, RotatePhase};
use log_service::router::{router, Route};

fn event(ts: &str, entity: &str, data: &str) -> LogEvent {
    LogEvent { timestamp: ts.to_string(), entity: entity.to_string(), data: data.to_string() }
}

fn json_error_message(r: &Reply) -> Option<String> {
    match &r.body {
        ReplyBody::JsonError(m) => Some(m.clone()),
        _ => None,
    }
}

fn text_body(r: &Reply) -> Option<String> {
    match &r.body {
        ReplyBody::Text(t) => Some(t.clone()),
        _ => None,
    }
}

// ---- router ----

#[test]
fn router_known_routes() {
    assert_eq!(router("GET", "/health"), Route::Health);
    assert_eq!(router("POST", "/log"), Route::PostLog);
    assert_eq!(router("GET", "/rotate"), Route::Rotate);
}

#[test]
fn router_everything_else_not_found() {
    assert_eq!(router("GET", "/log"), Route::NotFound);
    assert_eq!(router("POST", "/health"), Route::NotFound);
    assert_eq!(router("PUT", "/rotate"), Route::NotFound);
    assert_eq!(router("GET", "/health/"), Route::NotFound);
    assert_eq!(router("get", "/health"), Route::NotFound);
    assert_eq!(router("", ""), Route::NotFound);
    let r = not_found();
    assert_eq!(r.status, 404);
    assert!(matches!(r.body, ReplyBody::Empty));
}

// ---- config ----

#[test]
fn parse_u16_follows_std() {
    for s in ["0", "80", "+80", "65535", "007", "65536", "", "+", "-1", "-0", " 80", "80 ", "1_000", "8a", "99999999999"] {
        assert_eq!(parse_u16(s), s.parse::<u16>().ok(), "input {:?}", s);
    }
    assert_eq!(parse_u16("8080"), Some(8080));
    assert_eq!(parse_u16("65536"), None);
}

#[test]
fn split_text_matches_str_split() {
    for (s, sep) in [("a,b,c", ','), ("", ','), (",", ','), ("a,,b,", ','), ("127.0.0.1", '.'), ("é.ü", '.')] {
        let expected: Vec<String> = s.split(sep).map(|p| p.to_string()).collect();
        assert_eq!(split_text(s, sep), expected);
    }
}

#[test]
fn parse_host_reads_components() {
    assert_eq!(parse_host("127.0.0.1"), vec![127, 0, 0, 1]);
    assert_eq!(parse_host("10.x.70000.+5"), vec![10, 0, 0, 5]);
    assert_eq!(parse_host(""), vec![0]);
    assert_eq!(parse_host("localhost"), vec![0]);
    assert_eq!(parse_host("1..2"), vec![1, 0, 2]);
}

#[test]
fn parse_trusted_origins_is_a_set() {
    let o = parse_trusted_origins("http://a,http://b,http://a");
    assert_eq!(o, vec!["http://a".to_string(), "http://b".to_string()]);
    assert_eq!(parse_trusted_origins(""), vec!["".to_string()]);
    assert_eq!(parse_trusted_origins("x,,x,"), vec!["x".to_string(), "".to_string()]);
}

#[test]
fn app_config_from_settings() {
    let c = AppConfig::from_settings("8080", "0.0.0.0", "logDB.db".to_string(), "a,b").unwrap();
    assert_eq!(c.port, 8080);
    assert_eq!(c.host, vec![0, 0, 0, 0]);
    assert_eq!(c.db_path, "logDB.db");
    assert_eq!(c.trusted_origins.len(), 2);
    assert!(AppConfig::from_settings("http", "0.0.0.0", "x".to_string(), "a").is_none());
    assert!(AppConfig::from_settings("70000", "0.0.0.0", "x".to_string(), "a").is_none());
}

// ---- posting a log ----

#[test]
fn header_text_like_to_str() {
    assert_eq!(header_value_text(b"billing"), Some("billing".to_string()));
    assert_eq!(header_value_text(b"a\tb c~"), Some("a\tb c~".to_string()));
    assert_eq!(header_value_text(b""), Some(String::new()));
    assert_eq!(header_value_text(b"caf\xc3\xa9"), None);
    assert_eq!(header_value_text(b"a\x7fb"), None);
    assert_eq!(header_value_text(b"a\nb"), None);
}

#[test]
fn service_name_defaults() {
    assert_eq!(service_name(Some(b"orders")), "orders");
    assert_eq!(service_name(Some(b"\xff")), "Unknown Service");
    assert_eq!(service_name(None), "Unknown Service");
}

#[test]
fn post_log_publishes_when_idle() {
    let out = handle_post_log(false, Some(b"orders"), b"hello", 1704164645, 0).unwrap();
    assert_eq!(out.reply.status, 200);
    assert!(matches!(out.reply.body, ReplyBody::Empty));
    match out.dispatch {
        Dispatch::Publish(e) => {
            assert_eq!(e.timestamp, "2024-01-02 03:04:05");
            assert_eq!(e.entity, "orders");
            assert_eq!(e.data, "hello");
        }
        _ => panic!("expected the record to be published"),
    }
}

#[test]
fn post_log_holds_during_rotation() {
    let out = handle_post_log(true, None, "ünïcode".as_bytes(), 0, 0).unwrap();
    assert_eq!(out.reply.status, 200);
    match out.dispatch {
        Dispatch::Hold(e) => {
            assert_eq!(e.timestamp, "1970-01-01 00:00:00");
            assert_eq!(e.entity, "Unknown Service");
            assert_eq!(e.data, "ünïcode");
        }
        _ => panic!("expected the record to be held"),
    }
}

#[test]
fn post_log_rejects_non_utf8() {
    let out = handle_post_log(false, Some(b"x"), b"\xff\xfe", 0, 0).unwrap();
    assert_eq!(out.reply.status, 500);
    assert_eq!(text_body(&out.reply), Some("Cannot stringify body".to_string()));
    assert!(matches!(out.dispatch, Dispatch::Nothing));
    // The time is not needed to reject the body.
    assert!(handle_post_log(false, None, b"\xff", i64::MAX, 0).is_some());
}

#[test]
fn post_log_time_out_of_range() {
    assert!(handle_post_log(false, None, b"ok", i64::MAX, 0).is_none());
}

// ---- queue and bus ----

#[test]
fn failed_store_is_held_and_republished() {
    let mut q = UncommittedLog::new();
    let a = event("1", "s", "a");
    let b = event("2", "s", "b");
    q.record_insert_outcome(&a, true);
    assert_eq!(q.len(), 0);
    q.record_insert_outcome(&a, false);
    q.hold(b.clone());
    assert_eq!(q.len(), 2);
    let again = process_log_queue(&q);
    assert_eq!(again.len(), 2);
    assert_eq!(again[0].data, "a");
    assert_eq!(again[1].data, "b");
    // The queue keeps its records.
    assert_eq!(q.len(), 2);
    assert_eq!(process_log_queue(&UncommittedLog::new()).len(), 0);
}

#[test]
fn bus_delivers_to_every_subscriber_in_order() {
    let mut bus: EventBus<&str> = EventBus::new();
    assert_eq!(bus.push(&event("t", "s", "x")).len(), 0);
    bus.subscribe("db");
    bus.subscribe("audit");
    assert_eq!(bus.len(), 2);
    let d = bus.push(&event("t", "s", "x"));
    assert_eq!(d.len(), 2);
    assert_eq!(d[0].listener, 0);
    assert_eq!(*bus.listener(d[0].listener), "db");
    assert_eq!(d[1].listener, 1);
    assert_eq!(*bus.listener(d[1].listener), "audit");
    assert_eq!(d[1].event.data, "x");
}

// ---- encodings ----

#[test]
fn base64_exact_values() {
    assert_eq!(encode_archive(b""), "");
    assert_eq!(encode_archive(b"M"), "TQ==");
    assert_eq!(encode_archive(b"Ma"), "TWE=");
    assert_eq!(encode_archive(b"Man"), "TWFu");
    assert_eq!(encode_archive(&[0xfb, 0xff, 0xbf]), "+/+/");
    for n in 0..20usize {
        let data: Vec<u8> = (0..n as u8).collect();
        assert_eq!(encode_archive(&data).len(), 4 * ((n + 2) / 3));
    }
}

#[test]
fn compressed_database_starts_with_its_length() {
    let db = vec![7u8; 1000];
    let archive = compress_database(&db);
    assert_eq!(&archive[..4], &1000u32.to_le_bytes());
    assert!(archive.len() < 1000);
    assert_eq!(lz4_flex::block::decompress_size_prepended(&archive).unwrap(), db);
    let empty = compress_database(&[]);
    assert_eq!(&empty[..4], &[0, 0, 0, 0]);
}

#[test]
fn archivable_sizes() {
    assert!(is_archivable(0));
    assert!(is_archivable(1 << 30));
    assert!(!is_archivable(usize::MAX));
    assert!(!is_archivable(usize::MAX / 100));
}

// ---- rotation ----

#[test]
fn rotation_success_answers_with_archive() {
    let mut r = LogRotation::new();
    assert!(!r.is_active());
    assert!(matches!(r.step(RotateEvent::Requested), RotateAction::ClosePool));
    assert!(r.is_active());
    assert!(matches!(r.step(RotateEvent::PoolClosed(Ok(()))), RotateAction::ReadDatabase));
    let db = b"some database bytes".to_vec();
    assert!(matches!(r.step(RotateEvent::DatabaseRead(Ok(db.clone()))), RotateAction::RemoveDatabase));
    assert!(matches!(r.step(RotateEvent::DatabaseRemoved), RotateAction::ReopenPool));
    assert!(r.is_active());
    match r.step(RotateEvent::PoolReopened(Ok(()))) {
        RotateAction::Respond(reply) => {
            assert_eq!(reply.status, 200);
            assert_eq!(text_body(&reply), Some(encode_archive(&compress_database(&db))));
            // The answer restores the database byte for byte.
            let archive = base64::engine::general_purpose::STANDARD.decode(text_body(&reply).unwrap()).unwrap();
            assert_eq!(lz4_flex::block::decompress_size_prepended(&archive).unwrap(), db);
        }
        _ => panic!("expected a reply"),
    }
    assert!(!r.is_active());
    assert_eq!(r.phase(), RotatePhase::Idle);
}

#[test]
fn second_rotation_refused() {
    let mut r = LogRotation::new();
    r.step(RotateEvent::Requested);
    match r.step(RotateEvent::Requested) {
        RotateAction::Respond(reply) => {
            assert_eq!(reply.status, 500);
            assert_eq!(json_error_message(&reply), Some("Only one active rotate!".to_string()));
        }
        _ => panic!("expected a refusal"),
    }
    assert!(r.is_active());
    assert_eq!(r.phase(), RotatePhase::ClosingPool);
}

#[test]
fn rotation_close_failure_goes_on() {
    let mut r = LogRotation::new();
    r.step(RotateEvent::Requested);
    assert!(matches!(r.step(RotateEvent::PoolClosed(Err("busy".to_string()))), RotateAction::ReadDatabase));
    assert!(!r.is_active());
    assert_eq!(r.phase(), RotatePhase::ReadingDatabase);
}

#[test]
fn rotation_read_failure() {
    let mut r = LogRotation::new();
    r.step(RotateEvent::Requested);
    r.step(RotateEvent::PoolClosed(Ok(())));
    match r.step(RotateEvent::DatabaseRead(Err("no such file".to_string()))) {
        RotateAction::Respond(reply) => {
            assert_eq!(reply.status, 500);
            assert_eq!(json_error_message(&reply), Some("Cannot compress database: no such file".to_string()));
        }
        _ => panic!("expected a reply"),
    }
    assert!(!r.is_active());
}

#[test]
fn rotation_reopen_failure() {
    let mut r = LogRotation::new();
    r.step(RotateEvent::Requested);
    r.step(RotateEvent::PoolClosed(Ok(())));
    r.step(RotateEvent::DatabaseRead(Ok(vec![1, 2, 3])));
    r.step(RotateEvent::DatabaseRemoved);
    match r.step(RotateEvent::PoolReopened(Err("locked".to_string()))) {
        RotateAction::Respond(reply) => {
            assert_eq!(reply.status, 500);
            assert_eq!(json_error_message(&reply), Some("Cannot reinitialize pool: locked".to_string()));
        }
        _ => panic!("expected a reply"),
    }
    assert!(!r.is_active());
    assert_eq!(r.phase(), RotatePhase::Idle);
}

// ---- querying logs ----

fn params(pairs: &[(&str, &str)]) -> Vec<(String, String)> {
    pairs.iter().map(|(k, v)| (k.to_string(), v.to_string())).collect()
}

#[test]
fn log_query_without_params_is_empty() {
    let q = log_query_from_params(None).ok().unwrap();
    assert_eq!(q.date_from, "");
    assert_eq!(q.date_to, "");
    assert_eq!(q.service_name, "");
}

#[test]
fn log_query_with_all_params() {
    let p = params(&[("serviceName", "orders"), ("dateTo", "2024-02-01"), ("dateFrom", "2024-01-01")]);
    let q = log_query_from_params(Some(&p)).ok().unwrap();
    assert_eq!(q.date_from, "2024-01-01");
    assert_eq!(q.date_to, "2024-02-01");
    assert_eq!(q.service_name, "orders");
    assert_eq!(find_param(&p, "dateTo"), Some("2024-02-01".to_string()));
    assert_eq!(find_param(&p, "missing"), None);
}

#[test]
fn log_query_missing_params() {
    let cases = [
        (params(&[("dateTo", "b"), ("serviceName", "c")]), "Parameter dateFrom is empty"),
        (params(&[]), "Parameter dateFrom is empty"),
        (params(&[("dateFrom", "a"), ("serviceName", "c")]), "Parameter dateTo is empty"),
        (params(&[("dateFrom", "a"), ("dateTo", "b")]), "Parameter serviceName is empty"),
    ];
    for (p, msg) in cases.iter() {
        match log_query_from_params(Some(p)) {
            Err(r) => {
                assert_eq!(r.status, 400);
                assert_eq!(json_error_message(&r), Some(msg.to_string()));
            }
            Ok(_) => panic!("expected an error"),
        }
    }
}

#[test]
fn get_log_replies() {
    let r = get_log_reply(FetchOutcome::DatabaseUnavailable);
    assert_eq!(r.status, 500);
    assert_eq!(json_error_message(&r), Some("Error while acquiring DB connection".to_string()));
    let r = get_log_reply(FetchOutcome::NotSerializable);
    assert_eq!(r.status, 500);
    assert_eq!(json_error_message(&r), Some("Error serializing logs to JSON".to_string()));
    let r = get_log_reply(FetchOutcome::Records("[]".to_string()));
    assert_eq!(r.status, 200);
    assert!(matches!(r.body, ReplyBody::Json(ref j) if j == "[]"));
    let ok = empty_ok();
    assert_eq!(ok.status, 200);
    let e = json_error("boom", 418);
    assert_eq!(e.status, 418);
    assert_eq!(json_error_message(&e), Some("boom".to_string()));
}

// ---- time and middleware ----

#[test]
fn timestamps_exact_values() {
    assert_eq!(log_timestamp(0, 0), Some("1970-01-01 00:00:00".to_string()));
    assert_eq!(log_timestamp(1431648000, 5), Some("2015-05-15 00:00:00".to_string()));
    assert_eq!(log_timestamp(1704164645, 999_999_999), Some("2024-01-02 03:04:05".to_string()));
    assert_eq!(log_timestamp(i64::MAX, 0), None);
    assert_eq!(log_timestamp(0, 1_000_000_000), None);
    assert_eq!(log_timestamp(59, 1_500_000_000), Some("1970-01-01 00:00:60".to_string()));
    assert_eq!(request_log_time(0, 0), Some("1970-01-01T00:00:00+00:00".to_string()));
    assert_eq!(request_log_time(i64::MIN, 0), None);
    let now = chrono::Utc::now();
    let text = request_log_time(now.timestamp(), now.timestamp_subsec_nanos()).unwrap();
    assert_eq!(chrono::DateTime::parse_from_rfc3339(&text).unwrap(), now);
}

#[test]
fn request_log_lines() {
    assert_eq!(request_log_line("T", "GET", "/health", "HTTP/1.1"), "T Request: GET /health HTTP/1.1");
    assert_eq!(response_log_line("T", "200"), "T Response: 200");
    assert_eq!(error_log_line("T", "closed"), "T Error: closed");
}

#[test]
fn middleware_layers() {
    let l = Logger::new(5u32);
    assert_eq!(*l.inner(), 5);
    let o = OriginValidation::new("svc", "10.0.0.1".to_string(), vec!["http://a".to_string(), "http://b".to_string()]);
    assert_eq!(*o.inner(), "svc");
    assert_eq!(o.log_lines(), vec!["http://a".to_string(), "http://b".to_string(), "10.0.0.1".to_string()]);
}
