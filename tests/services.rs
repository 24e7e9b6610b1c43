use plumber::opensearch::{
    doc_path, nested_fields, get_doc_request, ping_request, put_doc_request, put_index_request, query_request,
    search_path, ErrRootCause, Method, PutIndexErr, PutIndexResp, PutIndexRespErr,
    PutIndexRespSucc, SearchConfig,
};
use plumber::redis::{new_client, redis_url, CacheConfig, PoolConfig};
use plumber::sqs::{all_decoded, decode_failure, message_bodies, message_id_or_error, receipt_handles, QueueMessage};

#[test]
fn search_config_defaults() {
    let c = SearchConfig::from_values(None, None);
    assert_eq!(c.host, "http://localhost");
    assert_eq!(c.port, "9200");
    assert_eq!(c.path_url(""), "http://localhost:9200/");
    let c = SearchConfig::from_values(Some("https://search".to_string()), Some("443".to_string()));
    assert_eq!(c.path_url("idx/_doc/1"), "https://search:443/idx/_doc/1");
}

#[test]
fn search_requests() {
    assert_eq!(doc_path("test_idx", "123"), "test_idx/_doc/123");
    assert_eq!(search_path("test_idx"), "test_idx/_search");
    let r = ping_request();
    assert_eq!(r.method, Method::Get);
    assert_eq!(r.path, "");
    let r = put_index_request("test_idx");
    assert_eq!(r.method, Method::Put);
    assert_eq!(r.path, "test_idx");
    let r = put_doc_request("test_idx", "doc1");
    assert_eq!(r.method, Method::Put);
    assert_eq!(r.path, "test_idx/_doc/doc1");
    let r = get_doc_request("test_idx", "doc1");
    assert_eq!(r.method, Method::Get);
    assert_eq!(r.path, "test_idx/_doc/doc1");
    let r = query_request("test_idx");
    assert_eq!(r.method, Method::Get);
    assert_eq!(r.path, "test_idx/_search");
}

fn index_error(kind: &str) -> PutIndexResp {
    PutIndexResp::Error(PutIndexRespErr {
        status: 400,
        error: PutIndexErr {
            root_cause: vec![ErrRootCause {
                error_type: kind.to_string(),
                reason: "index [test_idx] already exists".to_string(),
                index: "test_idx".to_string(),
                index_uuid: "u".to_string(),
            }],
            error_type: kind.to_string(),
            reason: "index [test_idx] already exists".to_string(),
            index: "test_idx".to_string(),
            index_uuid: "u".to_string(),
        },
    })
}

#[test]
fn index_exists_is_recognised() {
    assert!(index_error("resource_already_exists_exception").is_already_exists());
    assert!(!index_error("mapper_parsing_exception").is_already_exists());
    let ok = PutIndexResp::Succ(PutIndexRespSucc {
        acknowledged: true,
        shards_acknowledged: true,
        index: "test_idx".to_string(),
    });
    assert!(!ok.is_already_exists());
}

#[test]
fn cache_config_resolution() {
    let c = CacheConfig::from_values(false, None, None, None);
    assert_eq!(c.uri_scheme, "redis");
    assert_eq!(c.host, "127.0.0.1:6379");
    assert_eq!(c.password, "");
    assert_eq!(c.url(), "redis://:@127.0.0.1:6379");
    let c = CacheConfig::from_values(true, None, Some("7000".to_string()), Some("pw".to_string()));
    assert_eq!(c.url(), "rediss://:pw@127.0.0.1:7000");
    let c = CacheConfig::from_values(false, Some("cache:1".to_string()), Some("7000".to_string()), None);
    assert_eq!(c.host, "cache:1");
}

#[test]
fn redis_url_and_client() {
    assert_eq!(redis_url("redis", "h:1", "p"), "redis://:p@h:1");
    assert!(new_client("redis", "127.0.0.1:6379", "").is_ok());
    assert!(new_client("nonsense", "127.0.0.1:6379", "").is_err());
    assert!(new_client("redis", "cache.local:7000", "pw").is_ok());
}

#[test]
fn cache_pool_settings() {
    let p = PoolConfig::cache_default();
    assert_eq!(p.max_open, 16);
    assert_eq!(p.max_idle, 8);
    assert_eq!(p.timeout_seconds, 1);
    assert_eq!(p.max_lifetime_seconds, 60);
}

fn msg(body: Option<&str>, handle: Option<&str>) -> QueueMessage {
    QueueMessage {
        message_id: None,
        body: body.map(|s| s.to_string()),
        receipt_handle: handle.map(|s| s.to_string()),
    }
}

#[test]
fn queue_receipts_and_bodies() {
    let ms = vec![msg(Some("a"), Some("h1")), msg(None, None), msg(Some("c"), Some("h3"))];
    assert_eq!(receipt_handles(&ms), vec!["h1".to_string(), "h3".to_string()]);
    assert_eq!(message_bodies(&ms), vec!["a".to_string(), "".to_string(), "c".to_string()]);
    assert!(receipt_handles(&vec![]).is_empty());
}

#[test]
fn queue_push_needs_an_id() {
    assert_eq!(message_id_or_error(Some("m-1".to_string())).unwrap(), "m-1");
    let e = message_id_or_error(None).unwrap_err();
    assert_eq!(e.message, "push request did not return a message_id!");
    assert_eq!(decode_failure().message, "JSON dserialization error");
}

#[test]
fn typed_poll_is_all_or_nothing() {
    assert_eq!(all_decoded(vec![Some(1), Some(2), Some(3)]).unwrap(), vec![1, 2, 3]);
    assert_eq!(all_decoded::<i32>(vec![]).unwrap(), Vec::<i32>::new());
    let e = all_decoded(vec![Some(1), None, Some(3)]).unwrap_err();
    assert_eq!(e.message, "JSON dserialization error");
    assert!(all_decoded::<i32>(vec![None]).is_err());
}

#[test]
fn nested_fields_once_each() {
    let named: Vec<String> = vec!["a".to_string(), "b".to_string(), "a".to_string(), "c".to_string()];
    assert_eq!(nested_fields(&named), vec!["a".to_string(), "b".to_string(), "c".to_string()]);
    assert!(nested_fields(&vec![]).is_empty());
    assert_eq!(nested_fields(&vec!["some_field".to_string()]), vec!["some_field".to_string()]);
}
