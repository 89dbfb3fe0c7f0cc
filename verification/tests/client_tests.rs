use xbus::client::{absorb_timeout, absorb_timeout_option, make_form, Client};
use xbus::config::{
    load_pem_certs, load_pem_keys, Config, PemOutcome, Timeout, DEFAULT_REQUEST_TIMEOUT,
};
use xbus::error::Error;
use xbus::request::Method;

fn client() -> Client {
    Client::new(Config::new("https://reg:4433"), None).unwrap()
}

fn dev_client() -> Client {
    let mut config = Config::new("https://reg:4433");
    config.dev_app = Some("clitest".to_string());
    config.request_timeout = Timeout::from_secs(7);
    Client::new(config, Some("from-cert".to_string())).unwrap()
}

fn pair(a: &str, b: &str) -> (String, String) {
    (a.to_string(), b.to_string())
}

#[test]
fn config_new_has_the_defaults() {
    let c = Config::new("https://reg:4433");
    assert_eq!(c.endpoint, "https://reg:4433");
    assert!(!c.insecure);
    assert_eq!(c.dev_app, None);
    assert_eq!(c.ca_file, None);
    assert_eq!(c.cert_key_file, None);
    assert_eq!(c.max_idle_connections, None);
    assert_eq!(c.request_timeout, Timeout { secs: 5, nanos: 0 });
    assert_eq!(DEFAULT_REQUEST_TIMEOUT, 5);
}

#[test]
fn config_builders_set_one_field() {
    let c = Config::new("e").ca_file("ca.pem");
    assert_eq!(c.ca_file, Some("ca.pem".to_string()));
    assert_eq!(c.cert_key_file, None);
    let c = c.cert_key_file("c.pem", "k.pem");
    assert_eq!(c.cert_key_file, Some(pair("c.pem", "k.pem")));
    assert_eq!(c.ca_file, Some("ca.pem".to_string()));
    assert_eq!(c.endpoint, "e");
    assert_eq!(c.clone(), c);
}

#[test]
fn config_default_is_empty() {
    let c = Config::default();
    assert_eq!(c.endpoint, "");
    assert_eq!(c.request_timeout, Timeout { secs: 0, nanos: 0 });
    assert!(!c.insecure);
}

#[test]
fn dev_app_and_certificate_exclude_each_other() {
    let mut config = Config::new("e").cert_key_file("c.pem", "k.pem");
    config.dev_app = Some("dev".to_string());
    assert_eq!(config.check_app_source(), Err(Error::other("dev_app & config duplicated")));
    let r = Client::new(config, None);
    assert_eq!(r.err(), Some(Error::other("dev_app & config duplicated")));
}

#[test]
fn app_name_comes_from_dev_app_or_certificate() {
    assert_eq!(dev_client().get_app_name(), Some("clitest"));
    let c = Client::new(Config::new("e").cert_key_file("c", "k"), Some("cn".to_string())).unwrap();
    assert_eq!(c.get_app_name(), Some("cn"));
    assert_eq!(client().get_app_name(), None);
}

#[test]
fn idle_connections_default_to_twenty() {
    assert_eq!(client().max_idle_per_host(), 20);
    assert_eq!(Client::DEFAULT_MAX_IDLE_PER_HOST, 20);
    let mut config = Config::new("e");
    config.max_idle_connections = Some(3);
    assert_eq!(Client::new(config, None).unwrap().max_idle_per_host(), 3);
}

#[test]
fn pem_outcomes_are_judged() {
    assert_eq!(load_pem_certs("c.pem", PemOutcome::Parsed(2)), Ok(()));
    assert_eq!(
        load_pem_certs("c.pem", PemOutcome::Parsed(0)),
        Err(Error::other("empty cert file: c.pem"))
    );
    assert_eq!(
        load_pem_certs("c.pem", PemOutcome::Invalid),
        Err(Error::other("invalid cert file: c.pem"))
    );
    assert_eq!(
        load_pem_certs("c.pem", PemOutcome::Unreadable("denied".to_string())),
        Err(Error::other("open cert file(c.pem) fail: denied"))
    );
    assert_eq!(load_pem_keys("k.pem", PemOutcome::Parsed(1)), Ok(()));
    assert_eq!(
        load_pem_keys("k.pem", PemOutcome::Parsed(0)),
        Err(Error::other("empty key file: k.pem"))
    );
    assert_eq!(
        load_pem_keys("k.pem", PemOutcome::Invalid),
        Err(Error::other("invalid key file: k.pem"))
    );
    assert_eq!(
        load_pem_keys("k.pem", PemOutcome::Unreadable("gone".to_string())),
        Err(Error::other("open key file(k.pem) fail: gone"))
    );
}

#[test]
fn requests_carry_endpoint_timeout_and_dev_app() {
    let b = dev_client().request(Method::Get, "/x");
    assert_eq!(b.endpoint, "https://reg:4433");
    assert_eq!(b.path, "/x");
    assert_eq!(b.timeout, Some(Timeout::from_secs(7)));
    assert_eq!(b.headers, vec![pair("Dev-App", "clitest")]);
    let b = client().request_timeout(Method::Post, "/y", Timeout { secs: 30, nanos: 5 });
    assert_eq!(b.timeout, Some(Timeout { secs: 30, nanos: 5 }));
    assert!(b.headers.is_empty());
    assert_eq!(b.method, Method::Post);
}

#[test]
fn config_requests_name_their_keys() {
    let r = client().get("db/url").build().unwrap();
    assert_eq!(r.url, "https://reg:4433/api/configs/db/url");
    assert_eq!(r.method, Method::Get);
    let r = client()
        .get_all(&vec!["a".to_string(), "b c".to_string()])
        .unwrap()
        .build()
        .unwrap();
    assert_eq!(r.url, "https://reg:4433/api/configs?keys=%5B%22a%22%2C%22b%20c%22%5D");
}

#[test]
fn service_requests_name_service_and_zone() {
    let c = client();
    assert_eq!(c.get_service("svc").build().unwrap().url, "https://reg:4433/api/v1/services/svc");
    assert_eq!(
        c.get_service_only_zones("svc").build().unwrap().url,
        "https://reg:4433/api/v1/services/svc?only_zone=true"
    );
    assert_eq!(
        c.get_service_by_zone("svc", "z1").build().unwrap().url,
        "https://reg:4433/api/v1/services/svc/z1"
    );
    let r = c.unplug_service("svc", "z1", "10.0.0.1:80").build().unwrap();
    assert_eq!(r.url, "https://reg:4433/api/v1/services/svc/z1/10.0.0.1:80");
    assert_eq!(r.method, Method::Delete);
    let r = c.delete_service("svc", None).build().unwrap();
    assert_eq!(r.url, "https://reg:4433/api/v1/services/svc?zone=");
    assert_eq!(r.method, Method::Delete);
    let r = c.delete_service("svc", Some("z1")).build().unwrap();
    assert_eq!(r.url, "https://reg:4433/api/v1/services/svc?zone=z1");
}

#[test]
fn plug_requests_carry_a_form() {
    let c = client();
    let r = c
        .plug_service("svc", Ok("{\"a\":1}".to_string()), Ok("null".to_string()), None, Some(7))
        .build()
        .unwrap();
    assert_eq!(r.method, Method::Post);
    assert_eq!(r.url, "https://reg:4433/api/v1/services/svc");
    assert_eq!(r.body, Some("ttl=&lease_id=7&desc=%7B%22a%22%3A1%7D&endpoint=".to_string()));
    assert_eq!(r.headers, vec![pair("Content-Type", "application/x-www-form-urlencoded")]);

    let r = c
        .plug_all_services(Ok("[]".to_string()), Ok("{}".to_string()), Some(9), Some(60))
        .build()
        .unwrap();
    assert_eq!(r.url, "https://reg:4433/api/v1/services");
    assert_eq!(r.body, Some("ttl=60&lease_id=9&descs=%5B%5D&endpoint=%7B%7D".to_string()));
}

#[test]
fn plug_request_fails_with_the_first_field_that_failed() {
    let r = client()
        .plug_service("svc", Err("bad desc".to_string()), Err("bad endpoint".to_string()), None, None)
        .build();
    assert_eq!(r, Err(Error::Serialize("serialize json(desc) fail: bad desc".to_string())));
}

#[test]
fn make_form_keeps_the_order_of_the_fields() {
    let fields = vec![
        ("b".to_string(), Ok("2".to_string())),
        ("a".to_string(), Ok("null".to_string())),
    ];
    assert_eq!(make_form(&fields).unwrap().finish(), "b=2&a=");
    assert_eq!(make_form(&vec![]).unwrap().finish(), "");
    let fields = vec![
        ("b".to_string(), Ok("2".to_string())),
        ("a".to_string(), Err("x".to_string())),
        ("c".to_string(), Err("y".to_string())),
    ];
    assert_eq!(
        make_form(&fields).err(),
        Some(Error::Serialize("serialize json(a) fail: x".to_string()))
    );
}

#[test]
fn lease_requests_name_the_lease() {
    let c = client();
    let r = c.grant_lease(None, None).build().unwrap();
    assert_eq!(r.url, "https://reg:4433/api/leases");
    assert_eq!(r.method, Method::Post);
    assert_eq!(r.body, None);
    let r = c.grant_lease(Some(60), Some(Ok("{\"key\":\"n1\"}".to_string()))).build().unwrap();
    assert_eq!(r.url, "https://reg:4433/api/leases?ttl=60");
    assert_eq!(r.body, Some("app_node=%7B%22key%22%3A%22n1%22%7D".to_string()));
    let r = c.keepalive_lease(1234).build().unwrap();
    assert_eq!(r.url, "https://reg:4433/api/leases/1234");
    assert_eq!(r.method, Method::Post);
    let r = c.revoke_lease(-3).build().unwrap();
    assert_eq!(r.url, "https://reg:4433/api/leases/-3");
    assert_eq!(r.method, Method::Delete);
    let r = c.revoke_lease_with_node(5, "n 1", Some("blue")).build().unwrap();
    assert_eq!(r.url, "https://reg:4433/api/leases/5?rm_node_key=n%201&app_node_label=blue");
    let r = c.revoke_lease_with_node(5, "n1", None).build().unwrap();
    assert_eq!(r.url, "https://reg:4433/api/leases/5?rm_node_key=n1");
}

#[test]
fn app_node_requests_name_the_application() {
    let c = client();
    let r = c.get_app_nodes("app", Some("blue")).build().unwrap();
    assert_eq!(r.url, "https://reg:4433/api/apps/app/nodes?label=blue");
    let r = c.is_app_node_online("app", None, "n1").build().unwrap();
    assert_eq!(r.url, "https://reg:4433/api/apps/app/online?key=n1");
    let r = c.watch_app_nodes_once("app", Some("blue"), 11, Timeout::from_secs(30)).build().unwrap();
    assert_eq!(r.url, "https://reg:4433/api/apps/app/nodes?label=blue&revision=11&timeout=30");
    assert_eq!(r.timeout, Some(Timeout::from_secs(35)));
}

#[test]
fn long_polls_add_the_request_timeout_to_the_deadline() {
    let c = dev_client();
    let r = c.watch_service_once("svc", 3, Timeout::from_secs(60)).build().unwrap();
    assert_eq!(r.url, "https://reg:4433/api/v1/services/svc?watch=true&revision=3&timeout=60");
    assert_eq!(r.timeout, Some(Timeout::from_secs(67)));
    let r = c.watch_service_descs_once(Some("z1"), 4, Timeout::from_secs(10)).build().unwrap();
    assert_eq!(r.url, "https://reg:4433/api/v1/service-descs?zone=z1&revision=4&timeout=10");
    assert_eq!(r.timeout, Some(Timeout::from_secs(17)));
}

#[test]
fn watches_start_with_a_snapshot_and_go_on_after_the_last_revision() {
    let c = client();
    let r = c.watch_service("svc", None, Timeout::from_secs(60)).build().unwrap();
    assert_eq!(r.url, "https://reg:4433/api/v1/services/svc");
    assert_eq!(r.timeout, Some(Timeout::from_secs(5)));
    let r = c.watch_service("svc", Some(10), Timeout::from_secs(60)).build().unwrap();
    assert_eq!(r.url, "https://reg:4433/api/v1/services/svc?watch=true&revision=11&timeout=60");
    assert_eq!(r.timeout, Some(Timeout::from_secs(65)));
    let r = c.watch_app_nodes("app", None, Timeout::from_secs(60), None).build().unwrap();
    assert_eq!(r.url, "https://reg:4433/api/apps/app/nodes");
    let r = c.watch_app_nodes("app", None, Timeout::from_secs(60), Some(1)).build().unwrap();
    assert_eq!(r.url, "https://reg:4433/api/apps/app/nodes?revision=2&timeout=60");
    let r = c.watch_service_descs(None, None, Timeout::from_secs(60)).build().unwrap();
    assert_eq!(r.url, "https://reg:4433/api/v1/service-descs?revision=1&timeout=60");
    let r = c.watch_service_descs(Some("z"), Some(8), Timeout::from_secs(60)).build().unwrap();
    assert_eq!(r.url, "https://reg:4433/api/v1/service-descs?zone=z&revision=9&timeout=60");
}

#[test]
fn a_long_poll_that_ran_out_brought_no_change() {
    assert_eq!(absorb_timeout(Ok(3u8)), Ok(Some(3)));
    assert_eq!(absorb_timeout::<u8>(Err(Error::io_timeout())), Ok(None));
    assert_eq!(
        absorb_timeout::<u8>(Err(Error::Request("DEADLINE_EXCEEDED".to_string(), String::new()))),
        Ok(None)
    );
    let lost = Error::Request("SYSTEM_ERROR".to_string(), String::new());
    assert_eq!(absorb_timeout::<u8>(Err(lost.clone())), Err(lost.clone()));
    assert_eq!(absorb_timeout_option(Ok(Some(3u8))), Ok(Some(3)));
    assert_eq!(absorb_timeout_option::<u8>(Ok(None)), Ok(None));
    assert_eq!(absorb_timeout_option::<u8>(Err(Error::io_timeout())), Ok(None));
    assert_eq!(absorb_timeout_option::<u8>(Err(lost.clone())), Err(lost));
}

#[test]
fn timeouts_add_with_carry() {
    let a = Timeout { secs: 1, nanos: 600_000_000 };
    let b = Timeout { secs: 2, nanos: 500_000_000 };
    assert_eq!(a.checked_add(b), Some(Timeout { secs: 4, nanos: 100_000_000 }));
    assert_eq!(a.as_secs(), 1);
    assert_eq!(
        Timeout::from_secs(3).checked_add(Timeout::from_secs(4)),
        Some(Timeout::from_secs(7))
    );
    let most = Timeout { secs: u64::MAX, nanos: 999_999_999 };
    assert_eq!(most.checked_add(Timeout { secs: 0, nanos: 0 }), Some(most));
    assert_eq!(most.checked_add(Timeout { secs: 0, nanos: 1 }), None);
    assert_eq!(most.checked_add(Timeout::from_secs(1)), None);
}

#[test]
fn long_poll_deadline_keeps_the_nanoseconds() {
    let mut config = Config::new("http://h");
    config.request_timeout = Timeout { secs: 1, nanos: 700_000_000 };
    let c = Client::new(config, None).unwrap();
    let r = c
        .watch_service_once("svc", 1, Timeout { secs: 2, nanos: 400_000_000 })
        .build()
        .unwrap();
    assert_eq!(r.timeout, Some(Timeout { secs: 4, nanos: 100_000_000 }));
    assert_eq!(r.url, "http://h/api/v1/services/svc?watch=true&revision=1&timeout=2");
}
