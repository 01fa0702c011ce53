use shodan_client::error::ClientError;
use shodan_client::request::{Body, Method, Request};
use shodan_client::shodan::{
    add_notifier_alert, add_trigger, add_whitelist, create_alert, create_notifier, create_scan,
    delete_alert, delete_notifier, delete_notifier_alert, delete_trigger, delete_whitelist,
    edit_alert, edit_notifier, get_account_profile, get_alert_info, get_alert_info_id,
    get_alert_triggers, get_all_network_alert_for_alert_id, get_all_network_alerts, get_api_info,
    get_dns_domain, get_dns_resolve, get_dns_reverse, get_facets_list, get_filters_list,
    get_host_count, get_host_ip, get_host_search, get_host_search_tokens, get_notifier,
    get_notifier_info, get_notifier_provider, get_ports, get_protocols, get_query,
    get_query_search, get_query_tags, get_scan_id, get_scans, get_tools_headers, get_tools_myip,
};

fn rest(method: Method, url: &str) -> Request {
    Request { method, url: String::from(url), body: Body::Empty, timeout: Some(30) }
}

fn rest_form(method: Method, url: &str, body: &str) -> Request {
    Request { method, url: String::from(url), body: Body::Form(String::from(body)), timeout: Some(30) }
}

fn stream(url: &str) -> Request {
    Request { method: Method::Get, url: String::from(url), body: Body::Empty, timeout: None }
}

#[test]
fn host_ip_request() {
    let request = get_host_ip("8.8.8.8", "KEY");
    assert_eq!(request.url, "https://api.shodan.io/shodan/host/8.8.8.8?key=KEY");
    assert_eq!(request.method, Method::Get);
    assert_eq!(request.body, Body::Empty);
    assert_eq!(request.timeout, Some(30));
}

#[test]
fn host_ip_request_with_a_crafted_address() {
    assert_eq!(
        get_host_ip("8.8.8.8/../../api-info?x=", "KEY"),
        rest(Method::Get, "https://api.shodan.io/shodan/host/8.8.8.8%2F..%2F..%2Fapi-info%3Fx%3D?key=KEY")
    );
}

#[test]
fn host_count_request() {
    assert_eq!(
        get_host_count("KEY", "port:22", "org,os"),
        rest(Method::Get, "https://api.shodan.io/shodan/host/count?key=KEY&query=port%3A22&facets=org%2Cos")
    );
}

#[test]
fn host_search_request() {
    assert_eq!(
        get_host_search("KEY", "product:nginx", "country"),
        rest(Method::Get, "https://api.shodan.io/shodan/host/search?key=KEY&query=product%3Anginx&facets=country")
    );
}

#[test]
fn facets_list_request() {
    assert_eq!(get_facets_list("KEY"), rest(Method::Get, "https://api.shodan.io/shodan/host/search/facets?key=KEY"));
}

#[test]
fn filters_list_request() {
    assert_eq!(get_filters_list("KEY"), rest(Method::Get, "https://api.shodan.io/shodan/host/search/filters?key=KEY"));
}

#[test]
fn host_search_tokens_request() {
    assert_eq!(
        get_host_search_tokens("KEY", "Raspbian port:22"),
        rest(Method::Get, "https://api.shodan.io/shodan/host/search/tokens?key=KEY&query=Raspbian%20port%3A22")
    );
}

#[test]
fn ports_request() {
    assert_eq!(get_ports("KEY"), rest(Method::Get, "https://api.shodan.io/shodan/ports?key=KEY"));
}

#[test]
fn protocols_request() {
    assert_eq!(get_protocols("KEY"), rest(Method::Get, "https://api.shodan.io/shodan/protocols?key=KEY"));
}

#[test]
fn create_scan_request() {
    let request = create_scan("KEY", "8.8.8.8,1.1.1.1");
    assert_eq!(request.method, Method::Post);
    assert_eq!(request.url, "https://api.shodan.io/shodan/scan?key=KEY");
    assert_eq!(request.body, Body::Form(String::from("ips=8.8.8.8%2C1.1.1.1")));
    assert_eq!(request.body.content_type(), Some("application/x-www-form-urlencoded"));
    assert_eq!(request.timeout, Some(30));
}

#[test]
fn create_scan_request_with_services() {
    let request = create_scan("KEY", "{\"8.8.8.8\": [[53, \"dns-udp\"]]}");
    assert_eq!(
        request,
        rest_form(
            Method::Post,
            "https://api.shodan.io/shodan/scan?key=KEY",
            "ips=%7B%228.8.8.8%22%3A+%5B%5B53%2C+%22dns-udp%22%5D%5D%7D"
        )
    );
}

#[test]
fn scans_request() {
    assert_eq!(get_scans("KEY"), rest(Method::Get, "https://api.shodan.io/shodan/scans?key=KEY"));
}

#[test]
fn scan_id_request() {
    assert_eq!(get_scan_id("Mo8W7itcWumiy9Ay", "KEY"), rest(Method::Get, "https://api.shodan.io/shodan/scan/Mo8W7itcWumiy9Ay?key=KEY"));
}

#[test]
fn create_alert_request() {
    let request = create_alert("KEY", "DNS Alert", vec!["8.8.8.8", "1.1.1.1"], 0).unwrap();
    assert_eq!(request.method, Method::Post);
    assert_eq!(request.url, "https://api.shodan.io/shodan/alert?key=KEY");
    assert_eq!(request.timeout, Some(30));
    assert_eq!(request.body.content_type(), Some("application/json"));
    let text = match &request.body {
        Body::Json(text) => text.clone(),
        other => panic!("not a JSON body: {:?}", other),
    };
    let expected = serde_json::Value::from_iter(vec![
        ("filters", serde_json::Value::from_iter(vec![("ip", serde_json::Value::from(vec!["8.8.8.8", "1.1.1.1"]))])),
        ("name", serde_json::Value::from("DNS Alert")),
        ("expires", serde_json::Value::from(0)),
    ]);
    assert_eq!(serde_json::from_str::<serde_json::Value>(&text).unwrap(), expected);
}

#[test]
fn create_alert_is_no_error() {
    let result: Result<Request, ClientError> = create_alert("KEY", "", vec![], i32::MIN);
    assert!(result.is_ok());
}

#[test]
fn alert_info_id_request() {
    assert_eq!(get_alert_info_id("A1", "KEY"), rest(Method::Get, "https://api.shodan.io/shodan/alert/A1/info?key=KEY"));
}

#[test]
fn delete_alert_request() {
    assert_eq!(delete_alert("A1", "KEY"), rest(Method::Delete, "https://api.shodan.io/shodan/alert/A1?key=KEY"));
}

#[test]
fn edit_alert_request() {
    let request = edit_alert("A1", "KEY", vec!["1.1.1.1", "8.8.8.8"]).unwrap();
    assert_eq!(request.method, Method::Post);
    assert_eq!(request.url, "https://api.shodan.io/shodan/alert/A1?key=KEY");
    assert_eq!(request.body, Body::Json(String::from("{\"filters\":{\"ip\":[\"1.1.1.1\",\"8.8.8.8\"]}}")));
    assert_eq!(request.timeout, Some(30));
}

#[test]
fn alert_info_request() {
    assert_eq!(get_alert_info("KEY"), rest(Method::Get, "https://api.shodan.io/shodan/alert/info?key=KEY"));
}

#[test]
fn alert_triggers_request() {
    assert_eq!(get_alert_triggers("KEY"), rest(Method::Get, "https://api.shodan.io/shodan/alert/triggers?key=KEY"));
}

#[test]
fn add_trigger_request() {
    assert_eq!(
        add_trigger("A1", "new_service,vulnerable", "KEY"),
        rest(Method::Put, "https://api.shodan.io/shodan/alert/A1/trigger/new_service%2Cvulnerable?key=KEY")
    );
}

#[test]
fn delete_trigger_request() {
    assert_eq!(
        delete_trigger("A1", "new_service", "KEY"),
        rest(Method::Delete, "https://api.shodan.io/shodan/alert/A1/trigger/new_service?key=KEY")
    );
}

#[test]
fn add_whitelist_request() {
    assert_eq!(
        add_whitelist("A1", "new_service", "1.1.1.1:53", "KEY"),
        rest(Method::Put, "https://api.shodan.io/shodan/alert/A1/trigger/new_service/ignore/1.1.1.1%3A53?key=KEY")
    );
}

#[test]
fn delete_whitelist_request() {
    assert_eq!(
        delete_whitelist("A1", "new_service", "1.1.1.1:53", "KEY"),
        rest(Method::Delete, "https://api.shodan.io/shodan/alert/A1/trigger/new_service/ignore/1.1.1.1%3A53?key=KEY")
    );
}

#[test]
fn add_notifier_alert_request() {
    assert_eq!(
        add_notifier_alert("A1", "default", "KEY"),
        rest(Method::Put, "https://api.shodan.io/shodan/alert/A1/notifier/default?key=KEY")
    );
}

#[test]
fn delete_notifier_alert_request() {
    assert_eq!(
        delete_notifier_alert("A1", "default", "KEY"),
        rest(Method::Delete, "https://api.shodan.io/shodan/alert/A1/notifier/default?key=KEY")
    );
}

#[test]
fn notifier_request() {
    assert_eq!(get_notifier("KEY"), rest(Method::Get, "https://api.shodan.io/notifier?key=KEY"));
}

#[test]
fn notifier_provider_request() {
    assert_eq!(get_notifier_provider("KEY"), rest(Method::Get, "https://api.shodan.io/notifier/provider?key=KEY"));
}

#[test]
fn create_notifier_request() {
    assert_eq!(
        create_notifier("KEY", "email", "Email notifier", "to", "jmath@shodan.io"),
        rest_form(
            Method::Post,
            "https://api.shodan.io/notifier?key=KEY",
            "provider=email&description=Email+notifier&to=jmath%40shodan.io"
        )
    );
}

#[test]
fn delete_notifier_request() {
    assert_eq!(delete_notifier("N1", "KEY"), rest(Method::Delete, "https://api.shodan.io/notifier/N1?key=KEY"));
}

#[test]
fn notifier_info_request() {
    assert_eq!(get_notifier_info("N1", "KEY"), rest(Method::Get, "https://api.shodan.io/notifier/N1?key=KEY"));
}

#[test]
fn edit_notifier_request() {
    assert_eq!(
        edit_notifier("N1", "KEY", "to", "jmath@shodan.io"),
        rest_form(Method::Put, "https://api.shodan.io/notifier/N1?key=KEY", "to=jmath%40shodan.io")
    );
}

#[test]
fn query_request() {
    assert_eq!(
        get_query("", "votes", "asc", "KEY"),
        rest(Method::Get, "https://api.shodan.io/shodan/query?page=&sort=votes&order=asc&key=KEY")
    );
}

#[test]
fn query_search_request() {
    assert_eq!(
        get_query_search("webcam", "2", "KEY"),
        rest(Method::Get, "https://api.shodan.io/shodan/query/search?query=webcam&page=2&key=KEY")
    );
}

#[test]
fn query_tags_request() {
    assert_eq!(get_query_tags("10", "KEY"), rest(Method::Get, "https://api.shodan.io/shodan/query/tags?size=10&key=KEY"));
}

#[test]
fn account_profile_request() {
    assert_eq!(get_account_profile("KEY"), rest(Method::Get, "https://api.shodan.io/account/profile?key=KEY"));
}

#[test]
fn dns_domain_request() {
    assert_eq!(
        get_dns_domain("google.com", "False", "A", "", "KEY"),
        rest(Method::Get, "https://api.shodan.io/dns/domain/google.com?history=False&type=A&page=&key=KEY")
    );
}

#[test]
fn dns_resolve_request() {
    assert_eq!(
        get_dns_resolve("google.com,facebook.com", "KEY"),
        rest(Method::Get, "https://api.shodan.io/dns/resolve?hostnames=google.com%2Cfacebook.com&key=KEY")
    );
}

#[test]
fn dns_reverse_request() {
    assert_eq!(
        get_dns_reverse("8.8.8.8,1.1.1.1", "KEY"),
        rest(Method::Get, "https://api.shodan.io/dns/reverse?ips=8.8.8.8%2C1.1.1.1&key=KEY")
    );
}

#[test]
fn tools_headers_request() {
    assert_eq!(get_tools_headers("KEY"), rest(Method::Get, "https://api.shodan.io/tools/httpheaders?key=KEY"));
}

#[test]
fn tools_myip_request() {
    assert_eq!(get_tools_myip("KEY"), rest(Method::Get, "https://api.shodan.io/tools/myip?key=KEY"));
}

#[test]
fn api_info_request() {
    assert_eq!(get_api_info("KEY"), rest(Method::Get, "https://api.shodan.io/api-info?key=KEY"));
}

#[test]
fn all_network_alerts_request_has_no_timeout() {
    let request = get_all_network_alerts("KEY");
    assert_eq!(request, stream("https://stream.shodan.io/shodan/alert?key=KEY"));
    assert_eq!(request.timeout, None);
    assert_ne!(request.timeout, get_alert_info("KEY").timeout);
}

#[test]
fn network_alert_for_alert_id_request_has_no_timeout() {
    assert_eq!(
        get_all_network_alert_for_alert_id("A1", "KEY"),
        stream("https://stream.shodan.io/shodan/alert/A1?key=KEY")
    );
}

#[test]
fn a_key_with_reserved_characters_stays_one_value() {
    assert_eq!(
        get_api_info("K&E=Y #1"),
        rest(Method::Get, "https://api.shodan.io/api-info?key=K%26E%3DY%20%231")
    );
}

#[test]
fn a_key_that_ends_in_a_newline_is_sent_as_it_is() {
    assert_eq!(get_api_info("KEY\n"), rest(Method::Get, "https://api.shodan.io/api-info?key=KEY%0A"));
}
