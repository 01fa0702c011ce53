use vstd::prelude::*;
use crate::error::ClientError;
use crate::json::{alert_doc, alert_edit_doc, alert_edit_json, alert_json, json_body, json_text};
use crate::request::{prepare, request_view, Body, BodyView, Method, Request};
use crate::text::{pair_texts, texts};
use crate::url::{form_body, form_text, Host};

verus! {

/// All services that have been found on the host `ip`.
///
/// `GET /shodan/host/{ip}`.
pub fn get_host_ip(ip: &str, api_key: &str) -> (request: Request)
    ensures
        request@ == request_view(
            Method::Get,
            Host::Rest,
            seq!["shodan"@, "host"@, ip@],
            seq![("key"@, api_key@)],
            BodyView::Empty,
        ),
{
    let segments: Vec<&str> = vec!["shodan", "host", ip];
    let pairs: Vec<(&str, &str)> = vec![("key", api_key)];
    proof {
        assert(texts(segments@) =~= seq!["shodan"@, "host"@, ip@]);
        assert(pair_texts(pairs@) =~= seq![("key"@, api_key@)]);
    }
    prepare(Method::Get, Host::Rest, &segments, &pairs, Body::Empty)
}

/// The number of hosts that match `query`, with a summary for each of the
/// comma-separated `facets`, and no host.
///
/// `GET /shodan/host/count`.
pub fn get_host_count(api_key: &str, query: &str, facets: &str) -> (request: Request)
    ensures
        request@ == request_view(
            Method::Get,
            Host::Rest,
            seq!["shodan"@, "host"@, "count"@],
            seq![("key"@, api_key@), ("query"@, query@), ("facets"@, facets@)],
            BodyView::Empty,
        ),
{
    let segments: Vec<&str> = vec!["shodan", "host", "count"];
    let pairs: Vec<(&str, &str)> = vec![("key", api_key), ("query", query), ("facets", facets)];
    proof {
        assert(texts(segments@) =~= seq!["shodan"@, "host"@, "count"@]);
        assert(pair_texts(pairs@) =~= seq![
            ("key"@, api_key@),
            ("query"@, query@),
            ("facets"@, facets@),
        ]);
    }
    prepare(Method::Get, Host::Rest, &segments, &pairs, Body::Empty)
}

/// The hosts that match `query`, with a summary for each of the comma-separated
/// `facets`.
///
/// `GET /shodan/host/search`.
pub fn get_host_search(api_key: &str, query: &str, facets: &str) -> (request: Request)
    ensures
        request@ == request_view(
            Method::Get,
            Host::Rest,
            seq!["shodan"@, "host"@, "search"@],
            seq![("key"@, api_key@), ("query"@, query@), ("facets"@, facets@)],
            BodyView::Empty,
        ),
{
    let segments: Vec<&str> = vec!["shodan", "host", "search"];
    let pairs: Vec<(&str, &str)> = vec![("key", api_key), ("query", query), ("facets", facets)];
    proof {
        assert(texts(segments@) =~= seq!["shodan"@, "host"@, "search"@]);
        assert(pair_texts(pairs@) =~= seq![
            ("key"@, api_key@),
            ("query"@, query@),
            ("facets"@, facets@),
        ]);
    }
    prepare(Method::Get, Host::Rest, &segments, &pairs, Body::Empty)
}

/// The facets that a search can summarise by.
///
/// `GET /shodan/host/search/facets`.
pub fn get_facets_list(api_key: &str) -> (request: Request)
    ensures
        request@ == request_view(
            Method::Get,
            Host::Rest,
            seq!["shodan"@, "host"@, "search"@, "facets"@],
            seq![("key"@, api_key@)],
            BodyView::Empty,
        ),
{
    let segments: Vec<&str> = vec!["shodan", "host", "search", "facets"];
    let pairs: Vec<(&str, &str)> = vec![("key", api_key)];
    proof {
        assert(texts(segments@) =~= seq!["shodan"@, "host"@, "search"@, "facets"@]);
        assert(pair_texts(pairs@) =~= seq![("key"@, api_key@)]);
    }
    prepare(Method::Get, Host::Rest, &segments, &pairs, Body::Empty)
}

/// The filters that a search query can hold.
///
/// `GET /shodan/host/search/filters`.
pub fn get_filters_list(api_key: &str) -> (request: Request)
    ensures
        request@ == request_view(
            Method::Get,
            Host::Rest,
            seq!["shodan"@, "host"@, "search"@, "filters"@],
            seq![("key"@, api_key@)],
            BodyView::Empty,
        ),
{
    let segments: Vec<&str> = vec!["shodan", "host", "search", "filters"];
    let pairs: Vec<(&str, &str)> = vec![("key", api_key)];
    proof {
        assert(texts(segments@) =~= seq!["shodan"@, "host"@, "search"@, "filters"@]);
        assert(pair_texts(pairs@) =~= seq![("key"@, api_key@)]);
    }
    prepare(Method::Get, Host::Rest, &segments, &pairs, Body::Empty)
}

/// The filters and their arguments that `query` is read as.
///
/// `GET /shodan/host/search/tokens`.
pub fn get_host_search_tokens(api_key: &str, query: &str) -> (request: Request)
    ensures
        request@ == request_view(
            Method::Get,
            Host::Rest,
            seq!["shodan"@, "host"@, "search"@, "tokens"@],
            seq![("key"@, api_key@), ("query"@, query@)],
            BodyView::Empty,
        ),
{
    let segments: Vec<&str> = vec!["shodan", "host", "search", "tokens"];
    let pairs: Vec<(&str, &str)> = vec![("key", api_key), ("query", query)];
    proof {
        assert(texts(segments@) =~= seq!["shodan"@, "host"@, "search"@, "tokens"@]);
        assert(pair_texts(pairs@) =~= seq![("key"@, api_key@), ("query"@, query@)]);
    }
    prepare(Method::Get, Host::Rest, &segments, &pairs, Body::Empty)
}

/// The ports that the crawlers look at.
///
/// `GET /shodan/ports`.
pub fn get_ports(api_key: &str) -> (request: Request)
    ensures
        request@ == request_view(
            Method::Get,
            Host::Rest,
            seq!["shodan"@, "ports"@],
            seq![("key"@, api_key@)],
            BodyView::Empty,
        ),
{
    let segments: Vec<&str> = vec!["shodan", "ports"];
    let pairs: Vec<(&str, &str)> = vec![("key", api_key)];
    proof {
        assert(texts(segments@) =~= seq!["shodan"@, "ports"@]);
        assert(pair_texts(pairs@) =~= seq![("key"@, api_key@)]);
    }
    prepare(Method::Get, Host::Rest, &segments, &pairs, Body::Empty)
}

/// The protocols that a scan on demand can use.
///
/// `GET /shodan/protocols`.
pub fn get_protocols(api_key: &str) -> (request: Request)
    ensures
        request@ == request_view(
            Method::Get,
            Host::Rest,
            seq!["shodan"@, "protocols"@],
            seq![("key"@, api_key@)],
            BodyView::Empty,
        ),
{
    let segments: Vec<&str> = vec!["shodan", "protocols"];
    let pairs: Vec<(&str, &str)> = vec![("key", api_key)];
    proof {
        assert(texts(segments@) =~= seq!["shodan"@, "protocols"@]);
        assert(pair_texts(pairs@) =~= seq![("key"@, api_key@)]);
    }
    prepare(Method::Get, Host::Rest, &segments, &pairs, Body::Empty)
}

/// Asks for a crawl of the addresses or networks in `ips_or_ips_and_services`:
/// a comma-separated list, or a JSON object from address to services.
///
/// `POST /shodan/scan`.
pub fn create_scan(api_key: &str, ips_or_ips_and_services: &str) -> (request: Request)
    ensures
        request@ == request_view(
            Method::Post,
            Host::Rest,
            seq!["shodan"@, "scan"@],
            seq![("key"@, api_key@)],
            BodyView::Form(form_text(seq![("ips"@, ips_or_ips_and_services@)])),
        ),
{
    let segments: Vec<&str> = vec!["shodan", "scan"];
    let pairs: Vec<(&str, &str)> = vec![("key", api_key)];
    let fields: Vec<(&str, &str)> = vec![("ips", ips_or_ips_and_services)];
    proof {
        assert(texts(segments@) =~= seq!["shodan"@, "scan"@]);
        assert(pair_texts(pairs@) =~= seq![("key"@, api_key@)]);
        assert(pair_texts(fields@) =~= seq![("ips"@, ips_or_ips_and_services@)]);
    }
    let body = Body::Form(form_body(&fields));
    prepare(Method::Post, Host::Rest, &segments, &pairs, body)
}

/// The scans on demand of the account.
///
/// `GET /shodan/scans`.
pub fn get_scans(api_key: &str) -> (request: Request)
    ensures
        request@ == request_view(
            Method::Get,
            Host::Rest,
            seq!["shodan"@, "scans"@],
            seq![("key"@, api_key@)],
            BodyView::Empty,
        ),
{
    let segments: Vec<&str> = vec!["shodan", "scans"];
    let pairs: Vec<(&str, &str)> = vec![("key", api_key)];
    proof {
        assert(texts(segments@) =~= seq!["shodan"@, "scans"@]);
        assert(pair_texts(pairs@) =~= seq![("key"@, api_key@)]);
    }
    prepare(Method::Get, Host::Rest, &segments, &pairs, Body::Empty)
}

/// How far the scan `scan_id` has come.
///
/// `GET /shodan/scan/{scan_id}`.
pub fn get_scan_id(scan_id: &str, api_key: &str) -> (request: Request)
    ensures
        request@ == request_view(
            Method::Get,
            Host::Rest,
            seq!["shodan"@, "scan"@, scan_id@],
            seq![("key"@, api_key@)],
            BodyView::Empty,
        ),
{
    let segments: Vec<&str> = vec!["shodan", "scan", scan_id];
    let pairs: Vec<(&str, &str)> = vec![("key", api_key)];
    proof {
        assert(texts(segments@) =~= seq!["shodan"@, "scan"@, scan_id@]);
        assert(pair_texts(pairs@) =~= seq![("key"@, api_key@)]);
    }
    prepare(Method::Get, Host::Rest, &segments, &pairs, Body::Empty)
}

/// Creates an alert called `name` that watches the addresses and networks in `ips`
/// and stays active for `expires` seconds. Fails with an encoding error, and
/// builds no request, where the body cannot be serialized.
///
/// `POST /shodan/alert`.
pub fn create_alert(
    api_key: &str,
    name: &str,
    ips: Vec<&str>,
    expires: i32,
) -> (result: Result<Request, ClientError>)
    ensures
        match json_text(alert_doc(name@, texts(ips@), expires)) {
            Some(body) => result matches Ok(request) && request@ == request_view(
                Method::Post,
                Host::Rest,
                seq!["shodan"@, "alert"@],
                seq![("key"@, api_key@)],
                BodyView::Json(body),
            ),
            None => result == Err::<Request, ClientError>(ClientError::Encoding),
        },
{
    let segments: Vec<&str> = vec!["shodan", "alert"];
    let pairs: Vec<(&str, &str)> = vec![("key", api_key)];
    proof {
        assert(texts(segments@) =~= seq!["shodan"@, "alert"@]);
        assert(pair_texts(pairs@) =~= seq![("key"@, api_key@)]);
    }
    match json_body(alert_json(name, &ips, expires)) {
        Ok(body) => Ok(prepare(Method::Post, Host::Rest, &segments, &pairs, body)),
        Err(error) => Err(error),
    }
}

/// The alert `alert_id`.
///
/// `GET /shodan/alert/{alert_id}/info`.
pub fn get_alert_info_id(alert_id: &str, api_key: &str) -> (request: Request)
    ensures
        request@ == request_view(
            Method::Get,
            Host::Rest,
            seq!["shodan"@, "alert"@, alert_id@, "info"@],
            seq![("key"@, api_key@)],
            BodyView::Empty,
        ),
{
    let segments: Vec<&str> = vec!["shodan", "alert", alert_id, "info"];
    let pairs: Vec<(&str, &str)> = vec![("key", api_key)];
    proof {
        assert(texts(segments@) =~= seq!["shodan"@, "alert"@, alert_id@, "info"@]);
        assert(pair_texts(pairs@) =~= seq![("key"@, api_key@)]);
    }
    prepare(Method::Get, Host::Rest, &segments, &pairs, Body::Empty)
}

/// Removes the alert `alert_id`.
///
/// `DELETE /shodan/alert/{alert_id}`.
pub fn delete_alert(alert_id: &str, api_key: &str) -> (request: Request)
    ensures
        request@ == request_view(
            Method::Delete,
            Host::Rest,
            seq!["shodan"@, "alert"@, alert_id@],
            seq![("key"@, api_key@)],
            BodyView::Empty,
        ),
{
    let segments: Vec<&str> = vec!["shodan", "alert", alert_id];
    let pairs: Vec<(&str, &str)> = vec![("key", api_key)];
    proof {
        assert(texts(segments@) =~= seq!["shodan"@, "alert"@, alert_id@]);
        assert(pair_texts(pairs@) =~= seq![("key"@, api_key@)]);
    }
    prepare(Method::Delete, Host::Rest, &segments, &pairs, Body::Empty)
}

/// Replaces what the alert `alert_id` watches by the addresses and networks in
/// `ips`. Fails with an encoding error, and builds no request, where the body
/// cannot be serialized.
///
/// `POST /shodan/alert/{alert_id}`.
pub fn edit_alert(
    alert_id: &str,
    api_key: &str,
    ips: Vec<&str>,
) -> (result: Result<Request, ClientError>)
    ensures
        match json_text(alert_edit_doc(texts(ips@))) {
            Some(body) => result matches Ok(request) && request@ == request_view(
                Method::Post,
                Host::Rest,
                seq!["shodan"@, "alert"@, alert_id@],
                seq![("key"@, api_key@)],
                BodyView::Json(body),
            ),
            None => result == Err::<Request, ClientError>(ClientError::Encoding),
        },
{
    let segments: Vec<&str> = vec!["shodan", "alert", alert_id];
    let pairs: Vec<(&str, &str)> = vec![("key", api_key)];
    proof {
        assert(texts(segments@) =~= seq!["shodan"@, "alert"@, alert_id@]);
        assert(pair_texts(pairs@) =~= seq![("key"@, api_key@)]);
    }
    match json_body(alert_edit_json(&ips)) {
        Ok(body) => Ok(prepare(Method::Post, Host::Rest, &segments, &pairs, body)),
        Err(error) => Err(error),
    }
}

/// The alerts of the account.
///
/// `GET /shodan/alert/info`.
pub fn get_alert_info(api_key: &str) -> (request: Request)
    ensures
        request@ == request_view(
            Method::Get,
            Host::Rest,
            seq!["shodan"@, "alert"@, "info"@],
            seq![("key"@, api_key@)],
            BodyView::Empty,
        ),
{
    let segments: Vec<&str> = vec!["shodan", "alert", "info"];
    let pairs: Vec<(&str, &str)> = vec![("key", api_key)];
    proof {
        assert(texts(segments@) =~= seq!["shodan"@, "alert"@, "info"@]);
        assert(pair_texts(pairs@) =~= seq![("key"@, api_key@)]);
    }
    prepare(Method::Get, Host::Rest, &segments, &pairs, Body::Empty)
}

/// The triggers that an alert can have.
///
/// `GET /shodan/alert/triggers`.
pub fn get_alert_triggers(api_key: &str) -> (request: Request)
    ensures
        request@ == request_view(
            Method::Get,
            Host::Rest,
            seq!["shodan"@, "alert"@, "triggers"@],
            seq![("key"@, api_key@)],
            BodyView::Empty,
        ),
{
    let segments: Vec<&str> = vec!["shodan", "alert", "triggers"];
    let pairs: Vec<(&str, &str)> = vec![("key", api_key)];
    proof {
        assert(texts(segments@) =~= seq!["shodan"@, "alert"@, "triggers"@]);
        assert(pair_texts(pairs@) =~= seq![("key"@, api_key@)]);
    }
    prepare(Method::Get, Host::Rest, &segments, &pairs, Body::Empty)
}

/// Turns on the comma-separated triggers in `trigger` for the alert `alert_id`.
///
/// `PUT /shodan/alert/{alert_id}/trigger/{trigger}`.
pub fn add_trigger(alert_id: &str, trigger: &str, api_key: &str) -> (request: Request)
    ensures
        request@ == request_view(
            Method::Put,
            Host::Rest,
            seq!["shodan"@, "alert"@, alert_id@, "trigger"@, trigger@],
            seq![("key"@, api_key@)],
            BodyView::Empty,
        ),
{
    let segments: Vec<&str> = vec!["shodan", "alert", alert_id, "trigger", trigger];
    let pairs: Vec<(&str, &str)> = vec![("key", api_key)];
    proof {
        assert(texts(segments@) =~= seq!["shodan"@, "alert"@, alert_id@, "trigger"@, trigger@]);
        assert(pair_texts(pairs@) =~= seq![("key"@, api_key@)]);
    }
    prepare(Method::Put, Host::Rest, &segments, &pairs, Body::Empty)
}

/// Turns off the comma-separated triggers in `trigger` for the alert `alert_id`.
///
/// `DELETE /shodan/alert/{alert_id}/trigger/{trigger}`.
pub fn delete_trigger(alert_id: &str, trigger: &str, api_key: &str) -> (request: Request)
    ensures
        request@ == request_view(
            Method::Delete,
            Host::Rest,
            seq!["shodan"@, "alert"@, alert_id@, "trigger"@, trigger@],
            seq![("key"@, api_key@)],
            BodyView::Empty,
        ),
{
    let segments: Vec<&str> = vec!["shodan", "alert", alert_id, "trigger", trigger];
    let pairs: Vec<(&str, &str)> = vec![("key", api_key)];
    proof {
        assert(texts(segments@) =~= seq!["shodan"@, "alert"@, alert_id@, "trigger"@, trigger@]);
        assert(pair_texts(pairs@) =~= seq![("key"@, api_key@)]);
    }
    prepare(Method::Delete, Host::Rest, &segments, &pairs, Body::Empty)
}

/// Makes `trigger` of the alert `alert_id` pass over `service`, an address and a
/// port with `:` between them.
///
/// `PUT /shodan/alert/{alert_id}/trigger/{trigger}/ignore/{service}`.
pub fn add_whitelist(
    alert_id: &str,
    trigger: &str,
    service: &str,
    api_key: &str,
) -> (request: Request)
    ensures
        request@ == request_view(
            Method::Put,
            Host::Rest,
            seq!["shodan"@, "alert"@, alert_id@, "trigger"@, trigger@, "ignore"@, service@],
            seq![("key"@, api_key@)],
            BodyView::Empty,
        ),
{
    let segments: Vec<&str> = vec![
        "shodan",
        "alert",
        alert_id,
        "trigger",
        trigger,
        "ignore",
        service,
    ];
    let pairs: Vec<(&str, &str)> = vec![("key", api_key)];
    proof {
        assert(texts(segments@) =~= seq![
            "shodan"@,
            "alert"@,
            alert_id@,
            "trigger"@,
            trigger@,
            "ignore"@,
            service@,
        ]);
        assert(pair_texts(pairs@) =~= seq![("key"@, api_key@)]);
    }
    prepare(Method::Put, Host::Rest, &segments, &pairs, Body::Empty)
}

/// Makes `trigger` of the alert `alert_id` notice `service` again.
///
/// `DELETE /shodan/alert/{alert_id}/trigger/{trigger}/ignore/{service}`.
pub fn delete_whitelist(
    alert_id: &str,
    trigger: &str,
    service: &str,
    api_key: &str,
) -> (request: Request)
    ensures
        request@ == request_view(
            Method::Delete,
            Host::Rest,
            seq!["shodan"@, "alert"@, alert_id@, "trigger"@, trigger@, "ignore"@, service@],
            seq![("key"@, api_key@)],
            BodyView::Empty,
        ),
{
    let segments: Vec<&str> = vec![
        "shodan",
        "alert",
        alert_id,
        "trigger",
        trigger,
        "ignore",
        service,
    ];
    let pairs: Vec<(&str, &str)> = vec![("key", api_key)];
    proof {
        assert(texts(segments@) =~= seq![
            "shodan"@,
            "alert"@,
            alert_id@,
            "trigger"@,
            trigger@,
            "ignore"@,
            service@,
        ]);
        assert(pair_texts(pairs@) =~= seq![("key"@, api_key@)]);
    }
    prepare(Method::Delete, Host::Rest, &segments, &pairs, Body::Empty)
}

/// Lets the alert `alert_id` notify through the notifier `notifier_id`.
///
/// `PUT /shodan/alert/{alert_id}/notifier/{notifier_id}`.
pub fn add_notifier_alert(alert_id: &str, notifier_id: &str, api_key: &str) -> (request: Request)
    ensures
        request@ == request_view(
            Method::Put,
            Host::Rest,
            seq!["shodan"@, "alert"@, alert_id@, "notifier"@, notifier_id@],
            seq![("key"@, api_key@)],
            BodyView::Empty,
        ),
{
    let segments: Vec<&str> = vec!["shodan", "alert", alert_id, "notifier", notifier_id];
    let pairs: Vec<(&str, &str)> = vec![("key", api_key)];
    proof {
        assert(texts(segments@) =~= seq![
            "shodan"@,
            "alert"@,
            alert_id@,
            "notifier"@,
            notifier_id@,
        ]);
        assert(pair_texts(pairs@) =~= seq![("key"@, api_key@)]);
    }
    prepare(Method::Put, Host::Rest, &segments, &pairs, Body::Empty)
}

/// Stops the alert `alert_id` from notifying through the notifier `notifier_id`.
///
/// `DELETE /shodan/alert/{alert_id}/notifier/{notifier_id}`.
pub fn delete_notifier_alert(alert_id: &str, notifier_id: &str, api_key: &str) -> (request: Request)
    ensures
        request@ == request_view(
            Method::Delete,
            Host::Rest,
            seq!["shodan"@, "alert"@, alert_id@, "notifier"@, notifier_id@],
            seq![("key"@, api_key@)],
            BodyView::Empty,
        ),
{
    let segments: Vec<&str> = vec!["shodan", "alert", alert_id, "notifier", notifier_id];
    let pairs: Vec<(&str, &str)> = vec![("key", api_key)];
    proof {
        assert(texts(segments@) =~= seq![
            "shodan"@,
            "alert"@,
            alert_id@,
            "notifier"@,
            notifier_id@,
        ]);
        assert(pair_texts(pairs@) =~= seq![("key"@, api_key@)]);
    }
    prepare(Method::Delete, Host::Rest, &segments, &pairs, Body::Empty)
}

/// The notifiers that the user has created.
///
/// `GET /notifier`.
pub fn get_notifier(api_key: &str) -> (request: Request)
    ensures
        request@ == request_view(
            Method::Get,
            Host::Rest,
            seq!["notifier"@],
            seq![("key"@, api_key@)],
            BodyView::Empty,
        ),
{
    let segments: Vec<&str> = vec!["notifier"];
    let pairs: Vec<(&str, &str)> = vec![("key", api_key)];
    proof {
        assert(texts(segments@) =~= seq!["notifier"@]);
        assert(pair_texts(pairs@) =~= seq![("key"@, api_key@)]);
    }
    prepare(Method::Get, Host::Rest, &segments, &pairs, Body::Empty)
}

/// The providers of notifications, each with the arguments it asks for.
///
/// `GET /notifier/provider`.
pub fn get_notifier_provider(api_key: &str) -> (request: Request)
    ensures
        request@ == request_view(
            Method::Get,
            Host::Rest,
            seq!["notifier"@, "provider"@],
            seq![("key"@, api_key@)],
            BodyView::Empty,
        ),
{
    let segments: Vec<&str> = vec!["notifier", "provider"];
    let pairs: Vec<(&str, &str)> = vec![("key", api_key)];
    proof {
        assert(texts(segments@) =~= seq!["notifier"@, "provider"@]);
        assert(pair_texts(pairs@) =~= seq![("key"@, api_key@)]);
    }
    prepare(Method::Get, Host::Rest, &segments, &pairs, Body::Empty)
}

/// Creates a notifier of `provider`, described by `description`, with the
/// provider's `argument` set to `argument_value`.
///
/// `POST /notifier`.
pub fn create_notifier(
    api_key: &str,
    provider: &str,
    description: &str,
    argument: &str,
    argument_value: &str,
) -> (request: Request)
    ensures
        request@ == request_view(
            Method::Post,
            Host::Rest,
            seq!["notifier"@],
            seq![("key"@, api_key@)],
            BodyView::Form(
                form_text(
                    seq![
                        ("provider"@, provider@),
                        ("description"@, description@),
                        (argument@, argument_value@),
                    ],
                ),
            ),
        ),
{
    let segments: Vec<&str> = vec!["notifier"];
    let pairs: Vec<(&str, &str)> = vec![("key", api_key)];
    let fields: Vec<(&str, &str)> = vec![
        ("provider", provider),
        ("description", description),
        (argument, argument_value),
    ];
    proof {
        assert(texts(segments@) =~= seq!["notifier"@]);
        assert(pair_texts(pairs@) =~= seq![("key"@, api_key@)]);
        assert(pair_texts(fields@) =~= seq![
            ("provider"@, provider@),
            ("description"@, description@),
            (argument@, argument_value@),
        ]);
    }
    let body = Body::Form(form_body(&fields));
    prepare(Method::Post, Host::Rest, &segments, &pairs, body)
}

/// Removes the notifier `notifier_id`.
///
/// `DELETE /notifier/{notifier_id}`.
pub fn delete_notifier(notifier_id: &str, api_key: &str) -> (request: Request)
    ensures
        request@ == request_view(
            Method::Delete,
            Host::Rest,
            seq!["notifier"@, notifier_id@],
            seq![("key"@, api_key@)],
            BodyView::Empty,
        ),
{
    let segments: Vec<&str> = vec!["notifier", notifier_id];
    let pairs: Vec<(&str, &str)> = vec![("key", api_key)];
    proof {
        assert(texts(segments@) =~= seq!["notifier"@, notifier_id@]);
        assert(pair_texts(pairs@) =~= seq![("key"@, api_key@)]);
    }
    prepare(Method::Delete, Host::Rest, &segments, &pairs, Body::Empty)
}

/// The notifier `notifier_id`.
///
/// `GET /notifier/{notifier_id}`.
pub fn get_notifier_info(notifier_id: &str, api_key: &str) -> (request: Request)
    ensures
        request@ == request_view(
            Method::Get,
            Host::Rest,
            seq!["notifier"@, notifier_id@],
            seq![("key"@, api_key@)],
            BodyView::Empty,
        ),
{
    let segments: Vec<&str> = vec!["notifier", notifier_id];
    let pairs: Vec<(&str, &str)> = vec![("key", api_key)];
    proof {
        assert(texts(segments@) =~= seq!["notifier"@, notifier_id@]);
        assert(pair_texts(pairs@) =~= seq![("key"@, api_key@)]);
    }
    prepare(Method::Get, Host::Rest, &segments, &pairs, Body::Empty)
}

/// Sets `argument` of the notifier `notifier_id` to `argument_value`.
///
/// `PUT /notifier/{notifier_id}`.
pub fn edit_notifier(
    notifier_id: &str,
    api_key: &str,
    argument: &str,
    argument_value: &str,
) -> (request: Request)
    ensures
        request@ == request_view(
            Method::Put,
            Host::Rest,
            seq!["notifier"@, notifier_id@],
            seq![("key"@, api_key@)],
            BodyView::Form(form_text(seq![(argument@, argument_value@)])),
        ),
{
    let segments: Vec<&str> = vec!["notifier", notifier_id];
    let pairs: Vec<(&str, &str)> = vec![("key", api_key)];
    let fields: Vec<(&str, &str)> = vec![(argument, argument_value)];
    proof {
        assert(texts(segments@) =~= seq!["notifier"@, notifier_id@]);
        assert(pair_texts(pairs@) =~= seq![("key"@, api_key@)]);
        assert(pair_texts(fields@) =~= seq![(argument@, argument_value@)]);
    }
    let body = Body::Form(form_body(&fields));
    prepare(Method::Put, Host::Rest, &segments, &pairs, body)
}

/// The search queries that users have saved: page `page` of them, sorted by
/// `sort` in the order `order`.
///
/// `GET /shodan/query`.
pub fn get_query(page: &str, sort: &str, order: &str, api_key: &str) -> (request: Request)
    ensures
        request@ == request_view(
            Method::Get,
            Host::Rest,
            seq!["shodan"@, "query"@],
            seq![("page"@, page@), ("sort"@, sort@), ("order"@, order@), ("key"@, api_key@)],
            BodyView::Empty,
        ),
{
    let segments: Vec<&str> = vec!["shodan", "query"];
    let pairs: Vec<(&str, &str)> = vec![
        ("page", page),
        ("sort", sort),
        ("order", order),
        ("key", api_key),
    ];
    proof {
        assert(texts(segments@) =~= seq!["shodan"@, "query"@]);
        assert(pair_texts(pairs@) =~= seq![
            ("page"@, page@),
            ("sort"@, sort@),
            ("order"@, order@),
            ("key"@, api_key@),
        ]);
    }
    prepare(Method::Get, Host::Rest, &segments, &pairs, Body::Empty)
}

/// The saved search queries that match `query`: page `page` of them.
///
/// `GET /shodan/query/search`.
pub fn get_query_search(query: &str, page: &str, api_key: &str) -> (request: Request)
    ensures
        request@ == request_view(
            Method::Get,
            Host::Rest,
            seq!["shodan"@, "query"@, "search"@],
            seq![("query"@, query@), ("page"@, page@), ("key"@, api_key@)],
            BodyView::Empty,
        ),
{
    let segments: Vec<&str> = vec!["shodan", "query", "search"];
    let pairs: Vec<(&str, &str)> = vec![("query", query), ("page", page), ("key", api_key)];
    proof {
        assert(texts(segments@) =~= seq!["shodan"@, "query"@, "search"@]);
        assert(pair_texts(pairs@) =~= seq![
            ("query"@, query@),
            ("page"@, page@),
            ("key"@, api_key@),
        ]);
    }
    prepare(Method::Get, Host::Rest, &segments, &pairs, Body::Empty)
}

/// The `size` most used tags of the saved search queries.
///
/// `GET /shodan/query/tags`.
pub fn get_query_tags(size: &str, api_key: &str) -> (request: Request)
    ensures
        request@ == request_view(
            Method::Get,
            Host::Rest,
            seq!["shodan"@, "query"@, "tags"@],
            seq![("size"@, size@), ("key"@, api_key@)],
            BodyView::Empty,
        ),
{
    let segments: Vec<&str> = vec!["shodan", "query", "tags"];
    let pairs: Vec<(&str, &str)> = vec![("size", size), ("key", api_key)];
    proof {
        assert(texts(segments@) =~= seq!["shodan"@, "query"@, "tags"@]);
        assert(pair_texts(pairs@) =~= seq![("size"@, size@), ("key"@, api_key@)]);
    }
    prepare(Method::Get, Host::Rest, &segments, &pairs, Body::Empty)
}

/// The account that the key belongs to.
///
/// `GET /account/profile`.
pub fn get_account_profile(api_key: &str) -> (request: Request)
    ensures
        request@ == request_view(
            Method::Get,
            Host::Rest,
            seq!["account"@, "profile"@],
            seq![("key"@, api_key@)],
            BodyView::Empty,
        ),
{
    let segments: Vec<&str> = vec!["account", "profile"];
    let pairs: Vec<(&str, &str)> = vec![("key", api_key)];
    proof {
        assert(texts(segments@) =~= seq!["account"@, "profile"@]);
        assert(pair_texts(pairs@) =~= seq![("key"@, api_key@)]);
    }
    prepare(Method::Get, Host::Rest, &segments, &pairs, Body::Empty)
}

/// The subdomains and other DNS entries of `domain`: page `page` of those of type
/// `type_`, with past entries where `history` says so.
///
/// `GET /dns/domain/{domain}`.
pub fn get_dns_domain(
    domain: &str,
    history: &str,
    type_: &str,
    page: &str,
    api_key: &str,
) -> (request: Request)
    ensures
        request@ == request_view(
            Method::Get,
            Host::Rest,
            seq!["dns"@, "domain"@, domain@],
            seq![("history"@, history@), ("type"@, type_@), ("page"@, page@), ("key"@, api_key@)],
            BodyView::Empty,
        ),
{
    let segments: Vec<&str> = vec!["dns", "domain", domain];
    let pairs: Vec<(&str, &str)> = vec![
        ("history", history),
        ("type", type_),
        ("page", page),
        ("key", api_key),
    ];
    proof {
        assert(texts(segments@) =~= seq!["dns"@, "domain"@, domain@]);
        assert(pair_texts(pairs@) =~= seq![
            ("history"@, history@),
            ("type"@, type_@),
            ("page"@, page@),
            ("key"@, api_key@),
        ]);
    }
    prepare(Method::Get, Host::Rest, &segments, &pairs, Body::Empty)
}

/// The addresses of the comma-separated host names in `hostname`.
///
/// `GET /dns/resolve`.
pub fn get_dns_resolve(hostname: &str, api_key: &str) -> (request: Request)
    ensures
        request@ == request_view(
            Method::Get,
            Host::Rest,
            seq!["dns"@, "resolve"@],
            seq![("hostnames"@, hostname@), ("key"@, api_key@)],
            BodyView::Empty,
        ),
{
    let segments: Vec<&str> = vec!["dns", "resolve"];
    let pairs: Vec<(&str, &str)> = vec![("hostnames", hostname), ("key", api_key)];
    proof {
        assert(texts(segments@) =~= seq!["dns"@, "resolve"@]);
        assert(pair_texts(pairs@) =~= seq![("hostnames"@, hostname@), ("key"@, api_key@)]);
    }
    prepare(Method::Get, Host::Rest, &segments, &pairs, Body::Empty)
}

/// The host names of the comma-separated addresses in `ips`.
///
/// `GET /dns/reverse`.
pub fn get_dns_reverse(ips: &str, api_key: &str) -> (request: Request)
    ensures
        request@ == request_view(
            Method::Get,
            Host::Rest,
            seq!["dns"@, "reverse"@],
            seq![("ips"@, ips@), ("key"@, api_key@)],
            BodyView::Empty,
        ),
{
    let segments: Vec<&str> = vec!["dns", "reverse"];
    let pairs: Vec<(&str, &str)> = vec![("ips", ips), ("key", api_key)];
    proof {
        assert(texts(segments@) =~= seq!["dns"@, "reverse"@]);
        assert(pair_texts(pairs@) =~= seq![("ips"@, ips@), ("key"@, api_key@)]);
    }
    prepare(Method::Get, Host::Rest, &segments, &pairs, Body::Empty)
}

/// The HTTP headers that the client sends.
///
/// `GET /tools/httpheaders`.
pub fn get_tools_headers(api_key: &str) -> (request: Request)
    ensures
        request@ == request_view(
            Method::Get,
            Host::Rest,
            seq!["tools"@, "httpheaders"@],
            seq![("key"@, api_key@)],
            BodyView::Empty,
        ),
{
    let segments: Vec<&str> = vec!["tools", "httpheaders"];
    let pairs: Vec<(&str, &str)> = vec![("key", api_key)];
    proof {
        assert(texts(segments@) =~= seq!["tools"@, "httpheaders"@]);
        assert(pair_texts(pairs@) =~= seq![("key"@, api_key@)]);
    }
    prepare(Method::Get, Host::Rest, &segments, &pairs, Body::Empty)
}

/// The address of the client as the Internet sees it.
///
/// `GET /tools/myip`.
pub fn get_tools_myip(api_key: &str) -> (request: Request)
    ensures
        request@ == request_view(
            Method::Get,
            Host::Rest,
            seq!["tools"@, "myip"@],
            seq![("key"@, api_key@)],
            BodyView::Empty,
        ),
{
    let segments: Vec<&str> = vec!["tools", "myip"];
    let pairs: Vec<(&str, &str)> = vec![("key", api_key)];
    proof {
        assert(texts(segments@) =~= seq!["tools"@, "myip"@]);
        assert(pair_texts(pairs@) =~= seq![("key"@, api_key@)]);
    }
    prepare(Method::Get, Host::Rest, &segments, &pairs, Body::Empty)
}

/// The plan that the key belongs to.
///
/// `GET /api-info`.
pub fn get_api_info(api_key: &str) -> (request: Request)
    ensures
        request@ == request_view(
            Method::Get,
            Host::Rest,
            seq!["api-info"@],
            seq![("key"@, api_key@)],
            BodyView::Empty,
        ),
{
    let segments: Vec<&str> = vec!["api-info"];
    let pairs: Vec<(&str, &str)> = vec![("key", api_key)];
    proof {
        assert(texts(segments@) =~= seq!["api-info"@]);
        assert(pair_texts(pairs@) =~= seq![("key"@, api_key@)]);
    }
    prepare(Method::Get, Host::Rest, &segments, &pairs, Body::Empty)
}

/// Subscribes to what is found in the networks of all alerts. The answer is a
/// stream that does not end, so the request has no timeout.
///
/// `GET /shodan/alert` of the streaming service.
pub fn get_all_network_alerts(api_key: &str) -> (request: Request)
    ensures
        request@ == request_view(
            Method::Get,
            Host::Stream,
            seq!["shodan"@, "alert"@],
            seq![("key"@, api_key@)],
            BodyView::Empty,
        ),
{
    let segments: Vec<&str> = vec!["shodan", "alert"];
    let pairs: Vec<(&str, &str)> = vec![("key", api_key)];
    proof {
        assert(texts(segments@) =~= seq!["shodan"@, "alert"@]);
        assert(pair_texts(pairs@) =~= seq![("key"@, api_key@)]);
    }
    prepare(Method::Get, Host::Stream, &segments, &pairs, Body::Empty)
}

/// Subscribes to what is found in the networks of the alert `alert_id`. The
/// answer is a stream that does not end, so the request has no timeout.
///
/// `GET /shodan/alert/{alert_id}` of the streaming service.
pub fn get_all_network_alert_for_alert_id(alert_id: &str, api_key: &str) -> (request: Request)
    ensures
        request@ == request_view(
            Method::Get,
            Host::Stream,
            seq!["shodan"@, "alert"@, alert_id@],
            seq![("key"@, api_key@)],
            BodyView::Empty,
        ),
{
    let segments: Vec<&str> = vec!["shodan", "alert", alert_id];
    let pairs: Vec<(&str, &str)> = vec![("key", api_key)];
    proof {
        assert(texts(segments@) =~= seq!["shodan"@, "alert"@, alert_id@]);
        assert(pair_texts(pairs@) =~= seq![("key"@, api_key@)]);
    }
    prepare(Method::Get, Host::Stream, &segments, &pairs, Body::Empty)
}

} // verus!
