//! The pages that the exporter serves.
use crate::state::ExporterState;
use vstd::prelude::*;

verus! {

use crate::state::StateView;

/// The content type of the metrics.
pub const METRICS_CONTENT_TYPE: &'static str = "text/plain; version=0.0.4; charset=utf-8";

/// A page: the HTTP status and the text.
#[derive(Debug)]
pub struct Page {
    pub status: u16,
    pub body: String,
}

/// What a [`Page`] says.
pub ghost struct PageView {
    pub status: u16,
    pub body: Seq<char>,
}

impl View for Page {
    type V = PageView;

    open spec fn view(&self) -> PageView {
        PageView { status: self.status, body: self.body@ }
    }
}

/// The health check: all is well once the cache has been in step with the API.
pub open spec fn health_of(state: StateView) -> PageView {
    if state.last_successful_sync_timestamp is Some {
        PageView { status: 200, body: "ok\n"@ }
    } else {
        PageView {
            status: 503,
            body: "waiting for first successful Gardena sync"@ + (match state.last_error {
                Some(error) => ": "@ + error,
                None => ""@,
            }) + "\n"@,
        }
    }
}

/// Answers the health check.
pub fn health_page(state: &ExporterState) -> (page: Page)
    ensures
        page@ == health_of(state@),
        page.status == if state.last_successful_sync_timestamp is Some {
            200u16
        } else {
            503u16
        },
        state.last_successful_sync_timestamp is Some ==> page.body@ == "ok\n"@,
        state.last_successful_sync_timestamp is None ==> match state.last_error {
            Some(error) => page.body@ == "waiting for first successful Gardena sync"@ + (": "@
                + error@) + "\n"@,
            None => page.body@ == "waiting for first successful Gardena sync"@ + "\n"@,
        },
{
    if state.last_successful_sync_timestamp.is_some() {
        Page { status: 200, body: "ok\n".to_owned() }
    } else {
        let detail = match &state.last_error {
            Some(error) => ": ".to_owned().concat(error.as_str()),
            None => "".to_owned(),
        };
        let body = "waiting for first successful Gardena sync".to_owned().concat(
            detail.as_str(),
        ).concat("\n");
        proof {
            reveal_strlit("");
            assert("waiting for first successful Gardena sync"@ + ""@
                =~= "waiting for first successful Gardena sync"@);
        }
        Page { status: 503, body }
    }
}

/// A truth value in words.
pub open spec fn truth(value: bool) -> Seq<char> {
    if value {
        "true"@
    } else {
        "false"@
    }
}

/// The status page.
pub open spec fn index_of(state: StateView) -> PageView {
    PageView {
        status: 200,
        body: "prometheus-gardena-exporter\nlocation: "@ + (match state.location_name {
            Some(name) => name,
            None => "not yet selected"@,
        }) + "\nconnected: "@ + truth(state.connected)
            + "\nmetrics: /metrics\nhealth: /healthz\n"@,
    }
}

/// Answers a request for the status page.
pub fn index_page(state: &ExporterState) -> (page: Page)
    ensures
        page@ == index_of(state@),
        page.status == 200,
        page.body@ == "prometheus-gardena-exporter\nlocation: "@ + (match state.location_name {
            Some(name) => name@,
            None => "not yet selected"@,
        }) + "\nconnected: "@ + (if state.connected {
            "true"@
        } else {
            "false"@
        }) + "\nmetrics: /metrics\nhealth: /healthz\n"@,
{
    let location = match &state.location_name {
        Some(name) => name.as_str(),
        None => "not yet selected",
    };
    let connected = if state.connected {
        "true"
    } else {
        "false"
    };
    let body = "prometheus-gardena-exporter\nlocation: ".to_owned().concat(location).concat(
        "\nconnected: ",
    ).concat(connected).concat("\nmetrics: /metrics\nhealth: /healthz\n");
    Page { status: 200, body }
}

/// The page in place of metrics that could not be rendered.
pub open spec fn unrendered_of(error: Seq<char>) -> PageView {
    PageView { status: 500, body: "failed to render metrics: "@ + error + "\n"@ }
}

/// Answers a request for metrics that could not be rendered.
pub fn unrendered_page(error: &str) -> (page: Page)
    ensures
        page@ == unrendered_of(error@),
        page.status == 500,
        page.body@ == "failed to render metrics: "@ + error@ + "\n"@,
{
    let body = "failed to render metrics: ".to_owned().concat(error).concat("\n");
    Page { status: 500, body }
}

/// The exporter is healthy from the first snapshot or event on.
pub proof fn healthy_once_in_step(state: StateView)
    ensures
        health_of(state).status == 200 <==> state.last_successful_sync_timestamp is Some,
        health_of(StateView::fresh()).status == 503,
{
}

/// Metrics are served as the text format of Prometheus.
pub proof fn metrics_are_plain_text()
    ensures
        METRICS_CONTENT_TYPE@ == "text/plain; version=0.0.4; charset=utf-8"@,
{
}

/// What a [`Page`] says of each of its parts is what the field holds.
pub proof fn pages_say_what_they_hold(page: Page)
    ensures
        page@.status == page.status,
        page@.body == page.body@,
{
}

}
