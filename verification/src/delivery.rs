//! Delivery of a cycle's events: where the batch goes, and what the answer means.
//!
//! The batch travels as one HTTP POST to the events resource of a fixed bucket. The request
//! itself is made outside this library, which plans it and judges its outcome. Delivery is
//! never retried here: a batch that fails is lost, and the next cycle brings fresh events.

use vstd::prelude::*;
use crate::config::Config;
use crate::decimal::{decimal, decimal_digits};
use crate::error::{PipelineError, PipelineErrorView};
use crate::event::TelemetryEvent;

verus! {

/// The bucket that holds this producer's events at the collection service.
pub open spec fn bucket_id() -> Seq<char> {
    "aw-watcher-screenshot_Razerator"@
}

/// The bucket that holds this producer's events at the collection service.
pub fn screenshot_bucket() -> (bucket: &'static str)
    ensures
        bucket@ == bucket_id(),
{
    "aw-watcher-screenshot_Razerator"
}

/// The URL of a bucket's events resource: `http://{server}:{port}/api/0/buckets/{bucket}/events`.
pub open spec fn events_url_of(server: Seq<char>, port: u16, bucket: Seq<char>) -> Seq<char> {
    "http://"@ + server + ":"@ + decimal_digits(port as nat) + "/api/0/buckets/"@ + bucket
        + "/events"@
}

/// The URL to which the events of bucket `bucket_id` are posted.
pub fn events_url(server: &str, port: u16, bucket_id: &str) -> (url: String)
    ensures
        url@ == events_url_of(server@, port, bucket_id@),
{
    let mut url = String::from_str("http://");
    url.append(server);
    url.append(":");
    url.append(decimal(port as u64).as_str());
    url.append("/api/0/buckets/");
    url.append(bucket_id);
    url.append("/events");
    url
}

/// One POST: the batch, where it goes, and the credential to attach to it.
#[derive(Clone, Debug, PartialEq, Eq)]
pub struct DeliveryRequest {
    pub url: String,
    pub auth_token: Option<String>,
    pub events: Vec<TelemetryEvent>,
}

/// Plans the delivery of a cycle's events as one batch to the screenshot bucket of the
/// configured service. A cycle without events is not delivered at all.
pub fn plan_delivery(config: &Config, events: Vec<TelemetryEvent>) -> (request: Option<
    DeliveryRequest,
>)
    ensures
        events@.len() == 0 ==> request is None,
        events@.len() > 0 ==> (request matches Some(planned) && planned.events == events
            && planned.url@ == events_url_of(config.server@, config.port, bucket_id())
            && planned.auth_token == config.auth_token),
{
    if events.len() == 0 {
        None
    } else {
        Some(
            DeliveryRequest {
                url: events_url(config.server.as_str(), config.port, screenshot_bucket()),
                auth_token: config.auth_token.clone(),
                events,
            },
        )
    }
}

/// How a POST ended: with an answer of the service, or without one.
#[derive(Clone, Debug, PartialEq, Eq)]
pub enum TransportOutcome {
    Responded { status: u16 },
    Failed { detail: String },
}

/// Whether an HTTP status acknowledges the batch: the statuses from 200 to 299 do.
pub open spec fn is_success(status: u16) -> bool {
    200 <= status < 300
}

/// What the outcome of a POST means for the batch: accepted as a whole, or not at all.
pub open spec fn delivery_result_of(outcome: TransportOutcome) -> Result<(), PipelineErrorView> {
    match outcome {
        TransportOutcome::Responded { status } => if is_success(status) {
            Ok(())
        } else {
            Err(PipelineErrorView::Remote { status })
        },
        TransportOutcome::Failed { detail } => Err(
            PipelineErrorView::Transport { detail: detail@ },
        ),
    }
}

/// A delivery result as contracts see it.
pub open spec fn delivery_view(result: Result<(), PipelineError>) -> Result<(), PipelineErrorView> {
    match result {
        Ok(()) => Ok(()),
        Err(error) => Err(error@),
    }
}

/// Judges the outcome of a POST. The batch is delivered when the service answers with a
/// status from 200 to 299. Any other status is a `Remote` failure that keeps the status; no
/// answer at all is a `Transport` failure that keeps the detail.
pub fn delivery_result(outcome: TransportOutcome) -> (result: Result<(), PipelineError>)
    ensures
        delivery_view(result) == delivery_result_of(outcome),
{
    match outcome {
        TransportOutcome::Responded { status } => {
            if 200 <= status && status < 300 {
                Ok(())
            } else {
                Err(PipelineError::Remote { status })
            }
        },
        TransportOutcome::Failed { detail } => Err(PipelineError::Transport { detail }),
    }
}

} // verus!
