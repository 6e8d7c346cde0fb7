//! Metrics exposition gate: either a real Prometheus-backed provider or a
//! no-op one that always reports the feature as unavailable.

use vstd::prelude::*;

use crate::response::{header_is, ApiError, HttpResponse};

verus! {

/// Declares opentelemetry_prometheus::PrometheusExporter so values of it can
/// be held in the metrics capability and handed to the snapshot call; the
/// type stays opaque.
#[verifier::external_type_specification]
#[verifier::external_body]
pub struct ExPrometheusExporter(opentelemetry_prometheus::PrometheusExporter);

/// Capability for metrics exposition, selected at startup: a build without
/// metrics support holds `Disabled`.
pub enum MetricsProvider {
    Disabled,
    Prometheus(opentelemetry_prometheus::PrometheusExporter),
}

/// Relies on opentelemetry_prometheus::PrometheusExporter::registry,
/// prometheus::Registry::gather and prometheus::TextEncoder::encode_to_string:
/// takes one atomic snapshot of the exporter's registry and serializes it in
/// the Prometheus text exposition format, without mutating any counter. The
/// result depends on the registry's current contents, so nothing is promised
/// of it.
#[verifier::external_body]
fn snapshot_metrics_text(exporter: &opentelemetry_prometheus::PrometheusExporter) -> Result<
    String,
    (),
> {
    let families = exporter.registry().gather();
    match prometheus::TextEncoder::new().encode_to_string(&families) {
        Ok(text) => Ok(text),
        Err(_) => Err(()),
    }
}

/// Answers `GET /metrics`: a client error on a build without metrics support,
/// regardless of anything else; otherwise one snapshot of the registry in
/// text exposition format, or an internal error if serialization fails.
pub fn handle_metrics(provider: &MetricsProvider) -> (r: Result<HttpResponse, ApiError>)
    ensures
        provider is Disabled ==> (r matches Err(e) && e matches ApiError::BadRequest(m) && m@
            == "Garage was built without the metrics feature"@),
        provider is Prometheus ==> ((r matches Ok(resp) && resp.status == 200
            && resp.headers@.len() == 1 && header_is(
            resp.headers@[0],
            "Content-Type"@,
            "text/plain; version=0.0.4"@,
        )) || (r matches Err(e) && e matches ApiError::InternalError(m) && m@
            == "Could not serialize metrics"@)),
{
    match provider {
        MetricsProvider::Disabled => Err(
            ApiError::BadRequest(String::from_str("Garage was built without the metrics feature")),
        ),
        MetricsProvider::Prometheus(exporter) => match snapshot_metrics_text(exporter) {
            Ok(text) => {
                let mut headers: Vec<(String, String)> = Vec::new();
                headers.push(
                    (
                        String::from_str("Content-Type"),
                        String::from_str("text/plain; version=0.0.4"),
                    ),
                );
                Ok(HttpResponse { status: 200, headers, body: text })
            },
            Err(_) => Err(ApiError::InternalError(String::from_str("Could not serialize metrics"))),
        },
    }
}

} // verus!
