use std::time::Duration;

use adp_config::remote_config::client::RcClientConfiguration;
use adp_config::remote_config::error::{ApplyError, AsApplyError};
use adp_config::remote_config::decoder::{
    conclude, evaluate, panicked_evaluation, sort_by_id, Outcome, ProductDecoder,
};
use adp_config::remote_config::product::{ConfigId, ProductId};
use adp_config::remote_config::subscription::Subscription;
use adp_config::remote_config::testing::{has_duplicate_ids, TestPublisher};

#[derive(Debug)]
enum SemanticCoreError {
    UnknownConfiguration { id: String },
    MalformedConfiguration { id: String },
    MissingAttributes,
}

impl SemanticCoreError {
    fn message(&self) -> String {
        match self {
            SemanticCoreError::UnknownConfiguration { id } => {
                format!("Configuration {} is not one this product knows.", id)
            }
            SemanticCoreError::MalformedConfiguration { id } => format!("Configuration {} is not valid JSON.", id),
            SemanticCoreError::MissingAttributes => "No attribute mappings were assigned.".to_string(),
        }
    }
}

impl AsApplyError for SemanticCoreError {
    fn as_apply_error(&self) -> ApplyError {
        ApplyError::new(&self.message())
    }
}

#[test]
fn converts_structured_error_to_apply_error() {
    let error = SemanticCoreError::MissingAttributes;

    assert_eq!(error.as_apply_error().to_string(), "No attribute mappings were assigned.");
}

#[test]
fn settings_default_to_the_upstream_poll_schedule() {
    let config = RcClientConfiguration::default();

    assert_eq!(Duration::from_secs(5), config.poll_interval);
    assert_eq!(Duration::from_secs(90), config.max_backoff);
}

#[test]
fn config_id_derefs_to_str_for_matching() {
    let config_id = ConfigId::new("semantic.v1");

    assert!(matches!(&*config_id, "semantic.v1"));
    assert_eq!("semantic.v1", config_id.to_string());
}

#[test]
fn config_ids_order_ascending_by_id() {
    let mut ids = [ConfigId::new("registry.v3"), ConfigId::new("registry.v1"), ConfigId::new("registry.v2")];
    ids.sort();

    let sorted: Vec<&str> = ids.iter().map(|id| &**id).collect();
    assert_eq!(vec!["registry.v1", "registry.v2", "registry.v3"], sorted);
}

#[test]
fn product_id_impls_as_ref_str() {
    let product_id = ProductId::ApmSemanticCoreDd;
    let expected = "APM_SEMANTIC_CORE_DD";
    assert_eq!(expected, product_id.as_ref());
}

#[test]
fn apply_error_preserves_message() {
    for message in ["Required configuration is missing.", "", "  details\nwith whitespace  "] {
        let error = ApplyError::new(message);
        let owned_error = ApplyError::new(&message.to_string());

        assert_eq!(error.to_string(), message);
        assert_eq!(owned_error.to_string(), message);
        assert_eq!(error.clone().to_string(), message);
        assert_eq!(error.as_apply_error().to_string(), message);
    }
}

#[test]
fn unknown_configuration_message_names_the_id() {
    let error = SemanticCoreError::UnknownConfiguration { id: "unknown.v1".to_string() };
    assert_eq!(
        error.as_apply_error().to_string(),
        "Configuration unknown.v1 is not one this product knows."
    );
}

// A product whose configuration IDs are known in advance and each carry a different schema.
struct SemanticCore {
    attributes: serde_json::Value,
    metrics: Option<serde_json::Value>,
}

#[derive(Default)]
struct SemanticCoreDecoder {
    attributes: Option<serde_json::Value>,
    metrics: Option<serde_json::Value>,
}

fn from_json(id: &ConfigId, payload: &[u8]) -> Result<serde_json::Value, SemanticCoreError> {
    serde_json::from_slice(payload).map_err(|_| SemanticCoreError::MalformedConfiguration { id: id.to_string() })
}

impl ProductDecoder for SemanticCoreDecoder {
    type Snapshot = SemanticCore;
    type Error = SemanticCoreError;

    fn decode(&mut self, id: &ConfigId, payload: &[u8]) -> Result<(), Self::Error> {
        match &**id {
            "attributes.v1" => self.attributes = Some(from_json(id, payload)?),
            "metrics.v1" => self.metrics = Some(from_json(id, payload)?),
            _ => return Err(SemanticCoreError::UnknownConfiguration { id: id.to_string() }),
        }
        Ok(())
    }

    fn build(self) -> Result<Self::Snapshot, Self::Error> {
        let attributes = self.attributes.ok_or(SemanticCoreError::MissingAttributes)?;
        Ok(SemanticCore { attributes, metrics: self.metrics })
    }
}

// A product assigned any number of configurations of one schema, keeping the last valid one.
#[derive(Default)]
struct LastValidRegistry {
    chosen: Option<serde_json::Value>,
}

impl ProductDecoder for LastValidRegistry {
    type Snapshot = serde_json::Value;
    type Error = ApplyError;

    fn decode(&mut self, _id: &ConfigId, payload: &[u8]) -> Result<(), Self::Error> {
        self.chosen = Some(
            serde_json::from_slice(payload).map_err(|_| ApplyError::new("Registry configuration is not valid JSON."))?,
        );
        Ok(())
    }

    fn build(self) -> Result<Self::Snapshot, Self::Error> {
        self.chosen.ok_or_else(|| ApplyError::new("No registry configuration was assigned."))
    }
}

fn accepted<T, E>(changed: Option<Result<std::sync::Arc<T>, std::sync::Arc<E>>>) -> std::sync::Arc<T> {
    match changed {
        Some(Ok(snapshot)) => snapshot,
        _ => panic!("expected an accepted snapshot"),
    }
}

#[test]
fn decodes_configurations_of_differing_shapes() {
    let (mut publisher, mut subscription) = TestPublisher::<SemanticCore, SemanticCoreError>::new();
    assert!(subscription.current(publisher.state()).is_none());

    publisher.assign::<SemanticCoreDecoder>(vec![
        ("metrics.v1", br#"{"drop":["runtime.jvm.gc.count"]}"#.as_slice()),
        ("attributes.v1", br#"{"rename":{"http.host":"server.address"}}"#.as_slice()),
    ]);
    let current = subscription.current(publisher.state()).expect("should publish");
    let snapshot = accepted(subscription.changed(publisher.state()));
    assert!(std::sync::Arc::ptr_eq(&current, &snapshot));

    assert_eq!(snapshot.attributes["rename"]["http.host"], "server.address");
    assert_eq!(snapshot.metrics.as_ref().expect("should decode metrics")["drop"][0], "runtime.jvm.gc.count");
    assert!(subscription.changed(publisher.state()).is_none());
}

#[test]
fn rejects_one_configuration_and_keeps_the_rest() {
    let (mut publisher, mut subscription) = TestPublisher::<SemanticCore, SemanticCoreError>::new();
    publisher.assign::<SemanticCoreDecoder>(vec![
        ("attributes.v1", br#"{"rename":{"http.host":"server.address"}}"#.as_slice()),
        ("metrics.v1", b"{".as_slice()),
    ]);
    let snapshot = accepted(subscription.changed(publisher.state()));
    assert!(snapshot.attributes["rename"].get("http.host").is_some());
    assert!(snapshot.metrics.is_none());

    let evaluated = evaluate::<SemanticCoreDecoder>(vec![
        (ConfigId::new("metrics.v1"), b"{".to_vec()),
        (ConfigId::new("attributes.v1"), br#"{"rename":{}}"#.to_vec()),
    ]);
    assert!(matches!(evaluated.outcome, Outcome::Accepted(_)));
    assert_eq!(evaluated.verdicts[0].0.to_string(), "attributes.v1");
    assert!(evaluated.verdicts[0].1.is_none());
    assert_eq!(evaluated.verdicts[1].0.to_string(), "metrics.v1");
    assert!(evaluated.verdicts[1].1.as_ref().unwrap().contains("metrics.v1"));
}

#[test]
fn rejects_a_snapshot_missing_a_required_configuration() {
    let (mut publisher, mut subscription) = TestPublisher::<SemanticCore, SemanticCoreError>::new();
    publisher.assign::<SemanticCoreDecoder>(vec![("metrics.v1", br#"{"drop":[]}"#.as_slice())]);

    assert!(matches!(
        subscription.changed(publisher.state()),
        Some(Err(error)) if matches!(&*error, SemanticCoreError::MissingAttributes)
    ));
    assert!(subscription.current(publisher.state()).is_none());

    let evaluated = evaluate::<SemanticCoreDecoder>(vec![
        (ConfigId::new("metrics.v1"), br#"{"drop":[]}"#.to_vec()),
        (ConfigId::new("unknown.v1"), b"{}".to_vec()),
    ]);
    assert!(matches!(evaluated.outcome, Outcome::Rejected(SemanticCoreError::MissingAttributes)));
    assert_eq!(evaluated.verdicts[0].1.as_deref(), Some("No attribute mappings were assigned."));
    assert_eq!(
        evaluated.verdicts[1].1.as_deref(),
        Some("Configuration unknown.v1 is not one this product knows.")
    );
}

#[test]
fn rejects_an_empty_assignment_when_configuration_is_required() {
    let (mut publisher, mut subscription) = TestPublisher::<SemanticCore, SemanticCoreError>::new();
    publisher.assign::<SemanticCoreDecoder>(vec![("attributes.v1", br#"{"rename":{}}"#.as_slice())]);
    let first = accepted(subscription.changed(publisher.state()));

    publisher.assign::<SemanticCoreDecoder>(Vec::new());
    assert!(matches!(
        subscription.changed(publisher.state()),
        Some(Err(error)) if matches!(&*error, SemanticCoreError::MissingAttributes)
    ));
    assert!(std::sync::Arc::ptr_eq(&first, &subscription.current(publisher.state()).unwrap()));

    let evaluated = evaluate::<SemanticCoreDecoder>(vec![]);
    assert!(matches!(evaluated.outcome, Outcome::Rejected(SemanticCoreError::MissingAttributes)));
    assert!(evaluated.verdicts.is_empty());
}

#[test]
fn reduces_configurations_of_one_shape_in_ascending_order() {
    let (mut publisher, mut subscription) = TestPublisher::<serde_json::Value, ApplyError>::new();
    publisher.assign::<LastValidRegistry>(vec![
        ("registry.v3", br#"{"rename":{"host":"host.name"}}"#.as_slice()),
        ("registry.v1", br#"{"rename":{}}"#.as_slice()),
        ("registry.v2", b"{".as_slice()),
    ]);
    let snapshot = accepted(subscription.changed(publisher.state()));
    assert_eq!(snapshot["rename"]["host"], "host.name");
}

#[test]
fn panics_reject_every_configuration_without_publishing() {
    let ids = vec![ConfigId::new("first"), ConfigId::new("second")];
    let evaluated = panicked_evaluation::<(), ApplyError>(&ids);
    assert!(matches!(evaluated.outcome, Outcome::Panicked));
    assert_eq!(evaluated.verdicts.len(), 2);
    assert!(evaluated.verdicts.iter().all(|(_, reason)| reason.as_deref() == Some("Product decoder panicked.")));

    let (mut publisher, mut subscription) = TestPublisher::<(), ApplyError>::new();
    publisher.accept(());
    let first = accepted(subscription.changed(publisher.state()));
    publisher.publish(evaluated.outcome);
    assert!(subscription.changed(publisher.state()).is_none());
    assert!(std::sync::Arc::ptr_eq(&first, &subscription.current(publisher.state()).unwrap()));
}

#[test]
fn clones_observe_latest_state() {
    let (mut publisher, mut subscription) = TestPublisher::<u32, ApplyError>::new();
    let mut clone: Subscription<u32, ApplyError> = subscription.clone();
    publisher.accept(1);
    publisher.accept(2);
    assert_eq!(*accepted(subscription.changed(publisher.state())), 2);
    assert_eq!(*accepted(clone.changed(publisher.state())), 2);

    publisher.reject(ApplyError::new("invalid"));
    match subscription.changed(publisher.state()) {
        Some(Err(error)) => assert_eq!(error.to_string(), "invalid"),
        _ => panic!("expected the rejection"),
    }
    match clone.changed(publisher.state()) {
        Some(Err(error)) => assert_eq!(error.to_string(), "invalid"),
        _ => panic!("expected the rejection"),
    }
    assert_eq!(*subscription.current(publisher.state()).unwrap(), 2);
    assert_eq!(*clone.current(publisher.state()).unwrap(), 2);
    assert!(subscription.changed(publisher.state()).is_none());
}

#[test]
fn duplicate_ids_are_detected() {
    assert!(has_duplicate_ids(&vec![("same", b"{}".as_slice()), ("same", b"{}".as_slice())]));
    assert!(!has_duplicate_ids(&vec![("a", b"{}".as_slice()), ("b", b"{}".as_slice())]));
}

#[test]
fn assignments_are_sorted_by_id() {
    let sorted = sort_by_id(vec![
        (ConfigId::new("b"), vec![2]),
        (ConfigId::new("a"), vec![1]),
        (ConfigId::new("c"), vec![3]),
    ]);
    let ids: Vec<String> = sorted.iter().map(|(id, _)| id.to_string()).collect();
    assert_eq!(ids, vec!["a", "b", "c"]);
    assert_eq!(sorted[0].1, vec![1]);
}

#[test]
fn conclude_rejects_decoded_configurations_with_the_build_reason() {
    let ids = vec![ConfigId::new("a.v1"), ConfigId::new("b.v1"), ConfigId::new("c.v1")];
    let decoded: Vec<Result<(), ApplyError>> = vec![Ok(()), Err(ApplyError::new("b is malformed")), Ok(())];
    let built: Result<u8, ApplyError> = Err(ApplyError::new("a required configuration is missing"));

    let evaluated = conclude(&ids, &decoded, built);

    assert!(matches!(&evaluated.outcome, Outcome::Rejected(e) if e.to_string() == "a required configuration is missing"));
    let verdicts: Vec<(String, Option<String>)> =
        evaluated.verdicts.iter().map(|(id, reason)| (id.to_string(), reason.clone())).collect();
    assert_eq!(
        verdicts,
        vec![
            ("a.v1".to_string(), Some("a required configuration is missing".to_string())),
            ("b.v1".to_string(), Some("b is malformed".to_string())),
            ("c.v1".to_string(), Some("a required configuration is missing".to_string())),
        ]
    );
}

#[test]
fn conclude_keeps_only_decode_rejections_when_the_build_succeeds() {
    let ids = vec![ConfigId::new("a.v1"), ConfigId::new("b.v1")];
    let decoded: Vec<Result<(), String>> = vec![Err("a is malformed".to_string()), Ok(())];

    let evaluated = conclude(&ids, &decoded, Ok::<u8, String>(7));

    assert!(matches!(evaluated.outcome, Outcome::Accepted(7)));
    assert_eq!(evaluated.verdicts[0].1.as_deref(), Some("a is malformed"));
    assert!(evaluated.verdicts[1].1.is_none());
}

#[test]
fn conclude_with_no_configurations_follows_the_build() {
    let evaluated = conclude(&Vec::new(), &Vec::<Result<(), String>>::new(), Err::<u8, String>("empty".to_string()));

    assert!(matches!(&evaluated.outcome, Outcome::Rejected(e) if e == "empty"));
    assert!(evaluated.verdicts.is_empty());
}
