use agenomic::{
    alert_direction, recommended_sample_size, DriftDirection, FingerprintSchema, MetricId, MetricKind, MetricSpec,
    CONSERVATIVE_UNBOUNDED_KN,
};

fn spec(id: &str, kind: MetricKind) -> MetricSpec {
    MetricSpec { id: MetricId::new(id), kind, higher_is_better: true, description: String::new() }
}

fn schema() -> FingerprintSchema {
    FingerprintSchema {
        schema_id: "demo-v1".into(),
        version: 1,
        metrics: vec![
            spec("accuracy", MetricKind::Bounded01),
            spec("latency", MetricKind::Latency),
            spec("cost", MetricKind::Cost),
            spec("accuracy", MetricKind::Unbounded),
        ],
    }
}

#[test]
fn metric_id_new_holds_text() {
    let id = MetricId::new("accuracy");
    assert_eq!(id.0, "accuracy");
    assert_eq!(id.duplicate(), id);
}

#[test]
fn schema_dimension_counts_metrics() {
    assert_eq!(schema().dimension(), 4);
    let one = FingerprintSchema {
        schema_id: "demo-v1".into(),
        version: 1,
        metrics: vec![spec("accuracy", MetricKind::Bounded01)],
    };
    assert_eq!(one.dimension(), 1);
}

#[test]
fn index_of_finds_first_position() {
    let s = schema();
    assert_eq!(s.index_of(&MetricId::new("accuracy")), Some(0));
    assert_eq!(s.index_of(&MetricId::new("cost")), Some(2));
    assert_eq!(s.index_of(&MetricId::new("missing")), None);
}

#[test]
fn recommended_sample_size_per_kind() {
    let recs = recommended_sample_size(&schema(), 6623);
    assert_eq!(recs.len(), 4);
    assert_eq!(recs[0], (MetricId::new("accuracy"), 6623));
    assert_eq!(recs[1], (MetricId::new("latency"), 6623));
    let recs = recommended_sample_size(&schema(), 100);
    assert_eq!(recs[0].1, 100);
    assert_eq!(recs[1].1, CONSERVATIVE_UNBOUNDED_KN);
    assert_eq!(recs[2].1, 1000);
    assert_eq!(recs[3], (MetricId::new("accuracy"), 1000));
}

#[test]
fn tighter_hoeffding_never_loosens_recommendations() {
    let mut prev: Vec<usize> = vec![0; 4];
    for h in [2usize, 500, 999, 1000, 1001, 6620, usize::MAX] {
        let recs = recommended_sample_size(&schema(), h);
        for (i, (_, kn)) in recs.iter().enumerate() {
            assert!(*kn >= h);
            assert!(*kn >= prev[i]);
            prev[i] = *kn;
        }
    }
}

#[test]
fn drift_directions_are_distinct() {
    assert_ne!(DriftDirection::Upward, DriftDirection::Downward);
}

#[test]
fn upward_crossing_is_reported_first() {
    assert_eq!(alert_direction(true, true), Some(DriftDirection::Upward));
    assert_eq!(alert_direction(true, false), Some(DriftDirection::Upward));
    assert_eq!(alert_direction(false, true), Some(DriftDirection::Downward));
    assert_eq!(alert_direction(false, false), None);
}
