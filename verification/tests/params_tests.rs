use retouch_lab::params::ParamMap;
use retouch_lab::plan::{get_param, plan_strategy, RetouchPlan};

#[test]
fn insert_replaces_and_get_reads_back() {
    let mut m: ParamMap<f32> = ParamMap::new();
    assert_eq!(m.get("gamma"), None);
    m.insert("gamma".to_string(), 1.2);
    m.insert("gamma".to_string(), 1.5);
    m.insert("vibrance".to_string(), 0.3);
    assert_eq!(m.get("gamma"), Some(1.5));
    assert_eq!(m.get("vibrance"), Some(0.3));
    assert_eq!(m.entries().len(), 2);
}

#[test]
fn from_entries_last_value_wins() {
    let entries = vec![("a".to_string(), 1u32), ("b".to_string(), 2), ("a".to_string(), 3)];
    let m = ParamMap::from_entries(&entries);
    assert_eq!(m.get("a"), Some(3));
    assert_eq!(m.get("b"), Some(2));
    assert_eq!(m.entries().len(), 2);
}

#[test]
fn get_param_missing_reads_absent_value() {
    let mut m: ParamMap<f32> = ParamMap::new();
    m.insert("gamma".to_string(), 1.2);
    assert_eq!(get_param(&m, "gamma", 0.0), 1.2);
    assert_eq!(get_param(&m, "blurSigma", 0.0), 0.0);
}

#[test]
fn plan_strategy_reads_the_strategy_parameters() {
    let mut m: ParamMap<f32> = ParamMap::new();
    m.insert("clarityAmount".to_string(), 0.95);
    m.insert("blurSigma".to_string(), 1.6);
    match plan_strategy("classic-local-clarity", &m, 0.0) {
        Ok(RetouchPlan::LocalClarity { amount, sigma }) => {
            assert_eq!(amount, 0.95);
            assert_eq!(sigma, 1.6);
        }
        _ => panic!("expected a local clarity plan"),
    }
    match plan_strategy("classic-auto-balance", &m, 0.0) {
        Ok(RetouchPlan::AutoBalance { white_balance_strength, contrast_boost }) => {
            assert_eq!(white_balance_strength, 0.0);
            assert_eq!(contrast_boost, 0.0);
        }
        _ => panic!("expected an auto balance plan"),
    }
    assert!(matches!(plan_strategy("ai-onnx-model", &m, 0.0), Ok(RetouchPlan::OnnxModel { strength }) if strength == 0.0));
}

#[test]
fn plan_strategy_unsupported() {
    let m: ParamMap<f32> = ParamMap::new();
    assert_eq!(plan_strategy("sepia", &m, 0.0).err(), Some("Unsupported strategy: sepia".to_string()));
}

#[test]
fn every_listed_strategy_has_a_plan() {
    let m: ParamMap<f32> = ParamMap::new();
    for s in retouch_lab::catalog::list_strategies() {
        assert!(plan_strategy(&s.id, &m, 0.0).is_ok(), "{}", s.id);
    }
}
