use retouch_lab::catalog::{find_strategy, list_strategies, merge_params, prepare_retouch};
use retouch_lab::params::ParamMap;
use retouch_lab::request::ApplyRetouchRequest;

fn from_centi(c: i32) -> f32 {
    c as f32 / 100.0
}

fn request(id: &str, params: &[(&str, f32)]) -> ApplyRetouchRequest<f32> {
    let mut map = ParamMap::new();
    for (k, v) in params {
        map.insert(k.to_string(), *v);
    }
    ApplyRetouchRequest { input_path: "in.png".to_string(), strategy_id: id.to_string(), params: map }
}

#[test]
fn list_strategies_ids_in_order() {
    let ids: Vec<String> = list_strategies().into_iter().map(|s| s.id).collect();
    assert_eq!(
        ids,
        vec![
            "classic-auto-balance",
            "classic-vibrance-boost",
            "classic-highlight-recovery",
            "classic-gamma-lift",
            "classic-local-clarity",
            "ai-kmeans-scene-model",
            "hybrid-skin-aware-tone",
            "hybrid-subject-pop",
        ]
    );
}

#[test]
fn list_strategies_tabs_and_families() {
    let strategies = list_strategies();
    let tabs: Vec<&str> = strategies.iter().map(|s| s.tab.as_str()).collect();
    let families: Vec<&str> = strategies.iter().map(|s| s.family.as_str()).collect();
    assert_eq!(tabs, vec!["classic", "classic", "classic", "classic", "classic", "ai", "ai", "ai"]);
    assert_eq!(families, vec!["classic", "classic", "classic", "classic", "classic", "ai", "hybrid", "hybrid"]);
    assert_eq!(strategies[5].label, "AI Scene Model (K-Means)");
    assert_eq!(strategies[0].description, "Gray-worldホワイトバランスと軽いコントラスト補正。");
}

#[test]
fn list_strategies_slider_values_in_single_precision() {
    let strategies = list_strategies();
    let p = &strategies[0].parameters[0];
    assert_eq!(p.key, "whiteBalanceStrength");
    assert_eq!(p.label, "WB Strength");
    assert_eq!(from_centi(p.min), 0.0f32);
    assert_eq!(from_centi(p.max), 1.0f32);
    assert_eq!(from_centi(p.step), 0.01f32);
    assert_eq!(from_centi(p.default_value), 0.72f32);
    let h = &strategies[2].parameters[0];
    assert_eq!(h.key, "highlightThreshold");
    assert_eq!((from_centi(h.min), from_centi(h.max), from_centi(h.step), from_centi(h.default_value)), (120.0, 250.0, 1.0, 198.0));
    let g = &strategies[3].parameters[0];
    assert_eq!((from_centi(g.min), from_centi(g.max), from_centi(g.default_value)), (0.6f32, 1.8f32, 1.20f32));
    let s = &strategies[4].parameters[1];
    assert_eq!(s.key, "blurSigma");
    assert_eq!((from_centi(s.min), from_centi(s.max), from_centi(s.default_value)), (0.4f32, 4.0f32, 1.60f32));
}

#[test]
fn list_strategies_sliders_well_formed() {
    for s in list_strategies() {
        assert!(!s.parameters.is_empty());
        for p in &s.parameters {
            assert!(p.step > 0 && p.min <= p.default_value && p.default_value <= p.max);
            assert_eq!((p.default_value - p.min) % p.step, 0);
        }
    }
}

#[test]
fn find_strategy_known_and_unknown() {
    let strategies = list_strategies();
    assert_eq!(find_strategy(&strategies, "classic-gamma-lift"), Ok(3));
    assert_eq!(find_strategy(&strategies, "nope"), Err("Unknown strategy_id: nope".to_string()));
}

#[test]
fn merge_params_user_overrides_defaults() {
    let strategies = list_strategies();
    let mut user = ParamMap::new();
    user.insert("contrastBoost".to_string(), 0.4f32);
    user.insert("extra".to_string(), 7.0f32);
    let merged = merge_params(&strategies[0], &user, from_centi);
    assert_eq!(merged.get("whiteBalanceStrength"), Some(0.72));
    assert_eq!(merged.get("contrastBoost"), Some(0.4));
    assert_eq!(merged.get("extra"), Some(7.0));
    assert_eq!(merged.get("vibrance"), None);
    assert_eq!(merged.entries().len(), 3);
}

#[test]
fn prepare_retouch_defaults_only() {
    let merged = prepare_retouch(&request("classic-highlight-recovery", &[]), from_centi).unwrap();
    assert_eq!(merged.get("highlightThreshold"), Some(198.0));
    assert_eq!(merged.get("recoveryStrength"), Some(0.56));
    assert_eq!(merged.entries().len(), 2);
}

#[test]
fn prepare_retouch_unknown_strategy() {
    let res = prepare_retouch(&request("ai-onnx-model", &[("onnxStrength", 1.0)]), from_centi);
    assert_eq!(res.err(), Some("Unknown strategy_id: ai-onnx-model".to_string()));
}
