//! The choice of adjustments that a strategy applies, and the parameter
//! values each adjustment reads.
use vstd::prelude::*;

use crate::params::ParamMap;

verus! {

/// The adjustments of one strategy, with the parameter values they use.
pub enum RetouchPlan<V> {
    /// Inference with a local ONNX model.
    OnnxModel { strength: V },
    /// Grey-world white balance, then a contrast boost.
    AutoBalance { white_balance_strength: V, contrast_boost: V },
    /// A saturation boost, then a contrast boost.
    VibranceBoost { vibrance: V, contrast_boost: V },
    /// Compression of the channel values above a threshold.
    HighlightRecovery { threshold: V, strength: V },
    /// A gamma curve.
    GammaLift { gamma: V },
    /// An unsharp mask.
    LocalClarity { amount: V, sigma: V },
    /// Scene correction from the dominant colour cluster.
    KmeansScene { strength: V },
    /// A tone lift on skin-like pixels, then light global balancing.
    SkinAwareTone { strength: V },
    /// Emphasis around the tile with the most edge energy.
    SubjectPop { strength: V },
}

/// The value of `key` in `params`, or `absent` where `params` lacks the key.
pub open spec fn param_value<V>(params: Map<Seq<char>, V>, key: Seq<char>, absent: V) -> V {
    if params.dom().contains(key) {
        params[key]
    } else {
        absent
    }
}

/// The value of `key` in `params`, or `absent` where `params` lacks the key.
pub fn get_param<V: Copy>(params: &ParamMap<V>, key: &str, absent: V) -> (res: V)
    ensures
        res == param_value(params@, key@, absent),
        params@.dom().contains(key@) ==> res == params@[key@],
        !params@.dom().contains(key@) ==> res == absent,
{
    match params.get(key) {
        Some(value) => value,
        None => absent,
    }
}

/// The plan of the strategy named `id`, reading its values from `params`;
/// `None` for a name that no strategy has.
pub open spec fn plan_of<V>(id: Seq<char>, params: Map<Seq<char>, V>, absent: V) -> Option<
    RetouchPlan<V>,
> {
    if id == "ai-onnx-model"@ {
        Some(RetouchPlan::OnnxModel { strength: param_value(params, "onnxStrength"@, absent) })
    } else if id == "classic-auto-balance"@ {
        Some(
            RetouchPlan::AutoBalance {
                white_balance_strength: param_value(params, "whiteBalanceStrength"@, absent),
                contrast_boost: param_value(params, "contrastBoost"@, absent),
            },
        )
    } else if id == "classic-vibrance-boost"@ {
        Some(
            RetouchPlan::VibranceBoost {
                vibrance: param_value(params, "vibrance"@, absent),
                contrast_boost: param_value(params, "contrastBoost"@, absent),
            },
        )
    } else if id == "classic-highlight-recovery"@ {
        Some(
            RetouchPlan::HighlightRecovery {
                threshold: param_value(params, "highlightThreshold"@, absent),
                strength: param_value(params, "recoveryStrength"@, absent),
            },
        )
    } else if id == "classic-gamma-lift"@ {
        Some(RetouchPlan::GammaLift { gamma: param_value(params, "gamma"@, absent) })
    } else if id == "classic-local-clarity"@ {
        Some(
            RetouchPlan::LocalClarity {
                amount: param_value(params, "clarityAmount"@, absent),
                sigma: param_value(params, "blurSigma"@, absent),
            },
        )
    } else if id == "ai-kmeans-scene-model"@ {
        Some(RetouchPlan::KmeansScene { strength: param_value(params, "sceneStrength"@, absent) })
    } else if id == "hybrid-skin-aware-tone"@ {
        Some(
            RetouchPlan::SkinAwareTone { strength: param_value(params, "skinToneStrength"@, absent) },
        )
    } else if id == "hybrid-subject-pop"@ {
        Some(
            RetouchPlan::SubjectPop { strength: param_value(params, "subjectPopStrength"@, absent) },
        )
    } else {
        None
    }
}

/// Each strategy's plan carries the value of the parameter of the same meaning in each
/// field (the vibrance boost reads `vibrance` for its vibrance and `contrastBoost` for its
/// contrast, the highlight recovery `highlightThreshold` for its threshold, and so on),
/// and exactly the nine named strategies have a plan.
pub proof fn lemma_plan_fields<V>(id: Seq<char>, params: Map<Seq<char>, V>, absent: V)
    ensures
        id == "ai-onnx-model"@ ==> (
            plan_of(id, params, absent) matches Some(RetouchPlan::OnnxModel { strength })
            && strength == param_value(params, "onnxStrength"@, absent)
        ),
        id == "classic-auto-balance"@ ==> (
            plan_of(id, params, absent) matches Some(RetouchPlan::AutoBalance { white_balance_strength, contrast_boost })
            && white_balance_strength == param_value(params, "whiteBalanceStrength"@, absent)
            && contrast_boost == param_value(params, "contrastBoost"@, absent)
        ),
        id == "classic-vibrance-boost"@ ==> (
            plan_of(id, params, absent) matches Some(RetouchPlan::VibranceBoost { vibrance, contrast_boost })
            && vibrance == param_value(params, "vibrance"@, absent)
            && contrast_boost == param_value(params, "contrastBoost"@, absent)
        ),
        id == "classic-highlight-recovery"@ ==> (
            plan_of(id, params, absent) matches Some(RetouchPlan::HighlightRecovery { threshold, strength })
            && threshold == param_value(params, "highlightThreshold"@, absent)
            && strength == param_value(params, "recoveryStrength"@, absent)
        ),
        id == "classic-gamma-lift"@ ==> (
            plan_of(id, params, absent) matches Some(RetouchPlan::GammaLift { gamma })
            && gamma == param_value(params, "gamma"@, absent)
        ),
        id == "classic-local-clarity"@ ==> (
            plan_of(id, params, absent) matches Some(RetouchPlan::LocalClarity { amount, sigma })
            && amount == param_value(params, "clarityAmount"@, absent)
            && sigma == param_value(params, "blurSigma"@, absent)
        ),
        id == "ai-kmeans-scene-model"@ ==> (
            plan_of(id, params, absent) matches Some(RetouchPlan::KmeansScene { strength })
            && strength == param_value(params, "sceneStrength"@, absent)
        ),
        id == "hybrid-skin-aware-tone"@ ==> (
            plan_of(id, params, absent) matches Some(RetouchPlan::SkinAwareTone { strength })
            && strength == param_value(params, "skinToneStrength"@, absent)
        ),
        id == "hybrid-subject-pop"@ ==> (
            plan_of(id, params, absent) matches Some(RetouchPlan::SubjectPop { strength })
            && strength == param_value(params, "subjectPopStrength"@, absent)
        ),
        plan_of(id, params, absent) is Some <==> (
            id == "ai-onnx-model"@
            || id == "classic-auto-balance"@
            || id == "classic-vibrance-boost"@
            || id == "classic-highlight-recovery"@
            || id == "classic-gamma-lift"@
            || id == "classic-local-clarity"@
            || id == "ai-kmeans-scene-model"@
            || id == "hybrid-skin-aware-tone"@
            || id == "hybrid-subject-pop"@
        ),
{
    reveal_strlit("ai-onnx-model");
    reveal_strlit("classic-auto-balance");
    reveal_strlit("classic-vibrance-boost");
    reveal_strlit("classic-highlight-recovery");
    reveal_strlit("classic-gamma-lift");
    reveal_strlit("classic-local-clarity");
    reveal_strlit("ai-kmeans-scene-model");
    reveal_strlit("hybrid-skin-aware-tone");
    reveal_strlit("hybrid-subject-pop");
    assert("classic-auto-balance"@.len() != "ai-onnx-model"@.len());
    assert("classic-vibrance-boost"@.len() != "ai-onnx-model"@.len());
    assert("classic-vibrance-boost"@.len() != "classic-auto-balance"@.len());
    assert("classic-highlight-recovery"@.len() != "ai-onnx-model"@.len());
    assert("classic-highlight-recovery"@.len() != "classic-auto-balance"@.len());
    assert("classic-highlight-recovery"@.len() != "classic-vibrance-boost"@.len());
    assert("classic-gamma-lift"@.len() != "ai-onnx-model"@.len());
    assert("classic-gamma-lift"@.len() != "classic-auto-balance"@.len());
    assert("classic-gamma-lift"@.len() != "classic-vibrance-boost"@.len());
    assert("classic-gamma-lift"@.len() != "classic-highlight-recovery"@.len());
    assert("classic-local-clarity"@.len() != "ai-onnx-model"@.len());
    assert("classic-local-clarity"@.len() != "classic-auto-balance"@.len());
    assert("classic-local-clarity"@.len() != "classic-vibrance-boost"@.len());
    assert("classic-local-clarity"@.len() != "classic-highlight-recovery"@.len());
    assert("classic-local-clarity"@.len() != "classic-gamma-lift"@.len());
    assert("ai-kmeans-scene-model"@.len() != "ai-onnx-model"@.len());
    assert("ai-kmeans-scene-model"@.len() != "classic-auto-balance"@.len());
    assert("ai-kmeans-scene-model"@.len() != "classic-vibrance-boost"@.len());
    assert("ai-kmeans-scene-model"@.len() != "classic-highlight-recovery"@.len());
    assert("ai-kmeans-scene-model"@.len() != "classic-gamma-lift"@.len());
    assert("ai-kmeans-scene-model"@[0] != "classic-local-clarity"@[0]);
    assert("hybrid-skin-aware-tone"@.len() != "ai-onnx-model"@.len());
    assert("hybrid-skin-aware-tone"@.len() != "classic-auto-balance"@.len());
    assert("hybrid-skin-aware-tone"@[0] != "classic-vibrance-boost"@[0]);
    assert("hybrid-skin-aware-tone"@.len() != "classic-highlight-recovery"@.len());
    assert("hybrid-skin-aware-tone"@.len() != "classic-gamma-lift"@.len());
    assert("hybrid-skin-aware-tone"@.len() != "classic-local-clarity"@.len());
    assert("hybrid-skin-aware-tone"@.len() != "ai-kmeans-scene-model"@.len());
    assert("hybrid-subject-pop"@.len() != "ai-onnx-model"@.len());
    assert("hybrid-subject-pop"@.len() != "classic-auto-balance"@.len());
    assert("hybrid-subject-pop"@.len() != "classic-vibrance-boost"@.len());
    assert("hybrid-subject-pop"@.len() != "classic-highlight-recovery"@.len());
    assert("hybrid-subject-pop"@[0] != "classic-gamma-lift"@[0]);
    assert("hybrid-subject-pop"@.len() != "classic-local-clarity"@.len());
    assert("hybrid-subject-pop"@.len() != "ai-kmeans-scene-model"@.len());
    assert("hybrid-subject-pop"@.len() != "hybrid-skin-aware-tone"@.len());
}

/// The message for a strategy name that no plan has.
pub open spec fn unsupported_strategy_message(id: Seq<char>) -> Seq<char> {
    "Unsupported strategy: "@ + id
}

fn names(id: &String, name: &str) -> (res: bool)
    ensures
        res == (id@ == name@),
{
    let other = String::from_str(name);
    id.eq(&other)
}

/// The plan of the strategy named `strategy_id`, whose missing parameters read as
/// `absent`, or the message that no strategy has that name.
pub fn plan_strategy<V: Copy>(strategy_id: &str, params: &ParamMap<V>, absent: V) -> (res: Result<
    RetouchPlan<V>,
    String,
>)
    ensures
        match res {
            Ok(plan) => plan_of(strategy_id@, params@, absent) == Some(plan),
            Err(message) => {
                &&& plan_of(strategy_id@, params@, absent) is None
                &&& message@ == unsupported_strategy_message(strategy_id@)
            },
        },
        strategy_id@ == "ai-onnx-model"@ ==> (
            res matches Ok(RetouchPlan::OnnxModel { strength })
            && strength == param_value(params@, "onnxStrength"@, absent)
        ),
        strategy_id@ == "classic-auto-balance"@ ==> (
            res matches Ok(RetouchPlan::AutoBalance { white_balance_strength, contrast_boost })
            && white_balance_strength == param_value(params@, "whiteBalanceStrength"@, absent)
            && contrast_boost == param_value(params@, "contrastBoost"@, absent)
        ),
        strategy_id@ == "classic-vibrance-boost"@ ==> (
            res matches Ok(RetouchPlan::VibranceBoost { vibrance, contrast_boost })
            && vibrance == param_value(params@, "vibrance"@, absent)
            && contrast_boost == param_value(params@, "contrastBoost"@, absent)
        ),
        strategy_id@ == "classic-highlight-recovery"@ ==> (
            res matches Ok(RetouchPlan::HighlightRecovery { threshold, strength })
            && threshold == param_value(params@, "highlightThreshold"@, absent)
            && strength == param_value(params@, "recoveryStrength"@, absent)
        ),
        strategy_id@ == "classic-gamma-lift"@ ==> (
            res matches Ok(RetouchPlan::GammaLift { gamma })
            && gamma == param_value(params@, "gamma"@, absent)
        ),
        strategy_id@ == "classic-local-clarity"@ ==> (
            res matches Ok(RetouchPlan::LocalClarity { amount, sigma })
            && amount == param_value(params@, "clarityAmount"@, absent)
            && sigma == param_value(params@, "blurSigma"@, absent)
        ),
        strategy_id@ == "ai-kmeans-scene-model"@ ==> (
            res matches Ok(RetouchPlan::KmeansScene { strength })
            && strength == param_value(params@, "sceneStrength"@, absent)
        ),
        strategy_id@ == "hybrid-skin-aware-tone"@ ==> (
            res matches Ok(RetouchPlan::SkinAwareTone { strength })
            && strength == param_value(params@, "skinToneStrength"@, absent)
        ),
        strategy_id@ == "hybrid-subject-pop"@ ==> (
            res matches Ok(RetouchPlan::SubjectPop { strength })
            && strength == param_value(params@, "subjectPopStrength"@, absent)
        ),
        res is Ok <==> (
            strategy_id@ == "ai-onnx-model"@
            || strategy_id@ == "classic-auto-balance"@
            || strategy_id@ == "classic-vibrance-boost"@
            || strategy_id@ == "classic-highlight-recovery"@
            || strategy_id@ == "classic-gamma-lift"@
            || strategy_id@ == "classic-local-clarity"@
            || strategy_id@ == "ai-kmeans-scene-model"@
            || strategy_id@ == "hybrid-skin-aware-tone"@
            || strategy_id@ == "hybrid-subject-pop"@
        ),
{
    proof {
        lemma_plan_fields(strategy_id@, params@, absent);
    }
    let id = String::from_str(strategy_id);
    if names(&id, "ai-onnx-model") {
        Ok(RetouchPlan::OnnxModel { strength: get_param(params, "onnxStrength", absent) })
    } else if names(&id, "classic-auto-balance") {
        Ok(
            RetouchPlan::AutoBalance {
                white_balance_strength: get_param(params, "whiteBalanceStrength", absent),
                contrast_boost: get_param(params, "contrastBoost", absent),
            },
        )
    } else if names(&id, "classic-vibrance-boost") {
        Ok(
            RetouchPlan::VibranceBoost {
                vibrance: get_param(params, "vibrance", absent),
                contrast_boost: get_param(params, "contrastBoost", absent),
            },
        )
    } else if names(&id, "classic-highlight-recovery") {
        Ok(
            RetouchPlan::HighlightRecovery {
                threshold: get_param(params, "highlightThreshold", absent),
                strength: get_param(params, "recoveryStrength", absent),
            },
        )
    } else if names(&id, "classic-gamma-lift") {
        Ok(RetouchPlan::GammaLift { gamma: get_param(params, "gamma", absent) })
    } else if names(&id, "classic-local-clarity") {
        Ok(
            RetouchPlan::LocalClarity {
                amount: get_param(params, "clarityAmount", absent),
                sigma: get_param(params, "blurSigma", absent),
            },
        )
    } else if names(&id, "ai-kmeans-scene-model") {
        Ok(RetouchPlan::KmeansScene { strength: get_param(params, "sceneStrength", absent) })
    } else if names(&id, "hybrid-skin-aware-tone") {
        Ok(RetouchPlan::SkinAwareTone { strength: get_param(params, "skinToneStrength", absent) })
    } else if names(&id, "hybrid-subject-pop") {
        Ok(RetouchPlan::SubjectPop { strength: get_param(params, "subjectPopStrength", absent) })
    } else {
        let mut message = String::from_str("Unsupported strategy: ");
        message.append(strategy_id);
        Err(message)
    }
}

/// Every strategy of the catalogue has a plan, and once its parameters are merged
/// (see [`crate::catalog::merge_holds`]) the plan reads no parameter that is missing:
/// the value given for missing parameters makes no difference.
pub proof fn lemma_listed_strategies_have_plans<V, F: Fn(i32) -> V>(
    i: int,
    user: Map<Seq<char>, V>,
    from_centi: F,
    merged: Map<Seq<char>, V>,
    absent: V,
    other_absent: V,
)
    requires
        0 <= i < crate::catalog::catalog().len(),
        crate::catalog::merge_holds(crate::catalog::catalog()[i].parameters, user, from_centi, merged),
    ensures
        plan_of(crate::catalog::catalog()[i].id, merged, absent) is Some,
        plan_of(crate::catalog::catalog()[i].id, merged, absent) == plan_of(
            crate::catalog::catalog()[i].id,
            merged,
            other_absent,
        ),
{
    reveal_strlit("ai-onnx-model");
    reveal_strlit("classic-auto-balance");
    reveal_strlit("classic-vibrance-boost");
    reveal_strlit("classic-highlight-recovery");
    reveal_strlit("classic-gamma-lift");
    reveal_strlit("classic-local-clarity");
    reveal_strlit("ai-kmeans-scene-model");
    reveal_strlit("hybrid-skin-aware-tone");
    reveal_strlit("hybrid-subject-pop");
    let catalog = crate::catalog::catalog();
    if i == 0 {
        assert("classic-auto-balance"@.len() != "ai-onnx-model"@.len());
        assert(catalog[0].id == "classic-auto-balance"@);
        assert(catalog[0].parameters[0].key == "whiteBalanceStrength"@);
        assert(catalog[0].parameters[1].key == "contrastBoost"@);
        assert(merged.dom().contains(catalog[0].parameters[0].key));
        assert(merged.dom().contains(catalog[0].parameters[1].key));
        assert(plan_of(catalog[0].id, merged, absent) == plan_of(catalog[0].id, merged, other_absent));
    }
    if i == 1 {
        assert("classic-vibrance-boost"@.len() != "ai-onnx-model"@.len());
        assert("classic-vibrance-boost"@.len() != "classic-auto-balance"@.len());
        assert(catalog[1].id == "classic-vibrance-boost"@);
        assert(catalog[1].parameters[0].key == "vibrance"@);
        assert(catalog[1].parameters[1].key == "contrastBoost"@);
        assert(merged.dom().contains(catalog[1].parameters[0].key));
        assert(merged.dom().contains(catalog[1].parameters[1].key));
        assert(plan_of(catalog[1].id, merged, absent) == plan_of(catalog[1].id, merged, other_absent));
    }
    if i == 2 {
        assert("classic-highlight-recovery"@.len() != "ai-onnx-model"@.len());
        assert("classic-highlight-recovery"@.len() != "classic-auto-balance"@.len());
        assert("classic-highlight-recovery"@.len() != "classic-vibrance-boost"@.len());
        assert(catalog[2].id == "classic-highlight-recovery"@);
        assert(catalog[2].parameters[0].key == "highlightThreshold"@);
        assert(catalog[2].parameters[1].key == "recoveryStrength"@);
        assert(merged.dom().contains(catalog[2].parameters[0].key));
        assert(merged.dom().contains(catalog[2].parameters[1].key));
        assert(plan_of(catalog[2].id, merged, absent) == plan_of(catalog[2].id, merged, other_absent));
    }
    if i == 3 {
        assert("classic-gamma-lift"@.len() != "ai-onnx-model"@.len());
        assert("classic-gamma-lift"@.len() != "classic-auto-balance"@.len());
        assert("classic-gamma-lift"@.len() != "classic-vibrance-boost"@.len());
        assert("classic-gamma-lift"@.len() != "classic-highlight-recovery"@.len());
        assert(catalog[3].id == "classic-gamma-lift"@);
        assert(catalog[3].parameters[0].key == "gamma"@);
        assert(merged.dom().contains(catalog[3].parameters[0].key));
        assert(plan_of(catalog[3].id, merged, absent) == plan_of(catalog[3].id, merged, other_absent));
    }
    if i == 4 {
        assert("classic-local-clarity"@.len() != "ai-onnx-model"@.len());
        assert("classic-local-clarity"@.len() != "classic-auto-balance"@.len());
        assert("classic-local-clarity"@.len() != "classic-vibrance-boost"@.len());
        assert("classic-local-clarity"@.len() != "classic-highlight-recovery"@.len());
        assert("classic-local-clarity"@.len() != "classic-gamma-lift"@.len());
        assert(catalog[4].id == "classic-local-clarity"@);
        assert(catalog[4].parameters[0].key == "clarityAmount"@);
        assert(catalog[4].parameters[1].key == "blurSigma"@);
        assert(merged.dom().contains(catalog[4].parameters[0].key));
        assert(merged.dom().contains(catalog[4].parameters[1].key));
        assert(plan_of(catalog[4].id, merged, absent) == plan_of(catalog[4].id, merged, other_absent));
    }
    if i == 5 {
        assert("ai-kmeans-scene-model"@.len() != "ai-onnx-model"@.len());
        assert("ai-kmeans-scene-model"@.len() != "classic-auto-balance"@.len());
        assert("ai-kmeans-scene-model"@.len() != "classic-vibrance-boost"@.len());
        assert("ai-kmeans-scene-model"@.len() != "classic-highlight-recovery"@.len());
        assert("ai-kmeans-scene-model"@.len() != "classic-gamma-lift"@.len());
        assert("ai-kmeans-scene-model"@[0] != "classic-local-clarity"@[0]);
        assert(catalog[5].id == "ai-kmeans-scene-model"@);
        assert(catalog[5].parameters[0].key == "sceneStrength"@);
        assert(merged.dom().contains(catalog[5].parameters[0].key));
        assert(plan_of(catalog[5].id, merged, absent) == plan_of(catalog[5].id, merged, other_absent));
    }
    if i == 6 {
        assert("hybrid-skin-aware-tone"@.len() != "ai-onnx-model"@.len());
        assert("hybrid-skin-aware-tone"@.len() != "classic-auto-balance"@.len());
        assert("hybrid-skin-aware-tone"@[0] != "classic-vibrance-boost"@[0]);
        assert("hybrid-skin-aware-tone"@.len() != "classic-highlight-recovery"@.len());
        assert("hybrid-skin-aware-tone"@.len() != "classic-gamma-lift"@.len());
        assert("hybrid-skin-aware-tone"@.len() != "classic-local-clarity"@.len());
        assert("hybrid-skin-aware-tone"@.len() != "ai-kmeans-scene-model"@.len());
        assert(catalog[6].id == "hybrid-skin-aware-tone"@);
        assert(catalog[6].parameters[0].key == "skinToneStrength"@);
        assert(merged.dom().contains(catalog[6].parameters[0].key));
        assert(plan_of(catalog[6].id, merged, absent) == plan_of(catalog[6].id, merged, other_absent));
    }
    if i == 7 {
        assert("hybrid-subject-pop"@.len() != "ai-onnx-model"@.len());
        assert("hybrid-subject-pop"@.len() != "classic-auto-balance"@.len());
        assert("hybrid-subject-pop"@.len() != "classic-vibrance-boost"@.len());
        assert("hybrid-subject-pop"@.len() != "classic-highlight-recovery"@.len());
        assert("hybrid-subject-pop"@[0] != "classic-gamma-lift"@[0]);
        assert("hybrid-subject-pop"@.len() != "classic-local-clarity"@.len());
        assert("hybrid-subject-pop"@.len() != "ai-kmeans-scene-model"@.len());
        assert("hybrid-subject-pop"@.len() != "hybrid-skin-aware-tone"@.len());
        assert(catalog[7].id == "hybrid-subject-pop"@);
        assert(catalog[7].parameters[0].key == "subjectPopStrength"@);
        assert(merged.dom().contains(catalog[7].parameters[0].key));
        assert(plan_of(catalog[7].id, merged, absent) == plan_of(catalog[7].id, merged, other_absent));
    }
}

/// The model-based strategy has a plan but is not among the listed strategies, so a
/// request can only reach it by naming it outside the catalogue.
pub proof fn lemma_model_strategy_not_listed()
    ensures
        forall|i: int|
            0 <= i < crate::catalog::catalog().len() ==> #[trigger] crate::catalog::catalog()[i].id
                != "ai-onnx-model"@,
{
    reveal_strlit("ai-onnx-model");
    reveal_strlit("classic-auto-balance");
    reveal_strlit("classic-vibrance-boost");
    reveal_strlit("classic-highlight-recovery");
    reveal_strlit("classic-gamma-lift");
    reveal_strlit("classic-local-clarity");
    reveal_strlit("ai-kmeans-scene-model");
    reveal_strlit("hybrid-skin-aware-tone");
    reveal_strlit("hybrid-subject-pop");
    let catalog = crate::catalog::catalog();
    assert(catalog[0].id.len() != "ai-onnx-model"@.len());
    assert(catalog[1].id.len() != "ai-onnx-model"@.len());
    assert(catalog[2].id.len() != "ai-onnx-model"@.len());
    assert(catalog[3].id.len() != "ai-onnx-model"@.len());
    assert(catalog[4].id.len() != "ai-onnx-model"@.len());
    assert(catalog[5].id.len() != "ai-onnx-model"@.len());
    assert(catalog[6].id.len() != "ai-onnx-model"@.len());
    assert(catalog[7].id.len() != "ai-onnx-model"@.len());
    assert forall|i: int| 0 <= i < catalog.len() implies #[trigger] catalog[i].id != "ai-onnx-model"@ by {
        assert(i == 0 || i == 1 || i == 2 || i == 3 || i == 4 || i == 5 || i == 6 || i == 7);
    }
}

} // verus!
