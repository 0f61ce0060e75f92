//! The catalogue of retouch strategies shown to the user, with the sliders
//! of each strategy, and the lookup and parameter merging that a retouch
//! request goes through.
//!
//! Slider bounds, steps and defaults are held in hundredths (`72` stands for
//! `0.72`), so that they are exact integers.
use vstd::prelude::*;

use crate::params::ParamMap;
use crate::request::ApplyRetouchRequest;

verus! {

/// One slider of a strategy. `min`, `max`, `step` and `default_value` are in
/// hundredths of the slider's unit.
pub struct StrategyParameterDefinition {
    pub key: String,
    pub label: String,
    pub description: String,
    pub min: i32,
    pub max: i32,
    pub step: i32,
    pub default_value: i32,
}

/// The mathematical value of a [`StrategyParameterDefinition`].
pub struct ParameterSpec {
    pub key: Seq<char>,
    pub label: Seq<char>,
    pub description: Seq<char>,
    pub min: int,
    pub max: int,
    pub step: int,
    pub default_value: int,
}

impl View for StrategyParameterDefinition {
    type V = ParameterSpec;

    open spec fn view(&self) -> ParameterSpec {
        ParameterSpec {
            key: self.key@,
            label: self.label@,
            description: self.description@,
            min: self.min as int,
            max: self.max as int,
            step: self.step as int,
            default_value: self.default_value as int,
        }
    }
}

/// A retouch strategy: its identifier, what the user interface shows of it,
/// the tab it is listed under, its family, and its sliders.
pub struct RetouchStrategyDefinition {
    pub id: String,
    pub label: String,
    pub description: String,
    pub tab: String,
    pub family: String,
    pub parameters: Vec<StrategyParameterDefinition>,
}

/// The mathematical value of a [`RetouchStrategyDefinition`].
pub struct StrategySpec {
    pub id: Seq<char>,
    pub label: Seq<char>,
    pub description: Seq<char>,
    pub tab: Seq<char>,
    pub family: Seq<char>,
    pub parameters: Seq<ParameterSpec>,
}

impl View for RetouchStrategyDefinition {
    type V = StrategySpec;

    open spec fn view(&self) -> StrategySpec {
        StrategySpec {
            id: self.id@,
            label: self.label@,
            description: self.description@,
            tab: self.tab@,
            family: self.family@,
            parameters: self.parameters@.map_values(|p: StrategyParameterDefinition| p@),
        }
    }
}

/// The values of a sequence of strategy definitions.
pub open spec fn strategies_view(strategies: Seq<RetouchStrategyDefinition>) -> Seq<StrategySpec> {
    strategies.map_values(|d: RetouchStrategyDefinition| d@)
}

pub open spec fn parameter_spec(
    key: Seq<char>,
    label: Seq<char>,
    description: Seq<char>,
    min: int,
    max: int,
    step: int,
    default_value: int,
) -> ParameterSpec {
    ParameterSpec { key, label, description, min, max, step, default_value }
}

pub open spec fn strategy_spec(
    id: Seq<char>,
    label: Seq<char>,
    description: Seq<char>,
    tab: Seq<char>,
    family: Seq<char>,
    parameters: Seq<ParameterSpec>,
) -> StrategySpec {
    StrategySpec { id, label, description, tab, family, parameters }
}

/// The strategies that the library offers, in the order they are listed.
pub open spec fn catalog() -> Seq<StrategySpec> {
    seq![
        strategy_spec(
            "classic-auto-balance"@,
            "Auto Balance"@,
            "Gray-worldホワイトバランスと軽いコントラスト補正。"@,
            "classic"@,
            "classic"@,
            seq![
                parameter_spec("whiteBalanceStrength"@, "WB Strength"@, "ホワイトバランス補正の強さ"@, 0, 100, 1, 72),
                parameter_spec("contrastBoost"@, "Contrast Boost"@, "最終コントラスト増加量"@, 0, 50, 1, 18),
            ],
        ),
        strategy_spec(
            "classic-vibrance-boost"@,
            "Vibrance Boost"@,
            "彩度と微コントラストを同時に持ち上げる。"@,
            "classic"@,
            "classic"@,
            seq![
                parameter_spec("vibrance"@, "Vibrance"@, "彩度ブースト量"@, 0, 80, 1, 26),
                parameter_spec("contrastBoost"@, "Contrast Boost"@, "局所の見えを整える軽いコントラスト調整"@, 0, 50, 1, 10),
            ],
        ),
        strategy_spec(
            "classic-highlight-recovery"@,
            "Highlight Recovery"@,
            "ハイライトを圧縮して白飛びを抑える。"@,
            "classic"@,
            "classic"@,
            seq![
                parameter_spec("highlightThreshold"@, "Highlight Threshold"@, "圧縮を開始する明るさ閾値"@, 12000, 25000, 100, 19800),
                parameter_spec("recoveryStrength"@, "Recovery Strength"@, "ハイライト圧縮の強さ"@, 0, 100, 1, 56),
            ],
        ),
        strategy_spec(
            "classic-gamma-lift"@,
            "Gamma Lift"@,
            "中間調を中心にトーンバランスを調整。"@,
            "classic"@,
            "classic"@,
            seq![
                parameter_spec("gamma"@, "Gamma"@, "ガンマ値（1.0より大きいほど持ち上げ）"@, 60, 180, 1, 120),
            ],
        ),
        strategy_spec(
            "classic-local-clarity"@,
            "Local Clarity"@,
            "アンシャープマスクで局所的な明瞭感を強化。"@,
            "classic"@,
            "classic"@,
            seq![
                parameter_spec("clarityAmount"@, "Clarity Amount"@, "明瞭感強調量"@, 0, 200, 1, 95),
                parameter_spec("blurSigma"@, "Blur Sigma"@, "明瞭化に使うぼかし半径"@, 40, 400, 1, 160),
            ],
        ),
        strategy_spec(
            "ai-kmeans-scene-model"@,
            "AI Scene Model (K-Means)"@,
            "色分布クラスタリングからシーン特性を推定して補正。"@,
            "ai"@,
            "ai"@,
            seq![
                parameter_spec("sceneStrength"@, "Scene Strength"@, "シーン推定補正の反映率"@, 0, 100, 1, 74),
            ],
        ),
        strategy_spec(
            "hybrid-skin-aware-tone"@,
            "Hybrid Skin-Aware Tone"@,
            "肌色検知を使ってトーン調整を局所適用。"@,
            "ai"@,
            "hybrid"@,
            seq![
                parameter_spec("skinToneStrength"@, "Skin Tone Strength"@, "肌領域への補正強度"@, 0, 100, 1, 62),
            ],
        ),
        strategy_spec(
            "hybrid-subject-pop"@,
            "Hybrid Subject Pop"@,
            "被写体らしい領域を推定し、彩度/コントラストを重点補正。"@,
            "ai"@,
            "hybrid"@,
            seq![
                parameter_spec("subjectPopStrength"@, "Subject Pop Strength"@, "推定被写体への強調量"@, 0, 100, 1, 70),
            ],
        ),
    ]
}

/// The catalogue's documented contents, slider by slider (bounds, steps and defaults in
/// hundredths): for instance the vibrance boost's `vibrance` slider runs from 0 to 0.80
/// with default 0.26, and its `contrastBoost` slider from 0 to 0.50 with default 0.10.
pub proof fn lemma_catalog_contents()
    ensures
        catalog().len() == 8,
        catalog()[0].id == "classic-auto-balance"@ && catalog()[0].label == "Auto Balance"@ && catalog()[0].description == "Gray-worldホワイトバランスと軽いコントラスト補正。"@,
        catalog()[0].tab == "classic"@ && catalog()[0].family == "classic"@ && catalog()[0].parameters.len() == 2,
        catalog()[0].parameters[0].key == "whiteBalanceStrength"@ && catalog()[0].parameters[0].label == "WB Strength"@ && catalog()[0].parameters[0].description == "ホワイトバランス補正の強さ"@,
        catalog()[0].parameters[0].min == 0 && catalog()[0].parameters[0].max == 100 && catalog()[0].parameters[0].step == 1 && catalog()[0].parameters[0].default_value == 72,
        catalog()[0].parameters[1].key == "contrastBoost"@ && catalog()[0].parameters[1].label == "Contrast Boost"@ && catalog()[0].parameters[1].description == "最終コントラスト増加量"@,
        catalog()[0].parameters[1].min == 0 && catalog()[0].parameters[1].max == 50 && catalog()[0].parameters[1].step == 1 && catalog()[0].parameters[1].default_value == 18,
        catalog()[1].id == "classic-vibrance-boost"@ && catalog()[1].label == "Vibrance Boost"@ && catalog()[1].description == "彩度と微コントラストを同時に持ち上げる。"@,
        catalog()[1].tab == "classic"@ && catalog()[1].family == "classic"@ && catalog()[1].parameters.len() == 2,
        catalog()[1].parameters[0].key == "vibrance"@ && catalog()[1].parameters[0].label == "Vibrance"@ && catalog()[1].parameters[0].description == "彩度ブースト量"@,
        catalog()[1].parameters[0].min == 0 && catalog()[1].parameters[0].max == 80 && catalog()[1].parameters[0].step == 1 && catalog()[1].parameters[0].default_value == 26,
        catalog()[1].parameters[1].key == "contrastBoost"@ && catalog()[1].parameters[1].label == "Contrast Boost"@ && catalog()[1].parameters[1].description == "局所の見えを整える軽いコントラスト調整"@,
        catalog()[1].parameters[1].min == 0 && catalog()[1].parameters[1].max == 50 && catalog()[1].parameters[1].step == 1 && catalog()[1].parameters[1].default_value == 10,
        catalog()[2].id == "classic-highlight-recovery"@ && catalog()[2].label == "Highlight Recovery"@ && catalog()[2].description == "ハイライトを圧縮して白飛びを抑える。"@,
        catalog()[2].tab == "classic"@ && catalog()[2].family == "classic"@ && catalog()[2].parameters.len() == 2,
        catalog()[2].parameters[0].key == "highlightThreshold"@ && catalog()[2].parameters[0].label == "Highlight Threshold"@ && catalog()[2].parameters[0].description == "圧縮を開始する明るさ閾値"@,
        catalog()[2].parameters[0].min == 12000 && catalog()[2].parameters[0].max == 25000 && catalog()[2].parameters[0].step == 100 && catalog()[2].parameters[0].default_value == 19800,
        catalog()[2].parameters[1].key == "recoveryStrength"@ && catalog()[2].parameters[1].label == "Recovery Strength"@ && catalog()[2].parameters[1].description == "ハイライト圧縮の強さ"@,
        catalog()[2].parameters[1].min == 0 && catalog()[2].parameters[1].max == 100 && catalog()[2].parameters[1].step == 1 && catalog()[2].parameters[1].default_value == 56,
        catalog()[3].id == "classic-gamma-lift"@ && catalog()[3].label == "Gamma Lift"@ && catalog()[3].description == "中間調を中心にトーンバランスを調整。"@,
        catalog()[3].tab == "classic"@ && catalog()[3].family == "classic"@ && catalog()[3].parameters.len() == 1,
        catalog()[3].parameters[0].key == "gamma"@ && catalog()[3].parameters[0].label == "Gamma"@ && catalog()[3].parameters[0].description == "ガンマ値（1.0より大きいほど持ち上げ）"@,
        catalog()[3].parameters[0].min == 60 && catalog()[3].parameters[0].max == 180 && catalog()[3].parameters[0].step == 1 && catalog()[3].parameters[0].default_value == 120,
        catalog()[4].id == "classic-local-clarity"@ && catalog()[4].label == "Local Clarity"@ && catalog()[4].description == "アンシャープマスクで局所的な明瞭感を強化。"@,
        catalog()[4].tab == "classic"@ && catalog()[4].family == "classic"@ && catalog()[4].parameters.len() == 2,
        catalog()[4].parameters[0].key == "clarityAmount"@ && catalog()[4].parameters[0].label == "Clarity Amount"@ && catalog()[4].parameters[0].description == "明瞭感強調量"@,
        catalog()[4].parameters[0].min == 0 && catalog()[4].parameters[0].max == 200 && catalog()[4].parameters[0].step == 1 && catalog()[4].parameters[0].default_value == 95,
        catalog()[4].parameters[1].key == "blurSigma"@ && catalog()[4].parameters[1].label == "Blur Sigma"@ && catalog()[4].parameters[1].description == "明瞭化に使うぼかし半径"@,
        catalog()[4].parameters[1].min == 40 && catalog()[4].parameters[1].max == 400 && catalog()[4].parameters[1].step == 1 && catalog()[4].parameters[1].default_value == 160,
        catalog()[5].id == "ai-kmeans-scene-model"@ && catalog()[5].label == "AI Scene Model (K-Means)"@ && catalog()[5].description == "色分布クラスタリングからシーン特性を推定して補正。"@,
        catalog()[5].tab == "ai"@ && catalog()[5].family == "ai"@ && catalog()[5].parameters.len() == 1,
        catalog()[5].parameters[0].key == "sceneStrength"@ && catalog()[5].parameters[0].label == "Scene Strength"@ && catalog()[5].parameters[0].description == "シーン推定補正の反映率"@,
        catalog()[5].parameters[0].min == 0 && catalog()[5].parameters[0].max == 100 && catalog()[5].parameters[0].step == 1 && catalog()[5].parameters[0].default_value == 74,
        catalog()[6].id == "hybrid-skin-aware-tone"@ && catalog()[6].label == "Hybrid Skin-Aware Tone"@ && catalog()[6].description == "肌色検知を使ってトーン調整を局所適用。"@,
        catalog()[6].tab == "ai"@ && catalog()[6].family == "hybrid"@ && catalog()[6].parameters.len() == 1,
        catalog()[6].parameters[0].key == "skinToneStrength"@ && catalog()[6].parameters[0].label == "Skin Tone Strength"@ && catalog()[6].parameters[0].description == "肌領域への補正強度"@,
        catalog()[6].parameters[0].min == 0 && catalog()[6].parameters[0].max == 100 && catalog()[6].parameters[0].step == 1 && catalog()[6].parameters[0].default_value == 62,
        catalog()[7].id == "hybrid-subject-pop"@ && catalog()[7].label == "Hybrid Subject Pop"@ && catalog()[7].description == "被写体らしい領域を推定し、彩度/コントラストを重点補正。"@,
        catalog()[7].tab == "ai"@ && catalog()[7].family == "hybrid"@ && catalog()[7].parameters.len() == 1,
        catalog()[7].parameters[0].key == "subjectPopStrength"@ && catalog()[7].parameters[0].label == "Subject Pop Strength"@ && catalog()[7].parameters[0].description == "推定被写体への強調量"@,
        catalog()[7].parameters[0].min == 0 && catalog()[7].parameters[0].max == 100 && catalog()[7].parameters[0].step == 1 && catalog()[7].parameters[0].default_value == 70,
{
}

/// A slider whose step is positive and whose default lies between its bounds,
/// a whole number of steps above the lower bound.
pub open spec fn parameter_well_formed(p: ParameterSpec) -> bool {
    &&& p.step > 0
    &&& p.min <= p.default_value <= p.max
    &&& (p.default_value - p.min) % p.step == 0
}

/// A strategy with at least one slider, whose sliders are well formed and
/// have pairwise different keys.
pub open spec fn strategy_well_formed(s: StrategySpec) -> bool {
    &&& s.parameters.len() > 0
    &&& forall|j: int| 0 <= j < s.parameters.len() ==> parameter_well_formed(#[trigger] s.parameters[j])
    &&& forall|a: int, b: int|
        0 <= a < b < s.parameters.len() ==> #[trigger] s.parameters[a].key != #[trigger] s.parameters[b].key
}

/// Every strategy of the catalogue is well formed, and no two strategies share an identifier,
/// so that an identifier names at most one strategy.
pub proof fn lemma_catalog_well_formed()
    ensures
        forall|i: int| 0 <= i < catalog().len() ==> strategy_well_formed(#[trigger] catalog()[i]),
        forall|i: int, j: int|
            0 <= i < j < catalog().len() ==> #[trigger] catalog()[i].id != #[trigger] catalog()[j].id,
{
    reveal_strlit("classic-auto-balance");
    reveal_strlit("classic-vibrance-boost");
    reveal_strlit("classic-highlight-recovery");
    reveal_strlit("classic-gamma-lift");
    reveal_strlit("classic-local-clarity");
    reveal_strlit("ai-kmeans-scene-model");
    reveal_strlit("hybrid-skin-aware-tone");
    reveal_strlit("hybrid-subject-pop");
    reveal_strlit("blurSigma");
    reveal_strlit("clarityAmount");
    reveal_strlit("contrastBoost");
    reveal_strlit("highlightThreshold");
    reveal_strlit("recoveryStrength");
    reveal_strlit("vibrance");
    reveal_strlit("whiteBalanceStrength");
    let c = catalog();
    assert(c[0].parameters[0].key.len() != c[0].parameters[1].key.len());
    assert(strategy_well_formed(c[0]));
    assert(c[1].parameters[0].key.len() != c[1].parameters[1].key.len());
    assert(strategy_well_formed(c[1]));
    assert(c[2].parameters[0].key.len() != c[2].parameters[1].key.len());
    assert(parameter_well_formed(c[2].parameters[0]));
    assert(parameter_well_formed(c[2].parameters[1]));
    assert(strategy_well_formed(c[2]));
    assert(strategy_well_formed(c[3]));
    assert(c[4].parameters[0].key.len() != c[4].parameters[1].key.len());
    assert(parameter_well_formed(c[4].parameters[0]));
    assert(parameter_well_formed(c[4].parameters[1]));
    assert(strategy_well_formed(c[4]));
    assert(strategy_well_formed(c[5]));
    assert(strategy_well_formed(c[6]));
    assert(strategy_well_formed(c[7]));
    assert(c[0].id.len() != c[1].id.len());
    assert(c[0].id.len() != c[2].id.len());
    assert(c[0].id.len() != c[3].id.len());
    assert(c[0].id.len() != c[4].id.len());
    assert(c[0].id.len() != c[5].id.len());
    assert(c[0].id.len() != c[6].id.len());
    assert(c[0].id.len() != c[7].id.len());
    assert(c[1].id.len() != c[2].id.len());
    assert(c[1].id.len() != c[3].id.len());
    assert(c[1].id.len() != c[4].id.len());
    assert(c[1].id.len() != c[5].id.len());
    assert(c[1].id[0] != c[6].id[0]);
    assert(c[1].id.len() != c[7].id.len());
    assert(c[2].id.len() != c[3].id.len());
    assert(c[2].id.len() != c[4].id.len());
    assert(c[2].id.len() != c[5].id.len());
    assert(c[2].id.len() != c[6].id.len());
    assert(c[2].id.len() != c[7].id.len());
    assert(c[3].id.len() != c[4].id.len());
    assert(c[3].id.len() != c[5].id.len());
    assert(c[3].id.len() != c[6].id.len());
    assert(c[3].id[0] != c[7].id[0]);
    assert(c[4].id[0] != c[5].id[0]);
    assert(c[4].id.len() != c[6].id.len());
    assert(c[4].id.len() != c[7].id.len());
    assert(c[5].id.len() != c[6].id.len());
    assert(c[5].id.len() != c[7].id.len());
    assert(c[6].id.len() != c[7].id.len());
    assert forall|i: int, j: int| 0 <= i < j < c.len() implies #[trigger] c[i].id != #[trigger] c[j].id by {
        assert(i == 0 || i == 1 || i == 2 || i == 3 || i == 4 || i == 5 || i == 6);
        assert(j == 1 || j == 2 || j == 3 || j == 4 || j == 5 || j == 6 || j == 7);
    }
}

/// A slider definition from its fields.
fn param(
    key: &str,
    label: &str,
    description: &str,
    min: i32,
    max: i32,
    step: i32,
    default_value: i32,
) -> (res: StrategyParameterDefinition)
    ensures
        res@ == parameter_spec(key@, label@, description@, min as int, max as int, step as int, default_value as int),
{
    StrategyParameterDefinition {
        key: String::from_str(key),
        label: String::from_str(label),
        description: String::from_str(description),
        min,
        max,
        step,
        default_value,
    }
}

/// A strategy definition from its fields.
fn definition(
    id: &str,
    label: &str,
    description: &str,
    tab: &str,
    family: &str,
    parameters: Vec<StrategyParameterDefinition>,
) -> (res: RetouchStrategyDefinition)
    ensures
        res@ == strategy_spec(
            id@,
            label@,
            description@,
            tab@,
            family@,
            parameters@.map_values(|p: StrategyParameterDefinition| p@),
        ),
{
    RetouchStrategyDefinition {
        id: String::from_str(id),
        label: String::from_str(label),
        description: String::from_str(description),
        tab: String::from_str(tab),
        family: String::from_str(family),
        parameters,
    }
}

/// The fixed list of strategies, for the user interface to display.
pub fn list_strategies() -> (res: Vec<RetouchStrategyDefinition>)
    ensures
        strategies_view(res@) == catalog(),
        res@.len() == 8,
        forall|i: int| 0 <= i < res@.len() ==> #[trigger] res@[i]@ == catalog()[i],
        res@[0]@.id == "classic-auto-balance"@ && res@[0]@.tab == "classic"@ && res@[0]@.family == "classic"@,
        res@[0]@.parameters[0].key == "whiteBalanceStrength"@ && res@[0]@.parameters[0].min == 0 && res@[0]@.parameters[0].max == 100 && res@[0]@.parameters[0].step == 1 && res@[0]@.parameters[0].default_value == 72,
        res@[0]@.parameters[1].key == "contrastBoost"@ && res@[0]@.parameters[1].min == 0 && res@[0]@.parameters[1].max == 50 && res@[0]@.parameters[1].step == 1 && res@[0]@.parameters[1].default_value == 18,
        res@[1]@.id == "classic-vibrance-boost"@ && res@[1]@.tab == "classic"@ && res@[1]@.family == "classic"@,
        res@[1]@.parameters[0].key == "vibrance"@ && res@[1]@.parameters[0].min == 0 && res@[1]@.parameters[0].max == 80 && res@[1]@.parameters[0].step == 1 && res@[1]@.parameters[0].default_value == 26,
        res@[1]@.parameters[1].key == "contrastBoost"@ && res@[1]@.parameters[1].min == 0 && res@[1]@.parameters[1].max == 50 && res@[1]@.parameters[1].step == 1 && res@[1]@.parameters[1].default_value == 10,
        res@[2]@.id == "classic-highlight-recovery"@ && res@[2]@.tab == "classic"@ && res@[2]@.family == "classic"@,
        res@[2]@.parameters[0].key == "highlightThreshold"@ && res@[2]@.parameters[0].min == 12000 && res@[2]@.parameters[0].max == 25000 && res@[2]@.parameters[0].step == 100 && res@[2]@.parameters[0].default_value == 19800,
        res@[2]@.parameters[1].key == "recoveryStrength"@ && res@[2]@.parameters[1].min == 0 && res@[2]@.parameters[1].max == 100 && res@[2]@.parameters[1].step == 1 && res@[2]@.parameters[1].default_value == 56,
        res@[3]@.id == "classic-gamma-lift"@ && res@[3]@.tab == "classic"@ && res@[3]@.family == "classic"@,
        res@[3]@.parameters[0].key == "gamma"@ && res@[3]@.parameters[0].min == 60 && res@[3]@.parameters[0].max == 180 && res@[3]@.parameters[0].step == 1 && res@[3]@.parameters[0].default_value == 120,
        res@[4]@.id == "classic-local-clarity"@ && res@[4]@.tab == "classic"@ && res@[4]@.family == "classic"@,
        res@[4]@.parameters[0].key == "clarityAmount"@ && res@[4]@.parameters[0].min == 0 && res@[4]@.parameters[0].max == 200 && res@[4]@.parameters[0].step == 1 && res@[4]@.parameters[0].default_value == 95,
        res@[4]@.parameters[1].key == "blurSigma"@ && res@[4]@.parameters[1].min == 40 && res@[4]@.parameters[1].max == 400 && res@[4]@.parameters[1].step == 1 && res@[4]@.parameters[1].default_value == 160,
        res@[5]@.id == "ai-kmeans-scene-model"@ && res@[5]@.tab == "ai"@ && res@[5]@.family == "ai"@,
        res@[5]@.parameters[0].key == "sceneStrength"@ && res@[5]@.parameters[0].min == 0 && res@[5]@.parameters[0].max == 100 && res@[5]@.parameters[0].step == 1 && res@[5]@.parameters[0].default_value == 74,
        res@[6]@.id == "hybrid-skin-aware-tone"@ && res@[6]@.tab == "ai"@ && res@[6]@.family == "hybrid"@,
        res@[6]@.parameters[0].key == "skinToneStrength"@ && res@[6]@.parameters[0].min == 0 && res@[6]@.parameters[0].max == 100 && res@[6]@.parameters[0].step == 1 && res@[6]@.parameters[0].default_value == 62,
        res@[7]@.id == "hybrid-subject-pop"@ && res@[7]@.tab == "ai"@ && res@[7]@.family == "hybrid"@,
        res@[7]@.parameters[0].key == "subjectPopStrength"@ && res@[7]@.parameters[0].min == 0 && res@[7]@.parameters[0].max == 100 && res@[7]@.parameters[0].step == 1 && res@[7]@.parameters[0].default_value == 70,
{
    proof {
        lemma_catalog_contents();
    }
    let mut res: Vec<RetouchStrategyDefinition> = Vec::new();
    let parameters = vec![
        param("whiteBalanceStrength", "WB Strength", "ホワイトバランス補正の強さ", 0, 100, 1, 72),
        param("contrastBoost", "Contrast Boost", "最終コントラスト増加量", 0, 50, 1, 18),
    ];
    assert(parameters@.map_values(|p: StrategyParameterDefinition| p@) =~= catalog()[0].parameters);
    res.push(definition("classic-auto-balance", "Auto Balance", "Gray-worldホワイトバランスと軽いコントラスト補正。", "classic", "classic", parameters));
    let parameters = vec![
        param("vibrance", "Vibrance", "彩度ブースト量", 0, 80, 1, 26),
        param("contrastBoost", "Contrast Boost", "局所の見えを整える軽いコントラスト調整", 0, 50, 1, 10),
    ];
    assert(parameters@.map_values(|p: StrategyParameterDefinition| p@) =~= catalog()[1].parameters);
    res.push(definition("classic-vibrance-boost", "Vibrance Boost", "彩度と微コントラストを同時に持ち上げる。", "classic", "classic", parameters));
    let parameters = vec![
        param("highlightThreshold", "Highlight Threshold", "圧縮を開始する明るさ閾値", 12000, 25000, 100, 19800),
        param("recoveryStrength", "Recovery Strength", "ハイライト圧縮の強さ", 0, 100, 1, 56),
    ];
    assert(parameters@.map_values(|p: StrategyParameterDefinition| p@) =~= catalog()[2].parameters);
    res.push(definition("classic-highlight-recovery", "Highlight Recovery", "ハイライトを圧縮して白飛びを抑える。", "classic", "classic", parameters));
    let parameters = vec![
        param("gamma", "Gamma", "ガンマ値（1.0より大きいほど持ち上げ）", 60, 180, 1, 120),
    ];
    assert(parameters@.map_values(|p: StrategyParameterDefinition| p@) =~= catalog()[3].parameters);
    res.push(definition("classic-gamma-lift", "Gamma Lift", "中間調を中心にトーンバランスを調整。", "classic", "classic", parameters));
    let parameters = vec![
        param("clarityAmount", "Clarity Amount", "明瞭感強調量", 0, 200, 1, 95),
        param("blurSigma", "Blur Sigma", "明瞭化に使うぼかし半径", 40, 400, 1, 160),
    ];
    assert(parameters@.map_values(|p: StrategyParameterDefinition| p@) =~= catalog()[4].parameters);
    res.push(definition("classic-local-clarity", "Local Clarity", "アンシャープマスクで局所的な明瞭感を強化。", "classic", "classic", parameters));
    let parameters = vec![
        param("sceneStrength", "Scene Strength", "シーン推定補正の反映率", 0, 100, 1, 74),
    ];
    assert(parameters@.map_values(|p: StrategyParameterDefinition| p@) =~= catalog()[5].parameters);
    res.push(definition("ai-kmeans-scene-model", "AI Scene Model (K-Means)", "色分布クラスタリングからシーン特性を推定して補正。", "ai", "ai", parameters));
    let parameters = vec![
        param("skinToneStrength", "Skin Tone Strength", "肌領域への補正強度", 0, 100, 1, 62),
    ];
    assert(parameters@.map_values(|p: StrategyParameterDefinition| p@) =~= catalog()[6].parameters);
    res.push(definition("hybrid-skin-aware-tone", "Hybrid Skin-Aware Tone", "肌色検知を使ってトーン調整を局所適用。", "ai", "hybrid", parameters));
    let parameters = vec![
        param("subjectPopStrength", "Subject Pop Strength", "推定被写体への強調量", 0, 100, 1, 70),
    ];
    assert(parameters@.map_values(|p: StrategyParameterDefinition| p@) =~= catalog()[7].parameters);
    res.push(definition("hybrid-subject-pop", "Hybrid Subject Pop", "被写体らしい領域を推定し、彩度/コントラストを重点補正。", "ai", "hybrid", parameters));
    assert(strategies_view(res@) =~= catalog());
    assert forall|i: int| 0 <= i < res@.len() implies #[trigger] res@[i]@ == catalog()[i] by {
        assert(strategies_view(res@)[i] == res@[i]@);
    }
    res
}

/// The message of a request for a strategy that the catalogue does not hold.
pub open spec fn unknown_strategy_message(strategy_id: Seq<char>) -> Seq<char> {
    "Unknown strategy_id: "@ + strategy_id
}

/// The position of the first strategy whose identifier is `strategy_id`, or,
/// where there is none, the message that says so.
pub fn find_strategy(strategies: &Vec<RetouchStrategyDefinition>, strategy_id: &str) -> (res: Result<
    usize,
    String,
>)
    ensures
        match res {
            Ok(i) => {
                &&& i < strategies@.len()
                &&& strategies@[i as int].id@ == strategy_id@
                &&& forall|j: int| 0 <= j < i ==> #[trigger] strategies@[j].id@ != strategy_id@
            },
            Err(message) => {
                &&& forall|j: int|
                    0 <= j < strategies@.len() ==> #[trigger] strategies@[j].id@ != strategy_id@
                &&& message@ == unknown_strategy_message(strategy_id@)
            },
        },
{
    let wanted = String::from_str(strategy_id);
    let n = strategies.len();
    for i in 0..n
        invariant
            n == strategies@.len(),
            wanted@ == strategy_id@,
            forall|j: int| 0 <= j < i ==> #[trigger] strategies@[j].id@ != strategy_id@,
    {
        if strategies[i].id == wanted {
            return Ok(i);
        }
    }
    let mut message = String::from_str("Unknown strategy_id: ");
    message.append(strategy_id);
    Err(message)
}

/// `merged` holds every key of `user` with the user's value, and every slider key of
/// `parameters` that `user` lacks with a value that `from_centi` gives for the slider's
/// default (the last slider of a key where several share it), and nothing else.
pub open spec fn merge_holds<V, F: Fn(i32) -> V>(
    parameters: Seq<ParameterSpec>,
    user: Map<Seq<char>, V>,
    from_centi: F,
    merged: Map<Seq<char>, V>,
) -> bool {
    &&& forall|k: Seq<char>|
        #![trigger merged.dom().contains(k)]
        merged.dom().contains(k) <==> (user.dom().contains(k) || exists|i: int|
            0 <= i < parameters.len() && #[trigger] parameters[i].key == k)
    &&& forall|k: Seq<char>| user.dom().contains(k) ==> #[trigger] merged[k] == user[k]
    &&& forall|i: int|
        0 <= i < parameters.len() && !user.dom().contains(#[trigger] parameters[i].key) && (forall|
            j: int,
        | i < j < parameters.len() ==> parameters[j].key != parameters[i].key) ==> from_centi.ensures(
            (parameters[i].default_value as i32,),
            merged[parameters[i].key],
        )
}

/// The parameters a retouch runs with: the strategy's slider defaults, each
/// turned into a value by `from_centi`, overridden by the values the user gave.
pub fn merge_params<V: Copy, F: Fn(i32) -> V>(
    strategy: &RetouchStrategyDefinition,
    user_params: &ParamMap<V>,
    from_centi: F,
) -> (res: ParamMap<V>)
    requires
        forall|c: i32| from_centi.requires((c,)),
    ensures
        merge_holds(strategy@.parameters, user_params@, from_centi, res@),
{
    let ghost ps = strategy@.parameters;
    let mut merged: ParamMap<V> = ParamMap::new();
    let n = strategy.parameters.len();
    for i in 0..n
        invariant
            n == ps.len(),
            ps == strategy@.parameters,
            forall|c: i32| from_centi.requires((c,)),
            forall|j: int| 0 <= j < i ==> merged@.dom().contains(#[trigger] ps[j].key),
            forall|k: Seq<char>|
                merged@.dom().contains(k) ==> exists|j: int| 0 <= j < i && #[trigger] ps[j].key == k,
            forall|j: int|
                0 <= j < i && (forall|l: int| j < l < i ==> ps[l].key != ps[j].key)
                    ==> from_centi.ensures((#[trigger] ps[j].default_value as i32,), merged@[ps[j].key]),
    {
        let definition = &strategy.parameters[i];
        let value = from_centi(definition.default_value);
        let ghost before = merged@;
        merged.insert(definition.key.clone(), value);
        proof {
            assert(ps[i as int] == definition@);
            assert forall|k: Seq<char>| merged@.dom().contains(k) implies exists|j: int|
                0 <= j < i + 1 && #[trigger] ps[j].key == k by {
                if k != ps[i as int].key {
                    assert(before.dom().contains(k));
                }
            }
            assert forall|j: int|
                0 <= j < i + 1 && (forall|l: int| j < l < i + 1 ==> ps[l].key != ps[j].key)
                implies from_centi.ensures((#[trigger] ps[j].default_value as i32,), merged@[ps[j].key]) by {
                if j < i {
                    assert(ps[i as int].key != ps[j].key);
                }
            }
        }
    }
    let ghost base = merged@;
    let entries = user_params.entries();
    let m = entries.len();
    for i in 0..m
        invariant
            m == entries@.len(),
            crate::params::entries_map(entries@) == user_params@,
            merged@ == base.union_prefer_right(crate::params::entries_map(entries@.take(i as int))),
    {
        let ghost before = merged@;
        merged.insert(entries[i].0.clone(), entries[i].1);
        proof {
            assert(entries@.take(i + 1).drop_last() =~= entries@.take(i as int));
            assert(merged@ =~= base.union_prefer_right(
                crate::params::entries_map(entries@.take(i + 1)),
            ));
        }
    }
    proof {
        assert(entries@.take(m as int) =~= entries@);
        assert forall|k: Seq<char>| #![trigger merged@.dom().contains(k)]
            merged@.dom().contains(k) <==> (user_params@.dom().contains(k) || exists|i: int|
                0 <= i < ps.len() && #[trigger] ps[i].key == k) by {
            if merged@.dom().contains(k) && !user_params@.dom().contains(k) {
                assert(base.dom().contains(k));
            }
        }
    }
    merged
}

/// What a retouch request runs with: the merged parameters of the catalogue strategy
/// that the request names, or, where the catalogue has none, the message that says so.
pub fn prepare_retouch<V: Copy, F: Fn(i32) -> V>(
    request: &ApplyRetouchRequest<V>,
    from_centi: F,
) -> (res: Result<ParamMap<V>, String>)
    requires
        forall|c: i32| from_centi.requires((c,)),
    ensures
        match res {
            Ok(merged) => {
                &&& exists|i: int|
                    0 <= i < catalog().len() && #[trigger] catalog()[i].id == request.strategy_id@
                &&& forall|i: int|
                    0 <= i < catalog().len() && #[trigger] catalog()[i].id == request.strategy_id@
                        ==> merge_holds(catalog()[i].parameters, request.params@, from_centi, merged@)
            },
            Err(message) => {
                &&& forall|i: int|
                    0 <= i < catalog().len() ==> #[trigger] catalog()[i].id != request.strategy_id@
                &&& message@ == unknown_strategy_message(request.strategy_id@)
            },
        },
{
    let strategy_id = request.strategy_id.as_str();
    let user_params = &request.params;
    let strategies = list_strategies();
    proof {
        lemma_catalog_well_formed();
        assert forall|i: int| 0 <= i < catalog().len() implies #[trigger] catalog()[i].id
            == strategies@[i].id@ by {
            assert(strategies_view(strategies@)[i] == strategies@[i]@);
        }
    }
    match find_strategy(&strategies, strategy_id) {
        Ok(index) => {
            let merged = merge_params(&strategies[index], user_params, from_centi);
            proof {
                assert(strategies_view(strategies@)[index as int] == strategies@[index as int]@);
                assert(catalog()[index as int].id == strategy_id@);
            }
            Ok(merged)
        },
        Err(message) => Err(message),
    }
}

} // verus!
