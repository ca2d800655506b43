//! What may be entered for each setting, and which typed value an accepted
//! entry stands for.

use vstd::prelude::*;
use crate::selector::{
    aa_mode_by_name, aa_mode_labels, quality_level, render_scale_tenths, MAX_QUALITY, aa_mode_selector, generate_selector, get_num_by_option_name,
    lemma_quality_labels_distinct, quality_label, quality_labels, render_scale_labels,
    render_scale_selector, shadow_labels, shadow_selector,
};
use crate::setting::{display_label, GraphicsSetting};
use vstd::string::StringExecFns;
use crate::text::{decimal_u16, parse_u16, position_of, text_eq, views};

verus! {

/// Lowest frame-rate cap accepted.
pub const MIN_FPS: u16 = 30;

/// Highest frame-rate cap accepted.
pub const MAX_FPS: u16 = 120;

/// Outcome of checking a typed frame-rate entry.
#[derive(Debug, Clone, Copy, PartialEq, Eq, Structural)]
pub enum FpsCheck {
    Valid,
    /// A number, but outside 30 to 120.
    OutOfRange,
    /// Not a decimal number that fits in 16 bits.
    NotANumber,
}

/// The frame-rate cap that `s` stands for, if it is an accepted entry.
pub open spec fn fps_value(s: Seq<char>) -> Option<u16> {
    match decimal_u16(s) {
        Some(n) => if MIN_FPS <= n <= MAX_FPS {
            Some(n)
        } else {
            None
        },
        None => None,
    }
}

/// Checks a typed frame-rate entry.
pub fn fps_validate(input: &str) -> (r: FpsCheck)
    ensures
        r == (match decimal_u16(input@) {
            Some(n) => if MIN_FPS <= n <= MAX_FPS {
                FpsCheck::Valid
            } else {
                FpsCheck::OutOfRange
            },
            None => FpsCheck::NotANumber,
        }),
{
    match parse_u16(input) {
        Some(fps) => if MIN_FPS <= fps && fps <= MAX_FPS {
            FpsCheck::Valid
        } else {
            FpsCheck::OutOfRange
        },
        None => FpsCheck::NotANumber,
    }
}

/// The entries offered for a setting chosen from a list; empty for the
/// frame rate, which is typed.
pub open spec fn option_labels(key: GraphicsSetting) -> Seq<Seq<char>> {
    match key {
        GraphicsSetting::Fps => Seq::empty(),
        GraphicsSetting::EnableVSync => seq!["true"@, "false"@],
        GraphicsSetting::RenderScale => render_scale_labels(),
        GraphicsSetting::ResolutionQuality => quality_labels(1, 5),
        GraphicsSetting::ShadowQuality => shadow_labels(),
        GraphicsSetting::LightQuality => quality_labels(1, 5),
        GraphicsSetting::CharacterQuality => quality_labels(2, 4),
        GraphicsSetting::ReflectionQuality => quality_labels(1, 5),
        GraphicsSetting::BloomQuality => quality_labels(0, 5),
        GraphicsSetting::AAMode => aa_mode_labels(),
    }
}

/// The entries offered for `key`, or `None` for the frame rate, which is
/// typed rather than chosen.
pub fn select_options(key: GraphicsSetting) -> (r: Option<Vec<&'static str>>)
    ensures
        r is None <==> key == GraphicsSetting::Fps,
        r matches Some(v) ==> views(v@) == option_labels(key),
{
    match key {
        GraphicsSetting::Fps => None,
        GraphicsSetting::EnableVSync => {
            let v = vec!["true", "false"];
            assert(views(v@) =~= option_labels(key));
            Some(v)
        },
        GraphicsSetting::RenderScale => Some(render_scale_selector()),
        GraphicsSetting::ResolutionQuality => Some(generate_selector(1, 5)),
        GraphicsSetting::ShadowQuality => Some(shadow_selector()),
        GraphicsSetting::LightQuality => Some(generate_selector(1, 5)),
        GraphicsSetting::CharacterQuality => Some(generate_selector(2, 4)),
        GraphicsSetting::ReflectionQuality => Some(generate_selector(1, 5)),
        GraphicsSetting::BloomQuality => Some(generate_selector(0, 5)),
        GraphicsSetting::AAMode => {
            let modes = aa_mode_selector();
            let mut v: Vec<&'static str> = Vec::new();
            let mut i: usize = 0;
            while i < modes.len()
                invariant
                    modes@.len() == aa_mode_labels().len(),
                    forall|j: int|
                        0 <= j < modes@.len() ==> (#[trigger] modes@[j]).0@ == aa_mode_labels()[j],
                    i <= modes@.len(),
                    views(v@) == aa_mode_labels().subrange(0, i as int),
                decreases modes@.len() - i,
            {
                let ghost before = v@;
                v.push(modes[i].0);
                assert(views(v@) =~= aa_mode_labels().subrange(0, i + 1)) by {
                    assert(views(before).len() == before.len());
                    assert forall|j: int| 0 <= j < v@.len() implies views(v@)[j]
                        == #[trigger] aa_mode_labels().subrange(0, i + 1)[j] by {
                        if j < before.len() {
                            assert(views(before)[j] == before[j]@);
                        }
                    }
                }
                i = i + 1;
            }
            assert(aa_mode_labels().subrange(0, i as int) =~= aa_mode_labels());
            Some(v)
        },
    }
}

/// No entry is offered twice for the same setting.
pub proof fn lemma_option_labels_distinct(key: GraphicsSetting)
    ensures
        option_labels(key).no_duplicates(),
{
    reveal_strlit("true");
    reveal_strlit("false");
    reveal_strlit("0.6");
    reveal_strlit("0.8");
    reveal_strlit("1.0");
    reveal_strlit("1.2");
    reveal_strlit("1.4");
    reveal_strlit("1.6");
    reveal_strlit("1.8");
    reveal_strlit("2.0");
    reveal_strlit("关闭");
    reveal_strlit("TAA");
    reveal_strlit("FXAA");
    let labels = option_labels(key);
    assert forall|i: int, j: int| 0 <= i < labels.len() && 0 <= j < labels.len() && i != j implies
        labels[i] != labels[j] by {
        match key {
            GraphicsSetting::EnableVSync => {
                assert(labels[i][0] != labels[j][0]);
            },
            GraphicsSetting::RenderScale => {
                assert(labels[i][0] != labels[j][0] || labels[i][2] != labels[j][2]);
            },
            GraphicsSetting::AAMode => {
                assert(labels[i].len() != labels[j].len() || labels[i][0] != labels[j][0]);
            },
            GraphicsSetting::ResolutionQuality | GraphicsSetting::LightQuality
            | GraphicsSetting::ReflectionQuality => {
                lemma_quality_labels_distinct(1 + i, 1 + j);
            },
            GraphicsSetting::CharacterQuality => {
                lemma_quality_labels_distinct(2 + i, 2 + j);
            },
            GraphicsSetting::BloomQuality => {
                lemma_quality_labels_distinct(i, j);
            },
            GraphicsSetting::ShadowQuality => {
                let li = if i == 0 { 0 } else { i + 1 };
                let lj = if j == 0 { 0 } else { j + 1 };
                assert(labels[i] == quality_label(li));
                assert(labels[j] == quality_label(lj));
                lemma_quality_labels_distinct(li, lj);
            },
            GraphicsSetting::Fps => {},
        }
    }
}

/// The typed value written to the document for a setting.
#[derive(Debug, Clone, Copy, PartialEq, Eq, Structural)]
pub enum SettingValue {
    /// A switch: vertical sync.
    Flag(bool),
    /// A whole number: frame-rate cap, quality level or anti-aliasing code.
    Number(u16),
    /// A render scale in tenths (0.6 is 6).
    Scale(u16),
}

/// The value that entry `s` stands for under `key`, or `None` when `s` is
/// not accepted for it: the frame rate takes a number from 30 to 120; every
/// other setting takes one of its offered entries.
pub open spec fn setting_value_of(key: GraphicsSetting, s: Seq<char>) -> Option<SettingValue> {
    if key == GraphicsSetting::Fps {
        match fps_value(s) {
            Some(n) => Some(SettingValue::Number(n)),
            None => None,
        }
    } else if option_labels(key).contains(s) {
        Some(
            match key {
                GraphicsSetting::EnableVSync => SettingValue::Flag(s == "true"@),
                GraphicsSetting::RenderScale => SettingValue::Scale(
                    render_scale_tenths(render_scale_labels().index_of(s)) as u16,
                ),
                GraphicsSetting::AAMode => SettingValue::Number(aa_mode_labels().index_of(s) as u16),
                _ => SettingValue::Number(quality_level(s)),
            },
        )
    } else {
        None
    }
}

/// The value that `input` stands for under `key`, if it is accepted.
pub fn setting_value(key: GraphicsSetting, input: &str) -> (r: Option<SettingValue>)
    ensures
        r == setting_value_of(key, input@),
{
    let options = match select_options(key) {
        None => {
            return match parse_u16(input) {
                Some(n) => if MIN_FPS <= n && n <= MAX_FPS {
                    Some(SettingValue::Number(n))
                } else {
                    None
                },
                None => None,
            };
        },
        Some(v) => v,
    };
    let i = match position_of(&options, input) {
        None => {
            return None;
        },
        Some(i) => i,
    };
    proof {
        lemma_option_labels_distinct(key);
        assert(option_labels(key).contains(input@));
        assert(option_labels(key).index_of(input@) == i);
    }
    match key {
        GraphicsSetting::EnableVSync => Some(SettingValue::Flag(text_eq(input, "true"))),
        GraphicsSetting::RenderScale => Some(SettingValue::Scale(6 + 2 * (i as u16))),
        GraphicsSetting::AAMode => match aa_mode_by_name(input) {
            Some(n) => Some(SettingValue::Number(n)),
            None => None,
        },
        _ => match get_num_by_option_name(input) {
            Some(n) => {
                proof {
                    let m = quality_level(input@);
                    assert(m <= MAX_QUALITY && quality_label(m as int) == input@);
                    if m != n {
                        lemma_quality_labels_distinct(m as int, n as int);
                    }
                }
                Some(SettingValue::Number(n))
            },
            None => None,
        },
    }
}

/// The question asked when a value is wanted for `key`.
pub open spec fn prompt_text(key: GraphicsSetting) -> Seq<char> {
    match key {
        GraphicsSetting::Fps => "请输入 "@ + display_label(key) + " 欲修改的值:"@,
        GraphicsSetting::EnableVSync => "是否启用垂直同步?"@,
        _ => "请选择"@ + display_label(key),
    }
}

/// The question asked when a value is wanted for `key`.
pub fn prompt_message(key: GraphicsSetting) -> (r: String)
    ensures
        r@ == prompt_text(key),
{
    match key {
        GraphicsSetting::Fps => String::from_str("请输入 ").concat(key.display()).concat(" 欲修改的值:"),
        GraphicsSetting::EnableVSync => String::from_str("是否启用垂直同步?"),
        _ => String::from_str("请选择").concat(key.display()),
    }
}

} // verus!
