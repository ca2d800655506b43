use starrail_graphics::setting::GraphicsSetting;
use starrail_graphics::validator::{
    fps_validate, prompt_message, select_options, setting_value, FpsCheck, SettingValue,
};

#[test]
fn fps_in_range_is_valid() {
    assert_eq!(fps_validate("60"), FpsCheck::Valid);
    assert_eq!(fps_validate("30"), FpsCheck::Valid);
    assert_eq!(fps_validate("120"), FpsCheck::Valid);
    assert_eq!(fps_validate("+90"), FpsCheck::Valid);
    assert_eq!(fps_validate("060"), FpsCheck::Valid);
}

#[test]
fn fps_out_of_range() {
    assert_eq!(fps_validate("29"), FpsCheck::OutOfRange);
    assert_eq!(fps_validate("121"), FpsCheck::OutOfRange);
    assert_eq!(fps_validate("0"), FpsCheck::OutOfRange);
    assert_eq!(fps_validate("65535"), FpsCheck::OutOfRange);
}

#[test]
fn fps_not_a_number() {
    assert_eq!(fps_validate(""), FpsCheck::NotANumber);
    assert_eq!(fps_validate("abc"), FpsCheck::NotANumber);
    assert_eq!(fps_validate("-60"), FpsCheck::NotANumber);
    assert_eq!(fps_validate(" 60"), FpsCheck::NotANumber);
    assert_eq!(fps_validate("60.0"), FpsCheck::NotANumber);
    assert_eq!(fps_validate("65536"), FpsCheck::NotANumber);
    assert_eq!(fps_validate("+"), FpsCheck::NotANumber);
}

#[test]
fn frame_rate_is_typed_not_chosen() {
    assert_eq!(select_options(GraphicsSetting::Fps), None);
}

#[test]
fn options_for_chosen_settings() {
    assert_eq!(select_options(GraphicsSetting::EnableVSync), Some(vec!["true", "false"]));
    assert_eq!(
        select_options(GraphicsSetting::RenderScale),
        Some(vec!["0.6", "0.8", "1.0", "1.2", "1.4", "1.6", "1.8", "2.0"])
    );
    let one_to_five = Some(vec!["非常低", "低", "中", "高", "非常高"]);
    assert_eq!(select_options(GraphicsSetting::ResolutionQuality), one_to_five);
    assert_eq!(select_options(GraphicsSetting::LightQuality), one_to_five);
    assert_eq!(select_options(GraphicsSetting::ReflectionQuality), one_to_five);
    assert_eq!(select_options(GraphicsSetting::ShadowQuality), Some(vec!["关", "低", "中", "高"]));
    assert_eq!(select_options(GraphicsSetting::CharacterQuality), Some(vec!["低", "中", "高"]));
    assert_eq!(
        select_options(GraphicsSetting::BloomQuality),
        Some(vec!["关", "非常低", "低", "中", "高", "非常高"])
    );
    assert_eq!(select_options(GraphicsSetting::AAMode), Some(vec!["关闭", "TAA", "FXAA"]));
}

#[test]
fn values_of_accepted_entries() {
    assert_eq!(setting_value(GraphicsSetting::Fps, "90"), Some(SettingValue::Number(90)));
    assert_eq!(setting_value(GraphicsSetting::EnableVSync, "true"), Some(SettingValue::Flag(true)));
    assert_eq!(setting_value(GraphicsSetting::EnableVSync, "false"), Some(SettingValue::Flag(false)));
    assert_eq!(setting_value(GraphicsSetting::RenderScale, "0.6"), Some(SettingValue::Scale(6)));
    assert_eq!(setting_value(GraphicsSetting::RenderScale, "1.2"), Some(SettingValue::Scale(12)));
    assert_eq!(setting_value(GraphicsSetting::RenderScale, "2.0"), Some(SettingValue::Scale(20)));
    assert_eq!(setting_value(GraphicsSetting::AAMode, "FXAA"), Some(SettingValue::Number(2)));
    assert_eq!(setting_value(GraphicsSetting::ShadowQuality, "中"), Some(SettingValue::Number(3)));
    assert_eq!(setting_value(GraphicsSetting::BloomQuality, "关"), Some(SettingValue::Number(0)));
    assert_eq!(setting_value(GraphicsSetting::CharacterQuality, "高"), Some(SettingValue::Number(4)));
}

#[test]
fn entries_not_accepted() {
    assert_eq!(setting_value(GraphicsSetting::Fps, "200"), None);
    assert_eq!(setting_value(GraphicsSetting::Fps, "fast"), None);
    assert_eq!(setting_value(GraphicsSetting::EnableVSync, "True"), None);
    assert_eq!(setting_value(GraphicsSetting::RenderScale, "1.1"), None);
    assert_eq!(setting_value(GraphicsSetting::AAMode, "MSAA"), None);
    assert_eq!(setting_value(GraphicsSetting::ShadowQuality, "非常低"), None);
    assert_eq!(setting_value(GraphicsSetting::CharacterQuality, "非常高"), None);
    assert_eq!(setting_value(GraphicsSetting::LightQuality, "关"), None);
}

#[test]
fn prompt_messages() {
    assert_eq!(prompt_message(GraphicsSetting::Fps), "请输入 帧率 欲修改的值:");
    assert_eq!(prompt_message(GraphicsSetting::EnableVSync), "是否启用垂直同步?");
    assert_eq!(prompt_message(GraphicsSetting::ShadowQuality), "请选择阴影质量");
    assert_eq!(prompt_message(GraphicsSetting::AAMode), "请选择抗锯齿");
}
