//! The settings that can be edited, with the key each one has in the
//! document and the label shown for it in the menu.

use vstd::prelude::*;
use crate::text::{text_eq, views};

verus! {

/// One field of the graphics-settings document.
#[derive(Debug, Clone, Copy, PartialEq, Eq, Structural)]
pub enum GraphicsSetting {
    /// Frame-rate cap, 30 to 120.
    Fps,
    /// Vertical sync, on or off.
    EnableVSync,
    RenderScale,
    ResolutionQuality,
    ShadowQuality,
    LightQuality,
    CharacterQuality,
    ReflectionQuality,
    BloomQuality,
    /// Anti-aliasing: 0 off, 1 TAA, 2 FXAA.
    AAMode,
}

/// The settings in menu order.
pub open spec fn all_settings() -> Seq<GraphicsSetting> {
    seq![
        GraphicsSetting::Fps,
        GraphicsSetting::EnableVSync,
        GraphicsSetting::RenderScale,
        GraphicsSetting::ResolutionQuality,
        GraphicsSetting::ShadowQuality,
        GraphicsSetting::LightQuality,
        GraphicsSetting::CharacterQuality,
        GraphicsSetting::ReflectionQuality,
        GraphicsSetting::BloomQuality,
        GraphicsSetting::AAMode,
    ]
}

/// Key of the setting in the document.
pub open spec fn key_name(g: GraphicsSetting) -> Seq<char> {
    match g {
        GraphicsSetting::Fps => "FPS"@,
        GraphicsSetting::EnableVSync => "EnableVSync"@,
        GraphicsSetting::RenderScale => "RenderScale"@,
        GraphicsSetting::ResolutionQuality => "ResolutionQuality"@,
        GraphicsSetting::ShadowQuality => "ShadowQuality"@,
        GraphicsSetting::LightQuality => "LightQuality"@,
        GraphicsSetting::CharacterQuality => "CharacterQuality"@,
        GraphicsSetting::ReflectionQuality => "ReflectionQuality"@,
        GraphicsSetting::BloomQuality => "BloomQuality"@,
        GraphicsSetting::AAMode => "AAMode"@,
    }
}

/// Label of the setting in the menu.
pub open spec fn display_label(g: GraphicsSetting) -> Seq<char> {
    match g {
        GraphicsSetting::Fps => "帧率"@,
        GraphicsSetting::EnableVSync => "垂直同步"@,
        GraphicsSetting::RenderScale => "渲染精度"@,
        GraphicsSetting::ResolutionQuality => "场景细节"@,
        GraphicsSetting::ShadowQuality => "阴影质量"@,
        GraphicsSetting::LightQuality => "光照质量"@,
        GraphicsSetting::CharacterQuality => "角色质量"@,
        GraphicsSetting::ReflectionQuality => "反射质量"@,
        GraphicsSetting::BloomQuality => "泛光效果"@,
        GraphicsSetting::AAMode => "抗锯齿"@,
    }
}

/// The menu labels in menu order.
pub open spec fn display_labels() -> Seq<Seq<char>> {
    all_settings().map_values(|g: GraphicsSetting| display_label(g))
}

/// The document keys in menu order.
pub open spec fn key_names() -> Seq<Seq<char>> {
    all_settings().map_values(|g: GraphicsSetting| key_name(g))
}

/// Every setting appears in the menu, exactly once.
pub proof fn lemma_all_settings_complete(g: GraphicsSetting)
    ensures
        all_settings().contains(g),
        forall|i: int, j: int|
            0 <= i < j < all_settings().len() ==> all_settings()[i] != all_settings()[j],
{
    let i: int = match g {
        GraphicsSetting::Fps => 0,
        GraphicsSetting::EnableVSync => 1,
        GraphicsSetting::RenderScale => 2,
        GraphicsSetting::ResolutionQuality => 3,
        GraphicsSetting::ShadowQuality => 4,
        GraphicsSetting::LightQuality => 5,
        GraphicsSetting::CharacterQuality => 6,
        GraphicsSetting::ReflectionQuality => 7,
        GraphicsSetting::BloomQuality => 8,
        GraphicsSetting::AAMode => 9,
    };
    assert(all_settings()[i] == g);
}

/// Different settings have different menu labels.
pub proof fn lemma_display_labels_distinct(a: GraphicsSetting, b: GraphicsSetting)
    requires
        a != b,
    ensures
        display_label(a) != display_label(b),
{
    reveal_strlit("帧率");
    reveal_strlit("垂直同步");
    reveal_strlit("渲染精度");
    reveal_strlit("场景细节");
    reveal_strlit("阴影质量");
    reveal_strlit("光照质量");
    reveal_strlit("角色质量");
    reveal_strlit("反射质量");
    reveal_strlit("泛光效果");
    reveal_strlit("抗锯齿");
    assert(display_label(a)[0] != display_label(b)[0] || display_label(a)[1] != display_label(b)[1]);
}

impl GraphicsSetting {
    /// Key of this setting in the document.
    pub fn as_static_str(&self) -> (r: &'static str)
        ensures
            r@ == key_name(*self),
    {
        match self {
            GraphicsSetting::Fps => "FPS",
            GraphicsSetting::EnableVSync => "EnableVSync",
            GraphicsSetting::RenderScale => "RenderScale",
            GraphicsSetting::ResolutionQuality => "ResolutionQuality",
            GraphicsSetting::ShadowQuality => "ShadowQuality",
            GraphicsSetting::LightQuality => "LightQuality",
            GraphicsSetting::CharacterQuality => "CharacterQuality",
            GraphicsSetting::ReflectionQuality => "ReflectionQuality",
            GraphicsSetting::BloomQuality => "BloomQuality",
            GraphicsSetting::AAMode => "AAMode",
        }
    }

    /// Label of this setting in the menu.
    pub fn display(&self) -> (r: &'static str)
        ensures
            r@ == display_label(*self),
    {
        match self {
            GraphicsSetting::Fps => "帧率",
            GraphicsSetting::EnableVSync => "垂直同步",
            GraphicsSetting::RenderScale => "渲染精度",
            GraphicsSetting::ResolutionQuality => "场景细节",
            GraphicsSetting::ShadowQuality => "阴影质量",
            GraphicsSetting::LightQuality => "光照质量",
            GraphicsSetting::CharacterQuality => "角色质量",
            GraphicsSetting::ReflectionQuality => "反射质量",
            GraphicsSetting::BloomQuality => "泛光效果",
            GraphicsSetting::AAMode => "抗锯齿",
        }
    }

    /// All settings in menu order.
    pub fn all() -> (r: Vec<GraphicsSetting>)
        ensures
            r@ == all_settings(),
    {
        let v = vec![
            GraphicsSetting::Fps,
            GraphicsSetting::EnableVSync,
            GraphicsSetting::RenderScale,
            GraphicsSetting::ResolutionQuality,
            GraphicsSetting::ShadowQuality,
            GraphicsSetting::LightQuality,
            GraphicsSetting::CharacterQuality,
            GraphicsSetting::ReflectionQuality,
            GraphicsSetting::BloomQuality,
            GraphicsSetting::AAMode,
        ];
        assert(v@ =~= all_settings());
        v
    }

    /// The menu labels in menu order.
    pub fn get_selector() -> (r: Vec<&'static str>)
        ensures
            views(r@) == display_labels(),
    {
        let all = GraphicsSetting::all();
        let mut v: Vec<&'static str> = Vec::new();
        let mut i: usize = 0;
        while i < all.len()
            invariant
                all@ == all_settings(),
                i <= all@.len(),
                views(v@) == display_labels().subrange(0, i as int),
            decreases all@.len() - i,
        {
            let ghost before = v@;
            v.push(all[i].display());
            assert(views(v@) =~= display_labels().subrange(0, i + 1)) by {
                assert(views(before).len() == before.len());
                assert forall|j: int| 0 <= j < v@.len() implies views(v@)[j]
                    == #[trigger] display_labels().subrange(0, i + 1)[j] by {
                    if j < before.len() {
                        assert(views(before)[j] == before[j]@);
                        assert(display_labels().subrange(0, i as int)[j] == display_labels()[j]);
                    }
                }
            }
            i = i + 1;
        }
        assert(display_labels().subrange(0, i as int) =~= display_labels());
        v
    }

    /// The setting whose menu label is `display`, if any.
    pub fn find_by_display(display: &str) -> (r: Option<GraphicsSetting>)
        ensures
            match r {
                Some(g) => display_label(g) == display@,
                None => forall|g: GraphicsSetting| display_label(g) != display@,
            },
    {
        let all = GraphicsSetting::all();
        let mut i: usize = 0;
        while i < all.len()
            invariant
                all@ == all_settings(),
                i <= all@.len(),
                forall|j: int| 0 <= j < i ==> display_label(#[trigger] all@[j]) != display@,
            decreases all@.len() - i,
        {
            if text_eq(all[i].display(), display) {
                return Some(all[i]);
            }
            i = i + 1;
        }
        assert forall|g: GraphicsSetting| display_label(g) != display@ by {
            lemma_all_settings_complete(g);
            let j = choose|j: int| 0 <= j < all@.len() && all@[j] == g;
            assert(display_label(all@[j]) != display@);
        }
        None
    }
}

} // verus!
