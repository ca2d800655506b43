//! The option lists offered for the settings chosen from a list, and the
//! six named quality levels shared by most of them.

use vstd::prelude::*;
use crate::setting::{key_names, GraphicsSetting};
use crate::text::{text_eq, views};

verus! {

/// Name of quality level `n` (0 to 5); empty outside that range.
pub open spec fn quality_label(n: int) -> Seq<char> {
    if n == 0 {
        "关"@
    } else if n == 1 {
        "非常低"@
    } else if n == 2 {
        "低"@
    } else if n == 3 {
        "中"@
    } else if n == 4 {
        "高"@
    } else if n == 5 {
        "非常高"@
    } else {
        Seq::empty()
    }
}

/// Highest quality level.
pub const MAX_QUALITY: u16 = 5;

/// Names of the quality levels `start` to `end`, both included.
pub open spec fn quality_labels(start: int, end: int) -> Seq<Seq<char>> {
    Seq::new(if start <= end { (end - start + 1) as nat } else { 0 }, |i: int| quality_label(start + i))
}

/// Quality names offered for shadows: "off", then "low" to "high".
pub open spec fn shadow_labels() -> Seq<Seq<char>> {
    quality_labels(0, 4).remove(1)
}

/// Render scales offered, as the decimal text written to the document.
pub open spec fn render_scale_labels() -> Seq<Seq<char>> {
    seq!["0.6"@, "0.8"@, "1.0"@, "1.2"@, "1.4"@, "1.6"@, "1.8"@, "2.0"@]
}

/// Anti-aliasing modes offered; the mode's code is its position.
pub open spec fn aa_mode_labels() -> Seq<Seq<char>> {
    seq!["关闭"@, "TAA"@, "FXAA"@]
}

/// The six quality names are pairwise different.
pub proof fn lemma_quality_labels_distinct(m: int, n: int)
    requires
        0 <= m <= 5,
        0 <= n <= 5,
        m != n,
    ensures
        quality_label(m) != quality_label(n),
{
    reveal_strlit("关");
    reveal_strlit("非常低");
    reveal_strlit("低");
    reveal_strlit("中");
    reveal_strlit("高");
    reveal_strlit("非常高");
    assert(quality_label(m).len() != quality_label(n).len() || quality_label(m)[0] != quality_label(n)[0]
        || quality_label(m)[quality_label(m).len() - 1] != quality_label(n)[quality_label(n).len() - 1]);
}

/// Name of quality level `num`.
pub fn get_option_name_by_num(num: &u16) -> (r: &'static str)
    requires
        *num <= MAX_QUALITY,
    ensures
        r@ == quality_label(*num as int),
{
    match *num {
        0 => "关",
        1 => "非常低",
        2 => "低",
        3 => "中",
        4 => "高",
        _ => "非常高",
    }
}

/// Quality level whose name is `name`, if any.
pub fn get_num_by_option_name(name: &str) -> (r: Option<u16>)
    ensures
        match r {
            Some(n) => n <= MAX_QUALITY && quality_label(n as int) == name@,
            None => forall|n: int| 0 <= n <= 5 ==> quality_label(n) != name@,
        },
{
    let mut n: u16 = 0;
    while n <= MAX_QUALITY
        invariant
            n <= 6,
            forall|m: int| 0 <= m < n ==> quality_label(m) != name@,
        decreases 6 - n,
    {
        if text_eq(get_option_name_by_num(&n), name) {
            return Some(n);
        }
        n = n + 1;
    }
    None
}

/// Names of the quality levels `start` to `end`, both included, in order.
pub fn generate_selector(start: u16, end: u16) -> (r: Vec<&'static str>)
    requires
        end <= MAX_QUALITY,
    ensures
        views(r@) == quality_labels(start as int, end as int),
{
    let mut v: Vec<&'static str> = Vec::new();
    let mut n: u16 = start;
    while n <= end
        invariant
            end <= MAX_QUALITY,
            start <= end ==> start <= n <= end + 1,
            start > end ==> n == start,
            views(v@) == quality_labels(start as int, n as int - 1),
        decreases end + 1 - n,
    {
        let name = get_option_name_by_num(&n);
        let ghost before = v@;
        v.push(name);
        assert(v@ == before.push(name));
        assert(views(v@) =~= quality_labels(start as int, n as int)) by {
            assert(views(before).len() == before.len());
            assert forall|i: int| 0 <= i < v@.len() implies views(v@)[i] == #[trigger] quality_labels(
                start as int,
                n as int,
            )[i] by {
                if i < before.len() {
                    assert(views(before)[i] == before[i]@);
                }
            }
        }
        n = n + 1;
    }
    assert(views(v@) =~= quality_labels(start as int, end as int));
    v
}

/// Quality names offered for shadows.
pub fn shadow_selector() -> (r: Vec<&'static str>)
    ensures
        views(r@) == shadow_labels(),
{
    let mut v = generate_selector(0, 4);
    assert(views(v@).len() == v@.len());
    let ghost before = v@;
    v.remove(1);
    assert(v@ == before.remove(1));
    assert(views(v@) =~= shadow_labels());
    v
}

/// Render scales offered.
pub fn render_scale_selector() -> (r: Vec<&'static str>)
    ensures
        views(r@) == render_scale_labels(),
{
    let v = vec!["0.6", "0.8", "1.0", "1.2", "1.4", "1.6", "1.8", "2.0"];
    assert(views(v@) =~= render_scale_labels());
    v
}

/// Anti-aliasing modes offered, each with its code.
pub fn aa_mode_selector() -> (r: Vec<(&'static str, u16)>)
    ensures
        r@.len() == aa_mode_labels().len(),
        forall|i: int| 0 <= i < r@.len() ==> (#[trigger] r@[i]).0@ == aa_mode_labels()[i] && r@[i].1 == i,
{
    let v = vec![("关闭", 0u16), ("TAA", 1u16), ("FXAA", 2u16)];
    v
}

/// Code of the anti-aliasing mode named `name`, if any.
pub fn aa_mode_by_name(name: &str) -> (r: Option<u16>)
    ensures
        match r {
            Some(n) => n < aa_mode_labels().len() && aa_mode_labels()[n as int] == name@,
            None => !aa_mode_labels().contains(name@),
        },
{
    let modes = aa_mode_selector();
    let mut i: usize = 0;
    while i < modes.len()
        invariant
            modes@.len() == aa_mode_labels().len(),
            forall|j: int|
                0 <= j < modes@.len() ==> (#[trigger] modes@[j]).0@ == aa_mode_labels()[j]
                    && modes@[j].1 == j,
            i <= modes@.len(),
            forall|j: int| 0 <= j < i ==> aa_mode_labels()[j] != name@,
        decreases modes@.len() - i,
    {
        let (label, code) = modes[i];
        if text_eq(label, name) {
            return Some(code);
        }
        i = i + 1;
    }
    None
}

/// The quality level named `s` (meaningful when some level has that name).
pub open spec fn quality_level(s: Seq<char>) -> u16 {
    choose|n: u16| n <= MAX_QUALITY && quality_label(n as int) == s
}

/// The render scale, in tenths, of the `i`-th render-scale option.
pub open spec fn render_scale_tenths(i: int) -> int {
    6 + 2 * i
}

/// The document keys of all settings, in menu order.
pub fn get_graphics_settings() -> (r: Vec<&'static str>)
    ensures
        views(r@) == key_names(),
{
    let all = GraphicsSetting::all();
    let mut v: Vec<&'static str> = Vec::new();
    let mut i: usize = 0;
    while i < all.len()
        invariant
            all@ == crate::setting::all_settings(),
            i <= all@.len(),
            views(v@) == key_names().subrange(0, i as int),
        decreases all@.len() - i,
    {
        let ghost before = v@;
        v.push(all[i].as_static_str());
        assert(views(v@) =~= key_names().subrange(0, i + 1)) by {
            assert(views(before).len() == before.len());
            assert forall|j: int| 0 <= j < v@.len() implies views(v@)[j]
                == #[trigger] key_names().subrange(0, i + 1)[j] by {
                if j < before.len() {
                    assert(views(before)[j] == before[j]@);
                    assert(key_names().subrange(0, i as int)[j] == key_names()[j]);
                }
            }
        }
        i = i + 1;
    }
    assert(key_names().subrange(0, i as int) =~= key_names());
    v
}

} // verus!
