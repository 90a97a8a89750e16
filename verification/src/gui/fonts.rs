//! The font of the interface: one of the system that has the characters of Chinese, where it is
//! not larger than the one that the program brings along.

use vstd::prelude::*;
use vstd::string::*;

use crate::platform::Platform;
use crate::text::{opt_text, push_text, texts};

verus! {

/// The families that are looked for, the best first.
pub open spec fn font_families(platform: Platform) -> Seq<Seq<char>> {
    match platform {
        Platform::Windows => Seq::empty().push("Microsoft YaHei UI"@).push(
            "Microsoft YaHei"@,
        ).push("SimHei"@),
        Platform::Macos => Seq::empty().push("PingFang SC"@).push("Hiragino Sans GB"@),
        Platform::Linux => Seq::empty().push("Noto Sans CJK SC"@).push("Noto Sans SC"@).push(
            "WenQuanYi Micro Hei"@,
        ).push("Source Han Sans SC"@).push("Droid Sans Fallback"@),
        _ => Seq::empty(),
    }
}

/// The families that are looked for, the best first.
pub fn preferred_system_font_families(platform: Platform) -> (families: Vec<String>)
    ensures
        texts(families@) == font_families(platform),
{
    let mut families: Vec<String> = Vec::new();
    assert(texts(families@) =~= Seq::<Seq<char>>::empty());
    match platform {
        Platform::Windows => {
            push_text(&mut families, "Microsoft YaHei UI".to_string());
            push_text(&mut families, "Microsoft YaHei".to_string());
            push_text(&mut families, "SimHei".to_string());
        },
        Platform::Macos => {
            push_text(&mut families, "PingFang SC".to_string());
            push_text(&mut families, "Hiragino Sans GB".to_string());
        },
        Platform::Linux => {
            push_text(&mut families, "Noto Sans CJK SC".to_string());
            push_text(&mut families, "Noto Sans SC".to_string());
            push_text(&mut families, "WenQuanYi Micro Hei".to_string());
            push_text(&mut families, "Source Han Sans SC".to_string());
            push_text(&mut families, "Droid Sans Fallback".to_string());
        },
        _ => {},
    }
    families
}

/// The number of the first font that is there and not larger than `limit`.
pub open spec fn first_fitting(sizes: Seq<Option<usize>>, limit: usize) -> Option<usize>
    decreases sizes.len(),
{
    if sizes.len() == 0 {
        None
    } else {
        match first_fitting(sizes.drop_last(), limit) {
            Some(index) => Some(index),
            None => match sizes.last() {
                Some(size) => if size <= limit {
                    Some((sizes.len() - 1) as usize)
                } else {
                    None
                },
                None => None,
            },
        }
    }
}

/// The number of the first of the families whose font is there and not larger than the embedded
/// one, given the sizes of the fonts that are there.
pub fn load_system_ui_font(sizes: &Vec<Option<usize>>, embedded_size: usize) -> (chosen: Option<
    usize,
>)
    ensures
        chosen == first_fitting(sizes@, embedded_size),
{
    let mut chosen: Option<usize> = None;
    for i in 0..sizes.len()
        invariant
            chosen == first_fitting(sizes@.take(i as int), embedded_size),
    {
        proof {
            assert(sizes@.take(i + 1).drop_last() =~= sizes@.take(i as int));
            assert(sizes@.take(i + 1).last() == sizes@[i as int]);
        }
        if chosen.is_none() {
            if let Some(size) = sizes[i] {
                if size <= embedded_size {
                    chosen = Some(i);
                }
            }
        }
    }
    assert(sizes@.take(sizes@.len() as int) =~= sizes@);
    chosen
}

/// The name under which a font is known: the first that it has, and else that of the family that
/// was looked for.
pub fn font_name(first: Option<String>, family: &str) -> (name: String)
    ensures
        name@ == (match opt_text(first) {
            Some(name) => name,
            None => family@,
        }),
{
    match first {
        Some(name) => name,
        None => family.to_string(),
    }
}

/// The font that is chosen is there, is not larger than the embedded one, and no better family
/// has such a font; and none is chosen only where no family has one.
pub proof fn law_best_fitting_font_is_chosen(sizes: Seq<Option<usize>>, limit: usize)
    requires
        sizes.len() <= usize::MAX,
    ensures
        match first_fitting(sizes, limit) {
            Some(index) => fits(sizes, limit, index as int) && forall|j: int|
                0 <= j < index ==> !fits(sizes, limit, j),
            None => forall|j: int| 0 <= j < sizes.len() ==> !fits(sizes, limit, j),
        },
    decreases sizes.len(),
{
    if sizes.len() > 0 {
        let fewer = sizes.drop_last();
        law_best_fitting_font_is_chosen(fewer, limit);
        assert(forall|j: int|
            0 <= j < fewer.len() ==> fits(fewer, limit, j) == fits(sizes, limit, j));
    }
}

/// The font with this number is there and not larger than `limit`.
pub open spec fn fits(sizes: Seq<Option<usize>>, limit: usize, index: int) -> bool {
    0 <= index < sizes.len() && match sizes[index] {
        Some(size) => size <= limit,
        None => false,
    }
}

/// Each desktop has its families, in the order in which they are preferred; other platforms have none.
pub proof fn law_desktops_have_their_fonts(platform: Platform)
    ensures
        font_families(Platform::Windows) == seq![
            "Microsoft YaHei UI"@,
            "Microsoft YaHei"@,
            "SimHei"@,
        ],
        font_families(Platform::Macos) == seq!["PingFang SC"@, "Hiragino Sans GB"@],
        font_families(Platform::Linux) == seq![
            "Noto Sans CJK SC"@,
            "Noto Sans SC"@,
            "WenQuanYi Micro Hei"@,
            "Source Han Sans SC"@,
            "Droid Sans Fallback"@,
        ],
        !(platform is Windows) && !(platform is Macos) && !(platform is Linux) ==> font_families(
            platform,
        ).len() == 0,
{
    assert(font_families(Platform::Windows) =~= seq![
        "Microsoft YaHei UI"@,
        "Microsoft YaHei"@,
        "SimHei"@,
    ]);
    assert(font_families(Platform::Macos) =~= seq!["PingFang SC"@, "Hiragino Sans GB"@]);
    assert(font_families(Platform::Linux) =~= seq![
        "Noto Sans CJK SC"@,
        "Noto Sans SC"@,
        "WenQuanYi Micro Hei"@,
        "Source Han Sans SC"@,
        "Droid Sans Fallback"@,
    ]);
}

} // verus!
