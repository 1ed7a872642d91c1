//! The dashboard's muscle heatmap groups individual muscles into the six
//! display groups.

use vstd::prelude::*;
use crate::text::str_eq;

verus! {

/// The display group a muscle name belongs to: chest, back, shoulders,
/// arms, legs or core, each keyed by the group name itself and the
/// individual muscles it covers; an unknown name has no group.
pub open spec fn spec_muscle_group_of(m: Seq<char>) -> Option<Seq<char>> {
    if m == "胸"@ || m == "大胸筋"@ {
        Some("胸"@)
    } else if m == "背中"@ || m == "広背筋"@ || m == "僧帽筋"@ || m == "脊柱起立筋"@ {
        Some("背中"@)
    } else if m == "肩"@ || m == "三角筋"@ {
        Some("肩"@)
    } else if m == "腕"@ || m == "上腕二頭筋"@ || m == "上腕三頭筋"@ || m == "前腕"@ {
        Some("腕"@)
    } else if m == "脚"@ || m == "大腿四頭筋"@ || m == "ハムストリングス"@ || m
        == "ふくらはぎ"@ || m == "臀部"@ {
        Some("脚"@)
    } else if m == "腹"@ || m == "腹直筋"@ || m == "腹斜筋"@ {
        Some("腹"@)
    } else {
        None
    }
}

/// The heatmap group shown for a muscle name.
pub fn map_muscle_to_group(muscle: &str) -> (r: Option<&'static str>)
    ensures
        r is Some <==> spec_muscle_group_of(muscle@) is Some,
        r matches Some(g) ==> spec_muscle_group_of(muscle@) == Some(g@),
{
    if str_eq(muscle, "胸") || str_eq(muscle, "大胸筋") {
        Some("胸")
    } else if str_eq(muscle, "背中") || str_eq(muscle, "広背筋") || str_eq(muscle, "僧帽筋")
        || str_eq(muscle, "脊柱起立筋") {
        Some("背中")
    } else if str_eq(muscle, "肩") || str_eq(muscle, "三角筋") {
        Some("肩")
    } else if str_eq(muscle, "腕") || str_eq(muscle, "上腕二頭筋") || str_eq(
        muscle,
        "上腕三頭筋",
    ) || str_eq(muscle, "前腕") {
        Some("腕")
    } else if str_eq(muscle, "脚") || str_eq(muscle, "大腿四頭筋") || str_eq(
        muscle,
        "ハムストリングス",
    ) || str_eq(muscle, "ふくらはぎ") || str_eq(muscle, "臀部") {
        Some("脚")
    } else if str_eq(muscle, "腹") || str_eq(muscle, "腹直筋") || str_eq(muscle, "腹斜筋") {
        Some("腹")
    } else {
        None
    }
}

} // verus!
