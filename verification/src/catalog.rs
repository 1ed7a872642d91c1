//! The read-model catalogue: exercises, muscle groups, gyms' tags,
//! supplements and gear, together with the paged-query shapes and the
//! pagination arithmetic the listing endpoints share.

use vstd::prelude::*;

verus! {

/// An exercise from master data.
pub struct Exercise {
    pub id: i64,
    pub name: String,
    pub muscle: String,
    pub muscle_group_id: Option<i32>,
    pub difficulty: String,
    pub difficulty_level_id: Option<i32>,
    pub description: Option<String>,
    pub target_muscles: Option<String>,
    pub video_path: Option<String>,
    pub display_order: Option<i32>,
}

/// A muscle group from master data.
pub struct MuscleGroup {
    pub id: i64,
    pub name: String,
    pub display_order: Option<i32>,
}

/// A gym tag from master data.
pub struct Tag {
    pub id: i64,
    pub name: Option<String>,
    pub display_order: Option<i32>,
}

/// A gym-to-tag link.
pub struct GymTag {
    pub gym_id: i64,
    pub tag_id: i64,
}

/// A supplement category.
pub struct Category {
    pub id: i32,
    pub code: String,
    pub name: String,
    pub description: Option<String>,
}

/// A supplement's evidence tier.
#[derive(Clone, Copy, PartialEq, Eq, Structural, Debug)]
pub enum Tier {
    S,
    A,
    B,
    C,
}

/// A supplement from master data.
pub struct Supplement {
    pub id: i32,
    pub category_id: i32,
    pub name: String,
    pub tier: String,
    pub description: String,
    pub dosage: Option<String>,
    pub timing: Option<String>,
    pub advice: Option<String>,
    pub display_order: Option<i32>,
    pub is_active: Option<bool>,
}

/// A purchase link attached to a supplement.
pub struct SupplementLink {
    pub id: i32,
    pub supplement_id: i32,
    pub url: String,
    pub description: Option<String>,
    pub site_type: Option<String>,
    pub display_order: Option<i32>,
}

/// One listed effect of a supplement.
pub struct Effect {
    pub id: i32,
    pub supplement_id: i32,
    pub effect_text: String,
    pub display_order: Option<i32>,
}

/// A gear category.
pub struct GearCategory {
    pub id: i32,
    pub name: String,
    pub description: Option<String>,
    pub icon_svg: Option<String>,
    pub icon_path: Option<String>,
    pub icon_color: Option<String>,
    pub display_order: Option<i32>,
}

/// A gear type within a category.
pub struct GearType {
    pub id: i32,
    pub category_id: i32,
    pub name: String,
    pub price_range: Option<String>,
    pub display_order: Option<i32>,
}

/// Whether a gear feature speaks for or against the gear.
#[derive(Clone, Copy, PartialEq, Eq, Structural, Debug)]
pub enum FeatureType {
    Merit,
    Demerit,
}

/// One merit or demerit of a gear type.
pub struct GearFeature {
    pub id: i32,
    pub gear_type_id: i32,
    pub feature_type: String,
    pub description: String,
    pub display_order: Option<i32>,
}

/// The filter and paging parameters of the exercise listing.
pub struct ExercisePagedQuery {
    pub muscles: Option<String>,
    pub difficulties: Option<String>,
    pub target_muscles: Option<String>,
    pub page: Option<i32>,
    pub size: Option<i32>,
}

/// The filter and paging parameters of the gym search.
pub struct GymSearchQuery {
    pub tags: Option<String>,
    pub max_price: Option<i32>,
    pub search: Option<String>,
    pub areas: Option<String>,
    pub page: Option<i32>,
    pub size: Option<i32>,
}

/// Paging arithmetic shared by the listing endpoints: the page count is
/// the element count divided by the page size, rounded up, and the
/// neighbouring-page flags follow from the requested page's position.
pub fn page_stats(total_elements: i64, page: i32, size: i32) -> (r: (i32, bool, bool))
    requires
        0 <= total_elements <= 1_000_000_000,
        1 <= size,
        0 <= page,
    ensures
        r.0 == (total_elements + size - 1) / (size as int),
        r.1 == (page < r.0 - 1),
        r.2 == (page > 0),
{
    let total_pages: i64 = (total_elements + size as i64 - 1) / (size as i64);
    proof {
        assert(0 <= (total_elements + size - 1) / (size as int) <= total_elements) by (
        nonlinear_arith)
            requires
                0 <= total_elements,
                1 <= size,
        ;
    }
    let total_pages: i32 = total_pages as i32;
    (total_pages, page < total_pages - 1, page > 0)
}

} // verus!
