//! Classification of cloud cover and the day flag into a sky-condition label.
use vstd::prelude::*;

verus! {

/// A sky-condition label, as shown to the user.
#[derive(Debug, Clone, Copy, PartialEq, Eq, Structural)]
pub enum SkyCover {
    Cloudy,
    MostlyCloudy,
    PartlyCloudy,
    PartlySunny,
    MostlySunny,
    MostlyClear,
    Clear,
    Undefined,
}

/// The bucket table: cloud cover in percent, and whether it is daytime
/// (a day flag of 1; any other flag counts as night).
pub open spec fn sky_cover_of(cloud_cover: int, is_day: int) -> SkyCover {
    if 0 <= cloud_cover <= 10 {
        SkyCover::Clear
    } else if 11 <= cloud_cover <= 30 {
        if is_day == 1 {
            SkyCover::MostlySunny
        } else {
            SkyCover::MostlyClear
        }
    } else if 31 <= cloud_cover <= 70 {
        if is_day == 1 {
            SkyCover::PartlySunny
        } else {
            SkyCover::PartlyCloudy
        }
    } else if 71 <= cloud_cover <= 90 {
        SkyCover::MostlyCloudy
    } else if 91 <= cloud_cover <= 100 {
        SkyCover::Cloudy
    } else {
        SkyCover::Undefined
    }
}

/// The text shown for each label.
pub open spec fn label_of(s: SkyCover) -> Seq<char> {
    match s {
        SkyCover::Cloudy => "cloudy"@,
        SkyCover::MostlyCloudy => "mostly cloudy"@,
        SkyCover::PartlyCloudy => "partly cloudy"@,
        SkyCover::PartlySunny => "partly sunny"@,
        SkyCover::MostlySunny => "mostly sunny"@,
        SkyCover::MostlyClear => "mostly clear"@,
        SkyCover::Clear => "clear"@,
        SkyCover::Undefined => "undefined sky cover"@,
    }
}

impl SkyCover {
    /// Classifies a cloud-cover percentage and a day flag.
    pub fn new(cloud_cover: u8, is_day: u8) -> (r: SkyCover)
        ensures
            r == sky_cover_of(cloud_cover as int, is_day as int),
    {
        if cloud_cover <= 10 {
            SkyCover::Clear
        } else if cloud_cover <= 30 {
            if is_day == 1 {
                SkyCover::MostlySunny
            } else {
                SkyCover::MostlyClear
            }
        } else if cloud_cover <= 70 {
            if is_day == 1 {
                SkyCover::PartlySunny
            } else {
                SkyCover::PartlyCloudy
            }
        } else if cloud_cover <= 90 {
            SkyCover::MostlyCloudy
        } else if cloud_cover <= 100 {
            SkyCover::Cloudy
        } else {
            SkyCover::Undefined
        }
    }

    /// The display text of the label.
    pub fn label(&self) -> (r: String)
        ensures
            r@ == label_of(*self),
    {
        let s: &str = match self {
            SkyCover::Cloudy => "cloudy",
            SkyCover::MostlyCloudy => "mostly cloudy",
            SkyCover::PartlyCloudy => "partly cloudy",
            SkyCover::PartlySunny => "partly sunny",
            SkyCover::MostlySunny => "mostly sunny",
            SkyCover::MostlyClear => "mostly clear",
            SkyCover::Clear => "clear",
            SkyCover::Undefined => "undefined sky cover",
        };
        String::from_str(s)
    }
}

/// A cover of at most ten percent is clear, by day and by night.
pub proof fn lemma_low_cover_is_clear(cloud_cover: u8, is_day: u8)
    requires
        cloud_cover <= 10,
    ensures
        sky_cover_of(cloud_cover as int, is_day as int) == SkyCover::Clear,
{
}

/// A cover from 11 to 30 percent is mostly sunny by day and mostly clear by night.
pub proof fn lemma_light_cover(cloud_cover: u8)
    requires
        11 <= cloud_cover <= 30,
    ensures
        sky_cover_of(cloud_cover as int, 1) == SkyCover::MostlySunny,
        sky_cover_of(cloud_cover as int, 0) == SkyCover::MostlyClear,
{
}

/// A cover from 31 to 70 percent is partly sunny by day and partly cloudy by night.
pub proof fn lemma_partial_cover(cloud_cover: u8)
    requires
        31 <= cloud_cover <= 70,
    ensures
        sky_cover_of(cloud_cover as int, 1) == SkyCover::PartlySunny,
        sky_cover_of(cloud_cover as int, 0) == SkyCover::PartlyCloudy,
{
}

/// A cover from 71 to 90 percent is mostly cloudy, whatever the day flag.
pub proof fn lemma_heavy_cover(cloud_cover: u8, is_day: u8)
    requires
        71 <= cloud_cover <= 90,
    ensures
        sky_cover_of(cloud_cover as int, is_day as int) == SkyCover::MostlyCloudy,
{
}

/// A cover from 91 to 100 percent is cloudy, whatever the day flag.
pub proof fn lemma_full_cover(cloud_cover: u8, is_day: u8)
    requires
        91 <= cloud_cover <= 100,
    ensures
        sky_cover_of(cloud_cover as int, is_day as int) == SkyCover::Cloudy,
{
}

} // verus!
