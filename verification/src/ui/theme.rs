//! The colours of the interface, as `0xRRGGBB`, for light and dark surroundings.
use vstd::prelude::*;

verus! {

/// Light or dark surroundings.
#[derive(Clone, Copy, Debug, PartialEq, Eq, Structural)]
pub enum Mode {
    Light,
    Dark,
}

/// What the operating system says of the surroundings.
#[derive(Clone, Copy, Debug, PartialEq, Eq, Structural)]
pub enum SystemMode {
    Light,
    Dark,
    /// The system has no preference, or could not be asked.
    Unknown,
}

/// The greens of the category list, by rank; the same in light and dark.
pub const RAMP: [u32; 8] = [0x3F9C6A, 0x4FAB78, 0x6FBB90, 0x8FCBA8, 0xA5D5B9, 0xBBDFC9, 0xD5E7DC, 0xE4EFE8];

/// Every colour of the interface.
#[derive(Clone, Copy, Debug)]
pub struct Theme {
    // Surfaces.
    pub bg_canvas: u32,
    pub bg_raised: u32,
    pub bg_sunken: u32,
    pub bg_chrome: u32,
    pub bg_track: u32,
    pub bg_tab_active: u32,

    // Borders.
    pub border_strong: u32,
    pub border: u32,
    pub border_subtle: u32,

    // Text.
    pub text_primary: u32,
    pub text_body: u32,
    pub text_secondary: u32,
    pub text_tertiary: u32,
    pub text_quiet: u32,
    pub text_disabled: u32,

    // Accent and status.
    pub accent: u32,
    pub accent_hover: u32,
    pub accent_tint_bg: u32,
    pub accent_tint_border: u32,
    pub accent_eyebrow: u32,
    pub accent_muted_bar: u32,
    pub negative: u32,

    // The selected pill.
    pub pill_sel_bg: u32,
    pub pill_sel_border: u32,
    pub pill_sel_text: u32,
    pub pill_sel_count: u32,

    // Tiles without a tally.
    pub tile_empty_bg: u32,
    pub tile_empty_border: u32,
    pub tile_empty_name: u32,
    pub tile_empty_number: u32,
    pub tile_empty_category: u32,

    // Tiles with a tally.
    pub tile_active_bg: u32,
    pub tile_active_border: u32,
    pub tile_active_name: u32,
    pub tile_active_number: u32,
    pub tile_active_category: u32,

    /// The greens of the category list, by rank.
    pub ramp: [u32; 8],
}

/// The light colours.
pub open spec fn light_theme() -> Theme {
    Theme {
        bg_canvas: 0xFCFBF8,
        bg_raised: 0xFFFFFF,
        bg_sunken: 0xF7F5F0,
        bg_chrome: 0xEFEDE7,
        bg_track: 0xF1EFE9,
        bg_tab_active: 0xEDEAE2,
        border_strong: 0xD8D4CB,
        border: 0xE4E1D9,
        border_subtle: 0xEBE8E1,
        text_primary: 0x1C1B19,
        text_body: 0x35322D,
        text_secondary: 0x6C6860,
        text_tertiary: 0x9A958C,
        text_quiet: 0xA8A39A,
        text_disabled: 0xC2BDB4,
        accent: 0x3F9C6A,
        accent_hover: 0x2E7A51,
        accent_tint_bg: 0xEFF7F2,
        accent_tint_border: 0x9CC9B0,
        accent_eyebrow: 0x7A9E88,
        accent_muted_bar: 0x8FC7A8,
        negative: 0xB4483F,
        pill_sel_bg: 0xEAF3EE,
        pill_sel_border: 0x9CC9B0,
        pill_sel_text: 0x2E7A51,
        pill_sel_count: 0x3F9C6A,
        tile_empty_bg: 0xFFFFFF,
        tile_empty_border: 0xE4E1D9,
        tile_empty_name: 0x35322D,
        tile_empty_number: 0xD2CEC5,
        tile_empty_category: 0xBEB9B0,
        tile_active_bg: 0xEFF7F2,
        tile_active_border: 0x9CC9B0,
        tile_active_name: 0x1C1B19,
        tile_active_number: 0x3F9C6A,
        tile_active_category: 0x7A9E88,
        ramp: RAMP,
    }
}

/// The dark colours.
pub open spec fn dark_theme() -> Theme {
    Theme {
        bg_canvas: 0x1A1A18,
        bg_raised: 0x242421,
        bg_sunken: 0x1F1F1D,
        bg_chrome: 0x222220,
        bg_track: 0x262623,
        bg_tab_active: 0x282825,
        border_strong: 0x35352F,
        border: 0x30302B,
        border_subtle: 0x2E2E29,
        text_primary: 0xF2F1EC,
        text_body: 0xD8D6D0,
        text_secondary: 0x8B877E,
        text_tertiary: 0x85817A,
        text_quiet: 0x6E6A63,
        text_disabled: 0x514F49,
        accent: 0x4FB37D,
        accent_hover: 0x6CC495,
        accent_tint_bg: 0x22322A,
        accent_tint_border: 0x3B5A47,
        accent_eyebrow: 0x6F9A82,
        accent_muted_bar: 0x4E7D63,
        negative: 0xD16E64,
        pill_sel_bg: 0x2A3A31,
        pill_sel_border: 0x3B5A47,
        pill_sel_text: 0x7ECBA0,
        pill_sel_count: 0x4FB37D,
        tile_empty_bg: 0x201F1D,
        tile_empty_border: 0x302F2A,
        tile_empty_name: 0xCFCCC4,
        tile_empty_number: 0x48463F,
        tile_empty_category: 0x5C5952,
        tile_active_bg: 0x22322A,
        tile_active_border: 0x3B5A47,
        tile_active_name: 0xF2F1EC,
        tile_active_number: 0x7ECBA0,
        tile_active_category: 0x6F9A82,
        ramp: RAMP,
    }
}

impl Theme {
    /// The light colours.
    pub fn light() -> (r: Theme)
        ensures
            r == light_theme(),
    {
        Theme {
            bg_canvas: 0xFCFBF8,
            bg_raised: 0xFFFFFF,
            bg_sunken: 0xF7F5F0,
            bg_chrome: 0xEFEDE7,
            bg_track: 0xF1EFE9,
            bg_tab_active: 0xEDEAE2,
            border_strong: 0xD8D4CB,
            border: 0xE4E1D9,
            border_subtle: 0xEBE8E1,
            text_primary: 0x1C1B19,
            text_body: 0x35322D,
            text_secondary: 0x6C6860,
            text_tertiary: 0x9A958C,
            text_quiet: 0xA8A39A,
            text_disabled: 0xC2BDB4,
            accent: 0x3F9C6A,
            accent_hover: 0x2E7A51,
            accent_tint_bg: 0xEFF7F2,
            accent_tint_border: 0x9CC9B0,
            accent_eyebrow: 0x7A9E88,
            accent_muted_bar: 0x8FC7A8,
            negative: 0xB4483F,
            pill_sel_bg: 0xEAF3EE,
            pill_sel_border: 0x9CC9B0,
            pill_sel_text: 0x2E7A51,
            pill_sel_count: 0x3F9C6A,
            tile_empty_bg: 0xFFFFFF,
            tile_empty_border: 0xE4E1D9,
            tile_empty_name: 0x35322D,
            tile_empty_number: 0xD2CEC5,
            tile_empty_category: 0xBEB9B0,
            tile_active_bg: 0xEFF7F2,
            tile_active_border: 0x9CC9B0,
            tile_active_name: 0x1C1B19,
            tile_active_number: 0x3F9C6A,
            tile_active_category: 0x7A9E88,
            ramp: RAMP,
        }
    }

    /// The dark colours.
    pub fn dark() -> (r: Theme)
        ensures
            r == dark_theme(),
    {
        Theme {
            bg_canvas: 0x1A1A18,
            bg_raised: 0x242421,
            bg_sunken: 0x1F1F1D,
            bg_chrome: 0x222220,
            bg_track: 0x262623,
            bg_tab_active: 0x282825,
            border_strong: 0x35352F,
            border: 0x30302B,
            border_subtle: 0x2E2E29,
            text_primary: 0xF2F1EC,
            text_body: 0xD8D6D0,
            text_secondary: 0x8B877E,
            text_tertiary: 0x85817A,
            text_quiet: 0x6E6A63,
            text_disabled: 0x514F49,
            accent: 0x4FB37D,
            accent_hover: 0x6CC495,
            accent_tint_bg: 0x22322A,
            accent_tint_border: 0x3B5A47,
            accent_eyebrow: 0x6F9A82,
            accent_muted_bar: 0x4E7D63,
            negative: 0xD16E64,
            pill_sel_bg: 0x2A3A31,
            pill_sel_border: 0x3B5A47,
            pill_sel_text: 0x7ECBA0,
            pill_sel_count: 0x4FB37D,
            tile_empty_bg: 0x201F1D,
            tile_empty_border: 0x302F2A,
            tile_empty_name: 0xCFCCC4,
            tile_empty_number: 0x48463F,
            tile_empty_category: 0x5C5952,
            tile_active_bg: 0x22322A,
            tile_active_border: 0x3B5A47,
            tile_active_name: 0xF2F1EC,
            tile_active_number: 0x7ECBA0,
            tile_active_category: 0x6F9A82,
            ramp: RAMP,
        }
    }

    /// Whether the surface the interface is drawn on is dark: its red part is in the lower half.
    pub fn is_dark(&self) -> (r: bool)
        ensures
            r == ((self.bg_canvas / 0x10000) % 0x100 < 128),
    {
        (self.bg_canvas / 0x10000) % 0x100 < 128
    }

    /// The colour of a category list entry by its rank; past the greens a plain border colour.
    pub fn ramp_color(&self, rank: usize) -> (r: u32)
        ensures
            r == self.color_of_rank(rank as int),
            r == (if rank < 8 {
                self.ramp[rank as int]
            } else {
                self.border_strong
            }),
    {
        if rank < 8 {
            self.ramp[rank]
        } else {
            self.border_strong
        }
    }
}

/// The surroundings in effect: what the user chose, else what the system says, else light.
pub open spec fn effective_mode(chosen: Option<Mode>, system: SystemMode) -> Mode {
    match chosen {
        Some(m) => m,
        None => if system == SystemMode::Dark {
            Mode::Dark
        } else {
            Mode::Light
        },
    }
}

/// The colours in effect: those the user chose, else those that fit the system, else the light
/// ones.
pub fn resolve(override_mode: Option<Mode>, system: SystemMode) -> (r: Theme)
    ensures
        r == (match effective_mode(override_mode, system) {
            Mode::Light => light_theme(),
            Mode::Dark => dark_theme(),
        }),
{
    let dark = match override_mode {
        Some(Mode::Dark) => true,
        Some(Mode::Light) => false,
        None => match system {
            SystemMode::Dark => true,
            SystemMode::Light => false,
            SystemMode::Unknown => false,
        },
    };
    if dark {
        Theme::dark()
    } else {
        Theme::light()
    }
}

/// The user's choice holds whatever the system says.
pub proof fn law_choice_overrides_the_system(m: Mode, a: SystemMode, b: SystemMode)
    ensures
        effective_mode(Some(m), a) == m,
        effective_mode(Some(m), a) == effective_mode(Some(m), b),
{
}

// --- what the widgets paint ---

/// The colours of a pill.
#[derive(Clone, Copy, Debug, PartialEq, Eq, Structural)]
pub struct PillColors {
    pub fill: u32,
    pub border: u32,
    pub text: u32,
    pub count: u32,
}

/// The colours of a tile.
#[derive(Clone, Copy, Debug, PartialEq, Eq, Structural)]
pub struct TileColors {
    pub fill: u32,
    pub border: u32,
    pub name: u32,
    pub number: u32,
    pub category: u32,
}

/// How the pill looks that shows whether a task type is active.
#[derive(Clone, Copy, Debug)]
pub struct StatusPill {
    pub fill: u32,
    pub text: u32,
    pub label: &'static str,
    /// What is shown when the pointer rests on it.
    pub tip: &'static str,
}

impl Theme {
    /// The colours of a tile: other ones with a tally than without, and an accent border under
    /// the pointer.
    pub fn tile(&self, count: i64, hovered: bool) -> (r: TileColors)
        ensures
            r == self.tile_colors(count as int, hovered),
            r == (if count > 0 {
                TileColors {
                    fill: self.tile_active_bg,
                    border: if hovered {
                        self.accent
                    } else {
                        self.tile_active_border
                    },
                    name: self.tile_active_name,
                    number: self.tile_active_number,
                    category: self.tile_active_category,
                }
            } else {
                TileColors {
                    fill: self.tile_empty_bg,
                    border: if hovered {
                        self.accent
                    } else {
                        self.tile_empty_border
                    },
                    name: self.tile_empty_name,
                    number: self.tile_empty_number,
                    category: self.tile_empty_category,
                }
            }),
    {
        let border: u32 = if hovered {
            self.accent
        } else if count > 0 {
            self.tile_active_border
        } else {
            self.tile_empty_border
        };
        if count > 0 {
            TileColors {
                fill: self.tile_active_bg,
                border,
                name: self.tile_active_name,
                number: self.tile_active_number,
                category: self.tile_active_category,
            }
        } else {
            TileColors {
                fill: self.tile_empty_bg,
                border,
                name: self.tile_empty_name,
                number: self.tile_empty_number,
                category: self.tile_empty_category,
            }
        }
    }

    /// How the pill looks that shows whether a task type is active.
    pub fn status_pill(&self, active: bool) -> (r: StatusPill)
        ensures
            active ==> r.fill == self.pill_sel_bg && r.text == self.pill_sel_text && r.label@
                == "Active"@ && r.tip@ == "click to deactivate"@,
            !active ==> r.fill == self.bg_track && r.text == self.text_secondary && r.label@
                == "Inactive"@ && r.tip@ == "click to activate"@,
    {
        if active {
            StatusPill {
                fill: self.pill_sel_bg,
                text: self.pill_sel_text,
                label: "Active",
                tip: "click to deactivate",
            }
        } else {
            StatusPill {
                fill: self.bg_track,
                text: self.text_secondary,
                label: "Inactive",
                tip: "click to activate",
            }
        }
    }

    /// The colours of a category pill.
    pub fn category_pill(&self, selected: bool, hovered: bool) -> (r: PillColors)
        ensures
            r == self.pill_colors(selected, hovered),
            r == (if selected {
                PillColors {
                    fill: self.pill_sel_bg,
                    border: self.pill_sel_border,
                    text: self.pill_sel_text,
                    count: self.pill_sel_count,
                }
            } else {
                PillColors {
                    fill: self.bg_raised,
                    border: if hovered {
                        self.accent_tint_border
                    } else {
                        self.border_strong
                    },
                    text: self.text_secondary,
                    count: self.text_disabled,
                }
            }),
    {
        if selected {
            PillColors {
                fill: self.pill_sel_bg,
                border: self.pill_sel_border,
                text: self.pill_sel_text,
                count: self.pill_sel_count,
            }
        } else {
            PillColors {
                fill: self.bg_raised,
                border: if hovered {
                    self.accent_tint_border
                } else {
                    self.border_strong
                },
                text: self.text_secondary,
                count: self.text_disabled,
            }
        }
    }

    /// The colour of a day's bar: a quiet stub for an empty day, the full accent from eighteen
    /// tallies on.
    pub fn bar_color(&self, count: i64) -> (r: u32)
        ensures
            r == self.color_of_bar(count as int),
            r == (if count == 0 {
                self.border_subtle
            } else if count >= 18 {
                self.accent
            } else {
                self.accent_muted_bar
            }),
    {
        if count == 0 {
            self.border_subtle
        } else if count >= 18 {
            self.accent
        } else {
            self.accent_muted_bar
        }
    }

    /// The colour of a card's number. A zero is shown quietly rather than left out, so that the
    /// cards beside it stay where they are.
    pub fn card_color(&self, value: i64, hero: bool) -> (r: u32)
        ensures
            r == self.color_of_card(value as int, hero),
            r == (if value == 0 {
                self.text_disabled
            } else if hero {
                self.accent
            } else {
                self.text_primary
            }),
    {
        if value == 0 {
            self.text_disabled
        } else if hero {
            self.accent
        } else {
            self.text_primary
        }
    }

    /// The colour of a name in the category list: the first three stand out.
    pub fn rank_name_color(&self, rank: usize) -> (r: u32)
        ensures
            r == self.color_of_name(rank as int),
            r == (if rank < 3 {
                self.text_primary
            } else {
                self.text_secondary
            }),
    {
        if rank < 3 {
            self.text_primary
        } else {
            self.text_secondary
        }
    }
}

/// Without a choice of the user the dark colours need a system that asks for them.
pub proof fn law_light_unless_asked_for_dark(system: SystemMode)
    ensures
        effective_mode(None, SystemMode::Dark) == Mode::Dark,
        effective_mode(None, SystemMode::Light) == Mode::Light,
        effective_mode(None, SystemMode::Unknown) == Mode::Light,
        effective_mode(Some(Mode::Light), system) == Mode::Light,
        effective_mode(Some(Mode::Dark), system) == Mode::Dark,
{
}

/// Each theme lies on its side of the middle: the light one has a bright canvas under dark text,
/// the dark one a dark canvas under bright text.
pub proof fn law_text_stands_out()
    ensures
        light_theme().bg_canvas / 0x10000 >= 128,
        light_theme().text_primary / 0x10000 < 128,
        dark_theme().bg_canvas / 0x10000 < 128,
        dark_theme().text_primary / 0x10000 >= 128,
        light_theme().tile_active_bg == light_theme().accent_tint_bg,
        light_theme().tile_active_border == light_theme().accent_tint_border,
        light_theme().tile_active_name == light_theme().text_primary,
        light_theme().tile_active_number == light_theme().accent,
        light_theme().tile_active_category == light_theme().accent_eyebrow,
        light_theme().pill_sel_border == light_theme().accent_tint_border,
        light_theme().pill_sel_count == light_theme().accent,
        light_theme().tile_empty_bg == light_theme().bg_raised,
        light_theme().tile_empty_border == light_theme().border,
        light_theme().tile_empty_name == light_theme().text_body,
        dark_theme().tile_active_bg == dark_theme().accent_tint_bg,
        dark_theme().tile_active_border == dark_theme().accent_tint_border,
        dark_theme().tile_active_name == dark_theme().text_primary,
        dark_theme().tile_active_number == dark_theme().pill_sel_text,
        dark_theme().tile_active_category == dark_theme().accent_eyebrow,
        dark_theme().pill_sel_border == dark_theme().accent_tint_border,
        dark_theme().pill_sel_count == dark_theme().accent,
        light_theme().ramp == dark_theme().ramp,
{
}

impl Theme {
    /// The colours of a tile.
    pub open spec fn tile_colors(self, count: int, hovered: bool) -> TileColors {
        let resting = if count > 0 {
            TileColors {
                fill: self.tile_active_bg,
                border: self.tile_active_border,
                name: self.tile_active_name,
                number: self.tile_active_number,
                category: self.tile_active_category,
            }
        } else {
            TileColors {
                fill: self.tile_empty_bg,
                border: self.tile_empty_border,
                name: self.tile_empty_name,
                number: self.tile_empty_number,
                category: self.tile_empty_category,
            }
        };
        if hovered {
            TileColors { border: self.accent, ..resting }
        } else {
            resting
        }
    }

    /// The colours of a category pill.
    pub open spec fn pill_colors(self, selected: bool, hovered: bool) -> PillColors {
        if selected {
            PillColors {
                fill: self.pill_sel_bg,
                border: self.pill_sel_border,
                text: self.pill_sel_text,
                count: self.pill_sel_count,
            }
        } else {
            PillColors {
                fill: self.bg_raised,
                border: if hovered {
                    self.accent_tint_border
                } else {
                    self.border_strong
                },
                text: self.text_secondary,
                count: self.text_disabled,
            }
        }
    }

    /// The colour of a day's bar.
    pub open spec fn color_of_bar(self, count: int) -> u32 {
        if count == 0 {
            self.border_subtle
        } else if count >= 18 {
            self.accent
        } else {
            self.accent_muted_bar
        }
    }

    /// The colour of a card's number.
    pub open spec fn color_of_card(self, value: int, hero: bool) -> u32 {
        if value == 0 {
            self.text_disabled
        } else if hero {
            self.accent
        } else {
            self.text_primary
        }
    }

    /// The colour of a name in the category list.
    pub open spec fn color_of_name(self, rank: int) -> u32 {
        if rank < 3 {
            self.text_primary
        } else {
            self.text_secondary
        }
    }

    /// The colour of an entry of the category list.
    pub open spec fn color_of_rank(self, rank: int) -> u32 {
        if rank < 8 {
            self.ramp[rank]
        } else {
            self.border_strong
        }
    }
}

/// A tile with a tally is painted in the colours for it, whatever the count, and one without in
/// its own; under the pointer only the border changes, to the accent.
pub proof fn law_tiles_with_a_tally_stand_out(t: Theme, count: int, hovered: bool)
    ensures
        count >= 1 ==> t.tile_colors(count, hovered).fill == t.tile_active_bg && t.tile_colors(
            count,
            hovered,
        ).name == t.tile_active_name && t.tile_colors(count, hovered).number
            == t.tile_active_number && t.tile_colors(count, hovered).category
            == t.tile_active_category && t.tile_colors(count, false).border
            == t.tile_active_border,
        count <= 0 ==> t.tile_colors(count, hovered).fill == t.tile_empty_bg && t.tile_colors(
            count,
            hovered,
        ).name == t.tile_empty_name && t.tile_colors(count, hovered).number == t.tile_empty_number
            && t.tile_colors(count, hovered).category == t.tile_empty_category && t.tile_colors(
            count,
            false,
        ).border == t.tile_empty_border,
        t.tile_colors(count, true).border == t.accent,
{
}

/// The selected pill looks the same under the pointer; another one changes its border only.
pub proof fn law_selected_pill_stands_out(t: Theme, hovered: bool)
    ensures
        t.pill_colors(true, hovered).fill == t.pill_sel_bg,
        t.pill_colors(true, hovered).border == t.pill_sel_border,
        t.pill_colors(true, hovered).text == t.pill_sel_text,
        t.pill_colors(true, hovered).count == t.pill_sel_count,
        t.pill_colors(false, hovered).fill == t.bg_raised,
        t.pill_colors(false, hovered).text == t.text_secondary,
        t.pill_colors(false, hovered).count == t.text_disabled,
        t.pill_colors(false, true).border == t.accent_tint_border,
        t.pill_colors(false, false).border == t.border_strong,
{
}

/// A bar takes the full accent from eighteen tallies on, a zero is quiet, the first three names of
/// the list stand out, and the first eight entries have a green of their own.
pub proof fn law_numbers_choose_their_colour(t: Theme, n: int, hero: bool)
    ensures
        t.color_of_bar(0) == t.border_subtle,
        1 <= n <= 17 ==> t.color_of_bar(n) == t.accent_muted_bar,
        n >= 18 ==> t.color_of_bar(n) == t.accent,
        t.color_of_card(0, hero) == t.text_disabled,
        n != 0 ==> t.color_of_card(n, true) == t.accent && t.color_of_card(n, false)
            == t.text_primary,
        0 <= n <= 2 ==> t.color_of_name(n) == t.text_primary,
        n >= 3 ==> t.color_of_name(n) == t.text_secondary,
        0 <= n <= 7 ==> t.color_of_rank(n) == t.ramp[n],
        n >= 8 ==> t.color_of_rank(n) == t.border_strong,
{
}

} // verus!
