use vstd::prelude::*;

verus! {

/// Colour theme of a window and of its context menu.
#[derive(Clone, Copy, Debug, PartialEq, Eq, Structural)]
pub enum Theme {
    Dark,
    Light,
}

/// Snapshot of the user's settings, read once when a window's menu is built.
///
/// Accepted values: `theme` is `dark` or `light`; `sort` is `NameAsc`,
/// `NameDesc`, `DateAsc` or `DateDesc`; `timestamp` is `Normal` or
/// `Unchanged`; `mode` is `Keyboard` or `Mouse`.
#[derive(Clone, Debug)]
pub struct Settings {
    pub timestamp: String,
    pub theme: String,
    pub sort: String,
    pub mode: String,
}

/// Screen coordinates at which a popup is anchored.
#[derive(Clone, Copy, Debug, PartialEq, Eq, Structural)]
pub struct Position {
    pub x: i32,
    pub y: i32,
}

/// Whether `s` is the text of `lit`.
pub fn text_is(s: &String, lit: &str) -> (res: bool)
    ensures
        res == (s@ == lit@),
{
    let owned = lit.to_owned();
    *s == owned
}

impl Theme {
    /// The theme named by a settings value for the menu: `dark` is dark,
    /// anything else is light.
    pub open spec fn of_menu_setting(value: Seq<char>) -> Theme {
        if value == "dark"@ {
            Theme::Dark
        } else {
            Theme::Light
        }
    }

    /// The theme named by a settings value for the window chrome: `light` is
    /// light, anything else is dark.
    pub open spec fn of_window_setting(value: Seq<char>) -> Theme {
        if value == "light"@ {
            Theme::Light
        } else {
            Theme::Dark
        }
    }

    /// Theme requested by a theme-change payload, and the theme a menu is
    /// created with.
    pub fn from_menu_setting(value: &String) -> (res: Theme)
        ensures
            res == Theme::of_menu_setting(value@),
    {
        if text_is(value, "dark") {
            Theme::Dark
        } else {
            Theme::Light
        }
    }

    /// Theme applied to the window chrome when a window is prepared.
    pub fn from_window_setting(value: &String) -> (res: Theme)
        ensures
            res == Theme::of_window_setting(value@),
    {
        if text_is(value, "light") {
            Theme::Light
        } else {
            Theme::Dark
        }
    }

    /// The settings value that names this theme.
    pub fn name(&self) -> (res: String)
        ensures
            res@ == (match *self {
                Theme::Dark => "dark"@,
                Theme::Light => "light"@,
            }),
    {
        match self {
            Theme::Dark => "dark".to_owned(),
            Theme::Light => "light".to_owned(),
        }
    }
}

impl Settings {
    /// Every field holds one of its accepted values.
    pub open spec fn accepted(&self) -> bool {
        &&& (self.theme@ == "dark"@ || self.theme@ == "light"@)
        &&& (self.sort@ == "NameAsc"@ || self.sort@ == "NameDesc"@ || self.sort@ == "DateAsc"@
            || self.sort@ == "DateDesc"@)
        &&& (self.timestamp@ == "Normal"@ || self.timestamp@ == "Unchanged"@)
        &&& (self.mode@ == "Keyboard"@ || self.mode@ == "Mouse"@)
    }

    /// Tells whether every field holds one of its accepted values.
    pub fn is_accepted(&self) -> (res: bool)
        ensures
            res == self.accepted(),
    {
        (text_is(&self.theme, "dark") || text_is(&self.theme, "light")) && (text_is(
            &self.sort,
            "NameAsc",
        ) || text_is(&self.sort, "NameDesc") || text_is(&self.sort, "DateAsc") || text_is(
            &self.sort,
            "DateDesc",
        )) && (text_is(&self.timestamp, "Normal") || text_is(&self.timestamp, "Unchanged")) && (
        text_is(&self.mode, "Keyboard") || text_is(&self.mode, "Mouse"))
    }
}

/// Appearance of a window's menu, as the toolkit is given it. What is not
/// named here keeps the toolkit's default.
#[derive(Clone, Copy, Debug, PartialEq, Eq, Structural)]
pub struct MenuConfig {
    pub theme: Theme,
    /// Text colour of the dark scheme, as 0xRRGGBB.
    pub dark_color: u32,
    /// Background colour of the dark scheme.
    pub dark_background_color: u32,
    /// Background colour of a hovered item in the dark scheme.
    pub dark_hover_background_color: u32,
    pub border_size: i32,
    pub item_horizontal_padding: i32,
}

/// The appearance of the menu built for `settings`: only the theme depends on
/// them.
pub fn get_menu_config(settings: &Settings) -> (res: MenuConfig)
    ensures
        res == (MenuConfig {
            theme: Theme::of_menu_setting(settings.theme@),
            dark_color: 0xefefef,
            dark_background_color: 0x202020,
            dark_hover_background_color: 0x373535,
            border_size: 0,
            item_horizontal_padding: 20,
        }),
{
    MenuConfig {
        theme: Theme::from_menu_setting(&settings.theme),
        dark_color: 0xefefef,
        dark_background_color: 0x202020,
        dark_hover_background_color: 0x373535,
        border_size: 0,
        item_horizontal_padding: 20,
    }
}

} // verus!
