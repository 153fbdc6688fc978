use vstd::prelude::*;

verus! {

/// Bar placement.
#[derive(Debug, Clone, Copy, PartialEq, Eq, Structural)]
pub enum Position {
    Top,
    Bottom,
}

/// Actions a hotkey can trigger.
#[derive(Debug, Clone, Copy, PartialEq, Eq, Structural)]
pub enum HotkeyAction {
    ShowBluetooth,
    ShowWifi,
    ShowMediaControl,
    IncreaseBrightness,
    DecreaseBrightness,
    IncreaseVolume,
    DecreaseVolume,
    Mute,
}

/// Bar options.
#[derive(Debug, Clone, Copy, PartialEq, Eq, Structural)]
pub struct BarConfig {
    pub height: i32,
    pub position: Position,
    pub show_workspaces: bool,
    pub show_clock: bool,
    pub show_system_info: bool,
}

/// Theme options.
#[derive(Debug, Clone, PartialEq, Eq)]
pub struct ThemeConfig {
    pub background: String,
    pub foreground: String,
    pub accent: String,
    pub font: String,
    pub font_size: u32,
}

/// Shell configuration. Hotkeys map a key combination to an action; each
/// combination appears once.
#[derive(Debug, Clone, PartialEq, Eq)]
pub struct Config {
    pub bar: BarConfig,
    pub hotkeys: Vec<(String, HotkeyAction)>,
    pub theme: ThemeConfig,
}

pub fn default_height() -> (r: i32)
    ensures
        r == 32,
{
    32
}

pub fn default_position() -> (r: Position)
    ensures
        r == Position::Top,
{
    Position::Top
}

pub fn default_true() -> (r: bool)
    ensures
        r,
{
    true
}

pub fn default_bar() -> (r: BarConfig)
    ensures
        r == (BarConfig {
            height: 32,
            position: Position::Top,
            show_workspaces: true,
            show_clock: true,
            show_system_info: true,
        }),
{
    BarConfig {
        height: default_height(),
        position: default_position(),
        show_workspaces: true,
        show_clock: true,
        show_system_info: true,
    }
}

pub fn default_background() -> (r: String)
    ensures
        r@ == "#1e1e2e"@,
{
    "#1e1e2e".to_owned()
}

pub fn default_foreground() -> (r: String)
    ensures
        r@ == "#cdd6f4"@,
{
    "#cdd6f4".to_owned()
}

pub fn default_accent() -> (r: String)
    ensures
        r@ == "#89b4fa"@,
{
    "#89b4fa".to_owned()
}

pub fn default_font() -> (r: String)
    ensures
        r@ == "Sans"@,
{
    "Sans".to_owned()
}

pub fn default_font_size() -> (r: u32)
    ensures
        r == 11,
{
    11
}

impl ThemeConfig {
    pub open spec fn is_default(&self) -> bool {
        &&& self.background@ == "#1e1e2e"@
        &&& self.foreground@ == "#cdd6f4"@
        &&& self.accent@ == "#89b4fa"@
        &&& self.font@ == "Sans"@
        &&& self.font_size == 11
    }
}

impl Default for ThemeConfig {
    fn default() -> (r: Self)
        ensures
            r.is_default(),
    {
        ThemeConfig {
            background: default_background(),
            foreground: default_foreground(),
            accent: default_accent(),
            font: default_font(),
            font_size: default_font_size(),
        }
    }
}

/// The hotkeys of a fresh configuration.
pub open spec fn default_hotkeys(h: Seq<(String, HotkeyAction)>) -> bool {
    &&& h.len() == 3
    &&& h[0].0@ == "Super+B"@ && h[0].1 == HotkeyAction::ShowBluetooth
    &&& h[1].0@ == "Super+W"@ && h[1].1 == HotkeyAction::ShowWifi
    &&& h[2].0@ == "Super+M"@ && h[2].1 == HotkeyAction::ShowMediaControl
}

/// Each key combination appears once.
pub open spec fn unique_keys(h: Seq<(String, HotkeyAction)>) -> bool {
    forall|i: int, j: int| 0 <= i < j < h.len() ==> (#[trigger] h[i]).0@ != (#[trigger] h[j]).0@
}

impl Config {
    pub open spec fn wf(&self) -> bool {
        unique_keys(self.hotkeys@)
    }
}

impl Default for Config {
    fn default() -> (r: Self)
        ensures
            r.wf(),
            r.bar == (BarConfig {
                height: 32,
                position: Position::Top,
                show_workspaces: true,
                show_clock: true,
                show_system_info: true,
            }),
            default_hotkeys(r.hotkeys@),
            r.theme.is_default(),
    {
        let mut hotkeys: Vec<(String, HotkeyAction)> = Vec::new();
        hotkeys.push(("Super+B".to_owned(), HotkeyAction::ShowBluetooth));
        hotkeys.push(("Super+W".to_owned(), HotkeyAction::ShowWifi));
        hotkeys.push(("Super+M".to_owned(), HotkeyAction::ShowMediaControl));
        proof {
            reveal_strlit("Super+B");
            reveal_strlit("Super+W");
            reveal_strlit("Super+M");
            assert("Super+B"@[6] != "Super+W"@[6]);
            assert("Super+B"@[6] != "Super+M"@[6]);
            assert("Super+W"@[6] != "Super+M"@[6]);
        }
        Config { bar: default_bar(), hotkeys, theme: ThemeConfig::default() }
    }
}

} // verus!
