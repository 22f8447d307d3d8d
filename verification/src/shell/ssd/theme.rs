//! Design tokens for window decorations.

use vstd::prelude::*;

verus! {

/// A single-precision number, held by its IEEE 754 bit pattern.
#[derive(Debug, Clone, Copy, PartialEq, Eq, Structural)]
pub struct Single {
    pub bits: u32,
}

/// A color with channels from 0 to 1.
#[derive(Debug, Clone, Copy, PartialEq, Eq, Structural)]
pub struct Rgba {
    pub red: Single,
    pub green: Single,
    pub blue: Single,
    pub alpha: Single,
}

/// The color with the given channel bit patterns.
pub open spec fn rgba_of(red: u32, green: u32, blue: u32, alpha: u32) -> Rgba {
    Rgba {
        red: Single { bits: red },
        green: Single { bits: green },
        blue: Single { bits: blue },
        alpha: Single { bits: alpha },
    }
}

fn rgba(red: u32, green: u32, blue: u32, alpha: u32) -> (color: Rgba)
    ensures
        color == rgba_of(red, green, blue, alpha),
{
    Rgba {
        red: Single { bits: red },
        green: Single { bits: green },
        blue: Single { bits: blue },
        alpha: Single { bits: alpha },
    }
}

/// Bit pattern of 14, the default font size.
pub const DEFAULT_FONT_SIZE: u32 = 0x41600000;

/// Bit pattern of 0.2, the default opacity of the snap preview.
pub const DEFAULT_SNAP_OPACITY: u32 = 0x3e4ccccd;

/// Bit pattern of 1.5, the default stroke width of button icons.
pub const DEFAULT_STROKE_WIDTH: u32 = 0x3fc00000;

/// Background of the title bar of a focused window.
pub open spec fn default_title_bar_focused() -> Rgba {
    rgba_of(0x3dcb3198, 0x3db31980, 0x3e05b8ec, 0x3f800000)
}

/// Background of the title bar of an unfocused window.
pub open spec fn default_title_bar_unfocused() -> Rgba {
    rgba_of(0x3d20a0a1, 0x3ce0e0e1, 0x3d909091, 0x3f800000)
}

/// Text and icons of a focused window.
pub open spec fn default_text_focused() -> Rgba {
    rgba_of(0x3f800000, 0x3f800000, 0x3f800000, 0x3f800000)
}

/// Text and icons of an unfocused window.
pub open spec fn default_text_unfocused() -> Rgba {
    rgba_of(0x3ecccccd, 0x3ecccccd, 0x3ecccccd, 0x3f800000)
}

/// Background of the close button under the pointer.
pub open spec fn default_close_hover() -> Rgba {
    rgba_of(0x3f65e5e6, 0x3eb2b2b3, 0x3e58d8d9, 0x3f800000)
}

/// Background of the other buttons under the pointer.
pub open spec fn default_maximize_hover() -> Rgba {
    rgba_of(0x3ea3703d, 0x3ebd8a58, 0x3f3f258c, 0x3f800000)
}

/// Border of a focused window.
pub open spec fn default_border_focused() -> Rgba {
    rgba_of(0x3e74f4f5, 0x3e949495, 0x3f2aaaab, 0x3f800000)
}

/// Border of an unfocused window.
pub open spec fn default_border_unfocused() -> Rgba {
    rgba_of(0x3dcb3198, 0x3db31980, 0x3e05b8ec, 0x3f800000)
}

/// Border of a window without a focus state.
pub open spec fn default_border_default() -> Rgba {
    rgba_of(0x3da23bd6, 0x3d8a23bd, 0x3de27c16, 0x3f800000)
}

/// Fill of the snap preview.
pub open spec fn default_snap_color() -> Rgba {
    rgba_of(0x3e74f4f5, 0x3e949495, 0x3f2aaaab, 0x3f800000)
}

/// Settings for window decorations.
#[derive(Debug, Clone)]
pub struct DecorationTheme {
    pub title_bar: TitleBarTheme,
    pub buttons: ButtonsTheme,
    pub border: BorderTheme,
    pub resize: ResizeTheme,
    pub snap_preview: SnapPreviewTheme,
    pub gradient_stripe: GradientStripeTheme,
    pub button_icon: ButtonIconTheme,
}

#[derive(Debug, Clone)]
pub struct TitleBarTheme {
    pub height: i32,
    pub bg_focused: Rgba,
    pub bg_unfocused: Rgba,
    pub text_color_focused: Rgba,
    pub text_color_unfocused: Rgba,
    pub font_family: String,
    pub font_size: Single,
    pub font_weight: u16,
    pub text_padding_left: i32,
}

#[derive(Debug, Clone)]
pub struct ButtonsTheme {
    pub width: i32,
    pub close_hover_bg: Rgba,
    pub maximize_hover_bg: Rgba,
    pub minimize_hover_bg: Rgba,
}

#[derive(Debug, Clone)]
pub struct BorderTheme {
    pub width: i32,
    pub color_focused: Rgba,
    pub color_unfocused: Rgba,
    pub color_default: Rgba,
}

#[derive(Debug, Clone)]
pub struct ResizeTheme {
    pub edge_width: i32,
    pub corner_size: i32,
}

#[derive(Debug, Clone)]
pub struct SnapPreviewTheme {
    pub color: Rgba,
    pub opacity: Single,
    pub border_radius: i32,
    pub trigger_distance: i32,
}

#[derive(Debug, Clone)]
pub struct GradientStripeTheme {
    pub enabled: bool,
    pub height: i32,
    pub start_color: String,
    pub end_color: String,
}

#[derive(Debug, Clone)]
pub struct ButtonIconTheme {
    pub color: Rgba,
    pub color_unfocused: Rgba,
    pub size: i32,
    pub stroke_width: Single,
}

/// What a theme file holds. Every section and every setting may be left out.
pub struct WindowFile {
    pub title_bar: Option<WinTitleBar>,
    pub buttons: Option<WinButtons>,
    pub button_icon: Option<WinButtonIcon>,
    pub border: Option<WinBorder>,
    pub gradient_stripe: Option<WinGradientStripe>,
    pub snap_preview: Option<WinSnapPreview>,
}

pub struct WinTitleBar {
    pub height: Option<i32>,
    pub font_size: Option<Single>,
    pub font_weight: Option<u16>,
    pub text_padding_left: Option<i32>,
    pub font_family: Option<String>,
    pub bg_focused: Option<Rgba>,
    pub bg_unfocused: Option<Rgba>,
    pub text_focused: Option<Rgba>,
    pub text_unfocused: Option<Rgba>,
}

pub struct WinButtons {
    pub width: Option<i32>,
    pub close_hover_bg: Option<Rgba>,
    pub maximize_hover_bg: Option<Rgba>,
    pub minimize_hover_bg: Option<Rgba>,
}

pub struct WinButtonIcon {
    pub size: Option<i32>,
    pub stroke_width: Option<Single>,
    pub color_focused: Option<Rgba>,
    pub color_unfocused: Option<Rgba>,
}

pub struct WinBorder {
    pub width: Option<i32>,
    pub resize_edge_width: Option<i32>,
    pub resize_corner_size: Option<i32>,
    pub color_focused: Option<Rgba>,
    pub color_unfocused: Option<Rgba>,
    pub color_default: Option<Rgba>,
}

pub struct WinGradientStripe {
    pub enabled: Option<bool>,
    pub height: Option<i32>,
    pub start_color: Option<String>,
    pub end_color: Option<String>,
}

pub struct WinSnapPreview {
    pub opacity: Option<Single>,
    pub border_radius: Option<i32>,
    pub trigger_distance: Option<i32>,
    pub color: Option<Rgba>,
}

/// A setting of a section, or its default where the section or the setting is left out.
pub open spec fn setting<S, T>(
    section: Option<S>,
    field: spec_fn(S) -> Option<T>,
    default: T,
) -> T {
    match section {
        Some(held) => match field(held) {
            Some(value) => value,
            None => default,
        },
        None => default,
    }
}

/// A text setting of a section, or its default where the section or the setting is left out.
pub open spec fn text_setting<S>(
    section: Option<S>,
    field: spec_fn(S) -> Option<String>,
    default: Seq<char>,
) -> Seq<char> {
    match section {
        Some(held) => match field(held) {
            Some(value) => value@,
            None => default,
        },
        None => default,
    }
}

/// A file without any section.
pub open spec fn empty_file() -> WindowFile {
    WindowFile {
        title_bar: None,
        buttons: None,
        button_icon: None,
        border: None,
        gradient_stripe: None,
        snap_preview: None,
    }
}

impl TitleBarTheme {
    /// The theme holds what the section of the file says, and defaults elsewhere.
    pub open spec fn follows(self, section: Option<WinTitleBar>) -> bool {
        &&& self.height == setting(section, |t: WinTitleBar| t.height, 32)
        &&& self.bg_focused == setting(section, |t: WinTitleBar| t.bg_focused, default_title_bar_focused())
        &&& self.bg_unfocused == setting(section, |t: WinTitleBar| t.bg_unfocused, default_title_bar_unfocused())
        &&& self.text_color_focused == setting(section, |t: WinTitleBar| t.text_focused, default_text_focused())
        &&& self.text_color_unfocused == setting(section, |t: WinTitleBar| t.text_unfocused, default_text_unfocused())
        &&& self.font_family@ == text_setting(section, |t: WinTitleBar| t.font_family, "IBM Plex Mono"@)
        &&& self.font_size == setting(section, |t: WinTitleBar| t.font_size, Single { bits: DEFAULT_FONT_SIZE })
        &&& self.font_weight == setting(section, |t: WinTitleBar| t.font_weight, 500)
        &&& self.text_padding_left == setting(section, |t: WinTitleBar| t.text_padding_left, 12)
    }
}

impl ButtonsTheme {
    /// The theme holds what the section of the file says, and defaults elsewhere.
    pub open spec fn follows(self, section: Option<WinButtons>) -> bool {
        &&& self.width == setting(section, |b: WinButtons| b.width, 32)
        &&& self.close_hover_bg == setting(section, |b: WinButtons| b.close_hover_bg, default_close_hover())
        &&& self.maximize_hover_bg == setting(section, |b: WinButtons| b.maximize_hover_bg, default_maximize_hover())
        &&& self.minimize_hover_bg == setting(section, |b: WinButtons| b.minimize_hover_bg, default_maximize_hover())
    }
}

impl BorderTheme {
    /// The theme holds what the section of the file says, and defaults elsewhere.
    pub open spec fn follows(self, section: Option<WinBorder>) -> bool {
        &&& self.width == setting(section, |b: WinBorder| b.width, 2)
        &&& self.color_focused == setting(section, |b: WinBorder| b.color_focused, default_border_focused())
        &&& self.color_unfocused == setting(section, |b: WinBorder| b.color_unfocused, default_border_unfocused())
        &&& self.color_default == setting(section, |b: WinBorder| b.color_default, default_border_default())
    }
}

impl ResizeTheme {
    /// The theme holds what the section of the file says, and defaults elsewhere.
    pub open spec fn follows(self, section: Option<WinBorder>) -> bool {
        &&& self.edge_width == setting(section, |b: WinBorder| b.resize_edge_width, 6)
        &&& self.corner_size == setting(section, |b: WinBorder| b.resize_corner_size, 12)
    }
}

impl SnapPreviewTheme {
    /// The theme holds what the section of the file says, and defaults elsewhere.
    pub open spec fn follows(self, section: Option<WinSnapPreview>) -> bool {
        &&& self.color == setting(section, |s: WinSnapPreview| s.color, default_snap_color())
        &&& self.opacity == setting(section, |s: WinSnapPreview| s.opacity, Single { bits: DEFAULT_SNAP_OPACITY })
        &&& self.border_radius == setting(section, |s: WinSnapPreview| s.border_radius, 16)
        &&& self.trigger_distance == setting(section, |s: WinSnapPreview| s.trigger_distance, 16)
    }
}

impl GradientStripeTheme {
    /// The theme holds what the section of the file says, and defaults elsewhere.
    pub open spec fn follows(self, section: Option<WinGradientStripe>) -> bool {
        &&& self.enabled == setting(section, |g: WinGradientStripe| g.enabled, true)
        &&& self.height == setting(section, |g: WinGradientStripe| g.height, 3)
        &&& self.start_color@ == text_setting(section, |g: WinGradientStripe| g.start_color, "#440DC3"@)
        &&& self.end_color@ == text_setting(section, |g: WinGradientStripe| g.end_color, "#00bf63"@)
    }
}

impl ButtonIconTheme {
    /// The theme holds what the section of the file says, and defaults elsewhere.
    pub open spec fn follows(self, section: Option<WinButtonIcon>) -> bool {
        &&& self.color == setting(section, |i: WinButtonIcon| i.color_focused, default_text_focused())
        &&& self.color_unfocused == setting(section, |i: WinButtonIcon| i.color_unfocused, default_text_unfocused())
        &&& self.size == setting(section, |i: WinButtonIcon| i.size, 10)
        &&& self.stroke_width == setting(section, |i: WinButtonIcon| i.stroke_width, Single { bits: DEFAULT_STROKE_WIDTH })
    }
}

impl DecorationTheme {
    /// The theme holds what the file says, and defaults elsewhere.
    pub open spec fn follows(self, file: WindowFile) -> bool {
        &&& self.title_bar.follows(file.title_bar)
        &&& self.buttons.follows(file.buttons)
        &&& self.border.follows(file.border)
        &&& self.resize.follows(file.border)
        &&& self.snap_preview.follows(file.snap_preview)
        &&& self.gradient_stripe.follows(file.gradient_stripe)
        &&& self.button_icon.follows(file.button_icon)
    }

    /// The theme that a file describes. `file` is what was read from it; without a readable file
    /// the theme holds defaults only.
    pub fn load(file: Option<WindowFile>) -> (theme: Self)
        ensures
            theme.follows(match file {
                Some(held) => held,
                None => empty_file(),
            }),
    {
        match file {
            Some(held) => Self::from_file(held),
            None => Self::defaults(),
        }
    }

    fn from_file(file: WindowFile) -> (theme: Self)
        ensures
            theme.follows(file),
    {
        let title_bar = match file.title_bar {
            Some(section) => section,
            None => WinTitleBar {
                height: None,
                font_size: None,
                font_weight: None,
                text_padding_left: None,
                font_family: None,
                bg_focused: None,
                bg_unfocused: None,
                text_focused: None,
                text_unfocused: None,
            },
        };
        let buttons = match file.buttons {
            Some(section) => section,
            None => WinButtons {
                width: None,
                close_hover_bg: None,
                maximize_hover_bg: None,
                minimize_hover_bg: None,
            },
        };
        let border = match file.border {
            Some(section) => section,
            None => WinBorder {
                width: None,
                resize_edge_width: None,
                resize_corner_size: None,
                color_focused: None,
                color_unfocused: None,
                color_default: None,
            },
        };
        let snap = match file.snap_preview {
            Some(section) => section,
            None => WinSnapPreview {
                opacity: None,
                border_radius: None,
                trigger_distance: None,
                color: None,
            },
        };
        let stripe = match file.gradient_stripe {
            Some(section) => section,
            None => WinGradientStripe {
                enabled: None,
                height: None,
                start_color: None,
                end_color: None,
            },
        };
        let icon = match file.button_icon {
            Some(section) => section,
            None => WinButtonIcon {
                size: None,
                stroke_width: None,
                color_focused: None,
                color_unfocused: None,
            },
        };
        Self {
            title_bar: TitleBarTheme {
                height: title_bar.height.unwrap_or(32),
                bg_focused: title_bar.bg_focused.unwrap_or(rgba(0x3dcb3198, 0x3db31980, 0x3e05b8ec, 0x3f800000)),
                bg_unfocused: title_bar.bg_unfocused.unwrap_or(rgba(0x3d20a0a1, 0x3ce0e0e1, 0x3d909091, 0x3f800000)),
                text_color_focused: title_bar.text_focused.unwrap_or(rgba(0x3f800000, 0x3f800000, 0x3f800000, 0x3f800000)),
                text_color_unfocused: title_bar.text_unfocused.unwrap_or(rgba(0x3ecccccd, 0x3ecccccd, 0x3ecccccd, 0x3f800000)),
                font_family: text_or(title_bar.font_family, "IBM Plex Mono"),
                font_size: title_bar.font_size.unwrap_or(Single { bits: DEFAULT_FONT_SIZE }),
                font_weight: title_bar.font_weight.unwrap_or(500),
                text_padding_left: title_bar.text_padding_left.unwrap_or(12),
            },
            buttons: ButtonsTheme {
                width: buttons.width.unwrap_or(32),
                close_hover_bg: buttons.close_hover_bg.unwrap_or(rgba(0x3f65e5e6, 0x3eb2b2b3, 0x3e58d8d9, 0x3f800000)),
                maximize_hover_bg: buttons.maximize_hover_bg.unwrap_or(rgba(0x3ea3703d, 0x3ebd8a58, 0x3f3f258c, 0x3f800000)),
                minimize_hover_bg: buttons.minimize_hover_bg.unwrap_or(rgba(0x3ea3703d, 0x3ebd8a58, 0x3f3f258c, 0x3f800000)),
            },
            border: BorderTheme {
                width: border.width.unwrap_or(2),
                color_focused: border.color_focused.unwrap_or(rgba(0x3e74f4f5, 0x3e949495, 0x3f2aaaab, 0x3f800000)),
                color_unfocused: border.color_unfocused.unwrap_or(rgba(0x3dcb3198, 0x3db31980, 0x3e05b8ec, 0x3f800000)),
                color_default: border.color_default.unwrap_or(rgba(0x3da23bd6, 0x3d8a23bd, 0x3de27c16, 0x3f800000)),
            },
            resize: ResizeTheme {
                edge_width: border.resize_edge_width.unwrap_or(6),
                corner_size: border.resize_corner_size.unwrap_or(12),
            },
            snap_preview: SnapPreviewTheme {
                color: snap.color.unwrap_or(rgba(0x3e74f4f5, 0x3e949495, 0x3f2aaaab, 0x3f800000)),
                opacity: snap.opacity.unwrap_or(Single { bits: DEFAULT_SNAP_OPACITY }),
                border_radius: snap.border_radius.unwrap_or(16),
                trigger_distance: snap.trigger_distance.unwrap_or(16),
            },
            gradient_stripe: GradientStripeTheme {
                enabled: stripe.enabled.unwrap_or(true),
                height: stripe.height.unwrap_or(3),
                start_color: text_or(stripe.start_color, "#440DC3"),
                end_color: text_or(stripe.end_color, "#00bf63"),
            },
            button_icon: ButtonIconTheme {
                color: icon.color_focused.unwrap_or(rgba(0x3f800000, 0x3f800000, 0x3f800000, 0x3f800000)),
                color_unfocused: icon.color_unfocused.unwrap_or(rgba(0x3ecccccd, 0x3ecccccd, 0x3ecccccd, 0x3f800000)),
                size: icon.size.unwrap_or(10),
                stroke_width: icon.stroke_width.unwrap_or(Single { bits: DEFAULT_STROKE_WIDTH }),
            },
        }
    }

    /// The theme without a file.
    pub fn defaults() -> (theme: Self)
        ensures
            theme.follows(empty_file()),
    {
        Self {
            title_bar: TitleBarTheme {
                height: 32,
                bg_focused: rgba(0x3dcb3198, 0x3db31980, 0x3e05b8ec, 0x3f800000),
                bg_unfocused: rgba(0x3d20a0a1, 0x3ce0e0e1, 0x3d909091, 0x3f800000),
                text_color_focused: rgba(0x3f800000, 0x3f800000, 0x3f800000, 0x3f800000),
                text_color_unfocused: rgba(0x3ecccccd, 0x3ecccccd, 0x3ecccccd, 0x3f800000),
                font_family: "IBM Plex Mono".to_owned(),
                font_size: Single { bits: DEFAULT_FONT_SIZE },
                font_weight: 500,
                text_padding_left: 12,
            },
            buttons: ButtonsTheme {
                width: 32,
                close_hover_bg: rgba(0x3f65e5e6, 0x3eb2b2b3, 0x3e58d8d9, 0x3f800000),
                maximize_hover_bg: rgba(0x3ea3703d, 0x3ebd8a58, 0x3f3f258c, 0x3f800000),
                minimize_hover_bg: rgba(0x3ea3703d, 0x3ebd8a58, 0x3f3f258c, 0x3f800000),
            },
            border: BorderTheme {
                width: 2,
                color_focused: rgba(0x3e74f4f5, 0x3e949495, 0x3f2aaaab, 0x3f800000),
                color_unfocused: rgba(0x3dcb3198, 0x3db31980, 0x3e05b8ec, 0x3f800000),
                color_default: rgba(0x3da23bd6, 0x3d8a23bd, 0x3de27c16, 0x3f800000),
            },
            resize: ResizeTheme {
                edge_width: 6,
                corner_size: 12,
            },
            snap_preview: SnapPreviewTheme {
                color: rgba(0x3e74f4f5, 0x3e949495, 0x3f2aaaab, 0x3f800000),
                opacity: Single { bits: DEFAULT_SNAP_OPACITY },
                border_radius: 16,
                trigger_distance: 16,
            },
            gradient_stripe: GradientStripeTheme {
                enabled: true,
                height: 3,
                start_color: "#440DC3".to_owned(),
                end_color: "#00bf63".to_owned(),
            },
            button_icon: ButtonIconTheme {
                color: rgba(0x3f800000, 0x3f800000, 0x3f800000, 0x3f800000),
                color_unfocused: rgba(0x3ecccccd, 0x3ecccccd, 0x3ecccccd, 0x3f800000),
                size: 10,
                stroke_width: Single { bits: DEFAULT_STROKE_WIDTH },
            },
        }
    }
}

fn text_or(text: Option<String>, default: &str) -> (result: String)
    ensures
        result@ == match text {
            Some(given) => given@,
            None => default@,
        },
{
    match text {
        Some(given) => given,
        None => default.to_owned(),
    }
}

/// A file that sets nothing describes the default theme.
pub proof fn silent_file_means_defaults(theme: DecorationTheme, file: WindowFile)
    requires
        file.title_bar matches Some(s) ==> s.height is None && s.font_size is None && s.font_weight is None && s.text_padding_left is None && s.font_family is None && s.bg_focused is None && s.bg_unfocused is None && s.text_focused is None && s.text_unfocused is None,
        file.buttons matches Some(s) ==> s.width is None && s.close_hover_bg is None && s.maximize_hover_bg is None && s.minimize_hover_bg is None,
        file.button_icon matches Some(s) ==> s.size is None && s.stroke_width is None && s.color_focused is None && s.color_unfocused is None,
        file.border matches Some(s) ==> s.width is None && s.resize_edge_width is None && s.resize_corner_size is None && s.color_focused is None && s.color_unfocused is None && s.color_default is None,
        file.gradient_stripe matches Some(s) ==> s.enabled is None && s.height is None && s.start_color is None && s.end_color is None,
        file.snap_preview matches Some(s) ==> s.opacity is None && s.border_radius is None && s.trigger_distance is None && s.color is None,
    ensures
        theme.follows(file) <==> theme.follows(empty_file()),
{
}

/// Two themes of the same file agree in every setting.
pub proof fn file_determines_theme(a: DecorationTheme, b: DecorationTheme, file: WindowFile)
    requires
        a.follows(file),
        b.follows(file),
    ensures
        a.title_bar.height == b.title_bar.height,
        a.title_bar.bg_focused == b.title_bar.bg_focused,
        a.title_bar.bg_unfocused == b.title_bar.bg_unfocused,
        a.title_bar.text_color_focused == b.title_bar.text_color_focused,
        a.title_bar.text_color_unfocused == b.title_bar.text_color_unfocused,
        a.title_bar.font_family@ == b.title_bar.font_family@,
        a.title_bar.font_size == b.title_bar.font_size,
        a.title_bar.font_weight == b.title_bar.font_weight,
        a.title_bar.text_padding_left == b.title_bar.text_padding_left,
        a.buttons.width == b.buttons.width,
        a.buttons.close_hover_bg == b.buttons.close_hover_bg,
        a.buttons.maximize_hover_bg == b.buttons.maximize_hover_bg,
        a.buttons.minimize_hover_bg == b.buttons.minimize_hover_bg,
        a.border.width == b.border.width,
        a.border.color_focused == b.border.color_focused,
        a.border.color_unfocused == b.border.color_unfocused,
        a.border.color_default == b.border.color_default,
        a.resize.edge_width == b.resize.edge_width,
        a.resize.corner_size == b.resize.corner_size,
        a.snap_preview.color == b.snap_preview.color,
        a.snap_preview.opacity == b.snap_preview.opacity,
        a.snap_preview.border_radius == b.snap_preview.border_radius,
        a.snap_preview.trigger_distance == b.snap_preview.trigger_distance,
        a.gradient_stripe.enabled == b.gradient_stripe.enabled,
        a.gradient_stripe.height == b.gradient_stripe.height,
        a.gradient_stripe.start_color@ == b.gradient_stripe.start_color@,
        a.gradient_stripe.end_color@ == b.gradient_stripe.end_color@,
        a.button_icon.color == b.button_icon.color,
        a.button_icon.color_unfocused == b.button_icon.color_unfocused,
        a.button_icon.size == b.button_icon.size,
        a.button_icon.stroke_width == b.button_icon.stroke_width,
{
}

/// Every setting of the theme is the setting of that name in the file, if the file has it.
pub proof fn settings_come_from_the_file(theme: DecorationTheme, file: WindowFile)
    requires
        theme.follows(file),
    ensures
        file.title_bar matches Some(section) ==> {
            &&& section.height matches Some(v) ==> theme.title_bar.height == v
            &&& section.bg_focused matches Some(v) ==> theme.title_bar.bg_focused == v
            &&& section.bg_unfocused matches Some(v) ==> theme.title_bar.bg_unfocused == v
            &&& section.text_focused matches Some(v) ==> theme.title_bar.text_color_focused == v
            &&& section.text_unfocused matches Some(v) ==> theme.title_bar.text_color_unfocused == v
            &&& section.font_family matches Some(v) ==> theme.title_bar.font_family@ == v@
            &&& section.font_size matches Some(v) ==> theme.title_bar.font_size == v
            &&& section.font_weight matches Some(v) ==> theme.title_bar.font_weight == v
            &&& section.text_padding_left matches Some(v) ==> theme.title_bar.text_padding_left == v
        },
        file.buttons matches Some(section) ==> {
            &&& section.width matches Some(v) ==> theme.buttons.width == v
            &&& section.close_hover_bg matches Some(v) ==> theme.buttons.close_hover_bg == v
            &&& section.maximize_hover_bg matches Some(v) ==> theme.buttons.maximize_hover_bg == v
            &&& section.minimize_hover_bg matches Some(v) ==> theme.buttons.minimize_hover_bg == v
        },
        file.border matches Some(section) ==> {
            &&& section.width matches Some(v) ==> theme.border.width == v
            &&& section.color_focused matches Some(v) ==> theme.border.color_focused == v
            &&& section.color_unfocused matches Some(v) ==> theme.border.color_unfocused == v
            &&& section.color_default matches Some(v) ==> theme.border.color_default == v
            &&& section.resize_edge_width matches Some(v) ==> theme.resize.edge_width == v
            &&& section.resize_corner_size matches Some(v) ==> theme.resize.corner_size == v
        },
        file.snap_preview matches Some(section) ==> {
            &&& section.color matches Some(v) ==> theme.snap_preview.color == v
            &&& section.opacity matches Some(v) ==> theme.snap_preview.opacity == v
            &&& section.border_radius matches Some(v) ==> theme.snap_preview.border_radius == v
            &&& section.trigger_distance matches Some(v) ==> theme.snap_preview.trigger_distance == v
        },
        file.gradient_stripe matches Some(section) ==> {
            &&& section.enabled matches Some(v) ==> theme.gradient_stripe.enabled == v
            &&& section.height matches Some(v) ==> theme.gradient_stripe.height == v
            &&& section.start_color matches Some(v) ==> theme.gradient_stripe.start_color@ == v@
            &&& section.end_color matches Some(v) ==> theme.gradient_stripe.end_color@ == v@
        },
        file.button_icon matches Some(section) ==> {
            &&& section.color_focused matches Some(v) ==> theme.button_icon.color == v
            &&& section.color_unfocused matches Some(v) ==> theme.button_icon.color_unfocused == v
            &&& section.size matches Some(v) ==> theme.button_icon.size == v
            &&& section.stroke_width matches Some(v) ==> theme.button_icon.stroke_width == v
        },
{
}

/// A setting that the file leaves out, by itself or with its section, is the same as without a file,
/// whatever else the file holds.
pub proof fn missing_settings_are_defaults(
    theme: DecorationTheme,
    file: WindowFile,
    default: DecorationTheme,
)
    requires
        theme.follows(file),
        default.follows(empty_file()),
    ensures
        (file.title_bar matches Some(s) ==> s.height is None) ==> theme.title_bar.height
            == default.title_bar.height,
        (file.title_bar matches Some(s) ==> s.bg_focused is None) ==> theme.title_bar.bg_focused
            == default.title_bar.bg_focused,
        (file.title_bar matches Some(s) ==> s.bg_unfocused is None) ==> theme.title_bar.bg_unfocused
            == default.title_bar.bg_unfocused,
        (file.title_bar matches Some(s) ==> s.text_focused is None)
            ==> theme.title_bar.text_color_focused == default.title_bar.text_color_focused,
        (file.title_bar matches Some(s) ==> s.text_unfocused is None)
            ==> theme.title_bar.text_color_unfocused == default.title_bar.text_color_unfocused,
        (file.title_bar matches Some(s) ==> s.font_family is None) ==> theme.title_bar.font_family@
            == default.title_bar.font_family@,
        (file.title_bar matches Some(s) ==> s.font_size is None) ==> theme.title_bar.font_size
            == default.title_bar.font_size,
        (file.title_bar matches Some(s) ==> s.font_weight is None) ==> theme.title_bar.font_weight
            == default.title_bar.font_weight,
        (file.title_bar matches Some(s) ==> s.text_padding_left is None)
            ==> theme.title_bar.text_padding_left == default.title_bar.text_padding_left,
        (file.buttons matches Some(s) ==> s.width is None) ==> theme.buttons.width
            == default.buttons.width,
        (file.buttons matches Some(s) ==> s.close_hover_bg is None) ==> theme.buttons.close_hover_bg
            == default.buttons.close_hover_bg,
        (file.buttons matches Some(s) ==> s.maximize_hover_bg is None)
            ==> theme.buttons.maximize_hover_bg == default.buttons.maximize_hover_bg,
        (file.buttons matches Some(s) ==> s.minimize_hover_bg is None)
            ==> theme.buttons.minimize_hover_bg == default.buttons.minimize_hover_bg,
        (file.border matches Some(s) ==> s.width is None) ==> theme.border.width
            == default.border.width,
        (file.border matches Some(s) ==> s.color_focused is None) ==> theme.border.color_focused
            == default.border.color_focused,
        (file.border matches Some(s) ==> s.color_unfocused is None) ==> theme.border.color_unfocused
            == default.border.color_unfocused,
        (file.border matches Some(s) ==> s.color_default is None) ==> theme.border.color_default
            == default.border.color_default,
        (file.border matches Some(s) ==> s.resize_edge_width is None) ==> theme.resize.edge_width
            == default.resize.edge_width,
        (file.border matches Some(s) ==> s.resize_corner_size is None) ==> theme.resize.corner_size
            == default.resize.corner_size,
        (file.snap_preview matches Some(s) ==> s.color is None) ==> theme.snap_preview.color
            == default.snap_preview.color,
        (file.snap_preview matches Some(s) ==> s.opacity is None) ==> theme.snap_preview.opacity
            == default.snap_preview.opacity,
        (file.snap_preview matches Some(s) ==> s.border_radius is None)
            ==> theme.snap_preview.border_radius == default.snap_preview.border_radius,
        (file.snap_preview matches Some(s) ==> s.trigger_distance is None)
            ==> theme.snap_preview.trigger_distance == default.snap_preview.trigger_distance,
        (file.gradient_stripe matches Some(s) ==> s.enabled is None) ==> theme.gradient_stripe.enabled
            == default.gradient_stripe.enabled,
        (file.gradient_stripe matches Some(s) ==> s.height is None) ==> theme.gradient_stripe.height
            == default.gradient_stripe.height,
        (file.gradient_stripe matches Some(s) ==> s.start_color is None)
            ==> theme.gradient_stripe.start_color@ == default.gradient_stripe.start_color@,
        (file.gradient_stripe matches Some(s) ==> s.end_color is None)
            ==> theme.gradient_stripe.end_color@ == default.gradient_stripe.end_color@,
        (file.button_icon matches Some(s) ==> s.color_focused is None) ==> theme.button_icon.color
            == default.button_icon.color,
        (file.button_icon matches Some(s) ==> s.color_unfocused is None)
            ==> theme.button_icon.color_unfocused == default.button_icon.color_unfocused,
        (file.button_icon matches Some(s) ==> s.size is None) ==> theme.button_icon.size
            == default.button_icon.size,
        (file.button_icon matches Some(s) ==> s.stroke_width is None)
            ==> theme.button_icon.stroke_width == default.button_icon.stroke_width,
{
}

} // verus!
