//! Server-side decorations.

pub mod geometry;
pub mod icons;
pub mod input;
pub mod render;
pub mod theme;

use vstd::prelude::*;
use vstd::utf8::{encode_scalar, encode_utf8};

use self::render::{
    allocatable, render_title_bar, surface_exists, GradientConfig, HoverState, TitleBarDrawing,
    TitleBarStyle,
};
use self::theme::{rgba_of, DecorationTheme, Rgba, Single};
use crate::shell::{Request, SsdAction, WindowSurface};
use crate::text::{digit, digit_value, digits_value};
use crate::utils::{
    cast_i32, cast_u32, in_i32, wrapped_i32, wrapped_u32, Point, Position, Serial, Size,
};
use crate::SeatId;

verus! {

/// Height of the title bar in logical pixels.
pub const HEADER_BAR_HEIGHT: i32 = 32;

/// A text without its leading `#` signs, as bytes.
pub open spec fn without_hashes(bytes: Seq<u8>) -> Seq<u8>
    decreases bytes.len(),
{
    if bytes.len() > 0 && bytes[0] == 0x23 {
        without_hashes(bytes.skip(1))
    } else {
        bytes
    }
}

/// The color channel that two hexadecimal digits stand for.
pub open spec fn channel_at(digits: Seq<u8>, at: int) -> Option<int> {
    digits_value(digits.subrange(at, at + 2), 16)
}

/// All bytes are hexadecimal digits.
pub open spec fn all_hexadecimal(bytes: Seq<u8>) -> bool {
    forall|i: int| 0 <= i < bytes.len() ==> digit_value(#[trigger] bytes[i], 16) is Some
}

/// The channels of a hexadecimal color: six hexadecimal digits after any number of `#` signs, two
/// for each channel.
pub open spec fn hex_channels(text: Seq<char>) -> Option<Seq<u8>> {
    let digits = without_hashes(encode_utf8(text));
    if digits.len() != 6 {
        None
    } else {
        match (channel_at(digits, 0), channel_at(digits, 2), channel_at(digits, 4)) {
            (Some(red), Some(green), Some(blue)) => Some(
                seq![red as u8, green as u8, blue as u8],
            ),
            _ => None,
        }
    }
}

/// The byte is not the first one of its character.
pub open spec fn continues_character(byte: u8) -> bool {
    0x80 <= byte < 0xc0
}

/// The six bytes of a hexadecimal color can be cut into channels: no cut that is made falls inside
/// a character.
pub open spec fn can_be_cut(text: Seq<char>) -> bool {
    let digits = without_hashes(encode_utf8(text));
    digits.len() == 6 ==> {
        &&& !continues_character(digits[2])
        &&& channel_at(digits, 0) is Some ==> !continues_character(digits[4])
    }
}

fn channel(digits: &[u8], at: usize) -> (value: Option<u8>)
    requires
        at + 2 <= digits@.len(),
    ensures
        value is Some <==> channel_at(digits@, at as int) is Some,
        value matches Some(v) ==> channel_at(digits@, at as int) == Some(v as int),
{
    proof {
        two_digits(digits@, at as int);
    }
    let length: usize = digits.len();
    assert(at + 1 < length);
    match (digit(digits[at], 16), digit(digits[at + 1], 16)) {
        (Some(high), Some(low)) => Some((high * 16 + low) as u8),
        _ => None,
    }
}

/// Two digits are a number if and only if both are digits.
proof fn two_digits(digits: Seq<u8>, at: int)
    requires
        0 <= at,
        at + 2 <= digits.len(),
    ensures
        channel_at(digits, at) == match (
            digit_value(digits[at], 16),
            digit_value(digits[at + 1], 16),
        ) {
            (Some(high), Some(low)) => Some(high * 16 + low),
            _ => None,
        },
{
    reveal_with_fuel(digits_value, 3);
    let both = digits.subrange(at, at + 2);
    assert(both.drop_last().drop_last() =~= Seq::<u8>::empty());
    assert(both.drop_last().last() == digits[at]);
    assert(both.last() == digits[at + 1]);
}

/// Parses a hexadecimal color to its channels.
pub fn hex_to_rgb(hex: &str) -> (rgb: Option<[u8; 3]>)
    requires
        can_be_cut(hex@),
    ensures
        rgb is Some <==> {
            let digits = without_hashes(encode_utf8(hex@));
            digits.len() == 6 && all_hexadecimal(digits)
        },
        rgb is Some <==> hex_channels(hex@) is Some,
        rgb matches Some(channels) ==> hex_channels(hex@) == Some(channels@),
{
    let bytes = hex.as_bytes();
    let length: usize = bytes.len();
    let mut start: usize = 0;
    assert(bytes@.skip(0) =~= bytes@);
    while start < length && bytes[start] == 0x23
        invariant
            length == bytes@.len(),
            start <= length,
            without_hashes(bytes@.skip(start as int)) == without_hashes(bytes@),
        decreases length - start,
    {
        assert(bytes@.skip(start as int).skip(1) =~= bytes@.skip(start + 1));
        start = start + 1;
    }
    let digits = vstd::slice::slice_subrange(bytes, start, length);
    assert(digits@ =~= bytes@.skip(start as int));
    assert(digits@ == without_hashes(encode_utf8(hex@)));
    if digits.len() != 6 {
        return None;
    }
    proof {
        two_digits(digits@, 0);
        two_digits(digits@, 2);
        two_digits(digits@, 4);
        assert(all_hexadecimal(digits@) ==> {
            &&& digit_value(digits@[0], 16) is Some && digit_value(digits@[1], 16) is Some
            &&& digit_value(digits@[2], 16) is Some && digit_value(digits@[3], 16) is Some
            &&& digit_value(digits@[4], 16) is Some && digit_value(digits@[5], 16) is Some
        });
    }
    match (channel(digits, 0), channel(digits, 2), channel(digits, 4)) {
        (Some(red), Some(green), Some(blue)) => {
            let channels: [u8; 3] = [red, green, blue];
            assert(channels@ =~= seq![red, green, blue]);
            Some(channels)
        },
        _ => None,
    }
}

/// A `#` sign in front of a color does not matter.
pub proof fn hashes_do_not_matter(text: Seq<char>)
    ensures
        hex_channels(seq!['#'] + text) == hex_channels(text),
        can_be_cut(seq!['#'] + text) == can_be_cut(text),
{
    let marked = seq!['#'] + text;
    assert(marked.drop_first() =~= text);
    assert('#' as u32 == 0x23);
    assert(encode_scalar(0x23) =~= seq![0x23u8]) by {
        assert((0x23u32 & 0x7fu32) as u8 == 0x23u8) by (bit_vector);
    }
    assert(encode_utf8(marked).skip(1) =~= encode_utf8(text));
}

/// Settings of the theme that a header bar uses.
#[derive(Debug, Clone)]
pub struct HeaderConfig {
    pub style: TitleBarStyle,
    pub border_focused: Rgba,
    pub border_unfocused: Rgba,
    pub border_width: i32,
    pub button_width: i32,
}

/// Start of the stripe where the theme holds no valid color.
pub open spec fn fallback_start() -> Seq<u8> {
    seq![0x44, 0x0d, 0xc3]
}

/// End of the stripe where the theme holds no valid color.
pub open spec fn fallback_end() -> Seq<u8> {
    seq![0x00, 0xbf, 0x63]
}

/// The channels of a color of the theme.
pub open spec fn channels_or(text: Seq<char>, fallback: Seq<u8>) -> Seq<u8> {
    match hex_channels(text) {
        Some(channels) => channels,
        None => fallback,
    }
}

impl HeaderConfig {
    /// The stripe colors of the theme can be read.
    pub open spec fn readable(theme: DecorationTheme) -> bool {
        theme.gradient_stripe.enabled ==> {
            &&& can_be_cut(theme.gradient_stripe.start_color@)
            &&& can_be_cut(theme.gradient_stripe.end_color@)
        }
    }

    /// The settings are those of the theme.
    pub open spec fn is_from(self, theme: DecorationTheme) -> bool {
        &&& self.style.bg_focused == theme.title_bar.bg_focused
        &&& self.style.bg_unfocused == theme.title_bar.bg_unfocused
        &&& self.style.button_width == wrapped_u32(theme.buttons.width)
        &&& self.style.close_hover_bg == theme.buttons.close_hover_bg
        &&& self.style.maximize_hover_bg == theme.buttons.maximize_hover_bg
        &&& self.style.icon_color == theme.button_icon.color
        &&& self.style.icon_color_unfocused == theme.button_icon.color_unfocused
        &&& self.style.icon_size == theme.button_icon.size
        &&& self.style.icon_stroke_width == theme.button_icon.stroke_width
        &&& self.style.gradient is Some <==> theme.gradient_stripe.enabled
        &&& self.style.gradient matches Some(gradient) ==> {
            &&& gradient.height == wrapped_u32(theme.gradient_stripe.height)
            &&& gradient.start_rgb@ == channels_or(
                theme.gradient_stripe.start_color@,
                fallback_start(),
            )
            &&& gradient.end_rgb@ == channels_or(theme.gradient_stripe.end_color@, fallback_end())
        }
        &&& self.border_focused == theme.border.color_focused
        &&& self.border_unfocused == theme.border.color_unfocused
        &&& self.border_width == theme.border.width
        &&& self.button_width == theme.buttons.width
    }

    pub fn from_theme(theme: &DecorationTheme) -> (config: HeaderConfig)
        requires
            HeaderConfig::readable(*theme),
        ensures
            config.is_from(*theme),
    {
        let gradient = if theme.gradient_stripe.enabled {
            let start_rgb = match hex_to_rgb(theme.gradient_stripe.start_color.as_str()) {
                Some(rgb) => rgb,
                None => [0x44, 0x0d, 0xc3],
            };
            let end_rgb = match hex_to_rgb(theme.gradient_stripe.end_color.as_str()) {
                Some(rgb) => rgb,
                None => [0x00, 0xbf, 0x63],
            };
            assert([0x44u8, 0x0du8, 0xc3u8]@ =~= fallback_start());
            assert([0x00u8, 0xbfu8, 0x63u8]@ =~= fallback_end());
            Some(
                GradientConfig {
                    height: cast_u32(theme.gradient_stripe.height),
                    start_rgb,
                    end_rgb,
                },
            )
        } else {
            None
        };
        HeaderConfig {
            style: TitleBarStyle {
                bg_focused: theme.title_bar.bg_focused,
                bg_unfocused: theme.title_bar.bg_unfocused,
                button_width: cast_u32(theme.buttons.width),
                close_hover_bg: theme.buttons.close_hover_bg,
                maximize_hover_bg: theme.buttons.maximize_hover_bg,
                gradient,
                icon_color: theme.button_icon.color,
                icon_color_unfocused: theme.button_icon.color_unfocused,
                icon_size: theme.button_icon.size,
                icon_stroke_width: theme.button_icon.stroke_width,
            },
            border_focused: theme.border.color_focused,
            border_unfocused: theme.border.color_unfocused,
            border_width: theme.border.width,
            button_width: theme.buttons.width,
        }
    }
}

/// A rectangle of one color.
#[derive(Debug, Clone, Copy, PartialEq, Eq, Structural)]
pub struct SolidColorBuffer {
    pub size: Size,
    pub color: Rgba,
}

impl SolidColorBuffer {
    /// The buffer that was never updated.
    pub open spec fn blank() -> SolidColorBuffer {
        SolidColorBuffer { size: Size { w: 0, h: 0 }, color: rgba_of(0, 0, 0, 0) }
    }

    fn new() -> (buffer: SolidColorBuffer)
        ensures
            buffer == SolidColorBuffer::blank(),
    {
        let none = Single { bits: 0 };
        SolidColorBuffer {
            size: Size { w: 0, h: 0 },
            color: Rgba { red: none, green: none, blue: none, alpha: none },
        }
    }
}

/// The decorations of a window: a title bar and three borders.
pub struct HeaderBar {
    pub pointer_loc: Option<Position>,
    pub width: u32,
    pub is_focused: bool,
    pub close_button_hover: bool,
    pub maximize_button_hover: bool,
    /// The title bar, as last drawn.
    pub title_bar_buffer: Option<TitleBarDrawing>,
    pub border_left: SolidColorBuffer,
    pub border_right: SolidColorBuffer,
    pub border_bottom: SolidColorBuffer,
    pub config: HeaderConfig,
    /// Width, focus and hovered button of the last drawing.
    pub rendered_width: u32,
    pub rendered_focused: bool,
    pub rendered_hover: HoverState,
}

/// Decoration state of a window.
pub struct WindowState {
    pub is_ssd: bool,
    pub header_bar: HeaderBar,
}

impl HeaderBar {
    /// Width of a title bar button.
    pub open spec fn button(self) -> int {
        wrapped_u32(self.config.button_width)
    }

    /// The pointer is no lower than the title bar.
    pub open spec fn points_at_title_bar(self) -> bool {
        self.pointer_loc matches Some(loc) && loc.y.before(HEADER_BAR_HEIGHT as int)
    }

    /// The left end of the close button is a column, where the pointer can be over it.
    pub open spec fn has_close_button(self) -> bool {
        self.points_at_title_bar() ==> self.button() <= self.width
    }

    /// The left end of the maximize button is a column, where the pointer can be over it.
    pub open spec fn has_maximize_button(self) -> bool {
        self.points_at_title_bar() ==> {
            &&& 2 * self.button() <= u32::MAX
            &&& 2 * self.button() <= self.width
        }
    }

    /// The pointer is over the close button, the rightmost one of the title bar.
    pub open spec fn over_close(self) -> bool {
        match self.pointer_loc {
            Some(loc) => {
                &&& loc.y.before(HEADER_BAR_HEIGHT as int)
                &&& loc.x.at_least(self.width - self.button())
            },
            None => false,
        }
    }

    /// The pointer is over the maximize button, the second one from the right.
    pub open spec fn over_maximize(self) -> bool {
        match self.pointer_loc {
            Some(loc) => {
                &&& loc.y.before(HEADER_BAR_HEIGHT as int)
                &&& loc.x.at_least(self.width - 2 * self.button())
                &&& loc.x.before(self.width - self.button())
            },
            None => false,
        }
    }

    /// The buttons that are asked about are inside the title bar.
    pub open spec fn has_buttons(self) -> bool {
        &&& self.has_close_button()
        &&& !self.over_close() ==> self.has_maximize_button()
    }

    /// The button under the pointer.
    pub open spec fn hovered(self) -> HoverState {
        if self.over_close() {
            HoverState::Close
        } else if self.over_maximize() {
            HoverState::Maximize
        } else {
            HoverState::Neither
        }
    }

    /// The color of the borders.
    pub open spec fn shown_border(self) -> Rgba {
        if self.is_focused {
            self.config.border_focused
        } else {
            self.config.border_unfocused
        }
    }

    /// A header bar that was never drawn.
    pub open spec fn is_fresh(self, theme: DecorationTheme) -> bool {
        &&& self.pointer_loc is None
        &&& self.width == 0
        &&& self.is_focused
        &&& !self.close_button_hover
        &&& !self.maximize_button_hover
        &&& self.title_bar_buffer is None
        &&& self.border_left == SolidColorBuffer::blank()
        &&& self.border_right == SolidColorBuffer::blank()
        &&& self.border_bottom == SolidColorBuffer::blank()
        &&& self.config.is_from(theme)
        &&& self.rendered_width == 0
        &&& !self.rendered_focused
        &&& self.rendered_hover == HoverState::Neither
    }

    /// Creates a header bar with the colors of the given theme.
    pub fn new(theme: &DecorationTheme) -> (bar: HeaderBar)
        requires
            HeaderConfig::readable(*theme),
        ensures
            bar.is_fresh(*theme),
    {
        HeaderBar {
            pointer_loc: None,
            width: 0,
            is_focused: true,
            close_button_hover: false,
            maximize_button_hover: false,
            title_bar_buffer: None,
            border_left: SolidColorBuffer::new(),
            border_right: SolidColorBuffer::new(),
            border_bottom: SolidColorBuffer::new(),
            config: HeaderConfig::from_theme(theme),
            rendered_width: 0,
            rendered_focused: false,
            rendered_hover: HoverState::Neither,
        }
    }

    pub fn button_width(&self) -> (width: u32)
        ensures
            width == self.button(),
    {
        cast_u32(self.config.button_width)
    }

    pub fn border_width(&self) -> (width: i32)
        ensures
            width == self.config.border_width,
    {
        self.config.border_width
    }

    pub fn border_color(&self) -> (color: Rgba)
        ensures
            color == self.shown_border(),
    {
        if self.is_focused {
            self.config.border_focused
        } else {
            self.config.border_unfocused
        }
    }

    pub fn pointer_enter(&mut self, loc: Position)
        ensures
            *final(self) == (HeaderBar { pointer_loc: Some(loc), ..*old(self) }),
    {
        self.pointer_loc = Some(loc);
    }

    pub fn pointer_leave(&mut self)
        ensures
            *final(self) == (HeaderBar { pointer_loc: None, ..*old(self) }),
    {
        self.pointer_loc = None;
    }

    /// Checks if the pointer is over the close button, the rightmost one.
    pub fn is_over_close(&self) -> (over: bool)
        requires
            self.has_close_button(),
        ensures
            over == self.over_close(),
    {
        let button: u32 = self.button_width();
        match &self.pointer_loc {
            Some(loc) => loc.y.is_before(HEADER_BAR_HEIGHT as i64) && loc.x.is_at_least(
                (self.width - button) as i64,
            ),
            None => false,
        }
    }

    /// Checks if the pointer is over the maximize button, the second one from the right.
    pub fn is_over_maximize(&self) -> (over: bool)
        requires
            self.has_maximize_button(),
        ensures
            over == self.over_maximize(),
    {
        let button: u32 = self.button_width();
        match &self.pointer_loc {
            Some(loc) => loc.y.is_before(HEADER_BAR_HEIGHT as i64) && loc.x.is_at_least(
                (self.width - button * 2) as i64,
            ) && loc.x.is_before((self.width - button) as i64),
            None => false,
        }
    }

    /// What a click at the pointer asks for: a button's action, or moving the window.
    pub open spec fn click_action(self) -> Option<SsdAction> {
        match self.hovered() {
            HoverState::Close => Some(SsdAction::Close),
            HoverState::Maximize => Some(SsdAction::Maximize),
            HoverState::Neither => match self.pointer_loc {
                Some(_) => Some(SsdAction::Move),
                None => None,
            },
        }
    }

    /// What a touch at the pointer asks for at once: moving the window, unless it is on a button.
    pub open spec fn touch_down_action(self) -> Option<SsdAction> {
        if self.hovered() == HoverState::Neither && self.pointer_loc is Some {
            Some(SsdAction::Move)
        } else {
            None
        }
    }

    /// What the end of a touch at the pointer asks for: a button's action.
    pub open spec fn touch_up_action(self) -> Option<SsdAction> {
        match self.hovered() {
            HoverState::Close => Some(SsdAction::Close),
            HoverState::Maximize => Some(SsdAction::Maximize),
            HoverState::Neither => None,
        }
    }

    /// Handles a click: closes, maximizes or moves the window.
    pub fn clicked(&mut self, seat: SeatId, surface: WindowSurface, serial: Serial) -> (request:
        Option<Request>)
        requires
            old(self).has_buttons(),
        ensures
            *final(self) == *old(self),
            request == match old(self).click_action() {
                Some(action) => Some(action.request_for(surface, seat, serial)),
                None => None,
            },
    {
        if self.is_over_close() {
            Some(SsdAction::Close.request(surface, seat, serial))
        } else if self.is_over_maximize() {
            Some(SsdAction::Maximize.request(surface, seat, serial))
        } else if self.pointer_loc.is_some() {
            Some(SsdAction::Move.request(surface, seat, serial))
        } else {
            None
        }
    }

    /// Handles the start of a touch: moves the window unless a button is touched.
    pub fn touch_down(&mut self, seat: SeatId, surface: WindowSurface, serial: Serial) -> (request:
        Option<Request>)
        requires
            old(self).has_buttons(),
        ensures
            *final(self) == *old(self),
            request == match old(self).touch_down_action() {
                Some(action) => Some(action.request_for(surface, seat, serial)),
                None => None,
            },
    {
        if !self.is_over_close() && !self.is_over_maximize() {
            if self.pointer_loc.is_some() {
                return Some(SsdAction::Move.request(surface, seat, serial));
            }
        }
        None
    }

    /// Handles the end of a touch: closes or maximizes the window.
    pub fn touch_up(&mut self, seat: SeatId, surface: WindowSurface, serial: Serial) -> (request:
        Option<Request>)
        requires
            old(self).has_buttons(),
        ensures
            *final(self) == *old(self),
            request == match old(self).touch_up_action() {
                Some(action) => Some(action.request_for(surface, seat, serial)),
                None => None,
            },
    {
        if self.is_over_close() {
            Some(SsdAction::Close.request(surface, seat, serial))
        } else if self.is_over_maximize() {
            Some(SsdAction::Maximize.request(surface, seat, serial))
        } else {
            None
        }
    }

    /// The title bar has to be drawn again.
    pub open spec fn is_dirty(self) -> bool {
        ||| self.width != self.rendered_width
        ||| self.is_focused != self.rendered_focused
        ||| self.hovered() != self.rendered_hover
    }

    /// The title bar is drawn for the given width, focus and hovered button, if that is possible.
    pub open spec fn shows(
        drawing: Option<TitleBarDrawing>,
        style: TitleBarStyle,
        width: u32,
        focused: bool,
        hover: HoverState,
    ) -> bool {
        let height = HEADER_BAR_HEIGHT as u32;
        &&& drawing is Some <==> surface_exists(width, height)
        &&& drawing matches Some(plan) ==> plan.shows(style, width, height, focused, hover)
    }

    /// The header bar with the given width.
    pub open spec fn widened(self, width: u32) -> HeaderBar {
        HeaderBar { width, ..self }
    }

    /// What a redraw with a non-zero width makes of the header bar.
    pub open spec fn is_redrawn(self, before: HeaderBar, client_height: i32) -> bool {
        let wide = before.widened(self.width);
        let hover = wide.hovered();
        let borders = before.config.border_width > 0 && client_height > 0;
        let color = before.shown_border();
        let side = SolidColorBuffer {
            size: Size { w: before.config.border_width, h: client_height },
            color,
        };
        let bottom = SolidColorBuffer {
            size: Size { w: wrapped_i32(self.width) as i32, h: before.config.border_width },
            color,
        };
        &&& self.pointer_loc == before.pointer_loc
        &&& self.is_focused == before.is_focused
        &&& self.config == before.config
        &&& self.close_button_hover == (hover == HoverState::Close)
        &&& self.maximize_button_hover == (hover == HoverState::Maximize)
        &&& self.rendered_width == self.width
        &&& self.rendered_focused == self.is_focused
        &&& self.rendered_hover == hover
        &&& if wide.is_dirty() {
            HeaderBar::shows(
                self.title_bar_buffer,
                self.config.style,
                self.width,
                self.is_focused,
                hover,
            )
        } else {
            self.title_bar_buffer == before.title_bar_buffer
        }
        &&& self.border_left == if borders {
            side
        } else {
            before.border_left
        }
        &&& self.border_right == if borders {
            side
        } else {
            before.border_right
        }
        &&& self.border_bottom == if borders {
            bottom
        } else {
            before.border_bottom
        }
    }

    /// Draws the title bar again if its width, focus or hovered button changed, and updates the
    /// borders. A width of zero drops the title bar and leaves everything else as it was.
    pub fn redraw(&mut self, width: u32, client_height: i32)
        requires
            width > 0 ==> old(self).widened(width).has_buttons(),
            width > 0 ==> allocatable(width, HEADER_BAR_HEIGHT as u32),
        ensures
            final(self).width == width,
            width == 0 ==> *final(self) == (HeaderBar {
                width: 0,
                title_bar_buffer: None,
                ..*old(self)
            }),
            width > 0 ==> final(self).is_redrawn(*old(self), client_height),
    {
        if width == 0 {
            self.width = 0;
            self.title_bar_buffer = None;
            return;
        }
        // The buttons are placed from the right end, so the width comes first.
        self.width = width;
        assert(*self == old(self).widened(width));
        let hover = if self.is_over_close() {
            HoverState::Close
        } else if self.is_over_maximize() {
            HoverState::Maximize
        } else {
            HoverState::Neither
        };
        if width != self.rendered_width || self.is_focused != self.rendered_focused || hover
            != self.rendered_hover {
            self.title_bar_buffer = render_title_bar(
                width,
                HEADER_BAR_HEIGHT as u32,
                &self.config.style,
                self.is_focused,
                hover,
            );
            self.rendered_width = width;
            self.rendered_focused = self.is_focused;
            self.rendered_hover = hover;
        }
        self.close_button_hover = hover == HoverState::Close;
        self.maximize_button_hover = hover == HoverState::Maximize;
        let color = self.border_color();
        let border: i32 = self.border_width();
        if border > 0 && client_height > 0 {
            let side = SolidColorBuffer { size: Size { w: border, h: client_height }, color };
            self.border_left = side;
            self.border_right = side;
            self.border_bottom =
            SolidColorBuffer { size: Size { w: cast_i32(width), h: border }, color };
        }
    }

    /// The header bar has borders to draw around a client of the given height.
    pub open spec fn has_borders(self, client_height: i32) -> bool {
        self.config.border_width > 0 && client_height > 0 && self.width != 0
    }

    /// Places of the left, right and bottom border in the decorated window.
    pub open spec fn border_places(self, client_height: i32) -> Seq<(int, int)> {
        if self.has_borders(client_height) {
            seq![
                (0, HEADER_BAR_HEIGHT as int),
                (wrapped_i32(self.width) - self.config.border_width, HEADER_BAR_HEIGHT as int),
                (0, HEADER_BAR_HEIGHT + client_height - self.config.border_width),
            ]
        } else {
            seq![]
        }
    }

    /// Places and buffers of the border elements (left, right, bottom) around the client surface,
    /// relative to the top-left corner of the decorated window.
    pub fn border_render_elements(&self, client_height: i32) -> (elements: Vec<
        (Point, SolidColorBuffer),
    >)
        requires
            self.has_borders(client_height) ==> {
                &&& in_i32(wrapped_i32(self.width) - self.config.border_width)
                &&& in_i32(HEADER_BAR_HEIGHT + client_height)
            },
        ensures
            elements@.len() == self.border_places(client_height).len(),
            forall|i: int|
                0 <= i < elements@.len() ==> {
                    let place = (#[trigger] elements@[i]).0;
                    (place.x as int, place.y as int) == self.border_places(client_height)[i]
                },
            self.has_borders(client_height) ==> {
                &&& elements@[0].1 == self.border_left
                &&& elements@[1].1 == self.border_right
                &&& elements@[2].1 == self.border_bottom
            },
    {
        let border: i32 = self.border_width();
        if border <= 0 || client_height <= 0 || self.width == 0 {
            return Vec::new();
        }
        let left = Point { x: 0, y: HEADER_BAR_HEIGHT };
        let right = Point { x: cast_i32(self.width) - border, y: HEADER_BAR_HEIGHT };
        let bottom = Point { x: 0, y: HEADER_BAR_HEIGHT + client_height - border };
        vec![
            (left, self.border_left),
            (right, self.border_right),
            (bottom, self.border_bottom),
        ]
    }
}

/// A button under the pointer is one of the two, never both.
pub proof fn buttons_do_not_overlap(bar: HeaderBar)
    ensures
        !(bar.over_close() && bar.over_maximize()),
{
}

/// The buttons are in the title bar: below it the pointer is over none of them, so clicks and
/// touches there neither close nor maximize the window.
pub proof fn buttons_end_with_the_title_bar(bar: HeaderBar, loc: Position)
    requires
        bar.pointer_loc == Some(loc),
        loc.y.at_least(HEADER_BAR_HEIGHT as int),
    ensures
        bar.hovered() == HoverState::Neither,
        bar.click_action() == Some(SsdAction::Move),
        bar.touch_up_action() is None,
{
}

/// Nothing happens twice: what a touch asks for when it ends, it did not ask for when it began,
/// and together the two are what a click asks for.
pub proof fn touches_are_clicks(bar: HeaderBar)
    ensures
        bar.touch_down_action() is Some ==> bar.touch_up_action() is None,
        bar.click_action() == match bar.touch_down_action() {
            Some(action) => Some(action),
            None => bar.touch_up_action(),
        },
{
}

/// After a redraw nothing is left to draw: the title bar is clean, and the hover flags and the
/// buffers belong to the state that they were drawn for.
pub proof fn redraw_cleans(before: HeaderBar, after: HeaderBar, client_height: i32)
    requires
        after.is_redrawn(before, client_height),
    ensures
        !after.is_dirty(),
        after.hovered() == after.rendered_hover,
        !(after.close_button_hover && after.maximize_button_hover),
{
}

/// The drawing of the title bar is that of the width, focus and hovered button that are noted for
/// it. So is it before the first redraw, when no width is noted yet.
pub open spec fn is_current(bar: HeaderBar) -> bool {
    bar.rendered_width > 0 ==> HeaderBar::shows(
        bar.title_bar_buffer,
        bar.config.style,
        bar.rendered_width,
        bar.rendered_focused,
        bar.rendered_hover,
    )
}

/// Redraws with a width keep the drawing current, so the title bar shows the width, focus and
/// hovered button of the window.
pub proof fn redraws_stay_current(before: HeaderBar, after: HeaderBar, client_height: i32)
    requires
        is_current(before),
        after.width > 0,
        after.is_redrawn(before, client_height),
    ensures
        is_current(after),
        HeaderBar::shows(
            after.title_bar_buffer,
            after.config.style,
            after.width,
            after.is_focused,
            after.hovered(),
        ),
{
}

/// A second redraw with the same width and client height changes nothing.
pub proof fn redraw_is_idempotent(
    before: HeaderBar,
    once: HeaderBar,
    twice: HeaderBar,
    client_height: i32,
)
    requires
        once.is_redrawn(before, client_height),
        twice.is_redrawn(once, client_height),
        twice.width == once.width,
    ensures
        twice == once,
{
}

/// The decorated window ends where its borders end: the right border at its width, the bottom
/// border at its height.
pub proof fn borders_end_at_the_window(bar: HeaderBar, client_height: i32)
    requires
        bar.has_borders(client_height),
        bar.width <= i32::MAX,
    ensures
        bar.border_places(client_height)[1].0 + bar.config.border_width == bar.width,
        bar.border_places(client_height)[2].1 + bar.config.border_width == HEADER_BAR_HEIGHT
            + client_height,
{
}

/// What a hexadecimal digit counts.
pub open spec fn hex_worth(c: char) -> int {
    if '0' <= c && c <= '9' {
        (c as int) - ('0' as int)
    } else if 'a' <= c && c <= 'f' {
        (c as int) - ('a' as int) + 10
    } else {
        (c as int) - ('A' as int) + 10
    }
}

/// The character is a hexadecimal digit.
pub open spec fn is_hex(c: char) -> bool {
    ||| '0' <= c && c <= '9'
    ||| 'a' <= c && c <= 'f'
    ||| 'A' <= c && c <= 'F'
}

/// Six hexadecimal digits are a color: the first two are its red, the next two its green and the last
/// two its blue, the higher digit first, in either letter case.
pub proof fn colors_are_read_channel_by_channel(text: Seq<char>)
    requires
        text.len() == 6,
        forall|i: int| 0 <= i < 6 ==> is_hex(#[trigger] text[i]),
    ensures
        hex_channels(text) matches Some(channels) && {
            &&& channels.len() == 3
            &&& channels[0] == 16 * hex_worth(text[0]) + hex_worth(text[1])
            &&& channels[1] == 16 * hex_worth(text[2]) + hex_worth(text[3])
            &&& channels[2] == 16 * hex_worth(text[4]) + hex_worth(text[5])
        },
{
    let bytes = encode_utf8(text);
    assert(vstd::utf8::is_ascii_chars(text));
    vstd::utf8::is_ascii_chars_encode_utf8(text);
    assert(is_hex(text[0]) && is_hex(text[1]) && is_hex(text[2]));
    assert(is_hex(text[3]) && is_hex(text[4]) && is_hex(text[5]));
    assert(text[0] as u8 == bytes[0] && text[1] as u8 == bytes[1] && text[2] as u8 == bytes[2]);
    assert(text[3] as u8 == bytes[3] && text[4] as u8 == bytes[4] && text[5] as u8 == bytes[5]);
    assert(without_hashes(bytes) == bytes);
    two_digits(bytes, 0);
    two_digits(bytes, 2);
    two_digits(bytes, 4);
}

/// Texts of another length than six digits are no colors, and neither is one with a character that is
/// no digit.
pub proof fn other_texts_are_no_colors(text: Seq<char>, i: int)
    requires
        vstd::utf8::is_ascii_chars(text),
        text.len() > 0 && text[0] != '#',
    ensures
        text.len() != 6 ==> hex_channels(text) is None,
        0 <= i < text.len() && !is_hex(text[i]) ==> hex_channels(text) is None,
{
    let bytes = encode_utf8(text);
    vstd::utf8::is_ascii_chars_encode_utf8(text);
    assert(text[0] as u8 == bytes[0]);
    assert(without_hashes(bytes) == bytes);
    if text.len() == 6 && 0 <= i < 6 && !is_hex(text[i]) {
        assert(text[i] as u8 == bytes[i]);
        two_digits(bytes, 0);
        two_digits(bytes, 2);
        two_digits(bytes, 4);
        assert(i == 0 || i == 1 || i == 2 || i == 3 || i == 4 || i == 5);
    }
}

/// A header bar takes each of its settings from the setting of the theme that is meant for it.
pub proof fn header_bars_look_like_the_theme(config: HeaderConfig, theme: DecorationTheme)
    requires
        config.is_from(theme),
    ensures
        config.style.bg_focused == theme.title_bar.bg_focused,
        config.style.bg_unfocused == theme.title_bar.bg_unfocused,
        config.style.close_hover_bg == theme.buttons.close_hover_bg,
        config.style.maximize_hover_bg == theme.buttons.maximize_hover_bg,
        config.style.icon_color == theme.button_icon.color,
        config.style.icon_color_unfocused == theme.button_icon.color_unfocused,
        config.style.icon_size == theme.button_icon.size,
        config.style.icon_stroke_width == theme.button_icon.stroke_width,
        config.border_focused == theme.border.color_focused,
        config.border_unfocused == theme.border.color_unfocused,
        config.border_width == theme.border.width,
        config.button_width == theme.buttons.width,
        theme.buttons.width >= 0 ==> config.style.button_width == theme.buttons.width,
        !theme.gradient_stripe.enabled ==> config.style.gradient is None,
        theme.gradient_stripe.enabled ==> {
            &&& config.style.gradient matches Some(gradient) && {
                &&& theme.gradient_stripe.height >= 0 ==> gradient.height
                    == theme.gradient_stripe.height
                &&& hex_channels(theme.gradient_stripe.start_color@) matches Some(start)
                    ==> gradient.start_rgb@ == start
                &&& hex_channels(theme.gradient_stripe.end_color@) matches Some(end)
                    ==> gradient.end_rgb@ == end
                &&& hex_channels(theme.gradient_stripe.start_color@) is None
                    ==> gradient.start_rgb@ == seq![0x44u8, 0x0du8, 0xc3u8]
                &&& hex_channels(theme.gradient_stripe.end_color@) is None ==> gradient.end_rgb@
                    == seq![0x00u8, 0xbfu8, 0x63u8]
            }
        },
{
}

/// The pointer is over a button if and only if it is above the client and in the columns of that
/// button, counted from the right end of the bar. Clicks close, maximize or move accordingly.
pub proof fn buttons_are_at_the_right_end(bar: HeaderBar, loc: Position)
    requires
        bar.pointer_loc == Some(loc),
        bar.config.button_width >= 0,
    ensures
        ({
            let start = bar.width - bar.config.button_width;
            let close = loc.y.before(32) && loc.x.at_least(start);
            let maximize = loc.y.before(32) && loc.x.at_least(start - bar.config.button_width)
                && loc.x.before(start);
            &&& bar.hovered() == HoverState::Close <==> close
            &&& bar.hovered() == HoverState::Maximize <==> maximize
            &&& bar.click_action() == Some(SsdAction::Close) <==> close
            &&& bar.click_action() == Some(SsdAction::Maximize) <==> maximize
            &&& bar.click_action() == Some(SsdAction::Move) <==> !close && !maximize
            &&& bar.touch_down_action() == Some(SsdAction::Move) <==> !close && !maximize
            &&& bar.touch_up_action() == Some(SsdAction::Close) <==> close
            &&& bar.touch_up_action() == Some(SsdAction::Maximize) <==> maximize
        }),
{
}

/// Without a pointer nothing is hovered, and neither clicks nor touches ask for anything.
pub proof fn absent_pointers_do_nothing(bar: HeaderBar)
    requires
        bar.pointer_loc is None,
    ensures
        bar.hovered() == HoverState::Neither,
        bar.click_action() is None,
        bar.touch_down_action() is None,
        bar.touch_up_action() is None,
{
}

/// A redraw makes the borders fit: those at the sides are as high as the client and as wide as a
/// border, the one at the bottom is as wide as the window and as high as a border. All have the color
/// for the focus. A client without height, or a theme without borders, leaves them as they were.
pub proof fn redrawn_borders_fit(before: HeaderBar, after: HeaderBar, client_height: i32)
    requires
        after.is_redrawn(before, client_height),
        after.width <= i32::MAX,
    ensures
        ({
            let border = before.config.border_width;
            let color = if before.is_focused {
                before.config.border_focused
            } else {
                before.config.border_unfocused
            };
            &&& border > 0 && client_height > 0 ==> {
                &&& after.border_left.size.w == border && after.border_left.size.h == client_height
                &&& after.border_right.size.w == border && after.border_right.size.h == client_height
                &&& after.border_bottom.size.w == after.width && after.border_bottom.size.h == border
                &&& after.border_left.color == color
                &&& after.border_right.color == color
                &&& after.border_bottom.color == color
            }
            &&& border <= 0 || client_height <= 0 ==> {
                &&& after.border_left == before.border_left
                &&& after.border_right == before.border_right
                &&& after.border_bottom == before.border_bottom
            }
        }),
{
}

/// A redraw notes what the pointer is over at the new width, and what was drawn. It never moves the
/// pointer, and changes neither the focus nor the settings.
pub proof fn redraws_note_what_they_draw(before: HeaderBar, after: HeaderBar, client_height: i32)
    requires
        after.is_redrawn(before, client_height),
    ensures
        after.close_button_hover == after.over_close(),
        after.maximize_button_hover == after.over_maximize(),
        after.rendered_width == after.width,
        after.rendered_focused == before.is_focused,
        after.rendered_hover == after.hovered(),
        after.pointer_loc == before.pointer_loc,
        after.is_focused == before.is_focused,
        after.config == before.config,
{
    assert(after.over_close() == before.widened(after.width).over_close());
    assert(after.over_maximize() == before.widened(after.width).over_maximize());
}

/// The borders are below the title bar: the left one at the left edge, the right one ending at the
/// right edge, the bottom one at the left edge and ending with the client. There are none without a
/// width, without a client height, or if they have no width of their own.
pub proof fn borders_are_around_the_client(bar: HeaderBar, client_height: i32)
    requires
        bar.width <= i32::MAX,
    ensures
        ({
            let places = bar.border_places(client_height);
            let border = bar.config.border_width;
            &&& places.len() == if border > 0 && client_height > 0 && bar.width > 0 {
                3int
            } else {
                0
            }
            &&& places.len() == 3 ==> {
                &&& places[0] == (0int, 32int)
                &&& places[1] == (bar.width - border, 32int)
                &&& places[2] == (0int, 32 + client_height - border)
            }
        }),
{
}

/// The title bar of a window is as wide as the window and 32 pixels high, for the focus and the hovered
/// button. There is none of no width, nor of a width whose rows take more than 2^31 bytes.
pub proof fn title_bars_are_drawn_for_the_window(
    drawing: Option<TitleBarDrawing>,
    style: TitleBarStyle,
    width: u32,
    focused: bool,
    hover: HoverState,
)
    requires
        HeaderBar::shows(drawing, style, width, focused, hover),
    ensures
        width == 0 || 4 * width > i32::MAX ==> drawing is None,
        width > 0 && 4 * width <= i32::MAX && 128 * width <= usize::MAX ==> drawing is Some,
        drawing matches Some(plan) ==> plan.shows(style, width, 32, focused, hover),
{
}

/// A new header bar is that of a focused window without a pointer, follows its theme, and was never
/// drawn: the first redraw draws it.
pub proof fn new_header_bars_are_drawn_first(bar: HeaderBar, theme: DecorationTheme, width: u32)
    requires
        bar.is_fresh(theme),
        width > 0,
    ensures
        bar.is_focused,
        bar.pointer_loc is None,
        bar.width == 0,
        !bar.close_button_hover && !bar.maximize_button_hover,
        bar.title_bar_buffer is None,
        bar.config.is_from(theme),
        bar.widened(width).is_dirty(),
        bar.widened(width).width == width,
        is_current(bar),
{
}

} // verus!
