//! Title bar drawing: background, gradient stripe, button hover backgrounds and button icons.

use tiny_skia::Pixmap;
use vstd::prelude::*;

use super::icons::{
    close_icon, close_icon_path, maximize_icon, maximize_icon_path, PathStep,
};
use super::theme::{Rgba, Single};

verus! {

/// Which button is currently hovered, if any.
#[derive(Debug, Clone, Copy, PartialEq, Eq, Structural)]
pub enum HoverState {
    Neither,
    Close,
    Maximize,
}

/// Gradient stripe configuration, parsed from the theme.
#[derive(Debug, Clone)]
pub struct GradientConfig {
    pub height: u32,
    pub start_rgb: [u8; 3],
    pub end_rgb: [u8; 3],
}

/// Everything needed to draw a title bar, taken from the theme.
#[derive(Debug, Clone)]
pub struct TitleBarStyle {
    pub bg_focused: Rgba,
    pub bg_unfocused: Rgba,
    pub button_width: u32,
    pub close_hover_bg: Rgba,
    pub maximize_hover_bg: Rgba,
    pub gradient: Option<GradientConfig>,
    pub icon_color: Rgba,
    pub icon_color_unfocused: Rgba,
    /// Side of the square that an icon fills, in pixels.
    pub icon_size: i32,
    pub icon_stroke_width: Single,
}

/// One thing to draw on a title bar.
#[derive(Debug)]
pub enum Layer {
    /// Fills the whole bar.
    Background(Rgba),
    /// A left-to-right gradient along the top edge.
    Stripe { width: u32, height: u32, start_rgb: [u8; 3], end_rgb: [u8; 3] },
    /// Fills the full height of the bar from column `x` on.
    ButtonFill { x: i64, width: u32, height: u32, color: Rgba },
    /// Strokes an outline with round caps.
    Icon { path: Vec<PathStep>, color: Rgba, stroke_width: Single },
}

/// What a layer draws.
pub enum LayerView {
    Background(Rgba),
    Stripe { width: u32, height: u32, start_rgb: [u8; 3], end_rgb: [u8; 3] },
    ButtonFill { x: int, width: u32, height: u32, color: Rgba },
    Icon { path: Seq<PathStep>, color: Rgba, stroke_width: Single },
}

impl View for Layer {
    type V = LayerView;

    open spec fn view(&self) -> LayerView {
        match *self {
            Layer::Background(color) => LayerView::Background(color),
            Layer::Stripe { width, height, start_rgb, end_rgb } => LayerView::Stripe {
                width,
                height,
                start_rgb,
                end_rgb,
            },
            Layer::ButtonFill { x, width, height, color } => LayerView::ButtonFill {
                x: x as int,
                width,
                height,
                color,
            },
            Layer::Icon { path, color, stroke_width } => LayerView::Icon {
                path: path@,
                color,
                stroke_width,
            },
        }
    }
}

/// The layers of a list.
pub open spec fn layers_view(layers: Seq<Layer>) -> Seq<LayerView> {
    layers.map_values(|layer: Layer| layer@)
}

/// The stripe of a title bar: focused windows only, where one of some height is configured.
pub open spec fn stripe_layers(style: TitleBarStyle, width: u32, focused: bool) -> Seq<LayerView> {
    match style.gradient {
        Some(gradient) if focused && gradient.height > 0 => seq![
            LayerView::Stripe {
                width,
                height: gradient.height,
                start_rgb: gradient.start_rgb,
                end_rgb: gradient.end_rgb,
            },
        ],
        _ => seq![],
    }
}

/// The background of the hovered button: the close button is the rightmost, the maximize button
/// its left neighbor.
pub open spec fn hover_layers(style: TitleBarStyle, width: u32, height: u32, hover: HoverState)
    -> Seq<LayerView> {
    match hover {
        HoverState::Close => seq![
            LayerView::ButtonFill {
                x: width - style.button_width,
                width: style.button_width,
                height,
                color: style.close_hover_bg,
            },
        ],
        HoverState::Maximize => seq![
            LayerView::ButtonFill {
                x: width - 2 * style.button_width,
                width: style.button_width,
                height,
                color: style.maximize_hover_bg,
            },
        ],
        HoverState::Neither => seq![],
    }
}

/// The icons, centered in their buttons; always visible.
pub open spec fn icon_layers(style: TitleBarStyle, width: u32, height: u32, focused: bool) -> Seq<
    LayerView,
> {
    let color = if focused {
        style.icon_color
    } else {
        style.icon_color_unfocused
    };
    seq![
        LayerView::Icon {
            path: close_icon(
                (2 * width - style.button_width) as i64,
                height as i64,
                style.icon_size as i64,
            ),
            color,
            stroke_width: style.icon_stroke_width,
        },
        LayerView::Icon {
            path: maximize_icon(
                (2 * width - 3 * style.button_width) as i64,
                height as i64,
                style.icon_size as i64,
            ),
            color,
            stroke_width: style.icon_stroke_width,
        },
    ]
}

/// The layers of a title bar, from the lowest to the topmost.
pub open spec fn title_bar_layers(
    style: TitleBarStyle,
    width: u32,
    height: u32,
    focused: bool,
    hover: HoverState,
) -> Seq<LayerView> {
    seq![
        LayerView::Background(
            if focused {
                style.bg_focused
            } else {
                style.bg_unfocused
            },
        ),
    ] + stripe_layers(style, width, focused) + hover_layers(style, width, height, hover)
        + icon_layers(style, width, height, focused)
}

/// A surface of this size exists: neither side is zero, a row takes at most `i32::MAX` bytes, and
/// the bytes can be counted.
pub open spec fn surface_exists(width: u32, height: u32) -> bool {
    &&& width > 0
    &&& height > 0
    &&& 4 * width <= i32::MAX
    &&& 4 * width * height <= usize::MAX
}

/// Where a surface of this size exists, an allocation can hold its bytes.
pub open spec fn allocatable(width: u32, height: u32) -> bool {
    surface_exists(width, height) ==> 4 * width * height <= isize::MAX
}

/// The pixel bytes of a blank surface: four for each pixel, transparent black.
pub open spec fn blank_pixels(width: u32, height: u32) -> Seq<u8> {
    Seq::new((4 * width * height) as nat, |i: int| 0u8)
}

/// Calls `tiny_skia::Pixmap::new` and takes the pixel bytes of what it makes: a surface of the
/// given size filled with transparent black, or none where no surface of that size exists. Sizes
/// whose bytes no allocation can hold are left out: the allocation of the bytes panics there.
#[verifier::external_body]
fn new_pixmap(width: u32, height: u32) -> (pixels: Option<Vec<u8>>)
    requires
        allocatable(width, height),
    ensures
        pixels is Some <==> surface_exists(width, height),
        pixels matches Some(bytes) ==> bytes@ == blank_pixels(width, height),
{
    Pixmap::new(width, height).map(|pixmap| pixmap.take())
}

/// A blank surface and what to draw on it.
#[derive(Debug)]
pub struct TitleBarDrawing {
    pub width: u32,
    pub height: u32,
    /// The pixels before anything is drawn.
    pub canvas: Vec<u8>,
    pub layers: Vec<Layer>,
}

impl TitleBarDrawing {
    /// The drawing shows a title bar of the given size, focus and hovered button.
    pub open spec fn shows(
        self,
        style: TitleBarStyle,
        width: u32,
        height: u32,
        focused: bool,
        hover: HoverState,
    ) -> bool {
        &&& self.width == width
        &&& self.height == height
        &&& self.canvas@ == blank_pixels(width, height)
        &&& layers_view(self.layers@) == title_bar_layers(style, width, height, focused, hover)
    }
}

fn stroke_icons(style: &TitleBarStyle, width: u32, height: u32, focused: bool) -> (icons: (
    Layer,
    Layer,
))
    ensures
        seq![icons.0@, icons.1@] == icon_layers(*style, width, height, focused),
{
    let color = if focused {
        style.icon_color
    } else {
        style.icon_color_unfocused
    };
    let close_x: i64 = 2 * width as i64 - style.button_width as i64;
    let maximize_x: i64 = 2 * width as i64 - 3 * style.button_width as i64;
    let close = Layer::Icon {
        path: close_icon_path(close_x, height as i64, style.icon_size as i64),
        color,
        stroke_width: style.icon_stroke_width,
    };
    let maximize = Layer::Icon {
        path: maximize_icon_path(maximize_x, height as i64, style.icon_size as i64),
        color,
        stroke_width: style.icon_stroke_width,
    };
    assert(seq![close@, maximize@] =~= icon_layers(*style, width, height, focused));
    (close, maximize)
}

/// Plans the drawing of a title bar. None if there is no surface of that size.
pub fn render_title_bar(
    width: u32,
    height: u32,
    style: &TitleBarStyle,
    focused: bool,
    hover: HoverState,
) -> (drawing: Option<TitleBarDrawing>)
    requires
        allocatable(width, height),
    ensures
        drawing is Some <==> surface_exists(width, height),
        drawing matches Some(plan) ==> plan.shows(*style, width, height, focused, hover),
{
    if width == 0 || height == 0 {
        return None;
    }
    let canvas = match new_pixmap(width, height) {
        Some(canvas) => canvas,
        None => {
            return None;
        },
    };
    let mut layers: Vec<Layer> = Vec::new();
    let background = if focused {
        style.bg_focused
    } else {
        style.bg_unfocused
    };
    layers.push(Layer::Background(background));
    if focused {
        if let Some(gradient) = &style.gradient {
            if gradient.height > 0 {
                layers.push(
                    Layer::Stripe {
                        width,
                        height: gradient.height,
                        start_rgb: gradient.start_rgb,
                        end_rgb: gradient.end_rgb,
                    },
                );
            }
        }
    }
    let button: i64 = style.button_width as i64;
    match hover {
        HoverState::Close => {
            layers.push(
                Layer::ButtonFill {
                    x: width as i64 - button,
                    width: style.button_width,
                    height,
                    color: style.close_hover_bg,
                },
            );
        },
        HoverState::Maximize => {
            layers.push(
                Layer::ButtonFill {
                    x: width as i64 - button * 2,
                    width: style.button_width,
                    height,
                    color: style.maximize_hover_bg,
                },
            );
        },
        HoverState::Neither => {},
    }
    let (close, maximize) = stroke_icons(style, width, height, focused);
    assert(icon_layers(*style, width, height, focused)[0] == close@);
    assert(icon_layers(*style, width, height, focused)[1] == maximize@);
    layers.push(close);
    layers.push(maximize);
    assert(layers_view(layers@) =~= title_bar_layers(*style, width, height, focused, hover));
    Some(TitleBarDrawing { width, height, canvas, layers })
}

/// The background is drawn first and the icons last, so the icons stay visible on a hovered
/// button.
pub proof fn icons_are_on_top(
    style: TitleBarStyle,
    width: u32,
    height: u32,
    focused: bool,
    hover: HoverState,
)
    ensures
        ({
            let layers = title_bar_layers(style, width, height, focused, hover);
            &&& layers.len() >= 3
            &&& layers.first() is Background
            &&& layers[layers.len() - 1] is Icon
            &&& layers[layers.len() - 2] is Icon
            &&& forall|i: int| 0 <= i < layers.len() - 2 ==> !(#[trigger] layers[i] is Icon)
        }),
{
}

/// An unfocused title bar has no stripe.
pub proof fn stripes_mean_focus(
    style: TitleBarStyle,
    width: u32,
    height: u32,
    hover: HoverState,
    i: int,
)
    requires
        0 <= i < title_bar_layers(style, width, height, false, hover).len(),
    ensures
        !(title_bar_layers(style, width, height, false, hover)[i] is Stripe),
{
}

/// The background of a title bar tells whether the window is focused.
pub proof fn backgrounds_tell_focus(
    style: TitleBarStyle,
    width: u32,
    height: u32,
    hover: HoverState,
)
    ensures
        title_bar_layers(style, width, height, true, hover)[0] == LayerView::Background(
            style.bg_focused,
        ),
        title_bar_layers(style, width, height, false, hover)[0] == LayerView::Background(
            style.bg_unfocused,
        ),
{
}

/// A focused title bar has a stripe if and only if one that is not flat is configured: right above the
/// background, over the whole width, with the configured height and colors.
pub proof fn stripes_are_as_configured(
    style: TitleBarStyle,
    width: u32,
    height: u32,
    hover: HoverState,
)
    ensures
        ({
            let layers = title_bar_layers(style, width, height, true, hover);
            match style.gradient {
                Some(gradient) => {
                    &&& gradient.height > 0 ==> layers[1] == (LayerView::Stripe {
                        width,
                        height: gradient.height,
                        start_rgb: gradient.start_rgb,
                        end_rgb: gradient.end_rgb,
                    })
                    &&& gradient.height == 0 ==> forall|i: int|
                        0 <= i < layers.len() ==> !(#[trigger] layers[i] is Stripe)
                },
                None => forall|i: int| 0 <= i < layers.len() ==> !(#[trigger] layers[i] is Stripe),
            }
        }),
{
}

/// A hovered button is filled right below the icons: the close button ends at the right end of the
/// bar, and the maximize button where the close button begins. Each has its own color. Without a
/// hovered button nothing is filled.
pub proof fn hovered_buttons_are_filled(
    style: TitleBarStyle,
    width: u32,
    height: u32,
    focused: bool,
)
    ensures
        ({
            let close = title_bar_layers(style, width, height, focused, HoverState::Close);
            let maximize = title_bar_layers(style, width, height, focused, HoverState::Maximize);
            let neither = title_bar_layers(style, width, height, focused, HoverState::Neither);
            &&& close[close.len() - 3] matches LayerView::ButtonFill { x, width: w, height: h, color }
                && {
                &&& x + w == width
                &&& w == style.button_width
                &&& h == height
                &&& color == style.close_hover_bg
            }
            &&& maximize[maximize.len() - 3] matches LayerView::ButtonFill {
                x,
                width: w,
                height: h,
                color,
            } && {
                &&& x + w + w == width
                &&& w == style.button_width
                &&& h == height
                &&& color == style.maximize_hover_bg
            }
            &&& forall|i: int| 0 <= i < neither.len() ==> !(#[trigger] neither[i] is ButtonFill)
            &&& close.len() == neither.len() + 1
            &&& maximize.len() == neither.len() + 1
        }),
{
}

/// The icons are in the middle of their buttons and reach as far from there as they are configured to;
/// all of them have the color for the focus of the window.
pub proof fn icons_are_in_the_middle_of_their_buttons(
    style: TitleBarStyle,
    width: u32,
    height: u32,
    focused: bool,
    hover: HoverState,
)
    ensures
        ({
            let layers = title_bar_layers(style, width, height, focused, hover);
            let color_of = if focused {
                style.icon_color
            } else {
                style.icon_color_unfocused
            };
            let close_start = width - style.button_width;
            let close_end = width as int;
            let maximize_start = close_start - style.button_width;
            let size = style.icon_size as int;
            &&& layers[layers.len() - 2] matches LayerView::Icon { path, color, stroke_width } && {
                &&& color == color_of
                &&& stroke_width == style.icon_stroke_width
                &&& path.len() == 4
                &&& path[0].is_at(close_start + close_end - size, height - size)
                &&& path[1].is_at(close_start + close_end + size, height + size)
                &&& path[2].is_at(close_start + close_end + size, height - size)
                &&& path[3].is_at(close_start + close_end - size, height + size)
            }
            &&& layers[layers.len() - 1] matches LayerView::Icon { path, color, stroke_width } && {
                &&& color == color_of
                &&& stroke_width == style.icon_stroke_width
                &&& path.len() == 5
                &&& path[0].is_at(maximize_start + close_start - size, height - size)
                &&& path[1].is_at(maximize_start + close_start + size, height - size)
                &&& path[2].is_at(maximize_start + close_start + size, height + size)
                &&& path[3].is_at(maximize_start + close_start - size, height + size)
                &&& path[4] is Close
            }
        }),
{
}

/// A title bar has a background and two icons, a stripe if it is focused and has one configured, and a
/// filled button if one is hovered; nothing else.
pub proof fn title_bars_have_no_other_layers(
    style: TitleBarStyle,
    width: u32,
    height: u32,
    focused: bool,
    hover: HoverState,
)
    ensures
        title_bar_layers(style, width, height, focused, hover).len() == 3 + (if focused
            && style.gradient is Some && style.gradient->0.height > 0 {
            1int
        } else {
            0
        }) + (if hover == HoverState::Neither {
            0int
        } else {
            1
        }),
{
}

/// A drawing that shows a title bar has its size, begins with a transparent surface of that size, and
/// has its layers from the lowest to the topmost.
pub proof fn drawings_are_title_bars(
    drawing: TitleBarDrawing,
    style: TitleBarStyle,
    width: u32,
    height: u32,
    focused: bool,
    hover: HoverState,
    i: int,
)
    requires
        drawing.shows(style, width, height, focused, hover),
    ensures
        drawing.width == width,
        drawing.height == height,
        drawing.canvas@.len() == 4 * width * height,
        0 <= i < drawing.canvas@.len() ==> drawing.canvas@[i] == 0,
        drawing.layers@.len() == title_bar_layers(style, width, height, focused, hover).len(),
        0 <= i < drawing.layers@.len() ==> drawing.layers@[i]@ == title_bar_layers(
            style,
            width,
            height,
            focused,
            hover,
        )[i],
{
    assert(0 <= 4 * width * height) by (nonlinear_arith)
        requires
            0 <= width,
            0 <= height,
    ;
    let views = layers_view(drawing.layers@);
    assert(views.len() == drawing.layers@.len());
    if 0 <= i < drawing.layers@.len() {
        assert(views[i] == drawing.layers@[i]@);
    }
}

} // verus!
