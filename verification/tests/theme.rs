use anvil::shell::ssd::theme::{
    DecorationTheme, Rgba, Single, WinBorder, WinButtonIcon, WinButtons, WinGradientStripe,
    WinSnapPreview, WinTitleBar, WindowFile,
};

fn color(channels: [f32; 4]) -> Rgba {
    let single = |value: f32| Single { bits: value.to_bits() };
    Rgba {
        red: single(channels[0]),
        green: single(channels[1]),
        blue: single(channels[2]),
        alpha: single(channels[3]),
    }
}

fn silent() -> WindowFile {
    WindowFile {
        title_bar: None,
        buttons: None,
        button_icon: None,
        border: None,
        gradient_stripe: None,
        snap_preview: None,
    }
}

#[test]
fn defaults() {
    let theme = DecorationTheme::defaults();
    assert_eq!(theme.title_bar.height, 32);
    assert_eq!(theme.title_bar.bg_focused, color([0.09921569, 0.08745098, 0.13058823, 1.0]));
    assert_eq!(theme.title_bar.bg_unfocused, color([0.039215688, 0.02745098, 0.07058824, 1.0]));
    assert_eq!(theme.title_bar.text_color_focused, color([1.0, 1.0, 1.0, 1.0]));
    assert_eq!(theme.title_bar.text_color_unfocused, color([0.4, 0.4, 0.4, 1.0]));
    assert_eq!(theme.title_bar.font_family, "IBM Plex Mono");
    assert_eq!(f32::from_bits(theme.title_bar.font_size.bits), 14.0);
    assert_eq!(theme.title_bar.font_weight, 500);
    assert_eq!(theme.title_bar.text_padding_left, 12);
    assert_eq!(theme.buttons.width, 32);
    assert_eq!(theme.buttons.close_hover_bg, color([0.8980392, 0.34901962, 0.21176471, 1.0]));
    assert_eq!(theme.buttons.maximize_hover_bg, color([0.3192157, 0.3701961, 0.74666667, 1.0]));
    assert_eq!(theme.buttons.minimize_hover_bg, color([0.3192157, 0.3701961, 0.74666667, 1.0]));
    assert_eq!(theme.border.width, 2);
    assert_eq!(theme.border.color_focused, color([0.23921569, 0.2901961, 0.6666667, 1.0]));
    assert_eq!(theme.border.color_unfocused, color([0.09921569, 0.08745098, 0.13058823, 1.0]));
    assert_eq!(theme.border.color_default, color([0.07921569, 0.06745098, 0.11058824, 1.0]));
    assert_eq!((theme.resize.edge_width, theme.resize.corner_size), (6, 12));
    assert_eq!(theme.snap_preview.color, color([0.23921569, 0.2901961, 0.6666667, 1.0]));
    assert_eq!(f32::from_bits(theme.snap_preview.opacity.bits), 0.2);
    assert_eq!((theme.snap_preview.border_radius, theme.snap_preview.trigger_distance), (16, 16));
    assert!(theme.gradient_stripe.enabled);
    assert_eq!(theme.gradient_stripe.height, 3);
    assert_eq!(theme.gradient_stripe.start_color, "#440DC3");
    assert_eq!(theme.gradient_stripe.end_color, "#00bf63");
    assert_eq!(theme.button_icon.color, color([1.0, 1.0, 1.0, 1.0]));
    assert_eq!(theme.button_icon.color_unfocused, color([0.4, 0.4, 0.4, 1.0]));
    assert_eq!(theme.button_icon.size, 10);
    assert_eq!(f32::from_bits(theme.button_icon.stroke_width.bits), 1.5);
}

#[test]
fn a_silent_file_means_defaults() {
    let wanted = format!("{:?}", DecorationTheme::defaults());
    assert_eq!(format!("{:?}", DecorationTheme::load(None)), wanted);
    assert_eq!(format!("{:?}", DecorationTheme::load(Some(silent()))), wanted);
}

#[test]
fn every_setting_of_a_file_counts() {
    let red = color([1.0, 0.0, 0.0, 1.0]);
    let theme = DecorationTheme::load(Some(WindowFile {
        title_bar: Some(WinTitleBar {
            height: Some(40),
            font_size: Some(Single { bits: 12.5f32.to_bits() }),
            font_weight: Some(700),
            text_padding_left: Some(3),
            font_family: Some("Mono".to_string()),
            bg_focused: Some(red),
            bg_unfocused: None,
            text_focused: Some(red),
            text_unfocused: None,
        }),
        buttons: Some(WinButtons {
            width: Some(-1),
            close_hover_bg: Some(red),
            maximize_hover_bg: None,
            minimize_hover_bg: Some(red),
        }),
        button_icon: Some(WinButtonIcon {
            size: Some(9),
            stroke_width: Some(Single { bits: 2.0f32.to_bits() }),
            color_focused: Some(red),
            color_unfocused: None,
        }),
        border: Some(WinBorder {
            width: Some(4),
            resize_edge_width: Some(8),
            resize_corner_size: Some(20),
            color_focused: Some(red),
            color_unfocused: None,
            color_default: Some(red),
        }),
        gradient_stripe: Some(WinGradientStripe {
            enabled: Some(false),
            height: Some(1),
            start_color: Some("#000000".to_string()),
            end_color: None,
        }),
        snap_preview: Some(WinSnapPreview {
            opacity: Some(Single { bits: 0.5f32.to_bits() }),
            border_radius: Some(1),
            trigger_distance: Some(2),
            color: Some(red),
        }),
    }));
    let defaults = DecorationTheme::defaults();
    assert_eq!(theme.title_bar.height, 40);
    assert_eq!(theme.title_bar.font_family, "Mono");
    assert_eq!(theme.title_bar.font_weight, 700);
    assert_eq!(theme.title_bar.text_padding_left, 3);
    assert_eq!(f32::from_bits(theme.title_bar.font_size.bits), 12.5);
    assert_eq!(theme.title_bar.bg_focused, red);
    assert_eq!(theme.title_bar.bg_unfocused, defaults.title_bar.bg_unfocused);
    assert_eq!(theme.title_bar.text_color_focused, red);
    assert_eq!(theme.title_bar.text_color_unfocused, defaults.title_bar.text_color_unfocused);
    assert_eq!(theme.buttons.width, -1);
    assert_eq!(theme.buttons.close_hover_bg, red);
    assert_eq!(theme.buttons.maximize_hover_bg, defaults.buttons.maximize_hover_bg);
    assert_eq!(theme.buttons.minimize_hover_bg, red);
    assert_eq!(theme.button_icon.size, 9);
    assert_eq!(theme.button_icon.color, red);
    assert_eq!(theme.button_icon.color_unfocused, defaults.button_icon.color_unfocused);
    assert_eq!(theme.border.width, 4);
    assert_eq!((theme.resize.edge_width, theme.resize.corner_size), (8, 20));
    assert_eq!(theme.border.color_unfocused, defaults.border.color_unfocused);
    assert_eq!(theme.border.color_default, red);
    assert!(!theme.gradient_stripe.enabled);
    assert_eq!(theme.gradient_stripe.start_color, "#000000");
    assert_eq!(theme.gradient_stripe.end_color, "#00bf63");
    assert_eq!(f32::from_bits(theme.snap_preview.opacity.bits), 0.5);
    assert_eq!((theme.snap_preview.border_radius, theme.snap_preview.trigger_distance), (1, 2));
    assert_eq!(theme.snap_preview.color, red);
}
