use kinc::{
    FramebufferOptions, InitOptions, KincBuilder, RawFramebufferOptions, RawWindowOptions,
    WindowFeatures, WindowMode, WindowOptions,
};

#[test]
fn window_features_are_single_bits() {
    assert_eq!(WindowFeatures::empty().bits(), 0);
    assert_eq!(WindowFeatures::resizeable().bits(), 1);
    assert_eq!(WindowFeatures::minimizable().bits(), 2);
    assert_eq!(WindowFeatures::maximizable().bits(), 4);
    assert_eq!(WindowFeatures::borderless().bits(), 8);
    assert_eq!(WindowFeatures::on_top().bits(), 16);
    assert_eq!(WindowFeatures::all().bits(), 31);
}

#[test]
fn default_window_features_are_resize_minimize_maximize() {
    let features = WindowFeatures::default();
    assert_eq!(features.bits(), 7);
    assert_eq!(
        features,
        WindowFeatures::resizeable()
            .union(WindowFeatures::minimizable())
            .union(WindowFeatures::maximizable())
    );
    assert!(features.contains(WindowFeatures::resizeable()));
    assert!(!features.contains(WindowFeatures::borderless()));
    assert!(!features.contains(WindowFeatures::on_top()));
}

#[test]
fn window_features_from_bits() {
    assert_eq!(WindowFeatures::from_bits(0), Some(WindowFeatures::empty()));
    assert_eq!(WindowFeatures::from_bits(24).map(|f| f.bits()), Some(24));
    assert_eq!(WindowFeatures::from_bits(31), Some(WindowFeatures::all()));
    assert_eq!(WindowFeatures::from_bits(32), None);
    assert_eq!(WindowFeatures::from_bits(33), None);
    assert_eq!(WindowFeatures::from_bits_truncate(33), WindowFeatures::resizeable());
    assert_eq!(WindowFeatures::from_bits_truncate(u32::MAX), WindowFeatures::all());
    assert!(WindowFeatures::from_bits_truncate(32).is_empty());
    assert!(!WindowFeatures::on_top().is_empty());
}

#[test]
fn window_mode_codes() {
    assert_eq!(WindowMode::Window.into(), 0);
    assert_eq!(WindowMode::Fullscreen.into(), 1);
    assert_eq!(WindowMode::FullscreenExlusive.into(), 2);
    assert_eq!(WindowMode::default(), WindowMode::Window);
}

#[test]
fn new_window_options_describe_a_visible_500_by_500_window() {
    let options = WindowOptions::new();
    assert_eq!(options.title, "");
    assert_eq!(options.x, 0);
    assert_eq!(options.y, 0);
    assert_eq!(options.width, 500);
    assert_eq!(options.height, 500);
    assert_eq!(options.display_index, 0);
    assert!(options.visible);
    assert_eq!(options.window_features, WindowFeatures::default());
    assert_eq!(options.mode, WindowMode::Window);
}

#[test]
fn default_window_options_are_all_zero() {
    let options = WindowOptions::default();
    assert_eq!(options.title, "");
    assert_eq!(options.x, 0);
    assert_eq!(options.y, 0);
    assert_eq!(options.width, 0);
    assert_eq!(options.height, 0);
    assert_eq!(options.display_index, 0);
    assert!(!options.visible);
    assert_eq!(options.window_features, WindowFeatures::default());
    assert_eq!(options.mode, WindowMode::Window);
}

#[test]
fn each_window_option_setter_changes_its_field_alone() {
    let options = WindowOptions::new()
        .title("demo")
        .x(10)
        .y(-20)
        .width(640)
        .height(480)
        .display_index(1)
        .visible(false)
        .window_features(WindowFeatures::borderless())
        .mode(WindowMode::Fullscreen);
    assert_eq!(options.title, "demo");
    assert_eq!(options.x, 10);
    assert_eq!(options.y, -20);
    assert_eq!(options.width, 640);
    assert_eq!(options.height, 480);
    assert_eq!(options.display_index, 1);
    assert!(!options.visible);
    assert_eq!(options.window_features, WindowFeatures::borderless());
    assert_eq!(options.mode, WindowMode::Fullscreen);

    let only_x = WindowOptions::new().x(7);
    assert_eq!(only_x.x, 7);
    assert_eq!(only_x.y, 0);
    assert_eq!(only_x.width, 500);
    assert_eq!(only_x.height, 500);
    assert!(only_x.visible);
    assert_eq!(only_x.title, "");
}

#[test]
fn window_options_reach_the_engine_field_by_field() {
    let raw = WindowOptions::new()
        .title("demo")
        .x(10)
        .y(-20)
        .width(640)
        .height(480)
        .display_index(1)
        .visible(false)
        .window_features(WindowFeatures::borderless().union(WindowFeatures::on_top()))
        .mode(WindowMode::FullscreenExlusive)
        .into();
    assert_eq!(
        raw,
        RawWindowOptions {
            title: "demo",
            x: 10,
            y: -20,
            width: 640,
            height: 480,
            display_index: 1,
            visible: false,
            window_features: 24,
            mode: 2,
        }
    );
}

#[test]
fn the_engine_is_handed_the_features_the_options_hold() {
    for (features, bits) in [
        (WindowFeatures::empty(), 0),
        (WindowFeatures::resizeable(), 1),
        (WindowFeatures::default(), 7),
        (WindowFeatures::borderless().union(WindowFeatures::on_top()), 24),
        (WindowFeatures::all(), 31),
    ] {
        assert_eq!(WindowOptions::new().window_features(features).into().window_features, bits);
    }
    assert_eq!(WindowOptions::new().into().window_features, 7);
}

#[test]
fn framebuffer_options_default_to_zero() {
    assert_eq!(
        FramebufferOptions::default(),
        FramebufferOptions {
            frequency: 0,
            vertical_sync: false,
            color_bits: 0,
            depth_bits: 0,
            stencil_bits: 0,
            samples_per_pixel: 0,
        }
    );
}

#[test]
fn framebuffer_options_reach_the_engine_field_by_field() {
    let options = FramebufferOptions {
        frequency: 60,
        vertical_sync: true,
        color_bits: 32,
        depth_bits: 24,
        stencil_bits: 8,
        samples_per_pixel: 4,
    };
    assert_eq!(
        options.into(),
        RawFramebufferOptions {
            frequency: 60,
            vertical_sync: true,
            color_bits: 32,
            depth_bits: 24,
            stencil_bits: 8,
            samples_per_pixel: 4,
        }
    );
}

#[test]
fn a_plain_builder_leaves_the_options_to_the_engine() {
    let (kinc, window) = KincBuilder::new("Kinc", 500, 400).build();
    assert_eq!(
        kinc.init(),
        InitOptions {
            name: "Kinc",
            width: 500,
            height: 400,
            window_options: None,
            framebuffer_options: None,
        }
    );
    assert_eq!(window.id(), 0);
    assert_eq!(kinc.default_window().id(), 0);
}

#[test]
fn a_builder_hands_on_the_options_it_was_given() {
    let (kinc, _) = KincBuilder::new("Kinc", 500, 400)
        .window_options(WindowOptions::new().title("w").width(320).mode(WindowMode::Fullscreen))
        .framebuffer_options(FramebufferOptions {
            frequency: 60,
            vertical_sync: true,
            color_bits: 32,
            depth_bits: 16,
            stencil_bits: 8,
            samples_per_pixel: 1,
        })
        .build();
    assert_eq!(
        kinc.init(),
        InitOptions {
            name: "Kinc",
            width: 500,
            height: 400,
            window_options: Some(RawWindowOptions {
                title: "w",
                x: 0,
                y: 0,
                width: 320,
                height: 500,
                display_index: 0,
                visible: true,
                window_features: 7,
                mode: 1,
            }),
            framebuffer_options: Some(RawFramebufferOptions {
                frequency: 60,
                vertical_sync: true,
                color_bits: 32,
                depth_bits: 16,
                stencil_bits: 8,
                samples_per_pixel: 1,
            }),
        }
    );
}

#[test]
fn the_last_options_given_to_a_builder_win() {
    let (kinc, _) = KincBuilder::new("Kinc", 1, 2)
        .window_options(WindowOptions::new().x(1))
        .window_options(WindowOptions::new().x(2))
        .build();
    assert_eq!(kinc.init().window_options.map(|o| o.x), Some(2));
    assert_eq!(kinc.init().framebuffer_options, None);
}
