//! Windows, the options the engine is started with, and the handle to the
//! started engine.

use vstd::prelude::*;
use crate::g4::pass::Graphics4;
use crate::g4::vertex::name_is_valid;
use crate::sys::{
    KINC_WINDOW_FEATURE_BORDERLESS, KINC_WINDOW_FEATURE_MAXIMIZABLE,
    KINC_WINDOW_FEATURE_MINIMIZABLE, KINC_WINDOW_FEATURE_ON_TOP, KINC_WINDOW_FEATURE_RESIZEABLE,
    KINC_WINDOW_MODE_EXCLUSIVE_FULLSCREEN, KINC_WINDOW_MODE_FULLSCREEN, KINC_WINDOW_MODE_WINDOW,
};

verus! {

/// Every bit a [`WindowFeatures`] can hold.
pub const WINDOW_FEATURES_ALL: u32 = KINC_WINDOW_FEATURE_RESIZEABLE
    | KINC_WINDOW_FEATURE_MINIMIZABLE | KINC_WINDOW_FEATURE_MAXIMIZABLE
    | KINC_WINDOW_FEATURE_BORDERLESS | KINC_WINDOW_FEATURE_ON_TOP;

/// The features a window has by default: it can be resized, minimised and
/// maximised.
pub const WINDOW_FEATURES_DEFAULT: u32 = KINC_WINDOW_FEATURE_RESIZEABLE
    | KINC_WINDOW_FEATURE_MINIMIZABLE | KINC_WINDOW_FEATURE_MAXIMIZABLE;

/// A set of window features.
#[derive(Debug, Copy, Clone, PartialEq, Eq)]
pub struct WindowFeatures {
    bits: u32,
}

impl View for WindowFeatures {
    type V = u32;

    /// The features, one bit each.
    closed spec fn view(&self) -> u32 {
        self.bits
    }
}

impl WindowFeatures {
    #[verifier::type_invariant]
    spec fn inv(self) -> bool {
        self.bits & !WINDOW_FEATURES_ALL == 0
    }

    /// No feature.
    pub fn empty() -> (features: Self)
        ensures
            features@ == 0,
    {
        assert(0u32 & !WINDOW_FEATURES_ALL == 0) by (bit_vector);
        WindowFeatures { bits: 0 }
    }

    /// The window can be resized.
    pub fn resizeable() -> (features: Self)
        ensures
            features@ == KINC_WINDOW_FEATURE_RESIZEABLE,
    {
        assert(KINC_WINDOW_FEATURE_RESIZEABLE & !WINDOW_FEATURES_ALL == 0) by (bit_vector);
        WindowFeatures { bits: KINC_WINDOW_FEATURE_RESIZEABLE }
    }

    /// The window can be minimised.
    pub fn minimizable() -> (features: Self)
        ensures
            features@ == KINC_WINDOW_FEATURE_MINIMIZABLE,
    {
        assert(KINC_WINDOW_FEATURE_MINIMIZABLE & !WINDOW_FEATURES_ALL == 0) by (bit_vector);
        WindowFeatures { bits: KINC_WINDOW_FEATURE_MINIMIZABLE }
    }

    /// The window can be maximised.
    pub fn maximizable() -> (features: Self)
        ensures
            features@ == KINC_WINDOW_FEATURE_MAXIMIZABLE,
    {
        assert(KINC_WINDOW_FEATURE_MAXIMIZABLE & !WINDOW_FEATURES_ALL == 0) by (bit_vector);
        WindowFeatures { bits: KINC_WINDOW_FEATURE_MAXIMIZABLE }
    }

    /// The window has no border.
    pub fn borderless() -> (features: Self)
        ensures
            features@ == KINC_WINDOW_FEATURE_BORDERLESS,
    {
        assert(KINC_WINDOW_FEATURE_BORDERLESS & !WINDOW_FEATURES_ALL == 0) by (bit_vector);
        WindowFeatures { bits: KINC_WINDOW_FEATURE_BORDERLESS }
    }

    /// The window stays above the others.
    pub fn on_top() -> (features: Self)
        ensures
            features@ == KINC_WINDOW_FEATURE_ON_TOP,
    {
        assert(KINC_WINDOW_FEATURE_ON_TOP & !WINDOW_FEATURES_ALL == 0) by (bit_vector);
        WindowFeatures { bits: KINC_WINDOW_FEATURE_ON_TOP }
    }

    /// Every feature.
    pub fn all() -> (features: Self)
        ensures
            features@ == WINDOW_FEATURES_ALL,
    {
        assert(WINDOW_FEATURES_ALL & !WINDOW_FEATURES_ALL == 0) by (bit_vector);
        WindowFeatures { bits: WINDOW_FEATURES_ALL }
    }

    /// The features as the engine takes them.
    pub fn bits(&self) -> (bits: u32)
        ensures
            bits == self@,
            bits & !WINDOW_FEATURES_ALL == 0,
    {
        proof {
            use_type_invariant(self);
        }
        self.bits
    }

    /// The set with exactly the features in `bits`, unless a bit of `bits`
    /// stands for no feature.
    pub fn from_bits(bits: u32) -> (features: Option<Self>)
        ensures
            match features {
                Some(f) => f@ == bits && bits & !WINDOW_FEATURES_ALL == 0,
                None => bits & !WINDOW_FEATURES_ALL != 0,
            },
    {
        if bits & !WINDOW_FEATURES_ALL == 0 {
            Some(WindowFeatures { bits })
        } else {
            None
        }
    }

    /// The set with the features in `bits`; bits that stand for no feature
    /// are dropped.
    pub fn from_bits_truncate(bits: u32) -> (features: Self)
        ensures
            features@ == bits & WINDOW_FEATURES_ALL,
    {
        assert((bits & WINDOW_FEATURES_ALL) & !WINDOW_FEATURES_ALL == 0) by (bit_vector);
        WindowFeatures { bits: bits & WINDOW_FEATURES_ALL }
    }

    /// Whether the set holds no feature.
    pub fn is_empty(&self) -> (empty: bool)
        ensures
            empty == (self@ == 0),
    {
        self.bits == 0
    }

    /// Whether every feature of `other` is in this set.
    pub fn contains(&self, other: Self) -> (contained: bool)
        ensures
            contained == (self@ & other@ == other@),
    {
        self.bits & other.bits == other.bits
    }

    /// The features of either set.
    pub fn union(self, other: Self) -> (features: Self)
        ensures
            features@ == self@ | other@,
    {
        proof {
            use_type_invariant(&self);
            use_type_invariant(&other);
        }
        let a: u32 = self.bits;
        let b: u32 = other.bits;
        assert((a | b) & !WINDOW_FEATURES_ALL == 0) by (bit_vector)
            requires
                a & !WINDOW_FEATURES_ALL == 0,
                b & !WINDOW_FEATURES_ALL == 0,
        ;
        WindowFeatures { bits: a | b }
    }
}

impl Default for WindowFeatures {
    /// Resizeable, minimisable and maximisable.
    fn default() -> (features: WindowFeatures)
        ensures
            features@ == WINDOW_FEATURES_DEFAULT,
    {
        assert(WINDOW_FEATURES_DEFAULT & !WINDOW_FEATURES_ALL == 0) by (bit_vector);
        WindowFeatures { bits: WINDOW_FEATURES_DEFAULT }
    }
}

/// How a window takes up the screen.
#[derive(Clone, Copy, Debug, PartialEq, Eq, Structural)]
pub enum WindowMode {
    Window,
    Fullscreen,
    FullscreenExlusive,
}

impl WindowMode {
    /// The native constant that stands for this mode.
    pub open spec fn code(self) -> u32 {
        match self {
            WindowMode::Window => KINC_WINDOW_MODE_WINDOW,
            WindowMode::Fullscreen => KINC_WINDOW_MODE_FULLSCREEN,
            WindowMode::FullscreenExlusive => KINC_WINDOW_MODE_EXCLUSIVE_FULLSCREEN,
        }
    }

    /// No two modes share a native constant.
    pub proof fn lemma_code_injective(a: Self, b: Self)
        requires
            a.code() == b.code(),
        ensures
            a == b,
    {
    }

    /// Gives the native constant.
    pub fn into(self) -> (raw: u32)
        ensures
            raw == self.code(),
    {
        match self {
            WindowMode::Window => KINC_WINDOW_MODE_WINDOW,
            WindowMode::Fullscreen => KINC_WINDOW_MODE_FULLSCREEN,
            WindowMode::FullscreenExlusive => KINC_WINDOW_MODE_EXCLUSIVE_FULLSCREEN,
        }
    }
}

impl Default for WindowMode {
    fn default() -> (mode: Self)
        ensures
            mode == WindowMode::Window,
    {
        WindowMode::Window
    }
}

/// What a window looks like when it is first shown.
#[derive(Copy, Clone, Debug)]
pub struct WindowOptions<'a> {
    pub title: &'a str,
    pub x: i32,
    pub y: i32,
    pub width: i32,
    pub height: i32,
    pub display_index: i32,
    pub visible: bool,
    pub window_features: WindowFeatures,
    pub mode: WindowMode,
}

/// Window options in the engine's own representation.
#[derive(Copy, Clone, Debug, PartialEq, Eq)]
pub struct RawWindowOptions<'a> {
    pub title: &'a str,
    pub x: i32,
    pub y: i32,
    pub width: i32,
    pub height: i32,
    pub display_index: i32,
    pub visible: bool,
    pub window_features: u32,
    pub mode: u32,
}

impl<'a> Default for WindowOptions<'a> {
    /// An untitled, invisible window of no size with the default features.
    fn default() -> (options: Self)
        ensures
            options.title@ == Seq::<char>::empty(),
            options.x == 0,
            options.y == 0,
            options.width == 0,
            options.height == 0,
            options.display_index == 0,
            !options.visible,
            options.window_features@ == WINDOW_FEATURES_DEFAULT,
            options.mode == WindowMode::Window,
    {
        let title: &'static str = "";
        proof {
            reveal_strlit("");
        }
        WindowOptions {
            title,
            x: 0,
            y: 0,
            width: 0,
            height: 0,
            display_index: 0,
            visible: false,
            window_features: WindowFeatures::default(),
            mode: WindowMode::Window,
        }
    }
}

impl<'a> WindowOptions<'a> {
    /// An untitled, visible window of 500 by 500 pixels at the origin of the
    /// first display, with the default features.
    pub fn new() -> (options: Self)
        ensures
            options.title@ == Seq::<char>::empty(),
            options.x == 0,
            options.y == 0,
            options.width == 500,
            options.height == 500,
            options.display_index == 0,
            options.visible,
            options.window_features@ == WINDOW_FEATURES_DEFAULT,
            options.mode == WindowMode::Window,
    {
        let title: &'static str = "";
        proof {
            reveal_strlit("");
        }
        WindowOptions {
            title,
            x: 0,
            y: 0,
            width: 500,
            height: 500,
            display_index: 0,
            visible: true,
            window_features: WindowFeatures::default(),
            mode: WindowMode::default(),
        }
    }

    /// Sets the title.
    pub fn title(self, title: &'a str) -> (options: Self)
        ensures
            options == (WindowOptions { title, ..self }),
    {
        let mut options = self;
        options.title = title;
        options
    }

    /// Sets the horizontal position.
    pub fn x(self, x: i32) -> (options: Self)
        ensures
            options == (WindowOptions { x, ..self }),
    {
        let mut options = self;
        options.x = x;
        options
    }

    /// Sets the vertical position.
    pub fn y(self, y: i32) -> (options: Self)
        ensures
            options == (WindowOptions { y, ..self }),
    {
        let mut options = self;
        options.y = y;
        options
    }

    /// Sets the width.
    pub fn width(self, width: i32) -> (options: Self)
        ensures
            options == (WindowOptions { width, ..self }),
    {
        let mut options = self;
        options.width = width;
        options
    }

    /// Sets the height.
    pub fn height(self, height: i32) -> (options: Self)
        ensures
            options == (WindowOptions { height, ..self }),
    {
        let mut options = self;
        options.height = height;
        options
    }

    /// Sets the display the window opens on.
    pub fn display_index(self, display_index: i32) -> (options: Self)
        ensures
            options == (WindowOptions { display_index, ..self }),
    {
        let mut options = self;
        options.display_index = display_index;
        options
    }

    /// Sets whether the window is shown.
    pub fn visible(self, visible: bool) -> (options: Self)
        ensures
            options == (WindowOptions { visible, ..self }),
    {
        let mut options = self;
        options.visible = visible;
        options
    }

    /// Sets the features.
    pub fn window_features(self, window_features: WindowFeatures) -> (options: Self)
        ensures
            options == (WindowOptions { window_features, ..self }),
    {
        let mut options = self;
        options.window_features = window_features;
        options
    }

    /// Sets the mode.
    pub fn mode(self, mode: WindowMode) -> (options: Self)
        ensures
            options == (WindowOptions { mode, ..self }),
    {
        let mut options = self;
        options.mode = mode;
        options
    }

    /// The options as the engine is handed them.
    pub open spec fn raw(self) -> RawWindowOptions<'a> {
        RawWindowOptions {
            title: self.title,
            x: self.x,
            y: self.y,
            width: self.width,
            height: self.height,
            display_index: self.display_index,
            visible: self.visible,
            window_features: self.window_features@,
            mode: self.mode.code(),
        }
    }

    /// The options in the engine's own representation: the features as
    /// their bits, the mode as its native constant.
    pub fn into(self) -> (raw: RawWindowOptions<'a>)
        ensures
            raw == self.raw(),
    {
        RawWindowOptions {
            title: self.title,
            x: self.x,
            y: self.y,
            width: self.width,
            height: self.height,
            display_index: self.display_index,
            visible: self.visible,
            window_features: self.window_features.bits(),
            mode: self.mode.into(),
        }
    }
}

/// What the framebuffer of a window is asked to be.
#[derive(Copy, Clone, Debug, PartialEq, Eq, Structural)]
pub struct FramebufferOptions {
    pub frequency: i32,
    pub vertical_sync: bool,
    pub color_bits: i32,
    pub depth_bits: i32,
    pub stencil_bits: i32,
    pub samples_per_pixel: i32,
}

/// Framebuffer options in the engine's own representation.
#[derive(Copy, Clone, Debug, PartialEq, Eq, Structural)]
pub struct RawFramebufferOptions {
    pub frequency: i32,
    pub vertical_sync: bool,
    pub color_bits: i32,
    pub depth_bits: i32,
    pub stencil_bits: i32,
    pub samples_per_pixel: i32,
}

impl Default for FramebufferOptions {
    /// Everything zero, no vertical sync.
    fn default() -> (options: Self)
        ensures
            options == (FramebufferOptions {
                frequency: 0,
                vertical_sync: false,
                color_bits: 0,
                depth_bits: 0,
                stencil_bits: 0,
                samples_per_pixel: 0,
            }),
    {
        FramebufferOptions {
            frequency: 0,
            vertical_sync: false,
            color_bits: 0,
            depth_bits: 0,
            stencil_bits: 0,
            samples_per_pixel: 0,
        }
    }
}

impl FramebufferOptions {
    /// The options as the engine is handed them.
    pub open spec fn raw(self) -> RawFramebufferOptions {
        RawFramebufferOptions {
            frequency: self.frequency,
            vertical_sync: self.vertical_sync,
            color_bits: self.color_bits,
            depth_bits: self.depth_bits,
            stencil_bits: self.stencil_bits,
            samples_per_pixel: self.samples_per_pixel,
        }
    }

    /// The options in the engine's own representation.
    pub fn into(self) -> (raw: RawFramebufferOptions)
        ensures
            raw == self.raw(),
    {
        RawFramebufferOptions {
            frequency: self.frequency,
            vertical_sync: self.vertical_sync,
            color_bits: self.color_bits,
            depth_bits: self.depth_bits,
            stencil_bits: self.stencil_bits,
            samples_per_pixel: self.samples_per_pixel,
        }
    }
}

/// A window of the engine, known by its index.
#[derive(Debug, Copy, Clone)]
pub struct Window {
    window: i32,
}

impl Window {
    /// The index the engine knows the window by.
    pub closed spec fn index(&self) -> i32 {
        self.window
    }

    /// The index the engine knows the window by.
    pub fn id(&self) -> (id: i32)
        ensures
            id == self.index(),
    {
        self.window
    }

    /// An idle graphics context.
    pub fn g4(&self) -> (graphics: Graphics4)
        ensures
            graphics.idle(),
    {
        Graphics4::new()
    }
}

/// What the engine is started with.
#[derive(Copy, Clone, Debug, PartialEq, Eq)]
pub struct InitOptions<'a> {
    pub name: &'a str,
    pub width: i32,
    pub height: i32,
    /// The window options, where the engine's own are not to be used.
    pub window_options: Option<RawWindowOptions<'a>>,
    /// The framebuffer options, where the engine's own are not to be used.
    pub framebuffer_options: Option<RawFramebufferOptions>,
}

/// Collects what the engine is started with.
#[derive(Copy, Clone, Debug)]
pub struct KincBuilder<'a> {
    pub name: &'a str,
    pub width: i32,
    pub height: i32,
    pub window_options: Option<WindowOptions<'a>>,
    pub framebuffer_options: Option<FramebufferOptions>,
}

impl<'a> KincBuilder<'a> {
    /// A builder for an engine named `name` with a first window of `width`
    /// by `height` pixels; the options are left to the engine.
    pub fn new(name: &'a str, width: i32, height: i32) -> (builder: Self)
        ensures
            builder == (KincBuilder {
                name,
                width,
                height,
                window_options: None,
                framebuffer_options: None,
            }),
    {
        KincBuilder { name, width, height, window_options: None, framebuffer_options: None }
    }

    /// Sets the options of the first window.
    pub fn window_options(self, window_options: WindowOptions<'a>) -> (builder: Self)
        ensures
            builder == (KincBuilder { window_options: Some(window_options), ..self }),
    {
        let mut builder = self;
        builder.window_options = Some(window_options);
        builder
    }

    /// Sets the options of the first window's framebuffer.
    pub fn framebuffer_options(self, framebuffer_options: FramebufferOptions) -> (builder: Self)
        ensures
            builder == (KincBuilder { framebuffer_options: Some(framebuffer_options), ..self }),
    {
        let mut builder = self;
        builder.framebuffer_options = Some(framebuffer_options);
        builder
    }

    /// What `build` has the engine started with.
    pub open spec fn init(self) -> InitOptions<'a> {
        InitOptions {
            name: self.name,
            width: self.width,
            height: self.height,
            window_options: match self.window_options {
                Some(options) => Some(options.raw()),
                None => None,
            },
            framebuffer_options: match self.framebuffer_options {
                Some(options) => Some(options.raw()),
                None => None,
            },
        }
    }

    /// Puts what was collected into the form the engine takes and hands out
    /// the engine handle together with the first window. The name has to be
    /// one the engine can take: free of NUL characters.
    pub fn build(self) -> (started: (Kinc<'a>, Window))
        requires
            name_is_valid(self.name@),
        ensures
            started.0.init_options() == self.init(),
            started.1.index() == 0,
    {
        let window_options = match self.window_options {
            Some(options) => Some(options.into()),
            None => None,
        };
        let framebuffer_options = match self.framebuffer_options {
            Some(options) => Some(options.into()),
            None => None,
        };
        (
            Kinc {
                init: InitOptions {
                    name: self.name,
                    width: self.width,
                    height: self.height,
                    window_options,
                    framebuffer_options,
                },
            },
            Window { window: 0 },
        )
    }
}

/// The handle to the engine, once it is told how to start.
#[derive(Debug)]
pub struct Kinc<'a> {
    init: InitOptions<'a>,
}

impl<'a> Kinc<'a> {
    /// What the engine is started with.
    pub closed spec fn init_options(&self) -> InitOptions<'a> {
        self.init
    }

    /// What the engine is started with.
    pub fn init(&self) -> (init: InitOptions<'a>)
        ensures
            init == self.init_options(),
    {
        self.init
    }

    /// The first window: the one the engine opens when it starts.
    pub fn default_window(&self) -> (window: Window)
        ensures
            window.index() == 0,
    {
        Window { window: 0 }
    }

    /// An idle graphics context.
    pub fn g4(&self) -> (graphics: Graphics4)
        ensures
            graphics.idle(),
    {
        Graphics4::new()
    }
}

/// What an application does each frame.
pub trait Callbacks {
    /// Called once per frame, on the thread the engine was started on.
    fn update(&mut self, _kinc: &mut Kinc) {
    }
}

} // verus!
