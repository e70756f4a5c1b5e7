//! The title bar's configuration: set once through a builder, read after.
use vstd::prelude::*;

verus! {

/// The configuration as values.
pub struct ConfigView {
    pub titlebar_height: u32,
    pub button_width: u32,
    pub auto_titlebar: bool,
    pub snap_overlay_delay_ms: u64,
    pub close_hover_bg: Seq<char>,
    pub button_hover_bg: Seq<char>,
}

/// Height 32, buttons 46 wide, no automatic title bar, a 10 ms snap
/// delay, and the hover colours that the scripts are written with.
pub open spec fn default_config() -> ConfigView {
    ConfigView {
        titlebar_height: 32,
        button_width: 46,
        auto_titlebar: false,
        snap_overlay_delay_ms: 10,
        close_hover_bg: "rgba(196,43,28,1)"@,
        button_hover_bg: "rgba(0,0,0,0.2)"@,
    }
}

/// Collects the settings before they are fixed by [`FramePluginBuilder::build`].
pub struct FramePluginBuilder {
    titlebar_height: u32,
    button_width: u32,
    auto_titlebar: bool,
    snap_overlay_delay_ms: u64,
    close_hover_bg: String,
    button_hover_bg: String,
}

impl View for FramePluginBuilder {
    type V = ConfigView;

    closed spec fn view(&self) -> ConfigView {
        ConfigView {
            titlebar_height: self.titlebar_height,
            button_width: self.button_width,
            auto_titlebar: self.auto_titlebar,
            snap_overlay_delay_ms: self.snap_overlay_delay_ms,
            close_hover_bg: self.close_hover_bg@,
            button_hover_bg: self.button_hover_bg@,
        }
    }
}

/// The fixed configuration. It has no setters: once built it stays as it is.
#[derive(Clone)]
pub struct FrameConfig {
    titlebar_height: u32,
    button_width: u32,
    auto_titlebar: bool,
    snap_overlay_delay_ms: u64,
    close_hover_bg: String,
    button_hover_bg: String,
}

impl View for FrameConfig {
    type V = ConfigView;

    closed spec fn view(&self) -> ConfigView {
        ConfigView {
            titlebar_height: self.titlebar_height,
            button_width: self.button_width,
            auto_titlebar: self.auto_titlebar,
            snap_overlay_delay_ms: self.snap_overlay_delay_ms,
            close_hover_bg: self.close_hover_bg@,
            button_hover_bg: self.button_hover_bg@,
        }
    }
}

impl Default for FramePluginBuilder {
    fn default() -> (r: Self)
        ensures
            r@ == default_config(),
    {
        Self::new()
    }
}

impl FramePluginBuilder {
    /// A builder that holds the defaults.
    pub fn new() -> (r: Self)
        ensures
            r@ == default_config(),
    {
        FramePluginBuilder {
            titlebar_height: 32,
            button_width: 46,
            auto_titlebar: false,
            snap_overlay_delay_ms: 10,
            close_hover_bg: String::from_str("rgba(196,43,28,1)"),
            button_hover_bg: String::from_str("rgba(0,0,0,0.2)"),
        }
    }

    /// Sets the title bar's height in pixels.
    pub fn titlebar_height(self, height: u32) -> (r: Self)
        ensures
            r@ == (ConfigView { titlebar_height: height, ..self@ }),
    {
        FramePluginBuilder { titlebar_height: height, ..self }
    }

    /// Sets the width of each control button in pixels.
    pub fn button_width(self, width: u32) -> (r: Self)
        ensures
            r@ == (ConfigView { button_width: width, ..self@ }),
    {
        FramePluginBuilder { button_width: width, ..self }
    }

    /// Sets whether every page load installs the title bar.
    pub fn auto_titlebar(self, auto: bool) -> (r: Self)
        ensures
            r@ == (ConfigView { auto_titlebar: auto, ..self@ }),
    {
        FramePluginBuilder { auto_titlebar: auto, ..self }
    }

    /// Sets the wait between opening the snap overlay and the Alt tap.
    pub fn snap_overlay_delay_ms(self, delay: u64) -> (r: Self)
        ensures
            r@ == (ConfigView { snap_overlay_delay_ms: delay, ..self@ }),
    {
        FramePluginBuilder { snap_overlay_delay_ms: delay, ..self }
    }

    /// Sets the close button's hover background, a CSS colour.
    pub fn close_hover_bg(self, color: &str) -> (r: Self)
        ensures
            r@ == (ConfigView { close_hover_bg: color@, ..self@ }),
    {
        FramePluginBuilder { close_hover_bg: String::from_str(color), ..self }
    }

    /// Sets the other buttons' hover background, a CSS colour.
    pub fn button_hover_bg(self, color: &str) -> (r: Self)
        ensures
            r@ == (ConfigView { button_hover_bg: color@, ..self@ }),
    {
        FramePluginBuilder { button_hover_bg: String::from_str(color), ..self }
    }

    /// Fixes the configuration for a platform: off Windows the overlay
    /// title bar does not apply, and the settings give way to the defaults.
    pub fn build_for_platform(self, windows: bool) -> (r: FrameConfig)
        ensures
            r@ == (if windows { self@ } else { default_config() }),
    {
        if windows {
            self.build()
        } else {
            init()
        }
    }

    /// Fixes the configuration.
    pub fn build(self) -> (r: FrameConfig)
        ensures
            r@ == self@,
    {
        FrameConfig {
            titlebar_height: self.titlebar_height,
            button_width: self.button_width,
            auto_titlebar: self.auto_titlebar,
            snap_overlay_delay_ms: self.snap_overlay_delay_ms,
            close_hover_bg: self.close_hover_bg,
            button_hover_bg: self.button_hover_bg,
        }
    }
}

impl FrameConfig {
    /// The title bar's height in pixels.
    pub fn titlebar_height(&self) -> (r: u32)
        ensures
            r == self@.titlebar_height,
    {
        self.titlebar_height
    }

    /// The width of each control button in pixels.
    pub fn button_width(&self) -> (r: u32)
        ensures
            r == self@.button_width,
    {
        self.button_width
    }

    /// Whether every page load installs the title bar.
    pub fn auto_titlebar(&self) -> (r: bool)
        ensures
            r == self@.auto_titlebar,
    {
        self.auto_titlebar
    }

    /// The wait between opening the snap overlay and the Alt tap, in milliseconds.
    pub fn snap_overlay_delay_ms(&self) -> (r: u64)
        ensures
            r == self@.snap_overlay_delay_ms,
    {
        self.snap_overlay_delay_ms
    }

    /// The close button's hover background.
    pub fn close_hover_bg(&self) -> (r: &str)
        ensures
            r@ == self@.close_hover_bg,
    {
        self.close_hover_bg.as_str()
    }

    /// The other buttons' hover background.
    pub fn button_hover_bg(&self) -> (r: &str)
        ensures
            r@ == self@.button_hover_bg,
    {
        self.button_hover_bg.as_str()
    }
}

/// The default configuration, built.
pub fn init() -> (r: FrameConfig)
    ensures
        r@ == default_config(),
{
    FramePluginBuilder::new().build()
}

/// The plugin's state as the application sees it.
#[derive(Clone)]
pub struct Frame {
    config: FrameConfig,
}

impl View for Frame {
    type V = ConfigView;

    closed spec fn view(&self) -> ConfigView {
        self.config@
    }
}

impl Frame {
    pub fn new(config: FrameConfig) -> (r: Self)
        ensures
            r@ == config@,
    {
        Frame { config }
    }

    /// The configured title-bar height in pixels.
    pub fn titlebar_height(&self) -> (r: u32)
        ensures
            r == self@.titlebar_height,
    {
        self.config.titlebar_height()
    }

    /// Whether every page load installs the title bar.
    pub fn auto_titlebar(&self) -> (r: bool)
        ensures
            r == self@.auto_titlebar,
    {
        self.config.auto_titlebar()
    }

    /// The configuration itself.
    pub fn config(&self) -> (r: &FrameConfig)
        ensures
            r@ == self@,
    {
        &self.config
    }
}

} // verus!
