use tauri_plugin_frame::{init, Frame, FramePluginBuilder};

#[test]
fn builder_defaults() {
    let config = FramePluginBuilder::new().build();
    assert_eq!(config.titlebar_height(), 32);
    assert_eq!(config.button_width(), 46);
    assert!(!config.auto_titlebar());
    assert_eq!(config.snap_overlay_delay_ms(), 10);
    assert_eq!(config.close_hover_bg(), "rgba(196,43,28,1)");
    assert_eq!(config.button_hover_bg(), "rgba(0,0,0,0.2)");
    let default = FramePluginBuilder::default().build();
    assert_eq!(default.titlebar_height(), 32);
    assert_eq!(init().button_hover_bg(), "rgba(0,0,0,0.2)");
}

#[test]
fn builder_setters() {
    let config = FramePluginBuilder::new()
        .titlebar_height(40)
        .button_width(50)
        .auto_titlebar(true)
        .snap_overlay_delay_ms(25)
        .close_hover_bg("red")
        .button_hover_bg("rgba(255,255,255,0.1)")
        .build();
    assert_eq!(config.titlebar_height(), 40);
    assert_eq!(config.button_width(), 50);
    assert!(config.auto_titlebar());
    assert_eq!(config.snap_overlay_delay_ms(), 25);
    assert_eq!(config.close_hover_bg(), "red");
    assert_eq!(config.button_hover_bg(), "rgba(255,255,255,0.1)");
}

#[test]
fn built_config_ignores_later_builders() {
    let config = FramePluginBuilder::new().titlebar_height(40).auto_titlebar(true).build();
    let _other = FramePluginBuilder::new()
        .titlebar_height(99)
        .button_width(1)
        .auto_titlebar(false)
        .snap_overlay_delay_ms(0)
        .close_hover_bg("x")
        .button_hover_bg("y")
        .build();
    assert_eq!(config.titlebar_height(), 40);
    assert_eq!(config.button_width(), 46);
    assert!(config.auto_titlebar());
    assert_eq!(config.snap_overlay_delay_ms(), 10);
    assert_eq!(config.close_hover_bg(), "rgba(196,43,28,1)");
}

#[test]
fn frame_reads_its_config() {
    let frame = Frame::new(FramePluginBuilder::new().titlebar_height(30).auto_titlebar(true).build());
    assert_eq!(frame.titlebar_height(), 30);
    assert!(frame.auto_titlebar());
    assert_eq!(frame.config().button_width(), 46);
    let plain = Frame::new(init());
    assert_eq!(plain.titlebar_height(), 32);
    assert!(!plain.auto_titlebar());
}

#[test]
fn settings_apply_on_windows_only() {
    let builder = || FramePluginBuilder::new().titlebar_height(40).auto_titlebar(true).button_width(50);
    let on_windows = builder().build_for_platform(true);
    assert_eq!(on_windows.titlebar_height(), 40);
    assert!(on_windows.auto_titlebar());
    assert_eq!(on_windows.button_width(), 50);
    let elsewhere = builder().build_for_platform(false);
    assert_eq!(elsewhere.titlebar_height(), 32);
    assert!(!elsewhere.auto_titlebar());
    assert_eq!(elsewhere.button_width(), 46);
}
