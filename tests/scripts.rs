use tauri_plugin_frame::controls::{controls_for, ordered_controls, render_controls, Control, WindowCapabilities};
use tauri_plugin_frame::script::px_text;
use tauri_plugin_frame::text::{replace_all_text, replace_first_text};
use tauri_plugin_frame::{build_scripts, init, page_load_script, window_script, FramePluginBuilder, ScriptTemplates, PAGE_LOAD_EVENT};

const TITLEBAR: &str = "const height = \"32px\";\nbar.style.height = \"32px\";\n";
const CONTROLS: &str = "const h = \"32px\"; const w = \"46px\";\nclose.hover = 'rgba(196,43,28,1)';\nbutton.hover = 'rgba(0,0,0,0.2)';\nconst list = [\"minimize\", \"maximize\", \"close\"];\nconst all = [\"minimize\", \"maximize\", \"close\"];\n";

const PLACEHOLDERS: [&str; 4] = ["\"32px\"", "\"46px\"", "rgba(196,43,28,1)", "rgba(0,0,0,0.2)"];
const ARRAY: &str = "[\"minimize\", \"maximize\", \"close\"]";

fn templates() -> ScriptTemplates {
    ScriptTemplates { titlebar: TITLEBAR.to_string(), controls: CONTROLS.to_string() }
}

fn caps(minimizable: bool, maximizable: bool, resizable: bool, closable: bool) -> WindowCapabilities {
    WindowCapabilities { minimizable, maximizable, resizable, closable }
}

#[test]
fn template_defaults_leave_scripts_unchanged() {
    let config = init();
    let out = build_scripts(&templates(), &config, 32, None);
    assert_eq!(out, format!("{}\n{}", TITLEBAR, CONTROLS));
}

#[test]
fn custom_height_replaces_every_height_placeholder() {
    let config = init();
    let out = build_scripts(&templates(), &config, 40, None);
    let expected = format!(
        "{}\n{}",
        TITLEBAR.replace("\"32px\"", "\"40px\""),
        CONTROLS.replace("\"32px\"", "\"40px\"")
    );
    assert_eq!(out, expected);
    assert!(!out.contains("\"32px\""));
}

#[test]
fn controls_subset_replaces_first_array_only() {
    let config = init();
    let out = build_scripts(&templates(), &config, 32, Some(vec![Control::Minimize, Control::Close]));
    let controls = CONTROLS.replacen(ARRAY, "[\"minimize\", \"close\"]", 1);
    assert_eq!(out, format!("{}\n{}", TITLEBAR, controls));
    assert_eq!(out.matches(ARRAY).count(), 1);
    assert!(out.contains("const list = [\"minimize\", \"close\"];"));
    assert!(out.contains("const all = [\"minimize\", \"maximize\", \"close\"];"));
}

#[test]
fn capabilities_give_minimize_and_close() {
    let list = controls_for(&caps(true, true, false, true));
    assert_eq!(list, vec![Control::Minimize, Control::Close]);
    assert_eq!(render_controls(&list), "[\"minimize\", \"close\"]");
}

#[test]
fn maximize_needs_resizable() {
    assert!(!controls_for(&caps(false, true, false, false)).contains(&Control::Maximize));
    assert_eq!(controls_for(&caps(false, true, true, false)), vec![Control::Maximize]);
    assert_eq!(controls_for(&caps(false, false, true, false)), vec![]);
    assert_eq!(
        controls_for(&caps(true, true, true, true)),
        vec![Control::Minimize, Control::Maximize, Control::Close]
    );
}

#[test]
fn controls_come_in_title_bar_order() {
    let list = ordered_controls(&vec![Control::Close, Control::Maximize, Control::Minimize, Control::Close]);
    assert_eq!(list, vec![Control::Minimize, Control::Maximize, Control::Close]);
    let list = ordered_controls(&vec![Control::Close, Control::Minimize]);
    assert_eq!(list, vec![Control::Minimize, Control::Close]);
    assert_eq!(ordered_controls(&vec![]), vec![]);
}

#[test]
fn render_controls_matches_debug_form() {
    assert_eq!(render_controls(&vec![]), "[]");
    assert_eq!(render_controls(&vec![Control::Close]), "[\"close\"]");
    let all = vec![Control::Minimize, Control::Maximize, Control::Close];
    assert_eq!(render_controls(&all), ARRAY);
    assert_eq!(render_controls(&all), format!("{:?}", vec!["minimize", "maximize", "close"]));
}

#[test]
fn non_default_values_leave_no_placeholder() {
    let config = FramePluginBuilder::new()
        .button_width(50)
        .close_hover_bg("red")
        .button_hover_bg("blue")
        .build();
    let without = build_scripts(&templates(), &config, 28, None);
    for p in PLACEHOLDERS {
        assert!(!without.contains(p), "{}", p);
    }
    assert!(without.contains(ARRAY));
    let with = build_scripts(&templates(), &config, 28, Some(vec![Control::Close]));
    for p in PLACEHOLDERS {
        assert!(!with.contains(p), "{}", p);
    }
    assert_eq!(with.matches(ARRAY).count(), 1);
    assert!(with.contains("\"28px\""));
    assert!(with.contains("\"50px\""));
    assert!(with.contains("close.hover = 'red';"));
    assert!(with.contains("button.hover = 'blue';"));
}

#[test]
fn window_script_is_repeatable() {
    let config = FramePluginBuilder::new().titlebar_height(36).build();
    let c = caps(true, false, true, true);
    let first = window_script(&templates(), &config, 36, &c);
    let second = window_script(&templates(), &config, 36, &c);
    assert_eq!(first, second);
    assert_eq!(first, build_scripts(&templates(), &config, 36, Some(vec![Control::Minimize, Control::Close])));
}

#[test]
fn page_load_script_follows_auto_titlebar() {
    let off = init();
    assert_eq!(page_load_script(&templates(), &off), None);
    let on = FramePluginBuilder::new().auto_titlebar(true).titlebar_height(44).build();
    let script = page_load_script(&templates(), &on).unwrap();
    assert_eq!(script, build_scripts(&templates(), &on, 44, None));
    assert!(script.contains("\"44px\""));
    assert_eq!(PAGE_LOAD_EVENT, "frame-page-load");
}

#[test]
fn px_text_writes_decimal() {
    assert_eq!(px_text(0), "\"0px\"");
    assert_eq!(px_text(7), "\"7px\"");
    assert_eq!(px_text(46), "\"46px\"");
    assert_eq!(px_text(1000), "\"1000px\"");
    assert_eq!(px_text(u32::MAX), "\"4294967295px\"");
}

#[test]
fn replace_all_text_agrees_with_std() {
    let cases = [
        ("aaaa", "aa", "b"),
        ("\"32px\"32px\"", "\"32px\"", "\"40px\""),
        ("héllo wörld héllo", "héllo", "ciao"),
        ("", "x", "y"),
        ("abc", "abcd", "z"),
        ("xyz", "q", "r"),
    ];
    for (s, p, r) in cases {
        assert_eq!(replace_all_text(s, p, r), s.replace(p, r), "{} {} {}", s, p, r);
    }
}

#[test]
fn replace_first_text_agrees_with_std() {
    let cases = [("aaaa", "aa", "b"), ("one two one", "one", "1"), ("ünï ünï", "ünï", "u"), ("abc", "d", "e"), ("", "a", "b")];
    for (s, p, r) in cases {
        assert_eq!(replace_first_text(s, p, r), s.replacen(p, r, 1), "{} {} {}", s, p, r);
    }
}
