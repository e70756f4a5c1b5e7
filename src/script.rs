//! The script that installs the overlay title bar in a page: two templates
//! with their literal placeholders replaced by the configuration.
use vstd::prelude::*;

use crate::config::{ConfigView, FrameConfig};
use crate::controls::{
    controls_for, lemma_rendered_list_chars, list_char, render_controls, spec_controls_for,
    spec_render_controls, Control, WindowCapabilities,
};
use crate::text::{
    decimal, free_of, interlock_free, lemma_replace_all_leaves_none,
    lemma_replace_first_leaves_none, occurs_at, push_decimal, replace_all, replace_all_text,
    replace_first, replace_first_text,
};

verus! {

/// The name of the event that is sent to a window after each page load.
pub const PAGE_LOAD_EVENT: &'static str = "frame-page-load";

/// The title-bar height as the templates are written: `"32px"`.
pub open spec fn height_placeholder() -> Seq<char> {
    "\"32px\""@
}

/// The button width as the templates are written: `"46px"`.
pub open spec fn width_placeholder() -> Seq<char> {
    "\"46px\""@
}

/// The close button's hover colour as the templates are written.
pub open spec fn close_hover_placeholder() -> Seq<char> {
    "rgba(196,43,28,1)"@
}

/// The other buttons' hover colour as the templates are written.
pub open spec fn button_hover_placeholder() -> Seq<char> {
    "rgba(0,0,0,0.2)"@
}

/// The list of buttons as the templates are written.
pub open spec fn controls_placeholder() -> Seq<char> {
    "[\"minimize\", \"maximize\", \"close\"]"@
}

/// A pixel size as the scripts write it, quotes included: `"40px"`.
pub open spec fn px(n: nat) -> Seq<char> {
    "\""@ + decimal(n) + "px\""@
}

/// The two script templates: the title bar, and its control buttons.
#[derive(Clone)]
pub struct ScriptTemplates {
    pub titlebar: String,
    pub controls: String,
}

/// The title-bar script with its height filled in.
pub open spec fn spec_titlebar_script(t: Seq<char>, height: u32) -> Seq<char> {
    replace_all(t, height_placeholder(), px(height as nat))
}

/// The controls script with height, width and colours filled in, and the
/// list of buttons where one is given.
pub open spec fn spec_controls_script(
    t: Seq<char>,
    c: ConfigView,
    height: u32,
    controls: Option<Seq<Control>>,
) -> Seq<char> {
    let a = replace_all(t, height_placeholder(), px(height as nat));
    let b = replace_all(a, width_placeholder(), px(c.button_width as nat));
    let d = replace_all(b, close_hover_placeholder(), c.close_hover_bg);
    let e = replace_all(d, button_hover_placeholder(), c.button_hover_bg);
    match controls {
        Some(list) => replace_first(e, controls_placeholder(), spec_render_controls(list)),
        None => e,
    }
}

/// Both scripts, joined by a newline.
pub open spec fn spec_build_scripts(
    tb: Seq<char>,
    ctl: Seq<char>,
    c: ConfigView,
    height: u32,
    controls: Option<Seq<Control>>,
) -> Seq<char> {
    spec_titlebar_script(tb, height) + "\n"@ + spec_controls_script(ctl, c, height, controls)
}

/// The list of buttons, where one is given, as a sequence.
pub open spec fn controls_view(controls: Option<Vec<Control>>) -> Option<Seq<Control>> {
    match controls {
        Some(v) => Some(v@),
        None => None,
    }
}

/// A pixel size as the scripts write it: `"40px"`.
pub fn px_text(n: u32) -> (r: String)
    ensures
        r@ == px(n as nat),
{
    let mut r = String::from_str("\"");
    push_decimal(&mut r, n as u64);
    r.append("px\"");
    r
}

/// The script to evaluate in a window: the templates with `height`, the
/// configured width and colours, and, where given, the list of buttons.
pub fn build_scripts(
    templates: &ScriptTemplates,
    config: &FrameConfig,
    height: u32,
    controls: Option<Vec<Control>>,
) -> (r: String)
    ensures
        r@ == spec_build_scripts(
            templates.titlebar@,
            templates.controls@,
            config@,
            height,
            controls_view(controls),
        ),
{
    proof {
        reveal_strlit("\"32px\"");
        reveal_strlit("\"46px\"");
        reveal_strlit("rgba(196,43,28,1)");
        reveal_strlit("rgba(0,0,0,0.2)");
        reveal_strlit("[\"minimize\", \"maximize\", \"close\"]");
    }
    let height_px = px_text(height);
    let width_px = px_text(config.button_width());
    let mut out = replace_all_text(templates.titlebar.as_str(), "\"32px\"", height_px.as_str());
    let a = replace_all_text(templates.controls.as_str(), "\"32px\"", height_px.as_str());
    let b = replace_all_text(a.as_str(), "\"46px\"", width_px.as_str());
    let d = replace_all_text(b.as_str(), "rgba(196,43,28,1)", config.close_hover_bg());
    let e = replace_all_text(d.as_str(), "rgba(0,0,0,0.2)", config.button_hover_bg());
    let script_controls = match controls {
        Some(list) => {
            let rendered = render_controls(&list);
            replace_first_text(e.as_str(), "[\"minimize\", \"maximize\", \"close\"]", rendered.as_str())
        },
        None => e,
    };
    out.append("\n");
    out.append(script_controls.as_str());
    out
}

/// The script that a page load installs in any window, where the
/// configuration asks for that: the configured height and the templates'
/// own list of buttons.
pub fn page_load_script(templates: &ScriptTemplates, config: &FrameConfig) -> (r: Option<String>)
    ensures
        r is None <==> !config@.auto_titlebar,
        r matches Some(s) ==> s@ == spec_build_scripts(
            templates.titlebar@,
            templates.controls@,
            config@,
            config@.titlebar_height,
            None,
        ),
{
    if config.auto_titlebar() {
        Some(build_scripts(templates, config, config.titlebar_height(), None))
    } else {
        None
    }
}

/// The script that a window with an overlay title bar evaluates after a
/// page load: the buttons follow from what the window reports now.
pub fn window_script(
    templates: &ScriptTemplates,
    config: &FrameConfig,
    height: u32,
    caps: &WindowCapabilities,
) -> (r: String)
    ensures
        r@ == spec_build_scripts(
            templates.titlebar@,
            templates.controls@,
            config@,
            height,
            Some(spec_controls_for(*caps)),
        ),
{
    let list = controls_for(caps);
    build_scripts(templates, config, height, Some(list))
}

/// A window that installs the title bar again, with the same
/// configuration and the same capabilities, gets the same script text.
pub proof fn lemma_window_script_repeatable(
    titlebar: Seq<char>,
    controls: Seq<char>,
    c1: ConfigView,
    c2: ConfigView,
    height: u32,
    caps1: WindowCapabilities,
    caps2: WindowCapabilities,
)
    requires
        c1 == c2,
        caps1 == caps2,
    ensures
        spec_build_scripts(titlebar, controls, c1, height, Some(spec_controls_for(caps1)))
            == spec_build_scripts(titlebar, controls, c2, height, Some(spec_controls_for(caps2))),
{
}

/// A rendered list of buttons cannot complete a text that starts with "r",
/// ends with ")" and holds no "[", as both hover-colour placeholders do.
proof fn lemma_list_cannot_complete(q: Seq<char>, l: Seq<Control>)
    requires
        q.len() > 0,
        q[0] == 'r',
        q[q.len() - 1] == ')',
        forall|i: int| 0 <= i < q.len() ==> q[i] != '[',
    ensures
        interlock_free(q, spec_render_controls(l)),
{
    lemma_rendered_list_chars(l);
    let t = spec_render_controls(l);
    assert forall|i: int| !#[trigger] occurs_at(t, q, i) by {
        if occurs_at(t, q, i) {
            assert(t.subrange(i, i + q.len())[0] == t[i]);
            assert(list_char(t[i]));
        }
    }
    assert forall|k: int| 0 < k < q.len() && k <= t.len() implies #[trigger] t.subrange(
        t.len() - k,
        t.len() as int,
    ) != q.subrange(0, k) by {
        if t.subrange(t.len() - k, t.len() as int) == q.subrange(0, k) {
            assert(t.subrange(t.len() - k, t.len() as int)[0] == q.subrange(0, k)[0]);
            assert(list_char(t[t.len() - k]));
        }
    }
    assert forall|k: int| 0 < k < q.len() && k <= t.len() implies #[trigger] t.subrange(0, k)
        != q.subrange(q.len() - k, q.len() as int) by {
        if t.subrange(0, k) == q.subrange(q.len() - k, q.len() as int) {
            assert(t.subrange(0, k)[k - 1] == q.subrange(q.len() - k, q.len() as int)[k - 1]);
            assert(list_char(t[k - 1]));
        }
    }
    assert forall|j: int| 0 <= j && j + t.len() <= q.len() implies #[trigger] q.subrange(j, j + t.len())
        != t by {
        if q.subrange(j, j + t.len()) == t {
            assert(q.subrange(j, j + t.len())[0] == q[j]);
        }
    }
}

/// Once the controls script is filled in, it holds neither hover-colour
/// placeholder, whatever the template, height, width and buttons, where
/// neither colour can complete a placeholder with the text around it
/// (plain colours such as "red" or "rgba(0,0,0,0.5)" cannot).
pub proof fn lemma_controls_script_has_no_colour_placeholder(
    t: Seq<char>,
    c: ConfigView,
    height: u32,
    controls: Option<Seq<Control>>,
)
    requires
        interlock_free(close_hover_placeholder(), c.close_hover_bg),
        interlock_free(close_hover_placeholder(), c.button_hover_bg),
        interlock_free(button_hover_placeholder(), c.button_hover_bg),
    ensures
        free_of(spec_controls_script(t, c, height, controls), close_hover_placeholder()),
        free_of(spec_controls_script(t, c, height, controls), button_hover_placeholder()),
{
    reveal_strlit("rgba(196,43,28,1)");
    reveal_strlit("rgba(0,0,0,0.2)");
    reveal_strlit("[\"minimize\", \"maximize\", \"close\"]");
    let cp = close_hover_placeholder();
    let bp = button_hover_placeholder();
    let a = replace_all(t, height_placeholder(), px(height as nat));
    let b = replace_all(a, width_placeholder(), px(c.button_width as nat));
    let d = replace_all(b, cp, c.close_hover_bg);
    let e = replace_all(d, bp, c.button_hover_bg);
    lemma_replace_all_leaves_none(b, cp, c.close_hover_bg, cp);
    lemma_replace_all_leaves_none(d, bp, c.button_hover_bg, cp);
    lemma_replace_all_leaves_none(d, bp, c.button_hover_bg, bp);
    if let Some(list) = controls {
        assert(cp =~= seq!['r', 'g', 'b', 'a', '(', '1', '9', '6', ',', '4', '3', ',', '2', '8', ',', '1', ')']);
        assert(bp =~= seq!['r', 'g', 'b', 'a', '(', '0', ',', '0', ',', '0', ',', '0', '.', '2', ')']);
        lemma_list_cannot_complete(cp, list);
        lemma_list_cannot_complete(bp, list);
        lemma_replace_first_leaves_none(e, controls_placeholder(), spec_render_controls(list), cp);
        lemma_replace_first_leaves_none(e, controls_placeholder(), spec_render_controls(list), bp);
    }
}

} // verus!
