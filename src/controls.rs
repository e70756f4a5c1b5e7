//! The window-control buttons that the overlay title bar shows.
use vstd::prelude::*;

verus! {

/// One of the three window-control buttons.
#[derive(Clone, Copy, Debug, PartialEq, Eq, Structural)]
pub enum Control {
    Minimize,
    Maximize,
    Close,
}

/// Position of a button in the title bar, left to right.
pub open spec fn rank(c: Control) -> int {
    match c {
        Control::Minimize => 0,
        Control::Maximize => 1,
        Control::Close => 2,
    }
}

/// The name under which the injected script knows a button.
pub open spec fn control_name(c: Control) -> Seq<char> {
    match c {
        Control::Minimize => "minimize"@,
        Control::Maximize => "maximize"@,
        Control::Close => "close"@,
    }
}

/// The buttons that are present, in title-bar order.
pub open spec fn canonical_controls(minimize: bool, maximize: bool, close: bool) -> Seq<Control> {
    (if minimize { seq![Control::Minimize] } else { Seq::empty() })
        + (if maximize { seq![Control::Maximize] } else { Seq::empty() })
        + (if close { seq![Control::Close] } else { Seq::empty() })
}

/// What a window reports about itself.
#[derive(Clone, Copy, Debug, PartialEq, Eq, Structural)]
pub struct WindowCapabilities {
    pub minimizable: bool,
    pub maximizable: bool,
    pub resizable: bool,
    pub closable: bool,
}

/// The buttons that apply to a window: maximize only where the window can
/// both be maximized and be resized.
pub open spec fn spec_controls_for(caps: WindowCapabilities) -> Seq<Control> {
    canonical_controls(caps.minimizable, caps.maximizable && caps.resizable, caps.closable)
}

/// A list with "[", the quoted names separated by ", ", and "]".
pub open spec fn spec_render_controls(s: Seq<Control>) -> Seq<char> {
    "["@ + render_items(s) + "]"@
}

/// A button's name in double quotes.
pub open spec fn quoted(c: Control) -> Seq<char> {
    "\""@ + control_name(c) + "\""@
}

/// The quoted names, separated by ", ".
pub open spec fn render_items(s: Seq<Control>) -> Seq<char>
    decreases s.len(),
{
    if s.len() == 0 {
        Seq::empty()
    } else if s.len() == 1 {
        quoted(s[0])
    } else {
        quoted(s[0]) + ", "@ + render_items(s.drop_first())
    }
}

impl Control {
    /// The button's name in the injected script.
    pub fn name(&self) -> (r: &'static str)
        ensures
            r@ == control_name(*self),
    {
        match self {
            Control::Minimize => "minimize",
            Control::Maximize => "maximize",
            Control::Close => "close",
        }
    }
}

/// The buttons that a window with these capabilities shows, in title-bar order.
pub fn controls_for(caps: &WindowCapabilities) -> (r: Vec<Control>)
    ensures
        r@ == spec_controls_for(*caps),
{
    let mut r: Vec<Control> = Vec::new();
    if caps.minimizable {
        r.push(Control::Minimize);
    }
    if caps.maximizable && caps.resizable {
        r.push(Control::Maximize);
    }
    if caps.closable {
        r.push(Control::Close);
    }
    proof {
        assert(r@ =~= spec_controls_for(*caps));
    }
    r
}

/// The buttons of `list` in title-bar order, each once, whatever order
/// `list` gives them in.
pub fn ordered_controls(list: &Vec<Control>) -> (r: Vec<Control>)
    ensures
        r@ == canonical_controls(
            list@.contains(Control::Minimize),
            list@.contains(Control::Maximize),
            list@.contains(Control::Close),
        ),
{
    let mut minimize = false;
    let mut maximize = false;
    let mut close = false;
    let mut i: usize = 0;
    while i < list.len()
        invariant
            i <= list@.len(),
            minimize == list@.subrange(0, i as int).contains(Control::Minimize),
            maximize == list@.subrange(0, i as int).contains(Control::Maximize),
            close == list@.subrange(0, i as int).contains(Control::Close),
        decreases list@.len() - i,
    {
        let c = list[i];
        proof {
            assert(list@.subrange(0, i + 1) =~= list@.subrange(0, i as int).push(c));
            vstd::seq_lib::lemma_seq_contains_after_push(list@.subrange(0, i as int), c, Control::Minimize);
            vstd::seq_lib::lemma_seq_contains_after_push(list@.subrange(0, i as int), c, Control::Maximize);
            vstd::seq_lib::lemma_seq_contains_after_push(list@.subrange(0, i as int), c, Control::Close);
        }
        match c {
            Control::Minimize => minimize = true,
            Control::Maximize => maximize = true,
            Control::Close => close = true,
        }
        i = i + 1;
    }
    proof {
        assert(list@.subrange(0, i as int) =~= list@);
    }
    let mut r: Vec<Control> = Vec::new();
    if minimize {
        r.push(Control::Minimize);
    }
    if maximize {
        r.push(Control::Maximize);
    }
    if close {
        r.push(Control::Close);
    }
    proof {
        assert(r@ =~= canonical_controls(minimize, maximize, close));
    }
    r
}

/// The list as the injected script writes it: `["minimize", "close"]`.
pub fn render_controls(list: &Vec<Control>) -> (r: String)
    ensures
        r@ == spec_render_controls(list@),
{
    let mut r = String::from_str("[");
    let mut i: usize = 0;
    while i < list.len()
        invariant
            i <= list@.len(),
            r@ == "["@ + render_prefix(list@, i as int),
        decreases list@.len() - i,
    {
        if i > 0 {
            r.append(", ");
        }
        r.append("\"");
        r.append(list[i].name());
        r.append("\"");
        proof {
            lemma_render_prefix_step(list@, i as int);
        }
        i = i + 1;
    }
    r.append("]");
    proof {
        lemma_render_prefix_full(list@);
    }
    r
}

/// The first `n` items as the list writes them.
spec fn render_prefix(s: Seq<Control>, n: int) -> Seq<char>
    decreases n,
{
    if n <= 0 {
        Seq::empty()
    } else if n == 1 {
        quoted(s[0])
    } else {
        render_prefix(s, n - 1) + ", "@ + quoted(s[n - 1])
    }
}

proof fn lemma_render_prefix_step(s: Seq<Control>, i: int)
    requires
        0 <= i < s.len(),
    ensures
        render_prefix(s, i + 1) == render_prefix(s, i) + (if i > 0 { ", "@ } else { Seq::empty() })
            + "\""@ + control_name(s[i]) + "\""@,
{
    if i == 0 {
        assert(render_prefix(s, 1) =~= Seq::<char>::empty() + "\""@ + control_name(s[0]) + "\""@);
    } else {
        assert(render_prefix(s, i + 1) =~= render_prefix(s, i) + ", "@ + "\""@ + control_name(s[i]) + "\""@);
    }
}

proof fn lemma_render_prefix_full(s: Seq<Control>)
    ensures
        render_prefix(s, s.len() as int) == render_items(s),
    decreases s.len(),
{
    if s.len() >= 2 {
        let t = s.drop_first();
        lemma_render_prefix_full(t);
        lemma_render_prefix_shift(s, s.len() as int);
    }
}

proof fn lemma_render_prefix_shift(s: Seq<Control>, n: int)
    requires
        2 <= n <= s.len(),
    ensures
        render_prefix(s, n) == quoted(s[0]) + ", "@ + render_prefix(s.drop_first(), n - 1),
    decreases n,
{
    if n > 2 {
        lemma_render_prefix_shift(s, n - 1);
        assert(render_prefix(s, n) =~= quoted(s[0]) + ", "@ + render_prefix(s.drop_first(), n - 1));
    } else {
        assert(render_prefix(s.drop_first(), 1) == quoted(s[1]));
        assert(render_prefix(s, 1) == quoted(s[0]));
        assert(render_prefix(s, 2) =~= quoted(s[0]) + ", "@ + render_prefix(s.drop_first(), 1));
    }
}

/// The buttons always come in title-bar order, minimize before maximize
/// before close, each at most once, whatever order the input list has;
/// and a button is shown exactly when the list names it.
pub proof fn lemma_controls_in_title_bar_order(list: Seq<Control>)
    ensures
        ({
            let r = canonical_controls(
                list.contains(Control::Minimize),
                list.contains(Control::Maximize),
                list.contains(Control::Close),
            );
            &&& forall|i: int, j: int| 0 <= i < j < r.len() ==> rank(r[i]) < rank(r[j])
            &&& forall|c: Control| r.contains(c) <==> list.contains(c)
        }),
{
    let a = list.contains(Control::Minimize);
    let b = list.contains(Control::Maximize);
    let c = list.contains(Control::Close);
    lemma_canonical_ordered(a, b, c);
    let r = canonical_controls(a, b, c);
    assert forall|x: Control| r.contains(x) <==> list.contains(x) by {
        if list.contains(x) {
            match x {
                Control::Minimize => assert(r[0] == x),
                Control::Maximize => assert(r[if a { 1int } else { 0int }] == x),
                Control::Close => assert(r[r.len() - 1] == x),
            }
        }
    }
}

/// The buttons that are present come in title-bar order, and a button is
/// there exactly when its flag is set.
pub proof fn lemma_canonical_ordered(minimize: bool, maximize: bool, close: bool)
    ensures
        ({
            let r = canonical_controls(minimize, maximize, close);
            &&& forall|i: int, j: int| 0 <= i < j < r.len() ==> rank(r[i]) < rank(r[j])
            &&& forall|x: Control| r.contains(x) <==> match x {
                Control::Minimize => minimize,
                Control::Maximize => maximize,
                Control::Close => close,
            }
        }),
{
    let r = canonical_controls(minimize, maximize, close);
    assert forall|i: int, j: int| 0 <= i < j < r.len() implies rank(r[i]) < rank(r[j]) by {
        assert(rank(r[i]) == i || (rank(r[i]) > i));
    }
    assert forall|x: Control| r.contains(x) <==> match x {
        Control::Minimize => minimize,
        Control::Maximize => maximize,
        Control::Close => close,
    } by {
        let want = match x {
            Control::Minimize => minimize,
            Control::Maximize => maximize,
            Control::Close => close,
        };
        if want {
            match x {
                Control::Minimize => assert(r[0] == x),
                Control::Maximize => assert(r[if minimize { 1int } else { 0int }] == x),
                Control::Close => assert(r[r.len() - 1] == x),
            }
        }
    }
}

/// A window that can be maximized but not resized shows no maximize button.
pub proof fn lemma_maximize_needs_resizable(caps: WindowCapabilities)
    requires
        caps.maximizable,
        !caps.resizable,
    ensures
        !spec_controls_for(caps).contains(Control::Maximize),
{
    lemma_canonical_ordered(caps.minimizable, false, caps.closable);
}

/// The characters that a rendered list is made of.
pub open spec fn list_char(c: char) -> bool {
    c == '[' || c == ']' || c == '"' || c == ',' || c == ' ' || c == 'm' || c == 'i' || c == 'n'
        || c == 'z' || c == 'e' || c == 'a' || c == 'x' || c == 'c' || c == 'l' || c == 'o'
        || c == 's'
}

proof fn lemma_name_chars(c: Control)
    ensures
        forall|i: int| 0 <= i < control_name(c).len() ==> list_char(#[trigger] control_name(c)[i]),
{
    reveal_strlit("minimize");
    reveal_strlit("maximize");
    reveal_strlit("close");
}

proof fn lemma_concat_chars(a: Seq<char>, b: Seq<char>)
    requires
        forall|i: int| 0 <= i < a.len() ==> list_char(#[trigger] a[i]),
        forall|i: int| 0 <= i < b.len() ==> list_char(#[trigger] b[i]),
    ensures
        forall|i: int| 0 <= i < (a + b).len() ==> list_char(#[trigger] (a + b)[i]),
{
    assert forall|i: int| 0 <= i < (a + b).len() implies list_char(#[trigger] (a + b)[i]) by {
        if i < a.len() {
            assert((a + b)[i] == a[i]);
        } else {
            assert((a + b)[i] == b[i - a.len()]);
        }
    }
}

proof fn lemma_items_chars(s: Seq<Control>)
    ensures
        forall|i: int| 0 <= i < render_items(s).len() ==> list_char(#[trigger] render_items(s)[i]),
    decreases s.len(),
{
    reveal_strlit("\"");
    reveal_strlit(", ");
    if s.len() > 0 {
        lemma_name_chars(s[0]);
        lemma_concat_chars("\""@, control_name(s[0]));
        lemma_concat_chars("\""@ + control_name(s[0]), "\""@);
        if s.len() > 1 {
            lemma_items_chars(s.drop_first());
            lemma_concat_chars(quoted(s[0]), ", "@);
            lemma_concat_chars(quoted(s[0]) + ", "@, render_items(s.drop_first()));
        }
    }
}

/// A rendered list is made of brackets, quotes, commas, spaces and the
/// letters of the button names; it starts with "[" and ends with "]".
pub proof fn lemma_rendered_list_chars(s: Seq<Control>)
    ensures
        ({
            let t = spec_render_controls(s);
            &&& t.len() >= 2
            &&& t[0] == '['
            &&& t[t.len() - 1] == ']'
            &&& forall|i: int| 0 <= i < t.len() ==> list_char(#[trigger] t[i])
        }),
{
    reveal_strlit("[");
    reveal_strlit("]");
    lemma_items_chars(s);
    lemma_concat_chars("["@, render_items(s));
    lemma_concat_chars("["@ + render_items(s), "]"@);
    let t = spec_render_controls(s);
    assert(t[0] == ("["@ + render_items(s))[0]);
}

} // verus!
