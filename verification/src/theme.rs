//! Theme integration: turns Core's theme colours and font families into the
//! GTK stylesheet the shell loads.

use vstd::prelude::*;
use vstd::string::*;

verus! {

/// The colour roles of a theme, as CSS colour values.
#[derive(Debug)]
pub struct ThemeColors {
    pub bg_primary: String,
    pub bg_secondary: String,
    pub bg_tertiary: String,
    pub text_primary: String,
    pub text_secondary: String,
    pub accent: String,
    pub accent_dark: String,
    pub success: String,
    pub error: String,
    pub warning: String,
    pub border: String,
    /// The dedicated keyboard-focus colour; themes from before that role
    /// have none, and the ring falls back to `accent`.
    pub focus_ring: Option<String>,
}

/// The brand type families: body copy, display headings, monospace.
#[derive(Debug)]
pub struct FontFamilies {
    pub body: String,
    pub display: String,
    pub mono: String,
}

pub const CSS_HEADER: &'static str = "\n/* Vauchi core theme — auto-generated from vauchi-app::theme */\n";

/// The rules that take their colours from the defined roles: the window,
/// the action tones, the focus ring, labels, cards, entries and avatars.
pub const CSS_RULES: &'static str = "
window {
    background-color: @vauchi_bg_primary;
    color: @vauchi_text_primary;
}

.suggested-action {
    background-color: @vauchi_accent;
    color: @vauchi_bg_primary;
}

.destructive-action {
    background-color: @vauchi_error;
    color: @vauchi_bg_primary;
}

/* `ActionTone::Serious` (verify a fingerprint, schedule a deletion, start
   recovery) is consequential but reversible or protective: an outline, not
   a fill, so it reads as neither the safe default nor \"this destroys
   something\". */
.serious-action {
    background-color: transparent;
    color: @vauchi_warning;
    border: 2px solid @vauchi_warning;
}

/* GTK's own `:focus-visible` pseudo-class carries keyboard focus; nothing
   here answered it before, so a keyboard user had no way to see which
   control had focus. `checkbutton` covers Toggle nodes; `.vauchi-row`
   covers the row containers built in `generic_surface/collections.rs`,
   which are plain boxes with no built-in focus styling of their own. */
button:focus-visible,
checkbutton:focus-visible,
.vauchi-row:focus-visible {
    outline: 3px solid @vauchi_focus_ring;
    outline-offset: 2px;
}

.dim-label {
    color: @vauchi_text_secondary;
}

.error {
    color: @vauchi_error;
}

.card {
    border-color: @vauchi_border;
    background-color: @vauchi_bg_secondary;
}

entry {
    border-color: @vauchi_border;
}

/* Initials stand in for a missing avatar. Without a ground to sit on they
   read as a stray letter rather than as a person, so the class carries the
   whole shape: a fixed square, a fill and a radius. `AdwAvatar` styling
   does not reach a plain Label, which is why this cannot be borrowed. */
.avatar {
    min-width: 96px;
    min-height: 96px;
    border-radius: 48px;
    background-color: @vauchi_bg_tertiary;
    color: @vauchi_text_primary;
    font-size: 1.6em;
    font-weight: bold;
}

/* A row's avatar is the same idea at list scale. */
row .avatar,
list .avatar {
    min-width: 32px;
    min-height: 32px;
    border-radius: 16px;
    font-size: 1em;
}

/* Core asks for a natural-shaped image to keep its corners. */
.avatar.natural {
    border-radius: 8px;
}
";

/// The brand type families follow the colour rules: the window carries the
/// body family for everything that inherits from it.
pub const CSS_WINDOW_FONT_OPEN: &'static str = "\nwindow {\n    font-family: \"";

pub const CSS_BODY_CLOSE: &'static str = "\", sans-serif;\n}\n";

pub const CSS_TITLE_OPEN: &'static str = "\n.title-2 {\n    font-family: \"";

pub const CSS_TITLE_CLOSE: &'static str = "\", sans-serif;\n    font-weight: 700;\n}\n";

pub const CSS_MONO_OPEN: &'static str = "\n.monospace {\n    font-family: \"";

pub const CSS_MONO_CLOSE: &'static str = "\", monospace;\n}\n";

/// One `@define-color` line.
pub open spec fn define_color(role: Seq<char>, value: Seq<char>) -> Seq<char> {
    "@define-color vauchi_"@ + role + " "@ + value + ";\n"@
}

/// The colour the focus ring uses: the dedicated role, else the accent.
pub open spec fn focus_ring_color(c: ThemeColors) -> Seq<char> {
    match c.focus_ring {
        Some(f) => f@,
        None => c.accent@,
    }
}

/// The colour definitions, one per role, in a fixed order.
pub open spec fn color_definitions(c: ThemeColors) -> Seq<char> {
    define_color("bg_primary"@, c.bg_primary@) + define_color("bg_secondary"@, c.bg_secondary@)
        + define_color("bg_tertiary"@, c.bg_tertiary@) + define_color(
        "text_primary"@,
        c.text_primary@,
    ) + define_color("text_secondary"@, c.text_secondary@) + define_color("accent"@, c.accent@)
        + define_color("accent_dark"@, c.accent_dark@) + define_color("success"@, c.success@)
        + define_color("error"@, c.error@) + define_color("warning"@, c.warning@) + define_color(
        "border"@,
        c.border@,
    ) + define_color("focus_ring"@, focus_ring_color(c))
}

/// The whole stylesheet: the colour definitions, the rules drawn in those
/// colours, then the window rule with the body family, the heading rule with
/// the display family and weight, and the monospace rule with the mono
/// family.
pub open spec fn theme_css(c: ThemeColors, f: FontFamilies) -> Seq<char> {
    CSS_HEADER@ + color_definitions(c) + CSS_RULES@ + CSS_WINDOW_FONT_OPEN@ + f.body@
        + CSS_BODY_CLOSE@ + CSS_TITLE_OPEN@ + f.display@ + CSS_TITLE_CLOSE@ + CSS_MONO_OPEN@
        + f.mono@ + CSS_MONO_CLOSE@
}

fn push_define_color(css: &mut String, role: &str, value: &str)
    ensures
        final(css)@ == old(css)@ + define_color(role@, value@),
{
    let ghost start = css@;
    css.append("@define-color vauchi_");
    css.append(role);
    css.append(" ");
    css.append(value);
    css.append(";\n");
    assert(css@ =~= start + define_color(role@, value@));
}

/// The GTK stylesheet for a theme's colours and font families.
pub fn generate_css(colors: &ThemeColors, fonts: &FontFamilies) -> (css: String)
    ensures
        css@ == theme_css(*colors, *fonts),
{
    let mut css = String::from_str(CSS_HEADER);
    let ghost start = css@;
    push_define_color(&mut css, "bg_primary", colors.bg_primary.as_str());
    push_define_color(&mut css, "bg_secondary", colors.bg_secondary.as_str());
    push_define_color(&mut css, "bg_tertiary", colors.bg_tertiary.as_str());
    push_define_color(&mut css, "text_primary", colors.text_primary.as_str());
    push_define_color(&mut css, "text_secondary", colors.text_secondary.as_str());
    push_define_color(&mut css, "accent", colors.accent.as_str());
    push_define_color(&mut css, "accent_dark", colors.accent_dark.as_str());
    push_define_color(&mut css, "success", colors.success.as_str());
    push_define_color(&mut css, "error", colors.error.as_str());
    push_define_color(&mut css, "warning", colors.warning.as_str());
    push_define_color(&mut css, "border", colors.border.as_str());
    let focus_ring = match &colors.focus_ring {
        Some(f) => f.as_str(),
        None => colors.accent.as_str(),
    };
    push_define_color(&mut css, "focus_ring", focus_ring);
    assert(css@ =~= start + color_definitions(*colors));
    css.append(CSS_RULES);
    css.append(CSS_WINDOW_FONT_OPEN);
    css.append(fonts.body.as_str());
    css.append(CSS_BODY_CLOSE);
    css.append(CSS_TITLE_OPEN);
    css.append(fonts.display.as_str());
    css.append(CSS_TITLE_CLOSE);
    css.append(CSS_MONO_OPEN);
    css.append(fonts.mono.as_str());
    css.append(CSS_MONO_CLOSE);
    assert(css@ =~= theme_css(*colors, *fonts));
    css
}

/// Whether `x` occurs in `s` as a contiguous run.
pub open spec fn contains(s: Seq<char>, x: Seq<char>) -> bool {
    exists|i: int| 0 <= i && i + x.len() <= s.len() && #[trigger] s.subrange(i, i + x.len()) == x
}

/// The colour roles, in the order the stylesheet defines them.
pub open spec fn role_names() -> Seq<Seq<char>> {
    seq![
        "bg_primary"@,
        "bg_secondary"@,
        "bg_tertiary"@,
        "text_primary"@,
        "text_secondary"@,
        "accent"@,
        "accent_dark"@,
        "success"@,
        "error"@,
        "warning"@,
        "border"@,
        "focus_ring"@,
    ]
}

/// The value each role is defined with, in the same order: the focus ring
/// takes the dedicated role, else the accent.
pub open spec fn role_values(c: ThemeColors) -> Seq<Seq<char>> {
    seq![
        c.bg_primary@,
        c.bg_secondary@,
        c.bg_tertiary@,
        c.text_primary@,
        c.text_secondary@,
        c.accent@,
        c.accent_dark@,
        c.success@,
        c.error@,
        c.warning@,
        c.border@,
        focus_ring_color(c),
    ]
}

/// The definitions of the first `n` roles, in order.
pub open spec fn definitions_upto(c: ThemeColors, n: nat) -> Seq<char>
    decreases n,
{
    if n == 0 {
        seq![]
    } else {
        definitions_upto(c, (n - 1) as nat) + define_color(
            role_names()[n - 1],
            role_values(c)[n - 1],
        )
    }
}

proof fn lemma_color_definitions_in_order(c: ThemeColors)
    ensures
        color_definitions(c) == definitions_upto(c, 12),
{
    reveal_with_fuel(definitions_upto, 13);
}

proof fn lemma_contains_left(a: Seq<char>, b: Seq<char>, x: Seq<char>)
    requires
        contains(a, x),
    ensures
        contains(a + b, x),
{
    let i = choose|i: int| 0 <= i && i + x.len() <= a.len() && #[trigger] a.subrange(i, i + x.len()) == x;
    assert((a + b).subrange(i, i + x.len()) =~= a.subrange(i, i + x.len()));
}

proof fn lemma_contains_right(a: Seq<char>, b: Seq<char>, x: Seq<char>)
    requires
        contains(b, x),
    ensures
        contains(a + b, x),
{
    let i = choose|i: int| 0 <= i && i + x.len() <= b.len() && #[trigger] b.subrange(i, i + x.len()) == x;
    assert((a + b).subrange(a.len() + i, a.len() + i + x.len()) =~= b.subrange(i, i + x.len()));
}

proof fn lemma_definitions_contain(c: ThemeColors, n: nat, k: int)
    requires
        0 <= k < n <= 12,
    ensures
        contains(definitions_upto(c, n), define_color(role_names()[k], role_values(c)[k])),
    decreases n,
{
    let x = define_color(role_names()[k], role_values(c)[k]);
    let before = definitions_upto(c, (n - 1) as nat);
    let last = define_color(role_names()[n - 1], role_values(c)[n - 1]);
    if k == n - 1 {
        let i: int = 0;
        assert(x.subrange(i, i + x.len()) =~= x);
        lemma_contains_right(before, last, x);
    } else {
        lemma_definitions_contain(c, (n - 1) as nat, k);
        lemma_contains_left(before, last, x);
    }
}

/// What follows the colour definitions in the stylesheet.
pub open spec fn css_after_colors(f: FontFamilies) -> Seq<char> {
    CSS_RULES@ + CSS_WINDOW_FONT_OPEN@ + f.body@ + CSS_BODY_CLOSE@ + CSS_TITLE_OPEN@ + f.display@
        + CSS_TITLE_CLOSE@ + CSS_MONO_OPEN@ + f.mono@ + CSS_MONO_CLOSE@
}

proof fn lemma_css_frame(c: ThemeColors, f: FontFamilies)
    ensures
        theme_css(c, f) == CSS_HEADER@ + (color_definitions(c) + css_after_colors(f)),
        theme_css(c, f) == CSS_HEADER@ + color_definitions(c) + css_after_colors(f),
{
    assert(theme_css(c, f) =~= CSS_HEADER@ + (color_definitions(c) + css_after_colors(f)));
    assert(theme_css(c, f) =~= CSS_HEADER@ + color_definitions(c) + css_after_colors(f));
}

/// The stylesheet defines every colour role of the theme, each with its
/// own value, and the focus ring with the dedicated role or, failing that,
/// the accent.
pub proof fn law_stylesheet_defines_every_role(c: ThemeColors, f: FontFamilies)
    ensures
        forall|k: int|
            0 <= k < 12 ==> contains(
                theme_css(c, f),
                #[trigger] define_color(role_names()[k], role_values(c)[k]),
            ),
{
    lemma_color_definitions_in_order(c);
    lemma_css_frame(c, f);
    let rest = css_after_colors(f);
    assert forall|k: int| 0 <= k < 12 implies contains(
        theme_css(c, f),
        #[trigger] define_color(role_names()[k], role_values(c)[k]),
    ) by {
        let x = define_color(role_names()[k], role_values(c)[k]);
        lemma_definitions_contain(c, 12, k);
        lemma_contains_left(color_definitions(c), rest, x);
        lemma_contains_right(CSS_HEADER@, color_definitions(c) + rest, x);
    }
}

/// Whether a colour value holds no `;`, the character that ends its
/// definition.
pub open spec fn no_semicolon(v: Seq<char>) -> bool {
    forall|i: int| 0 <= i < v.len() ==> v[i] != ';'
}

proof fn lemma_split_at_last_semicolon(p: Seq<char>, x: Seq<char>, q: Seq<char>, y: Seq<char>)
    requires
        no_semicolon(x),
        no_semicolon(y),
        p + seq![';'] + x == q + seq![';'] + y,
    ensures
        x == y,
        p == q,
{
    let l = p + seq![';'] + x;
    let m = q + seq![';'] + y;
    let n = l.len() as int;
    if x.len() < y.len() {
        assert(l[n - x.len() - 1] == ';');
        assert(m[n - x.len() - 1] == y[y.len() - x.len() - 1]);
    } else if y.len() < x.len() {
        assert(m[n - y.len() - 1] == ';');
        assert(l[n - y.len() - 1] == x[x.len() - y.len() - 1]);
    }
    assert(x =~= l.subrange(n - x.len(), n));
    assert(y =~= m.subrange(n - y.len(), n));
    assert(p =~= l.subrange(0, n - x.len() - 1));
    assert(q =~= m.subrange(0, n - y.len() - 1));
}

/// The characters that close a definition.
pub open spec fn definition_end() -> Seq<char> {
    seq![';', '\n']
}

/// Whether `d` is empty or ends as a definition does.
pub open spec fn ends_a_definition(d: Seq<char>) -> bool {
    d.len() == 0 || (d.len() >= 2 && d.subrange(d.len() - 2, d.len() as int) == definition_end())
}

proof fn lemma_define_color_shape(role: Seq<char>, value: Seq<char>)
    ensures
        define_color(role, value) == ("@define-color vauchi_"@ + role + " "@ + value) + definition_end(),
        no_semicolon("@define-color vauchi_"@),
        no_semicolon(" "@),
{
    reveal_strlit(";\n");
    reveal_strlit("@define-color vauchi_");
    reveal_strlit(" ");
    assert(";\n"@ =~= definition_end());
}

proof fn lemma_role_names_have_no_semicolon(k: int)
    requires
        0 <= k < 12,
    ensures
        no_semicolon(role_names()[k]),
{
    reveal_strlit("bg_primary");
    reveal_strlit("bg_secondary");
    reveal_strlit("bg_tertiary");
    reveal_strlit("text_primary");
    reveal_strlit("text_secondary");
    reveal_strlit("accent");
    reveal_strlit("accent_dark");
    reveal_strlit("success");
    reveal_strlit("error");
    reveal_strlit("warning");
    reveal_strlit("border");
    reveal_strlit("focus_ring");
}

proof fn lemma_no_semicolon_concat(a: Seq<char>, b: Seq<char>)
    requires
        no_semicolon(a),
        no_semicolon(b),
    ensures
        no_semicolon(a + b),
{
    assert forall|i: int| 0 <= i < (a + b).len() implies (a + b)[i] != ';' by {
        if i < a.len() {
            assert((a + b)[i] == a[i]);
        } else {
            assert((a + b)[i] == b[i - a.len()]);
        }
    }
}

proof fn lemma_definitions_end(c: ThemeColors, n: nat)
    requires
        n <= 12,
    ensures
        ends_a_definition(definitions_upto(c, n)),
        n == 0 <==> definitions_upto(c, n).len() == 0,
{
    if n > 0 {
        let role = role_names()[n - 1];
        let value = role_values(c)[n - 1];
        lemma_define_color_shape(role, value);
        let body = "@define-color vauchi_"@ + role + " "@ + value;
        let d = definitions_upto(c, n);
        assert(d =~= (definitions_upto(c, (n - 1) as nat) + body) + definition_end());
        assert(d.subrange(d.len() - 2, d.len() as int) =~= definition_end());
    }
}

/// Two definition runs that end in the same role, end as definitions do
/// (or are empty together) and are equal hold equal values for that role
/// and equal runs before it.
proof fn lemma_last_definition_read_back(
    d1: Seq<char>,
    d2: Seq<char>,
    a: Seq<char>,
    v1: Seq<char>,
    v2: Seq<char>,
)
    requires
        ends_a_definition(d1),
        ends_a_definition(d2),
        d1.len() == 0 <==> d2.len() == 0,
        no_semicolon(a),
        no_semicolon(v1),
        no_semicolon(v2),
        d1 + (a + v1) + definition_end() == d2 + (a + v2) + definition_end(),
    ensures
        v1 == v2,
        d1 == d2,
{
    let l = d1 + (a + v1);
    let m = d2 + (a + v2);
    let whole = l + definition_end();
    assert(whole == m + definition_end());
    assert(whole.len() == l.len() + 2);
    assert((m + definition_end()).len() == m.len() + 2);
    assert(l =~= whole.subrange(0, l.len() as int));
    assert(m =~= (m + definition_end()).subrange(0, m.len() as int));
    assert(l == m);
    lemma_no_semicolon_concat(a, v1);
    lemma_no_semicolon_concat(a, v2);
    if d1.len() == 0 {
        assert(l =~= a + v1);
        assert(m =~= a + v2);
        assert(v1 =~= l.subrange(a.len() as int, l.len() as int));
        assert(v2 =~= m.subrange(a.len() as int, m.len() as int));
    } else {
        let e1 = d1.subrange(0, d1.len() - 2);
        let e2 = d2.subrange(0, d2.len() - 2);
        let x1 = seq!['\n'] + (a + v1);
        let x2 = seq!['\n'] + (a + v2);
        assert(d1 =~= e1 + definition_end());
        assert(d2 =~= e2 + definition_end());
        assert(l =~= e1 + seq![';'] + x1);
        assert(m =~= e2 + seq![';'] + x2);
        assert(no_semicolon(seq!['\n']));
        lemma_no_semicolon_concat(seq!['\n'], a + v1);
        lemma_no_semicolon_concat(seq!['\n'], a + v2);
        lemma_split_at_last_semicolon(e1, x1, e2, x2);
        let n = a.len() as int + 1;
        assert(v1 =~= x1.subrange(n, x1.len() as int));
        assert(v2 =~= x2.subrange(n, x2.len() as int));
    }
}

proof fn lemma_definitions_read_back(c1: ThemeColors, c2: ThemeColors, n: nat)
    requires
        n <= 12,
        forall|i: int| 0 <= i < 12 ==> no_semicolon(#[trigger] role_values(c1)[i]),
        forall|i: int| 0 <= i < 12 ==> no_semicolon(#[trigger] role_values(c2)[i]),
        definitions_upto(c1, n) == definitions_upto(c2, n),
    ensures
        forall|k: int| 0 <= k < n ==> #[trigger] role_values(c1)[k] == role_values(c2)[k],
    decreases n,
{
    if n > 0 {
        let k = n - 1;
        let role = role_names()[k];
        let v1 = role_values(c1)[k];
        let v2 = role_values(c2)[k];
        let d1 = definitions_upto(c1, (n - 1) as nat);
        let d2 = definitions_upto(c2, (n - 1) as nat);
        let a = "@define-color vauchi_"@ + role + " "@;
        lemma_define_color_shape(role, v1);
        lemma_define_color_shape(role, v2);
        lemma_role_names_have_no_semicolon(k);
        lemma_no_semicolon_concat("@define-color vauchi_"@, role);
        lemma_no_semicolon_concat("@define-color vauchi_"@ + role, " "@);
        lemma_definitions_end(c1, (n - 1) as nat);
        lemma_definitions_end(c2, (n - 1) as nat);
        assert(definitions_upto(c1, n) =~= d1 + (a + v1) + definition_end());
        assert(definitions_upto(c2, n) =~= d2 + (a + v2) + definition_end());
        lemma_last_definition_read_back(d1, d2, a, v1, v2);
        lemma_definitions_read_back(c1, c2, (n - 1) as nat);
    }
}

proof fn lemma_strip_frame(h: Seq<char>, x: Seq<char>, y: Seq<char>, r: Seq<char>)
    requires
        h + x + r == h + y + r,
    ensures
        x == y,
{
    let l = h + x + r;
    let m = h + y + r;
    let n = h.len() as int;
    assert(l.len() == h.len() + x.len() + r.len());
    assert(m.len() == h.len() + y.len() + r.len());
    assert(x =~= l.subrange(n, n + x.len()));
    assert(y =~= m.subrange(n, n + y.len()));
}

/// Themes whose colour roles (the focus ring taken as it is drawn) differ
/// give different stylesheets, as long as no colour value holds a `;`.
pub proof fn law_different_colours_give_different_stylesheets(
    c1: ThemeColors,
    c2: ThemeColors,
    f: FontFamilies,
)
    requires
        forall|i: int| 0 <= i < 12 ==> no_semicolon(#[trigger] role_values(c1)[i]),
        forall|i: int| 0 <= i < 12 ==> no_semicolon(#[trigger] role_values(c2)[i]),
        role_values(c1) != role_values(c2),
    ensures
        theme_css(c1, f) != theme_css(c2, f),
{
    if theme_css(c1, f) == theme_css(c2, f) {
        lemma_color_definitions_in_order(c1);
        lemma_color_definitions_in_order(c2);
        let rest = css_after_colors(f);
        lemma_css_frame(c1, f);
        lemma_css_frame(c2, f);
        lemma_strip_frame(CSS_HEADER@, color_definitions(c1), color_definitions(c2), rest);
        lemma_definitions_read_back(c1, c2, 12);
        assert(role_values(c1) =~= role_values(c2));
    }
}

} // verus!
