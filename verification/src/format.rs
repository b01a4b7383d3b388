//! The lines that applying a theme writes in place of, or in addition to,
//! the lines of a configuration.
use vstd::prelude::*;
use crate::theme::{BarColor, BarColors, ClientColor, ColorGroup, WorkspaceColor};

verus! {

/// The colour `c` if the theme sets it, else `fallback`.
pub open spec fn color_or(c: Option<String>, fallback: Seq<char>) -> Seq<char> {
    match c {
        Some(s) => s@,
        None => fallback,
    }
}

/// A space and the indicator colour, if the theme sets one.
pub open spec fn indicator_suffix(c: Option<String>) -> Seq<char> {
    match c {
        Some(s) => " "@ + s@,
        None => Seq::empty(),
    }
}

/// Which of the entries of a bar's `colors { }` block have been met.
#[derive(Clone, Copy, Debug, PartialEq, Eq)]
pub struct SeenBarColors {
    pub separator: bool,
    pub background: bool,
    pub statusline: bool,
    pub focused_workspace: bool,
    pub active_workspace: bool,
    pub inactive_workspace: bool,
    pub urgent_workspace: bool,
}

impl SeenBarColors {
    pub open spec fn none_seen() -> SeenBarColors {
        SeenBarColors {
            separator: false,
            background: false,
            statusline: false,
            focused_workspace: false,
            active_workspace: false,
            inactive_workspace: false,
            urgent_workspace: false,
        }
    }

    pub open spec fn has_color(self, k: BarColor) -> bool {
        match k {
            BarColor::Separator => self.separator,
            BarColor::Background => self.background,
            BarColor::Statusline => self.statusline,
        }
    }

    pub open spec fn has_group(self, k: WorkspaceColor) -> bool {
        match k {
            WorkspaceColor::FocusedWorkspace => self.focused_workspace,
            WorkspaceColor::ActiveWorkspace => self.active_workspace,
            WorkspaceColor::InactiveWorkspace => self.inactive_workspace,
            WorkspaceColor::UrgentWorkspace => self.urgent_workspace,
        }
    }

    pub open spec fn with_color(self, k: BarColor) -> SeenBarColors {
        match k {
            BarColor::Separator => SeenBarColors { separator: true, ..self },
            BarColor::Background => SeenBarColors { background: true, ..self },
            BarColor::Statusline => SeenBarColors { statusline: true, ..self },
        }
    }

    pub open spec fn with_group(self, k: WorkspaceColor) -> SeenBarColors {
        match k {
            WorkspaceColor::FocusedWorkspace => SeenBarColors { focused_workspace: true, ..self },
            WorkspaceColor::ActiveWorkspace => SeenBarColors { active_workspace: true, ..self },
            WorkspaceColor::InactiveWorkspace => SeenBarColors { inactive_workspace: true, ..self },
            WorkspaceColor::UrgentWorkspace => SeenBarColors { urgent_workspace: true, ..self },
        }
    }

    pub fn new() -> (s: SeenBarColors)
        ensures
            s == SeenBarColors::none_seen(),
    {
        SeenBarColors {
            separator: false,
            background: false,
            statusline: false,
            focused_workspace: false,
            active_workspace: false,
            inactive_workspace: false,
            urgent_workspace: false,
        }
    }

    pub fn contains_color(&self, k: BarColor) -> (b: bool)
        ensures
            b == self.has_color(k),
    {
        match k {
            BarColor::Separator => self.separator,
            BarColor::Background => self.background,
            BarColor::Statusline => self.statusline,
        }
    }

    pub fn contains_group(&self, k: WorkspaceColor) -> (b: bool)
        ensures
            b == self.has_group(k),
    {
        match k {
            WorkspaceColor::FocusedWorkspace => self.focused_workspace,
            WorkspaceColor::ActiveWorkspace => self.active_workspace,
            WorkspaceColor::InactiveWorkspace => self.inactive_workspace,
            WorkspaceColor::UrgentWorkspace => self.urgent_workspace,
        }
    }

    pub fn insert_color(&mut self, k: BarColor)
        ensures
            *final(self) == old(self).with_color(k),
    {
        match k {
            BarColor::Separator => self.separator = true,
            BarColor::Background => self.background = true,
            BarColor::Statusline => self.statusline = true,
        }
    }

    pub fn insert_group(&mut self, k: WorkspaceColor)
        ensures
            *final(self) == old(self).with_group(k),
    {
        match k {
            WorkspaceColor::FocusedWorkspace => self.focused_workspace = true,
            WorkspaceColor::ActiveWorkspace => self.active_workspace = true,
            WorkspaceColor::InactiveWorkspace => self.inactive_workspace = true,
            WorkspaceColor::UrgentWorkspace => self.urgent_workspace = true,
        }
    }
}

/// Which `client.*` directives have been met.
#[derive(Clone, Copy, Debug, PartialEq, Eq)]
pub struct SeenClientColors {
    pub focused: bool,
    pub focused_inactive: bool,
    pub unfocused: bool,
    pub urgent: bool,
}

impl SeenClientColors {
    pub open spec fn none_seen() -> SeenClientColors {
        SeenClientColors { focused: false, focused_inactive: false, unfocused: false, urgent: false }
    }

    pub open spec fn has(self, k: ClientColor) -> bool {
        match k {
            ClientColor::Focused => self.focused,
            ClientColor::FocusedInactive => self.focused_inactive,
            ClientColor::Unfocused => self.unfocused,
            ClientColor::Urgent => self.urgent,
        }
    }

    pub open spec fn with(self, k: ClientColor) -> SeenClientColors {
        match k {
            ClientColor::Focused => SeenClientColors { focused: true, ..self },
            ClientColor::FocusedInactive => SeenClientColors { focused_inactive: true, ..self },
            ClientColor::Unfocused => SeenClientColors { unfocused: true, ..self },
            ClientColor::Urgent => SeenClientColors { urgent: true, ..self },
        }
    }

    pub fn new() -> (s: SeenClientColors)
        ensures
            s == SeenClientColors::none_seen(),
    {
        SeenClientColors { focused: false, focused_inactive: false, unfocused: false, urgent: false }
    }

    pub fn contains(&self, k: ClientColor) -> (b: bool)
        ensures
            b == self.has(k),
    {
        match k {
            ClientColor::Focused => self.focused,
            ClientColor::FocusedInactive => self.focused_inactive,
            ClientColor::Unfocused => self.unfocused,
            ClientColor::Urgent => self.urgent,
        }
    }

    pub fn insert(&mut self, k: ClientColor)
        ensures
            *final(self) == old(self).with(k),
    {
        match k {
            ClientColor::Focused => self.focused = true,
            ClientColor::FocusedInactive => self.focused_inactive = true,
            ClientColor::Unfocused => self.unfocused = true,
            ClientColor::Urgent => self.urgent = true,
        }
    }
}

/// The line `<prefix><name> <colour>` for a single-colour bar entry the theme
/// sets, nothing when it does not.
pub open spec fn bar_entry(prefix: Seq<char>, k: BarColor, c: Option<String>) -> Seq<char> {
    match c {
        Some(s) => prefix + k.name_of() + " "@ + s@ + "\n"@,
        None => Seq::empty(),
    }
}

/// The line `<prefix><name> <border> <background> <text> [ <indicator>]` for a
/// workspace entry whose border, background and text colours the theme all
/// sets, nothing otherwise.
pub open spec fn group_entry(prefix: Seq<char>, k: WorkspaceColor, g: Option<ColorGroup>) -> Seq<
    char,
> {
    match g {
        Some(g) => if g.border is Some && g.background is Some && g.text is Some {
            prefix + k.name_of() + " "@ + g.border.unwrap()@ + " "@ + g.background.unwrap()@
                + " "@ + g.text.unwrap()@ + " "@ + indicator_suffix(g.indicator) + "\n"@
        } else {
            Seq::empty()
        },
        None => Seq::empty(),
    }
}

/// `entry` unless it has already been `seen`.
pub open spec fn unless_seen(seen: bool, entry: Seq<char>) -> Seq<char> {
    if seen {
        Seq::empty()
    } else {
        entry
    }
}

/// The entries of a bar's `colors { }` block that the theme sets and that the
/// block did not hold, in the order separator, background, statusline,
/// focused, active, inactive and urgent workspace.
pub open spec fn missing_bar_entries(prefix: Seq<char>, bc: BarColors, seen: SeenBarColors) -> Seq<
    char,
> {
    unless_seen(seen.separator, bar_entry(prefix, BarColor::Separator, bc.separator))
        + unless_seen(seen.background, bar_entry(prefix, BarColor::Background, bc.background))
        + unless_seen(seen.statusline, bar_entry(prefix, BarColor::Statusline, bc.statusline))
        + unless_seen(
        seen.focused_workspace,
        group_entry(prefix, WorkspaceColor::FocusedWorkspace, bc.focused_workspace),
    ) + unless_seen(
        seen.active_workspace,
        group_entry(prefix, WorkspaceColor::ActiveWorkspace, bc.active_workspace),
    ) + unless_seen(
        seen.inactive_workspace,
        group_entry(prefix, WorkspaceColor::InactiveWorkspace, bc.inactive_workspace),
    ) + unless_seen(
        seen.urgent_workspace,
        group_entry(prefix, WorkspaceColor::UrgentWorkspace, bc.urgent_workspace),
    )
}

/// A whole `colors { }` block, written into a bar block that has none.
pub open spec fn colors_block(bc: BarColors) -> Seq<char> {
    "  colors {\n"@ + missing_bar_entries("    "@, bc, SeenBarColors::none_seen()) + "  }\n"@
}

/// A bar single-colour line rewritten with the theme's colour; the colour
/// word of the line stays where the theme sets none.
pub open spec fn bar_color_line(
    lead: Seq<char>,
    k: BarColor,
    c: Option<String>,
    words: Seq<Seq<char>>,
) -> Seq<char> {
    lead + k.name_of() + " "@ + color_or(c, words[1]) + "\n"@
}

/// A workspace line rewritten with the theme's colours. When the line has a
/// fourth word or the theme an indicator, a last colour follows: the
/// indicator, or else the line's fourth word again.
pub open spec fn workspace_line(
    lead: Seq<char>,
    k: WorkspaceColor,
    g: ColorGroup,
    words: Seq<Seq<char>>,
) -> Seq<char> {
    lead + k.name_of() + " "@ + color_or(g.border, words[1]) + " "@ + color_or(
        g.background,
        words[2],
    ) + " "@ + color_or(g.text, words[3]) + (if words.len() > 3 || g.indicator is Some {
        " "@ + color_or(g.indicator, words[3])
    } else {
        Seq::empty()
    }) + "\n"@
}

/// A `client.*` line rewritten with the theme's colours.
pub open spec fn client_line(
    lead: Seq<char>,
    k: ClientColor,
    g: ColorGroup,
    words: Seq<Seq<char>>,
) -> Seq<char> {
    lead + k.name_of() + " "@ + color_or(g.border, words[1]) + " "@ + color_or(
        g.background,
        words[2],
    ) + " "@ + (if words.len() > 3 || g.text is Some {
        color_or(g.text, words[3]) + " "@ + (if words.len() > 4 || g.indicator is Some {
            color_or(g.indicator, words[4])
        } else {
            Seq::empty()
        })
    } else {
        Seq::empty()
    }) + "\n"@
}

/// A `client.*` line for a window class the configuration does not set,
/// with black for each colour the theme leaves out.
pub open spec fn new_client_line(k: ClientColor, g: ColorGroup) -> Seq<char> {
    k.name_of() + " "@ + color_or(g.border, "#000000"@) + " "@ + color_or(g.background, "#000000"@)
        + " "@ + color_or(g.text, "#000000"@) + indicator_suffix(g.indicator) + "\n"@
}

/// The theme's colour, or `fallback` where it sets none.
pub(crate) fn pick<'a>(c: &'a Option<String>, fallback: &'a str) -> (s: &'a str)
    ensures
        s@ == color_or(*c, fallback@),
{
    match c {
        Some(s) => s.as_str(),
        None => fallback,
    }
}

pub(crate) fn push_indicator(out: &mut String, c: &Option<String>)
    ensures
        final(out)@ == old(out)@ + indicator_suffix(*c),
{
    match c {
        Some(s) => {
            out.append(" ");
            out.append(s.as_str());
        },
        None => {
            assert(out@ =~= out@ + Seq::<char>::empty());
        },
    }
}

pub(crate) fn push_bar_entry(out: &mut String, prefix: &str, k: BarColor, c: &Option<String>)
    ensures
        final(out)@ == old(out)@ + bar_entry(prefix@, k, *c),
{
    match c {
        Some(s) => {
            let ghost o = out@;
            out.append(prefix);
            out.append(k.name());
            out.append(" ");
            out.append(s.as_str());
            out.append("\n");
            assert(out@ =~= o + (prefix@ + k.name_of() + " "@ + s@ + "\n"@));
        },
        None => {
            assert(out@ =~= out@ + Seq::<char>::empty());
        },
    }
}

pub(crate) fn push_group_entry(out: &mut String, prefix: &str, k: WorkspaceColor, g: &Option<ColorGroup>)
    ensures
        final(out)@ == old(out)@ + group_entry(prefix@, k, *g),
{
    match g {
        Some(g) => {
            match (&g.border, &g.background, &g.text) {
                (Some(b), Some(bg), Some(t)) => {
                    let ghost o = out@;
                    out.append(prefix);
                    out.append(k.name());
                    out.append(" ");
                    out.append(b.as_str());
                    out.append(" ");
                    out.append(bg.as_str());
                    out.append(" ");
                    out.append(t.as_str());
                    out.append(" ");
                    push_indicator(out, &g.indicator);
                    out.append("\n");
                    assert(out@ =~= o + (prefix@ + k.name_of() + " "@ + b@ + " "@ + bg@ + " "@ + t@
                        + " "@ + indicator_suffix(g.indicator) + "\n"@));
                },
                _ => {
                    assert(out@ =~= out@ + Seq::<char>::empty());
                },
            }
        },
        None => {
            assert(out@ =~= out@ + Seq::<char>::empty());
        },
    }
}

fn push_bar_entry_unless(out: &mut String, seen: bool, prefix: &str, k: BarColor, c: &Option<String>)
    ensures
        final(out)@ == old(out)@ + unless_seen(seen, bar_entry(prefix@, k, *c)),
{
    if !seen {
        push_bar_entry(out, prefix, k, c);
    } else {
        assert(out@ =~= out@ + Seq::<char>::empty());
    }
}

fn push_group_entry_unless(
    out: &mut String,
    seen: bool,
    prefix: &str,
    k: WorkspaceColor,
    g: &Option<ColorGroup>,
)
    ensures
        final(out)@ == old(out)@ + unless_seen(seen, group_entry(prefix@, k, *g)),
{
    if !seen {
        push_group_entry(out, prefix, k, g);
    } else {
        assert(out@ =~= out@ + Seq::<char>::empty());
    }
}

pub(crate) fn push_missing_bar_entries(out: &mut String, prefix: &str, bc: &BarColors, seen: &SeenBarColors)
    ensures
        final(out)@ == old(out)@ + missing_bar_entries(prefix@, *bc, *seen),
{
    let ghost o = out@;
    let ghost p = prefix@;
    let ghost u1 = unless_seen(seen.separator, bar_entry(p, BarColor::Separator, bc.separator));
    let ghost u2 = unless_seen(seen.background, bar_entry(p, BarColor::Background, bc.background));
    let ghost u3 = unless_seen(seen.statusline, bar_entry(p, BarColor::Statusline, bc.statusline));
    let ghost u4 = unless_seen(
        seen.focused_workspace,
        group_entry(p, WorkspaceColor::FocusedWorkspace, bc.focused_workspace),
    );
    let ghost u5 = unless_seen(
        seen.active_workspace,
        group_entry(p, WorkspaceColor::ActiveWorkspace, bc.active_workspace),
    );
    let ghost u6 = unless_seen(
        seen.inactive_workspace,
        group_entry(p, WorkspaceColor::InactiveWorkspace, bc.inactive_workspace),
    );
    let ghost u7 = unless_seen(
        seen.urgent_workspace,
        group_entry(p, WorkspaceColor::UrgentWorkspace, bc.urgent_workspace),
    );
    push_bar_entry_unless(out, seen.separator, prefix, BarColor::Separator, &bc.separator);
    push_bar_entry_unless(out, seen.background, prefix, BarColor::Background, &bc.background);
    proof { vstd::seq_lib::lemma_concat_associative(o, u1, u2); }
    push_bar_entry_unless(out, seen.statusline, prefix, BarColor::Statusline, &bc.statusline);
    proof { vstd::seq_lib::lemma_concat_associative(o, u1 + u2, u3); }
    push_group_entry_unless(
        out,
        seen.focused_workspace,
        prefix,
        WorkspaceColor::FocusedWorkspace,
        &bc.focused_workspace,
    );
    proof { vstd::seq_lib::lemma_concat_associative(o, u1 + u2 + u3, u4); }
    push_group_entry_unless(
        out,
        seen.active_workspace,
        prefix,
        WorkspaceColor::ActiveWorkspace,
        &bc.active_workspace,
    );
    proof { vstd::seq_lib::lemma_concat_associative(o, u1 + u2 + u3 + u4, u5); }
    push_group_entry_unless(
        out,
        seen.inactive_workspace,
        prefix,
        WorkspaceColor::InactiveWorkspace,
        &bc.inactive_workspace,
    );
    proof { vstd::seq_lib::lemma_concat_associative(o, u1 + u2 + u3 + u4 + u5, u6); }
    push_group_entry_unless(
        out,
        seen.urgent_workspace,
        prefix,
        WorkspaceColor::UrgentWorkspace,
        &bc.urgent_workspace,
    );
    proof { vstd::seq_lib::lemma_concat_associative(o, u1 + u2 + u3 + u4 + u5 + u6, u7); }
}

pub(crate) fn push_colors_block(out: &mut String, bc: &BarColors)
    ensures
        final(out)@ == old(out)@ + colors_block(*bc),
{
    let ghost o = out@;
    let seen: SeenBarColors = SeenBarColors::new();
    out.append("  colors {\n");
    let ghost o1 = out@;
    push_missing_bar_entries(out, "    ", bc, &seen);
    let ghost o2 = out@;
    out.append("  }\n");
    assert(out@ =~= o + colors_block(*bc));
}

pub(crate) fn push_bar_color_line(
    out: &mut String,
    lead: &str,
    k: BarColor,
    c: &Option<String>,
    words: &Vec<&str>,
)
    requires
        c is Some || words.len() > 1,
    ensures
        final(out)@ == old(out)@ + bar_color_line(lead@, k, *c, crate::text::views(words@)),
{
    let ghost o = out@;
    let ghost w = crate::text::views(words@);
    let color: &str = match c {
        Some(s) => s.as_str(),
        None => words[1],
    };
    assert(color@ == color_or(*c, w[1]));
    out.append(lead);
    out.append(k.name());
    out.append(" ");
    out.append(color);
    out.append("\n");
    assert(out@ =~= o + bar_color_line(lead@, k, *c, w));
}


/// Whether the line's words supply every colour of a workspace line that the
/// theme leaves out.
pub open spec fn workspace_line_complete(g: ColorGroup, n: nat) -> bool {
    &&& (g.border is Some || n > 1)
    &&& (g.background is Some || n > 2)
    &&& (g.text is Some || n > 3)
}

/// Whether the line's words supply the border and background colours of a
/// `client.*` line that the theme leaves out.
pub open spec fn client_line_complete(g: ColorGroup, n: nat) -> bool {
    &&& (g.border is Some || n > 1)
    &&& (g.background is Some || n > 2)
}

pub(crate) fn push_workspace_line(
    out: &mut String,
    lead: &str,
    k: WorkspaceColor,
    g: &ColorGroup,
    words: &Vec<&str>,
)
    requires
        workspace_line_complete(*g, words.len() as nat),
    ensures
        final(out)@ == old(out)@ + workspace_line(lead@, k, *g, crate::text::views(words@)),
{
    let ghost w = crate::text::views(words@);
    let border: &str = match &g.border {
        Some(s) => s.as_str(),
        None => words[1],
    };
    let background: &str = match &g.background {
        Some(s) => s.as_str(),
        None => words[2],
    };
    let text: &str = match &g.text {
        Some(s) => s.as_str(),
        None => words[3],
    };
    let mut line: String = String::new();
    line.append(lead);
    assert(line@ =~= lead@);
    line.append(k.name());
    line.append(" ");
    line.append(border);
    line.append(" ");
    line.append(background);
    line.append(" ");
    line.append(text);
    let ghost mid = line@;
    if words.len() > 3 || g.indicator.is_some() {
        let indicator: &str = match &g.indicator {
            Some(s) => s.as_str(),
            None => words[3],
        };
        line.append(" ");
        line.append(indicator);
        proof {
            vstd::seq_lib::lemma_concat_associative(mid, " "@, indicator@);
        }
    } else {
        assert(line@ =~= mid + Seq::<char>::empty());
    }
    line.append("\n");
    out.append(line.as_str());
}

pub(crate) fn push_client_line(out: &mut String, lead: &str, k: ClientColor, g: &ColorGroup, words: &Vec<&str>)
    requires
        client_line_complete(*g, words.len() as nat),
    ensures
        final(out)@ == old(out)@ + client_line(lead@, k, *g, crate::text::views(words@)),
{
    let ghost w = crate::text::views(words@);
    let border: &str = match &g.border {
        Some(s) => s.as_str(),
        None => words[1],
    };
    let background: &str = match &g.background {
        Some(s) => s.as_str(),
        None => words[2],
    };
    let mut line: String = String::new();
    line.append(lead);
    assert(line@ =~= lead@);
    line.append(k.name());
    line.append(" ");
    line.append(border);
    line.append(" ");
    line.append(background);
    line.append(" ");
    let ghost mid = line@;
    if words.len() > 3 || g.text.is_some() {
        let text: &str = match &g.text {
            Some(s) => s.as_str(),
            None => words[3],
        };
        let mut tail: String = String::new();
        tail.append(text);
        assert(tail@ =~= text@);
        tail.append(" ");
        if words.len() > 4 || g.indicator.is_some() {
            let indicator: &str = match &g.indicator {
                Some(s) => s.as_str(),
                None => words[4],
            };
            tail.append(indicator);
        } else {
            assert(tail@ =~= tail@ + Seq::<char>::empty());
        }
        line.append(tail.as_str());
    } else {
        assert(line@ =~= mid + Seq::<char>::empty());
    }
    line.append("\n");
    out.append(line.as_str());
}

pub(crate) fn push_new_client_line(out: &mut String, k: ClientColor, g: &ColorGroup)
    ensures
        final(out)@ == old(out)@ + new_client_line(k, *g),
{
    let mut line: String = String::new();
    line.append(k.name());
    assert(line@ =~= k.name_of());
    line.append(" ");
    line.append(pick(&g.border, "#000000"));
    line.append(" ");
    line.append(pick(&g.background, "#000000"));
    line.append(" ");
    line.append(pick(&g.text, "#000000"));
    push_indicator(&mut line, &g.indicator);
    line.append("\n");
    out.append(line.as_str());
}

} // verus!
