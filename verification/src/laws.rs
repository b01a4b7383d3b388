//! Properties of applying a theme that hold for every configuration and
//! every theme.
use vstd::prelude::*;
use crate::format::{colors_block, color_or, SeenBarColors};
use crate::text::{
    is_white_space, lead_len, leading_whitespace, lemma_blank_no_words, lemma_first_word,
    lemma_lead_len_append, line_words,
};
use crate::theme::{BarColor, ClientColor, ColorGroup, Theme, WorkspaceColor};
use crate::writer::{
    accepts, is_comment, is_directive, missing_client, render, render_accepts, run,
    run_accepts, step, trailer, with_newline, ConfigWriter,
};

verus! {

/// Each window class keyword names its own class.
pub proof fn law_client_names_parse(k: ClientColor)
    ensures
        ClientColor::parse_of(k.name_of()) == Some(k),
{
    reveal_strlit("client.focused");
    reveal_strlit("client.unfocused");
    reveal_strlit("client.focused_inactive");
    reveal_strlit("client.urgent");
    assert("client.focused"@.len() == 14);
    assert("client.focused_inactive"@.len() == 23);
    assert("client.focused"@[7] != "client.unfocused"@[7]);
    assert("client.focused"@[7] != "client.urgent"@[7]);
    assert("client.focused_inactive"@[7] != "client.unfocused"@[7]);
    assert("client.focused_inactive"@[7] != "client.urgent"@[7]);
    assert("client.unfocused"@[8] != "client.urgent"@[8]);
}

/// Each bar entry keyword names its own entry.
pub proof fn law_bar_names_parse(k: BarColor)
    ensures
        BarColor::parse_of(k.name_of()) == Some(k),
{
    reveal_strlit("separator");
    reveal_strlit("background");
    reveal_strlit("statusline");
    assert("separator"@[0] != "background"@[0]);
    assert("separator"@[0] != "statusline"@[1]);
    assert("background"@[0] != "statusline"@[0]);
}

/// Each workspace entry keyword names its own entry.
pub proof fn law_workspace_names_parse(k: WorkspaceColor)
    ensures
        WorkspaceColor::parse_of(k.name_of()) == Some(k),
{
    reveal_strlit("focused_workspace");
    reveal_strlit("active_workspace");
    reveal_strlit("inactive_workspace");
    reveal_strlit("urgent_workspace");
    assert("focused_workspace"@[0] != "active_workspace"@[0]);
    assert("focused_workspace"@[0] != "inactive_workspace"@[0]);
    assert("focused_workspace"@[0] != "urgent_workspace"@[0]);
    assert("active_workspace"@[0] != "inactive_workspace"@[0]);
    assert("active_workspace"@[0] != "urgent_workspace"@[0]);
    assert("inactive_workspace"@[0] != "urgent_workspace"@[0]);
}

/// Reading starts in a reachable state.
pub proof fn law_initial_wf()
    ensures
        ConfigWriter::initial().wf(),
{
}

/// Every line read from a reachable state leads to a reachable state: a
/// `colors { }` block is only ever open inside a bar block, and the entries
/// of a `colors { }` block are forgotten when it closes.
pub proof fn law_step_keeps_wf(st: ConfigWriter, line: Seq<char>, theme: Theme)
    requires
        st.wf(),
    ensures
        step(st, line, theme).0.wf(),
{
}

/// Whatever lines have been read, the state reached is a reachable state.
pub proof fn law_run_wf(lines: Seq<Seq<char>>, theme: Theme)
    ensures
        run(lines, theme).0.wf(),
    decreases lines.len(),
{
    if lines.len() > 0 {
        law_run_wf(lines.drop_last(), theme);
        law_step_keeps_wf(run(lines.drop_last(), theme).0, lines.last(), theme);
    }
}

/// A blank line, or a line whose first character other than whitespace is
/// `#`, is written unchanged, can always be read, and changes nothing.
pub proof fn law_comment_or_blank_copied(st: ConfigWriter, line: Seq<char>, theme: Theme)
    requires
        (forall|j: int| 0 <= j < line.len() ==> is_white_space(#[trigger] line[j])) || (lead_len(
            line,
        ) < line.len() && line[lead_len(line) as int] == '#'),
    ensures
        step(st, line, theme) == (st, with_newline(line)),
        accepts(st, line, theme),
{
    reveal_strlit("\n");
    let l = with_newline(line);
    if forall|j: int| 0 <= j < line.len() ==> is_white_space(#[trigger] line[j]) {
        assert forall|j: int| 0 <= j < l.len() implies is_white_space(#[trigger] l[j]) by {
            if j < line.len() {
                assert(l[j] == line[j]);
            } else {
                assert(l[j] == '\n');
            }
        }
        lemma_blank_no_words(l);
    } else {
        lemma_lead_len_append(line, "\n"@);
        assert(l[lead_len(line) as int] == line[lead_len(line) as int]);
        lemma_first_word(l);
        assert(is_comment(line_words(l)[0]));
    }
}

/// Whether `line` neither opens a bar block nor sets a window class.
pub open spec fn is_plain_line(line: Seq<char>) -> bool {
    let words = line_words(with_newline(line));
    !is_directive(words) || (words[0] != "bar"@ && ClientColor::parse_of(words[0]) is None)
}

/// The text of a configuration made of `lines`.
pub open spec fn join_lines(lines: Seq<Seq<char>>) -> Seq<char>
    decreases lines.len(),
{
    if lines.len() == 0 {
        Seq::empty()
    } else {
        join_lines(lines.drop_last()) + with_newline(lines.last())
    }
}

/// Outside bar blocks, a line that is not a `bar` or `client.*` directive is
/// written unchanged and changes nothing.
pub proof fn law_plain_line_copied(st: ConfigWriter, line: Seq<char>, theme: Theme)
    requires
        st.wf(),
        !st.in_bar,
        is_plain_line(line),
    ensures
        step(st, line, theme) == (st, with_newline(line)),
        accepts(st, line, theme),
{
}

/// A configuration that opens no bar block and sets no window class is
/// written unchanged, followed by a `client.*` line for each window class the
/// theme colours; this can be done exactly when the theme has window colours.
pub proof fn law_plain_config_unchanged(lines: Seq<Seq<char>>, theme: Theme)
    requires
        forall|i: int| 0 <= i < lines.len() ==> is_plain_line(#[trigger] lines[i]),
    ensures
        run(lines, theme) == (ConfigWriter::initial(), join_lines(lines)),
        run_accepts(lines, theme),
        render(lines, theme) == join_lines(lines) + trailer(ConfigWriter::initial(), theme),
        render_accepts(lines, theme) <==> theme.window_colors is Some,
    decreases lines.len(),
{
    if lines.len() > 0 {
        assert forall|i: int| 0 <= i < lines.drop_last().len() implies is_plain_line(
            #[trigger] lines.drop_last()[i],
        ) by {
            assert(lines.drop_last()[i] == lines[i]);
        }
        law_plain_config_unchanged(lines.drop_last(), theme);
        assert(is_plain_line(lines[lines.len() - 1]));
        law_plain_line_copied(ConfigWriter::initial(), lines.last(), theme);
    }
}

/// A window class that has been met stays met.
pub proof fn law_seen_clients_kept(st: ConfigWriter, line: Seq<char>, theme: Theme, k: ClientColor)
    requires
        st.seen_clients.has(k),
    ensures
        step(st, line, theme).0.seen_clients.has(k),
{
}

/// A `client.*` line read outside a `colors { }` block is remembered.
pub proof fn law_client_line_remembered(
    st: ConfigWriter,
    line: Seq<char>,
    theme: Theme,
    k: ClientColor,
)
    requires
        !st.in_colors,
        line_words(with_newline(line)).len() > 0,
        line_words(with_newline(line))[0] == k.name_of(),
    ensures
        step(st, line, theme).0.seen_clients.has(k),
{
    reveal_strlit("client.focused");
    reveal_strlit("client.unfocused");
    reveal_strlit("client.focused_inactive");
    reveal_strlit("client.urgent");
    reveal_strlit("}");
    reveal_strlit("bar");
    reveal_strlit("colors");
    law_client_names_parse(k);
    assert(k.name_of()[0] == 'c');
    assert(k.name_of()[1] == 'l');
    assert("colors"@[1] == 'o');
}

/// Once a configuration has set a window class, reading further lines keeps
/// it set.
proof fn lemma_run_seen_kept(lines: Seq<Seq<char>>, theme: Theme, n: int, k: ClientColor)
    requires
        0 <= n <= lines.len(),
        run(lines.take(n), theme).0.seen_clients.has(k),
    ensures
        run(lines, theme).0.seen_clients.has(k),
    decreases lines.len() - n,
{
    if n < lines.len() {
        assert(lines.take(n + 1).drop_last() =~= lines.take(n));
        assert(lines.take(n + 1).last() == lines[n]);
        law_seen_clients_kept(run(lines.take(n), theme).0, lines[n], theme, k);
        lemma_run_seen_kept(lines, theme, n + 1, k);
    } else {
        assert(lines.take(n) =~= lines);
    }
}

/// A window class that the configuration sets, outside a `colors { }`
/// block, gets no second `client.*` line at the end.
pub proof fn law_set_client_not_repeated(
    lines: Seq<Seq<char>>,
    theme: Theme,
    i: int,
    k: ClientColor,
)
    requires
        0 <= i < lines.len(),
        !run(lines.take(i), theme).0.in_colors,
        line_words(with_newline(lines[i])).len() > 0,
        line_words(with_newline(lines[i]))[0] == k.name_of(),
    ensures
        missing_client(run(lines, theme).0, theme, k) == Seq::<char>::empty(),
{
    assert(lines.take(i + 1).drop_last() =~= lines.take(i));
    assert(lines.take(i + 1).last() == lines[i]);
    law_client_line_remembered(run(lines.take(i), theme).0, lines[i], theme, k);
    lemma_run_seen_kept(lines, theme, i + 1, k);
}

/// A `client.*` line for a window class whose four colours the theme all
/// sets is written with the theme's colours alone, whatever colours the line
/// had, keeping its indentation.
pub proof fn law_full_client_group_replaces(
    st: ConfigWriter,
    line: Seq<char>,
    theme: Theme,
    k: ClientColor,
    g: ColorGroup,
)
    requires
        !st.in_colors,
        theme.window_colors matches Some(wc) && wc.group_of(k) == Some(g),
        g.border is Some,
        g.background is Some,
        g.text is Some,
        g.indicator is Some,
        line_words(with_newline(line)).len() > 0,
        line_words(with_newline(line))[0] == k.name_of(),
    ensures
        accepts(st, line, theme),
        step(st, line, theme).1 == leading_whitespace(with_newline(line)) + k.name_of() + " "@
            + g.border.unwrap()@ + " "@ + g.background.unwrap()@ + " "@ + g.text.unwrap()@ + " "@
            + g.indicator.unwrap()@ + "\n"@,
{
    reveal_strlit("client.focused");
    reveal_strlit("client.unfocused");
    reveal_strlit("client.focused_inactive");
    reveal_strlit("client.urgent");
    reveal_strlit("}");
    reveal_strlit("bar");
    reveal_strlit("colors");
    law_client_names_parse(k);
    assert(k.name_of()[0] == 'c');
    assert(k.name_of()[1] == 'l');
    assert("colors"@[1] == 'o');
}

/// A bar block without a `colors { }` block gets one, holding every bar
/// colour the theme sets, just before its closing brace.
pub proof fn law_bar_gets_colors_block(st: ConfigWriter, line: Seq<char>, theme: Theme)
    requires
        st.in_bar,
        !st.in_colors,
        !st.colors_found,
        theme.bar_colors is Some,
        line_words(with_newline(line)).len() > 0,
        line_words(with_newline(line))[0] == "}"@,
    ensures
        accepts(st, line, theme),
        step(st, line, theme) == (
            ConfigWriter { in_bar: false, ..st },
            colors_block(theme.bar_colors.unwrap()) + with_newline(line),
        ),
{
    reveal_strlit("}");
}


/// `part` occurs in `whole` as a contiguous piece.
pub open spec fn contains_text(whole: Seq<char>, part: Seq<char>) -> bool {
    exists|i: int|
        0 <= i && i + part.len() <= whole.len() && #[trigger] whole.subrange(i, i + part.len())
            == part
}

/// `whole` ends with `suffix`.
pub open spec fn ends_with(whole: Seq<char>, suffix: Seq<char>) -> bool {
    suffix.len() <= whole.len() && whole.subrange(whole.len() - suffix.len(), whole.len() as int)
        == suffix
}

/// `whole` starts with `prefix`.
pub open spec fn starts_with(whole: Seq<char>, prefix: Seq<char>) -> bool {
    prefix.len() <= whole.len() && whole.subrange(0, prefix.len() as int) == prefix
}

proof fn lemma_contains_self(x: Seq<char>)
    ensures
        contains_text(x, x),
{
    let i: int = 0;
    assert(x.subrange(i, i + x.len()) =~= x);
}

proof fn lemma_contains_right(a: Seq<char>, b: Seq<char>, x: Seq<char>)
    requires
        contains_text(a, x),
    ensures
        contains_text(a + b, x),
{
    let i = choose|i: int|
        0 <= i && i + x.len() <= a.len() && #[trigger] a.subrange(i, i + x.len()) == x;
    assert((a + b).subrange(i, i + x.len()) =~= a.subrange(i, i + x.len()));
}

proof fn lemma_contains_left(a: Seq<char>, b: Seq<char>, x: Seq<char>)
    requires
        contains_text(b, x),
    ensures
        contains_text(a + b, x),
{
    let i = choose|i: int|
        0 <= i && i + x.len() <= b.len() && #[trigger] b.subrange(i, i + x.len()) == x;
    assert((a + b).subrange(a.len() + i, a.len() + i + x.len()) =~= b.subrange(i, i + x.len()));
}

proof fn lemma_ends_with(a: Seq<char>, b: Seq<char>)
    ensures
        ends_with(a + b, b),
{
    assert((a + b).subrange(a.len() as int, (a + b).len() as int) =~= b);
}

proof fn lemma_starts_with(a: Seq<char>, b: Seq<char>)
    ensures
        starts_with(a + b, a),
{
    assert((a + b).subrange(0, a.len() as int) =~= a);
}

/// The seven pieces of a completed `colors { }` block's entries, each of which
/// lies in their concatenation.
proof fn lemma_contains_piece(
    u1: Seq<char>,
    u2: Seq<char>,
    u3: Seq<char>,
    u4: Seq<char>,
    u5: Seq<char>,
    u6: Seq<char>,
    u7: Seq<char>,
    tail: Seq<char>,
    x: Seq<char>,
)
    requires
        x == u1 || x == u2 || x == u3 || x == u4 || x == u5 || x == u6 || x == u7,
    ensures
        contains_text(u1 + u2 + u3 + u4 + u5 + u6 + u7 + tail, x),
{
    lemma_contains_self(x);
    if x == u1 {
        lemma_contains_right(u1, u2, x);
        lemma_contains_right(u1 + u2, u3, x);
        lemma_contains_right(u1 + u2 + u3, u4, x);
        lemma_contains_right(u1 + u2 + u3 + u4, u5, x);
        lemma_contains_right(u1 + u2 + u3 + u4 + u5, u6, x);
        lemma_contains_right(u1 + u2 + u3 + u4 + u5 + u6, u7, x);
    } else if x == u2 {
        lemma_contains_left(u1, u2, x);
        lemma_contains_right(u1 + u2, u3, x);
        lemma_contains_right(u1 + u2 + u3, u4, x);
        lemma_contains_right(u1 + u2 + u3 + u4, u5, x);
        lemma_contains_right(u1 + u2 + u3 + u4 + u5, u6, x);
        lemma_contains_right(u1 + u2 + u3 + u4 + u5 + u6, u7, x);
    } else if x == u3 {
        lemma_contains_left(u1 + u2, u3, x);
        lemma_contains_right(u1 + u2 + u3, u4, x);
        lemma_contains_right(u1 + u2 + u3 + u4, u5, x);
        lemma_contains_right(u1 + u2 + u3 + u4 + u5, u6, x);
        lemma_contains_right(u1 + u2 + u3 + u4 + u5 + u6, u7, x);
    } else if x == u4 {
        lemma_contains_left(u1 + u2 + u3, u4, x);
        lemma_contains_right(u1 + u2 + u3 + u4, u5, x);
        lemma_contains_right(u1 + u2 + u3 + u4 + u5, u6, x);
        lemma_contains_right(u1 + u2 + u3 + u4 + u5 + u6, u7, x);
    } else if x == u5 {
        lemma_contains_left(u1 + u2 + u3 + u4, u5, x);
        lemma_contains_right(u1 + u2 + u3 + u4 + u5, u6, x);
        lemma_contains_right(u1 + u2 + u3 + u4 + u5 + u6, u7, x);
    } else if x == u6 {
        lemma_contains_left(u1 + u2 + u3 + u4 + u5, u6, x);
        lemma_contains_right(u1 + u2 + u3 + u4 + u5 + u6, u7, x);
    } else {
        lemma_contains_left(u1 + u2 + u3 + u4 + u5 + u6, u7, x);
    }
    lemma_contains_right(u1 + u2 + u3 + u4 + u5 + u6 + u7, tail, x);
}

/// The line that a window class gets after the last line: its keyword and
/// the theme's border, background and text colours, black for each one the
/// theme leaves out, then the indicator if the theme sets one.
pub open spec fn appended_client_line(k: ClientColor, g: ColorGroup) -> Seq<char> {
    k.name_of() + " "@ + (match g.border {
        Some(c) => c@,
        None => "#000000"@,
    }) + " "@ + (match g.background {
        Some(c) => c@,
        None => "#000000"@,
    }) + " "@ + (match g.text {
        Some(c) => c@,
        None => "#000000"@,
    }) + (match g.indicator {
        Some(c) => " "@ + c@,
        None => Seq::empty(),
    }) + "\n"@
}

/// The appended line of window class `k`, or nothing where the theme has no
/// colours for it.
pub open spec fn appended_client(wc: crate::theme::WindowColors, k: ClientColor) -> Seq<char> {
    match wc.group_of(k) {
        Some(g) => appended_client_line(k, g),
        None => Seq::empty(),
    }
}

/// After the last line, every window class that the configuration never set
/// and that the theme colours gets its line.
pub proof fn law_unset_client_appended(
    st: ConfigWriter,
    theme: Theme,
    k: ClientColor,
    g: ColorGroup,
)
    requires
        theme.window_colors matches Some(wc) && wc.group_of(k) == Some(g),
        !st.seen_clients.has(k),
    ensures
        contains_text(trailer(st, theme), appended_client_line(k, g)),
{
    let x = appended_client_line(k, g);
    assert(missing_client(st, theme, k) =~= x);
    let m1 = missing_client(st, theme, ClientColor::Focused);
    let m2 = missing_client(st, theme, ClientColor::FocusedInactive);
    let m3 = missing_client(st, theme, ClientColor::Unfocused);
    let m4 = missing_client(st, theme, ClientColor::Urgent);
    lemma_contains_self(x);
    match k {
        ClientColor::Focused => {
            lemma_contains_right(m1, m2, x);
            lemma_contains_right(m1 + m2, m3, x);
            lemma_contains_right(m1 + m2 + m3, m4, x);
        },
        ClientColor::FocusedInactive => {
            lemma_contains_left(m1, m2, x);
            lemma_contains_right(m1 + m2, m3, x);
            lemma_contains_right(m1 + m2 + m3, m4, x);
        },
        ClientColor::Unfocused => {
            lemma_contains_left(m1 + m2, m3, x);
            lemma_contains_right(m1 + m2 + m3, m4, x);
        },
        ClientColor::Urgent => {
            lemma_contains_left(m1 + m2 + m3, m4, x);
        },
    }
}

/// A configuration that set no window class is followed by the lines of all
/// four window classes the theme colours, in the order focused,
/// focused_inactive, unfocused, urgent.
pub proof fn law_all_clients_appended(theme: Theme)
    requires
        theme.window_colors is Some,
    ensures
        trailer(ConfigWriter::initial(), theme) == appended_client(
            theme.window_colors.unwrap(),
            ClientColor::Focused,
        ) + appended_client(theme.window_colors.unwrap(), ClientColor::FocusedInactive)
            + appended_client(theme.window_colors.unwrap(), ClientColor::Unfocused)
            + appended_client(theme.window_colors.unwrap(), ClientColor::Urgent),
{
    let st = ConfigWriter::initial();
    let wc = theme.window_colors.unwrap();
    assert(missing_client(st, theme, ClientColor::Focused) =~= appended_client(
        wc,
        ClientColor::Focused,
    ));
    assert(missing_client(st, theme, ClientColor::FocusedInactive) =~= appended_client(
        wc,
        ClientColor::FocusedInactive,
    ));
    assert(missing_client(st, theme, ClientColor::Unfocused) =~= appended_client(
        wc,
        ClientColor::Unfocused,
    ));
    assert(missing_client(st, theme, ClientColor::Urgent) =~= appended_client(
        wc,
        ClientColor::Urgent,
    ));
}

/// The line of a single-colour bar entry `k` set to colour `c`, indented
/// by `indent`.
pub open spec fn bar_entry_text(indent: Seq<char>, k: BarColor, c: String) -> Seq<char> {
    indent + k.name_of() + " "@ + c@ + "\n"@
}

/// The line of a workspace entry `k` with all of border, background and text
/// set, indented by `indent`.
pub open spec fn workspace_entry_text(indent: Seq<char>, k: WorkspaceColor, g: ColorGroup) -> Seq<
    char,
> {
    indent + k.name_of() + " "@ + g.border.unwrap()@ + " "@ + g.background.unwrap()@ + " "@
        + g.text.unwrap()@ + " "@ + (match g.indicator {
        Some(c) => " "@ + c@,
        None => Seq::empty(),
    }) + "\n"@
}

/// Whether the theme sets border, background and text of a colour group.
pub open spec fn group_complete(g: ColorGroup) -> bool {
    g.border is Some && g.background is Some && g.text is Some
}

/// Closing a `colors { }` block that held no line for the single-colour
/// entry `k`, with a theme that sets `k` to `c`, writes the entry's line,
/// indented twice by the closing line's indentation, before the closing line.
pub proof fn law_closing_colors_adds_bar_entry(
    st: ConfigWriter,
    line: Seq<char>,
    theme: Theme,
    k: BarColor,
    c: String,
)
    requires
        st.in_colors,
        !st.seen_bar.has_color(k),
        theme.bar_colors matches Some(bc) && bc.color_of(k) == Some(c),
        line_words(with_newline(line)).len() > 0,
        line_words(with_newline(line))[0] == "}"@,
    ensures
        accepts(st, line, theme),
        contains_text(
            step(st, line, theme).1,
            bar_entry_text(
                leading_whitespace(with_newline(line)) + leading_whitespace(with_newline(line)),
                k,
                c,
            ),
        ),
        ends_with(step(st, line, theme).1, with_newline(line)),
        !step(st, line, theme).0.in_colors,
{
    reveal_strlit("}");
    let l = with_newline(line);
    let lead = leading_whitespace(l);
    let p = lead + lead;
    let bc = theme.bar_colors.unwrap();
    let seen = st.seen_bar;
    let u1 = crate::format::unless_seen(seen.separator, crate::format::bar_entry(p, BarColor::Separator, bc.separator));
    let u2 = crate::format::unless_seen(seen.background, crate::format::bar_entry(p, BarColor::Background, bc.background));
    let u3 = crate::format::unless_seen(seen.statusline, crate::format::bar_entry(p, BarColor::Statusline, bc.statusline));
    let u4 = crate::format::unless_seen(seen.focused_workspace, crate::format::group_entry(p, WorkspaceColor::FocusedWorkspace, bc.focused_workspace));
    let u5 = crate::format::unless_seen(seen.active_workspace, crate::format::group_entry(p, WorkspaceColor::ActiveWorkspace, bc.active_workspace));
    let u6 = crate::format::unless_seen(seen.inactive_workspace, crate::format::group_entry(p, WorkspaceColor::InactiveWorkspace, bc.inactive_workspace));
    let u7 = crate::format::unless_seen(seen.urgent_workspace, crate::format::group_entry(p, WorkspaceColor::UrgentWorkspace, bc.urgent_workspace));
    let x = bar_entry_text(p, k, c);
    assert(step(st, line, theme).1 == u1 + u2 + u3 + u4 + u5 + u6 + u7 + l);
    lemma_contains_piece(u1, u2, u3, u4, u5, u6, u7, l, x);
    lemma_ends_with(u1 + u2 + u3 + u4 + u5 + u6 + u7, l);
}

/// Closing a `colors { }` block that held no line for the workspace entry
/// `k`, with a theme that sets its border, background and text, writes the
/// entry's line, indented twice by the closing line's indentation, before
/// the closing line.
pub proof fn law_closing_colors_adds_workspace_entry(
    st: ConfigWriter,
    line: Seq<char>,
    theme: Theme,
    k: WorkspaceColor,
    g: ColorGroup,
)
    requires
        st.in_colors,
        !st.seen_bar.has_group(k),
        theme.bar_colors matches Some(bc) && bc.group_of(k) == Some(g),
        group_complete(g),
        line_words(with_newline(line)).len() > 0,
        line_words(with_newline(line))[0] == "}"@,
    ensures
        contains_text(
            step(st, line, theme).1,
            workspace_entry_text(
                leading_whitespace(with_newline(line)) + leading_whitespace(with_newline(line)),
                k,
                g,
            ),
        ),
        ends_with(step(st, line, theme).1, with_newline(line)),
{
    reveal_strlit("}");
    let l = with_newline(line);
    let lead = leading_whitespace(l);
    let p = lead + lead;
    let bc = theme.bar_colors.unwrap();
    let seen = st.seen_bar;
    let u1 = crate::format::unless_seen(seen.separator, crate::format::bar_entry(p, BarColor::Separator, bc.separator));
    let u2 = crate::format::unless_seen(seen.background, crate::format::bar_entry(p, BarColor::Background, bc.background));
    let u3 = crate::format::unless_seen(seen.statusline, crate::format::bar_entry(p, BarColor::Statusline, bc.statusline));
    let u4 = crate::format::unless_seen(seen.focused_workspace, crate::format::group_entry(p, WorkspaceColor::FocusedWorkspace, bc.focused_workspace));
    let u5 = crate::format::unless_seen(seen.active_workspace, crate::format::group_entry(p, WorkspaceColor::ActiveWorkspace, bc.active_workspace));
    let u6 = crate::format::unless_seen(seen.inactive_workspace, crate::format::group_entry(p, WorkspaceColor::InactiveWorkspace, bc.inactive_workspace));
    let u7 = crate::format::unless_seen(seen.urgent_workspace, crate::format::group_entry(p, WorkspaceColor::UrgentWorkspace, bc.urgent_workspace));
    let x = workspace_entry_text(p, k, g);
    assert(step(st, line, theme).1 == u1 + u2 + u3 + u4 + u5 + u6 + u7 + l);
    assert(crate::format::group_entry(p, k, Some(g)) =~= x);
    lemma_contains_piece(u1, u2, u3, u4, u5, u6, u7, l, x);
    lemma_ends_with(u1 + u2 + u3 + u4 + u5 + u6 + u7, l);
}

/// The `colors { }` block added at the closing brace of a bar block that
/// has none starts with `  colors {`, ends with `  }` followed by the closing
/// line, and holds, indented by four spaces, the line of every single-colour
/// entry the theme sets and of every workspace entry whose border,
/// background and text the theme sets.
pub proof fn law_added_colors_block_contents(st: ConfigWriter, line: Seq<char>, theme: Theme)
    requires
        st.in_bar,
        !st.in_colors,
        !st.colors_found,
        theme.bar_colors is Some,
        line_words(with_newline(line)).len() > 0,
        line_words(with_newline(line))[0] == "}"@,
    ensures
        starts_with(step(st, line, theme).1, "  colors {\n"@),
        ends_with(step(st, line, theme).1, "  }\n"@ + with_newline(line)),
        forall|k: BarColor, c: String|
            theme.bar_colors.unwrap().color_of(k) == Some(c) ==> contains_text(
                step(st, line, theme).1,
                #[trigger] bar_entry_text("    "@, k, c),
            ),
        forall|k: WorkspaceColor, g: ColorGroup|
            theme.bar_colors.unwrap().group_of(k) == Some(g) && group_complete(g)
                ==> contains_text(step(st, line, theme).1, #[trigger] workspace_entry_text("    "@, k, g)),
{
    reveal_strlit("}");
    let l = with_newline(line);
    let p = "    "@;
    let bc = theme.bar_colors.unwrap();
    let seen = SeenBarColors::none_seen();
    let u1 = crate::format::unless_seen(seen.separator, crate::format::bar_entry(p, BarColor::Separator, bc.separator));
    let u2 = crate::format::unless_seen(seen.background, crate::format::bar_entry(p, BarColor::Background, bc.background));
    let u3 = crate::format::unless_seen(seen.statusline, crate::format::bar_entry(p, BarColor::Statusline, bc.statusline));
    let u4 = crate::format::unless_seen(seen.focused_workspace, crate::format::group_entry(p, WorkspaceColor::FocusedWorkspace, bc.focused_workspace));
    let u5 = crate::format::unless_seen(seen.active_workspace, crate::format::group_entry(p, WorkspaceColor::ActiveWorkspace, bc.active_workspace));
    let u6 = crate::format::unless_seen(seen.inactive_workspace, crate::format::group_entry(p, WorkspaceColor::InactiveWorkspace, bc.inactive_workspace));
    let u7 = crate::format::unless_seen(seen.urgent_workspace, crate::format::group_entry(p, WorkspaceColor::UrgentWorkspace, bc.urgent_workspace));
    let head = "  colors {\n"@;
    let close = "  }\n"@;
    let out = step(st, line, theme).1;
    assert(out == head + (u1 + u2 + u3 + u4 + u5 + u6 + u7) + close + l);
    assert(out =~= head + (u1 + u2 + u3 + u4 + u5 + u6 + u7 + (close + l)));
    lemma_starts_with(head, u1 + u2 + u3 + u4 + u5 + u6 + u7 + (close + l));
    lemma_ends_with(head + (u1 + u2 + u3 + u4 + u5 + u6 + u7), close + l);
    assert(out =~= head + (u1 + u2 + u3 + u4 + u5 + u6 + u7) + (close + l));
    assert forall|k: BarColor, c: String|
        bc.color_of(k) == Some(c) implies contains_text(out, #[trigger] bar_entry_text(p, k, c)) by {
        let x = bar_entry_text(p, k, c);
        lemma_contains_piece(u1, u2, u3, u4, u5, u6, u7, close + l, x);
        lemma_contains_left(head, u1 + u2 + u3 + u4 + u5 + u6 + u7 + (close + l), x);
    }
    assert forall|k: WorkspaceColor, g: ColorGroup|
        bc.group_of(k) == Some(g) && group_complete(g) implies contains_text(
        out,
        #[trigger] workspace_entry_text(p, k, g),
    ) by {
        let x = workspace_entry_text(p, k, g);
        assert(crate::format::group_entry(p, k, Some(g)) =~= x);
        lemma_contains_piece(u1, u2, u3, u4, u5, u6, u7, close + l, x);
        lemma_contains_left(head, u1 + u2 + u3 + u4 + u5 + u6 + u7 + (close + l), x);
    }
}

/// Inside a `colors { }` block, a single-colour entry `k` is written with
/// the theme's colour where the theme sets one, whatever colour the line
/// holds, and with the line's own colour word otherwise; the entry is then
/// remembered.
pub proof fn law_colors_entry_recoloured(
    st: ConfigWriter,
    line: Seq<char>,
    theme: Theme,
    k: BarColor,
)
    requires
        st.in_colors,
        theme.bar_colors is Some,
        line_words(with_newline(line)).len() > 1,
        line_words(with_newline(line))[0] == k.name_of(),
    ensures
        accepts(st, line, theme),
        step(st, line, theme).0.seen_bar.has_color(k),
        step(st, line, theme).1 == leading_whitespace(with_newline(line)) + k.name_of() + " "@ + (
        match theme.bar_colors.unwrap().color_of(k) {
            Some(c) => c@,
            None => line_words(with_newline(line))[1],
        }) + "\n"@,
{
    reveal_strlit("}");
    reveal_strlit("separator");
    reveal_strlit("background");
    reveal_strlit("statusline");
    law_bar_names_parse(k);
    assert(k.name_of()[0] != '}');
    assert(k.name_of()[0] != '#');
}

/// A `client.*` line of at least five words is rewritten as its keyword and
/// four colours: for each of border, background, text and indicator the
/// theme's colour, or else the line's own second, third, fourth or fifth
/// word. In particular the line's indicator stays where the theme sets none,
/// whatever it sets for the text.
pub proof fn law_client_line_five_words(
    st: ConfigWriter,
    line: Seq<char>,
    theme: Theme,
    k: ClientColor,
    g: ColorGroup,
)
    requires
        !st.in_colors,
        theme.window_colors matches Some(wc) && wc.group_of(k) == Some(g),
        line_words(with_newline(line)).len() >= 5,
        line_words(with_newline(line))[0] == k.name_of(),
    ensures
        accepts(st, line, theme),
        ({
            let w = line_words(with_newline(line));
            step(st, line, theme).1 == leading_whitespace(with_newline(line)) + k.name_of() + " "@
                + color_or(g.border, w[1]) + " "@ + color_or(g.background, w[2]) + " "@ + color_or(
                g.text,
                w[3],
            ) + " "@ + color_or(g.indicator, w[4]) + "\n"@
        }),
{
    reveal_strlit("client.focused");
    reveal_strlit("client.unfocused");
    reveal_strlit("client.focused_inactive");
    reveal_strlit("client.urgent");
    reveal_strlit("}");
    reveal_strlit("bar");
    reveal_strlit("colors");
    law_client_names_parse(k);
    assert(k.name_of()[0] == 'c');
    assert(k.name_of()[1] == 'l');
    assert("colors"@[1] == 'o');
    let w = line_words(with_newline(line));
    let lead = leading_whitespace(with_newline(line));
    let a = lead + k.name_of() + " "@ + color_or(g.border, w[1]) + " "@ + color_or(g.background, w[2])
        + " "@;
    assert(step(st, line, theme).1 == a + (color_or(g.text, w[3]) + " "@ + color_or(
        g.indicator,
        w[4],
    )) + "\n"@);
    assert(a + (color_or(g.text, w[3]) + " "@ + color_or(g.indicator, w[4])) =~= a + color_or(
        g.text,
        w[3],
    ) + " "@ + color_or(g.indicator, w[4]));
}

} // verus!
