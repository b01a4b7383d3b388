use i3_style::text::{is_whitespace, leading_spaces, str_eq, words_of};
use i3_style::theme::{
    BarColor, BarColors, ClientColor, ColorGroup, Theme, WindowColors, WorkspaceColor,
};
use i3_style::writer::{can_render, render_config, ConfigWriter};

fn s(x: &str) -> Option<String> {
    Some(x.to_string())
}

fn group(b: Option<String>, bg: Option<String>, t: Option<String>, i: Option<String>) -> ColorGroup {
    ColorGroup { border: b, background: bg, text: t, indicator: i }
}

fn sample_theme() -> Theme {
    Theme {
        description: s("a test theme"),
        window_colors: Some(WindowColors {
            focused: Some(group(s("#111111"), s("#222222"), s("#333333"), s("#444444"))),
            focused_inactive: Some(group(s("#888888"), None, None, None)),
            unfocused: Some(group(s("#555555"), s("#666666"), s("#777777"), None)),
            urgent: None,
        }),
        bar_colors: Some(BarColors {
            separator: s("#121212"),
            background: s("#343434"),
            statusline: None,
            focused_workspace: Some(group(s("#f1"), s("#f2"), s("#f3"), None)),
            active_workspace: Some(group(s("#a1"), s("#a2"), s("#a3"), s("#a4"))),
            inactive_workspace: None,
            urgent_workspace: Some(group(s("#u1"), None, s("#u3"), None)),
        }),
    }
}

fn lines_of(text: &str) -> Vec<String> {
    text.lines().map(|l| l.to_string()).collect()
}

#[test]
fn whitespace_matches_std() {
    for code in 0u32..=0x10FFFF {
        if let Some(c) = char::from_u32(code) {
            assert_eq!(is_whitespace(c), c.is_whitespace(), "{:x}", code);
        }
    }
}

#[test]
fn leading_spaces_cases() {
    assert_eq!(leading_spaces(&"  \tfoo bar".to_string()), "  \t");
    assert_eq!(leading_spaces(&"".to_string()), "");
    assert_eq!(leading_spaces(&"   ".to_string()), "   ");
    assert_eq!(leading_spaces(&"\u{3000}x".to_string()), "\u{3000}");
    assert_eq!(leading_spaces(&"bar {\n".to_string()), "");
    assert_eq!(leading_spaces(&"\n".to_string()), "\n");
}

#[test]
fn words_are_trimmed_and_split_at_spaces() {
    assert_eq!(words_of("  client.focused  #a  #b\t\n"), vec!["client.focused", "#a", "#b"]);
    assert_eq!(words_of("a\tb c"), vec!["a\tb", "c"]);
    assert_eq!(words_of(" \t\n"), Vec::<&str>::new());
    assert_eq!(words_of(""), Vec::<&str>::new());
    assert_eq!(words_of("x"), vec!["x"]);
}

#[test]
fn str_eq_cases() {
    assert!(str_eq("bar", "bar"));
    assert!(!str_eq("bar", "baz"));
    assert!(!str_eq("bar", "ba"));
    assert!(str_eq("", ""));
}

#[test]
fn keywords_parse() {
    assert_eq!(BarColor::parse("separator"), Some(BarColor::Separator));
    assert_eq!(BarColor::parse("statusline"), Some(BarColor::Statusline));
    assert_eq!(BarColor::parse("separators"), None);
    assert_eq!(WorkspaceColor::parse("urgent_workspace"), Some(WorkspaceColor::UrgentWorkspace));
    assert_eq!(ClientColor::parse("client.focused_inactive"), Some(ClientColor::FocusedInactive));
    assert_eq!(ClientColor::parse("client.placeholder"), None);
    assert_eq!(ClientColor::Urgent.name(), "client.urgent");
}

#[test]
fn full_config_is_themed() {
    let config = [
        "# i3 config\n",
        "client.focused #000000 #000000 #ffffff #000000\n",
        "  client.unfocused #1 #2 #3\n",
        "bar {\n",
        "  status_command i3status\n",
        "  colors {\n",
        "    separator #999999\n",
        "    focused_workspace #a #b #c\n",
        "    binding_mode #x #y #z\n",
        "  }\n",
        "}\n",
    ]
    .concat();
    let expected = [
        "# i3 config\n",
        "client.focused #111111 #222222 #333333 #444444\n",
        "  client.unfocused #555555 #666666 #777777 \n",
        "bar {\n",
        "  status_command i3status\n",
        "  colors {\n",
        "    separator #121212\n",
        "    focused_workspace #f1 #f2 #f3 #c\n",
        "    background #343434\n",
        "    active_workspace #a1 #a2 #a3  #a4\n",
        "  }\n",
        "}\n",
        "client.focused_inactive #888888 #000000 #000000\n",
    ]
    .concat();
    let theme = sample_theme();
    let lines = lines_of(&config);
    assert!(can_render(&lines, &theme));
    assert_eq!(render_config(&lines, &theme), expected.as_str());
}

#[test]
fn bar_without_colors_gets_a_colors_block() {
    let config = "bar {\n\tstatus_command i3status\n}\n";
    let expected = [
        "bar {\n",
        "\tstatus_command i3status\n",
        "  colors {\n",
        "    separator #121212\n",
        "    background #343434\n",
        "    focused_workspace #f1 #f2 #f3 \n",
        "    active_workspace #a1 #a2 #a3  #a4\n",
        "  }\n",
        "}\n",
        "client.focused #111111 #222222 #333333 #444444\n",
        "client.focused_inactive #888888 #000000 #000000\n",
        "client.unfocused #555555 #666666 #777777\n",
    ]
    .concat();
    let theme = sample_theme();
    let lines = lines_of(&config);
    assert!(can_render(&lines, &theme));
    assert_eq!(render_config(&lines, &theme), expected.as_str());
}

#[test]
fn empty_config_gets_the_window_classes() {
    let theme = sample_theme();
    let lines: Vec<String> = Vec::new();
    assert!(can_render(&lines, &theme));
    assert_eq!(
        render_config(&lines, &theme),
        [
        "client.focused #111111 #222222 #333333 #444444\n",
        "client.focused_inactive #888888 #000000 #000000\n",
        "client.unfocused #555555 #666666 #777777\n",
    ]
    .concat()
    );
}

#[test]
fn plain_config_is_copied() {
    let theme = sample_theme();
    let config = "set $mod Mod4\n\n   # comment\nfont pango:monospace 8\n\tbindsym $mod+Return exec i3-sensible-terminal\n";
    let lines = lines_of(&config);
    let out = render_config(&lines, &theme);
    assert!(out.starts_with(config));
    assert_eq!(
        &out[config.len()..],
        [
        "client.focused #111111 #222222 #333333 #444444\n",
        "client.focused_inactive #888888 #000000 #000000\n",
        "client.unfocused #555555 #666666 #777777\n",
    ]
    .concat()
    );
}

#[test]
fn comment_line_is_copied_and_changes_nothing() {
    let theme = sample_theme();
    let mut w = ConfigWriter::new();
    let before = w;
    assert!(w.accepts_line("   # client.focused #1 #2 #3", &theme));
    assert_eq!(w.write_line("   # client.focused #1 #2 #3", &theme), "   # client.focused #1 #2 #3\n");
    assert_eq!(w, before);
    assert_eq!(w.write_line(" \t ", &theme), " \t \n");
    assert_eq!(w, before);
}

#[test]
fn full_client_group_replaces_line_colours() {
    let theme = sample_theme();
    let mut w = ConfigWriter::new();
    assert_eq!(
        w.write_line("\tclient.focused #0 #0", &theme),
        "\tclient.focused #111111 #222222 #333333 #444444\n"
    );
    assert!(w.seen_clients.focused);
    assert_eq!(
        w.write_line("  client.focused", &theme),
        "  client.focused #111111 #222222 #333333 #444444\n"
    );
}

#[test]
fn client_line_keeps_colours_the_theme_lacks() {
    let theme = sample_theme();
    let mut w = ConfigWriter::new();
    assert_eq!(
        w.write_line("client.focused_inactive #1 #2 #3 #4", &theme),
        "client.focused_inactive #888888 #2 #3 #4\n"
    );
    assert_eq!(
        w.write_line("client.focused_inactive #1 #2", &theme),
        "client.focused_inactive #888888 #2 \n"
    );
    // no colours for urgent windows: the line is copied
    assert_eq!(w.write_line("client.urgent #1 #2 #3", &theme), "client.urgent #1 #2 #3\n");
    assert!(w.seen_clients.urgent);
}

#[test]
fn unknown_colors_entries_are_dropped() {
    let theme = sample_theme();
    let mut w = ConfigWriter::new();
    w.write_line("bar {", &theme);
    w.write_line("colors {", &theme);
    assert!(w.in_colors && w.in_bar && w.colors_found);
    assert_eq!(w.write_line("  binding_mode #1 #2 #3", &theme), "");
    assert_eq!(w.write_line("  statusline #ffffff", &theme), "  statusline #ffffff\n");
    assert_eq!(w.write_line("  inactive_workspace #1 #2 #3", &theme), "  inactive_workspace #1 #2 #3\n");
    assert!(w.seen_bar.statusline && w.seen_bar.inactive_workspace);
}

#[test]
fn closing_colors_block_adds_missing_entries_with_double_indent() {
    let theme = sample_theme();
    let mut w = ConfigWriter::new();
    w.write_line("bar {", &theme);
    w.write_line("  colors {", &theme);
    w.write_line("    background #000000", &theme);
    assert_eq!(
        w.write_line("  }", &theme),
        "    separator #121212\n    focused_workspace #f1 #f2 #f3 \n    active_workspace #a1 #a2 #a3  #a4\n  }\n"
    );
    assert!(!w.in_colors && w.in_bar && w.colors_found);
    assert_eq!(w.write_line("}", &theme), "}\n");
    assert_eq!(w, ConfigWriter::new());
}

#[test]
fn refused_inputs() {
    let theme = sample_theme();
    // a bar block needs bar colours in the theme
    let mut no_bar = sample_theme();
    no_bar.bar_colors = None;
    let lines = lines_of("bar {\n}\n");
    assert!(!can_render(&lines, &no_bar));
    assert!(can_render(&lines, &theme));
    // a missing window class needs window colours in the theme
    let mut no_windows = sample_theme();
    no_windows.window_colors = None;
    assert!(!can_render(&lines_of("client.focused #1 #2 #3\n"), &no_windows));
    let all = lines_of(
        "client.focused #1 #2 #3\nclient.unfocused #1 #2\nclient.focused_inactive #1 #2\nclient.urgent #1 #2\n",
    );
    assert!(can_render(&all, &no_windows));
    assert_eq!(
        render_config(&all, &no_windows),
        "client.focused #1 #2 #3\nclient.unfocused #1 #2\nclient.focused_inactive #1 #2\nclient.urgent #1 #2\n"
    );
    // a client line needs a word for each colour the theme leaves out
    let w = ConfigWriter::new();
    assert!(!w.accepts_line("client.focused_inactive #1", &theme));
    assert!(w.accepts_line("client.focused_inactive #1 #2", &theme));
    // a workspace line needs a word for each colour the theme leaves out
    let mut w = ConfigWriter::new();
    w.write_line("bar {", &theme);
    w.write_line("colors {", &theme);
    assert!(!w.accepts_line("urgent_workspace #1", &theme));
    assert!(w.accepts_line("urgent_workspace #1 #2 #3", &theme));
    assert_eq!(w.write_line("urgent_workspace #1 #2 #3", &theme), "urgent_workspace #u1 #2 #u3 #3\n");
    // a single-colour entry the theme does not set needs its colour word
    assert!(!w.accepts_line("statusline", &theme));
    assert!(w.accepts_finish(&theme));
    assert!(!w.accepts_finish(&no_windows));
}
