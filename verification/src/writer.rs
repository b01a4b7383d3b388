//! Applying a theme to a configuration, one line at a time.
//!
//! A `ConfigWriter` reads the lines of a configuration in order. Each line
//! is either copied, rewritten with the theme's colours, dropped, or (at the
//! end of a bar's `colors { }` block or of a `bar { }` block) preceded by the
//! colour entries the block lacked. After the last line, `finish` gives the
//! `client.*` lines for the window classes the configuration never set.
use vstd::prelude::*;
use crate::format::{
    bar_color_line, client_line, client_line_complete, colors_block, missing_bar_entries,
    new_client_line, push_bar_color_line, push_client_line, push_colors_block,
    push_missing_bar_entries, push_new_client_line, push_workspace_line, unless_seen,
    workspace_line, workspace_line_complete, SeenBarColors, SeenClientColors,
};
use crate::text::{
    leading_count, leading_whitespace, lemma_lead_len_bound, line_words, str_eq, views,
    words_of,
};
use crate::theme::{BarColor, BarColors, ClientColor, Theme, WindowColors, WorkspaceColor};

verus! {

/// Where the reading of a configuration stands.
#[derive(Clone, Copy, Debug, PartialEq, Eq)]
pub struct ConfigWriter {
    /// Inside a `bar { }` block.
    pub in_bar: bool,
    /// Inside the `colors { }` block of a bar.
    pub in_colors: bool,
    /// The current bar block has a `colors { }` block.
    pub colors_found: bool,
    /// The entries met so far in the current `colors { }` block.
    pub seen_bar: SeenBarColors,
    /// The `client.*` directives met so far.
    pub seen_clients: SeenClientColors,
}

/// A line as the configuration holds it: the text and its newline.
pub open spec fn with_newline(line: Seq<char>) -> Seq<char> {
    line + "\n"@
}

/// A word that starts a comment.
pub open spec fn is_comment(word: Seq<char>) -> bool {
    word.len() > 0 && word[0] == '#'
}

/// A line that holds a directive: it has a word, and the first word does not
/// start a comment.
pub open spec fn is_directive(words: Seq<Seq<char>>) -> bool {
    words.len() > 0 && !is_comment(words[0])
}

impl ConfigWriter {
    /// The state before the first line.
    pub open spec fn initial() -> ConfigWriter {
        ConfigWriter {
            in_bar: false,
            in_colors: false,
            colors_found: false,
            seen_bar: SeenBarColors::none_seen(),
            seen_clients: SeenClientColors::none_seen(),
        }
    }

    /// The states that reading a configuration can reach: a `colors { }`
    /// block lies inside a bar block, and entries are only remembered while
    /// a `colors { }` block is open.
    pub open spec fn wf(self) -> bool {
        &&& self.in_colors ==> self.colors_found
        &&& self.colors_found ==> self.in_bar
        &&& !self.in_colors ==> self.seen_bar == SeenBarColors::none_seen()
    }

    /// A writer that has read nothing yet.
    pub fn new() -> (w: ConfigWriter)
        ensures
            w == ConfigWriter::initial(),
    {
        ConfigWriter {
            in_bar: false,
            in_colors: false,
            colors_found: false,
            seen_bar: SeenBarColors::new(),
            seen_clients: SeenClientColors::new(),
        }
    }
}

/// Reading a line inside a `colors { }` block: a separator, background or
/// statusline entry, or a workspace entry, is rewritten with the theme's
/// colours and remembered; any other line is dropped. Without bar colours in
/// the theme the line is copied.
pub open spec fn colors_entry_step(
    st: ConfigWriter,
    lead: Seq<char>,
    words: Seq<Seq<char>>,
    l: Seq<char>,
    theme: Theme,
) -> (ConfigWriter, Seq<char>) {
    match theme.bar_colors {
        None => (st, l),
        Some(bc) => match BarColor::parse_of(words[0]) {
            Some(k) => (
                ConfigWriter { seen_bar: st.seen_bar.with_color(k), ..st },
                bar_color_line(lead, k, bc.color_of(k), words),
            ),
            None => match WorkspaceColor::parse_of(words[0]) {
                Some(k) => (
                    ConfigWriter { seen_bar: st.seen_bar.with_group(k), ..st },
                    match bc.group_of(k) {
                        Some(g) => workspace_line(lead, k, g, words),
                        None => l,
                    },
                ),
                None => (st, Seq::empty()),
            },
        },
    }
}

/// Reading a `client.*` line: it is rewritten with the theme's colours for
/// that window class, if the theme has them, and remembered.
pub open spec fn client_step(
    st: ConfigWriter,
    k: ClientColor,
    lead: Seq<char>,
    words: Seq<Seq<char>>,
    l: Seq<char>,
    theme: Theme,
) -> (ConfigWriter, Seq<char>) {
    (
        ConfigWriter { seen_clients: st.seen_clients.with(k), ..st },
        match theme.window_colors {
            Some(wc) => match wc.group_of(k) {
                Some(g) => client_line(lead, k, g, words),
                None => l,
            },
            None => l,
        },
    )
}

/// The state after reading `line` (without its newline) in state `st`, and
/// what is written for it.
pub open spec fn step(st: ConfigWriter, line: Seq<char>, theme: Theme) -> (ConfigWriter, Seq<char>) {
    let l = with_newline(line);
    let lead = leading_whitespace(l);
    let words = line_words(l);
    if !is_directive(words) {
        (st, l)
    } else if st.in_colors && words[0] == "}"@ {
        (
            ConfigWriter { in_colors: false, seen_bar: SeenBarColors::none_seen(), ..st },
            missing_bar_entries(lead + lead, theme.bar_colors.unwrap(), st.seen_bar) + l,
        )
    } else if st.in_bar && words[0] == "}"@ {
        (
            ConfigWriter { in_bar: false, colors_found: false, ..st },
            unless_seen(st.colors_found, colors_block(theme.bar_colors.unwrap())) + l,
        )
    } else if st.in_colors {
        colors_entry_step(st, lead, words, l, theme)
    } else if words[0] == "bar"@ {
        (ConfigWriter { in_bar: true, ..st }, l)
    } else if st.in_bar && words[0] == "colors"@ {
        (ConfigWriter { in_colors: true, colors_found: true, ..st }, l)
    } else {
        match ClientColor::parse_of(words[0]) {
            Some(k) => client_step(st, k, lead, words, l, theme),
            None => (st, l),
        }
    }
}

/// Whether reading `line` in state `st` completes: a closing brace of a
/// bar or `colors { }` block needs bar colours in the theme, and a rewritten
/// line needs a word for each colour the theme leaves out.
pub open spec fn accepts(st: ConfigWriter, line: Seq<char>, theme: Theme) -> bool {
    let l = with_newline(line);
    let words = line_words(l);
    if !is_directive(words) {
        true
    } else if (st.in_colors || st.in_bar) && words[0] == "}"@ {
        theme.bar_colors is Some
    } else if st.in_colors {
        match theme.bar_colors {
            None => true,
            Some(bc) => match BarColor::parse_of(words[0]) {
                Some(k) => bc.color_of(k) is Some || words.len() > 1,
                None => match WorkspaceColor::parse_of(words[0]) {
                    Some(k) => match bc.group_of(k) {
                        Some(g) => workspace_line_complete(g, words.len()),
                        None => true,
                    },
                    None => true,
                },
            },
        }
    } else if words[0] == "bar"@ || (st.in_bar && words[0] == "colors"@) {
        true
    } else {
        match ClientColor::parse_of(words[0]) {
            Some(k) => match theme.window_colors {
                Some(wc) => match wc.group_of(k) {
                    Some(g) => client_line_complete(g, words.len()),
                    None => true,
                },
                None => true,
            },
            None => true,
        }
    }
}

/// A `client.*` line for window class `k`, unless the configuration set it
/// or the theme has no colours for it.
pub open spec fn missing_client(st: ConfigWriter, theme: Theme, k: ClientColor) -> Seq<char> {
    if st.seen_clients.has(k) {
        Seq::empty()
    } else {
        match theme.window_colors.unwrap().group_of(k) {
            Some(g) => new_client_line(k, g),
            None => Seq::empty(),
        }
    }
}

/// What is written after the last line: the window classes that the
/// configuration never set, in the order focused, focused_inactive,
/// unfocused, urgent.
pub open spec fn trailer(st: ConfigWriter, theme: Theme) -> Seq<char> {
    missing_client(st, theme, ClientColor::Focused) + missing_client(
        st,
        theme,
        ClientColor::FocusedInactive,
    ) + missing_client(st, theme, ClientColor::Unfocused) + missing_client(
        st,
        theme,
        ClientColor::Urgent,
    )
}

/// Whether the end of the configuration can be written: the theme has
/// window colours, or every window class was set.
pub open spec fn accepts_end(st: ConfigWriter, theme: Theme) -> bool {
    theme.window_colors is Some || (st.seen_clients.focused && st.seen_clients.focused_inactive
        && st.seen_clients.unfocused && st.seen_clients.urgent)
}


/// Whether `word` starts a comment.
pub fn is_comment_word(word: &str) -> (b: bool)
    ensures
        b == is_comment(word@),
{
    word.unicode_len() > 0 && word.get_char(0) == '#'
}

/// The leading whitespace and the words of a line.
pub fn split_line(l: &str) -> (r: (&str, Vec<&str>))
    ensures
        r.0@ == leading_whitespace(l@),
        views(r.1@) == line_words(l@),
{
    let n: usize = leading_count(l);
    proof {
        lemma_lead_len_bound(l@);
    }
    let lead: &str = l.substring_char(0, n);
    let words: Vec<&str> = words_of(l);
    (lead, words)
}

impl ConfigWriter {
    /// Whether `write_line` can read `line` in this state.
    pub fn accepts_line(&self, line: &str, theme: &Theme) -> (b: bool)
        ensures
            b == accepts(*self, line@, *theme),
    {
        let mut full: String = String::from_str(line);
        full.append("\n");
        let l: &str = full.as_str();
        let (lead, words) = split_line(l);
        let ghost w = views(words@);
        if words.len() == 0 || is_comment_word(words[0]) {
            return true;
        }
        let first: &str = words[0];
        let n: usize = words.len();
        if (self.in_colors || self.in_bar) && str_eq(first, "}") {
            return theme.bar_colors.is_some();
        }
        if self.in_colors {
            match &theme.bar_colors {
                None => true,
                Some(bc) => match BarColor::parse(first) {
                    Some(k) => bc.color(k).is_some() || n > 1,
                    None => match WorkspaceColor::parse(first) {
                        Some(k) => match bc.group(k) {
                            Some(g) => (g.border.is_some() || n > 1) && (g.background.is_some()
                                || n > 2) && (g.text.is_some() || n > 3),
                            None => true,
                        },
                        None => true,
                    },
                },
            }
        } else if str_eq(first, "bar") || (self.in_bar && str_eq(first, "colors")) {
            true
        } else {
            match ClientColor::parse(first) {
                Some(k) => match &theme.window_colors {
                    Some(wc) => match wc.group(k) {
                        Some(g) => (g.border.is_some() || n > 1) && (g.background.is_some() || n
                            > 2),
                        None => true,
                    },
                    None => true,
                },
                None => true,
            }
        }
    }

    /// Reads one line inside a `colors { }` block.
    fn write_colors_entry(
        &mut self,
        line: &str,
        lead: &str,
        words: &Vec<&str>,
        l: &str,
        theme: &Theme,
    ) -> (out: String)
        requires
            is_directive(views(words@)),
            accepts(*old(self), line@, *theme),
            l@ == with_newline(line@),
            views(words@) == line_words(l@),
            old(self).in_colors,
            !(words@[0]@ == "}"@),
        ensures
            (*final(self), out@) == colors_entry_step(*old(self), lead@, views(words@), l@, *theme),
    {
        let ghost w = views(words@);
        let first: &str = words[0];
        assert(first@ == w[0]);
        assert(w.len() == words.len());
        assert(with_newline(line@) == l@);
        assert(line_words(with_newline(line@)) == w);
        match &theme.bar_colors {
            None => String::from_str(l),
            Some(bc) => match BarColor::parse(first) {
                Some(k) => {
                    self.seen_bar.insert_color(k);
                    let mut out: String = String::new();
                    push_bar_color_line(&mut out, lead, k, bc.color(k), words);
                    assert(out@ =~= bar_color_line(lead@, k, bc.color_of(k), w));
                    out
                },
                None => match WorkspaceColor::parse(first) {
                    Some(k) => {
                        self.seen_bar.insert_group(k);
                        match bc.group(k) {
                            Some(g) => {
                                let mut out: String = String::new();
                                push_workspace_line(&mut out, lead, k, g, words);
                                assert(out@ =~= workspace_line(lead@, k, *g, w));
                                out
                            },
                            None => String::from_str(l),
                        }
                    },
                    None => String::new(),
                },
            },
        }
    }

    /// Reads one `client.*` line.
    fn write_client(&mut self, k: ClientColor, lead: &str, words: &Vec<&str>, l: &str, theme: &Theme) -> (out:
        String)
        requires
            match theme.window_colors {
                Some(wc) => match wc.group_of(k) {
                    Some(g) => client_line_complete(g, words.len() as nat),
                    None => true,
                },
                None => true,
            },
        ensures
            (*final(self), out@) == client_step(*old(self), k, lead@, views(words@), l@, *theme),
    {
        self.seen_clients.insert(k);
        match &theme.window_colors {
            Some(wc) => match wc.group(k) {
                Some(g) => {
                    let mut out: String = String::new();
                    push_client_line(&mut out, lead, k, g, words);
                    assert(out@ =~= client_line(lead@, k, *g, views(words@)));
                    out
                },
                None => String::from_str(l),
            },
            None => String::from_str(l),
        }
    }

    /// Reads `line` (without its newline) and gives what is written for it.
    pub fn write_line(&mut self, line: &str, theme: &Theme) -> (out: String)
        requires
            accepts(*old(self), line@, *theme),
        ensures
            (*final(self), out@) == step(*old(self), line@, *theme),
    {
        let mut full: String = String::from_str(line);
        full.append("\n");
        let l: &str = full.as_str();
        let (lead, words) = split_line(l);
        let ghost w = views(words@);
        if words.len() == 0 || is_comment_word(words[0]) {
            return String::from_str(l);
        }
        let first: &str = words[0];
        assert(first@ == w[0]);
        if self.in_colors && str_eq(first, "}") {
            let bc: &BarColors = theme.bar_colors.as_ref().unwrap();
            let mut prefix: String = String::from_str(lead);
            prefix.append(lead);
            let mut out: String = String::new();
            push_missing_bar_entries(&mut out, prefix.as_str(), bc, &self.seen_bar);
            out.append(l);
            assert(out@ =~= missing_bar_entries(lead@ + lead@, *bc, old(self).seen_bar) + l@);
            self.in_colors = false;
            self.seen_bar = SeenBarColors::new();
            return out;
        }
        if self.in_bar && str_eq(first, "}") {
            let bc: &BarColors = theme.bar_colors.as_ref().unwrap();
            let mut out: String = String::new();
            if !self.colors_found {
                push_colors_block(&mut out, bc);
            }
            out.append(l);
            assert(out@ =~= unless_seen(old(self).colors_found, colors_block(*bc)) + l@);
            self.colors_found = false;
            self.in_bar = false;
            return out;
        }
        if self.in_colors {
            return self.write_colors_entry(line, lead, &words, l, theme);
        }
        if str_eq(first, "bar") {
            self.in_bar = true;
            return String::from_str(l);
        }
        if self.in_bar && str_eq(first, "colors") {
            self.in_colors = true;
            self.colors_found = true;
            return String::from_str(l);
        }
        match ClientColor::parse(first) {
            Some(k) => self.write_client(k, lead, &words, l, theme),
            None => String::from_str(l),
        }
    }

    /// Gives the `client.*` lines for window class `k` if it is missing.
    fn write_missing_client(&self, out: &mut String, theme: &Theme, k: ClientColor)
        requires
            self.seen_clients.has(k) || theme.window_colors is Some,
        ensures
            final(out)@ == old(out)@ + missing_client(*self, *theme, k),
    {
        if self.seen_clients.contains(k) {
            assert(out@ =~= out@ + Seq::<char>::empty());
            return;
        }
        let wc: &WindowColors = theme.window_colors.as_ref().unwrap();
        match wc.group(k) {
            Some(g) => push_new_client_line(out, k, g),
            None => {
                assert(out@ =~= out@ + Seq::<char>::empty());
            },
        }
    }

    /// Whether `finish` can write the end of the configuration.
    pub fn accepts_finish(&self, theme: &Theme) -> (b: bool)
        ensures
            b == accepts_end(*self, *theme),
    {
        theme.window_colors.is_some() || (self.seen_clients.focused
            && self.seen_clients.focused_inactive && self.seen_clients.unfocused
            && self.seen_clients.urgent)
    }

    /// What is written after the last line.
    pub fn finish(&self, theme: &Theme) -> (out: String)
        requires
            accepts_end(*self, *theme),
        ensures
            out@ == trailer(*self, *theme),
    {
        let mut out: String = String::new();
        self.write_missing_client(&mut out, theme, ClientColor::Focused);
        self.write_missing_client(&mut out, theme, ClientColor::FocusedInactive);
        self.write_missing_client(&mut out, theme, ClientColor::Unfocused);
        self.write_missing_client(&mut out, theme, ClientColor::Urgent);
        assert(out@ =~= trailer(*self, *theme));
        out
    }
}


/// The views of a sequence of strings.
pub open spec fn string_views(v: Seq<String>) -> Seq<Seq<char>> {
    v.map_values(|s: String| s@)
}

/// The state after reading `lines` from the start, and what was written.
pub open spec fn run(lines: Seq<Seq<char>>, theme: Theme) -> (ConfigWriter, Seq<char>)
    decreases lines.len(),
{
    if lines.len() == 0 {
        (ConfigWriter::initial(), Seq::empty())
    } else {
        let (st, out) = run(lines.drop_last(), theme);
        let (next, written) = step(st, lines.last(), theme);
        (next, out + written)
    }
}

/// Whether every line of `lines` can be read.
pub open spec fn run_accepts(lines: Seq<Seq<char>>, theme: Theme) -> bool
    decreases lines.len(),
{
    if lines.len() == 0 {
        true
    } else {
        run_accepts(lines.drop_last(), theme) && accepts(run(lines.drop_last(), theme).0, lines.last(), theme)
    }
}

/// The configuration `lines` with `theme` applied.
pub open spec fn render(lines: Seq<Seq<char>>, theme: Theme) -> Seq<char> {
    let (st, out) = run(lines, theme);
    out + trailer(st, theme)
}

/// Whether the theme can be applied to the configuration `lines`.
pub open spec fn render_accepts(lines: Seq<Seq<char>>, theme: Theme) -> bool {
    run_accepts(lines, theme) && accepts_end(run(lines, theme).0, theme)
}

/// Whether `render_config` can apply `theme` to `lines`.
pub fn can_render(lines: &Vec<String>, theme: &Theme) -> (b: bool)
    ensures
        b == render_accepts(string_views(lines@), *theme),
{
    let ghost v = string_views(lines@);
    let mut w: ConfigWriter = ConfigWriter::new();
    let mut i: usize = 0;
    while i < lines.len()
        invariant
            v == string_views(lines@),
            i <= lines.len(),
            run_accepts(v.take(i as int), *theme),
            w == run(v.take(i as int), *theme).0,
        decreases lines.len() - i,
    {
        assert(v.take(i + 1).drop_last() =~= v.take(i as int));
        assert(v.take(i + 1).last() == lines@[i as int]@);
        if !w.accepts_line(lines[i].as_str(), theme) {
            proof {
                if run_accepts(v, *theme) {
                    lemma_run_accepts_prefix(v, *theme, i + 1);
                }
            }
            return false;
        }
        let _: String = w.write_line(lines[i].as_str(), theme);
        i = i + 1;
    }
    assert(v.take(i as int) =~= v);
    w.accepts_finish(theme)
}

/// If every line of a configuration can be read, so can every line of each
/// of its prefixes.
pub proof fn lemma_run_accepts_prefix(lines: Seq<Seq<char>>, theme: Theme, n: int)
    requires
        0 <= n <= lines.len(),
        run_accepts(lines, theme),
    ensures
        run_accepts(lines.take(n), theme),
    decreases lines.len() - n,
{
    if n == lines.len() {
        assert(lines.take(n) =~= lines);
    } else {
        assert(lines.drop_last().take(n) =~= lines.take(n));
        lemma_run_accepts_prefix(lines.drop_last(), theme, n);
    }
}

/// Applies `theme` to the configuration whose lines (without their newlines)
/// are `lines`.
pub fn render_config(lines: &Vec<String>, theme: &Theme) -> (out: String)
    requires
        render_accepts(string_views(lines@), *theme),
    ensures
        out@ == render(string_views(lines@), *theme),
{
    let ghost v = string_views(lines@);
    let mut w: ConfigWriter = ConfigWriter::new();
    let mut out: String = String::new();
    let mut i: usize = 0;
    while i < lines.len()
        invariant
            v == string_views(lines@),
            i <= lines.len(),
            render_accepts(v, *theme),
            (w, out@) == run(v.take(i as int), *theme),
        decreases lines.len() - i,
    {
        assert(v.take(i + 1).drop_last() =~= v.take(i as int));
        assert(v.take(i + 1).last() == lines@[i as int]@);
        proof {
            lemma_run_accepts_prefix(v, *theme, i + 1);
        }
        let written: String = w.write_line(lines[i].as_str(), theme);
        out.append(written.as_str());
        i = i + 1;
    }
    assert(v.take(i as int) =~= v);
    let end: String = w.finish(theme);
    out.append(end.as_str());
    out
}

} // verus!
