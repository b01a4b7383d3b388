//! The colour theme that is applied to a configuration: window colours for
//! the `client.*` directives and bar colours for the `colors { }` block of a
//! `bar { }` block. Every colour is optional; a missing one keeps the colour
//! that the configuration already has.
use vstd::prelude::*;

verus! {

/// The colours of one class of windows or workspace buttons.
#[derive(Clone, Debug)]
pub struct ColorGroup {
    pub border: Option<String>,
    pub background: Option<String>,
    pub text: Option<String>,
    pub indicator: Option<String>,
}

/// Colours of the `client.*` window classes.
#[derive(Clone, Debug)]
pub struct WindowColors {
    pub focused: Option<ColorGroup>,
    pub focused_inactive: Option<ColorGroup>,
    pub unfocused: Option<ColorGroup>,
    pub urgent: Option<ColorGroup>,
}

/// Colours of the `colors { }` block inside a `bar { }` block.
#[derive(Clone, Debug)]
pub struct BarColors {
    pub separator: Option<String>,
    pub background: Option<String>,
    pub statusline: Option<String>,
    pub focused_workspace: Option<ColorGroup>,
    pub active_workspace: Option<ColorGroup>,
    pub inactive_workspace: Option<ColorGroup>,
    pub urgent_workspace: Option<ColorGroup>,
}

/// A colour theme.
#[derive(Clone, Debug)]
pub struct Theme {
    pub description: Option<String>,
    pub window_colors: Option<WindowColors>,
    pub bar_colors: Option<BarColors>,
}

/// The single-colour entries of a bar's `colors { }` block.
#[derive(Clone, Copy, Debug, PartialEq, Eq)]
pub enum BarColor {
    Separator,
    Background,
    Statusline,
}

/// The workspace-button entries of a bar's `colors { }` block.
#[derive(Clone, Copy, Debug, PartialEq, Eq)]
pub enum WorkspaceColor {
    FocusedWorkspace,
    ActiveWorkspace,
    InactiveWorkspace,
    UrgentWorkspace,
}

/// The `client.*` window classes.
#[derive(Clone, Copy, Debug, PartialEq, Eq)]
pub enum ClientColor {
    Focused,
    FocusedInactive,
    Unfocused,
    Urgent,
}

impl BarColor {
    /// The keyword of this entry in a configuration file.
    pub open spec fn name_of(self) -> Seq<char> {
        match self {
            BarColor::Separator => "separator"@,
            BarColor::Background => "background"@,
            BarColor::Statusline => "statusline"@,
        }
    }

    /// The entry that `word` names, if any.
    pub open spec fn parse_of(word: Seq<char>) -> Option<BarColor> {
        if word == "separator"@ {
            Some(BarColor::Separator)
        } else if word == "background"@ {
            Some(BarColor::Background)
        } else if word == "statusline"@ {
            Some(BarColor::Statusline)
        } else {
            None
        }
    }

    pub fn name(self) -> (s: &'static str)
        ensures
            s@ == self.name_of(),
    {
        match self {
            BarColor::Separator => "separator",
            BarColor::Background => "background",
            BarColor::Statusline => "statusline",
        }
    }

    pub fn parse(word: &str) -> (k: Option<BarColor>)
        ensures
            k == BarColor::parse_of(word@),
    {
        if crate::text::str_eq(word, "separator") {
            Some(BarColor::Separator)
        } else if crate::text::str_eq(word, "background") {
            Some(BarColor::Background)
        } else if crate::text::str_eq(word, "statusline") {
            Some(BarColor::Statusline)
        } else {
            None
        }
    }
}

impl WorkspaceColor {
    /// The keyword of this entry in a configuration file.
    pub open spec fn name_of(self) -> Seq<char> {
        match self {
            WorkspaceColor::FocusedWorkspace => "focused_workspace"@,
            WorkspaceColor::ActiveWorkspace => "active_workspace"@,
            WorkspaceColor::InactiveWorkspace => "inactive_workspace"@,
            WorkspaceColor::UrgentWorkspace => "urgent_workspace"@,
        }
    }

    /// The entry that `word` names, if any.
    pub open spec fn parse_of(word: Seq<char>) -> Option<WorkspaceColor> {
        if word == "focused_workspace"@ {
            Some(WorkspaceColor::FocusedWorkspace)
        } else if word == "active_workspace"@ {
            Some(WorkspaceColor::ActiveWorkspace)
        } else if word == "inactive_workspace"@ {
            Some(WorkspaceColor::InactiveWorkspace)
        } else if word == "urgent_workspace"@ {
            Some(WorkspaceColor::UrgentWorkspace)
        } else {
            None
        }
    }

    pub fn name(self) -> (s: &'static str)
        ensures
            s@ == self.name_of(),
    {
        match self {
            WorkspaceColor::FocusedWorkspace => "focused_workspace",
            WorkspaceColor::ActiveWorkspace => "active_workspace",
            WorkspaceColor::InactiveWorkspace => "inactive_workspace",
            WorkspaceColor::UrgentWorkspace => "urgent_workspace",
        }
    }

    pub fn parse(word: &str) -> (k: Option<WorkspaceColor>)
        ensures
            k == WorkspaceColor::parse_of(word@),
    {
        if crate::text::str_eq(word, "focused_workspace") {
            Some(WorkspaceColor::FocusedWorkspace)
        } else if crate::text::str_eq(word, "active_workspace") {
            Some(WorkspaceColor::ActiveWorkspace)
        } else if crate::text::str_eq(word, "inactive_workspace") {
            Some(WorkspaceColor::InactiveWorkspace)
        } else if crate::text::str_eq(word, "urgent_workspace") {
            Some(WorkspaceColor::UrgentWorkspace)
        } else {
            None
        }
    }
}

impl ClientColor {
    /// The directive of this window class in a configuration file.
    pub open spec fn name_of(self) -> Seq<char> {
        match self {
            ClientColor::Focused => "client.focused"@,
            ClientColor::FocusedInactive => "client.focused_inactive"@,
            ClientColor::Unfocused => "client.unfocused"@,
            ClientColor::Urgent => "client.urgent"@,
        }
    }

    /// The window class that `word` names, if any.
    pub open spec fn parse_of(word: Seq<char>) -> Option<ClientColor> {
        if word == "client.focused"@ {
            Some(ClientColor::Focused)
        } else if word == "client.unfocused"@ {
            Some(ClientColor::Unfocused)
        } else if word == "client.focused_inactive"@ {
            Some(ClientColor::FocusedInactive)
        } else if word == "client.urgent"@ {
            Some(ClientColor::Urgent)
        } else {
            None
        }
    }

    pub fn name(self) -> (s: &'static str)
        ensures
            s@ == self.name_of(),
    {
        match self {
            ClientColor::Focused => "client.focused",
            ClientColor::FocusedInactive => "client.focused_inactive",
            ClientColor::Unfocused => "client.unfocused",
            ClientColor::Urgent => "client.urgent",
        }
    }

    pub fn parse(word: &str) -> (k: Option<ClientColor>)
        ensures
            k == ClientColor::parse_of(word@),
    {
        if crate::text::str_eq(word, "client.focused") {
            Some(ClientColor::Focused)
        } else if crate::text::str_eq(word, "client.unfocused") {
            Some(ClientColor::Unfocused)
        } else if crate::text::str_eq(word, "client.focused_inactive") {
            Some(ClientColor::FocusedInactive)
        } else if crate::text::str_eq(word, "client.urgent") {
            Some(ClientColor::Urgent)
        } else {
            None
        }
    }
}

impl BarColors {
    /// The colour the theme gives to a single-colour entry.
    pub open spec fn color_of(self, k: BarColor) -> Option<String> {
        match k {
            BarColor::Separator => self.separator,
            BarColor::Background => self.background,
            BarColor::Statusline => self.statusline,
        }
    }

    /// The colours the theme gives to a workspace-button entry.
    pub open spec fn group_of(self, k: WorkspaceColor) -> Option<ColorGroup> {
        match k {
            WorkspaceColor::FocusedWorkspace => self.focused_workspace,
            WorkspaceColor::ActiveWorkspace => self.active_workspace,
            WorkspaceColor::InactiveWorkspace => self.inactive_workspace,
            WorkspaceColor::UrgentWorkspace => self.urgent_workspace,
        }
    }

    pub fn color(&self, k: BarColor) -> (c: &Option<String>)
        ensures
            *c == self.color_of(k),
    {
        match k {
            BarColor::Separator => &self.separator,
            BarColor::Background => &self.background,
            BarColor::Statusline => &self.statusline,
        }
    }

    pub fn group(&self, k: WorkspaceColor) -> (g: &Option<ColorGroup>)
        ensures
            *g == self.group_of(k),
    {
        match k {
            WorkspaceColor::FocusedWorkspace => &self.focused_workspace,
            WorkspaceColor::ActiveWorkspace => &self.active_workspace,
            WorkspaceColor::InactiveWorkspace => &self.inactive_workspace,
            WorkspaceColor::UrgentWorkspace => &self.urgent_workspace,
        }
    }
}

impl WindowColors {
    /// The colours the theme gives to a window class.
    pub open spec fn group_of(self, k: ClientColor) -> Option<ColorGroup> {
        match k {
            ClientColor::Focused => self.focused,
            ClientColor::FocusedInactive => self.focused_inactive,
            ClientColor::Unfocused => self.unfocused,
            ClientColor::Urgent => self.urgent,
        }
    }

    pub fn group(&self, k: ClientColor) -> (g: &Option<ColorGroup>)
        ensures
            *g == self.group_of(k),
    {
        match k {
            ClientColor::Focused => &self.focused,
            ClientColor::FocusedInactive => &self.focused_inactive,
            ClientColor::Unfocused => &self.unfocused,
            ClientColor::Urgent => &self.urgent,
        }
    }
}

} // verus!
