//! What the commands do to a registry that is held in memory: listing it,
//! adding a theme to it, and choosing what applying a theme patches.

use crate::error::Error;
use crate::models::{Theme, ThemeConfig, ThemeConfigView, ThemeView};
use crate::NewOptions;
use vstd::prelude::*;
use vstd::string::*;

verus! {

/// A tool whose configuration a theme can set.
#[derive(Clone, Copy, Debug, PartialEq, Eq, Structural)]
pub enum Tool {
    /// The editor.
    Astronvim,
    /// The terminal emulator.
    Alacritty,
    /// The terminal multiplexer.
    Tmux,
}

impl Tool {
    /// The name under which a patch of this tool is confirmed.
    pub open spec fn label_text(self) -> Seq<char> {
        match self {
            Tool::Astronvim => "ASTRONVIM"@,
            Tool::Alacritty => "ALACRITTY"@,
            Tool::Tmux => "TMUX"@,
        }
    }

    /// The tool's configuration file, relative to the home directory.
    pub open spec fn target_text(self) -> Seq<char> {
        match self {
            Tool::Astronvim => ".config/nvim/lua/user/init.lua"@,
            Tool::Alacritty => ".config/alacritty/alacritty.yml"@,
            Tool::Tmux => ".tmux.conf"@,
        }
    }

    /// The name under which a patch of this tool is confirmed.
    pub fn label(self) -> (s: &'static str)
        ensures
            s@ == self.label_text(),
    {
        match self {
            Tool::Astronvim => "ASTRONVIM",
            Tool::Alacritty => "ALACRITTY",
            Tool::Tmux => "TMUX",
        }
    }

    /// The tool's configuration file, relative to the home directory.
    pub fn target(self) -> (s: &'static str)
        ensures
            s@ == self.target_text(),
    {
        match self {
            Tool::Astronvim => ".config/nvim/lua/user/init.lua",
            Tool::Alacritty => ".config/alacritty/alacritty.yml",
            Tool::Tmux => ".tmux.conf",
        }
    }
}

/// The tools for which `config` has a setting, in the order in which they
/// are patched: editor, terminal emulator, multiplexer.
pub open spec fn configured(config: ThemeConfigView) -> Seq<Tool> {
    (if config.astronvim is Some {
        seq![Tool::Astronvim]
    } else {
        Seq::empty()
    }) + (if config.alacritty is Some {
        seq![Tool::Alacritty]
    } else {
        Seq::empty()
    }) + (if config.tmux is Some {
        seq![Tool::Tmux]
    } else {
        Seq::empty()
    })
}

/// The mathematical value of a registry: its themes in order.
pub open spec fn registry(themes: Seq<Theme>) -> Seq<ThemeView> {
    themes.map_values(|theme: Theme| theme@)
}

/// Whether `index` is the place of the first theme called `name`.
pub open spec fn first_named(themes: Seq<ThemeView>, name: Seq<char>, index: int) -> bool {
    &&& 0 <= index < themes.len()
    &&& themes[index].name == name
    &&& forall|j: int| 0 <= j < index ==> themes[j].name != name
}

/// Whether some theme is called `name`.
pub open spec fn has_theme(themes: Seq<ThemeView>, name: Seq<char>) -> bool {
    exists|i: int| 0 <= i < themes.len() && #[trigger] themes[i].name == name
}

/// What listing a registry shows.
#[derive(Debug, Clone, PartialEq, Eq)]
pub enum Listing {
    /// The registry is empty.
    NoThemes,
    /// The names of the themes, in the order of the registry.
    Names(Vec<String>),
}

/// What applying a theme comes to.
#[derive(Debug, Clone, PartialEq, Eq)]
pub enum Selection {
    /// The registry is empty: there is nothing to apply.
    NoThemes,
    /// The theme stands at `index`, and `tools` are to be patched, in this
    /// order.
    Found { index: usize, tools: Vec<Tool> },
}

/// The names of the themes, in the order of the registry.
pub open spec fn names_of(themes: Seq<ThemeView>) -> Seq<Seq<char>> {
    themes.map_values(|theme: ThemeView| theme.name)
}

/// Lists the names of the themes, in the order of the registry. An empty
/// registry is told apart: it has no themes to show.
pub fn list(themes: &Vec<Theme>) -> (r: Listing)
    ensures
        themes@.len() == 0 <==> r is NoThemes,
        r matches Listing::Names(names) ==> names@.map_values(|name: String| name@) == names_of(
            registry(themes@),
        ),
{
    if themes.len() == 0 {
        return Listing::NoThemes;
    }
    let mut names: Vec<String> = Vec::new();
    let mut i: usize = 0;
    while i < themes.len()
        invariant
            i <= themes@.len(),
            names@.len() == i,
            forall|j: int| 0 <= j < i ==> #[trigger] names@[j]@ == themes@[j].name@,
        decreases themes.len() - i,
    {
        names.push(themes[i].name.clone());
        i += 1;
    }
    assert(names@.map_values(|name: String| name@) =~= names_of(registry(themes@)));
    Listing::Names(names)
}

/// Appends a theme of the given name, without settings, to the registry.
pub fn add(themes: &mut Vec<Theme>, options: NewOptions)
    ensures
        registry(final(themes)@) == registry(old(themes)@).push(
            ThemeView { name: options.name@, config: ThemeConfigView::empty() },
        ),
{
    let theme = Theme::new(options.name.as_str());
    themes.push(theme);
    assert(registry(themes@) =~= registry(old(themes)@).push(
        ThemeView { name: options.name@, config: ThemeConfigView::empty() },
    ));
}

/// The tools for which `config` has a setting, in the order in which they
/// are patched.
pub fn tools_of(config: &ThemeConfig) -> (tools: Vec<Tool>)
    ensures
        tools@ == configured(config@),
{
    let mut tools: Vec<Tool> = Vec::new();
    if config.astronvim.is_some() {
        tools.push(Tool::Astronvim);
    }
    if config.alacritty.is_some() {
        tools.push(Tool::Alacritty);
    }
    if config.tmux.is_some() {
        tools.push(Tool::Tmux);
    }
    assert(tools@ =~= configured(config@));
    tools
}

/// Chooses what applying the theme called `name` patches: the first theme
/// of that name is taken, and each tool for which it has a setting is
/// patched, in order. On an empty registry there is nothing to apply; a
/// registry that holds themes but none of that name is a `ThemeNotFound`
/// failure.
pub fn set_theme(themes: &Vec<Theme>, name: &str) -> (r: Result<Selection, Error>)
    ensures
        themes@.len() == 0 ==> r matches Ok(Selection::NoThemes),
        themes@.len() > 0 && !has_theme(registry(themes@), name@) ==> r matches Err(
            Error::ThemeNotFound,
        ),
        themes@.len() > 0 && has_theme(registry(themes@), name@) ==> (r matches Ok(
            Selection::Found { index, tools },
        ) && first_named(registry(themes@), name@, index as int) && tools@ == configured(
            registry(themes@)[index as int].config,
        )),
{
    if themes.len() == 0 {
        return Ok(Selection::NoThemes);
    }
    let wanted = name.to_owned();
    let mut i: usize = 0;
    while i < themes.len()
        invariant
            i <= themes@.len(),
            wanted@ == name@,
            forall|j: int| 0 <= j < i ==> registry(themes@)[j].name != name@,
        decreases themes.len() - i,
    {
        if themes[i].name == wanted {
            let tools = tools_of(&themes[i].config);
            assert(registry(themes@)[i as int].name == name@);
            assert(has_theme(registry(themes@), name@));
            return Ok(Selection::Found { index: i, tools });
        }
        i += 1;
    }
    Err(Error::ThemeNotFound)
}

/// Patches the configuration text `content` of `tool` with what `theme`
/// sets for it: the next text of the file, or nothing where there is
/// nothing to write.
pub fn patch(theme: &Theme, tool: Tool, content: &[u8]) -> (r: Result<Option<Vec<u8>>, Error>)
    ensures
        match tool {
            Tool::Astronvim => theme@.neovim_patched(r, content@),
            Tool::Alacritty => theme@.alacritty_patched(r, content@),
            Tool::Tmux => theme@.tmux_patched(r, content@),
        },
{
    match tool {
        Tool::Astronvim => theme.set_neovim(content),
        Tool::Alacritty => theme.set_alacritty(content),
        Tool::Tmux => theme.set_tmux(content),
    }
}

/// What is shown for an empty registry.
pub const NO_THEMES: &'static str = "No themes installed.";

/// The line that shows one theme of a listing.
pub fn list_line(name: &str) -> (s: String)
    ensures
        s@ == "> "@ + name@,
{
    let mut s = "> ".to_owned();
    s.append(name);
    s
}

/// The line that confirms that a theme was added.
pub fn added_line(name: &str) -> (s: String)
    ensures
        s@ == "Theme "@ + name@ + " added"@,
{
    let mut s = "Theme ".to_owned();
    s.append(name);
    s.append(" added");
    s
}

/// The line that confirms that a tool was patched: it names the tool and
/// the theme, each as the caller wants it shown.
pub fn confirmation(tool: &str, theme: &str) -> (s: String)
    ensures
        s@ == tool@ + " -> "@ + theme@ + " theme successfully set"@,
{
    let mut s = tool.to_owned();
    s.append(" -> ");
    s.append(theme);
    s.append(" theme successfully set");
    s
}

} // verus!
