//! Themes, and the patch that writes a theme into the configuration text of
//! each tool.

use crate::error::Error;
use crate::fsutil::{read_yaml, settled, without_bom, yaml_entry, Entry, YamlEntry};
use crate::pattern::{regex_find_all, substitute};
use crate::text::{
    replace_all, replaced, replaced_same, spliced, spliced_settled, spliced_without_spans,
};
use vstd::prelude::*;
use vstd::string::*;
use vstd::utf8::encode_utf8;

verus! {

/// What the multiplexer loads for a theme.
#[derive(Debug, Clone, PartialEq, Eq)]
pub struct TmuxTheme {
    /// The file to source, or the name of the plugin.
    pub path: String,
    /// Whether `path` names a plugin rather than a file to source.
    pub is_plugin: bool,
    /// Options set for a plugin, each a key and a value, in the order in
    /// which they are written out.
    pub options: Vec<(String, String)>,
}

/// What a theme sets for each tool; a tool without a setting is left alone.
#[derive(Debug, Clone, PartialEq, Eq)]
pub struct ThemeConfig {
    /// The editor's colorscheme.
    pub astronvim: Option<String>,
    /// The file that the terminal emulator imports last.
    pub alacritty: Option<String>,
    /// What the multiplexer loads.
    pub tmux: Option<TmuxTheme>,
}

/// A named bundle of settings.
#[derive(Debug, Clone, PartialEq, Eq)]
pub struct Theme {
    /// The name by which the theme is found in the registry.
    pub name: String,
    /// The settings.
    pub config: ThemeConfig,
}

/// The mathematical value of a [`TmuxTheme`].
pub struct TmuxThemeView {
    pub path: Seq<char>,
    pub is_plugin: bool,
    pub options: Seq<(Seq<char>, Seq<char>)>,
}

/// The mathematical value of a [`ThemeConfig`].
pub struct ThemeConfigView {
    pub astronvim: Option<Seq<char>>,
    pub alacritty: Option<Seq<char>>,
    pub tmux: Option<TmuxThemeView>,
}

/// The mathematical value of a [`Theme`].
pub struct ThemeView {
    pub name: Seq<char>,
    pub config: ThemeConfigView,
}

impl View for TmuxTheme {
    type V = TmuxThemeView;

    open spec fn view(&self) -> TmuxThemeView {
        TmuxThemeView {
            path: self.path@,
            is_plugin: self.is_plugin,
            options: self.options@.map_values(|option: (String, String)| (option.0@, option.1@)),
        }
    }
}

impl View for ThemeConfig {
    type V = ThemeConfigView;

    open spec fn view(&self) -> ThemeConfigView {
        ThemeConfigView {
            astronvim: match self.astronvim {
                Some(value) => Some(value@),
                None => None,
            },
            alacritty: match self.alacritty {
                Some(value) => Some(value@),
                None => None,
            },
            tmux: match self.tmux {
                Some(value) => Some(value@),
                None => None,
            },
        }
    }
}

impl View for Theme {
    type V = ThemeView;

    open spec fn view(&self) -> ThemeView {
        ThemeView { name: self.name@, config: self.config@ }
    }
}

/// The pattern of the editor's assignment line.
pub const EDITOR_PATTERN: &'static str = "colorscheme\\s=\\s\"(?P<c>.*)\",";

/// The pattern of the multiplexer's marked region: the two marker lines
/// with at most two lines between them.
pub const TMUX_PATTERN: &'static str =
    "#\\s<THEME\\n(?P<theme>.*)\\n?(?P<options>.*)\\n?#\\sTHEME>";

/// The top-level key under which the terminal emulator lists its imports.
pub const IMPORT_KEY: &'static str = "import";

/// Why a document whose imports are no sequence is refused.
pub const INVALID_IMPORT: &'static str = "invalid import type: expected a sequence";

/// Why a document whose last import is no string is refused.
pub const INVALID_IMPORT_ENTRY: &'static str = "invalid import entry: expected a string";

impl TmuxThemeView {
    /// The lines that set the first `n` options, each behind a line break.
    pub open spec fn option_lines(self, n: nat) -> Seq<char>
        decreases n,
    {
        if n == 0 {
            Seq::empty()
        } else {
            self.option_lines((n - 1) as nat) + "\nset -g "@ + self.options[n - 1].0 + " "@
                + self.options[n - 1].1
        }
    }

    /// What stands between the markers: one line that sources the file, or
    /// the line that loads the plugin followed by one line for each option
    /// in order.
    pub open spec fn body_text(self) -> Seq<char> {
        if self.is_plugin {
            "set -g @plugin '"@ + self.path + "'"@ + self.option_lines(self.options.len())
        } else {
            "source "@ + self.path
        }
    }

    /// The marked region as it is written: the opening marker, the body, the
    /// closing marker.
    pub open spec fn block_text(self) -> Seq<char> {
        "# <THEME\n"@ + self.body_text() + "\n# THEME>"@
    }
}

impl TmuxTheme {
    /// A file to source, without options.
    pub fn new(path: &str) -> (r: Self)
        ensures
            r@ == (TmuxThemeView { path: path@, is_plugin: false, options: Seq::empty() }),
    {
        let r = TmuxTheme { path: path.to_owned(), is_plugin: false, options: Vec::new() };
        assert(r@.options =~= Seq::empty());
        r
    }

    /// Builds the marked region for this theme.
    pub fn block(&self) -> (s: String)
        ensures
            s@ == self@.block_text(),
    {
        let mut body = String::new();
        if self.is_plugin {
            body.append("set -g @plugin '");
            body.append(self.path.as_str());
            body.append("'");
            assert(body@ =~= "set -g @plugin '"@ + self.path@ + "'"@ + self@.option_lines(0));
            let mut i: usize = 0;
            while i < self.options.len()
                invariant
                    i <= self.options@.len(),
                    body@ == "set -g @plugin '"@ + self.path@ + "'"@ + self@.option_lines(i as nat),
                decreases self.options.len() - i,
            {
                let option = &self.options[i];
                body.append("\nset -g ");
                body.append(option.0.as_str());
                body.append(" ");
                body.append(option.1.as_str());
                i += 1;
                assert(body@ =~= "set -g @plugin '"@ + self.path@ + "'"@ + self@.option_lines(
                    i as nat,
                ));
            }
        } else {
            body.append("source ");
            body.append(self.path.as_str());
            assert(body@ =~= "source "@ + self.path@);
        }
        let mut s = "# <THEME\n".to_owned();
        s.append(body.as_str());
        s.append("\n# THEME>");
        s
    }
}

impl ThemeConfigView {
    /// The settings of a theme that sets nothing.
    pub open spec fn empty() -> ThemeConfigView {
        ThemeConfigView { astronvim: None, alacritty: None, tmux: None }
    }
}

impl Default for ThemeConfig {
    /// No setting for any tool.
    fn default() -> (r: Self)
        ensures
            r@ == ThemeConfigView::empty(),
    {
        ThemeConfig { astronvim: None, alacritty: None, tmux: None }
    }
}

impl Default for Theme {
    /// A theme without a name and without settings.
    fn default() -> (r: Self)
        ensures
            r@ == (ThemeView { name: Seq::empty(), config: ThemeConfigView::empty() }),
    {
        Theme { name: String::new(), config: ThemeConfig::default() }
    }
}

/// The editor's assignment line for a colorscheme.
pub open spec fn editor_line(theme: Seq<char>) -> Seq<char> {
    "colorscheme = \""@ + theme + "\","@
}

/// Whether `r` is what patching the imports gives, for a document of text
/// `content` that holds `entry` under its import key: nothing to write
/// where there is no import to replace, a failure where the imports are no
/// sequence or the last of them is no string, and else the text with every
/// occurrence of the last import replaced by `theme`.
pub open spec fn import_patched(
    r: Result<Option<Vec<u8>>, Error>,
    content: Seq<u8>,
    entry: Entry,
    theme: Seq<char>,
) -> bool {
    match entry {
        Entry::Missing => r matches Ok(None),
        Entry::Other => r matches Err(Error::InvalidConfig(reason)) && reason@ == INVALID_IMPORT@,
        Entry::Sequence(items) => if items.len() == 0 {
            r matches Ok(None)
        } else {
            match items.last() {
                Some(old) => r matches Ok(Some(out)) && out@ == replaced(
                    content,
                    encode_utf8(old),
                    encode_utf8(theme),
                ),
                None => r matches Err(Error::InvalidConfig(reason)) && reason@
                    == INVALID_IMPORT_ENTRY@,
            }
        },
    }
}

/// Patches the terminal emulator's configuration text, given what the
/// document holds under its import key: replaces the text of the last
/// import, wherever it occurs in `content`, by `theme`.
pub fn patch_import(content: &[u8], entry: &YamlEntry, theme: &str) -> (r: Result<
    Option<Vec<u8>>,
    Error,
>)
    ensures
        import_patched(r, content@, entry@, theme@),
{
    match entry {
        YamlEntry::Missing => Ok(None),
        YamlEntry::Other => Err(Error::InvalidConfig(INVALID_IMPORT)),
        YamlEntry::Sequence(items) => {
            if items.len() == 0 {
                Ok(None)
            } else {
                match &items[items.len() - 1] {
                    Some(old) => Ok(
                        Some(replace_all(content, old.as_str().as_bytes(), theme.as_bytes())),
                    ),
                    None => Err(Error::InvalidConfig(INVALID_IMPORT_ENTRY)),
                }
            }
        },
    }
}

impl ThemeView {
    /// Whether `r` is what patching the editor's text `content` gives:
    /// nothing to write without a setting for the editor; else the text in
    /// which every match of the assignment pattern is replaced by the
    /// assignment of the theme's colorscheme; a `Generic` failure where the
    /// pattern is refused.
    pub open spec fn neovim_patched(
        self,
        r: Result<Option<Vec<u8>>, Error>,
        content: Seq<u8>,
    ) -> bool {
        match self.config.astronvim {
            None => r matches Ok(None),
            Some(theme) => match regex_find_all(EDITOR_PATTERN@, content) {
                Ok(spans) => r matches Ok(Some(out)) && out@ == spliced(
                    content,
                    spans,
                    encode_utf8(editor_line(theme)),
                ),
                Err(message) => r matches Err(Error::Generic(text)) && text@ == message,
            },
        }
    }

    /// Whether `r` is what patching the terminal emulator's text `content`
    /// gives: nothing to write without a setting for the terminal emulator;
    /// else what patching the imports gives, for the entry that the
    /// document without its byte-order mark holds under the import key; a
    /// `YAML` failure where the parser refuses the document.
    pub open spec fn alacritty_patched(
        self,
        r: Result<Option<Vec<u8>>, Error>,
        content: Seq<u8>,
    ) -> bool {
        match self.config.alacritty {
            None => r matches Ok(None),
            Some(theme) => match settled(yaml_entry(without_bom(content), IMPORT_KEY@)) {
                Ok(entry) => import_patched(r, content, entry, theme),
                Err(message) => r matches Err(Error::YAML(text)) && text@ == message,
            },
        }
    }

    /// Whether `r` is what patching the multiplexer's text `content` gives:
    /// nothing to write without a setting for the multiplexer; else the
    /// text in which every match of the region pattern is replaced by the
    /// region built for the theme; a `Generic` failure where the pattern is
    /// refused.
    pub open spec fn tmux_patched(
        self,
        r: Result<Option<Vec<u8>>, Error>,
        content: Seq<u8>,
    ) -> bool {
        match self.config.tmux {
            None => r matches Ok(None),
            Some(tmux) => match regex_find_all(TMUX_PATTERN@, content) {
                Ok(spans) => r matches Ok(Some(out)) && out@ == spliced(
                    content,
                    spans,
                    encode_utf8(tmux.block_text()),
                ),
                Err(message) => r matches Err(Error::Generic(text)) && text@ == message,
            },
        }
    }
}

impl Theme {
    /// A theme of the given name without settings.
    pub fn new(name: &str) -> (r: Self)
        ensures
            r@ == (ThemeView { name: name@, config: ThemeConfigView::empty() }),
    {
        Theme { name: name.to_owned(), config: ThemeConfig::default() }
    }

    /// Patches the editor's configuration text: every assignment line takes
    /// the theme's colorscheme, and a text without such a line stays as it
    /// is. Without a setting for the editor there is nothing to write.
    pub fn set_neovim(&self, content: &[u8]) -> (r: Result<Option<Vec<u8>>, Error>)
        ensures
            self@.neovim_patched(r, content@),
    {
        match &self.config.astronvim {
            None => Ok(None),
            Some(theme) => {
                let mut line = "colorscheme = \"".to_owned();
                line.append(theme.as_str());
                line.append("\",");
                match substitute(EDITOR_PATTERN, content, line.as_str().as_bytes()) {
                    Ok(out) => Ok(Some(out)),
                    Err(e) => Err(e),
                }
            },
        }
    }

    /// Patches the terminal emulator's configuration text: the text of the
    /// document's last import is replaced, wherever it occurs, by the
    /// theme's import. Without a setting for the terminal emulator, or
    /// without an import to replace, there is nothing to write.
    pub fn set_alacritty(&self, content: &[u8]) -> (r: Result<Option<Vec<u8>>, Error>)
        ensures
            self@.alacritty_patched(r, content@),
    {
        match &self.config.alacritty {
            None => Ok(None),
            Some(theme) => {
                match read_yaml(content, IMPORT_KEY) {
                    Ok(entry) => patch_import(content, &entry, theme.as_str()),
                    Err(e) => Err(e),
                }
            },
        }
    }

    /// Patches the multiplexer's configuration text: every marked region is
    /// replaced, markers included, by the region built for the theme, and a
    /// text without a marked region stays as it is. Without a setting for
    /// the multiplexer there is nothing to write.
    pub fn set_tmux(&self, content: &[u8]) -> (r: Result<Option<Vec<u8>>, Error>)
        ensures
            self@.tmux_patched(r, content@),
    {
        match &self.config.tmux {
            None => Ok(None),
            Some(tmux) => {
                let block = tmux.block();
                match substitute(TMUX_PATTERN, content, block.as_str().as_bytes()) {
                    Ok(out) => Ok(Some(out)),
                    Err(e) => Err(e),
                }
            },
        }
    }
}

/// An editor's text without an assignment line stays as it is: where the
/// pattern matches nowhere, what is written is the text itself.
pub proof fn neovim_patch_without_match(
    theme: ThemeView,
    r: Result<Option<Vec<u8>>, Error>,
    content: Seq<u8>,
)
    requires
        theme.config.astronvim is Some,
        regex_find_all(EDITOR_PATTERN@, content) == Ok::<Seq<(usize, usize)>, Seq<char>>(
            Seq::empty(),
        ),
        theme.neovim_patched(r, content),
    ensures
        r matches Ok(Some(out)) && out@ == content,
{
    spliced_without_spans(content, encode_utf8(editor_line(theme.config.astronvim->0)));
}

/// A multiplexer's text without a marked region stays as it is: where the
/// pattern matches nowhere, what is written is the text itself.
pub proof fn tmux_patch_without_region(
    theme: ThemeView,
    r: Result<Option<Vec<u8>>, Error>,
    content: Seq<u8>,
)
    requires
        theme.config.tmux is Some,
        regex_find_all(TMUX_PATTERN@, content) == Ok::<Seq<(usize, usize)>, Seq<char>>(
            Seq::empty(),
        ),
        theme.tmux_patched(r, content),
    ensures
        r matches Ok(Some(out)) && out@ == content,
{
    spliced_without_spans(content, encode_utf8(theme.config.tmux->0.block_text()));
}

/// Patching the multiplexer's text a second time changes nothing, where
/// every marked region that is found in the text already holds the region
/// built for the theme.
pub proof fn tmux_patch_settled(
    theme: ThemeView,
    r: Result<Option<Vec<u8>>, Error>,
    content: Seq<u8>,
    spans: Seq<(usize, usize)>,
)
    requires
        theme.config.tmux is Some,
        regex_find_all(TMUX_PATTERN@, content) == Ok::<Seq<(usize, usize)>, Seq<char>>(spans),
        forall|i: int|
            0 <= i < spans.len() && spans[i].0 <= spans[i].1 <= content.len() ==> content.subrange(
                #[trigger] spans[i].0 as int,
                spans[i].1 as int,
            ) == encode_utf8(theme.config.tmux->0.block_text()),
        theme.tmux_patched(r, content),
    ensures
        r matches Ok(Some(out)) && out@ == content,
{
    spliced_settled(content, spans, encode_utf8(theme.config.tmux->0.block_text()));
}

/// Patching the editor's text a second time changes nothing, where every
/// assignment line that is found in the text already assigns the theme's
/// colorscheme.
pub proof fn neovim_patch_settled(
    theme: ThemeView,
    r: Result<Option<Vec<u8>>, Error>,
    content: Seq<u8>,
    spans: Seq<(usize, usize)>,
)
    requires
        theme.config.astronvim is Some,
        regex_find_all(EDITOR_PATTERN@, content) == Ok::<Seq<(usize, usize)>, Seq<char>>(spans),
        forall|i: int|
            0 <= i < spans.len() && spans[i].0 <= spans[i].1 <= content.len() ==> content.subrange(
                #[trigger] spans[i].0 as int,
                spans[i].1 as int,
            ) == encode_utf8(editor_line(theme.config.astronvim->0)),
        theme.neovim_patched(r, content),
    ensures
        r matches Ok(Some(out)) && out@ == content,
{
    spliced_settled(content, spans, encode_utf8(editor_line(theme.config.astronvim->0)));
}

/// Patching the imports a second time changes nothing: where the last
/// import already is the theme's, what is written is the text itself.
pub proof fn import_patch_settled(
    r: Result<Option<Vec<u8>>, Error>,
    content: Seq<u8>,
    items: Seq<Option<Seq<char>>>,
    theme: Seq<char>,
)
    requires
        items.len() > 0,
        items.last() == Some(theme),
        import_patched(r, content, Entry::Sequence(items), theme),
    ensures
        r matches Ok(Some(out)) && out@ == content,
{
    replaced_same(content, encode_utf8(theme));
}

} // verus!
