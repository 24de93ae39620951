use colorscheme::actions::{
    self, added_line, confirmation, list, list_line, set_theme, tools_of, Listing, Selection, Tool,
    NO_THEMES,
};
use colorscheme::config::{get_config_path, CONFIG_FILE, XDG_PREFIX};
use colorscheme::error::Error;
use colorscheme::fsutil::{
    get_config_file, read_yaml, settle, ConfigFile, YamlEntry, CONFIG_DIR_FILE, END_OF_DOCUMENT,
    HOME_FILE,
};
use colorscheme::models::{Theme, ThemeConfig, TmuxTheme};
use colorscheme::{Action, Args, NewOptions};

fn registry() -> Vec<Theme> {
    let mut first = Theme::new("gruvbox");
    first.config.astronvim = Some("gruvbox".to_string());
    first.config.tmux = Some(TmuxTheme::new("~/.tmux/gruvbox.conf"));
    let mut second = Theme::new("nord");
    second.config.alacritty = Some("~/.config/alacritty/nord.yml".to_string());
    let third = Theme::new("empty");
    let mut fourth = Theme::new("nord");
    fourth.config.astronvim = Some("nord".to_string());
    vec![first, second, third, fourth]
}

#[test]
fn new_theme_has_no_settings() {
    let theme = Theme::new("solarized");
    assert_eq!(theme.name, "solarized");
    assert_eq!(theme.config, ThemeConfig { astronvim: None, alacritty: None, tmux: None });
    assert_eq!(theme.config, ThemeConfig::default());
    assert_eq!(Theme::default(), Theme::new(""));
}

#[test]
fn new_tmux_theme_sources_a_file() {
    let tmux = TmuxTheme::new("~/.tmux/nord.conf");
    assert_eq!(tmux.path, "~/.tmux/nord.conf");
    assert!(!tmux.is_plugin);
    assert!(tmux.options.is_empty());
}

#[test]
fn apply_on_an_empty_registry_finds_no_themes() {
    assert_eq!(set_theme(&Vec::new(), "nord"), Ok(Selection::NoThemes));
    assert_eq!(set_theme(&Vec::new(), ""), Ok(Selection::NoThemes));
}

#[test]
fn apply_of_an_unknown_name_fails() {
    assert_eq!(set_theme(&registry(), "dracula"), Err(Error::ThemeNotFound));
    assert_eq!(set_theme(&registry(), "Nord"), Err(Error::ThemeNotFound));
    assert_eq!(set_theme(&registry(), "nor"), Err(Error::ThemeNotFound));
    assert_eq!(set_theme(&registry(), ""), Err(Error::ThemeNotFound));
}

#[test]
fn apply_takes_the_first_theme_of_the_name() {
    assert_eq!(
        set_theme(&registry(), "nord"),
        Ok(Selection::Found { index: 1, tools: vec![Tool::Alacritty] })
    );
    assert_eq!(
        set_theme(&registry(), "gruvbox"),
        Ok(Selection::Found { index: 0, tools: vec![Tool::Astronvim, Tool::Tmux] })
    );
    assert_eq!(set_theme(&registry(), "empty"), Ok(Selection::Found { index: 2, tools: vec![] }));
}

#[test]
fn tools_come_in_the_order_of_patching() {
    let config = ThemeConfig {
        astronvim: Some(String::new()),
        alacritty: Some(String::new()),
        tmux: Some(TmuxTheme::new("")),
    };
    assert_eq!(tools_of(&config), vec![Tool::Astronvim, Tool::Alacritty, Tool::Tmux]);
    assert_eq!(tools_of(&ThemeConfig::default()), vec![]);
}

#[test]
fn tools_have_a_label_and_a_target() {
    assert_eq!(Tool::Astronvim.label(), "ASTRONVIM");
    assert_eq!(Tool::Alacritty.label(), "ALACRITTY");
    assert_eq!(Tool::Tmux.label(), "TMUX");
    assert_eq!(Tool::Astronvim.target(), ".config/nvim/lua/user/init.lua");
    assert_eq!(Tool::Alacritty.target(), ".config/alacritty/alacritty.yml");
    assert_eq!(Tool::Tmux.target(), ".tmux.conf");
}

#[test]
fn list_of_an_empty_registry_has_no_themes() {
    assert_eq!(list(&Vec::new()), Listing::NoThemes);
}

#[test]
fn list_gives_the_names_in_order() {
    assert_eq!(
        list(&registry()),
        Listing::Names(vec![
            "gruvbox".to_string(),
            "nord".to_string(),
            "empty".to_string(),
            "nord".to_string()
        ])
    );
}

#[test]
fn add_appends_a_theme_without_settings() {
    let mut themes = registry();
    actions::add(&mut themes, NewOptions { name: "dracula".to_string() });
    assert_eq!(themes.len(), 5);
    assert_eq!(themes[..4], registry()[..]);
    assert_eq!(themes[4], Theme::new("dracula"));
    let mut themes = Vec::new();
    actions::add(&mut themes, NewOptions { name: "a".to_string() });
    actions::add(&mut themes, NewOptions { name: "a".to_string() });
    assert_eq!(themes, vec![Theme::new("a"), Theme::new("a")]);
    assert_eq!(set_theme(&themes, "a"), Ok(Selection::Found { index: 0, tools: vec![] }));
}

#[test]
fn registry_file_is_chosen_from_what_exists() {
    assert_eq!(get_config_file(true, true), ConfigFile::ConfigDir);
    assert_eq!(get_config_file(true, false), ConfigFile::ConfigDir);
    assert_eq!(get_config_file(false, true), ConfigFile::Home);
    assert_eq!(get_config_file(false, false), ConfigFile::Create);
    assert_eq!(CONFIG_DIR_FILE, "colorscheme/themes.json");
    assert_eq!(HOME_FILE, ".colorscheme.json");
}

#[test]
fn first_place_with_a_file_wins() {
    assert_eq!(get_config_path(&vec![false, true, false, true]), Some(1));
    assert_eq!(get_config_path(&vec![true, true, true, true]), Some(0));
    assert_eq!(get_config_path(&vec![false, false, false, true]), Some(3));
    assert_eq!(get_config_path(&vec![false, false, false, false]), None);
    assert_eq!(get_config_path(&vec![]), None);
    assert_eq!(XDG_PREFIX, "colorscheme");
    assert_eq!(CONFIG_FILE, "colorscheme.json");
}

#[test]
fn a_theme_named_on_its_own_is_applied() {
    let args = Args { action: Action::List, theme: Some("nord".to_string()) };
    assert_eq!(args.command(), Action::Apply(NewOptions { name: "nord".to_string() }));
    let args = Args { action: Action::List, theme: None };
    assert_eq!(args.command(), Action::List);
    let new = Action::New(NewOptions { name: "x".to_string() });
    let args = Args { action: new.clone(), theme: None };
    assert_eq!(args.command(), new);
}

#[test]
fn failures_have_a_message() {
    assert_eq!(Error::FileNotFound.message(), "cannot find file");
    assert_eq!(Error::InvalidConfig("why").message(), "invalid config: why");
    assert_eq!(Error::JSON("at 1:2".to_string()).message(), "invalid json: at 1:2");
    assert_eq!(Error::YAML("at 3:4".to_string()).message(), "invalid yaml: at 3:4");
    assert_eq!(Error::FileSystem("denied".to_string()).message(), "FileSystem error");
    assert_eq!(
        Error::ThemeNotFound.message(),
        "the theme you are looking for does not exists"
    );
    assert_eq!(Error::Custom("Could not create config file.").message(), "Could not create config file.");
    assert_eq!(Error::Generic("bad".to_string()).message(), "something went wrong: bad");
}

#[test]
fn yaml_entry_of_a_key() {
    let text = b"import:\n  - a.yml\n  - 7\n  - 'b c.yml'\nname: x\nlist: []\n";
    assert_eq!(
        read_yaml(text, "import"),
        Ok(YamlEntry::Sequence(vec![Some("a.yml".to_string()), None, Some("b c.yml".to_string())]))
    );
    assert_eq!(read_yaml(text, "name"), Ok(YamlEntry::Other));
    assert_eq!(read_yaml(text, "list"), Ok(YamlEntry::Sequence(vec![])));
    assert_eq!(read_yaml(text, "absent"), Ok(YamlEntry::Missing));
    assert_eq!(read_yaml(b"just a scalar", "import"), Ok(YamlEntry::Missing));
}

#[test]
fn yaml_entry_behind_a_byte_order_mark() {
    assert_eq!(
        read_yaml(b"\xEF\xBB\xBFimport: [a]", "import"),
        Ok(YamlEntry::Sequence(vec![Some("a".to_string())]))
    );
    assert_eq!(read_yaml(b"\xEF\xBB\xBF", "import"), Ok(YamlEntry::Missing));
    assert!(matches!(read_yaml(b"\xEF\xBB", "import"), Err(Error::YAML(_))));
}

#[test]
fn yaml_of_an_empty_document_is_an_empty_mapping() {
    assert_eq!(read_yaml(b"", "import"), Ok(YamlEntry::Missing));
    assert_eq!(read_yaml(b"\n\n", "anything"), Ok(YamlEntry::Missing));
}

#[test]
fn yaml_that_does_not_parse_is_reported() {
    match read_yaml(b"a: [1, 2", "a") {
        Err(Error::YAML(message)) => {
            assert!(!message.is_empty());
            assert_ne!(message, END_OF_DOCUMENT);
        }
        other => panic!("unexpected outcome: {:?}", other),
    }
    assert!(matches!(read_yaml(b"a: 1\n---\nb: 2\n", "a"), Err(Error::YAML(_))));
}

#[test]
fn settle_on_given_outcomes() {
    assert_eq!(settle(Ok(YamlEntry::Other)), Ok(YamlEntry::Other));
    assert_eq!(settle(Ok(YamlEntry::Missing)), Ok(YamlEntry::Missing));
    assert_eq!(
        settle(Ok(YamlEntry::Sequence(vec![None]))),
        Ok(YamlEntry::Sequence(vec![None]))
    );
    assert_eq!(settle(Err("EOF while parsing a value".to_string())), Ok(YamlEntry::Missing));
    assert_eq!(
        settle(Err("EOF while parsing a value ".to_string())),
        Err(Error::YAML("EOF while parsing a value ".to_string()))
    );
    assert_eq!(settle(Err(String::new())), Err(Error::YAML(String::new())));
    assert_eq!(END_OF_DOCUMENT, "EOF while parsing a value");
}

#[test]
fn lines_that_are_shown() {
    assert_eq!(NO_THEMES, "No themes installed.");
    assert_eq!(list_line("nord"), "> nord");
    assert_eq!(added_line("nord"), "Theme nord added");
    assert_eq!(confirmation("TMUX", "nord"), "TMUX -> nord theme successfully set");
    assert_eq!(
        confirmation(Tool::Astronvim.label(), ""),
        "ASTRONVIM ->  theme successfully set"
    );
}
