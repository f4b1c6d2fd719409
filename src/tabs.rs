//! The navigation state of the terminal interface: which tab and which
//! configuration entry are selected.

use vstd::prelude::*;

verus! {

/// The value of a configuration entry.
#[derive(Debug)]
pub enum ConfigKind {
    /// A choice among options, with the index of the chosen one.
    List((usize, Vec<String>)),
    Active(bool),
    /// A value within bounds: `((min, max), value)`.
    Value(((i32, i32), i32)),
}

impl Default for ConfigKind {
    fn default() -> (r: Self)
        ensures
            r matches ConfigKind::List((i, opts)) && i == 0 && opts@.len() == 0,
    {
        ConfigKind::List((0, Vec::new()))
    }
}

/// A named configuration entry.
#[derive(Debug)]
pub struct ConfigItem {
    pub config_name: String,
    pub config_kind: ConfigKind,
}

impl Default for ConfigItem {
    fn default() -> (r: Self)
        ensures
            r.config_name@.len() == 0,
            r.config_kind matches ConfigKind::List((i, opts)) && i == 0 && opts@.len() == 0,
    {
        ConfigItem { config_name: String::new(), config_kind: ConfigKind::default() }
    }
}

/// The configuration tab: its entries and the selected one.
#[derive(Debug)]
pub struct ConfigTab {
    config: Vec<ConfigItem>,
    selected_config: usize,
}

impl ConfigTab {
    #[verifier::type_invariant]
    spec fn has_entries(&self) -> bool {
        self.config@.len() >= 1
    }

    pub closed spec fn entries(&self) -> nat {
        self.config@.len()
    }

    pub closed spec fn selected(&self) -> nat {
        self.selected_config as nat
    }

    /// Three entries, the first selected.
    pub fn new() -> (r: Self)
        ensures
            r.entries() == 3,
            r.selected() == 0,
    {
        let mut config: Vec<ConfigItem> = Vec::new();
        config.push(
            ConfigItem {
                config_name: String::from_str("Config 1"),
                config_kind: ConfigKind::Value(((1, 0), 0)),
            },
        );
        let mut opts: Vec<String> = Vec::new();
        opts.push(String::from_str("opt1"));
        opts.push(String::from_str("opt2"));
        config.push(
            ConfigItem {
                config_name: String::from_str("Config 2"),
                config_kind: ConfigKind::List((0, opts)),
            },
        );
        config.push(
            ConfigItem { config_name: String::from_str("Config 3"), config_kind: ConfigKind::Active(false) },
        );
        ConfigTab { config, selected_config: 0 }
    }

    pub fn selected_config(&self) -> (r: usize)
        ensures
            r == self.selected(),
    {
        self.selected_config
    }

    /// Selects the next entry; past the end, back to the first. The
    /// position just past the last entry is a stop of its own.
    pub fn next_config_tab(&mut self)
        ensures
            final(self).entries() == old(self).entries(),
            final(self).selected() == if old(self).selected() >= old(self).entries() {
                0
            } else {
                old(self).selected() + 1
            },
    {
        proof {
            use_type_invariant(&*self);
        }
        if self.selected_config >= self.config.len() {
            self.selected_config = 0;
        } else {
            self.selected_config = self.selected_config + 1;
        }
    }

    /// Selects the previous entry; before the first, the last.
    pub fn previous_config_tab(&mut self)
        ensures
            final(self).entries() == old(self).entries(),
            final(self).selected() == if old(self).selected() == 0 {
                (old(self).entries() - 1) as nat
            } else {
                (old(self).selected() - 1) as nat
            },
    {
        proof {
            use_type_invariant(&*self);
        }
        if self.selected_config == 0 {
            self.selected_config = self.config.len() - 1;
        } else {
            self.selected_config = self.selected_config - 1;
        }
    }

    /// Reads the selected entry with a proposed change; the entries are
    /// left as they are.
    pub fn handle_config_item(&mut self, up: bool, value: i32)
        requires
            old(self).selected() < old(self).entries(),
        ensures
            final(self).entries() == old(self).entries(),
            final(self).selected() == old(self).selected(),
    {
        let _ = (up, value);
        match &self.config[self.selected_config].config_kind {
            ConfigKind::List(_) => {},
            ConfigKind::Active(_) => {},
            ConfigKind::Value(_) => {},
        }
    }
}

/// The about tab; it holds nothing.
#[derive(Debug, Default, Clone, Copy)]
pub struct AboutTab;

/// The interface's state: its tabs, the selected one, and whether it runs.
#[derive(Debug)]
pub struct App {
    titles: Vec<String>,
    selected_tab: usize,
    is_running: bool,
}

impl App {
    #[verifier::type_invariant]
    spec fn has_tabs(&self) -> bool {
        self.titles@.len() >= 1 && self.selected_tab < self.titles@.len()
    }

    pub closed spec fn tab_count(&self) -> nat {
        self.titles@.len()
    }

    pub closed spec fn title_views(&self) -> Seq<Seq<char>> {
        self.titles@.map_values(|t: String| t@)
    }

    pub closed spec fn selected(&self) -> nat {
        self.selected_tab as nat
    }

    pub closed spec fn running(&self) -> bool {
        self.is_running
    }

    /// The launch, configuration and about tabs, the first selected.
    pub fn new() -> (r: Self)
        ensures
            r.tab_count() == 3,
            r.title_views() == seq!["Launch"@, "Config"@, "About"@],
            r.selected() == 0,
            r.running(),
    {
        let mut titles: Vec<String> = Vec::new();
        titles.push(String::from_str("Launch"));
        titles.push(String::from_str("Config"));
        titles.push(String::from_str("About"));
        let r = App { titles, selected_tab: 0, is_running: true };
        assert(r.title_views() =~= seq!["Launch"@, "Config"@, "About"@]);
        r
    }

    pub fn titles(&self) -> (r: &Vec<String>)
        ensures
            r@.map_values(|t: String| t@) == self.title_views(),
    {
        &self.titles
    }

    pub fn selected_tab(&self) -> (r: usize)
        ensures
            r == self.selected(),
            r < self.tab_count(),
    {
        proof {
            use_type_invariant(self);
        }
        self.selected_tab
    }

    pub fn is_running(&self) -> (r: bool)
        ensures
            r == self.running(),
    {
        self.is_running
    }

    pub fn stop(&mut self)
        ensures
            !final(self).running(),
            final(self).selected() == old(self).selected(),
            final(self).tab_count() == old(self).tab_count(),
    {
        proof {
            use_type_invariant(&*self);
        }
        self.is_running = false;
    }

    /// Selects the previous tab, wrapping to the last.
    pub fn prev_tab(&mut self)
        ensures
            final(self).tab_count() == old(self).tab_count(),
            final(self).running() == old(self).running(),
            final(self).selected() == if old(self).selected() == 0 {
                (old(self).tab_count() - 1) as nat
            } else {
                (old(self).selected() - 1) as nat
            },
    {
        proof {
            use_type_invariant(&*self);
        }
        if self.selected_tab == 0 {
            self.selected_tab = self.titles.len() - 1;
        } else {
            self.selected_tab = self.selected_tab - 1;
        }
    }

    /// Selects the next tab, wrapping to the first.
    pub fn next_tab(&mut self)
        ensures
            final(self).tab_count() == old(self).tab_count(),
            final(self).running() == old(self).running(),
            final(self).selected() == if old(self).selected() + 1 == old(self).tab_count() {
                0
            } else {
                old(self).selected() + 1
            },
    {
        proof {
            use_type_invariant(&*self);
        }
        if self.selected_tab == self.titles.len() - 1 {
            self.selected_tab = 0;
        } else {
            self.selected_tab = self.selected_tab + 1;
        }
    }
}

} // verus!
