//! Scenarios: the units of work that the harness profiles.
use vstd::prelude::*;

use crate::config::{ConfigView, ScenarioConfig, empty_config, strings_view};

verus! {

/// An external program and its arguments.
#[derive(Clone, Debug)]
pub struct ExternalCommand {
    /// The program to run.
    pub program: String,
    /// Its arguments.
    pub args: Vec<String>,
}

/// The mathematical value of an [`ExternalCommand`].
pub struct CommandView {
    pub program: Seq<char>,
    pub args: Seq<Seq<char>>,
}

impl View for ExternalCommand {
    type V = CommandView;

    open spec fn view(&self) -> CommandView {
        CommandView { program: self.program@, args: strings_view(self.args@) }
    }
}

/// One benchmark: a function of this program, which a re-spawned subject process runs, or an
/// external command, which runs under the profiler directly; with its own configuration layer.
#[derive(Clone, Debug)]
pub struct Scenario {
    pub(crate) config: ScenarioConfig,
    pub(crate) name: String,
    pub(crate) command: Option<ExternalCommand>,
}

/// The mathematical value of a [`Scenario`].
pub struct ScenarioView {
    pub config: ConfigView,
    pub name: Seq<char>,
    pub command: Option<CommandView>,
}

impl View for Scenario {
    type V = ScenarioView;

    closed spec fn view(&self) -> ScenarioView {
        ScenarioView {
            config: self.config@,
            name: self.name@,
            command: match self.command {
                Some(c) => Some(c@),
                None => None,
            },
        }
    }
}

impl Scenario {
    /// A scenario for the function of this program whose symbol name is `symbol`. Collection
    /// is limited to that function by default, so the function should keep an unmangled name.
    pub fn new(symbol: String) -> (r: Self)
        ensures
            r@.name == symbol@,
            r@.command is None,
            r@.config == (ConfigView { filters: Some(seq![symbol@]), ..empty_config() }),
    {
        let filter = symbol.clone();
        let mut filters: Vec<String> = Vec::new();
        filters.push(filter);
        assert(strings_view(filters@) =~= seq![symbol@]);
        Scenario { config: ScenarioConfig::new().filters(filters), name: symbol, command: None }
    }

    /// A scenario for an external command. No filter is set by default.
    pub fn new_with_command(program: String, args: Vec<String>) -> (r: Self)
        ensures
            r@.name == Seq::<char>::empty(),
            r@.command == Some(CommandView { program: program@, args: strings_view(args@) }),
            r@.config == empty_config(),
    {
        Scenario {
            config: ScenarioConfig::new(),
            name: String::new(),
            command: Some(ExternalCommand { program, args }),
        }
    }

    /// Replaces the scenario's name.
    pub fn name(self, name: String) -> (r: Self)
        ensures
            r@ == (ScenarioView { name: name@, ..self@ }),
    {
        Scenario { name, ..self }
    }

    /// Replaces the scenario's configuration layer.
    pub fn config(self, config: ScenarioConfig) -> (r: Self)
        ensures
            r@ == (ScenarioView { config: config@, ..self@ }),
    {
        Scenario { config, ..self }
    }

    /// The scenario's name.
    pub fn get_name(&self) -> (r: &str)
        ensures
            r@ == self@.name,
    {
        self.name.as_str()
    }

    /// The scenario's configuration layer.
    pub fn get_config(&self) -> (r: &ScenarioConfig)
        ensures
            r@ == self@.config,
    {
        &self.config
    }

    /// The external command, for a scenario that runs one.
    pub fn get_command(&self) -> (r: Option<&ExternalCommand>)
        ensures
            match r {
                Some(c) => self@.command == Some(c@),
                None => self@.command is None,
            },
    {
        match &self.command {
            Some(c) => Some(c),
            None => None,
        }
    }
}

} // verus!
