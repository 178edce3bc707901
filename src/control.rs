use vstd::prelude::*;
use crate::mode::{tool_spec, Mode};
use crate::policy::{policy_path, policy_path_of};
use crate::registry::{loaded, Registry, RegistryModel};
use crate::status::{parse, parse_status};

verus! {

/// What the operator asks for.
#[derive(Clone, Copy, Debug, PartialEq, Eq, Structural)]
pub enum Action {
    /// Ask the status tool again.
    Refresh,
    /// Reload the access-control service, then ask the status tool again.
    Reload,
    /// Move the selected profile into a mode.
    SetMode(Mode),
    /// Edit the selected profile's policy file, then reload.
    Edit,
}

/// An external command that the caller runs, with administrative privilege
/// where it changes the system.
#[derive(Clone, Debug)]
pub enum Command {
    /// Run the status tool and hand back its output.
    QueryStatus,
    /// Run `tool` on the profile `identifier`.
    ChangeMode { tool: &'static str, identifier: String },
    /// Reload the access-control service as a whole.
    ReloadService,
    /// Open the policy file at `path` in the editor.
    EditPolicy { path: String },
}

/// How an external command ended.
#[derive(Clone, Copy, Debug, PartialEq, Eq, Structural)]
pub enum Exit {
    /// The command could not be started.
    NotStarted,
    /// The command exited with a non-zero status.
    Failed,
    /// The command exited with status zero.
    Succeeded,
}

/// Why an action did not complete.
#[derive(Clone, Copy, Debug, PartialEq, Eq, Structural)]
pub enum ActionError {
    /// An external command could not be started.
    NotStarted,
    /// An external command exited with a non-zero status.
    Failed,
}

/// What the caller does next.
#[derive(Debug)]
pub enum Directive {
    /// Run this command and report how it ended.
    Run(Command),
    /// The action is over, with this result.
    Done(Result<(), ActionError>),
}

/// Where an action stands.
#[derive(Clone, Copy, Debug, PartialEq, Eq, Structural)]
pub enum Stage {
    /// No action under way.
    Idle,
    /// Waiting for a mode-change command.
    Changing,
    /// Waiting for the editor.
    Editing,
    /// Waiting for the service reload.
    Reloading,
    /// Waiting for the status tool's report.
    Querying,
}

/// The result that an action reports when a command ended with `exit`.
pub open spec fn outcome(exit: Exit) -> Result<(), ActionError> {
    match exit {
        Exit::Succeeded => Ok(()),
        Exit::NotStarted => Err(ActionError::NotStarted),
        Exit::Failed => Err(ActionError::Failed),
    }
}

/// The stage after the command awaited in `stage` ended with `exit`: a
/// failure ends the action; a mutation that succeeded is followed by a new
/// status query (after an edit, by a reload first).
pub open spec fn next_stage(stage: Stage, exit: Exit) -> Stage {
    if exit != Exit::Succeeded {
        Stage::Idle
    } else {
        match stage {
            Stage::Changing => Stage::Querying,
            Stage::Reloading => Stage::Querying,
            Stage::Editing => Stage::Reloading,
            _ => Stage::Idle,
        }
    }
}

/// What the caller is told to do after the command awaited in `stage`
/// ended with `exit`.
pub open spec fn directive_after(stage: Stage, exit: Exit) -> Directive {
    match next_stage(stage, exit) {
        Stage::Querying => Directive::Run(Command::QueryStatus),
        Stage::Reloading => Directive::Run(Command::ReloadService),
        _ => Directive::Done(outcome(exit)),
    }
}

/// The registry after the command awaited in `stage` ended with `exit` and
/// printed `out`: only a successful status query replaces it, by the
/// profiles that `out` lists.
pub open spec fn registry_after(stage: Stage, r: RegistryModel, exit: Exit, out: Seq<char>) -> RegistryModel {
    if stage == Stage::Querying && exit == Exit::Succeeded {
        loaded(r, parse(out))
    } else {
        r
    }
}

/// The mathematical value of a controller.
pub struct ControllerModel {
    pub registry: RegistryModel,
    pub stage: Stage,
    pub policy_root: Seq<char>,
}

/// Runs the operator's actions: says which external command to run, reads
/// how it ended, and replaces the registry from a fresh status report after
/// every successful change. Nothing is changed locally in anticipation.
pub struct Controller {
    registry: Registry,
    stage: Stage,
    policy_root: String,
}

impl View for Controller {
    type V = ControllerModel;

    closed spec fn view(&self) -> ControllerModel {
        ControllerModel { registry: self.registry@, stage: self.stage, policy_root: self.policy_root@ }
    }
}

impl Controller {
    /// A controller with an empty registry, looking for policy files under
    /// `policy_root`.
    pub fn new(policy_root: String) -> (r: Controller)
        ensures
            r@.registry.profiles.len() == 0,
            r@.registry.selected is None,
            r@.registry.wf(),
            r@.stage == Stage::Idle,
            r@.policy_root == policy_root@,
    {
        Controller { registry: Registry::new(), stage: Stage::Idle, policy_root }
    }

    /// The registry on display.
    pub fn registry(&self) -> (r: &Registry)
        ensures
            r@ == self@.registry,
    {
        &self.registry
    }

    /// Where the current action stands.
    pub fn stage(&self) -> (r: Stage)
        ensures
            r == self@.stage,
    {
        self.stage
    }

    /// Moves the selection down one row, wrapping round.
    pub fn select_next(&mut self)
        requires
            old(self)@.registry.wf(),
        ensures
            final(self)@.registry.profiles == old(self)@.registry.profiles,
            final(self)@.registry.selected == crate::registry::next_index(
                old(self)@.registry.selected,
                old(self)@.registry.profiles.len(),
            ),
            final(self)@.registry.wf(),
            final(self)@.stage == old(self)@.stage,
            final(self)@.policy_root == old(self)@.policy_root,
    {
        self.registry.select_next();
    }

    /// Moves the selection up one row, wrapping round.
    pub fn select_previous(&mut self)
        requires
            old(self)@.registry.wf(),
        ensures
            final(self)@.registry.profiles == old(self)@.registry.profiles,
            final(self)@.registry.selected == crate::registry::previous_index(
                old(self)@.registry.selected,
                old(self)@.registry.profiles.len(),
            ),
            final(self)@.registry.wf(),
            final(self)@.stage == old(self)@.stage,
            final(self)@.policy_root == old(self)@.policy_root,
    {
        self.registry.select_previous();
    }

    /// Begins `action`: the first command to run, or the result at once
    /// where there is nothing to run (no selection, or a mode that no
    /// command sets). The registry is left as it is.
    pub fn start(&mut self, action: Action) -> (d: Directive)
        requires
            old(self)@.stage == Stage::Idle,
            old(self)@.registry.wf(),
        ensures
            final(self)@.registry == old(self)@.registry,
            final(self)@.policy_root == old(self)@.policy_root,
            action == Action::Refresh ==> final(self)@.stage == Stage::Querying && d == Directive::Run(
                Command::QueryStatus,
            ),
            action == Action::Reload ==> final(self)@.stage == Stage::Reloading && d == Directive::Run(
                Command::ReloadService,
            ),
            action matches Action::SetMode(m) ==> match old(self)@.registry.selected_id() {
                Some(id) if tool_spec(m) is Some => {
                    &&& final(self)@.stage == Stage::Changing
                    &&& d matches Directive::Run(Command::ChangeMode { tool, identifier })
                    &&& tool@ == tool_spec(m)->0
                    &&& identifier@ == id
                },
                _ => final(self)@.stage == Stage::Idle && d == Directive::Done(Ok(())),
            },
            action == Action::Edit ==> match old(self)@.registry.selected_id() {
                Some(id) => {
                    &&& final(self)@.stage == Stage::Editing
                    &&& d matches Directive::Run(Command::EditPolicy { path })
                    &&& path@ == policy_path_of(old(self)@.policy_root, id)
                },
                None => final(self)@.stage == Stage::Idle && d == Directive::Done(Ok(())),
            },
    {
        match action {
            Action::Refresh => {
                self.stage = Stage::Querying;
                Directive::Run(Command::QueryStatus)
            },
            Action::Reload => {
                self.stage = Stage::Reloading;
                Directive::Run(Command::ReloadService)
            },
            Action::SetMode(m) => {
                match (self.registry.current(), m.tool()) {
                    (Some(p), Some(tool)) => {
                        let identifier = String::from_str(p.identifier.as_str());
                        self.stage = Stage::Changing;
                        Directive::Run(Command::ChangeMode { tool, identifier })
                    },
                    _ => Directive::Done(Ok(())),
                }
            },
            Action::Edit => {
                match self.registry.current() {
                    Some(p) => {
                        let path = policy_path(self.policy_root.as_str(), p.identifier.as_str());
                        self.stage = Stage::Editing;
                        Directive::Run(Command::EditPolicy { path })
                    },
                    None => Directive::Done(Ok(())),
                }
            },
        }
    }

    /// Takes in how the awaited command ended, and `output`, what it printed
    /// (read only after a status query), and says what comes next.
    pub fn finish(&mut self, exit: Exit, output: &str) -> (d: Directive)
        requires
            old(self)@.stage != Stage::Idle,
            old(self)@.registry.wf(),
        ensures
            final(self)@.stage == next_stage(old(self)@.stage, exit),
            final(self)@.registry == registry_after(old(self)@.stage, old(self)@.registry, exit, output@),
            final(self)@.registry.wf(),
            final(self)@.policy_root == old(self)@.policy_root,
            d == directive_after(old(self)@.stage, exit),
    {
        let stage = self.stage;
        if exit != Exit::Succeeded {
            self.stage = Stage::Idle;
            return match exit {
                Exit::NotStarted => Directive::Done(Err(ActionError::NotStarted)),
                _ => Directive::Done(Err(ActionError::Failed)),
            };
        }
        match stage {
            Stage::Changing | Stage::Reloading => {
                self.stage = Stage::Querying;
                Directive::Run(Command::QueryStatus)
            },
            Stage::Editing => {
                self.stage = Stage::Reloading;
                Directive::Run(Command::ReloadService)
            },
            _ => {
                let profiles = parse_status(output);
                self.registry.load(profiles);
                self.stage = Stage::Idle;
                Directive::Done(Ok(()))
            },
        }
    }
}

} // verus!
