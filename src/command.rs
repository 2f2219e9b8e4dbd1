use vstd::prelude::*;

use crate::policy::{selection_requested, StdioSelection};

verus! {

/// One change to the environment a child inherits, in the order it was made.
#[derive(Clone, Debug, PartialEq, Eq)]
pub enum EnvChange {
    /// Sets a variable, overriding any inherited value.
    SetVar(String, String),
    /// Removes one inherited variable.
    RemoveVar(String),
    /// Removes every inherited variable.
    ClearAll,
}

/// What a sequence of changes amounts to: the variables set, the inherited
/// variables removed, and whether the whole inherited environment is dropped.
pub ghost struct EnvPlan {
    pub overrides: Map<Seq<char>, Seq<char>>,
    pub removals: Set<Seq<char>>,
    pub clear_all: bool,
}

pub open spec fn env_plan(changes: Seq<EnvChange>) -> EnvPlan
    decreases changes.len(),
{
    if changes.len() == 0 {
        EnvPlan { overrides: Map::empty(), removals: Set::empty(), clear_all: false }
    } else {
        let p = env_plan(changes.drop_last());
        match changes.last() {
            EnvChange::SetVar(k, v) => EnvPlan {
                overrides: p.overrides.insert(k@, v@),
                removals: p.removals.remove(k@),
                clear_all: p.clear_all,
            },
            EnvChange::RemoveVar(k) => EnvPlan {
                overrides: p.overrides.remove(k@),
                removals: p.removals.insert(k@),
                clear_all: p.clear_all,
            },
            EnvChange::ClearAll => EnvPlan {
                overrides: Map::empty(),
                removals: Set::empty(),
                clear_all: true,
            },
        }
    }
}

/// The environment a child starts with, given its parent's.
pub open spec fn child_env(parent: Map<Seq<char>, Seq<char>>, plan: EnvPlan) -> Map<
    Seq<char>,
    Seq<char>,
> {
    let base = if plan.clear_all {
        Map::empty()
    } else {
        parent.remove_keys(plan.removals)
    };
    base.union_prefer_right(plan.overrides)
}

pub open spec fn sets_of(vars: Seq<(String, String)>) -> Seq<EnvChange> {
    vars.map_values(|e: (String, String)| EnvChange::SetVar(e.0, e.1))
}

/// A description of a program to launch. Nothing touches the operating
/// system until it is spawned or run.
#[derive(Clone, Debug, PartialEq, Eq)]
pub struct LuaCommand {
    pub program: String,
    pub args: Vec<String>,
    pub env_changes: Vec<EnvChange>,
    pub directory: Option<String>,
}

/// A command together with the connection of each of its standard streams:
/// what a spawn hands to the operating system.
#[derive(Clone, Debug, PartialEq, Eq)]
pub struct SpawnPlan {
    pub command: LuaCommand,
    pub stdio: StdioSelection,
}

impl LuaCommand {
    /// A command for `program`, with the given arguments if any, no changes
    /// to its environment, and the parent's working directory.
    pub fn new(program: String, args: Option<Vec<String>>) -> (r: LuaCommand)
        ensures
            r.program@ == program@,
            r.args@ == match args {
                Some(a) => a@,
                None => Seq::empty(),
            },
            r.env_changes@.len() == 0,
            r.directory is None,
    {
        let mut command = LuaCommand {
            program,
            args: Vec::new(),
            env_changes: Vec::new(),
            directory: None,
        };
        match args {
            Some(a) => command.args(a),
            None => {},
        }
        command
    }

    pub fn arg(&mut self, value: String)
        ensures
            final(self).args@ == old(self).args@.push(value),
            final(self).program == old(self).program,
            final(self).env_changes == old(self).env_changes,
            final(self).directory == old(self).directory,
    {
        self.args.push(value);
    }

    /// Appends the arguments, in order.
    pub fn args(&mut self, values: Vec<String>)
        ensures
            final(self).args@ == old(self).args@ + values@,
            final(self).program == old(self).program,
            final(self).env_changes == old(self).env_changes,
            final(self).directory == old(self).directory,
    {
        let mut values = values;
        self.args.append(&mut values);
    }

    pub fn env(&mut self, key: String, value: String)
        ensures
            final(self).env_changes@ == old(self).env_changes@.push(EnvChange::SetVar(key, value)),
            final(self).program == old(self).program,
            final(self).args == old(self).args,
            final(self).directory == old(self).directory,
    {
        self.env_changes.push(EnvChange::SetVar(key, value));
    }

    /// Sets each variable, in order.
    pub fn envs(&mut self, vars: Vec<(String, String)>)
        ensures
            final(self).env_changes@ == old(self).env_changes@ + sets_of(vars@),
            final(self).program == old(self).program,
            final(self).args == old(self).args,
            final(self).directory == old(self).directory,
    {
        let mut i: usize = 0;
        while i < vars.len()
            invariant
                i <= vars@.len(),
                self.env_changes@ == old(self).env_changes@ + sets_of(vars@.take(i as int)),
                self.program == old(self).program,
                self.args == old(self).args,
                self.directory == old(self).directory,
            decreases vars@.len() - i,
        {
            let key = vars[i].0.clone();
            let value = vars[i].1.clone();
            assert(sets_of(vars@.take(i + 1)) == sets_of(vars@.take(i as int)).push(
                EnvChange::SetVar(key, value),
            ));
            self.env_changes.push(EnvChange::SetVar(key, value));
            i = i + 1;
        }
        assert(vars@.take(vars@.len() as int) == vars@);
    }

    /// Removes `key` from the environment the child inherits, or, without a
    /// key, the whole inherited environment.
    pub fn env_clear(&mut self, key: Option<String>)
        ensures
            final(self).env_changes@ == old(self).env_changes@.push(
                match key {
                    Some(k) => EnvChange::RemoveVar(k),
                    None => EnvChange::ClearAll,
                },
            ),
            final(self).program == old(self).program,
            final(self).args == old(self).args,
            final(self).directory == old(self).directory,
    {
        match key {
            Some(k) => self.env_changes.push(EnvChange::RemoveVar(k)),
            None => self.env_changes.push(EnvChange::ClearAll),
        }
    }

    pub fn directory(&mut self, path: String)
        ensures
            final(self).directory == Some(path),
            final(self).program == old(self).program,
            final(self).args == old(self).args,
            final(self).env_changes == old(self).env_changes,
    {
        self.directory = Some(path);
    }

    /// Consumes the command for a spawn, each stream connected as the
    /// request names it, and piped where it names nothing.
    pub fn into_spawn(self, request: Option<&Vec<(String, String)>>) -> (r: SpawnPlan)
        ensures
            r.command == self,
            r.stdio == selection_requested(match request {
                Some(v) => Some(v@),
                None => None,
            }),
    {
        SpawnPlan { command: self, stdio: StdioSelection::requested(request) }
    }

    /// Consumes the command for a run to completion: every stream is piped.
    pub fn into_exec(self) -> (r: SpawnPlan)
        ensures
            r.command == self,
            r.stdio == selection_requested(None),
    {
        SpawnPlan { command: self, stdio: StdioSelection::all_piped() }
    }
}

/// A variable set last is what the child sees, whatever it inherits.
pub proof fn lemma_set_is_seen(
    parent: Map<Seq<char>, Seq<char>>,
    changes: Seq<EnvChange>,
    key: String,
    value: String,
)
    ensures
        child_env(parent, env_plan(changes.push(EnvChange::SetVar(key, value)))).contains_key(key@),
        child_env(parent, env_plan(changes.push(EnvChange::SetVar(key, value))))[key@] == value@,
{
    assert(changes.push(EnvChange::SetVar(key, value)).drop_last() == changes);
}

/// A variable removed last is absent from what the child sees.
pub proof fn lemma_removed_is_absent(
    parent: Map<Seq<char>, Seq<char>>,
    changes: Seq<EnvChange>,
    key: String,
)
    ensures
        !child_env(parent, env_plan(changes.push(EnvChange::RemoveVar(key)))).contains_key(key@),
{
    assert(changes.push(EnvChange::RemoveVar(key)).drop_last() == changes);
}

/// After a full clear the child sees nothing of its parent's environment.
pub proof fn lemma_clear_drops_inherited(parent: Map<Seq<char>, Seq<char>>, changes: Seq<EnvChange>)
    ensures
        child_env(parent, env_plan(changes.push(EnvChange::ClearAll))) == Map::<
            Seq<char>,
            Seq<char>,
        >::empty(),
{
    assert(changes.push(EnvChange::ClearAll).drop_last() == changes);
    assert(child_env(parent, env_plan(changes.push(EnvChange::ClearAll))) =~= Map::<
        Seq<char>,
        Seq<char>,
    >::empty());
}

} // verus!
