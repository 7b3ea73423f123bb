use vstd::prelude::*;

use crate::error::TypeError;
use crate::json::Json;
use crate::text::{concat, str_eq};

verus! {

/// A tool that an agent offers to a model: its name, what it does and the JSON
/// schema of its parameters.
#[derive(Debug, PartialEq)]
pub struct AgentToolDefinition {
    pub name: String,
    pub description: String,
    pub parameters: Json,
}

/// A call of a tool that a model asked for.
#[derive(Debug, PartialEq)]
pub struct ToolCall {
    pub tool_name: String,
    pub call_id: Option<String>,
    pub arguments: Json,
}

/// A tool call read from a model's response, with its result once it has run.
#[derive(Debug, PartialEq)]
pub struct ToolCallInfo {
    pub name: String,
    pub arguments: Json,
    pub call_id: Option<String>,
    pub result: Option<Json>,
}

/// A tool that an application gives to an agent: it has a name, a description
/// and a JSON schema of its parameters, and it runs on JSON arguments. What the
/// methods return is the application's own; the registry states nothing of it.
pub trait Tool {
    fn name(&self) -> &str;

    fn description(&self) -> &str;

    fn parameter_schema(&self) -> Json;

    fn execute(&self, args: Json) -> Result<Json, TypeError>;
}

/// The index of the first entry named `name`, or -1 when there is none.
pub open spec fn name_index(names: Seq<Seq<char>>, name: Seq<char>) -> int
    decreases names.len(),
{
    if names.len() == 0 {
        -1
    } else if names.last() == name && name_index(names.drop_last(), name) == -1 {
        names.len() - 1
    } else {
        name_index(names.drop_last(), name)
    }
}

/// The names after registering one under `name`: a new name comes last, a
/// known one keeps its place.
pub open spec fn registered_names(names: Seq<Seq<char>>, name: Seq<char>) -> Seq<Seq<char>> {
    if name_index(names, name) == -1 {
        names.push(name)
    } else {
        names
    }
}

/// The tools after registering `tool` under `name`: it replaces the tool of
/// that name in its place, or comes last.
pub open spec fn registered_tools<T>(names: Seq<Seq<char>>, tools: Seq<T>, name: Seq<char>, tool: T) -> Seq<T> {
    let i = name_index(names, name);
    if i == -1 {
        tools.push(tool)
    } else {
        tools.update(i, tool)
    }
}

/// The message of the error when no tool has the name of a call.
pub open spec fn tool_not_found(name: Seq<char>) -> Seq<char> {
    "Tool "@ + name + " not found"@
}

/// The tools that run without waiting, each under the name it gave when it was
/// registered; no two have the same name. Tools of different kinds share a
/// registry through a type of the application that implements `Tool` for each
/// of them.
pub struct ToolRegistry<T: Tool> {
    entries: Vec<(String, T)>,
}

/// The names of entries, in order.
pub open spec fn entry_names<T>(entries: Seq<(String, T)>) -> Seq<Seq<char>> {
    Seq::new(entries.len(), |i: int| entries[i].0@)
}

/// The tools of entries, in order.
pub open spec fn entry_tools<T>(entries: Seq<(String, T)>) -> Seq<T> {
    Seq::new(entries.len(), |i: int| entries[i].1)
}

impl<T: Tool> ToolRegistry<T> {
    /// The names under which the tools were registered, in the order in which
    /// they were first registered.
    pub closed spec fn names(&self) -> Seq<Seq<char>> {
        entry_names(self.entries@)
    }

    /// The tools, in the same order as their names.
    pub closed spec fn tools(&self) -> Seq<T> {
        entry_tools(self.entries@)
    }

    #[verifier::type_invariant]
    spec fn names_unique(&self) -> bool {
        entry_names(self.entries@).no_duplicates()
    }

    /// A registry without tools.
    pub fn new() -> (r: ToolRegistry<T>)
        ensures
            r.names().len() == 0,
            r.tools().len() == 0,
            r.names().no_duplicates(),
    {
        proof {
            assert(entry_names(Seq::<(String, T)>::empty()) =~= Seq::empty());
        }
        ToolRegistry { entries: Vec::new() }
    }

    /// The index of the entry named `name`, if there is one.
    fn find(&self, name: &str) -> (r: Option<usize>)
        ensures
            match r {
                Some(i) => i < self.entries@.len() && i == name_index(entry_names(self.entries@), name@),
                None => name_index(entry_names(self.entries@), name@) == -1,
            },
    {
        proof {
            use_type_invariant(self);
        }
        let mut i: usize = 0;
        while i < self.entries.len()
            invariant
                i <= self.entries@.len(),
                entry_names(self.entries@).no_duplicates(),
                forall|j: int| 0 <= j < i ==> #[trigger] self.entries@[j].0@ != name@,
            decreases self.entries@.len() - i,
        {
            if str_eq(self.entries[i].0.as_str(), name) {
                proof {
                    lemma_name_index_found(entry_names(self.entries@), name@, i as int);
                }
                return Some(i);
            }
            i = i + 1;
        }
        proof {
            lemma_name_index_absent(entry_names(self.entries@), name@);
        }
        None
    }

    /// The tool registered under `name`, if there is one.
    pub fn get_tool(&self, name: &str) -> (r: Option<&T>)
        ensures
            name_index(self.names(), name@) == -1 ==> r is None,
            name_index(self.names(), name@) != -1 ==> r == Some(&self.tools()[name_index(self.names(), name@)]),
    {
        match self.find(name) {
            Some(i) => Some(&self.entries[i].1),
            None => None,
        }
    }

    /// Registers `tool` under the name it gives; a tool of the same name is
    /// replaced in its place.
    pub fn register_tool(&mut self, tool: T)
        ensures
            (exists|name: Seq<char>|
                #[trigger] registered_names(old(self).names(), name) == final(self).names() && final(self).tools()
                    == registered_tools(old(self).names(), old(self).tools(), name, tool)),
            final(self).names().no_duplicates(),
            final(self).names().len() == final(self).tools().len(),
    {
        proof {
            use_type_invariant(&*self);
        }
        let name = tool.name().to_owned();
        let ghost n = name@;
        let ghost t = tool;
        let ghost old_entries = self.entries@;
        match self.find(name.as_str()) {
            Some(i) => {
                let mut entries = Vec::new();
                std::mem::swap(&mut entries, &mut self.entries);
                entries.set(i, (name, tool));
                proof {
                    lemma_name_index_props(entry_names(old_entries), n);
                    assert(entry_names(entries@) =~= entry_names(old_entries));
                    assert(entry_tools(entries@) =~= entry_tools(old_entries).update(i as int, tool));
                }
                self.entries = entries;
            },
            None => {
                let mut entries = Vec::new();
                std::mem::swap(&mut entries, &mut self.entries);
                entries.push((name, tool));
                proof {
                    lemma_name_index_props(entry_names(old_entries), n);
                    assert(entry_names(entries@) =~= entry_names(old_entries).push(n));
                    assert(entry_tools(entries@) =~= entry_tools(old_entries).push(tool));
                }
                self.entries = entries;
            },
        }
        proof {
            use_type_invariant(&*self);
            assert(self.names() == registered_names(old(self).names(), n));
            assert(self.tools() == registered_tools(old(self).names(), old(self).tools(), n, t));
        }
    }

    /// Runs the tool registered under the call's name on a copy of the call's
    /// arguments and gives what it gives; fails with "Tool <name> not found"
    /// when there is none.
    pub fn execute(&self, call: &ToolCall) -> (r: Result<Json, TypeError>)
        ensures
            name_index(self.names(), call.tool_name@) == -1 ==> (r matches Err(TypeError::Error(m)) && m@
                == tool_not_found(call.tool_name@)),
            name_index(self.names(), call.tool_name@) != -1 ==> (exists|a: Json|
                a.view() == call.arguments.view() && #[trigger] call_ensures(
                    T::execute,
                    (&self.tools()[name_index(self.names(), call.tool_name@)], a),
                    r,
                )),
    {
        match self.get_tool(call.tool_name.as_str()) {
            Some(t) => t.execute(call.arguments.cloned()),
            None => {
                let head = concat("Tool ", call.tool_name.as_str());
                Err(TypeError::Error(concat(head.as_str(), " not found")))
            },
        }
    }

    /// The definitions that the tools give of themselves, in order.
    pub fn get_definitions(&self) -> (r: Vec<AgentToolDefinition>)
        ensures
            r@.len() == self.tools().len(),
    {
        let mut out: Vec<AgentToolDefinition> = Vec::new();
        let mut i: usize = 0;
        while i < self.entries.len()
            invariant
                i <= self.entries@.len(),
                out@.len() == i,
            decreases self.entries@.len() - i,
        {
            let t = &self.entries[i].1;
            out.push(
                AgentToolDefinition {
                    name: t.name().to_owned(),
                    description: t.description().to_owned(),
                    parameters: t.parameter_schema(),
                },
            );
            i = i + 1;
        }
        out
    }

    /// Whether a tool is registered under `name`.
    pub fn has_sync_tool(&self, name: &str) -> (r: bool)
        ensures
            r == (name_index(self.names(), name@) != -1),
    {
        self.find(name).is_some()
    }

    /// The number of tools.
    pub fn len(&self) -> (r: usize)
        ensures
            r == self.tools().len(),
    {
        self.entries.len()
    }

    /// Whether there are no tools.
    pub fn is_empty(&self) -> (r: bool)
        ensures
            r == (self.tools().len() == 0),
    {
        self.entries.len() == 0
    }
}

/// Looking a name up after registering a tool under it finds that tool, and
/// every other name finds what it found before.
pub proof fn lemma_register_then_lookup<T>(
    names: Seq<Seq<char>>,
    tools: Seq<T>,
    name: Seq<char>,
    tool: T,
    other: Seq<char>,
)
    requires
        names.no_duplicates(),
        names.len() == tools.len(),
    ensures
        name_index(registered_names(names, name), name) != -1,
        registered_tools(names, tools, name, tool)[name_index(registered_names(names, name), name)] == tool,
        other != name ==> name_index(registered_names(names, name), other) == name_index(names, other),
{
    let after = registered_names(names, name);
    let i = name_index(names, name);
    lemma_name_index_props(names, name);
    lemma_name_index_props(names, other);
    if i == -1 {
        assert forall|j: int| 0 <= j < names.len() implies #[trigger] after[j] != name by {
            assert(after[j] == names[j]);
        }
        lemma_name_index_found(after, name, names.len() as int);
        if other != name {
            let k = name_index(names, other);
            if k == -1 {
                assert forall|j: int| 0 <= j < after.len() implies #[trigger] after[j] != other by {
                    if j < names.len() {
                        assert(after[j] == names[j]);
                    }
                }
                lemma_name_index_absent(after, other);
            } else {
                assert forall|j: int| 0 <= j < k implies #[trigger] after[j] != other by {
                    assert(after[j] == names[j]);
                }
                lemma_name_index_found(after, other, k);
            }
        }
    }
}

/// `name_index` is -1 or the index of the first entry with the name.
pub proof fn lemma_name_index_props(names: Seq<Seq<char>>, name: Seq<char>)
    ensures
        -1 <= name_index(names, name) < names.len(),
        name_index(names, name) != -1 ==> names[name_index(names, name)] == name,
        forall|j: int| 0 <= j < names.len() && (name_index(names, name) == -1 || j < name_index(names, name))
            ==> #[trigger] names[j] != name,
    decreases names.len(),
{
    if names.len() > 0 {
        lemma_name_index_props(names.drop_last(), name);
        assert forall|j: int| 0 <= j < names.len() && (name_index(names, name) == -1 || j < name_index(names, name))
            implies #[trigger] names[j] != name by {
            if j < names.len() - 1 {
                assert(names[j] == names.drop_last()[j]);
            }
        }
    }
}

proof fn lemma_name_index_found(names: Seq<Seq<char>>, name: Seq<char>, i: int)
    requires
        0 <= i < names.len(),
        names[i] == name,
        forall|j: int| 0 <= j < i ==> #[trigger] names[j] != name,
    ensures
        name_index(names, name) == i,
    decreases names.len(),
{
    lemma_name_index_props(names, name);
    let k = name_index(names, name);
    if k == -1 {
        assert(names[i] != name);
    } else if k < i {
        assert(names[k] != name);
    } else if k > i {
        assert(names[i] != name);
    }
}

proof fn lemma_name_index_absent(names: Seq<Seq<char>>, name: Seq<char>)
    requires
        forall|j: int| 0 <= j < names.len() ==> #[trigger] names[j] != name,
    ensures
        name_index(names, name) == -1,
{
    lemma_name_index_props(names, name);
    let k = name_index(names, name);
    if k != -1 {
        assert(names[k] != name);
    }
}

} // verus!
