//! Tools and the registry that holds them.
//!
//! A tool is a named operation that takes an optional JSON input and returns
//! content blocks or fails. The registry keeps each tool with the definition
//! under which it was registered, in the order in which the names were first
//! registered; no two of its tools have the same name.

use crate::error::{tool_failed, tool_not_found, McpError, McpErrorView};
use crate::json::{Json, JsonView};
use crate::types::{Content, ContentView, ToolDefinition, ToolDefinitionView};
use vstd::prelude::*;

verus! {

/// Why a tool failed.
#[derive(Debug)]
pub struct ToolError {
    pub message: String,
}

impl View for ToolError {
    type V = Seq<char>;

    open spec fn view(&self) -> Seq<char> {
        self.message@
    }
}

impl ToolError {
    /// A failure with the given message.
    pub fn new(message: &str) -> (error: ToolError)
        ensures
            error@ == message@,
    {
        ToolError { message: message.to_owned() }
    }
}

/// The model of what a call of a tool returned: the content blocks, or the
/// message of the failure.
pub open spec fn returned_view(returned: Result<Vec<Content>, ToolError>) -> Result<
    Seq<ContentView>,
    Seq<char>,
> {
    match returned {
        Ok(blocks) => Ok(blocks.deep_view()),
        Err(error) => Err(error@),
    }
}

/// What a tool author provides: a name, a description, the schema of the
/// input, and the call itself.
///
/// Nothing is asked of an implementation. The registry asks a tool for its
/// name, description and schema once, when the tool is registered, and keeps
/// what it was told. An author who wants to promise something of what a call
/// returns says so in `may_return`; the server's contracts pass the promise
/// on.
pub trait Tool: Send + Sync + 'static {
    fn name(&self) -> String;

    fn description(&self) -> String;

    fn input_schema(&self) -> Json;

    /// Whether a call with `input` may hand back `returned`. A tool that
    /// promises nothing of its calls leaves this as it is: every outcome may
    /// come back.
    open spec fn may_return(
        &self,
        input: Option<JsonView>,
        returned: Result<Seq<ContentView>, Seq<char>>,
    ) -> bool {
        true
    }

    fn call(&self, input: Option<Json>) -> (returned: Result<Vec<Content>, ToolError>)
        ensures
            self.may_return(input.deep_view(), returned_view(returned)),
    ;
}

/// The model of a registered tool: the definition under which it was
/// registered, and the tool.
pub struct EntryView<T> {
    pub definition: ToolDefinitionView,
    pub tool: T,
}

/// The entry of `tool` under `definition`.
pub open spec fn entry<T>(definition: ToolDefinitionView, tool: T) -> EntryView<T> {
    EntryView { definition, tool }
}

/// The definitions of a list of registered tools, in order.
pub open spec fn definitions_of<T>(tools: Seq<EntryView<T>>) -> Seq<ToolDefinitionView> {
    Seq::new(tools.len(), |i: int| tools[i].definition)
}

/// No two tools of the list have the same name.
pub open spec fn distinct_names<T>(tools: Seq<EntryView<T>>) -> bool {
    forall|i: int, j: int|
        0 <= i < j < tools.len() ==> (#[trigger] tools[i]).definition.name != (
        #[trigger] tools[j]).definition.name
}

/// The list has a tool named `name` at `at`.
pub open spec fn named_at<T>(tools: Seq<EntryView<T>>, name: Seq<char>, at: int) -> bool {
    0 <= at < tools.len() && tools[at].definition.name == name
}

/// The list has a tool named `name`.
pub open spec fn has_tool<T>(tools: Seq<EntryView<T>>, name: Seq<char>) -> bool {
    exists|at: int| named_at(tools, name, at)
}

/// Where the tool named `name` stands in the list, if the list has one.
pub open spec fn position<T>(tools: Seq<EntryView<T>>, name: Seq<char>) -> int {
    choose|at: int| named_at(tools, name, at)
}

/// The list after `entry` is registered: it takes the place of the tool that
/// has its name, and goes to the end where there is none.
pub open spec fn registered<T>(tools: Seq<EntryView<T>>, entry: EntryView<T>) -> Seq<
    EntryView<T>,
> {
    if has_tool(tools, entry.definition.name) {
        tools.update(position(tools, entry.definition.name), entry)
    } else {
        tools.push(entry)
    }
}

/// What the registry hands back for what a tool returned: the blocks as they
/// are, or the tool's failure as a failed execution.
pub open spec fn call_outcome(returned: Result<Seq<ContentView>, Seq<char>>) -> Result<
    Seq<ContentView>,
    McpErrorView,
> {
    match returned {
        Ok(blocks) => Ok(blocks),
        Err(message) => Err(tool_failed(message)),
    }
}

/// The model of what the registry hands back.
pub open spec fn outcome_view(outcome: Result<Vec<Content>, McpError>) -> Result<
    Seq<ContentView>,
    McpErrorView,
> {
    match outcome {
        Ok(blocks) => Ok(blocks.deep_view()),
        Err(error) => Err(error@),
    }
}

/// Registering keeps the names distinct, and puts the entry under its name.
pub proof fn lemma_registered_distinct<T>(tools: Seq<EntryView<T>>, entry: EntryView<T>)
    requires
        distinct_names(tools),
    ensures
        distinct_names(registered(tools, entry)),
        has_tool(registered(tools, entry), entry.definition.name),
        registered(tools, entry)[position(registered(tools, entry), entry.definition.name)]
            == entry,
{
    let name = entry.definition.name;
    let after = registered(tools, entry);
    if has_tool(tools, name) {
        let at = position(tools, name);
        assert(named_at(tools, name, at));
        assert forall|i: int, j: int| 0 <= i < j < after.len() implies (
        #[trigger] after[i]).definition.name != (#[trigger] after[j]).definition.name by {
            assert(after[i].definition.name == tools[i].definition.name);
            assert(after[j].definition.name == tools[j].definition.name);
        }
        assert(named_at(after, name, at));
        lemma_position_unique(after, name, at);
    } else {
        assert forall|i: int, j: int| 0 <= i < j < after.len() implies (
        #[trigger] after[i]).definition.name != (#[trigger] after[j]).definition.name by {
            if j == tools.len() {
                assert(!named_at(tools, name, i));
            }
        }
        assert(named_at(after, name, tools.len() as int));
        lemma_position_unique(after, name, tools.len() as int);
    }
}

/// Where names are distinct, a tool with a given name stands at one place
/// only.
pub proof fn lemma_position_unique<T>(tools: Seq<EntryView<T>>, name: Seq<char>, at: int)
    requires
        distinct_names(tools),
        named_at(tools, name, at),
    ensures
        has_tool(tools, name),
        position(tools, name) == at,
{
    let found = position(tools, name);
    assert(named_at(tools, name, found));
    if found < at {
        assert(tools[found].definition.name != tools[at].definition.name);
    }
    if at < found {
        assert(tools[at].definition.name != tools[found].definition.name);
    }
}

/// After two tools with different names are registered, one after the
/// other, the list has both, each under its own name, and the list of
/// definitions shows the definition of each.
pub proof fn law_register_two<T>(
    tools: Seq<EntryView<T>>,
    first: EntryView<T>,
    second: EntryView<T>,
)
    requires
        distinct_names(tools),
        first.definition.name != second.definition.name,
    ensures
        ({
            let after = registered(registered(tools, first), second);
            &&& distinct_names(after)
            &&& has_tool(after, first.definition.name)
            &&& has_tool(after, second.definition.name)
            &&& after[position(after, first.definition.name)] == first
            &&& after[position(after, second.definition.name)] == second
            &&& definitions_of(after).contains(first.definition)
            &&& definitions_of(after).contains(second.definition)
        }),
{
    let once = registered(tools, first);
    let after = registered(once, second);
    lemma_registered_distinct(tools, first);
    lemma_registered_distinct(once, second);
    let at = position(once, first.definition.name);
    assert(named_at(once, first.definition.name, at));
    if has_tool(once, second.definition.name) {
        let other = position(once, second.definition.name);
        assert(named_at(once, second.definition.name, other));
        assert(after[at] == first);
    } else {
        assert(after[at] == first);
    }
    assert(named_at(after, first.definition.name, at));
    lemma_position_unique(after, first.definition.name, at);
    let there = position(after, second.definition.name);
    assert(named_at(after, second.definition.name, there));
    assert(definitions_of(after)[at] == first.definition);
    assert(definitions_of(after)[there] == second.definition);
}

/// Registering a second tool under a name that is taken replaces the first:
/// the list is as long as before, exactly one of its tools has that name,
/// that one is the second tool with its own definition, and every other
/// tool is where it was.
pub proof fn law_register_again_replaces<T>(
    tools: Seq<EntryView<T>>,
    first: EntryView<T>,
    second: EntryView<T>,
)
    requires
        distinct_names(tools),
        first.definition.name == second.definition.name,
    ensures
        ({
            let once = registered(tools, first);
            let twice = registered(once, second);
            let at = position(twice, second.definition.name);
            &&& twice.len() == once.len()
            &&& has_tool(twice, second.definition.name)
            &&& 0 <= at < twice.len()
            &&& twice[at] == second
            &&& forall|i: int|
                0 <= i < twice.len() && i != at ==> (#[trigger] twice[i]).definition.name
                    != second.definition.name && twice[i] == once[i]
            &&& twice == registered(tools, second)
        }),
{
    let name = second.definition.name;
    let once = registered(tools, first);
    let twice = registered(once, second);
    lemma_registered_distinct(tools, first);
    lemma_registered_distinct(once, second);
    let at = position(twice, name);
    assert(named_at(twice, name, at));
    let before = position(once, name);
    assert(named_at(once, name, before));
    assert(named_at(twice, name, before));
    lemma_position_unique(twice, name, before);
    assert forall|i: int| 0 <= i < twice.len() && i != at implies (
    #[trigger] twice[i]).definition.name != name && twice[i] == once[i] by {
        if i < at {
            assert(twice[i].definition.name != twice[at].definition.name);
        } else {
            assert(twice[at].definition.name != twice[i].definition.name);
        }
    }
    if has_tool(tools, name) {
        let old = position(tools, name);
        assert(named_at(tools, name, old));
        assert(named_at(once, name, old));
        lemma_position_unique(once, name, old);
        assert(twice =~= registered(tools, second));
    } else {
        assert(named_at(once, name, tools.len() as int));
        lemma_position_unique(once, name, tools.len() as int);
        assert(twice =~= registered(tools, second));
    }
}

/// A registered tool.
struct Entry<T> {
    definition: ToolDefinition,
    tool: T,
}

impl<T> View for Entry<T> {
    type V = EntryView<T>;

    closed spec fn view(&self) -> EntryView<T> {
        EntryView { definition: self.definition@, tool: self.tool }
    }
}

/// The registry of a server's tools.
pub struct Tools<T: Tool> {
    entries: Vec<Entry<T>>,
}

impl<T: Tool> View for Tools<T> {
    type V = Seq<EntryView<T>>;

    closed spec fn view(&self) -> Seq<EntryView<T>> {
        Seq::new(self.entries@.len(), |i: int| self.entries@[i]@)
    }
}

impl<T: Tool> Default for Tools<T> {
    /// A registry without tools.
    fn default() -> (registry: Tools<T>)
        ensures
            registry@ == Seq::<EntryView<T>>::empty(),
    {
        Tools::new()
    }
}

impl<T: Tool> Tools<T> {
    #[verifier::type_invariant]
    spec fn names_are_distinct(self) -> bool {
        distinct_names(self@)
    }

    /// A registry without tools.
    pub fn new() -> (registry: Tools<T>)
        ensures
            registry@ == Seq::<EntryView<T>>::empty(),
    {
        let registry = Tools { entries: Vec::new() };
        assert(registry@ =~= Seq::<EntryView<T>>::empty());
        registry
    }

    /// Where the tool named `name` stands, if the registry has one.
    fn find(&self, name: &String) -> (found: Option<usize>)
        ensures
            match found {
                Some(at) => has_tool(self@, name@) && position(self@, name@) == at && at
                    < self@.len(),
                None => !has_tool(self@, name@),
            },
    {
        proof {
            use_type_invariant(self);
        }
        let mut i: usize = 0;
        while i < self.entries.len()
            invariant
                i <= self.entries.len(),
                self@.len() == self.entries.len(),
                distinct_names(self@),
                forall|j: int| 0 <= j < i ==> (#[trigger] self@[j]).definition.name != name@,
            decreases self.entries.len() - i,
        {
            assert(self@[i as int] == self.entries@[i as int]@);
            if self.entries[i].definition.name == *name {
                proof {
                    assert(named_at(self@, name@, i as int));
                    lemma_position_unique(self@, name@, i as int);
                }
                return Some(i);
            }
            i = i + 1;
        }
        assert(!has_tool(self@, name@)) by {
            if has_tool(self@, name@) {
                let at = position(self@, name@);
                assert(named_at(self@, name@, at));
                assert(self@[at].definition.name != name@);
            }
        }
        None
    }

    /// Where the tool named `name` stands in the registry's order, and `None`
    /// where the registry has no tool of that name.
    pub fn index_of(&self, name: &str) -> (found: Option<usize>)
        ensures
            match found {
                Some(at) => has_tool(self@, name@) && position(self@, name@) == at && at
                    < self@.len(),
                None => !has_tool(self@, name@),
            },
    {
        let wanted = name.to_owned();
        self.find(&wanted)
    }

    /// The tool that stands at `at` in the registry's order, and `None`
    /// where the registry has fewer tools.
    pub fn tool_at(&self, at: usize) -> (tool: Option<&T>)
        ensures
            match tool {
                Some(found) => at < self@.len() && *found == self@[at as int].tool,
                None => at >= self@.len(),
            },
    {
        if at < self.entries.len() {
            assert(self@[at as int] == self.entries@[at as int]@);
            Some(&self.entries[at].tool)
        } else {
            None
        }
    }

    /// Registers `tool` under `definition`. A tool that was registered under
    /// the definition's name before is replaced, in its place; a tool with a
    /// new name goes to the end.
    pub fn register(&mut self, definition: ToolDefinition, tool: T)
        ensures
            final(self)@ == registered(old(self)@, entry(definition@, tool)),
            distinct_names(final(self)@),
    {
        let ghost before = self@;
        let ghost entry = EntryView { definition: definition@, tool };
        proof {
            use_type_invariant(&*self);
            lemma_registered_distinct(before, entry);
        }
        let found = self.find(&definition.name);
        let mut entries: Vec<Entry<T>> = Vec::new();
        core::mem::swap(&mut self.entries, &mut entries);
        assert(self@ =~= Seq::<EntryView<T>>::empty());
        let ghost taken = entries@;
        match found {
            Some(at) => {
                entries.set(at, Entry { definition, tool });
            },
            None => {
                entries.push(Entry { definition, tool });
            },
        }
        assert(Seq::new(entries@.len(), |i: int| entries@[i]@) =~= registered(before, entry)) by {
            assert(before.len() == taken.len());
            assert forall|i: int| 0 <= i < taken.len() implies before[i] == taken[i]@ by {}
        }
        core::mem::swap(&mut self.entries, &mut entries);
        assert(self@ =~= registered(before, entry));
    }

    /// Registers `tool` under the name, the description and the schema that
    /// it gives when it is asked now.
    pub fn add(&mut self, tool: T)
        ensures
            exists|definition: ToolDefinitionView|
                final(self)@ == registered(old(self)@, #[trigger] entry(definition, tool)),
            distinct_names(final(self)@),
    {
        let definition = ToolDefinition {
            name: tool.name(),
            description: tool.description(),
            input_schema: tool.input_schema(),
        };
        let ghost told = definition@;
        self.register(definition, tool);
        assert(self@ == registered(old(self)@, entry(told, tool)));
    }

    /// The definitions of the registered tools, in the registry's order.
    pub fn list(&self) -> (definitions: Vec<ToolDefinition>)
        ensures
            definitions.deep_view() == definitions_of(self@),
            distinct_names(self@),
    {
        proof {
            use_type_invariant(self);
        }
        let mut definitions: Vec<ToolDefinition> = Vec::new();
        let mut i: usize = 0;
        while i < self.entries.len()
            invariant
                i <= self.entries.len(),
                definitions.len() == i,
                forall|j: int|
                    0 <= j < i ==> (#[trigger] definitions@[j])@ == self.entries@[j].definition@,
            decreases self.entries.len() - i,
        {
            let kept = &self.entries[i].definition;
            definitions.push(
                ToolDefinition {
                    name: kept.name.clone(),
                    description: kept.description.clone(),
                    input_schema: kept.input_schema.duplicate(),
                },
            );
            i = i + 1;
        }
        assert(definitions.deep_view() =~= definitions_of(self@));
        definitions
    }

    /// What the registry hands back for what a tool returned.
    pub fn outcome(returned: Result<Vec<Content>, ToolError>) -> (outcome: Result<
        Vec<Content>,
        McpError,
    >)
        ensures
            outcome_view(outcome) == call_outcome(returned_view(returned)),
    {
        match returned {
            Ok(blocks) => Ok(blocks),
            Err(error) => Err(McpError::tool_failed(error.message)),
        }
    }

    /// Calls the tool named `name` with `args`. Without such a tool the call
    /// fails with `ToolNotFound`, and no tool is called. With one, that tool
    /// is called once with `args` as they are, and what it returns, which is
    /// something that it may return for `args`, is handed back as
    /// [`Tools::outcome`] says: its blocks unchanged, or its failure as
    /// `ToolExecutionError`.
    pub fn call(&self, name: &str, args: Option<Json>) -> (outcome: Result<Vec<Content>, McpError>)
        ensures
            !has_tool(self@, name@) ==> outcome_view(outcome) == Err::<
                Seq<ContentView>,
                McpErrorView,
            >(tool_not_found(name@)),
            has_tool(self@, name@) ==> exists|returned: Result<Seq<ContentView>, Seq<char>>|
                #![trigger call_outcome(returned)]
                self@[position(self@, name@)].tool.may_return(args.deep_view(), returned)
                    && outcome_view(outcome) == call_outcome(returned),
    {
        let wanted = name.to_owned();
        match self.find(&wanted) {
            Some(at) => {
                assert(self@[at as int] == self.entries@[at as int]@);
                let returned = self.entries[at].tool.call(args);
                let outcome = Tools::<T>::outcome(returned);
                assert(self@[at as int].tool.may_return(args.deep_view(), returned_view(returned))
                    && outcome_view(outcome) == call_outcome(returned_view(returned)));
                outcome
            },
            None => Err(McpError::tool_not_found(name)),
        }
    }
}

} // verus!
