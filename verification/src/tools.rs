//! The tool registry and dispatcher.
//!
//! A registry maps each tool name to the tool's definition and the tool
//! itself, and holds at most one entry per name. Invoking a name always
//! yields a structured answer: an unknown name and a failing tool both
//! become an answer flagged as an error, never a failure of the caller.

use crate::types::{
    error_response, same_text, CallToolRequest, CallToolResponse, CallToolResponseView,
    ToolDefinition,
};
use vstd::prelude::*;

verus! {

/// Why a tool could not do its work.
#[derive(Clone, Debug, PartialEq)]
pub struct ToolError {
    pub message: String,
}

/// A named handler that the serving side offers to its peer.
pub trait Tool: Send + Sync + 'static {
    /// The name under which the tool is registered and invoked.
    fn name(&self) -> String;

    /// One line that tells the peer what the tool does.
    fn description(&self) -> String;

    /// The schema of the arguments that the tool accepts.
    fn input_schema(&self) -> serde_json::Value;

    /// Runs the tool on the given arguments.
    fn call(&self, input: Option<serde_json::Value>) -> Result<CallToolResponse, ToolError>;

    /// The definition under which the tool is listed: what
    /// [`ToolDefinition::described`] makes of what `name`, `description`
    /// and `input_schema` return for this tool. An implementation that
    /// replaces this method has to keep to that.
    fn as_definition(&self) -> (definition: ToolDefinition)
        ensures
            exists|name: String, description: String, input_schema: serde_json::Value|
                #![trigger definition_from(name, description, input_schema)]
                call_ensures(Self::name, (self,), name) && call_ensures(
                    Self::description,
                    (self,),
                    description,
                ) && call_ensures(Self::input_schema, (self,), input_schema) && definition
                    == definition_from(name, description, input_schema),
    {
        let name = self.name();
        let description = self.description();
        let input_schema = self.input_schema();
        let definition = ToolDefinition::described(name, description, input_schema);
        assert(definition_from(name, description, input_schema) == definition);
        definition
    }
}

/// The definition of a tool with the given name, description and input
/// schema.
pub open spec fn definition_from(
    name: String,
    description: String,
    input_schema: serde_json::Value,
) -> ToolDefinition {
    ToolDefinition { name, description: Some(description), input_schema }
}

/// One entry of a registry: a tool and the definition it was registered
/// with. The name of the definition is the key of the entry.
pub struct Registration<T: Tool> {
    pub definition: ToolDefinition,
    pub tool: T,
}

/// Whether some entry goes by `name`.
pub open spec fn has_tool<T: Tool>(entries: Seq<Registration<T>>, name: Seq<char>) -> bool {
    exists|i: int| 0 <= i < entries.len() && (#[trigger] entries[i]).definition.name@ == name
}

/// The place of the entry that goes by `name`, where there is one.
pub open spec fn position_of<T: Tool>(entries: Seq<Registration<T>>, name: Seq<char>) -> int {
    choose|i: int| 0 <= i < entries.len() && (#[trigger] entries[i]).definition.name@ == name
}

/// The entry that goes by `name`, where there is one.
pub open spec fn lookup<T: Tool>(entries: Seq<Registration<T>>, name: Seq<char>) -> Option<
    Registration<T>,
> {
    if has_tool(entries, name) {
        Some(entries[position_of(entries, name)])
    } else {
        None
    }
}

/// The places of the entries that go by `name`.
pub open spec fn named<T: Tool>(entries: Seq<Registration<T>>, name: Seq<char>) -> Set<int> {
    Set::new(|i: int| 0 <= i < entries.len() && entries[i].definition.name@ == name)
}

/// No two entries share a name.
pub open spec fn distinct_names<T: Tool>(entries: Seq<Registration<T>>) -> bool {
    forall|i: int, j: int|
        0 <= i < j < entries.len() ==> (#[trigger] entries[i]).definition.name@ != (
        #[trigger] entries[j]).definition.name@
}

/// The registry after `entry` was registered: it takes the place of the
/// entry that had its name, or the last place where none had it.
pub open spec fn registered<T: Tool>(entries: Seq<Registration<T>>, entry: Registration<T>) -> Seq<
    Registration<T>,
> {
    if has_tool(entries, entry.definition.name@) {
        entries.update(position_of(entries, entry.definition.name@), entry)
    } else {
        entries.push(entry)
    }
}

/// The text of the answer for a name that no tool goes by.
pub open spec fn not_found_text(name: Seq<char>) -> Seq<char> {
    "Tool "@ + name + " not found"@
}

/// The text of the answer for a tool that failed with `message`.
pub open spec fn failure_text(name: Seq<char>, message: Seq<char>) -> Seq<char> {
    "Error calling tool "@ + name + ": "@ + message
}

/// The answer that the dispatcher gives for what the tool named `name`
/// returned: the tool's own answer, or a failed answer that describes the
/// tool's error.
pub open spec fn outcome_of(
    name: Seq<char>,
    result: Result<CallToolResponse, ToolError>,
) -> CallToolResponseView {
    match result {
        Ok(response) => response@,
        Err(error) => error_response(failure_text(name, error.message@)),
    }
}

/// Turns what a tool returned into the dispatcher's answer. A successful
/// answer is handed on unchanged; an error becomes a failed answer whose
/// single content item names the tool and quotes the error.
pub fn call_outcome(name: &str, result: Result<CallToolResponse, ToolError>) -> (response:
    CallToolResponse)
    ensures
        response@ == outcome_of(name@, result),
        result matches Ok(answer) ==> response == answer,
{
    match result {
        Ok(answer) => answer,
        Err(error) => {
            let mut text = String::from_str("Error calling tool ");
            text.append(name);
            text.append(": ");
            text.append(error.message.as_str());
            CallToolResponse::error(text)
        },
    }
}

/// The answer for a name that no tool goes by.
pub fn not_found(name: &str) -> (response: CallToolResponse)
    ensures
        response@ == error_response(not_found_text(name@)),
{
    let mut text = String::from_str("Tool ");
    text.append(name);
    text.append(" not found");
    CallToolResponse::error(text)
}

/// A registry of tools, one per name, in the order in which the names were
/// first registered.
pub struct Tools<T: Tool> {
    entries: Vec<Registration<T>>,
}

impl<T: Tool> View for Tools<T> {
    type V = Seq<Registration<T>>;

    closed spec fn view(&self) -> Seq<Registration<T>> {
        self.entries@
    }
}

impl<T: Tool> Default for Tools<T> {
    /// The registry with no tool in it.
    fn default() -> (tools: Tools<T>)
        ensures
            tools@ == Seq::<Registration<T>>::empty(),
    {
        Tools { entries: Vec::new() }
    }
}

impl<T: Tool> Tools<T> {
    #[verifier::type_invariant]
    spec fn names_are_keys(self) -> bool {
        distinct_names(self.entries@)
    }

    /// The place of the entry named `name`.
    fn find(&self, name: &str) -> (found: Option<usize>)
        ensures
            match found {
                Some(i) => i < self@.len() && self@[i as int].definition.name@ == name@,
                None => !has_tool(self@, name@),
            },
    {
        let mut i: usize = 0;
        while i < self.entries.len()
            invariant
                i <= self.entries@.len(),
                forall|j: int|
                    0 <= j < i ==> (#[trigger] self.entries@[j]).definition.name@ != name@,
            decreases self.entries@.len() - i,
        {
            if same_text(self.entries[i].definition.name.as_str(), name) {
                return Some(i);
            }
            i += 1;
        }
        None
    }

    /// How many tools are registered.
    pub fn len(&self) -> (n: usize)
        ensures
            n == self@.len(),
            distinct_names(self@),
    {
        proof {
            use_type_invariant(self);
        }
        self.entries.len()
    }

    /// Registers `tool` under the name of `definition`. An entry that was
    /// registered under the same name is replaced, definition and tool: the
    /// last registration wins.
    pub fn register(&mut self, definition: ToolDefinition, tool: T)
        ensures
            final(self)@ == registered(old(self)@, Registration { definition, tool }),
            distinct_names(final(self)@),
    {
        proof {
            use_type_invariant(&*self);
        }
        let place = self.find(definition.name.as_str());
        let entry = Registration { definition, tool };
        proof {
            lemma_registered_keeps_names_distinct(self@, entry);
            if let Some(i) = place {
                lemma_position_is_unique(self@, i as int);
            }
        }
        let mut entries: Vec<Registration<T>> = Vec::new();
        std::mem::swap(&mut self.entries, &mut entries);
        match place {
            Some(i) => {
                entries.set(i, entry);
            },
            None => {
                entries.push(entry);
            },
        }
        self.entries = entries;
    }

    /// Registers `tool` under its own name, with the definition that it
    /// gives of itself: [`Tools::register`] with what `as_definition`
    /// returned for it.
    pub fn add_tool(&mut self, tool: T)
        ensures
            exists|definition: ToolDefinition|
                call_ensures(T::as_definition, (&tool,), definition) && final(self)@
                    == #[trigger] registered(old(self)@, Registration { definition, tool }),
            distinct_names(final(self)@),
    {
        let definition = tool.as_definition();
        self.register(definition, tool);
    }

    /// The definitions of all registered tools, one per name, in the order
    /// of the registry.
    pub fn list_tools(&self) -> (definitions: Vec<ToolDefinition>)
        ensures
            definitions@.len() == self@.len(),
            forall|i: int|
                0 <= i < self@.len() ==> (#[trigger] definitions@[i])@ == self@[i].definition@,
            distinct_names(self@),
    {
        proof {
            use_type_invariant(self);
        }
        let mut definitions: Vec<ToolDefinition> = Vec::new();
        let mut i: usize = 0;
        while i < self.entries.len()
            invariant
                i <= self.entries@.len(),
                definitions@.len() == i,
                forall|j: int|
                    0 <= j < i ==> (#[trigger] definitions@[j])@ == self.entries@[j].definition@,
            decreases self.entries@.len() - i,
        {
            definitions.push(self.entries[i].definition.duplicate());
            i += 1;
        }
        definitions
    }

    /// Invokes the tool that `request` names. An unknown name yields a failed
    /// answer that says so. Otherwise the tool registered under the name is
    /// called with the request's arguments, and the answer is
    /// [`call_outcome`] of what it returned.
    pub fn call_tool(&self, request: CallToolRequest) -> (response: CallToolResponse)
        ensures
            !has_tool(self@, request.name@) ==> response@ == error_response(
                not_found_text(request.name@),
            ),
            has_tool(self@, request.name@) ==> exists|result: Result<CallToolResponse, ToolError>|
                call_ensures(
                    T::call,
                    (&self@[position_of(self@, request.name@)].tool, request.arguments),
                    result,
                ) && response@ == #[trigger] outcome_of(request.name@, result),
    {
        proof {
            use_type_invariant(self);
        }
        match self.find(request.name.as_str()) {
            None => not_found(request.name.as_str()),
            Some(i) => {
                proof {
                    lemma_position_is_unique(self@, i as int);
                }
                let result = self.entries[i].tool.call(request.arguments);
                let response = call_outcome(request.name.as_str(), result);
                assert(response@ == outcome_of(request.name@, result));
                response
            },
        }
    }
}

/// In a registry with distinct names, the place of a name is the one place
/// where an entry goes by it.
pub proof fn lemma_position_is_unique<T: Tool>(entries: Seq<Registration<T>>, i: int)
    requires
        distinct_names(entries),
        0 <= i < entries.len(),
    ensures
        has_tool(entries, entries[i].definition.name@),
        position_of(entries, entries[i].definition.name@) == i,
        lookup(entries, entries[i].definition.name@) == Some(entries[i]),
{
    let name = entries[i].definition.name@;
    assert(has_tool(entries, name));
    let p = position_of(entries, name);
    assert(0 <= p < entries.len() && entries[p].definition.name@ == name);
    if p < i {
        assert(entries[p].definition.name@ != entries[i].definition.name@);
    } else if i < p {
        assert(entries[i].definition.name@ != entries[p].definition.name@);
    }
}

/// Registering an entry keeps the names of the registry distinct.
pub proof fn lemma_registered_keeps_names_distinct<T: Tool>(
    entries: Seq<Registration<T>>,
    entry: Registration<T>,
)
    requires
        distinct_names(entries),
    ensures
        distinct_names(registered(entries, entry)),
{
    let after = registered(entries, entry);
    let name = entry.definition.name@;
    if has_tool(entries, name) {
        assert forall|i: int, j: int| 0 <= i < j < after.len() implies (
        #[trigger] after[i]).definition.name@ != (#[trigger] after[j]).definition.name@ by {
            assert(after[i].definition.name@ == entries[i].definition.name@);
            assert(after[j].definition.name@ == entries[j].definition.name@);
        }
    } else {
        assert forall|i: int, j: int| 0 <= i < j < after.len() implies (
        #[trigger] after[i]).definition.name@ != (#[trigger] after[j]).definition.name@ by {
            if j < entries.len() {
                assert(after[i].definition.name@ == entries[i].definition.name@);
                assert(after[j].definition.name@ == entries[j].definition.name@);
            } else {
                assert(after[i] == entries[i]);
                assert(entries[i].definition.name@ != name);
            }
        }
    }
}

/// An entry that was just registered is the one that its name leads to.
pub proof fn lemma_registered_is_found<T: Tool>(
    entries: Seq<Registration<T>>,
    entry: Registration<T>,
)
    requires
        distinct_names(entries),
    ensures
        lookup(registered(entries, entry), entry.definition.name@) == Some(entry),
{
    let after = registered(entries, entry);
    let name = entry.definition.name@;
    lemma_registered_keeps_names_distinct(entries, entry);
    let place = if has_tool(entries, name) {
        position_of(entries, name)
    } else {
        entries.len() as int
    };
    assert(after[place] == entry);
    lemma_position_is_unique(after, place);
}

/// Registering an entry changes nothing for any other name.
pub proof fn lemma_registered_keeps_other_names<T: Tool>(
    entries: Seq<Registration<T>>,
    entry: Registration<T>,
    name: Seq<char>,
)
    requires
        distinct_names(entries),
        name != entry.definition.name@,
    ensures
        lookup(registered(entries, entry), name) == lookup(entries, name),
{
    let after = registered(entries, entry);
    lemma_registered_keeps_names_distinct(entries, entry);
    if has_tool(entries, name) {
        let p = position_of(entries, name);
        assert(after[p] == entries[p]);
        lemma_position_is_unique(after, p);
    } else if has_tool(after, name) {
        let p = position_of(after, name);
        if p < entries.len() {
            assert(after[p].definition.name@ == entries[p].definition.name@);
        }
    }
}

/// The last registration wins: after two entries were registered under one
/// name, one after the other, the registry holds one entry for that name,
/// it is the second, definition and tool, and the registry is what it would
/// be had the first never been registered.
pub proof fn lemma_last_registration_wins<T: Tool>(
    entries: Seq<Registration<T>>,
    first: Registration<T>,
    second: Registration<T>,
)
    requires
        distinct_names(entries),
        first.definition.name@ == second.definition.name@,
    ensures
        registered(registered(entries, first), second) == registered(entries, second),
        registered(registered(entries, first), second).len() == registered(entries, first).len(),
        lookup(registered(registered(entries, first), second), second.definition.name@) == Some(
            second,
        ),
        named(registered(registered(entries, first), second), second.definition.name@).len() == 1,
{
    let name = first.definition.name@;
    let once = registered(entries, first);
    let twice = registered(once, second);
    lemma_registered_keeps_names_distinct(entries, first);
    lemma_registered_keeps_names_distinct(once, second);
    lemma_registered_is_found(once, second);
    let place = if has_tool(entries, name) {
        position_of(entries, name)
    } else {
        entries.len() as int
    };
    assert(once[place] == first);
    lemma_position_is_unique(once, place);
    assert(twice =~= registered(entries, second));
    let p = position_of(twice, name);
    assert(named(twice, name) =~= set![p]) by {
        assert forall|i: int| named(twice, name).contains(i) implies i == p by {
            lemma_position_is_unique(twice, i);
        }
    }
}

} // verus!
