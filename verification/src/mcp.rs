//! The tool interface: parameters, the result envelope, the capability that
//! every tool offers, and the registry that dispatches by name.

use crate::json::{
    fields_view, find_field, items_view, lookup, option_json, option_text, pairs_view,
    push_field, strings_view, JsonModel, JsonValue,
};
use crate::audit::SecurityAuditTool;
use crate::gas::GasOptimizationTool;
use crate::openzeppelin::{openzeppelin_model, standard_templates, OpenZeppelinTool};
use crate::text::{joined, same_text};
use vstd::prelude::*;
use vstd::string::*;

verus! {

/// The result envelope of a tool invocation, the same for every tool.
#[derive(Debug, Clone, PartialEq, Eq)]
pub struct MCPToolResult {
    pub success: bool,
    pub data: JsonValue,
    pub error: Option<String>,
    pub metadata: Option<Vec<(String, String)>>,
}

/// The mathematical model of a result envelope.
pub struct ToolResultModel {
    pub success: bool,
    pub data: JsonModel,
    pub error: Option<Seq<char>>,
    pub metadata: Option<Seq<(Seq<char>, Seq<char>)>>,
}

impl View for MCPToolResult {
    type V = ToolResultModel;

    open spec fn view(&self) -> ToolResultModel {
        ToolResultModel {
            success: self.success,
            data: self.data@,
            error: option_text(self.error),
            metadata: match self.metadata {
                Some(pairs) => Some(pairs_view(pairs@)),
                None => None,
            },
        }
    }
}

/// The envelope of a successful invocation that carries `data`.
pub open spec fn success_with(data: JsonModel) -> ToolResultModel {
    ToolResultModel { success: true, data, error: None, metadata: None }
}

/// The envelope of an invocation that failed with `message`.
pub open spec fn failure_with(message: Seq<char>) -> ToolResultModel {
    ToolResultModel { success: false, data: JsonModel::Null, error: Some(message), metadata: None }
}

impl MCPToolResult {
    /// The envelope of a successful invocation that carries `data`.
    pub fn success(data: JsonValue) -> (r: MCPToolResult)
        ensures
            r@ == success_with(data@),
    {
        MCPToolResult { success: true, data, error: None, metadata: None }
    }

    /// The envelope of an invocation that failed with `message`.
    pub fn failure(message: String) -> (r: MCPToolResult)
        ensures
            r@ == failure_with(message@),
    {
        MCPToolResult {
            success: false,
            data: JsonValue::Null,
            error: Some(message),
            metadata: None,
        }
    }
}

/// The mapping that a list of entries stands for: a later entry replaces an
/// earlier one with the same name.
pub open spec fn entries_map(entries: Seq<(Seq<char>, JsonModel)>) -> Map<Seq<char>, JsonModel>
    decreases entries.len(),
{
    if entries.len() == 0 {
        Map::empty()
    } else {
        entries_map(entries.drop_last()).insert(entries.last().0, entries.last().1)
    }
}

/// What `params` holds under `name`, if anything.
pub open spec fn param(params: Map<Seq<char>, JsonModel>, name: Seq<char>) -> Option<JsonModel> {
    if params.contains_key(name) {
        Some(params[name])
    } else {
        None
    }
}

/// The text under `name`, or `default` where the parameter is missing or is
/// no string.
pub open spec fn text_param(
    params: Map<Seq<char>, JsonModel>,
    name: Seq<char>,
    default: Seq<char>,
) -> Seq<char> {
    match param(params, name) {
        Some(JsonModel::Str(s)) => s,
        _ => default,
    }
}

/// The texts among `items`, in order; items that are no strings are left out.
pub open spec fn texts_of(items: Seq<JsonModel>) -> Seq<Seq<char>>
    decreases items.len(),
{
    if items.len() == 0 {
        Seq::empty()
    } else {
        match items.last() {
            JsonModel::Str(s) => texts_of(items.drop_last()).push(s),
            _ => texts_of(items.drop_last()),
        }
    }
}

/// The texts of the array under `name`, or the empty list where the parameter
/// is missing or is no array.
pub open spec fn text_list_param(params: Map<Seq<char>, JsonModel>, name: Seq<char>) -> Seq<
    Seq<char>,
> {
    match param(params, name) {
        Some(JsonModel::Array(items)) => texts_of(items),
        _ => Seq::empty(),
    }
}

/// Looking a name up in a list of entries is looking it up in the mapping
/// that the list stands for.
pub proof fn lemma_find_field_is_param(entries: Seq<(Seq<char>, JsonModel)>, name: Seq<char>)
    ensures
        find_field(entries, name) == param(entries_map(entries), name),
    decreases entries.len(),
{
    if entries.len() > 0 {
        lemma_find_field_is_param(entries.drop_last(), name);
    }
}

/// The parameters of a tool invocation: a mapping from names to loosely typed
/// values. A tool has to cope with any of them missing or of another type.
#[derive(Debug, Clone)]
pub struct ToolParameters {
    entries: Vec<(String, JsonValue)>,
}

impl View for ToolParameters {
    type V = Map<Seq<char>, JsonModel>;

    closed spec fn view(&self) -> Map<Seq<char>, JsonModel> {
        entries_map(fields_view(self.entries@))
    }
}

impl ToolParameters {
    /// No parameters.
    pub fn new() -> (r: ToolParameters)
        ensures
            r@ == Map::<Seq<char>, JsonModel>::empty(),
    {
        let r = ToolParameters { entries: Vec::new() };
        assert(fields_view(r.entries@) =~= Seq::empty());
        r
    }

    /// Sets the parameter `name` to `value`, replacing what it held before.
    pub fn insert(&mut self, name: &str, value: JsonValue)
        ensures
            final(self)@ == old(self)@.insert(name@, value@),
    {
        let ghost before = fields_view(self.entries@);
        push_field(&mut self.entries, name, value);
        assert(fields_view(self.entries@).drop_last() =~= before);
    }

    /// What is held under `name`, if anything.
    pub fn get(&self, name: &str) -> (r: Option<&JsonValue>)
        ensures
            option_json(r) == param(self@, name@),
    {
        proof {
            lemma_find_field_is_param(fields_view(self.entries@), name@);
        }
        lookup(&self.entries, name)
    }

    /// The text under `name`, or `default` where the parameter is missing or
    /// is no string.
    pub fn text_or<'a>(&'a self, name: &str, default: &'a str) -> (r: &'a str)
        ensures
            r@ == text_param(self@, name@, default@),
    {
        match self.get(name) {
            Some(value) => match value.as_str() {
                Some(s) => s,
                None => default,
            },
            None => default,
        }
    }

    /// The texts of the array under `name`, or the empty list where the
    /// parameter is missing or is no array. Items that are no strings are
    /// left out.
    pub fn text_list(&self, name: &str) -> (r: Vec<String>)
        ensures
            strings_view(r@) == text_list_param(self@, name@),
    {
        let mut texts: Vec<String> = Vec::new();
        match self.get(name) {
            Some(value) => match value.as_array() {
                Some(items) => {
                    let mut i: usize = 0;
                    assert(items_view(items@).take(0) =~= Seq::empty());
                    assert(strings_view(texts@) =~= Seq::empty());
                    while i < items.len()
                        invariant
                            i <= items.len(),
                            strings_view(texts@) == texts_of(items_view(items@).take(i as int)),
                        decreases items.len() - i,
                    {
                        let ghost before = strings_view(texts@);
                        let ghost seen = items_view(items@).take(i + 1);
                        assert(seen.drop_last() =~= items_view(items@).take(i as int));
                        assert(seen.last() == items@[i as int]@);
                        match items[i].as_str() {
                            Some(s) => {
                                texts.push(s.to_owned());
                                assert(strings_view(texts@) =~= before.push(s@));
                            },
                            None => {},
                        }
                        i += 1;
                    }
                    assert(items_view(items@).take(i as int) =~= items_view(items@));
                },
                None => {
                    assert(strings_view(texts@) =~= Seq::empty());
                },
            },
            None => {
                assert(strings_view(texts@) =~= Seq::empty());
            },
        }
        texts
    }
}

/// What a tool is, as far as a caller can tell: its name, its description and
/// the result it gives for each set of parameters.
#[verifier::ext_equal]
pub struct ToolModel {
    pub name: Seq<char>,
    pub description: Seq<char>,
    pub behaviour: spec_fn(Map<Seq<char>, JsonModel>) -> ToolResultModel,
}

/// A named, stateless unit of analysis or template lookup.
///
/// `execute` never fails: where parameters are missing or malformed it falls
/// back on the tool's defaults, and it reports a failure of its own through
/// the envelope. Its result depends on the tool and the parameters alone.
///
/// A tool states its model in the three specification functions; the
/// executable functions are held to it.
pub trait MCPTool: Send + Sync {
    /// The name under which the tool is registered.
    spec fn name_spec(&self) -> Seq<char>;

    /// What the tool is for, in a sentence.
    spec fn description_spec(&self) -> Seq<char>;

    /// The result of the tool for the given parameters.
    spec fn execute_spec(&self, params: Map<Seq<char>, JsonModel>) -> ToolResultModel;

    fn name(&self) -> (r: &str)
        ensures
            r@ == self.name_spec(),
    ;

    fn description(&self) -> (r: &str)
        ensures
            r@ == self.description_spec(),
    ;

    fn execute(&self, params: &ToolParameters) -> (r: MCPToolResult)
        ensures
            r@ == self.execute_spec(params@),
    ;
}

/// The model of a tool.
pub open spec fn model_of<T: MCPTool + ?Sized>(tool: &T) -> ToolModel {
    ToolModel {
        name: tool.name_spec(),
        description: tool.description_spec(),
        behaviour: |params: Map<Seq<char>, JsonModel>| tool.execute_spec(params),
    }
}

/// Invoking a tool twice with the same parameters gives the same result: an
/// invocation leaves no trace in the tool.
pub proof fn lemma_execute_is_repeatable<T: MCPTool + ?Sized>(
    tool: &T,
    params: &ToolParameters,
    first: MCPToolResult,
    second: MCPToolResult,
)
    requires
        call_ensures(T::execute, (tool, params), first),
        call_ensures(T::execute, (tool, params), second),
    ensures
        first@ == second@,
{
}

/// Where the tool named `name` stands in `tools`, if there is one. Of
/// several tools with that name it is the first.
pub open spec fn index_of(tools: Seq<ToolModel>, name: Seq<char>) -> Option<int>
    decreases tools.len(),
{
    if tools.len() == 0 {
        None
    } else {
        match index_of(tools.drop_last(), name) {
            Some(i) => Some(i),
            None => if tools.last().name == name {
                Some(tools.len() - 1)
            } else {
                None
            },
        }
    }
}

/// The tool named `name`, if there is one.
pub open spec fn find_tool(tools: Seq<ToolModel>, name: Seq<char>) -> Option<ToolModel> {
    match index_of(tools, name) {
        Some(i) => Some(tools[i]),
        None => None,
    }
}

/// The names of `tools`, in order.
pub open spec fn names_of(tools: Seq<ToolModel>) -> Seq<Seq<char>> {
    Seq::new(tools.len(), |i: int| tools[i].name)
}

/// No two of `tools` have the same name.
pub open spec fn distinct_names(tools: Seq<ToolModel>) -> bool {
    forall|i: int, j: int|
        0 <= i < j < tools.len() ==> (#[trigger] tools[i]).name != (#[trigger] tools[j]).name
}

/// The tools after `tool` was registered: it takes the place of the tool with
/// its name, or comes last where there was none.
pub open spec fn registered(tools: Seq<ToolModel>, tool: ToolModel) -> Seq<ToolModel> {
    match index_of(tools, tool.name) {
        Some(i) => tools.update(i, tool),
        None => tools.push(tool),
    }
}

/// The result of invoking the tool named `name`: what that tool gives, or a
/// failure that names the tool where none is registered under the name.
pub open spec fn dispatch(
    tools: Seq<ToolModel>,
    name: Seq<char>,
    params: Map<Seq<char>, JsonModel>,
) -> ToolResultModel {
    match find_tool(tools, name) {
        Some(tool) => (tool.behaviour)(params),
        None => failure_with("Tool not found: "@ + name),
    }
}

/// `index_of` gives a position of a tool with the name, and the first one;
/// it gives none exactly where no tool has the name.
pub proof fn lemma_index_of(tools: Seq<ToolModel>, name: Seq<char>)
    ensures
        match index_of(tools, name) {
            Some(i) => 0 <= i < tools.len() && tools[i].name == name && forall|j: int|
                0 <= j < i ==> (#[trigger] tools[j]).name != name,
            None => forall|j: int| 0 <= j < tools.len() ==> (#[trigger] tools[j]).name != name,
        },
    decreases tools.len(),
{
    if tools.len() > 0 {
        let rest = tools.drop_last();
        lemma_index_of(rest, name);
        assert forall|j: int| 0 <= j < rest.len() implies rest[j] == tools[j] by {}
        match index_of(rest, name) {
            Some(i) => {
                assert forall|j: int| 0 <= j < i implies (#[trigger] tools[j]).name != name by {
                    assert(rest[j].name != name);
                }
            },
            None => {
                assert forall|j: int| 0 <= j < tools.len() - 1 implies (#[trigger] tools[j]).name
                    != name by {
                    assert(rest[j].name != name);
                }
            },
        }
    }
}

/// A tool that has the name, with no tool of that name before it, is the one
/// that `index_of` gives.
pub proof fn lemma_index_is_first(tools: Seq<ToolModel>, name: Seq<char>, at: int)
    requires
        0 <= at < tools.len(),
        tools[at].name == name,
        forall|j: int| 0 <= j < at ==> (#[trigger] tools[j]).name != name,
    ensures
        index_of(tools, name) == Some(at),
{
    lemma_index_of(tools, name);
}

/// After a tool was registered it is the one found under its name, and every
/// other name leads where it led before.
pub proof fn lemma_registered_is_found(tools: Seq<ToolModel>, tool: ToolModel)
    ensures
        find_tool(registered(tools, tool), tool.name) == Some(tool),
        forall|other: Seq<char>|
            other != tool.name ==> #[trigger] find_tool(registered(tools, tool), other)
                == find_tool(tools, other),
{
    let after = registered(tools, tool);
    lemma_index_of(tools, tool.name);
    match index_of(tools, tool.name) {
        Some(i) => {
            assert forall|j: int| 0 <= j < i implies (#[trigger] after[j]).name != tool.name by {
                assert(tools[j].name != tool.name);
            }
            lemma_index_is_first(after, tool.name, i);
        },
        None => {
            assert forall|j: int| 0 <= j < tools.len() implies (#[trigger] after[j]).name
                != tool.name by {
                assert(tools[j].name != tool.name);
            }
            lemma_index_is_first(after, tool.name, tools.len() as int);
        },
    }
    assert forall|other: Seq<char>| other != tool.name implies #[trigger] find_tool(after, other)
        == find_tool(tools, other) by {
        lemma_index_of(tools, other);
        lemma_index_of(after, other);
        match index_of(tools, other) {
            Some(i) => {
                assert(after[i] == tools[i]);
                assert forall|j: int| 0 <= j < i implies (#[trigger] after[j]).name != other by {
                    assert(tools[j].name != other);
                }
                lemma_index_is_first(after, other, i);
            },
            None => {
                match index_of(after, other) {
                    Some(k) => {
                        if k < tools.len() {
                            assert(tools[k].name != other);
                        }
                    },
                    None => {},
                }
            },
        }
    }
}

/// Where no two tools had one name, none have after a tool was registered.
pub proof fn lemma_registered_keeps_names_distinct(tools: Seq<ToolModel>, tool: ToolModel)
    requires
        distinct_names(tools),
    ensures
        distinct_names(registered(tools, tool)),
{
    let after = registered(tools, tool);
    lemma_index_of(tools, tool.name);
    assert forall|a: int, b: int| 0 <= a < b < after.len() implies (#[trigger] after[a]).name != (
    #[trigger] after[b]).name by {
        if b < tools.len() {
            assert(tools[a].name != tools[b].name);
        } else {
            assert(tools[a].name != tool.name);
        }
    }
}

/// A name is found exactly where it is among the names of the tools.
pub proof fn lemma_found_iff_named(tools: Seq<ToolModel>, name: Seq<char>)
    ensures
        find_tool(tools, name) is Some <==> names_of(tools).contains(name),
{
    lemma_index_of(tools, name);
    match index_of(tools, name) {
        Some(i) => {
            assert(names_of(tools)[i] == name);
        },
        None => {
            if names_of(tools).contains(name) {
                let j = choose|j: int| 0 <= j < names_of(tools).len() && names_of(tools)[j] == name;
                assert(tools[j].name == name);
            }
        },
    }
}

/// Registering a tool under a name that is taken changes one place and no
/// other: the registry is as long as before, the tool stands where the tool
/// of its name stood, and its name occurs nowhere else.
pub proof fn lemma_registered_in_place(tools: Seq<ToolModel>, tool: ToolModel)
    requires
        distinct_names(tools),
        index_of(tools, tool.name) is Some,
    ensures
        registered(tools, tool).len() == tools.len(),
        registered(tools, tool)[index_of(tools, tool.name)->0] == tool,
        forall|j: int|
            0 <= j < tools.len() && j != index_of(tools, tool.name)->0 ==> {
                &&& (#[trigger] registered(tools, tool)[j]) == tools[j]
                &&& registered(tools, tool)[j].name != tool.name
            },
{
    lemma_index_of(tools, tool.name);
    let i = index_of(tools, tool.name)->0;
    assert forall|j: int| 0 <= j < tools.len() && j != i implies {
        &&& (#[trigger] registered(tools, tool)[j]) == tools[j]
        &&& registered(tools, tool)[j].name != tool.name
    } by {
        if j < i {
            assert(tools[j].name != tools[i].name);
        } else {
            assert(tools[i].name != tools[j].name);
        }
    }
}

/// Of two tools registered under one name only the second can be found, and
/// the registry is as if the first had never been registered.
pub proof fn lemma_last_registration_wins(
    tools: Seq<ToolModel>,
    first: ToolModel,
    second: ToolModel,
)
    requires
        first.name == second.name,
    ensures
        registered(registered(tools, first), second) == registered(tools, second),
        find_tool(registered(registered(tools, first), second), first.name) == Some(second),
{
    let once = registered(tools, first);
    lemma_index_of(tools, first.name);
    lemma_registered_is_found(once, second);
    match index_of(tools, first.name) {
        Some(i) => {
            assert forall|j: int| 0 <= j < i implies (#[trigger] once[j]).name != first.name by {
                assert(tools[j].name != first.name);
            }
            lemma_index_is_first(once, first.name, i);
            assert(registered(once, second) =~= tools.update(i, second));
        },
        None => {
            assert forall|j: int| 0 <= j < tools.len() implies (#[trigger] once[j]).name
                != first.name by {
                assert(tools[j].name != first.name);
            }
            lemma_index_is_first(once, first.name, tools.len() as int);
            assert(registered(once, second) =~= tools.push(second));
        },
    }
}

/// The tools of a new registry: the template lookup, the security audit and
/// the gas analysis.
pub open spec fn default_tools() -> Seq<ToolModel> {
    seq![
        openzeppelin_model(standard_templates()),
        model_of(&SecurityAuditTool),
        model_of(&GasOptimizationTool),
    ]
}

/// Appends `item` to `list`.
///
/// The item comes first, so that its type decides that of the list's items
/// and a boxed tool is taken as it is, without a conversion.
fn push_to<T>(item: T, list: &mut Vec<T>)
    ensures
        final(list)@ == old(list)@.push(item),
{
    list.push(item);
}

/// Puts `item` in the place `at` of `list`. The item comes first for the
/// reason given at `push_to`.
fn put_at<T>(item: T, list: &mut Vec<T>, at: usize)
    requires
        at < old(list)@.len(),
    ensures
        final(list)@ == old(list)@.update(at as int, item),
{
    list.set(at, item);
}

/// The tools that can be invoked by name.
///
/// No two registered tools have the same name: a tool that is registered
/// under a name that is taken replaces the tool that had it.
pub struct MCPToolRegistry {
    tools: Vec<Box<dyn MCPTool>>,
}

impl MCPToolRegistry {
    /// No two registered tools have the same name.
    #[verifier::type_invariant]
    spec fn names_are_distinct(self) -> bool {
        distinct_names(self.tools())
    }

    /// The registered tools, in the order in which their names were first
    /// registered.
    pub closed spec fn tools(&self) -> Seq<ToolModel> {
        Seq::new(self.tools@.len(), |i: int| model_of(&*self.tools@[i]))
    }

    /// A registry without tools.
    pub fn empty() -> (r: Self)
        ensures
            r.tools() == Seq::<ToolModel>::empty(),
            distinct_names(r.tools()),
    {
        let r = MCPToolRegistry { tools: Vec::new() };
        assert(r.tools() =~= Seq::<ToolModel>::empty());
        r
    }

    /// A registry with the three tools that this crate comes with.
    pub fn new() -> (r: Self)
        ensures
            r.tools() == default_tools(),
            distinct_names(r.tools()),
    {
        let mut registry = MCPToolRegistry::empty();
        proof {
            reveal_strlit("openzeppelin_contracts");
            reveal_strlit("security_audit");
            reveal_strlit("gas_optimization");
        }
        let templates = OpenZeppelinTool::new();
        let ghost first = model_of(&templates);
        registry.register(Box::new(templates));
        assert(registry.tools() =~~= seq![first]);
        let ghost second = model_of(&SecurityAuditTool);
        registry.register(Box::new(SecurityAuditTool::new()));
        proof {
            assert(first.name.len() != second.name.len());
            reveal_with_fuel(index_of, 3);
        }
        assert(registry.tools() =~~= seq![first, second]);
        let ghost third = model_of(&GasOptimizationTool);
        registry.register(Box::new(GasOptimizationTool::new()));
        proof {
            assert(first.name.len() != third.name.len());
            assert(second.name.len() != third.name.len());
            reveal_with_fuel(index_of, 4);
        }
        assert(registry.tools() =~~= seq![first, second, third]);
        registry
    }

    /// Where the tool named `name` stands, if there is one.
    fn position(&self, name: &str) -> (r: Option<usize>)
        ensures
            match r {
                Some(i) => index_of(self.tools(), name@) == Some(i as int) && i < self.tools@.len(),
                None => index_of(self.tools(), name@) is None,
            },
    {
        let mut i: usize = 0;
        assert(self.tools().take(0) =~= Seq::<ToolModel>::empty());
        while i < self.tools.len()
            invariant
                i <= self.tools.len(),
                index_of(self.tools().take(i as int), name@) is None,
            decreases self.tools.len() - i,
        {
            assert(self.tools().take(i + 1).drop_last() =~= self.tools().take(i as int));
            assert(self.tools().take(i + 1).last() == self.tools()[i as int]);
            if same_text(self.tools[i].name(), name) {
                proof {
                    lemma_index_of(self.tools().take(i as int), name@);
                    assert forall|j: int| 0 <= j < i implies (#[trigger] self.tools()[j]).name
                        != name@ by {
                        assert(self.tools().take(i as int)[j].name != name@);
                    }
                    lemma_index_is_first(self.tools(), name@, i as int);
                }
                return Some(i);
            }
            i += 1;
        }
        assert(self.tools().take(i as int) =~= self.tools());
        None
    }

    /// Registers `tool` under its name. The tool that had the name, if there
    /// was one, is dropped: the last registration wins.
    pub fn register(&mut self, tool: Box<dyn MCPTool>)
        ensures
            final(self).tools() == registered(old(self).tools(), model_of(&*tool)),
            distinct_names(final(self).tools()),
            find_tool(final(self).tools(), tool.name_spec()) == Some(model_of(&*tool)),
            forall|other: Seq<char>|
                other != tool.name_spec() ==> #[trigger] find_tool(final(self).tools(), other)
                    == find_tool(old(self).tools(), other),
            final(self).tools().len() == if find_tool(old(self).tools(), tool.name_spec()) is Some {
                old(self).tools().len()
            } else {
                old(self).tools().len() + 1
            },
    {
        proof {
            use_type_invariant(&*self);
            lemma_registered_keeps_names_distinct(self.tools(), model_of(&*tool));
            lemma_registered_is_found(self.tools(), model_of(&*tool));
        }
        let ghost before = self.tools();
        let ghost model = model_of(&*tool);
        let place = self.position(tool.name());
        let mut taken = MCPToolRegistry::empty();
        core::mem::swap(self, &mut taken);
        let MCPToolRegistry { tools: mut tools } = taken;
        match place {
            Some(at) => {
                put_at(tool, &mut tools, at);
            },
            None => {
                push_to(tool, &mut tools);
            },
        }
        let ghost after = Seq::new(tools@.len(), |i: int| model_of(&*tools@[i]));
        assert(after =~= registered(before, model));
        let filled = MCPToolRegistry { tools };
        assert(filled.tools() =~= after);
        *self = filled;
    }

    /// The tool registered under `name`, if there is one.
    pub fn get(&self, name: &str) -> (r: Option<&dyn MCPTool>)
        ensures
            match r {
                Some(tool) => find_tool(self.tools(), name@) == Some(model_of(tool)),
                None => find_tool(self.tools(), name@) is None,
            },
            r is Some <==> names_of(self.tools()).contains(name@),
    {
        proof {
            lemma_found_iff_named(self.tools(), name@);
        }
        match self.position(name) {
            Some(at) => {
                let tool = &*self.tools[at];
                let found = Some(tool);
                found
            },
            None => None,
        }
    }

    /// The names of the registered tools, in the order in which they were
    /// first registered.
    pub fn list(&self) -> (r: Vec<&str>)
        ensures
            r@.len() == names_of(self.tools()).len(),
            forall|i: int| 0 <= i < r@.len() ==> (#[trigger] r@[i])@ == names_of(self.tools())[i],
            distinct_names(self.tools()),
            forall|i: int, j: int|
                0 <= i < j < r@.len() ==> (#[trigger] r@[i])@ != (#[trigger] r@[j])@,
    {
        proof {
            use_type_invariant(self);
        }
        let mut names: Vec<&str> = Vec::new();
        let mut i: usize = 0;
        while i < self.tools.len()
            invariant
                i <= self.tools.len(),
                names@.len() == i,
                forall|j: int| 0 <= j < i ==> (#[trigger] names@[j])@ == self.tools()[j].name,
            decreases self.tools.len() - i,
        {
            names.push(self.tools[i].name());
            i += 1;
        }
        names
    }

    /// Invokes the tool registered under `tool_name`. Where there is none,
    /// the result is a failure that names the tool: nothing is raised.
    pub fn execute(&self, tool_name: &str, params: &ToolParameters) -> (r: MCPToolResult)
        ensures
            r@ == dispatch(self.tools(), tool_name@, params@),
    {
        match self.get(tool_name) {
            Some(tool) => tool.execute(params),
            None => MCPToolResult::failure(joined("Tool not found: ", tool_name)),
        }
    }
}

} // verus!
