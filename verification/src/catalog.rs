//! The catalog of model-visible tools: who owns each name, and the runtime's
//! own reader tool appended last.

use vstd::prelude::*;

use crate::error::Error;
use crate::interface::ToolDefinition;
use crate::intrinsic::{
    is_reader_definition, reader_activity_verb, reader_activity_verb_text,
    tool_output_read_definition,
};
use crate::tool_output::{is_intrinsic_tool, tool_output_read_name};

verus! {

/// One definition a tool exposes, with the group the tool files it under.
#[derive(Debug)]
pub struct GroupedToolDefinition {
    /// The definition.
    pub definition: ToolDefinition,
    /// The tool's group for this name, if any.
    pub group: Option<String>,
}

/// One exposed name as the contracts see it.
pub struct CatalogEntryView {
    /// Model-visible name.
    pub name: Seq<char>,
    /// Index of the tool that owns the name.
    pub owner: usize,
    /// Verb shown while the tool runs.
    pub activity_verb: Option<Seq<char>>,
    /// The tool's group for the name.
    pub group: Option<Seq<char>>,
}

/// Every definition of every tool, in order, with the index of its tool.
pub open spec fn flatten_tools(tools: Seq<Vec<GroupedToolDefinition>>) -> Seq<
    (usize, GroupedToolDefinition),
>
    decreases tools.len(),
{
    if tools.len() == 0 {
        Seq::empty()
    } else {
        flatten_tools(tools.drop_last()) + tools.last()@.map_values(
            |g: GroupedToolDefinition| ((tools.len() - 1) as usize, g),
        )
    }
}

/// The catalog view of one flattened definition.
pub open spec fn entry_view(entry: (usize, GroupedToolDefinition)) -> CatalogEntryView {
    CatalogEntryView {
        name: entry.1.definition.name@,
        owner: entry.0,
        activity_verb: match entry.1.definition.activity_verb {
            Some(verb) => Some(verb@),
            None => None,
        },
        group: match entry.1.group {
            Some(group) => Some(group@),
            None => None,
        },
    }
}

/// Position `i` of the flattened definitions cannot be accepted: it takes
/// the reader's reserved name, or a name an earlier definition took.
pub open spec fn conflicts_at(flat: Seq<(usize, GroupedToolDefinition)>, i: int) -> bool {
    ||| flat[i].1.definition.name@ == tool_output_read_name()
    ||| exists|j: int| 0 <= j < i && flat[j].1.definition.name@ == flat[i].1.definition.name@
}

/// `error` refuses the definition at position `i`: the first position
/// that conflicts, with the reserved-name error when it takes the reader's
/// name and the duplicate-name error otherwise.
pub open spec fn is_refusal_at(flat: Seq<(usize, GroupedToolDefinition)>, i: int, error: Error) -> bool {
    &&& 0 <= i < flat.len()
    &&& conflicts_at(flat, i)
    &&& forall|j: int| 0 <= j < i ==> !conflicts_at(flat, j)
    &&& if flat[i].1.definition.name@ == tool_output_read_name() {
        error matches Error::ReservedToolDefinition { name } && name@ == flat[i].1.definition.name@
    } else {
        error matches Error::DuplicateToolDefinition { name } && name@ == flat[i].1.definition.name@
    }
}

/// The names of the entries are distinct and none is the reserved one.
pub open spec fn names_acceptable(entries: Seq<CatalogEntryView>) -> bool {
    &&& forall|i: int| 0 <= i < entries.len() ==> #[trigger] entries[i].name != tool_output_read_name()
    &&& forall|i: int, j: int|
        0 <= i < entries.len() && 0 <= j < entries.len() && i != j ==> entries[i].name
            != entries[j].name
}

/// `result` is how a catalog is built from the tools' definitions: the
/// first conflicting definition is refused; without one, every definition
/// is routed and exposed in order, followed by the reader's own.
pub open spec fn is_catalog_outcome(result: Result<ToolCatalog, Error>, tools: Seq<Vec<GroupedToolDefinition>>) -> bool {
    let flat = flatten_tools(tools);
    match result {
        Err(error) => exists|i: int| #[trigger] is_refusal_at(flat, i, error),
        Ok(catalog) => {
            &&& forall|i: int| 0 <= i < flat.len() ==> !conflicts_at(flat, i)
            &&& catalog.wf()
            &&& catalog.entries() == flat.map_values(
                |e: (usize, GroupedToolDefinition)| entry_view(e),
            )
            &&& catalog.spec_definitions().len() == flat.len() + 1
            &&& forall|i: int|
                0 <= i < flat.len() ==> #[trigger] catalog.spec_definitions()[i]
                    == flat[i].1.definition
            &&& is_reader_definition(catalog.spec_definitions().last())
        },
    }
}

/// Tool catalog: exposed definitions and what the runtime needs to route
/// each name.
#[derive(Debug)]
pub struct ToolCatalog {
    definitions: Vec<ToolDefinition>,
    names: Vec<String>,
    owners: Vec<usize>,
    activity_verbs: Vec<Option<String>>,
    groups: Vec<Option<String>>,
}

impl ToolCatalog {
    /// The routing entries of injected tools, in definition order.
    pub closed spec fn entries(&self) -> Seq<CatalogEntryView> {
        Seq::new(
            self.names@.len(),
            |i: int|
                CatalogEntryView {
                    name: self.names@[i]@,
                    owner: self.owners@[i],
                    activity_verb: match self.activity_verbs@[i] {
                        Some(verb) => Some(verb@),
                        None => None,
                    },
                    group: match self.groups@[i] {
                        Some(group) => Some(group@),
                        None => None,
                    },
                },
        )
    }

    /// Exposed definitions: those of injected tools, then the reader's.
    pub closed spec fn spec_definitions(&self) -> Seq<ToolDefinition> {
        self.definitions@
    }

    /// The catalog's parallel lists agree, and its names are acceptable.
    pub closed spec fn wf(&self) -> bool {
        &&& self.owners@.len() == self.names@.len()
        &&& self.activity_verbs@.len() == self.names@.len()
        &&& self.groups@.len() == self.names@.len()
        &&& names_acceptable(self.entries())
    }

    /// Builds the catalog from each tool's definitions. The first
    /// definition, in tool and definition order, that takes the reader's
    /// reserved name or a name already taken is refused; otherwise every
    /// definition is exposed, followed by the reader's own.
    pub fn new(tools: Vec<Vec<GroupedToolDefinition>>) -> (result: Result<ToolCatalog, Error>)
        ensures
            is_catalog_outcome(result, tools@),
    {
        let ghost flat_view = flatten_tools(tools@);
        let mut flat = flatten(tools);
        let mut definitions: Vec<ToolDefinition> = Vec::new();
        let mut names: Vec<String> = Vec::new();
        let mut owners: Vec<usize> = Vec::new();
        let mut activity_verbs: Vec<Option<String>> = Vec::new();
        let mut groups: Vec<Option<String>> = Vec::new();
        let mut k: usize = 0;
        let total = flat.len();
        proof {
            assert(flat@ =~= flat_view.subrange(0, flat_view.len() as int));
        }
        while flat.len() > 0
            invariant
                flat_view == flatten_tools(tools@),
                total == flat_view.len(),
                k <= flat_view.len(),
                flat@ == flat_view.subrange(k as int, flat_view.len() as int),
                definitions@.len() == k,
                names@.len() == k,
                owners@.len() == k,
                activity_verbs@.len() == k,
                groups@.len() == k,
                forall|i: int| 0 <= i < k ==> #[trigger] definitions@[i] == flat_view[i].1.definition,
                forall|i: int| 0 <= i < k ==> #[trigger] names@[i]@ == flat_view[i].1.definition.name@,
                forall|i: int| 0 <= i < k ==> #[trigger] owners@[i] == flat_view[i].0,
                forall|i: int|
                    0 <= i < k ==> #[trigger] activity_verbs@[i] == flat_view[i].1.definition.activity_verb,
                forall|i: int| 0 <= i < k ==> #[trigger] groups@[i] == flat_view[i].1.group,
                forall|i: int| 0 <= i < k ==> !conflicts_at(flat_view, i),
            decreases flat@.len(),
        {
            let (owner, grouped) = flat.remove(0);
            assert(flat_view[k as int] == (owner, grouped));
            if is_intrinsic_tool(grouped.definition.name.as_str()) {
                assert(conflicts_at(flat_view, k as int));
                let error = Error::ReservedToolDefinition { name: grouped.definition.name };
                assert(is_refusal_at(flat_view, k as int, error));
                return Err(error);
            }
            match position_of_name(&names, grouped.definition.name.as_str()) {
                Some(j) => {
                    assert(flat_view[j as int].1.definition.name@ == grouped.definition.name@);
                    assert(conflicts_at(flat_view, k as int));
                    let error = Error::DuplicateToolDefinition { name: grouped.definition.name };
                    assert(is_refusal_at(flat_view, k as int, error));
                    return Err(error);
                },
                None => {},
            }
            proof {
                assert forall|j: int| 0 <= j < k implies flat_view[j].1.definition.name@
                    != flat_view[k as int].1.definition.name@ by {
                    assert(names@[j]@ == flat_view[j].1.definition.name@);
                }
            }
            names.push(grouped.definition.name.clone());
            owners.push(owner);
            activity_verbs.push(grouped.definition.activity_verb.clone());
            groups.push(grouped.group);
            definitions.push(grouped.definition);
            k = k + 1;
            proof {
                assert(flat@ =~= flat_view.subrange(k as int, flat_view.len() as int));
            }
        }
        definitions.push(tool_output_read_definition());
        let catalog = ToolCatalog { definitions, names, owners, activity_verbs, groups };
        proof {
            assert(catalog.entries() =~= flat_view.map_values(
                |e: (usize, GroupedToolDefinition)| entry_view(e),
            ));
            assert forall|i: int, j: int|
                0 <= i < catalog.entries().len() && 0 <= j < catalog.entries().len() && i != j implies catalog.entries()[i].name
                != catalog.entries()[j].name by {
                if i < j {
                    assert(!conflicts_at(flat_view, j));
                } else {
                    assert(!conflicts_at(flat_view, i));
                }
            }
            assert forall|i: int| 0 <= i < catalog.entries().len() implies #[trigger] catalog.entries()[i].name
                != tool_output_read_name() by {
                assert(!conflicts_at(flat_view, i));
            }
        }
        Ok(catalog)
    }

    /// Returns the currently exposed tool definitions.
    pub fn definitions(&self) -> (definitions: &Vec<ToolDefinition>)
        ensures
            definitions@ == self.spec_definitions(),
    {
        &self.definitions
    }

    /// The index of the entry named `name`, if any.
    pub open spec fn entry_named(&self, name: Seq<char>) -> Option<int> {
        if exists|i: int| 0 <= i < self.entries().len() && self.entries()[i].name == name {
            Some(choose|i: int| 0 <= i < self.entries().len() && self.entries()[i].name == name)
        } else {
            None
        }
    }

    fn find(&self, name: &str) -> (found: Option<usize>)
        requires
            self.wf(),
        ensures
            match found {
                Some(i) => self.entry_named(name@) == Some(i as int),
                None => self.entry_named(name@) is None,
            },
    {
        let found = position_of_name(&self.names, name);
        proof {
            match found {
                Some(i) => {
                    assert(self.entries()[i as int].name == name@);
                    let c = choose|c: int|
                        0 <= c < self.entries().len() && self.entries()[c].name == name@;
                    assert(c == i);
                },
                None => {
                    assert forall|i: int| 0 <= i < self.entries().len() implies self.entries()[i].name
                        != name@ by {
                        assert(self.entries()[i].name == self.names@[i]@);
                    }
                },
            }
        }
        found
    }

    /// Returns the index of the tool that owns `name`, if an injected tool
    /// exposes it.
    pub fn tool_for_name(&self, name: &str) -> (owner: Option<usize>)
        requires
            self.wf(),
        ensures
            owner == match self.entry_named(name@) {
                Some(i) => Some(self.entries()[i].owner),
                None => None::<usize>,
            },
    {
        match self.find(name) {
            Some(i) => Some(self.owners[i]),
            None => None,
        }
    }

    /// Returns the activity verb of `name`: the reader's own verb for the
    /// reader, otherwise the verb of the definition that exposes the name.
    pub fn activity_verb_for_name(&self, name: &str) -> (verb: Option<String>)
        requires
            self.wf(),
        ensures
            name@ == tool_output_read_name() ==> (verb matches Some(v) && v@ == reader_activity_verb()),
            name@ != tool_output_read_name() ==> match self.entry_named(name@) {
                Some(i) => match self.entries()[i].activity_verb {
                    Some(expected) => verb matches Some(v) && v@ == expected,
                    None => verb is None,
                },
                None => verb is None,
            },
    {
        if is_intrinsic_tool(name) {
            return Some(reader_activity_verb_text());
        }
        match self.find(name) {
            Some(i) => self.activity_verbs[i].clone(),
            None => None,
        }
    }

    /// Returns the group that the owning tool files `name` under, if any.
    pub fn tool_group_for_name(&self, name: &str) -> (group: Option<String>)
        requires
            self.wf(),
        ensures
            match self.entry_named(name@) {
                Some(i) => match self.entries()[i].group {
                    Some(expected) => group matches Some(g) && g@ == expected,
                    None => group is None,
                },
                None => group is None,
            },
    {
        match self.find(name) {
            Some(i) => self.groups[i].clone(),
            None => None,
        }
    }
}

/// The first position in `names` that holds `name`.
fn position_of_name(names: &Vec<String>, name: &str) -> (found: Option<usize>)
    ensures
        match found {
            Some(i) => i < names@.len() && names@[i as int]@ == name@ && forall|j: int|
                0 <= j < i ==> names@[j]@ != name@,
            None => forall|j: int| 0 <= j < names@.len() ==> names@[j]@ != name@,
        },
{
    let mut i: usize = 0;
    while i < names.len()
        invariant
            i <= names@.len(),
            forall|j: int| 0 <= j < i ==> names@[j]@ != name@,
        decreases names@.len() - i,
    {
        if crate::tool_output::str_equal(names[i].as_str(), name) {
            return Some(i);
        }
        i = i + 1;
    }
    None
}

/// Lists every definition of every tool, in order, with its tool's index.
fn flatten(tools: Vec<Vec<GroupedToolDefinition>>) -> (flat: Vec<(usize, GroupedToolDefinition)>)
    ensures
        flat@ == flatten_tools(tools@),
{
    let ghost all = tools@;
    let mut tools = tools;
    let mut flat: Vec<(usize, GroupedToolDefinition)> = Vec::new();
    let mut t: usize = 0;
    let count = tools.len();
    proof {
        assert(tools@ =~= all.subrange(0, all.len() as int));
        assert(all.subrange(0, 0) =~= Seq::<Vec<GroupedToolDefinition>>::empty());
    }
    while tools.len() > 0
        invariant
            t <= all.len(),
            count == all.len(),
            tools@ == all.subrange(t as int, all.len() as int),
            flat@ == flatten_tools(all.subrange(0, t as int)),
        decreases tools@.len(),
    {
        let mut defs = tools.remove(0);
        assert(defs == all[t as int]);
        let ghost defs_all = defs@;
        let ghost before = flat@;
        let mut j: usize = 0;
        let dcount = defs.len();
        proof {
            assert(defs@ =~= defs_all.subrange(0, defs_all.len() as int));
            assert(defs_all.subrange(0, 0).map_values(|g: GroupedToolDefinition| (t, g))
                =~= Seq::<(usize, GroupedToolDefinition)>::empty());
            assert(flat@ =~= before + defs_all.subrange(0, 0).map_values(
                |g: GroupedToolDefinition| (t, g),
            ));
        }
        while defs.len() > 0
            invariant
                dcount == defs_all.len(),
                j <= defs_all.len(),
                defs@ == defs_all.subrange(j as int, defs_all.len() as int),
                flat@ == before + defs_all.subrange(0, j as int).map_values(
                    |g: GroupedToolDefinition| (t, g),
                ),
            decreases defs@.len(),
        {
            let grouped = defs.remove(0);
            assert(grouped == defs_all[j as int]);
            flat.push((t, grouped));
            j = j + 1;
            proof {
                assert(defs@ =~= defs_all.subrange(j as int, defs_all.len() as int));
                assert(flat@ =~= before + defs_all.subrange(0, j as int).map_values(
                    |g: GroupedToolDefinition| (t, g),
                ));
            }
        }
        proof {
            let prefix = all.subrange(0, t as int + 1);
            assert(prefix.drop_last() =~= all.subrange(0, t as int));
            assert(prefix.last() == all[t as int]);
            assert(defs_all.subrange(0, j as int) =~= defs_all);
            assert(flat@ =~= flatten_tools(prefix));
        }
        t = t + 1;
        proof {
            assert(tools@ =~= all.subrange(t as int, all.len() as int));
        }
    }
    proof {
        assert(all.subrange(0, t as int) =~= all);
    }
    flat
}

} // verus!
