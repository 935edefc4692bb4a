//! The commands of the palette and the filter that narrows them down as the
//! user types.

use crate::strings::{contains_subseq, lowercase_of, str_contains, str_eq, str_to_lowercase};
use vstd::prelude::*;
use vstd::std_specs::cmp::PartialEqSpecImpl;

verus! {

/// A command: the identifier it is executed by and the name it is shown
/// under.
#[derive(Debug)]
pub struct Command {
    pub name: String,
    pub id: String,
}

impl Command {
    /// The command with identifier `id`, shown as `name`.
    pub fn new(id: &str, name: &str) -> (command: Self)
        ensures
            command.id@ == id@,
            command.name@ == name@,
    {
        Self { id: id.to_owned(), name: name.to_owned() }
    }
}

impl Clone for Command {
    fn clone(&self) -> (command: Self)
        ensures
            command == *self,
    {
        Self { name: self.name.clone(), id: self.id.clone() }
    }
}

impl PartialEq for Command {
    fn eq(&self, other: &Self) -> (same: bool) {
        self.name == other.name && self.id == other.id
    }
}

impl Eq for Command {

}

impl PartialEqSpecImpl for Command {
    open spec fn obeys_eq_spec() -> bool {
        true
    }

    open spec fn eq_spec(&self, other: &Self) -> bool {
        self.name@ == other.name@ && self.id@ == other.id@
    }
}

/// The identifiers and names of the commands that the palette offers, in the
/// order in which it lists them.
pub open spec fn registered_commands() -> Seq<(Seq<char>, Seq<char>)> {
    seq![
        ("open_file"@, "Open File"@),
        ("save"@, "Save"@),
        ("save_as"@, "Save As"@),
        ("new_file"@, "New File"@),
        ("close_file"@, "Close File"@),
    ]
}

/// The commands are those of the palette, in its order.
pub open spec fn is_registry(commands: Seq<Command>) -> bool {
    &&& commands.len() == registered_commands().len()
    &&& forall|i: int|
        0 <= i < commands.len() ==> (#[trigger] commands[i]).id@ == registered_commands()[i].0
            && commands[i].name@ == registered_commands()[i].1
}

/// The index of the first command with identifier `id`, or the number of
/// commands where none has it.
pub open spec fn first_with_id(commands: Seq<Command>, id: Seq<char>) -> int
    decreases commands.len(),
{
    if commands.len() == 0 {
        0
    } else if commands.first().id@ == id {
        0
    } else {
        1 + first_with_id(commands.drop_first(), id)
    }
}

/// The fixed list of commands.
pub struct CommandRegistry {
    commands: Vec<Command>,
}

impl View for CommandRegistry {
    type V = Seq<Command>;

    closed spec fn view(&self) -> Seq<Command> {
        self.commands@
    }
}

impl CommandRegistry {
    /// The registry of the five commands of the palette.
    pub fn new() -> (registry: Self)
        ensures
            is_registry(registry@),
    {
        let mut commands: Vec<Command> = Vec::new();
        commands.push(Command::new("open_file", "Open File"));
        commands.push(Command::new("save", "Save"));
        commands.push(Command::new("save_as", "Save As"));
        commands.push(Command::new("new_file", "New File"));
        commands.push(Command::new("close_file", "Close File"));
        Self { commands }
    }

    /// All commands, in the order of the registry.
    pub fn all_commands(&self) -> (commands: &[Command])
        ensures
            commands@ == self@,
    {
        self.commands.as_slice()
    }

    /// The first command with identifier `id`.
    pub fn find_by_id(&self, id: &str) -> (found: Option<&Command>)
        ensures
            found is Some <==> first_with_id(self@, id@) < self@.len(),
            found is Some ==> *found->0 == self@[first_with_id(self@, id@)],
    {
        let mut i: usize = 0;
        assert(self.commands@.skip(0) =~= self.commands@);
        while i < self.commands.len()
            invariant
                0 <= i <= self.commands.len(),
                first_with_id(self.commands@, id@) == i + first_with_id(
                    self.commands@.skip(i as int),
                    id@,
                ),
            decreases self.commands.len() - i,
        {
            proof {
                let rest = self.commands@.skip(i as int);
                assert(rest.first() == self.commands@[i as int]);
                assert(rest.drop_first() =~= self.commands@.skip(i + 1));
            }
            if str_eq(self.commands[i].id.as_str(), id) {
                return Some(&self.commands[i]);
            }
            i += 1;
        }
        None
    }
}

impl Default for CommandRegistry {
    fn default() -> (registry: Self)
        ensures
            is_registry(registry@),
    {
        Self::new()
    }
}

/// Whether a command named `name` passes the query: every name passes the
/// empty query, and any other query passes the names whose lowercase form
/// holds the lowercase form of the query.
pub open spec fn name_matches(name: Seq<char>, query: Seq<char>) -> bool {
    query.len() == 0 || contains_subseq(lowercase_of(name), lowercase_of(query))
}

/// The commands that pass the query, in the order in which they were given.
pub open spec fn filtered_commands(commands: Seq<Command>, query: Seq<char>) -> Seq<Command>
    decreases commands.len(),
{
    if commands.len() == 0 {
        Seq::empty()
    } else if name_matches(commands.last().name@, query) {
        filtered_commands(commands.drop_last(), query).push(commands.last())
    } else {
        filtered_commands(commands.drop_last(), query)
    }
}

/// The commands whose lowered name holds the lowered query, in the order in
/// which they were given.
pub open spec fn selected_commands(
    commands: Seq<Command>,
    lowered_names: Seq<String>,
    lowered_query: Seq<char>,
) -> Seq<Command>
    decreases commands.len(),
{
    if commands.len() == 0 || lowered_names.len() != commands.len() {
        Seq::empty()
    } else if contains_subseq(lowered_names.last()@, lowered_query) {
        selected_commands(commands.drop_last(), lowered_names.drop_last(), lowered_query).push(
            commands.last(),
        )
    } else {
        selected_commands(commands.drop_last(), lowered_names.drop_last(), lowered_query)
    }
}

/// The empty query lets every command pass: the filter is the identity.
pub proof fn lemma_filter_empty_query(commands: Seq<Command>, query: Seq<char>)
    requires
        query.len() == 0,
    ensures
        filtered_commands(commands, query) == commands,
    decreases commands.len(),
{
    if commands.len() > 0 {
        lemma_filter_empty_query(commands.drop_last(), query);
        assert(commands.drop_last().push(commands.last()) =~= commands);
    }
}

/// The filter ignores case: queries with the same lowercase form select the
/// same commands, and names with the same lowercase form pass the same
/// queries.
pub proof fn lemma_filter_ignores_case(commands: Seq<Command>, query: Seq<char>, other: Seq<char>)
    requires
        (query.len() == 0) == (other.len() == 0),
        lowercase_of(query) == lowercase_of(other),
    ensures
        filtered_commands(commands, query) == filtered_commands(commands, other),
        forall|name: Seq<char>, twin: Seq<char>|
            lowercase_of(name) == lowercase_of(twin) ==> #[trigger] name_matches(name, query)
                == #[trigger] name_matches(twin, other),
    decreases commands.len(),
{
    if commands.len() > 0 {
        lemma_filter_ignores_case(commands.drop_last(), query, other);
    }
}

/// The filter of the command palette.
pub struct CommandFilter;

impl CommandFilter {
    /// The commands that pass `query`, in the order of `commands`: all of
    /// them for the empty query, else those whose name holds the query, both
    /// taken in lowercase.
    pub fn filter_commands(commands: &[Command], query: &str) -> (matching: Vec<Command>)
        ensures
            matching@ == filtered_commands(commands@, query@),
            query@.len() == 0 ==> matching@ == commands@,
    {
        if query.is_empty() {
            proof {
                lemma_filter_empty_query(commands@, query@);
            }
            return Self::all_of(commands);
        }
        let query_lower = str_to_lowercase(query);
        let mut lowered_names: Vec<String> = Vec::new();
        let mut i: usize = 0;
        while i < commands.len()
            invariant
                0 <= i <= commands.len(),
                lowered_names@.len() == i,
                forall|k: int|
                    0 <= k < i ==> (#[trigger] lowered_names@[k])@ == lowercase_of(
                        commands@[k].name@,
                    ),
            decreases commands.len() - i,
        {
            lowered_names.push(str_to_lowercase(commands[i].name.as_str()));
            i += 1;
        }
        proof {
            lemma_selected_is_filtered(commands@, lowered_names@, query@, query_lower@);
        }
        Self::select_lowered(commands, lowered_names.as_slice(), query_lower.as_str())
    }

    /// The commands as they are, in a vector of their own.
    fn all_of(commands: &[Command]) -> (copies: Vec<Command>)
        ensures
            copies@ == commands@,
    {
        let mut copies: Vec<Command> = Vec::new();
        let mut i: usize = 0;
        while i < commands.len()
            invariant
                0 <= i <= commands.len(),
                copies@ == commands@.take(i as int),
            decreases commands.len() - i,
        {
            copies.push(commands[i].clone());
            assert(commands@.take(i as int).push(commands@[i as int]) =~= commands@.take(i + 1));
            i += 1;
        }
        assert(commands@.take(commands@.len() as int) =~= commands@);
        copies
    }

    /// The commands whose lowered name holds the lowered query, in the order
    /// of `commands`. `lowered_names` holds, for each command, the lowercase
    /// form of its name.
    pub fn select_lowered(
        commands: &[Command],
        lowered_names: &[String],
        lowered_query: &str,
    ) -> (matching: Vec<Command>)
        requires
            lowered_names@.len() == commands@.len(),
        ensures
            matching@ == selected_commands(commands@, lowered_names@, lowered_query@),
    {
        let mut matching: Vec<Command> = Vec::new();
        let mut i: usize = 0;
        while i < commands.len()
            invariant
                0 <= i <= commands.len(),
                lowered_names@.len() == commands@.len(),
                matching@ == selected_commands(
                    commands@.take(i as int),
                    lowered_names@.take(i as int),
                    lowered_query@,
                ),
            decreases commands.len() - i,
        {
            proof {
                assert(commands@.take(i + 1).drop_last() =~= commands@.take(i as int));
                assert(lowered_names@.take(i + 1).drop_last() =~= lowered_names@.take(i as int));
                assert(commands@.take(i + 1).last() == commands@[i as int]);
                assert(lowered_names@.take(i + 1).last() == lowered_names@[i as int]);
            }
            if str_contains(lowered_names[i].as_str(), lowered_query) {
                matching.push(commands[i].clone());
            }
            i += 1;
        }
        proof {
            assert(commands@.take(commands@.len() as int) =~= commands@);
            assert(lowered_names@.take(lowered_names@.len() as int) =~= lowered_names@);
        }
        matching
    }
}

/// Selecting by lowered names is filtering by the query, where the lowered
/// names and the lowered query are the lowercase forms.
pub proof fn lemma_selected_is_filtered(
    commands: Seq<Command>,
    lowered_names: Seq<String>,
    query: Seq<char>,
    lowered_query: Seq<char>,
)
    requires
        lowered_names.len() == commands.len(),
        forall|k: int|
            0 <= k < commands.len() ==> (#[trigger] lowered_names[k])@ == lowercase_of(
                commands[k].name@,
            ),
        query.len() > 0,
        lowered_query == lowercase_of(query),
    ensures
        selected_commands(commands, lowered_names, lowered_query) == filtered_commands(
            commands,
            query,
        ),
    decreases commands.len(),
{
    if commands.len() > 0 {
        lemma_selected_is_filtered(
            commands.drop_last(),
            lowered_names.drop_last(),
            query,
            lowered_query,
        );
        assert(lowered_names.last() == lowered_names[commands.len() - 1]);
    }
}

} // verus!
