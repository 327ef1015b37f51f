//! The mathematical model of a parser: its state as sequences of characters,
//! and what the queries answer on it.

use vstd::prelude::*;

verus! {

/// A declared command or option: its name and the lines that describe it.
pub struct Declaration {
    /// The name, as it is looked for among the arguments.
    pub name: Seq<char>,
    /// The description, line by line.
    pub lines: Seq<Seq<char>>,
}

/// The model of a catalog as a parser stores it.
pub open spec fn catalog_view(catalog: Seq<(&str, Vec<String>)>) -> Seq<Declaration> {
    Seq::new(catalog.len(), |i: int| entry_view(catalog[i]))
}

/// The model of one stored declaration.
pub open spec fn entry_view(entry: (&str, Vec<String>)) -> Declaration {
    Declaration { name: entry.0@, lines: entry.1.deep_view() }
}

/// The names of a catalog, in the order of declaration.
pub open spec fn names(catalog: Seq<Declaration>) -> Seq<Seq<char>> {
    Seq::new(catalog.len(), |i: int| catalog[i].name)
}

/// `i` is the position of the first token equal to `name`.
pub open spec fn is_first_occurrence(tokens: Seq<Seq<char>>, name: Seq<char>, i: int) -> bool {
    &&& 0 <= i < tokens.len()
    &&& tokens[i] == name
    &&& forall|j: int| 0 <= j < i ==> tokens[j] != name
}

/// `end` closes the longest run of tokens from `from` on that holds no
/// declared option: it is the position of the next declared option, or the
/// end of the list.
pub open spec fn is_run_end(
    tokens: Seq<Seq<char>>,
    options: Seq<Seq<char>>,
    from: int,
    end: int,
) -> bool {
    &&& from <= end <= tokens.len()
    &&& forall|j: int| from <= j < end ==> !options.contains(#[trigger] tokens[j])
    &&& end < tokens.len() ==> options.contains(tokens[end])
}

/// The position of the first token equal to `name`, where there is one.
pub open spec fn first_occurrence(tokens: Seq<Seq<char>>, name: Seq<char>) -> int {
    choose|i: int| is_first_occurrence(tokens, name, i)
}

/// The end of the run of values that starts at `from`.
pub open spec fn run_end(tokens: Seq<Seq<char>>, options: Seq<Seq<char>>, from: int) -> int {
    choose|end: int| is_run_end(tokens, options, from, end)
}

/// The command of an invocation: its first token, unless that token is the
/// name of a declared option.
pub open spec fn command_of(tokens: Seq<Seq<char>>, options: Seq<Seq<char>>) -> Option<Seq<char>> {
    if tokens.len() > 0 && !options.contains(tokens[0]) {
        Some(tokens[0])
    } else {
        None
    }
}

/// The values of `name` in an invocation: nothing where no token equals
/// `name`; otherwise the tokens after its first occurrence, up to the next
/// declared option or the end of the list.
pub open spec fn value_of(
    tokens: Seq<Seq<char>>,
    options: Seq<Seq<char>>,
    name: Seq<char>,
) -> Option<Seq<Seq<char>>> {
    if tokens.contains(name) {
        let at: int = first_occurrence(tokens, name);
        Some(tokens.subrange(at + 1, run_end(tokens, options, at + 1)))
    } else {
        None
    }
}

/// The state of a parser.
pub struct AppView {
    /// The argument list as the process received it, the program's own path
    /// first.
    pub argv: Seq<Seq<char>>,
    /// The name of the program, once it is set.
    pub name: Option<Seq<char>>,
    /// The version of the program, once it is set.
    pub version: Option<Seq<char>>,
    /// The description of the program, once it is set.
    pub desc: Option<Seq<char>>,
    /// The declared commands, in the order of declaration.
    pub commands: Seq<Declaration>,
    /// The declared options, in the order of declaration.
    pub options: Seq<Declaration>,
}

impl AppView {
    /// The program's own path: the head of the argument list, and empty
    /// where the list is.
    pub open spec fn program(self) -> Seq<char> {
        if self.argv.len() > 0 {
            self.argv[0]
        } else {
            Seq::empty()
        }
    }

    /// The invocation arguments: the argument list without the program's
    /// path.
    pub open spec fn tokens(self) -> Seq<Seq<char>> {
        if self.argv.len() > 0 {
            self.argv.drop_first()
        } else {
            Seq::empty()
        }
    }

    /// The names of the declared options.
    pub open spec fn option_names(self) -> Seq<Seq<char>> {
        names(self.options)
    }

    /// The command of the invocation.
    pub open spec fn command(self) -> Option<Seq<char>> {
        command_of(self.tokens(), self.option_names())
    }

    /// The values of `name` in the invocation.
    pub open spec fn value(self, name: Seq<char>) -> Option<Seq<Seq<char>>> {
        value_of(self.tokens(), self.option_names(), name)
    }
}

/// A token has at most one first occurrence.
pub proof fn lemma_first_occurrence_unique(
    tokens: Seq<Seq<char>>,
    name: Seq<char>,
    i: int,
    j: int,
)
    requires
        is_first_occurrence(tokens, name, i),
        is_first_occurrence(tokens, name, j),
    ensures
        i == j,
{
}

/// A run of values has at most one end.
pub proof fn lemma_run_end_unique(
    tokens: Seq<Seq<char>>,
    options: Seq<Seq<char>>,
    from: int,
    a: int,
    b: int,
)
    requires
        is_run_end(tokens, options, from, a),
        is_run_end(tokens, options, from, b),
    ensures
        a == b,
{
}

/// A token that occurs at `k` has a first occurrence at or before `k`.
pub proof fn lemma_first_occurrence_exists(tokens: Seq<Seq<char>>, name: Seq<char>, k: int)
    requires
        0 <= k < tokens.len(),
        tokens[k] == name,
    ensures
        0 <= first_occurrence(tokens, name) <= k,
        is_first_occurrence(tokens, name, first_occurrence(tokens, name)),
    decreases k,
{
    if exists|j: int| 0 <= j < k && tokens[j] == name {
        let j: int = choose|j: int| 0 <= j < k && tokens[j] == name;
        lemma_first_occurrence_exists(tokens, name, j);
    } else {
        lemma_first_occurrence_unique(tokens, name, k, first_occurrence(tokens, name));
    }
}

/// Every run of values that starts inside the list, or at its end, has an
/// end.
pub proof fn lemma_run_end_exists(tokens: Seq<Seq<char>>, options: Seq<Seq<char>>, from: int)
    requires
        0 <= from <= tokens.len(),
    ensures
        is_run_end(tokens, options, from, run_end(tokens, options, from)),
    decreases tokens.len() - from,
{
    if from < tokens.len() && !options.contains(tokens[from]) {
        lemma_run_end_exists(tokens, options, from + 1);
        let end: int = run_end(tokens, options, from + 1);
        assert(is_run_end(tokens, options, from, end));
    } else {
        assert(is_run_end(tokens, options, from, from));
    }
}

/// Where the first occurrence of `name` and the end of the run behind it are
/// known, they give the values of `name`.
pub proof fn lemma_value_of_at(
    tokens: Seq<Seq<char>>,
    options: Seq<Seq<char>>,
    name: Seq<char>,
    at: int,
    end: int,
)
    requires
        is_first_occurrence(tokens, name, at),
        is_run_end(tokens, options, at + 1, end),
    ensures
        value_of(tokens, options, name) == Some(tokens.subrange(at + 1, end)),
{
    lemma_first_occurrence_exists(tokens, name, at);
    lemma_first_occurrence_unique(tokens, name, at, first_occurrence(tokens, name));
    lemma_run_end_exists(tokens, options, at + 1);
    lemma_run_end_unique(tokens, options, at + 1, end, run_end(tokens, options, at + 1));
}

/// The command is the first token exactly when there is one and no declared
/// option has its name; there is no command otherwise. So a token that names
/// a declared option is never the command.
pub proof fn lemma_command_of(tokens: Seq<Seq<char>>, options: Seq<Seq<char>>)
    ensures
        command_of(tokens, options) == Some(tokens[0]) <==> tokens.len() > 0 && forall|k: int|
            0 <= k < options.len() ==> options[k] != tokens[0],
        command_of(tokens, options) is None <==> !(tokens.len() > 0 && forall|k: int|
            0 <= k < options.len() ==> options[k] != tokens[0]),
        forall|c: Seq<char>| command_of(tokens, options) == Some(c) ==> !options.contains(c),
{
}

/// There are no values exactly when `name` does not occur. Where it occurs,
/// the values are the tokens strictly between its first occurrence and the
/// next token that names a declared option, or the end of the list, in their
/// order.
pub proof fn lemma_value_of(tokens: Seq<Seq<char>>, options: Seq<Seq<char>>, name: Seq<char>)
    ensures
        value_of(tokens, options, name) is None <==> !tokens.contains(name),
        tokens.contains(name) ==> ({
            let at: int = first_occurrence(tokens, name);
            let end: int = run_end(tokens, options, at + 1);
            &&& is_first_occurrence(tokens, name, at)
            &&& is_run_end(tokens, options, at + 1, end)
            &&& value_of(tokens, options, name) == Some(tokens.subrange(at + 1, end))
        }),
{
    if tokens.contains(name) {
        let k: int = choose|k: int| 0 <= k < tokens.len() && tokens[k] == name;
        lemma_first_occurrence_exists(tokens, name, k);
        lemma_run_end_exists(tokens, options, first_occurrence(tokens, name) + 1);
    }
}

/// Two answers to one query on one parser are equal: what a query answers is
/// fixed by the state of the parser. `first` and `second` stand for what two
/// calls returned.
pub proof fn lemma_answers_repeat(
    app: AppView,
    name: Seq<char>,
    first_command: Option<Seq<char>>,
    second_command: Option<Seq<char>>,
    first_value: Option<Seq<Seq<char>>>,
    second_value: Option<Seq<Seq<char>>>,
)
    requires
        first_command == app.command(),
        second_command == app.command(),
        first_value == app.value(name),
        second_value == app.value(name),
    ensures
        first_command == second_command,
        first_value == second_value,
{
}

/// What the queries answer depends on the invocation arguments and on the
/// names of the declared options, and on nothing else: declaring a command,
/// describing an option or naming the program changes no answer.
pub proof fn lemma_answers_fixed_by_tokens_and_options(a: AppView, b: AppView, name: Seq<char>)
    requires
        a.tokens() == b.tokens(),
        a.option_names() == b.option_names(),
    ensures
        a.command() == b.command(),
        a.value(name) == b.value(name),
{
}

/// A name whose first occurrence is the last token has an empty list of
/// values.
pub proof fn lemma_value_of_last(tokens: Seq<Seq<char>>, options: Seq<Seq<char>>, name: Seq<char>)
    requires
        is_first_occurrence(tokens, name, tokens.len() - 1),
    ensures
        value_of(tokens, options, name) == Some(Seq::<Seq<char>>::empty()),
{
    let at: int = tokens.len() - 1;
    lemma_value_of_at(tokens, options, name, at, at + 1);
}

/// A name with a declared option right behind its first occurrence has an
/// empty list of values.
pub proof fn lemma_value_of_before_option(
    tokens: Seq<Seq<char>>,
    options: Seq<Seq<char>>,
    name: Seq<char>,
    at: int,
)
    requires
        is_first_occurrence(tokens, name, at),
        at + 1 < tokens.len(),
        options.contains(tokens[at + 1]),
    ensures
        value_of(tokens, options, name) == Some(Seq::<Seq<char>>::empty()),
{
    lemma_value_of_at(tokens, options, name, at, at + 1);
}

} // verus!
