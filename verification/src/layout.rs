//! The layout of the version, help and error text.

use vstd::prelude::*;
use vstd::string::*;
use crate::model::{catalog_view, entry_view, AppView, Declaration};
use crate::text::{
    lemma_utf8_len_at_least_len, pad_left, pad_right, push_padded_right, push_spaces, spaces,
    utf8_len,
};

verus! {

/// The version line: the name and the version where both are set, the
/// version alone where the name is not, and nothing without a version.
pub open spec fn version_text(name: Option<Seq<char>>, version: Option<Seq<char>>) -> Seq<char> {
    match (name, version) {
        (Some(n), Some(v)) => n + " version "@ + v + "\n"@,
        (None, Some(v)) => "version "@ + v + "\n"@,
        _ => Seq::empty(),
    }
}

/// The message for an invocation whose command is not a valid one.
pub open spec fn error_text(tokens: Seq<Seq<char>>) -> Seq<char> {
    if tokens.len() > 0 {
        "error: '"@ + tokens[0] + "' is not a valid command\n"@
    } else {
        "error: valid command\n"@
    }
}

/// The error message, and behind it the invocation to try instead.
pub open spec fn error_try_text(app: AppView, suggested: Seq<char>) -> Seq<char> {
    error_text(app.tokens()) + "try:\n    '"@ + app.program() + " "@ + suggested + "'\n"@
}

/// The title of the help text, with a blank line behind it: the name and the
/// version with a space between them, or the one of the two that is set;
/// nothing where neither is.
pub open spec fn title_text(name: Option<Seq<char>>, version: Option<Seq<char>>) -> Seq<char> {
    match (name, version) {
        (Some(n), Some(v)) => n + " "@ + v + "\n\n"@,
        (Some(n), None) => n + "\n\n"@,
        (None, Some(v)) => v + "\n\n"@,
        (None, None) => Seq::empty(),
    }
}

/// The description paragraph of the help text, with a blank line behind it.
pub open spec fn desc_text(desc: Option<Seq<char>>) -> Seq<char> {
    match desc {
        Some(d) => d + "\n\n"@,
        None => Seq::empty(),
    }
}

/// The usage lines of the help text, closed by a line of twelve spaces.
pub open spec fn usage_text(program: Seq<char>) -> Seq<char> {
    "Usage:\n    "@ + program + " [COMMAND] [OPTION]\n"@ + spaces(12) + "\n"@
}

/// The width of the name column of a catalog: the length in bytes of its
/// longest name.
pub open spec fn column_width(catalog: Seq<Declaration>) -> nat
    decreases catalog.len(),
{
    if catalog.len() == 0 {
        0
    } else {
        let rest: nat = column_width(catalog.drop_last());
        let last: nat = utf8_len(catalog.last().name);
        if rest >= last {
            rest
        } else {
            last
        }
    }
}

/// The first line of a description; empty where it has none.
pub open spec fn first_line(lines: Seq<Seq<char>>) -> Seq<char> {
    if lines.len() > 0 {
        lines[0]
    } else {
        Seq::empty()
    }
}

/// A further line of a description, set under the first one: behind the
/// indent of four, the name column and the gap of four. An empty line is
/// left out.
pub open spec fn continuation_text(line: Seq<char>, width: nat) -> Seq<char> {
    if line.len() == 0 {
        Seq::empty()
    } else {
        pad_left(line, (8 + width + utf8_len(line)) as int) + "\n"@
    }
}

/// The lines of a description after the first.
pub open spec fn continuations_text(lines: Seq<Seq<char>>, width: nat) -> Seq<char>
    decreases lines.len(),
{
    if lines.len() <= 1 {
        Seq::empty()
    } else {
        continuations_text(lines.drop_last(), width) + continuation_text(lines.last(), width)
    }
}

/// The rows of one declaration: its name in the name column, the first line
/// of its description beside it, the further lines beneath.
pub open spec fn entry_text(entry: Declaration, width: nat) -> Seq<char> {
    "    "@ + pad_right(entry.name, width as int) + "    "@ + first_line(entry.lines) + "\n"@
        + continuations_text(entry.lines, width)
}

/// The rows of a catalog, in the order of declaration.
pub open spec fn entries_text(catalog: Seq<Declaration>, width: nat) -> Seq<char>
    decreases catalog.len(),
{
    if catalog.len() == 0 {
        Seq::empty()
    } else {
        entries_text(catalog.drop_last(), width) + entry_text(catalog.last(), width)
    }
}

/// A section of the help text: its heading, then the rows of the catalog,
/// the name column as wide as the catalog's longest name.
pub open spec fn section_text(heading: Seq<char>, catalog: Seq<Declaration>) -> Seq<char> {
    heading + "\n"@ + entries_text(catalog, column_width(catalog))
}

/// The sections of the help text: the commands, then the options, each
/// where any is declared, and a blank line between the two.
pub open spec fn sections_text(commands: Seq<Declaration>, options: Seq<Declaration>) -> Seq<
    char,
> {
    (if commands.len() > 0 {
        section_text("Command:"@, commands)
    } else {
        Seq::empty()
    }) + (if commands.len() > 0 && options.len() > 0 {
        "\n"@
    } else {
        Seq::empty()
    }) + (if options.len() > 0 {
        section_text("Option:"@, options)
    } else {
        Seq::empty()
    })
}

/// The help text: title, description, usage and sections.
pub open spec fn help_text(app: AppView) -> Seq<char> {
    title_text(app.name, app.version) + desc_text(app.desc) + usage_text(app.program())
        + sections_text(app.commands, app.options)
}

/// Every name of a catalog fits its name column, and the longest one fills
/// it.
pub proof fn lemma_column_width(catalog: Seq<Declaration>)
    ensures
        forall|i: int|
            0 <= i < catalog.len() ==> utf8_len(#[trigger] catalog[i].name) <= column_width(
                catalog,
            ),
        catalog.len() > 0 ==> exists|i: int|
            0 <= i < catalog.len() && utf8_len(#[trigger] catalog[i].name) == column_width(
                catalog,
            ),
        catalog.len() == 0 ==> column_width(catalog) == 0,
    decreases catalog.len(),
{
    if catalog.len() > 0 {
        let rest = catalog.drop_last();
        lemma_column_width(rest);
        let last: int = catalog.len() - 1;
        assert forall|i: int| 0 <= i < catalog.len() implies utf8_len(
            #[trigger] catalog[i].name,
        ) <= column_width(catalog) by {
            if i < last {
                assert(catalog[i] == rest[i]);
            }
        }
        if column_width(catalog) != utf8_len(catalog[last].name) {
            let i: int = choose|i: int|
                0 <= i < rest.len() && utf8_len(#[trigger] rest[i].name) == column_width(rest);
            assert(catalog[i] == rest[i]);
        }
    }
}

/// In a section every name takes the whole name column, and no more: all
/// descriptions start in one column.
pub proof fn lemma_names_fill_column(catalog: Seq<Declaration>, i: int)
    requires
        0 <= i < catalog.len(),
    ensures
        pad_right(catalog[i].name, column_width(catalog) as int).len() == column_width(catalog),
{
    lemma_column_width(catalog);
    lemma_utf8_len_at_least_len(catalog[i].name);
}

/// The width of the name column of `catalog`.
pub fn measure_column(catalog: &Vec<(&str, Vec<String>)>) -> (width: usize)
    ensures
        width == column_width(catalog_view(catalog@)),
{
    let ghost all = catalog_view(catalog@);
    let mut width: usize = 0;
    let mut i: usize = 0;
    while i < catalog.len()
        invariant
            i <= catalog.len(),
            all == catalog_view(catalog@),
            width == column_width(all.take(i as int)),
        decreases catalog.len() - i,
    {
        let n: usize = catalog[i].0.as_bytes().len();
        assert(all.take(i + 1).drop_last() =~= all.take(i as int));
        if n > width {
            width = n;
        }
        i += 1;
    }
    assert(all.take(i as int) =~= all);
    width
}

/// Appends a further line of a description to `out`.
pub fn push_continuation(out: &mut String, line: &str, width: usize)
    ensures
        final(out)@ == old(out)@ + continuation_text(line@, width as nat),
{
    if !line.is_empty() {
        let bytes: usize = line.as_bytes().len();
        let chars: usize = line.unicode_len();
        proof {
            lemma_utf8_len_at_least_len(line@);
        }
        push_spaces(out, 8);
        push_spaces(out, width);
        push_spaces(out, bytes - chars);
        out.append(line);
        out.append("\n");
    }
}

/// Appends the rows of one declaration to `out`.
pub fn push_entry(out: &mut String, entry: &(&str, Vec<String>), width: usize)
    ensures
        final(out)@ == old(out)@ + entry_text(entry_view(*entry), width as nat),
{
    let ghost lines = entry.1.deep_view();
    out.append("    ");
    push_padded_right(out, entry.0, width);
    out.append("    ");
    if entry.1.len() > 0 {
        out.append(entry.1[0].as_str());
    }
    out.append("\n");
    if entry.1.len() > 1 {
        let ghost head = out@;
        let mut i: usize = 1;
        while i < entry.1.len()
            invariant
                1 <= i <= entry.1.len(),
                lines == entry.1.deep_view(),
                out@ == head + continuations_text(lines.take(i as int), width as nat),
            decreases entry.1.len() - i,
        {
            assert(lines.take(i + 1).drop_last() =~= lines.take(i as int));
            push_continuation(out, entry.1[i].as_str(), width);
            i += 1;
        }
        assert(lines.take(i as int) =~= lines);
    }
}

/// Appends a section of the help text to `out`.
pub fn push_section(out: &mut String, heading: &str, catalog: &Vec<(&str, Vec<String>)>)
    ensures
        final(out)@ == old(out)@ + section_text(heading@, catalog_view(catalog@)),
{
    let ghost all = catalog_view(catalog@);
    let width: usize = measure_column(catalog);
    out.append(heading);
    out.append("\n");
    let ghost head = out@;
    let mut i: usize = 0;
    while i < catalog.len()
        invariant
            i <= catalog.len(),
            all == catalog_view(catalog@),
            out@ == head + entries_text(all.take(i as int), width as nat),
        decreases catalog.len() - i,
    {
        assert(all.take(i + 1).drop_last() =~= all.take(i as int));
        push_entry(out, &catalog[i], width);
        i += 1;
    }
    assert(all.take(i as int) =~= all);
}

} // verus!
