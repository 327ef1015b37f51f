//! The parser: an argument list, the declared commands and options, and the
//! queries on them.

use vstd::prelude::*;
use vstd::slice::*;
use vstd::string::*;
use crate::desc::AppDesc;
use crate::layout::{
    desc_text, error_text, error_try_text, help_text, push_section, sections_text, title_text,
    usage_text, version_text,
};
use crate::model::{catalog_view, lemma_value_of_at, AppView, Declaration};
use crate::text::{push_spaces, str_eq};

verus! {

/// A command-line parser. It is built once, by chaining the declaring calls,
/// and then queried any number of times.
#[derive(Debug, Clone)]
pub struct App<'a> {
    args: Vec<String>,
    name: Option<&'a str>,
    version: Option<&'a str>,
    desc: Option<&'a str>,
    command: Vec<(&'a str, Vec<String>)>,
    option: Vec<(&'a str, Vec<String>)>,
}

impl<'a> View for App<'a> {
    type V = AppView;

    /// The state of the parser: what it was built from and what was
    /// declared on it.
    closed spec fn view(&self) -> AppView {
        AppView {
            argv: self.args.deep_view(),
            name: self.name.deep_view(),
            version: self.version.deep_view(),
            desc: self.desc.deep_view(),
            commands: catalog_view(self.command@),
            options: catalog_view(self.option@),
        }
    }
}

impl<'a> App<'a> {
    /// A parser for the argument list `args`, which starts with the
    /// program's own path, as the list that the process received does.
    /// Nothing is declared yet.
    pub fn new(args: Vec<String>) -> (app: App<'a>)
        ensures
            app@ == (AppView {
                argv: args.deep_view(),
                name: None,
                version: None,
                desc: None,
                commands: Seq::empty(),
                options: Seq::empty(),
            }),
    {
        let app = App {
            args,
            name: None,
            version: None,
            desc: None,
            command: Vec::new(),
            option: Vec::new(),
        };
        assert(app@.commands =~= Seq::empty());
        assert(app@.options =~= Seq::empty());
        app
    }

    /// Sets the name of the program.
    pub fn name(self, name: &'a str) -> (app: App<'a>)
        ensures
            app@ == (AppView { name: Some(name@), ..self@ }),
    {
        let mut app = self;
        app.name = Some(name);
        app
    }

    /// Sets the version of the program.
    pub fn version(self, version: &'a str) -> (app: App<'a>)
        ensures
            app@ == (AppView { version: Some(version@), ..self@ }),
    {
        let mut app = self;
        app.version = Some(version);
        app
    }

    /// Sets the name and the version of the program.
    pub fn config(self, name: &'a str, version: &'a str) -> (app: App<'a>)
        ensures
            app@ == (AppView { name: Some(name@), version: Some(version@), ..self@ }),
    {
        let mut app = self;
        app.name = Some(name);
        app.version = Some(version);
        app
    }

    /// Sets the description of the program.
    pub fn desc(self, desc: &'a str) -> (app: App<'a>)
        ensures
            app@ == (AppView { desc: Some(desc@), ..self@ }),
    {
        let mut app = self;
        app.desc = Some(desc);
        app
    }

    /// Declares a command: it is added behind the commands declared before.
    pub fn cmd<T: AppDesc>(self, cmd: &'a str, desc: T) -> (app: App<'a>)
        ensures
            app@ == (AppView {
                commands: self@.commands.push(Declaration { name: cmd@, lines: desc.lines() }),
                ..self@
            }),
    {
        let mut app = self;
        app.command.push((cmd, desc.to_vec_string()));
        assert(app@.commands =~= self@.commands.push(
            Declaration { name: cmd@, lines: desc.lines() },
        ));
        app
    }

    /// Declares an option: it is added behind the options declared before.
    pub fn opt<T: AppDesc>(self, opt: &'a str, desc: T) -> (app: App<'a>)
        ensures
            app@ == (AppView {
                options: self@.options.push(Declaration { name: opt@, lines: desc.lines() }),
                ..self@
            }),
    {
        let mut app = self;
        app.option.push((opt, desc.to_vec_string()));
        assert(app@.options =~= self@.options.push(
            Declaration { name: opt@, lines: desc.lines() },
        ));
        app
    }

    /// Whether `arg` is the first argument of the invocation. The parser
    /// stays as it is.
    pub fn is(&mut self, arg: &str) -> (first: bool)
        ensures
            first == (old(self)@.tokens().len() > 0 && old(self)@.tokens()[0] == arg@),
            *final(self) == *old(self),
    {
        self.args.len() > 1 && str_eq(arg, self.args[1].as_str())
    }

    /// The invocation arguments: all of them, declared or not.
    pub fn args(&self) -> (tokens: &[String])
        ensures
            tokens.deep_view() == self@.tokens(),
    {
        let all = self.args.as_slice();
        if all.len() == 0 {
            all
        } else {
            slice_subrange(all, 1, all.len())
        }
    }

    /// Whether `token` is the name of a declared option.
    fn is_option(&self, token: &str) -> (declared: bool)
        ensures
            declared == self@.option_names().contains(token@),
    {
        let mut k: usize = 0;
        while k < self.option.len()
            invariant
                k <= self.option.len(),
                forall|j: int| 0 <= j < k ==> self@.option_names()[j] != token@,
            decreases self.option.len() - k,
        {
            if str_eq(self.option[k].0, token) {
                assert(self@.option_names()[k as int] == token@);
                return true;
            }
            k += 1;
        }
        false
    }

    /// The command of the invocation: its first argument, unless that is the
    /// name of a declared option.
    pub fn command(&self) -> (found: Option<&String>)
        ensures
            found.deep_view() == self@.command(),
    {
        let tokens = self.args();
        if tokens.len() > 0 && !self.is_option(tokens[0].as_str()) {
            Some(&tokens[0])
        } else {
            None
        }
    }

    /// The values of `name`, which may be a command or an option: the
    /// arguments behind its first occurrence, up to the next declared option
    /// or the end of the list. `None` where `name` does not occur; an empty
    /// list where it occurs and no value follows.
    pub fn value(&self, name: &str) -> (found: Option<Vec<&String>>)
        ensures
            found.deep_view() == self@.value(name@),
    {
        let tokens = self.args();
        let ghost toks = self@.tokens();
        let ghost opts = self@.option_names();
        let mut at: usize = 0;
        while at < tokens.len() && !str_eq(tokens[at].as_str(), name)
            invariant
                at <= tokens.len(),
                tokens.deep_view() == toks,
                forall|j: int| 0 <= j < at ==> toks[j] != name@,
            decreases tokens.len() - at,
        {
            at += 1;
        }
        if at == tokens.len() {
            return None;
        }
        let mut values: Vec<&String> = Vec::new();
        let mut end: usize = at + 1;
        while end < tokens.len() && !self.is_option(tokens[end].as_str())
            invariant
                at < end <= tokens.len(),
                tokens.deep_view() == toks,
                self@.option_names() == opts,
                forall|j: int| at < j < end ==> !opts.contains(#[trigger] toks[j]),
                values.deep_view() == toks.subrange(at + 1, end as int),
            decreases tokens.len() - end,
        {
            let ghost before = values.deep_view();
            values.push(&tokens[end]);
            assert(values.deep_view() =~= before.push(toks[end as int]));
            end += 1;
        }
        proof {
            lemma_value_of_at(toks, opts, name@, at as int, end as int);
        }
        Some(values)
    }

    /// The program's own path; empty where the argument list is.
    fn program(&self) -> (path: &str)
        ensures
            path@ == self@.program(),
    {
        if self.args.len() > 0 {
            self.args[0].as_str()
        } else {
            proof {
                reveal_strlit("");
            }
            ""
        }
    }

    /// The version line: "NAME version VERSION" where both are set,
    /// "version VERSION" where the name is not, and nothing without a
    /// version. A line ends with a line feed.
    pub fn version_text(&self) -> (text: String)
        ensures
            text@ == version_text(self@.name, self@.version),
    {
        let mut text = String::new();
        if let Some(version) = self.version {
            if let Some(name) = self.name {
                text.append(name);
                text.append(" version ");
            } else {
                text.append("version ");
            }
            text.append(version);
            text.append("\n");
        }
        text
    }

    /// The message for an invocation whose command is not a valid one. It
    /// names the first argument, where there is one.
    pub fn error_text(&self) -> (text: String)
        ensures
            text@ == error_text(self@.tokens()),
    {
        let mut text = String::new();
        if self.args.len() > 1 {
            text.append("error: '");
            text.append(self.args[1].as_str());
            text.append("' is not a valid command\n");
        } else {
            text.append("error: valid command\n");
        }
        text
    }

    /// The error message, and behind it the advice to invoke the program
    /// with `cmd`.
    pub fn error_try_text(&self, cmd: &str) -> (text: String)
        ensures
            text@ == error_try_text(self@, cmd@),
    {
        let mut text = self.error_text();
        text.append("try:\n    '");
        text.append(self.program());
        text.append(" ");
        text.append(cmd);
        text.append("'\n");
        text
    }

    /// Appends the title of the help text to `out`.
    fn push_title(&self, out: &mut String)
        ensures
            final(out)@ == old(out)@ + title_text(self@.name, self@.version),
    {
        match (self.name, self.version) {
            (Some(name), Some(version)) => {
                out.append(name);
                out.append(" ");
                out.append(version);
                out.append("\n\n");
            },
            (Some(name), None) => {
                out.append(name);
                out.append("\n\n");
            },
            (None, Some(version)) => {
                out.append(version);
                out.append("\n\n");
            },
            (None, None) => {},
        }
    }

    /// Appends the description paragraph of the help text to `out`.
    fn push_desc(&self, out: &mut String)
        ensures
            final(out)@ == old(out)@ + desc_text(self@.desc),
    {
        if let Some(desc) = self.desc {
            out.append(desc);
            out.append("\n\n");
        }
    }

    /// Appends the usage lines of the help text to `out`.
    fn push_usage(&self, out: &mut String)
        ensures
            final(out)@ == old(out)@ + usage_text(self@.program()),
    {
        out.append("Usage:\n    ");
        out.append(self.program());
        out.append(" [COMMAND] [OPTION]\n");
        push_spaces(out, 12);
        out.append("\n");
    }

    /// Appends the sections of the help text to `out`.
    fn push_sections(&self, out: &mut String)
        ensures
            final(out)@ == old(out)@ + sections_text(self@.commands, self@.options),
    {
        if self.command.len() > 0 {
            push_section(out, "Command:", &self.command);
        }
        if self.command.len() > 0 && self.option.len() > 0 {
            out.append("\n");
        }
        if self.option.len() > 0 {
            push_section(out, "Option:", &self.option);
        }
    }

    /// The help text: the title, the description, the usage, and a section
    /// each for the declared commands and the declared options.
    pub fn help_text(&self) -> (text: String)
        ensures
            text@ == help_text(self@),
    {
        let mut text = String::new();
        self.push_title(&mut text);
        self.push_desc(&mut text);
        self.push_usage(&mut text);
        self.push_sections(&mut text);
        text
    }
}

impl<'a> Default for App<'a> {
    /// A parser with no arguments at all, and nothing declared.
    fn default() -> (app: App<'a>)
        ensures
            app@ == (AppView {
                argv: Seq::empty(),
                name: None,
                version: None,
                desc: None,
                commands: Seq::empty(),
                options: Seq::empty(),
            }),
    {
        let app = App::new(Vec::new());
        assert(app@.argv =~= Seq::empty());
        app
    }
}

} // verus!
