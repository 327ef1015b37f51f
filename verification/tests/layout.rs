use ace::layout::{measure_column, push_continuation, push_entry, push_section};
use ace::text::{push_padded_right, push_spaces, str_eq};
use ace::{App, AppDesc};

fn program(path: &str) -> Vec<String> {
    vec![path.to_string()]
}

#[test]
fn version_text_with_name_and_version() {
    let app = App::new(program("app")).config("ace", "0.1.2");
    assert_eq!(app.version_text(), "ace version 0.1.2\n");
    let app = App::new(program("app")).name("ace").version("0.1.2");
    assert_eq!(app.version_text(), "ace version 0.1.2\n");
}

#[test]
fn version_text_with_version_only() {
    let app = App::new(program("app")).version("0.1.2");
    assert_eq!(app.version_text(), "version 0.1.2\n");
}

#[test]
fn version_text_without_version_is_empty() {
    assert_eq!(App::new(program("app")).version_text(), "");
    assert_eq!(App::new(program("app")).name("ace").version_text(), "");
}

#[test]
fn later_settings_replace_earlier_ones() {
    let app = App::new(program("app")).config("a", "1").name("b").version("2").desc("x").desc("y");
    assert_eq!(app.version_text(), "b version 2\n");
    assert_eq!(app.help_text(), "b 2\n\ny\n\nUsage:\n    app [COMMAND] [OPTION]\n            \n");
}

#[test]
fn error_text_names_the_first_argument() {
    let app = App::new(vec!["app".to_string(), "strat".to_string(), "now".to_string()]);
    assert_eq!(app.error_text(), "error: 'strat' is not a valid command\n");
    let app = App::new(vec!["app".to_string(), "--config".to_string()]).opt("--config", "c");
    assert_eq!(app.error_text(), "error: '--config' is not a valid command\n");
}

#[test]
fn error_text_without_arguments() {
    assert_eq!(App::new(program("app")).error_text(), "error: valid command\n");
}

#[test]
fn error_try_text_adds_the_suggestion() {
    let app = App::new(vec!["/usr/bin/app".to_string(), "strat".to_string()]);
    assert_eq!(
        app.error_try_text("help"),
        "error: 'strat' is not a valid command\ntry:\n    '/usr/bin/app help'\n"
    );
    let app = App::new(program("app"));
    assert_eq!(app.error_try_text("start --now"), "error: valid command\ntry:\n    'app start --now'\n");
}

#[test]
fn help_aligns_the_names_of_the_commands() {
    let app = App::new(program("app")).cmd("start", "Start now").cmd("help", "Show help");
    assert_eq!(
        app.help_text(),
        "Usage:\n    app [COMMAND] [OPTION]\n            \n\
         Command:\n    start    Start now\n    help     Show help\n"
    );
}

#[test]
fn help_text_in_full() {
    let app = App::new(program("app"))
        .config("app", "1.0.0")
        .desc("This is a description")
        .cmd("start", "Start now")
        .cmd("help", "Display help information")
        .cmd("version", "Display version information")
        .opt("--config", "Use configuration file")
        .opt("--duration", vec!["Set duration of test", "example (1ms, 1s, 1m, 1h, 1d)"])
        .opt("--timeout", "Set timeout");
    let expected = [
        "app 1.0.0",
        "",
        "This is a description",
        "",
        "Usage:",
        "    app [COMMAND] [OPTION]",
        "            ",
        "Command:",
        "    start      Start now",
        "    help       Display help information",
        "    version    Display version information",
        "",
        "Option:",
        "    --config      Use configuration file",
        "    --duration    Set duration of test",
        "                  example (1ms, 1s, 1m, 1h, 1d)",
        "    --timeout     Set timeout",
        "",
    ]
    .join("\n");
    assert_eq!(app.help_text(), expected);
}

#[test]
fn help_title_with_one_part() {
    let usage = "Usage:\n    app [COMMAND] [OPTION]\n            \n";
    let app = App::new(program("app")).name("ace");
    assert_eq!(app.help_text(), format!("ace\n\n{}", usage));
    let app = App::new(program("app")).version("1.0");
    assert_eq!(app.help_text(), format!("1.0\n\n{}", usage));
    let app = App::new(program("app"));
    assert_eq!(app.help_text(), usage);
    let app = App::new(program("app")).desc("Does things");
    assert_eq!(app.help_text(), format!("Does things\n\n{}", usage));
}

#[test]
fn help_with_options_only() {
    let app = App::new(program("tool")).opt("-v", "Verbose").opt("--quiet", "Quiet");
    assert_eq!(
        app.help_text(),
        "Usage:\n    tool [COMMAND] [OPTION]\n            \n\
         Option:\n    -v         Verbose\n    --quiet    Quiet\n"
    );
}

#[test]
fn help_columns_are_measured_per_catalog() {
    let app = App::new(program("app")).cmd("go", "Go").opt("--a-long-option", "Long");
    assert_eq!(
        app.help_text(),
        "Usage:\n    app [COMMAND] [OPTION]\n            \n\
         Command:\n    go    Go\n\nOption:\n    --a-long-option    Long\n"
    );
}

#[test]
fn help_skips_empty_further_lines() {
    let app = App::new(program("app")).cmd("run", vec!["Run it", "", "twice"]);
    assert_eq!(
        app.help_text(),
        "Usage:\n    app [COMMAND] [OPTION]\n            \n\
         Command:\n    run    Run it\n           twice\n"
    );
}

#[test]
fn help_with_an_empty_description() {
    let none: Vec<&str> = Vec::new();
    let app = App::new(program("app")).cmd("run", none).cmd("", "");
    assert_eq!(
        app.help_text(),
        "Usage:\n    app [COMMAND] [OPTION]\n            \n\
         Command:\n    run    \n           \n"
    );
}

#[test]
fn help_lists_a_repeated_name_each_time() {
    let app = App::new(program("app")).cmd("go", "first").cmd("go", "second");
    assert_eq!(
        app.help_text(),
        "Usage:\n    app [COMMAND] [OPTION]\n            \n\
         Command:\n    go    first\n    go    second\n"
    );
}

#[test]
fn help_measures_names_in_bytes_and_pads_in_characters() {
    let app = App::new(program("app")).cmd("é", "accent").cmd("ab", "plain");
    assert_eq!(
        app.help_text(),
        "Usage:\n    app [COMMAND] [OPTION]\n            \n\
         Command:\n    é     accent\n    ab    plain\n"
    );
    let app = App::new(program("app")).cmd("日本", vec!["Japan", "çx"]).cmd("abc", "plain");
    assert_eq!(
        app.help_text(),
        "Usage:\n    app [COMMAND] [OPTION]\n            \n\
         Command:\n    日本        Japan\n               çx\n    abc       plain\n"
    );
}

#[test]
fn measure_column_is_the_longest_name() {
    let none: Vec<(&str, Vec<String>)> = Vec::new();
    assert_eq!(measure_column(&none), 0);
    let catalog = vec![("start", vec![]), ("help", vec![]), ("version", vec![]), ("go", vec![])];
    assert_eq!(measure_column(&catalog), 7);
    let catalog = vec![("é", vec![]), ("a", vec![])];
    assert_eq!(measure_column(&catalog), 2);
    let catalog = vec![("", vec![])];
    assert_eq!(measure_column(&catalog), 0);
}

#[test]
fn push_section_appends_heading_and_rows() {
    let catalog = vec![
        ("a", vec!["one".to_string()]),
        ("bcd", vec!["two".to_string(), "more".to_string()]),
    ];
    let mut out = String::from(">");
    push_section(&mut out, "Things:", &catalog);
    assert_eq!(out, ">Things:\n    a      one\n    bcd    two\n           more\n");
    let none: Vec<(&str, Vec<String>)> = Vec::new();
    let mut out = String::new();
    push_section(&mut out, "Nothing:", &none);
    assert_eq!(out, "Nothing:\n");
}

#[test]
fn push_entry_with_a_narrow_column() {
    let entry = ("version", vec!["Show it".to_string(), "again".to_string()]);
    let mut out = String::new();
    push_entry(&mut out, &entry, 3);
    assert_eq!(out, "    version    Show it\n           again\n");
}

#[test]
fn push_continuation_indents_by_the_column() {
    let mut out = String::from("x");
    push_continuation(&mut out, "more", 0);
    assert_eq!(out, "x        more\n");
    push_continuation(&mut out, "", 5);
    assert_eq!(out, "x        more\n");
    push_continuation(&mut out, "é", 2);
    assert_eq!(out, "x        more\n           é\n");
}

#[test]
fn push_spaces_appends_that_many() {
    let mut out = String::from("ab");
    push_spaces(&mut out, 0);
    assert_eq!(out, "ab");
    push_spaces(&mut out, 3);
    assert_eq!(out, "ab   ");
}

#[test]
fn push_padded_right_fills_up_to_the_width() {
    let mut out = String::from("[");
    push_padded_right(&mut out, "ab", 5);
    out.push(']');
    assert_eq!(out, "[ab   ]");
    let mut out = String::new();
    push_padded_right(&mut out, "abcdef", 3);
    assert_eq!(out, "abcdef");
    let mut out = String::new();
    push_padded_right(&mut out, "日本", 3);
    assert_eq!(out, "日本 ");
    let mut out = String::new();
    push_padded_right(&mut out, "", 2);
    assert_eq!(out, "  ");
}

#[test]
fn str_eq_compares_the_characters() {
    assert!(str_eq("", ""));
    assert!(str_eq("--config", "--config"));
    assert!(!str_eq("--config", "--confih"));
    assert!(!str_eq("--config", "--confi"));
    assert!(!str_eq("", "a"));
    assert!(str_eq("日本", "日本"));
    assert!(!str_eq("日本", "日木"));
    assert!(!str_eq("é", "e"));
}

#[test]
fn descriptions_of_every_kind() {
    assert_eq!("one".to_vec_string(), vec!["one".to_string()]);
    assert_eq!("".to_vec_string(), vec!["".to_string()]);
    assert_eq!("one".to_string().to_vec_string(), vec!["one".to_string()]);
    assert_eq!(vec!["one", "two"].to_vec_string(), vec!["one".to_string(), "two".to_string()]);
    assert_eq!(
        vec!["one".to_string(), "two".to_string()].to_vec_string(),
        vec!["one".to_string(), "two".to_string()]
    );
    let lines = ["one", "two", "three"];
    assert_eq!(
        (&lines[..]).to_vec_string(),
        vec!["one".to_string(), "two".to_string(), "three".to_string()]
    );
    let owned = ["one".to_string(), "two".to_string()];
    assert_eq!((&owned[1..]).to_vec_string(), vec!["two".to_string()]);
    let none: Vec<&str> = Vec::new();
    assert!(none.to_vec_string().is_empty());
}

#[test]
fn every_kind_of_description_declares() {
    let lines = ["from a", "slice"];
    let app = App::new(program("app"))
        .cmd("a", "text")
        .cmd("b", "owned".to_string())
        .cmd("c", vec!["list", "of two"])
        .cmd("d", vec!["owned list".to_string()])
        .cmd("e", &lines[..]);
    assert_eq!(
        app.help_text(),
        "Usage:\n    app [COMMAND] [OPTION]\n            \n\
         Command:\n    a    text\n    b    owned\n    c    list\n         of two\n    d    owned list\n    e    from a\n         slice\n"
    );
}
