use terse::account::{Account, LoginOption};
use terse::cli::{LoginStep, RunOutcome, ServerSubcommand};
use terse::serverlist::SerializationError;
use terse::cli::{format_title, pub_title, run_commands, try_add_post, Cli, CommandAction, Commands, CommandsCli};

fn args(v: &[&str]) -> Vec<String> {
    v.iter().map(|s| s.to_string()).collect()
}

#[test]
fn first_word_means_search() {
    assert_eq!(
        Cli::expand_search_shortcut(args(&["ts", "format", "string"])),
        args(&["ts", "--search", "format", "string"])
    );
    assert_eq!(Cli::expand_search_shortcut(args(&["ts", "--stats"])), args(&["ts", "--stats"]));
    assert_eq!(Cli::expand_search_shortcut(args(&["ts"])), args(&["ts"]));
    assert_eq!(Cli::expand_search_shortcut(args(&["ts", ""])), args(&["ts", "--search", ""]));
    let once = Cli::expand_search_shortcut(args(&["ts", "rust"]));
    assert_eq!(Cli::expand_search_shortcut(once.clone()), once);
}

#[test]
fn titles_from_file_names() {
    assert_eq!(format_title(String::from("traits-in_rust deep")), "Traits In Rust Deep");
    assert_eq!(format_title(String::from("hELLO")), "Hello");
    assert_eq!(format_title(String::from("a--b")), "A  B");
    assert_eq!(format_title(String::from("")), "");
    assert_eq!(format_title(String::from("ñandu\tlife")), "Ñandu Life");
    assert_eq!(format_title(String::from("notes.txt")), "Notes.txt");
}

#[test]
fn title_to_publish_under() {
    assert_eq!(pub_title(Some(String::from("Given")), Some(String::from("x-y"))), "Given");
    assert_eq!(pub_title(None, Some(String::from("x-y"))), "X Y");
}

#[test]
fn first_client_commands() {
    assert!(matches!(run_commands(CommandsCli { command: Commands::Stats }), CommandAction::DisplayStats));
    assert!(matches!(
        run_commands(CommandsCli { command: Commands::GetPost { id: -4 } }),
        CommandAction::DisplayPost { id: -4 }
    ));
    match run_commands(CommandsCli {
        command: Commands::AddPost { title: String::from("t"), content: String::from("c") },
    }) {
        CommandAction::AddPost { post } => {
            assert_eq!(post.title, "t");
            assert_eq!(post.content, "c");
        }
        _ => panic!("expected a post to add"),
    }
    let p = try_add_post(String::from("a"), String::from("b"));
    assert_eq!((p.title.as_str(), p.content.as_str()), ("a", "b"));
}

#[test]
fn login_answers_decide_the_next_step() {
    let a = Account::new(String::from("me@x.org"), String::from("pw"));
    let (lines, step) = ServerSubcommand::after_login_answer(&LoginOption::PleaseVerify, &a);
    assert_eq!(step, LoginStep::AskForCode);
    assert_eq!(
        lines,
        vec![
            "The server hasn't seen that email before, so you'll need to verify it.",
            "It should have sent a code to your inbox; please enter it here:"
        ]
    );
    let (lines, step) = ServerSubcommand::after_login_answer(&LoginOption::BadPassword, &a);
    assert_eq!(step, LoginStep::SignIn);
    assert_eq!(lines, vec!["The server said that you have the wrong password for me@x.org"]);
    let (lines, step) = ServerSubcommand::after_login_answer(&LoginOption::Success, &a);
    assert_eq!(step, LoginStep::SignIn);
    assert!(lines.is_empty());
    let (lines, step) = ServerSubcommand::after_code_check(false);
    assert_eq!(step, LoginStep::Stop);
    assert_eq!(lines, vec!["The code was incorrect, please try again."]);
    let (lines, step) = ServerSubcommand::after_code_check(true);
    assert_eq!(step, LoginStep::SignIn);
    assert!(lines.is_empty());
}

#[test]
fn only_a_command_that_succeeded_is_stored() {
    assert_eq!(Cli::after_run(Ok(())), RunOutcome::Store);
    assert_eq!(
        Cli::after_run(Err(String::from("You already have that server saved"))),
        RunOutcome::Report(String::from("You already have that server saved"))
    );
    assert_eq!(
        Cli::store_failure_message(&SerializationError::CantWriteToFile),
        "Error writing to disk: I couldn't save to the storage file"
    );
}

#[test]
fn unicode_spaces_part_title_words() {
    assert_eq!(format_title(String::from("a\u{2003}b\u{3000}c")), "A B C");
    assert_eq!(format_title(String::from("a\u{200B}b")), "A\u{200B}b");
}
