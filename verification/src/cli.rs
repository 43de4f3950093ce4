use vstd::prelude::*;
use crate::address::ServerUrl;
use crate::posts::Post;
use crate::account::{Account, LoginOption};
use crate::serverlist::SerializationError;
use crate::text::{chars_of, push_char, joined, texts, join_strings};

verus! {

/// What the user asked for on the command line.
#[derive(Debug)]
pub enum Cli {
    Search { query: Vec<String> },
    Stats,
    Pub { title: String, path: String },
    Server(ServerSubcommand),
    Whoami,
    Dev(DevSubcommand),
}

/// The `--server` commands.
#[derive(Debug)]
pub enum ServerSubcommand {
    Add { url: ServerUrl },
    Remove { url: ServerUrl },
    Select { idx: usize },
    Login { email: String, password: String },
    List { show_passwords: bool },
}

/// The account commands.
#[derive(Debug)]
pub enum AccountSubcommand {
    New,
    Login { username: String, password: String },
    Delete { username: String },
    List,
}

/// The developer commands: there are none yet, so a value of this type
/// carries nothing.
#[derive(Debug)]
pub struct DevSubcommand;

/// What signing in to a server does after the server's answer or the
/// check of the emailed code.
#[derive(Debug, PartialEq, Eq)]
pub enum LoginStep {
    /// Ask the user for the code the server emailed, and check it.
    AskForCode,
    /// Record the account on the server.
    SignIn,
    /// Leave the server as it is.
    Stop,
}

/// The lines shown when the server asks to verify the email.
pub open spec fn verify_prompt() -> Seq<Seq<char>> {
    seq![
        "The server hasn't seen that email before, so you'll need to verify it."@,
        "It should have sent a code to your inbox; please enter it here:"@,
    ]
}

impl ServerSubcommand {
    /// What to show and do after the server answered a request to sign in
    /// as `account`: verify an unknown email by its code; warn of a wrong
    /// password, and sign in all the same; sign in on success.
    pub fn after_login_answer(answer: &LoginOption, account: &Account) -> (r: (Vec<String>, LoginStep))
        ensures
            match answer {
                LoginOption::PleaseVerify => texts(r.0@) == verify_prompt() && r.1 == LoginStep::AskForCode,
                LoginOption::BadPassword => texts(r.0@) == seq![
                    "The server said that you have the wrong password for "@ + account.email@,
                ] && r.1 == LoginStep::SignIn,
                LoginOption::Success => r.0@.len() == 0 && r.1 == LoginStep::SignIn,
            },
    {
        let mut lines: Vec<String> = Vec::new();
        match answer {
            LoginOption::PleaseVerify => {
                lines.push(String::from_str("The server hasn't seen that email before, so you'll need to verify it."));
                lines.push(String::from_str("It should have sent a code to your inbox; please enter it here:"));
                assert(texts(lines@) =~= verify_prompt());
                (lines, LoginStep::AskForCode)
            },
            LoginOption::BadPassword => {
                let mut m = String::from_str("The server said that you have the wrong password for ");
                m.append(account.email.as_str());
                lines.push(m);
                assert(texts(lines@) =~= seq!["The server said that you have the wrong password for "@ + account.email@]);
                (lines, LoginStep::SignIn)
            },
            LoginOption::Success => (lines, LoginStep::SignIn),
        }
    }

    /// What to show and do after the emailed code was checked: sign in
    /// where it was right; otherwise say so and stop.
    pub fn after_code_check(verified: bool) -> (r: (Vec<String>, LoginStep))
        ensures
            verified ==> r.0@.len() == 0 && r.1 == LoginStep::SignIn,
            !verified ==> texts(r.0@) == seq!["The code was incorrect, please try again."@] && r.1 == LoginStep::Stop,
    {
        let mut lines: Vec<String> = Vec::new();
        if verified {
            (lines, LoginStep::SignIn)
        } else {
            lines.push(String::from_str("The code was incorrect, please try again."));
            assert(texts(lines@) =~= seq!["The code was incorrect, please try again."@]);
            (lines, LoginStep::Stop)
        }
    }
}

/// Whether the first argument (after the program's name) is a word rather
/// than a flag, which makes the command line a search.
pub open spec fn is_search_shortcut(args: Seq<Seq<char>>) -> bool {
    args.len() >= 2 && !(args[1].len() > 0 && args[1][0] == '-')
}

/// The arguments with `--search` put in as the first one where the command
/// line is a search shortcut; unchanged otherwise.
pub open spec fn expanded_args(args: Seq<Seq<char>>) -> Seq<Seq<char>> {
    if is_search_shortcut(args) {
        args.insert(1, "--search"@)
    } else {
        args
    }
}

impl Cli {
    /// The command line to parse: a first argument that is not a flag is a
    /// shortcut for searching, so `--search` is put in before it.
    pub fn expand_search_shortcut(args: Vec<String>) -> (r: Vec<String>)
        requires
            args@.len() < usize::MAX,
        ensures
            texts(r@) == expanded_args(texts(args@)),
    {
        let mut args = args;
        if args.len() >= 2 {
            let first = chars_of(args[1].as_str());
            let is_flag = first.len() > 0 && first[0] == '-';
            if !is_flag {
                let ghost before = args@;
                args.insert(1, String::from_str("--search"));
                assert(texts(args@) =~= texts(before).insert(1, "--search"@));
            }
        }
        args
    }
}

/// What follows a command that has run: where it succeeded the server list
/// is stored, since the command may have changed it; where it failed its
/// error is reported and nothing is stored.
#[derive(Debug, PartialEq, Eq)]
pub enum RunOutcome {
    Store,
    Report(String),
}

impl Cli {
    /// What follows a command, given how it ended (its error as text).
    pub fn after_run(run: Result<(), String>) -> (r: RunOutcome)
        ensures
            match run {
                Ok(()) => r == RunOutcome::Store,
                Err(e) => r matches RunOutcome::Report(m) && m@ == e@,
            },
    {
        match run {
            Ok(()) => RunOutcome::Store,
            Err(e) => RunOutcome::Report(e),
        }
    }

    /// The line printed where storing the list failed.
    pub fn store_failure_message(e: &SerializationError) -> (r: String)
        ensures
            r@ == "Error writing to disk: "@ + e.message_text(),
    {
        let mut m = String::from_str("Error writing to disk: ");
        let t = e.message();
        m.append(t.as_str());
        m
    }
}

/// The Unicode `White_Space` characters, which `char::is_whitespace` tells
/// apart.
pub open spec fn unicode_white_space(c: char) -> bool {
    let n = c as int;
    ||| 0x9 <= n <= 0xD
    ||| n == 0x20
    ||| n == 0x85
    ||| n == 0xA0
    ||| n == 0x1680
    ||| 0x2000 <= n <= 0x200A
    ||| n == 0x2028
    ||| n == 0x2029
    ||| n == 0x202F
    ||| n == 0x205F
    ||| n == 0x3000
}

/// Whether `c` has the Unicode `White_Space` property, as std's
/// `char::is_whitespace` tells.
fn is_whitespace(c: char) -> (r: bool)
    ensures
        r == unicode_white_space(c),
{
    let n = c as u32;
    (0x9 <= n && n <= 0xD) || n == 0x20 || n == 0x85 || n == 0xA0 || n == 0x1680 || (0x2000 <= n && n <= 0x200A)
        || n == 0x2028 || n == 0x2029 || n == 0x202F || n == 0x205F || n == 0x3000
}

/// What `capitalize::Capitalize::capitalize` makes of a text: its first
/// character in upper case, the rest in lower case, by Unicode's rules.
pub uninterp spec fn capitalized(s: Seq<char>) -> Seq<char>;

/// `capitalize::Capitalize::capitalize`. Claims that the result is the
/// crate's, named `capitalized`, and, as its source shows, that the empty
/// text stays empty; the Unicode case mapping is left unsaid.
#[verifier::external_body]
fn capitalize(s: &str) -> (r: String)
    ensures
        r@ == capitalized(s@),
        s@.len() == 0 ==> r@.len() == 0,
{
    capitalize::Capitalize::capitalize(&s)
}

/// The characters that part the words of a title.
pub open spec fn is_title_separator(c: char) -> bool {
    unicode_white_space(c) || c == '-' || c == '_'
}

/// The pieces of `s` between separators, empty pieces included, as
/// `str::split` gives them.
pub open spec fn title_pieces(s: Seq<char>) -> Seq<Seq<char>>
    decreases s.len(),
{
    if s.len() == 0 {
        seq![Seq::<char>::empty()]
    } else {
        let before = title_pieces(s.drop_last());
        if is_title_separator(s.last()) {
            before.push(Seq::empty())
        } else {
            before.update(before.len() - 1, before.last().push(s.last()))
        }
    }
}

/// A title made from a file name: its words capitalized, joined by spaces.
pub open spec fn formatted_title(s: Seq<char>) -> Seq<char> {
    joined(title_pieces(s).map_values(|w: Seq<char>| capitalized(w)), " "@)
}

/// There is always at least one piece.
proof fn lemma_pieces_nonempty(s: Seq<char>)
    ensures
        title_pieces(s).len() >= 1,
    decreases s.len(),
{
    if s.len() > 0 {
        lemma_pieces_nonempty(s.drop_last());
    }
}

/// Makes a title from a file name: split at white space, `-` and `_`, each
/// piece capitalized, joined with spaces.
pub fn format_title(title: String) -> (r: String)
    ensures
        r@ == formatted_title(title@),
{
    let cs = chars_of(title.as_str());
    let n = cs.len();
    let mut words: Vec<String> = Vec::new();
    let mut cur = String::new();
    let mut i: usize = 0;
    proof {
        assert(title@.take(0) =~= Seq::<char>::empty());
    }
    while i < n
        invariant
            n == cs@.len(),
            cs@ == title@,
            i <= n,
            title_pieces(title@.take(i as int)).len() >= 1,
            cur@ == title_pieces(title@.take(i as int)).last(),
            texts(words@) == title_pieces(title@.take(i as int)).drop_last().map_values(
                |w: Seq<char>| capitalized(w),
            ),
        decreases n - i,
    {
        let c = cs[i];
        let ghost prefix = title@.take(i as int);
        let ghost pieces = title_pieces(prefix);
        proof {
            assert(title@.take(i as int + 1).drop_last() =~= prefix);
            assert(title@.take(i as int + 1).last() == c);
            lemma_pieces_nonempty(title@.take(i as int + 1));
        }
        if is_whitespace(c) || c == '-' || c == '_' {
            let w = capitalize(cur.as_str());
            let ghost before = words@;
            words.push(w);
            proof {
                let next = title_pieces(title@.take(i as int + 1));
                assert(next == pieces.push(Seq::empty()));
                assert(next.drop_last() =~= pieces);
                assert(pieces =~= pieces.drop_last().push(pieces.last()));
                assert(texts(words@) =~= texts(before).push(w@));
                assert(pieces.map_values(|w: Seq<char>| capitalized(w)) =~= pieces.drop_last().map_values(
                    |w: Seq<char>| capitalized(w),
                ).push(capitalized(pieces.last())));
            }
            cur = String::new();
        } else {
            push_char(&mut cur, c);
            proof {
                let next = title_pieces(title@.take(i as int + 1));
                assert(next == pieces.update(pieces.len() - 1, pieces.last().push(c)));
                assert(next.drop_last() =~= pieces.drop_last());
            }
        }
        i = i + 1;
    }
    let w = capitalize(cur.as_str());
    let ghost before = words@;
    words.push(w);
    proof {
        let pieces = title_pieces(title@.take(n as int));
        assert(title@.take(n as int) =~= title@);
        assert(texts(words@) =~= texts(before).push(w@));
        assert(pieces =~= pieces.drop_last().push(pieces.last()));
        assert(pieces.map_values(|w: Seq<char>| capitalized(w)) =~= pieces.drop_last().map_values(
            |w: Seq<char>| capitalized(w),
        ).push(capitalized(pieces.last())));
    }
    join_strings(&words, " ")
}

/// The title to publish under: the one given, or else one made from the
/// file's name.
pub fn pub_title(title: Option<String>, file_name: Option<String>) -> (r: String)
    requires
        title is Some || file_name is Some,
    ensures
        match title {
            Some(t) => r@ == t@,
            None => r@ == formatted_title(file_name.unwrap()@),
        },
{
    match title {
        Some(t) => t,
        None => match file_name {
            Some(f) => format_title(f),
            None => String::new(),
        },
    }
}

/// Putting in `--search` is done once: the expanded command line is no
/// shortcut any more.
pub proof fn lemma_expand_once(args: Seq<Seq<char>>)
    ensures
        expanded_args(expanded_args(args)) == expanded_args(args),
{
    if is_search_shortcut(args) {
        let e = args.insert(1, "--search"@);
        reveal_strlit("--search");
        assert(e[1] == "--search"@);
        assert(e[1][0] == '-');
    }
}

/// A file name without separators is one word: its title is that word,
/// capitalized.
pub proof fn lemma_single_word_title(s: Seq<char>)
    requires
        forall|i: int| 0 <= i < s.len() ==> !is_title_separator(#[trigger] s[i]),
    ensures
        formatted_title(s) == capitalized(s),
{
    lemma_single_piece(s);
    let ps = title_pieces(s).map_values(|w: Seq<char>| capitalized(w));
    assert(ps.len() == 1);
    assert(ps[0] == capitalized(s));
}

/// Without separators the text is its only piece.
proof fn lemma_single_piece(s: Seq<char>)
    requires
        forall|i: int| 0 <= i < s.len() ==> !is_title_separator(#[trigger] s[i]),
    ensures
        title_pieces(s) == seq![s],
    decreases s.len(),
{
    if s.len() == 0 {
        assert(s =~= Seq::<char>::empty());
        assert(title_pieces(s) =~= seq![s]);
    } else {
        let rest = s.drop_last();
        assert forall|i: int| 0 <= i < rest.len() implies !is_title_separator(#[trigger] rest[i]) by {
            assert(rest[i] == s[i]);
        }
        lemma_single_piece(rest);
        assert(!is_title_separator(s[s.len() - 1]));
        assert(rest.push(s.last()) =~= s);
        assert(s.drop_last() == rest);
        assert(title_pieces(s) == title_pieces(rest).update(0, rest.push(s.last())));
        assert(title_pieces(s) =~= seq![s]);
    }
}

/// The commands of the first, local-only client.
#[derive(Debug)]
pub enum Commands {
    Stats,
    GetPost { id: i32 },
    AddPost { title: String, content: String },
}

/// The command line of the first client.
#[derive(Debug)]
pub struct CommandsCli {
    pub command: Commands,
}

/// What a command of the first client does.
#[derive(Debug)]
pub enum CommandAction {
    DisplayStats,
    DisplayPost { id: i32 },
    AddPost { post: Post },
}

/// The post that adding makes of a title and a text.
pub fn try_add_post(title: String, content: String) -> (r: Post)
    ensures
        r@ == (title@, content@),
{
    Post::new(title, content)
}

/// Decides what a command of the first client does: show the server's
/// numbers, show a post, or send a new post.
pub fn run_commands(command: CommandsCli) -> (r: CommandAction)
    ensures
        match command.command {
            Commands::Stats => r is DisplayStats,
            Commands::GetPost { id } => r == (CommandAction::DisplayPost { id }),
            Commands::AddPost { title, content } => r matches CommandAction::AddPost { post } && post@ == (
            title@, content@),
        },
{
    match command.command {
        Commands::Stats => CommandAction::DisplayStats,
        Commands::GetPost { id } => CommandAction::DisplayPost { id },
        Commands::AddPost { title, content } => CommandAction::AddPost { post: try_add_post(title, content) },
    }
}

} // verus!
