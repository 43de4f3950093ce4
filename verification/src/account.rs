use vstd::prelude::*;
use crate::style::{red, blue, painted};

verus! {

/// The credentials used to sign in to a server.
#[derive(Debug)]
pub struct Account {
    /// You may not have access to the email.
    pub email: String,
    pub password: String,
}

impl View for Account {
    type V = (Seq<char>, Seq<char>);

    open spec fn view(&self) -> (Seq<char>, Seq<char>) {
        (self.email@, self.password@)
    }
}

/// What `Account::as_string` may write for an account with this view: the
/// email in red, then, when passwords are shown, a space and the password in
/// blue between round brackets.
pub open spec fn account_text(r: Seq<char>, a: (Seq<char>, Seq<char>), show_password: bool) -> bool {
    if show_password {
        exists|e: Seq<char>, p: Seq<char>|
            painted(e, a.0, seq!['3', '1']) && painted(p, a.1, seq!['3', '4'])
                && r == e + seq![' ', '('] + p + seq![')']
    } else {
        painted(r, a.0, seq!['3', '1'])
    }
}

impl Account {
    pub fn new(email: String, password: String) -> (r: Account)
        ensures
            r@ == (email@, password@),
    {
        Account { email, password }
    }

    /// A copy of these credentials.
    pub fn duplicate(&self) -> (r: Account)
        ensures
            r@ == self@,
    {
        Account { email: self.email.clone(), password: self.password.clone() }
    }

    /// The account as shown to the user: the email, and the password only
    /// when `show_password` is set.
    pub fn as_string(&self, show_password: bool) -> (r: String)
        ensures
            account_text(r@, self@, show_password),
    {
        let mut s = red(self.email.as_str());
        if show_password {
            let ghost e = s@;
            proof {
                reveal_strlit(" (");
                reveal_strlit(")");
            }
            s.append(" (");
            let p = blue(self.password.as_str());
            s.append(p.as_str());
            s.append(")");
            assert(s@ =~= e + seq![' ', '('] + p@ + seq![')']);
        }
        s
    }
}

/// What a server answers when asked whether an account could be created:
/// yes, or no with the server's reason.
#[derive(Debug)]
pub enum AccountCreationMessage {
    Sure,
    Nope(String),
}

/// What a server answers when asked to sign in.
#[derive(Debug, PartialEq, Eq)]
pub enum LoginOption {
    PleaseVerify,
    Success,
    BadPassword,
}

} // verus!
