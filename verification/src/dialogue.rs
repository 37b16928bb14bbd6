//! What passes between a command and the user: questions, answers and reports.
//!
//! A command may need answers that only the user can give: a confirmation, a
//! new password, a new name. Commands never ask. Each takes the answers that
//! were given so far and either is carried out, or says what to ask next, or
//! fails, leaving everything as it was; the caller asks, records the answer
//! and calls again. A command that would overwrite fails until the user has
//! confirmed it: [`recover`] says when to ask for that.

use vstd::prelude::*;
use crate::failure::{Failure, FailureView};
use crate::store::Listing;

verus! {

/// A question to the user.
#[derive(Debug, Clone, Copy, PartialEq, Eq, Structural)]
pub enum Prompt {
    /// May an existing value, field or account be replaced? A command never
    /// asks this itself: it fails, and [`recover`] says to ask.
    ConfirmOverwrite,
    /// May the master password be changed?
    ConfirmEditMaster,
    /// May the field that the command names be deleted?
    ConfirmDeleteField,
    /// May the account that the command names be deleted?
    ConfirmDeleteAccount,
    /// May every account be deleted?
    ConfirmDeleteAll,
    /// The same once more, before every account is deleted.
    ConfirmDeleteAllAgain,
    /// A new password, typed twice unless the command is forced.
    NewPassword,
    /// A new name for an account or a field.
    NewProperty,
}

/// An answer of the user.
pub enum Reply {
    Yes,
    No,
    Text(String),
}

/// The answers given so far to the questions of one command.
pub struct Answers {
    /// To any confirmation but the second one before deleting everything.
    pub confirm: Option<bool>,
    /// To [`Prompt::ConfirmDeleteAllAgain`].
    pub confirm_again: Option<bool>,
    /// To [`Prompt::NewPassword`].
    pub secret: Option<String>,
    /// To [`Prompt::NewProperty`].
    pub text: Option<String>,
}

impl Answers {
    /// No answers yet.
    pub fn none() -> (r: Answers)
        ensures
            r.confirm is None,
            r.confirm_again is None,
            r.secret is None,
            r.text is None,
    {
        Answers { confirm: None, confirm_again: None, secret: None, text: None }
    }

    /// Records the user's reply to `prompt`. A reply of the wrong kind, text
    /// for a confirmation or the reverse, is dropped, so that the question
    /// comes again.
    pub fn record(&mut self, prompt: Prompt, reply: Reply)
        ensures
            final(self).confirm == match (prompt, reply) {
                (Prompt::ConfirmDeleteAllAgain, _) => old(self).confirm,
                (Prompt::NewPassword, _) => old(self).confirm,
                (Prompt::NewProperty, _) => old(self).confirm,
                (_, Reply::Yes) => Some(true),
                (_, Reply::No) => Some(false),
                (_, Reply::Text(_)) => old(self).confirm,
            },
            final(self).confirm_again == match (prompt, reply) {
                (Prompt::ConfirmDeleteAllAgain, Reply::Yes) => Some(true),
                (Prompt::ConfirmDeleteAllAgain, Reply::No) => Some(false),
                _ => old(self).confirm_again,
            },
            final(self).secret == match (prompt, reply) {
                (Prompt::NewPassword, Reply::Text(t)) => Some(t),
                _ => old(self).secret,
            },
            final(self).text == match (prompt, reply) {
                (Prompt::NewProperty, Reply::Text(t)) => Some(t),
                _ => old(self).text,
            },
    {
        match prompt {
            Prompt::NewPassword => match reply {
                Reply::Text(t) => {
                    self.secret = Some(t);
                },
                _ => {},
            },
            Prompt::NewProperty => match reply {
                Reply::Text(t) => {
                    self.text = Some(t);
                },
                _ => {},
            },
            Prompt::ConfirmDeleteAllAgain => match reply {
                Reply::Yes => {
                    self.confirm_again = Some(true);
                },
                Reply::No => {
                    self.confirm_again = Some(false);
                },
                Reply::Text(_) => {},
            },
            _ => match reply {
                Reply::Yes => {
                    self.confirm = Some(true);
                },
                Reply::No => {
                    self.confirm = Some(false);
                },
                Reply::Text(_) => {},
            },
        }
    }
}

/// Whether a step that needs a confirmation may go on: a forced command needs
/// none, and any other waits for the user's answer.
pub open spec fn approval(force: bool, answer: Option<bool>) -> Option<bool> {
    if force {
        Some(true)
    } else {
        answer
    }
}

/// See [`approval`].
pub fn confirm(force: bool, answer: Option<bool>) -> (r: Option<bool>)
    ensures
        r == approval(force, answer),
{
    if force {
        Some(true)
    } else {
        answer
    }
}

/// Whether a step that needs a confirmation has one: the command is forced,
/// or the user said yes.
pub fn confirmed(force: bool, answer: Option<bool>) -> (r: bool)
    ensures
        r == (approval(force, answer) == Some(true)),
{
    match confirm(force, answer) {
        Some(yes) => yes,
        None => false,
    }
}

/// The view of an optional string.
pub open spec fn text_of(s: Option<String>) -> Option<Seq<char>> {
    match s {
        Some(s) => Some(s@),
        None => None,
    }
}

/// The value of an option that was given with one.
pub open spec fn given(value: Option<Option<String>>) -> Option<Seq<char>> {
    match value {
        Some(Some(v)) => Some(v@),
        _ => None,
    }
}

/// The value that a command gives, or else the answer that the user typed;
/// `None` where the user has to be asked.
pub open spec fn given_or_typed(value: Option<Option<String>>, answer: Option<String>) -> Option<
    Seq<char>,
> {
    match given(value) {
        Some(v) => Some(v),
        None => text_of(answer),
    }
}

/// The new password for a command: see [`given_or_typed`].
pub fn unwrap_or_new_password(value: &Option<Option<String>>, answers: &Answers) -> (r: Option<
    String,
>)
    ensures
        text_of(r) == given_or_typed(*value, answers.secret),
{
    match value {
        Some(Some(v)) => Some(v.clone()),
        _ => match &answers.secret {
            Some(p) => Some(p.clone()),
            None => None,
        },
    }
}

/// The new name for a command: see [`given_or_typed`].
pub fn unwrap_or_input(value: &Option<Option<String>>, answers: &Answers) -> (r: Option<String>)
    ensures
        text_of(r) == given_or_typed(*value, answers.text),
{
    match value {
        Some(Some(v)) => Some(v.clone()),
        _ => match &answers.text {
            Some(t) => Some(t.clone()),
            None => None,
        },
    }
}

/// What to do about a failed command.
#[derive(Debug, Clone, Copy, PartialEq, Eq, Structural)]
pub enum Recovery {
    /// Ask the user, record the answer, and give the command again.
    Ask(Prompt),
    /// The user declined: nothing was changed, and nothing is to be done.
    Declined,
    /// Report the failure.
    Report,
}

/// What to do about the failure `e` of a command, given the answers so far. A
/// command that would overwrite waits for a confirmation: without an answer
/// the user is asked, and after a no the matter is closed.
pub open spec fn recovery_for(e: FailureView, answers: Answers) -> Recovery {
    if e == FailureView::FieldExists || e == FailureView::NameCollision {
        match answers.confirm {
            None => Recovery::Ask(Prompt::ConfirmOverwrite),
            Some(false) => Recovery::Declined,
            Some(true) => Recovery::Report,
        }
    } else {
        Recovery::Report
    }
}

/// See [`recovery_for`].
pub fn recover(failure: &Failure, answers: &Answers) -> (r: Recovery)
    ensures
        r == recovery_for(failure@, *answers),
{
    match failure {
        Failure::FieldExists | Failure::NameCollision => match answers.confirm {
            None => Recovery::Ask(Prompt::ConfirmOverwrite),
            Some(false) => Recovery::Declined,
            Some(true) => Recovery::Report,
        },
        _ => Recovery::Report,
    }
}

/// What a command did.
#[derive(Debug, Clone, Copy, PartialEq, Eq, Structural)]
pub enum Notice {
    NothingChanged,
    AccountCreated,
    FieldCreated,
    FieldEdited,
    MasterPasswordChanged,
    PasswordEdited,
    FieldRenamed,
    AccountRenamed,
    FieldRemoved,
    AccountRemoved,
    AllRemoved,
    Listed,
    Idle,
}

/// What is to be shown of the store.
pub enum Printout {
    /// Accounts with their fields; the values are left out where `hide` is set.
    Sheets { accounts: Listing, hide: bool },
    /// One value, followed by a line break unless the session is interactive.
    Value { value: String, line_break: bool },
}

/// What a command did, with what it wants the user to see.
pub struct Report {
    pub notice: Notice,
    /// A value that was generated, unless values are hidden.
    pub generated: Option<String>,
    /// A value that was replaced, unless values are hidden.
    pub previous: Option<String>,
    /// What a listing shows.
    pub printout: Option<Printout>,
}

/// How a command went on: it is done, or it waits for an answer.
pub enum Step {
    Ask(Prompt),
    Done(Report),
}

/// A report without anything to show.
pub fn plain_report(notice: Notice) -> (r: Step)
    ensures
        r == Step::Done(Report { notice, generated: None, previous: None, printout: None }),
{
    Step::Done(Report { notice, generated: None, previous: None, printout: None })
}

/// The command waits for an answer to `p`.
pub open spec fn asks(r: Result<Step, Failure>, p: Prompt) -> bool {
    match r {
        Ok(Step::Ask(q)) => q == p,
        _ => false,
    }
}

/// The command is done with the notice `n`, and shows no listing.
pub open spec fn done_with(r: Result<Step, Failure>, n: Notice) -> bool {
    match r {
        Ok(Step::Done(report)) => report.notice == n && report.printout is None,
        _ => false,
    }
}

/// The report of a command that is done.
pub open spec fn report_of(r: Result<Step, Failure>) -> Report
    recommends
        r matches Ok(Step::Done(_)),
{
    match r {
        Ok(Step::Done(report)) => report,
        _ => arbitrary(),
    }
}

/// The command is done with the notice `n` and shows nothing.
pub open spec fn done_plainly(r: Result<Step, Failure>, n: Notice) -> bool {
    done_with(r, n) && report_of(r).generated is None && report_of(r).previous is None
}

} // verus!
