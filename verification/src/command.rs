//! The commands on an unlocked store: add, print, edit and remove.
//!
//! What each command does is stated as a relation between the session before,
//! the answers given so far, the session after and the result.

use vstd::prelude::*;
use vstd::string::StringSliceAdditionalSpecFns;
use vstd::utf8::encode_utf8;
use crate::config::{Args, Ops, PassConfig};
use crate::dialogue::{
    approval,
    asks,
    confirm,
    confirmed,
    done_plainly,
    done_with,
    given_or_typed,
    plain_report,
    report_of,
    text_of,
    unwrap_or_input,
    unwrap_or_new_password,
    Answers,
    Notice,
    Printout,
    Prompt,
    Report,
    Step,
};
use crate::failure::{fails_with, Failure, FailureView};
use crate::generator::{allowed, drawn_from, generate};
use crate::session::{same_session, same_settings, App};
use crate::store::{
    has_field,
    listing_map,
    lists,
    with_field,
    with_renamed_account,
    with_renamed_field,
    without_field,
    Accounts,
    Fields,
    Listing,
};

verus! {

/// The field that a command is about: the one it names, or the configured one.
pub open spec fn chosen_field(args: Args, config: PassConfig) -> Seq<char> {
    match args.field {
        Some(f) => f@,
        None => config.default_field@,
    }
}

/// The exclusions for generated values: those of the command, or the configured ones.
pub open spec fn chosen_disallow(args: Args, config: PassConfig) -> Seq<u8> {
    match args.disallow {
        Some(d) => encode_utf8(d@),
        None => encode_utf8(config.default_disallow@),
    }
}

/// The length of generated values: that of the command, or the configured one.
pub open spec fn chosen_length(args: Args, config: PassConfig) -> nat {
    match args.gen {
        Some(Some(n)) => n as nat,
        _ => config.default_gen as nat,
    }
}

/// A value that [`generate`] may return for the command.
pub open spec fn may_generate(args: Args, config: PassConfig, v: Seq<char>) -> bool {
    &&& v.len() == chosen_length(args, config)
    &&& forall|i: int|
        0 <= i < v.len() ==> drawn_from(chosen_disallow(args, config), #[trigger] v[i])
}

/// Whether the exclusions of the command leave nothing to generate from.
pub open spec fn nothing_to_draw(args: Args, config: PassConfig) -> bool {
    forall|c: u8| !allowed(chosen_disallow(args, config), c)
}

/// Generates a value of the length and under the exclusions of the command.
pub fn generate_for(args: &Args, config: &PassConfig) -> (r: Result<String, Failure>)
    ensures
        match r {
            Ok(v) => may_generate(*args, *config, v@) && !nothing_to_draw(*args, *config),
            Err(e) => e@ == FailureView::EmptyAlphabet && nothing_to_draw(*args, *config),
        },
{
    let length: usize = match args.gen {
        Some(Some(n)) => n,
        _ => config.default_gen,
    };
    let disallow: &str = match &args.disallow {
        Some(d) => d.as_str(),
        None => config.default_disallow.as_str(),
    };
    assert(disallow.spec_bytes() == chosen_disallow(*args, *config));
    generate(length, disallow)
}

/// A value as a report shows it: not at all where values are hidden.
pub open spec fn shown_value(hide: bool, value: Seq<char>) -> Option<Seq<char>> {
    if hide {
        None
    } else {
        Some(value)
    }
}

/// The command stored a generated value under `account` and `field`, or
/// failed because nothing is left to generate from. The report shows the
/// value unless values are hidden, and `previous` as given.
pub open spec fn stored_generated(
    before: App,
    after: Accounts,
    r: Result<Step, Failure>,
    n: Notice,
    account: Seq<char>,
    field: Seq<char>,
    previous: Option<Seq<char>>,
) -> bool {
    if nothing_to_draw(before.args, before.config) {
        fails_with(r, FailureView::EmptyAlphabet) && after == before.passwords@
    } else {
        &&& done_with(r, n)
        &&& text_of(report_of(r).previous) == previous
        &&& exists|v: Seq<char>|
            {
                &&& may_generate(before.args, before.config, v)
                &&& #[trigger] with_field(before.passwords@, account, field, v) == after
                &&& text_of(report_of(r).generated) == if before.args.hide {
                    None
                } else {
                    Some(v)
                }
            }
    }
}

/// The notice for a value that was stored under `account` and `field`.
pub open spec fn add_notice(store: Accounts, account: Seq<char>, field: Seq<char>) -> Notice {
    if has_field(store, account, field) {
        Notice::FieldEdited
    } else if store.contains_key(account) {
        Notice::FieldCreated
    } else {
        Notice::AccountCreated
    }
}

/// What adding does. An existing field is only replaced by a command that
/// is forced or confirmed; any other fails with [`Failure::FieldExists`]. The
/// value is the generated one where the command asks for it, else the one
/// that it gives, else the password that the user typed. The accounts only
/// change where a value is stored.
pub open spec fn adds(before: App, answers: Answers, after: App, r: Result<Step, Failure>) -> bool {
    &&& same_session(before, after)
    &&& match before.args.account {
        None => fails_with(r, FailureView::MissingArgument) && after.passwords@
            == before.passwords@,
        Some(account) => {
            let field = chosen_field(before.args, before.config);
            let exists = has_field(before.passwords@, account@, field);
            let notice = add_notice(before.passwords@, account@, field);
            if exists && approval(before.args.force, answers.confirm) != Some(true) {
                fails_with(r, FailureView::FieldExists) && after.passwords@ == before.passwords@
            } else if before.args.gen is Some {
                stored_generated(before, after.passwords@, r, notice, account@, field, None)
            } else {
                match given_or_typed(before.args.value, answers.secret) {
                    None => asks(r, Prompt::NewPassword) && after.passwords@ == before.passwords@,
                    Some(v) => done_plainly(r, notice) && after.passwords@ == with_field(
                        before.passwords@,
                        account@,
                        field,
                        v,
                    ),
                }
            }
        },
    }
}

/// Adds a field to an account, or an account with one field: see [`adds`].
pub fn handle_add(app: &mut App, answers: &Answers) -> (r: Result<Step, Failure>)
    ensures
        adds(*old(app), *answers, *final(app), r),
{
    let account: &str = match &app.args.account {
        Some(account) => account.as_str(),
        None => {
            return Err(Failure::MissingArgument);
        },
    };
    let field: &str = match &app.args.field {
        Some(field) => field.as_str(),
        None => app.config.default_field.as_str(),
    };
    let exists = app.passwords.get(account, field).is_ok();
    let notice = if exists {
        Notice::FieldEdited
    } else if app.passwords.get_account(account).is_ok() {
        Notice::FieldCreated
    } else {
        Notice::AccountCreated
    };
    let overwrite = confirmed(app.args.force, answers.confirm);
    if exists && !overwrite {
        return Err(Failure::FieldExists);
    }
    let mut generated: Option<String> = None;
    let value: String = if app.args.gen.is_some() {
        let value = match generate_for(&app.args, &app.config) {
            Ok(value) => value,
            Err(e) => {
                return Err(e);
            },
        };
        if !app.args.hide {
            generated = Some(value.clone());
        }
        value
    } else {
        match unwrap_or_new_password(&app.args.value, answers) {
            Some(value) => value,
            None => {
                return Ok(Step::Ask(Prompt::NewPassword));
            },
        }
    };
    match app.passwords.add(account, field, value, overwrite) {
        Ok(()) => Ok(Step::Done(Report { notice, generated, previous: None, printout: None })),
        Err(e) => Err(e),
    }
}

/// The accounts that hold the one account `name`.
pub open spec fn only(name: Seq<char>, fields: Fields) -> Accounts {
    Map::<Seq<char>, Fields>::empty().insert(name, fields)
}

/// What a listing shows: every account where the command names none, one
/// account where it asks for all fields, and else the value of one field.
pub open spec fn prints(app: App, r: Result<Printout, Failure>) -> bool {
    match app.args.account {
        None => match r {
            Ok(Printout::Sheets { accounts, hide }) => lists(accounts@, app.passwords@) && hide
                == app.args.hide,
            _ => false,
        },
        Some(account) => {
            let field = chosen_field(app.args, app.config);
            if !app.passwords@.contains_key(account@) {
                fails_with(r, FailureView::AccountNotFound(account@))
            } else if app.args.all_fields {
                match r {
                    Ok(Printout::Sheets { accounts, hide }) => lists(
                        accounts@,
                        only(account@, app.passwords@[account@]),
                    ) && hide == app.args.hide,
                    _ => false,
                }
            } else if !app.passwords@[account@].contains_key(field) {
                fails_with(r, FailureView::FieldNotFound(field))
            } else {
                match r {
                    Ok(Printout::Value { value, line_break }) => value@
                        == app.passwords@[account@][field] && line_break == !app.interactive,
                    _ => false,
                }
            }
        },
    }
}

/// Says what to show of the store: see [`prints`].
pub fn handle_print(app: &App) -> (r: Result<Printout, Failure>)
    ensures
        prints(*app, r),
{
    let account: &str = match &app.args.account {
        Some(account) => account.as_str(),
        None => {
            return Ok(Printout::Sheets { accounts: app.passwords.get_all(), hide: app.args.hide });
        },
    };
    let field: &str = match &app.args.field {
        Some(field) => field.as_str(),
        None => app.config.default_field.as_str(),
    };
    let fields = match app.passwords.get_account(account) {
        Ok(fields) => fields,
        Err(e) => {
            return Err(e);
        },
    };
    if app.args.all_fields {
        let mut accounts: Listing = Vec::new();
        let sheet = (account.to_owned(), fields.to_pairs());
        accounts.push(sheet);
        assert(listing_map(accounts@.drop_last()) == Map::<Seq<char>, Fields>::empty());
        Ok(Printout::Sheets { accounts, hide: app.args.hide })
    } else {
        match fields.get(field) {
            Some(value) => Ok(
                Printout::Value { value: value.clone(), line_break: !app.interactive },
            ),
            None => Err(Failure::FieldNotFound(field.to_owned())),
        }
    }
}

/// What removing does. Without an account it deletes everything, after two
/// confirmations; with an account and a field it deletes the field, and with
/// an account alone the account, each after one. A forced command asks
/// nothing. A field that is not there, be it for want of its account, is
/// [`Failure::FieldNotFound`]. The accounts only change where something is
/// deleted.
pub open spec fn removes(
    before: App,
    answers: Answers,
    after: App,
    r: Result<Step, Failure>,
) -> bool {
    let store = before.passwords@;
    let kept = after.passwords@ == store;
    let first = approval(before.args.force, answers.confirm);
    &&& same_session(before, after)
    &&& match before.args.account {
        None => match first {
            None => asks(r, Prompt::ConfirmDeleteAll) && kept,
            Some(false) => done_plainly(r, Notice::NothingChanged) && kept,
            Some(true) => match approval(before.args.force, answers.confirm_again) {
                None => asks(r, Prompt::ConfirmDeleteAllAgain) && kept,
                Some(false) => done_plainly(r, Notice::NothingChanged) && kept,
                Some(true) => done_plainly(r, Notice::AllRemoved) && after.passwords@ == Map::<
                    Seq<char>,
                    Fields,
                >::empty(),
            },
        },
        Some(account) => match before.args.field {
            Some(field) => if !has_field(store, account@, field@) {
                fails_with(r, FailureView::FieldNotFound(field@)) && kept
            } else {
                match first {
                    None => asks(r, Prompt::ConfirmDeleteField) && kept,
                    Some(false) => done_plainly(r, Notice::NothingChanged) && kept,
                    Some(true) => done_plainly(r, Notice::FieldRemoved) && after.passwords@
                        == without_field(store, account@, field@),
                }
            },
            None => if !store.contains_key(account@) {
                fails_with(r, FailureView::AccountNotFound(account@)) && kept
            } else {
                match first {
                    None => asks(r, Prompt::ConfirmDeleteAccount) && kept,
                    Some(false) => done_plainly(r, Notice::NothingChanged) && kept,
                    Some(true) => done_plainly(r, Notice::AccountRemoved) && after.passwords@
                        == store.remove(account@),
                }
            },
        },
    }
}

/// Deletes a field, an account or everything: see [`removes`].
pub fn handle_remove(app: &mut App, answers: &Answers) -> (r: Result<Step, Failure>)
    ensures
        removes(*old(app), *answers, *final(app), r),
{
    let first = confirm(app.args.force, answers.confirm);
    let account: &str = match &app.args.account {
        Some(account) => account.as_str(),
        None => {
            return match first {
                None => Ok(Step::Ask(Prompt::ConfirmDeleteAll)),
                Some(false) => Ok(plain_report(Notice::NothingChanged)),
                Some(true) => match confirm(app.args.force, answers.confirm_again) {
                    None => Ok(Step::Ask(Prompt::ConfirmDeleteAllAgain)),
                    Some(false) => Ok(plain_report(Notice::NothingChanged)),
                    Some(true) => {
                        app.passwords.remove_all();
                        Ok(plain_report(Notice::AllRemoved))
                    },
                },
            };
        },
    };
    match &app.args.field {
        Some(field) => {
            if app.passwords.get(account, field.as_str()).is_err() {
                return Err(Failure::FieldNotFound(field.clone()));
            }
            match first {
                None => Ok(Step::Ask(Prompt::ConfirmDeleteField)),
                Some(false) => Ok(plain_report(Notice::NothingChanged)),
                Some(true) => match app.passwords.remove_field(account, field.as_str()) {
                    Ok(()) => Ok(plain_report(Notice::FieldRemoved)),
                    Err(e) => Err(e),
                },
            }
        },
        None => {
            if app.passwords.get_account(account).is_err() {
                return Err(Failure::AccountNotFound(account.to_owned()));
            }
            match first {
                None => Ok(Step::Ask(Prompt::ConfirmDeleteAccount)),
                Some(false) => Ok(plain_report(Notice::NothingChanged)),
                Some(true) => match app.passwords.remove_account(account) {
                    Ok(()) => Ok(plain_report(Notice::AccountRemoved)),
                    Err(e) => Err(e),
                },
            }
        },
    }
}

/// What renaming does, once the new name is known: a name that is taken by
/// another entry is only replaced by a command that is forced or confirmed;
/// any other fails with [`Failure::NameCollision`].
pub open spec fn renames(
    before: App,
    answers: Answers,
    after: App,
    r: Result<Step, Failure>,
    taken: bool,
    n: Notice,
    renamed: Accounts,
) -> bool {
    if taken && approval(before.args.force, answers.confirm) != Some(true) {
        fails_with(r, FailureView::NameCollision) && after.passwords@ == before.passwords@
    } else {
        done_plainly(r, n) && after.passwords@ == renamed
    }
}

/// What editing does.
///
/// Without an account it changes the master password, after a confirmation,
/// to the value that the command gives or that the user typed. With an
/// account and a field it replaces the field's value where the command asks
/// for a new or a generated password, and the report shows the value that was
/// there unless values are hidden; a field that is not there, be it for want
/// of its account, is [`Failure::FieldNotFound`], and none is created. Else
/// it renames the field, and with an account alone the account; the new name
/// comes from the command or from the user. Nothing changes unless the
/// command is done.
pub open spec fn edits(
    before: App,
    answers: Answers,
    after: App,
    r: Result<Step, Failure>,
) -> bool {
    let store = before.passwords@;
    let kept = after.passwords@ == store;
    let same_master = after.master_pass == before.master_pass;
    &&& same_settings(before, after)
    &&& match before.args.account {
        None => kept && match approval(before.args.force, answers.confirm) {
            None => asks(r, Prompt::ConfirmEditMaster) && same_master,
            Some(false) => done_plainly(r, Notice::NothingChanged) && same_master,
            Some(true) => match given_or_typed(before.args.value, answers.secret) {
                None => asks(r, Prompt::NewPassword) && same_master,
                Some(v) => done_plainly(r, Notice::MasterPasswordChanged) && after.master_pass@
                    == v,
            },
        },
        Some(account) => same_master && match before.args.field {
            Some(field) => if before.args.gen is Some || before.args.new_password is Some {
                if !has_field(store, account@, field@) {
                    fails_with(r, FailureView::FieldNotFound(field@)) && kept
                } else if before.args.gen is Some {
                    stored_generated(
                        before,
                        after.passwords@,
                        r,
                        Notice::PasswordEdited,
                        account@,
                        field@,
                        shown_value(before.args.hide, store[account@][field@]),
                    )
                } else {
                    match given_or_typed(before.args.new_password, answers.secret) {
                        None => asks(r, Prompt::NewPassword) && kept,
                        Some(v) => {
                            &&& done_with(r, Notice::PasswordEdited)
                            &&& report_of(r).generated is None
                            &&& text_of(report_of(r).previous) == shown_value(
                                before.args.hide,
                                store[account@][field@],
                            )
                            &&& after.passwords@ == with_field(store, account@, field@, v)
                        },
                    }
                }
            } else if !store.contains_key(account@) {
                fails_with(r, FailureView::AccountNotFound(account@)) && kept
            } else if !store[account@].contains_key(field@) {
                fails_with(r, FailureView::FieldNotFound(field@)) && kept
            } else {
                match given_or_typed(before.args.value, answers.text) {
                    None => asks(r, Prompt::NewProperty) && kept,
                    Some(name) => renames(
                        before,
                        answers,
                        after,
                        r,
                        name != field@ && store[account@].contains_key(name),
                        Notice::FieldRenamed,
                        with_renamed_field(store, account@, field@, name),
                    ),
                }
            },
            None => if !store.contains_key(account@) {
                fails_with(r, FailureView::AccountNotFound(account@)) && kept
            } else {
                match given_or_typed(before.args.value, answers.text) {
                    None => asks(r, Prompt::NewProperty) && kept,
                    Some(name) => renames(
                        before,
                        answers,
                        after,
                        r,
                        name != account@ && store.contains_key(name),
                        Notice::AccountRenamed,
                        with_renamed_account(store, account@, name),
                    ),
                }
            },
        },
    }
}

/// Changes the master password where the command names no account.
fn edit_master(app: &mut App, answers: &Answers) -> (r: Result<Step, Failure>)
    requires
        old(app).args.account is None,
    ensures
        edits(*old(app), *answers, *final(app), r),
{
    match confirm(app.args.force, answers.confirm) {
        None => Ok(Step::Ask(Prompt::ConfirmEditMaster)),
        Some(false) => Ok(plain_report(Notice::NothingChanged)),
        Some(true) => match unwrap_or_new_password(&app.args.value, answers) {
            None => Ok(Step::Ask(Prompt::NewPassword)),
            Some(password) => {
                app.master_pass = password;
                Ok(plain_report(Notice::MasterPasswordChanged))
            },
        },
    }
}

/// Changes the master password, a value or a name: see [`edits`].
pub fn handle_edit(app: &mut App, answers: &Answers) -> (r: Result<Step, Failure>)
    ensures
        edits(*old(app), *answers, *final(app), r),
{
    let account: &str = match &app.args.account {
        Some(account) => account.as_str(),
        None => {
            return edit_master(app, answers);
        },
    };
    let overwrite = confirmed(app.args.force, answers.confirm);
    let field: &str = match &app.args.field {
        Some(field) => field.as_str(),
        None => {
            if app.passwords.get_account(account).is_err() {
                return Err(Failure::AccountNotFound(account.to_owned()));
            }
            let name = match unwrap_or_input(&app.args.value, answers) {
                Some(name) => name,
                None => {
                    return Ok(Step::Ask(Prompt::NewProperty));
                },
            };
            return match app.passwords.rename(account, name.as_str(), overwrite) {
                Ok(()) => Ok(plain_report(Notice::AccountRenamed)),
                Err(e) => Err(e),
            };
        },
    };
    if app.args.gen.is_some() || app.args.new_password.is_some() {
        let current = match app.passwords.get(account, field) {
            Ok(current) => current,
            Err(_) => {
                return Err(Failure::FieldNotFound(field.to_owned()));
            },
        };
        let previous: Option<String> = if app.args.hide {
            None
        } else {
            Some(current.clone())
        };
        let mut generated: Option<String> = None;
        let value: String = if app.args.gen.is_some() {
            let value = match generate_for(&app.args, &app.config) {
                Ok(value) => value,
                Err(e) => {
                    return Err(e);
                },
            };
            if !app.args.hide {
                generated = Some(value.clone());
            }
            value
        } else {
            match unwrap_or_new_password(&app.args.new_password, answers) {
                Some(value) => value,
                None => {
                    return Ok(Step::Ask(Prompt::NewPassword));
                },
            }
        };
        match app.passwords.set_value(account, field, value) {
            Ok(()) => Ok(
                Step::Done(
                    Report { notice: Notice::PasswordEdited, generated, previous, printout: None },
                ),
            ),
            Err(e) => Err(e),
        }
    } else {
        match app.passwords.get(account, field) {
            Ok(_) => {},
            Err(e) => {
                return Err(e);
            },
        }
        let name = match unwrap_or_input(&app.args.value, answers) {
            Some(name) => name,
            None => {
                return Ok(Step::Ask(Prompt::NewProperty));
            },
        };
        match app.passwords.rename_field(account, field, name.as_str(), overwrite) {
            Ok(()) => Ok(plain_report(Notice::FieldRenamed)),
            Err(e) => Err(e),
        }
    }
}

/// What a command does: what its operation does, a listing without one, and
/// nothing for the operation that starts an interactive session.
pub open spec fn performs(
    before: App,
    answers: Answers,
    after: App,
    r: Result<Step, Failure>,
) -> bool {
    match before.args.operation {
        Some(Ops::Add) => adds(before, answers, after, r),
        Some(Ops::Remove) => removes(before, answers, after, r),
        Some(Ops::Edit) => edits(before, answers, after, r),
        Some(Ops::Interactive) => after == before && done_plainly(r, Notice::Idle),
        _ => after == before && match r {
            Ok(Step::Done(report)) => report.notice == Notice::Listed && report.generated is None
                && report.previous is None && report.printout is Some && prints(
                before,
                Ok(report.printout->0),
            ),
            Ok(Step::Ask(_)) => false,
            Err(e) => prints(before, Err(e)),
        },
    }
}

/// Carries out the command in `app.args`: see [`performs`].
pub fn handle_cmd(app: &mut App, answers: &Answers) -> (r: Result<Step, Failure>)
    ensures
        performs(*old(app), *answers, *final(app), r),
{
    match app.args.operation {
        Some(Ops::Add) => handle_add(app, answers),
        Some(Ops::Remove) => handle_remove(app, answers),
        Some(Ops::Edit) => handle_edit(app, answers),
        Some(Ops::Interactive) => Ok(plain_report(Notice::Idle)),
        _ => match handle_print(app) {
            Ok(printout) => Ok(
                Step::Done(
                    Report {
                        notice: Notice::Listed,
                        generated: None,
                        previous: None,
                        printout: Some(printout),
                    },
                ),
            ),
            Err(e) => Err(e),
        },
    }
}

/// A command that fails, or that waits for an answer, changes nothing.
pub proof fn lemma_unfinished_command_changes_nothing(
    before: App,
    answers: Answers,
    after: App,
    r: Result<Step, Failure>,
)
    requires
        performs(before, answers, after, r),
        !(r matches Ok(Step::Done(_))),
    ensures
        same_session(before, after),
        after.passwords@ == before.passwords@,
{
}

} // verus!
