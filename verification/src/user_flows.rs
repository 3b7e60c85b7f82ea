//! Use cases on user accounts, as state machines over the storage operations.
use vstd::prelude::*;

use crate::error::AppError;
use crate::flow::{ends_out_of_turn, out_of_turn, Op, Outcome, Progress};
use crate::users::{is_fresh_user, opt_view, user_touched, User};

verus! {

/// Registers a user, unless the email address is taken.
#[derive(Debug)]
pub enum CreateUser {
    Ready,
    Checking {
        email: String,
        password_hash: String,
        first_name: Option<String>,
        last_name: Option<String>,
    },
    Saving,
    Done,
}

impl CreateUser {
    pub fn new() -> (s: Self)
        ensures
            s is Ready,
    {
        CreateUser::Ready
    }

    /// Starts: a user with the same email address is looked for.
    pub fn execute(
        self,
        email: String,
        password_hash: String,
        first_name: Option<String>,
        last_name: Option<String>,
    ) -> (r: (Self, Progress<User>))
        ensures
            r.1 matches Progress::Run(Op::FindUserByEmail(e)) && e == email,
            r.0 == (CreateUser::Checking { email, password_hash, first_name, last_name }),
    {
        let looked_up = email.clone();
        (
            CreateUser::Checking { email, password_hash, first_name, last_name },
            Progress::Run(Op::FindUserByEmail(looked_up)),
        )
    }

    /// A taken address is a `Conflict`; otherwise a new user is stored and the
    /// stored user is the result.
    pub fn resume(self, outcome: Outcome) -> (r: (Self, Progress<User>))
        ensures
            match (self, outcome) {
                (
                    CreateUser::Checking { email, password_hash, first_name, last_name },
                    Outcome::UserFound(Ok(None)),
                ) => r.0 is Saving && (r.1 matches Progress::Run(Op::CreateUser(u)) && is_fresh_user(
                    u,
                    email@,
                    password_hash@,
                    opt_view(first_name),
                    opt_view(last_name),
                )),
                (CreateUser::Checking { .. }, Outcome::UserFound(Ok(Some(_)))) => r.0 is Done && (
                r.1 matches Progress::Finish(Err(AppError::Conflict(m))) && m@
                    == "User with this email already exists"@),
                (CreateUser::Checking { .. }, Outcome::UserFound(Err(e))) => r.0 is Done && r.1
                    == Progress::Finish(Err::<User, AppError>(e)),
                (CreateUser::Saving, Outcome::UserSaved(res)) => r.0 is Done && r.1
                    == Progress::Finish(res),
                _ => r.0 is Done && ends_out_of_turn(r.1),
            },
    {
        match (self, outcome) {
            (
                CreateUser::Checking { email, password_hash, first_name, last_name },
                Outcome::UserFound(found),
            ) => match found {
                Ok(None) => {
                    let user = User::new(email, password_hash, first_name, last_name);
                    (CreateUser::Saving, Progress::Run(Op::CreateUser(user)))
                },
                Ok(Some(_)) => (
                    CreateUser::Done,
                    Progress::Finish(
                        Err(
                            AppError::Conflict(
                                String::from_str("User with this email already exists"),
                            ),
                        ),
                    ),
                ),
                Err(e) => (CreateUser::Done, Progress::Finish(Err(e))),
            },
            (CreateUser::Saving, Outcome::UserSaved(res)) => (
                CreateUser::Done,
                Progress::Finish(res),
            ),
            _ => (CreateUser::Done, out_of_turn()),
        }
    }
}

/// Deletes a user account for good.
#[derive(Debug)]
pub enum DeleteUser {
    Ready,
    Finding { id: u128 },
    Deleting,
    Done,
}

impl DeleteUser {
    pub fn new() -> (s: Self)
        ensures
            s is Ready,
    {
        DeleteUser::Ready
    }

    /// Starts: the user is looked up.
    pub fn execute(self, id: u128) -> (r: (Self, Progress<()>))
        ensures
            r.0 == (DeleteUser::Finding { id }),
            r.1 == Progress::<()>::Run(Op::FindUserById(id)),
    {
        (DeleteUser::Finding { id }, Progress::Run(Op::FindUserById(id)))
    }

    /// A found user is deleted; none found is `NotFound`.
    pub fn resume(self, outcome: Outcome) -> (r: (Self, Progress<()>))
        ensures
            match (self, outcome) {
                (DeleteUser::Finding { id }, Outcome::UserFound(Ok(Some(_)))) => r.0 is Deleting
                    && r.1 == Progress::<()>::Run(Op::DeleteUser(id)),
                (DeleteUser::Finding { .. }, Outcome::UserFound(Ok(None))) => r.0 is Done && (
                r.1 matches Progress::Finish(Err(AppError::NotFound(m))) && m@ == "User not found"@),
                (DeleteUser::Finding { .. }, Outcome::UserFound(Err(e))) => r.0 is Done && r.1
                    == Progress::Finish(Err::<(), AppError>(e)),
                (DeleteUser::Deleting, Outcome::Completed(res)) => r.0 is Done && r.1
                    == Progress::Finish(res),
                _ => r.0 is Done && ends_out_of_turn(r.1),
            },
    {
        match (self, outcome) {
            (DeleteUser::Finding { id }, Outcome::UserFound(found)) => match found {
                Ok(Some(_)) => (DeleteUser::Deleting, Progress::Run(Op::DeleteUser(id))),
                Ok(None) => (
                    DeleteUser::Done,
                    Progress::Finish(Err(AppError::NotFound(String::from_str("User not found")))),
                ),
                Err(e) => (DeleteUser::Done, Progress::Finish(Err(e))),
            },
            (DeleteUser::Deleting, Outcome::Completed(res)) => (
                DeleteUser::Done,
                Progress::Finish(res),
            ),
            _ => (DeleteUser::Done, out_of_turn()),
        }
    }
}

/// Replaces a user's first and last name.
#[derive(Debug)]
pub enum UpdateUser {
    Ready,
    Finding { first_name: Option<String>, last_name: Option<String> },
    Saving,
    Done,
}

impl UpdateUser {
    pub fn new() -> (s: Self)
        ensures
            s is Ready,
    {
        UpdateUser::Ready
    }

    /// Starts: the user is looked up.
    pub fn execute(self, id: u128, first_name: Option<String>, last_name: Option<String>) -> (r: (
        Self,
        Progress<User>,
    ))
        ensures
            r.0 == (UpdateUser::Finding { first_name, last_name }),
            r.1 == Progress::<User>::Run(Op::FindUserById(id)),
    {
        (UpdateUser::Finding { first_name, last_name }, Progress::Run(Op::FindUserById(id)))
    }

    /// A found user is stored with the new names and the stored user is the result;
    /// none found is `NotFound`.
    pub fn resume(self, outcome: Outcome) -> (r: (Self, Progress<User>))
        ensures
            match (self, outcome) {
                (UpdateUser::Finding { first_name, last_name }, Outcome::UserFound(Ok(Some(a)))) => r.0 is Saving
                    && (r.1 matches Progress::Run(Op::UpdateUser(b)) && {
                    &&& b.first_name == first_name
                    &&& b.last_name == last_name
                    &&& user_touched(User { first_name: a.first_name, last_name: a.last_name, ..b }, a)
                }),
                (UpdateUser::Finding { .. }, Outcome::UserFound(Ok(None))) => r.0 is Done && (
                r.1 matches Progress::Finish(Err(AppError::NotFound(m))) && m@ == "User not found"@),
                (UpdateUser::Finding { .. }, Outcome::UserFound(Err(e))) => r.0 is Done && r.1
                    == Progress::Finish(Err::<User, AppError>(e)),
                (UpdateUser::Saving, Outcome::UserSaved(res)) => r.0 is Done && r.1
                    == Progress::Finish(res),
                _ => r.0 is Done && ends_out_of_turn(r.1),
            },
    {
        match (self, outcome) {
            (UpdateUser::Finding { first_name, last_name }, Outcome::UserFound(found)) => match found {
                Ok(Some(a)) => {
                    let mut user = a;
                    user.update_profile(first_name, last_name);
                    (UpdateUser::Saving, Progress::Run(Op::UpdateUser(user)))
                },
                Ok(None) => (
                    UpdateUser::Done,
                    Progress::Finish(Err(AppError::NotFound(String::from_str("User not found")))),
                ),
                Err(e) => (UpdateUser::Done, Progress::Finish(Err(e))),
            },
            (UpdateUser::Saving, Outcome::UserSaved(res)) => (
                UpdateUser::Done,
                Progress::Finish(res),
            ),
            _ => (UpdateUser::Done, out_of_turn()),
        }
    }
}

} // verus!
