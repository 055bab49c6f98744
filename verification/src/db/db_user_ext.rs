use vstd::prelude::*;

verus! {

/// The column by which a user is looked up.
#[derive(Clone, Copy, Debug, PartialEq, Eq, Structural)]
pub enum UserLookup {
    Id,
    Name,
    Email,
}

/// The lookup that `get_user` makes: by id where one is given, else by name, else by email;
/// none where nothing is given (the answer is then no user).
pub fn user_lookup(has_id: bool, has_name: bool, has_email: bool) -> (r: Option<UserLookup>)
    ensures
        has_id ==> r == Some(UserLookup::Id),
        !has_id && has_name ==> r == Some(UserLookup::Name),
        !has_id && !has_name && has_email ==> r == Some(UserLookup::Email),
        !has_id && !has_name && !has_email ==> r is None,
{
    if has_id {
        Some(UserLookup::Id)
    } else if has_name {
        Some(UserLookup::Name)
    } else if has_email {
        Some(UserLookup::Email)
    } else {
        None
    }
}

/// What `set_verification_code` does next.
#[derive(Clone, Copy, Debug, PartialEq, Eq, Structural)]
pub enum VerificationStep {
    /// No code was supplied: store the new code for the email.
    StoreCode,
    /// A code was supplied: fetch the user with the email.
    FetchUser,
    /// The supplied code is the user's: mark the user verified.
    MarkVerified,
    /// No user, or another code: the answer is no user.
    Refuse,
}

/// The next step of `set_verification_code`, from the supplied code and what fetching the
/// user gave so far: `None` before the fetch, `Some(None)` where no user has the email,
/// `Some(Some(code))` with the user's stored code.
pub open spec fn next_verification_step(
    supplied: Option<Seq<char>>,
    fetched: Option<Option<Seq<char>>>,
) -> VerificationStep {
    match supplied {
        None => VerificationStep::StoreCode,
        Some(code) => match fetched {
            None => VerificationStep::FetchUser,
            Some(None) => VerificationStep::Refuse,
            Some(Some(stored)) => if stored == code {
                VerificationStep::MarkVerified
            } else {
                VerificationStep::Refuse
            },
        },
    }
}

/// The text of an optional text.
pub open spec fn opt_view(o: Option<&str>) -> Option<Seq<char>> {
    match o {
        Some(s) => Some(s@),
        None => None,
    }
}

/// The next step of `set_verification_code` (see `next_verification_step`).
pub fn verification_step(supplied: Option<&str>, fetched: Option<Option<&str>>) -> (r:
    VerificationStep)
    ensures
        r == next_verification_step(
            opt_view(supplied),
            match fetched {
                Some(f) => Some(opt_view(f)),
                None => None,
            },
        ),
        supplied is None <==> r == VerificationStep::StoreCode,
        (supplied is Some && fetched is None) <==> r == VerificationStep::FetchUser,
        r == VerificationStep::MarkVerified <==> (supplied is Some && fetched is Some
            && fetched->0 is Some && fetched->0->0@ == supplied->0@),
{
    match supplied {
        None => VerificationStep::StoreCode,
        Some(code) => match fetched {
            None => VerificationStep::FetchUser,
            Some(None) => VerificationStep::Refuse,
            Some(Some(stored)) => {
                if str_eq(stored, code) {
                    VerificationStep::MarkVerified
                } else {
                    VerificationStep::Refuse
                }
            },
        },
    }
}

fn str_eq(a: &str, b: &str) -> (r: bool)
    ensures
        r == (a@ == b@),
{
    let x = a.to_owned();
    let y = b.to_owned();
    x == y
}

/// A user who supplies exactly the code stored for them is marked verified, whatever the
/// code; a different code, or no user, is refused; with a code supplied the user is fetched
/// first.
pub proof fn law_matching_code_verifies(code: Seq<char>, stored: Seq<char>)
    ensures
        next_verification_step(Some(code), Some(Some(code))) == VerificationStep::MarkVerified,
        stored != code ==> next_verification_step(Some(code), Some(Some(stored)))
            == VerificationStep::Refuse,
        next_verification_step(Some(code), Some(None)) == VerificationStep::Refuse,
        next_verification_step(Some(code), None) == VerificationStep::FetchUser,
{
}

/// A user is marked verified only after a code was supplied, the user was fetched, and the
/// supplied code is the one stored for the user; without a supplied code the new code is
/// stored and nobody is marked.
pub proof fn law_verified_only_with_stored_code(
    supplied: Option<Seq<char>>,
    fetched: Option<Option<Seq<char>>>,
)
    ensures
        next_verification_step(supplied, fetched) == VerificationStep::MarkVerified ==> (
        supplied is Some && fetched == Some(supplied)),
        supplied is None ==> next_verification_step(supplied, fetched)
            == VerificationStep::StoreCode,
{
}

} // verus!
