use vstd::prelude::*;

verus! {

/// An account profile.
#[derive(Debug)]
pub struct User {
    pub active: bool,
    pub username: String,
    pub email: String,
    pub sign_in_count: u64,
}

/// A `User` with its text fields seen as sequences of characters.
pub ghost struct UserView {
    pub active: bool,
    pub username: Seq<char>,
    pub email: Seq<char>,
    pub sign_in_count: u64,
}

impl View for User {
    type V = UserView;

    open spec fn view(&self) -> UserView {
        UserView {
            active: self.active,
            username: self.username@,
            email: self.email@,
            sign_in_count: self.sign_in_count,
        }
    }
}

/// A freshly registered profile: active, signed in once.
pub open spec fn fresh_user(email: Seq<char>, username: Seq<char>) -> UserView {
    UserView { active: true, username, email, sign_in_count: 1 }
}

/// `u` with its email replaced and every other field kept.
pub open spec fn with_new_email(u: UserView, email: Seq<char>) -> UserView {
    UserView { email, ..u }
}

/// Builds a fresh profile, naming each field's value explicitly.
pub fn build_user(email: String, username: String) -> (r: User)
    ensures
        r@ == fresh_user(email@, username@),
{
    User { active: true, username: username, email: email, sign_in_count: 1 }
}

/// Builds a fresh profile with the field-init shorthand; the result is the
/// same as that of `build_user` on the same arguments.
pub fn build_user_shorthand(email: String, username: String) -> (r: User)
    ensures
        r@ == fresh_user(email@, username@),
{
    User { active: true, username, email, sign_in_count: 1 }
}

/// Replaces the email of `user` in place.
pub fn set_email(user: &mut User, email: String)
    ensures
        final(user)@ == with_new_email(old(user)@, email@),
{
    user.email = email;
}

/// A new profile that takes every field but the email from `source`,
/// copying each one; `source` stays whole and usable.
pub fn copy_with_email(source: &User, email: String) -> (r: User)
    ensures
        r@ == with_new_email(source@, email@),
{
    User {
        active: source.active,
        username: source.username.clone(),
        email,
        sign_in_count: source.sign_in_count,
    }
}

/// A new profile that takes every field but the email from `source` by the
/// update syntax; `source` is consumed, its username moved into the result.
pub fn update_with_email(source: User, email: String) -> (r: User)
    ensures
        r@ == with_new_email(source@, email@),
{
    User { email, ..source }
}

/// Whichever way a profile is built, explicitly or by shorthand, the same
/// arguments give the same fields.
pub proof fn lemma_builders_agree(email: Seq<char>, username: Seq<char>, a: User, b: User)
    requires
        a@ == fresh_user(email, username),
        b@ == fresh_user(email, username),
    ensures
        a@ == b@,
        a.active && a.sign_in_count == 1,
        a.email@ == email && a.username@ == username,
{
}

} // verus!
