//! Which fields and methods of a type the outside may see.

use vstd::prelude::*;

verus! {

/// A user whose name and address are open and whose bookkeeping is not.
pub struct PublicUser {
    pub username: String,
    pub email: String,
    sign_in_count: u64,
    active: bool,
}

/// A user record for use inside this crate only.
pub(crate) struct PrivateUser {
    pub(crate) username: String,
    pub(crate) email: String,
    pub(crate) sign_in_count: u64,
    pub(crate) active: bool,
}

/// A user whose fields are open to different circles.
pub struct MixedVisibilityUser {
    pub username: String,
    pub email: String,
    pub(crate) internal_id: u64,
    sign_in_count: u64,
    active: bool,
}

impl PublicUser {
    /// The user's name.
    pub closed spec fn username(&self) -> Seq<char> {
        self.username@
    }

    /// The user's e-mail address.
    pub closed spec fn email(&self) -> Seq<char> {
        self.email@
    }

    /// How often the user has signed in.
    pub closed spec fn sign_in_count(&self) -> nat {
        self.sign_in_count as nat
    }

    /// Whether the account is active.
    pub closed spec fn active(&self) -> bool {
        self.active
    }

    /// A new, active user who has never signed in.
    pub fn new(username: String, email: String) -> (user: PublicUser)
        ensures
            user.username() == username@,
            user.email() == email@,
            user.sign_in_count() == 0,
            user.active(),
    {
        PublicUser { username, email, sign_in_count: 0, active: true }
    }

    /// The user's name.
    pub fn get_username(&self) -> (name: &str)
        ensures
            name@ == self.username(),
    {
        self.username.as_str()
    }

    /// The user's e-mail address.
    pub fn get_email(&self) -> (email: &str)
        ensures
            email@ == self.email(),
    {
        self.email.as_str()
    }

    /// Whether the account is active.
    pub fn is_active(&self) -> (active: bool)
        ensures
            active == self.active(),
    {
        self.active
    }

    /// Whether one more sign-in can still be counted.
    pub fn can_sign_in(&self) -> (room: bool)
        ensures
            room == (self.sign_in_count() < u64::MAX),
    {
        self.sign_in_count < u64::MAX
    }

    /// Counts one more sign-in.
    pub fn sign_in(&mut self)
        requires
            old(self).sign_in_count() < u64::MAX,
        ensures
            final(self).sign_in_count() == old(self).sign_in_count() + 1,
            final(self).active() == old(self).active(),
            final(self).username() == old(self).username(),
            final(self).email() == old(self).email(),
    {
        self.increment_sign_in();
    }

    fn increment_sign_in(&mut self)
        requires
            old(self).sign_in_count() < u64::MAX,
        ensures
            final(self).sign_in_count() == old(self).sign_in_count() + 1,
            final(self).active() == old(self).active(),
            final(self).username() == old(self).username(),
            final(self).email() == old(self).email(),
    {
        self.sign_in_count += 1;
    }

    /// Whether the address holds an `@`.
    pub fn validate_email(&self) -> (valid: bool)
        ensures
            valid == self.email().contains('@'),
    {
        let email = self.email.as_str();
        let len: usize = email.unicode_len();
        let mut i: usize = 0;
        while i < len
            invariant
                email@ == self.email(),
                len == email@.len(),
                0 <= i <= len,
                forall|k: int| 0 <= k < i ==> email@[k] != '@',
            decreases len - i,
        {
            if email.get_char(i) == '@' {
                return true;
            }
            i += 1;
        }
        false
    }
}

impl PrivateUser {
    /// A new, active user who has never signed in.
    pub(crate) fn new(username: String, email: String) -> (user: PrivateUser)
        ensures
            user.username == username,
            user.email == email,
            user.sign_in_count == 0,
            user.active,
    {
        PrivateUser { username, email, sign_in_count: 0, active: true }
    }

    /// The user's name.
    pub(crate) fn get_username(&self) -> (name: &str)
        ensures
            name@ == self.username@,
    {
        self.username.as_str()
    }
}

} // verus!
