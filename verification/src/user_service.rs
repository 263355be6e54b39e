//! Users reading and changing their profile and user name.
use vstd::prelude::*;
use crate::dtos::UpdateUserDto;
use crate::entities::User;
use crate::errors::UserError;
use crate::repositories::{UserCall, UserRepository, UserStore};

verus! {

/// A user's profile after an update: the full name is replaced, the avatar and the bio only
/// when given.
pub open spec fn profile_update(user: User, data: UpdateUserDto) -> User {
    User {
        full_name: Some(data.full_name),
        avatar: match data.avatar { Some(a) => Some(a), None => user.avatar },
        bio: match data.bio { Some(b) => Some(b), None => user.bio },
        ..user
    }
}

/// A user's profile after an update.
pub fn updated_user(user: User, data: UpdateUserDto) -> (r: User)
    ensures
        r == profile_update(user, data),
        r.full_name == Some(data.full_name),
        r.avatar == match data.avatar { Some(a) => Some(a), None => user.avatar },
        r.bio == match data.bio { Some(b) => Some(b), None => user.bio },
        r.id == user.id,
        r.user_name == user.user_name,
{
    let mut user = user;
    user.full_name = Some(data.full_name);
    if let Some(avatar) = data.avatar {
        user.avatar = Some(avatar);
    }
    if let Some(bio) = data.bio {
        user.bio = Some(bio);
    }
    user
}

/// A profile update sets the full name, replaces the avatar and the bio only when they are
/// given, and leaves the user's id and user name as they were.
pub proof fn law_profile_update_changes_only_the_profile(user: User, data: UpdateUserDto)
    ensures
        profile_update(user, data).full_name == Some(data.full_name),
        data.avatar is None ==> profile_update(user, data).avatar == user.avatar,
        data.avatar matches Some(a) ==> profile_update(user, data).avatar == Some(a),
        data.bio is None ==> profile_update(user, data).bio == user.bio,
        data.bio matches Some(b) ==> profile_update(user, data).bio == Some(b),
        profile_update(user, data).id == user.id,
        profile_update(user, data).user_name == user.user_name,
{
}

/// The user service over a user store.
pub struct UserServiceImpl<R: UserRepository> {
    store: UserStore<R>,
}

impl<R: UserRepository> UserServiceImpl<R> {
    /// The store the service reads and writes, with the calls made to it.
    pub closed spec fn store(&self) -> UserStore<R> {
        self.store
    }

    pub fn new(repository: R) -> (r: Self)
        ensures
            r.store().repository() == repository,
            r.store().calls() == Seq::<UserCall>::empty(),
    {
        UserServiceImpl { store: UserStore::new(repository) }
    }

    /// The store's answer for the user.
    pub fn get_user_by_id(&mut self, user_id: i32) -> (r: Result<User, UserError>)
        ensures
            final(self).store().repository() == old(self).store().repository(),
            final(self).store().calls() == old(self).store().calls().push(UserCall::GetUserById(user_id, r)),
    {
        self.store.get_user_by_id(user_id)
    }

    /// Changes the profile of an existing user: the user is looked up, and the updated
    /// profile is stored; after a failed lookup nothing is written and the lookup's error is
    /// the answer.
    pub fn update_user(&mut self, user_id: i32, data: UpdateUserDto) -> (r: Result<User, UserError>)
        ensures
            final(self).store().repository() == old(self).store().repository(),
            exists|found: Result<User, UserError>| #[trigger] old(self).store().repository().answers_get_user_by_id(user_id, found) && {
                let looked_up = old(self).store().calls().push(UserCall::GetUserById(user_id, found));
                match found {
                    Err(e) => r == Err::<User, UserError>(e) && final(self).store().calls() == looked_up,
                    Ok(user) => final(self).store().calls() == looked_up.push(UserCall::UpdateUser(profile_update(user, data), r)),
                }
            },
    {
        let found = self.store.get_user_by_id(user_id);
        assert(old(self).store().repository().answers_get_user_by_id(user_id, found));
        match found {
            Err(e) => Err(e),
            Ok(user) => {
                let row = updated_user(user, data);
                self.store.update_user(row)
            },
        }
    }

    /// Whether some user already has this user name: whether the store finds it.
    pub fn check_username_exists(&mut self, username: &str) -> (r: bool)
        ensures
            final(self).store().repository() == old(self).store().repository(),
            exists|found: Result<String, UserError>| #[trigger] old(self).store().repository().answers_get_username(username@, found)
                && r == (found is Ok)
                && final(self).store().calls() == old(self).store().calls().push(UserCall::GetUsername(username@, found)),
    {
        let found = self.store.get_username(username);
        assert(old(self).store().repository().answers_get_username(username@, found));
        found.is_ok()
    }

    /// Stores a new user name; the store's answer is the answer.
    pub fn update_username(&mut self, user_id: i32, username: &str) -> (r: Result<User, UserError>)
        ensures
            final(self).store().repository() == old(self).store().repository(),
            final(self).store().calls() == old(self).store().calls().push(UserCall::UpdateUsername(user_id, username@, r)),
    {
        self.store.update_username(user_id, username)
    }
}

} // verus!
