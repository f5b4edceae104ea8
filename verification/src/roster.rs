//! The roster: the users that are connected, each with the avatar that is
//! derived from the name.

use vstd::prelude::*;
use vstd::string::*;
use crate::envelope::texts;

verus! {

/// Where the avatar service keeps its pictures.
pub const AVATAR_PREFIX: &'static str = "https://avatars.dicebear.com/api/adventurer-neutral/";

/// The kind of picture that is asked for.
pub const AVATAR_SUFFIX: &'static str = ".svg";

/// The address of the avatar of the user `name`.
pub open spec fn avatar_url(name: Seq<char>) -> Seq<char> {
    AVATAR_PREFIX@ + name + AVATAR_SUFFIX@
}

/// What a [`UserProfile`] stands for.
pub struct ProfileView {
    pub name: Seq<char>,
    pub avatar: Seq<char>,
}

/// The profile that is derived from the name `name`.
pub open spec fn profile_of(name: Seq<char>) -> ProfileView {
    ProfileView { name, avatar: avatar_url(name) }
}

/// The roster that a list of names stands for: one profile for each name, in
/// the order of the names.
pub open spec fn roster_of(names: Seq<Seq<char>>) -> Seq<ProfileView> {
    Seq::new(names.len(), |i: int| profile_of(names[i]))
}

/// The views of the profiles in `users`.
pub open spec fn profiles(users: Seq<UserProfile>) -> Seq<ProfileView> {
    Seq::new(users.len(), |i: int| users[i]@)
}

/// The first index from `from` on at which `users` has a profile named
/// `name`.
pub open spec fn first_named(users: Seq<ProfileView>, name: Seq<char>, from: int) -> Option<int>
    decreases users.len() - from,
{
    if from < 0 || from >= users.len() {
        None
    } else if users[from].name == name {
        Some(from)
    } else {
        first_named(users, name, from + 1)
    }
}

/// The address of the avatar of the user `name`.
pub fn avatar_for(name: &str) -> (url: String)
    ensures
        url@ == avatar_url(name@),
{
    let mut url = String::from_str(AVATAR_PREFIX);
    url.append(name);
    url.append(AVATAR_SUFFIX);
    url
}

/// A user of the chat as the roster shows them. The avatar is always the one
/// that [`avatar_url`] gives for the name.
#[derive(Debug, PartialEq, Eq)]
pub struct UserProfile {
    name: String,
    avatar: String,
}

impl View for UserProfile {
    type V = ProfileView;

    closed spec fn view(&self) -> ProfileView {
        ProfileView { name: self.name@, avatar: self.avatar@ }
    }
}

impl Clone for UserProfile {
    fn clone(&self) -> (copy: Self)
        ensures
            copy@ == self@,
    {
        proof {
            use_type_invariant(self);
        }
        UserProfile { name: self.name.clone(), avatar: self.avatar.clone() }
    }
}

impl UserProfile {
    #[verifier::type_invariant]
    spec fn derived(self) -> bool {
        self.avatar@ == avatar_url(self.name@)
    }

    /// The profile of the user `name`.
    pub fn new(name: &str) -> (profile: UserProfile)
        ensures
            profile@ == profile_of(name@),
    {
        UserProfile { name: String::from_str(name), avatar: avatar_for(name) }
    }

    /// The user's name.
    pub fn name(&self) -> (name: &String)
        ensures
            name@ == self@.name,
    {
        &self.name
    }

    /// The address of the user's avatar.
    pub fn avatar(&self) -> (avatar: &String)
        ensures
            avatar@ == self@.avatar,
            avatar@ == avatar_url(self@.name),
    {
        proof {
            use_type_invariant(self);
        }
        &self.avatar
    }
}

/// The roster for a list of names.
pub fn roster_from(names: &Vec<String>) -> (users: Vec<UserProfile>)
    ensures
        profiles(users@) == roster_of(texts(names@)),
{
    let mut users: Vec<UserProfile> = Vec::new();
    let mut i: usize = 0;
    while i < names.len()
        invariant
            i <= names.len(),
            users.len() == i,
            forall|k: int| 0 <= k < i ==> (#[trigger] users[k])@ == profile_of(names[k]@),
        decreases names.len() - i,
    {
        users.push(UserProfile::new(names[i].as_str()));
        i += 1;
    }
    users
}

/// The index of the first profile in `users` that is named `name`.
pub fn find_user(users: &Vec<UserProfile>, name: &String) -> (found: Option<usize>)
    ensures
        match found {
            Some(i) => first_named(profiles(users@), name@, 0) == Some(i as int),
            None => first_named(profiles(users@), name@, 0) is None,
        },
        found matches Some(i) ==> i < users.len() && users[i as int]@.name == name@,
{
    let mut i: usize = 0;
    while i < users.len()
        invariant
            i <= users.len(),
            first_named(profiles(users@), name@, 0) == first_named(
                profiles(users@),
                name@,
                i as int,
            ),
        decreases users.len() - i,
    {
        if users[i].name == *name {
            return Some(i);
        }
        i += 1;
    }
    None
}

} // verus!
