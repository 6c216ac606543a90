use vstd::prelude::*;

verus! {

/// What a [`Username`] holds, at the specification level: the unique handle
/// and the optional display name.
pub ghost struct UsernameView {
    pub username: Seq<char>,
    pub display_name: Option<Seq<char>>,
}

/// A user's unique handle together with an optional display name.
///
/// The handle is the identity used everywhere in the core (token subjects,
/// partner resolution); the display name is presentation only and falls back
/// to the handle when absent.
#[derive(Debug, Clone)]
pub struct Username {
    username: String,
    display_name: Option<String>,
}

impl View for Username {
    type V = UsernameView;

    closed spec fn view(&self) -> UsernameView {
        UsernameView {
            username: self.username@,
            display_name: self.display_name.deep_view(),
        }
    }
}

impl Username {
    pub fn new(username: String, display_name: Option<String>) -> (r: Self)
        ensures
            r@.username == username@,
            r@.display_name == display_name.deep_view(),
    {
        Self { username, display_name }
    }

    /// The unique handle.
    pub fn username(&self) -> (r: String)
        ensures
            r@ == self@.username,
    {
        self.username.clone()
    }

    /// The name to show: the display name when one is set, the handle
    /// otherwise.
    pub fn display_name(&self) -> (r: String)
        ensures
            r@ == match self@.display_name {
                Some(d) => d,
                None => self@.username,
            },
    {
        match &self.display_name {
            Some(d) => d.clone(),
            None => self.username.clone(),
        }
    }
}

} // verus!
