use vstd::prelude::*;

verus! {

/// What every logged-in page's frame shows about the viewer: the id, the
/// handle, and the name to display, which falls back to the handle when
/// no display name is set.
pub struct BaseInfo {
    pub user_id: i32,
    pub username: String,
    pub display_name: String,
}

impl BaseInfo {
    /// Builds the frame data from the viewer's user record.
    pub fn new(user_id: i32, username: String, display_name: Option<String>) -> (r: Self)
        ensures
            r.user_id == user_id,
            r.username@ == username@,
            r.display_name@ == match display_name {
                Some(d) => d@,
                None => username@,
            },
    {
        match display_name {
            Some(d) => BaseInfo { user_id, username, display_name: d },
            None => {
                let display_name = username.clone();
                BaseInfo { user_id, username, display_name }
            },
        }
    }
}


/// What the profile-picture route answers, from the store's lookup: the
/// stored bytes when the user has a picture, the default picture when the
/// user exists without one, and not-found for an unknown username.
pub enum PictureOutcome {
    Bytes(Vec<u8>),
    DefaultPicture,
    UnknownUser,
}

pub fn picture_response(row: Option<Option<Vec<u8>>>) -> (r: PictureOutcome)
    ensures
        match row {
            Some(Some(bytes)) => r matches PictureOutcome::Bytes(b) && b == bytes,
            Some(None) => r is DefaultPicture,
            None => r is UnknownUser,
        },
{
    match row {
        Some(Some(bytes)) => PictureOutcome::Bytes(bytes),
        Some(None) => PictureOutcome::DefaultPicture,
        None => PictureOutcome::UnknownUser,
    }
}

} // verus!
