//! Users as storage keeps them, and the profile that may be shown.

use vstd::prelude::*;

use crate::error::ApiError;
use crate::ids::UserId;
use crate::text::DisplayName;
use crate::time::Timestamp;

verus! {

/// A user record, as storage hands it out.
#[derive(Debug)]
pub struct User {
    pub id: UserId,
    pub handle: String,
    pub display_name: Option<String>,
    pub email: Option<String>,
    pub password_hash: String,
    pub created_at: Timestamp,
}

/// What others may see of a user. Holds no password hash and nothing of a
/// session.
#[derive(Debug)]
pub struct PublicUserProfile {
    pub id: UserId,
    pub display_name: Option<DisplayName>,
    pub handle: String,
    pub profile_image: Option<String>,
    pub created_at: Timestamp,
    pub am_following: bool,
}

impl Clone for PublicUserProfile {
    fn clone(&self) -> (res: Self)
        ensures
            res == *self,
    {
        PublicUserProfile {
            id: self.id,
            display_name: match &self.display_name {
                Some(name) => Some(name.clone()),
                None => None,
            },
            handle: self.handle.clone(),
            profile_image: match &self.profile_image {
                Some(image) => Some(image.clone()),
                None => None,
            },
            created_at: self.created_at,
            am_following: self.am_following,
        }
    }
}

/// Whether `shown` is what a profile shows for the stored name `stored`:
/// the same text where it is a valid display name, nothing otherwise.
pub open spec fn shows_name(stored: Option<String>, shown: Option<DisplayName>) -> bool {
    match stored {
        Some(name) => if DisplayName::accepts(name@) {
            shown is Some && shown->0@ == name@
        } else {
            shown is None
        },
        None => shown is None,
    }
}

/// Whether `profile` is the public projection of `user`.
pub open spec fn is_public_profile(user: User, profile: PublicUserProfile) -> bool {
    &&& profile.id == user.id
    &&& shows_name(user.display_name, profile.display_name)
    &&& profile.handle == user.handle
    &&& profile.profile_image is None
    &&& profile.created_at == user.created_at
    &&& !profile.am_following
}

/// The public projection of `user`: identifier, handle and creation time
/// as stored, the display name where it is a valid one, no image, and no
/// following relationship.
pub fn to_public(user: User) -> (res: Result<PublicUserProfile, ApiError>)
    ensures
        res is Ok,
        is_public_profile(user, res->Ok_0),
{
    let display_name = match user.display_name {
        Some(name) => match DisplayName::new(name) {
            Ok(valid) => Some(valid),
            Err(_) => None,
        },
        None => None,
    };
    Ok(
        PublicUserProfile {
            id: user.id,
            display_name,
            handle: user.handle,
            profile_image: None,
            created_at: user.created_at,
            am_following: false,
        },
    )
}

} // verus!
