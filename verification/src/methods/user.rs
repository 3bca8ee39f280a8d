use vstd::prelude::*;
use crate::json::{json_int, json_member, json_object, json_opt_member, opt_json_int, JsonWriter};
use crate::request::{Request, RequestBody, RequestMethod};
use crate::types::primitive::Integer;

verus! {

/// Returns basic information about the bot
#[derive(Clone, Copy, Debug)]
pub struct GetMe;

impl GetMe {
    /// Builds the request that calls the method; it is answered with `Me`
    pub fn into_request<R>(self) -> (r: Request<R>)
        ensures
            r.spec_path() == "getMe"@,
            r.spec_method() == RequestMethod::Get,
            r.spec_body() == RequestBody::<R>::Empty,
    {
        Request::empty("getMe")
    }
}

/// Get a list of profile pictures for a user
#[derive(Clone, Debug)]
pub struct GetUserProfilePhotos {
    user_id: Integer,
    offset: Option<Integer>,
    limit: Option<Integer>,
}

impl View for GetUserProfilePhotos {
    /// The user, the offset and the limit
    type V = (Integer, Option<Integer>, Option<Integer>);

    closed spec fn view(&self) -> (Integer, Option<Integer>, Option<Integer>) {
        (self.user_id, self.offset, self.limit)
    }
}

/// The members of the request: the user, then the offset and the limit where they are set.
pub open spec fn profile_photos_members(v: (Integer, Option<Integer>, Option<Integer>)) -> Seq<Seq<char>> {
    seq![json_member("user_id"@, json_int(v.0 as int))] + json_opt_member("offset"@, opt_json_int(v.1))
        + json_opt_member("limit"@, opt_json_int(v.2))
}

impl GetUserProfilePhotos {
    /// Creates a new GetUserProfilePhotos with empty optional parameters
    ///
    /// # Arguments
    ///
    /// user_id - Unique identifier of the target user
    pub fn new(user_id: Integer) -> (r: Self)
        ensures
            r@ == (user_id, None::<Integer>, None::<Integer>),
    {
        GetUserProfilePhotos { user_id, offset: None, limit: None }
    }

    /// Sequential number of the first photo to be returned
    ///
    /// By default, all photos are returned
    pub fn offset(self, offset: Integer) -> (r: Self)
        ensures
            r@ == (self@.0, Some(offset), self@.2),
    {
        GetUserProfilePhotos { offset: Some(offset), ..self }
    }

    /// Limits the number of photos to be retrieved
    ///
    /// Values between 1—100 are accepted
    /// Defaults to 100
    pub fn limit(self, limit: Integer) -> (r: Self)
        ensures
            r@ == (self@.0, self@.1, Some(limit)),
    {
        GetUserProfilePhotos { limit: Some(limit), ..self }
    }

    /// The parameters as a JSON object
    pub fn to_json(&self) -> (r: String)
        ensures
            r@ == json_object(profile_photos_members(self@)),
    {
        let mut w = JsonWriter::object();
        w.member_int("user_id", self.user_id);
        w.opt_int("offset", self.offset);
        w.opt_int("limit", self.limit);
        assert(w.parts() =~= profile_photos_members(self@));
        w.finish()
    }
}

impl GetUserProfilePhotos {
    /// Builds the request that calls the method; it is answered with `UserProfilePhotos`
    pub fn into_request<R>(self) -> (r: Request<R>)
        ensures
            r.spec_path() == "getUserProfilePhotos"@,
            r.spec_method() == RequestMethod::Post,
            r.spec_body() matches RequestBody::Json(t) && t@ == json_object(profile_photos_members(self@)),
    {
        let body = self.to_json();
        Request::json("getUserProfilePhotos", body)
    }
}

} // verus!
