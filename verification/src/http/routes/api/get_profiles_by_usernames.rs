use crate::http::dto::response as dto;
use crate::http::state::State;
use crate::http::Reply;
use crate::identifier::{simple, simple_text};
use crate::launchserver::types::profile::{profile_of, Profile, ProfileView};
use crate::launchserver::types::request;
use crate::launchserver::types::response::{texts, BatchProfilesByUsernames};
use crate::launchserver::Error;
use vstd::prelude::*;

verus! {

/// The path of the route.
#[derive(Debug)]
pub struct GetProfilesByUsernamesPath {
    pub server_id: String,
}

/// The names asked for.
#[derive(Debug)]
pub struct GetProfilesByUsernamesRequest(pub Vec<String>);

/// The profiles found, without properties.
#[derive(Debug)]
pub struct GetProfilesByUsernamesResponse(pub Vec<dto::Profile>);

/// A profile by identifier and name alone.
pub open spec fn bare(profile: ProfileView) -> dto::ProfileView {
    dto::ProfileView {
        id: simple_text(profile.uuid),
        name: profile.username,
        properties: Seq::empty(),
    }
}

/// The profiles that a batch holds, in its order; entries without a profile
/// are left out.
pub open spec fn listed(entries: Seq<Option<ProfileView>>) -> Seq<dto::ProfileView>
    decreases entries.len(),
{
    if entries.len() == 0 {
        Seq::empty()
    } else {
        match entries.last() {
            Some(profile) => listed(entries.drop_last()).push(bare(profile)),
            None => listed(entries.drop_last()),
        }
    }
}

/// The values of a list of profiles.
pub open spec fn values(list: Seq<dto::Profile>) -> Seq<dto::ProfileView> {
    Seq::new(list.len(), |i: int| list[i]@)
}

/// The values of a list of optional backend profiles.
pub open spec fn entries(list: Seq<Option<Profile>>) -> Seq<Option<ProfileView>> {
    Seq::new(list.len(), |i: int| profile_of(list[i]))
}

/// Lists the profiles of a batch.
pub fn list_profiles(batch: &BatchProfilesByUsernames) -> (out: Vec<dto::Profile>)
    ensures
        values(out@) == listed(entries(batch.player_profiles@)),
{
    let ghost all = entries(batch.player_profiles@);
    let mut out: Vec<dto::Profile> = Vec::new();
    let mut i: usize = 0;
    proof {
        assert(all.take(0) =~= Seq::<Option<ProfileView>>::empty());
        assert(values(out@) =~= listed(all.take(0)));
    }
    while i < batch.player_profiles.len()
        invariant
            i <= batch.player_profiles.len(),
            all == entries(batch.player_profiles@),
            values(out@) == listed(all.take(i as int)),
        decreases batch.player_profiles.len() - i,
    {
        let ghost before = values(out@);
        let ghost next = all.take(i as int + 1);
        proof {
            assert(next.drop_last() =~= all.take(i as int));
            assert(next.last() == profile_of(batch.player_profiles@[i as int]));
        }
        match &batch.player_profiles[i] {
            Some(profile) => {
                let item = dto::Profile {
                    id: simple(profile.uuid),
                    name: profile.username.clone(),
                    properties: Vec::new(),
                };
                proof {
                    assert(item@.properties =~= Seq::empty());
                    assert(item@ == bare(profile@));
                }
                out.push(item);
                proof {
                    assert(values(out@) =~= before.push(bare(profile@)));
                }
            },
            None => {},
        }
        i = i + 1;
    }
    proof {
        assert(all.take(i as int) =~= all);
    }
    out
}

/// The first step of the route: the backend that the path names, by its
/// position, and the request for the profiles of all the names in the body.
/// `None`, for which the route answers nothing, where there is no such backend.
pub fn batch_request(
    state: &State,
    path: &GetProfilesByUsernamesPath,
    body: &GetProfilesByUsernamesRequest,
) -> (step: Option<(usize, request::Any)>)
    ensures
        match state.position(path.server_id@) {
            Some(index) => step matches Some((found, request)) && found == index && request@.body
                == (request::KindView::BatchProfilesByUsernames { list: texts(body.0@) }),
            None => step.is_none(),
        },
{
    match state.index(path.server_id.as_str()) {
        Some(index) => Some(
            (index, state.servers[index].socket.batch_profiles_by_usernames(&body.0)),
        ),
        None => None,
    }
}

/// Answers the bulk lookup: the profiles of the batch where the backend
/// answered, nothing where the call failed.
pub fn get_profiles_by_usernames(lookup: Result<BatchProfilesByUsernames, Error>) -> (reply: Reply<
    GetProfilesByUsernamesResponse,
>)
    ensures
        match lookup {
            Ok(batch) => reply matches Reply::Json(response) && values(response.0@) == listed(
                entries(batch.player_profiles@),
            ),
            Err(_) => reply is NoContent,
        },
{
    match lookup {
        Ok(batch) => Reply::Json(GetProfilesByUsernamesResponse(list_profiles(&batch))),
        Err(_) => Reply::NoContent,
    }
}

} // verus!
