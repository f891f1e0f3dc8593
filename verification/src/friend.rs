//! Friend views: the denormalized projection of a peer's public profile plus
//! the relationship status, built on demand from the user's relationship map.

use vstd::prelude::*;
use crate::store::{Store, find_by_id};
use crate::types::ResolutionError;
use crate::user::{CompleteUser, CompleteUserV};

verus! {

/// Spec-level image of a friend view.
pub struct FriendV {
    pub friendstatus: u8,
    pub user_id: u128,
    pub username: Option<Seq<char>>,
    pub badges: Option<Seq<u128>>,
    pub displayname: Option<Seq<char>>,
    pub bannercolor: Option<Seq<char>>,
    pub backgroundcolor: Option<Seq<char>>,
    pub status: Option<i8>,
}

/// A friend view: the peer's identifier and relationship status, and, once
/// filled, the peer's live public profile fields.
pub struct Friend {
    pub friendstatus: u8,
    pub user_id: u128,
    pub username: Option<String>,
    pub badges: Option<Vec<u128>>,
    pub displayname: Option<String>,
    pub bannercolor: Option<String>,
    pub backgroundcolor: Option<String>,
    pub status: Option<i8>,
}

pub open spec fn opt_ids_view(o: Option<Vec<u128>>) -> Option<Seq<u128>> {
    match o {
        Some(v) => Some(v@),
        None => None,
    }
}

impl View for Friend {
    type V = FriendV;

    open spec fn view(&self) -> FriendV {
        FriendV {
            friendstatus: self.friendstatus,
            user_id: self.user_id,
            username: crate::user::opt_str_view(self.username),
            badges: opt_ids_view(self.badges),
            displayname: crate::user::opt_str_view(self.displayname),
            bannercolor: crate::user::opt_str_view(self.bannercolor),
            backgroundcolor: crate::user::opt_str_view(self.backgroundcolor),
            status: self.status,
        }
    }
}

/// A fresh, unfilled friend view for one relationship entry.
pub open spec fn friend_init(user_id: u128, status: i8) -> FriendV {
    FriendV {
        friendstatus: status as u8,
        user_id: user_id,
        username: None,
        badges: None,
        displayname: None,
        bannercolor: None,
        backgroundcolor: None,
        status: None,
    }
}

/// The friend view with the peer's public profile fields copied in.
pub open spec fn friend_filled(f: FriendV, peer: CompleteUserV) -> FriendV {
    FriendV {
        username: Some(peer.username),
        badges: Some(peer.badges),
        displayname: Some(peer.display_name),
        bannercolor: peer.banner_color,
        backgroundcolor: peer.background_color,
        status: Some(peer.status),
        ..f
    }
}

impl Friend {
    /// Creates an unfilled friend view from a peer identifier and a
    /// relationship status code.
    pub fn from_uuid(uuid: u128, status: i8) -> (f: Friend)
        ensures
            f@ == friend_init(uuid, status),
    {
        Friend {
            friendstatus: #[verifier::truncate] (status as u8),
            user_id: uuid,
            username: None,
            badges: None,
            displayname: None,
            bannercolor: None,
            backgroundcolor: None,
            status: None,
        }
    }

    /// Fills the peer's public profile fields from the first stored row with
    /// the peer's identifier; fails when the peer has no row.
    pub fn fill_info(self, store: &Store) -> (r: Result<Friend, ResolutionError>)
        ensures
            match find_by_id(store@, self.user_id) {
                Some(peer) => r matches Ok(f) && f@ == friend_filled(self@, peer),
                None => r matches Err(e) && e == ResolutionError::NotFound,
            },
    {
        match store.lookup_by_id(self.user_id) {
            Some(peer) => Ok(
                Friend {
                    username: Some(peer.username),
                    badges: Some(peer.badges),
                    displayname: Some(peer.display_name),
                    bannercolor: peer.banner_color,
                    backgroundcolor: peer.background_color,
                    status: Some(peer.status),
                    ..self
                },
            ),
            None => Err(ResolutionError::NotFound),
        }
    }
}

pub open spec fn friends_view(v: Seq<Friend>) -> Seq<FriendV> {
    v.map_values(|f: Friend| f@)
}

/// The aggregation of a relationship map against the rows `s`: one filled
/// friend view per entry whose peer has a row, in the order of the map;
/// entries whose peer has no row are skipped.
pub open spec fn aggregate_spec(s: Seq<CompleteUserV>, friends: Seq<(u128, i8)>) -> Seq<FriendV>
    decreases friends.len(),
{
    if friends.len() == 0 {
        Seq::empty()
    } else {
        let prefix = aggregate_spec(s, friends.drop_last());
        match find_by_id(s, friends.last().0) {
            Some(peer) => prefix.push(
                friend_filled(friend_init(friends.last().0, friends.last().1), peer),
            ),
            None => prefix,
        }
    }
}

/// An empty relationship map aggregates to an empty friend list, never to an
/// error.
pub proof fn lemma_empty_friends_aggregate(s: Seq<CompleteUserV>)
    ensures
        aggregate_spec(s, Seq::<(u128, i8)>::empty()) == Seq::<FriendV>::empty(),
{
}

impl CompleteUser {
    /// Expands this user's relationship map into fully populated friend
    /// views, one point lookup per peer; peers without a row are skipped
    /// rather than failing the whole aggregation.
    pub fn fetch_friends(&self, store: &Store) -> (r: Vec<Friend>)
        ensures
            friends_view(r@) == aggregate_spec(store@, self@.friends),
            self@.friends.len() == 0 ==> r@.len() == 0,
    {
        let n = self.friends.len();
        let mut out: Vec<Friend> = Vec::new();
        let mut i: usize = 0;
        proof {
            assert(self@.friends.take(0) =~= Seq::<(u128, i8)>::empty());
            assert(friends_view(out@) =~= Seq::<FriendV>::empty());
        }
        while i < n
            invariant
                n == self@.friends.len(),
                i <= n,
                friends_view(out@) == aggregate_spec(store@, self@.friends.take(i as int)),
            decreases n - i,
        {
            let pair = self.friends[i];
            let f = Friend::from_uuid(pair.0, pair.1);
            proof {
                assert(self@.friends.take(i + 1).drop_last() =~= self@.friends.take(i as int));
                assert(self@.friends.take(i + 1).last() == self@.friends[i as int]);
            }
            match f.fill_info(store) {
                Ok(filled) => {
                    out.push(filled);
                    proof {
                        assert(friends_view(out@) =~= aggregate_spec(
                            store@,
                            self@.friends.take(i + 1),
                        ));
                    }
                },
                Err(_) => {},
            }
            i += 1;
        }
        proof {
            assert(self@.friends.take(n as int) =~= self@.friends);
        }
        out
    }
}

} // verus!
