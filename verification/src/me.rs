//! The logged-in user's listings: favorite folders, followed collections,
//! followed uploaders and followed seasons.  The requests themselves are the
//! caller's; the data shapes, the credential check and the per-endpoint
//! decisions live here.
use vstd::prelude::*;
use vstd::string::*;

use crate::status::{ErrorInfo, ErrorKind};

verus! {

/// The logged-in user, reduced to what the listings need: the user id from
/// the credential.
#[derive(Debug)]
pub struct Me {
    pub mid: String,
}

impl Me {
    pub fn new(mid: String) -> (r: Self)
        ensures
            r.mid == mid,
    {
        Me { mid }
    }

    pub fn mid(&self) -> (r: &str)
        ensures
            r@ == self.mid@,
    {
        self.mid.as_str()
    }

    /// Every listing demands a user id; without one the request is refused
    /// before anything goes out.
    pub fn require_mid(&self) -> (r: Result<(), ErrorInfo>)
        ensures
            r is Ok <==> self.mid@.len() > 0,
            r matches Err(e) ==> e.kind == ErrorKind::Recoverable,
    {
        if self.mid.as_str().is_empty() {
            proof {
                reveal_strlit("missing user id: fill in the site credential");
            }
            Err(
                ErrorInfo {
                    kind: ErrorKind::Recoverable,
                    message: ("missing user id: fill in the site credential").to_owned(),
                },
            )
        } else {
            Ok(())
        }
    }
}

/// Which followings endpoint a listing must call: the search endpoint when a
/// name filter is given, the plain one otherwise.
#[derive(Clone, Copy, Debug, PartialEq, Eq, Structural)]
pub enum FollowingsEndpoint {
    Plain,
    Search,
}

pub fn followings_endpoint(has_name_filter: bool) -> (r: FollowingsEndpoint)
    ensures
        r == (if has_name_filter {
            FollowingsEndpoint::Search
        } else {
            FollowingsEndpoint::Plain
        }),
{
    if has_name_filter {
        FollowingsEndpoint::Search
    } else {
        FollowingsEndpoint::Plain
    }
}

/// One favorite folder the user created.
#[derive(Debug)]
pub struct FavoriteItem {
    pub title: String,
    pub media_count: i64,
    pub id: i64,
    pub mid: i64,
}

/// One collection the user follows.
#[derive(Debug)]
pub struct CollectionItem {
    pub id: i64,
    pub fid: i64,
    pub mid: i64,
    pub state: i32,
    pub title: String,
    pub media_count: i64,
}

/// A page of followed collections.
#[derive(Debug)]
pub struct Collections {
    pub count: i64,
    pub list: Option<Vec<CollectionItem>>,
}

/// A page of followed uploaders.
#[derive(Debug)]
pub struct FollowedUppers {
    pub total: i64,
    pub list: Vec<FollowedUpper>,
}

#[derive(Debug)]
pub struct FollowedUpper {
    pub mid: i64,
    pub uname: String,
    pub face: String,
    pub sign: String,
}

/// Which kind of serialized content a followings listing asks for.
#[derive(Clone, Copy, Debug, PartialEq, Eq, Structural)]
pub enum BangumiType {
    Anime,
    Drama,
}

/// The numeric code the follow-list endpoint expects for each kind.
pub fn bangumi_type_code(t: BangumiType) -> (r: i32)
    ensures
        r == (match t {
            BangumiType::Anime => 1i32,
            BangumiType::Drama => 2i32,
        }),
{
    match t {
        BangumiType::Anime => 1,
        BangumiType::Drama => 2,
    }
}

/// A page of followed seasons.
#[derive(Debug)]
pub struct FollowedBangumi {
    pub total: i64,
    pub list: Vec<BangumiItem>,
}

/// One followed season.
#[derive(Debug)]
pub struct BangumiItem {
    pub season_id: i64,
    pub media_id: i64,
    pub title: String,
    pub cover: String,
    pub evaluate: String,
    pub total_count: i32,
    pub is_finish: bool,
    pub season_type: u16,
    pub formal_ep_count: i32,
}

/// The fallback for a missing total in a followed-seasons page.
pub fn default_total() -> (r: i64)
    ensures
        r == 0,
{
    0
}

/// The fallback for a missing per-season episode count.
pub fn default_total_count() -> (r: i32)
    ensures
        r == 0,
{
    0
}

/// Read a finished flag the upstream writes as an integer: zero and one are
/// the two flags, anything else is rejected.
pub fn bool_from_int(v: i64) -> (r: Result<bool, ErrorInfo>)
    ensures
        v == 0 ==> r == Result::<bool, ErrorInfo>::Ok(false),
        v == 1 ==> r == Result::<bool, ErrorInfo>::Ok(true),
        !(v == 0 || v == 1) ==> (r matches Err(e) && e.kind == ErrorKind::Recoverable),
{
    if v == 0 {
        Ok(false)
    } else if v == 1 {
        Ok(true)
    } else {
        proof {
            reveal_strlit("invalid value: expected 0 or 1");
        }
        Err(
            ErrorInfo {
                kind: ErrorKind::Recoverable,
                message: ("invalid value: expected 0 or 1").to_owned(),
            },
        )
    }
}

} // verus!
