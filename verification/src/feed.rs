//! The feed entity, the records that create and update it, and the mapping
//! from a stored row to an entity.

use vstd::prelude::*;

use crate::status::{parse, FeedStatus};
use crate::timestamp::Timestamp;

verus! {

/// A snapshot of one stored feed.
#[derive(Debug, PartialEq)]
pub struct Feed {
    pub id: i32,
    pub title: String,
    pub link: String,
    pub status: FeedStatus,
    pub checked_at: Timestamp,
}

/// What a `Feed` holds, with its texts as sequences of characters.
pub ghost struct FeedView {
    pub id: i32,
    pub title: Seq<char>,
    pub link: Seq<char>,
    pub status: FeedStatus,
    pub checked_at: Timestamp,
}

impl View for Feed {
    type V = FeedView;

    open spec fn view(&self) -> FeedView {
        FeedView {
            id: self.id,
            title: self.title@,
            link: self.link@,
            status: self.status,
            checked_at: self.checked_at,
        }
    }
}

/// The five columns of one stored row, as the store hands them out. The
/// status is still text: the store may hold what this library never wrote.
#[derive(Debug, PartialEq)]
pub struct FeedRow {
    pub id: i32,
    pub title: String,
    pub link: String,
    pub status: String,
    pub checked_at: Timestamp,
}

/// What a `FeedRow` holds, with its texts as sequences of characters.
pub ghost struct FeedRowView {
    pub id: i32,
    pub title: Seq<char>,
    pub link: Seq<char>,
    pub status: Seq<char>,
    pub checked_at: Timestamp,
}

impl View for FeedRow {
    type V = FeedRowView;

    open spec fn view(&self) -> FeedRowView {
        FeedRowView {
            id: self.id,
            title: self.title@,
            link: self.link@,
            status: self.status@,
            checked_at: self.checked_at,
        }
    }
}

/// The request to add a feed. Status and time of last check are not the
/// caller's to choose.
#[derive(Debug, PartialEq)]
pub struct FeedToCreate {
    pub title: String,
    pub link: String,
}

/// The request to change a feed. A field that is `None` is left as it is.
#[derive(Debug, PartialEq)]
pub struct FeedToUpdate {
    pub id: i32,
    pub title: Option<String>,
    pub link: Option<String>,
    pub status: Option<FeedStatus>,
    pub checked_at: Option<Timestamp>,
}

/// A stored row breaks a rule of this library: its status is neither of the
/// two known spellings.
#[derive(Debug, Clone, Copy, PartialEq, Eq, Structural)]
pub struct DataIntegrityError {
    /// The id of the offending row.
    pub id: i32,
}

/// The entity that a row stands for, if its status is a known spelling.
pub open spec fn feed_of_row(row: FeedRowView) -> Option<FeedView> {
    match parse(row.status) {
        Some(status) => Some(
            FeedView {
                id: row.id,
                title: row.title,
                link: row.link,
                status,
                checked_at: row.checked_at,
            },
        ),
        None => None,
    }
}

impl Feed {
    /// Maps a stored row to an entity. Every column is taken over as it is,
    /// but for the status, which is parsed; an unknown spelling is an error
    /// that names the row's id.
    pub fn from_row(row: &FeedRow) -> (r: Result<Feed, DataIntegrityError>)
        ensures
            match feed_of_row(row@) {
                Some(feed) => r is Ok && r->Ok_0@ == feed,
                None => r == Err::<Feed, DataIntegrityError>(DataIntegrityError { id: row.id }),
            },
    {
        match FeedStatus::from_str(row.status.as_str()) {
            Ok(status) => Ok(
                Feed {
                    id: row.id,
                    title: row.title.clone(),
                    link: row.link.clone(),
                    status,
                    checked_at: row.checked_at,
                },
            ),
            Err(_) => Err(DataIntegrityError { id: row.id }),
        }
    }
}

/// A row is mapped to an entity exactly when its status is one of the two
/// known spellings.
pub proof fn lemma_row_maps_iff_status_known(row: FeedRowView)
    ensures
        feed_of_row(row) is Some <==> (row.status == "subscribed"@ || row.status
            == "unsubscribed"@),
{
}

} // verus!
