//! The subscription status of a feed and its textual encoding.

use vstd::prelude::*;

verus! {

/// Whether the user currently follows a feed.
#[derive(Debug, Clone, Copy, PartialEq, Eq, Structural)]
pub enum FeedStatus {
    Subscribed,
    Unsubscribed,
}

/// A text that is neither of the two status spellings.
#[derive(Debug, Clone, Copy, PartialEq, Eq, Structural)]
pub struct InvalidStatus;

/// The persisted spelling of a status.
pub open spec fn render(s: FeedStatus) -> Seq<char> {
    match s {
        FeedStatus::Subscribed => "subscribed"@,
        FeedStatus::Unsubscribed => "unsubscribed"@,
    }
}

/// The status that a text spells, if it is one of the two exact spellings.
pub open spec fn parse(t: Seq<char>) -> Option<FeedStatus> {
    if t == "subscribed"@ {
        Some(FeedStatus::Subscribed)
    } else if t == "unsubscribed"@ {
        Some(FeedStatus::Unsubscribed)
    } else {
        None
    }
}

impl FeedStatus {
    /// Renders the status in its persisted, lowercase form.
    pub fn to_string(&self) -> (r: String)
        ensures
            r@ == render(*self),
    {
        match self {
            FeedStatus::Subscribed => "subscribed".to_owned(),
            FeedStatus::Unsubscribed => "unsubscribed".to_owned(),
        }
    }

    /// Parses a persisted status. Only the two exact lowercase spellings are
    /// accepted; case and surrounding whitespace are not forgiven.
    pub fn from_str(x: &str) -> (r: Result<FeedStatus, InvalidStatus>)
        ensures
            r == match parse(x@) {
                Some(s) => Ok::<FeedStatus, InvalidStatus>(s),
                None => Err(InvalidStatus),
            },
    {
        let text = x.to_owned();
        if text == "subscribed".to_owned() {
            Ok(FeedStatus::Subscribed)
        } else if text == "unsubscribed".to_owned() {
            Ok(FeedStatus::Unsubscribed)
        } else {
            Err(InvalidStatus)
        }
    }
}

/// The two spellings differ, so neither status can be read as the other.
pub proof fn lemma_spellings_differ()
    ensures
        "subscribed"@ != "unsubscribed"@,
{
    reveal_strlit("subscribed");
    reveal_strlit("unsubscribed");
    assert("subscribed"@.len() == 10);
    assert("unsubscribed"@.len() == 12);
}

/// Parsing what was rendered gives the status back.
pub proof fn lemma_parse_render(s: FeedStatus)
    ensures
        parse(render(s)) == Some(s),
{
    lemma_spellings_differ();
}

/// A text accepted by the parser is the rendering of the status it gives.
pub proof fn lemma_render_parse(t: Seq<char>)
    ensures
        parse(t) matches Some(s) ==> render(s) == t,
        parse(t) is None <==> (t != "subscribed"@ && t != "unsubscribed"@),
{
}

} // verus!
