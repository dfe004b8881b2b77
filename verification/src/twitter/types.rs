//! Tweet entities and the merging of tweet pages.

use vstd::prelude::*;

use crate::kuaishou::json::KuaishouJsonValue;
use crate::text::string_eq_str;
use crate::twitter::api::TwitterTweetSearchMode;

verus! {

/// One media entity attached to a tweet.
#[derive(Debug, Clone, Default, PartialEq, Eq)]
pub struct TwitterMediaEntity {
    /// Stable media type reported by X such as `photo` or `video`.
    pub media_type: String,
    /// Preferred HTTPS media URL when available.
    pub media_url: Option<String>,
    /// Preview image URL for video or gif media.
    pub preview_image_url: Option<String>,
    /// Expanded external URL exposed by the entity.
    pub expanded_url: Option<String>,
}

/// One URL entity attached to tweet text.
#[derive(Debug, Clone, Default, PartialEq, Eq)]
pub struct TwitterUrlEntity {
    /// Original shortened URL present in tweet text.
    pub url: Option<String>,
    /// Expanded target URL when present.
    pub expanded_url: Option<String>,
    /// Display URL rendered by X.
    pub display_url: Option<String>,
    /// Fully resolved URL when X exposes it.
    pub unwound_url: Option<String>,
    /// Inclusive start and exclusive end offsets inside the text.
    pub indices: Option<[u32; 2]>,
}

/// One mentioned user entity attached to tweet text.
#[derive(Debug, Clone, Default, PartialEq, Eq)]
pub struct TwitterUserMentionEntity {
    /// Stable numeric user id when present.
    pub id: Option<String>,
    /// Mentioned screen name without the leading `@`.
    pub screen_name: Option<String>,
    /// Display name returned by X when present.
    pub name: Option<String>,
    /// Inclusive start and exclusive end offsets inside the text.
    pub indices: Option<[u32; 2]>,
}

/// One hashtag entity attached to tweet text.
#[derive(Debug, Clone, Default, PartialEq, Eq)]
pub struct TwitterHashtagEntity {
    /// Hashtag text without the leading `#`.
    pub text: String,
    /// Inclusive start and exclusive end offsets inside the text.
    pub indices: Option<[u32; 2]>,
}

/// One cashtag or symbol entity attached to tweet text.
#[derive(Debug, Clone, Default, PartialEq, Eq)]
pub struct TwitterSymbolEntity {
    /// Symbol text without the leading `$`.
    pub text: String,
    /// Inclusive start and exclusive end offsets inside the text.
    pub indices: Option<[u32; 2]>,
}

/// One timestamp entity attached to tweet text.
#[derive(Debug, Clone, Default, PartialEq, Eq)]
pub struct TwitterTimestampEntity {
    /// Timestamp text rendered in the tweet body.
    pub text: String,
    /// Inclusive start and exclusive end offsets inside the text.
    pub indices: Option<[u32; 2]>,
}

/// Text entities extracted from the tweet payload.
#[derive(Debug, Clone, Default, PartialEq, Eq)]
pub struct TwitterTweetEntities {
    /// URL entities attached to the text body.
    pub urls: Vec<TwitterUrlEntity>,
    /// Mentioned users attached to the text body.
    pub user_mentions: Vec<TwitterUserMentionEntity>,
    /// Hashtag entities attached to the text body.
    pub hashtags: Vec<TwitterHashtagEntity>,
    /// Cashtag entities attached to the text body.
    pub symbols: Vec<TwitterSymbolEntity>,
    /// Timestamp entities attached to the text body.
    pub timestamps: Vec<TwitterTimestampEntity>,
}

/// The set of texts in a list.
pub open spec fn text_set(v: Seq<String>) -> Set<Seq<char>> {
    v.map_values(|s: String| s@).to_set()
}

/// The positions of the page items that are taken: those whose id is not
/// yet seen (each id counting as seen once taken), stopping after the
/// item that brings the list to `limit`.
pub open spec fn picked_positions(
    seen: Set<Seq<char>>,
    ids: Seq<Seq<char>>,
    start: int,
    count: int,
    limit: int,
) -> Seq<int>
    decreases ids.len() - start,
{
    if start < 0 || start >= ids.len() {
        seq![]
    } else if seen.contains(ids[start]) {
        picked_positions(seen, ids, start + 1, count, limit)
    } else if count + 1 >= limit {
        seq![start]
    } else {
        seq![start] + picked_positions(seen.insert(ids[start]), ids, start + 1, count + 1, limit)
    }
}

proof fn lemma_picked_fresh(seen: Set<Seq<char>>, ids: Seq<Seq<char>>, start: int, count: int, limit: int)
    requires
        0 <= start,
    ensures
        forall|a: int|
            0 <= a < picked_positions(seen, ids, start, count, limit).len() ==> start
                <= #[trigger] picked_positions(seen, ids, start, count, limit)[a] < ids.len(),
        forall|a: int|
            0 <= a < picked_positions(seen, ids, start, count, limit).len() ==> !seen.contains(
                #[trigger] ids[picked_positions(seen, ids, start, count, limit)[a]],
            ),
        forall|a: int, b: int|
            0 <= a < b < picked_positions(seen, ids, start, count, limit).len() ==> #[trigger] ids[picked_positions(
                seen,
                ids,
                start,
                count,
                limit,
            )[a]] != #[trigger] ids[picked_positions(seen, ids, start, count, limit)[b]],
    decreases ids.len() - start,
{
    if start < ids.len() && !seen.contains(ids[start]) && count + 1 < limit {
        let seen2 = seen.insert(ids[start]);
        lemma_picked_fresh(seen2, ids, start + 1, count + 1, limit);
        let picked = picked_positions(seen, ids, start, count, limit);
        let rest = picked_positions(seen2, ids, start + 1, count + 1, limit);
        assert(picked == seq![start] + rest);
        assert forall|a: int| 0 <= a < picked.len() implies start <= #[trigger] picked[a] < ids.len() by {
            if a > 0 {
                assert(picked[a] == rest[a - 1]);
            }
        }
        assert forall|a: int| 0 <= a < picked.len() implies !seen.contains(#[trigger] ids[picked[a]]) by {
            if a > 0 {
                assert(picked[a] == rest[a - 1]);
                assert(!seen2.contains(ids[rest[a - 1]]));
            }
        }
        assert forall|a: int, b: int| 0 <= a < b < picked.len() implies #[trigger] ids[picked[a]]
            != #[trigger] ids[picked[b]] by {
            assert(picked[b] == rest[b - 1]);
            assert(!seen2.contains(ids[rest[b - 1]]));
            if a > 0 {
                assert(picked[a] == rest[a - 1]);
            }
        }
    } else if start < ids.len() && seen.contains(ids[start]) {
        lemma_picked_fresh(seen, ids, start + 1, count, limit);
        assert(picked_positions(seen, ids, start, count, limit) == picked_positions(
            seen,
            ids,
            start + 1,
            count,
            limit,
        ));
    } else if start < ids.len() {
        let picked = picked_positions(seen, ids, start, count, limit);
        assert(picked == seq![start]);
        assert(picked[0] == start);
    }
}

proof fn lemma_picked_len(seen: Set<Seq<char>>, ids: Seq<Seq<char>>, start: int, count: int, limit: int)
    requires
        count < limit,
    ensures
        picked_positions(seen, ids, start, count, limit).len() <= limit - count,
    decreases ids.len() - start,
{
    if start < 0 || start >= ids.len() {
    } else if seen.contains(ids[start]) {
        lemma_picked_len(seen, ids, start + 1, count, limit);
    } else if count + 1 >= limit {
    } else {
        lemma_picked_len(seen.insert(ids[start]), ids, start + 1, count + 1, limit);
    }
}

/// The tweets taken from a page are tweets of the page, carry ids not seen
/// before, and no id twice; a list below the limit is not taken past it.
pub proof fn lemma_extend_unique_tweets(seen: Set<Seq<char>>, ids: Seq<Seq<char>>, count: int, limit: int)
    ensures
        count < limit ==> picked_positions(seen, ids, 0, count, limit).len() <= limit - count,
        forall|a: int|
            0 <= a < picked_positions(seen, ids, 0, count, limit).len() ==> 0
                <= #[trigger] picked_positions(seen, ids, 0, count, limit)[a] < ids.len(),
        forall|a: int|
            0 <= a < picked_positions(seen, ids, 0, count, limit).len() ==> !seen.contains(
                #[trigger] ids[picked_positions(seen, ids, 0, count, limit)[a]],
            ),
        forall|a: int, b: int|
            0 <= a < b < picked_positions(seen, ids, 0, count, limit).len() ==> #[trigger] ids[picked_positions(
                seen,
                ids,
                0,
                count,
                limit,
            )[a]] != #[trigger] ids[picked_positions(seen, ids, 0, count, limit)[b]],
{
    lemma_picked_fresh(seen, ids, 0, count, limit);
    if count < limit {
        lemma_picked_len(seen, ids, 0, count, limit);
    }
}

fn contains_text_item(seen: &Vec<String>, id: &String) -> (found: bool)
    ensures
        found == text_set(seen@).contains(id@),
{
    let ghost view = seen@.map_values(|s: String| s@);
    for i in 0..seen.len()
        invariant
            view == seen@.map_values(|s: String| s@),
            forall|k: int| 0 <= k < i ==> view[k] != id@,
    {
        if string_eq_str(&seen[i], id.as_str()) {
            assert(view[i as int] == id@);
            assert(view.contains(id@));
            return true;
        }
    }
    assert(!view.contains(id@));
    false
}

/// Append the page's tweets whose id has not been seen, each id once,
/// stopping once `limit` tweets are held; `seen` gains the ids taken.
/// Each tweet is given with its id.
pub fn extend_unique_tweets<T>(
    tweets: &mut Vec<(String, T)>,
    seen: &mut Vec<String>,
    page_tweets: Vec<(String, T)>,
    limit: usize,
)
    ensures
        ({
            let ids = page_tweets@.map_values(|t: (String, T)| t.0@);
            let picked = picked_positions(
                text_set(old(seen)@),
                ids,
                0,
                old(tweets)@.len() as int,
                limit as int,
            );
            &&& final(tweets)@ == old(tweets)@ + picked.map_values(|i: int| page_tweets@[i])
            &&& text_set(final(seen)@) == text_set(old(seen)@).union(
                picked.map_values(|i: int| ids[i]).to_set(),
            )
        }),
{
    let ghost ids = page_tweets@.map_values(|t: (String, T)| t.0@);
    let ghost seen0 = text_set(seen@);
    let ghost tweets0 = tweets@;
    let ghost page = page_tweets@;
    let ghost all = picked_positions(seen0, ids, 0, tweets0.len() as int, limit as int);
    let mut rest = page_tweets;
    let ghost mut done: Seq<int> = seq![];
    let ghost mut i: int = 0;
    assert(page.skip(0) =~= page);
    assert(done.map_values(|k: int| page[k]) =~= Seq::<(String, T)>::empty());
    assert(done.map_values(|k: int| ids[k]).to_set() =~= Set::<Seq<char>>::empty());
    while rest.len() > 0
        invariant_except_break
            0 <= i <= page.len(),
            rest@ == page.skip(i),
            ids == page.map_values(|t: (String, T)| t.0@),
            tweets@ == tweets0 + done.map_values(|k: int| page[k]),
            text_set(seen@) == seen0.union(done.map_values(|k: int| ids[k]).to_set()),
            all == done + picked_positions(text_set(seen@), ids, i, tweets@.len() as int, limit as int),
        ensures
            tweets@ == tweets0 + all.map_values(|k: int| page[k]),
            text_set(seen@) == seen0.union(all.map_values(|k: int| ids[k]).to_set()),
        decreases rest.len(),
    {
        let ghost before_seen = text_set(seen@);
        let ghost before_done = done;
        assert(rest@[0] == page[i]);
        assert(ids[i] == page[i].0@);
        let (id, tweet) = rest.remove(0);
        assert(rest@ =~= page.skip(i + 1));
        if !contains_text_item(seen, &id) {
            let ghost sv = seen@.map_values(|s: String| s@);
            seen.push(id.clone());
            proof {
                assert(seen@.map_values(|s: String| s@) =~= sv.push(id@));
                sv.lemma_push_to_set_commute(id@);
            }
            tweets.push((id, tweet));
            proof {
                done = done.push(i);
                assert(done.map_values(|k: int| page[k]) =~= before_done.map_values(|k: int| page[k]).push(page[i]));
                assert(done.map_values(|k: int| ids[k]) =~= before_done.map_values(|k: int| ids[k]).push(ids[i]));
                before_done.map_values(|k: int| ids[k]).lemma_push_to_set_commute(ids[i]);
                assert(text_set(seen@) =~= before_seen.insert(id@));
            }
            if tweets.len() >= limit {
                proof {
                    assert(all == before_done + seq![i]);
                    assert(all =~= done);
                }
                break;
            }
        }
        proof {
            i = i + 1;
        }
    }
}

/// Compact Twitter/X user information reused by tweet payloads.
#[derive(Debug, PartialEq)]
pub struct TwitterUserSummary {
    /// Stable numeric user id.
    pub id: String,
    /// Public screen name without the leading `@`.
    pub screen_name: String,
    /// Display name shown in the X UI.
    pub name: String,
    /// Preferred avatar URL when present.
    pub avatar_url: Option<String>,
    /// Whether the account is currently blue or business verified.
    pub verified: bool,
    /// Wrapper-stripped copy of the upstream user payload.
    pub upstream_payload: KuaishouJsonValue,
}

/// Public Twitter/X user profile payload.
#[derive(Debug, PartialEq)]
pub struct TwitterUserProfile {
    /// Stable numeric user id.
    pub id: String,
    /// Public screen name without the leading `@`.
    pub screen_name: String,
    /// Display name shown in the X UI.
    pub name: String,
    /// Account creation time as an RFC3339 or upstream timestamp string.
    pub created_at: Option<String>,
    /// Public bio text.
    pub description: Option<String>,
    /// Free-form profile location.
    pub location: Option<String>,
    /// Preferred avatar URL when present.
    pub avatar_url: Option<String>,
    /// Profile banner URL when present.
    pub banner_url: Option<String>,
    /// Whether the account is currently blue or business verified.
    pub verified: bool,
    /// Whether the account is protected.
    pub protected: bool,
    /// Number of followers.
    pub followers_count: u64,
    /// Number of followed accounts.
    pub following_count: u64,
    /// Number of published tweets.
    pub statuses_count: u64,
    /// Number of published media tweets.
    pub media_count: u64,
    /// Number of liked tweets.
    pub favourites_count: u64,
    /// Optional pinned tweet id.
    pub pinned_tweet_id: Option<String>,
    /// Wrapper-stripped copy of the upstream user payload.
    pub upstream_payload: KuaishouJsonValue,
}

/// Public Twitter/X tweet payload.
#[derive(Debug, PartialEq)]
pub struct TwitterTweet {
    /// Stable tweet id.
    pub id: String,
    /// Root conversation id for the tweet.
    pub conversation_id: Option<String>,
    /// Author summary for the tweet.
    pub author: TwitterUserSummary,
    /// Canonical tweet URL.
    pub url: String,
    /// Creation time as an RFC3339 or upstream timestamp string.
    pub created_at: Option<String>,
    /// Full text with note-tweet fallback applied.
    pub full_text: String,
    /// Language code reported by X.
    pub language: Option<String>,
    /// Raw source HTML fragment reported by X.
    pub source: Option<String>,
    /// Reply target tweet id when the tweet is a reply.
    pub reply_to_tweet_id: Option<String>,
    /// Quoted tweet when the response embeds it.
    pub quoted_tweet: Option<Box<TwitterTweet>>,
    /// Retweeted tweet when the response embeds it.
    pub retweeted_tweet: Option<Box<TwitterTweet>>,
    /// Wrapper-stripped copy of the upstream tweet payload.
    pub upstream_payload: KuaishouJsonValue,
    /// Text entities extracted from note-tweet or legacy tweet payloads.
    pub entities: TwitterTweetEntities,
    /// Attached media entities.
    pub media: Vec<TwitterMediaEntity>,
    /// Reply count.
    pub reply_count: u64,
    /// Retweet count.
    pub retweet_count: u64,
    /// Quote count.
    pub quote_count: u64,
    /// Like count.
    pub favorite_count: u64,
    /// Bookmark count when present.
    pub bookmark_count: Option<u64>,
    /// View count when present.
    pub view_count: Option<u64>,
}

/// One paginated Twitter/X tweet collection.
#[derive(Debug, PartialEq)]
pub struct TwitterTweetPage {
    /// Tweets returned in upstream order.
    pub tweets: Vec<TwitterTweet>,
    /// Cursor that can be used to request newer items.
    pub previous_cursor: Option<String>,
    /// Cursor that can be used to request older items.
    pub next_cursor: Option<String>,
    /// Wrapper-stripped copy of the upstream page payload.
    pub upstream_payload: KuaishouJsonValue,
}

/// Public Twitter/X user timeline payload.
#[derive(Debug, PartialEq)]
pub struct TwitterUserTimeline {
    /// Profile information resolved for the requested user.
    pub user: TwitterUserProfile,
    /// Timeline tweets in upstream order.
    pub tweets: Vec<TwitterTweet>,
    /// Cursor that can be used to request newer items.
    pub previous_cursor: Option<String>,
    /// Cursor that can be used to request older items.
    pub next_cursor: Option<String>,
    /// Wrapper-stripped copy of the upstream page payload.
    pub upstream_payload: KuaishouJsonValue,
}

/// One page of tweet-search results from Twitter/X.
#[derive(Debug, PartialEq)]
pub struct TwitterTweetSearchPage {
    /// Search query that produced the current result page.
    pub query: String,
    /// Search mode used for the current page.
    pub search_type: TwitterTweetSearchMode,
    /// Tweets returned in upstream order.
    pub tweets: Vec<TwitterTweet>,
    /// Cursor that can be used to request newer items.
    pub previous_cursor: Option<String>,
    /// Cursor that can be used to request older items.
    pub next_cursor: Option<String>,
    /// Wrapper-stripped copy of the upstream page payload.
    pub upstream_payload: KuaishouJsonValue,
}

/// One paginated Twitter/X user collection.
#[derive(Debug, PartialEq)]
pub struct TwitterUserPage {
    /// Users returned by the current page.
    pub users: Vec<TwitterUserProfile>,
    /// Cursor that can be used to request newer items.
    pub previous_cursor: Option<String>,
    /// Cursor that can be used to request older items.
    pub next_cursor: Option<String>,
    /// Wrapper-stripped copy of the upstream page payload.
    pub upstream_payload: KuaishouJsonValue,
}

/// One paginated Twitter/X user collection bound to a target profile.
#[derive(Debug, PartialEq)]
pub struct TwitterUserListPage {
    /// Profile information resolved for the requested user.
    pub user: TwitterUserProfile,
    /// Users returned by the current page.
    pub users: Vec<TwitterUserProfile>,
    /// Cursor that can be used to request newer items.
    pub previous_cursor: Option<String>,
    /// Cursor that can be used to request older items.
    pub next_cursor: Option<String>,
    /// Wrapper-stripped copy of the upstream page payload.
    pub upstream_payload: KuaishouJsonValue,
}

/// Normalized Twitter/X Space detail.
#[derive(Debug, PartialEq)]
pub struct TwitterSpaceDetail {
    /// Space id.
    pub id: String,
    /// Space title.
    pub title: Option<String>,
    /// Space state.
    pub state: Option<String>,
    /// The host, when known.
    pub host: Option<TwitterUserSummary>,
    /// Creation time.
    pub created_at: Option<String>,
    /// Start time.
    pub started_at: Option<String>,
    /// End time.
    pub ended_at: Option<String>,
    /// Scheduled start time.
    pub scheduled_start: Option<String>,
    /// Whether a replay is available.
    pub replay_enabled: bool,
    /// Number of live listeners.
    pub total_live_listeners: Option<u64>,
    /// Number of participants.
    pub participant_count: Option<u64>,
    /// Media key.
    pub media_key: Option<String>,
    /// Wrapper-stripped copy of the upstream space payload.
    pub upstream_payload: KuaishouJsonValue,
}

} // verus!
