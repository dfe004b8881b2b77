//! What the X fetcher does between requests: the search page referer, the
//! user or tweet a response names, and the paging of a media timeline.

use vstd::prelude::*;

use crate::error::{upstream_error, AppError};
use crate::kuaishou::json::{json_path, KuaishouJsonValue};
use crate::pairs::text_pair;
use crate::text::{option_str_view, trim_end_char, trim_end_matches_char};
use crate::twitter::api::TwitterTweetSearchMode;
use crate::twitter::parse::{
    parse_tweet, parse_user_profile, profile_error, profile_parsed_from, tweet_error,
    tweet_parsed_from,
};
use crate::twitter::transport::opt_text;
use crate::twitter::types::{
    extend_unique_tweets, picked_positions, text_set, TwitterTweet, TwitterTweetPage,
    TwitterUserProfile, TwitterUserTimeline,
};
use crate::twitter::values::{
    collapse_upstream_pages, path3, unwrap_tweet_result, unwrap_user_result, tweet_result_of,
    user_result_of,
};
use crate::weburl::{extend_url_query, parse_url, url_extend_query, url_parse};
use vstd::seq_lib::seq_to_set_distributes_over_add;

verus! {

/// The query pairs of a search page: the query, `typed_query` as source,
/// and `f=live` for the latest tweets.
pub open spec fn search_referer_pairs(query: Seq<char>, search_type: TwitterTweetSearchMode) -> Seq<
    (Seq<char>, Seq<char>),
> {
    let pairs = seq![("q"@, query), ("src"@, "typed_query"@)];
    match search_type {
        TwitterTweetSearchMode::Latest => pairs.push(("f"@, "live"@)),
        TwitterTweetSearchMode::Top => pairs,
    }
}

/// The search page a tweet search is made from, used as referer:
/// `{web_base_url without trailing /}/search` with the search pairs.
pub open spec fn search_referer_url(
    web_base_url: Seq<char>,
    query: Seq<char>,
    search_type: TwitterTweetSearchMode,
) -> Result<Seq<char>, Seq<char>> {
    search_page_url(
        web_base_url,
        search_referer_pairs(query, search_type),
        "invalid twitter search referer base url: "@,
    )
}

/// The search page with the given query pairs, or the parse failure
/// behind `error_prefix`.
pub open spec fn search_page_url(
    web_base_url: Seq<char>,
    pairs: Seq<(Seq<char>, Seq<char>)>,
    error_prefix: Seq<char>,
) -> Result<Seq<char>, Seq<char>> {
    match url_parse(trim_end_char(web_base_url, '/') + "/search"@) {
        Err(e) => Err(error_prefix + e),
        Ok(parts) => Ok(url_extend_query(parts.0, pairs)),
    }
}

fn search_page(web_base_url: &str, pairs: &Vec<(String, String)>, error_prefix: &str) -> (res: Result<
    String,
    AppError,
>)
    ensures
        match search_page_url(web_base_url@, pairs.deep_view(), error_prefix@) {
            Ok(u) => res matches Ok(s) && s@ == u,
            Err(m) => res matches Err(e) && e.config_message() == Some(m),
        },
{
    let mut text = trim_end_matches_char(web_base_url, '/');
    text.append("/search");
    match parse_url(text.as_str()) {
        Ok(parsed) => Ok(extend_url_query(parsed.href.as_str(), pairs)),
        Err(e) => {
            let mut message = error_prefix.to_owned();
            message.append(e.as_str());
            Err(AppError::InvalidRequestConfig(message))
        },
    }
}

/// The search page a tweet search is made from (see `search_referer_url`).
pub fn search_referer(
    web_base_url: &str,
    query: &str,
    search_type: TwitterTweetSearchMode,
) -> (res: Result<String, AppError>)
    ensures
        match search_referer_url(web_base_url@, query@, search_type) {
            Ok(u) => res matches Ok(s) && s@ == u,
            Err(m) => res matches Err(e) && e.config_message() == Some(m),
        },
{
    let mut pairs = vec![text_pair("q", query), text_pair("src", "typed_query")];
    match search_type {
        TwitterTweetSearchMode::Latest => pairs.push(text_pair("f", "live")),
        TwitterTweetSearchMode::Top => {},
    }
    assert(pairs.deep_view() =~= search_referer_pairs(query@, search_type));
    search_page(web_base_url, &pairs, "invalid twitter search referer base url: ")
}

/// The search page a user search is made from, used as referer:
/// `{web_base_url without trailing /}/search` with the query and
/// `typed_query` as source.
pub open spec fn user_search_referer_url(web_base_url: Seq<char>, query: Seq<char>) -> Result<
    Seq<char>,
    Seq<char>,
> {
    search_page_url(
        web_base_url,
        seq![("q"@, query), ("src"@, "typed_query"@)],
        "invalid twitter user search referer base url: "@,
    )
}

/// The search page a user search is made from (see
/// `user_search_referer_url`).
pub fn user_search_referer(web_base_url: &str, query: &str) -> (res: Result<String, AppError>)
    ensures
        match user_search_referer_url(web_base_url@, query@) {
            Ok(u) => res matches Ok(s) && s@ == u,
            Err(m) => res matches Err(e) && e.config_message() == Some(m),
        },
{
    let pairs = vec![text_pair("q", query), text_pair("src", "typed_query")];
    assert(pairs.deep_view() =~= seq![("q"@, query@), ("src"@, "typed_query"@)]);
    search_page(web_base_url, &pairs, "invalid twitter user search referer base url: ")
}

/// The user a profile response names (`data.user.result`, looking through
/// wrappers).
pub open spec fn response_user(value: KuaishouJsonValue) -> Option<KuaishouJsonValue> {
    match json_path(value, seq!["data"@, "user"@, "result"@]) {
        Some(x) => user_result_of(x),
        None => None,
    }
}

fn read_response_user(value: &KuaishouJsonValue, missing: String) -> (res: Result<TwitterUserProfile, AppError>)
    ensures
        match response_user(*value) {
            None => res matches Err(e) && e.upstream_message() == Some(missing@),
            Some(u) => match profile_error(u) {
                Some(m) => res matches Err(e) && e.upstream_message() == Some(m),
                None => res matches Ok(p) && profile_parsed_from(p, u),
            },
        },
{
    let user = match crate::kuaishou::json::json_at_path(value, &path3("data", "user", "result")) {
        Some(x) => unwrap_user_result(x),
        None => None,
    };
    match user {
        Some(u) => parse_user_profile(u),
        None => Err(upstream_error(missing)),
    }
}

/// The profile a user-by-screen-name response names.
pub fn parse_profile_response(value: &KuaishouJsonValue, screen_name: &str) -> (res: Result<
    TwitterUserProfile,
    AppError,
>)
    ensures
        match response_user(*value) {
            None => res matches Err(e) && e.upstream_message() == Some(
                "twitter user `"@ + screen_name@ + "` was not found"@,
            ),
            Some(u) => match profile_error(u) {
                Some(m) => res matches Err(e) && e.upstream_message() == Some(m),
                None => res matches Ok(p) && profile_parsed_from(p, u),
            },
        },
{
    let mut missing = "twitter user `".to_owned();
    missing.append(screen_name);
    missing.append("` was not found");
    read_response_user(value, missing)
}

/// The profile a user-by-id response names.
pub fn parse_profile_by_id_response(value: &KuaishouJsonValue, user_id: &str) -> (res: Result<
    TwitterUserProfile,
    AppError,
>)
    ensures
        match response_user(*value) {
            None => res matches Err(e) && e.upstream_message() == Some(
                "twitter user id `"@ + user_id@ + "` was not found"@,
            ),
            Some(u) => match profile_error(u) {
                Some(m) => res matches Err(e) && e.upstream_message() == Some(m),
                None => res matches Ok(p) && profile_parsed_from(p, u),
            },
        },
{
    let mut missing = "twitter user id `".to_owned();
    missing.append(user_id);
    missing.append("` was not found");
    read_response_user(value, missing)
}

/// The tweet a tweet-detail response names (`data.tweetResult.result`,
/// looking through wrappers).
pub open spec fn response_tweet(value: KuaishouJsonValue) -> Option<KuaishouJsonValue> {
    match json_path(value, seq!["data"@, "tweetResult"@, "result"@]) {
        Some(x) => tweet_result_of(x),
        None => None,
    }
}

/// The tweet a tweet-detail response names.
pub fn parse_tweet_detail_response(
    value: &KuaishouJsonValue,
    tweet_id: &str,
    web_base_url: &str,
) -> (res: Result<TwitterTweet, AppError>)
    ensures
        match response_tweet(*value) {
            None => res matches Err(e) && e.upstream_message() == Some(
                "twitter tweet `"@ + tweet_id@ + "` was not found"@,
            ),
            Some(t) => match tweet_error(t) {
                Some(m) => res matches Err(e) && e.upstream_message() == Some(m),
                None => res matches Ok(tweet) && tweet_parsed_from(tweet, t, web_base_url@),
            },
        },
{
    let tweet = match crate::kuaishou::json::json_at_path(value, &path3("data", "tweetResult", "result")) {
        Some(x) => unwrap_tweet_result(x),
        None => None,
    };
    match tweet {
        Some(t) => parse_tweet(t, web_base_url),
        None => {
            let mut message = "twitter tweet `".to_owned();
            message.append(tweet_id);
            message.append("` was not found");
            Err(upstream_error(message))
        },
    }
}

/// Where a media timeline stands between its pages.
pub struct MediaTimelineState {
    /// The tweets taken so far, each with its id.
    pub tweets: Vec<(String, TwitterTweet)>,
    /// The ids taken so far.
    pub seen: Vec<String>,
    /// The first previous cursor a page gave.
    pub previous_cursor: Option<String>,
    /// The cursor of the page to request next.
    pub request_cursor: Option<String>,
    /// The payloads of the pages taken in.
    pub upstream_pages: Vec<KuaishouJsonValue>,
    /// How many tweets are wanted.
    pub limit: usize,
}

/// What to do after a page of a media timeline.
pub enum MediaTimelineAction {
    /// Request the page at the state's request cursor.
    FetchPage,
    /// Stop; the timeline's next cursor is given.
    Finish(Option<String>),
}

/// The ids the tweets of a state are held with.
pub open spec fn held_ids(tweets: Seq<(String, TwitterTweet)>) -> Seq<Seq<char>> {
    tweets.map_values(|t: (String, TwitterTweet)| t.0@)
}

/// Tweets held with their own ids, no id twice, and the seen ids exactly
/// those of the tweets held.
pub open spec fn held_wf(tweets: Seq<(String, TwitterTweet)>, seen: Seq<String>) -> bool {
    &&& forall|i: int| 0 <= i < tweets.len() ==> #[trigger] tweets[i].0@ == tweets[i].1.id@
    &&& forall|i: int, j: int|
        0 <= i < j < tweets.len() ==> #[trigger] tweets[i].0@ != #[trigger] tweets[j].0@
    &&& text_set(seen) == held_ids(tweets).to_set()
}

/// A media timeline state holds each tweet once, with its own id, and has
/// seen exactly the ids it holds.
pub open spec fn media_state_wf(state: MediaTimelineState) -> bool {
    held_wf(state.tweets@, state.seen@)
}

/// Taking the unseen tweets of a page into a well-formed state keeps it
/// well-formed.
proof fn lemma_taking_keeps_wf(
    old_tweets: Seq<(String, TwitterTweet)>,
    old_seen: Seq<String>,
    new_tweets: Seq<(String, TwitterTweet)>,
    new_seen: Seq<String>,
    pairs: Seq<(String, TwitterTweet)>,
    limit: int,
)
    requires
        held_wf(old_tweets, old_seen),
        forall|k: int| 0 <= k < pairs.len() ==> #[trigger] pairs[k].0@ == pairs[k].1.id@,
        ({
            let ids = pairs.map_values(|t: (String, TwitterTweet)| t.0@);
            let picked = picked_positions(text_set(old_seen), ids, 0, old_tweets.len() as int, limit);
            &&& new_tweets == old_tweets + picked.map_values(|i: int| pairs[i])
            &&& text_set(new_seen) == text_set(old_seen).union(
                picked.map_values(|i: int| ids[i]).to_set(),
            )
        }),
    ensures
        held_wf(new_tweets, new_seen),
{
    let ids = pairs.map_values(|t: (String, TwitterTweet)| t.0@);
    let picked = picked_positions(text_set(old_seen), ids, 0, old_tweets.len() as int, limit);
    crate::twitter::types::lemma_extend_unique_tweets(text_set(old_seen), ids, old_tweets.len() as int, limit);
    let n = old_tweets.len() as int;
    assert forall|i: int| 0 <= i < new_tweets.len() implies #[trigger] new_tweets[i].0@
        == new_tweets[i].1.id@ by {
        if i >= n {
            assert(new_tweets[i] == pairs[picked[i - n]]);
        } else {
            assert(new_tweets[i] == old_tweets[i]);
        }
    }
    assert forall|i: int, j: int| 0 <= i < j < new_tweets.len() implies #[trigger] new_tweets[i].0@
        != #[trigger] new_tweets[j].0@ by {
        if j >= n {
            assert(new_tweets[j] == pairs[picked[j - n]]);
            assert(ids[picked[j - n]] == pairs[picked[j - n]].0@);
            if i < n {
                assert(new_tweets[i] == old_tweets[i]);
                assert(held_ids(old_tweets)[i] == old_tweets[i].0@);
                assert(held_ids(old_tweets).to_set().contains(old_tweets[i].0@));
            } else {
                assert(new_tweets[i] == pairs[picked[i - n]]);
                assert(ids[picked[i - n]] == pairs[picked[i - n]].0@);
            }
        } else {
            assert(new_tweets[i] == old_tweets[i]);
            assert(new_tweets[j] == old_tweets[j]);
        }
    }
    let taken = picked.map_values(|i: int| ids[i]);
    assert(held_ids(new_tweets) =~= held_ids(old_tweets) + taken) by {
        assert forall|i: int| 0 <= i < new_tweets.len() implies #[trigger] held_ids(new_tweets)[i]
            == (held_ids(old_tweets) + taken)[i] by {
            if i >= n {
                assert(new_tweets[i] == pairs[picked[i - n]]);
            } else {
                assert(new_tweets[i] == old_tweets[i]);
            }
        }
    }
    seq_to_set_distributes_over_add(held_ids(old_tweets), taken);
}

/// The state before the first page: nothing taken, the given cursor to
/// request.
pub fn start_media_timeline(cursor: Option<&str>, limit: usize) -> (state: MediaTimelineState)
    ensures
        state.tweets@.len() == 0,
        state.seen@.len() == 0,
        state.previous_cursor is None,
        opt_text(state.request_cursor) == option_str_view(cursor),
        state.upstream_pages@.len() == 0,
        state.limit == limit,
        media_state_wf(state),
{
    let state = MediaTimelineState {
        tweets: Vec::new(),
        seen: Vec::new(),
        previous_cursor: None,
        request_cursor: match cursor {
            Some(c) => Some(c.to_owned()),
            None => None,
        },
        upstream_pages: Vec::new(),
        limit,
    };
    assert(text_set(state.seen@) =~= held_ids(state.tweets@).to_set());
    state
}

/// The ids of a page's tweets.
pub open spec fn page_ids(tweets: Seq<TwitterTweet>) -> Seq<Seq<char>> {
    tweets.map_values(|t: TwitterTweet| t.id@)
}

/// What follows a page: enough tweets, or no next cursor, or a next cursor
/// equal to the one just requested, ends the timeline with the page's next
/// cursor; else the next cursor is requested.
pub open spec fn media_next(
    taken: int,
    limit: int,
    requested: Option<Seq<char>>,
    page_next: Option<Seq<char>>,
) -> Option<Option<Seq<char>>> {
    if taken >= limit {
        Some(page_next)
    } else {
        match page_next {
            None => Some(None),
            Some(c) => if requested == Some(c) {
                Some(page_next)
            } else {
                None
            },
        }
    }
}

/// Take in a page of a media timeline: keep its unseen tweets up to the
/// limit, keep the first previous cursor given, keep the page's payload,
/// and decide what comes next.
pub fn media_timeline_step(state: &mut MediaTimelineState, page: TwitterTweetPage) -> (action:
    MediaTimelineAction)
    ensures
        ({
            let ids = page_ids(page.tweets@);
            let picked = picked_positions(
                text_set(old(state).seen@),
                ids,
                0,
                old(state).tweets@.len() as int,
                old(state).limit as int,
            );
            &&& final(state).tweets@.map_values(|t: (String, TwitterTweet)| t.1) == old(
                state,
            ).tweets@.map_values(|t: (String, TwitterTweet)| t.1) + picked.map_values(
                |i: int| page.tweets@[i],
            )
            &&& text_set(final(state).seen@) == text_set(old(state).seen@).union(
                picked.map_values(|i: int| ids[i]).to_set(),
            )
            &&& final(state).upstream_pages@ == old(state).upstream_pages@.push(page.upstream_payload)
            &&& opt_text(final(state).previous_cursor) == (if old(state).previous_cursor is Some {
                opt_text(old(state).previous_cursor)
            } else {
                opt_text(page.previous_cursor)
            })
            &&& final(state).limit == old(state).limit
            &&& media_state_wf(*old(state)) ==> media_state_wf(*final(state))
            &&& old(state).tweets@.len() < old(state).limit ==> final(state).tweets@.len()
                <= old(state).limit
            &&& match media_next(
                final(state).tweets@.len() as int,
                old(state).limit as int,
                opt_text(old(state).request_cursor),
                opt_text(page.next_cursor),
            ) {
                Some(next) => action matches MediaTimelineAction::Finish(n) && opt_text(n) == next,
                None => action is FetchPage && opt_text(final(state).request_cursor) == opt_text(
                    page.next_cursor,
                ),
            }
        }),
{
    let TwitterTweetPage { tweets, previous_cursor, next_cursor, upstream_payload } = page;
    state.upstream_pages.push(upstream_payload);
    if state.previous_cursor.is_none() {
        state.previous_cursor = previous_cursor;
    }
    let mut pairs: Vec<(String, TwitterTweet)> = Vec::new();
    let ghost page_tweets = tweets@;
    let mut rest = tweets;
    let ghost mut done: int = 0;
    while rest.len() > 0
        invariant
            0 <= done <= page_tweets.len(),
            rest@ == page_tweets.skip(done),
            pairs@.len() == done,
            forall|k: int| 0 <= k < done ==> #[trigger] pairs@[k].1 == page_tweets[k] && pairs@[k].0@
                == page_tweets[k].id@,
        decreases rest@.len(),
    {
        let tweet = rest.remove(0);
        let id = tweet.id.clone();
        pairs.push((id, tweet));
        proof {
            assert(page_tweets.skip(done)[0] == page_tweets[done]);
            assert(page_tweets.skip(done).drop_first() =~= page_tweets.skip(done + 1));
            done = done + 1;
        }
    }
    assert(done == page_tweets.len());
    let ghost pair_ids = pairs@.map_values(|t: (String, TwitterTweet)| t.0@);
    assert(pair_ids =~= page_ids(page_tweets)) by {
        assert forall|k: int| 0 <= k < page_tweets.len() implies #[trigger] pair_ids[k]
            == page_ids(page_tweets)[k] by {
            assert(pairs@[k].1 == page_tweets[k]);
        }
    }
    let ghost old_tweets = state.tweets@;
    let ghost old_seen = state.seen@;
    let ghost picked = picked_positions(text_set(old_seen), pair_ids, 0, old_tweets.len() as int, state.limit as int);
    let limit = state.limit;
    let ghost pairs_view = pairs@;
    extend_unique_tweets(&mut state.tweets, &mut state.seen, pairs, limit);
    assert(state.tweets@.map_values(|t: (String, TwitterTweet)| t.1) =~= old_tweets.map_values(
        |t: (String, TwitterTweet)| t.1,
    ) + picked.map_values(|i: int| page_tweets[i])) by {
        assert(state.tweets@ == old_tweets + picked.map_values(|i: int| pairs_view[i]));
        crate::twitter::types::lemma_extend_unique_tweets(text_set(old_seen), pair_ids, old_tweets.len() as int, limit as int);
    }
    proof {
        crate::twitter::types::lemma_extend_unique_tweets(text_set(old_seen), pair_ids, old_tweets.len() as int, limit as int);
        if held_wf(old_tweets, old_seen) {
            assert forall|k: int| 0 <= k < pairs_view.len() implies #[trigger] pairs_view[k].0@
                == pairs_view[k].1.id@ by {
                assert(pairs_view[k].1 == page_tweets[k]);
            }
            lemma_taking_keeps_wf(old_tweets, old_seen, state.tweets@, state.seen@, pairs_view, limit as int);
        }
    }
    if state.tweets.len() >= state.limit {
        return MediaTimelineAction::Finish(next_cursor);
    }
    let cursor = match &next_cursor {
        Some(c) => c.clone(),
        None => return MediaTimelineAction::Finish(None),
    };
    let same = match &state.request_cursor {
        Some(r) => crate::text::string_eq_str(r, cursor.as_str()),
        None => false,
    };
    if same {
        return MediaTimelineAction::Finish(next_cursor);
    }
    state.request_cursor = Some(cursor);
    MediaTimelineAction::FetchPage
}

/// The media timeline once it ends: the user, the tweets taken, the first
/// previous cursor given, the next cursor given, and the pages' payloads (`null`
/// for none, the page for one, else their array).
pub fn finish_media_timeline(
    user: TwitterUserProfile,
    state: MediaTimelineState,
    next_cursor: Option<String>,
) -> (timeline: TwitterUserTimeline)
    ensures
        timeline.user == user,
        timeline.tweets@ == state.tweets@.map_values(|t: (String, TwitterTweet)| t.1),
        timeline.previous_cursor == state.previous_cursor,
        timeline.next_cursor == next_cursor,
        state.upstream_pages@.len() == 0 ==> timeline.upstream_payload == KuaishouJsonValue::Null,
        state.upstream_pages@.len() == 1 ==> timeline.upstream_payload == state.upstream_pages@[0],
        state.upstream_pages@.len() > 1 ==> timeline.upstream_payload == KuaishouJsonValue::Array(
            state.upstream_pages,
        ),
{
    let MediaTimelineState { tweets, seen, previous_cursor, request_cursor, upstream_pages, limit } = state;
    let ghost all = tweets@;
    let mut out: Vec<TwitterTweet> = Vec::new();
    let mut rest = tweets;
    let ghost mut done: int = 0;
    while rest.len() > 0
        invariant
            0 <= done <= all.len(),
            rest@ == all.skip(done),
            out@ == all.take(done).map_values(|t: (String, TwitterTweet)| t.1),
        decreases rest@.len(),
    {
        let (_, tweet) = rest.remove(0);
        out.push(tweet);
        proof {
            assert(all.skip(done)[0] == all[done]);
            assert(all.skip(done).drop_first() =~= all.skip(done + 1));
            assert(all.take(done + 1).map_values(|t: (String, TwitterTweet)| t.1) =~= all.take(
                done,
            ).map_values(|t: (String, TwitterTweet)| t.1).push(all[done].1));
            done = done + 1;
        }
    }
    assert(all.take(done) =~= all);
    TwitterUserTimeline {
        user,
        tweets: out,
        previous_cursor,
        next_cursor,
        upstream_payload: collapse_upstream_pages(upstream_pages),
    }
}

} // verus!
