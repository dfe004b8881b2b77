//! The X GraphQL request URLs: operation, variables, features and field
//! toggles, the variables and features written as compact JSON.

use vstd::prelude::*;

use crate::error::AppError;
use crate::kuaishou::json::{KuaishouJsonObject, KuaishouJsonValue};
use crate::kuaishou::live_info::{bool_member, number_member, record, text_member};
use crate::kuaishou::value::copy_json;
use crate::text::{decimal, lower_hex_char, option_str_view, push_char, u64_to_decimal};
use crate::twitter::api::{normalize_user_media_count, spec_user_media_count, TwitterApiUrls};
use crate::twitter::values::{
    json_tree, json_trees, lemma_items_height, lemma_member_trees, lemma_members_height,
    member_trees, value_height, JsonTree,
};
use crate::weburl::{extend_url_query, parse_url, url_extend_query, url_parse};

verus! {

/// How `serde_json` writes one character inside a string literal: `"` and
/// `\\` behind a backslash, the five control characters that have a short
/// escape by it, every other control character below U+0020 as `\\u00`
/// and two lowercase hexadecimal digits, anything else as itself.
pub open spec fn json_escaped_char(c: char) -> Seq<char> {
    if c == '"' {
        seq!['\\', '"']
    } else if c == '\\' {
        seq!['\\', '\\']
    } else if c == '\u{8}' {
        seq!['\\', 'b']
    } else if c == '\t' {
        seq!['\\', 't']
    } else if c == '\n' {
        seq!['\\', 'n']
    } else if c == '\u{c}' {
        seq!['\\', 'f']
    } else if c == '\r' {
        seq!['\\', 'r']
    } else if (c as u32) < 32 {
        seq!['\\', 'u', '0', '0', lower_hex_char((c as u32 / 16) as u8), lower_hex_char((c as u32 % 16) as u8)]
    } else {
        seq![c]
    }
}

/// The characters of a text, each written as `json_escaped_char` writes it.
pub open spec fn json_escaped_text(text: Seq<char>) -> Seq<char>
    decreases text.len(),
{
    if text.len() == 0 {
        seq![]
    } else {
        json_escaped_text(text.drop_last()) + json_escaped_char(text.last())
    }
}

/// What `serde_json` writes for a string: the escaped text between double
/// quotes.
pub open spec fn json_string_text(text: Seq<char>) -> Seq<char> {
    seq!['"'] + json_escaped_text(text) + seq!['"']
}

/// `serde_json::to_string` of a string slice: the JSON string literal that
/// `json_string_text` describes (the compact formatter's escape table).
/// Writing a string into memory cannot fail, so the empty fallback is never
/// taken.
#[verifier::external_body]
fn json_string_literal(text: &str) -> (literal: String)
    ensures
        literal@ == json_string_text(text@),
{
    serde_json::to_string(text).unwrap_or_default()
}

/// The compact JSON text of a value, as `serde_json` writes it: no
/// whitespace, members in order.
pub open spec fn graphql_text(t: JsonTree) -> Seq<char>
    decreases t,
{
    match t {
        JsonTree::Null => seq!['n', 'u', 'l', 'l'],
        JsonTree::Bool(b) => if b {
            seq!['t', 'r', 'u', 'e']
        } else {
            seq!['f', 'a', 'l', 's', 'e']
        },
        JsonTree::Number(n) => n,
        JsonTree::Text(s) => json_string_text(s),
        JsonTree::List(items) => seq!['['] + graphql_items_text(items) + seq![']'],
        JsonTree::Record(members) => seq!['{'] + graphql_members_text(members) + seq!['}'],
    }
}

/// The comma-separated texts of array items.
pub open spec fn graphql_items_text(items: Seq<JsonTree>) -> Seq<char>
    decreases items,
{
    if items.len() == 0 {
        seq![]
    } else if items.len() == 1 {
        graphql_text(items[0])
    } else {
        graphql_items_text(items.drop_last()) + seq![','] + graphql_text(items.last())
    }
}

/// The comma-separated `"name":value` texts of object members.
pub open spec fn graphql_members_text(members: Seq<(Seq<char>, JsonTree)>) -> Seq<char>
    decreases members,
{
    if members.len() == 0 {
        seq![]
    } else if members.len() == 1 {
        json_string_text(members[0].0) + seq![':'] + graphql_text(members[0].1)
    } else {
        graphql_members_text(members.drop_last()) + seq![','] + json_string_text(members.last().0)
            + seq![':'] + graphql_text(members.last().1)
    }
}

/// The compact JSON text of a value.
pub fn graphql_value_text(value: &KuaishouJsonValue) -> (text: String)
    ensures
        text@ == graphql_text(json_tree(*value)),
    decreases value_height(*value),
{
    match value {
        KuaishouJsonValue::Null => {
            let mut text = String::new();
            push_char(&mut text, 'n');
            push_char(&mut text, 'u');
            push_char(&mut text, 'l');
            push_char(&mut text, 'l');
            text
        },
        KuaishouJsonValue::Bool(b) => {
            let mut text = String::new();
            if *b {
                push_char(&mut text, 't');
                push_char(&mut text, 'r');
                push_char(&mut text, 'u');
                push_char(&mut text, 'e');
            } else {
                push_char(&mut text, 'f');
                push_char(&mut text, 'a');
                push_char(&mut text, 'l');
                push_char(&mut text, 's');
                push_char(&mut text, 'e');
            }
            text
        },
        KuaishouJsonValue::Number(n) => n.clone(),
        KuaishouJsonValue::String(s) => json_string_literal(s.as_str()),
        KuaishouJsonValue::Array(items) => {
            let mut text = String::new();
            push_char(&mut text, '[');
            for i in 0..items.len()
                invariant
                    *value == KuaishouJsonValue::Array(*items),
                    text@ == seq!['['] + graphql_items_text(json_trees(items@.take(i as int))),
            {
                proof {
                    lemma_items_height(items@, i as int);
                }
                if i > 0 {
                    push_char(&mut text, ',');
                }
                let item = graphql_value_text(&items[i]);
                text.append(item.as_str());
                assert(items@.take(i + 1).drop_last() =~= items@.take(i as int));
                assert(json_trees(items@.take(i + 1)).drop_last() =~= json_trees(items@.take(i as int)));
                assert(text@ =~= seq!['['] + graphql_items_text(json_trees(items@.take(i + 1))));
            }
            assert(items@.take(items@.len() as int) =~= items@);
            push_char(&mut text, ']');
            text
        },
        KuaishouJsonValue::Object(object) => {
            let entries = &object.entries;
            let mut text = String::new();
            push_char(&mut text, '{');
            for i in 0..entries.len()
                invariant
                    *value == KuaishouJsonValue::Object(*object),
                    entries == &object.entries,
                    text@ == seq!['{'] + graphql_members_text(member_trees(entries@.take(i as int))),
            {
                proof {
                    lemma_members_height(entries@, i as int);
                }
                if i > 0 {
                    push_char(&mut text, ',');
                }
                let name = json_string_literal(entries[i].0.as_str());
                text.append(name.as_str());
                push_char(&mut text, ':');
                let item = graphql_value_text(&entries[i].1);
                text.append(item.as_str());
                assert(entries@.take(i + 1).drop_last() =~= entries@.take(i as int));
                assert(member_trees(entries@.take(i + 1)).drop_last() =~= member_trees(
                    entries@.take(i as int),
                ));
                assert(text@ =~= seq!['{'] + graphql_members_text(
                    member_trees(entries@.take(i + 1)),
                ));
            }
            assert(entries@.take(entries@.len() as int) =~= entries@);
            push_char(&mut text, '}');
            text
        },
    }
}

/// A value without `null` object members, at any depth (array items stay).
pub open spec fn strip_tree(t: JsonTree) -> JsonTree
    decreases t,
{
    match t {
        JsonTree::List(items) => JsonTree::List(strip_items(items)),
        JsonTree::Record(members) => JsonTree::Record(strip_members(members)),
        _ => t,
    }
}

/// Array items without `null` object members inside them.
pub open spec fn strip_items(items: Seq<JsonTree>) -> Seq<JsonTree>
    decreases items,
{
    if items.len() == 0 {
        seq![]
    } else {
        strip_items(items.drop_last()).push(strip_tree(items.last()))
    }
}

/// Object members without those that are `null`, the others stripped.
pub open spec fn strip_members(members: Seq<(Seq<char>, JsonTree)>) -> Seq<(Seq<char>, JsonTree)>
    decreases members,
{
    if members.len() == 0 {
        seq![]
    } else if members.last().1 is Null {
        strip_members(members.drop_last())
    } else {
        strip_members(members.drop_last()).push((members.last().0, strip_tree(members.last().1)))
    }
}

/// A copy of a value without `null` object members.
fn stripped(value: &KuaishouJsonValue) -> (out: KuaishouJsonValue)
    ensures
        json_tree(out) == strip_tree(json_tree(*value)),
    decreases value_height(*value),
{
    match value {
        KuaishouJsonValue::Array(items) => {
            let mut out: Vec<KuaishouJsonValue> = Vec::new();
            for i in 0..items.len()
                invariant
                    *value == KuaishouJsonValue::Array(*items),
                    json_trees(out@) == strip_items(json_trees(items@.take(i as int))),
            {
                proof {
                    lemma_items_height(items@, i as int);
                }
                let item = stripped(&items[i]);
                let ghost before = out@;
                out.push(item);
                assert(out@.drop_last() =~= before);
                assert(items@.take(i + 1).drop_last() =~= items@.take(i as int));
                assert(json_trees(items@.take(i + 1)).drop_last() =~= json_trees(items@.take(i as int)));
            }
            assert(items@.take(items@.len() as int) =~= items@);
            KuaishouJsonValue::Array(out)
        },
        KuaishouJsonValue::Object(object) => {
            let entries = &object.entries;
            let mut out: Vec<(String, KuaishouJsonValue)> = Vec::new();
            for i in 0..entries.len()
                invariant
                    *value == KuaishouJsonValue::Object(*object),
                    entries == &object.entries,
                    member_trees(out@) == strip_members(member_trees(entries@.take(i as int))),
            {
                proof {
                    lemma_members_height(entries@, i as int);
                }
                assert(entries@.take(i + 1).drop_last() =~= entries@.take(i as int));
                assert(entries@.take(i + 1).last() == entries@[i as int]);
                assert(member_trees(entries@.take(i + 1)).last() == (
                    entries@[i as int].0@,
                    json_tree(entries@[i as int].1),
                ));
                let ghost prefix = member_trees(entries@.take(i as int));
                let ghost next = member_trees(entries@.take(i + 1));
                assert(next == prefix.push(next.last()));
                assert(next.len() > 0);
                assert(next.drop_last() =~= prefix);
                match &entries[i].1 {
                    KuaishouJsonValue::Null => {
                        assert(next.last().1 is Null);
                        assert(strip_members(next) == strip_members(prefix));
                    },
                    _ => {
                        assert(!(next.last().1 is Null));
                        let item = stripped(&entries[i].1);
                        let name = entries[i].0.clone();
                        let ghost before = out@;
                        out.push((name, item));
                        assert(out@.drop_last() =~= before);
                        assert(strip_members(next) == strip_members(prefix).push(
                            (next.last().0, strip_tree(next.last().1)),
                        ));
                        assert(member_trees(out@) =~= member_trees(before).push(
                            (entries@[i as int].0@, json_tree(item)),
                        ));
                    },
                }
            }
            assert(entries@.take(entries@.len() as int) =~= entries@);
            KuaishouJsonValue::Object(KuaishouJsonObject { entries: out })
        },
        KuaishouJsonValue::Null => KuaishouJsonValue::Null,
        KuaishouJsonValue::Bool(b) => KuaishouJsonValue::Bool(*b),
        KuaishouJsonValue::Number(n) => KuaishouJsonValue::Number(n.clone()),
        KuaishouJsonValue::String(s) => KuaishouJsonValue::String(s.clone()),
    }
}

/// Remove the `null` members of objects, at any depth.
pub fn strip_null_fields(value: &mut KuaishouJsonValue)
    ensures
        json_tree(*final(value)) == strip_tree(json_tree(*old(value))),
{
    let out = stripped(value);
    *value = out;
}

/// A value without `null` object members, as sent to the GraphQL API.
pub fn compact_graphql_value(value: KuaishouJsonValue) -> (out: KuaishouJsonValue)
    ensures
        json_tree(out) == strip_tree(json_tree(value)),
{
    let mut value = value;
    strip_null_fields(&mut value);
    value
}

/// The query pairs of a GraphQL request: the compacted variables and
/// features, and the field toggles when given.
pub open spec fn graphql_query(
    variables: JsonTree,
    features: JsonTree,
    field_toggles: Option<JsonTree>,
) -> Seq<(Seq<char>, Seq<char>)> {
    let pairs = seq![
        ("variables"@, graphql_text(strip_tree(variables))),
        ("features"@, graphql_text(strip_tree(features))),
    ];
    match field_toggles {
        Some(t) => pairs.push(("fieldToggles"@, graphql_text(strip_tree(t)))),
        None => pairs,
    }
}

/// The URL of a GraphQL request:
/// `{base}/{operation_id}/{operation_name}` with the query pairs appended,
/// or the parse error of that text.
pub open spec fn graphql_url(
    base: Seq<char>,
    operation_id: Seq<char>,
    operation_name: Seq<char>,
    variables: JsonTree,
    features: JsonTree,
    field_toggles: Option<JsonTree>,
) -> Result<Seq<char>, Seq<char>> {
    match url_parse(base + "/"@ + operation_id + "/"@ + operation_name) {
        Err(e) => Err("invalid twitter url: "@ + e),
        Ok(parts) => Ok(url_extend_query(parts.0, graphql_query(variables, features, field_toggles))),
    }
}

/// A URL result matches the expected URL or error message.
pub open spec fn url_result(res: Result<String, AppError>, expected: Result<Seq<char>, Seq<char>>) -> bool {
    match expected {
        Ok(u) => res matches Ok(s) && s@ == u,
        Err(m) => res matches Err(e) && e.config_message() == Some(m),
    }
}

/// A cursor as a variable: its text, else `null`.
pub open spec fn cursor_tree(cursor: Option<Seq<char>>) -> JsonTree {
    match cursor {
        Some(c) => JsonTree::Text(c),
        None => JsonTree::Null,
    }
}

fn cursor_member(cursor: Option<&str>) -> (m: (String, KuaishouJsonValue))
    ensures
        m.0@ == "cursor"@,
        json_tree(m.1) == cursor_tree(option_str_view(cursor)),
{
    match cursor {
        Some(c) => ("cursor".to_owned(), KuaishouJsonValue::String(c.to_owned())),
        None => ("cursor".to_owned(), KuaishouJsonValue::Null),
    }
}

fn list_member(key: &str) -> (m: (String, KuaishouJsonValue))
    ensures
        m.0@ == key@,
        json_tree(m.1) == JsonTree::List(seq![]),
{
    let v = KuaishouJsonValue::Array(Vec::new());
    assert(json_trees(Seq::<KuaishouJsonValue>::empty()) =~= Seq::<JsonTree>::empty());
    (key.to_owned(), v)
}

/// A count as a variable.
pub open spec fn count_tree(count: Option<u32>, default: u32) -> JsonTree {
    JsonTree::Number(
        decimal(
            (match count {
                Some(c) => c,
                None => default,
            }) as nat,
        ),
    )
}

fn count_member(count: Option<u32>, default: u32) -> (m: (String, KuaishouJsonValue))
    ensures
        m.0@ == "count"@,
        json_tree(m.1) == count_tree(count, default),
{
    let c = match count {
        Some(c) => c,
        None => default,
    };
    number_member("count", u64_to_decimal(c as u64))
}

/// The `user_profile_features` set, keys in ascending order.
pub open spec fn user_profile_features_tree() -> JsonTree {
    JsonTree::Record(
        seq![
            ("creator_subscriptions_tweet_preview_api_enabled"@, JsonTree::Bool(true)),
            ("hidden_profile_subscriptions_enabled"@, JsonTree::Bool(true)),
            ("highlights_tweets_tab_ui_enabled"@, JsonTree::Bool(true)),
            ("profile_label_improvements_pcf_label_in_post_enabled"@, JsonTree::Bool(true)),
            ("responsive_web_graphql_skip_user_profile_image_extensions_enabled"@, JsonTree::Bool(false)),
            ("responsive_web_graphql_timeline_navigation_enabled"@, JsonTree::Bool(true)),
            ("responsive_web_profile_redirect_enabled"@, JsonTree::Bool(false)),
            ("responsive_web_twitter_article_notes_tab_enabled"@, JsonTree::Bool(true)),
            ("rweb_tipjar_consumption_enabled"@, JsonTree::Bool(false)),
            ("subscriptions_feature_can_gift_premium"@, JsonTree::Bool(true)),
            ("subscriptions_verification_info_is_identity_verified_enabled"@, JsonTree::Bool(true)),
            ("subscriptions_verification_info_verified_since_enabled"@, JsonTree::Bool(true)),
            ("verified_phone_label_enabled"@, JsonTree::Bool(false)),
        ],
    )
}

/// The `user_profile_features` set sent with GraphQL requests.
pub fn current_user_profile_features() -> (v: KuaishouJsonValue)
    ensures
        json_tree(v) == user_profile_features_tree(),
{
    let entries = vec![
        bool_member("creator_subscriptions_tweet_preview_api_enabled", true),
        bool_member("hidden_profile_subscriptions_enabled", true),
        bool_member("highlights_tweets_tab_ui_enabled", true),
        bool_member("profile_label_improvements_pcf_label_in_post_enabled", true),
        bool_member("responsive_web_graphql_skip_user_profile_image_extensions_enabled", false),
        bool_member("responsive_web_graphql_timeline_navigation_enabled", true),
        bool_member("responsive_web_profile_redirect_enabled", false),
        bool_member("responsive_web_twitter_article_notes_tab_enabled", true),
        bool_member("rweb_tipjar_consumption_enabled", false),
        bool_member("subscriptions_feature_can_gift_premium", true),
        bool_member("subscriptions_verification_info_is_identity_verified_enabled", true),
        bool_member("subscriptions_verification_info_verified_since_enabled", true),
        bool_member("verified_phone_label_enabled", false),
    ];
    proof {
        lemma_member_trees(entries@);
    }
    let ghost ms = user_profile_features_tree()->Record_0;
    assert(member_trees(entries@) =~= ms);
    record(entries)
}

/// The `user_profile_field_toggles` set, keys in ascending order.
pub open spec fn user_profile_field_toggles_tree() -> JsonTree {
    JsonTree::Record(
        seq![
            ("withAuxiliaryUserLabels"@, JsonTree::Bool(true)),
            ("withPayments"@, JsonTree::Bool(false)),
        ],
    )
}

/// The `user_profile_field_toggles` set sent with GraphQL requests.
pub fn current_user_profile_field_toggles() -> (v: KuaishouJsonValue)
    ensures
        json_tree(v) == user_profile_field_toggles_tree(),
{
    let entries = vec![
        bool_member("withAuxiliaryUserLabels", true),
        bool_member("withPayments", false),
    ];
    proof {
        lemma_member_trees(entries@);
    }
    let ghost ms = user_profile_field_toggles_tree()->Record_0;
    assert(member_trees(entries@) =~= ms);
    record(entries)
}

/// The `user_timeline_features` set, keys in ascending order.
pub open spec fn user_timeline_features_tree() -> JsonTree {
    JsonTree::Record(
        seq![
            ("articles_preview_enabled"@, JsonTree::Bool(true)),
            ("c9s_tweet_anatomy_moderator_badge_enabled"@, JsonTree::Bool(true)),
            ("communities_web_enable_tweet_community_results_fetch"@, JsonTree::Bool(true)),
            ("content_disclosure_ai_generated_indicator_enabled"@, JsonTree::Bool(true)),
            ("content_disclosure_indicator_enabled"@, JsonTree::Bool(true)),
            ("creator_subscriptions_tweet_preview_api_enabled"@, JsonTree::Bool(true)),
            ("freedom_of_speech_not_reach_fetch_enabled"@, JsonTree::Bool(true)),
            ("graphql_is_translatable_rweb_tweet_is_translatable_enabled"@, JsonTree::Bool(true)),
            ("longform_notetweets_consumption_enabled"@, JsonTree::Bool(true)),
            ("longform_notetweets_inline_media_enabled"@, JsonTree::Bool(false)),
            ("longform_notetweets_rich_text_read_enabled"@, JsonTree::Bool(true)),
            ("post_ctas_fetch_enabled"@, JsonTree::Bool(false)),
            ("premium_content_api_read_enabled"@, JsonTree::Bool(false)),
            ("profile_label_improvements_pcf_label_in_post_enabled"@, JsonTree::Bool(true)),
            ("responsive_web_edit_tweet_api_enabled"@, JsonTree::Bool(true)),
            ("responsive_web_enhance_cards_enabled"@, JsonTree::Bool(false)),
            ("responsive_web_graphql_skip_user_profile_image_extensions_enabled"@, JsonTree::Bool(false)),
            ("responsive_web_graphql_timeline_navigation_enabled"@, JsonTree::Bool(true)),
            ("responsive_web_grok_analysis_button_from_backend"@, JsonTree::Bool(true)),
            ("responsive_web_grok_analyze_button_fetch_trends_enabled"@, JsonTree::Bool(false)),
            ("responsive_web_grok_analyze_post_followups_enabled"@, JsonTree::Bool(true)),
            ("responsive_web_grok_annotations_enabled"@, JsonTree::Bool(true)),
            ("responsive_web_grok_community_note_auto_translation_is_enabled"@, JsonTree::Bool(false)),
            ("responsive_web_grok_image_annotation_enabled"@, JsonTree::Bool(true)),
            ("responsive_web_grok_imagine_annotation_enabled"@, JsonTree::Bool(true)),
            ("responsive_web_grok_share_attachment_enabled"@, JsonTree::Bool(true)),
            ("responsive_web_grok_show_grok_translated_post"@, JsonTree::Bool(false)),
            ("responsive_web_jetfuel_frame"@, JsonTree::Bool(true)),
            ("responsive_web_profile_redirect_enabled"@, JsonTree::Bool(false)),
            ("responsive_web_twitter_article_tweet_consumption_enabled"@, JsonTree::Bool(true)),
            ("rweb_tipjar_consumption_enabled"@, JsonTree::Bool(false)),
            ("rweb_video_screen_enabled"@, JsonTree::Bool(false)),
            ("standardized_nudges_misinfo"@, JsonTree::Bool(true)),
            ("tweet_with_visibility_results_prefer_gql_limited_actions_policy_enabled"@, JsonTree::Bool(true)),
            ("verified_phone_label_enabled"@, JsonTree::Bool(false)),
            ("view_counts_everywhere_api_enabled"@, JsonTree::Bool(true)),
        ],
    )
}

/// The `user_timeline_features` set sent with GraphQL requests.
pub fn current_user_timeline_features() -> (v: KuaishouJsonValue)
    ensures
        json_tree(v) == user_timeline_features_tree(),
{
    let entries = vec![
        bool_member("articles_preview_enabled", true),
        bool_member("c9s_tweet_anatomy_moderator_badge_enabled", true),
        bool_member("communities_web_enable_tweet_community_results_fetch", true),
        bool_member("content_disclosure_ai_generated_indicator_enabled", true),
        bool_member("content_disclosure_indicator_enabled", true),
        bool_member("creator_subscriptions_tweet_preview_api_enabled", true),
        bool_member("freedom_of_speech_not_reach_fetch_enabled", true),
        bool_member("graphql_is_translatable_rweb_tweet_is_translatable_enabled", true),
        bool_member("longform_notetweets_consumption_enabled", true),
        bool_member("longform_notetweets_inline_media_enabled", false),
        bool_member("longform_notetweets_rich_text_read_enabled", true),
        bool_member("post_ctas_fetch_enabled", false),
        bool_member("premium_content_api_read_enabled", false),
        bool_member("profile_label_improvements_pcf_label_in_post_enabled", true),
        bool_member("responsive_web_edit_tweet_api_enabled", true),
        bool_member("responsive_web_enhance_cards_enabled", false),
        bool_member("responsive_web_graphql_skip_user_profile_image_extensions_enabled", false),
        bool_member("responsive_web_graphql_timeline_navigation_enabled", true),
        bool_member("responsive_web_grok_analysis_button_from_backend", true),
        bool_member("responsive_web_grok_analyze_button_fetch_trends_enabled", false),
        bool_member("responsive_web_grok_analyze_post_followups_enabled", true),
        bool_member("responsive_web_grok_annotations_enabled", true),
        bool_member("responsive_web_grok_community_note_auto_translation_is_enabled", false),
        bool_member("responsive_web_grok_image_annotation_enabled", true),
        bool_member("responsive_web_grok_imagine_annotation_enabled", true),
        bool_member("responsive_web_grok_share_attachment_enabled", true),
        bool_member("responsive_web_grok_show_grok_translated_post", false),
        bool_member("responsive_web_jetfuel_frame", true),
        bool_member("responsive_web_profile_redirect_enabled", false),
        bool_member("responsive_web_twitter_article_tweet_consumption_enabled", true),
        bool_member("rweb_tipjar_consumption_enabled", false),
        bool_member("rweb_video_screen_enabled", false),
        bool_member("standardized_nudges_misinfo", true),
        bool_member("tweet_with_visibility_results_prefer_gql_limited_actions_policy_enabled", true),
        bool_member("verified_phone_label_enabled", false),
        bool_member("view_counts_everywhere_api_enabled", true),
    ];
    proof {
        lemma_member_trees(entries@);
    }
    let ghost ms = user_timeline_features_tree()->Record_0;
    assert(member_trees(entries@) =~= ms);
    record(entries)
}

/// The `timeline_field_toggles` set, keys in ascending order.
pub open spec fn timeline_field_toggles_tree() -> JsonTree {
    JsonTree::Record(
        seq![
            ("withArticlePlainText"@, JsonTree::Bool(false)),
        ],
    )
}

/// The `timeline_field_toggles` set sent with GraphQL requests.
pub fn current_timeline_field_toggles() -> (v: KuaishouJsonValue)
    ensures
        json_tree(v) == timeline_field_toggles_tree(),
{
    let entries = vec![
        bool_member("withArticlePlainText", false),
    ];
    proof {
        lemma_member_trees(entries@);
    }
    let ghost ms = timeline_field_toggles_tree()->Record_0;
    assert(member_trees(entries@) =~= ms);
    record(entries)
}

/// The `tweet_replies_field_toggles` set, keys in ascending order.
pub open spec fn tweet_replies_field_toggles_tree() -> JsonTree {
    JsonTree::Record(
        seq![
            ("withArticlePlainText"@, JsonTree::Bool(false)),
            ("withArticleRichContentState"@, JsonTree::Bool(true)),
            ("withDisallowedReplyControls"@, JsonTree::Bool(false)),
            ("withGrokAnalyze"@, JsonTree::Bool(false)),
        ],
    )
}

/// The `tweet_replies_field_toggles` set sent with GraphQL requests.
pub fn current_tweet_replies_field_toggles() -> (v: KuaishouJsonValue)
    ensures
        json_tree(v) == tweet_replies_field_toggles_tree(),
{
    let entries = vec![
        bool_member("withArticlePlainText", false),
        bool_member("withArticleRichContentState", true),
        bool_member("withDisallowedReplyControls", false),
        bool_member("withGrokAnalyze", false),
    ];
    proof {
        lemma_member_trees(entries@);
    }
    let ghost ms = tweet_replies_field_toggles_tree()->Record_0;
    assert(member_trees(entries@) =~= ms);
    record(entries)
}

/// The `tweet_detail_features` set, keys in ascending order.
pub open spec fn tweet_detail_features_tree() -> JsonTree {
    JsonTree::Record(
        seq![
            ("articles_preview_enabled"@, JsonTree::Bool(true)),
            ("c9s_tweet_anatomy_moderator_badge_enabled"@, JsonTree::Bool(true)),
            ("communities_web_enable_tweet_community_results_fetch"@, JsonTree::Bool(true)),
            ("creator_subscriptions_quote_tweet_preview_enabled"@, JsonTree::Bool(false)),
            ("creator_subscriptions_tweet_preview_api_enabled"@, JsonTree::Bool(true)),
            ("freedom_of_speech_not_reach_fetch_enabled"@, JsonTree::Bool(true)),
            ("graphql_is_translatable_rweb_tweet_is_translatable_enabled"@, JsonTree::Bool(true)),
            ("longform_notetweets_consumption_enabled"@, JsonTree::Bool(true)),
            ("longform_notetweets_inline_media_enabled"@, JsonTree::Bool(true)),
            ("longform_notetweets_rich_text_read_enabled"@, JsonTree::Bool(true)),
            ("premium_content_api_read_enabled"@, JsonTree::Bool(false)),
            ("profile_label_improvements_pcf_label_in_post_enabled"@, JsonTree::Bool(true)),
            ("responsive_web_edit_tweet_api_enabled"@, JsonTree::Bool(true)),
            ("responsive_web_enhance_cards_enabled"@, JsonTree::Bool(false)),
            ("responsive_web_graphql_skip_user_profile_image_extensions_enabled"@, JsonTree::Bool(false)),
            ("responsive_web_graphql_timeline_navigation_enabled"@, JsonTree::Bool(true)),
            ("responsive_web_grok_analysis_button_from_backend"@, JsonTree::Bool(false)),
            ("responsive_web_grok_analyze_button_fetch_trends_enabled"@, JsonTree::Bool(false)),
            ("responsive_web_grok_analyze_post_followups_enabled"@, JsonTree::Bool(false)),
            ("responsive_web_grok_image_annotation_enabled"@, JsonTree::Bool(true)),
            ("responsive_web_grok_share_attachment_enabled"@, JsonTree::Bool(true)),
            ("responsive_web_grok_show_grok_translated_post"@, JsonTree::Bool(false)),
            ("responsive_web_jetfuel_frame"@, JsonTree::Bool(false)),
            ("responsive_web_twitter_article_tweet_consumption_enabled"@, JsonTree::Bool(true)),
            ("rweb_tipjar_consumption_enabled"@, JsonTree::Bool(true)),
            ("standardized_nudges_misinfo"@, JsonTree::Bool(true)),
            ("tweet_awards_web_tipping_enabled"@, JsonTree::Bool(false)),
            ("tweet_with_visibility_results_prefer_gql_limited_actions_policy_enabled"@, JsonTree::Bool(true)),
            ("verified_phone_label_enabled"@, JsonTree::Bool(true)),
            ("view_counts_everywhere_api_enabled"@, JsonTree::Bool(true)),
        ],
    )
}

/// The `tweet_detail_features` set sent with GraphQL requests.
pub fn current_tweet_detail_features() -> (v: KuaishouJsonValue)
    ensures
        json_tree(v) == tweet_detail_features_tree(),
{
    let entries = vec![
        bool_member("articles_preview_enabled", true),
        bool_member("c9s_tweet_anatomy_moderator_badge_enabled", true),
        bool_member("communities_web_enable_tweet_community_results_fetch", true),
        bool_member("creator_subscriptions_quote_tweet_preview_enabled", false),
        bool_member("creator_subscriptions_tweet_preview_api_enabled", true),
        bool_member("freedom_of_speech_not_reach_fetch_enabled", true),
        bool_member("graphql_is_translatable_rweb_tweet_is_translatable_enabled", true),
        bool_member("longform_notetweets_consumption_enabled", true),
        bool_member("longform_notetweets_inline_media_enabled", true),
        bool_member("longform_notetweets_rich_text_read_enabled", true),
        bool_member("premium_content_api_read_enabled", false),
        bool_member("profile_label_improvements_pcf_label_in_post_enabled", true),
        bool_member("responsive_web_edit_tweet_api_enabled", true),
        bool_member("responsive_web_enhance_cards_enabled", false),
        bool_member("responsive_web_graphql_skip_user_profile_image_extensions_enabled", false),
        bool_member("responsive_web_graphql_timeline_navigation_enabled", true),
        bool_member("responsive_web_grok_analysis_button_from_backend", false),
        bool_member("responsive_web_grok_analyze_button_fetch_trends_enabled", false),
        bool_member("responsive_web_grok_analyze_post_followups_enabled", false),
        bool_member("responsive_web_grok_image_annotation_enabled", true),
        bool_member("responsive_web_grok_share_attachment_enabled", true),
        bool_member("responsive_web_grok_show_grok_translated_post", false),
        bool_member("responsive_web_jetfuel_frame", false),
        bool_member("responsive_web_twitter_article_tweet_consumption_enabled", true),
        bool_member("rweb_tipjar_consumption_enabled", true),
        bool_member("standardized_nudges_misinfo", true),
        bool_member("tweet_awards_web_tipping_enabled", false),
        bool_member("tweet_with_visibility_results_prefer_gql_limited_actions_policy_enabled", true),
        bool_member("verified_phone_label_enabled", true),
        bool_member("view_counts_everywhere_api_enabled", true),
    ];
    proof {
        lemma_member_trees(entries@);
    }
    let ghost ms = tweet_detail_features_tree()->Record_0;
    assert(member_trees(entries@) =~= ms);
    record(entries)
}

/// The `space_detail_features` set, keys in ascending order.
pub open spec fn space_detail_features_tree() -> JsonTree {
    JsonTree::Record(
        seq![
            ("articles_preview_enabled"@, JsonTree::Bool(true)),
            ("c9s_tweet_anatomy_moderator_badge_enabled"@, JsonTree::Bool(true)),
            ("communities_web_enable_tweet_community_results_fetch"@, JsonTree::Bool(true)),
            ("creator_subscriptions_quote_tweet_preview_enabled"@, JsonTree::Bool(false)),
            ("creator_subscriptions_tweet_preview_api_enabled"@, JsonTree::Bool(true)),
            ("freedom_of_speech_not_reach_fetch_enabled"@, JsonTree::Bool(true)),
            ("graphql_is_translatable_rweb_tweet_is_translatable_enabled"@, JsonTree::Bool(true)),
            ("longform_notetweets_consumption_enabled"@, JsonTree::Bool(true)),
            ("longform_notetweets_inline_media_enabled"@, JsonTree::Bool(true)),
            ("longform_notetweets_rich_text_read_enabled"@, JsonTree::Bool(true)),
            ("post_ctas_fetch_enabled"@, JsonTree::Bool(true)),
            ("premium_content_api_read_enabled"@, JsonTree::Bool(false)),
            ("profile_label_improvements_pcf_label_in_post_enabled"@, JsonTree::Bool(true)),
            ("responsive_web_edit_tweet_api_enabled"@, JsonTree::Bool(true)),
            ("responsive_web_enhance_cards_enabled"@, JsonTree::Bool(false)),
            ("responsive_web_graphql_skip_user_profile_image_extensions_enabled"@, JsonTree::Bool(false)),
            ("responsive_web_graphql_timeline_navigation_enabled"@, JsonTree::Bool(true)),
            ("responsive_web_grok_analysis_button_from_backend"@, JsonTree::Bool(true)),
            ("responsive_web_grok_analyze_button_fetch_trends_enabled"@, JsonTree::Bool(false)),
            ("responsive_web_grok_analyze_post_followups_enabled"@, JsonTree::Bool(true)),
            ("responsive_web_grok_annotations_enabled"@, JsonTree::Bool(false)),
            ("responsive_web_grok_community_note_auto_translation_is_enabled"@, JsonTree::Bool(false)),
            ("responsive_web_grok_image_annotation_enabled"@, JsonTree::Bool(true)),
            ("responsive_web_grok_imagine_annotation_enabled"@, JsonTree::Bool(true)),
            ("responsive_web_grok_share_attachment_enabled"@, JsonTree::Bool(true)),
            ("responsive_web_grok_show_grok_translated_post"@, JsonTree::Bool(false)),
            ("responsive_web_jetfuel_frame"@, JsonTree::Bool(true)),
            ("responsive_web_profile_redirect_enabled"@, JsonTree::Bool(false)),
            ("responsive_web_twitter_article_tweet_consumption_enabled"@, JsonTree::Bool(true)),
            ("rweb_tipjar_consumption_enabled"@, JsonTree::Bool(false)),
            ("spaces_2022_h2_clipping"@, JsonTree::Bool(true)),
            ("spaces_2022_h2_spaces_communities"@, JsonTree::Bool(true)),
            ("standardized_nudges_misinfo"@, JsonTree::Bool(true)),
            ("tweet_awards_web_tipping_enabled"@, JsonTree::Bool(false)),
            ("tweet_with_visibility_results_prefer_gql_limited_actions_policy_enabled"@, JsonTree::Bool(true)),
            ("verified_phone_label_enabled"@, JsonTree::Bool(false)),
            ("view_counts_everywhere_api_enabled"@, JsonTree::Bool(true)),
        ],
    )
}

/// The `space_detail_features` set sent with GraphQL requests.
pub fn current_space_detail_features() -> (v: KuaishouJsonValue)
    ensures
        json_tree(v) == space_detail_features_tree(),
{
    let entries = vec![
        bool_member("articles_preview_enabled", true),
        bool_member("c9s_tweet_anatomy_moderator_badge_enabled", true),
        bool_member("communities_web_enable_tweet_community_results_fetch", true),
        bool_member("creator_subscriptions_quote_tweet_preview_enabled", false),
        bool_member("creator_subscriptions_tweet_preview_api_enabled", true),
        bool_member("freedom_of_speech_not_reach_fetch_enabled", true),
        bool_member("graphql_is_translatable_rweb_tweet_is_translatable_enabled", true),
        bool_member("longform_notetweets_consumption_enabled", true),
        bool_member("longform_notetweets_inline_media_enabled", true),
        bool_member("longform_notetweets_rich_text_read_enabled", true),
        bool_member("post_ctas_fetch_enabled", true),
        bool_member("premium_content_api_read_enabled", false),
        bool_member("profile_label_improvements_pcf_label_in_post_enabled", true),
        bool_member("responsive_web_edit_tweet_api_enabled", true),
        bool_member("responsive_web_enhance_cards_enabled", false),
        bool_member("responsive_web_graphql_skip_user_profile_image_extensions_enabled", false),
        bool_member("responsive_web_graphql_timeline_navigation_enabled", true),
        bool_member("responsive_web_grok_analysis_button_from_backend", true),
        bool_member("responsive_web_grok_analyze_button_fetch_trends_enabled", false),
        bool_member("responsive_web_grok_analyze_post_followups_enabled", true),
        bool_member("responsive_web_grok_annotations_enabled", false),
        bool_member("responsive_web_grok_community_note_auto_translation_is_enabled", false),
        bool_member("responsive_web_grok_image_annotation_enabled", true),
        bool_member("responsive_web_grok_imagine_annotation_enabled", true),
        bool_member("responsive_web_grok_share_attachment_enabled", true),
        bool_member("responsive_web_grok_show_grok_translated_post", false),
        bool_member("responsive_web_jetfuel_frame", true),
        bool_member("responsive_web_profile_redirect_enabled", false),
        bool_member("responsive_web_twitter_article_tweet_consumption_enabled", true),
        bool_member("rweb_tipjar_consumption_enabled", false),
        bool_member("spaces_2022_h2_clipping", true),
        bool_member("spaces_2022_h2_spaces_communities", true),
        bool_member("standardized_nudges_misinfo", true),
        bool_member("tweet_awards_web_tipping_enabled", false),
        bool_member("tweet_with_visibility_results_prefer_gql_limited_actions_policy_enabled", true),
        bool_member("verified_phone_label_enabled", false),
        bool_member("view_counts_everywhere_api_enabled", true),
    ];
    proof {
        lemma_member_trees(entries@);
    }
    let ghost ms = space_detail_features_tree()->Record_0;
    assert(member_trees(entries@) =~= ms);
    record(entries)
}

impl TwitterApiUrls {
    /// The URL of a GraphQL request (see `graphql_url`).
    pub fn build_graphql_url(
        &self,
        operation_id: &str,
        operation_name: &str,
        variables: &KuaishouJsonValue,
        features: &KuaishouJsonValue,
        field_toggles: Option<&KuaishouJsonValue>,
    ) -> (res: Result<String, AppError>)
        ensures
            url_result(
                res,
                graphql_url(
                    self.graphql_base_url(),
                    operation_id@,
                    operation_name@,
                    json_tree(*variables),
                    json_tree(*features),
                    match field_toggles {
                        Some(t) => Some(json_tree(*t)),
                        None => None,
                    },
                ),
            ),
    {
        let compact_variables = compact_graphql_value(copy_json(variables));
        let compact_features = compact_graphql_value(copy_json(features));
        let compact_toggles = match field_toggles {
            Some(t) => Some(compact_graphql_value(copy_json(t))),
            None => None,
        };
        let mut text = self.graphql_base_url_str().to_owned();
        text.append("/");
        text.append(operation_id);
        text.append("/");
        text.append(operation_name);
        let parsed = match parse_url(text.as_str()) {
            Ok(p) => p,
            Err(e) => {
                let mut message = "invalid twitter url: ".to_owned();
                message.append(e.as_str());
                return Err(AppError::InvalidRequestConfig(message));
            },
        };
        let variables_text = graphql_value_text(&compact_variables);
        let features_text = graphql_value_text(&compact_features);
        let mut pairs: Vec<(String, String)> = Vec::new();
        pairs.push(("variables".to_owned(), variables_text));
        pairs.push(("features".to_owned(), features_text));
        let ghost two = pairs.deep_view();
        assert(two =~= seq![
            ("variables"@, graphql_text(strip_tree(json_tree(*variables)))),
            ("features"@, graphql_text(strip_tree(json_tree(*features)))),
        ]);
        match &compact_toggles {
            Some(t) => {
                let toggles_text = graphql_value_text(t);
                pairs.push(("fieldToggles".to_owned(), toggles_text));
                assert(pairs.deep_view() =~= two.push(("fieldToggles"@, toggles_text@)));
            },
            None => {},
        }
        Ok(extend_url_query(parsed.href.as_str(), &pairs))
    }
    /// Build the user-profile URL for one screen name.
    pub fn user_profile(&self, screen_name: &str) -> (res: Result<String, AppError>)
        ensures
            url_result(
                res,
                graphql_url(
                    self.graphql_base_url(),
                    "IGgvgiOx4QZndDHuD3x9TQ"@,
                    "UserByScreenName"@,
                    user_profile_variables(screen_name@),
                    user_profile_features_tree(),
                    Some(user_profile_field_toggles_tree()),
                ),
            ),
    {
        let entries = vec![
            text_member("screen_name", screen_name.to_owned()),
            bool_member("withGrokTranslatedBio", false),
        ];
        proof {
            lemma_member_trees(entries@);
        }
        let ghost ms = user_profile_variables(screen_name@)->Record_0;
        assert(member_trees(entries@) =~= ms);
        let variables = record(entries);
        self.build_graphql_url(
            "IGgvgiOx4QZndDHuD3x9TQ",
            "UserByScreenName",
            &variables,
            &current_user_profile_features(),
            Some(&current_user_profile_field_toggles()),
        )
    }

    /// Build the user-profile URL for one user rest id.
    pub fn user_profile_by_id(&self, user_id: &str) -> (res: Result<String, AppError>)
        ensures
            url_result(
                res,
                graphql_url(
                    self.graphql_base_url(),
                    "VQfQ9wwYdk6j_u2O4vt64Q"@,
                    "UserByRestId"@,
                    user_profile_by_id_variables(user_id@),
                    user_profile_features_tree(),
                    None,
                ),
            ),
    {
        let entries = vec![
            text_member("userId", user_id.to_owned()),
        ];
        proof {
            lemma_member_trees(entries@);
        }
        let ghost ms = user_profile_by_id_variables(user_id@)->Record_0;
        assert(member_trees(entries@) =~= ms);
        let variables = record(entries);
        self.build_graphql_url(
            "VQfQ9wwYdk6j_u2O4vt64Q",
            "UserByRestId",
            &variables,
            &current_user_profile_features(),
            None,
        )
    }

    /// Build the user-timeline URL for one user id.
    pub fn user_timeline(&self, user_id: &str, count: Option<u32>, cursor: Option<&str>) -> (res: Result<String, AppError>)
        ensures
            url_result(
                res,
                graphql_url(
                    self.graphql_base_url(),
                    "FOlovQsiHGDls3c0Q_HaSQ"@,
                    "UserTweets"@,
                    user_timeline_variables(user_id@, count, option_str_view(cursor)),
                    user_timeline_features_tree(),
                    Some(timeline_field_toggles_tree()),
                ),
            ),
    {
        let entries = vec![
            count_member(count, 20),
            cursor_member(cursor),
            bool_member("includePromotedContent", true),
            text_member("userId", user_id.to_owned()),
            bool_member("withQuickPromoteEligibilityTweetFields", true),
            bool_member("withVoice", true),
        ];
        proof {
            lemma_member_trees(entries@);
        }
        let ghost ms = user_timeline_variables(user_id@, count, option_str_view(cursor))->Record_0;
        assert(member_trees(entries@) =~= ms);
        let variables = record(entries);
        self.build_graphql_url(
            "FOlovQsiHGDls3c0Q_HaSQ",
            "UserTweets",
            &variables,
            &current_user_timeline_features(),
            Some(&current_timeline_field_toggles()),
        )
    }

    /// Build the user-replies URL for one user id.
    pub fn user_replies(&self, user_id: &str, count: Option<u32>, cursor: Option<&str>) -> (res: Result<String, AppError>)
        ensures
            url_result(
                res,
                graphql_url(
                    self.graphql_base_url(),
                    "EJTxTKSH-byy7X46AhtKeA"@,
                    "UserTweetsAndReplies"@,
                    user_replies_variables(user_id@, count, option_str_view(cursor)),
                    user_timeline_features_tree(),
                    Some(timeline_field_toggles_tree()),
                ),
            ),
    {
        let entries = vec![
            count_member(count, 20),
            cursor_member(cursor),
            bool_member("includePromotedContent", true),
            text_member("userId", user_id.to_owned()),
            bool_member("withCommunity", true),
            bool_member("withVoice", true),
        ];
        proof {
            lemma_member_trees(entries@);
        }
        let ghost ms = user_replies_variables(user_id@, count, option_str_view(cursor))->Record_0;
        assert(member_trees(entries@) =~= ms);
        let variables = record(entries);
        self.build_graphql_url(
            "EJTxTKSH-byy7X46AhtKeA",
            "UserTweetsAndReplies",
            &variables,
            &current_user_timeline_features(),
            Some(&current_timeline_field_toggles()),
        )
    }

    /// Build the user-media URL for one user id (page size from `normalize_user_media_count`).
    pub fn user_media(&self, user_id: &str, count: Option<u32>, cursor: Option<&str>) -> (res: Result<String, AppError>)
        ensures
            url_result(
                res,
                graphql_url(
                    self.graphql_base_url(),
                    "SjiAp7wyuCUBkKAJJObU8w"@,
                    "UserMedia"@,
                    user_media_variables(user_id@, count, option_str_view(cursor)),
                    user_timeline_features_tree(),
                    Some(timeline_field_toggles_tree()),
                ),
            ),
    {
        let entries = vec![
            number_member("count", u64_to_decimal(normalize_user_media_count(count) as u64)),
            cursor_member(cursor),
            bool_member("includePromotedContent", false),
            text_member("userId", user_id.to_owned()),
            bool_member("withBirdwatchNotes", false),
            bool_member("withClientEventToken", false),
            bool_member("withVoice", true),
        ];
        proof {
            lemma_member_trees(entries@);
        }
        let ghost ms = user_media_variables(user_id@, count, option_str_view(cursor))->Record_0;
        assert(member_trees(entries@) =~= ms);
        let variables = record(entries);
        self.build_graphql_url(
            "SjiAp7wyuCUBkKAJJObU8w",
            "UserMedia",
            &variables,
            &current_user_timeline_features(),
            Some(&current_timeline_field_toggles()),
        )
    }

    /// Build the followers URL for one user id.
    pub fn user_followers(&self, user_id: &str, count: Option<u32>, cursor: Option<&str>) -> (res: Result<String, AppError>)
        ensures
            url_result(
                res,
                graphql_url(
                    self.graphql_base_url(),
                    "-FpGYzBsUxUOecYYfso0yA"@,
                    "Followers"@,
                    user_followers_variables(user_id@, count, option_str_view(cursor)),
                    user_timeline_features_tree(),
                    None,
                ),
            ),
    {
        let entries = vec![
            count_member(count, 20),
            cursor_member(cursor),
            bool_member("includePromotedContent", false),
            text_member("userId", user_id.to_owned()),
            bool_member("withGrokTranslatedBio", false),
        ];
        proof {
            lemma_member_trees(entries@);
        }
        let ghost ms = user_followers_variables(user_id@, count, option_str_view(cursor))->Record_0;
        assert(member_trees(entries@) =~= ms);
        let variables = record(entries);
        self.build_graphql_url(
            "-FpGYzBsUxUOecYYfso0yA",
            "Followers",
            &variables,
            &current_user_timeline_features(),
            None,
        )
    }

    /// Build the following URL for one user id.
    pub fn user_following(&self, user_id: &str, count: Option<u32>, cursor: Option<&str>) -> (res: Result<String, AppError>)
        ensures
            url_result(
                res,
                graphql_url(
                    self.graphql_base_url(),
                    "UCFedrkjMz7PeEAWCWhqFw"@,
                    "Following"@,
                    user_following_variables(user_id@, count, option_str_view(cursor)),
                    user_timeline_features_tree(),
                    None,
                ),
            ),
    {
        let entries = vec![
            count_member(count, 20),
            cursor_member(cursor),
            bool_member("includePromotedContent", false),
            text_member("userId", user_id.to_owned()),
            bool_member("withGrokTranslatedBio", false),
        ];
        proof {
            lemma_member_trees(entries@);
        }
        let ghost ms = user_following_variables(user_id@, count, option_str_view(cursor))->Record_0;
        assert(member_trees(entries@) =~= ms);
        let variables = record(entries);
        self.build_graphql_url(
            "UCFedrkjMz7PeEAWCWhqFw",
            "Following",
            &variables,
            &current_user_timeline_features(),
            None,
        )
    }

    /// Build the authenticated user-likes URL for one user id.
    pub fn user_likes(&self, user_id: &str, count: Option<u32>, cursor: Option<&str>) -> (res: Result<String, AppError>)
        ensures
            url_result(
                res,
                graphql_url(
                    self.graphql_base_url(),
                    "jTVU5QdKqziEc4GsLNvhMQ"@,
                    "Likes"@,
                    user_likes_variables(user_id@, count, option_str_view(cursor)),
                    user_timeline_features_tree(),
                    Some(timeline_field_toggles_tree()),
                ),
            ),
    {
        let entries = vec![
            count_member(count, 20),
            cursor_member(cursor),
            bool_member("includePromotedContent", false),
            text_member("userId", user_id.to_owned()),
            bool_member("withBirdwatchNotes", false),
            bool_member("withClientEventToken", false),
            bool_member("withVoice", true),
        ];
        proof {
            lemma_member_trees(entries@);
        }
        let ghost ms = user_likes_variables(user_id@, count, option_str_view(cursor))->Record_0;
        assert(member_trees(entries@) =~= ms);
        let variables = record(entries);
        self.build_graphql_url(
            "jTVU5QdKqziEc4GsLNvhMQ",
            "Likes",
            &variables,
            &current_user_timeline_features(),
            Some(&current_timeline_field_toggles()),
        )
    }

    /// Build the bookmarks URL for the authenticated user.
    pub fn user_bookmarks(&self, count: Option<u32>, cursor: Option<&str>) -> (res: Result<String, AppError>)
        ensures
            url_result(
                res,
                graphql_url(
                    self.graphql_base_url(),
                    "-LGfdImKeQz0xS_jjUwzlA"@,
                    "Bookmarks"@,
                    user_bookmarks_variables(count, option_str_view(cursor)),
                    user_timeline_features_tree(),
                    None,
                ),
            ),
    {
        let entries = vec![
            count_member(count, 20),
            cursor_member(cursor),
            bool_member("includePromotedContent", false),
        ];
        proof {
            lemma_member_trees(entries@);
        }
        let ghost ms = user_bookmarks_variables(count, option_str_view(cursor))->Record_0;
        assert(member_trees(entries@) =~= ms);
        let variables = record(entries);
        self.build_graphql_url(
            "-LGfdImKeQz0xS_jjUwzlA",
            "Bookmarks",
            &variables,
            &current_user_timeline_features(),
            None,
        )
    }

    /// Build the followed-feed URL for the authenticated user.
    pub fn user_followed(&self, count: Option<u32>, cursor: Option<&str>) -> (res: Result<String, AppError>)
        ensures
            url_result(
                res,
                graphql_url(
                    self.graphql_base_url(),
                    "_qO7FJzShSKYWi9gtboE6A"@,
                    "HomeLatestTimeline"@,
                    user_followed_variables(count, option_str_view(cursor)),
                    user_timeline_features_tree(),
                    None,
                ),
            ),
    {
        let entries = vec![
            count_member(count, 35),
            cursor_member(cursor),
            bool_member("includePromotedContent", false),
            bool_member("latestControlAvailable", true),
            bool_member("withCommunity", false),
        ];
        proof {
            lemma_member_trees(entries@);
        }
        let ghost ms = user_followed_variables(count, option_str_view(cursor))->Record_0;
        assert(member_trees(entries@) =~= ms);
        let variables = record(entries);
        self.build_graphql_url(
            "_qO7FJzShSKYWi9gtboE6A",
            "HomeLatestTimeline",
            &variables,
            &current_user_timeline_features(),
            None,
        )
    }

    /// Build the recommended-feed URL for the authenticated user.
    pub fn user_recommended(&self, count: Option<u32>, cursor: Option<&str>) -> (res: Result<String, AppError>)
        ensures
            url_result(
                res,
                graphql_url(
                    self.graphql_base_url(),
                    "V7xdnRnvW6a8vIsMr9xK7A"@,
                    "HomeTimeline"@,
                    user_recommended_variables(count, option_str_view(cursor)),
                    user_timeline_features_tree(),
                    None,
                ),
            ),
    {
        let entries = vec![
            count_member(count, 35),
            cursor_member(cursor),
            bool_member("includePromotedContent", false),
            bool_member("latestControlAvailable", true),
            list_member("seenTweetIds"),
            bool_member("withCommunity", false),
        ];
        proof {
            lemma_member_trees(entries@);
        }
        let ghost ms = user_recommended_variables(count, option_str_view(cursor))->Record_0;
        assert(member_trees(entries@) =~= ms);
        let variables = record(entries);
        self.build_graphql_url(
            "V7xdnRnvW6a8vIsMr9xK7A",
            "HomeTimeline",
            &variables,
            &current_user_timeline_features(),
            None,
        )
    }

    /// Build the tweet-search URL for one raw query.
    pub fn search_tweets(&self, raw_query: &str, search_product: &str, count: Option<u32>, cursor: Option<&str>) -> (res: Result<String, AppError>)
        ensures
            url_result(
                res,
                graphql_url(
                    self.graphql_base_url(),
                    "GcXk9vN_d1jUfHNqLacXQA"@,
                    "SearchTimeline"@,
                    search_tweets_variables(raw_query@, search_product@, count, option_str_view(cursor)),
                    user_timeline_features_tree(),
                    None,
                ),
            ),
    {
        let entries = vec![
            count_member(count, 20),
            cursor_member(cursor),
            text_member("product", search_product.to_owned()),
            text_member("querySource", "typed_query".to_owned()),
            text_member("rawQuery", raw_query.to_owned()),
            bool_member("withGrokTranslatedBio", false),
        ];
        proof {
            lemma_member_trees(entries@);
        }
        let ghost ms = search_tweets_variables(raw_query@, search_product@, count, option_str_view(cursor))->Record_0;
        assert(member_trees(entries@) =~= ms);
        let variables = record(entries);
        self.build_graphql_url(
            "GcXk9vN_d1jUfHNqLacXQA",
            "SearchTimeline",
            &variables,
            &current_user_timeline_features(),
            None,
        )
    }

    /// Build the user-search URL for one raw query.
    pub fn search_users(&self, raw_query: &str, count: Option<u32>, cursor: Option<&str>) -> (res: Result<String, AppError>)
        ensures
            url_result(
                res,
                graphql_url(
                    self.graphql_base_url(),
                    "M1jEez78PEfVfbQLvlWMvQ"@,
                    "SearchTimeline"@,
                    search_users_variables(raw_query@, count, option_str_view(cursor)),
                    user_timeline_features_tree(),
                    None,
                ),
            ),
    {
        let entries = vec![
            count_member(count, 20),
            cursor_member(cursor),
            text_member("product", "People".to_owned()),
            text_member("querySource", "typed_query".to_owned()),
            text_member("rawQuery", raw_query.to_owned()),
            bool_member("withGrokTranslatedBio", false),
        ];
        proof {
            lemma_member_trees(entries@);
        }
        let ghost ms = search_users_variables(raw_query@, count, option_str_view(cursor))->Record_0;
        assert(member_trees(entries@) =~= ms);
        let variables = record(entries);
        self.build_graphql_url(
            "M1jEez78PEfVfbQLvlWMvQ",
            "SearchTimeline",
            &variables,
            &current_user_timeline_features(),
            None,
        )
    }

    /// Build the tweet-detail URL for one tweet id.
    pub fn tweet_detail(&self, tweet_id: &str) -> (res: Result<String, AppError>)
        ensures
            url_result(
                res,
                graphql_url(
                    self.graphql_base_url(),
                    "aFvUsJm2c-oDkJV75blV6g"@,
                    "TweetResultByRestId"@,
                    tweet_detail_variables(tweet_id@),
                    tweet_detail_features_tree(),
                    None,
                ),
            ),
    {
        let entries = vec![
            bool_member("includePromotedContent", false),
            text_member("referrer", "home".to_owned()),
            text_member("tweetId", tweet_id.to_owned()),
            bool_member("withBirdwatchNotes", false),
            bool_member("withCommunity", false),
            bool_member("withQuickPromoteEligibilityTweetFields", false),
            bool_member("withV2Timeline", false),
            bool_member("withVoice", false),
            bool_member("with_rux_injections", false),
        ];
        proof {
            lemma_member_trees(entries@);
        }
        let ghost ms = tweet_detail_variables(tweet_id@)->Record_0;
        assert(member_trees(entries@) =~= ms);
        let variables = record(entries);
        self.build_graphql_url(
            "aFvUsJm2c-oDkJV75blV6g",
            "TweetResultByRestId",
            &variables,
            &current_tweet_detail_features(),
            None,
        )
    }

    /// Build the tweet-replies URL for one tweet id.
    pub fn tweet_replies(&self, tweet_id: &str, cursor: Option<&str>, ranking_mode: &str) -> (res: Result<String, AppError>)
        ensures
            url_result(
                res,
                graphql_url(
                    self.graphql_base_url(),
                    "97JF30KziU00483E_8elBA"@,
                    "TweetDetail"@,
                    tweet_replies_variables(tweet_id@, option_str_view(cursor), ranking_mode@),
                    user_timeline_features_tree(),
                    Some(tweet_replies_field_toggles_tree()),
                ),
            ),
    {
        let entries = vec![
            cursor_member(cursor),
            text_member("focalTweetId", tweet_id.to_owned()),
            bool_member("includePromotedContent", true),
            text_member("rankingMode", ranking_mode.to_owned()),
            text_member("referrer", "tweet".to_owned()),
            bool_member("withBirdwatchNotes", true),
            bool_member("withCommunity", true),
            bool_member("withQuickPromoteEligibilityTweetFields", true),
            bool_member("withVoice", true),
            bool_member("with_rux_injections", false),
        ];
        proof {
            lemma_member_trees(entries@);
        }
        let ghost ms = tweet_replies_variables(tweet_id@, option_str_view(cursor), ranking_mode@)->Record_0;
        assert(member_trees(entries@) =~= ms);
        let variables = record(entries);
        self.build_graphql_url(
            "97JF30KziU00483E_8elBA",
            "TweetDetail",
            &variables,
            &current_user_timeline_features(),
            Some(&current_tweet_replies_field_toggles()),
        )
    }

    /// Build the tweet-likers URL for one tweet id.
    pub fn tweet_likers(&self, tweet_id: &str, count: Option<u32>, cursor: Option<&str>) -> (res: Result<String, AppError>)
        ensures
            url_result(
                res,
                graphql_url(
                    self.graphql_base_url(),
                    "b3OrdeHDQfb9zRMC0fV3bw"@,
                    "Favoriters"@,
                    tweet_likers_variables(tweet_id@, count, option_str_view(cursor)),
                    user_timeline_features_tree(),
                    None,
                ),
            ),
    {
        let entries = vec![
            count_member(count, 20),
            cursor_member(cursor),
            bool_member("enableRanking", false),
            bool_member("includePromotedContent", false),
            text_member("tweetId", tweet_id.to_owned()),
        ];
        proof {
            lemma_member_trees(entries@);
        }
        let ghost ms = tweet_likers_variables(tweet_id@, count, option_str_view(cursor))->Record_0;
        assert(member_trees(entries@) =~= ms);
        let variables = record(entries);
        self.build_graphql_url(
            "b3OrdeHDQfb9zRMC0fV3bw",
            "Favoriters",
            &variables,
            &current_user_timeline_features(),
            None,
        )
    }

    /// Build the tweet-retweeters URL for one tweet id.
    pub fn tweet_retweeters(&self, tweet_id: &str, count: Option<u32>, cursor: Option<&str>) -> (res: Result<String, AppError>)
        ensures
            url_result(
                res,
                graphql_url(
                    self.graphql_base_url(),
                    "wfglZEC0MRgBdxMa_1a5YQ"@,
                    "Retweeters"@,
                    tweet_retweeters_variables(tweet_id@, count, option_str_view(cursor)),
                    user_timeline_features_tree(),
                    None,
                ),
            ),
    {
        let entries = vec![
            count_member(count, 20),
            cursor_member(cursor),
            bool_member("includePromotedContent", false),
            text_member("tweetId", tweet_id.to_owned()),
        ];
        proof {
            lemma_member_trees(entries@);
        }
        let ghost ms = tweet_retweeters_variables(tweet_id@, count, option_str_view(cursor))->Record_0;
        assert(member_trees(entries@) =~= ms);
        let variables = record(entries);
        self.build_graphql_url(
            "wfglZEC0MRgBdxMa_1a5YQ",
            "Retweeters",
            &variables,
            &current_user_timeline_features(),
            None,
        )
    }

    /// Build the space-detail URL for one space id.
    pub fn space_detail(&self, space_id: &str) -> (res: Result<String, AppError>)
        ensures
            url_result(
                res,
                graphql_url(
                    self.graphql_base_url(),
                    "rR7CQrr8kxb6fatlUaB61Q"@,
                    "AudioSpaceById"@,
                    space_detail_variables(space_id@),
                    space_detail_features_tree(),
                    None,
                ),
            ),
    {
        let entries = vec![
            text_member("id", space_id.to_owned()),
            bool_member("isMetatagsQuery", false),
            bool_member("withListeners", false),
            bool_member("withReplays", true),
        ];
        proof {
            lemma_member_trees(entries@);
        }
        let ghost ms = space_detail_variables(space_id@)->Record_0;
        assert(member_trees(entries@) =~= ms);
        let variables = record(entries);
        self.build_graphql_url(
            "rR7CQrr8kxb6fatlUaB61Q",
            "AudioSpaceById",
            &variables,
            &current_space_detail_features(),
            None,
        )
    }
}

/// The variables of the `UserByScreenName` request of `user_profile`, keys in ascending order.
pub open spec fn user_profile_variables(screen_name: Seq<char>) -> JsonTree {
    JsonTree::Record(
        seq![
            ("screen_name"@, JsonTree::Text(screen_name)),
            ("withGrokTranslatedBio"@, JsonTree::Bool(false)),
        ],
    )
}

/// The variables of the `UserByRestId` request of `user_profile_by_id`, keys in ascending order.
pub open spec fn user_profile_by_id_variables(user_id: Seq<char>) -> JsonTree {
    JsonTree::Record(
        seq![
            ("userId"@, JsonTree::Text(user_id)),
        ],
    )
}

/// The variables of the `UserTweets` request of `user_timeline`, keys in ascending order.
pub open spec fn user_timeline_variables(user_id: Seq<char>, count: Option<u32>, cursor: Option<Seq<char>>) -> JsonTree {
    JsonTree::Record(
        seq![
            ("count"@, count_tree(count, 20)),
            ("cursor"@, cursor_tree(cursor)),
            ("includePromotedContent"@, JsonTree::Bool(true)),
            ("userId"@, JsonTree::Text(user_id)),
            ("withQuickPromoteEligibilityTweetFields"@, JsonTree::Bool(true)),
            ("withVoice"@, JsonTree::Bool(true)),
        ],
    )
}

/// The variables of the `UserTweetsAndReplies` request of `user_replies`, keys in ascending order.
pub open spec fn user_replies_variables(user_id: Seq<char>, count: Option<u32>, cursor: Option<Seq<char>>) -> JsonTree {
    JsonTree::Record(
        seq![
            ("count"@, count_tree(count, 20)),
            ("cursor"@, cursor_tree(cursor)),
            ("includePromotedContent"@, JsonTree::Bool(true)),
            ("userId"@, JsonTree::Text(user_id)),
            ("withCommunity"@, JsonTree::Bool(true)),
            ("withVoice"@, JsonTree::Bool(true)),
        ],
    )
}

/// The variables of the `UserMedia` request of `user_media`, keys in ascending order.
pub open spec fn user_media_variables(user_id: Seq<char>, count: Option<u32>, cursor: Option<Seq<char>>) -> JsonTree {
    JsonTree::Record(
        seq![
            ("count"@, JsonTree::Number(decimal(spec_user_media_count(count) as nat))),
            ("cursor"@, cursor_tree(cursor)),
            ("includePromotedContent"@, JsonTree::Bool(false)),
            ("userId"@, JsonTree::Text(user_id)),
            ("withBirdwatchNotes"@, JsonTree::Bool(false)),
            ("withClientEventToken"@, JsonTree::Bool(false)),
            ("withVoice"@, JsonTree::Bool(true)),
        ],
    )
}

/// The variables of the `Followers` request of `user_followers`, keys in ascending order.
pub open spec fn user_followers_variables(user_id: Seq<char>, count: Option<u32>, cursor: Option<Seq<char>>) -> JsonTree {
    JsonTree::Record(
        seq![
            ("count"@, count_tree(count, 20)),
            ("cursor"@, cursor_tree(cursor)),
            ("includePromotedContent"@, JsonTree::Bool(false)),
            ("userId"@, JsonTree::Text(user_id)),
            ("withGrokTranslatedBio"@, JsonTree::Bool(false)),
        ],
    )
}

/// The variables of the `Following` request of `user_following`, keys in ascending order.
pub open spec fn user_following_variables(user_id: Seq<char>, count: Option<u32>, cursor: Option<Seq<char>>) -> JsonTree {
    JsonTree::Record(
        seq![
            ("count"@, count_tree(count, 20)),
            ("cursor"@, cursor_tree(cursor)),
            ("includePromotedContent"@, JsonTree::Bool(false)),
            ("userId"@, JsonTree::Text(user_id)),
            ("withGrokTranslatedBio"@, JsonTree::Bool(false)),
        ],
    )
}

/// The variables of the `Likes` request of `user_likes`, keys in ascending order.
pub open spec fn user_likes_variables(user_id: Seq<char>, count: Option<u32>, cursor: Option<Seq<char>>) -> JsonTree {
    JsonTree::Record(
        seq![
            ("count"@, count_tree(count, 20)),
            ("cursor"@, cursor_tree(cursor)),
            ("includePromotedContent"@, JsonTree::Bool(false)),
            ("userId"@, JsonTree::Text(user_id)),
            ("withBirdwatchNotes"@, JsonTree::Bool(false)),
            ("withClientEventToken"@, JsonTree::Bool(false)),
            ("withVoice"@, JsonTree::Bool(true)),
        ],
    )
}

/// The variables of the `Bookmarks` request of `user_bookmarks`, keys in ascending order.
pub open spec fn user_bookmarks_variables(count: Option<u32>, cursor: Option<Seq<char>>) -> JsonTree {
    JsonTree::Record(
        seq![
            ("count"@, count_tree(count, 20)),
            ("cursor"@, cursor_tree(cursor)),
            ("includePromotedContent"@, JsonTree::Bool(false)),
        ],
    )
}

/// The variables of the `HomeLatestTimeline` request of `user_followed`, keys in ascending order.
pub open spec fn user_followed_variables(count: Option<u32>, cursor: Option<Seq<char>>) -> JsonTree {
    JsonTree::Record(
        seq![
            ("count"@, count_tree(count, 35)),
            ("cursor"@, cursor_tree(cursor)),
            ("includePromotedContent"@, JsonTree::Bool(false)),
            ("latestControlAvailable"@, JsonTree::Bool(true)),
            ("withCommunity"@, JsonTree::Bool(false)),
        ],
    )
}

/// The variables of the `HomeTimeline` request of `user_recommended`, keys in ascending order.
pub open spec fn user_recommended_variables(count: Option<u32>, cursor: Option<Seq<char>>) -> JsonTree {
    JsonTree::Record(
        seq![
            ("count"@, count_tree(count, 35)),
            ("cursor"@, cursor_tree(cursor)),
            ("includePromotedContent"@, JsonTree::Bool(false)),
            ("latestControlAvailable"@, JsonTree::Bool(true)),
            ("seenTweetIds"@, JsonTree::List(seq![])),
            ("withCommunity"@, JsonTree::Bool(false)),
        ],
    )
}

/// The variables of the `SearchTimeline` request of `search_tweets`, keys in ascending order.
pub open spec fn search_tweets_variables(raw_query: Seq<char>, search_product: Seq<char>, count: Option<u32>, cursor: Option<Seq<char>>) -> JsonTree {
    JsonTree::Record(
        seq![
            ("count"@, count_tree(count, 20)),
            ("cursor"@, cursor_tree(cursor)),
            ("product"@, JsonTree::Text(search_product)),
            ("querySource"@, JsonTree::Text("typed_query"@)),
            ("rawQuery"@, JsonTree::Text(raw_query)),
            ("withGrokTranslatedBio"@, JsonTree::Bool(false)),
        ],
    )
}

/// The variables of the `SearchTimeline` request of `search_users`, keys in ascending order.
pub open spec fn search_users_variables(raw_query: Seq<char>, count: Option<u32>, cursor: Option<Seq<char>>) -> JsonTree {
    JsonTree::Record(
        seq![
            ("count"@, count_tree(count, 20)),
            ("cursor"@, cursor_tree(cursor)),
            ("product"@, JsonTree::Text("People"@)),
            ("querySource"@, JsonTree::Text("typed_query"@)),
            ("rawQuery"@, JsonTree::Text(raw_query)),
            ("withGrokTranslatedBio"@, JsonTree::Bool(false)),
        ],
    )
}

/// The variables of the `TweetResultByRestId` request of `tweet_detail`, keys in ascending order.
pub open spec fn tweet_detail_variables(tweet_id: Seq<char>) -> JsonTree {
    JsonTree::Record(
        seq![
            ("includePromotedContent"@, JsonTree::Bool(false)),
            ("referrer"@, JsonTree::Text("home"@)),
            ("tweetId"@, JsonTree::Text(tweet_id)),
            ("withBirdwatchNotes"@, JsonTree::Bool(false)),
            ("withCommunity"@, JsonTree::Bool(false)),
            ("withQuickPromoteEligibilityTweetFields"@, JsonTree::Bool(false)),
            ("withV2Timeline"@, JsonTree::Bool(false)),
            ("withVoice"@, JsonTree::Bool(false)),
            ("with_rux_injections"@, JsonTree::Bool(false)),
        ],
    )
}

/// The variables of the `TweetDetail` request of `tweet_replies`, keys in ascending order.
pub open spec fn tweet_replies_variables(tweet_id: Seq<char>, cursor: Option<Seq<char>>, ranking_mode: Seq<char>) -> JsonTree {
    JsonTree::Record(
        seq![
            ("cursor"@, cursor_tree(cursor)),
            ("focalTweetId"@, JsonTree::Text(tweet_id)),
            ("includePromotedContent"@, JsonTree::Bool(true)),
            ("rankingMode"@, JsonTree::Text(ranking_mode)),
            ("referrer"@, JsonTree::Text("tweet"@)),
            ("withBirdwatchNotes"@, JsonTree::Bool(true)),
            ("withCommunity"@, JsonTree::Bool(true)),
            ("withQuickPromoteEligibilityTweetFields"@, JsonTree::Bool(true)),
            ("withVoice"@, JsonTree::Bool(true)),
            ("with_rux_injections"@, JsonTree::Bool(false)),
        ],
    )
}

/// The variables of the `Favoriters` request of `tweet_likers`, keys in ascending order.
pub open spec fn tweet_likers_variables(tweet_id: Seq<char>, count: Option<u32>, cursor: Option<Seq<char>>) -> JsonTree {
    JsonTree::Record(
        seq![
            ("count"@, count_tree(count, 20)),
            ("cursor"@, cursor_tree(cursor)),
            ("enableRanking"@, JsonTree::Bool(false)),
            ("includePromotedContent"@, JsonTree::Bool(false)),
            ("tweetId"@, JsonTree::Text(tweet_id)),
        ],
    )
}

/// The variables of the `Retweeters` request of `tweet_retweeters`, keys in ascending order.
pub open spec fn tweet_retweeters_variables(tweet_id: Seq<char>, count: Option<u32>, cursor: Option<Seq<char>>) -> JsonTree {
    JsonTree::Record(
        seq![
            ("count"@, count_tree(count, 20)),
            ("cursor"@, cursor_tree(cursor)),
            ("includePromotedContent"@, JsonTree::Bool(false)),
            ("tweetId"@, JsonTree::Text(tweet_id)),
        ],
    )
}

/// The variables of the `AudioSpaceById` request of `space_detail`, keys in ascending order.
pub open spec fn space_detail_variables(space_id: Seq<char>) -> JsonTree {
    JsonTree::Record(
        seq![
            ("id"@, JsonTree::Text(space_id)),
            ("isMetatagsQuery"@, JsonTree::Bool(false)),
            ("withListeners"@, JsonTree::Bool(false)),
            ("withReplays"@, JsonTree::Bool(true)),
        ],
    )
}

} // verus!
