//! User lists read from X GraphQL instructions: the timeline users they
//! hold, each id once, and their paging cursors.

use vstd::prelude::*;

use crate::error::{upstream_error, AppError};
use crate::kuaishou::json::{json_get, json_member, json_path, path_view, KuaishouJsonValue};
use crate::text::string_eq_str;
use crate::twitter::entities::{json_items, json_text, string_at};
use crate::twitter::transport::opt_text;
use crate::twitter::parse::{first_text, parse_user_profile, profile_error, profile_parsed_from};
use crate::twitter::timeline::{
    collect_cursor, first_cursor, instruction_entries, kind_is,
    lemma_first_cursor_concat, lemma_first_cursor_one, seen_contains, timeline_entries,
};
use crate::twitter::types::{TwitterUserListPage, TwitterUserPage, TwitterUserProfile};
use crate::twitter::values::{
    array_at_path, json_tree, lemma_items_height, lemma_members_height, normalize_upstream_payload,
    normalized, path2, unwrap_user_result, user_result_of, value_height, items_height,
    members_height,
};

verus! {

/// What kind of timeline item a value says it is: its `__typename`, else
/// its `itemType`.
pub open spec fn timeline_item_kind(v: KuaishouJsonValue) -> Option<Seq<char>> {
    match json_get(v, "__typename"@) {
        Some(x) => json_text(Some(x)),
        None => json_text(json_get(v, "itemType"@)),
    }
}

/// The first timeline user found in a value, searching objects member by
/// member and arrays item by item: a `TimelineUser` object gives the user
/// of its `user_results.result` (or nothing) and is not searched further.
pub open spec fn timeline_user(v: KuaishouJsonValue) -> Option<KuaishouJsonValue>
    decreases value_height(v), 0int,
{
    match v {
        KuaishouJsonValue::Object(object) => if timeline_item_kind(v) == Some("TimelineUser"@) {
            match json_path(v, seq!["user_results"@, "result"@]) {
                Some(x) => user_result_of(x),
                None => None,
            }
        } else {
            user_in_members(object.entries@, 0)
        },
        KuaishouJsonValue::Array(items) => user_in_items(items@, 0),
        _ => None,
    }
}

/// The first timeline user among array items from position `i`.
pub open spec fn user_in_items(items: Seq<KuaishouJsonValue>, i: int) -> Option<KuaishouJsonValue>
    decreases items_height(items), items.len() - i,
{
    if 0 <= i < items.len() {
        proof {
            lemma_items_height(items, i);
        }
        match timeline_user(items[i]) {
            Some(u) => Some(u),
            None => user_in_items(items, i + 1),
        }
    } else {
        None
    }
}

/// The first timeline user among member values from position `i`.
pub open spec fn user_in_members(members: Seq<(String, KuaishouJsonValue)>, i: int) -> Option<
    KuaishouJsonValue,
>
    decreases members_height(members), members.len() - i,
{
    if 0 <= i < members.len() {
        proof {
            lemma_members_height(members, i);
        }
        match timeline_user(members[i].1) {
            Some(u) => Some(u),
            None => user_in_members(members, i + 1),
        }
    } else {
        None
    }
}

/// Find the first timeline user in a value (see `timeline_user`).
pub fn find_timeline_user(v: &KuaishouJsonValue) -> (r: Option<&KuaishouJsonValue>)
    ensures
        match r {
            Some(x) => timeline_user(*v) == Some(*x),
            None => timeline_user(*v) is None,
        },
    decreases value_height(*v),
{
    match v {
        KuaishouJsonValue::Object(object) => {
            let kind_matches = match json_member(v, "__typename") {
                Some(KuaishouJsonValue::String(k)) => string_eq_str(k, "TimelineUser"),
                Some(_) => false,
                None => match json_member(v, "itemType") {
                    Some(KuaishouJsonValue::String(k)) => string_eq_str(k, "TimelineUser"),
                    _ => false,
                },
            };
            if kind_matches {
                return match crate::kuaishou::json::json_at_path(v, &path2("user_results", "result")) {
                    Some(x) => unwrap_user_result(x),
                    None => None,
                };
            }
            let entries = &object.entries;
            let mut j = 0usize;
            while j < entries.len()
                invariant
                    *v == KuaishouJsonValue::Object(*object),
                    entries == &object.entries,
                    timeline_item_kind(*v) != Some("TimelineUser"@),
                    j <= entries@.len(),
                    timeline_user(*v) == user_in_members(entries@, j as int),
                decreases entries@.len() - j,
            {
                proof {
                    lemma_members_height(entries@, j as int);
                }
                match find_timeline_user(&entries[j].1) {
                    Some(u) => return Some(u),
                    None => {},
                }
                j += 1;
            }
            None
        },
        KuaishouJsonValue::Array(items) => {
            let mut j = 0usize;
            while j < items.len()
                invariant
                    *v == KuaishouJsonValue::Array(*items),
                    j <= items@.len(),
                    timeline_user(*v) == user_in_items(items@, j as int),
                decreases items@.len() - j,
            {
                proof {
                    lemma_items_height(items@, j as int);
                }
                match find_timeline_user(&items[j]) {
                    Some(u) => return Some(u),
                    None => {},
                }
                j += 1;
            }
            None
        },
        _ => None,
    }
}

/// The id of a user payload.
pub open spec fn user_id_of(u: KuaishouJsonValue) -> Option<Seq<char>> {
    string_at(u, seq!["rest_id"@])
}

/// Whether a user with the given id is already kept.
pub open spec fn user_kept(kept: Seq<KuaishouJsonValue>, id: Seq<char>) -> bool {
    exists|i: int| 0 <= i < kept.len() && user_id_of(#[trigger] kept[i]) == Some(id)
}

/// One timeline entry taken in: an error stays; an entry without a
/// timeline user adds nothing; an unreadable user is an error; a user
/// whose id is kept is skipped; else the user is kept.
pub open spec fn user_step(state: Result<Seq<KuaishouJsonValue>, Seq<char>>, entry: KuaishouJsonValue) -> Result<
    Seq<KuaishouJsonValue>,
    Seq<char>,
> {
    match state {
        Err(m) => Err(m),
        Ok(kept) => match timeline_user(entry) {
            None => Ok(kept),
            Some(u) => match profile_error(u) {
                Some(m) => Err(m),
                None => if user_kept(kept, user_id_of(u).unwrap()) {
                    Ok(kept)
                } else {
                    Ok(kept.push(u))
                },
            },
        },
    }
}

/// Timeline entries taken in, in order, from a start state.
pub open spec fn users_fold(start: Result<Seq<KuaishouJsonValue>, Seq<char>>, entries: Seq<KuaishouJsonValue>) -> Result<
    Seq<KuaishouJsonValue>,
    Seq<char>,
>
    decreases entries.len(),
{
    if entries.len() == 0 {
        start
    } else {
        user_step(users_fold(start, entries.drop_last()), entries.last())
    }
}

proof fn lemma_users_fold_concat(
    start: Result<Seq<KuaishouJsonValue>, Seq<char>>,
    a: Seq<KuaishouJsonValue>,
    b: Seq<KuaishouJsonValue>,
)
    ensures
        users_fold(start, a + b) == users_fold(users_fold(start, a), b),
    decreases b.len(),
{
    if b.len() == 0 {
        assert(a + b =~= a);
    } else {
        lemma_users_fold_concat(start, a, b.drop_last());
        assert((a + b).drop_last() =~= a + b.drop_last());
        assert((a + b).last() == b.last());
    }
}

proof fn lemma_users_fold_err(m: Seq<char>, entries: Seq<KuaishouJsonValue>)
    ensures
        users_fold(Err(m), entries) == Err::<Seq<KuaishouJsonValue>, Seq<char>>(m),
    decreases entries.len(),
{
    if entries.len() > 0 {
        lemma_users_fold_err(m, entries.drop_last());
    }
}

proof fn lemma_users_fold_front(start: Result<Seq<KuaishouJsonValue>, Seq<char>>, entries: Seq<KuaishouJsonValue>)
    requires
        entries.len() > 0,
    ensures
        users_fold(start, entries) == users_fold(user_step(start, entries[0]), entries.drop_first()),
{
    lemma_users_fold_concat(start, seq![entries[0]], entries.drop_first());
    assert(seq![entries[0]] + entries.drop_first() =~= entries);
    assert(seq![entries[0]].drop_last() =~= Seq::<KuaishouJsonValue>::empty());
    assert(users_fold(start, Seq::<KuaishouJsonValue>::empty()) == start);
}

proof fn lemma_timeline_entries_front(instructions: Seq<KuaishouJsonValue>, i: int)
    requires
        0 <= i < instructions.len(),
    ensures
        timeline_entries(instructions.skip(i)) == instruction_entries(instructions[i])
            + timeline_entries(instructions.skip(i + 1)),
    decreases instructions.len() - i,
{
    let s = instructions.skip(i);
    if s.len() == 1 {
        assert(instructions.skip(i + 1) =~= seq![]);
        assert(s.drop_last() =~= seq![]);
        assert(instruction_entries(instructions[i]) + seq![] =~= instruction_entries(
            instructions[i],
        ));
    } else {
        lemma_timeline_entries_front(instructions.drop_last(), i);
        assert(instructions.drop_last().skip(i) =~= s.drop_last());
        assert(instructions.drop_last().skip(i + 1) =~= instructions.skip(i + 1).drop_last());
        assert(s.last() == instructions.skip(i + 1).last());
        assert(timeline_entries(s) =~= instruction_entries(instructions[i]) + timeline_entries(
            instructions.skip(i + 1),
        ));
    }
}

/// The users read so far match the users kept, and the ids seen are
/// theirs.
pub open spec fn users_state(
    users: Seq<TwitterUserProfile>,
    seen: Seq<String>,
    kept: Seq<KuaishouJsonValue>,
) -> bool {
    &&& users.len() == kept.len()
    &&& seen.len() == kept.len()
    &&& forall|i: int| 0 <= i < kept.len() ==> profile_parsed_from(#[trigger] users[i], kept[i])
    &&& forall|i: int| 0 <= i < kept.len() ==> user_id_of(kept[i]) == Some(#[trigger] seen[i]@)
}

/// Take in the timeline user of an entry.
fn collect_users_from_entry(
    entry: &KuaishouJsonValue,
    seen: &mut Vec<String>,
    users: &mut Vec<TwitterUserProfile>,
    Ghost(kept): Ghost<Seq<KuaishouJsonValue>>,
) -> (res: Result<Ghost<Seq<KuaishouJsonValue>>, AppError>)
    requires
        users_state(old(users)@, old(seen)@, kept),
    ensures
        match user_step(Ok(kept), *entry) {
            Err(m) => res matches Err(e) && e.upstream_message() == Some(m),
            Ok(k) => res matches Ok(g) && g@ == k && users_state(final(users)@, final(seen)@, k),
        },
{
    let user = match find_timeline_user(entry) {
        Some(u) => u,
        None => return Ok(Ghost(kept)),
    };
    let profile = parse_user_profile(user)?;
    if seen_contains(seen, &profile.id) {
        assert(user_kept(kept, profile.id@)) by {
            let i = choose|i: int| 0 <= i < seen@.len() && #[trigger] seen@[i]@ == profile.id@;
            assert(user_id_of(kept[i]) == Some(seen@[i]@));
        }
        return Ok(Ghost(kept));
    }
    assert(!user_kept(kept, profile.id@)) by {
        if user_kept(kept, profile.id@) {
            let i = choose|i: int|
                0 <= i < kept.len() && user_id_of(#[trigger] kept[i]) == Some(profile.id@);
            assert(user_id_of(kept[i]) == Some(seen@[i]@));
        }
    }
    seen.push(profile.id.clone());
    users.push(profile);
    let ghost k = kept.push(*user);
    assert(users_state(users@, seen@, k)) by {
        assert forall|i: int| 0 <= i < k.len() implies profile_parsed_from(
            #[trigger] users@[i],
            k[i],
        ) by {
            if i < kept.len() {
                assert(users@[i] == old(users)@[i]);
            }
        }
        assert forall|i: int| 0 <= i < k.len() implies user_id_of(k[i]) == Some(
            #[trigger] seen@[i]@,
        ) by {
            if i < kept.len() {
                assert(seen@[i] == old(seen)@[i]);
            }
        }
    }
    Ok(Ghost(k))
}

/// The users of a run of instructions, each id once, in order, or the
/// first error met while reading them.
pub open spec fn users_outcome(instructions: Seq<KuaishouJsonValue>) -> Result<
    Seq<KuaishouJsonValue>,
    Seq<char>,
> {
    users_fold(Ok(seq![]), timeline_entries(instructions))
}

/// What reading a page of users finds: the instructions at the path and
/// the users kept from them, or why it fails.
pub open spec fn user_page_outcome(
    value: KuaishouJsonValue,
    path: Seq<Seq<char>>,
    context: Seq<char>,
) -> Result<(Seq<KuaishouJsonValue>, Seq<KuaishouJsonValue>), Seq<char>> {
    match json_items(json_path(value, path)) {
        None => Err(context + " is missing instructions"@),
        Some(ins) => match users_outcome(ins) {
            Err(m) => Err(m),
            Ok(kept) => Ok((ins, kept)),
        },
    }
}

/// What a page of users read from instructions holds: the first `limit`
/// users kept, each read from its payload, and the first `Top` and
/// `Bottom` cursors.
pub open spec fn user_page_from(
    users: Seq<TwitterUserProfile>,
    previous_cursor: Option<String>,
    next_cursor: Option<String>,
    kept: Seq<KuaishouJsonValue>,
    instructions: Seq<KuaishouJsonValue>,
    limit: usize,
) -> bool {
    &&& users.len() == (if kept.len() > limit {
        limit as int
    } else {
        kept.len() as int
    })
    &&& forall|i: int| 0 <= i < users.len() ==> profile_parsed_from(#[trigger] users[i], kept[i])
    &&& opt_text(previous_cursor) == first_cursor(timeline_entries(instructions), "Top"@)
    &&& opt_text(next_cursor) == first_cursor(timeline_entries(instructions), "Bottom"@)
}

/// Take in the users and cursors of one instruction.
fn collect_user_instruction(
    ins: &KuaishouJsonValue,
    seen: &mut Vec<String>,
    users: &mut Vec<TwitterUserProfile>,
    previous_cursor: &mut Option<String>,
    next_cursor: &mut Option<String>,
    Ghost(kept): Ghost<Seq<KuaishouJsonValue>>,
) -> (res: Result<Ghost<Seq<KuaishouJsonValue>>, AppError>)
    requires
        users_state(old(users)@, old(seen)@, kept),
    ensures
        match users_fold(Ok(kept), instruction_entries(*ins)) {
            Err(m) => res matches Err(e) && e.upstream_message() == Some(m),
            Ok(k) => res matches Ok(g) && g@ == k && users_state(final(users)@, final(seen)@, k)
                && opt_text(*final(previous_cursor)) == first_text(
                opt_text(*old(previous_cursor)),
                first_cursor(instruction_entries(*ins), "Top"@),
            ) && opt_text(*final(next_cursor)) == first_text(
                opt_text(*old(next_cursor)),
                first_cursor(instruction_entries(*ins), "Bottom"@),
            ),
        },
{
    let ghost added = instruction_entries(*ins);
    if kind_is(ins, "TimelinePinEntry") {
        match json_member(ins, "entry") {
            Some(e) => {
                assert(added == seq![*e]);
                proof {
                    lemma_users_fold_front(Ok(kept), added);
                    assert(added.drop_first() =~= Seq::<KuaishouJsonValue>::empty());
                    lemma_first_cursor_one(*e, "Top"@);
                    lemma_first_cursor_one(*e, "Bottom"@);
                }
                let g = collect_users_from_entry(e, seen, users, Ghost(kept))?;
                collect_cursor(e, previous_cursor, next_cursor);
                return Ok(g);
            },
            None => {
                assert(added =~= Seq::<KuaishouJsonValue>::empty());
                return Ok(Ghost(kept));
            },
        }
    }
    if kind_is(ins, "TimelineAddEntries") {
        match json_member(ins, "entries") {
            Some(KuaishouJsonValue::Array(entries)) => {
                assert(added == entries@);
                let ghost prev0 = opt_text(*previous_cursor);
                let ghost next0 = opt_text(*next_cursor);
                let ghost mut cur = kept;
                assert(entries@.skip(0) =~= entries@);
                assert(entries@.take(0) =~= Seq::<KuaishouJsonValue>::empty());
                for j in 0..entries.len()
                    invariant
                        added == entries@,
                        added == instruction_entries(*ins),
                        users_fold(Ok(kept), entries@) == users_fold(
                            Ok(cur),
                            entries@.skip(j as int),
                        ),
                        users_state(users@, seen@, cur),
                        opt_text(*previous_cursor) == first_text(
                            prev0,
                            first_cursor(entries@.take(j as int), "Top"@),
                        ),
                        opt_text(*next_cursor) == first_text(
                            next0,
                            first_cursor(entries@.take(j as int), "Bottom"@),
                        ),
                {
                    proof {
                        lemma_users_fold_front(Ok(cur), entries@.skip(j as int));
                        assert(entries@.skip(j as int).drop_first() =~= entries@.skip(j + 1));
                    }
                    match collect_users_from_entry(&entries[j], seen, users, Ghost(cur)) {
                        Ok(g) => {
                            proof {
                                cur = g@;
                            }
                        },
                        Err(err) => {
                            proof {
                                match user_step(Ok(cur), entries@[j as int]) {
                                    Err(m) => lemma_users_fold_err(m, entries@.skip(j + 1)),
                                    Ok(_) => {},
                                }
                            }
                            return Err(err);
                        },
                    }
                    collect_cursor(&entries[j], previous_cursor, next_cursor);
                    assert(entries@.take(j + 1).drop_last() =~= entries@.take(j as int));
                    assert(entries@.take(j + 1).last() == entries@[j as int]);
                }
                assert(entries@.skip(entries@.len() as int) =~= Seq::<KuaishouJsonValue>::empty());
                assert(entries@.take(entries@.len() as int) =~= entries@);
                return Ok(Ghost(cur));
            },
            _ => {
                assert(added =~= Seq::<KuaishouJsonValue>::empty());
                return Ok(Ghost(kept));
            },
        }
    }
    assert(added =~= Seq::<KuaishouJsonValue>::empty());
    Ok(Ghost(kept))
}

/// Read a page of users from the instructions at a path of a response.
pub fn parse_user_page_response(
    value: &KuaishouJsonValue,
    instructions_path: &[&str],
    context: &str,
    limit: usize,
) -> (res: Result<TwitterUserPage, AppError>)
    ensures
        match user_page_outcome(*value, path_view(instructions_path@), context@) {
            Err(m) => res matches Err(e) && e.upstream_message() == Some(m),
            Ok((ins, kept)) => res matches Ok(page) && user_page_from(
                page.users@,
                page.previous_cursor,
                page.next_cursor,
                kept,
                ins,
                limit,
            ) && json_tree(page.upstream_payload) == normalized(*value),
        },
{
    let instructions = match array_at_path(value, instructions_path) {
        Some(ins) => ins,
        None => {
            let mut message = context.to_owned();
            message.append(" is missing instructions");
            return Err(upstream_error(message));
        },
    };
    let mut users: Vec<TwitterUserProfile> = Vec::new();
    let mut seen: Vec<String> = Vec::new();
    let mut previous_cursor: Option<String> = None;
    let mut next_cursor: Option<String> = None;
    let ghost mut cur: Seq<KuaishouJsonValue> = seq![];
    assert(instructions@.skip(0) =~= instructions@);
    assert(instructions@.take(0) =~= Seq::<KuaishouJsonValue>::empty());
    for i in 0..instructions.len()
        invariant
            json_items(json_path(*value, path_view(instructions_path@))) == Some(instructions@),
            users_outcome(instructions@) == users_fold(
                Ok(cur),
                timeline_entries(instructions@.skip(i as int)),
            ),
            users_state(users@, seen@, cur),
            opt_text(previous_cursor) == first_cursor(
                timeline_entries(instructions@.take(i as int)),
                "Top"@,
            ),
            opt_text(next_cursor) == first_cursor(
                timeline_entries(instructions@.take(i as int)),
                "Bottom"@,
            ),
    {
        proof {
            lemma_timeline_entries_front(instructions@, i as int);
            lemma_users_fold_concat(
                Ok(cur),
                instruction_entries(instructions@[i as int]),
                timeline_entries(instructions@.skip(i + 1)),
            );
        }
        match collect_user_instruction(
            &instructions[i],
            &mut seen,
            &mut users,
            &mut previous_cursor,
            &mut next_cursor,
            Ghost(cur),
        ) {
            Ok(g) => {
                proof {
                    cur = g@;
                }
            },
            Err(err) => {
                proof {
                    match users_fold(Ok(cur), instruction_entries(instructions@[i as int])) {
                        Err(m) => lemma_users_fold_err(m, timeline_entries(instructions@.skip(i + 1))),
                        Ok(_) => {},
                    }
                }
                return Err(err);
            },
        }
        proof {
            let before = timeline_entries(instructions@.take(i as int));
            let added = instruction_entries(instructions@[i as int]);
            assert(instructions@.take(i + 1).drop_last() =~= instructions@.take(i as int));
            assert(timeline_entries(instructions@.take(i + 1)) == before + added);
            lemma_first_cursor_concat(before, added, "Top"@);
            lemma_first_cursor_concat(before, added, "Bottom"@);
        }
    }
    assert(instructions@.skip(instructions@.len() as int) =~= Seq::<KuaishouJsonValue>::empty());
    assert(instructions@.take(instructions@.len() as int) =~= instructions@);
    if users.len() > limit {
        users.truncate(limit);
    }
    Ok(TwitterUserPage {
        users,
        previous_cursor,
        next_cursor,
        upstream_payload: normalize_upstream_payload(value),
    })
}

/// Read a page of users bound to a profile (followers, following and the
/// like).
pub fn parse_user_list_page_response(
    value: &KuaishouJsonValue,
    user: TwitterUserProfile,
    limit: usize,
) -> (res: Result<TwitterUserListPage, AppError>)
    ensures
        match user_page_outcome(
            *value,
            seq!["data"@, "user"@, "result"@, "timeline"@, "timeline"@, "instructions"@],
            "twitter user page for `"@ + user.screen_name@ + "`"@,
        ) {
            Err(m) => res matches Err(e) && e.upstream_message() == Some(m),
            Ok((ins, kept)) => res matches Ok(page) && page.user == user && user_page_from(
                page.users@,
                page.previous_cursor,
                page.next_cursor,
                kept,
                ins,
                limit,
            ) && json_tree(page.upstream_payload) == normalized(*value),
        },
{
    let mut context = "twitter user page for `".to_owned();
    context.append(user.screen_name.as_str());
    context.append("`");
    let path = ["data", "user", "result", "timeline", "timeline", "instructions"];
    assert(path_view(path@) =~= seq![
        "data"@,
        "user"@,
        "result"@,
        "timeline"@,
        "timeline"@,
        "instructions"@,
    ]);
    let page = parse_user_page_response(value, &path, context.as_str(), limit)?;
    Ok(TwitterUserListPage {
        user,
        users: page.users,
        previous_cursor: page.previous_cursor,
        next_cursor: page.next_cursor,
        upstream_payload: page.upstream_payload,
    })
}

} // verus!
