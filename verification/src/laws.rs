//! Laws of the message protocol and the navigation: what holds of every
//! cycle's emission applied in order, of replace-by-name, of cache
//! eviction, and of the scroll-healing operation — stated over the same
//! spec functions the executable contracts use.

use crate::messages::MessageView;
use crate::models::RepositoryView;
use crate::pipeline::plan_cycle_spec;
use crate::state::{
    AppStateView, ensure_visible_scroll, first_name_index, has_name, is_first_name_index,
    refresh_outcome, replace_by_name, spec_apply, spec_apply_all,
};
use vstd::prelude::*;

verus! {

/// The phase 2 item messages for an enhanced listing: one per repository,
/// in order, with one-based progress counters.
pub open spec fn enhanced_item_messages(es: Seq<RepositoryView>, total: usize) -> Seq<MessageView> {
    Seq::new(es.len(), |i: int| MessageView::RepositoryEnhanced {
        repository: es[i],
        current: (i + 1) as usize,
        total: total,
    })
}

/// Everything one successful fetch cycle emits, in emission order, for a
/// basic listing `rs` whose enrichment produced `es`.
pub open spec fn cycle_messages(rs: Seq<RepositoryView>, es: Seq<RepositoryView>) -> Seq<MessageView> {
    plan_cycle_spec(rs) + enhanced_item_messages(es, rs.len() as usize) + seq![
        MessageView::EnhancementCompleted { repositories: es },
    ]
}

/// Applying a snoc'd message sequence is applying the last message to the
/// state the prefix produced.
pub proof fn lemma_apply_all_snoc(s: AppStateView, ms: Seq<MessageView>, m: MessageView, now: u64)
    ensures
        spec_apply_all(s, ms.push(m), now) == spec_apply(spec_apply_all(s, ms, now), m, now),
    decreases ms.len(),
{
    let q = ms.push(m);
    assert(spec_apply_all(s, q, now) == spec_apply_all(spec_apply(s, q[0], now), q.drop_first(), now));
    if ms.len() == 0 {
        assert(q[0] == m);
        assert(q.drop_first() =~= Seq::<MessageView>::empty());
        assert(spec_apply_all(spec_apply(s, m, now), q.drop_first(), now) == spec_apply(s, m, now));
        assert(spec_apply_all(s, ms, now) == s);
    } else {
        assert(q[0] == ms[0]);
        assert(q.drop_first() =~= ms.drop_first().push(m));
        lemma_apply_all_snoc(spec_apply(s, ms[0], now), ms.drop_first(), m, now);
        assert(spec_apply_all(s, ms, now) == spec_apply_all(spec_apply(s, ms[0], now), ms.drop_first(), now));
    }
}

/// Below any position holding `name` there is a first one.
proof fn lemma_first_at_or_below(rs: Seq<RepositoryView>, name: Seq<char>, w: int)
    requires
        0 <= w < rs.len(),
        rs[w].name == name,
    ensures
        exists|i: int| is_first_name_index(rs, name, i),
    decreases w,
{
    if forall|j: int| 0 <= j < w ==> #[trigger] rs[j].name != name {
        assert(is_first_name_index(rs, name, w));
    } else {
        let j = choose|j: int| 0 <= j < w && #[trigger] rs[j].name == name;
        lemma_first_at_or_below(rs, name, j);
    }
}

/// When some entry holds `name`, `first_name_index` is a real first
/// position.
pub proof fn lemma_first_name_exists(rs: Seq<RepositoryView>, name: Seq<char>)
    requires
        has_name(rs, name),
    ensures
        is_first_name_index(rs, name, first_name_index(rs, name)),
{
    let w = choose|i: int| 0 <= i < rs.len() && #[trigger] rs[i].name == name;
    lemma_first_at_or_below(rs, name, w);
    let i = choose|i: int| is_first_name_index(rs, name, i);
    assert(is_first_name_index(rs, name, i));
}

/// Replace-by-name never changes the list's length.
pub proof fn lemma_replace_by_name_len(rs: Seq<RepositoryView>, r: RepositoryView)
    ensures
        replace_by_name(rs, r).len() == rs.len(),
{
    if has_name(rs, r.name) {
        lemma_first_name_exists(rs, r.name);
    }
}

/// Law: an enhanced value whose name occurs exactly once replaces exactly
/// that entry, leaving the length and every other entry unchanged.
pub proof fn lemma_enhanced_replaces_unique(
    s: AppStateView,
    r: RepositoryView,
    current: usize,
    total: usize,
    now: u64,
    i: int,
)
    requires
        0 <= i < s.repositories.len(),
        s.repositories[i].name == r.name,
        forall|j: int| 0 <= j < s.repositories.len() && j != i ==> #[trigger] s.repositories[j].name != r.name,
    ensures
        spec_apply(
            s,
            MessageView::RepositoryEnhanced { repository: r, current, total },
            now,
        ).repositories == s.repositories.update(i, r),
        spec_apply(
            s,
            MessageView::RepositoryEnhanced { repository: r, current, total },
            now,
        ).repositories.len() == s.repositories.len(),
{
    assert(has_name(s.repositories, r.name));
    lemma_first_name_exists(s.repositories, r.name);
    let f = first_name_index(s.repositories, r.name);
    assert(s.repositories[f].name == r.name);
    if f != i {
        assert(s.repositories[f].name != r.name);
    }
}

/// Law: an enhanced value whose name occurs nowhere leaves the list
/// unchanged.
pub proof fn lemma_enhanced_absent_ignored(
    s: AppStateView,
    r: RepositoryView,
    current: usize,
    total: usize,
    now: u64,
)
    requires
        !has_name(s.repositories, r.name),
    ensures
        spec_apply(
            s,
            MessageView::RepositoryEnhanced { repository: r, current, total },
            now,
        ).repositories == s.repositories,
{
}

/// How the state looks after the first `k` messages of one cycle's
/// emission: the list is exactly the fetched prefix while phase 1 items
/// arrive, and keeps the announced length from the basic completion on.
pub proof fn lemma_cycle_prefix_shape(
    s: AppStateView,
    rs: Seq<RepositoryView>,
    es: Seq<RepositoryView>,
    now: u64,
    k: int,
)
    requires
        es.len() == rs.len(),
        0 <= k <= cycle_messages(rs, es).len(),
    ensures
        cycle_messages(rs, es).len() == 2 * rs.len() + 4,
        k == 0 ==> spec_apply_all(s, cycle_messages(rs, es).take(k), now) == s,
        1 <= k <= rs.len() + 1 ==> spec_apply_all(s, cycle_messages(rs, es).take(k), now).repositories == rs.take(
            k - 1,
        ),
        k >= rs.len() + 2 ==> spec_apply_all(s, cycle_messages(rs, es).take(k), now).repositories.len()
            == rs.len(),
    decreases k,
{
    let n = rs.len() as int;
    let cm = cycle_messages(rs, es);
    assert(plan_cycle_spec(rs).len() == n + 3);
    assert(enhanced_item_messages(es, rs.len() as usize).len() == n);
    assert(cm.len() == 2 * n + 4);
    if k == 0 {
        assert(cm.take(0) =~= Seq::<MessageView>::empty());
    } else {
        lemma_cycle_prefix_shape(s, rs, es, now, k - 1);
        let prev = spec_apply_all(s, cm.take(k - 1), now);
        let m = cm[k - 1];
        assert(cm.take(k) =~= cm.take(k - 1).push(m));
        lemma_apply_all_snoc(s, cm.take(k - 1), m, now);
        let cur = spec_apply_all(s, cm.take(k), now);
        assert(cur == spec_apply(prev, m, now));
        let total = rs.len() as usize;
        if k - 1 == 0 {
            assert(m == plan_cycle_spec(rs)[0]);
            assert(m == MessageView::FetchStarted { total });
            assert(cur.repositories =~= rs.take(0));
        } else if k - 1 <= n {
            assert(m == plan_cycle_spec(rs)[k - 1]);
            assert(plan_cycle_spec(rs)[k - 1] == item_messages_at(rs, total, k - 2));
            assert(prev.repositories == rs.take(k - 2));
            assert(cur.repositories == rs.take(k - 2).push(rs[k - 2]));
            assert(cur.repositories =~= rs.take(k - 1));
        } else if k - 1 == n + 1 {
            assert(m == plan_cycle_spec(rs)[n + 1]);
            assert(m == MessageView::FetchCompleted { repositories: rs });
            assert(cur.repositories == rs);
        } else if k - 1 == n + 2 {
            assert(m == plan_cycle_spec(rs)[n + 2]);
            assert(m == MessageView::EnhancementStarted { total });
            assert(cur.repositories == prev.repositories);
        } else if k - 1 <= 2 * n + 2 {
            assert(m == enhanced_item_messages(es, total)[k - 1 - (n + 3)]);
            assert(m is RepositoryEnhanced);
            lemma_replace_by_name_len(prev.repositories, m->RepositoryEnhanced_repository);
            assert(cur.repositories.len() == prev.repositories.len());
        } else {
            assert(k - 1 == 2 * n + 3);
            assert(m == MessageView::EnhancementCompleted { repositories: es });
            assert(cur.repositories == es);
        }
    }
}

/// The phase 1 item message at position `i` of the plan.
pub open spec fn item_messages_at(rs: Seq<RepositoryView>, total: usize, i: int) -> MessageView {
    MessageView::RepositoryFetched { repository: rs[i], current: (i + 1) as usize, total: total }
}

/// Law: applying any prefix of one cycle's emission, from its start event
/// on, never leaves more repositories in the list than the total that the
/// start event announced.
pub proof fn lemma_list_bounded_by_total(
    s: AppStateView,
    rs: Seq<RepositoryView>,
    es: Seq<RepositoryView>,
    now: u64,
    k: int,
)
    requires
        es.len() == rs.len(),
        1 <= k <= cycle_messages(rs, es).len(),
    ensures
        spec_apply_all(s, cycle_messages(rs, es).take(k), now).repositories.len() <= rs.len(),
{
    lemma_cycle_prefix_shape(s, rs, es, now, k);
}

/// Law: a cycle cut short by an error changes no list entry, so the bound
/// on the list length still holds after a fetch error.
pub proof fn lemma_fetch_error_keeps_list(s: AppStateView, error: Seq<char>, now: u64)
    ensures
        spec_apply(s, MessageView::FetchError { error }, now).repositories == s.repositories,
{
}

/// Law: a cycle that emits any prefix of its messages and then fails
/// keeps the list within the announced total too.
pub proof fn lemma_list_bounded_after_error(
    s: AppStateView,
    rs: Seq<RepositoryView>,
    es: Seq<RepositoryView>,
    now: u64,
    k: int,
    error: Seq<char>,
)
    requires
        es.len() == rs.len(),
        1 <= k <= cycle_messages(rs, es).len(),
    ensures
        spec_apply_all(
            s,
            cycle_messages(rs, es).take(k).push(MessageView::FetchError { error }),
            now,
        ).repositories.len() <= rs.len(),
{
    lemma_list_bounded_by_total(s, rs, es, now, k);
    lemma_apply_all_snoc(s, cycle_messages(rs, es).take(k), MessageView::FetchError { error }, now);
}

/// Law: a refresh evicts the current mode's cache entry.
pub proof fn lemma_refresh_evicts(s: AppStateView, now: u64)
    ensures
        !refresh_outcome(s, now).cache.contains_key(s.repo_view_mode),
{
}

/// Law: no message except the two completions writes a cache entry — an
/// absent entry stays absent.
pub proof fn lemma_cache_absent_until_completed(s: AppStateView, m: MessageView, now: u64, key: Option<Seq<char>>)
    requires
        !s.cache.contains_key(key),
        !(m is FetchCompleted),
        !(m is EnhancementCompleted),
    ensures
        !spec_apply(s, m, now).cache.contains_key(key),
{
}

/// Law: a completion writes only the current mode's entry — an absent
/// entry of any other mode stays absent.
pub proof fn lemma_completed_writes_only_current_mode(
    s: AppStateView,
    m: MessageView,
    now: u64,
    key: Option<Seq<char>>,
)
    requires
        !s.cache.contains_key(key),
        key != s.repo_view_mode,
    ensures
        !spec_apply(s, m, now).cache.contains_key(key),
{
}

/// Law: bringing the selection into a window of at least one row is
/// idempotent — a second application returns the same scroll offset, and
/// the selection itself is never touched.
pub proof fn lemma_ensure_visible_idempotent(scroll: usize, selected: usize, visible: usize)
    requires
        visible >= 1,
    ensures
        ensure_visible_scroll(ensure_visible_scroll(scroll, selected, visible), selected, visible)
            == ensure_visible_scroll(scroll, selected, visible),
{
}

} // verus!
