//! The guarantees the navigation state machine and the signer give beyond
//! the per-transition contracts: determinism of signing, cursor clamping
//! under iterated moves, harmlessness of moves on empty content, the shape
//! of descend targets, and ascend being a left inverse of descend.

use vstd::prelude::*;

use crate::request::spec_sign_header;
use crate::state::ContentModel;
use crate::state::ItemModel;
use crate::state::NavModel;
use crate::state::OutcomeModel;
use crate::state::StateModel;
use crate::state::spec_step_into;
use crate::state::spec_adjust_delay;
use crate::state::spec_back;
use crate::state::spec_clamped_step;
use crate::state::spec_move;
use crate::state::spec_parent;
use crate::state::spec_step_target;
use crate::text::spec_ends_with_slash;
use crate::text::spec_rfind_slash;
use crate::text::spec_strip_trailing_slashes;

verus! {

/// Signing is deterministic: two header values computed from identical
/// inputs — the injected timestamp included — are identical. Holds because
/// the header is a pure function of its five inputs; the clock is read
/// outside and passed in.
pub proof fn lemma_sign_deterministic(
    h1: Seq<char>,
    h2: Seq<char>,
    ts: u64,
    account: Seq<char>,
    method: Seq<char>,
    path: Seq<char>,
    secret: Seq<char>,
)
    requires
        h1 == spec_sign_header(ts, account, method, path, secret),
        h2 == spec_sign_header(ts, account, method, path, secret),
    ensures
        h1 == h2,
{
}

/// One move keeps the state well formed, touches neither content nor path
/// nor counters, and clamps the cursor; the building block of the iterated
/// move laws.
pub proof fn lemma_move_preserves(s: StateModel, delta: int)
    requires
        s.wf(),
    ensures
        spec_move(s, delta).wf(),
        s is Located ==> spec_move(s, delta) is Located,
        s matches StateModel::Located(nv) ==> {
            let moved = spec_move(s, delta).nav();
            &&& moved.content == nv.content
            &&& moved.url == nv.url
            &&& moved.duration == nv.duration
            &&& moved.ticks == nv.ticks
            &&& moved.sleeps == nv.sleeps
            &&& moved.cursor == spec_clamped_step(nv.cursor, delta, nv.count())
        },
{
}

/// The state after `k` moves by `delta`.
pub open spec fn spec_move_n(s: StateModel, delta: int, k: nat) -> StateModel
    decreases k,
{
    if k == 0 {
        s
    } else {
        spec_move(spec_move_n(s, delta, (k - 1) as nat), delta)
    }
}

proof fn lemma_move_down_cursor(s: StateModel, k: nat)
    requires
        s.wf(),
        s is Located,
        s.nav().cursor == 0,
        s.nav().count() > 0,
    ensures
        spec_move_n(s, 1, k).wf(),
        spec_move_n(s, 1, k) is Located,
        spec_move_n(s, 1, k).nav().content == s.nav().content,
        spec_move_n(s, 1, k).nav().cursor == if k < s.nav().count() {
            k as int
        } else {
            s.nav().count() - 1
        },
    decreases k,
{
    if k > 0 {
        lemma_move_down_cursor(s, (k - 1) as nat);
        lemma_move_preserves(spec_move_n(s, 1, (k - 1) as nat), 1);
    }
}

/// From the first row of a non-empty content of `n` rows, `n - 1` moves
/// down land on the last row, and one more move down stays there: the
/// cursor clamps instead of wrapping.
pub proof fn lemma_move_down_reaches_last(s: StateModel, n: int)
    requires
        s.wf(),
        s is Located,
        s.nav().cursor == 0,
        s.nav().count() == n,
        n > 0,
    ensures
        spec_move_n(s, 1, (n - 1) as nat) is Located,
        spec_move_n(s, 1, (n - 1) as nat).nav().cursor == n - 1,
        spec_move_n(s, 1, n as nat) is Located,
        spec_move_n(s, 1, n as nat).nav().cursor == n - 1,
{
    lemma_move_down_cursor(s, (n - 1) as nat);
    lemma_move_down_cursor(s, n as nat);
}

/// On an empty content — and on an unlocated state — a move in either
/// direction changes nothing at all.
pub proof fn lemma_move_empty_is_noop(s: StateModel, delta: int)
    requires
        s.wf(),
        s matches StateModel::Located(nv) ==> nv.count() == 0,
    ensures
        spec_move(s, delta) == s,
{
}

/// A descend target into a directory entry (size -1) always ends in the
/// path separator; one into a file entry whose name is non-empty and does
/// not itself end in the separator does not. (An empty or
/// separator-terminated entry name is appended as it is, so nothing can be
/// said of the target's last character then.)
pub proof fn lemma_descend_target_shape(nv: NavModel)
    requires
        nv.wf(),
        nv.content matches ContentModel::Listing(rows) && rows.len() > 0 && rows[nv.cursor].name.len()
            > 0 && rows[nv.cursor].name.last() != '/',
    ensures
        spec_step_target(nv) is Some,
        spec_step_target(nv) matches Some((target, is_dir)) ==> {
            &&& (is_dir <==> nv.content->Listing_0[nv.cursor].size == -1)
            &&& (is_dir ==> spec_ends_with_slash(target))
            &&& (!is_dir ==> !spec_ends_with_slash(target))
        },
{
    let rows = nv.content->Listing_0;
    let entry = rows[nv.cursor];
    if entry.size == -1 {
        let target = nv.url + entry.name + seq!['/'];
        assert(target.last() == '/');
    } else {
        let target = nv.url + entry.name;
        assert(target.last() == entry.name.last());
    }
}

/// A successful descend lands on content of the kind the target's shape
/// announced: a directory target installs a listing at a path ending in
/// the separator, a file target installs text at a path that does not end
/// in it (under the same entry-name conditions as
/// [`lemma_descend_target_shape`]).
pub proof fn lemma_descend_content_kind(s: StateModel, o: OutcomeModel)
    requires
        s.wf(),
        s matches StateModel::Located(nv) && nv.content matches ContentModel::Listing(rows)
            && rows.len() > 0 && rows[nv.cursor].name.len() > 0 && rows[nv.cursor].name.last()
            != '/',
    ensures
        ({
            let nv = s.nav();
            let entry = nv.content->Listing_0[nv.cursor];
            let stepped = spec_step_into(s, o);
            &&& (entry.size == -1 && o is Listing ==> stepped is Located && stepped.nav().content
                is Listing && spec_ends_with_slash(stepped.nav().url))
            &&& (entry.size != -1 && o is Text ==> stepped is Located && stepped.nav().content
                is Text && !spec_ends_with_slash(stepped.nav().url))
        }),
{
    lemma_descend_target_shape(s.nav());
}

proof fn lemma_rfind_slash_concat(url: Seq<char>, name: Seq<char>)
    requires
        url.len() > 0,
        url.last() == '/',
        forall|i: int| 0 <= i < name.len() ==> name[i] != '/',
    ensures
        spec_rfind_slash(url + name) == url.len() - 1,
    decreases name.len(),
{
    if name.len() == 0 {
        assert(url + name =~= url);
    } else {
        assert((url + name).last() == name.last());
        assert((url + name).drop_last() =~= url + name.drop_last());
        lemma_rfind_slash_concat(url, name.drop_last());
    }
}

/// Ascend is a left inverse of one descend step: descending from a listing
/// at `url` into an entry named `name` — with or without the trailing
/// separator a directory target gains — and then taking the parent of the
/// new path yields `url` again. The entry name must be non-empty and free
/// of separators; a name containing one genuinely descends more than one
/// level, and ascending then stops one level short.
pub proof fn lemma_ascend_inverts_descend(url: Seq<char>, name: Seq<char>)
    requires
        spec_ends_with_slash(url),
        name.len() > 0,
        !name.contains('/'),
    ensures
        spec_parent(url + name + seq!['/']) == Some(url),
        spec_parent(url + name) == Some(url),
{
    assert(forall|i: int| 0 <= i < name.len() ==> name[i] != '/') by {
        assert forall|i: int| 0 <= i < name.len() implies name[i] != '/' by {
            if name[i] == '/' {
                assert(name.contains('/'));
            }
        }
    }
    let file_target = url + name;
    let dir_target = url + name + seq!['/'];
    assert(file_target.last() == name.last());
    assert(spec_strip_trailing_slashes(file_target) == file_target);
    assert(dir_target.last() == '/');
    assert(dir_target.drop_last() =~= file_target);
    assert(spec_strip_trailing_slashes(dir_target) == spec_strip_trailing_slashes(file_target));
    lemma_rfind_slash_concat(url, name);
    assert(file_target.subrange(0, url.len() as int) =~= url);
}

/// At the level of whole states: descending into a directory entry and
/// then ascending restores the path the descend started from, whatever
/// listings the two fetches returned — the re-fetched parent content may
/// legitimately differ, the location may not. The entry name must be
/// non-empty and separator-free, and the starting path must name a listing
/// (end in the separator).
pub proof fn lemma_ascend_after_descend(s: StateModel, down: Seq<ItemModel>, up: Seq<ItemModel>)
    requires
        s.wf(),
        s matches StateModel::Located(nv) && nv.content matches ContentModel::Listing(rows)
            && rows.len() > 0 && rows[nv.cursor].size == -1 && rows[nv.cursor].name.len() > 0 && !rows[nv.cursor].name.contains(
            '/',
        ),
        spec_ends_with_slash(s.nav().url),
    ensures
        ({
            let descended = spec_step_into(s, OutcomeModel::Listing(down));
            let ascended = spec_back(descended, OutcomeModel::Listing(up));
            &&& descended is Located
            &&& ascended is Located
            &&& ascended.nav().url == s.nav().url
            &&& ascended.nav().content == ContentModel::Listing(up)
            &&& ascended.nav().cursor == 0
        }),
{
    let nv = s.nav();
    let entry = nv.content->Listing_0[nv.cursor];
    lemma_ascend_inverts_descend(nv.url, entry.name);
}

/// However often the delay is adjusted, and in whichever direction, it
/// stays inside `[1, 10]`: each single adjustment of a well-formed state
/// clamps, so no sequence of adjustments can escape the interval.
pub proof fn lemma_delay_stays_clamped(s: StateModel, delta: int)
    requires
        s.wf(),
    ensures
        spec_adjust_delay(s, delta).wf(),
        spec_adjust_delay(s, delta) matches StateModel::Located(nv) ==> 1 <= nv.duration <= 10,
{
}

} // verus!
