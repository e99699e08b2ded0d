//! Laws of the interface state machine.

use vstd::prelude::*;
use crate::gui::model::{
    add_multiple_paths_model, add_pattern_matches_model, add_single_path_model,
    clear_images_model, image_loaded_model, new_image_paths, next_index, previous_index,
    lists_path, remove_path_model, start_loading, takes_candidate, without, GuiAction, GuiModel,
};
use crate::pathname::same_path;
use crate::gui::paths::{PathCandidate, supported_image_path};
use crate::gui::status::GuiStatus;

verus! {

/// The paths of the candidates.
pub open spec fn candidate_paths(cands: Seq<PathCandidate>) -> Seq<Seq<char>> {
    cands.map_values(|c: PathCandidate| c.path@)
}

/// No entry of `s` is the same path as an entry after it.
pub open spec fn distinct_paths(s: Seq<Seq<char>>) -> bool {
    forall|a: int, b: int| 0 <= a < b < s.len() ==> !same_path(#[trigger] s[a], #[trigger] s[b])
}

proof fn lemma_new_image_paths(m: GuiModel, cands: Seq<PathCandidate>)
    ensures
        forall|i: int|
            0 <= i < new_image_paths(m, cands).len() ==> {
                let p = #[trigger] new_image_paths(m, cands)[i];
                &&& !lists_path(m.input_paths, p)
                &&& !lists_path(m.loading_paths, p)
                &&& supported_image_path(p)
                &&& exists|j: int| 0 <= j < cands.len() && cands[j].path@ == p && cands[j].is_file
            },
        distinct_paths(candidate_paths(cands)) ==> distinct_paths(new_image_paths(m, cands)),
    decreases cands.len(),
{
    if cands.len() > 0 {
        let init = cands.drop_last();
        lemma_new_image_paths(m, init);
        let rest = new_image_paths(m, init);
        let r = new_image_paths(m, cands);
        assert forall|i: int| 0 <= i < init.len() implies #[trigger] candidate_paths(init)[i]
            == candidate_paths(cands)[i] by {}
        assert forall|i: int|
            0 <= i < r.len() implies {
                let p = #[trigger] r[i];
                &&& !lists_path(m.input_paths, p)
                &&& !lists_path(m.loading_paths, p)
                &&& supported_image_path(p)
                &&& exists|j: int| 0 <= j < cands.len() && cands[j].path@ == p && cands[j].is_file
            } by {
            if i < rest.len() {
                let p = rest[i];
                let j = choose|j: int| 0 <= j < init.len() && init[j].path@ == p && init[j].is_file;
                assert(cands[j] == init[j]);
            } else {
                assert(cands[cands.len() - 1] == cands.last());
            }
        }
        if distinct_paths(candidate_paths(cands)) {
            let n = cands.len() - 1;
            assert(distinct_paths(candidate_paths(init))) by {
                assert forall|a: int, b: int| 0 <= a < b < candidate_paths(init).len() implies !same_path(
                    #[trigger] candidate_paths(init)[a],
                    #[trigger] candidate_paths(init)[b],
                ) by {
                    assert(candidate_paths(cands)[a] == candidate_paths(init)[a]);
                    assert(candidate_paths(cands)[b] == candidate_paths(init)[b]);
                }
            }
            if takes_candidate(m, cands.last()) {
                let last = cands.last().path@;
                assert(r == rest.push(last));
                assert forall|a: int, b: int| 0 <= a < b < r.len() implies !same_path(
                    #[trigger] r[a],
                    #[trigger] r[b],
                ) by {
                    if b < rest.len() {
                        assert(r[a] == rest[a] && r[b] == rest[b]);
                    } else {
                        let p = rest[a];
                        assert(r[a] == p);
                        let k = choose|k: int| 0 <= k < init.len() && init[k].path@ == p && init[k].is_file;
                        assert(candidate_paths(cands)[k] == p);
                        assert(candidate_paths(cands)[n] == last);
                    }
                }
            }
        }
    }
}

/// Law: adding files chosen in the dialog or matched by a pattern never lists
/// a path twice, as long as no listed path was the same as another and no
/// offered path is the same as another.
pub proof fn lemma_listed_paths_stay_distinct(m: GuiModel, cands: Seq<PathCandidate>)
    requires
        distinct_paths(m.input_paths),
        distinct_paths(candidate_paths(cands)),
    ensures
        distinct_paths(add_multiple_paths_model(m, cands).0.input_paths),
        distinct_paths(add_pattern_matches_model(m, cands).0.input_paths),
{
    lemma_new_image_paths(m, cands);
    let to_load = new_image_paths(m, cands);
    let listed = m.input_paths + to_load;
    assert forall|a: int, b: int| 0 <= a < b < listed.len() implies !same_path(
        #[trigger] listed[a],
        #[trigger] listed[b],
    ) by {
        let n = m.input_paths.len() as int;
        if b < n {
            assert(listed[a] == m.input_paths[a] && listed[b] == m.input_paths[b]);
        } else if a < n {
            assert(to_load[b - n] == listed[b]);
            assert(listed[a] == m.input_paths[a]);
        } else {
            assert(to_load[a - n] == listed[a]);
            assert(to_load[b - n] == listed[b]);
        }
    }
}

/// Law: a typed path is listed at most once.
pub proof fn lemma_single_path_stays_distinct(m: GuiModel, c: PathCandidate)
    requires
        distinct_paths(m.input_paths),
    ensures
        distinct_paths(add_single_path_model(m, c).0.input_paths),
{
    let listed = m.input_paths.push(c.path@);
    if c.is_file && supported_image_path(c.path@) && !lists_path(m.input_paths, c.path@)
        && !lists_path(m.loading_paths, c.path@) {
        assert forall|a: int, b: int| 0 <= a < b < listed.len() implies !same_path(
            #[trigger] listed[a],
            #[trigger] listed[b],
        ) by {
            assert(listed[a] == m.input_paths[a]);
            if b < m.input_paths.len() {
                assert(listed[b] == m.input_paths[b]);
            }
        }
    }
}

/// Law: every path that adding files lists is a regular file with a
/// supported image extension that was offered, and was the same path as
/// none listed or loading before.
pub proof fn lemma_only_supported_files_listed(m: GuiModel, cands: Seq<PathCandidate>)
    ensures
        ({
            let after = add_multiple_paths_model(m, cands).0.input_paths;
            &&& m.input_paths.is_prefix_of(after)
            &&& forall|i: int|
                m.input_paths.len() <= i < after.len() ==> {
                    &&& supported_image_path(#[trigger] after[i])
                    &&& !lists_path(m.input_paths, after[i])
                    &&& !lists_path(m.loading_paths, after[i])
                    &&& exists|j: int| 0 <= j < cands.len() && cands[j].path@ == after[i] && cands[j].is_file
                }
        }),
        ({
            let after = add_pattern_matches_model(m, cands).0.input_paths;
            &&& m.input_paths.is_prefix_of(after)
            &&& forall|i: int|
                m.input_paths.len() <= i < after.len() ==> {
                    &&& supported_image_path(#[trigger] after[i])
                    &&& !lists_path(m.input_paths, after[i])
                    &&& !lists_path(m.loading_paths, after[i])
                    &&& exists|j: int| 0 <= j < cands.len() && cands[j].path@ == after[i] && cands[j].is_file
                }
        }),
{
    lemma_new_image_paths(m, cands);
    let to_load = new_image_paths(m, cands);
    let n = m.input_paths.len() as int;
    assert forall|i: int| n <= i < n + to_load.len() implies (m.input_paths + to_load)[i] == #[trigger] to_load[i - n] by {}
    assert(m.input_paths.is_prefix_of(m.input_paths + to_load));
}

/// Law: loading paths while a load runs queues them behind what is already
/// queued, touching nothing else; with no load running they start loading at
/// once, counted from zero, and the queue stays as it was.
pub proof fn lemma_loads_queue_in_order(m: GuiModel, paths: Seq<Seq<char>>)
    ensures
        m.is_loading ==> {
            let (after, a) = start_loading(m, paths);
            &&& after.pending_loads == m.pending_loads + paths
            &&& forall|i: int| 0 <= i < m.pending_loads.len() ==> after.pending_loads[i] == m.pending_loads[i]
            &&& after.loading_paths == m.loading_paths
            &&& after.input_paths == m.input_paths
            &&& after.is_loading
            &&& a == GuiAction::Nothing
        },
        !m.is_loading ==> {
            let (after, a) = start_loading(m, paths);
            &&& after.loading_paths == paths
            &&& after.pending_loads == m.pending_loads
            &&& after.is_loading
            &&& after.loaded_count == 0
            &&& after.total_loading == paths.len() as usize
            &&& a == GuiAction::StartLoading
        },
{
}

/// Law: adding a typed path while a load runs queues exactly that path
/// behind the paths already queued; adding files from the dialog or a
/// pattern while a load runs keeps every queued path queued, in its place.
pub proof fn lemma_adding_keeps_queued_paths(m: GuiModel, c: PathCandidate, cands: Seq<PathCandidate>)
    requires
        m.is_loading,
    ensures
        takes_candidate(m, c) ==> add_single_path_model(m, c).0.pending_loads == m.pending_loads.push(c.path@),
        m.pending_loads.is_prefix_of(add_single_path_model(m, c).0.pending_loads),
        m.pending_loads.is_prefix_of(add_multiple_paths_model(m, cands).0.pending_loads),
        m.pending_loads.is_prefix_of(add_pattern_matches_model(m, cands).0.pending_loads),
{
    assert(m.pending_loads + seq![c.path@] =~= m.pending_loads.push(c.path@));
    let to_load = new_image_paths(m, cands);
    assert forall|i: int| 0 <= i < m.pending_loads.len() implies (m.pending_loads + to_load)[i]
        == m.pending_loads[i] by {}
    assert(m.pending_loads.is_prefix_of(m.pending_loads.push(c.path@)));
    assert(m.pending_loads.is_prefix_of(m.pending_loads + to_load));
}

/// Law: any addition that lists a new path marks the HDR image as needing to
/// be made again (which enables "Generate HDR" once loading ends), and an
/// image arriving keeps that mark and the listed paths.
pub proof fn lemma_new_paths_need_new_hdr(m: GuiModel, c: PathCandidate, cands: Seq<PathCandidate>, p: Seq<char>)
    ensures
        add_single_path_model(m, c).0.input_paths.len() > m.input_paths.len() ==> {
            let after = add_single_path_model(m, c).0;
            &&& after.needs_hdr
            &&& after.input_paths == m.input_paths.push(c.path@)
        },
        add_multiple_paths_model(m, cands).0.input_paths.len() > m.input_paths.len()
            ==> add_multiple_paths_model(m, cands).0.needs_hdr,
        add_pattern_matches_model(m, cands).0.input_paths.len() > m.input_paths.len()
            ==> add_pattern_matches_model(m, cands).0.needs_hdr,
        image_loaded_model(m, p).0.needs_hdr == m.needs_hdr,
        image_loaded_model(m, p).0.input_paths == m.input_paths,
        !image_loaded_model(m, p).0.is_generating || m.is_generating,
{
}

/// Law: stepping to the next image after the previous one, or to the previous
/// image after the next one, comes back to where the comparison was.
pub proof fn lemma_compare_steps_invert(i: usize, n: usize)
    requires
        i < n,
    ensures
        previous_index(i, n) < n,
        next_index(i, n) < n,
        next_index(previous_index(i, n), n) == i,
        previous_index(next_index(i, n), n) == i,
{
    if i + 1 < n {
        assert((i + 1) % (n as int) == i + 1) by (nonlinear_arith)
            requires i + 1 < n;
    } else {
        assert((i + 1) % (n as int) == 0) by (nonlinear_arith)
            requires i + 1 == n;
    }
    if i == 0 {
        assert((n as int) % (n as int) == 0) by (nonlinear_arith)
            requires n > 0;
    } else {
        assert((i as int) % (n as int) == i) by (nonlinear_arith)
            requires 0 < i < n;
    }
}

proof fn lemma_without(s: Seq<Seq<char>>, p: Seq<char>)
    ensures
        forall|i: int| 0 <= i < without(s, p).len() ==> !same_path(#[trigger] without(s, p)[i], p),
        forall|q: Seq<char>|
            #![trigger without(s, p).contains(q)]
            #![trigger s.contains(q)]
            without(s, p).contains(q) <==> (s.contains(q) && !same_path(q, p)),
    decreases s.len(),
{
    if s.len() > 0 {
        let init = s.drop_last();
        lemma_without(init, p);
        let rest = without(init, p);
        let w = without(s, p);
        if !same_path(s.last(), p) {
            assert(w == rest.push(s.last()));
        } else {
            assert(w == rest);
        }
        assert forall|i: int| 0 <= i < w.len() implies !same_path(#[trigger] w[i], p) by {
            if i < rest.len() {
                assert(w[i] == rest[i]);
            }
        }
        assert forall|q: Seq<char>| #[trigger] w.contains(q) <==> (s.contains(q) && !same_path(q, p)) by {
            if s.contains(q) && !same_path(q, p) {
                let i = choose|i: int| 0 <= i < s.len() && s[i] == q;
                if i < s.len() - 1 {
                    assert(init[i] == q);
                    assert(init.contains(q));
                    assert(rest.contains(q));
                    let k = choose|k: int| 0 <= k < rest.len() && rest[k] == q;
                    assert(w[k] == q);
                } else {
                    assert(w[rest.len() as int] == q);
                }
            }
            if w.contains(q) {
                let i = choose|i: int| 0 <= i < w.len() && w[i] == q;
                assert(!same_path(w[i], p));
                if !same_path(s.last(), p) && i == rest.len() {
                    assert(s[s.len() - 1] == q);
                } else {
                    assert(rest[i] == q);
                    assert(rest.contains(q));
                    assert(init.contains(q));
                    let k = choose|k: int| 0 <= k < init.len() && init[k] == q;
                    assert(s[k] == q);
                }
            }
        }
    }
}

/// Law: removing a listed image drops every loaded and loading image that
/// is the same path as it, and keeps every other one there.
pub proof fn lemma_remove_path_forgets_image(m: GuiModel, idx: int)
    requires
        0 <= idx < m.input_paths.len(),
    ensures
        ({
            let after = remove_path_model(m, idx);
            let p = m.input_paths[idx];
            &&& !lists_path(after.preloaded, p)
            &&& !lists_path(after.loading_paths, p)
            &&& forall|q: Seq<char>|
                after.preloaded.contains(q) <==> (m.preloaded.contains(q) && !same_path(q, p))
            &&& forall|q: Seq<char>|
                after.loading_paths.contains(q) <==> (m.loading_paths.contains(q) && !same_path(q, p))
            &&& after.input_paths.len() == m.input_paths.len() - 1
            &&& !after.has_hdr && !after.has_preview && after.needs_hdr
        }),
{
    lemma_without(m.preloaded, m.input_paths[idx]);
    lemma_without(m.loading_paths, m.input_paths[idx]);
}

/// Law: when the image that arrives is the one path still loading, loading
/// ends, the channel closes, the status reports the listed images as ready,
/// and a queued batch starts loading next, if there is one.
pub proof fn lemma_last_image_ends_loading(m: GuiModel, path: Seq<char>)
    requires
        m.loading_paths.len() == 1,
        same_path(m.loading_paths[0], path),
        m.loaded_count < usize::MAX,
    ensures
        ({
            let (after, a) = image_loaded_model(m, path);
            &&& after.preloaded == m.preloaded.push(path)
            &&& m.pending_loads.len() == 0 ==> {
                &&& !after.is_loading
                &&& !after.channel_open
                &&& after.loading_paths.len() == 0
                &&& after.status == GuiStatus::ImagesReady(m.input_paths.len() as usize)
                &&& a == GuiAction::Nothing
            }
            &&& m.pending_loads.len() > 0 ==> {
                &&& after.is_loading
                &&& after.loading_paths == m.pending_loads
                &&& after.pending_loads.len() == 0
                &&& a == GuiAction::StartLoading
            }
        }),
{
    assert(without(m.loading_paths, path).len() == 0) by {
        let s = m.loading_paths;
        assert(s.drop_last().len() == 0);
        assert(without(s.drop_last(), path).len() == 0);
        assert(same_path(s.last(), path));
    }
}

/// Law: clearing forgets every image, whatever the state was.
pub proof fn lemma_clear_forgets_everything(m: GuiModel)
    ensures
        ({
            let after = clear_images_model(m);
            &&& after.input_paths.len() == 0
            &&& after.preloaded.len() == 0
            &&& after.loading_paths.len() == 0
            &&& after.pending_loads.len() == 0
            &&& !after.is_loading && !after.is_generating && !after.has_hdr && !after.has_preview
            &&& after.loaded_count == 0 && after.total_loading == 0
        }),
{
}

} // verus!
