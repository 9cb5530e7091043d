//! The laws the reducer obeys, stated once over the step relation and proved
//! here for every state and input they speak of.
use vstd::prelude::*;

use crate::action::AppAction;
use crate::app::App;
use crate::errors::{AppError, AppResult};
use crate::executor::{cur_tab, has_tab, step, unchanged};
use crate::pane::{Modal, TableType};

verus! {

/// Applying the empty action leaves the state exactly as it was, with
/// nothing following.
pub proof fn lemma_no_action_is_identity(
    pre: App,
    post: App,
    r: AppResult<Option<AppAction>>,
)
    requires
        step(AppAction::NoAction, pre, post, r),
    ensures
        post == pre,
        r == Ok::<Option<AppAction>, AppError>(None),
{
}

/// Moving the selection up or down by lines keeps it inside the frame and
/// moves it the right way: never down on a `GoUp`, never up on a `GoDown`.
pub proof fn lemma_go_up_down_monotonic(
    lines: usize,
    pre: App,
    post_up: App,
    post_down: App,
    r1: AppResult<Option<AppAction>>,
    r2: AppResult<Option<AppAction>>,
)
    requires
        pre.wf(),
        has_tab(pre),
        step(AppAction::TableGoUp(lines), pre, post_up, r1),
        step(AppAction::TableGoDown(lines), pre, post_down, r2),
    ensures
        cur_tab(post_up).table.selected <= cur_tab(pre).table.selected,
        cur_tab(post_down).table.selected >= cur_tab(pre).table.selected,
        cur_tab(pre).table.frame@.height > 0 ==> cur_tab(post_up).table.selected < cur_tab(
            pre,
        ).table.frame@.height,
        cur_tab(pre).table.frame@.height > 0 ==> cur_tab(post_down).table.selected < cur_tab(
            pre,
        ).table.frame@.height,
{
    assert(cur_tab(pre).wf());
    cur_tab(pre).table.frame.lemma_height_bound();
    let h = cur_tab(pre).table.frame@.height;
    let sel = cur_tab(pre).table.selected;
    assert(post_down.selected_tab == pre.selected_tab);
    assert(cur_tab(post_down).table.selected as int == crate::pane::clamp_row(h, sel + lines));
    if h > 0 {
        assert(sel < h);
        assert(crate::pane::clamp_row(h, sel + lines) >= sel);
    } else {
        assert(sel == 0);
        assert(crate::pane::clamp_row(h, sel + lines) == 0);
    }
}

/// Rolling a search back restores the frame shown when the search opened,
/// content for content; committing keeps the matcher's last result.
pub proof fn lemma_search_rollback_restores(
    pre: App,
    opened: App,
    post: App,
    r1: AppResult<Option<AppAction>>,
    r2: AppResult<Option<AppAction>>,
)
    requires
        pre.wf(),
        has_tab(pre),
        step(AppAction::SearchFuzzyShow, pre, opened, r1),
        step(AppAction::SearchRollback, opened, post, r2),
    ensures
        cur_tab(post).table.frame@ == cur_tab(pre).table.frame@,
        cur_tab(post).modal is Hidden,
{
}

/// Committing a search adopts the matcher's most recent result as the shown
/// frame.
pub proof fn lemma_search_commit_keeps_result(
    pre: App,
    post: App,
    r: AppResult<Option<AppAction>>,
    result: crate::frame::DataFrame,
)
    requires
        pre.wf(),
        has_tab(pre),
        cur_tab(pre).modal matches Modal::SearchBar(sb) && sb.latest == Some(result),
        step(AppAction::SearchCommit, pre, post, r),
    ensures
        cur_tab(post).table.frame == result,
        cur_tab(post).modal is Hidden,
{
}

/// The search edits leave the frame to restore untouched: rolling back after
/// any one edit restores the same frame as rolling back before it.
pub proof fn lemma_search_edit_keeps_rollback(
    a: AppAction,
    pre: App,
    post: App,
    r: AppResult<Option<AppAction>>,
)
    requires
        pre.wf(),
        has_tab(pre),
        crate::executor::is_tab_search(a),
        !(a is SearchRollback),
        !(a is SearchCommit),
        !(a is SearchFuzzyShow),
        !(a is SearchExactShow),
        cur_tab(pre).modal is SearchBar,
        step(a, pre, post, r),
    ensures
        cur_tab(post).modal matches Modal::SearchBar(sb2) && sb2.rollback_frame == cur_tab(
            pre,
        ).modal->SearchBar_0.rollback_frame,
{
    let sb = cur_tab(pre).modal->SearchBar_0;
    let b = choose|b: crate::input::InputState|
        crate::executor::edit_rel(sb.input, a, b) && #[trigger] crate::executor::search_edit_step(
            pre,
            post,
            b,
        );
}

/// Resetting a named tab asks for the very query that reads the whole named
/// table from the catalog, and resetting a query tab asks for its own query
/// again.
pub proof fn lemma_reset_reruns_origin(
    pre: App,
    post: App,
    r: AppResult<Option<AppAction>>,
)
    requires
        pre.wf(),
        has_tab(pre),
        step(AppAction::TableReset, pre, post, r),
    ensures
        unchanged(pre, post),
        cur_tab(pre).table_type matches TableType::Name(n) ==> r matches Ok(f) && f matches Some(
            q,
        ) && q matches AppAction::TableQuery(t) && t@ == "SELECT * FROM '"@ + n@ + "'"@,
        cur_tab(pre).table_type matches TableType::Query(s) ==> r matches Ok(f) && f matches Some(
            q,
        ) && q matches AppAction::TableQuery(t) && t@ == s@,
{
}

/// Removing the last tab, or asking with none open, stops the application.
pub proof fn lemma_last_tab_removal_quits(
    pre: App,
    post: App,
    r: AppResult<Option<AppAction>>,
)
    requires
        pre.tabs@.len() <= 1,
        step(AppAction::TabRemoveOrQuit, pre, post, r),
    ensures
        post.running == false,
{
}

/// Removing the last tab stops the application: the remove action on a
/// one-tab state leaves no tabs and clears the running flag.
pub proof fn lemma_remove_last_tab_quits(
    i: usize,
    pre: App,
    post: App,
    r: AppResult<Option<AppAction>>,
)
    requires
        pre.tabs@.len() == 1,
        i == 0,
        step(AppAction::TabRemove(i), pre, post, r),
    ensures
        post.tabs@.len() == 0,
        post.running == false,
{
}

/// No step strands a running application without tabs: whatever empties the
/// tab list also clears the running flag.
#[verifier::rlimit(100)]
pub proof fn lemma_empty_tabs_means_quit(
    a: AppAction,
    pre: App,
    post: App,
    r: AppResult<Option<AppAction>>,
)
    requires
        pre.wf(),
        pre.tabs@.len() > 0,
        step(a, pre, post, r),
    ensures
        post.tabs@.len() > 0 || post.running == false,
{
}

/// Selecting a tab past the end clamps to the last one, and the selection
/// stays in range whenever tabs are open.
pub proof fn lemma_tab_select_clamps(
    i: usize,
    pre: App,
    post: App,
    r: AppResult<Option<AppAction>>,
)
    requires
        step(AppAction::TabSelect(i), pre, post, r),
        pre.tabs@.len() > 0,
    ensures
        post.selected_tab < pre.tabs@.len(),
        i >= pre.tabs@.len() ==> post.selected_tab == pre.tabs@.len() - 1,
        i < pre.tabs@.len() ==> post.selected_tab == i,
{
}

/// Jumping to the first line of an empty frame changes nothing in the tab.
pub proof fn lemma_goto_line_empty_frame(
    pre: App,
    post: App,
    r: AppResult<Option<AppAction>>,
)
    requires
        pre.wf(),
        has_tab(pre),
        pre.content == crate::app::Content::Tabulars,
        cur_tab(pre).table.frame@.height == 0,
        step(AppAction::GotoLine(0), pre, post, r),
    ensures
        post.tabs@ == pre.tabs@,
        r == Ok::<Option<AppAction>, AppError>(None),
{
    assert(cur_tab(pre).wf());
    assert(cur_tab(pre).table.selected == 0);
    assert(post.tabs@ =~= pre.tabs@.update(
        pre.selected_tab as int,
        cur_tab(pre),
    ));
    assert(post.tabs@ =~= pre.tabs@);
}

} // verus!
