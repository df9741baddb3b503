//! Properties that relate several operations of the board and the controller.
use vstd::prelude::*;

use crate::tasks::{is_saved_form, loaded, BoardModel, Task, TaskStatus};
use crate::ui::{ActiveSection, AppModel, AppState, Key};

verus! {

/// The section reached from `s` by the moves of `cmds` (`true` one column right,
/// `false` one column left), each move stopping at Backlog and at Done.
pub open spec fn walk(s: ActiveSection, cmds: Seq<bool>) -> ActiveSection
    decreases cmds.len(),
{
    if cmds.len() == 0 {
        s
    } else {
        let t = if cmds[0] {
            s.next_section()
        } else {
            s.prev_section()
        };
        walk(t, cmds.drop_first())
    }
}

/// The controller after each command of `cmds` was applied to the selected task,
/// the focus following the task: `k` then Right for `true`, `j` then Left for
/// `false`.
pub open spec fn carry(m: AppModel, cmds: Seq<bool>) -> AppModel
    decreases cmds.len(),
{
    if cmds.len() == 0 {
        m
    } else {
        let n = if cmds[0] {
            m.step(Key::Char('k')).step(Key::Right)
        } else {
            m.step(Key::Char('j')).step(Key::Left)
        };
        carry(n, cmds.drop_first())
    }
}

/// The board holds a single task, `text`, in column `c`.
pub open spec fn only_task(b: BoardModel, c: TaskStatus, text: Seq<char>) -> bool {
    &&& b.column(c) == seq![text]
    &&& forall|d: TaskStatus| d != c ==> (#[trigger] b.column(d)).len() == 0
}

/// Promoting and demoting a single task, whatever the order and number of the
/// commands, leaves it with its text in the column that the commands reach one
/// by one, each stopping at the ends: promoting from Done and demoting from
/// Backlog change nothing.
pub proof fn lemma_promote_demote_walk(m: AppModel, cmds: Seq<bool>, text: Seq<char>)
    requires
        m.wf(),
        m.state == AppState::Manage,
        only_task(m.board, m.active.as_status(), text),
    ensures
        carry(m, cmds).active == walk(m.active, cmds),
        carry(m, cmds).state == AppState::Manage,
        only_task(carry(m, cmds).board, walk(m.active, cmds).as_status(), text),
        carry(m, cmds).wf(),
    decreases cmds.len(),
{
    if cmds.len() > 0 {
        let c = m.active.as_status();
        let to = if cmds[0] {
            m.active.next_section()
        } else {
            m.active.prev_section()
        };
        let n = if cmds[0] {
            m.step(Key::Char('k')).step(Key::Right)
        } else {
            m.step(Key::Char('j')).step(Key::Left)
        };
        if to != m.active {
            let b = m.board.moved(c, 0, to.as_status());
            assert(m.board.column(to.as_status()).len() == 0);
            assert(m.board.column(c)[0] == text);
            assert(b.column(c) =~= Seq::<Seq<char>>::empty());
            assert(b.column(to.as_status()) =~= seq![text]);
            assert forall|d: TaskStatus| d != to.as_status() implies (#[trigger] b.column(d)).len()
                == 0 by {
                if d != c {
                    assert(m.board.column(d).len() == 0);
                }
            }
        }
        assert(n.active == to);
        assert(only_task(n.board, to.as_status(), text));
        lemma_promote_demote_walk(n, cmds.drop_first(), text);
    }
}

/// The place of a section in the order Backlog, InProgress, Done, from 0.
pub open spec fn position(s: ActiveSection) -> int {
    match s {
        ActiveSection::Backlog => 0,
        ActiveSection::InProgress => 1,
        ActiveSection::Done => 2,
    }
}

/// The net displacement of `cmds`: one for each move right, minus one for each
/// move left.
pub open spec fn net(cmds: Seq<bool>) -> int
    decreases cmds.len(),
{
    if cmds.len() == 0 {
        0
    } else {
        (if cmds[0] {
            1int
        } else {
            -1int
        }) + net(cmds.drop_first())
    }
}

/// Starting at place `p`, no move of `cmds` would leave the three columns.
pub open spec fn stays_inside(p: int, cmds: Seq<bool>) -> bool
    decreases cmds.len(),
{
    if cmds.len() == 0 {
        true
    } else {
        let q = if cmds[0] {
            p + 1
        } else {
            p - 1
        };
        0 <= q <= 2 && stays_inside(q, cmds.drop_first())
    }
}

/// Where no move runs past an end, the walk ends at the start plus the net
/// displacement; the walk always ends on one of the three sections.
pub proof fn lemma_walk_net_displacement(s: ActiveSection, cmds: Seq<bool>)
    ensures
        0 <= position(walk(s, cmds)) <= 2,
        stays_inside(position(s), cmds) ==> position(walk(s, cmds)) == position(s) + net(cmds),
    decreases cmds.len(),
{
    if cmds.len() > 0 {
        let t = if cmds[0] {
            s.next_section()
        } else {
            s.prev_section()
        };
        lemma_walk_net_displacement(t, cmds.drop_first());
    }
}

/// Promoting from Done and demoting from Backlog leave the controller as it was.
pub proof fn lemma_moves_stop_at_ends(m: AppModel)
    ensures
        m.active == ActiveSection::Done ==> m.promoted() == m,
        m.active == ActiveSection::Backlog ==> m.demoted() == m,
{
}

/// Saving a board and loading what was saved gives the same three columns, with
/// the same texts in the same order.
pub proof fn lemma_save_then_load(b: BoardModel, saved: Vec<Vec<Task>>)
    requires
        is_saved_form(saved@, b),
    ensures
        loaded(Some(saved)) == b,
{
}

/// Deleting the only task of the active column leaves that column empty and the
/// cursor at 0.
pub proof fn lemma_delete_only_task(m: AppModel)
    requires
        m.wf(),
        m.active_len() == 1,
    ensures
        m.deleted().active_len() == 0,
        m.deleted().selected == 0,
{
    assert(m.deleted().board.column(m.active.as_status()) =~= Seq::<Seq<char>>::empty());
}

/// Handling any key keeps the cursor on a row of the active column (at 0 where
/// that column is empty); the active section is always one of the three.
pub proof fn lemma_step_keeps_cursor(m: AppModel, key: Key)
    requires
        m.wf(),
    ensures
        m.step(key).wf(),
{
    let c = m.active.as_status();
    if m.active_len() > 0 {
        let i = m.selected as int;
        let pr = m.active.next_section();
        let de = m.active.prev_section();
        if pr != m.active {
            assert(m.board.moved(c, i, pr.as_status()).column(c) =~= m.board.column(c).remove(i));
        }
        if de != m.active {
            assert(m.board.moved(c, i, de.as_status()).column(c) =~= m.board.column(c).remove(i));
        }
        assert(m.board.removed(c, i).column(c) =~= m.board.column(c).remove(i));
    }
}

} // verus!
