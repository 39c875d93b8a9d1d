//! Laws of the labels that Herdr holds.

use vstd::prelude::*;

use crate::bridge::{
    clear_command, clear_commands, dropped, reconciling, set_commands, HerdrCommandView,
};
use crate::model::{lemma_session_rows, SnapshotView};
use crate::ordered::{lookup, Row};

verus! {

/// The labels that Herdr holds, by pane.
pub type Labels = Map<Seq<char>, Seq<char>>;

/// The labels once Herdr has taken a command.
pub open spec fn taken(labels: Labels, command: HerdrCommandView) -> Labels {
    match command {
        HerdrCommandView::Report { pane_id, value: Some(value) } => labels.insert(pane_id, value),
        HerdrCommandView::Report { pane_id, value: None } => labels.remove(pane_id),
        _ => labels,
    }
}

/// The labels once Herdr has taken all the commands.
pub open spec fn taken_all(labels: Labels, commands: Seq<HerdrCommandView>) -> Labels
    decreases commands.len(),
{
    if commands.len() == 0 {
        labels
    } else {
        taken(taken_all(labels, commands.drop_last()), commands.last())
    }
}

/// The labels that a snapshot asks for.
pub open spec fn labels_of(snapshot: SnapshotView) -> Labels {
    Map::new(
        |pane: Seq<char>| snapshot.pane_token(pane) is Some,
        |pane: Seq<char>| snapshot.pane_token(pane)->0,
    )
}

pub(crate) proof fn lemma_taken_first(labels: Labels, commands: Seq<HerdrCommandView>)
    requires
        commands.len() > 0,
    ensures
        taken_all(labels, commands) == taken_all(
            taken(labels, commands[0]),
            commands.drop_first(),
        ),
    decreases commands.len(),
{
    if commands.len() > 1 {
        lemma_taken_first(labels, commands.drop_last());
        assert(commands.drop_last().drop_first() =~= commands.drop_first().drop_last());
    } else {
        assert(commands.drop_last() =~= seq![]);
        assert(commands.drop_first() =~= seq![]);
        assert(taken_all(labels, commands.drop_last()) == labels);
        assert(taken_all(taken(labels, commands[0]), commands.drop_first()) == taken(
            labels,
            commands[0],
        ));
    }
}

/// The label that Herdr holds for a pane.
pub open spec fn label(labels: Labels, pane: Seq<char>) -> Option<Seq<char>> {
    if labels.contains_key(pane) {
        Some(labels[pane])
    } else {
        None
    }
}

proof fn lemma_taken_sets(labels: Labels, rows: Seq<Row>)
    ensures
        forall|pane: Seq<char>| #[trigger]
            label(taken_all(labels, set_commands(rows)), pane) == (
            if lookup(rows, pane) is Some {
                lookup(rows, pane)
            } else {
                label(labels, pane)
            }),
    decreases rows.len(),
{
    let commands = set_commands(rows);
    if rows.len() > 0 {
        let rest = rows.drop_last();
        let fewer = set_commands(rest);
        lemma_taken_sets(labels, rest);
        assert(commands.drop_last() =~= fewer);
        assert forall|pane: Seq<char>| #[trigger] label(taken_all(labels, commands), pane) == (
        if lookup(rows, pane) is Some {
            lookup(rows, pane)
        } else {
            label(labels, pane)
        }) by {
            assert(label(taken_all(labels, fewer), pane) == (if lookup(rest, pane) is Some {
                lookup(rest, pane)
            } else {
                label(labels, pane)
            }));
        }
    }
}

proof fn lemma_taken_clears(labels: Labels, commands: Seq<HerdrCommandView>, panes: Seq<Seq<char>>)
    ensures
        forall|pane: Seq<char>| #[trigger]
            label(
                taken_all(
                    labels,
                    commands + clear_commands(panes),
                ),
                pane,
            ) == (if panes.contains(pane) {
                None
            } else {
                label(taken_all(labels, commands), pane)
            }),
    decreases panes.len(),
{
    let clears = clear_commands(panes);
    if panes.len() == 0 {
        assert(commands + clears =~= commands);
    } else {
        let rest = panes.drop_last();
        lemma_taken_clears(labels, commands, rest);
        let fewer = clear_commands(rest);
        assert((commands + clears).drop_last() =~= commands + fewer);
        assert((commands + clears).last() == clear_command(panes.last()));
        assert forall|pane: Seq<char>| #[trigger]
            label(taken_all(labels, commands + clears), pane) == (if panes.contains(pane) {
                None
            } else {
                label(taken_all(labels, commands), pane)
            }) by {
            assert(label(taken_all(labels, commands + fewer), pane) == (if rest.contains(pane) {
                None
            } else {
                label(taken_all(labels, commands), pane)
            }));
            if rest.contains(pane) {
                let i = choose|i: int| 0 <= i < rest.len() && rest[i] == pane;
                assert(panes[i] == pane);
            }
            if panes.contains(pane) && pane != panes.last() {
                let i = choose|i: int| 0 <= i < panes.len() && panes[i] == pane;
                assert(rest[i] == pane);
            }
            assert(panes[panes.len() - 1] == panes.last());
        }
    }
}

pub(crate) proof fn lemma_dropped(rows: Seq<Row>, seen: Seq<Seq<char>>)
    ensures
        forall|pane: Seq<char>| #[trigger]
            dropped(rows, seen).contains(pane) <==> seen.contains(pane) && lookup(rows, pane) is None,
{
    let gone = |pane: Seq<char>| lookup(rows, pane) is None;
    broadcast use vstd::seq_lib::group_filter_ensures;

    assert forall|pane: Seq<char>| #[trigger] dropped(rows, seen).contains(pane) implies seen.contains(
        pane,
    ) && lookup(rows, pane) is None by {
        let i = choose|i: int| 0 <= i < dropped(rows, seen).len() && dropped(rows, seen)[i] == pane;
        assert(gone(seen.filter(gone)[i]));
        seen.lemma_filter_contains_rev(gone, pane);
    }
    assert forall|pane: Seq<char>|
        seen.contains(pane) && lookup(rows, pane) is None implies #[trigger] dropped(
        rows,
        seen,
    ).contains(pane) by {
        let i = choose|i: int| 0 <= i < seen.len() && seen[i] == pane;
        assert(gone(seen[i]));
    }
}

/// Once Herdr has taken the commands that a snapshot asks for, every pane has the label
/// of that snapshot, whatever labels there were before. A pane seen before that has none
/// in the snapshot has none, and all other panes are left alone.
pub proof fn law_reconciling_restores(
    snapshot: SnapshotView,
    seen: Seq<Seq<char>>,
    labels: Labels,
    pane: Seq<char>,
)
    ensures
        ({
            let after = taken_all(labels, reconciling(snapshot.metadata(), seen));
            label(after, pane) == match snapshot.pane_token(pane) {
                Some(value) => Some(value),
                None => if seen.contains(pane) {
                    None
                } else {
                    label(labels, pane)
                },
            }
        }),
{
    let rows = snapshot.metadata();
    let sets = set_commands(rows);
    lemma_session_rows(snapshot.voice_sessions, snapshot.activity.muted);
    lemma_taken_sets(labels, rows);
    lemma_taken_clears(labels, sets, dropped(rows, seen));
    lemma_dropped(rows, seen);
    assert(lookup(rows, pane) == snapshot.pane_token(pane));
    assert(label(taken_all(labels, sets), pane) == (if lookup(rows, pane) is Some {
        lookup(rows, pane)
    } else {
        label(labels, pane)
    }));
    assert(dropped(rows, seen).contains(pane) <==> seen.contains(pane) && lookup(
        rows,
        pane,
    ) is None);
}

/// Once Herdr has taken the commands that a snapshot asks for, it holds the labels of
/// that snapshot and no others, whatever labels it held for the panes seen before.
pub proof fn law_reconciling_mirrors(
    snapshot: SnapshotView,
    seen: Seq<Seq<char>>,
    labels: Labels,
)
    requires
        forall|pane: Seq<char>| #[trigger] labels.contains_key(pane) ==> seen.contains(pane),
    ensures
        taken_all(labels, reconciling(snapshot.metadata(), seen)) == labels_of(snapshot),
{
    let after = taken_all(labels, reconciling(snapshot.metadata(), seen));
    let asked = labels_of(snapshot);
    assert forall|pane: Seq<char>| label(after, pane) == label(asked, pane) by {
        law_reconciling_restores(snapshot, seen, labels, pane);
    }
    lemma_same_labels(after, asked);
}

proof fn lemma_same_labels(a: Labels, b: Labels)
    requires
        forall|pane: Seq<char>| label(a, pane) == label(b, pane),
    ensures
        a == b,
{
    assert forall|pane: Seq<char>| #[trigger] a.contains_key(pane) <==> b.contains_key(pane) by {
        assert(label(a, pane) == label(b, pane));
    }
    assert forall|pane: Seq<char>| #[trigger] a.contains_key(pane) implies a[pane] == b[pane] by {
        assert(label(a, pane) == label(b, pane));
    }
    assert(a =~= b);
}

/// Once Herdr has taken the clearing of all panes seen, it holds no label.
pub proof fn law_clearing_leaves_nothing(seen: Seq<Seq<char>>, labels: Labels)
    requires
        forall|pane: Seq<char>| #[trigger] labels.contains_key(pane) ==> seen.contains(pane),
    ensures
        taken_all(labels, clear_commands(seen))
            == Labels::empty(),
{
    let clears = clear_commands(seen);
    lemma_taken_clears(labels, seq![], seen);
    assert(Seq::<HerdrCommandView>::empty() + clears =~= clears);
    let none = Labels::empty();
    assert forall|pane: Seq<char>| label(taken_all(labels, clears), pane) == label(none, pane) by {
        assert(label(taken_all(labels, seq![] + clears), pane) == (if seen.contains(pane) {
            None
        } else {
            label(taken_all(labels, seq![]), pane)
        }));
    }
    lemma_same_labels(taken_all(labels, clears), none);
}

} // verus!
