//! Laws of what a status means: which dictation may be shown, and which label each pane
//! gets for its voice session.

use vstd::prelude::*;

use crate::bridge::{dropped, failures, reconciling, HerdrCommandView};
use crate::laws::mirror::lemma_dropped;
use crate::model::{
    lemma_session_rows, opaque_char, opaque_id, pane_id, session_of, squeezed, token, voice_label,
    voice_part, DictationView, SessionView, SnapshotView,
};
use crate::ordered::{ascending, before, keys, lemma_before_asymmetric, lookup, parts_at};
use crate::text::{control, decimal, white_space};

verus! {

/// A character of which a session's identifier is made.
pub open spec fn plain(c: char) -> bool {
    ||| 'a' <= c <= 'z'
    ||| 'A' <= c <= 'Z'
    ||| '0' <= c <= '9'
    ||| c == '-'
    ||| c == '_'
    ||| c == '.'
}

/// An identifier of a session or a lease: 1 to 120 plain characters.
pub open spec fn plain_id(s: Seq<char>) -> bool {
    1 <= s.len() <= 120 && forall|i: int| 0 <= i < s.len() ==> plain(#[trigger] s[i])
}

/// An opaque identifier is one of 1 to 120 plain characters.
pub proof fn law_opaque_ids_are_plain(s: Seq<char>)
    ensures
        opaque_id(s) <==> plain_id(s),
{
    if plain_id(s) {
        assert forall|i: int| 0 <= i < s.len() implies opaque_char(#[trigger] s[i]) by {
            assert(plain(s[i]));
        }
    }
    if opaque_id(s) {
        assert forall|i: int| 0 <= i < s.len() implies plain(#[trigger] s[i]) by {
            assert(opaque_char(s[i]));
        }
    }
}

/// A dictation may be shown for a session exactly if it is recorded or waits to be
/// confirmed, and has that session's identifier, of 1 to 120 plain characters. What was
/// said so far, and who else shows it, makes no difference.
pub proof fn law_shown_states(dictation: DictationView, session_id: Seq<char>)
    ensures
        dictation.presentable_session() == Some(session_id) <==> {
            &&& dictation.state == "recording"@ || dictation.state == "awaiting_confirm"@
            &&& dictation.session_id == Some(session_id)
            &&& plain_id(session_id)
        },
{
    law_opaque_ids_are_plain(session_id);
}

/// Whether a dictation may be shown, and whether its identifier is well formed, are asked
/// apart and together give the session that may be shown.
pub proof fn law_shown_session_has_both(dictation: DictationView)
    ensures
        dictation.presentable() <==> dictation.state == "recording"@ || dictation.state
            == "awaiting_confirm"@,
        dictation.valid_session_id() is Some ==> dictation.valid_session_id()
            == dictation.session_id,
        dictation.valid_session_id() is Some <==> dictation.session_id is Some && plain_id(
            dictation.session_id->0,
        ),
        dictation.presentable_session() is Some <==> dictation.presentable()
            && dictation.valid_session_id() is Some,
        dictation.presentable_session() is Some ==> dictation.presentable_session()
            == dictation.valid_session_id(),
{
    if let Some(id) = dictation.session_id {
        law_opaque_ids_are_plain(id);
    }
}

/// Muted, every session says so, whatever else it does.
pub proof fn law_mute_goes_first(session: SessionView)
    ensures
        token(session, true) == "MUTE "@ + voice_label(session.voice),
{
}

/// A session that speaks says so unless it is muted, whatever is queued behind it and
/// whether or not that is blocked.
pub proof fn law_speech_goes_next(session: SessionView)
    requires
        session.speaking,
    ensures
        token(session, false) == "SPEAK "@ + voice_label(session.voice),
{
}

/// A silent session that is blocked says so, with the number of what waits, none
/// included.
pub proof fn law_waiting_is_counted(session: SessionView)
    requires
        !session.speaking,
        session.blocked,
    ensures
        token(session, false) == "WAIT "@ + decimal(session.queued as nat) + " "@ + voice_label(
            session.voice,
        ),
{
}

/// A silent session that is not blocked shows how much is queued, if anything is, and
/// otherwise its voice alone.
pub proof fn law_queue_is_counted(session: SessionView)
    requires
        !session.speaking,
        !session.blocked,
    ensures
        session.queued > 0 ==> token(session, false) == "Q"@ + decimal(session.queued as nat)
            + " "@ + voice_label(session.voice),
        session.queued == 0 ==> token(session, false) == voice_label(session.voice),
{
}

/// The label does not depend on the pane that gets it.
pub proof fn law_token_is_of_the_session(session: SessionView, pane: Option<Seq<char>>, muted: bool)
    ensures
        token(SessionView { pane_id: pane, ..session }, muted) == token(session, muted),
{
}

/// A character that parts words: a control character or white space.
pub open spec fn gap(c: char) -> bool {
    control(c) || white_space(c)
}

/// There is a word in the text.
pub open spec fn has_word(s: Seq<char>) -> bool {
    exists|i: int| 0 <= i < s.len() && !gap(#[trigger] s[i])
}

proof fn lemma_squeezed_word(s: Seq<char>)
    requires
        forall|i: int| 0 <= i < s.len() ==> !gap(#[trigger] s[i]),
    ensures
        squeezed(s) == s,
    decreases s.len(),
{
    if s.len() > 0 {
        let rest = s.drop_last();
        assert forall|i: int| 0 <= i < rest.len() implies !gap(#[trigger] rest[i]) by {
            assert(rest[i] == s[i]);
        }
        lemma_squeezed_word(rest);
        assert(!gap(s[s.len() - 1]));
        if s.len() > 1 {
            assert(!gap(s[s.len() - 2]));
        }
        assert(rest.push(s.last()) =~= s);
    }
}

proof fn lemma_squeezed_has_word(s: Seq<char>)
    ensures
        squeezed(s).len() > 0 <==> has_word(s),
    decreases s.len(),
{
    if s.len() > 0 {
        let rest = s.drop_last();
        lemma_squeezed_has_word(rest);
        if has_word(rest) {
            let i = choose|i: int| 0 <= i < rest.len() && !gap(#[trigger] rest[i]);
            assert(!gap(s[i]));
        }
        if !gap(s.last()) {
            assert(!gap(s[s.len() - 1]));
        } else if has_word(s) {
            let i = choose|i: int| 0 <= i < s.len() && !gap(#[trigger] s[i]);
            assert(!gap(rest[i]));
        }
    }
}

/// Two labels with a space between them, or the one that is not empty.
spec fn spaced(a: Seq<char>, b: Seq<char>) -> Seq<char> {
    if a.len() == 0 {
        b
    } else if b.len() == 0 {
        a
    } else {
        a.push(' ') + b
    }
}

proof fn lemma_squeezed_parts(a: Seq<char>, c: char, b: Seq<char>)
    requires
        gap(c),
    ensures
        squeezed(a.push(c) + b) == spaced(squeezed(a), squeezed(b)),
    decreases b.len(),
{
    let s = a.push(c) + b;
    if b.len() == 0 {
        assert(s =~= a.push(c));
        assert(s.drop_last() =~= a);
        assert(squeezed(b).len() == 0);
    } else {
        let rest = b.drop_last();
        lemma_squeezed_parts(a, c, rest);
        assert(s.drop_last() =~= a.push(c) + rest);
        assert(s.last() == b.last());
        lemma_squeezed_has_word(rest);
        if !gap(b.last()) {
            if rest.len() > 0 {
                assert(s[s.len() - 2] == b[b.len() - 2]);
                if !gap(b[b.len() - 2]) {
                    assert(!gap(rest[rest.len() - 1]));
                }
            } else {
                assert(s[s.len() - 2] == c);
                assert(squeezed(rest).len() == 0);
            }
            let left = squeezed(a);
            let right = squeezed(rest);
            let x = b.last();
            assert((left.push(' ') + right).push(x) =~= left.push(' ') + right.push(x));
            assert((left.push(' ') + right).push(' ').push(x) =~= left.push(' ') + right.push(
                ' ',
            ).push(x));
            assert(left.push(' ').push(x) =~= left.push(' ') + seq![].push(x));
        }
    }
}

/// A name that is one word is its own label.
pub proof fn law_word_is_its_label(name: Seq<char>)
    requires
        1 <= name.len() <= 48,
        forall|i: int| 0 <= i < name.len() ==> !gap(#[trigger] name[i]),
    ensures
        voice_label(Some(name)) == name,
{
    lemma_squeezed_word(name);
}

/// Whatever parts two pieces of a name, a control character or white space, their labels
/// stand with one space between them. A piece without a word leaves no trace.
pub proof fn law_gaps_become_one_space(a: Seq<char>, c: char, b: Seq<char>)
    requires
        gap(c),
        a.len() + 1 + b.len() <= 48,
    ensures
        ({
            let label = voice_label(Some(a.push(c) + b));
            &&& has_word(a) && has_word(b) ==> label == voice_label(Some(a)) + " "@ + voice_label(
                Some(b),
            )
            &&& has_word(a) && !has_word(b) ==> label == voice_label(Some(a))
            &&& !has_word(a) && has_word(b) ==> label == voice_label(Some(b))
            &&& !has_word(a) && !has_word(b) ==> label == "voice"@
        }),
{
    lemma_squeezed_parts(a, c, b);
    lemma_squeezed_has_word(a);
    lemma_squeezed_has_word(b);
    reveal_strlit(" ");
    assert(squeezed(a).push(' ') =~= squeezed(a) + " "@);
}

/// Of a long name its first forty-eight characters count, gaps among them. A session
/// without a name, or with a name without a word, is labelled `voice`.
pub proof fn law_long_and_missing_names(name: Seq<char>)
    ensures
        name.len() > 48 ==> voice_label(Some(name)) == voice_label(Some(name.take(48))),
        name.len() <= 48 && !has_word(name) ==> voice_label(Some(name)) == "voice"@,
        voice_label(None) == "voice"@,
{
    lemma_squeezed_has_word(voice_part(name));
    reveal_strlit("voice");
    lemma_squeezed_word("voice"@);
}

/// A pane has a label exactly if its identifier is well formed and a session names it, and
/// then it is that of the last session that does.
pub proof fn law_last_session_labels_the_pane(snapshot: SnapshotView, pane: Seq<char>, i: int)
    requires
        0 <= i < snapshot.voice_sessions.len(),
        snapshot.voice_sessions[i].pane_id == Some(pane),
        forall|j: int|
            i < j < snapshot.voice_sessions.len() ==> (
            #[trigger] snapshot.voice_sessions[j]).pane_id != Some(pane),
    ensures
        lookup(snapshot.metadata(), pane) == if pane_id(pane) {
            Some(token(snapshot.voice_sessions[i], snapshot.activity.muted))
        } else {
            None
        },
        lookup(snapshot.metadata(), pane) == snapshot.pane_token(pane),
{
    lemma_session_rows(snapshot.voice_sessions, snapshot.activity.muted);
    lemma_session_of(snapshot.voice_sessions, pane, i);
    assert(lookup(snapshot.metadata(), pane) == snapshot.pane_token(pane));
}

proof fn lemma_session_of(sessions: Seq<SessionView>, pane: Seq<char>, i: int)
    requires
        0 <= i < sessions.len(),
        sessions[i].pane_id == Some(pane),
        forall|j: int| i < j < sessions.len() ==> (#[trigger] sessions[j]).pane_id != Some(pane),
    ensures
        session_of(sessions, pane) == Some(sessions[i]),
    decreases sessions.len(),
{
    if i < sessions.len() - 1 {
        let rest = sessions.drop_last();
        assert(sessions[sessions.len() - 1].pane_id != Some(pane));
        assert forall|j: int| i < j < rest.len() implies (#[trigger] rest[j]).pane_id != Some(
            pane,
        ) by {
            assert(rest[j] == sessions[j]);
        }
        lemma_session_of(rest, pane, i);
    }
}

/// A pane that no session names has no label.
pub proof fn law_unnamed_pane_has_no_label(snapshot: SnapshotView, pane: Seq<char>)
    requires
        forall|j: int|
            0 <= j < snapshot.voice_sessions.len() ==> (
            #[trigger] snapshot.voice_sessions[j]).pane_id != Some(pane),
    ensures
        lookup(snapshot.metadata(), pane) is None,
        snapshot.pane_token(pane) is None,
{
    lemma_session_rows(snapshot.voice_sessions, snapshot.activity.muted);
    lemma_no_session_of(snapshot.voice_sessions, pane);
    assert(lookup(snapshot.metadata(), pane) == snapshot.pane_token(pane));
}

proof fn lemma_no_session_of(sessions: Seq<SessionView>, pane: Seq<char>)
    requires
        forall|j: int| 0 <= j < sessions.len() ==> (#[trigger] sessions[j]).pane_id != Some(pane),
    ensures
        session_of(sessions, pane) is None,
    decreases sessions.len(),
{
    if sessions.len() > 0 {
        let rest = sessions.drop_last();
        assert(sessions[sessions.len() - 1].pane_id != Some(pane));
        assert forall|j: int| 0 <= j < rest.len() implies (#[trigger] rest[j]).pane_id != Some(
            pane,
        ) by {
            assert(rest[j] == sessions[j]);
        }
        lemma_no_session_of(rest, pane);
    }
}

/// Labels come in the order of their panes, each pane once.
pub proof fn law_labels_come_in_order(snapshot: SnapshotView)
    ensures
        forall|i: int, j: int|
            0 <= i < j < snapshot.metadata().len() ==> before(
                (#[trigger] snapshot.metadata()[i]).0,
                (#[trigger] snapshot.metadata()[j]).0,
            ),
        keys(snapshot.metadata()).len() == snapshot.metadata().len(),
        forall|i: int|
            0 <= i < snapshot.metadata().len() ==> #[trigger] keys(snapshot.metadata())[i]
                == snapshot.metadata()[i].0,
{
    let rows = snapshot.metadata();
    lemma_session_rows(snapshot.voice_sessions, snapshot.activity.muted);
    assert forall|i: int, j: int| 0 <= i < j < rows.len() implies before(
        (#[trigger] rows[i]).0,
        (#[trigger] rows[j]).0,
    ) by {
        assert(keys(rows)[i] == rows[i].0 && keys(rows)[j] == rows[j].0);
    }
}

/// Strings stand in the order of a dictionary: a string before all that it begins, and
/// otherwise the first character that differs decides.
pub proof fn law_order_is_that_of_a_dictionary(
    common: Seq<char>,
    x: char,
    y: char,
    a: Seq<char>,
    b: Seq<char>,
)
    ensures
        before(common, common.push(y) + b),
        x < y ==> before(common.push(x) + a, common.push(y) + b),
        !before(common.push(y) + b, common),
        x < y ==> !before(common.push(y) + b, common.push(x) + a),
{
    let i = common.len() as int;
    assert(parts_at(common, common.push(y) + b, i));
    lemma_before_asymmetric(common, common.push(y) + b);
    if x < y {
        assert(parts_at(common.push(x) + a, common.push(y) + b, i));
        lemma_before_asymmetric(common.push(x) + a, common.push(y) + b);
    }
}

/// What a snapshot asks of Herdr is one command for each label, which sets it, in the order
/// of the panes, and then one for each pane seen before that has no label now, which
/// clears it, in the order in which they were seen. Nothing else is asked.
pub proof fn law_commands_of_a_snapshot(snapshot: SnapshotView, seen: Seq<Seq<char>>)
    ensures
        ({
            let rows = snapshot.metadata();
            let commands = reconciling(rows, seen);
            &&& commands.len() >= rows.len()
            &&& forall|i: int|
                0 <= i < rows.len() ==> #[trigger] commands[i] == (HerdrCommandView::Report {
                    pane_id: rows[i].0,
                    value: Some(rows[i].1),
                })
            &&& forall|i: int|
                rows.len() <= i < commands.len() ==> ((#[trigger] commands[i]) matches HerdrCommandView::Report {
                    pane_id,
                    value,
                } && value is None && seen.contains(pane_id) && lookup(rows, pane_id) is None)
            &&& forall|pane: Seq<char>| #[trigger]
                seen.contains(pane) && lookup(rows, pane) is None ==> commands.contains(
                    HerdrCommandView::Report { pane_id: pane, value: None },
                )
        }),
{
    let rows = snapshot.metadata();
    let commands = reconciling(rows, seen);
    let gone = dropped(rows, seen);
    lemma_dropped(rows, seen);
    assert forall|i: int| rows.len() <= i < commands.len() implies ((
    #[trigger] commands[i]) matches HerdrCommandView::Report { pane_id, value } && value is None
        && seen.contains(pane_id) && lookup(rows, pane_id) is None) by {
        assert(gone.contains(gone[i - rows.len()]));
    }
    assert forall|pane: Seq<char>| #[trigger]
        seen.contains(pane) && lookup(rows, pane) is None implies commands.contains(
        HerdrCommandView::Report { pane_id: pane, value: None },
    ) by {
        assert(gone.contains(pane));
        let k = choose|k: int| 0 <= k < gone.len() && gone[k] == pane;
        assert(commands[rows.len() + k] == (HerdrCommandView::Report { pane_id: pane, value: None }));
    }
}

/// Where each pane was seen once, each is cleared at most once: no two commands of a
/// snapshot are about the same pane.
pub proof fn law_commands_name_a_pane_once(snapshot: SnapshotView, seen: Seq<Seq<char>>)
    requires
        ascending(seen),
    ensures
        ({
            let commands = reconciling(snapshot.metadata(), seen);
            let rows = snapshot.metadata();
            forall|i: int, j: int|
                rows.len() <= i < j < commands.len() ==> before(
                    (#[trigger] commands[i])->pane_id,
                    (#[trigger] commands[j])->pane_id,
                )
        }),
{
    let rows = snapshot.metadata();
    let commands = reconciling(rows, seen);
    let gone = dropped(rows, seen);
    lemma_filter_ascends(seen, |pane: Seq<char>| lookup(rows, pane) is None);
    assert forall|i: int, j: int| rows.len() <= i < j < commands.len() implies before(
        (#[trigger] commands[i])->pane_id,
        (#[trigger] commands[j])->pane_id,
    ) by {
        assert(commands[i]->pane_id == gone[i - rows.len()]);
        assert(commands[j]->pane_id == gone[j - rows.len()]);
    }
}

proof fn lemma_filter_ascends(seen: Seq<Seq<char>>, keep: spec_fn(Seq<char>) -> bool)
    requires
        ascending(seen),
    ensures
        ascending(seen.filter(keep)),
    decreases seen.len(),
{
    reveal(Seq::filter);
    if seen.len() > 0 {
        let rest = seen.drop_last();
        let kept = rest.filter(keep);
        lemma_filter_ascends(rest, keep);
        if keep(seen.last()) {
            let all = seen.filter(keep);
            assert forall|i: int, j: int| 0 <= i < j < all.len() implies before(
                #[trigger] all[i],
                #[trigger] all[j],
            ) by {
                if j < kept.len() {
                    assert(before(kept[i], kept[j]));
                } else {
                    rest.lemma_filter_contains_rev(keep, kept[i]);
                    let k = choose|k: int| 0 <= k < rest.len() && rest[k] == kept[i];
                    assert(before(seen[k], seen[seen.len() - 1]));
                }
            }
        }
    }
}

/// Commands that were not taken are counted one by one.
pub proof fn law_failures_add_up(a: Seq<bool>, b: Seq<bool>)
    ensures
        failures(a + b) == failures(a) + failures(b),
        failures(seq![true]) == 0,
        failures(seq![false]) == 1,
        failures(seq![]) == 0,
    decreases b.len(),
{
    assert(seq![true].drop_last() =~= Seq::<bool>::empty());
    assert(seq![false].drop_last() =~= Seq::<bool>::empty());
    assert(failures(Seq::<bool>::empty()) == 0);
    if b.len() == 0 {
        assert(a + b =~= a);
    } else {
        law_failures_add_up(a, b.drop_last());
        assert((a + b).drop_last() =~= a + b.drop_last());
    }
}

/// There are none exactly if every command was taken.
pub proof fn law_no_failures(results: Seq<bool>)
    ensures
        failures(results) == 0 <==> forall|i: int| 0 <= i < results.len() ==> #[trigger] results[i],
        failures(results) <= results.len(),
    decreases results.len(),
{
    if results.len() > 0 {
        let rest = results.drop_last();
        law_no_failures(rest);
        assert(results.last() == results[results.len() - 1]);
        if failures(results) == 0 {
            assert forall|i: int| 0 <= i < results.len() implies #[trigger] results[i] by {
                if i < rest.len() {
                    assert(rest[i]);
                }
            }
        }
        if forall|i: int| 0 <= i < results.len() ==> #[trigger] results[i] {
            assert forall|i: int| 0 <= i < rest.len() implies #[trigger] rest[i] by {
                assert(results[i]);
            }
        }
    }
}

} // verus!
