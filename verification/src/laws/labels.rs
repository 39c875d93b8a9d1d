//! Laws of the labels that panes get, and of the identifiers that are accepted.

use vstd::prelude::*;
use vstd::utf8::{encode_scalar, encode_utf8, is_ascii_chars};

use crate::laws::process::law_decimal_reads_back;
use crate::model::{
    blank, lemma_session_rows, opaque_char, opaque_id, pane_id, pane_token, session_of, squeezed,
    token, voice_label, voice_part, SessionView, SnapshotView, ID_LIMIT, VOICE_LIMIT,
};
use crate::ordered::{ascending, before, keys, lemma_before_asymmetric, lemma_lookup, lookup, Row};
use crate::text::{control, decimal, digit};

verus! {

/// Words with one space between them, and nothing else: no blank but single
/// spaces, and none of them at an end.
pub open spec fn tidy(s: Seq<char>) -> bool {
    &&& s.len() > 0
    &&& !blank(s[0])
    &&& !blank(s.last())
    &&& forall|i: int| 0 <= i < s.len() && blank(#[trigger] s[i]) ==> s[i] == ' '
    &&& forall|i: int| 0 < i < s.len() && blank(#[trigger] s[i]) ==> !blank(s[i - 1])
}

/// The characters that are no blanks, in their order.
pub open spec fn words(s: Seq<char>) -> Seq<char> {
    s.filter(|c: char| !blank(c))
}

proof fn lemma_words_push(s: Seq<char>, c: char)
    ensures
        words(s.push(c)) == if blank(c) {
            words(s)
        } else {
            words(s).push(c)
        },
{
    reveal(Seq::filter);
    assert(s.push(c).drop_last() =~= s);
}

proof fn lemma_squeezed(s: Seq<char>)
    ensures
        squeezed(s).len() <= s.len(),
        squeezed(s).len() > 0 ==> tidy(squeezed(s)),
        squeezed(s).len() > 0 && s.len() > 0 && blank(s.last()) ==> squeezed(s).len() < s.len(),
        words(squeezed(s)) == words(s),
    decreases s.len(),
{
    reveal(Seq::filter);
    if s.len() > 0 {
        let rest = s.drop_last();
        let head = squeezed(rest);
        lemma_squeezed(rest);
        assert(s =~= rest.push(s.last()));
        lemma_words_push(rest, s.last());
        if !blank(s.last()) {
            if s.len() > 1 && blank(s[s.len() - 2]) && head.len() > 0 {
                assert(rest.last() == s[s.len() - 2]);
                lemma_words_push(head, ' ');
                lemma_words_push(head.push(' '), s.last());
            } else {
                lemma_words_push(head, s.last());
            }
        }
    }
}

proof fn lemma_squeezed_tidy(s: Seq<char>)
    requires
        s.len() > 0 ==> !blank(s[0]),
        forall|i: int| 0 <= i < s.len() && blank(#[trigger] s[i]) ==> s[i] == ' ',
        forall|i: int| 0 < i < s.len() && blank(#[trigger] s[i]) ==> !blank(s[i - 1]),
    ensures
        squeezed(s) == if s.len() > 0 && blank(s.last()) {
            s.drop_last()
        } else {
            s
        },
    decreases s.len(),
{
    if s.len() > 0 {
        let rest = s.drop_last();
        assert forall|i: int| 0 <= i < rest.len() && blank(#[trigger] rest[i]) implies rest[i]
            == ' ' by {
            assert(rest[i] == s[i]);
        }
        assert forall|i: int| 0 < i < rest.len() && blank(#[trigger] rest[i]) implies !blank(
            rest[i - 1],
        ) by {
            assert(rest[i] == s[i]);
        }
        if rest.len() > 0 {
            assert(rest[0] == s[0]);
        }
        lemma_squeezed_tidy(rest);
        if blank(s.last()) {
            assert(blank(s[s.len() - 1]));
            assert(!blank(s[s.len() - 2]));
        } else if s.len() > 1 && blank(s[s.len() - 2]) {
            assert(rest.last() == ' ');
            assert(rest.len() > 1);
            assert(rest.drop_last().push(' ') =~= rest);
            assert(rest.push(s.last()) =~= s);
        } else {
            assert(rest.push(s.last()) =~= s);
        }
    }
}

proof fn lemma_voice_is_tidy()
    ensures
        tidy("voice"@),
        "voice"@.len() == 5,
        squeezed("voice"@) == "voice"@,
{
    reveal_strlit("voice");
    lemma_squeezed_tidy("voice"@);
}

/// A voice's label is one line of words with single spaces between them, at most
/// forty-eight characters long and never empty.
pub proof fn law_voice_label_is_tidy(value: Option<Seq<char>>)
    ensures
        tidy(voice_label(value)),
        voice_label(value).len() <= VOICE_LIMIT,
{
    lemma_voice_is_tidy();
    let name = match value {
        Some(name) => name,
        None => "voice"@,
    };
    lemma_squeezed(voice_part(name));
}

/// Tidying a voice's name loses and adds no word: the characters of the label that
/// are no blanks are those of the part of the name that reaches it.
pub proof fn law_voice_label_keeps_the_words(name: Seq<char>)
    ensures
        words(voice_part(name)).len() > 0 ==> words(voice_label(Some(name))) == words(
            voice_part(name),
        ),
        words(voice_part(name)).len() == 0 ==> voice_label(Some(name)) == "voice"@,
{
    let part = voice_part(name);
    lemma_squeezed(part);
    let label = squeezed(part);
    if label.len() > 0 {
        lemma_word(label, 0);
    } else {
        reveal(Seq::filter);
        assert(label =~= seq![]);
    }
}

proof fn lemma_word(s: Seq<char>, i: int)
    requires
        0 <= i < s.len(),
        !blank(s[i]),
    ensures
        words(s).len() > 0,
    decreases s.len(),
{
    reveal(Seq::filter);
    if i < s.len() - 1 {
        lemma_word(s.drop_last(), i);
    }
}

/// A label is its own label.
pub proof fn law_voice_label_is_stable(value: Option<Seq<char>>)
    ensures
        voice_label(Some(voice_label(value))) == voice_label(value),
{
    law_voice_label_is_tidy(value);
    lemma_squeezed_tidy(voice_label(value));
}

proof fn lemma_tidy_join(a: Seq<char>, b: Seq<char>)
    requires
        tidy(a),
        tidy(b),
    ensures
        tidy(a + " "@ + b),
{
    reveal_strlit(" ");
    let s = a + " "@ + b;
    assert forall|i: int| 0 <= i < s.len() && blank(#[trigger] s[i]) implies s[i] == ' ' by {
        if i < a.len() {
            assert(s[i] == a[i]);
        } else if i > a.len() {
            assert(s[i] == b[i - a.len() - 1]);
        }
    }
    assert forall|i: int| 0 < i < s.len() && blank(#[trigger] s[i]) implies !blank(s[i - 1]) by {
        if i < a.len() {
            assert(s[i] == a[i] && s[i - 1] == a[i - 1]);
        } else if i == a.len() {
            assert(s[i - 1] == a.last());
        } else if i == a.len() + 1 {
            assert(s[i] == b[0]);
        } else {
            assert(s[i] == b[i - a.len() - 1] && s[i - 1] == b[i - a.len() - 2]);
        }
    }
    assert(s[0] == a[0]);
    assert(s.last() == b.last());
}

/// What a pane gets is one line of words with single spaces between them: no
/// control character and no line end reaches Herdr.
pub proof fn law_token_is_tidy(session: SessionView, muted: bool)
    ensures
        tidy(token(session, muted)),
{
    law_voice_label_is_tidy(session.voice);
    let voice = voice_label(session.voice);
    let n = decimal(session.queued as nat);
    law_decimal_reads_back(session.queued as nat);
    reveal_strlit(" ");
    reveal_strlit("MUTE ");
    reveal_strlit("MUTE");
    reveal_strlit("SPEAK ");
    reveal_strlit("SPEAK");
    reveal_strlit("WAIT ");
    reveal_strlit("WAIT");
    reveal_strlit("Q");
    assert("MUTE "@ + voice =~= "MUTE"@ + " "@ + voice);
    assert("SPEAK "@ + voice =~= "SPEAK"@ + " "@ + voice);
    assert("WAIT "@ + n + " "@ + voice =~= ("WAIT"@ + " "@ + n) + " "@ + voice);
    lemma_tidy_join("MUTE"@, voice);
    lemma_tidy_join("SPEAK"@, voice);
    assert(tidy(n)) by {
        assert(n[0] == decimal(session.queued as nat)[0]);
    }
    lemma_tidy_join("WAIT"@, n);
    lemma_tidy_join("WAIT"@ + " "@ + n, voice);
    let q = "Q"@ + n;
    assert(tidy(q)) by {
        assert forall|i: int| 0 <= i < q.len() implies !blank(#[trigger] q[i]) by {
            if i > 0 {
                assert(q[i] == n[i - 1]);
            }
        }
    }
    lemma_tidy_join(q, voice);
}

/// Every label that is reported is tidy, and goes to a pane with a well-formed
/// identifier, whatever the snapshot holds.
pub proof fn law_metadata_is_well_formed(snapshot: SnapshotView)
    ensures
        forall|i: int|
            0 <= i < snapshot.metadata().len() ==> pane_id((#[trigger] snapshot.metadata()[i]).0)
                && tidy(snapshot.metadata()[i].1),
{
    let rows = snapshot.metadata();
    let muted = snapshot.activity.muted;
    lemma_session_rows(snapshot.voice_sessions, muted);
    lemma_lookup(rows);
    assert forall|i: int| 0 <= i < rows.len() implies pane_id((#[trigger] rows[i]).0) && tidy(
        rows[i].1,
    ) by {
        let pane = rows[i].0;
        assert(lookup(rows, pane) == Some(rows[i].1));
        assert(lookup(rows, pane) == pane_token(snapshot.voice_sessions, muted, pane));
        law_token_is_tidy(session_of(snapshot.voice_sessions, pane)->0, muted);
    }
}

/// Rows with ascending keys are determined by what they hold for each key.
pub proof fn law_rows_are_determined(a: Seq<Row>, b: Seq<Row>)
    requires
        ascending(keys(a)),
        ascending(keys(b)),
        forall|k: Seq<char>| #[trigger] lookup(a, k) == lookup(b, k),
    ensures
        a == b,
    decreases a.len(),
{
    lemma_lookup(a);
    lemma_lookup(b);
    if a.len() == 0 {
        if b.len() > 0 {
            assert(lookup(b, b[0].0) == Some(b[0].1));
            assert(lookup(a, b[0].0) is None);
        }
        assert(a =~= b);
    } else {
        assert(lookup(a, a[0].0) == Some(a[0].1));
        assert(lookup(b, a[0].0) is Some);
        assert(b.len() > 0);
        let ka = a.last().0;
        let kb = b.last().0;
        assert(a[a.len() - 1] == a.last());
        assert(b[b.len() - 1] == b.last());
        assert(lookup(b, ka) is Some);
        assert(lookup(a, kb) is Some);
        let i = choose|i: int| 0 <= i < b.len() && b[i].0 == ka;
        let j = choose|j: int| 0 <= j < a.len() && a[j].0 == kb;
        if ka != kb {
            assert(keys(b)[i] == ka && keys(b)[b.len() - 1] == kb);
            assert(keys(a)[j] == kb && keys(a)[a.len() - 1] == ka);
            assert(before(ka, kb));
            assert(before(kb, ka));
            lemma_before_asymmetric(ka, kb);
        }
        let ra = a.drop_last();
        let rb = b.drop_last();
        assert(keys(ra) =~= keys(a).drop_last());
        assert(keys(rb) =~= keys(b).drop_last());
        lemma_lookup(ra);
        lemma_lookup(rb);
        assert forall|k: Seq<char>| #[trigger] lookup(ra, k) == lookup(rb, k) by {
            assert(lookup(a, k) == lookup(b, k));
            if k == ka {
                if lookup(ra, k) is Some {
                    let m = choose|m: int| 0 <= m < ra.len() && ra[m].0 == k;
                    assert(keys(a)[m] == ka && keys(a)[a.len() - 1] == ka);
                    lemma_before_asymmetric(ka, ka);
                }
                if lookup(rb, k) is Some {
                    let m = choose|m: int| 0 <= m < rb.len() && rb[m].0 == k;
                    assert(keys(b)[m] == kb && keys(b)[b.len() - 1] == kb);
                    lemma_before_asymmetric(kb, kb);
                }
            }
        }
        law_rows_are_determined(ra, rb);
        assert(a.last() == b.last());
        assert(a =~= ra.push(a.last()));
        assert(b =~= rb.push(b.last()));
    }
}

/// A pane's identifier cannot be taken for an option on a command line.
pub proof fn law_pane_id_is_no_option(pane: Seq<char>)
    requires
        pane_id(pane),
    ensures
        pane[0] != '-',
{
}

/// The byte of an ASCII letter or digit.
pub open spec fn alphanumeric_byte(b: u8) -> bool {
    ||| 97 <= b <= 122
    ||| 65 <= b <= 90
    ||| 48 <= b <= 57
}

/// A byte that an opaque identifier may hold.
pub open spec fn opaque_byte(b: u8) -> bool {
    ||| alphanumeric_byte(b)
    ||| b == 45
    ||| b == 95
    ||| b == 46
}

proof fn lemma_char(c: char)
    ensures
        '\0' <= c,
        c as u32 <= 0x7f <==> c <= '\u{7f}',
{
}

proof fn lemma_ascii_bytes(s: Seq<char>)
    requires
        forall|i: int| 0 <= i < encode_utf8(s).len() ==> #[trigger] encode_utf8(s)[i] < 128,
    ensures
        is_ascii_chars(s),
    decreases s.len(),
{
    if s.len() > 0 {
        let c = s[0] as u32;
        let rest = s.drop_first();
        let head = encode_scalar(c);
        let all = encode_utf8(s);
        assert(all == head + encode_utf8(rest));
        assert forall|i: int| 0 <= i < encode_utf8(rest).len() implies #[trigger] encode_utf8(
            rest,
        )[i] < 128 by {
            assert(encode_utf8(rest)[i] == all[head.len() + i]);
        }
        lemma_ascii_bytes(rest);
        assert(head[0] == all[0]);
        vstd::utf8::char_is_scalar(s[0]);
        lemma_char(s[0]);
        if c > 0x7f {
            assert(vstd::utf8::leading_byte_width_2(c) >= 128) by (bit_vector);
            assert(vstd::utf8::leading_byte_width_3(c) >= 128) by (bit_vector);
            assert(vstd::utf8::leading_byte_width_4(c) >= 128) by (bit_vector);
            assert(head[0] >= 128);
            assert(all[0] < 128);
        }
        assert(s[0] <= '\u{7f}');
        assert forall|i: int| 0 <= i < s.len() implies '\0' <= #[trigger] s[i] <= '\u{7f}' by {
            if i > 0 {
                assert(s[i] == rest[i - 1]);
            }
        }
    }
}

/// Counted and read in bytes, an opaque identifier is the same: up to 120 bytes,
/// each an ASCII letter or digit, a hyphen, an underscore or a dot.
pub proof fn law_opaque_id_in_bytes(s: Seq<char>)
    ensures
        opaque_id(s) <==> {
            &&& 0 < encode_utf8(s).len() <= ID_LIMIT
            &&& forall|i: int|
                0 <= i < encode_utf8(s).len() ==> opaque_byte(#[trigger] encode_utf8(s)[i])
        },
{
    let bytes = encode_utf8(s);
    if opaque_id(s) {
        assert(is_ascii_chars(s)) by {
            assert forall|i: int| 0 <= i < s.len() implies '\0' <= #[trigger] s[i] <= '\u{7f}' by {
                assert(opaque_char(s[i]));
            }
        }
        vstd::utf8::is_ascii_chars_encode_utf8(s);
        assert forall|i: int| 0 <= i < bytes.len() implies opaque_byte(#[trigger] bytes[i]) by {
            assert(opaque_char(s[i]));
            assert(s[i] as u8 == bytes[i]);
        }
    }
    if 0 < bytes.len() <= ID_LIMIT && forall|i: int|
        0 <= i < bytes.len() ==> opaque_byte(#[trigger] bytes[i]) {
        lemma_ascii_bytes(s);
        vstd::utf8::is_ascii_chars_encode_utf8(s);
        assert forall|i: int| 0 <= i < s.len() implies opaque_char(#[trigger] s[i]) by {
            assert(opaque_byte(bytes[i]));
            assert(s[i] as u8 == bytes[i]);
        }
    }
}

/// Counted and read in bytes, a pane's identifier is the same: up to 120 bytes, each one
/// that an opaque identifier may hold or a colon, the first an ASCII letter or digit.
pub proof fn law_pane_id_in_bytes(s: Seq<char>)
    ensures
        pane_id(s) <==> {
            &&& 0 < encode_utf8(s).len() <= ID_LIMIT
            &&& alphanumeric_byte(encode_utf8(s)[0])
            &&& forall|i: int|
                0 <= i < encode_utf8(s).len() ==> opaque_byte(#[trigger] encode_utf8(s)[i])
                    || encode_utf8(s)[i] == 58
        },
{
    let bytes = encode_utf8(s);
    if pane_id(s) {
        assert(is_ascii_chars(s)) by {
            assert forall|i: int| 0 <= i < s.len() implies '\0' <= #[trigger] s[i] <= '\u{7f}' by {
                assert(opaque_char(s[i]) || s[i] == ':');
            }
        }
        vstd::utf8::is_ascii_chars_encode_utf8(s);
        assert(s[0] as u8 == bytes[0]);
        assert forall|i: int| 0 <= i < bytes.len() implies opaque_byte(#[trigger] bytes[i])
            || bytes[i] == 58 by {
            assert(opaque_char(s[i]) || s[i] == ':');
            assert(s[i] as u8 == bytes[i]);
        }
    }
    if 0 < bytes.len() <= ID_LIMIT && alphanumeric_byte(bytes[0]) && forall|i: int|
        0 <= i < bytes.len() ==> opaque_byte(#[trigger] bytes[i]) || bytes[i] == 58 {
        lemma_ascii_bytes(s);
        vstd::utf8::is_ascii_chars_encode_utf8(s);
        assert(s[0] as u8 == bytes[0]);
        assert forall|i: int| 0 <= i < s.len() implies opaque_char(#[trigger] s[i]) || s[i]
            == ':' by {
            assert(opaque_byte(bytes[i]) || bytes[i] == 58);
            assert(s[i] as u8 == bytes[i]);
        }
    }
}

} // verus!
