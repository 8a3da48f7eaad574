//! The labels the room lists show.
use vstd::prelude::*;
use vstd::string::StringExecFns;

use vstd::seq_lib::lemma_flatten_concat;

use crate::external::{char_is_alphanumeric, graphemes, is_alphanumeric, is_ascii_alphanumeric};

verus! {

/// What is known of a room's names.
#[derive(Debug, Clone)]
pub struct RoomLabel {
    /// The display name the client computed and cached, if any.
    pub display_name: Option<String>,
    /// The name set in the room's state, if any.
    pub name: Option<String>,
    /// The room id.
    pub room_id: String,
}

/// The name shown for a room: its display name, else its name, else a
/// placeholder.
pub open spec fn room_name_text(room: RoomLabel) -> Seq<char> {
    match room.display_name {
        Some(d) => d@,
        None => match room.name {
            Some(n) => n@,
            None => "Unknown Room"@,
        },
    }
}

/// The heading shown for the open space: its display name, else its name,
/// else its id.
pub open spec fn space_heading_text(room: RoomLabel) -> Seq<char> {
    match room.display_name {
        Some(d) => d@,
        None => match room.name {
            Some(n) => n@,
            None => room.room_id@,
        },
    }
}

/// The characters that may stand in a room's short name: those that
/// `char::is_alphanumeric` accepts, among them every ASCII letter and digit.
pub open spec fn short_name_char(c: char) -> bool {
    char_is_alphanumeric(c) || is_ascii_alphanumeric(c)
}

/// The short name of a room with the given name: its first two alphanumeric
/// characters.
pub open spec fn short_name_text(name: Seq<char>) -> Seq<char> {
    let kept = name.filter(|c: char| short_name_char(c));
    if kept.len() <= 2 {
        kept
    } else {
        kept.take(2)
    }
}

/// The name shown for a room.
pub fn room_name(room: &RoomLabel) -> (r: String)
    ensures
        r@ == room_name_text(*room),
{
    match &room.display_name {
        Some(d) => d.clone(),
        None => match &room.name {
            Some(n) => n.clone(),
            None => String::from_str("Unknown Room"),
        },
    }
}

/// The heading shown for the open space.
pub fn space_heading(room: &RoomLabel) -> (r: String)
    ensures
        r@ == space_heading_text(*room),
{
    match &room.display_name {
        Some(d) => d.clone(),
        None => match &room.name {
            Some(n) => n.clone(),
            None => room.room_id.clone(),
        },
    }
}

/// Keeping the alphanumeric characters of a prefix of a text keeps a prefix
/// of those of the whole text.
proof fn lemma_filter_prefix(q: Seq<char>, s: Seq<char>)
    ensures
        q.filter(|c: char| short_name_char(c)).len() <= (q + s).filter(|c: char| short_name_char(c)).len(),
        (q + s).filter(|c: char| short_name_char(c)).take(
            q.filter(|c: char| short_name_char(c)).len() as int,
        ) == q.filter(|c: char| short_name_char(c)),
{
    let pred = |c: char| short_name_char(c);
    Seq::filter_distributes_over_add(q, s, pred);
    assert((q.filter(pred) + s.filter(pred)).take(q.filter(pred).len() as int) =~= q.filter(pred));
}

/// A text split into clusters reads as the clusters before `k`, then cluster
/// `k` cut at `j`, then the rest.
proof fn lemma_flatten_split(gv: Seq<Seq<char>>, k: int, j: int)
    requires
        0 <= k < gv.len(),
        0 <= j <= gv[k].len(),
    ensures
        gv.flatten() == (gv.take(k).flatten() + gv[k].take(j)) + (gv[k].skip(j) + gv.skip(k
            + 1).flatten()),
{
    assert(gv =~= gv.take(k) + gv.skip(k));
    lemma_flatten_concat(gv.take(k), gv.skip(k));
    assert(gv.skip(k) =~= seq![gv[k]] + gv.skip(k + 1));
    lemma_flatten_concat(seq![gv[k]], gv.skip(k + 1));
    assert(seq![gv[k]].flatten() == gv[k]) by {
        seq![gv[k]].lemma_flatten_singleton();
    }
    assert(gv[k] =~= gv[k].take(j) + gv[k].skip(j));
    assert(gv.flatten() =~= (gv.take(k).flatten() + gv[k].take(j)) + (gv[k].skip(j) + gv.skip(k
        + 1).flatten()));
}

/// The short name of a room, as its avatar placeholder shows it: the first
/// two alphanumeric characters of its name, read grapheme by grapheme.
pub fn room_short_name(room: &RoomLabel) -> (r: String)
    ensures
        r@ == short_name_text(room_name_text(*room)),
{
    let name = room_name(room);
    let gs = graphemes(name.as_str());
    let ghost gv = gs@.map_values(|g: &str| g@);
    let ghost pred = |c: char| short_name_char(c);
    let mut out = String::new();
    let mut found: usize = 0;
    let mut k: usize = 0;
    assert(gv.take(0).flatten() =~= Seq::<char>::empty());
    assert(Seq::<char>::empty().filter(pred) =~= Seq::<char>::empty()) by {
        reveal(Seq::filter);
    }
    while k < gs.len() && found < 2
        invariant
            gv == gs@.map_values(|g: &str| g@),
            gv.flatten() == name@,
            pred == (|c: char| short_name_char(c)),
            k <= gs.len(),
            found == out@.len(),
            found <= 2,
            out@ == name@.filter(pred).take(found as int),
            found <= name@.filter(pred).len(),
            found < 2 ==> out@ == gv.take(k as int).flatten().filter(pred),
        decreases gs.len() - k,
    {
        let g: &str = gs[k];
        let len = g.unicode_len();
        let ghost before = gv.take(k as int).flatten();
        let mut j: usize = 0;
        assert(g@.take(0) =~= Seq::<char>::empty());
        assert(before + g@.take(0) =~= before);
        while j < len && found < 2
            invariant
                gv == gs@.map_values(|g: &str| g@),
                gv.flatten() == name@,
                pred == (|c: char| short_name_char(c)),
                k < gs.len(),
                g@ == gv[k as int],
                before == gv.take(k as int).flatten(),
                len == g@.len(),
                j <= len,
                found == out@.len(),
                found <= 2,
                out@ == name@.filter(pred).take(found as int),
                found <= name@.filter(pred).len(),
            found <= name@.filter(pred).len(),
                out@ == (before + g@.take(j as int)).filter(pred),
            decreases len - j,
        {
            let c = g.get_char(j);
            let ghost prefix = before + g@.take(j as int);
            proof {
                assert(before + g@.take(j + 1) =~= prefix.push(c));
                prefix.lemma_filter_push(c, pred);
            }
            if is_alphanumeric(c) {
                let piece = g.substring_char(j, j + 1);
                assert(piece@ =~= seq![c]);
                out.append(piece);
                found = found + 1;
                assert(out@ =~= prefix.filter(pred).push(c));
            }
            proof {
                lemma_flatten_split(gv, k as int, j + 1);
                lemma_filter_prefix(
                    before + g@.take(j + 1),
                    g@.skip(j + 1) + gv.skip(k + 1).flatten(),
                );
            }
            j = j + 1;
        }
        proof {
            if found < 2 {
                assert(g@.take(j as int) =~= g@);
                assert(gv.take(k + 1) =~= gv.take(k as int).push(gv[k as int]));
                gv.take(k as int).lemma_flatten_push(gv[k as int]);
            }
        }
        k = k + 1;
    }
    proof {
        if found < 2 {
            assert(gv.take(k as int) =~= gv);
        } else {
            let kept = name@.filter(pred);
            if kept.len() <= 2 {
                assert(kept.take(2) =~= kept);
            }
        }
    }
    out
}

/// A short name has at most two characters, all of them alphanumeric.
pub proof fn lemma_short_name_shape(name: Seq<char>)
    ensures
        short_name_text(name).len() <= 2,
        forall|i: int| 0 <= i < short_name_text(name).len() ==> short_name_char(
            #[trigger] short_name_text(name)[i],
        ),
{
    broadcast use vstd::seq_lib::group_filter_ensures;

    let pred = |c: char| short_name_char(c);
    let kept = name.filter(pred);
    assert forall|i: int| 0 <= i < short_name_text(name).len() implies short_name_char(
        #[trigger] short_name_text(name)[i],
    ) by {
        assert(short_name_text(name)[i] == kept[i]);
    }
}

/// ASCII letters and digits are kept in a short name, whatever else the name holds.
pub proof fn lemma_ascii_alphanumerics_kept(c: char)
    requires
        ('0' <= c && c <= '9') || ('a' <= c && c <= 'z') || ('A' <= c && c <= 'Z'),
    ensures
        short_name_char(c),
{
}

/// A name that starts with two ASCII letters or digits is shortened to exactly
/// those two characters.
pub proof fn lemma_short_name_of_ascii_start(c0: char, c1: char, rest: Seq<char>)
    requires
        ('0' <= c0 && c0 <= '9') || ('a' <= c0 && c0 <= 'z') || ('A' <= c0 && c0 <= 'Z'),
        ('0' <= c1 && c1 <= '9') || ('a' <= c1 && c1 <= 'z') || ('A' <= c1 && c1 <= 'Z'),
    ensures
        short_name_text(seq![c0, c1] + rest) == seq![c0, c1],
{
    let pred = |c: char| short_name_char(c);
    rest.lemma_filter_prepend(c1, pred);
    (seq![c1] + rest).lemma_filter_prepend(c0, pred);
    assert(seq![c0, c1] + rest =~= seq![c0] + (seq![c1] + rest));
    let kept = (seq![c0, c1] + rest).filter(pred);
    assert(kept =~= seq![c0, c1] + rest.filter(pred));
    if kept.len() <= 2 {
        assert(rest.filter(pred).len() == 0);
        assert(kept =~= seq![c0, c1]);
    } else {
        assert(kept.take(2) =~= seq![c0, c1]);
    }
}

} // verus!
