//! Payload formatting: the JSON wire shapes, stated exactly.
//!
//! Every variable-length payload the bridge hands across the boundary is
//! built here, and each builder's contract states the exact byte sequence it
//! produces.  The wire shapes: an account list is a JSON array of quoted hex
//! ids; a balance is an object with the account id, its fungible assets and
//! two counts; a notes list is an object with an array of note objects and a
//! total count.  Ids and amounts are embedded as handed in: ids are already
//! validated hex strings, so no escaping is ever needed.

use vstd::prelude::*;
use vstd::string::StringSliceAdditionalSpecFns;

use crate::outcome::{AssetView, NoteView};
use crate::views::{lemma_deep_view_push, lemma_vec_u8_deep_view};

verus! {

/// The decimal digits of `n`, most significant first.
pub open spec fn dec_of(n: nat) -> Seq<u8>
    decreases n,
{
    if n < 10 {
        seq![(48 + n) as u8]
    } else {
        dec_of(n / 10) + seq![(48 + (n % 10)) as u8]
    }
}

/// `s` surrounded by double quotes.
pub open spec fn quoted(s: Seq<u8>) -> Seq<u8> {
    ("\"").spec_bytes() + s + ("\"").spec_bytes()
}

/// The parts joined with commas.
pub open spec fn join_comma(parts: Seq<Seq<u8>>) -> Seq<u8>
    decreases parts.len(),
{
    if parts.len() == 0 {
        Seq::empty()
    } else if parts.len() == 1 {
        parts[0]
    } else {
        join_comma(parts.drop_last()) + (",").spec_bytes() + parts.last()
    }
}

/// Joining one more part appends a comma (when anything precedes) and the
/// part.
pub proof fn lemma_join_comma_step(parts: Seq<Seq<u8>>, i: int)
    requires
        0 <= i < parts.len(),
    ensures
        join_comma(parts.take(i + 1)) == if i == 0 {
            parts[0]
        } else {
            join_comma(parts.take(i)) + (",").spec_bytes() + parts[i]
        },
{
    let p1 = parts.take(i + 1);
    if i == 0 {
        assert(p1[0] == parts[0]);
    } else {
        assert(p1.drop_last() =~= parts.take(i));
        assert(p1.last() == parts[i]);
    }
}

/// Each id, quoted.
pub open spec fn quoted_ids(ids: Seq<Vec<u8>>) -> Seq<Seq<u8>>
    decreases ids.len(),
{
    if ids.len() == 0 {
        Seq::empty()
    } else {
        quoted_ids(ids.drop_last()).push(quoted(ids.last()@))
    }
}

/// The account-list payload: a JSON array of quoted hex ids.
pub open spec fn accounts_json(ids: Seq<Vec<u8>>) -> Seq<u8> {
    ("[").spec_bytes() + join_comma(quoted_ids(ids)) + ("]").spec_bytes()
}

/// One fungible asset entry.
pub open spec fn asset_json(faucet_id: Seq<u8>, amount: u64) -> Seq<u8> {
    ("{\"faucet_id\":\"").spec_bytes() + faucet_id + ("\",\"amount\":").spec_bytes() + dec_of(
        amount as nat,
    ) + ("}").spec_bytes()
}

/// The entries of the fungible assets only, in order.
pub open spec fn fungible_jsons(assets: Seq<AssetView>) -> Seq<Seq<u8>>
    decreases assets.len(),
{
    if assets.len() == 0 {
        Seq::empty()
    } else {
        fungible_jsons(assets.drop_last()) + (match assets.last() {
            AssetView::Fungible { faucet_id, amount } => seq![asset_json(faucet_id@, amount)],
            AssetView::NonFungible => Seq::<Seq<u8>>::empty(),
        })
    }
}

/// How many of the assets are non-fungible.
pub open spec fn non_fungible_count(assets: Seq<AssetView>) -> nat
    decreases assets.len(),
{
    if assets.len() == 0 {
        0
    } else {
        non_fungible_count(assets.drop_last()) + (if assets.last() is NonFungible {
            1nat
        } else {
            0nat
        })
    }
}

/// One more asset extends the fungible entries or bumps the non-fungible
/// count.
pub proof fn lemma_assets_step(assets: Seq<AssetView>, i: int)
    requires
        0 <= i < assets.len(),
    ensures
        fungible_jsons(assets.take(i + 1)) == fungible_jsons(assets.take(i)) + (
        match assets[i] {
            AssetView::Fungible { faucet_id, amount } => seq![asset_json(faucet_id@, amount)],
            AssetView::NonFungible => Seq::<Seq<u8>>::empty(),
        }),
        non_fungible_count(assets.take(i + 1)) == non_fungible_count(assets.take(i)) + (
        if assets[i] is NonFungible {
            1nat
        } else {
            0nat
        }),
{
    assert(assets.take(i + 1).drop_last() =~= assets.take(i));
    assert(assets.take(i + 1).last() == assets[i]);
}

/// The balance payload: the account id as queried, the fungible asset
/// entries, and the fungible and non-fungible counts.
pub open spec fn balance_json(account_id: Seq<u8>, assets: Seq<AssetView>) -> Seq<u8> {
    ("{\"account_id\":\"").spec_bytes() + account_id + ("\",\"fungible_assets\":[").spec_bytes()
        + join_comma(fungible_jsons(assets)) + ("],\"total_fungible_count\":").spec_bytes()
        + dec_of(fungible_jsons(assets).len()) + (",\"total_non_fungible_count\":").spec_bytes()
        + dec_of(non_fungible_count(assets)) + ("}").spec_bytes()
}

/// `true` or `false`.
pub open spec fn bool_lit(b: bool) -> Seq<u8> {
    if b {
        ("true").spec_bytes()
    } else {
        ("false").spec_bytes()
    }
}

/// One note entry: its id, its fungible assets, and whether it is
/// authenticated.
pub open spec fn note_json(n: NoteView) -> Seq<u8> {
    ("{\"note_id\":\"").spec_bytes() + n.note_id@ + ("\",\"assets\":[").spec_bytes() + join_comma(
        fungible_jsons(n.assets@),
    ) + ("],\"is_authenticated\":").spec_bytes() + bool_lit(n.is_authenticated) + ("}").spec_bytes()
}

/// The entries of all notes, in order.
pub open spec fn note_jsons(notes: Seq<NoteView>) -> Seq<Seq<u8>>
    decreases notes.len(),
{
    if notes.len() == 0 {
        Seq::empty()
    } else {
        note_jsons(notes.drop_last()).push(note_json(notes.last()))
    }
}

/// The notes payload: the note entries and their total count.
pub open spec fn notes_json(notes: Seq<NoteView>) -> Seq<u8> {
    ("{\"notes\":[").spec_bytes() + join_comma(note_jsons(notes)) + ("],\"total_count\":"
    ).spec_bytes() + dec_of(notes.len()) + ("}").spec_bytes()
}

/// One more note appends its entry.
pub proof fn lemma_notes_step(notes: Seq<NoteView>, i: int)
    requires
        0 <= i < notes.len(),
    ensures
        note_jsons(notes.take(i + 1)) == note_jsons(notes.take(i)).push(note_json(notes[i])),
{
    assert(notes.take(i + 1).drop_last() =~= notes.take(i));
    assert(notes.take(i + 1).last() == notes[i]);
}

/// One more id appends its quoted form.
pub proof fn lemma_quoted_ids_step(ids: Seq<Vec<u8>>, i: int)
    requires
        0 <= i < ids.len(),
    ensures
        quoted_ids(ids.take(i + 1)) == quoted_ids(ids.take(i)).push(quoted(ids[i]@)),
{
    assert(ids.take(i + 1).drop_last() =~= ids.take(i));
    assert(ids.take(i + 1).last() == ids[i]);
}

/// Append an ASCII literal fragment.
pub fn push_lit(out: &mut Vec<u8>, s: &str)
    ensures
        final(out)@ == old(out)@ + s.spec_bytes(),
{
    out.extend_from_slice(s.as_bytes());
}

/// Append the decimal digits of `n`, most significant first.
pub fn push_dec(out: &mut Vec<u8>, n: u64)
    ensures
        final(out)@ == old(out)@ + dec_of(n as nat),
    decreases n,
{
    if n >= 10 {
        push_dec(out, n / 10);
    }
    out.push(48 + (n % 10) as u8);
    proof {
        assert(out@ =~= old(out)@ + dec_of(n as nat));
    }
}

/// Append the parts joined with commas.
#[verifier::loop_isolation(false)]
pub fn push_joined(out: &mut Vec<u8>, parts: &Vec<Vec<u8>>)
    ensures
        final(out)@ == old(out)@ + join_comma(parts.deep_view()),
{
    let mut i: usize = 0;
    while i < parts.len()
        invariant
            0 <= i <= parts@.len(),
            out@ == old(out)@ + join_comma(parts.deep_view().take(i as int)),
        decreases parts@.len() - i,
    {
        if i > 0 {
            push_lit(out, ",");
        }
        out.extend_from_slice(parts[i].as_slice());
        proof {
            lemma_join_comma_step(parts.deep_view(), i as int);
            assert(parts.deep_view()[i as int] == parts@[i as int].deep_view());
            lemma_vec_u8_deep_view(parts@[i as int]);
            assert(out@ =~= old(out)@ + join_comma(parts.deep_view().take(i as int + 1)));
        }
        i = i + 1;
    }
    proof {
        assert(parts.deep_view().take(parts@.len() as int) =~= parts.deep_view());
    }
}

/// Build the account-list payload.
#[verifier::loop_isolation(false)]
pub fn accounts_json_bytes(ids: &Vec<Vec<u8>>) -> (out: Vec<u8>)
    ensures
        out@ == accounts_json(ids@),
{
    let mut parts: Vec<Vec<u8>> = Vec::new();
    let mut i: usize = 0;
    proof {
        assert(parts.deep_view() =~= quoted_ids(ids@.take(0)));
    }
    while i < ids.len()
        invariant
            0 <= i <= ids@.len(),
            parts.deep_view() == quoted_ids(ids@.take(i as int)),
        decreases ids@.len() - i,
    {
        let mut q: Vec<u8> = Vec::new();
        push_lit(&mut q, "\"");
        q.extend_from_slice(ids[i].as_slice());
        push_lit(&mut q, "\"");
        proof {
            assert(q@ =~= quoted(ids@[i as int]@));
        }
        let ghost pre_parts = parts;
        let ghost q_vec = q;
        parts.push(q);
        proof {
            lemma_deep_view_push(pre_parts, parts, q_vec);
            lemma_quoted_ids_step(ids@, i as int);
            assert(parts.deep_view() =~= quoted_ids(ids@.take(i as int + 1)));
        }
        i = i + 1;
    }
    proof {
        assert(ids@.take(ids@.len() as int) =~= ids@);
    }
    let mut out: Vec<u8> = Vec::new();
    push_lit(&mut out, "[");
    push_joined(&mut out, &parts);
    push_lit(&mut out, "]");
    proof {
        assert(out@ =~= accounts_json(ids@));
    }
    out
}

/// Build one fungible asset entry.
pub fn asset_json_bytes(faucet_id: &[u8], amount: u64) -> (out: Vec<u8>)
    ensures
        out@ == asset_json(faucet_id@, amount),
{
    let mut out: Vec<u8> = Vec::new();
    push_lit(&mut out, "{\"faucet_id\":\"");
    out.extend_from_slice(faucet_id);
    push_lit(&mut out, "\",\"amount\":");
    push_dec(&mut out, amount);
    push_lit(&mut out, "}");
    proof {
        assert(out@ =~= asset_json(faucet_id@, amount));
    }
    out
}

/// Walk the assets once: collect the fungible entries in order and count the
/// non-fungible ones.
#[verifier::loop_isolation(false)]
pub fn fungible_parts(assets: &Vec<AssetView>) -> (r: (Vec<Vec<u8>>, u64))
    ensures
        r.0.deep_view() == fungible_jsons(assets@),
        r.1 == non_fungible_count(assets@),
{
    let mut parts: Vec<Vec<u8>> = Vec::new();
    let mut non_fungible: u64 = 0;
    let mut i: usize = 0;
    proof {
        assert(parts.deep_view() =~= fungible_jsons(assets@.take(0)));
    }
    while i < assets.len()
        invariant
            0 <= i <= assets@.len(),
            non_fungible <= i,
            parts.deep_view() == fungible_jsons(assets@.take(i as int)),
            non_fungible == non_fungible_count(assets@.take(i as int)),
        decreases assets@.len() - i,
    {
        proof {
            lemma_assets_step(assets@, i as int);
        }
        match &assets[i] {
            AssetView::Fungible { faucet_id, amount } => {
                let entry = asset_json_bytes(faucet_id.as_slice(), *amount);
                let ghost pre_parts = parts;
                let ghost entry_vec = entry;
                parts.push(entry);
                proof {
                    lemma_deep_view_push(pre_parts, parts, entry_vec);
                    assert(parts.deep_view() =~= fungible_jsons(assets@.take(i as int + 1)));
                }
            },
            AssetView::NonFungible => {
                non_fungible = non_fungible + 1;
                proof {
                    assert(parts.deep_view() =~= fungible_jsons(assets@.take(i as int + 1)));
                }
            },
        }
        i = i + 1;
    }
    proof {
        assert(assets@.take(assets@.len() as int) =~= assets@);
    }
    (parts, non_fungible)
}

/// Build the balance payload for one account.
pub fn balance_json_bytes(account_id: &[u8], assets: &Vec<AssetView>) -> (out: Vec<u8>)
    ensures
        out@ == balance_json(account_id@, assets@),
{
    let (parts, non_fungible) = fungible_parts(assets);
    let mut out: Vec<u8> = Vec::new();
    push_lit(&mut out, "{\"account_id\":\"");
    out.extend_from_slice(account_id);
    push_lit(&mut out, "\",\"fungible_assets\":[");
    push_joined(&mut out, &parts);
    push_lit(&mut out, "],\"total_fungible_count\":");
    push_dec(&mut out, parts.len() as u64);
    push_lit(&mut out, ",\"total_non_fungible_count\":");
    push_dec(&mut out, non_fungible);
    push_lit(&mut out, "}");
    proof {
        assert(parts@.len() == fungible_jsons(assets@).len());
        assert(out@ =~= balance_json(account_id@, assets@));
    }
    out
}

/// Build one note entry.
pub fn note_json_bytes(n: &NoteView) -> (out: Vec<u8>)
    ensures
        out@ == note_json(*n),
{
    let (parts, _non_fungible) = fungible_parts(&n.assets);
    let mut out: Vec<u8> = Vec::new();
    push_lit(&mut out, "{\"note_id\":\"");
    out.extend_from_slice(n.note_id.as_slice());
    push_lit(&mut out, "\",\"assets\":[");
    push_joined(&mut out, &parts);
    push_lit(&mut out, "],\"is_authenticated\":");
    if n.is_authenticated {
        push_lit(&mut out, "true");
    } else {
        push_lit(&mut out, "false");
    }
    push_lit(&mut out, "}");
    proof {
        assert(out@ =~= note_json(*n));
    }
    out
}

/// Build the notes payload.
#[verifier::loop_isolation(false)]
pub fn notes_json_bytes(notes: &Vec<NoteView>) -> (out: Vec<u8>)
    ensures
        out@ == notes_json(notes@),
{
    let mut parts: Vec<Vec<u8>> = Vec::new();
    let mut i: usize = 0;
    proof {
        assert(parts.deep_view() =~= note_jsons(notes@.take(0)));
    }
    while i < notes.len()
        invariant
            0 <= i <= notes@.len(),
            parts.deep_view() == note_jsons(notes@.take(i as int)),
        decreases notes@.len() - i,
    {
        let entry = note_json_bytes(&notes[i]);
        let ghost pre_parts = parts;
        let ghost entry_vec = entry;
        parts.push(entry);
        proof {
            lemma_deep_view_push(pre_parts, parts, entry_vec);
            lemma_notes_step(notes@, i as int);
            assert(parts.deep_view() =~= note_jsons(notes@.take(i as int + 1)));
        }
        i = i + 1;
    }
    proof {
        assert(notes@.take(notes@.len() as int) =~= notes@);
    }
    let mut out: Vec<u8> = Vec::new();
    push_lit(&mut out, "{\"notes\":[");
    push_joined(&mut out, &parts);
    push_lit(&mut out, "],\"total_count\":");
    push_dec(&mut out, notes.len() as u64);
    push_lit(&mut out, "}");
    proof {
        assert(out@ =~= notes_json(notes@));
    }
    out
}

} // verus!
