//! Per-user append-only journals: whole-blob read-modify-write of one
//! user's entry list, and uniform random sampling of one entry for a
//! reminder prompt.
//!
//! The store hands a journal over as one blob; appending parses it, adds
//! the entry at the end and serializes the whole list back. Sampling never
//! removes anything.

use vstd::prelude::*;

use crate::codec::{spec_parse_entries, spec_entries_json, parse_entries, encode_entries};

verus! {

/// Relies on rand's thread_rng and Rng::gen_range: a draw from `0..n` is
/// below `n`.
#[verifier::external_body]
fn random_below(n: usize) -> (r: usize)
    requires
        n > 0,
    ensures
        r < n,
{
    rand::Rng::gen_range(&mut rand::thread_rng(), 0..n)
}

/// One journal read from the store: the entries in append order.
pub fn journal_entries(blob: Option<&Vec<u8>>) -> (r: Option<Vec<Vec<u8>>>)
    ensures
        match blob {
            None => r matches Some(v) && v@.len() == 0,
            Some(b) => match spec_parse_entries(b@) {
                Some(es) => r matches Some(v) && v.deep_view() == es,
                None => r is None,
            },
        },
{
    match blob {
        None => Some(Vec::new()),
        Some(b) => parse_entries(b),
    }
}

/// A journal blob with one entry appended: the old entries kept in order,
/// the new one at the end; an absent blob counts as an empty journal, and a
/// malformed one is an error, never a dropped journal.
pub fn append_to_journal(blob: Option<&Vec<u8>>, entry: &Vec<u8>) -> (r: Option<Vec<u8>>)
    ensures
        match blob {
            None => r matches Some(out) && out@ == spec_entries_json(seq![entry@]),
            Some(b) => match spec_parse_entries(b@) {
                Some(es) => r matches Some(out) && out@ == spec_entries_json(es.push(entry@)),
                None => r is None,
            },
        },
{
    let mut entries = match journal_entries(blob) {
        Some(es) => es,
        None => {
            return None;
        },
    };
    let ghost before = entries.deep_view();
    let ec = entry.clone();
    assert(ec@ =~= entry@);
    entries.push(ec);
    assert(entries.deep_view() =~~= before.push(entry@));
    proof {
        if blob is None {
            assert(before.push(entry@) =~= seq![entry@]);
        }
    }
    Some(encode_entries(&entries))
}

/// One entry of the journal at a caller-chosen position, reduced modulo the
/// journal's length: something exactly when the journal is not empty.
pub fn sample_at(entries: &Vec<Vec<u8>>, draw: usize) -> (r: Option<Vec<u8>>)
    ensures
        r is Some <==> entries@.len() > 0,
        entries@.len() > 0 ==> (r matches Some(e) && e@ == entries.deep_view()[draw as int
            % entries@.len() as int]),
{
    if entries.len() == 0 {
        return None;
    }
    let i = draw % entries.len();
    let e = entries[i].clone();
    assert(e@ =~= entries@[i as int]@);
    Some(e)
}

/// One entry of the journal chosen uniformly at random, or nothing from an
/// empty journal; the journal itself is never changed by sampling.
pub fn sample(entries: &Vec<Vec<u8>>) -> (r: Option<Vec<u8>>)
    ensures
        r is Some <==> entries@.len() > 0,
        r matches Some(e) ==> exists|i: int|
            0 <= i < entries@.len() && e@ == #[trigger] entries.deep_view()[i],
{
    if entries.len() == 0 {
        return None;
    }
    let i = random_below(entries.len());
    let e = entries[i].clone();
    assert(e@ =~= entries@[i as int]@);
    assert(e@ == entries.deep_view()[i as int]);
    Some(e)
}

/// How many times more likely a run is to skip a subscriber than to prompt
/// them.
pub const PROMPT_ODDS: usize = 60;

/// Whether a draw from `0..PROMPT_ODDS` selects the subscriber for a
/// prompt: exactly the one draw of zero does, so each run prompts each
/// subscriber with the same small probability.
pub fn should_prompt(draw: usize) -> (r: bool)
    ensures
        r == (draw == 0),
{
    draw == 0
}

/// Draw whether to prompt one subscriber this run. The draw is random:
/// nothing relates one call's outcome to another's.
pub fn prompt_gate() -> (r: bool)
{
    let draw = random_below(PROMPT_ODDS);
    should_prompt(draw)
}

} // verus!
