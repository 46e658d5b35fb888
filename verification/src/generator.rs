//! New addresses: random, locally administered and unicast.

use crate::address::{
    format_mac, is_local_unicast, is_local_unicast_mac, lemma_mac_text_canonical, mac_text,
    octet_at, OCTETS,
};
use crate::entropy::{after_draws, script_after, script_octet, EntropySource};
use crate::store::{holds, CredentialDB, EntryView};
use vstd::prelude::*;

verus! {

/// The first octet made from four random bits: they become its high half, and
/// its low half is fixed at binary 0010.
pub open spec fn first_octet(nibble: u8) -> u8
    recommends
        nibble < 16,
{
    (nibble * 16 + 2) as u8
}

/// The six octets made from four random bits and five random octets.
pub open spec fn drawn_octets(nibble: u8, tail: Seq<u8>) -> Seq<u8>
    recommends
        nibble < 16,
        tail.len() == 5,
{
    seq![first_octet(nibble), tail[0], tail[1], tail[2], tail[3], tail[4]]
}

/// The six octets that the next six draws from a script make.
pub open spec fn scripted_octets(script: Seq<u8>) -> Seq<u8> {
    drawn_octets(
        script_octet(script, 0) / 16,
        seq![
            script_octet(script, 1),
            script_octet(script, 2),
            script_octet(script, 3),
            script_octet(script, 4),
            script_octet(script, 5),
        ],
    )
}

/// A first octet made from four bits is locally administered and unicast.
pub proof fn lemma_first_octet_local_unicast(nibble: u8)
    requires
        nibble < 16,
    ensures
        first_octet(nibble) == nibble * 16 + 2,
        is_local_unicast(first_octet(nibble)),
{
    let first: u8 = (nibble * 16 + 2) as u8;
    assert(first & 0x0f == 0x02) by (bit_vector)
        requires
            nibble < 16,
            first == nibble * 16 + 2,
    ;
}

/// The text form of octets that begin with a locally administered, unicast
/// octet is a locally administered, unicast address.
pub proof fn lemma_local_unicast_text(octets: Seq<u8>)
    requires
        octets.len() == OCTETS,
        is_local_unicast(octets[0]),
    ensures
        is_local_unicast_mac(mac_text(octets)),
{
    lemma_mac_text_canonical(octets);
    assert(octet_at(mac_text(octets), 0) == octets[0]);
}

/// Puts four random bits and five random octets together into the octets of
/// an address.
pub fn local_unicast_octets(nibble: u8, tail: &[u8; 5]) -> (octets: [u8; 6])
    requires
        nibble < 16,
    ensures
        octets@ == drawn_octets(nibble, tail@),
        is_local_unicast(octets[0]),
{
    proof {
        lemma_first_octet_local_unicast(nibble);
    }
    let first: u8 = nibble * 16 + 2;
    let octets: [u8; 6] = [first, tail[0], tail[1], tail[2], tail[3], tail[4]];
    assert(octets@ =~= drawn_octets(nibble, tail@));
    octets
}

/// Draws a new address: six octets from `source`, the first forced to be
/// locally administered and unicast, in the canonical text form.
pub fn generate_valid_mac(source: &mut EntropySource) -> (text: String)
    ensures
        is_local_unicast_mac(text@),
        final(source)@ == after_draws(old(source)@, 6),
        old(source)@ matches Some(script) ==> text@ == mac_text(scripted_octets(script)),
{
    let nibble: u8 = source.next_nibble();
    let ghost s1 = source@;
    let a: u8 = source.next_octet();
    let ghost s2 = source@;
    let b: u8 = source.next_octet();
    let ghost s3 = source@;
    let c: u8 = source.next_octet();
    let ghost s4 = source@;
    let d: u8 = source.next_octet();
    let ghost s5 = source@;
    let e: u8 = source.next_octet();
    let tail: [u8; 5] = [a, b, c, d, e];
    let octets: [u8; 6] = local_unicast_octets(nibble, &tail);
    let text = format_mac(&octets);
    proof {
        lemma_local_unicast_text(octets@);
        if let Some(script) = old(source)@ {
            assert(s1 == Some(script_after(script, 1)));
            assert(s2 == Some(script_after(script, 2)));
            assert(s3 == Some(script_after(script, 3)));
            assert(s4 == Some(script_after(script, 4)));
            assert(s5 == Some(script_after(script, 5)));
            assert(source@ == Some(script_after(script, 6)));
            assert(tail@ =~= seq![
                script_octet(script, 1),
                script_octet(script, 2),
                script_octet(script, 3),
                script_octet(script, 4),
                script_octet(script, 5),
            ]);
        }
    }
    text
}

/// After how many addresses that are already recorded a search is given up,
/// unless the caller says otherwise.
pub const DEFAULT_MAX_ATTEMPTS: usize = 1000;

/// What the search for an unused address gave.
#[derive(Debug)]
pub struct Selection {
    /// The address found, or `None` where every attempt gave an address that
    /// is already recorded.
    pub mac: Option<String>,
    /// How many addresses were drawn and thrown away because they are already
    /// recorded.
    pub collisions: usize,
}

/// What a [`Selection`] holds, as plain values.
pub struct SelectionView {
    pub mac: Option<Seq<char>>,
    pub collisions: nat,
}

impl View for Selection {
    type V = SelectionView;

    open spec fn view(&self) -> SelectionView {
        SelectionView {
            mac: match self.mac {
                Some(mac) => Some(mac@),
                None => None,
            },
            collisions: self.collisions as nat,
        }
    }
}

/// How many addresses a selection has drawn.
pub open spec fn drawn(selection: SelectionView) -> nat {
    if selection.mac is Some {
        selection.collisions + 1
    } else {
        selection.collisions
    }
}

/// The selection that a script gives: the first of the addresses it spells,
/// six octets each, that `entries` does not hold, with the number of
/// addresses before it; and nothing once `attempts` addresses were tried.
pub open spec fn scripted_selection(
    entries: Seq<EntryView>,
    script: Seq<u8>,
    attempts: nat,
) -> SelectionView
    decreases attempts,
{
    if attempts == 0 {
        SelectionView { mac: None, collisions: 0 }
    } else {
        let candidate = mac_text(scripted_octets(script));
        if !holds(entries, candidate) {
            SelectionView { mac: Some(candidate), collisions: 0 }
        } else {
            let later = scripted_selection(
                entries,
                script_after(script, 6),
                (attempts - 1) as nat,
            );
            SelectionView { mac: later.mac, collisions: later.collisions + 1 }
        }
    }
}

/// Whether each address of `thrown` is locally administered, unicast and
/// held by `entries`.
pub open spec fn all_recorded(entries: Seq<EntryView>, thrown: Seq<Seq<char>>) -> bool {
    forall|k: int|
        0 <= k < thrown.len() ==> is_local_unicast_mac(#[trigger] thrown[k]) && holds(
            entries,
            thrown[k],
        )
}

/// Whether `entries` holds no address that is locally administered and
/// unicast, so that no address that is drawn can be among them.
pub open spec fn none_local_unicast(entries: Seq<EntryView>) -> bool {
    forall|i: int| 0 <= i < entries.len() ==> !is_local_unicast_mac((#[trigger] entries[i]).mac)
}

/// Where `entries` holds no address that is locally administered and unicast,
/// no address can have been thrown away for being recorded.
pub proof fn lemma_nothing_thrown(entries: Seq<EntryView>, thrown: Seq<Seq<char>>)
    requires
        none_local_unicast(entries),
        all_recorded(entries, thrown),
    ensures
        thrown.len() == 0,
{
    if thrown.len() > 0 {
        assert(is_local_unicast_mac(thrown[0]) && holds(entries, thrown[0]));
        let i = choose|i: int| 0 <= i < entries.len() && (#[trigger] entries[i]).mac == thrown[0];
        assert(!is_local_unicast_mac(entries[i].mac));
    }
}

/// Drawing `a` times and then `b` times leaves what drawing `a + b` times
/// leaves.
pub proof fn lemma_script_after_twice(script: Seq<u8>, a: int, b: int)
    requires
        0 <= a,
        0 <= b,
    ensures
        script_after(script_after(script, a), b) == script_after(script, a + b),
{
    assert(script_after(script_after(script, a), b) =~= script_after(script, a + b));
}

/// Searches for an address that `db` does not hold: draws addresses from
/// `source` until one is not recorded, and gives up after `max_attempts`
/// draws. An address is thrown away only because `db` holds it, so the first
/// draw is taken wherever `db` holds no address of the kind that is drawn, an
/// empty record among them.
pub fn generate_unique_mac(
    db: &CredentialDB,
    source: &mut EntropySource,
    max_attempts: usize,
) -> (selection: Selection)
    ensures
        selection.collisions <= max_attempts,
        match selection.mac {
            Some(mac) => {
                &&& is_local_unicast_mac(mac@)
                &&& !holds(db@, mac@)
                &&& selection.collisions < max_attempts
            },
            None => selection.collisions == max_attempts,
        },
        exists|thrown: Seq<Seq<char>>|
            thrown.len() == selection.collisions && #[trigger] all_recorded(db@, thrown),
        max_attempts > 0 && none_local_unicast(db@) ==> selection.mac is Some
            && selection.collisions == 0,
        final(source)@ == after_draws(old(source)@, 6 * drawn(selection@) as int),
        old(source)@ matches Some(script) ==> selection@ == scripted_selection(
            db@,
            script,
            max_attempts as nat,
        ),
{
    let mut collisions: usize = 0;
    let ghost mut thrown: Seq<Seq<char>> = Seq::empty();
    proof {
        if let Some(script) = source@ {
            assert(script_after(script, 0) =~= script);
        }
    }
    while collisions < max_attempts
        invariant
            collisions <= max_attempts,
            thrown.len() == collisions,
            all_recorded(db@, thrown),
            source@ == after_draws(old(source)@, 6 * collisions),
            old(source)@ matches Some(script) ==> ({
                let later = scripted_selection(
                    db@,
                    script_after(script, 6 * collisions),
                    (max_attempts - collisions) as nat,
                );
                scripted_selection(db@, script, max_attempts as nat) == SelectionView {
                    mac: later.mac,
                    collisions: later.collisions + collisions as nat,
                }
            }),
        decreases max_attempts - collisions,
    {
        let candidate = generate_valid_mac(source);
        proof {
            if let Some(script) = old(source)@ {
                lemma_script_after_twice(script, 6 * collisions, 6);
            }
        }
        if !db.contains(candidate.as_str()) {
            proof {
                if none_local_unicast(db@) {
                    lemma_nothing_thrown(db@, thrown);
                }
            }
            return Selection { mac: Some(candidate), collisions };
        }
        proof {
            thrown = thrown.push(candidate@);
        }
        collisions += 1;
    }
    proof {
        if none_local_unicast(db@) {
            lemma_nothing_thrown(db@, thrown);
        }
    }
    Selection { mac: None, collisions }
}

} // verus!
