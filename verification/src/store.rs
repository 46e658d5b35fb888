//! The record of which client label was given which address.

use crate::text::{same_text, trim, trimmed};
use vstd::prelude::*;
use vstd::string::*;

verus! {

/// One record: a client label and the address it was given.
#[derive(Debug)]
pub struct Entry {
    pub client: String,
    pub mac: String,
}

/// What an [`Entry`] holds, as plain text.
pub struct EntryView {
    pub client: Seq<char>,
    pub mac: Seq<char>,
}

impl View for Entry {
    type V = EntryView;

    open spec fn view(&self) -> EntryView {
        EntryView { client: self.client@, mac: self.mac@ }
    }
}

/// The records, in the order in which they were added.
#[derive(Debug)]
pub struct CredentialDB {
    pub credentials: Vec<Entry>,
}

impl View for CredentialDB {
    type V = Seq<EntryView>;

    open spec fn view(&self) -> Seq<EntryView> {
        self.credentials@.map_values(|entry: Entry| entry@)
    }
}

/// Whether some record holds exactly the address `mac`. Letter case and
/// punctuation count: nothing is normalised.
pub open spec fn holds(entries: Seq<EntryView>, mac: Seq<char>) -> bool {
    exists|i: int| 0 <= i < entries.len() && (#[trigger] entries[i]).mac == mac
}

/// Whether record `i` is the first one that holds the address `mac`.
pub open spec fn is_first_match(entries: Seq<EntryView>, mac: Seq<char>, i: int) -> bool {
    &&& 0 <= i < entries.len()
    &&& entries[i].mac == mac
    &&& forall|j: int| 0 <= j < i ==> (#[trigger] entries[j]).mac != mac
}

/// Whether no address is recorded twice.
pub open spec fn distinct_addresses(entries: Seq<EntryView>) -> bool {
    forall|i: int, j: int|
        0 <= i < j < entries.len() ==> (#[trigger] entries[i]).mac != (#[trigger] entries[j]).mac
}

impl CredentialDB {
    /// A record with nothing in it.
    pub fn new() -> (db: Self)
        ensures
            db@ == Seq::<EntryView>::empty(),
    {
        let db = CredentialDB { credentials: Vec::new() };
        assert(db@ =~= Seq::<EntryView>::empty());
        db
    }

    /// How many records there are.
    pub fn len(&self) -> (n: usize)
        ensures
            n == self@.len(),
    {
        self.credentials.len()
    }

    /// Whether some record holds exactly the address `address`.
    pub fn contains(&self, address: &str) -> (found: bool)
        ensures
            found == holds(self@, address@),
    {
        let mut i: usize = 0;
        while i < self.credentials.len()
            invariant
                i <= self.credentials.len(),
                forall|j: int| 0 <= j < i ==> (#[trigger] self@[j]).mac != address@,
            decreases self.credentials.len() - i,
        {
            if same_text(self.credentials[i].mac.as_str(), address) {
                assert(self@[i as int].mac == address@);
                return true;
            }
            i += 1;
        }
        false
    }

    /// The first record that holds exactly the address `address`.
    pub fn find_by_address(&self, address: &str) -> (found: Option<&Entry>)
        ensures
            match found {
                Some(entry) => exists|i: int|
                    is_first_match(self@, address@, i) && entry@ == #[trigger] self@[i],
                None => !holds(self@, address@),
            },
    {
        let mut i: usize = 0;
        while i < self.credentials.len()
            invariant
                i <= self.credentials.len(),
                forall|j: int| 0 <= j < i ==> (#[trigger] self@[j]).mac != address@,
            decreases self.credentials.len() - i,
        {
            if same_text(self.credentials[i].mac.as_str(), address) {
                assert(is_first_match(self@, address@, i as int));
                return Some(&self.credentials[i]);
            }
            i += 1;
        }
        None
    }

    /// Adds one record at the end. The addresses stay free of repeats where
    /// they were so before and the new address was not among them.
    pub fn push(&mut self, entry: Entry)
        ensures
            final(self)@ == old(self)@.push(entry@),
            holds(final(self)@, entry.mac@),
            distinct_addresses(old(self)@) && !holds(old(self)@, entry.mac@) ==> distinct_addresses(
                final(self)@,
            ),
    {
        let ghost added = entry@;
        self.credentials.push(entry);
        proof {
            assert(self@ =~= old(self)@.push(added));
            assert(self@[old(self)@.len() as int].mac == added.mac);
            lemma_push_keeps_distinct(old(self)@, added);
        }
    }
}

/// A freshly added address is found, and nothing else changes: after adding
/// `entry`, the record holds `mac` exactly when it did before or `mac` is the
/// address just added. An address that differs from the one added in letter
/// case or in punctuation is a different address.
pub proof fn lemma_holds_after_push(entries: Seq<EntryView>, entry: EntryView, mac: Seq<char>)
    ensures
        holds(entries.push(entry), mac) <==> holds(entries, mac) || entry.mac == mac,
{
    let after = entries.push(entry);
    if holds(entries, mac) {
        let i = choose|i: int| 0 <= i < entries.len() && (#[trigger] entries[i]).mac == mac;
        assert(after[i].mac == mac);
    }
    if entry.mac == mac {
        assert(after[entries.len() as int].mac == mac);
    }
    if holds(after, mac) {
        let i = choose|i: int| 0 <= i < after.len() && (#[trigger] after[i]).mac == mac;
        if i < entries.len() {
            assert(entries[i].mac == mac);
        }
    }
}

/// Adding an address that is not yet recorded keeps the addresses free of
/// repeats.
pub proof fn lemma_push_keeps_distinct(entries: Seq<EntryView>, entry: EntryView)
    ensures
        distinct_addresses(entries) && !holds(entries, entry.mac) ==> distinct_addresses(
            entries.push(entry),
        ),
{
    if distinct_addresses(entries) && !holds(entries, entry.mac) {
        let after = entries.push(entry);
        assert forall|i: int, j: int| 0 <= i < j < after.len() implies (#[trigger] after[i]).mac != (
        #[trigger] after[j]).mac by {
            if j < entries.len() {
                assert(entries[i].mac != entries[j].mac);
            } else {
                assert(entries[i].mac != entry.mac);
            }
        }
    }
}

/// Whether each record of `added` holds an address that neither `start` nor
/// the records of `added` before it hold.
pub open spec fn each_is_new(start: Seq<EntryView>, added: Seq<EntryView>) -> bool {
    forall|k: int|
        0 <= k < added.len() ==> !holds(start + added.take(k), (#[trigger] added[k]).mac)
}

/// However many records are added, one after the other and each with an
/// address that was not recorded before it, no address is recorded twice
/// afterwards, provided none was at the start.
pub proof fn lemma_registrations_stay_distinct(start: Seq<EntryView>, added: Seq<EntryView>)
    requires
        distinct_addresses(start),
        each_is_new(start, added),
    ensures
        distinct_addresses(start + added),
    decreases added.len(),
{
    if added.len() == 0 {
        assert(start + added =~= start);
    } else {
        let last = added.last();
        let before = added.drop_last();
        assert forall|k: int| 0 <= k < before.len() implies !holds(
            start + before.take(k),
            (#[trigger] before[k]).mac,
        ) by {
            assert(before.take(k) =~= added.take(k));
            assert(before[k] == added[k]);
        }
        lemma_registrations_stay_distinct(start, before);
        assert(added.take(added.len() - 1) =~= before);
        assert(!holds(start + before, added[added.len() - 1].mac));
        lemma_push_keeps_distinct(start + before, last);
        assert((start + before).push(last) =~= start + added);
    }
}

/// Whether the record `db` holds exactly the address `mac`.
pub fn is_mac_registered(db: &CredentialDB, mac: &str) -> (registered: bool)
    ensures
        registered == holds(db@, mac@),
{
    db.contains(mac)
}

/// What reading the record file gave.
#[derive(Debug)]
pub enum Loaded {
    /// There is no file.
    Missing,
    /// There is a file, and it could not be read.
    Unreadable,
    /// The file was read, and what it holds is not a list of records.
    Malformed,
    /// The file holds these records.
    Records { entries: Vec<Entry> },
}

/// What a [`Loaded`] holds, as plain text.
pub enum LoadedView {
    Missing,
    Unreadable,
    Malformed,
    Records { entries: Seq<EntryView> },
}

impl View for Loaded {
    type V = LoadedView;

    open spec fn view(&self) -> LoadedView {
        match self {
            Loaded::Missing => LoadedView::Missing,
            Loaded::Unreadable => LoadedView::Unreadable,
            Loaded::Malformed => LoadedView::Malformed,
            Loaded::Records { entries } => LoadedView::Records {
                entries: entries@.map_values(|entry: Entry| entry@),
            },
        }
    }
}

/// How the record came to be what it is after loading.
#[derive(Clone, Copy, PartialEq, Eq, Structural, Debug)]
pub enum LoadStatus {
    /// There was no file: the record starts empty.
    Started,
    /// The file could not be read or understood: the record starts empty, and
    /// what the file held is ignored.
    Recovered,
    /// The record is what the file held.
    Restored,
}

/// The records to go on with after loading: those of the file where it held
/// some, and none otherwise.
pub open spec fn loaded_entries(found: LoadedView) -> Seq<EntryView> {
    match found {
        LoadedView::Records { entries } => entries,
        _ => Seq::empty(),
    }
}

/// How the record came to be what it is after loading.
pub open spec fn loaded_status(found: LoadedView) -> LoadStatus {
    match found {
        LoadedView::Missing => LoadStatus::Started,
        LoadedView::Unreadable => LoadStatus::Recovered,
        LoadedView::Malformed => LoadStatus::Recovered,
        LoadedView::Records { .. } => LoadStatus::Restored,
    }
}

/// Records come back from loading as they were handed in: the same entries,
/// field for field and in the same order.
pub proof fn lemma_records_load_unchanged(entries: Seq<EntryView>)
    ensures
        loaded_entries(LoadedView::Records { entries }) == entries,
        loaded_status(LoadedView::Records { entries }) == LoadStatus::Restored,
{
}

/// Makes the record from what reading the file gave. A missing file is no
/// error, and a file that cannot be read or understood is none either: both
/// give an empty record, and the status tells them apart.
pub fn load_db(found: Loaded) -> (loaded: (CredentialDB, LoadStatus))
    ensures
        loaded.0@ == loaded_entries(found@),
        loaded.1 == loaded_status(found@),
{
    match found {
        Loaded::Missing => (CredentialDB::new(), LoadStatus::Started),
        Loaded::Unreadable => (CredentialDB::new(), LoadStatus::Recovered),
        Loaded::Malformed => (CredentialDB::new(), LoadStatus::Recovered),
        Loaded::Records { entries } => (CredentialDB { credentials: entries }, LoadStatus::Restored),
    }
}

/// The client label of the first record that holds the address `mac`.
pub open spec fn first_client(entries: Seq<EntryView>, mac: Seq<char>) -> Seq<char>
    recommends
        holds(entries, mac),
{
    entries[choose|i: int| is_first_match(entries, mac, i)].client
}

/// The answer to the question whether the address `mac` is recorded.
pub open spec fn lookup_text(entries: Seq<EntryView>, mac: Seq<char>) -> Seq<char> {
    if holds(entries, mac) {
        "MAC "@ + mac + " is registered to client: "@ + first_client(entries, mac)
    } else {
        "MAC "@ + mac + " is not registered"@
    }
}

/// The question to put before [`check_mac`] is given the answer.
pub fn check_prompt() -> (prompt: String)
    ensures
        prompt@ == "Enter MAC address to check (format xx:xx:xx:xx:xx:xx):"@,
{
    "Enter MAC address to check (format xx:xx:xx:xx:xx:xx):".to_owned()
}

/// Looks up the address typed on `line`, without the white space around it,
/// and says whether it is recorded and for which client.
pub fn check_mac(db: &CredentialDB, line: &str) -> (answer: String)
    ensures
        answer@ == lookup_text(db@, trimmed(line@)),
{
    let mac = trim(line);
    let mut answer = "MAC ".to_owned();
    answer.append(mac.as_str());
    match db.find_by_address(mac.as_str()) {
        Some(entry) => {
            proof {
                let i = choose|i: int| is_first_match(db@, mac@, i) && entry@ == #[trigger] db@[i];
                let k = choose|k: int| is_first_match(db@, mac@, k);
                assert(i == k) by {
                    if i < k {
                        assert(db@[i].mac != mac@);
                    }
                    if k < i {
                        assert(db@[k].mac != mac@);
                    }
                }
                assert(db@[i].mac == mac@);
            }
            answer.append(" is registered to client: ");
            answer.append(entry.client.as_str());
        },
        None => {
            answer.append(" is not registered");
        },
    }
    answer
}

} // verus!
