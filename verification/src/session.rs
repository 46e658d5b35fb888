//! One registration from start to end, as a state machine. The session says
//! what it needs next; the driver does that and reports back; the session
//! moves on and hands out the lines to print.

use crate::address::is_local_unicast_mac;
use crate::announce::{confirmation, confirmation_text};
use crate::command::{
    command_result, judged, outcome_of, texts, Command, CommandView, Failure, Observed,
    ObservedView, Outcome,
};
use crate::entropy::{after_draws, EntropySource};
use crate::generator::{
    all_recorded, drawn, generate_unique_mac, none_local_unicast, scripted_selection, Selection,
    SelectionView,
};
use crate::reconfigure::{
    first_step, following, listing_command, listing_command_view, listing_warning,
    listing_warning_line, next_step, pause_after, plan, settle_seconds, status_line, status_text,
    step_command, step_command_view, Step,
};
use crate::store::{
    distinct_addresses, holds, lemma_push_keeps_distinct, load_db, loaded_entries, loaded_status,
    CredentialDB, Entry, EntryView, LoadStatus, Loaded, LoadedView,
};
use crate::text::{trim, trimmed};
use vstd::prelude::*;

verus! {

/// Where a session stands.
#[derive(Clone, Copy, PartialEq, Eq, Structural, Debug)]
pub enum Phase {
    /// The network interfaces are being listed.
    Listing,
    /// The name of the connection is being asked for.
    AskingConnection,
    /// The client label is being asked for.
    AskingClient,
    /// The record is being loaded.
    Loading,
    /// A command of the plan is being run.
    Applying { step: Step },
    /// The network stack is given time to settle after a command.
    Settling { step: Step },
    /// The record, with the new entry, is being saved.
    Saving,
    /// The new address is recorded and announced.
    Done,
    /// No unused address was found; nothing was changed.
    GaveUp,
}

/// What the driver reports back.
#[derive(Debug)]
pub enum Event {
    /// The command asked for was run.
    Ran { observed: Observed },
    /// The line asked for was read.
    Answered { line: String },
    /// The record file was read.
    Loaded { found: Loaded },
    /// The pause is over.
    Rested,
    /// The record was written.
    Saved,
}

/// What an [`Event`] holds, as plain values.
pub enum EventView {
    Ran { observed: ObservedView },
    Answered { line: Seq<char> },
    Loaded { found: LoadedView },
    Rested,
    Saved,
}

impl View for Event {
    type V = EventView;

    open spec fn view(&self) -> EventView {
        match self {
            Event::Ran { observed } => EventView::Ran { observed: observed@ },
            Event::Answered { line } => EventView::Answered { line: line@ },
            Event::Loaded { found } => EventView::Loaded { found: found@ },
            Event::Rested => EventView::Rested,
            Event::Saved => EventView::Saved,
        }
    }
}

/// What the driver is to do next.
#[derive(Debug)]
pub enum Request {
    /// Run this command, wait for it, and report what was seen.
    Run { command: Command },
    /// Print this question, read one line, and report it.
    Ask { prompt: String },
    /// Read the record file and report what it holds.
    Load,
    /// Wait this many seconds.
    Rest { seconds: u64 },
    /// Write the session's record to the record file.
    Save,
    /// Nothing more: the session is over. `registered` says whether a new
    /// address was recorded.
    Stop { registered: bool },
}

/// What a [`Request`] holds, as plain values.
pub enum RequestView {
    Run { command: CommandView },
    Ask { prompt: Seq<char> },
    Load,
    Rest { seconds: u64 },
    Save,
    Stop { registered: bool },
}

impl View for Request {
    type V = RequestView;

    open spec fn view(&self) -> RequestView {
        match self {
            Request::Run { command } => RequestView::Run { command: command@ },
            Request::Ask { prompt } => RequestView::Ask { prompt: prompt@ },
            Request::Load => RequestView::Load,
            Request::Rest { seconds } => RequestView::Rest { seconds: *seconds },
            Request::Save => RequestView::Save,
            Request::Stop { registered } => RequestView::Stop { registered: *registered },
        }
    }
}

/// One registration.
#[derive(Debug)]
pub struct Session {
    /// Where the session stands.
    pub phase: Phase,
    /// Where the octets of new addresses come from.
    pub source: EntropySource,
    /// After how many addresses that are already recorded the search for a
    /// new one is given up.
    pub max_attempts: usize,
    /// The connection to reconfigure.
    pub connection: String,
    /// The label to record the new address under.
    pub client: String,
    /// The new address.
    pub mac: String,
    /// How many addresses were drawn and found to be recorded already.
    pub collisions: usize,
    /// How the record was loaded, once it was.
    pub load_status: Option<LoadStatus>,
    /// The record.
    pub db: CredentialDB,
    /// How each command of the plan that was run so far ended.
    pub outcomes: Vec<Result<(), Failure>>,
}

/// What a [`Session`] holds, as plain values.
#[verifier::ext_equal]
pub struct SessionView {
    pub phase: Phase,
    pub source: Option<Seq<u8>>,
    pub max_attempts: nat,
    pub connection: Seq<char>,
    pub client: Seq<char>,
    pub mac: Seq<char>,
    pub collisions: nat,
    pub load_status: Option<LoadStatus>,
    pub db: Seq<EntryView>,
    pub outcomes: Seq<Outcome>,
}

/// The outcomes that a list of results stands for.
pub open spec fn outcomes_of(results: Seq<Result<(), Failure>>) -> Seq<Outcome> {
    results.map_values(|result: Result<(), Failure>| outcome_of(result))
}

impl View for Session {
    type V = SessionView;

    open spec fn view(&self) -> SessionView {
        SessionView {
            phase: self.phase,
            source: self.source@,
            max_attempts: self.max_attempts as nat,
            connection: self.connection@,
            client: self.client@,
            mac: self.mac@,
            collisions: self.collisions as nat,
            load_status: self.load_status,
            db: self.db@,
            outcomes: outcomes_of(self.outcomes@),
        }
    }
}

/// The question for the connection's name.
pub open spec fn connection_prompt() -> Seq<char> {
    "Enter the wifi name to connect to:"@
}

/// The question for the client label.
pub open spec fn client_prompt() -> Seq<char> {
    "Give your new mac a name, e.g name of client."@
}

/// The line printed for each address thrown away.
pub open spec fn collision_text() -> Seq<char> {
    "Generated MAC already exists, trying another one..."@
}

/// The line printed when the search is given up.
pub open spec fn gave_up_text() -> Seq<char> {
    "No unused MAC found, giving up."@
}

/// The state at the start.
pub open spec fn initial(source: Option<Seq<u8>>, max_attempts: nat) -> SessionView {
    SessionView {
        phase: Phase::Listing,
        source,
        max_attempts,
        connection: Seq::empty(),
        client: Seq::empty(),
        mac: Seq::empty(),
        collisions: 0,
        load_status: None,
        db: Seq::empty(),
        outcomes: Seq::empty(),
    }
}

/// What a session needs next.
pub open spec fn wanted(state: SessionView) -> RequestView {
    match state.phase {
        Phase::Listing => RequestView::Run { command: listing_command_view() },
        Phase::AskingConnection => RequestView::Ask { prompt: connection_prompt() },
        Phase::AskingClient => RequestView::Ask { prompt: client_prompt() },
        Phase::Loading => RequestView::Load,
        Phase::Applying { step } => RequestView::Run {
            command: step_command_view(step, state.connection, state.mac),
        },
        Phase::Settling { step } => RequestView::Rest { seconds: settle_seconds(step) },
        Phase::Saving => RequestView::Save,
        Phase::Done => RequestView::Stop { registered: true },
        Phase::GaveUp => RequestView::Stop { registered: false },
    }
}

/// The state once `step` is over: the next command of the plan is due, or,
/// after the last, the new entry is in the record and the record is to be
/// saved.
pub open spec fn proceed(state: SessionView, step: Step) -> SessionView {
    match following(step) {
        Some(next) => SessionView { phase: Phase::Applying { step: next }, ..state },
        None => SessionView {
            phase: Phase::Saving,
            db: state.db.push(EntryView { client: state.client, mac: state.mac }),
            ..state
        },
    }
}

/// The state once the command for `step` was run and ended with `outcome`.
/// The outcome is kept, and the session goes on whatever it is.
pub open spec fn applied(state: SessionView, step: Step, outcome: Outcome) -> SessionView {
    let kept = SessionView { outcomes: state.outcomes.push(outcome), ..state };
    if settle_seconds(step) > 0 {
        SessionView { phase: Phase::Settling { step }, ..kept }
    } else {
        proceed(kept, step)
    }
}

/// The lines printed after the interfaces were listed: a warning where that
/// failed, nothing otherwise.
pub open spec fn listing_notices(outcome: Outcome) -> Seq<Seq<char>> {
    match outcome {
        Outcome::Succeeded => Seq::empty(),
        Outcome::Failed(failure) => seq![listing_warning(failure)],
    }
}

/// The selection that a state after the search stands for.
pub open spec fn selection_of(state: SessionView) -> SelectionView {
    SelectionView {
        mac: if state.phase == Phase::GaveUp {
            None
        } else {
            Some(state.mac)
        },
        collisions: state.collisions,
    }
}

/// The lines printed after the search: one for each address thrown away, and
/// one more where the search was given up.
pub open spec fn selection_notices(selection: SelectionView) -> Seq<Seq<char>> {
    Seq::new(drawn_lines(selection), |i: int| if i < selection.collisions {
        collision_text()
    } else {
        gave_up_text()
    })
}

/// How many lines are printed after the search.
pub open spec fn drawn_lines(selection: SelectionView) -> nat {
    if selection.mac is Some {
        selection.collisions
    } else {
        selection.collisions + 1
    }
}

/// Whether `post` and `notices` are what the search for an unused address may
/// leave, starting from `pre` with the loaded records `found`. The address
/// chosen is locally administered, unicast and not among the records, and
/// every address thrown away before it is among them: where the records hold
/// no such address, the first one drawn is taken. With a scripted source the
/// address is the one the script spells first.
pub open spec fn selected(
    pre: SessionView,
    found: LoadedView,
    post: SessionView,
    notices: Seq<Seq<char>>,
) -> bool {
    let entries = loaded_entries(found);
    let selection = selection_of(post);
    &&& selection.collisions <= pre.max_attempts
    &&& match selection.mac {
        Some(mac) => {
            &&& is_local_unicast_mac(mac)
            &&& !holds(entries, mac)
            &&& selection.collisions < pre.max_attempts
        },
        None => selection.collisions == pre.max_attempts,
    }
    &&& exists|thrown: Seq<Seq<char>>|
        thrown.len() == selection.collisions && #[trigger] all_recorded(entries, thrown)
    &&& pre.max_attempts > 0 && none_local_unicast(entries) ==> selection.mac is Some
        && selection.collisions == 0
    &&& pre.source matches Some(script) ==> selection == scripted_selection(
        entries,
        script,
        pre.max_attempts,
    )
    &&& post == SessionView {
        phase: if selection.mac is Some {
            Phase::Applying { step: plan()[0] }
        } else {
            Phase::GaveUp
        },
        source: after_draws(pre.source, 6 * drawn(selection) as int),
        mac: if selection.mac is Some {
            post.mac
        } else {
            pre.mac
        },
        collisions: selection.collisions,
        load_status: Some(loaded_status(found)),
        db: entries,
        ..pre
    }
    &&& notices == selection_notices(selection)
}

/// Whether `post` and `notices` are what `event` may lead to from `pre`. An
/// event that the session is not waiting for changes nothing.
pub open spec fn advances(
    pre: SessionView,
    event: EventView,
    post: SessionView,
    notices: Seq<Seq<char>>,
) -> bool {
    match (pre.phase, event) {
        (Phase::Listing, EventView::Ran { observed }) => {
            &&& post == SessionView { phase: Phase::AskingConnection, ..pre }
            &&& notices == listing_notices(judged(observed))
        },
        (Phase::AskingConnection, EventView::Answered { line }) => {
            &&& post == SessionView {
                phase: Phase::AskingClient,
                connection: trimmed(line),
                ..pre
            }
            &&& notices == Seq::<Seq<char>>::empty()
        },
        (Phase::AskingClient, EventView::Answered { line }) => {
            &&& post == SessionView { phase: Phase::Loading, client: trimmed(line), ..pre }
            &&& notices == Seq::<Seq<char>>::empty()
        },
        (Phase::Loading, EventView::Loaded { found }) => selected(pre, found, post, notices),
        (Phase::Applying { step }, EventView::Ran { observed }) => {
            &&& post == applied(pre, step, judged(observed))
            &&& notices == seq![status_text(step, judged(observed))]
        },
        (Phase::Settling { step }, EventView::Rested) => {
            &&& post == proceed(pre, step)
            &&& notices == Seq::<Seq<char>>::empty()
        },
        (Phase::Saving, EventView::Saved) => {
            &&& post == SessionView { phase: Phase::Done, ..pre }
            &&& notices == seq![confirmation_text(pre.client, pre.mac)]
        },
        _ => {
            &&& post == pre
            &&& notices == Seq::<Seq<char>>::empty()
        },
    }
}

/// Whether the address that a session is about to record is one that its
/// record does not hold yet.
pub open spec fn pending_is_new(state: SessionView) -> bool {
    (state.phase is Applying || state.phase is Settling) ==> !holds(state.db, state.mac)
}

/// No step of a session records an address twice: where the record of a
/// session is free of repeats, the address about to be recorded is new, and
/// the records that the driver loads are free of repeats, the same holds
/// after the step.
pub proof fn lemma_session_keeps_distinct(
    pre: SessionView,
    event: EventView,
    post: SessionView,
    notices: Seq<Seq<char>>,
)
    requires
        advances(pre, event, post, notices),
        distinct_addresses(pre.db),
        pending_is_new(pre),
        event matches EventView::Loaded { found } ==> distinct_addresses(loaded_entries(found)),
    ensures
        distinct_addresses(post.db),
        pending_is_new(post),
{
    let entry = EntryView { client: pre.client, mac: pre.mac };
    lemma_push_keeps_distinct(pre.db, entry);
}

/// A command that fails stops nothing: whether the command of a step ends
/// well or badly, the session goes on to the same phase with the same record
/// and the same address.
pub proof fn lemma_failure_does_not_stop(
    state: SessionView,
    step: Step,
    one: Outcome,
    other: Outcome,
)
    ensures
        applied(state, step, one).phase == applied(state, step, other).phase,
        applied(state, step, one).db == applied(state, step, other).db,
        applied(state, step, one).mac == applied(state, step, other).mac,
        applied(state, step, one).phase != Phase::Done,
        applied(state, step, one).phase != Phase::GaveUp,
        applied(state, step, one).outcomes == state.outcomes.push(one),
{
}

/// From the first command of the plan a session reaches the point of saving
/// after every command was run once, in the order of the plan, whatever each
/// of them gave; and the record then holds the new entry at its end.
pub proof fn lemma_plan_runs_to_the_end(state: SessionView, outcomes: Seq<Outcome>)
    requires
        outcomes.len() == plan().len(),
    ensures
        ({
            let s1 = proceed(applied(state, plan()[0], outcomes[0]), plan()[0]);
            let s2 = applied(s1, plan()[1], outcomes[1]);
            let s3 = proceed(applied(s2, plan()[2], outcomes[2]), plan()[2]);
            let s4 = applied(s3, plan()[3], outcomes[3]);
            &&& applied(state, plan()[0], outcomes[0]).phase == Phase::Settling { step: plan()[0] }
            &&& s1.phase == Phase::Applying { step: plan()[1] }
            &&& s2.phase == Phase::Applying { step: plan()[2] }
            &&& applied(s2, plan()[2], outcomes[2]).phase == Phase::Settling { step: plan()[2] }
            &&& s3.phase == Phase::Applying { step: plan()[3] }
            &&& s4.phase == Phase::Saving
            &&& s4.outcomes == state.outcomes + outcomes
            &&& s4.db == state.db.push(EntryView { client: state.client, mac: state.mac })
        }),
{
    let s1 = proceed(applied(state, plan()[0], outcomes[0]), plan()[0]);
    let s2 = applied(s1, plan()[1], outcomes[1]);
    let s3 = proceed(applied(s2, plan()[2], outcomes[2]), plan()[2]);
    let s4 = applied(s3, plan()[3], outcomes[3]);
    assert(s4.outcomes =~= state.outcomes + outcomes);
}

/// The lines to print after the search for an unused address.
fn selection_lines(selection: &Selection) -> (lines: Vec<String>)
    ensures
        texts(lines@) == selection_notices(selection@),
{
    let mut lines: Vec<String> = Vec::new();
    let mut i: usize = 0;
    while i < selection.collisions
        invariant
            i <= selection.collisions,
            lines@.len() == i,
            forall|j: int| 0 <= j < i ==> (#[trigger] lines@[j])@ == collision_text(),
        decreases selection.collisions - i,
    {
        lines.push("Generated MAC already exists, trying another one...".to_owned());
        i += 1;
    }
    if selection.mac.is_none() {
        lines.push("No unused MAC found, giving up.".to_owned());
    }
    assert(texts(lines@) =~= selection_notices(selection@));
    lines
}

impl Session {
    /// A session at its start.
    pub fn new(source: EntropySource, max_attempts: usize) -> (session: Self)
        ensures
            session@ == initial(source@, max_attempts as nat),
    {
        let session = Session {
            phase: Phase::Listing,
            source,
            max_attempts,
            connection: String::new(),
            client: String::new(),
            mac: String::new(),
            collisions: 0,
            load_status: None,
            db: CredentialDB::new(),
            outcomes: Vec::new(),
        };
        assert(session@ =~= initial(source@, max_attempts as nat));
        session
    }

    /// What the session needs next.
    pub fn request(&self) -> (request: Request)
        ensures
            request@ == wanted(self@),
    {
        match self.phase {
            Phase::Listing => Request::Run { command: listing_command() },
            Phase::AskingConnection => Request::Ask {
                prompt: "Enter the wifi name to connect to:".to_owned(),
            },
            Phase::AskingClient => Request::Ask {
                prompt: "Give your new mac a name, e.g name of client.".to_owned(),
            },
            Phase::Loading => Request::Load,
            Phase::Applying { step } => Request::Run {
                command: step_command(step, self.connection.as_str(), self.mac.as_str()),
            },
            Phase::Settling { step } => Request::Rest { seconds: pause_after(step) },
            Phase::Saving => Request::Save,
            Phase::Done => Request::Stop { registered: true },
            Phase::GaveUp => Request::Stop { registered: false },
        }
    }

    /// Moves on once `step` is over.
    fn proceed(&mut self, step: Step)
        ensures
            final(self)@ == proceed(old(self)@, step),
    {
        match next_step(step) {
            Some(next) => {
                self.phase = Phase::Applying { step: next };
            },
            None => {
                let entry = Entry { client: self.client.clone(), mac: self.mac.clone() };
                self.db.push(entry);
                self.phase = Phase::Saving;
            },
        }
        assert(self@ =~= proceed(old(self)@, step));
    }

    /// Takes in what the driver reports and moves on. Returns the lines to
    /// print, in order. An event that the session is not waiting for changes
    /// nothing and prints nothing.
    pub fn advance(&mut self, event: Event) -> (notices: Vec<String>)
        ensures
            advances(old(self)@, event@, final(self)@, texts(notices@)),
    {
        let mut notices: Vec<String> = Vec::new();
        assert(texts(notices@) =~= Seq::<Seq<char>>::empty());
        match (self.phase, event) {
            (Phase::Listing, Event::Ran { observed }) => {
                match command_result(observed) {
                    Ok(_) => {},
                    Err(failure) => {
                        notices.push(listing_warning_line(&failure));
                        assert(texts(notices@) =~= seq![listing_warning(failure@)]);
                    },
                }
                self.phase = Phase::AskingConnection;
                assert(self@ =~= SessionView { phase: Phase::AskingConnection, ..old(self)@ });
            },
            (Phase::AskingConnection, Event::Answered { line }) => {
                self.connection = trim(line.as_str());
                self.phase = Phase::AskingClient;
                assert(self@ =~= SessionView {
                    phase: Phase::AskingClient,
                    connection: trimmed(line@),
                    ..old(self)@
                });
            },
            (Phase::AskingClient, Event::Answered { line }) => {
                self.client = trim(line.as_str());
                self.phase = Phase::Loading;
                assert(self@ =~= SessionView {
                    phase: Phase::Loading,
                    client: trimmed(line@),
                    ..old(self)@
                });
            },
            (Phase::Loading, Event::Loaded { found }) => {
                let ghost found_view = found@;
                let (db, status) = load_db(found);
                let selection = generate_unique_mac(&db, &mut self.source, self.max_attempts);
                notices = selection_lines(&selection);
                self.db = db;
                self.load_status = Some(status);
                self.collisions = selection.collisions;
                match selection.mac {
                    Some(mac) => {
                        self.mac = mac;
                        self.phase = Phase::Applying { step: first_step() };
                    },
                    None => {
                        self.phase = Phase::GaveUp;
                    },
                }
                proof {
                    let picked = selection_of(self@);
                    assert(picked == selection@);
                    assert(self@ =~= SessionView {
                        phase: if picked.mac is Some {
                            Phase::Applying { step: plan()[0] }
                        } else {
                            Phase::GaveUp
                        },
                        source: after_draws(old(self)@.source, 6 * drawn(picked) as int),
                        mac: if picked.mac is Some {
                            self@.mac
                        } else {
                            old(self)@.mac
                        },
                        collisions: picked.collisions,
                        load_status: Some(loaded_status(found_view)),
                        db: loaded_entries(found_view),
                        ..old(self)@
                    });
                }
            },
            (Phase::Applying { step }, Event::Ran { observed }) => {
                let result = command_result(observed);
                notices.push(status_line(step, &result));
                assert(texts(notices@) =~= seq![status_text(step, judged(observed@))]);
                self.outcomes.push(result);
                let ghost kept = self@;
                assert(kept =~= SessionView {
                    outcomes: old(self)@.outcomes.push(judged(observed@)),
                    ..old(self)@
                });
                if pause_after(step) > 0 {
                    self.phase = Phase::Settling { step };
                    assert(self@ =~= SessionView { phase: Phase::Settling { step }, ..kept });
                } else {
                    self.proceed(step);
                }
            },
            (Phase::Settling { step }, Event::Rested) => {
                self.proceed(step);
            },
            (Phase::Saving, Event::Saved) => {
                notices.push(confirmation(self.client.as_str(), self.mac.as_str()));
                assert(texts(notices@) =~= seq![confirmation_text(self.client@, self.mac@)]);
                self.phase = Phase::Done;
                assert(self@ =~= SessionView { phase: Phase::Done, ..old(self)@ });
            },
            _ => {},
        }
        notices
    }
}

} // verus!
