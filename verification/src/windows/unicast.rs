//! Waiting until the addresses of a network interface are usable.
//!
//! A new unicast address is tentative while the network stack verifies that no
//! other node uses it. The wait polls the addresses of one interface until all
//! of them are preferred, one of them has failed, or time has run out. Every
//! poll looks at every address, so that an address that has failed ends the
//! wait at once, wherever in the table it stands.

use crate::windows::error::{
    DadStateError, Error, IP_DAD_STATE_DEPRECATED, IP_DAD_STATE_DUPLICATE, IP_DAD_STATE_INVALID,
    IP_DAD_STATE_PREFERRED, IP_DAD_STATE_TENTATIVE,
};
use crate::windows::sockaddr::SockaddrInet;
use crate::windows::status::{check_status, status_outcome, NO_ERROR};
use vstd::prelude::*;

verus! {

/// How long the addresses may stay tentative, in milliseconds.
pub const DAD_CHECK_TIMEOUT: u64 = 5000;

/// How long the wait sleeps between two polls, in milliseconds.
pub const DAD_CHECK_INTERVAL: u64 = 100;

/// A row of the unicast address table: the address, the interface it is
/// assigned to, and its duplicate address detection state.
#[derive(Clone, Copy, Debug, PartialEq, Eq)]
pub struct UnicastAddressRow {
    pub address: SockaddrInet,
    pub interface_luid: u64,
    pub dad_state: u32,
}

/// The rows of `table` that belong to the interface `luid`, in their order.
pub open spec fn rows_of_interface(table: Seq<UnicastAddressRow>, luid: u64) -> Seq<
    UnicastAddressRow,
> {
    table.filter(|row: UnicastAddressRow| row.interface_luid == luid)
}

/// Selects the rows of the unicast address table that belong to one
/// interface.
pub fn select_interface_rows(table: &Vec<UnicastAddressRow>, luid: u64) -> (rows: Vec<
    UnicastAddressRow,
>)
    ensures
        rows@ == rows_of_interface(table@, luid),
{
    let mut rows: Vec<UnicastAddressRow> = Vec::new();
    let ghost belongs = |row: UnicastAddressRow| row.interface_luid == luid;
    let mut index: usize = 0;
    while index < table.len()
        invariant
            index <= table.len(),
            belongs == (|row: UnicastAddressRow| row.interface_luid == luid),
            rows@ == table@.subrange(0, index as int).filter(belongs),
        decreases table.len() - index,
    {
        let row = table[index];
        proof {
            let seen = table@.subrange(0, index as int);
            assert(table@.subrange(0, index + 1) =~= seen.push(row));
            assert(seen.push(row).drop_last() =~= seen);
            reveal(Seq::filter);
        }
        if row.interface_luid == luid {
            rows.push(row);
        }
        index += 1;
    }
    assert(table@.subrange(0, index as int) =~= table@);
    rows
}

/// Outside work that a wait for addresses asks for.
#[derive(Clone, Copy, Debug, PartialEq, Eq)]
pub enum AddressRequest {
    /// Read the unicast address table, for every address family. Answered by
    /// `AddressReply::Table`.
    ReadTable,
    /// Read the time that has passed since the wait began, in milliseconds.
    /// Answered by `AddressReply::Elapsed`.
    ReadClock,
    /// Read the entry of this row from the network stack. Answered by
    /// `AddressReply::Entry`.
    QueryEntry(UnicastAddressRow),
    /// Sleep for so many milliseconds. Answered by `AddressReply::Slept`.
    Sleep(u64),
}

/// The outcome of a piece of outside work.
#[derive(Debug, PartialEq, Eq)]
pub enum AddressReply {
    /// The status that reading the table returned, and the rows that were
    /// read.
    Table { status: u32, rows: Vec<UnicastAddressRow> },
    /// The milliseconds that have passed since the wait began.
    Elapsed(u64),
    /// The status that the query returned, and the duplicate address
    /// detection state of the entry as the query left it.
    Entry { status: u32, dad_state: u32 },
    /// The sleep is over.
    Slept,
}

/// What a wait for addresses waits for.
#[derive(Clone, Copy, Debug, PartialEq, Eq, Structural)]
pub enum AddressStage {
    /// Waits for the unicast address table.
    Table,
    /// Waits for the clock, before a poll.
    Clock,
    /// Waits for the entry of the row at `index`, within a poll. `tentative`
    /// says whether the poll has found a row before this one tentative.
    Entry { index: usize, tentative: bool },
    /// Waits for the end of the sleep between two polls.
    Sleep,
}

/// A wait for the addresses of one interface.
#[derive(Debug, PartialEq, Eq)]
pub struct AddressWait {
    luid: u64,
    rows: Vec<UnicastAddressRow>,
    stage: AddressStage,
}

/// How far a reply brought a wait for addresses.
#[derive(Debug, PartialEq, Eq)]
pub enum AddressProgress {
    /// The wait goes on with this request.
    Pending(AddressWait, AddressRequest),
    /// The wait is over.
    Done(Result<(), Error>),
    /// The reply was not the one that the wait waits for. The wait is handed
    /// back as it was.
    Mismatch(AddressWait),
}

/// What one entry says of a poll.
#[derive(Clone, Copy, Debug, PartialEq, Eq)]
pub enum EntryVerdict {
    /// The address is usable.
    Preferred,
    /// The address is still being verified: unless another address has
    /// failed, another poll follows this one after a sleep.
    Tentative,
    /// The wait fails.
    Failed(Error),
}

/// What the reply to a query says: a query that failed and an address in a
/// state that is neither tentative nor preferred are errors.
pub open spec fn entry_verdict(status: u32, dad_state: u32) -> EntryVerdict {
    match status_outcome(status) {
        Err(error) => EntryVerdict::Failed(Error::ObtainUnicastAddress(error)),
        Ok(()) => if dad_state == IP_DAD_STATE_TENTATIVE {
            EntryVerdict::Tentative
        } else if dad_state == IP_DAD_STATE_PREFERRED {
            EntryVerdict::Preferred
        } else {
            EntryVerdict::Failed(Error::DadStateError(DadStateError::of_state(dad_state)))
        },
    }
}

/// Judges the reply to a query.
pub fn judge_entry(status: u32, dad_state: u32) -> (verdict: EntryVerdict)
    ensures
        verdict == entry_verdict(status, dad_state),
{
    match check_status(status) {
        Err(error) => EntryVerdict::Failed(Error::ObtainUnicastAddress(error)),
        Ok(()) => {
            if dad_state == IP_DAD_STATE_TENTATIVE {
                EntryVerdict::Tentative
            } else if dad_state == IP_DAD_STATE_PREFERRED {
                EntryVerdict::Preferred
            } else {
                EntryVerdict::Failed(Error::DadStateError(DadStateError::from(dad_state)))
            }
        },
    }
}

/// The state of a wait for addresses: the interface, the rows that are
/// polled (none before the table was read), and what the wait waits for.
pub struct AddressWaitView {
    pub luid: u64,
    pub rows: Seq<UnicastAddressRow>,
    pub stage: AddressStage,
}

/// How far a reply brings the state of a wait.
pub enum AddressProgressView {
    Pending(AddressWaitView, AddressRequest),
    Done(Result<(), Error>),
    Mismatch(AddressWaitView),
}

impl View for AddressWait {
    type V = AddressWaitView;

    closed spec fn view(&self) -> AddressWaitView {
        AddressWaitView { luid: self.luid, rows: self.rows@, stage: self.stage }
    }
}

impl View for AddressProgress {
    type V = AddressProgressView;

    open spec fn view(&self) -> AddressProgressView {
        match *self {
            AddressProgress::Pending(wait, request) => AddressProgressView::Pending(
                wait@,
                request,
            ),
            AddressProgress::Done(outcome) => AddressProgressView::Done(outcome),
            AddressProgress::Mismatch(wait) => AddressProgressView::Mismatch(wait@),
        }
    }
}

impl AddressWaitView {
    /// The state of a wait that has just begun.
    pub open spec fn initial(luid: u64) -> AddressWaitView {
        AddressWaitView { luid, rows: Seq::empty(), stage: AddressStage::Table }
    }

    /// Once the table was read a wait has rows to poll, no more than can be
    /// counted, and within a poll it waits for one of them.
    pub open spec fn well_formed(self) -> bool {
        &&& self.rows.len() <= usize::MAX
        &&& !(self.stage is Table) ==> self.rows.len() > 0
        &&& self.stage matches AddressStage::Entry { index, .. } ==> index < self.rows.len()
    }

    /// The state at `stage`.
    pub open spec fn at(self, stage: AddressStage) -> AddressWaitView {
        AddressWaitView { luid: self.luid, rows: self.rows, stage }
    }

    /// The request that the wait waits to be answered.
    pub open spec fn request(self) -> AddressRequest {
        match self.stage {
            AddressStage::Table => AddressRequest::ReadTable,
            AddressStage::Clock => AddressRequest::ReadClock,
            AddressStage::Entry { index, .. } => AddressRequest::QueryEntry(
                self.rows[index as int],
            ),
            AddressStage::Sleep => AddressRequest::Sleep(DAD_CHECK_INTERVAL),
        }
    }

    /// The wait going on at `stage`.
    pub open spec fn pending_at(self, stage: AddressStage) -> AddressProgressView {
        AddressProgressView::Pending(self.at(stage), self.at(stage).request())
    }

    /// How a poll goes on behind the row at `index`, none of the rows up to
    /// it having failed. `tentative` says whether one of them was tentative.
    /// The poll goes on to the next row; behind the last row the wait sleeps
    /// if a row was tentative, and has succeeded if none was.
    pub open spec fn after_row(self, index: usize, tentative: bool) -> AddressProgressView {
        if index + 1 < self.rows.len() {
            self.pending_at(AddressStage::Entry { index: (index + 1) as usize, tentative })
        } else if tentative {
            self.pending_at(AddressStage::Sleep)
        } else {
            AddressProgressView::Done(Ok(()))
        }
    }

    /// How the wait goes on from `reply`.
    ///
    /// The wait polls the rows that the table holds for its interface, and
    /// fails at once where there are none. Before each poll the clock decides
    /// whether time has run out. A poll queries every row, in the order of the
    /// table. A query that fails, or an address in a state that is neither
    /// tentative nor preferred, ends the wait at once with its error, whatever
    /// the rows before it were found to be. A poll that finds no such row
    /// ends the wait successfully if every address is preferred, and leads to
    /// a sleep and another poll if one is tentative.
    pub open spec fn step(self, reply: AddressReply) -> AddressProgressView {
        match (self.stage, reply) {
            (AddressStage::Table, AddressReply::Table { status, rows }) => {
                match status_outcome(status) {
                    Err(error) => AddressProgressView::Done(
                        Err(Error::ObtainUnicastAddress(error)),
                    ),
                    Ok(()) => if rows_of_interface(rows@, self.luid).len() == 0 {
                        AddressProgressView::Done(Err(Error::NoUnicastAddress))
                    } else {
                        AddressProgressView::Pending(
                            AddressWaitView {
                                luid: self.luid,
                                rows: rows_of_interface(rows@, self.luid),
                                stage: AddressStage::Clock,
                            },
                            AddressRequest::ReadClock,
                        )
                    },
                }
            },
            (AddressStage::Clock, AddressReply::Elapsed(milliseconds)) => {
                if milliseconds < DAD_CHECK_TIMEOUT {
                    self.pending_at(AddressStage::Entry { index: 0, tentative: false })
                } else {
                    AddressProgressView::Done(Err(Error::DeviceReadyTimeout))
                }
            },
            (
                AddressStage::Entry { index, tentative },
                AddressReply::Entry { status, dad_state },
            ) => {
                match entry_verdict(status, dad_state) {
                    EntryVerdict::Failed(error) => AddressProgressView::Done(Err(error)),
                    EntryVerdict::Tentative => self.after_row(index, true),
                    EntryVerdict::Preferred => self.after_row(index, tentative),
                }
            },
            (AddressStage::Sleep, AddressReply::Slept) => self.pending_at(AddressStage::Clock),
            _ => AddressProgressView::Mismatch(self),
        }
    }

    /// How far a sequence of replies brings the wait: each reply is taken
    /// where the one before it left the wait, and the replies that follow the
    /// end of the wait, or a reply of the wrong kind, are not looked at.
    pub open spec fn run(self, replies: Seq<AddressReply>) -> AddressProgressView
        decreases replies.len(),
    {
        if replies.len() == 0 {
            AddressProgressView::Pending(self, self.request())
        } else {
            match self.step(replies[0]) {
                AddressProgressView::Pending(next, _) => next.run(replies.skip(1)),
                over => over,
            }
        }
    }
}

/// Whether `reply` reports an entry whose address is tentative.
pub open spec fn reports_tentative(reply: AddressReply) -> bool {
    reply matches AddressReply::Entry { status, dad_state } && entry_verdict(status, dad_state)
        == EntryVerdict::Tentative
}

/// Whether `reply` reports an entry whose address is preferred.
pub open spec fn reports_preferred(reply: AddressReply) -> bool {
    reply matches AddressReply::Entry { status, dad_state } && entry_verdict(status, dad_state)
        == EntryVerdict::Preferred
}

/// Whether none of `replies` reports a failure: every one of them reports an
/// entry whose address is tentative or preferred.
pub open spec fn none_failed(replies: Seq<AddressReply>) -> bool {
    forall|i: int|
        0 <= i < replies.len() ==> reports_tentative(#[trigger] replies[i]) || reports_preferred(
            replies[i],
        )
}

/// Whether one of `replies` reports an entry whose address is tentative.
pub open spec fn some_tentative(replies: Seq<AddressReply>) -> bool {
    exists|i: int| 0 <= i < replies.len() && reports_tentative(#[trigger] replies[i])
}

impl AddressWait {
    /// Every wait is well formed.
    #[verifier::type_invariant]
    pub closed spec fn is_well_formed(self) -> bool {
        self@.well_formed()
    }

    /// Starts a wait for the addresses of the interface `luid`. Its first
    /// request is for the unicast address table.
    pub fn begin(luid: u64) -> (start: (AddressWait, AddressRequest))
        ensures
            start.0@ == AddressWaitView::initial(luid),
            start.1 == AddressRequest::ReadTable,
    {
        (
            AddressWait { luid, rows: Vec::new(), stage: AddressStage::Table },
            AddressRequest::ReadTable,
        )
    }

    /// Takes the wait one step further with the reply to its request. A wait
    /// that is handed in is well formed, as every wait is.
    pub fn advance(self, reply: AddressReply) -> (progress: AddressProgress)
        ensures
            self@.well_formed(),
            progress@ == self@.step(reply),
    {
        proof {
            use_type_invariant(&self);
        }
        match (self.stage, reply) {
            (AddressStage::Table, AddressReply::Table { status, rows }) => {
                match check_status(status) {
                    Err(error) => AddressProgress::Done(Err(Error::ObtainUnicastAddress(error))),
                    Ok(()) => {
                        let own = select_interface_rows(&rows, self.luid);
                        if own.len() == 0 {
                            AddressProgress::Done(Err(Error::NoUnicastAddress))
                        } else {
                            AddressProgress::Pending(
                                AddressWait {
                                    luid: self.luid,
                                    rows: own,
                                    stage: AddressStage::Clock,
                                },
                                AddressRequest::ReadClock,
                            )
                        }
                    },
                }
            },
            (AddressStage::Clock, AddressReply::Elapsed(milliseconds)) => {
                if milliseconds < DAD_CHECK_TIMEOUT {
                    let first = self.rows[0];
                    AddressProgress::Pending(
                        AddressWait {
                            luid: self.luid,
                            rows: self.rows,
                            stage: AddressStage::Entry { index: 0, tentative: false },
                        },
                        AddressRequest::QueryEntry(first),
                    )
                } else {
                    AddressProgress::Done(Err(Error::DeviceReadyTimeout))
                }
            },
            (
                AddressStage::Entry { index, tentative },
                AddressReply::Entry { status, dad_state },
            ) => {
                let tentative = match judge_entry(status, dad_state) {
                    EntryVerdict::Failed(error) => {
                        return AddressProgress::Done(Err(error));
                    },
                    EntryVerdict::Tentative => true,
                    EntryVerdict::Preferred => tentative,
                };
                let count = self.rows.len();
                if index + 1 < count {
                    let next = self.rows[index + 1];
                    AddressProgress::Pending(
                        AddressWait {
                            luid: self.luid,
                            rows: self.rows,
                            stage: AddressStage::Entry { index: index + 1, tentative },
                        },
                        AddressRequest::QueryEntry(next),
                    )
                } else if tentative {
                    AddressProgress::Pending(
                        AddressWait {
                            luid: self.luid,
                            rows: self.rows,
                            stage: AddressStage::Sleep,
                        },
                        AddressRequest::Sleep(DAD_CHECK_INTERVAL),
                    )
                } else {
                    AddressProgress::Done(Ok(()))
                }
            },
            (AddressStage::Sleep, AddressReply::Slept) => AddressProgress::Pending(
                AddressWait { luid: self.luid, rows: self.rows, stage: AddressStage::Clock },
                AddressRequest::ReadClock,
            ),
            _ => AddressProgress::Mismatch(self),
        }
    }
}

/// What the caller of a wait receives: the outcome that the poller sent, or
/// an error where the poller went away without sending one.
pub open spec fn received_outcome(sent: Option<Result<(), Error>>) -> Result<(), Error> {
    match sent {
        Some(outcome) => outcome,
        None => Err(Error::UnicastSenderDropped),
    }
}

/// Turns what arrived from the poller into the outcome of the wait. `sent` is
/// `None` where the channel was closed before anything arrived.
pub fn receive_outcome(sent: Option<Result<(), Error>>) -> (outcome: Result<(), Error>)
    ensures
        outcome == received_outcome(sent),
{
    match sent {
        Some(outcome) => outcome,
        None => Err(Error::UnicastSenderDropped),
    }
}

/// A step leaves a wait well formed, and on the interface that it began for.
pub proof fn lemma_step_keeps_the_wait_well_formed(wait: AddressWaitView, reply: AddressReply)
    requires
        wait.well_formed(),
    ensures
        wait.step(reply) matches AddressProgressView::Pending(next, request) ==> {
            &&& next.well_formed()
            &&& next.luid == wait.luid
            &&& request == next.request()
            &&& !(next.stage is Table)
            &&& !(wait.stage is Table) ==> next.rows == wait.rows
        },
        wait.step(reply) matches AddressProgressView::Mismatch(same) ==> same == wait,
{
    if wait.stage is Table {
        if let AddressReply::Table { status, rows } = reply {
            rows@.lemma_filter_len(|row: UnicastAddressRow| row.interface_luid == wait.luid);
            assert(rows@.len() == rows.len());
        }
    }
}

/// An address that has left the tentative state for one that is not
/// preferred ends the wait at once, with the error that names its state,
/// whatever the poll has found before it.
pub proof fn lemma_failed_address_ends_the_wait(wait: AddressWaitView, dad_state: u32)
    requires
        wait.stage is Entry,
        dad_state != IP_DAD_STATE_TENTATIVE,
        dad_state != IP_DAD_STATE_PREFERRED,
    ensures
        wait.step(AddressReply::Entry { status: NO_ERROR, dad_state })
            == AddressProgressView::Done(
            Err(Error::DadStateError(DadStateError::of_state(dad_state))),
        ),
        dad_state == IP_DAD_STATE_INVALID ==> DadStateError::of_state(dad_state)
            == DadStateError::Invalid,
        dad_state == IP_DAD_STATE_DUPLICATE ==> DadStateError::of_state(dad_state)
            == DadStateError::Duplicate,
        dad_state == IP_DAD_STATE_DEPRECATED ==> DadStateError::of_state(dad_state)
            == DadStateError::Deprecated,
        dad_state > IP_DAD_STATE_PREFERRED ==> DadStateError::of_state(dad_state)
            == DadStateError::Unknown(dad_state),
{
}

/// The wait sleeps only behind the last row of a poll that has found an
/// address tentative, and then for the poll interval.
pub proof fn lemma_wait_sleeps_only_for_a_tentative_address(
    wait: AddressWaitView,
    reply: AddressReply,
)
    requires
        wait.well_formed(),
    ensures
        wait.step(reply) matches AddressProgressView::Pending(
            next,
            request,
        ) ==> (next.stage is Sleep || request is Sleep ==> {
            &&& request == AddressRequest::Sleep(DAD_CHECK_INTERVAL)
            &&& wait.stage matches AddressStage::Entry { index, tentative }
            &&& index + 1 == wait.rows.len()
            &&& tentative || reports_tentative(reply)
            &&& reports_tentative(reply) || reports_preferred(reply)
        }),
{
}

/// The wait times out only before a poll, when the timeout has passed; and
/// once the timeout has passed, no poll begins.
pub proof fn lemma_timeout_only_when_time_has_run_out(wait: AddressWaitView, reply: AddressReply)
    requires
        wait.well_formed(),
    ensures
        wait.step(reply) == AddressProgressView::Done(Err(Error::DeviceReadyTimeout)) <==> {
            &&& wait.stage is Clock
            &&& reply matches AddressReply::Elapsed(milliseconds)
            &&& milliseconds >= DAD_CHECK_TIMEOUT
        },
        wait.step(reply) matches AddressProgressView::Pending(
            next,
            _,
        ) ==> (next.stage matches AddressStage::Entry { index: 0, tentative } ==> {
            &&& !tentative
            &&& wait.stage is Clock
            &&& reply matches AddressReply::Elapsed(milliseconds)
            &&& milliseconds < DAD_CHECK_TIMEOUT
        }),
        wait.step(reply) matches AddressProgressView::Pending(
            next,
            _,
        ) ==> (next.stage is Clock ==> wait.stage is Table || (wait.stage is Sleep && reply
            is Slept)),
{
}

/// An interface without a unicast address fails the wait as soon as the table
/// is read, before any poll.
pub proof fn lemma_no_address_fails_at_once(luid: u64, rows: Vec<UnicastAddressRow>)
    requires
        rows_of_interface(rows@, luid).len() == 0,
    ensures
        AddressWaitView::initial(luid).step(AddressReply::Table { status: NO_ERROR, rows })
            == AddressProgressView::Done(Err(Error::NoUnicastAddress)),
{
}

/// The request that a step hands out is the one that the wait then waits
/// for.
pub proof fn lemma_step_requests(wait: AddressWaitView, reply: AddressReply)
    ensures
        wait.step(reply) matches AddressProgressView::Pending(next, request) ==> request
            == next.request(),
{
}

/// Where replies leave a wait pending, one more reply is taken from there.
pub proof fn lemma_run_continues(
    wait: AddressWaitView,
    replies: Seq<AddressReply>,
    last: AddressReply,
)
    ensures
        wait.run(replies.push(last)) == match wait.run(replies) {
            AddressProgressView::Pending(reached, _) => reached.step(last),
            over => over,
        },
    decreases replies.len(),
{
    let all = replies.push(last);
    if replies.len() == 0 {
        assert(all.skip(1) =~= Seq::<AddressReply>::empty());
        assert(all[0] == last);
        match wait.step(last) {
            AddressProgressView::Pending(next, request) => {
                assert(next.run(all.skip(1)) == AddressProgressView::Pending(
                    next,
                    next.request(),
                ));
                lemma_step_requests(wait, last);
            },
            _ => {},
        }
    } else {
        assert(all[0] == replies[0]);
        assert(all.skip(1) =~= replies.skip(1).push(last));
        match wait.step(replies[0]) {
            AddressProgressView::Pending(next, _) => {
                lemma_run_continues(next, replies.skip(1), last);
            },
            _ => {},
        }
    }
}

/// Within a poll, entries of which none has failed take the wait from row to
/// row, and the wait remembers whether one of them was tentative. Behind the
/// last row the wait sleeps if a row of the poll was tentative, and has
/// succeeded if every row was preferred.
pub proof fn lemma_entries_without_failure_advance_the_poll(
    wait: AddressWaitView,
    replies: Seq<AddressReply>,
)
    requires
        wait.well_formed(),
        wait.stage is Entry,
        none_failed(replies),
        wait.stage->index + replies.len() <= wait.rows.len(),
    ensures
        ({
            let reached = wait.stage->index + replies.len();
            let tentative = wait.stage->tentative || some_tentative(replies);
            wait.run(replies) == if reached < wait.rows.len() {
                wait.pending_at(AddressStage::Entry { index: reached as usize, tentative })
            } else if tentative {
                wait.pending_at(AddressStage::Sleep)
            } else {
                AddressProgressView::Done(Ok(()))
            }
        }),
    decreases replies.len(),
{
    let index = wait.stage->index;
    if replies.len() == 0 {
        assert(wait.at(wait.stage) == wait);
    } else {
        let first = replies[0];
        let rest = replies.skip(1);
        let seen = wait.stage->tentative || reports_tentative(first);
        assert(reports_tentative(first) || reports_preferred(first));
        assert(none_failed(rest)) by {
            assert forall|i: int| 0 <= i < rest.len() implies reports_tentative(
                #[trigger] rest[i],
            ) || reports_preferred(rest[i]) by {
                assert(rest[i] == replies[i + 1]);
            }
        }
        assert(some_tentative(replies) == (reports_tentative(first) || some_tentative(rest))) by {
            if some_tentative(replies) {
                let i = choose|i: int| 0 <= i < replies.len() && reports_tentative(
                    #[trigger] replies[i],
                );
                if i > 0 {
                    assert(rest[i - 1] == replies[i]);
                }
            }
            if some_tentative(rest) {
                let i = choose|i: int| 0 <= i < rest.len() && reports_tentative(
                    #[trigger] rest[i],
                );
                assert(replies[i + 1] == rest[i]);
            }
        }
        assert(wait.step(first) == wait.after_row(index, seen));
        if index + 1 < wait.rows.len() {
            let next = wait.at(
                AddressStage::Entry { index: (index + 1) as usize, tentative: seen },
            );
            assert(wait.step(first) == AddressProgressView::Pending(next, next.request()));
            lemma_entries_without_failure_advance_the_poll(next, rest);
        } else {
            assert(rest.len() == 0);
            let asleep = wait.at(AddressStage::Sleep);
            assert(asleep.run(rest) == AddressProgressView::Pending(asleep, asleep.request()));
        }
    }
}

/// A whole poll that meets no failure ends the wait successfully if every
/// address is preferred, and sends it to sleep if one is tentative.
pub proof fn lemma_poll_without_failure(wait: AddressWaitView, replies: Seq<AddressReply>)
    requires
        wait.well_formed(),
        wait.stage == (AddressStage::Entry { index: 0, tentative: false }),
        none_failed(replies),
        replies.len() == wait.rows.len(),
    ensures
        wait.run(replies) == if some_tentative(replies) {
            wait.pending_at(AddressStage::Sleep)
        } else {
            AddressProgressView::Done(Ok(()))
        },
{
    lemma_entries_without_failure_advance_the_poll(wait, replies);
}

/// The first entry of a poll that reports a failure ends the wait at once with
/// its error, however many of the entries before it were tentative.
pub proof fn lemma_first_failure_ends_the_wait(
    wait: AddressWaitView,
    before: Seq<AddressReply>,
    status: u32,
    dad_state: u32,
)
    requires
        wait.well_formed(),
        wait.stage == (AddressStage::Entry { index: 0, tentative: false }),
        none_failed(before),
        before.len() < wait.rows.len(),
        entry_verdict(status, dad_state) is Failed,
    ensures
        wait.run(before.push(AddressReply::Entry { status, dad_state }))
            == AddressProgressView::Done(Err(entry_verdict(status, dad_state)->Failed_0)),
{
    lemma_entries_without_failure_advance_the_poll(wait, before);
    lemma_run_continues(wait, before, AddressReply::Entry { status, dad_state });
}

} // verus!
