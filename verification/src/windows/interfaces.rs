//! Waiting until IP interfaces have attached to a network interface.
//!
//! The wait registers for notifications first and looks for the interfaces
//! second, so that an interface that attaches in between is not missed. Only
//! where the look finds an interface missing does it wait for the
//! notifications to report it.

use crate::windows::error::OsError;
use crate::windows::family::AddressFamily;
use crate::windows::status::{
    check_status, entry_exists, lookup_outcome, status_outcome, ERROR_NOT_FOUND, NO_ERROR,
};
use vstd::prelude::*;

verus! {

/// The notification type for a parameter that changed.
pub const MIB_PARAMETER_NOTIFICATION: u32 = 0;

/// The notification type for an interface that was added.
pub const MIB_ADD_INSTANCE: u32 = 1;

/// The notification type for an interface that was removed.
pub const MIB_DELETE_INSTANCE: u32 = 2;

/// The notification type of the notification that confirms a registration.
pub const MIB_INITIAL_NOTIFICATION: u32 = 3;

/// Outside work that a wait for interfaces asks for.
#[derive(Clone, Copy, Debug, PartialEq, Eq, Structural)]
pub enum InterfaceRequest {
    /// Register for notifications of interface changes, of every family.
    /// Answered by `InterfaceReply::Registered`.
    Register,
    /// Look up the IP interface of this family on the network interface with
    /// this LUID. Answered by `InterfaceReply::Entry`.
    QueryEntry { family: AddressFamily, luid: u64 },
    /// Wait until the notifications have reported every wanted family.
    /// Answered by `InterfaceReply::Signalled`.
    AwaitSignal,
}

/// The outcome of a piece of outside work.
#[derive(Clone, Copy, Debug, PartialEq, Eq, Structural)]
pub enum InterfaceReply {
    /// The status that the registration returned.
    Registered { status: u32 },
    /// The status that the lookup returned.
    Entry { status: u32 },
    /// The signal came, or can no longer come.
    Signalled,
}

/// What a wait for interfaces waits for.
#[derive(Clone, Copy, Debug, PartialEq, Eq, Structural)]
pub enum InterfaceStage {
    Registration,
    Entry(AddressFamily),
    Signal,
}

/// A wait for the IP interfaces of the wanted families.
#[derive(Clone, Copy, Debug, PartialEq, Eq, Structural)]
pub struct InterfaceWait {
    /// The LUID of the network interface.
    pub luid: u64,
    pub ipv4: bool,
    pub ipv6: bool,
    pub stage: InterfaceStage,
}

/// How far a reply brought a wait for interfaces.
#[derive(Clone, Copy, Debug, PartialEq, Eq)]
pub enum InterfaceProgress {
    /// The wait goes on with this request.
    Pending(InterfaceWait, InterfaceRequest),
    /// The wait is over.
    Done(Result<(), OsError>),
    /// The reply was not the one that the wait waits for.
    Mismatch(InterfaceWait),
}

impl InterfaceStage {
    /// The number of replies that a wait at this stage can still take at most.
    pub open spec fn replies_left(self) -> nat {
        match self {
            InterfaceStage::Registration => 4,
            InterfaceStage::Entry(AddressFamily::Ipv4) => 3,
            InterfaceStage::Entry(AddressFamily::Ipv6) => 2,
            InterfaceStage::Signal => 1,
        }
    }
}

impl InterfaceWait {
    /// The wait at `stage`.
    pub open spec fn at(self, stage: InterfaceStage) -> InterfaceWait {
        InterfaceWait { luid: self.luid, ipv4: self.ipv4, ipv6: self.ipv6, stage }
    }

    /// How the wait goes on once the IPv4 interface is known to be there or
    /// not to be wanted: with the IPv6 interface if that is wanted, and
    /// otherwise it is over.
    pub open spec fn after_ipv4(self) -> InterfaceProgress {
        if self.ipv6 {
            InterfaceProgress::Pending(
                self.at(InterfaceStage::Entry(AddressFamily::Ipv6)),
                InterfaceRequest::QueryEntry { family: AddressFamily::Ipv6, luid: self.luid },
            )
        } else {
            InterfaceProgress::Done(Ok(()))
        }
    }

    /// How the wait goes on once it is registered: it looks for the wanted
    /// interfaces, IPv4 first.
    pub open spec fn after_registration(self) -> InterfaceProgress {
        if self.ipv4 {
            InterfaceProgress::Pending(
                self.at(InterfaceStage::Entry(AddressFamily::Ipv4)),
                InterfaceRequest::QueryEntry { family: AddressFamily::Ipv4, luid: self.luid },
            )
        } else {
            self.after_ipv4()
        }
    }

    /// How the wait goes on from `reply`.
    ///
    /// A registration or a lookup that failed ends the wait with its error. A
    /// lookup that found the interface missing makes the wait depend on the
    /// notifications; nothing else does. Once the signal has come the wait is
    /// over, successfully.
    pub open spec fn step(self, reply: InterfaceReply) -> InterfaceProgress {
        match (self.stage, reply) {
            (InterfaceStage::Registration, InterfaceReply::Registered { status }) => {
                match status_outcome(status) {
                    Err(error) => InterfaceProgress::Done(Err(error)),
                    Ok(()) => self.after_registration(),
                }
            },
            (InterfaceStage::Entry(family), InterfaceReply::Entry { status }) => {
                match lookup_outcome(status) {
                    Err(error) => InterfaceProgress::Done(Err(error)),
                    Ok(false) => InterfaceProgress::Pending(
                        self.at(InterfaceStage::Signal),
                        InterfaceRequest::AwaitSignal,
                    ),
                    Ok(true) => match family {
                        AddressFamily::Ipv4 => self.after_ipv4(),
                        AddressFamily::Ipv6 => InterfaceProgress::Done(Ok(())),
                    },
                }
            },
            (InterfaceStage::Signal, InterfaceReply::Signalled) => InterfaceProgress::Done(Ok(())),
            _ => InterfaceProgress::Mismatch(self),
        }
    }

    /// Starts a wait for the IP interfaces of the wanted families on the
    /// network interface `luid`. Its first request is the registration.
    pub fn begin(luid: u64, ipv4: bool, ipv6: bool) -> (start: (InterfaceWait, InterfaceRequest))
        ensures
            start.0 == (InterfaceWait { luid, ipv4, ipv6, stage: InterfaceStage::Registration }),
            start.1 == InterfaceRequest::Register,
    {
        (
            InterfaceWait { luid, ipv4, ipv6, stage: InterfaceStage::Registration },
            InterfaceRequest::Register,
        )
    }

    /// Takes the wait one step further with the reply to its request.
    pub fn advance(self, reply: InterfaceReply) -> (progress: InterfaceProgress)
        ensures
            progress == self.step(reply),
    {
        match (self.stage, reply) {
            (InterfaceStage::Registration, InterfaceReply::Registered { status }) => {
                match check_status(status) {
                    Err(error) => InterfaceProgress::Done(Err(error)),
                    Ok(()) => if self.ipv4 {
                        self.look_for(AddressFamily::Ipv4)
                    } else {
                        self.look_for_ipv6()
                    },
                }
            },
            (InterfaceStage::Entry(family), InterfaceReply::Entry { status }) => {
                match entry_exists(status) {
                    Err(error) => InterfaceProgress::Done(Err(error)),
                    Ok(false) => InterfaceProgress::Pending(
                        self.moved_to(InterfaceStage::Signal),
                        InterfaceRequest::AwaitSignal,
                    ),
                    Ok(true) => match family {
                        AddressFamily::Ipv4 => self.look_for_ipv6(),
                        AddressFamily::Ipv6 => InterfaceProgress::Done(Ok(())),
                    },
                }
            },
            (InterfaceStage::Signal, InterfaceReply::Signalled) => InterfaceProgress::Done(Ok(())),
            _ => InterfaceProgress::Mismatch(self),
        }
    }

    fn moved_to(self, stage: InterfaceStage) -> (wait: InterfaceWait)
        ensures
            wait == self.at(stage),
    {
        InterfaceWait { luid: self.luid, ipv4: self.ipv4, ipv6: self.ipv6, stage }
    }

    fn look_for(self, family: AddressFamily) -> (progress: InterfaceProgress)
        ensures
            progress == InterfaceProgress::Pending(
                self.at(InterfaceStage::Entry(family)),
                InterfaceRequest::QueryEntry { family, luid: self.luid },
            ),
    {
        InterfaceProgress::Pending(
            self.moved_to(InterfaceStage::Entry(family)),
            InterfaceRequest::QueryEntry { family, luid: self.luid },
        )
    }

    fn look_for_ipv6(self) -> (progress: InterfaceProgress)
        ensures
            progress == self.after_ipv4(),
    {
        if self.ipv6 {
            self.look_for(AddressFamily::Ipv6)
        } else {
            InterfaceProgress::Done(Ok(()))
        }
    }
}

/// A wait depends on the notifications only after a lookup has found an
/// interface missing. Where the wanted interfaces are there when they are
/// looked for, the wait ends without waiting for any notification.
pub proof fn lemma_signal_awaited_only_for_a_missing_interface(
    wait: InterfaceWait,
    reply: InterfaceReply,
)
    ensures
        wait.step(reply) matches InterfaceProgress::Pending(_, InterfaceRequest::AwaitSignal)
            <==> wait.stage is Entry && reply == (InterfaceReply::Entry {
            status: ERROR_NOT_FOUND,
        }),
{
}

/// A wait looks for an interface only once it is registered for
/// notifications, so that no interface can attach unnoticed between the look
/// and the registration; and it looks for the IPv6 interface only once the
/// IPv4 interface is found or not wanted.
pub proof fn lemma_lookup_follows_registration(wait: InterfaceWait, reply: InterfaceReply)
    ensures
        wait.step(reply) matches InterfaceProgress::Pending(_, InterfaceRequest::QueryEntry {
            family,
            luid,
        }) ==> {
            &&& luid == wait.luid
            &&& family == AddressFamily::Ipv4 ==> wait.ipv4 && wait.stage is Registration && reply
                == (InterfaceReply::Registered { status: NO_ERROR })
            &&& family == AddressFamily::Ipv6 ==> wait.ipv6 && {
                ||| !wait.ipv4 && wait.stage is Registration && reply
                    == (InterfaceReply::Registered { status: NO_ERROR })
                ||| wait.stage == InterfaceStage::Entry(AddressFamily::Ipv4) && reply
                    == (InterfaceReply::Entry { status: NO_ERROR })
            }
        },
        !(wait.step(reply) matches InterfaceProgress::Pending(_, InterfaceRequest::Register)),
{
}

/// Every reply that a wait was waiting for brings it nearer to its end, and
/// leaves what it waits for on which interface unchanged: nothing is asked
/// twice, and a wait is over after four replies at most.
pub proof fn lemma_interface_wait_makes_progress(wait: InterfaceWait, reply: InterfaceReply)
    ensures
        wait.step(reply) matches InterfaceProgress::Pending(next, _) ==> {
            &&& next.stage.replies_left() < wait.stage.replies_left()
            &&& next.luid == wait.luid
            &&& next.ipv4 == wait.ipv4
            &&& next.ipv6 == wait.ipv6
        },
{
}

/// With every wanted interface present, a wait that is registered asks for one
/// lookup per wanted family, IPv4 first, and then ends successfully.
pub proof fn lemma_present_interfaces_end_the_wait(luid: u64, ipv4: bool, ipv6: bool)
    ensures
        ({
            let registered = InterfaceWait {
                luid,
                ipv4,
                ipv6,
                stage: InterfaceStage::Registration,
            }.step(InterfaceReply::Registered { status: NO_ERROR });
            let found = InterfaceReply::Entry { status: NO_ERROR };
            let for_ipv4 = InterfaceRequest::QueryEntry { family: AddressFamily::Ipv4, luid };
            let for_ipv6 = InterfaceRequest::QueryEntry { family: AddressFamily::Ipv6, luid };
            if ipv4 && ipv6 {
                &&& registered matches InterfaceProgress::Pending(first, request)
                &&& request == for_ipv4
                &&& first.step(found) matches InterfaceProgress::Pending(second, request)
                &&& request == for_ipv6
                &&& second.step(found) == InterfaceProgress::Done(Ok(()))
            } else if ipv4 || ipv6 {
                &&& registered matches InterfaceProgress::Pending(only, request)
                &&& request == if ipv4 {
                    for_ipv4
                } else {
                    for_ipv6
                }
                &&& only.step(found) == InterfaceProgress::Done(Ok(()))
            } else {
                registered == InterfaceProgress::Done(Ok(()))
            }
        }),
{
}

} // verus!
