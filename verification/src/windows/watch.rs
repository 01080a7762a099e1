//! What the notifications of interface changes tell a wait for interfaces.
//!
//! The network stack reports every change of an IP interface to a callback.
//! A watch is the state of that callback: it notes which of the wanted
//! families it has seen attach to one network interface, and completes a
//! one-shot signal when it has seen them all.

use crate::windows::family::{AF_INET, AF_INET6};
use crate::windows::interfaces::MIB_ADD_INSTANCE;
use futures::channel::oneshot::Sender;
use vstd::prelude::*;

verus! {

/// `futures::channel::oneshot::Sender`, the sending half of a one-shot
/// channel. Nothing is known of what a sender holds.
#[verifier::external_type_specification]
#[verifier::external_body]
#[verifier::reject_recursive_types(T)]
pub struct ExSender<T>(Sender<T>);

/// Completes a one-shot channel, by `futures::channel::oneshot::Sender::send`.
/// The call consumes the sender. Whether the value reaches the receiver
/// depends on whether the receiver still exists, so nothing is claimed of
/// that.
#[verifier::external_body]
fn send_signal(signal: Sender<()>) {
    let _ = signal.send(());
}

/// A notification of a change to an IP interface: what a watch reads of it.
#[derive(Clone, Copy, Debug, PartialEq, Eq, Structural)]
pub struct InterfaceNotification {
    /// The LUID of the network interface that the IP interface belongs to.
    pub interface_luid: u64,
    /// The family code of the IP interface.
    pub family: u16,
    /// What happened to the IP interface.
    pub notification_type: u32,
}

/// The state of the callback of a wait for interfaces.
pub struct InterfaceWatch {
    luid: u64,
    found_ipv4: bool,
    found_ipv6: bool,
    signal: Option<Sender<()>>,
}

/// What a watch holds: the network interface that it watches, which families
/// it counts as found, and whether it still has its signal to complete.
pub struct InterfaceWatchView {
    pub luid: u64,
    pub found_ipv4: bool,
    pub found_ipv6: bool,
    pub armed: bool,
}

impl View for InterfaceWatch {
    type V = InterfaceWatchView;

    closed spec fn view(&self) -> InterfaceWatchView {
        InterfaceWatchView {
            luid: self.luid,
            found_ipv4: self.found_ipv4,
            found_ipv6: self.found_ipv6,
            armed: self.signal is Some,
        }
    }
}

impl InterfaceWatchView {
    /// A new watch of the network interface `luid` for the wanted families. A
    /// family that is not wanted counts as found.
    pub open spec fn initial(luid: u64, ipv4: bool, ipv6: bool) -> InterfaceWatchView {
        InterfaceWatchView { luid, found_ipv4: !ipv4, found_ipv6: !ipv6, armed: true }
    }

    /// Whether nothing is left to see.
    pub open spec fn complete(self) -> bool {
        self.found_ipv4 && self.found_ipv6
    }

    /// Whether the watch takes note of `notification`: it still misses a
    /// family, and the notification says that an IP interface was added to the
    /// watched network interface.
    pub open spec fn concerns(self, notification: InterfaceNotification) -> bool {
        &&& !self.complete()
        &&& notification.notification_type == MIB_ADD_INSTANCE
        &&& notification.interface_luid == self.luid
    }

    /// Whether `notification` is the one that completes the watch.
    pub open spec fn completed_by(self, notification: InterfaceNotification) -> bool {
        !self.complete() && self.noted(notification).complete()
    }

    /// The watch after it has taken note of `notification`: it counts the
    /// family that attached as found, and gives up its signal if that
    /// completes it.
    pub open spec fn noted(self, notification: InterfaceNotification) -> InterfaceWatchView {
        let found_ipv4 = self.found_ipv4 || (self.concerns(notification) && notification.family
            == AF_INET);
        let found_ipv6 = self.found_ipv6 || (self.concerns(notification) && notification.family
            == AF_INET6);
        InterfaceWatchView {
            luid: self.luid,
            found_ipv4,
            found_ipv6,
            armed: self.armed && (self.complete() || !(found_ipv4 && found_ipv6)),
        }
    }
}

impl InterfaceWatch {
    /// A watch of the network interface `luid` for the wanted families, which
    /// completes `signal` when it has seen them all.
    pub fn new(luid: u64, ipv4: bool, ipv6: bool, signal: Sender<()>) -> (watch: InterfaceWatch)
        ensures
            watch@ == InterfaceWatchView::initial(luid, ipv4, ipv6),
    {
        InterfaceWatch { luid, found_ipv4: !ipv4, found_ipv6: !ipv6, signal: Some(signal) }
    }

    /// Tells whether nothing is left to see.
    pub fn is_complete(&self) -> (complete: bool)
        ensures
            complete == self@.complete(),
    {
        self.found_ipv4 && self.found_ipv6
    }

    /// Takes note of a notification. The signal is completed by the
    /// notification that completes the watch, and given up with it.
    pub fn on_notification(&mut self, notification: InterfaceNotification)
        ensures
            final(self)@ == old(self)@.noted(notification),
    {
        if self.found_ipv4 && self.found_ipv6 {
            return ;
        }
        if notification.notification_type != MIB_ADD_INSTANCE {
            return ;
        }
        if notification.interface_luid != self.luid {
            return ;
        }
        if notification.family == AF_INET {
            self.found_ipv4 = true;
        } else if notification.family == AF_INET6 {
            self.found_ipv6 = true;
        }
        if self.found_ipv4 && self.found_ipv6 {
            if let Some(signal) = self.signal.take() {
                send_signal(signal);
            }
        }
    }
}

/// A watch that is complete takes note of nothing more, so it completes its
/// signal at most once; and it gives its signal up only by becoming complete.
pub proof fn lemma_signal_is_completed_once(
    before: InterfaceWatchView,
    notification: InterfaceNotification,
)
    ensures
        ({
            let after = before.noted(notification);
            &&& before.complete() ==> after == before
            &&& before.armed && !after.armed <==> before.armed && before.completed_by(notification)
            &&& !before.armed ==> !after.armed
            &&& before.found_ipv4 ==> after.found_ipv4
            &&& before.found_ipv6 ==> after.found_ipv6
            &&& after.luid == before.luid
        }),
{
}

/// Only a notification that an IP interface of one of the two families was
/// added to the watched network interface changes a watch.
pub proof fn lemma_other_notifications_are_ignored(
    before: InterfaceWatchView,
    notification: InterfaceNotification,
)
    requires
        notification.notification_type != MIB_ADD_INSTANCE || notification.interface_luid
            != before.luid || (notification.family != AF_INET && notification.family != AF_INET6),
    ensures
        before.noted(notification) == before,
{
}

/// Once an IP interface of each family has been added to the watched network
/// interface, in either order, the watch is complete; and unless it was
/// complete from the start, it has given up its signal.
pub proof fn lemma_watch_completes_when_both_families_attach(
    before: InterfaceWatchView,
    first: InterfaceNotification,
    second: InterfaceNotification,
)
    requires
        first.notification_type == MIB_ADD_INSTANCE,
        second.notification_type == MIB_ADD_INSTANCE,
        first.interface_luid == before.luid,
        second.interface_luid == before.luid,
        first.family == AF_INET && second.family == AF_INET6 || first.family == AF_INET6
            && second.family == AF_INET,
    ensures
        before.noted(first).noted(second).complete(),
        !before.complete() ==> !before.noted(first).noted(second).armed,
{
}

/// A new watch completes with the notification that the last wanted family
/// has attached, and not before.
pub proof fn lemma_new_watch_waits_for_every_wanted_family(
    luid: u64,
    ipv4: bool,
    ipv6: bool,
    notification: InterfaceNotification,
)
    ensures
        ({
            let watch = InterfaceWatchView::initial(luid, ipv4, ipv6);
            &&& watch.complete() <==> !ipv4 && !ipv6
            &&& watch.completed_by(notification) <==> {
                &&& notification.notification_type == MIB_ADD_INSTANCE
                &&& notification.interface_luid == luid
                &&& ipv4 != ipv6
                &&& notification.family == if ipv4 {
                    AF_INET
                } else {
                    AF_INET6
                }
            }
        }),
{
}

} // verus!
