use tunnel_preflight::net::{Ipv4Address, Ipv6Address, SocketAddress};
use tunnel_preflight::windows::sockaddr::inet_sockaddr_from_socketaddr;
use tunnel_preflight::windows::unicast::{
    judge_entry, receive_outcome, select_interface_rows, AddressProgress, AddressReply,
    AddressRequest, AddressWait, EntryVerdict, UnicastAddressRow, DAD_CHECK_INTERVAL,
    DAD_CHECK_TIMEOUT,
};
use tunnel_preflight::windows::error::{
    DadStateError, Error, OsError, IP_DAD_STATE_DEPRECATED, IP_DAD_STATE_DUPLICATE,
    IP_DAD_STATE_INVALID, IP_DAD_STATE_PREFERRED, IP_DAD_STATE_TENTATIVE,
};
use tunnel_preflight::windows::wide::{nul_terminated, wide_length};

const LUID: u64 = 0x0006_0000_0000_0001;

fn row(luid: u64, last: u8, dad_state: u32) -> UnicastAddressRow {
    UnicastAddressRow {
        address: inet_sockaddr_from_socketaddr(SocketAddress::v4(
            Ipv4Address::new(10, 0, 0, last),
            0,
        )),
        interface_luid: luid,
        dad_state,
    }
}

fn row_v6(luid: u64, last: u16) -> UnicastAddressRow {
    UnicastAddressRow {
        address: inet_sockaddr_from_socketaddr(SocketAddress::v6(
            Ipv6Address::new(0xfe80, 0, 0, 0, 0, 0, 0, last),
            0,
            0,
            0,
        )),
        interface_luid: luid,
        dad_state: IP_DAD_STATE_TENTATIVE,
    }
}

fn going_on(progress: AddressProgress) -> (AddressWait, AddressRequest) {
    match progress {
        AddressProgress::Pending(wait, request) => (wait, request),
        other => panic!("the wait does not go on: {:?}", other),
    }
}

fn entry(dad_state: u32) -> AddressReply {
    AddressReply::Entry { status: 0, dad_state }
}

/// A wait for the rows of `LUID` in `table`, up to its first query.
fn polling(table: Vec<UnicastAddressRow>) -> (AddressWait, AddressRequest) {
    let (wait, request) = AddressWait::begin(LUID);
    assert_eq!(request, AddressRequest::ReadTable);
    let (wait, request) = going_on(wait.advance(AddressReply::Table { status: 0, rows: table }));
    assert_eq!(request, AddressRequest::ReadClock);
    going_on(wait.advance(AddressReply::Elapsed(0)))
}

#[test]
fn constants_are_five_seconds_and_a_tenth() {
    assert_eq!(DAD_CHECK_TIMEOUT, 5000);
    assert_eq!(DAD_CHECK_INTERVAL, 100);
    assert_eq!(
        (
            IP_DAD_STATE_INVALID,
            IP_DAD_STATE_TENTATIVE,
            IP_DAD_STATE_DUPLICATE,
            IP_DAD_STATE_DEPRECATED,
            IP_DAD_STATE_PREFERRED
        ),
        (0, 1, 2, 3, 4)
    );
}

#[test]
fn rows_of_the_interface_are_selected_in_order() {
    let table = vec![
        row(LUID, 1, 4),
        row(LUID + 1, 2, 4),
        row_v6(LUID, 3),
        row(7, 4, 1),
        row(LUID, 5, 1),
    ];
    assert_eq!(
        select_interface_rows(&table, LUID),
        vec![row(LUID, 1, 4), row_v6(LUID, 3), row(LUID, 5, 1)]
    );
    assert_eq!(select_interface_rows(&table, 7), vec![row(7, 4, 1)]);
    assert_eq!(select_interface_rows(&table, 8), vec![]);
    assert_eq!(select_interface_rows(&Vec::new(), LUID), vec![]);
}

#[test]
fn tentative_then_preferred_succeeds() {
    let (wait, request) = polling(vec![row(LUID, 1, IP_DAD_STATE_TENTATIVE)]);
    assert_eq!(request, AddressRequest::QueryEntry(row(LUID, 1, IP_DAD_STATE_TENTATIVE)));
    let (wait, request) = going_on(wait.advance(entry(IP_DAD_STATE_TENTATIVE)));
    assert_eq!(request, AddressRequest::Sleep(100));
    let (wait, request) = going_on(wait.advance(AddressReply::Slept));
    assert_eq!(request, AddressRequest::ReadClock);
    let (wait, request) = going_on(wait.advance(AddressReply::Elapsed(101)));
    assert_eq!(request, AddressRequest::QueryEntry(row(LUID, 1, IP_DAD_STATE_TENTATIVE)));
    assert_eq!(wait.advance(entry(IP_DAD_STATE_PREFERRED)), AddressProgress::Done(Ok(())));
}

#[test]
fn deprecated_fails_without_waiting_out_the_timeout() {
    let (wait, _) = polling(vec![row(LUID, 1, IP_DAD_STATE_TENTATIVE)]);
    assert_eq!(
        wait.advance(entry(IP_DAD_STATE_DEPRECATED)),
        AddressProgress::Done(Err(Error::DadStateError(DadStateError::Deprecated)))
    );
}

#[test]
fn tentative_past_five_seconds_times_out() {
    let (mut wait, mut request) = polling(vec![row(LUID, 1, IP_DAD_STATE_TENTATIVE)]);
    let mut elapsed = 0;
    let mut polls = 0;
    let outcome = loop {
        assert_eq!(request, AddressRequest::QueryEntry(row(LUID, 1, IP_DAD_STATE_TENTATIVE)));
        polls += 1;
        let (slept, asked) = going_on(wait.advance(entry(IP_DAD_STATE_TENTATIVE)));
        assert_eq!(asked, AddressRequest::Sleep(DAD_CHECK_INTERVAL));
        elapsed += DAD_CHECK_INTERVAL;
        let (clock, asked) = going_on(slept.advance(AddressReply::Slept));
        assert_eq!(asked, AddressRequest::ReadClock);
        match clock.advance(AddressReply::Elapsed(elapsed)) {
            AddressProgress::Pending(next, asked) => {
                wait = next;
                request = asked;
            }
            AddressProgress::Done(outcome) => break outcome,
            other => panic!("unexpected progress: {:?}", other),
        }
    };
    assert_eq!(outcome, Err(Error::DeviceReadyTimeout));
    assert_eq!(elapsed, 5000);
    assert_eq!(polls, 50);
}

#[test]
fn clock_just_before_the_timeout_polls_again() {
    let (wait, _) = polling(vec![row(LUID, 1, IP_DAD_STATE_TENTATIVE)]);
    let (wait, _) = going_on(wait.advance(entry(IP_DAD_STATE_TENTATIVE)));
    let (wait, _) = going_on(wait.advance(AddressReply::Slept));
    let (_, request) = going_on(wait.advance(AddressReply::Elapsed(4999)));
    assert_eq!(request, AddressRequest::QueryEntry(row(LUID, 1, IP_DAD_STATE_TENTATIVE)));
}

#[test]
fn no_address_fails_immediately() {
    let (wait, _) = AddressWait::begin(LUID);
    assert_eq!(
        wait.advance(AddressReply::Table { status: 0, rows: Vec::new() }),
        AddressProgress::Done(Err(Error::NoUnicastAddress))
    );
    let (wait, _) = AddressWait::begin(LUID);
    assert_eq!(
        wait.advance(AddressReply::Table { status: 0, rows: vec![row(LUID + 1, 1, 4)] }),
        AddressProgress::Done(Err(Error::NoUnicastAddress))
    );
}

#[test]
fn unreadable_table_fails_with_its_status() {
    let (wait, _) = AddressWait::begin(LUID);
    assert_eq!(
        wait.advance(AddressReply::Table { status: 50, rows: vec![row(LUID, 1, 4)] }),
        AddressProgress::Done(Err(Error::ObtainUnicastAddress(OsError { code: 50 })))
    );
}

#[test]
fn failed_query_ends_the_wait() {
    let (wait, _) = polling(vec![row(LUID, 1, 1), row(LUID, 2, 1)]);
    assert_eq!(
        wait.advance(AddressReply::Entry { status: 1168, dad_state: IP_DAD_STATE_PREFERRED }),
        AddressProgress::Done(Err(Error::ObtainUnicastAddress(OsError { code: 1168 })))
    );
}

#[test]
fn every_row_is_queried_in_every_poll() {
    let rows = vec![row(LUID, 1, 1), row(9, 9, 1), row(LUID, 2, 1), row(LUID, 3, 1)];
    let (wait, request) = polling(rows.clone());
    assert_eq!(request, AddressRequest::QueryEntry(rows[0]));
    let (wait, request) = going_on(wait.advance(entry(IP_DAD_STATE_PREFERRED)));
    assert_eq!(request, AddressRequest::QueryEntry(rows[2]));
    let (wait, request) = going_on(wait.advance(entry(IP_DAD_STATE_TENTATIVE)));
    assert_eq!(request, AddressRequest::QueryEntry(rows[3]));
    let (wait, request) = going_on(wait.advance(entry(IP_DAD_STATE_PREFERRED)));
    assert_eq!(request, AddressRequest::Sleep(100));
    let (wait, _) = going_on(wait.advance(AddressReply::Slept));
    let (wait, request) = going_on(wait.advance(AddressReply::Elapsed(100)));
    assert_eq!(request, AddressRequest::QueryEntry(rows[0]));
    let (wait, _) = going_on(wait.advance(entry(IP_DAD_STATE_PREFERRED)));
    let (wait, request) = going_on(wait.advance(entry(IP_DAD_STATE_PREFERRED)));
    assert_eq!(request, AddressRequest::QueryEntry(rows[3]));
    assert_eq!(wait.advance(entry(IP_DAD_STATE_PREFERRED)), AddressProgress::Done(Ok(())));
}

#[test]
fn duplicate_behind_a_tentative_row_fails_at_the_first_poll() {
    let rows = vec![row(LUID, 1, 1), row(LUID, 2, 1)];
    let (wait, request) = polling(rows.clone());
    assert_eq!(request, AddressRequest::QueryEntry(rows[0]));
    let (wait, request) = going_on(wait.advance(entry(IP_DAD_STATE_TENTATIVE)));
    assert_eq!(request, AddressRequest::QueryEntry(rows[1]));
    assert_eq!(
        wait.advance(entry(IP_DAD_STATE_DUPLICATE)),
        AddressProgress::Done(Err(Error::DadStateError(DadStateError::Duplicate)))
    );
}

#[test]
fn deprecated_behind_tentative_rows_fails_without_a_sleep() {
    let (wait, _) = polling(vec![row(LUID, 1, 1), row(LUID, 2, 1), row(LUID, 3, 1)]);
    let (wait, _) = going_on(wait.advance(entry(IP_DAD_STATE_TENTATIVE)));
    let (wait, _) = going_on(wait.advance(entry(IP_DAD_STATE_TENTATIVE)));
    assert_eq!(
        wait.advance(entry(IP_DAD_STATE_DEPRECATED)),
        AddressProgress::Done(Err(Error::DadStateError(DadStateError::Deprecated)))
    );
}

#[test]
fn failed_query_behind_a_tentative_row_ends_the_wait() {
    let (wait, _) = polling(vec![row(LUID, 1, 1), row(LUID, 2, 1)]);
    let (wait, _) = going_on(wait.advance(entry(IP_DAD_STATE_TENTATIVE)));
    assert_eq!(
        wait.advance(AddressReply::Entry { status: 87, dad_state: IP_DAD_STATE_PREFERRED }),
        AddressProgress::Done(Err(Error::ObtainUnicastAddress(OsError { code: 87 })))
    );
}

#[test]
fn tentative_row_before_preferred_ones_leads_to_another_poll() {
    let rows = vec![row(LUID, 1, 1), row(LUID, 2, 1)];
    let (wait, _) = polling(rows.clone());
    let (wait, _) = going_on(wait.advance(entry(IP_DAD_STATE_TENTATIVE)));
    let (wait, request) = going_on(wait.advance(entry(IP_DAD_STATE_PREFERRED)));
    assert_eq!(request, AddressRequest::Sleep(100));
    let (wait, request) = going_on(wait.advance(AddressReply::Slept));
    assert_eq!(request, AddressRequest::ReadClock);
    let (wait, request) = going_on(wait.advance(AddressReply::Elapsed(200)));
    assert_eq!(request, AddressRequest::QueryEntry(rows[0]));
    let (wait, _) = going_on(wait.advance(entry(IP_DAD_STATE_PREFERRED)));
    assert_eq!(wait.advance(entry(IP_DAD_STATE_PREFERRED)), AddressProgress::Done(Ok(())));
}

#[test]
fn unchanging_tentative_and_duplicate_never_time_out() {
    let rows = vec![row(LUID, 1, 1), row(LUID, 2, 2)];
    let (wait, _) = polling(rows);
    let (wait, _) = going_on(wait.advance(entry(IP_DAD_STATE_TENTATIVE)));
    let progress = wait.advance(entry(IP_DAD_STATE_DUPLICATE));
    assert_ne!(progress, AddressProgress::Done(Err(Error::DeviceReadyTimeout)));
    assert!(matches!(progress, AddressProgress::Done(Err(Error::DadStateError(_)))));
}

#[test]
fn every_failed_state_is_classified() {
    let states = [
        (IP_DAD_STATE_INVALID, DadStateError::Invalid),
        (IP_DAD_STATE_DUPLICATE, DadStateError::Duplicate),
        (IP_DAD_STATE_DEPRECATED, DadStateError::Deprecated),
        (5, DadStateError::Unknown(5)),
        (u32::MAX, DadStateError::Unknown(u32::MAX)),
    ];
    for (state, error) in states {
        let (wait, _) = polling(vec![row(LUID, 1, 1)]);
        assert_eq!(
            wait.advance(entry(state)),
            AddressProgress::Done(Err(Error::DadStateError(error)))
        );
        assert_eq!(DadStateError::from(state), error);
        assert_eq!(judge_entry(0, state), EntryVerdict::Failed(Error::DadStateError(error)));
    }
}

#[test]
fn states_that_are_no_errors_convert_to_unknown() {
    assert_eq!(DadStateError::from(IP_DAD_STATE_TENTATIVE), DadStateError::Unknown(1));
    assert_eq!(DadStateError::from(IP_DAD_STATE_PREFERRED), DadStateError::Unknown(4));
}

#[test]
fn entries_are_judged() {
    assert_eq!(judge_entry(0, IP_DAD_STATE_PREFERRED), EntryVerdict::Preferred);
    assert_eq!(judge_entry(0, IP_DAD_STATE_TENTATIVE), EntryVerdict::Tentative);
    assert_eq!(
        judge_entry(31, IP_DAD_STATE_PREFERRED),
        EntryVerdict::Failed(Error::ObtainUnicastAddress(OsError { code: 31 }))
    );
}

#[test]
fn late_first_clock_times_out_before_any_query() {
    let (wait, _) = AddressWait::begin(LUID);
    let (wait, _) =
        going_on(wait.advance(AddressReply::Table { status: 0, rows: vec![row(LUID, 1, 1)] }));
    assert_eq!(
        wait.advance(AddressReply::Elapsed(5000)),
        AddressProgress::Done(Err(Error::DeviceReadyTimeout))
    );
}

#[test]
fn reply_of_the_wrong_kind_hands_the_wait_back() {
    let (wait, _) = AddressWait::begin(LUID);
    let (wait, _) = match wait.advance(AddressReply::Slept) {
        AddressProgress::Mismatch(wait) => going_on(
            wait.advance(AddressReply::Table { status: 0, rows: vec![row(LUID, 1, 1)] }),
        ),
        other => panic!("unexpected progress: {:?}", other),
    };
    match wait.advance(entry(IP_DAD_STATE_PREFERRED)) {
        AddressProgress::Mismatch(wait) => {
            let (_, request) = going_on(wait.advance(AddressReply::Elapsed(1)));
            assert_eq!(request, AddressRequest::QueryEntry(row(LUID, 1, 1)));
        }
        other => panic!("unexpected progress: {:?}", other),
    }
}

#[test]
fn outcome_of_the_poller_is_received() {
    assert_eq!(receive_outcome(Some(Ok(()))), Ok(()));
    assert_eq!(
        receive_outcome(Some(Err(Error::DeviceReadyTimeout))),
        Err(Error::DeviceReadyTimeout)
    );
    assert_eq!(receive_outcome(None), Err(Error::UnicastSenderDropped));
}

#[test]
fn wide_strings_are_terminated() {
    assert_eq!(nul_terminated(&[0x4d, 0x75, 0x6c]), vec![0x4d, 0x75, 0x6c, 0]);
    assert_eq!(nul_terminated(&[]), vec![0]);
}

#[test]
fn wide_strings_end_at_the_first_zero() {
    assert_eq!(wide_length(&[0x4d, 0x75, 0, 0x6c, 0]), Some(2));
    assert_eq!(wide_length(&[0, 1]), Some(0));
    assert_eq!(wide_length(&[1, 2, 3]), None);
    assert_eq!(wide_length(&[]), None);
    let alias = [0x77u16, 0x67, 0x30];
    assert_eq!(wide_length(&nul_terminated(&alias)), Some(3));
}
