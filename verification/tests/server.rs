use pg_search::channels::{Channels, Dispatch};
use pg_search::error::ServerError;
use pg_search::header::{parse_transaction_id, transaction_id, Header};
use pg_search::request::{Fate, Reply};
use pg_search::server::{Listen, ListenAddr, Server, TransactionLoop};

/// An IPv4 address and a port.
type SocketAddr = ([u8; 4], u16);

fn header(field: &str, value: &str) -> Header {
    Header {
        field: field.to_string(),
        value: value.to_string(),
    }
}

#[test]
fn server_is_bound_to_an_ip_address() {
    let addr: SocketAddr = ([127, 0, 0, 1], 4242);
    let mut server = Server::new(Ok(ListenAddr::IP(addr))).unwrap();
    assert_eq!(server.addr(), addr);
    assert_eq!(server.start(), Listen::Receive);
    assert_eq!(server.addr(), addr);
}

#[test]
fn server_refuses_a_unix_socket() {
    let bound: Result<ListenAddr<SocketAddr>, String> = Ok(ListenAddr::Unix("\"/tmp/s\"".to_string()));
    let error = Server::new(bound).unwrap_err();
    assert_eq!(error, ServerError::UnixSocketBindAttempt("\"/tmp/s\"".to_string()));
    assert_eq!(
        error.message(),
        "writer server must not bind to unix socket, attemped: \"/tmp/s\""
    );
}

#[test]
fn server_reports_a_failed_bind() {
    let bound: Result<ListenAddr<SocketAddr>, String> = Err("address in use".to_string());
    let error = Server::new(bound).unwrap_err();
    assert_eq!(error, ServerError::AddressBindFailed("address in use".to_string()));
    assert_eq!(
        error.message(),
        "error binding writer server to address: address in use"
    );
}

#[test]
fn error_messages() {
    let text = || "why".to_string();
    assert_eq!(
        ServerError::OpenPipeFile(text()).message(),
        "couldn't open the consumer pipe file: why"
    );
    assert_eq!(ServerError::WriterError(text()).message(), "why");
    assert_eq!(ServerError::IOError(text()).message(), "why");
    assert_eq!(ServerError::ReqwestError(text()).message(), "why");
    assert_eq!(ServerError::SerdeJson(text()).message(), "why");
    assert_eq!(ServerError::Bincode(text()).message(), "why");
    assert_eq!(ServerError::Unexpected(text()).message(), "unexpected error: why");
    assert_eq!(ServerError::Anyhow(text()).message(), "unexpected error: why");
}

#[test]
fn transaction_id_is_found_by_its_lowercase_name() {
    let headers = vec![
        header("host", "localhost"),
        header("transactionid", "17"),
        header("transactionid", "18"),
    ];
    assert_eq!(transaction_id(&headers), Some("17"));
    assert_eq!(transaction_id(&vec![header("TransactionID", "17")]), None);
    assert_eq!(transaction_id(&vec![]), None);
}

#[test]
fn empty_transaction_id_counts_as_missing() {
    let headers = vec![header("transactionid", ""), header("transactionid", "18")];
    assert_eq!(transaction_id(&headers), None);
}

#[test]
fn transaction_ids_are_parsed_like_numbers() {
    let texts = [
        "0",
        "7",
        "+7",
        "007",
        "18446744073709551615",
        "18446744073709551616",
        "99999999999999999999999",
        "",
        "+",
        "-1",
        "++1",
        "1 ",
        "12a",
        "\u{663}",
    ];
    for text in texts {
        assert_eq!(parse_transaction_id(text), text.parse::<u64>().ok(), "{text:?}");
    }
    for id in [0, 1, 9, 10, 4711, u64::MAX - 1, u64::MAX] {
        assert_eq!(parse_transaction_id(&id.to_string()), Some(id));
    }
}

#[test]
fn requests_are_routed_by_their_headers() {
    assert_eq!(Listen::received(&vec![header("transactionid", "42")]), Listen::Dispatch(42));
    assert_eq!(Listen::received(&vec![header("accept", "*/*")]), Listen::HandleHere);
    assert_eq!(Listen::received(&vec![header("transactionid", "")]), Listen::HandleHere);
    match Listen::received(&vec![header("transactionid", "forty-two")]) {
        Listen::Respond(reply) => {
            assert_eq!(reply.status(), 500);
            assert_eq!(
                reply.body(),
                "unexpected error: error parsing 'TransactionID' into TransactionID"
            );
        }
        other => panic!("{other:?}"),
    }
}

#[test]
fn main_loop_stops_at_shutdown() {
    assert_eq!(Listen::settled(false), Listen::Receive);
    assert_eq!(Listen::settled(true), Listen::Stopped);
}

#[test]
fn transaction_thread_lives_for_its_transaction() {
    assert_eq!(TransactionLoop::listen_transaction(true), TransactionLoop::Exit);
    assert_eq!(TransactionLoop::listen_transaction(false), TransactionLoop::Receive);
    assert_eq!(TransactionLoop::received(true), TransactionLoop::Handle);
    assert_eq!(TransactionLoop::received(false), TransactionLoop::Exit);
    assert_eq!(TransactionLoop::settled(Fate::Open, false), TransactionLoop::Receive);
    assert_eq!(TransactionLoop::settled(Fate::Open, true), TransactionLoop::Exit);
    assert_eq!(TransactionLoop::settled(Fate::Over, false), TransactionLoop::Exit);
}

#[test]
fn a_transaction_has_one_thread() {
    let mut channels: Channels<&str> = Channels::new();
    assert_eq!(Channels::dispatch_transaction_thread(Ok(&channels), 1), Dispatch::Spawn);
    assert_eq!(channels.spawned(1, "first"), Dispatch::Send);
    assert_eq!(Channels::dispatch_transaction_thread(Ok(&channels), 1), Dispatch::Send);
    assert_eq!(Channels::dispatch_transaction_thread(Ok(&channels), 2), Dispatch::Spawn);
    assert_eq!(channels.spawned(2, "second"), Dispatch::Send);
    assert_eq!(channels.sender(1), Some(&"first"));
    assert_eq!(channels.sender(2), Some(&"second"));
    channels.ended(1);
    assert_eq!(channels.sender(1), None);
    assert_eq!(channels.sender(2), Some(&"second"));
    assert_eq!(Channels::dispatch_transaction_thread(Ok(&channels), 1), Dispatch::Spawn);
}

#[test]
fn undispatched_requests_are_given_back() {
    let poisoned: Result<&Channels<u8>, String> = Err("poisoned lock".to_string());
    match Channels::dispatch_transaction_thread(poisoned, 1) {
        Dispatch::Respond(reply) => {
            assert_eq!(reply.status(), 500);
            assert_eq!(
                reply.body(),
                "unexpected error: unexpected error sending request data to server transaction thread: poisoned lock"
            );
        }
        other => panic!("{other:?}"),
    }
    assert_eq!(Dispatch::sent(true), Dispatch::Finished);
    match Dispatch::sent(false) {
        Dispatch::Respond(reply) => {
            assert_eq!(reply, Reply::Failure(ServerError::Anyhow(
                "unexpected error sending request data to server transaction thread".to_string()
            )));
        }
        other => panic!("{other:?}"),
    }
}
