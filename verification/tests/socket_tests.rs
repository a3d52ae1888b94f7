use interprocess::error::Error;
use interprocess::local_socket::{Listener, Stream};
use interprocess::name::Name;
use interprocess::name_type::{GenericFilePath, GenericNamespaced, NamespacedNameType,
    PathNameType};
use interprocess::socket_trait::{ShutdownHow, UdSocket};

fn unique_suffix() -> String {
    let pid = nix::unistd::getpid().as_raw();
    let nanos = std::time::SystemTime::now()
        .duration_since(std::time::UNIX_EPOCH)
        .expect("clock")
        .subsec_nanos();
    format!("{pid}-{nanos}")
}

fn unique_ns_name(tag: &str) -> Name {
    let input = format!("ipc-core-test-{tag}-{}", unique_suffix()).into_bytes();
    GenericNamespaced::map(&input).expect("namespaced mapping should succeed")
}

fn unique_fs_name(tag: &str) -> (Name, String) {
    let path = format!("/tmp/ipc-core-test-{tag}-{}.sock", unique_suffix());
    let input = path.clone().into_bytes();
    (GenericFilePath::map(&input).expect("path mapping should succeed"), path)
}

#[test]
fn round_trip_bind_then_connect_with_same_name() {
    let name = unique_ns_name("roundtrip");
    let listener = Listener::bind(&name).expect("bind");
    let client = Stream::connect(&name.duplicate()).expect("connect");
    let server_side = listener.accept().expect("accept");

    let payload = b"ping".to_vec();
    let sent = client.send_bytes(&payload).expect("send");
    assert_eq!(sent, 4);
    let mut buf = vec![0u8; 16];
    let got = server_side.recv_bytes(&mut buf).expect("recv");
    assert_eq!(&buf[..got], b"ping");
}

#[test]
fn default_reclamation_frees_the_name_for_rebinding() {
    let (name, _path) = unique_fs_name("reclaim");
    let listener = Listener::bind(&name).expect("first bind");
    assert!(listener.reclaims_name_on_drop());
    drop(listener);
    let again = Listener::bind(&name).expect("rebind after reclaiming drop");
    drop(again);
}

#[test]
fn disabled_reclamation_leaves_the_name_in_use() {
    let (name, path) = unique_fs_name("no-reclaim");
    let listener = Listener::bind_without_name_reclamation(&name).expect("first bind");
    assert!(!listener.reclaims_name_on_drop());
    drop(listener);
    let err = Listener::bind(&name).expect_err("rebind must hit the leftover entry");
    assert_eq!(err, Error::NameInUse);
    let _ = nix::unistd::unlink(path.as_str());
}

#[test]
fn do_not_reclaim_name_on_drop_is_idempotent_and_sticks() {
    let (name, path) = unique_fs_name("flip-flag");
    let mut listener = Listener::bind(&name).expect("bind");
    assert!(listener.reclaims_name_on_drop());
    listener.do_not_reclaim_name_on_drop();
    assert!(!listener.reclaims_name_on_drop());
    listener.do_not_reclaim_name_on_drop();
    assert!(!listener.reclaims_name_on_drop());
    drop(listener);
    let err = Listener::bind_without_name_reclamation(&name).expect_err("entry must remain");
    assert_eq!(err, Error::NameInUse);
    let _ = nix::unistd::unlink(path.as_str());
}

#[test]
fn n_clients_make_n_independent_connections() {
    let name = unique_ns_name("many");
    let listener = Listener::bind(&name).expect("bind");

    let clients: Vec<Stream> = (0u8..5)
        .map(|i| {
            let c = Stream::connect(&name.duplicate()).expect("connect");
            c.send_bytes(&vec![i]).expect("send tag");
            c
        })
        .collect();

    let mut seen = [false; 5];
    for _ in 0..5 {
        let conn = listener.accept().expect("accept");
        let mut buf = vec![0u8; 1];
        let got = conn.recv_bytes(&mut buf).expect("recv tag");
        assert_eq!(got, 1);
        let tag = buf[0] as usize;
        assert!(tag < 5, "unexpected tag");
        assert!(!seen[tag], "each connection must be distinct");
        seen[tag] = true;
    }
    assert!(seen.iter().all(|s| *s));
    drop(clients);
}

#[test]
fn shutdown_twice_is_tolerated_and_the_direction_stays_down() {
    let name = unique_ns_name("shutdown");
    let listener = Listener::bind(&name).expect("bind");
    let client = Stream::connect(&name.duplicate()).expect("connect");
    let server_side = listener.accept().expect("accept");

    client.shutdown(ShutdownHow::Write).expect("first shutdown of a live direction");
    // The second call may succeed idempotently or fail, depending on the
    // platform; both are acceptable outcomes, and neither may panic.
    if let Err(e) = client.shutdown(ShutdownHow::Write) {
        assert!(matches!(e, Error::PartialShutdownAmbiguity | Error::Os(_)));
    }

    // Writes on the shut-down direction fail deterministically.
    assert!(client.send_bytes(&b"late".to_vec()).is_err());

    // The peer sees a clean end of stream.
    let mut buf = vec![0u8; 8];
    assert_eq!(server_side.recv_bytes(&mut buf).expect("recv"), 0);

    // Shutting the read half down twice is tolerated the same way.
    server_side.shutdown(ShutdownHow::Read).expect("shut read half");
    let _second_read = server_side.shutdown(ShutdownHow::Read);
    assert_eq!(server_side.recv_bytes(&mut buf).expect("recv after read shutdown"), 0);
}

#[test]
fn nonblocking_mode_toggles_and_reports() {
    let name = unique_ns_name("nonblock");
    let listener = Listener::bind(&name).expect("bind");
    let client = Stream::connect(&name.duplicate()).expect("connect");
    let server_side = listener.accept().expect("accept");

    assert!(!server_side.is_nonblocking().expect("query default"));
    server_side.set_nonblocking(true).expect("enable");
    assert!(server_side.is_nonblocking().expect("query enabled"));

    // Nothing was sent: a nonblocking receive reports WouldBlock as a normal
    // outcome instead of waiting.
    let mut buf = vec![0u8; 4];
    assert_eq!(server_side.recv_bytes(&mut buf).unwrap_err(), Error::WouldBlock);

    server_side.set_nonblocking(false).expect("disable");
    assert!(!server_side.is_nonblocking().expect("query disabled"));
    drop(client);
}

#[test]
fn peer_credentials_identify_the_connecting_process() {
    let name = unique_ns_name("creds");
    let listener = Listener::bind(&name).expect("bind");
    let client = Stream::connect(&name.duplicate()).expect("connect");
    let server_side = listener.accept().expect("accept");

    let creds = server_side.get_peer_credentials().expect("peer credentials");
    assert_eq!(creds.pid, nix::unistd::getpid().as_raw());
    assert_eq!(creds.uid, nix::unistd::getuid().as_raw());
    assert_eq!(creds.gid, nix::unistd::getgid().as_raw());

    server_side
        .set_continuous_ancillary_credentials(true)
        .expect("enable continuous credentials");
    server_side
        .set_continuous_ancillary_credentials(false)
        .expect("disable continuous credentials");
    drop(client);
}

#[test]
fn oversized_names_are_rejected_before_any_os_call() {
    // A Windows-family pipe name is longer than a Unix socket address can
    // carry; the Unix-domain backend rejects it as malformed instead of
    // truncating it.
    let long_input = vec![b'y'; 120];
    let pipe_name = GenericNamespaced::map_on(
        interprocess::platform::Platform::Windows,
        &long_input,
    )
    .expect("pipe mapping has no such ceiling");
    assert_eq!(Listener::bind(&pipe_name).unwrap_err(), Error::MalformedInput);
    assert_eq!(Stream::connect(&pipe_name).unwrap_err(), Error::MalformedInput);
}

#[test]
fn binding_in_a_missing_directory_surfaces_the_os_answer() {
    let input = b"/tmp/ipc-core-no-such-dir/entry.sock".to_vec();
    let name = GenericFilePath::map(&input).expect("path mapping");
    assert!(matches!(Listener::bind(&name).unwrap_err(), Error::Os(_)));
}

#[test]
fn connecting_to_nothing_fails_without_panicking() {
    let name = unique_ns_name("nobody-listens");
    let err = Stream::connect(&name).expect_err("no listener is bound here");
    assert!(matches!(err, Error::Os(_)));
}

#[test]
fn concurrent_accept_tasks_serve_n_clients_independently() {
    // A current-thread runtime: the spawned blocking tasks still run in
    // parallel on tokio's blocking pool.
    let rt = tokio::runtime::Builder::new_current_thread()
        .build()
        .expect("runtime");
    let name = unique_ns_name("concurrent");
    let listener = std::sync::Arc::new(Listener::bind(&name).expect("bind"));
    const N: u8 = 4;

    rt.block_on(async {
        let mut accept_tasks = Vec::new();
        for _ in 0..N {
            let l = std::sync::Arc::clone(&listener);
            accept_tasks.push(tokio::task::spawn_blocking(move || {
                let conn = l.accept().expect("accept");
                let mut buf = vec![0u8; 1];
                let got = conn.recv_bytes(&mut buf).expect("recv tag");
                assert_eq!(got, 1);
                conn.send_bytes(&buf).expect("echo tag");
                buf[0]
            }));
        }

        let mut client_tasks = Vec::new();
        for i in 0..N {
            let nm = name.duplicate();
            client_tasks.push(tokio::task::spawn_blocking(move || {
                let c = Stream::connect(&nm).expect("connect");
                c.send_bytes(&vec![i]).expect("send tag");
                let mut buf = vec![0u8; 1];
                let got = c.recv_bytes(&mut buf).expect("recv echo");
                assert_eq!(got, 1);
                assert_eq!(buf[0], i, "each client must get its own answer");
            }));
        }

        let mut tags: Vec<u8> = Vec::new();
        for t in accept_tasks {
            tags.push(t.await.expect("accept task"));
        }
        for t in client_tasks {
            t.await.expect("client task");
        }
        tags.sort();
        assert_eq!(tags, vec![0, 1, 2, 3], "exactly one connection per client");
    });
}
