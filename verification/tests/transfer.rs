use std::collections::BTreeMap;
use veriflow::hashing::hash_bytes;
use veriflow::session::{Action, Event, Phase, Session};
use veriflow::{Command, FileHeader, VeriflowError};

/// One side of a connection with a directory that lives in memory.
struct Peer {
    session: Session,
    files: BTreeMap<String, Vec<u8>>,
    writing: Option<String>,
    reading: Vec<u8>,
    cursor: usize,
    action: Option<Action>,
    outcome: Option<Result<(), VeriflowError>>,
    shown: Option<Vec<String>>,
    sent: usize,
}

impl Peer {
    fn new(session: Session) -> Peer {
        Peer {
            session,
            files: BTreeMap::new(),
            writing: None,
            reading: Vec::new(),
            cursor: 0,
            action: None,
            outcome: None,
            shown: None,
            sent: 0,
        }
    }

    fn server(files: BTreeMap<String, Vec<u8>>) -> Peer {
        let mut peer = Peer::new(Session::serve());
        peer.files = files;
        peer
    }

    fn uploader(name: &str, content: &[u8]) -> Peer {
        let hash = hash_bytes(content);
        let session = Session::upload(Some(name), content.len() as u64, &hash).unwrap();
        let mut peer = Peer::new(session);
        peer.reading = content.to_vec();
        peer
    }

    fn done(&self) -> bool {
        self.outcome.is_some()
    }

    /// Carries actions out until the session waits for bytes that have not
    /// come, or ends. Bytes are handed over in pieces of at most `piece`.
    fn run(&mut self, wire: &mut Vec<u8>, peer_closed: bool, piece: usize) -> Vec<u8> {
        let mut out = Vec::new();
        while self.outcome.is_none() {
            let event = match self.action.take() {
                None => Event::Ready,
                Some(Action::Receive) => {
                    if !wire.is_empty() {
                        let count = piece.min(wire.len());
                        Event::Received(wire.drain(..count).collect())
                    } else if peer_closed {
                        Event::Closed
                    } else {
                        self.action = Some(Action::Receive);
                        break;
                    }
                }
                Some(Action::Create(name)) => {
                    self.files.insert(name.clone(), Vec::new());
                    self.writing = Some(name);
                    Event::Ready
                }
                Some(Action::Write(bytes)) => {
                    let name = self.writing.clone().unwrap();
                    self.files.get_mut(&name).unwrap().extend_from_slice(&bytes);
                    Event::Ready
                }
                Some(Action::Verify) => {
                    let name = self.writing.clone().unwrap();
                    Event::Hashed(hash_bytes(&self.files[&name]))
                }
                Some(Action::Lookup(name)) => match self.files.get(&name) {
                    Some(content) => {
                        self.reading = content.clone();
                        self.cursor = 0;
                        Event::Found { size: content.len() as u64, hash: hash_bytes(content) }
                    }
                    None => Event::Missing,
                },
                Some(Action::ReadFile(count)) => {
                    let end = (self.cursor + count).min(self.reading.len());
                    let chunk = self.reading[self.cursor..end].to_vec();
                    self.cursor = end;
                    Event::FileChunk(chunk)
                }
                Some(Action::Enumerate) => Event::Entries(self.files.keys().cloned().collect()),
                Some(Action::Show(names)) => {
                    self.shown = Some(names);
                    self.outcome = Some(Ok(()));
                    break;
                }
                Some(Action::Finish) => {
                    self.outcome = Some(Ok(()));
                    break;
                }
                Some(Action::Fail { error, discard }) => {
                    if let Some(name) = discard {
                        self.files.remove(&name);
                    }
                    self.outcome = Some(Err(error));
                    break;
                }
            };
            self.action = Some(self.session.step(event));
            let bytes = self.session.take_outbound();
            self.sent += bytes.len();
            out.extend_from_slice(&bytes);
        }
        let bytes = self.session.take_outbound();
        self.sent += bytes.len();
        out.extend_from_slice(&bytes);
        out
    }
}

/// Runs a client against a server until both have ended.
fn exchange(client: &mut Peer, server: &mut Peer, piece: usize) {
    let mut to_server: Vec<u8> = Vec::new();
    let mut to_client: Vec<u8> = Vec::new();
    for _ in 0..1_000_000 {
        if client.done() && server.done() {
            return;
        }
        let out = client.run(&mut to_client, server.done(), piece);
        to_server.extend_from_slice(&out);
        let out = server.run(&mut to_server, client.done(), piece);
        to_client.extend_from_slice(&out);
    }
    panic!("the exchange did not end");
}

fn pattern(len: usize) -> Vec<u8> {
    (0..len).map(|i| ((i * 7 + i / 251) % 256) as u8).collect()
}

fn upload(name: &str, content: &[u8], piece: usize) -> (Peer, Peer) {
    let mut client = Peer::uploader(name, content);
    let mut server = Peer::server(BTreeMap::new());
    exchange(&mut client, &mut server, piece);
    (client, server)
}

fn exact_transfer(len: usize) {
    let content = pattern(len);
    let (client, server) = upload("data.bin", &content, 8192);
    assert_eq!(client.outcome, Some(Ok(())));
    assert_eq!(server.outcome, Some(Ok(())));
    assert_eq!(server.files.len(), 1);
    assert!(server.files["data.bin"] == content);
    assert_eq!(server.session.phase(), Phase::Done);
    assert_eq!(client.session.phase(), Phase::Done);
}

#[test]
fn exact_transfer_of_no_bytes() {
    exact_transfer(0);
}

#[test]
fn exact_transfer_of_one_byte() {
    exact_transfer(1);
}

#[test]
fn exact_transfer_of_one_byte_less_than_a_chunk() {
    exact_transfer(4095);
}

#[test]
fn exact_transfer_of_one_chunk() {
    exact_transfer(4096);
}

#[test]
fn exact_transfer_of_one_byte_more_than_a_chunk() {
    exact_transfer(4097);
}

#[test]
fn exact_transfer_of_ten_million_bytes() {
    exact_transfer(10_000_000);
}

#[test]
fn exact_transfer_whatever_the_pieces_on_the_wire() {
    let content = pattern(10_000);
    for piece in [1usize, 3, 7, 100, 4095, 4096, 4097, 100_000] {
        let (client, server) = upload("data.bin", &content, piece);
        assert_eq!(client.outcome, Some(Ok(())));
        assert_eq!(server.outcome, Some(Ok(())));
        assert!(server.files["data.bin"] == content);
    }
}

#[test]
fn scenario_upload_of_a_small_file() {
    let digest = "9f86d081884c7d659a2feaa0c55ad015a3bf4f1b2b0b822cd15d6c15b0f00a08";
    assert_eq!(hash_bytes(b"test"), digest);
    let (client, server) = upload("a.txt", b"test", 4096);
    assert_eq!(client.outcome, Some(Ok(())));
    assert_eq!(server.outcome, Some(Ok(())));
    assert_eq!(server.files.get("a.txt"), Some(&b"test".to_vec()));
    assert_eq!(hash_bytes(&server.files["a.txt"]), digest);
}

#[test]
fn upload_writes_the_header_then_the_bare_body() {
    let digest = "9f86d081884c7d659a2feaa0c55ad015a3bf4f1b2b0b822cd15d6c15b0f00a08";
    let mut client = Peer::uploader("a.txt", b"test");
    let mut nothing = Vec::new();
    let wire = client.run(&mut nothing, false, 4096);
    let header = FileHeader {
        command: Command::Upload,
        name: String::from("a.txt"),
        size: 4,
        hash: String::from(digest),
    };
    let text = header.to_json();
    let mut expected = (text.len() as u32).to_be_bytes().to_vec();
    expected.extend_from_slice(text.as_bytes());
    expected.extend_from_slice(b"test");
    assert_eq!(wire, expected);
    assert_eq!(client.outcome, Some(Ok(())));
}

#[test]
fn hash_mismatch_discards_the_file() {
    let content = pattern(5000);
    let wrong = hash_bytes(b"something else");
    let session = Session::upload(Some("bad.bin"), content.len() as u64, &wrong).unwrap();
    let mut client = Peer::new(session);
    client.reading = content;
    let mut server = Peer::server(BTreeMap::new());
    exchange(&mut client, &mut server, 4096);
    assert_eq!(server.outcome, Some(Err(VeriflowError::Integrity)));
    assert!(server.files.is_empty());
    assert_eq!(server.session.phase(), Phase::Failed);
}

#[test]
fn hash_mismatch_is_reported_with_the_file_to_delete() {
    let mut server = Session::serve();
    let header = FileHeader {
        command: Command::Upload,
        name: String::from("a.txt"),
        size: 4,
        hash: String::from("0000"),
    };
    let text = header.to_json();
    let mut wire = (text.len() as u32).to_be_bytes().to_vec();
    wire.extend_from_slice(text.as_bytes());
    wire.extend_from_slice(b"test");
    assert_eq!(server.step(Event::Ready), Action::Receive);
    assert_eq!(server.step(Event::Received(wire)), Action::Create(String::from("a.txt")));
    assert_eq!(server.phase(), Phase::Storing);
    assert_eq!(server.step(Event::Ready), Action::Write(b"test".to_vec()));
    assert_eq!(server.step(Event::Ready), Action::Verify);
    assert_eq!(server.phase(), Phase::Verifying);
    assert_eq!(
        server.step(Event::Hashed(hash_bytes(b"test"))),
        Action::Fail { error: VeriflowError::Integrity, discard: Some(String::from("a.txt")) }
    );
    assert_eq!(server.phase(), Phase::Failed);
    assert_eq!(
        server.step(Event::Ready),
        Action::Fail { error: VeriflowError::Protocol, discard: None }
    );
}

#[test]
fn upload_cut_short_discards_the_part_that_came() {
    let mut server = Peer::server(BTreeMap::new());
    let header = FileHeader {
        command: Command::Upload,
        name: String::from("part.bin"),
        size: 10_000,
        hash: hash_bytes(&pattern(10_000)),
    };
    let text = header.to_json();
    let mut wire = (text.len() as u32).to_be_bytes().to_vec();
    wire.extend_from_slice(text.as_bytes());
    wire.extend_from_slice(&pattern(10_000)[..6000]);
    let out = server.run(&mut wire, true, 4096);
    assert!(out.is_empty());
    assert_eq!(server.outcome, Some(Err(VeriflowError::Protocol)));
    assert!(server.files.is_empty());
}

#[test]
fn isolation_of_interleaved_uploads() {
    let count = 8;
    let mut clients = Vec::new();
    let mut servers = Vec::new();
    let mut contents = Vec::new();
    for k in 0..count {
        let content: Vec<u8> = pattern(3000 + 2500 * k).iter().map(|b| b ^ (k as u8)).collect();
        clients.push(Peer::uploader(&format!("file{k}.bin"), &content));
        servers.push(Peer::server(BTreeMap::new()));
        contents.push(content);
    }
    let mut to_server: Vec<Vec<u8>> = vec![Vec::new(); count];
    let mut to_client: Vec<Vec<u8>> = vec![Vec::new(); count];
    for _ in 0..100_000 {
        if clients.iter().all(Peer::done) && servers.iter().all(Peer::done) {
            break;
        }
        for k in 0..count {
            let closed = servers[k].done();
            let out = clients[k].run(&mut to_client[k], closed, 512);
            to_server[k].extend_from_slice(&out);
        }
        for k in (0..count).rev() {
            let closed = clients[k].done();
            let count = to_server[k].len().min(700);
            let mut piece: Vec<u8> = to_server[k].drain(..count).collect();
            let out = servers[k].run(&mut piece, closed && to_server[k].is_empty(), 512);
            assert!(piece.is_empty());
            to_client[k].extend_from_slice(&out);
        }
    }
    for k in 0..count {
        assert_eq!(clients[k].outcome, Some(Ok(())));
        assert_eq!(servers[k].outcome, Some(Ok(())));
        assert_eq!(servers[k].files.len(), 1);
        assert!(servers[k].files[&format!("file{k}.bin")] == contents[k]);
    }
}

#[test]
fn scenario_download_of_an_absent_name() {
    let mut client = Peer::new(Session::download("missing.txt").unwrap());
    let mut server = Peer::server(BTreeMap::new());
    exchange(&mut client, &mut server, 4096);
    assert_eq!(server.outcome, Some(Err(VeriflowError::NotFound)));
    assert_eq!(server.sent, 0);
    assert_eq!(client.outcome, Some(Err(VeriflowError::Protocol)));
    assert!(client.files.is_empty());
}

#[test]
fn scenario_download_of_an_uploaded_file() {
    let content = pattern(9000);
    let (_, uploaded) = upload("kept.bin", &content, 4096);
    let mut server = Peer::server(uploaded.files);
    let mut client = Peer::new(Session::download("kept.bin").unwrap());

    let mut nothing = Vec::new();
    let mut request = client.run(&mut nothing, false, 4096);
    let mut answer = server.run(&mut request, false, 4096);
    let length = u32::from_be_bytes([answer[0], answer[1], answer[2], answer[3]]) as usize;
    let header = FileHeader::from_json(&answer[4..4 + length]).unwrap();
    assert_eq!(header.command, Command::Download);
    assert_eq!(header.name, "kept.bin");
    assert_eq!(header.size, 9000);
    assert_eq!(header.hash, hash_bytes(&content));
    assert_eq!(answer.len(), 4 + length + 9000);

    let out = client.run(&mut answer, true, 4096);
    assert!(out.is_empty());
    assert_eq!(server.outcome, Some(Ok(())));
    assert_eq!(client.outcome, Some(Ok(())));
    assert!(client.files["kept.bin"] == content);
    assert_eq!(hash_bytes(&client.files["kept.bin"]), header.hash);
}

#[test]
fn download_with_a_wrong_hash_discards_the_local_file() {
    let mut client = Session::download("a.txt").unwrap();
    assert_eq!(client.step(Event::Ready), Action::Receive);
    let header = FileHeader {
        command: Command::Download,
        name: String::from("a.txt"),
        size: 4,
        hash: hash_bytes(b"tesT"),
    };
    let text = header.to_json();
    let mut wire = (text.len() as u32).to_be_bytes().to_vec();
    wire.extend_from_slice(text.as_bytes());
    wire.extend_from_slice(b"test");
    assert_eq!(client.step(Event::Received(wire)), Action::Create(String::from("a.txt")));
    assert_eq!(client.step(Event::Ready), Action::Write(b"test".to_vec()));
    assert_eq!(client.step(Event::Ready), Action::Verify);
    assert_eq!(
        client.step(Event::Hashed(hash_bytes(b"test"))),
        Action::Fail { error: VeriflowError::Integrity, discard: Some(String::from("a.txt")) }
    );
}

#[test]
fn download_answered_with_another_command_is_a_protocol_error() {
    let mut client = Session::download("a.txt").unwrap();
    let header = FileHeader {
        command: Command::Upload,
        name: String::from("a.txt"),
        size: 4,
        hash: hash_bytes(b"test"),
    };
    let text = header.to_json();
    let mut wire = (text.len() as u32).to_be_bytes().to_vec();
    wire.extend_from_slice(text.as_bytes());
    assert_eq!(
        client.step(Event::Received(wire)),
        Action::Fail { error: VeriflowError::Protocol, discard: None }
    );
}

#[test]
fn list_returns_the_names() {
    let mut files = BTreeMap::new();
    files.insert(String::from("a.txt"), b"1".to_vec());
    files.insert(String::from("b with space.bin"), b"22".to_vec());
    files.insert(String::from("caf\u{e9}\nline"), Vec::new());
    let mut server = Peer::server(files);
    let mut client = Peer::new(Session::list());
    exchange(&mut client, &mut server, 5);
    assert_eq!(server.outcome, Some(Ok(())));
    assert_eq!(client.outcome, Some(Ok(())));
    assert_eq!(
        client.shown,
        Some(vec![
            String::from("a.txt"),
            String::from("b with space.bin"),
            String::from("caf\u{e9}\nline"),
        ])
    );
}

#[test]
fn list_of_an_empty_root() {
    let mut server = Peer::server(BTreeMap::new());
    let mut client = Peer::new(Session::list());
    exchange(&mut client, &mut server, 4096);
    assert_eq!(client.shown, Some(Vec::new()));
}

#[test]
fn unsafe_names_are_refused_before_the_disk_is_touched() {
    for name in ["../etc/passwd", "a/b", "a\\b", "..", "..hidden", "/abs"] {
        let header = FileHeader {
            command: Command::Upload,
            name: String::from(name),
            size: 1,
            hash: String::from("00"),
        };
        let text = header.to_json();
        let mut wire = (text.len() as u32).to_be_bytes().to_vec();
        wire.extend_from_slice(text.as_bytes());
        wire.push(7);
        let mut server = Session::serve();
        assert_eq!(
            server.step(Event::Received(wire)),
            Action::Fail { error: VeriflowError::InvalidPath, discard: None }
        );
        assert!(matches!(Session::download(name), Err(VeriflowError::InvalidPath)));
        assert!(matches!(Session::upload(Some(name), 1, "00"), Err(VeriflowError::InvalidPath)));
    }
    assert!(matches!(Session::upload(None, 1, "00"), Err(VeriflowError::InvalidPath)));
}

#[test]
fn malformed_header_ends_the_session() {
    let mut server = Session::serve();
    let mut wire = vec![0, 0, 0, 8];
    wire.extend_from_slice(b"not json");
    wire.extend_from_slice(b"trailing body");
    let action = server.step(Event::Received(wire));
    assert!(matches!(
        action,
        Action::Fail { error: VeriflowError::JSON(_), discard: None }
    ));
    assert_eq!(server.phase(), Phase::Failed);
    assert!(server.take_outbound().is_empty());
}

#[test]
fn closed_before_the_header_is_a_protocol_error() {
    let mut server = Session::serve();
    assert_eq!(server.step(Event::Received(vec![0, 0, 0, 9, b'{'])), Action::Receive);
    assert_eq!(
        server.step(Event::Closed),
        Action::Fail { error: VeriflowError::Protocol, discard: None }
    );
}

#[test]
fn event_out_of_turn_is_a_protocol_error() {
    let mut server = Session::serve();
    assert_eq!(
        server.step(Event::Missing),
        Action::Fail { error: VeriflowError::Protocol, discard: None }
    );
    let mut client = Session::upload(Some("a.txt"), 4, "00").unwrap();
    assert_eq!(
        client.step(Event::Hashed(String::from("00"))),
        Action::Fail { error: VeriflowError::Protocol, discard: None }
    );
}

#[test]
fn io_failure_while_storing_discards_the_file() {
    let mut server = Session::serve();
    let header = FileHeader {
        command: Command::Upload,
        name: String::from("a.txt"),
        size: 4,
        hash: hash_bytes(b"test"),
    };
    let text = header.to_json();
    let mut wire = (text.len() as u32).to_be_bytes().to_vec();
    wire.extend_from_slice(text.as_bytes());
    assert_eq!(server.step(Event::Received(wire)), Action::Create(String::from("a.txt")));
    assert_eq!(
        server.step(Event::IoFailed(String::from("disk full"))),
        Action::Fail {
            error: VeriflowError::Io(String::from("disk full")),
            discard: Some(String::from("a.txt")),
        }
    );
}

#[test]
fn file_that_ends_early_fails_the_upload() {
    let mut client = Session::upload(Some("a.txt"), 10, "00").unwrap();
    assert_eq!(client.step(Event::Ready), Action::ReadFile(10));
    assert_eq!(client.step(Event::FileChunk(b"12345".to_vec())), Action::ReadFile(5));
    let action = client.step(Event::FileChunk(Vec::new()));
    assert!(matches!(action, Action::Fail { error: VeriflowError::Io(_), discard: None }));
}

#[test]
fn file_that_grew_is_sent_up_to_the_declared_size() {
    let mut client = Session::upload(Some("a.txt"), 6, "00").unwrap();
    let header = client.take_outbound();
    assert_eq!(client.step(Event::Ready), Action::ReadFile(6));
    assert_eq!(client.step(Event::FileChunk(b"0123456789".to_vec())), Action::Finish);
    assert_eq!(client.take_outbound(), b"012345".to_vec());
    assert!(!header.is_empty());
}

#[test]
fn chunks_asked_of_the_file_are_bounded() {
    let mut client = Session::upload(Some("a.txt"), 10_000, "00").unwrap();
    assert_eq!(client.step(Event::Ready), Action::ReadFile(4096));
    assert_eq!(client.step(Event::FileChunk(vec![1; 4096])), Action::ReadFile(4096));
    assert_eq!(client.step(Event::FileChunk(vec![2; 4096])), Action::ReadFile(1808));
    assert_eq!(client.step(Event::FileChunk(vec![3; 1808])), Action::Finish);
    assert_eq!(client.step(Event::Ready), Action::Finish);
}
