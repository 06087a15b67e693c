use fileget::AcceptEvent;
use fileget::HandlerStep;
use fileget::Request;
use fileget::RequestError;
use fileget::ServerRoot;
use fileget::SupervisorAction;
use fileget::Verb;
use fileget::MAX_REQUEST_SIZE;
use fileget::decode_request;
use fileget::encode_failure;
use fileget::encode_request;
use fileget::escape_bytes;
use fileget::finish_exchange;
use fileget::plan_exchange;
use fileget::resolve;
use fileget::supervisor_step;

fn root() -> ServerRoot {
    ServerRoot::new(b"/srv/site".to_vec())
}

#[test]
fn parent_component_is_rejected() {
    let r = resolve(&root(), b"/a/../b.txt");
    assert!(matches!(r, Err(RequestError::IllegalPathComponent(ref c)) if c == b".."));
}

#[test]
fn lone_parent_component_is_rejected() {
    let r = resolve(&root(), b"/..");
    assert!(matches!(r, Err(RequestError::IllegalPathComponent(ref c)) if c == b".."));
}

#[test]
fn relative_path_is_rejected() {
    let r = resolve(&root(), b"README.md");
    assert!(matches!(r, Err(RequestError::PathNotAbsolute)));
}

#[test]
fn empty_path_is_rejected() {
    let r = resolve(&root(), b"");
    assert!(matches!(r, Err(RequestError::PathNotAbsolute)));
}

#[test]
fn invalid_text_is_rejected() {
    let r = resolve(&root(), &[47, 0xff]);
    assert!(matches!(r, Err(RequestError::MalformedUtf8)));
}

#[test]
fn resolved_path_appends_segments_onto_root() {
    let r = resolve(&root(), b"/a/b.txt").unwrap();
    assert_eq!(r.as_bytes().as_slice(), b"/srv/site/a/b.txt");
}

#[test]
fn resolved_path_starts_with_root() {
    let r = resolve(&root(), b"/docs/guide/index.html").unwrap();
    assert!(r.as_bytes().starts_with(b"/srv/site"));
}

#[test]
fn empty_and_dot_components_are_passed_over() {
    let r = resolve(&root(), b"//a/./b/").unwrap();
    assert_eq!(r.as_bytes().as_slice(), b"/srv/site/a/b");
}

#[test]
fn resolving_twice_yields_identical_paths() {
    let first = resolve(&root(), b"/a/b.txt").unwrap();
    let second = resolve(&root(), b"/a/b.txt").unwrap();
    assert_eq!(first.as_bytes(), second.as_bytes());
}

#[test]
fn request_round_trips() {
    let frame = encode_request(b"/a/b.txt");
    assert_eq!(frame.as_slice(), b"GET /a/b.txt\r\n");
    let req: Request = decode_request(frame.as_slice()).unwrap();
    assert!(matches!(req.verb, Verb::Get));
    assert_eq!(req.path.as_slice(), b"/a/b.txt");
}

#[test]
fn bytes_after_a_space_are_ignored() {
    let req = decode_request(b"GET /a/b.txt HTTP/0.9\r\n").unwrap();
    assert_eq!(req.path.as_slice(), b"/a/b.txt");
}

#[test]
fn shortest_frame_carries_an_empty_path() {
    let req = decode_request(b"GET\r\n").unwrap();
    assert!(matches!(req.verb, Verb::Get));
    assert_eq!(req.path.as_slice(), b"");
    let r = resolve(&root(), req.path.as_slice());
    assert!(matches!(r, Err(RequestError::PathNotAbsolute)));
}

#[test]
fn missing_verb_is_a_malformed_frame() {
    assert!(matches!(decode_request(b"PUT /a\r\n"), Err(RequestError::MalformedFrame)));
    assert!(matches!(decode_request(b"GETX\r\n"), Err(RequestError::MalformedFrame)));
    assert!(matches!(decode_request(b"GET /a"), Err(RequestError::MalformedFrame)));
    assert!(matches!(decode_request(b"GE\r\n"), Err(RequestError::MalformedFrame)));
}

#[test]
fn malformed_frame_yields_malformed_failure_response() {
    let step = plan_exchange(&root(), Some(b"GETX\r\n".to_vec()));
    match step {
        HandlerStep::Respond(resp) => {
            assert_eq!(
                resp.as_slice(),
                b"failed to process request: malformed request frame\n" as &[u8],
            );
        },
        _ => panic!("a malformed frame must be answered with a failure response"),
    }
}

#[test]
fn served_file_bytes_come_back_verbatim() {
    let step = plan_exchange(&root(), Some(b"GET /README.md\r\n".to_vec()));
    match step {
        HandlerStep::Fetch(path) => {
            assert_eq!(path.as_bytes().as_slice(), b"/srv/site/README.md");
            let resp = finish_exchange(Ok(b"hello\n".to_vec()));
            assert_eq!(resp.as_slice(), b"hello\n");
        },
        _ => panic!("a well-formed resolvable request must fetch its file"),
    }
}

#[test]
fn missing_file_yields_failure_response() {
    let step = plan_exchange(&root(), Some(b"GET /missing.txt\r\n".to_vec()));
    match step {
        HandlerStep::Fetch(path) => {
            assert_eq!(path.as_bytes().as_slice(), b"/srv/site/missing.txt");
            let resp = finish_exchange(Err(b"No such file or directory".to_vec()));
            assert!(resp.starts_with(b"failed to process request:"));
            assert_eq!(
                resp.as_slice(),
                b"failed to process request: failed reading file: No such file or directory\n"
                    as &[u8],
            );
        },
        _ => panic!("a resolvable request must fetch its file"),
    }
}

#[test]
fn failed_read_abandons_the_exchange() {
    let step = plan_exchange(&root(), None);
    assert!(matches!(step, HandlerStep::Abandon(RequestError::ReadFailed)));
}

#[test]
fn illegal_component_failure_names_the_component() {
    let step = plan_exchange(&root(), Some(b"GET /a/../b\r\n".to_vec()));
    match step {
        HandlerStep::Respond(resp) => {
            assert_eq!(
                resp.as_slice(),
                b"failed to process request: illegal component in path: ..\n" as &[u8],
            );
        },
        _ => panic!("a traversal attempt must be answered with a failure response"),
    }
}

#[test]
fn failure_responses_carry_each_reason() {
    assert_eq!(
        encode_failure(&RequestError::MalformedUtf8).as_slice(),
        b"failed to process request: path is malformed UTF-8\n" as &[u8],
    );
    assert_eq!(
        encode_failure(&RequestError::PathNotAbsolute).as_slice(),
        b"failed to process request: path must be absolute\n" as &[u8],
    );
    assert_eq!(
        encode_failure(&RequestError::ReadFailed).as_slice(),
        b"failed to process request: failed reading request\n" as &[u8],
    );
}

#[test]
fn two_interleaved_exchanges_stay_independent() {
    let root = root();
    let first = plan_exchange(&root, Some(b"GET /one.txt\r\n".to_vec()));
    let second = plan_exchange(&root, Some(b"GET /two.txt\r\n".to_vec()));
    let second_resp = match second {
        HandlerStep::Fetch(path) => {
            assert_eq!(path.as_bytes().as_slice(), b"/srv/site/two.txt");
            finish_exchange(Ok(b"second body".to_vec()))
        },
        _ => panic!("second request must resolve"),
    };
    let first_resp = match first {
        HandlerStep::Fetch(path) => {
            assert_eq!(path.as_bytes().as_slice(), b"/srv/site/one.txt");
            finish_exchange(Ok(b"first body".to_vec()))
        },
        _ => panic!("first request must resolve"),
    };
    assert_eq!(first_resp.as_slice(), b"first body");
    assert_eq!(second_resp.as_slice(), b"second body");
}

#[test]
fn request_bytes_are_escaped_for_the_log() {
    let escaped = escape_bytes(b"GET /a\r\n");
    assert_eq!(escaped.as_slice(), b"GET /a\\r\\n" as &[u8]);
    let escaped = escape_bytes(&[9, 92, 39, 34, 0, 0xff]);
    assert_eq!(escaped.as_slice(), b"\\t\\\\\\'\\\"\\x00\\xff" as &[u8]);
}

#[test]
fn supervisor_decision_table() {
    assert!(matches!(supervisor_step(&AcceptEvent::Opened), SupervisorAction::Dispatch));
    assert!(matches!(
        supervisor_step(&AcceptEvent::ClosedByPeer),
        SupervisorAction::FinishNormally
    ));
    assert!(matches!(supervisor_step(&AcceptEvent::Failed), SupervisorAction::FailConnection));
}

#[test]
fn request_size_cap_is_sixty_four_kibibytes() {
    assert_eq!(MAX_REQUEST_SIZE, 65536);
}
