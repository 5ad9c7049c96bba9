use std::sync::Arc;

use wascap::prelude::KeyPair;

use wascc_dispatch::address::actor_subject;
use wascc_dispatch::codec::claims_bytes;
use wascc_dispatch::dispatch::{normalize_response, WasccNativeDispatcher};
use wascc_dispatch::entity::WasccEntity;
use wascc_dispatch::envelope::{Invocation, InvocationResponse};
use wascc_dispatch::errors::{DispatchError, TransportError};
use wascc_dispatch::signer::{HostKeySigner, Signer, StaticSigner};
use wascc_dispatch::transport::{EchoTransport, StaticOutcome, StaticTransport};

fn static_dispatcher(
    outcome: StaticOutcome,
) -> WasccNativeDispatcher<StaticSigner, StaticTransport> {
    WasccNativeDispatcher::new(
        Arc::new(StaticSigner::new(vec![9, 9, 9])),
        Arc::new(StaticTransport::new(outcome)),
        "wascc:messaging",
        "default",
    )
}

#[test]
fn subject_has_fixed_prefix_and_id() {
    assert_eq!(actor_subject("MBOB"), "wasmbus.actor.MBOB");
}

#[test]
fn subject_is_stable_across_calls() {
    assert_eq!(actor_subject("MALICE"), actor_subject("MALICE"));
}

#[test]
fn distinct_ids_get_distinct_subjects() {
    assert_ne!(actor_subject("MALICE"), actor_subject("MBOB"));
    assert_ne!(actor_subject("MA"), actor_subject("MAB"));
}

#[test]
fn envelope_carries_fields_unchanged() {
    let signer = StaticSigner::new(b"FIXEDSIG".to_vec());
    let origin = WasccEntity::capability("wascc:keyvalue", "default");
    let target = WasccEntity::actor("MACTOR");
    let inv = Invocation::new(&signer, origin, target, "DelKey", b"hello".to_vec());
    assert_eq!(
        inv.origin,
        WasccEntity::Capability {
            capid: "wascc:keyvalue".to_string(),
            binding: "default".to_string(),
        }
    );
    assert_eq!(
        inv.target,
        WasccEntity::Actor { actor: "MACTOR".to_string() }
    );
    assert_eq!(inv.operation, "DelKey");
    assert_eq!(inv.msg, b"hello");
    assert_eq!(inv.id.len(), 36);
}

#[test]
fn envelope_payload_is_free_of_signing_material() {
    // The proof value lives only in its own field; the payload is the
    // caller's bytes, exactly.
    let signer = StaticSigner::new(b"VERYSECRETMATERIAL".to_vec());
    let origin = WasccEntity::capability("wascc:messaging", "default");
    let target = WasccEntity::actor("MACTOR");
    let inv = Invocation::new(&signer, origin, target, "Publish", b"payload".to_vec());
    assert_eq!(inv.msg, b"payload");
    assert_eq!(inv.authenticity_proof, b"VERYSECRETMATERIAL");
    let window = b"VERYSECRETMATERIAL";
    assert!(!inv.msg.windows(window.len()).any(|w| w == window));
}

#[test]
fn envelope_ids_are_fresh_per_invocation() {
    let signer = StaticSigner::new(vec![1]);
    let a = Invocation::new(
        &signer,
        WasccEntity::capability("wascc:messaging", "default"),
        WasccEntity::actor("MACTOR"),
        "Op",
        vec![],
    );
    let b = Invocation::new(
        &signer,
        WasccEntity::capability("wascc:messaging", "default"),
        WasccEntity::actor("MACTOR"),
        "Op",
        vec![],
    );
    assert_ne!(a.id, b.id);
}

#[test]
fn claims_cover_all_fields_length_prefixed() {
    let origin = WasccEntity::capability("a", "b");
    let target = WasccEntity::actor("c");
    let bytes = claims_bytes(&origin, &target, "d", &[1]);
    let mut expected: Vec<u8> = Vec::new();
    // origin: tag 0, then "a" and "b", each with an 8-byte LE length
    expected.push(0);
    expected.extend_from_slice(&[1, 0, 0, 0, 0, 0, 0, 0]);
    expected.push(b'a');
    expected.extend_from_slice(&[1, 0, 0, 0, 0, 0, 0, 0]);
    expected.push(b'b');
    // target: tag 1, then "c"
    expected.push(1);
    expected.extend_from_slice(&[1, 0, 0, 0, 0, 0, 0, 0]);
    expected.push(b'c');
    // operation "d"
    expected.extend_from_slice(&[1, 0, 0, 0, 0, 0, 0, 0]);
    expected.push(b'd');
    // payload [1]
    expected.extend_from_slice(&[1, 0, 0, 0, 0, 0, 0, 0]);
    expected.push(1);
    assert_eq!(bytes, expected);
}

#[test]
fn length_prefix_is_little_endian() {
    let origin = WasccEntity::capability("a", "b");
    let target = WasccEntity::actor("c");
    let payload = vec![5u8; 300];
    let bytes = claims_bytes(&origin, &target, "d", &payload);
    // The last field is the payload: 8 LE length bytes (300 = 44 +
    // 1 * 256), then the payload itself.
    let tail = &bytes[bytes.len() - 308..];
    assert_eq!(&tail[..8], &[44, 1, 0, 0, 0, 0, 0, 0]);
    assert_eq!(&tail[8..], payload.as_slice());
}

#[test]
fn clean_reply_yields_its_bytes() {
    let d = static_dispatcher(StaticOutcome::Deliver {
        msg: b"reply".to_vec(),
        error: None,
    });
    let r = d.dispatch("MACTOR", "HandleMessage", b"hi");
    assert_eq!(r, Ok(b"reply".to_vec()));
}

#[test]
fn actor_reported_failure_becomes_application_error() {
    let d = static_dispatcher(StaticOutcome::Deliver {
        msg: Vec::new(),
        error: Some("boom".to_string()),
    });
    let r = d.dispatch("MACTOR", "HandleMessage", b"hi");
    match r {
        Err(DispatchError::Application(m)) => {
            assert!(m.contains("boom"));
            assert_eq!(m, "Invocation failure: boom");
        }
        other => panic!("expected an application error, got {:?}", other),
    }
}

#[test]
fn transport_fault_becomes_transport_error() {
    let d = static_dispatcher(StaticOutcome::Fail {
        reason: "timeout waiting for reply".to_string(),
    });
    let r = d.dispatch("MACTOR", "HandleMessage", b"hi");
    match r {
        Err(DispatchError::Transport(e)) => {
            assert_eq!(e.message().as_str(), "timeout waiting for reply");
        }
        other => panic!("expected a transport error, got {:?}", other),
    }
}

#[test]
fn normalize_keeps_the_two_error_domains_apart() {
    assert_eq!(
        normalize_response(Ok(InvocationResponse { msg: b"ok".to_vec(), error: None })),
        Ok(b"ok".to_vec())
    );
    assert_eq!(
        normalize_response(Ok(InvocationResponse {
            msg: Vec::new(),
            error: Some("rejected".to_string()),
        })),
        Err(DispatchError::Application("Invocation failure: rejected".to_string()))
    );
    assert_eq!(
        normalize_response(Err(TransportError::new("unreachable".to_string()))),
        Err(DispatchError::Transport(TransportError::new("unreachable".to_string())))
    );
}

#[test]
fn error_reply_with_empty_msg_is_still_an_error() {
    // `error` presence is authoritative even when msg is empty.
    let d = static_dispatcher(StaticOutcome::Deliver {
        msg: Vec::new(),
        error: Some(String::new()),
    });
    let r = d.dispatch("MACTOR", "Op", &[]);
    assert_eq!(
        r,
        Err(DispatchError::Application("Invocation failure: ".to_string()))
    );
}

#[test]
fn echo_hands_each_call_its_own_operation() {
    // The envelope a call puts on the wire carries that call's own
    // operation: an echoing actor sends it straight back, for either
    // of two interleaved calls from the same dispatcher.
    let d = WasccNativeDispatcher::new(
        Arc::new(StaticSigner::new(vec![1])),
        Arc::new(EchoTransport::new()),
        "wascc:messaging",
        "default",
    );
    let ra = d.dispatch("MALICE", "OpAlpha", b"aaa");
    let rb = d.dispatch("MBOB", "OpBeta", b"bbb");
    assert_eq!(ra, Ok(b"OpAlpha".to_vec()));
    assert_eq!(rb, Ok(b"OpBeta".to_vec()));
}

#[test]
fn host_key_signer_accepts_a_seeded_pair() {
    let kp = KeyPair::new_server();
    let signer = HostKeySigner::new(Arc::new(kp)).expect("seeded pair must sign");
    let sig = signer.sign(b"data");
    assert_eq!(sig.len(), 64);
}

#[test]
fn host_key_signatures_are_deterministic() {
    let signer =
        HostKeySigner::new(Arc::new(KeyPair::new_server())).expect("seeded pair must sign");
    assert_eq!(signer.sign(b"data"), signer.sign(b"data"));
}

#[test]
fn host_key_signer_rejects_a_public_only_pair() {
    let seeded = KeyPair::new_server();
    let public_only = KeyPair::from_public_key(&seeded.public_key()).expect("valid public key");
    assert!(HostKeySigner::new(Arc::new(public_only)).is_err());
}

#[test]
fn dispatch_works_with_a_real_host_key() {
    let signer =
        HostKeySigner::new(Arc::new(KeyPair::new_server())).expect("seeded pair must sign");
    let d = WasccNativeDispatcher::new(
        Arc::new(signer),
        Arc::new(EchoTransport::new()),
        "wascc:messaging",
        "default",
    );
    let r = d.dispatch("MACTOR", "HandleRequest", b"body");
    assert_eq!(r, Ok(b"HandleRequest".to_vec()));
}
