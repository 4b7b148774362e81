use kube_compat::error::KubeError;
use kube_compat::future::{
    downgrade, upgrade, Async, IntoKubeError, KubeFuture, KubeStream, PollFuture, Step,
    SuspendFuture,
};
use std::collections::HashMap;

/// A structured error payload as an API server would send it.
struct ErrPayload {
    code: u64,
    message: String,
}

impl<'de> serde::Deserialize<'de> for ErrPayload {
    fn deserialize<D: serde::Deserializer<'de>>(d: D) -> Result<Self, D::Error> {
        let m = HashMap::<String, serde_json::Value>::deserialize(d)?;
        Ok(ErrPayload {
            code: m.get("code").and_then(|v| v.as_u64()).unwrap_or(0),
            message: m
                .get("message")
                .and_then(|v| v.as_str())
                .map(|s| s.to_string())
                .unwrap_or_default(),
        })
    }
}

impl IntoKubeError for ErrPayload {
    fn into_kube_error(self) -> KubeError {
        KubeError::Io(format!("{} ({})", self.message, self.code))
    }
}

#[test]
fn parse_json_decodes_object_field() {
    let mut f: KubeFuture<HashMap<String, u64>> = KubeFuture::parse_json(b"{\"a\":1}");
    match f.poll() {
        Ok(Async::Ready(m)) => assert_eq!(m.get("a"), Some(&1)),
        _ => panic!("expected an immediately ready decoded value"),
    }
}

#[test]
fn parse_json_matches_direct_decode() {
    let bytes = b"[1,2,3]";
    let direct: Vec<u64> = serde_json::from_slice(bytes).unwrap();
    let mut f: KubeFuture<Vec<u64>> = KubeFuture::parse_json(bytes);
    match f.poll() {
        Ok(Async::Ready(v)) => assert_eq!(v, direct),
        _ => panic!("expected the same value as the direct decode"),
    }
}

#[test]
fn codec_result_lifts_value_and_converts_failure() {
    let mut ok: KubeFuture<u64> = KubeFuture::from_codec_result(Ok(3));
    assert!(matches!(ok.poll(), Ok(Async::Ready(3))));
    let codec_err = serde_json::from_slice::<u64>(b"x").unwrap_err();
    let mut bad: KubeFuture<u64> = KubeFuture::from_codec_result(Err(codec_err));
    match bad.poll() {
        Err(e) => assert!(matches!(e, KubeError::Json(_))),
        _ => panic!("a codec failure must resolve to the codec error kind"),
    }
}

#[test]
fn parse_json_malformed_is_decode_error() {
    let mut f: KubeFuture<HashMap<String, u64>> = KubeFuture::parse_json(b"not json");
    match f.poll() {
        Err(e) => {
            assert!(matches!(e, KubeError::Json(_)));
            assert!(e.message().contains("coding error"));
        }
        _ => panic!("malformed bytes must resolve to a failure"),
    }
}

#[test]
fn parse_json_as_err_converts_decoded_payload() {
    let bytes = b"{\"code\":404,\"message\":\"not found\"}";
    let mut f: KubeFuture<u64> = KubeFuture::<ErrPayload>::parse_json_as_err(bytes);
    match f.poll() {
        Err(KubeError::Io(m)) => assert_eq!(m, "not found (404)"),
        _ => panic!("expected the converted payload as the failure"),
    }
}

#[test]
fn parse_json_as_err_keeps_decode_failure() {
    let mut f: KubeFuture<u64> = KubeFuture::<ErrPayload>::parse_json_as_err(b"zzz");
    match f.poll() {
        Err(e) => assert!(matches!(e, KubeError::Json(_))),
        _ => panic!("a malformed payload must still resolve to a failure"),
    }
}

#[test]
fn bridge_round_trip_preserves_value_and_timing() {
    let s = SuspendFuture::<u64, String>::new(2, Ok(5));
    let p = downgrade(s);
    let mut s2 = upgrade(p);
    assert!(matches!(s2.resume(), Step::Suspended));
    assert!(matches!(s2.resume(), Step::Suspended));
    match s2.resume() {
        Step::Complete(Ok(v)) => assert_eq!(v, 5),
        _ => panic!("the round trip must resolve to the value that went in"),
    }
}

#[test]
fn bridge_round_trip_preserves_error_unwrapped() {
    let p = PollFuture::<u64, String>::new(1, Err("boom".to_string()));
    let s = upgrade(p);
    let mut p2 = downgrade(s);
    assert!(matches!(p2.poll(), Ok(Async::NotReady)));
    match p2.poll() {
        Err(e) => assert_eq!(e, "boom"),
        _ => panic!("the round trip must fail with the very same error"),
    }
}

#[test]
fn downgrade_translates_suspension_points() {
    let s = SuspendFuture::<u64, String>::new(1, Ok(9));
    let mut p = downgrade(s);
    assert!(matches!(p.poll(), Ok(Async::NotReady)));
    match p.poll() {
        Ok(Async::Ready(v)) => assert_eq!(v, 9),
        _ => panic!("expected the suspension computation's value"),
    }
}

#[test]
fn known_result_resolves_at_first_poll() {
    let mut f = KubeFuture::from_result(Ok(7u64));
    match f.poll() {
        Ok(Async::Ready(v)) => assert_eq!(v, 7),
        _ => panic!("an already-known value must be ready at the first poll"),
    }
}

#[test]
fn known_result_through_from_impl() {
    let mut f: KubeFuture<u64> = KubeFuture::from(Err(KubeError::Io("gone".to_string())));
    match f.poll() {
        Err(KubeError::Io(m)) => assert_eq!(m, "gone"),
        _ => panic!("an already-known failure must be handed out unchanged"),
    }
}

#[test]
fn wrapper_forwards_polling_unchanged() {
    let inner = PollFuture::new(1, Err(KubeError::Io("slow disk".to_string())));
    let mut f: KubeFuture<u64> = KubeFuture::from_poll(inner);
    assert!(matches!(f.poll(), Ok(Async::NotReady)));
    match f.poll() {
        Err(KubeError::Io(m)) => assert_eq!(m, "slow disk"),
        _ => panic!("the wrapper must hand out the inner computation's failure"),
    }
}

#[test]
fn error_messages_embed_the_cause() {
    let io = KubeError::Io("disk gone".to_string());
    assert_eq!(io.message(), "I/O error: disk gone");
    let json = KubeError::Json("bad token".to_string());
    assert_eq!(json.message(), "JSON coding error: bad token");
}

#[test]
fn from_json_error_keeps_codec_message() {
    let raw = serde_json::from_slice::<u64>(b"x").unwrap_err().to_string();
    let e = KubeError::from_json_error(serde_json::from_slice::<u64>(b"x").unwrap_err());
    assert!(matches!(e, KubeError::Json(_)));
    assert!(e.message().starts_with("JSON coding error: "));
    assert!(e.message().contains(&raw));
}

#[test]
fn from_io_error_keeps_os_message() {
    let os = std::io::Error::new(std::io::ErrorKind::Other, "connection reset");
    let e = KubeError::from_io_error(os);
    assert!(matches!(e, KubeError::Io(_)));
    assert_eq!(e.message(), "I/O error: connection reset");
}

#[test]
fn stream_yields_items_then_clean_end() {
    let mut s = KubeStream::new(vec![1u64, 2], None);
    assert!(matches!(s.poll_next(), Ok(Async::Ready(Some(1)))));
    assert!(matches!(s.poll_next(), Ok(Async::Ready(Some(2)))));
    assert!(matches!(s.poll_next(), Ok(Async::Ready(None))));
}

#[test]
fn stream_fails_after_its_items() {
    let mut s = KubeStream::new(vec![1u64], Some(KubeError::Io("gone".to_string())));
    assert!(matches!(s.poll_next(), Ok(Async::Ready(Some(1)))));
    match s.poll_next() {
        Err(KubeError::Io(m)) => assert_eq!(m, "gone"),
        _ => panic!("the sequence must end with its failure"),
    }
}
