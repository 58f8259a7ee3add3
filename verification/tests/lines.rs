use asimov::framing::{jsonl_lines_from_chunks, LineFramer};
use asimov::line::{JsonlLine, JsonlLineError};
use asimov::wire::wire_bytes;
use bytes::Bytes;
use std::collections::hash_map::DefaultHasher;
use std::convert::Infallible;
use std::hash::{Hash, Hasher};
use std::sync::{
    Arc,
    atomic::{AtomicBool, Ordering},
};

#[test]
fn constructors_check_framing_in_both_storage_modes() {
    for (bytes, offset) in [
        (b"\nx".as_slice(), 0),
        (b"a\nb", 1),
        (b"\n\n", 0),
        (b"a\r\nb", 2),
        (b"a\n\r\n", 1),
    ] {
        let expected = JsonlLineError::EmbeddedLf { offset };
        assert_eq!(JsonlLine::owned(bytes.to_vec()).unwrap_err(), expected);
        assert_eq!(
            JsonlLine::shared(Bytes::copy_from_slice(bytes)).unwrap_err(),
            expected
        );
        assert_eq!(JsonlLine::copy_from_slice(bytes).unwrap_err(), expected);
    }
    assert!(JsonlLine::try_from(String::from("first\nsecond")).is_err());
}

#[test]
fn valid_lines_preserve_bytes_content_and_terminators() {
    for (bytes, content, terminated) in [
        (b"".as_slice(), b"".as_slice(), false),
        (b"\n", b"", true),
        (b"\r\n", b"", true),
        (b"{}", b"{}", false),
        (b"{}\n", b"{}", true),
        (b"{}\r\n", b"{}", true),
        (b"a\rb\r", b"a\rb\r", false),
        (b" \t{}\t \r\n", b" \t{}\t ", true),
        (b"\xff\n", b"\xff", true),
    ] {
        let owned = JsonlLine::owned(bytes.to_vec()).unwrap();
        let shared = JsonlLine::shared(Bytes::copy_from_slice(bytes)).unwrap();
        assert_eq!(owned, shared);
        for line in [owned, shared] {
            assert_eq!(line.as_bytes(), bytes);
            assert_eq!(line.content(), content);
            assert_eq!(line.is_terminated(), terminated);
            assert_eq!(line.len(), bytes.len());
            assert_eq!(line.is_empty(), bytes.is_empty());
        }
    }
}

#[test]
fn shared_ranges_are_checked_and_errors_are_relative_to_the_line() {
    assert_eq!(
        core::mem::size_of::<asimov::line::SharedJsonlLine>(),
        core::mem::size_of::<Bytes>()
    );
    let backing = Bytes::from_static(b"prefix\n{}\r\nsuffix\n");
    let line = JsonlLine::shared_slice(backing.clone(), 7..11).unwrap();
    let JsonlLine::Shared(payload) = &line else {
        unreachable!()
    };
    assert_eq!(payload.as_bytes().len(), 4, "Bytes itself is the exact line view");
    assert_eq!(payload.as_bytes().as_ptr(), backing[7..11].as_ptr());
    assert_eq!(line.content(), b"{}");
    assert_eq!(line.clone().into_bytes().as_ref(), b"{}\r\n");
    assert_eq!(
        JsonlLine::shared_slice(backing.clone(), 7..12).unwrap_err(),
        JsonlLineError::EmbeddedLf { offset: 3 }
    );
    for range in [9..8, 0..backing.len() + 1, usize::MAX..usize::MAX] {
        assert_eq!(
            JsonlLine::shared_slice(backing.clone(), range.clone()).unwrap_err(),
            JsonlLineError::InvalidRange {
                start: range.start,
                end: range.end,
                len: backing.len()
            }
        );
    }
}

#[test]
fn ownership_conversions_and_clones_have_documented_copy_behavior() {
    let mut data = Vec::with_capacity(1024);
    data.extend_from_slice(b"{}\n");
    let pointer = data.as_ptr();
    let owned = JsonlLine::owned(data).unwrap();
    let copied = owned.clone();
    assert_ne!(copied.as_bytes().as_ptr(), pointer);
    let shared = owned.into_shared();
    assert!(matches!(shared, JsonlLine::Shared(_)));
    assert_eq!(shared.as_bytes().as_ptr(), pointer);
    let clone = shared.clone();
    assert_eq!(clone.as_bytes().as_ptr(), pointer);
    assert_eq!(shared, copied);
    let hash = |line: &JsonlLine| {
        let mut h = DefaultHasher::new();
        line.hash(&mut h);
        h.finish()
    };
    assert_eq!(hash(&shared), hash(&copied));
    assert_eq!(shared.into_bytes().as_ptr(), pointer);
    assert_eq!(clone.into_vec(), b"{}\n");
    assert_ne!(JsonlLine::owned(b"{}".to_vec()).unwrap(), copied);
}

struct Owner {
    bytes: Vec<u8>,
    dropped: Arc<AtomicBool>,
}

impl AsRef<[u8]> for Owner {
    fn as_ref(&self) -> &[u8] {
        &self.bytes
    }
}

impl Drop for Owner {
    fn drop(&mut self) {
        self.dropped.store(true, Ordering::SeqCst);
    }
}

#[test]
fn compact_line_releases_a_large_backing_owner() {
    let dropped = Arc::new(AtomicBool::new(false));
    let backing = Bytes::from_owner(Owner {
        bytes: vec![b'x'; 256 * 1024],
        dropped: dropped.clone(),
    });
    let line = JsonlLine::shared_slice(backing, 123..127).unwrap();
    assert!(!dropped.load(Ordering::SeqCst));
    let line = line.into_compact();
    assert!(dropped.load(Ordering::SeqCst));
    let JsonlLine::Owned(line) = line else {
        panic!("compact lines use owned storage")
    };
    let bytes = line.into_vec();
    assert_eq!(bytes, b"xxxx");
    assert_eq!(bytes.capacity(), bytes.len());
}

#[test]
fn arbitrary_chunk_boundaries_preserve_all_bytes() {
    let input = b"\n{\"name\":\"caf\xc3\xa9\"}\r\n\xff\nlast";
    for width in 1..=input.len() {
        let chunks: Vec<_> = input
            .chunks(width)
            .map(|chunk| Ok::<_, Infallible>(Bytes::copy_from_slice(chunk)))
            .collect();
        let lines = jsonl_lines_from_chunks(chunks);
        let expected = [
            b"\n".as_slice(),
            b"{\"name\":\"caf\xc3\xa9\"}\r\n",
            b"\xff\n",
            b"last",
        ];
        assert_eq!(lines.len(), expected.len());
        for (line, expected) in lines.iter().zip(expected) {
            assert_eq!(line.as_ref().unwrap().as_bytes(), expected);
        }
    }
}

#[test]
fn chunk_error_discards_partial_line_and_terminates() {
    let lines = jsonl_lines_from_chunks(vec![
        Ok(Bytes::from_static(b"{}\npartial")),
        Err("body failed"),
        Ok(Bytes::from_static(b"unreachable\n")),
    ]);
    assert_eq!(lines.len(), 2);
    assert_eq!(lines[0].as_ref().unwrap().as_bytes(), b"{}\n");
    assert_eq!(lines[1].as_ref().unwrap_err(), &"body failed");
}

#[test]
fn complete_chunk_lines_share_the_chunk_storage() {
    let chunk = Bytes::from_static(b"a\nb\n");
    let pointer = chunk.as_ptr();
    let mut framer = LineFramer::new();
    let lines = framer.push_chunk(&chunk);
    assert_eq!(lines.len(), 2);
    assert_eq!(lines[0].as_bytes().as_ptr(), pointer);
    assert!(matches!(lines[1], JsonlLine::Shared(_)));
    assert_eq!(framer.pending_len(), 0);
    assert!(framer.finish().is_none());
}

#[test]
fn framer_carries_partial_lines_across_chunks() {
    let mut framer = LineFramer::new();
    assert!(framer.push_chunk(&Bytes::from_static(b"{\"a\"")).is_empty());
    assert_eq!(framer.pending_len(), 4);
    let lines = framer.push_chunk(&Bytes::from_static(b":1}\r\n[]"));
    assert_eq!(lines.len(), 1);
    assert_eq!(lines[0].as_bytes(), b"{\"a\":1}\r\n");
    let last = framer.finish().unwrap();
    assert_eq!(last.as_bytes(), b"[]");
    assert!(!last.is_terminated());
}

#[test]
fn wire_bytes_terminate_every_line_once() {
    let lines = vec![
        JsonlLine::copy_from_slice(b"{}\n").unwrap(),
        JsonlLine::copy_from_slice(b"[]\r\n").unwrap(),
        JsonlLine::copy_from_slice(b"").unwrap(),
        JsonlLine::copy_from_slice(b"last").unwrap(),
    ];
    assert_eq!(wire_bytes(&lines), b"{}\n[]\r\n\nlast\n");
    let reframed = jsonl_lines_from_chunks(vec![Ok::<_, Infallible>(Bytes::from(wire_bytes(&lines)))]);
    assert_eq!(reframed.len(), 4);
    assert_eq!(reframed[3].as_ref().unwrap().as_bytes(), b"last\n");
}

#[test]
fn line_errors_describe_themselves() {
    assert_eq!(
        JsonlLineError::EmbeddedLf { offset: 3 }.message(),
        "JSONL line contains an embedded LF at byte 3"
    );
    assert_eq!(
        JsonlLineError::InvalidRange { start: 9, end: 8, len: 18 }.message(),
        "JSONL line range 9..8 is outside a 18-byte buffer"
    );
}
