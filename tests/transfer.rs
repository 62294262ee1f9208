use classroom::message::{FileChunk, FileOffer, FileTransferComplete};
use classroom::transfer::{
    sent_notice, upload_notice, CompleteOutcome, OutgoingTransfer, TransferTable, CHUNK_SIZE,
};

fn file_of(n: usize) -> Vec<u8> {
    (0..n).map(|i| (i * 31 % 251) as u8).collect()
}

/// Sends `data` in `CHUNK_SIZE` reads and returns the receiver's view of it.
fn send_and_receive(data: &[u8]) -> (usize, u64, Vec<u8>, CompleteOutcome) {
    let mut out = OutgoingTransfer::new("data.bin".to_string(), data.len() as u64, false);
    let mut table = TransferTable::new(false);
    let name = table.offer(&out.offer());
    assert_eq!(name, "data.bin");
    let mut written = Vec::new();
    let mut chunks = 0;
    let mut sum = 0usize;
    for piece in data.chunks(CHUNK_SIZE) {
        let chunk = out.next_chunk(piece.to_vec(), true);
        assert_eq!(chunk.offset as usize, sum);
        sum += chunk.bytes.len();
        assert_eq!(chunk.final_chunk, sum == data.len());
        chunks += 1;
        written.extend(table.chunk(chunk).unwrap());
    }
    assert_eq!(sum, data.len());
    let received = table.get(out.transfer_id).unwrap().received;
    let outcome = table.complete(&out.complete(sent_notice("data.bin")));
    (chunks, received, written, outcome)
}

#[test]
fn file_sizes_reassemble_exactly() {
    for (n, expected_chunks) in [(0usize, 0usize), (1, 1), (65536, 1), (65537, 2), (10_000_000, 153)] {
        let data = file_of(n);
        let (chunks, received, written, outcome) = send_and_receive(&data);
        assert_eq!(chunks, expected_chunks);
        assert_eq!(received, n as u64);
        assert_eq!(written, data);
        match outcome {
            CompleteOutcome::Finished { size_mismatch, received, expected, .. } => {
                assert!(!size_mismatch);
                assert_eq!(received, expected);
            }
            other => panic!("unexpected {:?}", other),
        }
    }
}

#[test]
fn chunk_size_is_64_kib() {
    assert_eq!(CHUNK_SIZE, 65536);
}

#[test]
fn unknown_chunk_is_dropped() {
    let mut table = TransferTable::new(false);
    assert_eq!(table.chunk(FileChunk { transfer_id: 9, offset: 0, bytes: vec![1], final_chunk: false }), None);
    assert_eq!(table.len(), 0);
    assert_eq!(
        table.complete(&FileTransferComplete { transfer_id: 9, success: true, message: None }),
        CompleteOutcome::Unknown
    );
}

#[test]
fn short_transfer_reports_mismatch_and_auto_open() {
    let mut table = TransferTable::new(true);
    let offer = FileOffer { transfer_id: 1, file_name: "a|b.txt".to_string(), total_size: 100, auto_open: false };
    assert_eq!(table.offer(&offer), "a_b.txt");
    let bytes = table.chunk(FileChunk { transfer_id: 1, offset: 0, bytes: vec![5; 80], final_chunk: false }).unwrap();
    assert_eq!(bytes, vec![5; 80]);
    assert_eq!(
        table.complete(&FileTransferComplete { transfer_id: 1, success: true, message: None }),
        CompleteOutcome::Finished {
            transfer_id: 1,
            file_name: "a_b.txt".to_string(),
            expected: 100,
            received: 80,
            size_mismatch: true,
            auto_open: true,
        }
    );
}

#[test]
fn new_offer_replaces_session_with_same_id() {
    let mut table = TransferTable::new(false);
    table.offer(&FileOffer { transfer_id: 2, file_name: "one".to_string(), total_size: 1, auto_open: false });
    table.chunk(FileChunk { transfer_id: 2, offset: 0, bytes: vec![1], final_chunk: true });
    table.offer(&FileOffer { transfer_id: 2, file_name: "two".to_string(), total_size: 5, auto_open: true });
    assert_eq!(table.len(), 1);
    let s = table.get(2).unwrap();
    assert_eq!(s.file_name, "two");
    assert_eq!(s.received, 0);
    assert!(s.auto_open);
}

#[test]
fn notices_and_fresh_ids() {
    assert_eq!(sent_notice("a.txt"), "文件 a.txt 已发送");
    assert_eq!(upload_notice("a.txt"), "a.txt 上传完成");
    let a = OutgoingTransfer::new("x".to_string(), 3, true);
    let b = OutgoingTransfer::new("x".to_string(), 3, true);
    assert_ne!(a.transfer_id, b.transfer_id);
    assert_eq!((a.transfer_id >> 76) & 0xf, 4);
    assert_eq!((a.transfer_id >> 62) & 0x3, 2);
    let offer = a.offer();
    assert_eq!(offer.total_size, 3);
    assert!(offer.auto_open);
    let done = a.complete("done".to_string());
    assert!(done.success);
    assert_eq!(done.message, Some("done".to_string()));
}

#[test]
fn student_chunks_never_mark_final() {
    let mut out = OutgoingTransfer::new("f".to_string(), 3, false);
    let c = out.next_chunk(vec![1, 2, 3], false);
    assert!(!c.final_chunk);
    assert_eq!(out.offset, 3);
}
