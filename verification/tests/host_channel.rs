use byte_core::host::{FileProcesser, FileProcesserMessage};

#[test]
fn consume_messages_drains_in_arrival_order() {
    let processer: FileProcesser<FileProcesserMessage> = FileProcesser::new();
    assert!(processer.consume_messages().is_empty());

    let tx = processer.sender();
    tx.send(FileProcesserMessage::BinaryFile((
        String::from("game.bin"),
        vec![0xa9, 0x01],
    )))
    .unwrap();
    tx.send(FileProcesserMessage::SourceFile((
        String::from("game.s"),
        vec![b'l', b'd', b'a'],
    )))
    .unwrap();

    let got = processer.consume_messages();
    assert_eq!(got.len(), 2);
    match &got[0] {
        FileProcesserMessage::BinaryFile((name, data)) => {
            assert_eq!(name, "game.bin");
            assert_eq!(data, &vec![0xa9, 0x01]);
        }
        other => panic!("wanted the binary first, got {:?}", other),
    }
    match &got[1] {
        FileProcesserMessage::SourceFile((name, _)) => assert_eq!(name, "game.s"),
        other => panic!("wanted the source second, got {:?}", other),
    }
    assert!(processer.consume_messages().is_empty());
}
