use synthtext::framing::ChunkBuffer;

fn chunks(pieces: &[&[u8]]) -> (Vec<Vec<u8>>, Option<Vec<u8>>) {
    let mut buffer = ChunkBuffer::new();
    let mut complete = Vec::new();
    for piece in pieces {
        complete.extend(buffer.push(piece));
    }
    (complete, buffer.finish())
}

#[test]
fn a_piece_with_one_chunk_gives_that_chunk() {
    assert_eq!(chunks(&[b"{\"text\":\"a\"}\n"]), (vec![b"{\"text\":\"a\"}".to_vec()], None));
}

#[test]
fn a_chunk_in_two_pieces_comes_out_whole() {
    assert_eq!(
        chunks(&[b"{\"text\":", b"\"a\"}\n"]),
        (vec![b"{\"text\":\"a\"}".to_vec()], None)
    );
}

#[test]
fn a_piece_with_several_chunks_gives_them_in_order() {
    assert_eq!(
        chunks(&[b"one\n\ntwo\n\nthree\n\n"]),
        (vec![b"one".to_vec(), b"two".to_vec(), b"three".to_vec()], None)
    );
}

#[test]
fn empty_lines_are_no_chunks() {
    assert_eq!(chunks(&[b"\n\n\n"]), (Vec::new(), None));
    assert_eq!(chunks(&[b"", b""]), (Vec::new(), None));
    assert_eq!(chunks(&[]), (Vec::new(), None));
}

#[test]
fn what_no_line_feed_ends_is_left_for_the_end() {
    assert_eq!(chunks(&[b"one\ntw", b"o"]), (vec![b"one".to_vec()], Some(b"two".to_vec())));
    assert_eq!(chunks(&[b"one"]), (Vec::new(), Some(b"one".to_vec())));
}

#[test]
fn the_pieces_make_no_difference() {
    let stream = b"{\"text\":\"Hel\"}\n\n{\"text\":\"lo\"}\n\n\n{\"text\":\"\",\"reached_end\":true}\n\nrest";
    let whole = chunks(&[stream]);
    assert_eq!(whole.0.len(), 3);
    assert_eq!(whole.1, Some(b"rest".to_vec()));
    for first in 0..=stream.len() {
        for second in first..=stream.len() {
            let pieces: [&[u8]; 3] = [&stream[..first], &stream[first..second], &stream[second..]];
            assert_eq!(chunks(&pieces), whole);
        }
    }
    let bytes: Vec<&[u8]> = stream.chunks(1).collect();
    assert_eq!(chunks(&bytes), whole);
}

#[test]
fn push_gives_only_what_the_piece_completes() {
    let mut buffer = ChunkBuffer::new();
    assert_eq!(buffer.push(b"ab"), Vec::<Vec<u8>>::new());
    assert_eq!(buffer.push(b"c\nd"), vec![b"abc".to_vec()]);
    assert_eq!(buffer.push(b"\n"), vec![b"d".to_vec()]);
    assert_eq!(buffer.push(b"\n"), Vec::<Vec<u8>>::new());
    assert_eq!(buffer.finish(), None);
}
