use text_buffer::TextBuffer;

#[test]
fn from_copies_the_literal() {
    let buffer = TextBuffer::from("hello");
    assert_eq!(buffer.as_str(), "hello");
    assert_eq!(buffer.as_bytes(), b"hello");
    assert_eq!(buffer.len(), 5);
    assert_eq!(buffer.capacity(), 5);
}

#[test]
fn from_sizes_the_storage_to_the_literal() {
    let literals = ["", "a", "Hello", "Heya, boy", "a longer line of plain text, with spaces"];
    for literal in literals {
        let buffer = TextBuffer::from(literal);
        assert_eq!(buffer.as_str(), literal);
        assert_eq!(buffer.len(), literal.len());
        assert_eq!(buffer.capacity(), literal.len());
    }
}

#[test]
fn from_an_empty_literal_is_empty() {
    let buffer = TextBuffer::from("");
    assert_eq!(buffer.as_str(), "");
    assert_eq!(buffer.as_bytes().len(), 0);
    assert_eq!(buffer.len(), 0);
    assert_eq!(buffer.capacity(), 0);
}

#[test]
fn from_counts_bytes_not_characters() {
    let buffer = TextBuffer::from("héllo ✓");
    assert_eq!(buffer.as_str(), "héllo ✓");
    assert_eq!(buffer.as_str().chars().count(), 7);
    assert_eq!(buffer.len(), 10);
    assert_eq!(buffer.capacity(), 10);
    assert_eq!(buffer.as_bytes(), "héllo ✓".as_bytes());
}

#[test]
fn push_str_appends_the_suffix() {
    let mut buffer = TextBuffer::from("Heya");
    buffer.push_str(", boy");
    assert_eq!(buffer.as_str(), "Heya, boy");
    assert_eq!(buffer.len(), 9);
    assert!(buffer.capacity() >= buffer.len());
}

#[test]
fn push_str_grows_to_what_is_needed_when_twice_is_too_little() {
    let mut buffer = TextBuffer::from("Heya");
    assert_eq!(buffer.capacity(), 4);
    buffer.push_str(", boy");
    assert_eq!(buffer.len(), 9);
    assert_eq!(buffer.capacity(), 9);
}

#[test]
fn push_str_doubles_the_storage_when_that_is_enough() {
    let mut buffer = TextBuffer::from("hello");
    buffer.push_str("!");
    assert_eq!(buffer.as_str(), "hello!");
    assert_eq!(buffer.len(), 6);
    assert_eq!(buffer.capacity(), 10);
}

#[test]
fn push_str_keeps_the_storage_while_the_suffix_fits() {
    let mut buffer = TextBuffer::from("hello");
    buffer.push_str("!");
    assert_eq!(buffer.capacity(), 10);
    buffer.push_str("abc");
    assert_eq!(buffer.as_str(), "hello!abc");
    assert_eq!(buffer.len(), 9);
    assert_eq!(buffer.capacity(), 10);
    buffer.push_str("d");
    assert_eq!(buffer.as_str(), "hello!abcd");
    assert_eq!(buffer.len(), 10);
    assert_eq!(buffer.capacity(), 10);
    buffer.push_str("e");
    assert_eq!(buffer.as_str(), "hello!abcde");
    assert_eq!(buffer.len(), 11);
    assert_eq!(buffer.capacity(), 20);
}

#[test]
fn push_str_of_nothing_changes_nothing() {
    let mut buffer = TextBuffer::from("hello");
    buffer.push_str("");
    assert_eq!(buffer.as_str(), "hello");
    assert_eq!(buffer.len(), 5);
    assert_eq!(buffer.capacity(), 5);
}

#[test]
fn push_str_onto_an_empty_buffer() {
    let mut buffer = TextBuffer::from("");
    buffer.push_str("");
    assert_eq!(buffer.len(), 0);
    assert_eq!(buffer.capacity(), 0);
    buffer.push_str("abc");
    assert_eq!(buffer.as_str(), "abc");
    assert_eq!(buffer.len(), 3);
    assert_eq!(buffer.capacity(), 3);
}

#[test]
fn push_str_takes_text_of_several_bytes_a_character() {
    let mut buffer = TextBuffer::from("naïve");
    assert_eq!(buffer.len(), 6);
    buffer.push_str(" café ✓");
    assert_eq!(buffer.as_str(), "naïve café ✓");
    assert_eq!(buffer.len(), "naïve café ✓".len());
    assert_eq!(buffer.as_bytes(), "naïve café ✓".as_bytes());
    assert!(buffer.capacity() >= buffer.len());
}

#[test]
fn push_str_many_times_keeps_the_text_and_the_bounds() {
    let mut buffer = TextBuffer::from("");
    let mut expected = String::new();
    let mut last_capacity = buffer.capacity();
    for round in 0..200 {
        let piece = format!("{},", round);
        let fits = buffer.len() + piece.len() <= buffer.capacity();
        buffer.push_str(&piece);
        expected.push_str(&piece);
        assert_eq!(buffer.as_str(), expected);
        assert_eq!(buffer.len(), expected.len());
        assert!(buffer.len() <= buffer.capacity());
        if fits {
            assert_eq!(buffer.capacity(), last_capacity);
        } else {
            assert!(buffer.capacity() > last_capacity);
            let twice = 2 * last_capacity;
            let grown = if twice > buffer.len() { twice } else { buffer.len() };
            assert_eq!(buffer.capacity(), grown);
        }
        last_capacity = buffer.capacity();
    }
}

#[test]
fn clone_copies_text_length_and_capacity() {
    let mut original = TextBuffer::from("hello");
    original.push_str("!");
    let copy = original.clone();
    assert_eq!(copy.as_str(), "hello!");
    assert_eq!(copy.len(), 6);
    assert_eq!(copy.capacity(), 10);
    assert_eq!(original.as_str(), "hello!");
    assert_eq!(original.len(), 6);
    assert_eq!(original.capacity(), 10);
}

#[test]
fn appending_to_the_clone_leaves_the_original() {
    let original = TextBuffer::from("hello");
    let mut copy = original.clone();
    copy.push_str(", world");
    assert_eq!(copy.as_str(), "hello, world");
    assert_eq!(copy.len(), 12);
    assert_eq!(original.as_str(), "hello");
    assert_eq!(original.len(), 5);
    assert_eq!(original.capacity(), 5);
}

#[test]
fn appending_within_the_clone_s_room_leaves_the_original() {
    let mut original = TextBuffer::from("hello");
    original.push_str("!");
    let mut copy = original.clone();
    copy.push_str("abcd");
    assert_eq!(copy.as_str(), "hello!abcd");
    assert_eq!(copy.capacity(), 10);
    assert_eq!(original.as_str(), "hello!");
    assert_eq!(original.as_bytes(), b"hello!");
    assert_eq!(original.len(), 6);
    assert_eq!(original.capacity(), 10);
}

#[test]
fn appending_to_the_original_leaves_the_clone() {
    let mut original = TextBuffer::from("hello");
    let copy = original.clone();
    original.push_str(", world");
    assert_eq!(original.as_str(), "hello, world");
    assert_eq!(copy.as_str(), "hello");
    assert_eq!(copy.len(), 5);
    assert_eq!(copy.capacity(), 5);
}

#[test]
fn as_str_reads_the_bytes_in_use_as_text() {
    let mut buffer = TextBuffer::from("hello");
    buffer.push_str("!");
    let text: &str = buffer.as_str();
    assert_eq!(text, "hello!");
    assert_eq!(text.len(), 6);
    assert_eq!(text.as_bytes(), buffer.as_bytes());
}

#[test]
fn as_bytes_leaves_out_the_room_to_grow() {
    let mut buffer = TextBuffer::from("hello");
    buffer.push_str("!");
    assert_eq!(buffer.capacity(), 10);
    assert_eq!(buffer.as_bytes(), &[104u8, 101, 108, 108, 111, 33]);
}

#[test]
fn dropping_a_buffer_leaves_its_clone() {
    let buffer = TextBuffer::from("hello");
    let copy = buffer.clone();
    drop(buffer);
    assert_eq!(copy.as_str(), "hello");
    assert_eq!(copy.len(), 5);
    assert_eq!(copy.capacity(), 5);
}

#[test]
fn a_moved_buffer_keeps_text_length_and_capacity() {
    let mut first = TextBuffer::from("hello");
    first.push_str("!");
    let second = first;
    assert_eq!(second.as_str(), "hello!");
    assert_eq!(second.len(), 6);
    assert_eq!(second.capacity(), 10);
}
