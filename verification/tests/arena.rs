use rust_lib::arena::{Arena, Lifecycle, Origin, Payload, NULL};
use rust_lib::c::gender::CGender;
use rust_lib::c::user::CUser;

fn caller_array(arena: &mut Arena, values: &[i32]) -> usize {
    arena.allocate(Origin::Caller, Payload::Ints(values.to_vec()))
}

#[test]
fn new_arena_holds_nothing() {
    let arena = Arena::new();
    assert_eq!(arena.live_count(), 0);
    assert!(arena.can_allocate());
    assert_eq!(arena.state(NULL), Lifecycle::Vacant);
    assert_eq!(arena.state(1), Lifecycle::Vacant);
    assert_eq!(arena.state(usize::MAX), Lifecycle::Vacant);
}

#[test]
fn null_is_zero_and_never_handed_out() {
    assert_eq!(NULL, 0);
    let mut arena = Arena::new();
    for _ in 0..10 {
        let ptr = arena.allocate(Origin::Caller, Payload::Ints(Vec::new()));
        assert_ne!(ptr, NULL);
    }
    assert_eq!(arena.state(NULL), Lifecycle::Vacant);
}

#[test]
fn addresses_are_handed_out_in_turn() {
    let mut arena = Arena::new();
    assert_eq!(caller_array(&mut arena, &[1]), 1);
    assert_eq!(caller_array(&mut arena, &[2]), 2);
    assert_eq!(caller_array(&mut arena, &[3]), 3);
    assert_eq!(arena.live_count(), 3);
}

#[test]
fn an_address_goes_from_vacant_to_live_to_destroyed() {
    let mut arena = Arena::new();
    assert_eq!(arena.state(1), Lifecycle::Vacant);
    let ptr = caller_array(&mut arena, &[4, 5]);
    assert_eq!(arena.state(ptr), Lifecycle::Live);
    arena.release(ptr);
    assert_eq!(arena.state(ptr), Lifecycle::Destroyed);
}

#[test]
fn a_destroyed_address_is_never_handed_out_again() {
    let mut arena = Arena::new();
    let first = caller_array(&mut arena, &[1]);
    arena.release(first);
    let second = caller_array(&mut arena, &[2]);
    assert_ne!(first, second);
    assert_eq!(arena.state(first), Lifecycle::Destroyed);
    assert_eq!(arena.state(second), Lifecycle::Live);
    arena.release(second);
    let third = caller_array(&mut arena, &[3]);
    assert_eq!(arena.state(first), Lifecycle::Destroyed);
    assert_eq!(arena.state(second), Lifecycle::Destroyed);
    assert_eq!(arena.state(third), Lifecycle::Live);
}

#[test]
fn release_hands_the_block_back() {
    let mut arena = Arena::new();
    let ptr = caller_array(&mut arena, &[7, 8, 9]);
    let block = arena.release(ptr);
    assert_eq!(block.origin, Origin::Caller);
    match block.payload {
        Payload::Ints(values) => assert_eq!(values, vec![7, 8, 9]),
        _ => panic!("an array was stored"),
    }
}

#[test]
fn release_leaves_the_other_blocks_alone() {
    let mut arena = Arena::new();
    let a = caller_array(&mut arena, &[1, 2]);
    let b = caller_array(&mut arena, &[3, 4]);
    let c = caller_array(&mut arena, &[5, 6]);
    arena.release(b);
    assert_eq!(arena.live_count(), 2);
    assert_eq!(arena.borrow_read(a, 2), &[1, 2]);
    assert_eq!(arena.borrow_read(c, 2), &[5, 6]);
}

#[test]
fn live_count_goes_up_and_down() {
    let mut arena = Arena::new();
    let a = caller_array(&mut arena, &[1]);
    let b = caller_array(&mut arena, &[2]);
    assert_eq!(arena.live_count(), 2);
    arena.release(a);
    assert_eq!(arena.live_count(), 1);
    arena.release(b);
    assert_eq!(arena.live_count(), 0);
}

#[test]
fn borrow_read_sees_the_first_elements() {
    let mut arena = Arena::new();
    let ptr = caller_array(&mut arena, &[10, 20, 30, 40]);
    assert_eq!(arena.borrow_read(ptr, 4), &[10, 20, 30, 40]);
    assert_eq!(arena.borrow_read(ptr, 2), &[10, 20]);
    assert_eq!(arena.borrow_read(ptr, 1), &[10]);
}

#[test]
fn borrow_read_of_length_zero_reads_nothing() {
    let mut arena = Arena::new();
    let ptr = caller_array(&mut arena, &[10, 20]);
    assert_eq!(arena.borrow_read(ptr, 0).len(), 0);
    assert_eq!(arena.borrow_read(NULL, 0).len(), 0);
    assert_eq!(arena.borrow_read(999, 0).len(), 0);
    arena.release(ptr);
    assert_eq!(arena.borrow_read(ptr, 0).len(), 0);
}

#[test]
fn borrow_write_changes_the_block_in_place() {
    let mut arena = Arena::new();
    let ptr = caller_array(&mut arena, &[10, 20, 30, 40]);
    {
        let view = arena.borrow_write(ptr, 3);
        assert_eq!(view, &[10, 20, 30]);
        view[0] = -1;
        view[2] = -3;
    }
    assert_eq!(arena.borrow_read(ptr, 4), &[-1, 20, -3, 40]);
}

#[test]
fn borrow_write_of_length_zero_touches_nothing() {
    let mut arena = Arena::new();
    let ptr = caller_array(&mut arena, &[10, 20]);
    assert_eq!(arena.borrow_write(ptr, 0).len(), 0);
    assert_eq!(arena.borrow_write(NULL, 0).len(), 0);
    assert_eq!(arena.borrow_write(12345, 0).len(), 0);
    assert_eq!(arena.borrow_read(ptr, 2), &[10, 20]);
    assert_eq!(arena.live_count(), 1);
}

#[test]
fn owned_text_is_stored_with_a_terminator() {
    let mut arena = Arena::new();
    let ptr = arena.return_owned_text("Hi");
    assert_eq!(arena.borrow_text(ptr), b"Hi");
    let block = arena.release(ptr);
    assert_eq!(block.origin, Origin::TextAllocator);
    match block.payload {
        Payload::Text(bytes) => assert_eq!(bytes, vec![72, 105, 0]),
        _ => panic!("a text was stored"),
    }
}

#[test]
fn owned_text_comes_back_as_it_was() {
    for content in ["", "plain", "h\u{e9}llo w\u{f6}rld", "\u{4e16}\u{754c} \u{1F600}"] {
        let mut arena = Arena::new();
        let before = arena.live_count();
        let ptr = arena.return_owned_text(content);
        assert_eq!(arena.state(ptr), Lifecycle::Live);
        let read = String::from_utf8(arena.borrow_text(ptr).to_vec()).unwrap();
        assert_eq!(read, content);
        arena.release_text(ptr);
        assert_eq!(arena.state(ptr), Lifecycle::Destroyed);
        assert_eq!(arena.live_count(), before);
    }
}

#[test]
fn caller_text_is_read_up_to_its_terminator() {
    let mut arena = Arena::new();
    let ptr = arena.allocate(Origin::Caller, Payload::Text(vec![b'a', b'b', 0, b'c', 0]));
    assert_eq!(arena.borrow_text(ptr), b"ab");
    let open = arena.allocate(Origin::Caller, Payload::Text(vec![b'x', b'y']));
    assert_eq!(arena.borrow_text(open), b"xy");
}

#[test]
fn record_is_read_and_written_in_place() {
    let mut arena = Arena::new();
    let record = CUser { name: 0, age: 30, level: 2, gender: CGender::Male, register: false };
    let ptr = arena.allocate(Origin::Caller, Payload::Record(record));
    assert_eq!(*arena.borrow_record(ptr), record);
    arena.borrow_record_mut(ptr).age = 31;
    arena.borrow_record_mut(ptr).register = true;
    assert_eq!(
        *arena.borrow_record(ptr),
        CUser { name: 0, age: 31, level: 2, gender: CGender::Male, register: true }
    );
}

#[test]
fn origin_is_known_while_a_block_lives() {
    let mut arena = Arena::new();
    assert_eq!(arena.origin_of(NULL), None);
    assert_eq!(arena.origin_of(1), None);
    let lent = caller_array(&mut arena, &[1]);
    let text = arena.return_owned_text("t");
    assert_eq!(arena.origin_of(lent), Some(Origin::Caller));
    assert_eq!(arena.origin_of(text), Some(Origin::TextAllocator));
    arena.release(lent);
    assert_eq!(arena.origin_of(lent), None);
    assert_eq!(arena.origin_of(text + 1), None);
}

#[test]
fn array_len_is_known_for_live_arrays_only() {
    let mut arena = Arena::new();
    let arr = caller_array(&mut arena, &[1, 2, 3]);
    let empty = caller_array(&mut arena, &[]);
    let text = arena.return_owned_text("abc");
    assert_eq!(arena.array_len(arr), Some(3));
    assert_eq!(arena.array_len(empty), Some(0));
    assert_eq!(arena.array_len(text), None);
    assert_eq!(arena.array_len(NULL), None);
    assert_eq!(arena.array_len(77), None);
    arena.release(arr);
    assert_eq!(arena.array_len(arr), None);
}

#[test]
fn kinds_of_blocks_are_told_apart() {
    let mut arena = Arena::new();
    let arr = caller_array(&mut arena, &[1]);
    let text = arena.return_owned_text("abc");
    let record = arena.allocate(
        Origin::Caller,
        Payload::Record(CUser { name: text, age: 1, level: 0, gender: CGender::Female, register: true }),
    );
    assert!(arena.is_text(text));
    assert!(!arena.is_text(arr));
    assert!(!arena.is_text(record));
    assert!(!arena.is_text(NULL));
    assert!(arena.is_record(record));
    assert!(!arena.is_record(arr));
    assert!(!arena.is_record(text));
    assert!(!arena.is_record(record + 1));
    arena.release(record);
    assert!(!arena.is_record(record));
    arena.release_text(text);
    assert!(!arena.is_text(text));
}
