use movecell::MoveCell;

/// A value that can be moved but neither copied nor cloned.
#[derive(Debug, Default, PartialEq)]
struct Token(u32);

#[test]
fn replace_returns_previous_and_stores_new() {
    let mut cell = MoveCell::new(Token(1));
    assert_eq!(cell.replace(Token(2)), Token(1));
    assert_eq!(cell.into_inner(), Token(2));
}

#[test]
fn replace_chain_hands_each_value_out_once() {
    let mut cell = MoveCell::new(10u8);
    assert_eq!(cell.replace(20), 10);
    assert_eq!(cell.replace(30), 20);
    assert_eq!(cell.replace(40), 30);
    assert_eq!(cell.into_inner(), 40);
}

#[test]
fn new_then_into_inner_round_trips() {
    assert_eq!(MoveCell::new(Token(7)).into_inner(), Token(7));
    assert_eq!(MoveCell::new(String::new()).into_inner(), "");
    assert_eq!(MoveCell::new(vec![1, 2, 3]).into_inner(), vec![1, 2, 3]);
    assert_eq!(MoveCell::new(()).into_inner(), ());
}

#[test]
fn take_leaves_the_default_behind() {
    let mut cell = MoveCell::new(Token(5));
    assert_eq!(cell.take(), Token(5));
    assert_eq!(cell.take(), Token(0));
    assert_eq!(cell.into_inner(), Token(0));

    let mut text = MoveCell::new("full".to_owned());
    assert_eq!(text.take(), "full");
    assert_eq!(text.into_inner(), "");
}

#[test]
fn take_twice_on_optional_contents() {
    let mut cell = MoveCell::new(Some(Token(3)));
    assert_eq!(cell.take(), Some(Token(3)));
    assert_eq!(cell.take(), None);
    assert_eq!(cell.take(), None);
    assert_eq!(cell.into_inner(), None);
}

#[test]
fn take_on_empty_optional_contents() {
    let mut cell: MoveCell<Option<Token>> = MoveCell::new(None);
    assert_eq!(cell.take(), None);
    assert_eq!(cell.into_inner(), None);
}

#[test]
fn peek_twice_sees_the_same_value() {
    let mut cell = MoveCell::new("seen".to_owned());
    let first = cell.peek(|value| value.clone());
    let second = cell.peek(|value| value.clone());
    assert_eq!(first, "seen");
    assert_eq!(second, "seen");
    assert_eq!(cell.into_inner(), "seen");
}

#[test]
fn peek_returns_the_result_of_the_transform() {
    let mut cell = MoveCell::new(vec![4u32, 5, 6]);
    assert_eq!(cell.peek(|items| items.len()), 3);
    assert_eq!(cell.peek(|items| items.iter().sum::<u32>()), 15);
    assert_eq!(cell.into_inner(), vec![4, 5, 6]);
}

#[test]
fn peek_works_on_a_value_that_cannot_be_cloned() {
    let mut cell = MoveCell::new(Token(11));
    assert_eq!(cell.peek(|token| token.0 + 1), 12);
    assert_eq!(cell.into_inner(), Token(11));
}

#[test]
fn clone_inner_equals_the_value() {
    let mut cell = MoveCell::new("kept".to_owned());
    assert_eq!(cell.clone_inner(), "kept");
    assert_eq!(cell.clone_inner(), "kept");
    assert_eq!(cell.into_inner(), "kept");

    assert_eq!(MoveCell::new(42u64).clone_inner(), 42);
    assert_eq!(MoveCell::new(Some(vec![1u8])).clone_inner(), Some(vec![1u8]));
}

#[test]
fn is_some_and_is_none_follow_the_contents() {
    let mut cell = MoveCell::new(Some(1u32));
    assert!(cell.is_some());
    assert!(!cell.is_none());
    cell.take();
    assert!(!cell.is_some());
    assert!(cell.is_none());
    cell.replace(Some(2));
    assert!(cell.is_some());
    assert_eq!(cell.into_inner(), Some(2));
}

#[test]
fn map_inner_applies_the_transform_when_present() {
    let mut cell = MoveCell::new(Some("abc".to_owned()));
    assert_eq!(cell.map_inner(|text| text.len()), Some(3));
    assert_eq!(cell.map_inner(|text| text.to_uppercase()), Some("ABC".to_owned()));
    assert_eq!(cell.into_inner(), Some("abc".to_owned()));
}

#[test]
fn map_inner_skips_the_transform_when_absent() {
    let mut cell: MoveCell<Option<String>> = MoveCell::new(None);
    let mut called = false;
    assert_eq!(
        cell.map_inner(|text| {
            called = true;
            text.len()
        }),
        None
    );
    assert!(!called);
    assert_eq!(cell.into_inner(), None);
}

#[test]
fn default_cell_holds_the_default_value() {
    assert_eq!(MoveCell::<u32>::default().into_inner(), 0);
    assert_eq!(MoveCell::<String>::default().into_inner(), "");
    assert_eq!(MoveCell::<Option<Token>>::default().into_inner(), None);
    assert_eq!(MoveCell::<Token>::default().into_inner(), Token(0));
}

#[test]
fn cells_are_equal_when_their_values_are() {
    let one = MoveCell::new("same".to_owned());
    let other = MoveCell::new("same".to_owned());
    let third = MoveCell::new("else".to_owned());
    assert!(one == other);
    assert!(!(one != other));
    assert!(one != third);
    assert!(!(one == third));
    assert_eq!(one.into_inner(), "same");
    assert_eq!(third.into_inner(), "else");
}

#[test]
fn clone_of_a_cell_holds_an_equal_value() {
    let cell = MoveCell::new(vec![1u8, 2]);
    let mut copy = cell.clone();
    assert_eq!(copy, cell);
    copy.replace(vec![3]);
    assert_ne!(copy, cell);
    assert_eq!(cell.into_inner(), vec![1, 2]);
    assert_eq!(copy.into_inner(), vec![3]);
}

#[test]
fn scenario_with_plain_contents() {
    let mut c = MoveCell::new("first");
    assert_eq!(c.replace("second"), "first");
    assert_eq!(c.replace("third"), "second");
    assert_eq!(c.into_inner(), "third");
}

#[test]
fn scenario_with_optional_contents() {
    let mut c = MoveCell::new(Some("fourth"));
    assert_eq!(c.take(), Some("fourth"));
    assert_eq!(c.take(), None);
    assert_eq!(c.replace(Some("fifth")), None);
    assert_eq!(format!("{:?}", c), "MoveCell(Some(\"fifth\"))");
    assert_eq!(c.debug_string(), "MoveCell(Some(\"fifth\"))");
}
