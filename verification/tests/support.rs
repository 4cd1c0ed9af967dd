use arcade::collections::retain_unmarked;

#[test]
fn retaining_keeps_the_unmarked_in_order() {
    let mut items = vec![10, 20, 30, 40, 50];
    retain_unmarked(&mut items, &vec![false, true, false, true, true]);
    assert_eq!(items, vec![10, 30]);
}

#[test]
fn retaining_with_no_marks_keeps_everything() {
    let mut items = vec!['a', 'b', 'c'];
    retain_unmarked(&mut items, &vec![false, false, false]);
    assert_eq!(items, vec!['a', 'b', 'c']);
}

#[test]
fn retaining_with_every_mark_empties_the_collection() {
    let mut items = vec![1, 2];
    retain_unmarked(&mut items, &vec![true, true]);
    assert!(items.is_empty());
    let mut empty: Vec<u8> = Vec::new();
    retain_unmarked(&mut empty, &Vec::new());
    assert!(empty.is_empty());
}
