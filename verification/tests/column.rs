use chunked_column::arithmetic::Operator;
use chunked_column::chunk::Chunk;
use chunked_column::column::{ChunkedArray, DataType, LengthMismatch};

fn get_array() -> ChunkedArray {
    ChunkedArray::new("a", &[1, 2, 3])
}

fn slots(column: &ChunkedArray) -> Vec<Vec<Option<i32>>> {
    column.chunks().iter().map(|c| c.to_vec()).collect()
}

/// A consistent column with these chunks: zeros of the same shape, whose
/// counts are right, come first in a sum with the chunks, so that both counts
/// of the sum are counted over its chunks.
fn column_of(chunks: &[&[Option<i32>]]) -> ChunkedArray {
    let total: usize = chunks.iter().map(|c| c.len()).sum();
    let base = ChunkedArray::new("c", &vec![0; total]);
    let zeros: Vec<Chunk> = chunks.iter().map(|c| Chunk::from_slice(&vec![0; c.len()])).collect();
    let given: Vec<Chunk> = chunks.iter().map(|c| Chunk::from_options(c)).collect();
    base.copy_with_array(zeros)
        .try_apply(&base.copy_with_array(given), Operator::Add)
        .unwrap()
}

fn nulls_in(column: &ChunkedArray) -> usize {
    slots(column).iter().flatten().filter(|s| s.is_none()).count()
}

fn slots_in(column: &ChunkedArray) -> usize {
    slots(column).iter().map(|c| c.len()).sum()
}

#[test]
fn arithmetic() {
    let s1 = get_array();
    println!("{}", s1.debug_string());
    let s2 = &s1.clone();
    let s1 = &s1;
    println!("{}", (s1 + s2).debug_string());
    println!("{}", (s1 - s2).debug_string());
    println!("{}", (s1 * s2).debug_string());
}

#[test]
fn new_holds_the_values_in_one_chunk() {
    let s = get_array();
    assert_eq!(slots(&s), vec![vec![Some(1), Some(2), Some(3)]]);
    assert_eq!(s.len(), 3);
    assert_eq!(s.null_count(), 0);
    assert_eq!(s.field().name, "a");
    assert_eq!(s.field().data_type, DataType::Int32);
    assert!(s.field().nullable);
}

#[test]
fn new_of_nothing_has_one_empty_chunk() {
    let s = ChunkedArray::new("empty", &[]);
    assert_eq!(slots(&s), vec![Vec::<Option<i32>>::new()]);
    assert_eq!(s.len(), 0);
    assert_eq!(s.null_count(), 0);
    assert_eq!(s.field().name, "empty");
}

#[test]
fn sum_difference_and_product_by_reference() {
    let a = ChunkedArray::new("a", &[1, 2, 3]);
    let b = ChunkedArray::new("b", &[10, -20, 30]);
    assert_eq!(slots(&(&a + &b)), vec![vec![Some(11), Some(-18), Some(33)]]);
    assert_eq!(slots(&(&a - &b)), vec![vec![Some(-9), Some(22), Some(-27)]]);
    assert_eq!(slots(&(&a * &b)), vec![vec![Some(10), Some(-40), Some(90)]]);
}

#[test]
fn sum_difference_and_product_by_value() {
    let a = || ChunkedArray::new("a", &[7, 8]);
    let b = || ChunkedArray::new("b", &[2, 3]);
    assert_eq!(slots(&(a() + b())), vec![vec![Some(9), Some(11)]]);
    assert_eq!(slots(&(a() - b())), vec![vec![Some(5), Some(5)]]);
    assert_eq!(slots(&(a() * b())), vec![vec![Some(14), Some(24)]]);
}

#[test]
fn results_wrap_around_on_overflow() {
    let a = ChunkedArray::new("a", &[i32::MAX, i32::MIN, 65536, i32::MIN]);
    let b = ChunkedArray::new("b", &[1, 1, 65536, -1]);
    assert_eq!(
        slots(&(&a + &b)),
        vec![vec![Some(i32::MIN), Some(i32::MIN + 1), Some(131072), Some(i32::MAX)]]
    );
    assert_eq!(
        slots(&(&a - &b)),
        vec![vec![Some(i32::MAX - 1), Some(i32::MAX), Some(0), Some(i32::MIN + 1)]]
    );
    assert_eq!(
        slots(&(&a * &b)),
        vec![vec![Some(i32::MAX), Some(i32::MIN), Some(0), Some(i32::MIN)]]
    );
}

#[test]
fn result_keeps_the_field_of_the_left_operand() {
    let a = ChunkedArray::new("left", &[1, 2, 3]);
    let b = ChunkedArray::new("right", &[4, 5, 6]);
    let c = &a + &b;
    assert_eq!(c.field().name, "left");
    assert_eq!(c.field().data_type, DataType::Int32);
    assert!(c.field().nullable);
    assert_eq!(c.len(), 3);
    assert_eq!(c.null_count(), 0);
}

#[test]
fn null_count_of_a_result_counts_its_nulls() {
    let a = ChunkedArray::new("a", &[1, 2, 3]);
    let b = a.copy_with_array(vec![Chunk::from_options(&[Some(10), None, Some(30)])]);
    for op in [Operator::Add, Operator::Subtract, Operator::Multiply] {
        let c = a.try_apply(&b, op).unwrap();
        assert_eq!(c.null_count(), 1);
        assert_eq!(c.len(), 3);
        assert_eq!(nulls_in(&c), 1);
    }
    assert_eq!(slots(&(&a + &b)), vec![vec![Some(11), None, Some(33)]]);
    let c = &(&a + &b) * &a;
    assert_eq!(slots(&c), vec![vec![Some(11), None, Some(99)]]);
    assert_eq!(c.null_count(), 1);
}

#[test]
fn length_of_a_result_is_that_of_its_chunks() {
    let five = ChunkedArray::new("a", &[1, 2, 3, 4, 5]);
    let a = five.copy_with_array(vec![Chunk::from_slice(&[1, 2, 3]), Chunk::from_slice(&[4, 5])]);
    let b = ChunkedArray::new("b", &[1, 1, 1]);
    assert_eq!(a.len(), 5);
    let c = &a - &b;
    assert_eq!(slots(&c), vec![vec![Some(0), Some(1), Some(2)]]);
    assert_eq!(c.len(), 3);
    assert_eq!(c.null_count(), 0);
    let d = &b - &a;
    assert_eq!(slots(&d), vec![vec![Some(0), Some(-1), Some(-2)]]);
    assert_eq!(d.len(), 3);
}

#[test]
fn wrong_counts_of_the_left_operand_are_handed_on() {
    let wrong = ChunkedArray::new("w", &[7; 9])
        .copy_with_array(vec![Chunk::from_options(&[None, Some(2)]), Chunk::from_options(&[None])]);
    assert_eq!(wrong.len(), 9);
    assert_eq!(wrong.null_count(), 0);
    let c = &wrong + &wrong;
    assert_eq!(slots(&c), vec![vec![None, Some(4)], vec![None]]);
    assert_eq!(c.len(), 9);
    assert_eq!(c.null_count(), 0);
}

#[test]
fn a_wrong_length_is_handed_on_to_the_sum_with_a_clone() {
    let a = ChunkedArray::new("a", &[1, 2, 3]).copy_with_array(vec![Chunk::from_slice(&[1, 2])]);
    let b = a.clone();
    for op in [Operator::Add, Operator::Subtract, Operator::Multiply] {
        let c = a.try_apply(&b, op).unwrap();
        assert_eq!(c.len(), 3);
        assert_eq!(c.null_count(), 0);
        assert_eq!(slots_in(&c), 2);
    }
    assert_eq!(slots(&(&a + &b)), vec![vec![Some(2), Some(4)]]);
}

#[test]
fn each_count_goes_its_own_way() {
    let five = ChunkedArray::new("a", &[0; 5]);
    let right_len_wrong_nulls = five.copy_with_array(vec![
        Chunk::from_options(&[None, Some(1), Some(2)]),
        Chunk::from_slice(&[3, 4]),
    ]);
    let b = ChunkedArray::new("b", &[1, 1, 1]);
    let c = &right_len_wrong_nulls + &b;
    assert_eq!(slots(&c), vec![vec![None, Some(2), Some(3)]]);
    assert_eq!(c.len(), 3);
    assert_eq!(c.null_count(), 0);

    let nine = ChunkedArray::new("a", &[0; 9]);
    let wrong_len_right_nulls =
        nine.copy_with_array(vec![Chunk::from_slice(&[1, 2]), Chunk::from_slice(&[3])]);
    let d = nine.copy_with_array(vec![Chunk::from_options(&[None, Some(1)])]);
    let e = &wrong_len_right_nulls * &d;
    assert_eq!(slots(&e), vec![vec![None, Some(2)]]);
    assert_eq!(e.len(), 9);
    assert_eq!(e.null_count(), 1);
}

#[test]
fn counts_right_or_wrong_stay_against_a_null_free_partner_of_the_same_shape() {
    let a = ChunkedArray::new("a", &[0; 7])
        .copy_with_array(vec![Chunk::from_options(&[Some(5), None]), Chunk::from_slice(&[6])]);
    let b = column_of(&[&[Some(2), Some(3)], &[Some(4)]]);
    let ones = column_of(&[&[Some(1), Some(1)], &[Some(1)]]);
    assert_eq!((a.len(), a.null_count()), (7, 0));
    for op in [Operator::Add, Operator::Subtract, Operator::Multiply] {
        let c = a.try_apply(&b, op).unwrap();
        assert_eq!((c.len(), c.null_count()), (7, 0));
    }
    let back = &(&a + &b) - &b;
    assert_eq!(slots(&back), slots(&a));
    assert_eq!((back.len(), back.null_count()), (7, 0));
    let same = &a * &ones;
    assert_eq!(slots(&same), slots(&a));
    assert_eq!((same.len(), same.null_count()), (7, 0));
    assert_eq!(slots(&(&ones * &a)), slots(&a));
    let swapped = &b + &a;
    assert_eq!(slots(&swapped), slots(&(&a + &b)));
    assert_eq!((swapped.len(), swapped.null_count()), (3, 1));
}

#[test]
fn results_of_consistent_columns_are_consistent() {
    let a = column_of(&[&[Some(1), None, Some(3)], &[], &[None, Some(5)]]);
    let b = column_of(&[&[None, None, Some(1)], &[], &[Some(2), Some(2)], &[Some(9)]]);
    assert_eq!((a.len(), a.null_count()), (5, 2));
    assert_eq!((b.len(), b.null_count()), (6, 2));
    for op in [Operator::Add, Operator::Subtract, Operator::Multiply] {
        for (l, r) in [(&a, &b), (&b, &a), (&a, &a)] {
            let c = l.try_apply(r, op).unwrap();
            assert_eq!(c.len(), slots_in(&c));
            assert_eq!(c.null_count(), nulls_in(&c));
        }
    }
    let c = &a * &b;
    assert_eq!(slots(&c), vec![vec![None, None, Some(3)], vec![], vec![None, Some(10)]]);
    assert_eq!((c.len(), c.null_count()), (5, 3));
}

#[test]
fn a_null_free_partner_of_the_same_shape_leaves_the_counts() {
    let a = column_of(&[&[Some(1), None], &[None]]);
    let b = column_of(&[&[Some(1), Some(2)], &[Some(3)]]);
    let c = &a + &b;
    assert_eq!((c.len(), c.null_count()), (a.len(), a.null_count()));
    assert_eq!((c.len(), c.null_count()), (3, 2));
}

#[test]
fn chunk_counts_its_slots_and_nulls() {
    let c = Chunk::from_options(&[None, Some(0), None, Some(-1)]);
    assert_eq!(c.len(), 4);
    assert_eq!(c.null_count(), 2);
    let d = Chunk::from_slice(&[1, 2, 3]);
    assert_eq!(d.len(), 3);
    assert_eq!(d.null_count(), 0);
    let e = Chunk::from_slice(&[]);
    assert_eq!(e.len(), 0);
    assert_eq!(e.null_count(), 0);
    let f = d.apply(&Chunk::from_options(&[None, Some(1), None]), Operator::Multiply).unwrap();
    assert_eq!(f.len(), 3);
    assert_eq!(f.null_count(), 2);
}

#[test]
fn a_null_on_either_side_gives_a_null() {
    let a = column_of(&[&[Some(1), None, Some(3), None]]);
    let b = column_of(&[&[Some(10), Some(20), None, None]]);
    let expected = vec![vec![Some(11), None, None, None]];
    assert_eq!(slots(&a.try_apply(&b, Operator::Add).unwrap()), expected);
    assert_eq!(
        slots(&a.try_apply(&b, Operator::Subtract).unwrap()),
        vec![vec![Some(-9), None, None, None]]
    );
    assert_eq!(
        slots(&a.try_apply(&b, Operator::Multiply).unwrap()),
        vec![vec![Some(10), None, None, None]]
    );
}

#[test]
fn chunks_are_combined_pair_by_pair() {
    let a = column_of(&[&[Some(1), Some(2)], &[], &[Some(3)]]);
    let b = column_of(&[&[Some(5), Some(6)], &[], &[Some(7)]]);
    assert_eq!(
        slots(&(&a * &b)),
        vec![vec![Some(5), Some(12)], vec![], vec![Some(21)]]
    );
}

#[test]
fn chunks_without_a_partner_are_left_out() {
    let long = column_of(&[&[Some(1)], &[Some(2), Some(3)], &[Some(4)]]);
    let short = column_of(&[&[Some(10)], &[Some(20), Some(30)]]);
    assert_eq!(
        slots(&(&long + &short)),
        vec![vec![Some(11)], vec![Some(22), Some(33)]]
    );
    assert_eq!(
        slots(&(&short - &long)),
        vec![vec![Some(9)], vec![Some(18), Some(27)]]
    );
    let none = ChunkedArray::new("n", &[]).copy_with_array(Vec::new());
    assert_eq!(slots(&(&long + &none)), Vec::<Vec<Option<i32>>>::new());
}

#[test]
fn chunks_of_different_length_are_refused() {
    let a = column_of(&[&[Some(1)], &[Some(2), Some(3)], &[Some(4)]]);
    let b = column_of(&[&[Some(1)], &[Some(2)], &[]]);
    for op in [Operator::Add, Operator::Subtract, Operator::Multiply] {
        match a.try_apply(&b, op) {
            Err(e) => assert_eq!(e, LengthMismatch { chunk: 1 }),
            Ok(_) => panic!("chunks of different length were combined"),
        }
    }
    match b.try_apply(&a, Operator::Add) {
        Err(e) => assert_eq!(e.chunk, 1),
        Ok(_) => panic!("chunks of different length were combined"),
    }
}

#[test]
fn a_mismatch_beyond_the_pairs_is_no_mismatch() {
    let a = column_of(&[&[Some(1)], &[Some(2), Some(3)]]);
    let b = column_of(&[&[Some(1)]]);
    assert_eq!(slots(&a.try_apply(&b, Operator::Add).unwrap()), vec![vec![Some(2)]]);
}

#[test]
fn addition_and_multiplication_commute() {
    let a = column_of(&[&[Some(3), None, Some(i32::MAX)], &[Some(-4)]]);
    let b = column_of(&[&[Some(9), Some(1), Some(2)], &[None]]);
    assert_eq!(slots(&(&a + &b)), slots(&(&b + &a)));
    assert_eq!(slots(&(&a * &b)), slots(&(&b * &a)));
    assert_eq!(slots(&(&a + &b)), vec![vec![Some(12), None, Some(i32::MIN + 1)], vec![None]]);
}

#[test]
fn copy_with_array_takes_the_counts_over_unchanged() {
    let s = ChunkedArray::new("a", &[1, 2, 3]);
    let t = s.copy_with_array(vec![Chunk::from_options(&[None, Some(5)])]);
    assert_eq!(slots(&t), vec![vec![None, Some(5)]]);
    assert_eq!(t.len(), 3);
    assert_eq!(t.null_count(), 0);
    assert_eq!(t.field().name, "a");
}

#[test]
fn clone_is_an_equal_column() {
    let s = column_of(&[&[Some(1), None], &[Some(3)]]);
    let t = s.clone();
    assert_eq!(slots(&t), slots(&s));
    assert_eq!(slots(&t), vec![vec![Some(1), None], vec![Some(3)]]);
    assert_eq!(t.len(), s.len());
    assert_eq!(t.null_count(), s.null_count());
    assert_eq!(t.field().name, s.field().name);
    assert_eq!(t.field().nullable, s.field().nullable);
    assert_eq!(t.debug_string(), s.debug_string());
}

#[test]
fn chunk_from_slice_and_back() {
    let c = Chunk::from_slice(&[4, -5, 6]);
    assert_eq!(c.to_vec(), vec![Some(4), Some(-5), Some(6)]);
    assert_eq!(c.clone().to_vec(), vec![Some(4), Some(-5), Some(6)]);
    assert_eq!(Chunk::from_slice(&[]).to_vec(), Vec::<Option<i32>>::new());
}

#[test]
fn chunk_from_options_and_back() {
    let c = Chunk::from_options(&[None, Some(0), None, Some(-1)]);
    assert_eq!(c.to_vec(), vec![None, Some(0), None, Some(-1)]);
    assert_eq!(c.clone().to_vec(), vec![None, Some(0), None, Some(-1)]);
}

#[test]
fn chunk_apply_needs_equal_lengths() {
    let a = Chunk::from_slice(&[1, 2, 3]);
    let b = Chunk::from_slice(&[1, 2]);
    assert!(a.apply(&b, Operator::Add).is_none());
    assert!(a.apply(&b, Operator::Subtract).is_none());
    assert!(a.apply(&b, Operator::Multiply).is_none());
    let c = Chunk::from_options(&[Some(5), None, Some(-2)]);
    assert_eq!(a.apply(&c, Operator::Add).unwrap().to_vec(), vec![Some(6), None, Some(1)]);
    assert_eq!(a.apply(&c, Operator::Subtract).unwrap().to_vec(), vec![Some(-4), None, Some(5)]);
    assert_eq!(a.apply(&c, Operator::Multiply).unwrap().to_vec(), vec![Some(5), None, Some(-6)]);
    let e = Chunk::from_slice(&[]);
    assert_eq!(e.apply(&e, Operator::Add).unwrap().to_vec(), Vec::<Option<i32>>::new());
}

#[test]
fn debug_string_is_that_of_the_arrays() {
    let s = get_array();
    assert_eq!(s.debug_string(), "[PrimitiveArray<Int32>\n[\n  1,\n  2,\n  3,\n]]");
    let t = column_of(&[&[Some(1), None], &[]]);
    assert_eq!(
        t.debug_string(),
        "[PrimitiveArray<Int32>\n[\n  1,\n  null,\n], PrimitiveArray<Int32>\n[\n]]"
    );
    assert_eq!((&s + &s).debug_string(), "[PrimitiveArray<Int32>\n[\n  2,\n  4,\n  6,\n]]");
}
