use init_trait::array::array_of;
use init_trait::grid::{fill_1, fill_2, fill_3};
use init_trait::sequence::collect;
use init_trait::Init;

struct House {
	number: usize,
	name: String,
}

#[test]
fn array_of_five_identity() {
	let arr = <[usize; 5]>::init(|i| i);
	assert_eq!(arr, [0, 1, 2, 3, 4]);
}

#[test]
fn vec_of_five_identity() {
	let vec = Vec::<usize>::init_with(5, |i| i);
	assert_eq!(vec, vec![0, 1, 2, 3, 4]);
}

#[test]
fn array_holds_generator_value_at_each_index() {
	let arr = <[u64; 9]>::init_with((), |i| (i as u64) * (i as u64) + 7);
	assert_eq!(arr, [7, 8, 11, 16, 23, 32, 43, 56, 71]);
}

#[test]
fn vec_holds_generator_value_at_each_index() {
	let vec = Vec::<String>::init_with(4, |i| format!("item {}", i));
	assert_eq!(vec, vec!["item 0", "item 1", "item 2", "item 3"]);
}

#[test]
fn element_needs_neither_default_nor_copy() {
	let road = <[House; 3]>::init(|i| House { number: i + 1, name: format!("no. {}", i + 1) });
	assert_eq!(road[0].number, 1);
	assert_eq!(road[1].number, 2);
	assert_eq!(road[2].number, 3);
	assert_eq!(road[2].name, "no. 3");
	let lane = Vec::<House>::init_with(2, |i| House { number: i + 10, name: String::new() });
	assert_eq!(lane.len(), 2);
	assert_eq!(lane[1].number, 11);
	assert_eq!(lane[0].name, "");
}

#[test]
fn array_generator_called_once_per_index_ascending() {
	let mut seen: Vec<usize> = Vec::new();
	let arr = <[usize; 6]>::init(|i| {
		seen.push(i);
		i * 2
	});
	assert_eq!(seen, vec![0, 1, 2, 3, 4, 5]);
	assert_eq!(arr, [0, 2, 4, 6, 8, 10]);
}

#[test]
fn vec_generator_called_once_per_index_ascending() {
	let mut seen: Vec<usize> = Vec::new();
	let vec = Vec::<usize>::init_with(4, |i| {
		seen.push(i);
		i + 100
	});
	assert_eq!(seen, vec![0, 1, 2, 3]);
	assert_eq!(vec, vec![100, 101, 102, 103]);
}

#[test]
fn empty_containers_never_call_generator() {
	let mut calls = 0;
	let arr = <[u8; 0]>::init(|_| {
		calls += 1;
		0
	});
	assert_eq!(arr.len(), 0);
	let vec = Vec::<u8>::init_with(0, |_| {
		calls += 1;
		0
	});
	assert_eq!(vec.len(), 0);
	let grid = <[[u8; 0]; 3] as Init<u8, [usize; 2]>>::init(|_| {
		calls += 1;
		0
	});
	assert_eq!(grid.len(), 3);
	let none = <[[u8; 3]; 0] as Init<u8, [usize; 2]>>::init(|_| {
		calls += 1;
		0
	});
	assert_eq!(none.len(), 0);
	assert_eq!(calls, 0);
}

#[test]
fn grid_index_lists_innermost_position_first() {
	let grid = <[[usize; 3]; 2] as Init<usize, [usize; 2]>>::init(|[i1, i2]| 10 * i2 + i1);
	assert_eq!(grid, [[0, 1, 2], [10, 11, 12]]);
}

#[test]
fn grid_generator_called_row_by_row() {
	let mut seen: Vec<[usize; 2]> = Vec::new();
	let grid = <[[usize; 2]; 3] as Init<usize, [usize; 2]>>::init(|index| {
		seen.push(index);
		index[0] + index[1]
	});
	assert_eq!(seen, vec![[0, 0], [1, 0], [0, 1], [1, 1], [0, 2], [1, 2]]);
	assert_eq!(grid, [[0, 1], [1, 2], [2, 3]]);
}

#[test]
fn cube_holds_generator_value_at_each_index() {
	let cube = <[[[usize; 2]; 3]; 2] as Init<usize, [usize; 3]>>::init(|[i1, i2, i3]| 100 * i3 + 10 * i2 + i1);
	assert_eq!(cube, [
		[[0, 1], [10, 11], [20, 21]],
		[[100, 101], [110, 111], [120, 121]],
	]);
	for i3 in 0..2 {
		for i2 in 0..3 {
			for i1 in 0..2 {
				assert_eq!(cube[i3][i2][i1], 100 * i3 + 10 * i2 + i1);
			}
		}
	}
}

#[test]
fn six_dimensions_called_once_per_index() {
	let mut calls = 0;
	let arr = <[[[[[[usize; 2]; 1]; 3]; 2]; 1]; 2] as Init<usize, [usize; 6]>>::init(|index| {
		calls += 1;
		index[0] + 2 * index[2] + 6 * index[3] + 12 * index[5]
	});
	assert_eq!(calls, 24);
	assert_eq!(arr[1][0][1][2][0][1], 1 + 4 + 6 + 12);
	assert_eq!(arr[0][0][0][0][0][0], 0);
}

#[test]
fn reading_twice_gives_the_same_value() {
	let arr = <[usize; 4]>::init(|i| i * 3);
	let first = arr[2];
	let second = arr[2];
	assert_eq!(first, 6);
	assert_eq!(first, second);
	assert_eq!(arr, [0, 3, 6, 9]);
	let vec = Vec::<usize>::init_with(4, |i| i * 5);
	assert_eq!(vec[3], 15);
	assert_eq!(vec[3], vec[3]);
	assert_eq!(vec, vec![0, 5, 10, 15]);
}

#[test]
fn same_generator_gives_equal_containers() {
	let first = <[usize; 7]>::init(|i| i * i);
	let second = <[usize; 7]>::init(|i| i * i);
	assert_eq!(first, second);
	assert_eq!(first[6], 36);
}

#[test]
fn collect_keeps_order() {
	let mut generator = |i: usize| 9 - i;
	let items = collect(3, &mut generator);
	assert_eq!(items, vec![9, 8, 7]);
	let more = collect(0, &mut generator);
	assert_eq!(more, Vec::<usize>::new());
}

#[test]
fn array_of_keeps_items_and_order() {
	let arr: [u8; 3] = array_of(vec![4, 5, 6]);
	assert_eq!(arr, [4, 5, 6]);
	let none: [u8; 0] = array_of(Vec::new());
	assert_eq!(none, []);
	let words: [String; 2] = array_of(vec![String::from("a"), String::from("b")]);
	assert_eq!(words, ["a", "b"]);
}

#[test]
fn fill_1_takes_outer_positions_from_base() {
	let mut generator = |index: [usize; 3]| index;
	let row: [[usize; 3]; 4] = fill_1(&mut generator, [9, 7, 5]);
	assert_eq!(row, [[0, 7, 5], [1, 7, 5], [2, 7, 5], [3, 7, 5]]);
}

#[test]
fn fill_2_takes_outer_positions_from_base() {
	let mut generator = |index: [usize; 3]| index;
	let grid: [[[usize; 3]; 2]; 2] = fill_2(&mut generator, [9, 7, 5]);
	assert_eq!(grid, [[[0, 0, 5], [1, 0, 5]], [[0, 1, 5], [1, 1, 5]]]);
}

#[test]
fn fill_3_replaces_three_positions() {
	let mut generator = |index: [usize; 4]| index;
	let cube: [[[[usize; 4]; 1]; 2]; 2] = fill_3(&mut generator, [8, 8, 8, 6]);
	assert_eq!(cube, [[[[0, 0, 0, 6]], [[0, 1, 0, 6]]], [[[0, 0, 1, 6]], [[0, 1, 1, 6]]]]);
}

#[test]
fn init_is_init_with_unit() {
	let short = <[usize; 4]>::init(|i| i + 1);
	let long = <[usize; 4]>::init_with((), |i| i + 1);
	assert_eq!(short, [1, 2, 3, 4]);
	assert_eq!(short, long);
	let grid = <[[usize; 2]; 2] as Init<usize, [usize; 2]>>::init(|[i1, i2]| i1 + 2 * i2);
	let same = <[[usize; 2]; 2] as Init<usize, [usize; 2]>>::init_with((), |[i1, i2]| i1 + 2 * i2);
	assert_eq!(grid, [[0, 1], [2, 3]]);
	assert_eq!(grid, same);
}
