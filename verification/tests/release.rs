use init_trait::Init;
use std::cell::Cell;
use std::rc::Rc;

struct Counted {
	dropped: Rc<Cell<usize>>,
}

impl Drop for Counted {
	fn drop(&mut self) {
		self.dropped.set(self.dropped.get() + 1);
	}
}

#[test]
fn finished_array_releases_each_element_once() {
	let made = Rc::new(Cell::new(0));
	let dropped = Rc::new(Cell::new(0));
	let arr = <[Counted; 5]>::init(|_| {
		made.set(made.get() + 1);
		Counted { dropped: dropped.clone() }
	});
	assert_eq!(made.get(), 5);
	assert_eq!(dropped.get(), 0);
	drop(arr);
	assert_eq!(dropped.get(), 5);
}

#[test]
fn finished_grid_releases_each_element_once() {
	let dropped = Rc::new(Cell::new(0));
	let grid = <[[Counted; 3]; 2] as Init<Counted, [usize; 2]>>::init(|_| Counted { dropped: dropped.clone() });
	assert_eq!(dropped.get(), 0);
	drop(grid);
	assert_eq!(dropped.get(), 6);
}

#[test]
fn finished_vec_releases_each_element_once() {
	let dropped = Rc::new(Cell::new(0));
	let vec = Vec::<Counted>::init_with(4, |_| Counted { dropped: dropped.clone() });
	assert_eq!(vec.len(), 4);
	assert_eq!(dropped.get(), 0);
	drop(vec);
	assert_eq!(dropped.get(), 4);
}
