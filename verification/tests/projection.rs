use with_cell::project::project_array_elem;
use with_cell::project::project_elem;
use with_cell::project::project_fst;
use with_cell::project::project_parts;
use with_cell::project::project_snd;
use with_cell::WithCell;

struct Foo {
    x: i32,
}

#[test]
fn test_project() {
    let tuple = (Foo { x: 0 }, Foo { x: 1 });
    let mut tuple_cell = WithCell::new(tuple, 1);
    project_fst(&mut tuple_cell).x = 99;
    let tuple = tuple_cell.into_inner();
    assert_eq!(tuple.0.x, 99);
    assert_eq!(tuple.1.x, 1);
}

#[test]
fn test_project_self() {
    // The zero-length path: the handle itself.
    let mut x = WithCell::new(5, 1);
    let y = &mut x;
    *y.get_mut() = 6;
    assert_eq!(x.get(), 6);
}

#[test]
fn test_project_expr() {
    // The container is built inline inside the projecting expression.
    let mut cell = WithCell::new((Foo { x: 0 }, Foo { x: 1 }), 1);
    project_fst(&mut cell).x = 99;
    assert_eq!(cell.into_inner().0.x, 99);
}

#[test]
fn test_project_snd_frame() {
    let mut c = WithCell::new((1u32, 2u32), 1);
    *project_snd(&mut c) = 99;
    assert_eq!(c.into_inner(), (1, 99));
}

#[test]
fn test_project_parts_disjoint() {
    // Both projected handles are live at once and mutate independently.
    let mut c = WithCell::new((1u32, 2u32), 1);
    let (a, b) = project_parts(&mut c);
    *a = 10;
    *b = 20;
    assert_eq!(c.into_inner(), (10, 20));
}

#[test]
fn test_array_of_cells() {
    let mut cell = WithCell::new([1, 2, 3], 1);
    *project_array_elem(&mut cell, 0) = 99;
    assert_eq!(cell.into_inner(), [99, 2, 3]);
}

#[test]
fn test_project_array_elem_frame() {
    let mut cell = WithCell::new([1, 2, 3], 1);
    *project_array_elem(&mut cell, 2) = 7;
    assert_eq!(cell.into_inner(), [1, 2, 7]);
}

#[test]
fn test_project_vec_elem() {
    let mut cell = WithCell::new(vec![1, 2, 3], 1);
    *project_elem(&mut cell, 0) = 99;
    assert_eq!(cell.into_inner(), vec![99, 2, 3]);
}

#[test]
fn test_project_elem_frame() {
    // Writing one element leaves every other element as it was.
    let mut cell = WithCell::new(vec![1, 2, 3], 1);
    *project_elem(&mut cell, 1) = 99;
    let v = cell.into_inner();
    assert_eq!(v, vec![1, 99, 3]);
}

#[test]
fn test_project_nested_path() {
    // The path .0.1: one projection call, then a plain reborrow.
    let mut c = WithCell::new(((1u32, 2u32), 3u32), 7);
    let fst = project_fst(&mut c);
    fst.1 = 99;
    assert_eq!(c.into_inner(), ((1, 99), 3));
}
